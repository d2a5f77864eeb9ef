use aegis::install_steps::{install_commands, InstallSteps, TickStart};
use aegis::widgets::StepStatus;

fn cmd(args: &[&str]) -> Vec<String> {
    args.iter().map(|s| s.to_string()).collect()
}

fn runner() -> InstallSteps {
    InstallSteps::new(
        "Installing".to_string(),
        vec![
            ("Partition".to_string(), vec![cmd(&["sgdisk", "-Z"]), cmd(&["mkfs.ext4", "/dev/sda2"])]),
            ("Base".to_string(), vec![cmd(&["pacstrap", "/mnt"])]),
        ],
    )
}

#[test]
fn steps_run_their_commands_in_order() {
    let mut s = runner();
    assert_eq!(s.labels, vec!["Partition", "Base"]);
    assert!(matches!(s.begin_tick(), TickStart::Spawn(c) if c == cmd(&["sgdisk", "-Z"])));
    assert_eq!(s.statuses, vec![StepStatus::Running, StepStatus::Inactive]);
    s.command_started();
    assert!(matches!(s.begin_tick(), TickStart::Wait));
    s.command_finished(false);
    assert_eq!(s.statuses[0], StepStatus::Running);
    assert!(matches!(s.begin_tick(), TickStart::Spawn(c) if c == cmd(&["mkfs.ext4", "/dev/sda2"])));
    s.command_started();
    s.command_finished(false);
    assert_eq!(s.statuses[0], StepStatus::Completed);
    assert_eq!(s.current_step_index, 1);
    assert!(matches!(s.begin_tick(), TickStart::Spawn(c) if c == cmd(&["pacstrap", "/mnt"])));
    s.command_started();
    s.command_finished(false);
    assert!(matches!(s.begin_tick(), TickStart::Finished));
    assert!(s.is_complete());
    assert!(!s.has_error());
}

#[test]
fn a_failed_command_fails_its_step_and_the_next_step_still_runs() {
    let mut s = runner();
    assert!(matches!(s.begin_tick(), TickStart::Spawn(_)));
    s.command_started();
    s.command_finished(true);
    assert_eq!(s.statuses[0], StepStatus::Failed);
    assert!(s.has_error());
    assert!(matches!(s.begin_tick(), TickStart::Spawn(c) if c == cmd(&["pacstrap", "/mnt"])));
    s.command_started();
    s.command_finished(false);
    assert_eq!(s.statuses, vec![StepStatus::Failed, StepStatus::Completed]);
    assert!(matches!(s.begin_tick(), TickStart::Finished));
    assert!(!s.is_complete());
}

#[test]
fn no_steps_means_finished_at_once() {
    let mut s = InstallSteps::new("Nothing".to_string(), vec![]);
    assert!(matches!(s.begin_tick(), TickStart::Finished));
    assert!(s.is_complete());
}

#[test]
fn installation_command_lines() {
    let steps = install_commands("/tmp/sys.json", "/tmp/disk.json", "/tmp/aegis.log");
    let log = "/tmp/aegis.log";
    assert_eq!(steps.len(), 2);
    assert_eq!(steps[0].0, "Athena OS Installation...");
    assert_eq!(
        steps[0].1,
        vec![
            cmd(&["sh", "-c", &format!("echo Beginning Athena OS Installation... > {log} 2>&1")]),
            cmd(&["sh", "-c", &format!("echo Writing logs in {log} >> {log} 2>&1")]),
            cmd(&[
                "sh",
                "-c",
                &format!(
                    r#""aegis" \
              --system-file "{}" --drives-file "{}" >> "{}" 2>&1"#,
                    "/tmp/sys.json", "/tmp/disk.json", log
                ),
            ]),
            cmd(&["sh", "-c", &format!("echo Writing logs in {log} >> {log} 2>&1")]),
        ]
    );
    assert_eq!(steps[1].0, "Finalizing installation...");
    assert_eq!(steps[1].1, vec![cmd(&["sh", "-c", "sleep 5"])]);
    let runner = InstallSteps::new("Install Steps".to_string(), steps);
    assert_eq!(runner.num_steps, 2);
}
