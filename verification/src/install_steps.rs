//! The decisions of the installation screen that runs each step's commands
//! one after another: which command to start next, and what a finished
//! command does to its step. A failed command fails its step, which drops
//! the rest of that step's commands; the next step still runs.
use vstd::prelude::*;
use crate::widgets::StepStatus;
use crate::text::{owned, strings_view};

verus! {

/// A command line: the program, then its arguments.
pub type CommandLine = Vec<String>;

/// What the caller does after `begin_tick`: nothing is left to run, start a
/// command, or look at the command that runs (if one does).
#[derive(Debug)]
pub enum TickStart {
    Finished,
    Spawn(CommandLine),
    Wait,
}

pub struct InstallSteps {
    pub title: String,
    /// The commands of each step not started yet, the next step first.
    pub queue: Vec<Vec<CommandLine>>,
    pub labels: Vec<String>,
    pub statuses: Vec<StepStatus>,
    pub num_steps: usize,
    pub current_step_index: usize,
    pub running: bool,
    pub error: bool,
    /// The commands of the running step not started yet.
    pub current_commands: Option<Vec<CommandLine>>,
    /// A command of the running step has been started and has not finished.
    pub command_running: bool,
}

impl InstallSteps {
    /// Every step is counted once: finished, running, or waiting; a step runs
    /// only while it has its commands.
    pub open spec fn wf(&self) -> bool {
        &&& self.statuses@.len() == self.num_steps
        &&& self.labels@.len() == self.num_steps
        &&& self.current_step_index + self.queue@.len() + (if self.current_commands is Some {
            1int
        } else {
            0int
        }) == self.num_steps
        &&& self.command_running ==> self.current_commands is Some
        &&& self.running ==> self.current_commands is Some
    }

    /// Steps named by `labels`, each with its commands, all waiting.
    pub fn new(title: String, steps: Vec<(String, Vec<CommandLine>)>) -> (r: Self)
        ensures
            r.wf(),
            r.title == title,
            r.num_steps == steps@.len(),
            r.labels@ == steps@.map_values(|s: (String, Vec<CommandLine>)| s.0),
            r.queue@ == steps@.map_values(|s: (String, Vec<CommandLine>)| s.1),
            forall|i: int| 0 <= i < r.statuses@.len() ==> r.statuses@[i] == StepStatus::Inactive,
            r.current_step_index == 0,
            !r.running && !r.error && r.current_commands is None && !r.command_running,
    {
        let mut rest = steps;
        let ghost all = rest@;
        let mut labels: Vec<String> = Vec::new();
        let mut queue: Vec<Vec<CommandLine>> = Vec::new();
        let mut statuses: Vec<StepStatus> = Vec::new();
        let n = rest.len();
        assert(all.skip(0) =~= all);
        assert(all.take(0).map_values(|s: (String, Vec<CommandLine>)| s.0) =~= labels@);
        assert(all.take(0).map_values(|s: (String, Vec<CommandLine>)| s.1) =~= queue@);
        let mut i: usize = 0;
        while rest.len() > 0
            invariant
                i + rest@.len() == n,
                n == all.len(),
                rest@ == all.skip(i as int),
                labels@ == all.take(i as int).map_values(|s: (String, Vec<CommandLine>)| s.0),
                queue@ == all.take(i as int).map_values(|s: (String, Vec<CommandLine>)| s.1),
                statuses@.len() == i,
                forall|k: int| 0 <= k < statuses@.len() ==> statuses@[k] == StepStatus::Inactive,
            decreases rest@.len(),
        {
            let ghost rb = rest@;
            let (label, cmds) = rest.remove(0);
            assert(rest@ =~= all.skip(i + 1)) by {
                assert(rb =~= all.skip(i as int));
            }
            assert(all[i as int] == rb[0]);
            labels.push(label);
            queue.push(cmds);
            statuses.push(StepStatus::Inactive);
            assert(all.take(i + 1) =~= all.take(i as int).push(all[i as int]));
            assert(labels@ =~= all.take(i + 1).map_values(|s: (String, Vec<CommandLine>)| s.0));
            assert(queue@ =~= all.take(i + 1).map_values(|s: (String, Vec<CommandLine>)| s.1));
            i = i + 1;
        }
        assert(all.take(n as int) =~= all);
        InstallSteps {
            title,
            queue,
            labels,
            statuses,
            num_steps: n,
            current_step_index: 0,
            running: false,
            error: false,
            current_commands: None,
            command_running: false,
        }
    }

    /// Takes the next waiting step, marks it running and makes its commands
    /// the current ones; nothing when a step is already current or none waits.
    pub fn start_next_step(&mut self)
        requires
            old(self).wf(),
        ensures
            final(self).wf(),
            final(self).running == old(self).running && final(self).error == old(self).error,
            final(self).command_running == old(self).command_running,
            final(self).current_step_index == old(self).current_step_index,
            final(self).labels@ == old(self).labels@,
            if old(self).current_commands is None && old(self).queue@.len() > 0 {
                &&& final(self).current_commands == Some(old(self).queue@[0])
                &&& final(self).queue@ == old(self).queue@.drop_first()
                &&& final(self).statuses@ == old(self).statuses@.update(
                    old(self).current_step_index as int,
                    StepStatus::Running,
                )
            } else {
                &&& final(self).current_commands == old(self).current_commands
                &&& final(self).queue@ == old(self).queue@
                &&& final(self).statuses@ == old(self).statuses@
            },
    {
        if self.current_commands.is_some() {
            return;
        }
        if self.queue.len() > 0 {
            let cmds = self.queue.remove(0);
            let i = self.current_step_index;
            self.statuses.set(i, StepStatus::Running);
            self.current_commands = Some(cmds);
        }
    }

    /// The first half of a tick. With no step running it starts the next one,
    /// or answers `Finished` when none is left. Then, when no command of the
    /// step runs and one is left, it hands out that command to be started.
    /// Otherwise the caller looks at the command that runs.
    pub fn begin_tick(&mut self) -> (r: TickStart)
        requires
            old(self).wf(),
        ensures
            final(self).wf(),
            final(self).error == old(self).error,
            final(self).command_running == old(self).command_running,
            final(self).current_step_index == old(self).current_step_index,
            final(self).labels@ == old(self).labels@,
            ({
                let started = !old(self).running && old(self).current_commands is None
                    && old(self).queue@.len() > 0;
                let cur = if started { Some(old(self).queue@[0]) } else { old(self).current_commands };
                &&& final(self).queue@ == (if started { old(self).queue@.drop_first() } else { old(self).queue@ })
                &&& final(self).statuses@ == (if started {
                    old(self).statuses@.update(old(self).current_step_index as int, StepStatus::Running)
                } else {
                    old(self).statuses@
                })
                &&& if !old(self).running && cur is None {
                    r is Finished && !final(self).running && final(self).current_commands is None
                } else {
                    &&& final(self).running
                    &&& if !old(self).command_running && cur->0@.len() > 0 {
                        &&& r == TickStart::Spawn(cur->0@[0])
                        &&& final(self).current_commands is Some
                        &&& final(self).current_commands->0@ == cur->0@.drop_first()
                    } else {
                        r is Wait && final(self).current_commands == cur
                    }
                }
            }),
    {
        if !self.running {
            self.start_next_step();
            if self.current_commands.is_some() {
                self.running = true;
            } else {
                return TickStart::Finished;
            }
        }
        if !self.command_running {
            let mut cmds = self.current_commands.take().unwrap();
            if cmds.len() > 0 {
                let c = cmds.remove(0);
                self.current_commands = Some(cmds);
                return TickStart::Spawn(c);
            }
            self.current_commands = Some(cmds);
        }
        TickStart::Wait
    }

    /// The command handed out by `begin_tick` has been started.
    pub fn command_started(&mut self)
        requires
            old(self).wf(),
            old(self).current_commands is Some,
        ensures
            final(self).wf(),
            final(self).command_running,
            final(self).queue@ == old(self).queue@,
            final(self).statuses@ == old(self).statuses@,
            final(self).current_commands == old(self).current_commands,
            final(self).current_step_index == old(self).current_step_index,
            final(self).running == old(self).running && final(self).error == old(self).error,
    {
        self.command_running = true;
    }

    /// The command that ran has finished. A failure fails the step, drops its
    /// other commands, moves on to the next step and sets the error flag for
    /// good; a success completes the step when no command of it is left.
    pub fn command_finished(&mut self, failed: bool)
        requires
            old(self).wf(),
            old(self).command_running,
        ensures
            final(self).wf(),
            !final(self).command_running,
            final(self).queue@ == old(self).queue@,
            final(self).labels@ == old(self).labels@,
            if failed {
                &&& final(self).statuses@ == old(self).statuses@.update(
                    old(self).current_step_index as int,
                    StepStatus::Failed,
                )
                &&& final(self).current_commands is None
                &&& final(self).current_step_index == old(self).current_step_index + 1
                &&& !final(self).running
                &&& final(self).error
            } else if old(self).current_commands->0@.len() == 0 {
                &&& final(self).statuses@ == old(self).statuses@.update(
                    old(self).current_step_index as int,
                    StepStatus::Completed,
                )
                &&& final(self).current_commands is None
                &&& final(self).current_step_index == old(self).current_step_index + 1
                &&& !final(self).running
                &&& final(self).error == old(self).error
            } else {
                &&& final(self).statuses@ == old(self).statuses@
                &&& final(self).current_commands == old(self).current_commands
                &&& final(self).current_step_index == old(self).current_step_index
                &&& final(self).running == old(self).running
                &&& final(self).error == old(self).error
            },
    {
        self.command_running = false;
        let i = self.current_step_index;
        if failed {
            self.statuses.set(i, StepStatus::Failed);
            self.current_commands = None;
            self.current_step_index = i + 1;
            self.running = false;
            self.error = true;
            return;
        }
        let done = match &self.current_commands {
            Some(c) => c.len() == 0,
            None => false,
        };
        if done {
            self.statuses.set(i, StepStatus::Completed);
            self.current_commands = None;
            self.current_step_index = i + 1;
            self.running = false;
        }
    }

    /// Nothing runs, nothing failed, and no step is left.
    pub fn is_complete(&self) -> (r: bool)
        ensures
            r == (!self.running && !self.error && self.queue@.len() == 0 && self.current_commands is None),
    {
        !self.running && !self.error && self.queue.len() == 0 && self.current_commands.is_none()
    }

    pub fn has_error(&self) -> (r: bool)
        ensures
            r == self.error,
    {
        self.error
    }
}

/// A shell command line: `sh -c` and the script.
pub open spec fn shell(script: Seq<char>) -> Seq<Seq<char>> {
    seq!["sh"@, "-c"@, script]
}

/// The steps of the installation and their command lines: the backend runs
/// on the system and drive configuration files, its output appended to the
/// log, then a pause before the installation is finished.
pub open spec fn install_commands_spec(system_cfg: Seq<char>, disk_cfg: Seq<char>, log: Seq<char>) -> Seq<
    (Seq<char>, Seq<Seq<Seq<char>>>),
> {
    let logs_at = "echo Writing logs in "@ + log + " >> "@ + log + " 2>&1"@;
    seq![
        ("Athena OS Installation..."@, seq![
            shell("echo Beginning Athena OS Installation... > "@ + log + " 2>&1"@),
            shell(logs_at),
            shell(
                "\"aegis\" \\\n              --system-file \""@ + system_cfg + "\" --drives-file \""@ + disk_cfg
                    + "\" >> \""@ + log + "\" 2>&1"@,
            ),
            shell(logs_at),
        ]),
        ("Finalizing installation..."@, seq![shell("sleep 5"@)]),
    ]
}

/// The views of a list of steps with their command lines.
pub open spec fn steps_view(v: Seq<(String, Vec<CommandLine>)>) -> Seq<(Seq<char>, Seq<Seq<Seq<char>>>)> {
    v.map_values(|s: (String, Vec<CommandLine>)| (s.0@, s.1@.map_values(|c: CommandLine| strings_view(c@))))
}

fn shell_exec(script: String) -> (r: CommandLine)
    ensures
        strings_view(r@) == shell(script@),
{
    let r = vec![owned("sh"), owned("-c"), script];
    assert(strings_view(r@) =~= shell(script@));
    r
}

/// The installation's steps and command lines (see `install_commands_spec`).
pub fn install_commands(system_cfg_path: &str, disk_cfg_path: &str, log_file_path: &str) -> (r: Vec<
    (String, Vec<CommandLine>),
>)
    ensures
        steps_view(r@) == install_commands_spec(system_cfg_path@, disk_cfg_path@, log_file_path@),
{
    let mut begin = owned("echo Beginning Athena OS Installation... > ");
    begin.append(log_file_path);
    begin.append(" 2>&1");
    let mut logs_at = owned("echo Writing logs in ");
    logs_at.append(log_file_path);
    logs_at.append(" >> ");
    logs_at.append(log_file_path);
    logs_at.append(" 2>&1");
    let mut run = owned("\"aegis\" \\\n              --system-file \"");
    run.append(system_cfg_path);
    run.append("\" --drives-file \"");
    run.append(disk_cfg_path);
    run.append("\" >> \"");
    run.append(log_file_path);
    run.append("\" 2>&1");
    let first = vec![
        shell_exec(begin),
        shell_exec(logs_at.clone()),
        shell_exec(run),
        shell_exec(logs_at),
    ];
    let second = vec![shell_exec(owned("sleep 5"))];
    let r = vec![(owned("Athena OS Installation..."), first), (owned("Finalizing installation..."), second)];
    assert(steps_view(r@) =~= install_commands_spec(system_cfg_path@, disk_cfg_path@, log_file_path@)) by {
        assert(r@[0].1@.map_values(|c: CommandLine| strings_view(c@)) =~= install_commands_spec(
            system_cfg_path@,
            disk_cfg_path@,
            log_file_path@,
        )[0].1);
        assert(r@[1].1@.map_values(|c: CommandLine| strings_view(c@)) =~= install_commands_spec(
            system_cfg_path@,
            disk_cfg_path@,
            log_file_path@,
        )[1].1);
    }
    r
}

} // verus!
