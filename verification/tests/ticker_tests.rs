use aegis::ticker::{FancyTicker, TickerPhase};

fn ticker() -> FancyTicker {
    FancyTicker::new(vec!["ab".to_string(), "cd".to_string()], 1000)
}

#[test]
fn types_holds_then_deletes_from_the_front() {
    let mut t = ticker();
    assert_eq!(t.text(), "");
    t.tick(1050);
    assert_eq!(t.text(), "");
    assert_eq!(t.hue, 4);
    t.tick(1055);
    assert_eq!(t.text(), "a");
    assert!(matches!(t.phase, TickerPhase::Typing));
    t.tick(1110);
    assert_eq!(t.text(), "ab");
    assert!(matches!(t.phase, TickerPhase::FullIdle(1110)));
    t.tick(2000);
    assert!(matches!(t.phase, TickerPhase::FullIdle(1110)));
    t.tick(2910);
    assert!(matches!(t.phase, TickerPhase::Deleting));
    assert_eq!(t.last_step, 2910);
    t.tick(2945);
    assert_eq!(t.text(), "b");
    t.tick(2980);
    assert_eq!(t.text(), "");
    t.tick(3015);
    assert!(matches!(t.phase, TickerPhase::Typing));
    let next: String = t.target.iter().collect();
    assert!(next == "ab" || next == "cd");
    assert_eq!(t.hue, 4 * 8);
}

#[test]
fn an_earlier_clock_counts_as_no_time() {
    let mut t = ticker();
    t.tick(10);
    assert_eq!(t.text(), "");
    assert_eq!(t.last_step, 1000);
}

#[test]
fn a_new_phrase_starts_typing_again() {
    let mut t = ticker();
    t.tick(1100);
    t.set_phrase("xyz", 5000);
    assert_eq!(t.text(), "");
    assert_eq!(t.target, vec!['x', 'y', 'z']);
    t.tick(5055);
    assert_eq!(t.text(), "x");
}

#[test]
fn the_colour_wraps_round() {
    let mut t = ticker();
    t.hue = 65534;
    t.tick(1001);
    assert_eq!(t.hue, 2);
}
