use volume_block::poller::{last_line, next_wait, poll_step, PollStep, INITIAL_WAIT_SECONDS, MAX_WAIT_SECONDS};
use volume_block::status::{parse_status_line, ParseErrorKind, StatusReading};
use volume_block::volume::{
    Attention, VolumeBlock, HIGH_ICON, LOW_ICON, MEDIUM_ICON, MUTE_ICON, ZERO_ICON,
};

fn block_after(lines: &[&str]) -> VolumeBlock {
    let mut b = VolumeBlock::new();
    for line in lines {
        b.update_current_volume(line).unwrap();
    }
    b
}

#[test]
fn new_block_is_zero_and_unmuted() {
    let b = VolumeBlock::new();
    assert_eq!(b.current_volume(), 0);
    assert!(!b.is_muted());
    let d = VolumeBlock::default();
    assert_eq!(d.current_volume(), 0);
    assert!(!d.is_muted());
}

#[test]
fn unmuted_line_scenario() {
    let mut b = VolumeBlock::new();
    assert!(b.update_current_volume("Mono: Playback 50 [75%] [on]").is_ok());
    assert_eq!(b.current_volume(), 75);
    assert!(!b.is_muted());
    let out = b.output().unwrap();
    assert_eq!(out.primary_text, "75%");
    // floor(75 * 3 / 100) = 2: the upper of the three level icons.
    assert_eq!(out.icon, HIGH_ICON);
    assert_eq!(out.secondary_text, None);
    assert_eq!(out.attention, Attention::Dim);
}

#[test]
fn muted_line_scenario() {
    let mut b = block_after(&["Mono: Playback 30 [50%] [on]"]);
    assert!(b.update_current_volume("Mono: Playback 0 [0%] [off]").is_ok());
    assert!(b.is_muted());
    assert_eq!(b.current_volume(), 50);
    let out = b.output().unwrap();
    assert_eq!(out.primary_text, "Muted");
    assert_eq!(out.icon, MUTE_ICON);
}

#[test]
fn muted_line_on_fresh_block_shows_zero_icon() {
    let mut b = VolumeBlock::new();
    assert!(b.update_current_volume("Mono: Playback 0 [0%] [off]").is_ok());
    assert!(b.is_muted());
    assert_eq!(b.current_volume(), 0);
    let out = b.output().unwrap();
    assert_eq!(out.primary_text, "Muted");
    assert_eq!(out.icon, ZERO_ICON);
}

#[test]
fn malformed_line_scenario() {
    let mut b = block_after(&["[40%] [on]"]);
    let e = b.update_current_volume("no brackets here").unwrap_err();
    assert_eq!(e.block_name, "volume");
    assert_eq!(e.kind, ParseErrorKind::MalformedOutput);
    assert_eq!(e.message, "couldn't parse mixer output");
    assert_eq!(b.current_volume(), 40);
    assert!(!b.is_muted());
}

#[test]
fn empty_line_is_malformed() {
    let e = parse_status_line("").unwrap_err();
    assert_eq!(e.kind, ParseErrorKind::MalformedOutput);
}

#[test]
fn segment_without_mute_token_is_ambiguous() {
    let mut b = block_after(&["[20%] [on]"]);
    let e = b.update_current_volume("Mono: Playback [50%]").unwrap_err();
    assert_eq!(e.kind, ParseErrorKind::AmbiguousMuteState);
    assert_eq!(e.block_name, "volume");
    assert_eq!(e.message, "couldn't parse if volume is definitely muted or not");
    assert_eq!(b.current_volume(), 20);
}

#[test]
fn mute_token_before_bracket_is_ignored() {
    let e = parse_status_line("on off [50%]").unwrap_err();
    assert_eq!(e.kind, ParseErrorKind::AmbiguousMuteState);
}

#[test]
fn on_without_digits_is_invalid_percentage() {
    let mut b = block_after(&["[60%] [off]"]);
    let e = b.update_current_volume("Mono: [on]").unwrap_err();
    assert_eq!(e.kind, ParseErrorKind::InvalidPercentage);
    assert_eq!(
        e.message,
        format!("couldn't parse volume from ``: {}", "".parse::<i32>().unwrap_err())
    );
    assert_eq!(e.message, "couldn't parse volume from ``: cannot parse integer from empty string");
    assert!(b.is_muted());
}

#[test]
fn too_many_digits_is_invalid_percentage() {
    let e = parse_status_line("[99999999999%] [on]").unwrap_err();
    assert_eq!(e.kind, ParseErrorKind::InvalidPercentage);
    assert_eq!(
        e.message,
        "couldn't parse volume from `99999999999`: number too large to fit in target type"
    );
}

#[test]
fn largest_percentage_is_accepted() {
    assert_eq!(
        parse_status_line("[2147483647] [on]").unwrap(),
        StatusReading::Unmuted(2147483647)
    );
    assert_eq!(
        parse_status_line("[2147483648] [on]").unwrap_err().kind,
        ParseErrorKind::InvalidPercentage
    );
}

#[test]
fn all_digits_after_bracket_are_joined() {
    assert_eq!(
        parse_status_line("Front 65536 [75%] [-3.00dB] [on]").unwrap(),
        StatusReading::Unmuted(75300)
    );
    assert_eq!(parse_status_line("[007%] [on]").unwrap(), StatusReading::Unmuted(7));
}

#[test]
fn on_wins_over_off() {
    assert_eq!(parse_status_line("[75%] [on] [off]").unwrap(), StatusReading::Unmuted(75));
    assert_eq!(parse_status_line("[off]").unwrap(), StatusReading::Muted);
}

#[test]
fn reading_same_line_twice_gives_same_state() {
    for line in ["[75%] [on]", "[0%] [off]", "nothing", "[50%]"] {
        let mut once = block_after(&["[33%] [on]"]);
        let _ = once.update_current_volume(line);
        let mut twice = block_after(&["[33%] [on]"]);
        let r1 = twice.update_current_volume(line).is_ok();
        let r2 = twice.update_current_volume(line).is_ok();
        assert_eq!(r1, r2);
        assert_eq!(once.current_volume(), twice.current_volume());
        assert_eq!(once.is_muted(), twice.is_muted());
    }
}

#[test]
fn icons_follow_volume_bins() {
    let cases = [
        (1, LOW_ICON),
        (33, LOW_ICON),
        (34, MEDIUM_ICON),
        (66, MEDIUM_ICON),
        (67, HIGH_ICON),
        (100, HIGH_ICON),
        (150, HIGH_ICON),
    ];
    for (v, icon) in cases {
        let b = block_after(&[&format!("[{}%] [on]", v)]);
        assert_eq!(b.get_icon(), icon, "volume {}", v);
    }
}

#[test]
fn icon_index_never_decreases() {
    let order = [LOW_ICON, MEDIUM_ICON, HIGH_ICON];
    let mut last = 0;
    for v in 1..=120 {
        let b = block_after(&[&format!("[{}%] [on]", v)]);
        let i = order.iter().position(|c| *c == b.get_icon()).unwrap();
        assert!(i >= last);
        last = i;
    }
}

#[test]
fn zero_volume_shows_zero_icon_muted_or_not() {
    let unmuted = block_after(&["[0%] [on]"]);
    assert!(!unmuted.is_muted());
    assert_eq!(unmuted.get_icon(), ZERO_ICON);
    assert_eq!(unmuted.output().unwrap().primary_text, "Muted");
    let muted = block_after(&["[0%] [on]", "[off]"]);
    assert!(muted.is_muted());
    assert_eq!(muted.get_icon(), ZERO_ICON);
    assert_eq!(muted.output().unwrap().primary_text, "Muted");
}

#[test]
fn full_volume_shows_last_icon() {
    let b = block_after(&["[100%] [on]"]);
    assert_eq!(b.get_icon(), HIGH_ICON);
    assert_eq!(b.output().unwrap().primary_text, "100%");
}

#[test]
fn name_is_volume() {
    assert_eq!(VolumeBlock::new().name(), "volume");
}

#[test]
fn last_line_of_mixer_output() {
    let text = "Simple mixer control 'Master',0\n  Capabilities: pvolume\n  Mono: Playback 50 [75%] [on]\n";
    assert_eq!(last_line(text).unwrap(), "  Mono: Playback 50 [75%] [on]");
    assert_eq!(last_line("a\r\nb\r\n").unwrap(), "b");
    assert_eq!(last_line("a\nb").unwrap(), "b");
    assert_eq!(last_line("a\n\n").unwrap(), "");
    assert_eq!(last_line("\n").unwrap(), "");
    assert_eq!(last_line("only"), Some(String::from("only")));
    assert_eq!(last_line(""), None);
}

#[test]
fn backoff_doubles_up_to_the_cap() {
    let mut w = INITIAL_WAIT_SECONDS;
    let mut seen = vec![w];
    for _ in 0..7 {
        w = next_wait(w);
        seen.push(w);
    }
    assert_eq!(seen, vec![1, 2, 4, 8, 16, 30, 30, 30]);
    assert_eq!(next_wait(MAX_WAIT_SECONDS), 30);
    assert_eq!(next_wait(45), 45);
}

#[test]
fn poll_step_decides() {
    match poll_step(4, None) {
        PollStep::Retry { sleep_seconds, next_wait_seconds } => {
            assert_eq!(sleep_seconds, 4);
            assert_eq!(next_wait_seconds, 8);
        }
        PollStep::Done(_) => panic!("no output must retry"),
    }
    match poll_step(16, Some("")) {
        PollStep::Retry { sleep_seconds, next_wait_seconds } => {
            assert_eq!(sleep_seconds, 16);
            assert_eq!(next_wait_seconds, 30);
        }
        PollStep::Done(_) => panic!("empty output must retry"),
    }
    match poll_step(1, Some("x\n[5%] [on]\n")) {
        PollStep::Done(line) => assert_eq!(line, "[5%] [on]"),
        PollStep::Retry { .. } => panic!("a line must be returned"),
    }
}

#[test]
fn same_line_from_same_state_gives_equal_errors() {
    for line in ["[on]", "[99999999999%] [on]", "plain", "[mute]"] {
        let mut a = block_after(&["[10%] [on]"]);
        let mut b = block_after(&["[10%] [on]"]);
        let ea = a.update_current_volume(line).unwrap_err();
        let eb = b.update_current_volume(line).unwrap_err();
        assert_eq!(ea.kind, eb.kind);
        assert_eq!(ea.block_name, eb.block_name);
        assert_eq!(ea.message, eb.message);
        assert_eq!(a.current_volume(), b.current_volume());
        assert_eq!(a.is_muted(), b.is_muted());
    }
}
