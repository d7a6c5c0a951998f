use reika_printer::command::{Command, Font, JustifyMode, UnderlineMode};
use reika_printer::reprint::{
    build_reprint_marker_commands, find_content_midpoint, inject_reprint_markers,
    inject_reprint_markers_at, is_content_command, strip_frame, FormattingState,
};

fn writeln(text: &str) -> Command {
    Command::Writeln(text.to_string())
}

fn marker(timestamp: &str) -> Vec<Command> {
    vec![
        Command::Justify(JustifyMode::CENTER),
        Command::Reverse(true),
        writeln("================================"),
        writeln("     ** REPRINT COPY **"),
        writeln(&format!("  {}", timestamp)),
        writeln("  REIKA-escpos"),
        writeln("================================"),
        Command::Reverse(false),
        Command::Justify(JustifyMode::LEFT),
    ]
}

fn reset() -> Vec<Command> {
    vec![
        Command::Bold(false),
        Command::Underline(UnderlineMode::Off),
        Command::DoubleStrike(false),
        Command::Reverse(false),
        Command::Justify(JustifyMode::LEFT),
        Command::ResetSize(None),
        Command::Smoothing(false),
        Command::Flip(false),
        Command::UpsideDown(false),
        Command::Font(Font::A),
    ]
}

fn legend_count(job: &[Command]) -> usize {
    job.iter()
        .filter(|c| matches!(c, Command::Writeln(text) if text.contains("REPRINT COPY")))
        .count()
}

#[test]
fn test_formatting_state_default() {
    let state = FormattingState::default();
    assert!(!state.bold);
    assert!(matches!(state.underline, UnderlineMode::Off));
    assert!(matches!(state.justify, JustifyMode::LEFT));
    assert_eq!(state.size, (1, 1));
}

#[test]
fn test_formatting_state_apply() {
    let mut state = FormattingState::default();
    state.apply(&Command::Bold(true));
    assert!(state.bold);
    state.apply(&Command::Size((2, 3)));
    assert_eq!(state.size, (2, 3));
    state.apply(&Command::Init(None));
    assert!(!state.bold);
    assert_eq!(state.size, (1, 1));
}

#[test]
fn test_restore_only_emits_non_defaults() {
    let state = FormattingState::default();
    assert!(state.restore_commands().is_empty());

    let mut state2 = FormattingState::default();
    state2.apply(&Command::Bold(true));
    state2.apply(&Command::Justify(JustifyMode::CENTER));
    let cmds = state2.restore_commands();
    assert_eq!(cmds.len(), 2);
}

#[test]
fn test_find_content_midpoint() {
    let commands = vec![
        Command::Bold(true),
        Command::Writeln("line 1".to_string()),
        Command::Writeln("line 2".to_string()),
        Command::Bold(false),
        Command::Writeln("line 3".to_string()),
        Command::Writeln("line 4".to_string()),
    ];
    // 4 content commands, target = 2: the split lies right behind the 3rd
    // content command, which stands at index 4.
    let mid = find_content_midpoint(&commands);
    assert_eq!(mid, 5);
}

#[test]
fn test_inject_reprint_markers_structure() {
    let commands = vec![
        Command::Init(None),
        Command::Writeln("Hello".to_string()),
        Command::Writeln("World".to_string()),
        Command::PrintCut(None),
    ];
    let result = inject_reprint_markers(commands);
    // Should start with Init
    assert!(matches!(result.first(), Some(Command::Init(None))));
    // Should end with PrintCut
    assert!(matches!(result.last(), Some(Command::PrintCut(None))));
    // Should contain "REPRINT COPY" markers (3 of them: top, mid, bottom)
    let reprint_count = result
        .iter()
        .filter(|c| matches!(c, Command::Writeln(text) if text.contains("REPRINT COPY")))
        .count();
    assert_eq!(reprint_count, 3);
}

#[test]
fn reprint_of_bold_job_restores_bold_at_midpoint() {
    let job = vec![
        Command::Bold(true),
        writeln("A"),
        writeln("B"),
        Command::Bold(false),
        writeln("C"),
    ];
    assert_eq!(find_content_midpoint(&job), 3);

    let stamp = "2024-05-06  07:08:09";
    let result = inject_reprint_markers_at(job, stamp);

    let mut expected = vec![Command::Init(None)];
    expected.extend(marker(stamp));
    expected.extend(reset());
    expected.extend(vec![Command::Bold(true), writeln("A"), writeln("B")]);
    expected.extend(reset());
    expected.push(Command::Feed(true));
    expected.extend(marker(stamp));
    expected.push(Command::Feed(true));
    expected.push(Command::Bold(true));
    expected.extend(vec![Command::Bold(false), writeln("C")]);
    expected.extend(reset());
    expected.push(Command::Feed(true));
    expected.extend(marker(stamp));
    expected.push(Command::PrintCut(None));
    assert!(result == expected);
    assert_eq!(legend_count(&result), 3);
}

#[test]
fn reprint_without_content_still_has_three_markers() {
    let stamp = "2024-01-01  00:00:00";
    let result = inject_reprint_markers_at(vec![Command::Bold(true), Command::Cut(None)], stamp);

    let mut expected = vec![Command::Init(None)];
    expected.extend(marker(stamp));
    expected.extend(reset());
    expected.push(Command::Bold(true));
    expected.extend(reset());
    expected.push(Command::Feed(true));
    expected.extend(marker(stamp));
    expected.push(Command::Feed(true));
    expected.push(Command::Bold(true));
    expected.extend(reset());
    expected.push(Command::Feed(true));
    expected.extend(marker(stamp));
    expected.push(Command::PrintCut(None));
    assert!(result == expected);
    assert_eq!(legend_count(&result), 3);

    let empty = inject_reprint_markers_at(Vec::new(), stamp);
    assert_eq!(legend_count(&empty), 3);
    assert_eq!(empty.len(), 1 + 9 + 10 + 10 + 1 + 9 + 1 + 10 + 1 + 9 + 1);
}

#[test]
fn reprint_drops_every_cut_of_the_job() {
    let job = vec![
        Command::Init(None),
        writeln("one"),
        Command::Cut(None),
        writeln("two"),
        Command::PartialCut(None),
        writeln("three"),
        Command::PrintCut(None),
    ];
    let result = inject_reprint_markers(job);
    assert!(matches!(result.first(), Some(Command::Init(None))));
    assert!(matches!(result.last(), Some(Command::PrintCut(None))));
    let inner = &result[..result.len() - 1];
    assert!(inner.iter().all(|c| !matches!(
        c,
        Command::Cut(_) | Command::PartialCut(_) | Command::PrintCut(_)
    )));
    let inits = result.iter().filter(|c| matches!(c, Command::Init(_))).count();
    assert_eq!(inits, 1);
    assert_eq!(legend_count(&result), 3);
}

#[test]
fn strip_frame_keeps_an_init_that_does_not_open_the_job() {
    let job = vec![
        Command::Cut(None),
        Command::Init(None),
        writeln("x"),
        Command::Init(None),
        Command::PrintCut(None),
    ];
    let body = strip_frame(job);
    assert!(body == vec![writeln("x"), Command::Init(None)]);

    let plain = strip_frame(vec![Command::Bold(true), Command::Init(None)]);
    assert!(plain == vec![Command::Bold(true), Command::Init(None)]);
}

#[test]
fn midpoint_of_small_jobs() {
    assert_eq!(find_content_midpoint(&[]), 0);
    assert_eq!(find_content_midpoint(&[Command::Bold(true), Command::Feed(true)]), 2);
    assert_eq!(find_content_midpoint(&[writeln("only")]), 1);
    assert_eq!(find_content_midpoint(&[writeln("a"), Command::Bold(true), writeln("b")]), 3);
    assert_eq!(
        find_content_midpoint(&[
            Command::Qrcode("q".to_string()),
            Command::Ean13("123".to_string()),
            Command::Write("w".to_string()),
        ]),
        2
    );
}

#[test]
fn init_in_first_half_resets_the_restored_state() {
    let stamp = "2024-05-06  07:08:09";
    let job = vec![
        Command::Bold(true),
        Command::Size((2, 2)),
        Command::Reset(None),
        Command::Font(Font::B),
        writeln("A"),
        writeln("B"),
    ];
    let result = inject_reprint_markers_at(job, stamp);
    // head: 1 + 9 + 10, first half: 6 commands (split behind "B"), middle up
    // to the restore commands: 10 + 1 + 9 + 1.
    let restore_at = 20 + 6 + 21;
    assert!(result[restore_at] == Command::Font(Font::B));
    assert!(result[restore_at + 1] == Command::Bold(false));
    assert_eq!(result.len(), 20 + 6 + 21 + 1 + 0 + 21);
}

#[test]
fn restore_emits_one_command_per_changed_attribute() {
    let state = FormattingState {
        bold: true,
        underline: UnderlineMode::Double,
        double_strike: true,
        reverse: true,
        justify: JustifyMode::RIGHT,
        size: (1, 2),
        smoothing: true,
        flip: true,
        upside_down: true,
        font: Font::C,
    };
    let expected = vec![
        Command::Bold(true),
        Command::Underline(UnderlineMode::Double),
        Command::DoubleStrike(true),
        Command::Reverse(true),
        Command::Justify(JustifyMode::RIGHT),
        Command::Size((1, 2)),
        Command::Smoothing(true),
        Command::Flip(true),
        Command::UpsideDown(true),
        Command::Font(Font::C),
    ];
    assert!(state.restore_commands() == expected);

    let mut replayed = FormattingState::default();
    for command in FormattingState::reset_commands() {
        replayed.apply(&command);
    }
    assert!(replayed.restore_commands().is_empty());

    let mut after_reset = state;
    for command in FormattingState::reset_commands() {
        after_reset.apply(&command);
    }
    assert!(after_reset.restore_commands().is_empty());
    assert!(FormattingState::reset_commands() == reset());
}

#[test]
fn marker_carries_the_stamp() {
    let block = build_reprint_marker_commands("2031-12-24  18:00:00");
    assert!(block == marker("2031-12-24  18:00:00"));
    assert!(is_content_command(&block[3]));
    assert!(!is_content_command(&block[0]));
}

#[test]
fn stamp_of_the_clock_has_the_expected_shape() {
    let result = inject_reprint_markers(vec![writeln("x")]);
    let stamp = match &result[5] {
        Command::Writeln(text) => text.clone(),
        other => panic!("expected the stamp line, found {:?}", other),
    };
    assert!(stamp.starts_with("  "));
    let stamp = &stamp[2..];
    assert_eq!(stamp.len(), 20);
    let bytes = stamp.as_bytes();
    assert_eq!(bytes[4], b'-');
    assert_eq!(bytes[7], b'-');
    assert_eq!(&stamp[10..12], "  ");
    assert_eq!(bytes[14], b':');
    assert_eq!(bytes[17], b':');
    assert!(stamp
        .chars()
        .all(|c| c.is_ascii_digit() || c == '-' || c == ':' || c == ' '));
}
