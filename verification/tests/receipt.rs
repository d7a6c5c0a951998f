use reika_printer::command::{Command, JustifyMode, UnderlineMode};
use reika_printer::receipt::{ReceiptRenderer, TextState};

fn plain() -> TextState {
    TextState::default()
}

fn rendered(job: &[Command]) -> Vec<(String, TextState)> {
    let mut renderer = ReceiptRenderer::new();
    renderer.process_commands(job);
    renderer.lines().iter().map(|line| (line.text.clone(), line.state)).collect()
}

#[test]
fn default_text_state() {
    assert_eq!(
        plain(),
        TextState {
            bold: false,
            underline: UnderlineMode::Off,
            reverse: false,
            justify: JustifyMode::LEFT,
            size_width: 1,
            size_height: 1,
        }
    );
}

#[test]
fn a_new_renderer_has_no_lines() {
    assert!(ReceiptRenderer::new().lines().is_empty());
    assert!(rendered(&[]).is_empty());
}

#[test]
fn text_is_gathered_into_lines() {
    let job = vec![
        Command::Write("Total: ".to_string()),
        Command::Writeln("12.00".to_string()),
        Command::Writeln(String::new()),
        Command::Write("open".to_string()),
    ];
    assert_eq!(
        rendered(&job),
        vec![("Total: 12.00".to_string(), plain()), ("open".to_string(), plain())]
    );
}

#[test]
fn formatting_applies_to_the_lines_that_follow() {
    let job = vec![
        Command::Writeln("plain".to_string()),
        Command::Bold(true),
        Command::Underline(UnderlineMode::Double),
        Command::Reverse(true),
        Command::Justify(JustifyMode::RIGHT),
        Command::Size((2, 3)),
        Command::Writeln("loud".to_string()),
        Command::ResetSize(None),
        Command::Writeln("smaller".to_string()),
        Command::Init(None),
        Command::Writeln("fresh".to_string()),
    ];
    let loud = TextState {
        bold: true,
        underline: UnderlineMode::Double,
        reverse: true,
        justify: JustifyMode::RIGHT,
        size_width: 2,
        size_height: 3,
    };
    assert_eq!(
        rendered(&job),
        vec![
            ("plain".to_string(), plain()),
            ("loud".to_string(), loud),
            ("smaller".to_string(), TextState { size_width: 1, size_height: 1, ..loud }),
            ("fresh".to_string(), plain()),
        ]
    );
}

#[test]
fn text_takes_the_formatting_in_effect_when_its_line_ends() {
    let job = vec![
        Command::Write("a".to_string()),
        Command::Bold(true),
        Command::Writeln("b".to_string()),
    ];
    assert_eq!(rendered(&job), vec![("ab".to_string(), TextState { bold: true, ..plain() })]);
}

#[test]
fn feeds_cuts_and_codes_get_lines_of_their_own() {
    let job = vec![
        Command::Bold(true),
        Command::Write("pending".to_string()),
        Command::Feed(true),
        Command::Feeds(3),
        Command::Qrcode("https://example.com/a/very/long/path".to_string()),
        Command::Qrcode("short".to_string()),
        Command::Ean13("4006381333931".to_string()),
        Command::Itf("1234".to_string()),
        Command::Cut(None),
        Command::PartialCut(None),
        Command::Reset(None),
        Command::PrintCut(None),
    ];
    let bold = TextState { bold: true, ..plain() };
    let centered = TextState { justify: JustifyMode::CENTER, ..bold };
    let cut = "- - - - - - - - - - - - - - - -".to_string();
    assert_eq!(
        rendered(&job),
        vec![
            ("pending".to_string(), bold),
            (String::new(), bold),
            (String::new(), bold),
            ("[QR: https://example.com/]".to_string(), centered),
            ("[QR: short]".to_string(), centered),
            ("[BARCODE: 4006381333931]".to_string(), centered),
            ("[BARCODE: 1234]".to_string(), centered),
            (cut.clone(), plain()),
            (cut.clone(), plain()),
            (cut, plain()),
        ]
    );
}

#[test]
fn commands_without_a_trace() {
    let job = vec![
        Command::Print(None),
        Command::DoubleStrike(true),
        Command::Smoothing(true),
        Command::Flip(true),
        Command::UpsideDown(true),
        Command::LineSpacing(3),
        Command::ResetLineSpacing(None),
        Command::Pdf417("x".to_string()),
        Command::Aztec("x".to_string()),
        Command::DataMatrix("x".to_string()),
        Command::MaxiCode("x".to_string()),
        Command::GS1Databar2d("x".to_string()),
    ];
    assert!(rendered(&job).is_empty());
}

#[test]
fn truncate_keeps_the_first_characters() {
    assert_eq!(ReceiptRenderer::truncate("hello world", 5), "hello");
    assert_eq!(ReceiptRenderer::truncate("hello", 5), "hello");
    assert_eq!(ReceiptRenderer::truncate("hi", 5), "hi");
    assert_eq!(ReceiptRenderer::truncate("", 0), "");
    assert_eq!(ReceiptRenderer::truncate("abc", 0), "");
    assert_eq!(ReceiptRenderer::truncate("äöüß", 2), "äö");
}

#[test]
fn lines_are_added_one_command_at_a_time() {
    let mut renderer = ReceiptRenderer::new();
    renderer.process_command(&Command::Write("a".to_string()));
    assert!(renderer.lines().is_empty());
    renderer.flush_line();
    assert_eq!(renderer.lines().len(), 1);
    renderer.flush_line();
    assert_eq!(renderer.lines().len(), 1);
    renderer.process_command(&Command::Writeln("b".to_string()));
    assert_eq!(renderer.lines().len(), 2);
    assert_eq!(renderer.lines()[1].text, "b");
}
