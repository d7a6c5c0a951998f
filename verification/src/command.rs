//! The print job model: a closed set of operations that describes a receipt
//! independently of its encoding on the wire.

use vstd::prelude::*;

verus! {

/// Code page selected for the printer's character table.
#[derive(Debug, Clone, Copy, PartialEq, Eq, Structural)]
pub enum PageCode {
    PC437,
    Katakana,
    PC850,
    PC860,
    PC863,
    PC865,
    Hiragana,
    PC851,
    PC853,
    PC857,
    PC737,
    ISO8859_7,
    WPC1252,
    PC866,
    PC852,
    PC858,
    PC720,
    WPC775,
    PC855,
    PC861,
    PC862,
    PC864,
    PC869,
    ISO8859_2,
    ISO8859_15,
    PC1098,
    PC1118,
    PC1119,
    PC1125,
    WPC1250,
    WPC1251,
    WPC1253,
    WPC1254,
    WPC1255,
    WPC1256,
    WPC1257,
    WPC1258,
    KZ1048,
}

/// International character set.
#[derive(Debug, Clone, Copy, PartialEq, Eq, Structural)]
pub enum CharacterSet {
    USA,
    France,
    Germany,
    UK,
    Denmark1,
    Sweden,
    Italy,
    Spain1,
    Japan,
    Norway,
    Denmark2,
    Spain2,
    LatinAmerica,
    Korea,
    SloveniaCroatia,
    China,
    Vietnam,
    Arabia,
    IndiaDevanagari,
    IndiaBengali,
    IndiaTamil,
    IndiaTelugu,
    IndiaAssamese,
    IndiaOriya,
    IndiaKannada,
    IndiaMalayalam,
    IndiaGujarati,
    IndiaPunjabi,
    IndiaMarathi,
}

/// Underline thickness.
#[derive(Debug, Clone, Copy, PartialEq, Eq, Structural)]
pub enum UnderlineMode {
    Off,
    Single,
    Double,
}

/// Built-in printer font.
#[derive(Debug, Clone, Copy, PartialEq, Eq, Structural)]
pub enum Font {
    A,
    B,
    C,
}

/// Horizontal alignment of printed lines.
#[derive(Debug, Clone, Copy, PartialEq, Eq, Structural)]
pub enum JustifyMode {
    LEFT,
    CENTER,
    RIGHT,
}

/// Connector pin that pulses the cash drawer.
#[derive(Debug, Clone, Copy, PartialEq, Eq, Structural)]
pub enum CashDrawer {
    Pin2,
    Pin5,
}

/// One operation of a print job.
///
/// A job is an ordered list of commands; a formatting command applies to the
/// content commands that follow it.
#[derive(Debug)]
pub enum Command {
    Print(Option<()>),
    Init(Option<()>),
    Reset(Option<()>),
    Cut(Option<()>),
    PartialCut(Option<()>),
    PrintCut(Option<()>),
    PageCode(PageCode),
    CharacterSet(CharacterSet),
    Bold(bool),
    Underline(UnderlineMode),
    DoubleStrike(bool),
    Font(Font),
    Flip(bool),
    Justify(JustifyMode),
    Reverse(bool),
    Size((u8, u8)),
    ResetSize(Option<()>),
    Smoothing(bool),
    Feed(bool),
    Feeds(u8),
    LineSpacing(u8),
    ResetLineSpacing(Option<()>),
    UpsideDown(bool),
    CashDrawer(CashDrawer),
    Write(String),
    Writeln(String),
    Ean13(String),
    Ean8(String),
    Upca(String),
    Upce(String),
    Code39(String),
    Codabar(String),
    Itf(String),
    Qrcode(String),
    GS1Databar2d(String),
    Pdf417(String),
    MaxiCode(String),
    DataMatrix(String),
    Aztec(String),
}

/// Mathematical value of a [`Command`]: the same variants, with text held as
/// a sequence of characters.
pub enum CommandView {
    Print(Option<()>),
    Init(Option<()>),
    Reset(Option<()>),
    Cut(Option<()>),
    PartialCut(Option<()>),
    PrintCut(Option<()>),
    PageCode(PageCode),
    CharacterSet(CharacterSet),
    Bold(bool),
    Underline(UnderlineMode),
    DoubleStrike(bool),
    Font(Font),
    Flip(bool),
    Justify(JustifyMode),
    Reverse(bool),
    Size((u8, u8)),
    ResetSize(Option<()>),
    Smoothing(bool),
    Feed(bool),
    Feeds(u8),
    LineSpacing(u8),
    ResetLineSpacing(Option<()>),
    UpsideDown(bool),
    CashDrawer(CashDrawer),
    Write(Seq<char>),
    Writeln(Seq<char>),
    Ean13(Seq<char>),
    Ean8(Seq<char>),
    Upca(Seq<char>),
    Upce(Seq<char>),
    Code39(Seq<char>),
    Codabar(Seq<char>),
    Itf(Seq<char>),
    Qrcode(Seq<char>),
    GS1Databar2d(Seq<char>),
    Pdf417(Seq<char>),
    MaxiCode(Seq<char>),
    DataMatrix(Seq<char>),
    Aztec(Seq<char>),
}

impl View for Command {
    type V = CommandView;

    open spec fn view(&self) -> CommandView {
        match *self {
            Command::Print(p) => CommandView::Print(p),
            Command::Init(p) => CommandView::Init(p),
            Command::Reset(p) => CommandView::Reset(p),
            Command::Cut(p) => CommandView::Cut(p),
            Command::PartialCut(p) => CommandView::PartialCut(p),
            Command::PrintCut(p) => CommandView::PrintCut(p),
            Command::PageCode(c) => CommandView::PageCode(c),
            Command::CharacterSet(c) => CommandView::CharacterSet(c),
            Command::Bold(b) => CommandView::Bold(b),
            Command::Underline(m) => CommandView::Underline(m),
            Command::DoubleStrike(b) => CommandView::DoubleStrike(b),
            Command::Font(f) => CommandView::Font(f),
            Command::Flip(b) => CommandView::Flip(b),
            Command::Justify(m) => CommandView::Justify(m),
            Command::Reverse(b) => CommandView::Reverse(b),
            Command::Size(s) => CommandView::Size(s),
            Command::ResetSize(p) => CommandView::ResetSize(p),
            Command::Smoothing(b) => CommandView::Smoothing(b),
            Command::Feed(b) => CommandView::Feed(b),
            Command::Feeds(n) => CommandView::Feeds(n),
            Command::LineSpacing(n) => CommandView::LineSpacing(n),
            Command::ResetLineSpacing(p) => CommandView::ResetLineSpacing(p),
            Command::UpsideDown(b) => CommandView::UpsideDown(b),
            Command::CashDrawer(p) => CommandView::CashDrawer(p),
            Command::Write(s) => CommandView::Write(s@),
            Command::Writeln(s) => CommandView::Writeln(s@),
            Command::Ean13(s) => CommandView::Ean13(s@),
            Command::Ean8(s) => CommandView::Ean8(s@),
            Command::Upca(s) => CommandView::Upca(s@),
            Command::Upce(s) => CommandView::Upce(s@),
            Command::Code39(s) => CommandView::Code39(s@),
            Command::Codabar(s) => CommandView::Codabar(s@),
            Command::Itf(s) => CommandView::Itf(s@),
            Command::Qrcode(s) => CommandView::Qrcode(s@),
            Command::GS1Databar2d(s) => CommandView::GS1Databar2d(s@),
            Command::Pdf417(s) => CommandView::Pdf417(s@),
            Command::MaxiCode(s) => CommandView::MaxiCode(s@),
            Command::DataMatrix(s) => CommandView::DataMatrix(s@),
            Command::Aztec(s) => CommandView::Aztec(s@),
        }
    }
}

impl CommandView {
    /// Text and symbols: what leaves visible marks on the paper.
    pub open spec fn is_content(self) -> bool {
        match self {
            CommandView::Write(_)
            | CommandView::Writeln(_)
            | CommandView::Ean13(_)
            | CommandView::Ean8(_)
            | CommandView::Upca(_)
            | CommandView::Upce(_)
            | CommandView::Code39(_)
            | CommandView::Codabar(_)
            | CommandView::Itf(_)
            | CommandView::Qrcode(_)
            | CommandView::GS1Databar2d(_)
            | CommandView::Pdf417(_)
            | CommandView::MaxiCode(_)
            | CommandView::DataMatrix(_)
            | CommandView::Aztec(_) => true,
            _ => false,
        }
    }

    /// A command that sets one formatting attribute.
    pub open spec fn is_formatting(self) -> bool {
        match self {
            CommandView::Bold(_)
            | CommandView::Underline(_)
            | CommandView::DoubleStrike(_)
            | CommandView::Reverse(_)
            | CommandView::Justify(_)
            | CommandView::Size(_)
            | CommandView::ResetSize(_)
            | CommandView::Smoothing(_)
            | CommandView::Flip(_)
            | CommandView::UpsideDown(_)
            | CommandView::Font(_) => true,
            _ => false,
        }
    }

    /// Any of the three paper-cut operations.
    pub open spec fn is_cut(self) -> bool {
        self is Cut || self is PartialCut || self is PrintCut
    }

    /// The variant's name, as it tags the command in a submitted job.
    pub open spec fn name(self) -> Seq<char> {
        match self {
            CommandView::Print(_) => "Print"@,
            CommandView::Init(_) => "Init"@,
            CommandView::Reset(_) => "Reset"@,
            CommandView::Cut(_) => "Cut"@,
            CommandView::PartialCut(_) => "PartialCut"@,
            CommandView::PrintCut(_) => "PrintCut"@,
            CommandView::PageCode(_) => "PageCode"@,
            CommandView::CharacterSet(_) => "CharacterSet"@,
            CommandView::Bold(_) => "Bold"@,
            CommandView::Underline(_) => "Underline"@,
            CommandView::DoubleStrike(_) => "DoubleStrike"@,
            CommandView::Font(_) => "Font"@,
            CommandView::Flip(_) => "Flip"@,
            CommandView::Justify(_) => "Justify"@,
            CommandView::Reverse(_) => "Reverse"@,
            CommandView::Size(_) => "Size"@,
            CommandView::ResetSize(_) => "ResetSize"@,
            CommandView::Smoothing(_) => "Smoothing"@,
            CommandView::Feed(_) => "Feed"@,
            CommandView::Feeds(_) => "Feeds"@,
            CommandView::LineSpacing(_) => "LineSpacing"@,
            CommandView::ResetLineSpacing(_) => "ResetLineSpacing"@,
            CommandView::UpsideDown(_) => "UpsideDown"@,
            CommandView::CashDrawer(_) => "CashDrawer"@,
            CommandView::Write(_) => "Write"@,
            CommandView::Writeln(_) => "Writeln"@,
            CommandView::Ean13(_) => "Ean13"@,
            CommandView::Ean8(_) => "Ean8"@,
            CommandView::Upca(_) => "Upca"@,
            CommandView::Upce(_) => "Upce"@,
            CommandView::Code39(_) => "Code39"@,
            CommandView::Codabar(_) => "Codabar"@,
            CommandView::Itf(_) => "Itf"@,
            CommandView::Qrcode(_) => "Qrcode"@,
            CommandView::GS1Databar2d(_) => "GS1Databar2d"@,
            CommandView::Pdf417(_) => "Pdf417"@,
            CommandView::MaxiCode(_) => "MaxiCode"@,
            CommandView::DataMatrix(_) => "DataMatrix"@,
            CommandView::Aztec(_) => "Aztec"@,
        }
    }
}

/// The mathematical value of a job: the value of each command, in order.
pub open spec fn job_view(job: Seq<Command>) -> Seq<CommandView> {
    Seq::new(job.len(), |i: int| job[i]@)
}

impl Command {
    /// Tells whether this command prints text or a symbol.
    pub fn is_content(&self) -> (r: bool)
        ensures
            r == self@.is_content(),
    {
        match self {
            Command::Write(_)
            | Command::Writeln(_)
            | Command::Ean13(_)
            | Command::Ean8(_)
            | Command::Upca(_)
            | Command::Upce(_)
            | Command::Code39(_)
            | Command::Codabar(_)
            | Command::Itf(_)
            | Command::Qrcode(_)
            | Command::GS1Databar2d(_)
            | Command::Pdf417(_)
            | Command::MaxiCode(_)
            | Command::DataMatrix(_)
            | Command::Aztec(_) => true,
            _ => false,
        }
    }

    /// The variant's name.
    pub fn name(&self) -> (r: &'static str)
        ensures
            r@ == self@.name(),
    {
        match self {
            Command::Print(_) => "Print",
            Command::Init(_) => "Init",
            Command::Reset(_) => "Reset",
            Command::Cut(_) => "Cut",
            Command::PartialCut(_) => "PartialCut",
            Command::PrintCut(_) => "PrintCut",
            Command::PageCode(_) => "PageCode",
            Command::CharacterSet(_) => "CharacterSet",
            Command::Bold(_) => "Bold",
            Command::Underline(_) => "Underline",
            Command::DoubleStrike(_) => "DoubleStrike",
            Command::Font(_) => "Font",
            Command::Flip(_) => "Flip",
            Command::Justify(_) => "Justify",
            Command::Reverse(_) => "Reverse",
            Command::Size(_) => "Size",
            Command::ResetSize(_) => "ResetSize",
            Command::Smoothing(_) => "Smoothing",
            Command::Feed(_) => "Feed",
            Command::Feeds(_) => "Feeds",
            Command::LineSpacing(_) => "LineSpacing",
            Command::ResetLineSpacing(_) => "ResetLineSpacing",
            Command::UpsideDown(_) => "UpsideDown",
            Command::CashDrawer(_) => "CashDrawer",
            Command::Write(_) => "Write",
            Command::Writeln(_) => "Writeln",
            Command::Ean13(_) => "Ean13",
            Command::Ean8(_) => "Ean8",
            Command::Upca(_) => "Upca",
            Command::Upce(_) => "Upce",
            Command::Code39(_) => "Code39",
            Command::Codabar(_) => "Codabar",
            Command::Itf(_) => "Itf",
            Command::Qrcode(_) => "Qrcode",
            Command::GS1Databar2d(_) => "GS1Databar2d",
            Command::Pdf417(_) => "Pdf417",
            Command::MaxiCode(_) => "MaxiCode",
            Command::DataMatrix(_) => "DataMatrix",
            Command::Aztec(_) => "Aztec",
        }
    }
}

/// All values of the unit type are one value.
proof fn lemma_unit_unique(x: (), y: ())
    ensures
        x == y,
{
}

/// Compares the empty payloads of two control commands.
fn same_payload(a: &Option<()>, b: &Option<()>) -> (r: bool)
    ensures
        r == (*a == *b),
{
    proof {
        if a.is_some() && b.is_some() {
            lemma_unit_unique(a.unwrap(), b.unwrap());
        }
    }
    a.is_some() == b.is_some()
}

impl Clone for Command {
    fn clone(&self) -> (r: Self)
        ensures
            r@ == self@,
    {
        match self {
            Command::Print(p) => Command::Print(*p),
            Command::Init(p) => Command::Init(*p),
            Command::Reset(p) => Command::Reset(*p),
            Command::Cut(p) => Command::Cut(*p),
            Command::PartialCut(p) => Command::PartialCut(*p),
            Command::PrintCut(p) => Command::PrintCut(*p),
            Command::PageCode(x) => Command::PageCode(*x),
            Command::CharacterSet(x) => Command::CharacterSet(*x),
            Command::Bold(x) => Command::Bold(*x),
            Command::Underline(x) => Command::Underline(*x),
            Command::DoubleStrike(x) => Command::DoubleStrike(*x),
            Command::Font(x) => Command::Font(*x),
            Command::Flip(x) => Command::Flip(*x),
            Command::Justify(x) => Command::Justify(*x),
            Command::Reverse(x) => Command::Reverse(*x),
            Command::Size(s) => Command::Size(*s),
            Command::ResetSize(p) => Command::ResetSize(*p),
            Command::Smoothing(x) => Command::Smoothing(*x),
            Command::Feed(x) => Command::Feed(*x),
            Command::Feeds(x) => Command::Feeds(*x),
            Command::LineSpacing(x) => Command::LineSpacing(*x),
            Command::ResetLineSpacing(p) => Command::ResetLineSpacing(*p),
            Command::UpsideDown(x) => Command::UpsideDown(*x),
            Command::CashDrawer(x) => Command::CashDrawer(*x),
            Command::Write(s) => Command::Write(s.clone()),
            Command::Writeln(s) => Command::Writeln(s.clone()),
            Command::Ean13(s) => Command::Ean13(s.clone()),
            Command::Ean8(s) => Command::Ean8(s.clone()),
            Command::Upca(s) => Command::Upca(s.clone()),
            Command::Upce(s) => Command::Upce(s.clone()),
            Command::Code39(s) => Command::Code39(s.clone()),
            Command::Codabar(s) => Command::Codabar(s.clone()),
            Command::Itf(s) => Command::Itf(s.clone()),
            Command::Qrcode(s) => Command::Qrcode(s.clone()),
            Command::GS1Databar2d(s) => Command::GS1Databar2d(s.clone()),
            Command::Pdf417(s) => Command::Pdf417(s.clone()),
            Command::MaxiCode(s) => Command::MaxiCode(s.clone()),
            Command::DataMatrix(s) => Command::DataMatrix(s.clone()),
            Command::Aztec(s) => Command::Aztec(s.clone()),
        }
    }
}

impl PartialEq for Command {
    fn eq(&self, other: &Self) -> (r: bool) {
        match (self, other) {
            (Command::Print(a), Command::Print(b)) => same_payload(a, b),
            (Command::Init(a), Command::Init(b)) => same_payload(a, b),
            (Command::Reset(a), Command::Reset(b)) => same_payload(a, b),
            (Command::Cut(a), Command::Cut(b)) => same_payload(a, b),
            (Command::PartialCut(a), Command::PartialCut(b)) => same_payload(a, b),
            (Command::PrintCut(a), Command::PrintCut(b)) => same_payload(a, b),
            (Command::PageCode(a), Command::PageCode(b)) => *a == *b,
            (Command::CharacterSet(a), Command::CharacterSet(b)) => *a == *b,
            (Command::Bold(a), Command::Bold(b)) => *a == *b,
            (Command::Underline(a), Command::Underline(b)) => *a == *b,
            (Command::DoubleStrike(a), Command::DoubleStrike(b)) => *a == *b,
            (Command::Font(a), Command::Font(b)) => *a == *b,
            (Command::Flip(a), Command::Flip(b)) => *a == *b,
            (Command::Justify(a), Command::Justify(b)) => *a == *b,
            (Command::Reverse(a), Command::Reverse(b)) => *a == *b,
            (Command::Size(a), Command::Size(b)) => a.0 == b.0 && a.1 == b.1,
            (Command::ResetSize(a), Command::ResetSize(b)) => same_payload(a, b),
            (Command::Smoothing(a), Command::Smoothing(b)) => *a == *b,
            (Command::Feed(a), Command::Feed(b)) => *a == *b,
            (Command::Feeds(a), Command::Feeds(b)) => *a == *b,
            (Command::LineSpacing(a), Command::LineSpacing(b)) => *a == *b,
            (Command::ResetLineSpacing(a), Command::ResetLineSpacing(b)) => same_payload(a, b),
            (Command::UpsideDown(a), Command::UpsideDown(b)) => *a == *b,
            (Command::CashDrawer(a), Command::CashDrawer(b)) => *a == *b,
            (Command::Write(a), Command::Write(b)) => *a == *b,
            (Command::Writeln(a), Command::Writeln(b)) => *a == *b,
            (Command::Ean13(a), Command::Ean13(b)) => *a == *b,
            (Command::Ean8(a), Command::Ean8(b)) => *a == *b,
            (Command::Upca(a), Command::Upca(b)) => *a == *b,
            (Command::Upce(a), Command::Upce(b)) => *a == *b,
            (Command::Code39(a), Command::Code39(b)) => *a == *b,
            (Command::Codabar(a), Command::Codabar(b)) => *a == *b,
            (Command::Itf(a), Command::Itf(b)) => *a == *b,
            (Command::Qrcode(a), Command::Qrcode(b)) => *a == *b,
            (Command::GS1Databar2d(a), Command::GS1Databar2d(b)) => *a == *b,
            (Command::Pdf417(a), Command::Pdf417(b)) => *a == *b,
            (Command::MaxiCode(a), Command::MaxiCode(b)) => *a == *b,
            (Command::DataMatrix(a), Command::DataMatrix(b)) => *a == *b,
            (Command::Aztec(a), Command::Aztec(b)) => *a == *b,
            _ => false,
        }
    }
}

impl vstd::std_specs::cmp::PartialEqSpecImpl for Command {
    open spec fn obeys_eq_spec() -> bool {
        true
    }

    open spec fn eq_spec(&self, other: &Self) -> bool {
        self@ == other@
    }
}

} // verus!
