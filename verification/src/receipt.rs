//! A preview of what a job puts on paper: the printed lines, each with the
//! formatting it was printed in.

use vstd::prelude::*;
use crate::command::{Command, CommandView, JustifyMode, UnderlineMode, job_view};

verus! {

/// Number of characters of a code's data that the preview shows.
pub const CODE_PREVIEW_LENGTH: usize = 20;

/// The formatting that decides how a line looks.
#[derive(Debug, Clone, Copy, PartialEq, Eq, Structural)]
pub struct TextState {
    pub bold: bool,
    pub underline: UnderlineMode,
    pub reverse: bool,
    pub justify: JustifyMode,
    pub size_width: u8,
    pub size_height: u8,
}

impl TextState {
    /// The formatting of a printer just initialized.
    pub open spec fn initial() -> TextState {
        TextState {
            bold: false,
            underline: UnderlineMode::Off,
            reverse: false,
            justify: JustifyMode::LEFT,
            size_width: 1,
            size_height: 1,
        }
    }

    /// This formatting, centered.
    pub open spec fn centered(self) -> TextState {
        TextState { justify: JustifyMode::CENTER, ..self }
    }
}

impl Default for TextState {
    fn default() -> (r: Self)
        ensures
            r == TextState::initial(),
    {
        TextState {
            bold: false,
            underline: UnderlineMode::Off,
            reverse: false,
            justify: JustifyMode::LEFT,
            size_width: 1,
            size_height: 1,
        }
    }
}

/// One line of the preview.
#[derive(Debug)]
pub struct RenderedLine {
    pub text: String,
    pub state: TextState,
}

/// Mathematical value of a [`RenderedLine`].
pub struct LineView {
    pub text: Seq<char>,
    pub state: TextState,
}

impl View for RenderedLine {
    type V = LineView;

    open spec fn view(&self) -> LineView {
        LineView { text: self.text@, state: self.state }
    }
}

/// Mathematical value of a [`ReceiptRenderer`]: the finished lines, the text
/// of the line being written, and the formatting in effect.
pub struct ReceiptView {
    pub lines: Seq<LineView>,
    pub current: Seq<char>,
    pub state: TextState,
}

/// The text that stands for a cut.
pub open spec fn cut_indicator() -> Seq<char> {
    "- - - - - - - - - - - - - - - -"@
}

/// The text with at most `max` characters: the text itself if it is no
/// longer, its first `max` characters otherwise.
pub open spec fn truncated(text: Seq<char>, max: nat) -> Seq<char> {
    if text.len() > max {
        text.take(max as int)
    } else {
        text
    }
}

impl ReceiptView {
    /// The preview before anything is printed.
    pub open spec fn empty() -> ReceiptView {
        ReceiptView { lines: Seq::empty(), current: Seq::empty(), state: TextState::initial() }
    }

    /// The preview with the line being written finished, if it holds text.
    pub open spec fn flushed(self) -> ReceiptView {
        if self.current.len() > 0 {
            ReceiptView {
                lines: self.lines.push(LineView { text: self.current, state: self.state }),
                current: Seq::empty(),
                ..self
            }
        } else {
            self
        }
    }

    /// The preview with the line being written finished and one more line
    /// behind it.
    pub open spec fn with_line(self, text: Seq<char>, state: TextState) -> ReceiptView {
        ReceiptView { lines: self.flushed().lines.push(LineView { text, state }), ..self.flushed() }
    }

    /// The preview with other formatting.
    pub open spec fn with_state(self, state: TextState) -> ReceiptView {
        ReceiptView { state, ..self }
    }

    /// The preview after a command.
    ///
    /// Text goes to the line being written, which a line break finishes.  A
    /// feed adds a blank line, a cut its indicator, a code a centered
    /// placeholder.  Formatting commands change the formatting of the lines
    /// to come.  Anything else leaves no trace.
    pub open spec fn after(self, command: CommandView) -> ReceiptView {
        match command {
            CommandView::Write(text) => ReceiptView { current: self.current + text, ..self },
            CommandView::Writeln(text) => (ReceiptView {
                current: self.current + text,
                ..self
            }).flushed(),
            CommandView::Feed(_) | CommandView::Feeds(_) => self.with_line(Seq::empty(), self.state),
            CommandView::Bold(v) => self.with_state(TextState { bold: v, ..self.state }),
            CommandView::Underline(v) => self.with_state(TextState { underline: v, ..self.state }),
            CommandView::Reverse(v) => self.with_state(TextState { reverse: v, ..self.state }),
            CommandView::Justify(v) => self.with_state(TextState { justify: v, ..self.state }),
            CommandView::Size(v) => self.with_state(
                TextState { size_width: v.0, size_height: v.1, ..self.state },
            ),
            CommandView::ResetSize(_) => self.with_state(
                TextState { size_width: 1, size_height: 1, ..self.state },
            ),
            CommandView::Init(_) | CommandView::Reset(_) => self.with_state(TextState::initial()),
            CommandView::Cut(_) | CommandView::PartialCut(_) | CommandView::PrintCut(_) => self.with_line(
                cut_indicator(),
                TextState::initial(),
            ),
            CommandView::Qrcode(data) => self.with_line(
                "[QR: "@ + truncated(data, CODE_PREVIEW_LENGTH as nat) + "]"@,
                self.state.centered(),
            ),
            CommandView::Ean13(data)
            | CommandView::Ean8(data)
            | CommandView::Upca(data)
            | CommandView::Upce(data)
            | CommandView::Code39(data)
            | CommandView::Codabar(data)
            | CommandView::Itf(data) => self.with_line(
                "[BARCODE: "@ + data + "]"@,
                self.state.centered(),
            ),
            _ => self,
        }
    }

    /// The preview after a run of commands.
    pub open spec fn after_all(self, job: Seq<CommandView>) -> ReceiptView
        decreases job.len(),
    {
        if job.len() == 0 {
            self
        } else {
            self.after_all(job.drop_last()).after(job.last())
        }
    }
}

/// Builds the preview of a job.
#[derive(Debug)]
pub struct ReceiptRenderer {
    lines: Vec<RenderedLine>,
    current_line: String,
    state: TextState,
}

impl View for ReceiptRenderer {
    type V = ReceiptView;

    closed spec fn view(&self) -> ReceiptView {
        ReceiptView {
            lines: Seq::new(self.lines@.len(), |i: int| self.lines@[i]@),
            current: self.current_line@,
            state: self.state,
        }
    }
}

impl ReceiptRenderer {
    /// A renderer that has printed nothing yet.
    pub fn new() -> (r: Self)
        ensures
            r@ == ReceiptView::empty(),
    {
        let r = ReceiptRenderer {
            lines: Vec::new(),
            current_line: String::new(),
            state: TextState::default(),
        };
        assert(r@.lines =~= Seq::<LineView>::empty());
        r
    }

    /// The finished lines, top to bottom.
    pub fn lines(&self) -> (r: &Vec<RenderedLine>)
        ensures
            r@.len() == self@.lines.len(),
            forall|i: int| 0 <= i < r@.len() ==> r@[i]@ == self@.lines[i],
    {
        &self.lines
    }

    /// The text with at most `max` characters.
    pub fn truncate(s: &str, max: usize) -> (r: &str)
        ensures
            r@ == truncated(s@, max as nat),
    {
        if s.unicode_len() > max {
            s.substring_char(0, max)
        } else {
            s
        }
    }

    fn push_line(&mut self, text: String, state: TextState)
        ensures
            final(self)@ == (ReceiptView {
                lines: old(self)@.lines.push(LineView { text: text@, state }),
                ..old(self)@
            }),
    {
        self.lines.push(RenderedLine { text, state });
        assert(self@.lines =~= old(self)@.lines.push(LineView { text: text@, state }));
    }

    /// Finishes the line being written, if it holds text.
    pub fn flush_line(&mut self)
        ensures
            final(self)@ == old(self)@.flushed(),
    {
        if !self.current_line.as_str().is_empty() {
            let text = self.current_line.clone();
            let state = self.state;
            self.current_line = String::new();
            assert(self@.lines =~= old(self)@.lines);
            self.push_line(text, state);
        }
    }

    fn add_line(&mut self, text: String, state: TextState)
        ensures
            final(self)@ == old(self)@.with_line(text@, state),
    {
        self.flush_line();
        self.push_line(text, state);
    }

    fn set_state(&mut self, state: TextState)
        ensures
            final(self)@ == old(self)@.with_state(state),
    {
        self.state = state;
        assert(self@.lines =~= old(self)@.lines);
    }

    fn write(&mut self, text: &str)
        ensures
            final(self)@ == (ReceiptView { current: old(self)@.current + text@, ..old(self)@ }),
    {
        self.current_line.append(text);
        assert(self@.lines =~= old(self)@.lines);
    }

    /// Takes one command into the preview.
    pub fn process_command(&mut self, cmd: &Command)
        ensures
            final(self)@ == old(self)@.after(cmd@),
    {
        let state = self.state;
        match cmd {
            Command::Write(text) => {
                self.write(text.as_str());
            },
            Command::Writeln(text) => {
                self.write(text.as_str());
                self.flush_line();
            },
            Command::Feed(_) | Command::Feeds(_) => {
                self.add_line(String::new(), state);
            },
            Command::Bold(enabled) => {
                self.set_state(TextState { bold: *enabled, ..state });
            },
            Command::Underline(mode) => {
                self.set_state(TextState { underline: *mode, ..state });
            },
            Command::Reverse(enabled) => {
                self.set_state(TextState { reverse: *enabled, ..state });
            },
            Command::Justify(mode) => {
                self.set_state(TextState { justify: *mode, ..state });
            },
            Command::Size(size) => {
                self.set_state(TextState { size_width: size.0, size_height: size.1, ..state });
            },
            Command::ResetSize(_) => {
                self.set_state(TextState { size_width: 1, size_height: 1, ..state });
            },
            Command::Init(_) | Command::Reset(_) => {
                self.set_state(TextState::default());
            },
            Command::Cut(_) | Command::PartialCut(_) | Command::PrintCut(_) => {
                self.add_line(String::from_str("- - - - - - - - - - - - - - - -"), TextState::default());
            },
            Command::Qrcode(data) => {
                let shown = ReceiptRenderer::truncate(data.as_str(), CODE_PREVIEW_LENGTH);
                let text = String::from_str("[QR: ").concat(shown).concat("]");
                self.add_line(text, TextState { justify: JustifyMode::CENTER, ..state });
            },
            Command::Ean13(data)
            | Command::Ean8(data)
            | Command::Upca(data)
            | Command::Upce(data)
            | Command::Code39(data)
            | Command::Codabar(data)
            | Command::Itf(data) => {
                let text = String::from_str("[BARCODE: ").concat(data.as_str()).concat("]");
                self.add_line(text, TextState { justify: JustifyMode::CENTER, ..state });
            },
            _ => {},
        }
    }

    /// Takes a job into the preview and finishes its last line.
    pub fn process_commands(&mut self, commands: &[Command])
        ensures
            final(self)@ == old(self)@.after_all(job_view(commands@)).flushed(),
    {
        let ghost job = job_view(commands@);
        let mut i: usize = 0;
        assert(job.take(0) =~= Seq::<CommandView>::empty());
        while i < commands.len()
            invariant
                i <= commands.len(),
                job == job_view(commands@),
                self@ == old(self)@.after_all(job.take(i as int)),
            decreases commands.len() - i,
        {
            proof {
                assert(job.take(i + 1).drop_last() =~= job.take(i as int));
            }
            self.process_command(&commands[i]);
            i += 1;
        }
        assert(job.take(i as int) =~= job);
        self.flush_line();
    }
}

} // verus!
