//! Marking a reprinted receipt.
//!
//! A reprint must not pass for the original.  The injector rewrites a job so
//! that a marker block is printed at its top, at the midpoint of its content
//! and at its bottom.  Before each marker the formatting is reset, and after
//! the middle one the formatting in effect at the midpoint is restored, so
//! the receipt itself looks as it did the first time.

use vstd::prelude::*;
use crate::command::{Command, CommandView, Font, JustifyMode, UnderlineMode, job_view};

verus! {

/// The formatting attributes that a job can change, as they stand at one
/// point of the job.
#[derive(Debug, Clone, Copy)]
pub struct FormattingState {
    pub bold: bool,
    pub underline: UnderlineMode,
    pub double_strike: bool,
    pub reverse: bool,
    pub justify: JustifyMode,
    pub size: (u8, u8),
    pub smoothing: bool,
    pub flip: bool,
    pub upside_down: bool,
    pub font: Font,
}

impl Default for FormattingState {
    fn default() -> (r: Self)
        ensures
            r == FormattingState::initial(),
    {
        FormattingState {
            bold: false,
            underline: UnderlineMode::Off,
            double_strike: false,
            reverse: false,
            justify: JustifyMode::LEFT,
            size: (1, 1),
            smoothing: false,
            flip: false,
            upside_down: false,
            font: Font::A,
        }
    }
}

/// One if the condition holds, zero if not.
pub open spec fn one_if(condition: bool) -> nat {
    if condition {
        1
    } else {
        0
    }
}

/// The command if the condition holds, nothing if not.
#[verifier::opaque]
pub open spec fn emit_if(condition: bool, command: CommandView) -> Seq<CommandView> {
    if condition {
        seq![command]
    } else {
        seq![]
    }
}

impl FormattingState {
    /// The formatting of a printer just initialized.
    pub open spec fn initial() -> FormattingState {
        FormattingState {
            bold: false,
            underline: UnderlineMode::Off,
            double_strike: false,
            reverse: false,
            justify: JustifyMode::LEFT,
            size: (1, 1),
            smoothing: false,
            flip: false,
            upside_down: false,
            font: Font::A,
        }
    }

    /// The formatting after a command.  A formatting command sets its
    /// attribute, an initialization or a reset sets all of them back, and
    /// any other command leaves the formatting alone.
    pub open spec fn after(self, command: CommandView) -> FormattingState {
        match command {
            CommandView::Bold(v) => FormattingState { bold: v, ..self },
            CommandView::Underline(v) => FormattingState { underline: v, ..self },
            CommandView::DoubleStrike(v) => FormattingState { double_strike: v, ..self },
            CommandView::Reverse(v) => FormattingState { reverse: v, ..self },
            CommandView::Justify(v) => FormattingState { justify: v, ..self },
            CommandView::Size(v) => FormattingState { size: v, ..self },
            CommandView::ResetSize(_) => FormattingState { size: (1u8, 1u8), ..self },
            CommandView::Smoothing(v) => FormattingState { smoothing: v, ..self },
            CommandView::Flip(v) => FormattingState { flip: v, ..self },
            CommandView::UpsideDown(v) => FormattingState { upside_down: v, ..self },
            CommandView::Font(v) => FormattingState { font: v, ..self },
            CommandView::Init(_) | CommandView::Reset(_) => FormattingState::initial(),
            _ => self,
        }
    }

    /// The formatting after a run of commands.
    pub open spec fn after_all(self, job: Seq<CommandView>) -> FormattingState
        decreases job.len(),
    {
        if job.len() == 0 {
            self
        } else {
            self.after_all(job.drop_last()).after(job.last())
        }
    }

    /// Number of attributes that differ from their initial value.
    pub open spec fn changed_attributes(self) -> nat {
        one_if(self.bold) + one_if(self.underline != UnderlineMode::Off) + one_if(
            self.double_strike,
        ) + one_if(self.reverse) + one_if(self.justify != JustifyMode::LEFT) + one_if(
            self.size != (1u8, 1u8),
        ) + one_if(self.smoothing) + one_if(self.flip) + one_if(self.upside_down) + one_if(
            self.font != Font::A,
        )
    }

    /// The commands that set every attribute back to its initial value.
    pub open spec fn reset_block() -> Seq<CommandView> {
        seq![
            CommandView::Bold(false),
            CommandView::Underline(UnderlineMode::Off),
            CommandView::DoubleStrike(false),
            CommandView::Reverse(false),
            CommandView::Justify(JustifyMode::LEFT),
            CommandView::ResetSize(None),
            CommandView::Smoothing(false),
            CommandView::Flip(false),
            CommandView::UpsideDown(false),
            CommandView::Font(Font::A),
        ]
    }

    /// The commands that bring a printer with initial formatting to this
    /// formatting: one for each attribute that differs from its initial
    /// value, none for the others.
    pub open spec fn restore_block(self) -> Seq<CommandView> {
        emit_if(self.bold, CommandView::Bold(true)) + emit_if(
            self.underline != UnderlineMode::Off,
            CommandView::Underline(self.underline),
        ) + emit_if(self.double_strike, CommandView::DoubleStrike(true)) + emit_if(
            self.reverse,
            CommandView::Reverse(true),
        ) + emit_if(self.justify != JustifyMode::LEFT, CommandView::Justify(self.justify))
            + emit_if(self.size != (1u8, 1u8), CommandView::Size(self.size)) + emit_if(
            self.smoothing,
            CommandView::Smoothing(true),
        ) + emit_if(self.flip, CommandView::Flip(true)) + emit_if(
            self.upside_down,
            CommandView::UpsideDown(true),
        ) + emit_if(self.font != Font::A, CommandView::Font(self.font))
    }

    /// Updates the formatting by one command of the job.
    pub fn apply(&mut self, command: &Command)
        ensures
            *final(self) == old(self).after(command@),
    {
        let state = *self;
        *self = match command {
            Command::Bold(v) => FormattingState { bold: *v, ..state },
            Command::Underline(v) => FormattingState { underline: *v, ..state },
            Command::DoubleStrike(v) => FormattingState { double_strike: *v, ..state },
            Command::Reverse(v) => FormattingState { reverse: *v, ..state },
            Command::Justify(v) => FormattingState { justify: *v, ..state },
            Command::Size(v) => FormattingState { size: *v, ..state },
            Command::ResetSize(_) => FormattingState { size: (1, 1), ..state },
            Command::Smoothing(v) => FormattingState { smoothing: *v, ..state },
            Command::Flip(v) => FormattingState { flip: *v, ..state },
            Command::UpsideDown(v) => FormattingState { upside_down: *v, ..state },
            Command::Font(v) => FormattingState { font: *v, ..state },
            Command::Init(_) | Command::Reset(_) => FormattingState::default(),
            _ => state,
        };
    }

    /// The commands that set every attribute back to its initial value.
    pub fn reset_commands() -> (r: Vec<Command>)
        ensures
            job_view(r@) == FormattingState::reset_block(),
    {
        let r = vec![
            Command::Bold(false),
            Command::Underline(UnderlineMode::Off),
            Command::DoubleStrike(false),
            Command::Reverse(false),
            Command::Justify(JustifyMode::LEFT),
            Command::ResetSize(None),
            Command::Smoothing(false),
            Command::Flip(false),
            Command::UpsideDown(false),
            Command::Font(Font::A),
        ];
        assert(job_view(r@) =~= FormattingState::reset_block());
        r
    }

    /// The commands that restore this formatting on a printer whose
    /// formatting was reset: only attributes that differ from their initial
    /// value are set.
    pub fn restore_commands(&self) -> (r: Vec<Command>)
        ensures
            job_view(r@) == self.restore_block(),
            r@.len() == self.changed_attributes(),
    {
        let mut cmds: Vec<Command> = Vec::new();
        assert(job_view(cmds@) =~= Seq::<CommandView>::empty());
        push_if(&mut cmds, self.bold, Command::Bold(true));
        assert(job_view(cmds@) =~= emit_if(self.bold, CommandView::Bold(true)));
        assert(self.size != (1u8, 1u8) <==> (self.size.0 != 1 || self.size.1 != 1));
        push_if(&mut cmds, self.underline != UnderlineMode::Off, Command::Underline(self.underline));
        push_if(&mut cmds, self.double_strike, Command::DoubleStrike(true));
        push_if(&mut cmds, self.reverse, Command::Reverse(true));
        push_if(&mut cmds, self.justify != JustifyMode::LEFT, Command::Justify(self.justify));
        push_if(&mut cmds, self.size.0 != 1 || self.size.1 != 1, Command::Size(self.size));
        push_if(&mut cmds, self.smoothing, Command::Smoothing(true));
        push_if(&mut cmds, self.flip, Command::Flip(true));
        push_if(&mut cmds, self.upside_down, Command::UpsideDown(true));
        push_if(&mut cmds, self.font != Font::A, Command::Font(self.font));
        proof {
            lemma_restore_counts(*self);
            assert(job_view(cmds@).len() == cmds@.len());
        }
        cmds
    }
}

/// Appends a command to a job if the condition holds.
fn push_if(job: &mut Vec<Command>, condition: bool, command: Command)
    ensures
        job_view(final(job)@) == job_view(old(job)@) + emit_if(condition, command@),
{
    reveal(emit_if);
    if condition {
        push_command(job, command);
        assert(job_view(job@) =~= job_view(old(job)@) + emit_if(condition, command@));
    } else {
        assert(job_view(job@) =~= job_view(old(job)@) + emit_if(condition, command@));
    }
}

/// Appends one command to a job.
pub fn push_command(job: &mut Vec<Command>, command: Command)
    ensures
        final(job)@ == old(job)@.push(command),
        job_view(final(job)@) == job_view(old(job)@).push(command@),
{
    job.push(command);
    assert(job_view(job@) =~= job_view(old(job)@).push(command@));
}

proof fn lemma_len_emit(job: Seq<CommandView>, condition: bool, command: CommandView)
    ensures
        (job + emit_if(condition, command)).len() == job.len() + one_if(condition),
{
    reveal(emit_if);
}

/// Restoring emits one command for each changed attribute, so nothing for
/// initial formatting.
pub proof fn lemma_restore_counts(state: FormattingState)
    ensures
        state.restore_block().len() == state.changed_attributes(),
        FormattingState::initial().restore_block() == Seq::<CommandView>::empty(),
        state.restore_block().len() == 0 <==> state == FormattingState::initial(),
{
    lemma_restore_len(state);
    lemma_restore_len(FormattingState::initial());
    assert(FormattingState::initial().changed_attributes() == 0);
    assert(FormattingState::initial().restore_block() =~= Seq::<CommandView>::empty());
    assert(state.changed_attributes() == 0 <==> state == FormattingState::initial());
}

proof fn lemma_restore_len(state: FormattingState)
    ensures
        state.restore_block().len() == state.changed_attributes(),
{
    let none = Seq::<CommandView>::empty();
    let b0 = emit_if(state.bold, CommandView::Bold(true));
    let b1 = b0 + emit_if(state.underline != UnderlineMode::Off, CommandView::Underline(state.underline));
    let b2 = b1 + emit_if(state.double_strike, CommandView::DoubleStrike(true));
    let b3 = b2 + emit_if(state.reverse, CommandView::Reverse(true));
    let b4 = b3 + emit_if(state.justify != JustifyMode::LEFT, CommandView::Justify(state.justify));
    let b5 = b4 + emit_if(state.size != (1u8, 1u8), CommandView::Size(state.size));
    let b6 = b5 + emit_if(state.smoothing, CommandView::Smoothing(true));
    let b7 = b6 + emit_if(state.flip, CommandView::Flip(true));
    let b8 = b7 + emit_if(state.upside_down, CommandView::UpsideDown(true));
    let b9 = b8 + emit_if(state.font != Font::A, CommandView::Font(state.font));
    lemma_len_emit(none, state.bold, CommandView::Bold(true));
    assert(none + b0 =~= b0);
    lemma_len_emit(b0, state.underline != UnderlineMode::Off, CommandView::Underline(state.underline));
    lemma_len_emit(b1, state.double_strike, CommandView::DoubleStrike(true));
    lemma_len_emit(b2, state.reverse, CommandView::Reverse(true));
    lemma_len_emit(b3, state.justify != JustifyMode::LEFT, CommandView::Justify(state.justify));
    lemma_len_emit(b4, state.size != (1u8, 1u8), CommandView::Size(state.size));
    lemma_len_emit(b5, state.smoothing, CommandView::Smoothing(true));
    lemma_len_emit(b6, state.flip, CommandView::Flip(true));
    lemma_len_emit(b7, state.upside_down, CommandView::UpsideDown(true));
    lemma_len_emit(b8, state.font != Font::A, CommandView::Font(state.font));
    assert(b9 == state.restore_block());
}

/// Running the restore commands on a printer with initial formatting gives
/// the formatting they were made from.
pub proof fn lemma_restore_restores(state: FormattingState)
    ensures
        FormattingState::initial().after_all(state.restore_block()) == state,
{
    let init = FormattingState::initial();
    let b0 = emit_if(state.bold, CommandView::Bold(true));
    let b1 = b0 + emit_if(state.underline != UnderlineMode::Off, CommandView::Underline(state.underline));
    let b2 = b1 + emit_if(state.double_strike, CommandView::DoubleStrike(true));
    let b3 = b2 + emit_if(state.reverse, CommandView::Reverse(true));
    let b4 = b3 + emit_if(state.justify != JustifyMode::LEFT, CommandView::Justify(state.justify));
    let b5 = b4 + emit_if(state.size != (1u8, 1u8), CommandView::Size(state.size));
    let b6 = b5 + emit_if(state.smoothing, CommandView::Smoothing(true));
    let b7 = b6 + emit_if(state.flip, CommandView::Flip(true));
    let b8 = b7 + emit_if(state.upside_down, CommandView::UpsideDown(true));
    let b9 = b8 + emit_if(state.font != Font::A, CommandView::Font(state.font));
    let f0 = FormattingState { bold: state.bold, ..init };
    let f1 = FormattingState { underline: state.underline, ..f0 };
    let f2 = FormattingState { double_strike: state.double_strike, ..f1 };
    let f3 = FormattingState { reverse: state.reverse, ..f2 };
    let f4 = FormattingState { justify: state.justify, ..f3 };
    let f5 = FormattingState { size: state.size, ..f4 };
    let f6 = FormattingState { smoothing: state.smoothing, ..f5 };
    let f7 = FormattingState { flip: state.flip, ..f6 };
    let f8 = FormattingState { upside_down: state.upside_down, ..f7 };
    let f9 = FormattingState { font: state.font, ..f8 };
    assert(init.after_all(b0) == f0) by {
        lemma_after_emit(init, Seq::empty(), state.bold, CommandView::Bold(true));
        assert(Seq::<CommandView>::empty() + b0 =~= b0);
    }
    assert(init.after_all(b1) == f1) by {
        lemma_after_emit(
            init,
            b0,
            state.underline != UnderlineMode::Off,
            CommandView::Underline(state.underline),
        );
    }
    assert(init.after_all(b2) == f2) by {
        lemma_after_emit(init, b1, state.double_strike, CommandView::DoubleStrike(true));
    }
    assert(init.after_all(b3) == f3) by {
        lemma_after_emit(init, b2, state.reverse, CommandView::Reverse(true));
    }
    assert(init.after_all(b4) == f4) by {
        lemma_after_emit(
            init,
            b3,
            state.justify != JustifyMode::LEFT,
            CommandView::Justify(state.justify),
        );
    }
    assert(init.after_all(b5) == f5) by {
        lemma_after_emit(init, b4, state.size != (1u8, 1u8), CommandView::Size(state.size));
    }
    assert(init.after_all(b6) == f6) by {
        lemma_after_emit(init, b5, state.smoothing, CommandView::Smoothing(true));
    }
    assert(init.after_all(b7) == f7) by {
        lemma_after_emit(init, b6, state.flip, CommandView::Flip(true));
    }
    assert(init.after_all(b8) == f8) by {
        lemma_after_emit(init, b7, state.upside_down, CommandView::UpsideDown(true));
    }
    assert(init.after_all(b9) == f9) by {
        lemma_after_emit(init, b8, state.font != Font::A, CommandView::Font(state.font));
    }
    assert(f9 == state);
    assert(b9 == state.restore_block());
}

proof fn lemma_after_emit(
    start: FormattingState,
    job: Seq<CommandView>,
    condition: bool,
    command: CommandView,
)
    ensures
        start.after_all(job + emit_if(condition, command)) == if condition {
            start.after_all(job).after(command)
        } else {
            start.after_all(job)
        },
{
    reveal(emit_if);
    if condition {
        let extended = job + seq![command];
        assert(extended.drop_last() =~= job);
        assert(extended.last() == command);
    } else {
        assert(job + Seq::<CommandView>::empty() =~= job);
    }
}

/// The formatting after two runs of commands is the formatting after the
/// second, started from the formatting after the first.
pub proof fn lemma_after_all_concat(
    start: FormattingState,
    first: Seq<CommandView>,
    second: Seq<CommandView>,
)
    ensures
        start.after_all(first + second) == start.after_all(first).after_all(second),
    decreases second.len(),
{
    if second.len() == 0 {
        assert(first + second =~= first);
    } else {
        lemma_after_all_concat(start, first, second.drop_last());
        assert((first + second).drop_last() =~= first + second.drop_last());
        assert((first + second).last() == second.last());
    }
}

/// An initialization wipes out what came before it: the formatting after a
/// job that holds one is the formatting that the commands behind it give to
/// a fresh printer.  Where nothing follows the initialization, that is the
/// initial formatting, for which nothing is restored.
pub proof fn lemma_init_resets(
    start: FormattingState,
    before: Seq<CommandView>,
    payload: Option<()>,
    behind: Seq<CommandView>,
)
    ensures
        start.after_all(before + seq![CommandView::Init(payload)] + behind)
            == FormattingState::initial().after_all(behind),
        start.after_all(before + seq![CommandView::Init(payload)]) == FormattingState::initial(),
        start.after_all(before + seq![CommandView::Init(payload)]).restore_block()
            == Seq::<CommandView>::empty(),
{
    let upto = before + seq![CommandView::Init(payload)];
    assert(upto.drop_last() =~= before);
    assert(upto.last() == CommandView::Init(payload));
    lemma_after_all_concat(start, upto, behind);
    lemma_restore_counts(FormattingState::initial());
}

/// The reset commands bring any formatting back to the initial one, so
/// after them nothing is left to restore.
pub proof fn lemma_reset_resets(start: FormattingState)
    ensures
        start.after_all(FormattingState::reset_block()) == FormattingState::initial(),
        start.after_all(FormattingState::reset_block()).restore_block() == Seq::<
            CommandView,
        >::empty(),
{
    let block = FormattingState::reset_block();
    let s9 = block.drop_last();
    let s8 = s9.drop_last();
    let s7 = s8.drop_last();
    let s6 = s7.drop_last();
    let s5 = s6.drop_last();
    let s4 = s5.drop_last();
    let s3 = s4.drop_last();
    let s2 = s3.drop_last();
    let s1 = s2.drop_last();
    let s0 = s1.drop_last();
    assert(s0.len() == 0);
    assert(start.after_all(s0) == start);
    assert(start.after_all(s1) == start.after(block[0]));
    assert(start.after_all(s2) == start.after_all(s1).after(block[1]));
    assert(start.after_all(s3) == start.after_all(s2).after(block[2]));
    assert(start.after_all(s4) == start.after_all(s3).after(block[3]));
    assert(start.after_all(s5) == start.after_all(s4).after(block[4]));
    assert(start.after_all(s6) == start.after_all(s5).after(block[5]));
    assert(start.after_all(s7) == start.after_all(s6).after(block[6]));
    assert(start.after_all(s8) == start.after_all(s7).after(block[7]));
    assert(start.after_all(s9) == start.after_all(s8).after(block[8]));
    assert(start.after_all(block) == start.after_all(s9).after(block[9]));
    lemma_restore_counts(FormattingState::initial());
}

/// Tells whether a command prints text or a symbol.
pub fn is_content_command(command: &Command) -> (r: bool)
    ensures
        r == command@.is_content(),
{
    command.is_content()
}

/// Number of content commands in a job.
pub open spec fn content_count(job: Seq<CommandView>) -> nat
    decreases job.len(),
{
    if job.len() == 0 {
        0
    } else {
        content_count(job.drop_last()) + one_if(job.last().is_content())
    }
}

/// Whether `split` is where the middle marker goes: right behind the content
/// command that takes the count of content commands past half of the total,
/// or at the end of a job without content.
pub open spec fn is_midpoint(job: Seq<CommandView>, split: int) -> bool {
    if content_count(job) == 0 {
        split == job.len()
    } else {
        &&& 0 < split <= job.len()
        &&& job[split - 1].is_content()
        &&& content_count(job.take(split)) == content_count(job) / 2 + 1
    }
}

/// Where the middle marker goes.
pub open spec fn midpoint(job: Seq<CommandView>) -> int {
    choose|split: int| is_midpoint(job, split)
}

proof fn lemma_count_step(job: Seq<CommandView>, i: int)
    requires
        0 <= i < job.len(),
    ensures
        content_count(job.take(i + 1)) == content_count(job.take(i)) + one_if(job[i].is_content()),
{
    assert(job.take(i + 1).drop_last() =~= job.take(i));
}

proof fn lemma_count_monotone(job: Seq<CommandView>, i: int, j: int)
    requires
        0 <= i <= j <= job.len(),
    ensures
        content_count(job.take(i)) <= content_count(job.take(j)),
    decreases j - i,
{
    if i < j {
        lemma_count_step(job, j - 1);
        lemma_count_monotone(job, i, j - 1);
    }
}

proof fn lemma_midpoint_found(job: Seq<CommandView>, wanted: nat)
    requires
        1 <= wanted <= content_count(job),
    ensures
        exists|split: int|
            0 < split <= job.len() && job[split - 1].is_content() && content_count(
                job.take(split),
            ) == wanted,
    decreases job.len(),
{
    if job.last().is_content() && content_count(job) == wanted {
        assert(job.take(job.len() as int) =~= job);
        let split = job.len() as int;
        assert(0 < split <= job.len() && job[split - 1].is_content() && content_count(
            job.take(split),
        ) == wanted);
    } else {
        let shorter = job.drop_last();
        lemma_midpoint_found(shorter, wanted);
        let split = choose|split: int|
            0 < split <= shorter.len() && shorter[split - 1].is_content() && content_count(
                shorter.take(split),
            ) == wanted;
        assert(shorter.take(split) =~= job.take(split));
        assert(0 < split <= job.len() && job[split - 1].is_content() && content_count(
            job.take(split),
        ) == wanted);
    }
}

/// Every job has exactly one midpoint, and it lies within the job.
pub proof fn lemma_midpoint(job: Seq<CommandView>)
    ensures
        is_midpoint(job, midpoint(job)),
        0 <= midpoint(job) <= job.len(),
        forall|split: int| is_midpoint(job, split) ==> split == midpoint(job),
{
    if content_count(job) == 0 {
        assert(is_midpoint(job, job.len() as int));
    } else {
        let wanted = (content_count(job) / 2 + 1) as nat;
        lemma_midpoint_found(job, wanted);
        let witness = choose|split: int|
            0 < split <= job.len() && job[split - 1].is_content() && content_count(
                job.take(split),
            ) == wanted;
        assert(is_midpoint(job, witness));
    }
    let m = midpoint(job);
    assert forall|split: int| is_midpoint(job, split) implies split == m by {
        if content_count(job) != 0 && split != m {
            let (a, b) = if split < m {
                (split, m)
            } else {
                (m, split)
            };
            lemma_count_step(job, b - 1);
            lemma_count_monotone(job, a, b - 1);
        }
    }
}

/// Counts the content commands of a job.
fn count_content(commands: &[Command]) -> (count: usize)
    ensures
        count == content_count(job_view(commands@)),
{
    let ghost job = job_view(commands@);
    let mut count: usize = 0;
    let mut i: usize = 0;
    while i < commands.len()
        invariant
            i <= commands.len(),
            job == job_view(commands@),
            count == content_count(job.take(i as int)),
            count <= i,
        decreases commands.len() - i,
    {
        proof {
            lemma_count_step(job, i as int);
        }
        if commands[i].is_content() {
            count += 1;
        }
        i += 1;
    }
    assert(job.take(i as int) =~= job);
    count
}

/// Finds where to split a job for the middle marker.
///
/// With `n` content commands in the job, the split lies right behind content
/// command number `n / 2 + 1`; a job without content is split at its end.
pub fn find_content_midpoint(commands: &[Command]) -> (split: usize)
    ensures
        split <= commands@.len(),
        is_midpoint(job_view(commands@), split as int),
        split == midpoint(job_view(commands@)),
{
    let ghost job = job_view(commands@);
    proof {
        lemma_midpoint(job);
    }
    let total = count_content(commands);
    if total == 0 {
        return commands.len();
    }
    let target = total / 2;
    let mut seen: usize = 0;
    let mut i: usize = 0;
    while i < commands.len()
        invariant
            i <= commands.len(),
            job == job_view(commands@),
            seen == content_count(job.take(i as int)),
            seen <= target,
            seen <= i,
            target == content_count(job) / 2,
            content_count(job) > 0,
            forall|split: int| is_midpoint(job, split) ==> split == midpoint(job),
        decreases commands.len() - i,
    {
        proof {
            lemma_count_step(job, i as int);
        }
        if commands[i].is_content() {
            seen += 1;
            if seen > target {
                assert(is_midpoint(job, i + 1));
                return i + 1;
            }
        }
        i += 1;
    }
    proof {
        assert(job.take(i as int) =~= job);
        assert(false);
    }
    commands.len()
}

/// The line that names a receipt as a copy.
pub open spec fn legend_line() -> CommandView {
    CommandView::Writeln("     ** REPRINT COPY **"@)
}

/// The line that tells when the copy was made.
pub open spec fn stamp_line(timestamp: Seq<char>) -> CommandView {
    CommandView::Writeln("  "@ + timestamp)
}

/// The marker: a centered banner in reverse video, with the alignment and
/// the video mode set back behind it.
pub open spec fn marker_block(timestamp: Seq<char>) -> Seq<CommandView> {
    seq![
        CommandView::Justify(JustifyMode::CENTER),
        CommandView::Reverse(true),
        CommandView::Writeln("================================"@),
        legend_line(),
        stamp_line(timestamp),
        CommandView::Writeln("  REIKA-escpos"@),
        CommandView::Writeln("================================"@),
        CommandView::Reverse(false),
        CommandView::Justify(JustifyMode::LEFT),
    ]
}

/// Builds the marker for a copy made at the given time.
pub fn build_reprint_marker_commands(timestamp: &str) -> (r: Vec<Command>)
    ensures
        job_view(r@) == marker_block(timestamp@),
{
    let r = vec![
        Command::Justify(JustifyMode::CENTER),
        Command::Reverse(true),
        Command::Writeln(String::from_str("================================")),
        Command::Writeln(String::from_str("     ** REPRINT COPY **")),
        Command::Writeln(String::from_str("  ").concat(timestamp)),
        Command::Writeln(String::from_str("  REIKA-escpos")),
        Command::Writeln(String::from_str("================================")),
        Command::Reverse(false),
        Command::Justify(JustifyMode::LEFT),
    ];
    assert(job_view(r@) =~= marker_block(timestamp@));
    r
}

/// A job without its cuts.
pub open spec fn without_cuts(job: Seq<CommandView>) -> Seq<CommandView> {
    job.filter(|c: CommandView| !c.is_cut())
}

/// The receipt proper: the job without its cuts and without the
/// initialization that opens it, if one does.
pub open spec fn receipt_body(job: Seq<CommandView>) -> Seq<CommandView> {
    let kept = without_cuts(job);
    if kept.len() > 0 && kept.first() is Init {
        kept.drop_first()
    } else {
        kept
    }
}

/// Takes the cuts and the opening initialization out of a job.
pub fn strip_frame(commands: Vec<Command>) -> (body: Vec<Command>)
    ensures
        job_view(body@) == receipt_body(job_view(commands@)),
{
    let ghost job = job_view(commands@);
    let mut kept: Vec<Command> = Vec::new();
    let mut i: usize = 0;
    proof {
        reveal(Seq::filter);
        assert(job.take(0) =~= Seq::<CommandView>::empty());
        assert(job_view(kept@) =~= without_cuts(job.take(0)));
    }
    while i < commands.len()
        invariant
            i <= commands.len(),
            job == job_view(commands@),
            job_view(kept@) == without_cuts(job.take(i as int)),
        decreases commands.len() - i,
    {
        proof {
            assert(job.take(i + 1) =~= job.take(i as int).push(job[i as int]));
            job.take(i as int).lemma_filter_push(job[i as int], |c: CommandView| !c.is_cut());
        }
        match &commands[i] {
            Command::PrintCut(_) | Command::Cut(_) | Command::PartialCut(_) => {},
            other => {
                push_command(&mut kept, other.clone());
            },
        }
        i += 1;
    }
    assert(job.take(i as int) =~= job);
    let drop_init = kept.len() > 0 && match &kept[0] {
        Command::Init(_) => true,
        _ => false,
    };
    if drop_init {
        let ghost before = job_view(kept@);
        kept.remove(0);
        assert(job_view(kept@) =~= before.drop_first());
    }
    kept
}

/// What opens a reprint: initialization, marker, formatting reset.
pub open spec fn reprint_head(timestamp: Seq<char>) -> Seq<CommandView> {
    seq![CommandView::Init(None)] + marker_block(timestamp) + FormattingState::reset_block()
}

/// What a reprint holds between the two halves of the receipt: formatting
/// reset, a blank line, the marker, a blank line, and the commands that
/// bring back the formatting of the first half.
pub open spec fn reprint_middle(timestamp: Seq<char>, state: FormattingState) -> Seq<CommandView> {
    FormattingState::reset_block() + seq![CommandView::Feed(true)] + marker_block(timestamp)
        + seq![CommandView::Feed(true)] + state.restore_block()
}

/// What closes a reprint: formatting reset, a blank line, the marker and a
/// full cut.
pub open spec fn reprint_tail(timestamp: Seq<char>) -> Seq<CommandView> {
    FormattingState::reset_block() + seq![CommandView::Feed(true)] + marker_block(timestamp)
        + seq![CommandView::PrintCut(None)]
}

/// The reprint of a job, made at the given time.
///
/// The receipt proper is split at its midpoint.  The formatting in effect at
/// the split is what the first half makes of the initial formatting.
pub open spec fn reprint_job(job: Seq<CommandView>, timestamp: Seq<char>) -> Seq<CommandView> {
    let body = receipt_body(job);
    let split = midpoint(body);
    let state = FormattingState::initial().after_all(body.take(split));
    reprint_head(timestamp) + body.take(split) + reprint_middle(timestamp, state) + body.skip(
        split,
    ) + reprint_tail(timestamp)
}

/// Appends copies of the commands `block[from..to]` to a job.
fn append_commands(job: &mut Vec<Command>, block: &[Command], from: usize, to: usize)
    requires
        from <= to <= block@.len(),
    ensures
        job_view(final(job)@) == job_view(old(job)@) + job_view(block@).subrange(
            from as int,
            to as int,
        ),
{
    let mut i: usize = from;
    assert(job_view(job@) =~= job_view(old(job)@) + job_view(block@).subrange(
        from as int,
        from as int,
    ));
    while i < to
        invariant
            from <= i <= to <= block@.len(),
            job_view(job@) == job_view(old(job)@) + job_view(block@).subrange(
                from as int,
                i as int,
            ),
        decreases to - i,
    {
        push_command(job, block[i].clone());
        assert(job_view(job@) =~= job_view(old(job)@) + job_view(block@).subrange(
            from as int,
            i + 1,
        ));
        i += 1;
    }
}

/// Appends copies of all commands of `block` to a job.
fn append_block(job: &mut Vec<Command>, block: &Vec<Command>)
    ensures
        job_view(final(job)@) == job_view(old(job)@) + job_view(block@),
{
    append_commands(job, block.as_slice(), 0, block.len());
    assert(job_view(block@).subrange(0, block@.len() as int) =~= job_view(block@));
}

/// The formatting that a run of commands gives to a fresh printer.
fn formatting_after(commands: &[Command], upto: usize) -> (state: FormattingState)
    requires
        upto <= commands@.len(),
    ensures
        state == FormattingState::initial().after_all(job_view(commands@).take(upto as int)),
{
    let ghost job = job_view(commands@);
    let mut state = FormattingState::default();
    let mut i: usize = 0;
    assert(job.take(0) =~= Seq::<CommandView>::empty());
    while i < upto
        invariant
            i <= upto <= commands@.len(),
            job == job_view(commands@),
            state == FormattingState::initial().after_all(job.take(i as int)),
        decreases upto - i,
    {
        proof {
            assert(job.take(i + 1).drop_last() =~= job.take(i as int));
        }
        state.apply(&commands[i]);
        i += 1;
    }
    state
}

/// Rewrites a job into its reprint, stamped with the given time.
///
/// The reprint opens with an initialization and closes with a full cut, and
/// holds no other cut.
pub fn inject_reprint_markers_at(commands: Vec<Command>, timestamp: &str) -> (r: Vec<Command>)
    ensures
        job_view(r@) == reprint_job(job_view(commands@), timestamp@),
        r@.len() >= 2,
        r@[0]@ == CommandView::Init(None),
        r@[r@.len() - 1]@ == CommandView::PrintCut(None),
        forall|i: int| 0 <= i < r@.len() - 1 ==> !r@[i]@.is_cut(),
{
    let ghost job = job_view(commands@);
    let marker = build_reprint_marker_commands(timestamp);
    let reset = FormattingState::reset_commands();
    let original = strip_frame(commands);
    let ghost body = job_view(original@);
    let split = find_content_midpoint(original.as_slice());
    let state = formatting_after(original.as_slice(), split);
    let restore = state.restore_commands();

    let mut result: Vec<Command> = Vec::new();
    assert(job_view(result@) =~= Seq::<CommandView>::empty());

    push_command(&mut result, Command::Init(None));
    append_block(&mut result, &marker);
    append_block(&mut result, &reset);
    assert(job_view(result@) =~= reprint_head(timestamp@));

    append_commands(&mut result, original.as_slice(), 0, split);
    assert(job_view(result@) =~= reprint_head(timestamp@) + body.take(split as int));

    let ghost first_part = job_view(result@);
    append_block(&mut result, &reset);
    push_command(&mut result, Command::Feed(true));
    append_block(&mut result, &marker);
    push_command(&mut result, Command::Feed(true));
    append_block(&mut result, &restore);
    assert(job_view(result@) =~= first_part + reprint_middle(timestamp@, state));

    let ghost second_part = job_view(result@);
    append_commands(&mut result, original.as_slice(), split, original.len());
    assert(job_view(result@) =~= second_part + body.skip(split as int));

    let ghost third_part = job_view(result@);
    append_block(&mut result, &reset);
    push_command(&mut result, Command::Feed(true));
    append_block(&mut result, &marker);
    push_command(&mut result, Command::PrintCut(None));
    assert(job_view(result@) =~= third_part + reprint_tail(timestamp@));

    proof {
        lemma_reprint_frame(job, timestamp@);
        let out = reprint_job(job, timestamp@);
        assert(job_view(result@) == out);
        assert(out.len() == result@.len());
        assert(result@[0]@ == out[0]);
        assert(result@[result@.len() - 1]@ == out[out.len() - 1]);
        assert forall|i: int| 0 <= i < result@.len() - 1 implies !result@[i]@.is_cut() by {
            assert(result@[i]@ == out[i]);
        }
    }
    result
}

/// No command of the job is a cut.
pub open spec fn cut_free(job: Seq<CommandView>) -> bool {
    forall|i: int| 0 <= i < job.len() ==> !(#[trigger] job[i]).is_cut()
}

/// Every command of the job sets a formatting attribute.
pub open spec fn all_formatting(job: Seq<CommandView>) -> bool {
    forall|i: int| 0 <= i < job.len() ==> (#[trigger] job[i]).is_formatting()
}

/// Number of times a command occurs in a job.
pub open spec fn occurrences(job: Seq<CommandView>, wanted: CommandView) -> nat
    decreases job.len(),
{
    if job.len() == 0 {
        0
    } else {
        occurrences(job.drop_last(), wanted) + one_if(job.last() == wanted)
    }
}

proof fn lemma_formatting_emit(job: Seq<CommandView>, condition: bool, command: CommandView)
    requires
        all_formatting(job),
        command.is_formatting(),
    ensures
        all_formatting(job + emit_if(condition, command)),
{
    reveal(emit_if);
}

/// The restore commands set formatting attributes and do nothing else.
pub proof fn lemma_restore_formatting(state: FormattingState)
    ensures
        all_formatting(state.restore_block()),
{
    let b0 = emit_if(state.bold, CommandView::Bold(true));
    let b1 = b0 + emit_if(state.underline != UnderlineMode::Off, CommandView::Underline(state.underline));
    let b2 = b1 + emit_if(state.double_strike, CommandView::DoubleStrike(true));
    let b3 = b2 + emit_if(state.reverse, CommandView::Reverse(true));
    let b4 = b3 + emit_if(state.justify != JustifyMode::LEFT, CommandView::Justify(state.justify));
    let b5 = b4 + emit_if(state.size != (1u8, 1u8), CommandView::Size(state.size));
    let b6 = b5 + emit_if(state.smoothing, CommandView::Smoothing(true));
    let b7 = b6 + emit_if(state.flip, CommandView::Flip(true));
    let b8 = b7 + emit_if(state.upside_down, CommandView::UpsideDown(true));
    let b9 = b8 + emit_if(state.font != Font::A, CommandView::Font(state.font));
    let none = Seq::<CommandView>::empty();
    lemma_formatting_emit(none, state.bold, CommandView::Bold(true));
    assert(none + b0 =~= b0);
    lemma_formatting_emit(b0, state.underline != UnderlineMode::Off, CommandView::Underline(state.underline));
    lemma_formatting_emit(b1, state.double_strike, CommandView::DoubleStrike(true));
    lemma_formatting_emit(b2, state.reverse, CommandView::Reverse(true));
    lemma_formatting_emit(b3, state.justify != JustifyMode::LEFT, CommandView::Justify(state.justify));
    lemma_formatting_emit(b4, state.size != (1u8, 1u8), CommandView::Size(state.size));
    lemma_formatting_emit(b5, state.smoothing, CommandView::Smoothing(true));
    lemma_formatting_emit(b6, state.flip, CommandView::Flip(true));
    lemma_formatting_emit(b7, state.upside_down, CommandView::UpsideDown(true));
    lemma_formatting_emit(b8, state.font != Font::A, CommandView::Font(state.font));
    assert(b9 == state.restore_block());
}

proof fn lemma_reset_formatting()
    ensures
        all_formatting(FormattingState::reset_block()),
{
}

proof fn lemma_body_cut_free(job: Seq<CommandView>)
    ensures
        cut_free(receipt_body(job)),
{
    let keep = |c: CommandView| !c.is_cut();
    let kept = without_cuts(job);
    assert forall|i: int| 0 <= i < kept.len() implies !(#[trigger] kept[i]).is_cut() by {
        job.lemma_filter_pred(keep, i);
    }
    let body = receipt_body(job);
    assert forall|i: int| 0 <= i < body.len() implies !(#[trigger] body[i]).is_cut() by {
        if kept.len() > 0 && kept.first() is Init {
            assert(body[i] == kept[i + 1]);
        }
    }
}

/// A reprint opens with an initialization, closes with a full cut and holds
/// no other cut, whatever cuts the job held.
pub proof fn lemma_reprint_frame(job: Seq<CommandView>, timestamp: Seq<char>)
    ensures
        reprint_job(job, timestamp).len() >= 2,
        reprint_job(job, timestamp).first() == CommandView::Init(None),
        reprint_job(job, timestamp).last() == CommandView::PrintCut(None),
        forall|i: int|
            0 <= i < reprint_job(job, timestamp).len() - 1 ==> !(#[trigger] reprint_job(
                job,
                timestamp,
            )[i]).is_cut(),
{
    let body = receipt_body(job);
    lemma_midpoint(body);
    lemma_body_cut_free(job);
    let split = midpoint(body);
    let state = FormattingState::initial().after_all(body.take(split));
    lemma_restore_formatting(state);
    lemma_reset_formatting();
    let marker = marker_block(timestamp);
    let reset = FormattingState::reset_block();
    let restore = state.restore_block();
    assert(cut_free(marker));
    assert(cut_free(reset)) by {
        assert forall|i: int| 0 <= i < reset.len() implies !(#[trigger] reset[i]).is_cut() by {
            assert(reset[i].is_formatting());
        }
    }
    assert(cut_free(restore)) by {
        assert forall|i: int| 0 <= i < restore.len() implies !(#[trigger] restore[i]).is_cut() by {
            assert(restore[i].is_formatting());
        }
    }
    let head = reprint_head(timestamp);
    let middle = reprint_middle(timestamp, state);
    let tail_open = reset + seq![CommandView::Feed(true)] + marker;
    assert(cut_free(head));
    assert(cut_free(middle));
    assert(cut_free(tail_open));
    assert(cut_free(body.take(split)));
    assert(cut_free(body.skip(split)));
    let inner = head + body.take(split) + middle + body.skip(split) + tail_open;
    assert(cut_free(inner));
    let out = reprint_job(job, timestamp);
    assert(out =~= inner + seq![CommandView::PrintCut(None)]);
    assert(head.len() >= 1);
    assert(out[0] == head[0]);
}

/// Occurrences add up over concatenation.
pub proof fn lemma_occurrences_concat(
    first: Seq<CommandView>,
    second: Seq<CommandView>,
    wanted: CommandView,
)
    ensures
        occurrences(first + second, wanted) == occurrences(first, wanted) + occurrences(
            second,
            wanted,
        ),
    decreases second.len(),
{
    if second.len() == 0 {
        assert(first + second =~= first);
    } else {
        lemma_occurrences_concat(first, second.drop_last(), wanted);
        assert((first + second).drop_last() =~= first + second.drop_last());
    }
}

proof fn lemma_occurrences_absent(job: Seq<CommandView>, wanted: CommandView)
    requires
        forall|i: int| 0 <= i < job.len() ==> job[i] != wanted,
    ensures
        occurrences(job, wanted) == 0,
    decreases job.len(),
{
    if job.len() > 0 {
        lemma_occurrences_absent(job.drop_last(), wanted);
    }
}

proof fn lemma_occurrences_without_cuts(job: Seq<CommandView>, wanted: CommandView)
    requires
        !wanted.is_cut(),
    ensures
        occurrences(without_cuts(job), wanted) == occurrences(job, wanted),
    decreases job.len(),
{
    reveal(Seq::filter);
    if job.len() > 0 {
        lemma_occurrences_without_cuts(job.drop_last(), wanted);
        let shorter = without_cuts(job.drop_last());
        if !job.last().is_cut() {
            assert(without_cuts(job) == shorter.push(job.last()));
            assert(shorter.push(job.last()).drop_last() =~= shorter);
        }
    }
}

proof fn lemma_occurrences_body(job: Seq<CommandView>, wanted: CommandView)
    requires
        !wanted.is_cut(),
        !(wanted is Init),
    ensures
        occurrences(receipt_body(job), wanted) == occurrences(job, wanted),
{
    lemma_occurrences_without_cuts(job, wanted);
    let kept = without_cuts(job);
    if kept.len() > 0 && kept.first() is Init {
        let opening = seq![kept.first()];
        assert(kept =~= opening + kept.drop_first());
        lemma_occurrences_concat(opening, kept.drop_first(), wanted);
        lemma_occurrences_single(kept.first(), wanted);
    }
}

proof fn lemma_occurrences_single(command: CommandView, wanted: CommandView)
    ensures
        occurrences(seq![command], wanted) == one_if(command == wanted),
{
    reveal_with_fuel(occurrences, 2);
    assert(seq![command].drop_last() =~= Seq::<CommandView>::empty());
}

proof fn lemma_occurrences_formatting(job: Seq<CommandView>, wanted: CommandView)
    requires
        all_formatting(job),
        !wanted.is_formatting(),
    ensures
        occurrences(job, wanted) == 0,
{
    assert forall|i: int| 0 <= i < job.len() implies job[i] != wanted by {
        assert(job[i].is_formatting());
    }
    lemma_occurrences_absent(job, wanted);
}

/// The marker names the receipt as a copy once, unless the time stamp line
/// happens to read like the legend; then it does so twice.
pub proof fn lemma_marker_legend(timestamp: Seq<char>)
    ensures
        occurrences(marker_block(timestamp), legend_line()) == 1 + one_if(
            stamp_line(timestamp) == legend_line(),
        ),
{
    reveal_strlit("     ** REPRINT COPY **");
    reveal_strlit("================================");
    reveal_strlit("  REIKA-escpos");
    let legend = legend_line();
    let rule = CommandView::Writeln("================================"@);
    let brand = CommandView::Writeln("  REIKA-escpos"@);
    assert("================================"@.len() != "     ** REPRINT COPY **"@.len());
    assert("  REIKA-escpos"@.len() != "     ** REPRINT COPY **"@.len());
    assert(rule != legend);
    assert(brand != legend);
    let opening = seq![CommandView::Justify(JustifyMode::CENTER), CommandView::Reverse(true), rule];
    let closing = seq![brand, rule, CommandView::Reverse(false), CommandView::Justify(JustifyMode::LEFT)];
    assert(marker_block(timestamp) =~= opening + seq![legend] + seq![stamp_line(timestamp)]
        + closing);
    lemma_occurrences_absent(opening, legend);
    lemma_occurrences_absent(closing, legend);
    lemma_occurrences_single(legend, legend);
    lemma_occurrences_single(stamp_line(timestamp), legend);
    lemma_occurrences_concat(opening, seq![legend], legend);
    lemma_occurrences_concat(opening + seq![legend], seq![stamp_line(timestamp)], legend);
    lemma_occurrences_concat(
        opening + seq![legend] + seq![stamp_line(timestamp)],
        closing,
        legend,
    );
}

/// A reprint names itself as a copy once in each of its three markers, on
/// top of whatever the job itself says: a job that does not hold the legend
/// comes out with exactly three, however much content it has, none included.
pub proof fn lemma_three_markers(job: Seq<CommandView>, timestamp: Seq<char>)
    ensures
        occurrences(reprint_job(job, timestamp), legend_line()) == 3 * occurrences(
            marker_block(timestamp),
            legend_line(),
        ) + occurrences(job, legend_line()),
        stamp_line(timestamp) != legend_line() && occurrences(job, legend_line()) == 0
            ==> occurrences(reprint_job(job, timestamp), legend_line()) == 3,
{
    let legend = legend_line();
    let body = receipt_body(job);
    lemma_midpoint(body);
    let split = midpoint(body);
    let first = body.take(split);
    let second = body.skip(split);
    let state = FormattingState::initial().after_all(first);
    let marker = marker_block(timestamp);
    let reset = FormattingState::reset_block();
    let restore = state.restore_block();
    let feed = seq![CommandView::Feed(true)];
    let init = seq![CommandView::Init(None)];
    let cut = seq![CommandView::PrintCut(None)];

    lemma_marker_legend(timestamp);
    lemma_occurrences_body(job, legend);
    assert(body =~= first + second);
    lemma_occurrences_concat(first, second, legend);
    lemma_reset_formatting();
    lemma_restore_formatting(state);
    lemma_occurrences_formatting(reset, legend);
    lemma_occurrences_formatting(restore, legend);
    lemma_occurrences_single(CommandView::Feed(true), legend);
    lemma_occurrences_single(CommandView::Init(None), legend);
    lemma_occurrences_single(CommandView::PrintCut(None), legend);

    let head = reprint_head(timestamp);
    lemma_occurrences_concat(init, marker, legend);
    lemma_occurrences_concat(init + marker, reset, legend);

    let middle = reprint_middle(timestamp, state);
    lemma_occurrences_concat(reset, feed, legend);
    lemma_occurrences_concat(reset + feed, marker, legend);
    lemma_occurrences_concat(reset + feed + marker, feed, legend);
    lemma_occurrences_concat(reset + feed + marker + feed, restore, legend);

    let tail = reprint_tail(timestamp);
    lemma_occurrences_concat(reset + feed + marker, cut, legend);

    lemma_occurrences_concat(head, first, legend);
    lemma_occurrences_concat(head + first, middle, legend);
    lemma_occurrences_concat(head + first + middle, second, legend);
    lemma_occurrences_concat(head + first + middle + second, tail, legend);
}

/// A character that a rendered date and time is made of: a digit, a sign, a
/// colon or a blank.
pub open spec fn is_clock_char(c: char) -> bool {
    c == '0' || c == '1' || c == '2' || c == '3' || c == '4' || c == '5' || c == '6' || c == '7'
        || c == '8' || c == '9' || c == '-' || c == '+' || c == ':' || c == ' '
}

/// A text made of such characters only.
pub open spec fn is_clock_text(text: Seq<char>) -> bool {
    forall|i: int| 0 <= i < text.len() ==> is_clock_char(#[trigger] text[i])
}

/// The local date and time of the call, as `chrono::Local::now()` gives it
/// and `format("%Y-%m-%d  %H:%M:%S")` renders it.
///
/// Trusted, not proved: that the text holds nothing but what the format
/// asks for, that is numbers in decimal digits, for a year outside 0 to
/// 9999 with a sign in front, and the hyphens, blanks and colons of the
/// pattern.  Nothing is claimed about which time it shows.  The clock of
/// the machine must not stand before 1970.
#[verifier::external_body]
fn local_timestamp() -> (stamp: String)
    ensures
        is_clock_text(stamp@),
{
    chrono::Local::now().format("%Y-%m-%d  %H:%M:%S").to_string()
}

/// A rendered date and time never reads like the legend.
pub proof fn lemma_stamp_is_no_legend(timestamp: Seq<char>)
    requires
        is_clock_text(timestamp),
    ensures
        stamp_line(timestamp) != legend_line(),
{
    reveal_strlit("     ** REPRINT COPY **");
    reveal_strlit("  ");
    let line = "  "@ + timestamp;
    if line == "     ** REPRINT COPY **"@ {
        assert("  "@.len() == 2);
        assert(line.len() == 23);
        assert(timestamp.len() == 21);
        assert(line[5] == '*');
        assert(line[5] == timestamp[5 - 2]);
        assert(is_clock_char(timestamp[3]));
    }
}

/// Rewrites a job into its reprint, stamped with the time of the call.
///
/// Told apart from the original by three markers: one on top, one at the
/// midpoint of the content, one at the bottom.  The stamp is taken anew on
/// every call.
pub fn inject_reprint_markers(commands: Vec<Command>) -> (r: Vec<Command>)
    ensures
        exists|timestamp: Seq<char>|
            is_clock_text(timestamp) && job_view(r@) == #[trigger] reprint_job(
                job_view(commands@),
                timestamp,
            ),
        r@.len() >= 2,
        r@[0]@ == CommandView::Init(None),
        r@[r@.len() - 1]@ == CommandView::PrintCut(None),
        forall|i: int| 0 <= i < r@.len() - 1 ==> !r@[i]@.is_cut(),
        occurrences(job_view(commands@), legend_line()) == 0 ==> occurrences(
            job_view(r@),
            legend_line(),
        ) == 3,
{
    let timestamp = local_timestamp();
    let ghost job = job_view(commands@);
    let r = inject_reprint_markers_at(commands, timestamp.as_str());
    proof {
        lemma_stamp_is_no_legend(timestamp@);
        lemma_three_markers(job, timestamp@);
        assert(is_clock_text(timestamp@) && job_view(r@) == reprint_job(job, timestamp@));
    }
    r
}

} // verus!
