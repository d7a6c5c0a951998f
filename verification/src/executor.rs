//! Running a job against the printer, one step at a time.
//!
//! A batch opens with an explicit initialization, sends the commands of the
//! job in order and closes with a full cut.  The first failing step aborts
//! the batch: nothing after it is sent, so a receipt is either complete and
//! cut, or visibly unfinished and printed again from the top.
//!
//! The caller owns the device.  It asks the [`Batch`] which step is pending,
//! performs it, and records how it went.

use vstd::prelude::*;
use crate::error::PrinterFault;

verus! {

/// One step of a batch.
#[derive(Debug, Clone, Copy, PartialEq, Eq, Structural)]
pub enum Step {
    /// The initialization that opens a framed batch.
    Init,
    /// The command of the job at this index, counted from zero.
    Command(usize),
    /// The full cut that closes a framed batch.
    FinalCut,
}

/// How a batch ended, or that it has not ended yet.
#[derive(Debug)]
pub enum BatchOutcome {
    /// A step is still pending.
    Running,
    /// Every step succeeded.
    Completed,
    /// This step failed, and nothing was sent after it.
    Failed { step: Step, fault: PrinterFault },
}

/// Number of steps of a batch over a job of `len` commands.
pub open spec fn plan_len(framed: bool, len: nat) -> nat {
    if framed {
        len + 2
    } else {
        len
    }
}

/// The step at position `k` of a batch over a job of `len` commands.
pub open spec fn plan_step(framed: bool, len: nat, k: int) -> Step {
    if !framed {
        Step::Command(k as usize)
    } else if k == 0 {
        Step::Init
    } else if k <= len {
        Step::Command((k - 1) as usize)
    } else {
        Step::FinalCut
    }
}

/// The order of the steps: a framed batch initializes first and cuts last,
/// with the commands of the job in between in their order; a batch that is
/// not framed sends the commands and nothing else.  So the closing cut is
/// reached only after the initialization and every command have succeeded.
pub proof fn lemma_plan_order(framed: bool, len: nat, k: int)
    requires
        0 <= k < plan_len(framed, len),
        len <= usize::MAX,
    ensures
        plan_step(framed, len, k) == Step::Init <==> framed && k == 0,
        plan_step(framed, len, k) == Step::FinalCut <==> framed && k == len + 1,
        forall|i: usize|
            plan_step(framed, len, k) == Step::Command(i) <==> i < len && k == if framed {
                i + 1
            } else {
                i as int
            },
{
}

enum Status {
    Pending(Step),
    Done,
    Aborted(Step, PrinterFault),
}

/// Progress of one attempt to print a job.
pub struct Batch {
    framed: bool,
    len: usize,
    status: Status,
}

impl Batch {
    spec fn position(&self, step: Step) -> nat {
        match step {
            Step::Init => 0,
            Step::Command(i) => if self.framed {
                (i + 1) as nat
            } else {
                i as nat
            },
            Step::FinalCut => (self.len + 1) as nat,
        }
    }

    spec fn in_plan(&self, step: Step) -> bool {
        match step {
            Step::Init => self.framed,
            Step::Command(i) => i < self.len,
            Step::FinalCut => self.framed,
        }
    }

    #[verifier::type_invariant]
    spec fn well_formed(&self) -> bool {
        match self.status {
            Status::Pending(step) => self.in_plan(step),
            Status::Done => true,
            Status::Aborted(step, _) => self.in_plan(step),
        }
    }

    /// Whether the batch adds the opening initialization and the closing cut.
    pub closed spec fn framed(&self) -> bool {
        self.framed
    }

    /// Number of commands in the job.
    pub closed spec fn len(&self) -> nat {
        self.len as nat
    }

    /// Number of steps that have succeeded so far.
    pub closed spec fn completed(&self) -> nat {
        match self.status {
            Status::Pending(step) => self.position(step),
            Status::Done => plan_len(self.framed, self.len as nat),
            Status::Aborted(step, _) => self.position(step),
        }
    }

    /// The failure that aborted the batch, if one did.
    pub closed spec fn failure(&self) -> Option<PrinterFault> {
        match self.status {
            Status::Aborted(_, fault) => Some(fault),
            _ => None,
        }
    }

    /// The step to perform next; none once the batch has ended.
    pub open spec fn next_step(&self) -> Option<Step> {
        if self.failure() is Some || self.completed() >= plan_len(self.framed(), self.len()) {
            None
        } else {
            Some(plan_step(self.framed(), self.len(), self.completed() as int))
        }
    }

    fn start(framed: bool, len: usize) -> (r: Self)
        ensures
            r.framed() == framed,
            r.len() == len,
            r.completed() == 0,
            r.failure() is None,
    {
        let status = if framed {
            Status::Pending(Step::Init)
        } else if len > 0 {
            Status::Pending(Step::Command(0))
        } else {
            Status::Done
        };
        Batch { framed, len, status }
    }

    /// A batch that prints a job of `len` commands between an initialization
    /// and a full cut.
    pub fn new(len: usize) -> (r: Self)
        ensures
            r.framed(),
            r.len() == len,
            r.completed() == 0,
            r.failure() is None,
    {
        Batch::start(true, len)
    }

    /// A batch that sends a job of `len` commands as it is: the job brings
    /// its own initialization and cut.
    pub fn prepared(len: usize) -> (r: Self)
        ensures
            !r.framed(),
            r.len() == len,
            r.completed() == 0,
            r.failure() is None,
    {
        Batch::start(false, len)
    }

    /// The step to perform next; `None` once the batch has ended.
    pub fn pending(&self) -> (r: Option<Step>)
        ensures
            r == self.next_step(),
            r matches Some(Step::Command(i)) ==> i < self.len(),
            self.completed() <= plan_len(self.framed(), self.len()),
            self.failure() is Some ==> self.completed() < plan_len(self.framed(), self.len()),
    {
        proof {
            use_type_invariant(self);
        }
        match &self.status {
            Status::Pending(step) => Some(*step),
            _ => None,
        }
    }

    /// Records how the pending step went.
    ///
    /// A success moves the batch to its next step.  A failure aborts it at
    /// the pending step.  Once the batch has ended, a report changes nothing.
    pub fn record(&mut self, outcome: Result<(), PrinterFault>)
        ensures
            final(self).framed() == old(self).framed(),
            final(self).len() == old(self).len(),
            old(self).next_step() is None ==> {
                &&& final(self).completed() == old(self).completed()
                &&& final(self).failure() == old(self).failure()
            },
            old(self).next_step() is Some && outcome is Ok ==> {
                &&& final(self).completed() == old(self).completed() + 1
                &&& final(self).failure() is None
            },
            old(self).next_step() is Some && outcome is Err ==> {
                &&& final(self).completed() == old(self).completed()
                &&& final(self).failure() == Some(outcome->Err_0)
            },
    {
        proof {
            use_type_invariant(&*self);
        }
        match &self.status {
            Status::Pending(pending) => {
                let step = *pending;
                match outcome {
                    Ok(_) => {
                        let next = match step {
                            Step::Init => if self.len > 0 {
                                Status::Pending(Step::Command(0))
                            } else {
                                Status::Pending(Step::FinalCut)
                            },
                            Step::Command(i) => if i + 1 < self.len {
                                Status::Pending(Step::Command(i + 1))
                            } else if self.framed {
                                Status::Pending(Step::FinalCut)
                            } else {
                                Status::Done
                            },
                            Step::FinalCut => Status::Done,
                        };
                        self.status = next;
                    },
                    Err(fault) => {
                        self.status = Status::Aborted(step, fault);
                    },
                }
            },
            _ => {},
        }
    }

    /// How the batch stands.
    ///
    /// It has completed exactly when every step of the plan succeeded, the
    /// closing cut included; it has failed exactly when a step was reported
    /// as failed, and then names that step.
    pub fn outcome(&self) -> (r: BatchOutcome)
        ensures
            match r {
                BatchOutcome::Running => self.next_step() is Some,
                BatchOutcome::Completed => {
                    &&& self.failure() is None
                    &&& self.completed() == plan_len(self.framed(), self.len())
                },
                BatchOutcome::Failed { step, fault } => {
                    &&& self.failure() == Some(fault)
                    &&& step == plan_step(self.framed(), self.len(), self.completed() as int)
                },
            },
    {
        proof {
            use_type_invariant(self);
        }
        match &self.status {
            Status::Pending(_) => BatchOutcome::Running,
            Status::Done => BatchOutcome::Completed,
            Status::Aborted(step, fault) => BatchOutcome::Failed {
                step: *step,
                fault: fault.clone(),
            },
        }
    }
}

} // verus!
