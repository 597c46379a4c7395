//! Every operation ends.
//!
//! Nothing is tried twice, so each step of an operation brings its end nearer,
//! whatever the engine replies. This file gives a bound on the calls that are
//! left at each point and proves that every step lowers it.

use crate::context::{Context, NIX_OK};
use crate::engine::{Call, Reply};
use crate::laws::{follows, hop};
use crate::operation::{Op, Output, Pending, Stage, Step};
use crate::utils::{Error, ErrorView};
use vstd::prelude::*;

verus! {

impl Op {
    /// A bound on the calls that are left once the call in flight has been judged.
    pub open spec fn left(self) -> nat {
        match self {
            Op::Done
            | Op::Kind
            | Op::Int
            | Op::Float
            | Op::Bool
            | Op::Size
            | Op::Text
            | Op::NewContext => 0,
            Op::CStr => 1,
            Op::InitContext => 10,
            Op::InitUtil { .. } => 7,
            Op::InitStore { .. } => 4,
            Op::InitExpr { .. } => 1,
            Op::StoreContext { .. } => 4,
            Op::StoreOpen { .. } => 1,
            Op::PathContext { .. } => 4,
            Op::PathParse { .. } => 1,
            Op::StateContext { .. } => 5,
            Op::StateCreate { .. } => 2,
            Op::ValueContext { .. } => 4,
            Op::ValueAlloc { .. } => 1,
            Op::EvalContext { .. } => 8,
            Op::EvalAlloc { .. } => 5,
            Op::EvalRun { .. } => 2,
            Op::Child => 2,
            Op::Wrap { .. } => 1,
            Op::Attr => 3,
            Op::AttrName { .. } => 2,
            Op::AttrWrap { .. } => 1,
            Op::AttrsBuilder { entries, .. } => (3 * entries.len() + 4) as nat,
            Op::AttrsInsert { entries, next, .. } => if next < entries.len() {
                (3 * (entries.len() - next) + 4) as nat
            } else {
                4
            },
            Op::AttrsMake { .. } => 1,
            Op::ListBuilder { items, .. } => (3 * items.len() + 4) as nat,
            Op::ListInsert { items, next, .. } => if next < items.len() {
                (3 * (items.len() - next) + 4) as nat
            } else {
                4
            },
            Op::ListMake { .. } => 1,
            Op::BuildKind { .. } => 21,
            Op::BuildAttr { .. } => 18,
            Op::BuildWrap { .. } => 17,
            Op::BuildChildKind { .. } => 14,
            Op::BuildText { .. } => 11,
            Op::BuildPathContext { .. } => 10,
            Op::BuildParse { .. } => 7,
            Op::BuildParsed { .. } => 6,
            Op::BuildRealise { .. } => 3,
            Op::Unwind { owed, .. } => owed.len() as nat,
        }
    }
}

impl Step {
    /// A bound on the calls that are left from this step on: none when the
    /// operation is over; else the call to perform, the questions to its
    /// context that may follow, and what is left after them.
    pub open spec fn left(self) -> nat {
        match self {
            Step::Finished(_) => 0,
            Step::Perform(p) => p.op.left() + match p.stage {
                Stage::Call => if p.call is Checked {
                    3nat
                } else {
                    1nat
                },
                Stage::Status { .. } => 2nat,
                Stage::Message { .. } => 1nat,
            },
        }
    }
}

proof fn lemma_failing_is_nearer(op: Op, error: ErrorView, step: Step)
    requires
        op.fails(error, step),
    ensures
        step.left() <= op.left(),
{
}

proof fn lemma_proceeding_is_nearer(op: Op, reply: Reply, step: Step)
    requires
        op.proceeds(reply, step),
    ensures
        step.left() <= op.left(),
{
    if op.fails(ErrorView::UnknownError, step) {
        lemma_failing_is_nearer(op, ErrorView::UnknownError, step);
    }
}

/// Every step brings the end nearer: whatever comes back from the call in
/// flight, fewer calls are left after it than before.
pub proof fn law_every_step_brings_the_end_nearer(pending: Pending, reply: Reply, step: Step)
    requires
        pending.resumes(reply, step),
    ensures
        step.left() < Step::Perform(pending).left(),
{
    if !reply.answers(pending.call) {
        lemma_failing_is_nearer(pending.op, ErrorView::UnknownError, step);
    } else {
        match (pending.stage, pending.call, reply) {
            (Stage::Call, Call::Checked { .. }, _) => {},
            (Stage::Call, _, _) => {
                lemma_proceeding_is_nearer(pending.op, reply, step);
            },
            (Stage::Status { function, output }, Call::ErrCode { ctx }, Reply::Code(code)) => {
                if code == NIX_OK {
                    lemma_proceeding_is_nearer(pending.op, output, step);
                }
            },
            (Stage::Message { code }, _, Reply::Bytes(message)) => {
                lemma_failing_is_nearer(
                    pending.op,
                    Context::failure(code, message@),
                    step,
                );
            },
            _ => {
                lemma_failing_is_nearer(pending.op, ErrorView::UnknownError, step);
            },
        }
    }
}

/// No operation makes more calls than are left at its start: an operation
/// cannot be driven further than that, whatever the engine replies.
pub proof fn law_an_operation_ends(trace: Seq<Step>, replies: Seq<Reply>)
    requires
        follows(trace, replies),
    ensures
        trace.last().left() + replies.len() <= trace[0].left(),
    decreases replies.len(),
{
    let n = replies.len() as int;
    if n > 0 {
        let front = trace.drop_last();
        let earlier = replies.drop_last();
        assert forall|i: int| 0 <= i < earlier.len() implies #[trigger] hop(front, earlier, i) by {
            assert(hop(trace, replies, i));
        }
        law_an_operation_ends(front, earlier);
        assert(hop(trace, replies, n - 1));
        let pending = trace[n - 1]->Perform_0;
        law_every_step_brings_the_end_nearer(pending, replies[n - 1], trace[n]);
        assert(front.last() == trace[n - 1]);
        assert(front[0] == trace[0]);
    }
}

/// Whether `engine` can have given each of `replies` to the call of the step it answers.
pub open spec fn answered<E: Fn(&Call) -> Reply>(
    engine: E,
    trace: Seq<Step>,
    replies: Seq<Reply>,
) -> bool {
    forall|i: int|
        0 <= i < replies.len() ==> (#[trigger] trace[i] matches Step::Perform(p)
            && engine.ensures((&p.call,), replies[i]))
}

/// Whether `result` is how the operation that starts at `start` ends when
/// the engine's replies are `replies`: `trace` is its course from the start
/// to the end, and each reply is one that `engine` can have given to the
/// call it answers.
pub open spec fn runs<E: Fn(&Call) -> Reply>(
    engine: E,
    start: Step,
    trace: Seq<Step>,
    replies: Seq<Reply>,
    result: Result<Output, Error>,
) -> bool {
    &&& follows(trace, replies)
    &&& trace[0] == start
    &&& trace.last() == Step::Finished(result)
    &&& answered(engine, trace, replies)
}

/// Drives an operation to its end: performs each call with `engine` and
/// hands the reply back, until the operation is over.
pub fn run<E: Fn(&Call) -> Reply>(start: Step, engine: E) -> (result: Result<Output, Error>)
    requires
        forall|call: &Call| engine.requires((call,)),
    ensures
        exists|trace: Seq<Step>, replies: Seq<Reply>| runs(engine, start, trace, replies, result),
{
    let ghost mut trace: Seq<Step> = seq![start];
    let ghost mut replies: Seq<Reply> = Seq::empty();
    let mut step = start;
    loop
        invariant
            forall|call: &Call| engine.requires((call,)),
            follows(trace, replies),
            trace[0] == start,
            trace.last() == step,
            answered(engine, trace, replies),
        decreases step.left(),
    {
        match step {
            Step::Finished(result) => {
                assert(runs(engine, start, trace, replies, result));
                return result;
            },
            Step::Perform(pending) => {
                let reply = engine(&pending.call);
                let ghost before = pending;
                let ghost came = reply;
                let ghost so_far = trace;
                let ghost given = replies;
                let next = pending.resume(reply);
                proof {
                    law_every_step_brings_the_end_nearer(before, came, next);
                    trace = so_far.push(next);
                    replies = given.push(came);
                    assert forall|i: int| 0 <= i < replies.len() implies #[trigger] hop(
                        trace,
                        replies,
                        i,
                    ) by {
                        if i < given.len() {
                            assert(hop(so_far, given, i));
                        }
                    }
                    assert forall|i: int| 0 <= i < replies.len() implies (
                    #[trigger] trace[i] matches Step::Perform(p) && engine.ensures(
                        (&p.call,),
                        replies[i],
                    )) by {
                        if i < given.len() {
                            assert(so_far[i] == trace[i]);
                        }
                    }
                }
                step = next;
            },
        }
    }
}

} // verus!
