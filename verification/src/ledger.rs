//! The ledger of native resources.
//!
//! The engine hands resources out: contexts, stores, store paths, states,
//! counted references to values, builders. Each has to be given back once.
//! This file states what an operation holds at each point and proves that
//! the books balance over every step: what is held afterwards, together with
//! what the step gives back, is what was held before together with what the
//! reply handed over.

use crate::context::{Context, NIX_OK};
use crate::engine::{Call, Function, Release, Reply};
use crate::laws::{follows, hop};
use crate::operation::{outcome, Op, OutputView, Pending, Stage, Step};
use crate::utils::ErrorView;
use vstd::multiset::*;
use vstd::prelude::*;
use vstd::seq_lib::*;

verus! {

/// The resources that the caller owns when an operation has ended with `result`.
pub open spec fn handed(result: Result<OutputView, ErrorView>) -> Multiset<Release> {
    match result {
        Ok(OutputView::Context(c)) => Multiset::singleton(Release::Context(c.handle)),
        Ok(OutputView::Store(s)) => Multiset::singleton(Release::Store(s.store)),
        Ok(OutputView::StorePath(p)) => Multiset::singleton(Release::StorePath(p.store_path)),
        Ok(OutputView::State(s)) => Multiset::singleton(Release::State(s.state)).insert(
            Release::Context(s.ctx.handle),
        ).insert(Release::Store(s.store.store)),
        Ok(OutputView::Value(v)) => Multiset::singleton(Release::Value(v.value)).insert(
            Release::Context(v.ctx.handle),
        ),
        Ok(OutputView::Attr(_, v)) => Multiset::singleton(Release::Value(v.value)).insert(
            Release::Context(v.ctx.handle),
        ),
        _ => Multiset::empty(),
    }
}

/// Whether `function` hands a resource out when it succeeds.
pub open spec fn hands_out(function: Function) -> bool {
    function is StoreOpen || function is StoreParsePath || function is StateCreate
        || function is AllocValue || function is GetAttrByName || function is GetAttrByIdx
        || function is GetListByIdx || function is MakeBindingsBuilder
        || function is MakeListBuilder
}

/// Whether `call` is one that an operation at `op` waits for.
pub open spec fn awaits(op: Op, call: Call) -> bool {
    match op {
        Op::NewContext
        | Op::InitContext
        | Op::StoreContext { .. }
        | Op::PathContext { .. }
        | Op::StateContext { .. }
        | Op::ValueContext { .. }
        | Op::EvalContext { .. }
        | Op::Wrap { .. }
        | Op::AttrWrap { .. }
        | Op::BuildWrap { .. }
        | Op::BuildPathContext { .. } => call == Call::ContextCreate,
        Op::StoreOpen { .. } => call matches Call::Checked { function, .. }
            && function is StoreOpen,
        Op::PathParse { .. } | Op::BuildParse { .. } => call matches Call::Checked {
            function,
            ..
        } && function is StoreParsePath,
        Op::StateCreate { .. } => call matches Call::Checked { function, .. }
            && function is StateCreate,
        Op::ValueAlloc { .. } | Op::EvalAlloc { .. } => call matches Call::Checked {
            function,
            ..
        } && function is AllocValue,
        Op::Child | Op::BuildAttr { .. } => call matches Call::Checked { function, .. } && (
        function is GetAttrByName || function is GetListByIdx),
        Op::Attr => call matches Call::Checked { function, .. } && function is GetAttrByIdx,
        Op::AttrsBuilder { .. } => call matches Call::Checked { function, .. }
            && function is MakeBindingsBuilder,
        Op::ListBuilder { .. } => call matches Call::Checked { function, .. }
            && function is MakeListBuilder,
        Op::AttrName { .. } => call is ReadCStr,
        Op::Text => call is ReadCStr || call is StorePathName || (call matches Call::Checked {
            function,
            ..
        } && !hands_out(function)),
        Op::BuildParsed { .. } | Op::Unwind { .. } => call is Release,
        _ => call matches Call::Checked { function, .. } && !hands_out(function),
    }
}

/// What a successful `call` hands over with `reply`.
pub open spec fn gain(call: Call, reply: Reply) -> Multiset<Release> {
    match (call, reply) {
        (Call::ContextCreate, Reply::Handle(h)) => Multiset::singleton(Release::Context(h)),
        (Call::Checked { function, .. }, _) => match function.yields(reply) {
            Some(release) => Multiset::singleton(release),
            None => Multiset::empty(),
        },
        _ => Multiset::empty(),
    }
}

impl Op {
    /// The resources that an operation holds at this point: what it owes,
    /// and what it is about to hand to its caller.
    pub open spec fn holds(self) -> Multiset<Release> {
        match self {
            Op::Unwind { owed, result } => owed@.to_multiset().add(handed(outcome(result))),
            _ => self.owes().to_multiset(),
        }
    }
}

impl Pending {
    /// Whether the operation and the call in flight belong together.
    pub open spec fn sound(self) -> bool {
        match self.stage {
            Stage::Call => awaits(self.op, self.call),
            Stage::Status { function, output } => self.call matches Call::ErrCode { ctx }
                && awaits(self.op, Call::Checked { ctx, function }) && output.answers(
                Call::Checked { ctx, function },
            ),
            Stage::Message { .. } => self.call is ErrMsg,
        }
    }

    /// What the reply to the call in flight hands over: a context as soon as
    /// it is created, and what a function yields once its context has
    /// reported success.
    pub open spec fn gains(self, reply: Reply) -> Multiset<Release> {
        match (self.stage, self.call, reply) {
            (Stage::Call, Call::ContextCreate, _) => gain(self.call, reply),
            (Stage::Status { function, output }, Call::ErrCode { ctx }, Reply::Code(code)) => {
                if code == NIX_OK {
                    gain(Call::Checked { ctx, function }, output)
                } else {
                    Multiset::empty()
                }
            },
            _ => Multiset::empty(),
        }
    }
}

impl Step {
    /// Whether the step is one of a sound operation.
    pub open spec fn sound(self) -> bool {
        match self {
            Step::Perform(p) => p.sound(),
            Step::Finished(_) => true,
        }
    }

    /// The resources held at this step: by the operation while it runs, by
    /// the caller once it is over. A resource whose release is in flight is
    /// no longer held.
    pub open spec fn holds(self) -> Multiset<Release> {
        match self {
            Step::Perform(p) => p.op.holds(),
            Step::Finished(result) => handed(outcome(result)),
        }
    }

    /// The resource that this step gives back.
    pub open spec fn releases(self) -> Multiset<Release> {
        match self {
            Step::Perform(p) => match p.call {
                Call::Release(release) => Multiset::singleton(release),
                _ => Multiset::empty(),
            },
            Step::Finished(_) => Multiset::empty(),
        }
    }
}

proof fn lemma_nothing_owed()
    ensures
        Seq::<Release>::empty().to_multiset() == Multiset::<Release>::empty(),
{
    broadcast use group_multiset_axioms;

    let none = Seq::<Release>::empty();
    to_multiset_len(none);
    assert forall|r: Release| none.to_multiset().count(r) == 0 by {
        axiom_count_le_len(none.to_multiset(), r);
    }
    assert(none.to_multiset() =~= Multiset::<Release>::empty());
}

proof fn lemma_winding_down(
    step: Step,
    owed: Seq<Release>,
    result: Result<OutputView, ErrorView>,
)
    requires
        step.winds_down(owed, result),
    ensures
        step.sound(),
        step.holds().add(step.releases()) == owed.to_multiset().add(handed(result)),
{
    broadcast use group_multiset_axioms;

    if owed.len() == 0 {
        assert(owed =~= Seq::<Release>::empty());
        lemma_nothing_owed();
        assert(step.holds().add(step.releases()) =~= owed.to_multiset().add(handed(result)));
    } else {
        assert(owed.skip(1) =~= owed.remove(0));
        to_multiset_remove(owed, 0);
        to_multiset_contains(owed, owed[0]);
        assert(owed.contains(owed[0]));
        assert(step.holds().add(step.releases()) =~= owed.to_multiset().add(handed(result)));
    }
}

proof fn lemma_debt(s: Seq<Release>)
    ensures
        s.len() == 0 ==> s.to_multiset() == Multiset::<Release>::empty(),
        s.len() == 1 ==> s.to_multiset() == Multiset::singleton(s[0]),
        s.len() == 2 ==> s.to_multiset() == Multiset::singleton(s[0]).insert(s[1]),
        s.len() == 3 ==> s.to_multiset() == Multiset::singleton(s[0]).insert(s[1]).insert(s[2]),
{
    broadcast use group_multiset_axioms;

    lemma_nothing_owed();
    let none = Seq::<Release>::empty();
    if s.len() == 0 {
        assert(s =~= none);
    } else if s.len() == 1 {
        assert(s =~= none.push(s[0]));
        to_multiset_build(none, s[0]);
        assert(s.to_multiset() =~= Multiset::singleton(s[0]));
    } else if s.len() == 2 {
        assert(s =~= none.push(s[0]).push(s[1]));
        to_multiset_build(none, s[0]);
        to_multiset_build(none.push(s[0]), s[1]);
        assert(s.to_multiset() =~= Multiset::singleton(s[0]).insert(s[1]));
    } else if s.len() == 3 {
        assert(s =~= none.push(s[0]).push(s[1]).push(s[2]));
        to_multiset_build(none, s[0]);
        to_multiset_build(none.push(s[0]), s[1]);
        to_multiset_build(none.push(s[0]).push(s[1]), s[2]);
        assert(s.to_multiset() =~= Multiset::singleton(s[0]).insert(s[1]).insert(s[2]));
    }
}

proof fn lemma_failing(op: Op, error: ErrorView, step: Step)
    requires
        op.fails(error, step),
    ensures
        step.sound(),
        step.holds().add(step.releases()) == op.holds(),
{
    broadcast use group_multiset_axioms;

    match op {
        Op::Unwind { owed, result } => {
            lemma_winding_down(step, owed@, outcome(result));
        },
        Op::BuildAttr { .. } => {
            let e = if error is NixErrorKey {
                ErrorView::NotDerivation
            } else {
                error
            };
            lemma_winding_down(step, op.owes(), Err(e));
            assert(handed(Err(e)) == Multiset::<Release>::empty());
            assert(step.holds().add(step.releases()) =~= op.holds());
        },
        _ => {
            lemma_winding_down(step, op.owes(), Err(error));
            assert(handed(Err(error)) == Multiset::<Release>::empty());
            assert(step.holds().add(step.releases()) =~= op.holds());
        },
    }
}

proof fn lemma_winding_down_any(step: Step, owed: Seq<Release>)
    ensures
        forall|result: Result<OutputView, ErrorView>| #[trigger]
            step.winds_down(owed, result) ==> step.sound() && step.holds().add(step.releases())
                == owed.to_multiset().add(handed(result)),
{
    assert forall|result: Result<OutputView, ErrorView>| #[trigger]
        step.winds_down(owed, result) implies step.sound() && step.holds().add(step.releases())
        == owed.to_multiset().add(handed(result)) by {
        lemma_winding_down(step, owed, result);
    }
}

proof fn lemma_proceeding(op: Op, call: Call, reply: Reply, step: Step)
    requires
        awaits(op, call),
        reply.answers(call),
        op.proceeds(reply, step),
    ensures
        step.sound(),
        step.holds().add(step.releases()) == op.holds().add(gain(call, reply)),
{
    broadcast use group_multiset_axioms;

    lemma_debt(op.owes());
    lemma_nothing_owed();
    lemma_winding_down_any(step, op.owes());
    let total = op.holds().add(gain(call, reply));
    match (op, reply) {
        (Op::Unwind { owed, result }, _) => {
            lemma_winding_down(step, owed@, outcome(result));
            assert(step.holds().add(step.releases()) =~= total);
        },
        (Op::AttrsBuilder { .. }, Reply::Handle(builder)) => {
            let owed = seq![Release::BindingsBuilder(builder)];
            lemma_debt(owed);
            lemma_winding_down_any(step, owed);
            if let Step::Perform(p) = step {
                lemma_debt(p.op.owes());
            }
            assert(step.holds().add(step.releases()) =~= total);
        },
        (Op::ListBuilder { .. }, Reply::Handle(builder)) => {
            let owed = seq![Release::ListBuilder(builder)];
            lemma_debt(owed);
            lemma_winding_down_any(step, owed);
            if let Step::Perform(p) = step {
                lemma_debt(p.op.owes());
            }
            assert(step.holds().add(step.releases()) =~= total);
        },
        _ => {
            if op.fails(ErrorView::UnknownError, step) {
                lemma_failing(op, ErrorView::UnknownError, step);
            }
            if let Step::Perform(p) = step {
                lemma_debt(p.op.owes());
            }
            assert(step.sound());
            assert(step.holds().add(step.releases()) =~= total);
        },
    }
}

/// The books balance over every step of a sound operation, whatever comes
/// back: the next step is sound again, and what is held after it, together
/// with what it gives back, is what was held before together with what the
/// reply handed over. Nothing that the engine hands out goes unrecorded,
/// nothing is given back that was not held, and nothing is given back twice.
pub proof fn law_the_books_balance(pending: Pending, reply: Reply, step: Step)
    requires
        pending.sound(),
        pending.resumes(reply, step),
    ensures
        step.sound(),
        step.holds().add(step.releases()) == pending.op.holds().add(pending.gains(reply)),
{
    broadcast use group_multiset_axioms;

    let held = pending.op.holds();
    if !reply.answers(pending.call) {
        lemma_failing(pending.op, ErrorView::UnknownError, step);
        assert(pending.gains(reply) == Multiset::<Release>::empty());
        assert(step.holds().add(step.releases()) =~= held.add(pending.gains(reply)));
    } else {
        match (pending.stage, pending.call, reply) {
            (Stage::Call, Call::Checked { ctx, function }, _) => {
                assert(step.holds().add(step.releases()) =~= held.add(pending.gains(reply)));
            },
            (Stage::Call, _, _) => {
                lemma_proceeding(pending.op, pending.call, reply, step);
                assert(gain(pending.call, reply) == pending.gains(reply));
            },
            (Stage::Status { function, output }, Call::ErrCode { ctx }, Reply::Code(code)) => {
                if code == NIX_OK {
                    lemma_proceeding(pending.op, Call::Checked { ctx, function }, output, step);
                } else {
                    assert(step.holds().add(step.releases()) =~= held.add(
                        pending.gains(reply),
                    ));
                }
            },
            (Stage::Message { code }, _, Reply::Bytes(message)) => {
                lemma_failing(
                    pending.op,
                    Context::failure(code, message@),
                    step,
                );
                assert(step.holds().add(step.releases()) =~= held.add(pending.gains(reply)));
            },
            _ => {
                lemma_failing(pending.op, ErrorView::UnknownError, step);
                assert(pending.gains(reply) == Multiset::<Release>::empty());
                assert(step.holds().add(step.releases()) =~= held.add(pending.gains(reply)));
            },
        }
    }
}

/// All that the replies of a stretch of an operation handed over.
pub open spec fn gained(trace: Seq<Step>, replies: Seq<Reply>) -> Multiset<Release>
    decreases replies.len(),
{
    if replies.len() == 0 {
        Multiset::empty()
    } else {
        gained(trace, replies.drop_last()).add(
            match trace[replies.len() - 1] {
                Step::Perform(p) => p.gains(replies.last()),
                Step::Finished(_) => Multiset::empty(),
            },
        )
    }
}

/// All that the first `n` steps of a stretch of an operation gave back.
pub open spec fn given_back(trace: Seq<Step>, n: nat) -> Multiset<Release>
    decreases n,
{
    if n == 0 {
        Multiset::empty()
    } else {
        given_back(trace, (n - 1) as nat).add(trace[n - 1].releases())
    }
}

/// The books balance over every stretch of a sound operation: what is held
/// at its end, together with all that was given back on the way, is what was
/// held at its start together with all that the replies handed over. So an
/// operation that ends in an error, and hands nothing to its caller, has
/// given back everything that it took over or was handed.
pub proof fn law_the_books_balance_throughout(trace: Seq<Step>, replies: Seq<Reply>)
    requires
        follows(trace, replies),
        trace[0].sound(),
    ensures
        trace.last().sound(),
        trace.last().holds().add(given_back(trace, trace.len())) == trace[0].holds().add(
            trace[0].releases(),
        ).add(gained(trace, replies)),
        trace.last() matches Step::Finished(Err(_)) ==> given_back(trace, trace.len())
            == trace[0].holds().add(trace[0].releases()).add(gained(trace, replies)),
    decreases replies.len(),
{
    broadcast use group_multiset_axioms;

    let n = replies.len() as int;
    if n == 0 {
        assert(given_back(trace, 1) == given_back(trace, 0).add(trace[0].releases()));
        assert(trace.last().holds().add(given_back(trace, trace.len())) =~= trace[0].holds().add(
            trace[0].releases(),
        ).add(gained(trace, replies)));
    } else {
        let front = trace.drop_last();
        let earlier = replies.drop_last();
        assert forall|i: int| 0 <= i < earlier.len() implies #[trigger] hop(front, earlier, i) by {
            assert(hop(trace, replies, i));
        }
        law_the_books_balance_throughout(front, earlier);
        assert(hop(trace, replies, n - 1));
        assert(front.last() == trace[n - 1]);
        assert(front[0] == trace[0]);
        let pending = trace[n - 1]->Perform_0;
        law_the_books_balance(pending, replies[n - 1], trace[n]);
        assert(earlier.take(earlier.len() as int) =~= earlier);
        lemma_gained_prefix(trace, front, earlier, earlier.len());
        lemma_given_back_prefix(trace, front, front.len());
        let start = trace[0].holds().add(trace[0].releases());
        let before = given_back(trace, n as nat);
        let got = gained(trace, earlier);
        let new = pending.gains(replies[n - 1]);
        assert(trace.len() == n + 1);
        assert(given_back(trace, (n + 1) as nat) == before.add(trace[n].releases()));
        assert(replies.last() == replies[n - 1]);
        assert(gained(trace, replies) == got.add(new));
        assert(trace[n - 1].holds().add(before) == start.add(got));
        assert(trace[n].holds().add(trace[n].releases()) == trace[n - 1].holds().add(new));
        assert forall|r: Release|
            trace[n].holds().add(before.add(trace[n].releases())).count(r) == start.add(
                got.add(new),
            ).count(r) by {
            assert(trace[n - 1].holds().add(before).count(r) == start.add(got).count(r));
            assert(trace[n].holds().add(trace[n].releases()).count(r) == trace[n
                - 1].holds().add(new).count(r));
        }
        assert(trace[n].holds().add(before.add(trace[n].releases())) =~= start.add(
            got.add(new),
        ));
        assert(trace.last() == trace[n]);
    }
    if trace.last() matches Step::Finished(Err(_)) {
        assert(trace.last().holds() =~= Multiset::<Release>::empty());
        assert(given_back(trace, trace.len()) =~= trace.last().holds().add(
            given_back(trace, trace.len()),
        ));
    }
}

proof fn lemma_gained_prefix(trace: Seq<Step>, front: Seq<Step>, replies: Seq<Reply>, n: nat)
    requires
        n <= replies.len(),
        replies.len() <= front.len() <= trace.len(),
        forall|i: int| 0 <= i < front.len() ==> front[i] == trace[i],
    ensures
        gained(trace, replies.take(n as int)) == gained(front, replies.take(n as int)),
    decreases n,
{
    if n > 0 {
        lemma_gained_prefix(trace, front, replies, (n - 1) as nat);
        assert(replies.take(n as int).drop_last() =~= replies.take(n - 1));
    }
}

proof fn lemma_given_back_prefix(trace: Seq<Step>, front: Seq<Step>, n: nat)
    requires
        n <= front.len() <= trace.len(),
        forall|i: int| 0 <= i < front.len() ==> front[i] == trace[i],
    ensures
        given_back(trace, n) == given_back(front, n),
    decreases n,
{
    if n > 0 {
        lemma_given_back_prefix(trace, front, (n - 1) as nat);
    }
}

} // verus!
