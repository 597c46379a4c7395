//! What holds of every operation, whatever the engine replies.

use crate::context::{Context, NIX_ERR_KEY, NIX_OK};
use crate::engine::{Call, Function, Handle, Release, Reply};
use crate::operation::{outcome, Op, OutputView, Pending, Stage, Step};
use crate::state::State;
use crate::utils::{c_string_of, nul_free, ErrorView};
use crate::value::{Value, ValueType};
use vstd::prelude::*;
use vstd::utf8::*;

verus! {

/// Whether the step at `i` of `trace` asks for a call and the step after it
/// is what follows when `replies[i]` comes back.
pub open spec fn hop(trace: Seq<Step>, replies: Seq<Reply>, i: int) -> bool {
    trace[i] matches Step::Perform(p) && p.resumes(replies[i], trace[i + 1])
}

/// Whether `trace` is a stretch of an operation driven by `replies`: each
/// step but the last asks for a call, and the next step is what follows when
/// the reply of the same index comes back.
pub open spec fn follows(trace: Seq<Step>, replies: Seq<Reply>) -> bool {
    &&& trace.len() == replies.len() + 1
    &&& forall|i: int| 0 <= i < replies.len() ==> #[trigger] hop(trace, replies, i)
}

/// Whether the step asks for `release`.
pub open spec fn gives_back(step: Step, release: Release) -> bool {
    step matches Step::Perform(p) && p.call == Call::Release(release)
}

/// What an operation owes when it starts to wind down is given back, each
/// resource once and in order, whatever comes back from the releases; then
/// the operation ends with the result it was winding down to.
pub proof fn law_owed_is_given_back(
    trace: Seq<Step>,
    replies: Seq<Reply>,
    owed: Seq<Release>,
    result: Result<OutputView, ErrorView>,
)
    requires
        follows(trace, replies),
        replies.len() == owed.len(),
        trace[0].winds_down(owed, result),
    ensures
        forall|i: int| 0 <= i < owed.len() ==> gives_back(#[trigger] trace[i], owed[i]),
        trace[owed.len() as int].finishes(result),
    decreases owed.len(),
{
    if owed.len() > 0 {
        assert(hop(trace, replies, 0));
        let rest = trace.skip(1);
        let later = replies.skip(1);
        assert forall|i: int| 0 <= i < later.len() implies #[trigger] hop(rest, later, i) by {
            assert(hop(trace, replies, i + 1));
        }
        assert(rest[0] == trace[1]);
        law_owed_is_given_back(rest, later, owed.skip(1), result);
        assert forall|i: int| 0 <= i < owed.len() implies gives_back(
            #[trigger] trace[i],
            owed[i],
        ) by {
            if i > 0 {
                assert(trace[i] == rest[i - 1]);
                assert(gives_back(rest[i - 1], owed.skip(1)[i - 1]));
            }
        }
        assert(trace[owed.len() as int] == rest[owed.len() - 1]);
    }
}

/// A build of a value of any kind but an attribute set ends with
/// `NotDerivation` as soon as the kind is known: the value's `drvPath` is
/// never asked for.
pub proof fn law_build_needs_an_attribute_set(
    state: State,
    value: Value,
    ty: u32,
    trace: Seq<Step>,
)
    requires
        state.builds(&value, trace[0]),
        follows(trace, seq![Reply::Kind(ty), Reply::Code(NIX_OK)]),
        ValueType::of_raw(ty) is Some,
        ValueType::of_raw(ty) != Some(ValueType::Attrs),
    ensures
        trace[1] matches Step::Perform(p) && p.call == (Call::ErrCode { ctx: value.ctx.handle }),
        trace[2].finishes(Err(ErrorView::NotDerivation)),
{
    let replies = seq![Reply::Kind(ty), Reply::Code(NIX_OK)];
    assert(hop(trace, replies, 0));
    assert(hop(trace, replies, 1));
}

/// A build of an attribute set in which the engine finds no `drvPath` ends
/// with `NotDerivation`, provided the engine's message is text.
pub proof fn law_build_needs_a_drv_path(
    state: State,
    value: Value,
    ty: u32,
    found: Handle,
    message: Vec<u8>,
    trace: Seq<Step>,
)
    requires
        state.builds(&value, trace[0]),
        follows(
            trace,
            seq![
                Reply::Kind(ty),
                Reply::Code(NIX_OK),
                Reply::Handle(found),
                Reply::Code(NIX_ERR_KEY),
                Reply::Bytes(message),
            ],
        ),
        ValueType::of_raw(ty) == Some(ValueType::Attrs),
        valid_utf8(message@),
    ensures
        trace[5].finishes(Err(ErrorView::NotDerivation)),
{
    let replies = seq![
        Reply::Kind(ty),
        Reply::Code(NIX_OK),
        Reply::Handle(found),
        Reply::Code(NIX_ERR_KEY),
        Reply::Bytes(message),
    ];
    assert(hop(trace, replies, 0));
    assert(hop(trace, replies, 1));
    assert(hop(trace, replies, 2));
    assert(hop(trace, replies, 3));
    assert(hop(trace, replies, 4));
}

/// A build of an attribute set whose `drvPath` is of any kind but a string
/// gives the attribute and its context back and ends with `NotDerivation`:
/// the attribute is never read as a string.
pub proof fn law_build_needs_a_string(
    state: State,
    value: Value,
    ty: u32,
    child: Handle,
    fresh: Handle,
    kind: u32,
    first: Reply,
    second: Reply,
    trace: Seq<Step>,
)
    requires
        state.builds(&value, trace[0]),
        follows(
            trace,
            seq![
                Reply::Kind(ty),
                Reply::Code(NIX_OK),
                Reply::Handle(child),
                Reply::Code(NIX_OK),
                Reply::Handle(fresh),
                Reply::Kind(kind),
                Reply::Code(NIX_OK),
                first,
                second,
            ],
        ),
        ValueType::of_raw(ty) == Some(ValueType::Attrs),
        ValueType::of_raw(kind) is Some,
        ValueType::of_raw(kind) != Some(ValueType::String),
    ensures
        gives_back(trace[7], Release::Value(child)),
        gives_back(trace[8], Release::Context(fresh)),
        trace[9].finishes(Err(ErrorView::NotDerivation)),
{
    let replies = seq![
        Reply::Kind(ty),
        Reply::Code(NIX_OK),
        Reply::Handle(child),
        Reply::Code(NIX_OK),
        Reply::Handle(fresh),
        Reply::Kind(kind),
        Reply::Code(NIX_OK),
        first,
        second,
    ];
    assert(hop(trace, replies, 0));
    assert(hop(trace, replies, 1));
    assert(hop(trace, replies, 2));
    assert(hop(trace, replies, 3));
    assert(hop(trace, replies, 4));
    assert(hop(trace, replies, 5));
    assert(hop(trace, replies, 6));
    let owed = seq![Release::Value(child), Release::Context(fresh)];
    assert(trace[7].winds_down(owed, Err(ErrorView::NotDerivation)));
    let tail = trace.skip(7);
    let last = seq![first, second];
    assert forall|i: int| 0 <= i < last.len() implies #[trigger] hop(tail, last, i) by {
        assert(hop(trace, replies, i + 7));
    }
    law_owed_is_given_back(tail, last, owed, Err(ErrorView::NotDerivation));
    assert(tail[0] == trace[7]);
    assert(tail[1] == trace[8]);
    assert(tail[2] == trace[9]);
    assert(gives_back(tail[0], owed[0]));
    assert(gives_back(tail[1], owed[1]));
}

/// An integer that the engine holds reaches the caller unchanged: when the
/// engine answers with `n` and its context reports success, reading the
/// value as an integer ends with `n`.
pub proof fn law_an_integer_is_read_unchanged(value: Value, n: i64, trace: Seq<Step>)
    requires
        trace[0].asks(value.ctx.handle, Function::GetInt { value: value.value }, Op::Int),
        follows(trace, seq![Reply::Int(n), Reply::Code(NIX_OK)]),
    ensures
        trace[2].finishes(Ok(OutputView::Int(n))),
{
    let replies = seq![Reply::Int(n), Reply::Code(NIX_OK)];
    assert(hop(trace, replies, 0));
    assert(hop(trace, replies, 1));
}

/// Every function that takes a context is judged at once: whatever it
/// handed back, the next thing asked is the status of that context, and the
/// operation has not moved on.
pub proof fn law_every_function_is_judged_at_once(pending: Pending, reply: Reply, step: Step)
    requires
        pending.stage == Stage::Call,
        pending.call is Checked,
        reply.answers(pending.call),
        pending.resumes(reply, step),
    ensures
        step matches Step::Perform(next) && next.call == (Call::ErrCode {
            ctx: pending.call->Checked_ctx,
        }) && next.op == pending.op,
{
}

/// No failure is swallowed. When the context reports a status other than
/// success after a function of a sound operation, the context is asked for
/// its message, all that the operation owes is given back, and the
/// operation ends with the error that status and message stand for; only
/// the missing `drvPath` of a build ends it with `NotDerivation` instead.
/// No further function of the engine is called.
pub proof fn law_no_failure_is_swallowed(
    pending: Pending,
    code: i32,
    message: Vec<u8>,
    trace: Seq<Step>,
    replies: Seq<Reply>,
)
    requires
        pending.sound(),
        pending.stage is Status,
        code != NIX_OK,
        trace[0] == Step::Perform(pending),
        follows(trace, replies),
        replies.len() == 2 + pending.op.owes().len(),
        replies[0] == Reply::Code(code),
        replies[1] == Reply::Bytes(message),
    ensures
        trace[1] matches Step::Perform(p) && p.call == (Call::ErrMsg {
            ctx: pending.call->ErrCode_ctx,
        }),
        forall|i: int|
            0 <= i < pending.op.owes().len() ==> gives_back(
                #[trigger] trace[2 + i],
                pending.op.owes()[i],
            ),
        trace.last().finishes(
            Err(
                if pending.op is BuildAttr && Context::failure(code, message@) is NixErrorKey {
                    ErrorView::NotDerivation
                } else {
                    Context::failure(code, message@)
                },
            ),
        ),
{
    assert(hop(trace, replies, 0));
    assert(hop(trace, replies, 1));
    let error = if pending.op is BuildAttr && Context::failure(code, message@) is NixErrorKey {
        ErrorView::NotDerivation
    } else {
        Context::failure(code, message@)
    };
    let owed = pending.op.owes();
    assert(trace[2].winds_down(owed, Err(error)));
    let tail = trace.skip(2);
    let last = replies.skip(2);
    assert forall|i: int| 0 <= i < last.len() implies #[trigger] hop(tail, last, i) by {
        assert(hop(trace, replies, i + 2));
    }
    law_owed_is_given_back(tail, last, owed, Err(error));
    assert forall|i: int| 0 <= i < owed.len() implies gives_back(
        #[trigger] trace[2 + i],
        owed[i],
    ) by {
        assert(tail[i] == trace[2 + i]);
    }
    assert(tail[owed.len() as int] == trace.last());
}

/// The course of every operation that is one call of the engine, whatever
/// the function: the function is called, its context is asked for its
/// status at once, and on success the operation ends with what it makes of
/// what the function handed back; on any other status the context is asked
/// for its message, and the operation ends with the error that status and
/// message stand for.
pub proof fn law_a_call_is_judged_by_its_context(
    ctx: Handle,
    function: Function,
    op: Op,
    output: Reply,
    code: i32,
    message: Vec<u8>,
    trace: Seq<Step>,
)
    requires
        op.single(),
        trace[0].asks(ctx, function, op),
        output.answers(Call::Checked { ctx, function }),
        follows(
            trace,
            if code == NIX_OK {
                seq![output, Reply::Code(code)]
            } else {
                seq![output, Reply::Code(code), Reply::Bytes(message)]
            },
        ),
    ensures
        trace[1] matches Step::Perform(p) && p.call == (Call::ErrCode { ctx }),
        code == NIX_OK ==> trace[2].finishes(op.made_of(output)),
        code != NIX_OK ==> (trace[2] matches Step::Perform(p) && p.call == (Call::ErrMsg { ctx }))
            && trace[3].finishes(Err(Context::failure(code, message@))),
{
    if code == NIX_OK {
        let replies = seq![output, Reply::Code(code)];
        assert(hop(trace, replies, 0));
        assert(hop(trace, replies, 1));
    } else {
        let replies = seq![output, Reply::Code(code), Reply::Bytes(message)];
        assert(hop(trace, replies, 0));
        assert(hop(trace, replies, 1));
        assert(hop(trace, replies, 2));
    }
}

/// While the engine takes them, the items of a list go into the builder one
/// by one, each at its own index and in the order given; when all are in,
/// the list is made.
pub proof fn law_a_list_is_filled_in_order(
    ctx: Handle,
    value: Handle,
    builder: Handle,
    items: Vec<Handle>,
    trace: Seq<Step>,
    replies: Seq<Reply>,
    n: int,
)
    requires
        0 <= n <= items.len() <= u32::MAX,
        trace[0].fills_list(ctx, value, builder, items, 0),
        follows(trace, replies),
        replies.len() == 2 * n,
        forall|i: int| 0 <= i < n ==> #[trigger] replies[2 * i + 1] == Reply::Code(NIX_OK),
    ensures
        forall|i: int|
            0 <= i < n ==> (#[trigger] trace[2 * i]).asks(
                ctx,
                Function::ListBuilderInsert { builder, index: i as u32, value: items[i] },
                Op::ListInsert { ctx, value, builder, items, next: (i + 1) as usize },
            ),
        trace[2 * n].fills_list(ctx, value, builder, items, n as usize),
        n == items.len() ==> trace[2 * n].asks(
            ctx,
            Function::MakeList { builder, value },
            Op::ListMake { builder },
        ),
    decreases n,
{
    if n > 0 {
        let m = n - 1;
        let front = trace.take(2 * m + 1);
        let earlier = replies.take(2 * m);
        assert forall|i: int| 0 <= i < earlier.len() implies #[trigger] hop(front, earlier, i) by {
            assert(hop(trace, replies, i));
        }
        assert forall|i: int| 0 <= i < m implies #[trigger] earlier[2 * i + 1] == Reply::Code(
            NIX_OK,
        ) by {
            assert(earlier[2 * i + 1] == replies[2 * i + 1]);
        }
        law_a_list_is_filled_in_order(ctx, value, builder, items, front, earlier, m);
        assert(front[2 * m] == trace[2 * m]);
        assert(trace[2 * m].fills_list(ctx, value, builder, items, m as usize));
        assert(hop(trace, replies, 2 * m));
        assert(hop(trace, replies, 2 * m + 1));
        assert(replies[2 * m + 1] == Reply::Code(NIX_OK));
        assert forall|i: int| 0 <= i < n implies (#[trigger] trace[2 * i]).asks(
            ctx,
            Function::ListBuilderInsert { builder, index: i as u32, value: items[i] },
            Op::ListInsert { ctx, value, builder, items, next: (i + 1) as usize },
        ) by {
            if i < m {
                assert(front[2 * i] == trace[2 * i]);
            }
        }
    }
}

/// While the engine takes them, the entries of an attribute set whose names
/// can be C strings go into the builder one by one, each under its name and
/// in the order given; when all are in, the set is made.
pub proof fn law_an_attribute_set_is_filled_in_order(
    ctx: Handle,
    value: Handle,
    builder: Handle,
    entries: Vec<(String, Handle)>,
    trace: Seq<Step>,
    replies: Seq<Reply>,
    n: int,
)
    requires
        0 <= n <= entries.len(),
        forall|i: int| 0 <= i < n ==> nul_free(#[trigger] entries[i].0@),
        trace[0].fills_attrs(ctx, value, builder, entries, 0),
        follows(trace, replies),
        replies.len() == 2 * n,
        forall|i: int| 0 <= i < n ==> #[trigger] replies[2 * i + 1] == Reply::Code(NIX_OK),
    ensures
        forall|i: int|
            0 <= i < n ==> inserts(#[trigger] trace[2 * i], ctx, builder, entries[i]),
        trace[2 * n].fills_attrs(ctx, value, builder, entries, n as usize),
        n == entries.len() ==> trace[2 * n].asks(
            ctx,
            Function::MakeAttrs { value, builder },
            Op::AttrsMake { builder },
        ),
    decreases n,
{
    if n > 0 {
        let m = n - 1;
        let front = trace.take(2 * m + 1);
        let earlier = replies.take(2 * m);
        assert forall|i: int| 0 <= i < earlier.len() implies #[trigger] hop(front, earlier, i) by {
            assert(hop(trace, replies, i));
        }
        assert forall|i: int| 0 <= i < m implies #[trigger] earlier[2 * i + 1] == Reply::Code(
            NIX_OK,
        ) by {
            assert(earlier[2 * i + 1] == replies[2 * i + 1]);
        }
        law_an_attribute_set_is_filled_in_order(ctx, value, builder, entries, front, earlier, m);
        assert(front[2 * m] == trace[2 * m]);
        assert(trace[2 * m].fills_attrs(ctx, value, builder, entries, m as usize));
        assert(nul_free(entries[m as int].0@));
        assert(hop(trace, replies, 2 * m));
        assert(hop(trace, replies, 2 * m + 1));
        assert(replies[2 * m + 1] == Reply::Code(NIX_OK));
        assert forall|i: int| 0 <= i < n implies inserts(
            #[trigger] trace[2 * i],
            ctx,
            builder,
            entries[i],
        ) by {
            if i < m {
                assert(front[2 * i] == trace[2 * i]);
            }
        }
    }
}

/// Whether the step puts `entry` into the builder of an attribute set, under its name as a C string.
pub open spec fn inserts(step: Step, ctx: Handle, builder: Handle, entry: (String, Handle)) -> bool {
    &&& step matches Step::Perform(p)
    &&& p.stage == Stage::Call
    &&& p.call matches Call::Checked {
        ctx: c,
        function: Function::BindingsBuilderInsert { builder: b, name, value: v },
    }
    &&& c == ctx
    &&& b == builder
    &&& v == entry.1
    &&& name@ == c_string_of(entry.0@)
}

impl Op {
    /// Whether `output` is of the kind that the operation hands to its
    /// caller when it succeeds.
    pub open spec fn promises(self, output: OutputView) -> bool {
        match self {
            Op::Kind => output is Kind,
            Op::Int => output is Int,
            Op::Float => output is Float,
            Op::Bool => output is Bool,
            Op::Size => output is Size,
            Op::Text | Op::CStr => output is Text,
            Op::NewContext => output is Context,
            Op::StoreContext { .. } | Op::StoreOpen { .. } => output is Store,
            Op::PathContext { .. } | Op::PathParse { .. } => output is StorePath,
            Op::StateContext { .. } | Op::StateCreate { .. } => output is State,
            Op::ValueContext { .. }
            | Op::ValueAlloc { .. }
            | Op::EvalContext { .. }
            | Op::EvalAlloc { .. }
            | Op::EvalRun { .. }
            | Op::Child
            | Op::Wrap { .. } => output is Value,
            Op::Attr | Op::AttrName { .. } | Op::AttrWrap { .. } => output is Attr,
            Op::BuildKind { .. }
            | Op::BuildAttr { .. }
            | Op::BuildWrap { .. }
            | Op::BuildChildKind { .. }
            | Op::BuildText { .. }
            | Op::BuildPathContext { .. }
            | Op::BuildParse { .. }
            | Op::BuildParsed { .. }
            | Op::BuildRealise { .. } => output is Outputs,
            Op::Unwind { result, .. } => outcome(result) == Ok::<OutputView, ErrorView>(output),
            _ => output is Nothing,
        }
    }
}

impl Step {
    /// Whether `output` is of the kind that the operation at this step
    /// hands, or has handed, to its caller when it succeeds.
    pub open spec fn promises(self, output: OutputView) -> bool {
        match self {
            Step::Perform(p) => p.op.promises(output),
            Step::Finished(result) => outcome(result) == Ok::<OutputView, ErrorView>(output),
        }
    }
}

/// An operation keeps what it promises: over every stretch of it, what is
/// promised at the end was promised at the start. So an operation that
/// succeeds hands over an output of the kind it started out for: a store for
/// opening a store, an integer for reading one, the outputs for a build.
pub proof fn law_an_operation_keeps_its_promise(
    trace: Seq<Step>,
    replies: Seq<Reply>,
    output: OutputView,
)
    requires
        follows(trace, replies),
        trace.last().promises(output),
    ensures
        trace[0].promises(output),
    decreases replies.len(),
{
    let n = replies.len() as int;
    if n > 0 {
        assert(hop(trace, replies, n - 1));
        let pending = trace[n - 1]->Perform_0;
        let reply = replies[n - 1];
        let step = trace[n];
        assert(pending.resumes(reply, step));
        assert(pending.op.promises(output));
        let front = trace.drop_last();
        let earlier = replies.drop_last();
        assert forall|i: int| 0 <= i < earlier.len() implies #[trigger] hop(front, earlier, i) by {
            assert(hop(trace, replies, i));
        }
        assert(front.last() == trace[n - 1]);
        law_an_operation_keeps_its_promise(front, earlier, output);
        assert(front[0] == trace[0]);
    }
}

} // verus!
