//! The course of each operation that takes more than one call, when the
//! engine does all that is asked of it.
//!
//! What follows a status other than success is the same for every
//! operation and is stated once, in [`crate::laws`].

use crate::context::{Context, NIX_OK};
use crate::engine::{Call, Function, Handle, Release, Reply};
use crate::laws::{follows, gives_back, hop};
use crate::operation::{drv_path_name, text_of, Op, OutputView, Step};
use crate::path::StorePath;
use crate::state::{all_nul_free, lookup_of, State};
use crate::store::Store;
use crate::utils::{c_string_of, nul_free, ErrorView, Outputs};
use crate::value::{Value, ValueType};
use vstd::prelude::*;
use vstd::utf8::*;

verus! {

/// Whether the step asks for the status of the context `ctx`.
pub open spec fn judges(step: Step, ctx: Handle) -> bool {
    step matches Step::Perform(p) && p.call == (Call::ErrCode { ctx })
}

/// Whether the step calls `function` with the context `ctx`.
pub open spec fn calls(step: Step, ctx: Handle, function: Function) -> bool {
    step matches Step::Perform(p) && p.call == (Call::Checked { ctx, function })
}

/// Bringing the engine up: a context is created; the utility library, the
/// store library and the evaluator are initialised in this order, each
/// judged by that context; the context is given back.
pub proof fn law_the_engine_is_brought_up_in_order(
    ctx: Handle,
    replies: Seq<Reply>,
    trace: Seq<Step>,
)
    requires
        trace[0].makes(Call::ContextCreate, Op::InitContext),
        follows(trace, replies),
        replies.len() == 8,
        replies[0] == Reply::Handle(ctx),
        replies[2] == Reply::Code(NIX_OK),
        replies[4] == Reply::Code(NIX_OK),
        replies[6] == Reply::Code(NIX_OK),
    ensures
        calls(trace[1], ctx, Function::LibutilInit),
        judges(trace[2], ctx),
        calls(trace[3], ctx, Function::LibstoreInit),
        judges(trace[4], ctx),
        calls(trace[5], ctx, Function::LibexprInit),
        judges(trace[6], ctx),
        gives_back(trace[7], Release::Context(ctx)),
        trace[8].finishes(Ok(OutputView::Nothing)),
{
    assert(hop(trace, replies, 0));
    assert(hop(trace, replies, 1));
    assert(hop(trace, replies, 2));
    assert(hop(trace, replies, 3));
    assert(hop(trace, replies, 4));
    assert(hop(trace, replies, 5));
    assert(hop(trace, replies, 6));
    assert(hop(trace, replies, 7));
}

/// Opening a store: a context is created, the store is opened at the given
/// address under it, the context is given back, and the caller owns the
/// store that came.
pub proof fn law_a_store_is_opened(
    uri: &str,
    ctx: Handle,
    store: Handle,
    replies: Seq<Reply>,
    trace: Seq<Step>,
)
    requires
        nul_free(uri@),
        Store::opens(uri, trace[0]),
        follows(trace, replies),
        replies.len() == 4,
        replies[0] == Reply::Handle(ctx),
        replies[1] == Reply::Handle(store),
        replies[2] == Reply::Code(NIX_OK),
    ensures
        trace[1] matches Step::Perform(p) && (p.call matches Call::Checked {
            ctx: c,
            function: Function::StoreOpen { uri: bytes },
        } && c == ctx && bytes@ == c_string_of(uri@)),
        judges(trace[2], ctx),
        gives_back(trace[3], Release::Context(ctx)),
        trace[4].finishes(Ok(OutputView::Store(Store { store }))),
{
    assert(hop(trace, replies, 0));
    assert(hop(trace, replies, 1));
    assert(hop(trace, replies, 2));
    assert(hop(trace, replies, 3));
}

/// Parsing a store path: a context is created, the path is parsed against
/// the store under it, the context is given back, and the caller owns the
/// path that came.
pub proof fn law_a_store_path_is_parsed(
    store: &Store,
    path: &str,
    ctx: Handle,
    parsed: Handle,
    replies: Seq<Reply>,
    trace: Seq<Step>,
)
    requires
        nul_free(path@),
        StorePath::parses(store, path, trace[0]),
        follows(trace, replies),
        replies.len() == 4,
        replies[0] == Reply::Handle(ctx),
        replies[1] == Reply::Handle(parsed),
        replies[2] == Reply::Code(NIX_OK),
    ensures
        trace[1] matches Step::Perform(p) && (p.call matches Call::Checked {
            ctx: c,
            function: Function::StoreParsePath { store: s, path: bytes },
        } && c == ctx && s == store.store && bytes@ == c_string_of(path@)),
        judges(trace[2], ctx),
        gives_back(trace[3], Release::Context(ctx)),
        trace[4].finishes(Ok(OutputView::StorePath(StorePath { store_path: parsed }))),
{
    assert(hop(trace, replies, 0));
    assert(hop(trace, replies, 1));
    assert(hop(trace, replies, 2));
    assert(hop(trace, replies, 3));
}

/// Creating a state: a context is created, the state is created under it
/// with the lookup table and the store, and the caller owns the state, which
/// keeps that context and the store.
pub proof fn law_a_state_is_created(
    store: Store,
    paths: Seq<&str>,
    ctx: Handle,
    state: Handle,
    replies: Seq<Reply>,
    trace: Seq<Step>,
)
    requires
        all_nul_free(paths),
        State::creates(store, paths, trace[0]),
        follows(trace, replies),
        replies.len() == 3,
        replies[0] == Reply::Handle(ctx),
        replies[1] == Reply::Handle(state),
        replies[2] == Reply::Code(NIX_OK),
    ensures
        trace[1] matches Step::Perform(p) && (p.call matches Call::Checked {
            ctx: c,
            function: Function::StateCreate { lookup, store: s },
        } && c == ctx && s == store.store && lookup_of(paths, lookup@)),
        judges(trace[2], ctx),
        trace[3].finishes(
            Ok(OutputView::State(State { ctx: Context { handle: ctx }, store, state })),
        ),
{
    assert(hop(trace, replies, 0));
    assert(hop(trace, replies, 1));
    assert(hop(trace, replies, 2));
}

/// Allocating a value: a context is created, the value is allocated in the
/// state under it, and the caller owns the value, which keeps that context.
pub proof fn law_a_value_is_allocated(
    state: Handle,
    ctx: Handle,
    value: Handle,
    replies: Seq<Reply>,
    trace: Seq<Step>,
)
    requires
        trace[0].makes(Call::ContextCreate, Op::ValueContext { state }),
        follows(trace, replies),
        replies.len() == 3,
        replies[0] == Reply::Handle(ctx),
        replies[1] == Reply::Handle(value),
        replies[2] == Reply::Code(NIX_OK),
    ensures
        calls(trace[1], ctx, Function::AllocValue { state }),
        judges(trace[2], ctx),
        trace[3].finishes(Ok(OutputView::Value(Value { ctx: Context { handle: ctx }, value }))),
{
    assert(hop(trace, replies, 0));
    assert(hop(trace, replies, 1));
    assert(hop(trace, replies, 2));
}

/// Evaluating: a context for the result is created and the result
/// allocated under it; the expression is evaluated into it under the
/// state's own context; and the caller owns the result.
pub proof fn law_an_expression_is_evaluated(
    state: &State,
    path: &str,
    expr: &str,
    fresh: Handle,
    value: Handle,
    replies: Seq<Reply>,
    trace: Seq<Step>,
)
    requires
        nul_free(expr@),
        nul_free(path@),
        state.evaluates(path, expr, trace[0]),
        follows(trace, replies),
        replies.len() == 5,
        replies[0] == Reply::Handle(fresh),
        replies[1] == Reply::Handle(value),
        replies[2] == Reply::Code(NIX_OK),
        replies[4] == Reply::Code(NIX_OK),
    ensures
        calls(trace[1], fresh, Function::AllocValue { state: state.state }),
        judges(trace[2], fresh),
        trace[3] matches Step::Perform(p) && (p.call matches Call::Checked {
            ctx: c,
            function: Function::ExprEvalFromString { state: s, expr: e, path: b, value: v },
        } && c == state.ctx.handle && s == state.state && v == value && e@ == c_string_of(expr@)
            && b@ == c_string_of(path@)),
        judges(trace[4], state.ctx.handle),
        trace[5].finishes(
            Ok(OutputView::Value(Value { ctx: Context { handle: fresh }, value })),
        ),
{
    assert(hop(trace, replies, 0));
    assert(hop(trace, replies, 1));
    assert(hop(trace, replies, 2));
    assert(hop(trace, replies, 3));
    assert(hop(trace, replies, 4));
}

/// Taking an attribute by name or an element by index: once the function
/// has proved good, a context is created for what came, and the caller owns
/// the two as a value.
pub proof fn law_a_child_gets_a_context_of_its_own(
    ctx: Handle,
    function: Function,
    child: Handle,
    fresh: Handle,
    replies: Seq<Reply>,
    trace: Seq<Step>,
)
    requires
        trace[0].asks(ctx, function, Op::Child),
        function is GetAttrByName || function is GetListByIdx,
        follows(trace, replies),
        replies.len() == 3,
        replies[0] == Reply::Handle(child),
        replies[1] == Reply::Code(NIX_OK),
        replies[2] == Reply::Handle(fresh),
    ensures
        judges(trace[1], ctx),
        trace[2] matches Step::Perform(p) && p.call == Call::ContextCreate,
        trace[3].finishes(
            Ok(OutputView::Value(Value { ctx: Context { handle: fresh }, value: child })),
        ),
{
    assert(hop(trace, replies, 0));
    assert(hop(trace, replies, 1));
    assert(hop(trace, replies, 2));
}

/// Taking an attribute by index: once the function has proved good, the
/// name is read where the engine points; a context is created for the
/// value; and the caller owns the value, with the name as text. A name that
/// is no text gives the value back and fails the operation.
pub proof fn law_an_attribute_comes_with_its_name(
    ctx: Handle,
    value: Handle,
    state: Handle,
    index: u32,
    name: Handle,
    child: Handle,
    bytes: Vec<u8>,
    fresh: Handle,
    replies: Seq<Reply>,
    trace: Seq<Step>,
)
    requires
        trace[0].asks(ctx, Function::GetAttrByIdx { value, state, index }, Op::Attr),
        follows(trace, replies),
        replies.len() == 4,
        replies[0] == (Reply::Named { name, value: child }),
        replies[1] == Reply::Code(NIX_OK),
        replies[2] == Reply::Bytes(bytes),
        replies[3] == Reply::Handle(fresh),
    ensures
        judges(trace[1], ctx),
        trace[2] matches Step::Perform(p) && p.call == (Call::ReadCStr { ptr: name }),
        valid_utf8(bytes@) ==> (trace[3] matches Step::Perform(p) && p.call == Call::ContextCreate)
            && trace[4].finishes(
            Ok(
                OutputView::Attr(
                    decode_utf8(bytes@),
                    Value { ctx: Context { handle: fresh }, value: child },
                ),
            ),
        ),
        !valid_utf8(bytes@) ==> gives_back(trace[3], Release::Value(child)) && trace[4].finishes(
            Err(ErrorView::UnknownError),
        ),
{
    assert(hop(trace, replies, 0));
    assert(hop(trace, replies, 1));
    assert(hop(trace, replies, 2));
    assert(hop(trace, replies, 3));
}

/// Reading a path: the string is read where the engine points only once
/// the function has proved good, and the caller gets it as text.
pub proof fn law_a_path_is_read_once_the_call_proved_good(
    ctx: Handle,
    value: Handle,
    ptr: Handle,
    bytes: Vec<u8>,
    replies: Seq<Reply>,
    trace: Seq<Step>,
)
    requires
        trace[0].asks(ctx, Function::GetPathString { value }, Op::CStr),
        follows(trace, replies),
        replies.len() == 3,
        replies[0] == Reply::Handle(ptr),
        replies[1] == Reply::Code(NIX_OK),
        replies[2] == Reply::Bytes(bytes),
    ensures
        judges(trace[1], ctx),
        trace[2] matches Step::Perform(p) && p.call == (Call::ReadCStr { ptr }),
        trace[3].finishes(text_of(bytes@)),
{
    assert(hop(trace, replies, 0));
    assert(hop(trace, replies, 1));
    assert(hop(trace, replies, 2));
}

/// Reading a store path's name: the one call is judged by no context, and
/// the caller gets the bytes that the engine pushed as text.
pub proof fn law_a_name_is_decoded(path: Handle, bytes: Vec<u8>, trace: Seq<Step>)
    requires
        trace[0].makes(Call::StorePathName { path }, Op::Text),
        follows(trace, seq![Reply::Bytes(bytes)]),
    ensures
        trace[1].finishes(text_of(bytes@)),
{
    assert(hop(trace, seq![Reply::Bytes(bytes)], 0));
}

/// Making the attribute set or the list out of a full builder: once the
/// function has proved good, the builder is given back, and the operation
/// ends with nothing.
pub proof fn law_a_builder_is_given_back_when_its_work_is_done(
    ctx: Handle,
    function: Function,
    op: Op,
    replies: Seq<Reply>,
    trace: Seq<Step>,
)
    requires
        op is AttrsMake || op is ListMake,
        trace[0].asks(ctx, function, op),
        follows(trace, replies),
        replies.len() == 3,
        replies[1] == Reply::Code(NIX_OK),
    ensures
        judges(trace[1], ctx),
        gives_back(trace[2], op.owes()[0]),
        op matches Op::AttrsMake { builder } ==> op.owes()[0] == Release::BindingsBuilder(
            builder,
        ),
        op matches Op::ListMake { builder } ==> op.owes()[0] == Release::ListBuilder(builder),
        trace[3].finishes(Ok(OutputView::Nothing)),
{
    assert(hop(trace, replies, 0));
    assert(hop(trace, replies, 1));
    assert(hop(trace, replies, 2));
}

/// Building a derivation. The value's kind is asked for, then its
/// `drvPath`, which gets a context of its own; the kind of that attribute
/// is asked for, then its string; a context is created under which the
/// string is parsed as a store path, and given back; the path is realised
/// under the state's context; then the path, the attribute and the
/// attribute's context are given back, and the caller gets the outputs
/// that the engine reported.
pub proof fn law_a_derivation_is_built(
    state: State,
    value: Value,
    child: Handle,
    fresh: Handle,
    text: Vec<u8>,
    scratch: Handle,
    path: Handle,
    outputs: Outputs,
    replies: Seq<Reply>,
    trace: Seq<Step>,
)
    requires
        state.builds(&value, trace[0]),
        follows(trace, replies),
        replies.len() == 18,
        replies[0] == Reply::Kind(ValueType::Attrs.raw()),
        replies[1] == Reply::Code(NIX_OK),
        replies[2] == Reply::Handle(child),
        replies[3] == Reply::Code(NIX_OK),
        replies[4] == Reply::Handle(fresh),
        replies[5] == Reply::Kind(ValueType::String.raw()),
        replies[6] == Reply::Code(NIX_OK),
        replies[7] == Reply::Bytes(text),
        replies[8] == Reply::Code(NIX_OK),
        replies[9] == Reply::Handle(scratch),
        replies[10] == Reply::Handle(path),
        replies[11] == Reply::Code(NIX_OK),
        replies[13] == Reply::Outputs(outputs),
        replies[14] == Reply::Code(NIX_OK),
        valid_utf8(text@),
        nul_free(decode_utf8(text@)),
    ensures
        trace[2] matches Step::Perform(p) && (p.call matches Call::Checked {
            ctx: c,
            function: Function::GetAttrByName { value: v, state: s, name },
        } && c == value.ctx.handle && v == value.value && s == state.state && name@
            == drv_path_name()),
        trace[4] matches Step::Perform(p) && p.call == Call::ContextCreate,
        calls(trace[5], fresh, Function::GetType { value: child }),
        calls(trace[7], fresh, Function::GetString { value: child }),
        trace[9] matches Step::Perform(p) && p.call == Call::ContextCreate,
        trace[10] matches Step::Perform(p) && (p.call matches Call::Checked {
            ctx: c,
            function: Function::StoreParsePath { store: s, path: bytes },
        } && c == scratch && s == state.store.store && bytes@ == c_string_of(
            decode_utf8(text@),
        )),
        gives_back(trace[12], Release::Context(scratch)),
        calls(
            trace[13],
            state.ctx.handle,
            Function::StoreRealise { store: state.store.store, path },
        ),
        gives_back(trace[15], Release::StorePath(path)),
        gives_back(trace[16], Release::Value(child)),
        gives_back(trace[17], Release::Context(fresh)),
        trace[18].finishes(Ok(OutputView::Outputs(outputs@))),
{
    assert(hop(trace, replies, 0));
    assert(hop(trace, replies, 1));
    assert(hop(trace, replies, 2));
    assert(hop(trace, replies, 3));
    assert(hop(trace, replies, 4));
    assert(hop(trace, replies, 5));
    assert(hop(trace, replies, 6));
    assert(hop(trace, replies, 7));
    assert(hop(trace, replies, 8));
    assert(hop(trace, replies, 9));
    assert(hop(trace, replies, 10));
    assert(hop(trace, replies, 11));
    assert(hop(trace, replies, 12));
    assert(hop(trace, replies, 13));
    assert(hop(trace, replies, 14));
    assert(hop(trace, replies, 15));
    assert(hop(trace, replies, 16));
    assert(hop(trace, replies, 17));
}

} // verus!
