//! Operations in flight.
//!
//! Every operation of the library is a short conversation with the engine.
//! It starts as a [`Step`]: either it is finished, or a call is to be
//! performed and its reply handed to [`Pending::resume`], which gives the
//! next step. The library decides which calls are made, in which order and
//! with which arguments, when a context is asked for its status, what each
//! reply means, and which resources are given back before an operation ends.

use crate::context::{Context, NIX_OK};
use crate::engine::{Call, Function, Handle, Release, Reply};
use crate::ledger::law_the_books_balance;
use crate::path::StorePath;
use crate::state::State;
use crate::store::Store;
use crate::utils::{c_string, c_string_of, nul_free, string_from_c, Error, ErrorView, Outputs};
use crate::value::{Value, ValueType};
use vstd::prelude::*;
use vstd::utf8::*;

verus! {

/// What an operation hands to its caller when it succeeds.
#[derive(Debug, PartialEq, Eq)]
pub enum Output {
    Nothing,
    Context(Context),
    Store(Store),
    StorePath(StorePath),
    State(State),
    Value(Value),
    Kind(ValueType),
    Int(i64),
    /// A floating-point number, in IEEE 754 binary64
    Float(u64),
    Bool(bool),
    Size(usize),
    Text(String),
    /// An attribute: its name and its value
    Attr(String, Value),
    Outputs(Outputs),
}

/// An [`Output`] with its text as sequences of characters.
pub enum OutputView {
    Nothing,
    Context(Context),
    Store(Store),
    StorePath(StorePath),
    State(State),
    Value(Value),
    Kind(ValueType),
    Int(i64),
    Float(u64),
    Bool(bool),
    Size(usize),
    Text(Seq<char>),
    Attr(Seq<char>, Value),
    Outputs(Map<Seq<char>, Seq<char>>),
}

impl View for Output {
    type V = OutputView;

    open spec fn view(&self) -> OutputView {
        match self {
            Output::Nothing => OutputView::Nothing,
            Output::Context(c) => OutputView::Context(*c),
            Output::Store(s) => OutputView::Store(*s),
            Output::StorePath(p) => OutputView::StorePath(*p),
            Output::State(s) => OutputView::State(*s),
            Output::Value(v) => OutputView::Value(*v),
            Output::Kind(k) => OutputView::Kind(*k),
            Output::Int(n) => OutputView::Int(*n),
            Output::Float(bits) => OutputView::Float(*bits),
            Output::Bool(b) => OutputView::Bool(*b),
            Output::Size(n) => OutputView::Size(*n),
            Output::Text(text) => OutputView::Text(text@),
            Output::Attr(name, value) => OutputView::Attr(name@, *value),
            Output::Outputs(outputs) => OutputView::Outputs(outputs@),
        }
    }
}

/// How an operation ended, with its text as sequences of characters.
pub open spec fn outcome(result: Result<Output, Error>) -> Result<OutputView, ErrorView> {
    match result {
        Ok(output) => Ok(output@),
        Err(error) => Err(error@),
    }
}

/// The text that bytes from the engine decode to, as the result of an operation.
pub open spec fn text_of(bytes: Seq<u8>) -> Result<OutputView, ErrorView> {
    if valid_utf8(bytes) {
        Ok(OutputView::Text(decode_utf8(bytes)))
    } else {
        Err(ErrorView::UnknownError)
    }
}

/// The kind that the engine's number stands for, as the result of an operation.
pub open spec fn kind_of(ty: u32) -> Result<OutputView, ErrorView> {
    match ValueType::of_raw(ty) {
        Some(kind) => Ok(OutputView::Kind(kind)),
        None => Err(ErrorView::UnknownError),
    }
}

/// The name of the attribute that holds a derivation's store path, as a C string.
pub open spec fn drv_path_name() -> Seq<u8> {
    seq![0x64u8, 0x72u8, 0x76u8, 0x50u8, 0x61u8, 0x74u8, 0x68u8, 0u8]
}

/// Where the call in flight stands in the protocol of a checked call.
#[derive(Debug, PartialEq, Eq)]
pub enum Stage {
    /// The operation's own call is in flight.
    Call,
    /// `function` has returned `output`, and its context is asked for its status.
    Status { function: Function, output: Reply },
    /// The status was `code`, a failure, and the context is asked for its message.
    Message { code: i32 },
}

/// What an operation does once the call in flight has been judged.
#[derive(Debug, PartialEq, Eq)]
#[allow(inconsistent_fields)]
pub enum Op {
    /// Finish with nothing.
    Done,
    /// Finish with the kind that came.
    Kind,
    /// Finish with the integer that came.
    Int,
    /// Finish with the floating-point number that came.
    Float,
    /// Finish with the boolean that came.
    Bool,
    /// Finish with the count that came.
    Size,
    /// Decode the bytes that came and finish with the text.
    Text,
    /// Read the string that the pointer that came points to.
    CStr,
    /// Finish with the context that came.
    NewContext,
    /// Initialising: the context came; initialise the utility library.
    InitContext,
    /// Initialising: then the store library.
    InitUtil { ctx: Handle },
    /// Initialising: then the evaluator library.
    InitStore { ctx: Handle },
    /// Initialising: all is up.
    InitExpr { ctx: Handle },
    /// Opening a store: the context came; open.
    StoreContext { uri: Vec<u8> },
    /// Opening a store: the store came.
    StoreOpen { ctx: Handle },
    /// Parsing a store path: the context came; parse.
    PathContext { store: Handle, path: Vec<u8> },
    /// Parsing a store path: the path came.
    PathParse { ctx: Handle },
    /// Creating a state: the context came; create.
    StateContext { store: Handle, lookup: Vec<Option<Vec<u8>>> },
    /// Creating a state: the state came.
    StateCreate { ctx: Handle, store: Handle },
    /// Allocating a value: the context came; allocate.
    ValueContext { state: Handle },
    /// Allocating a value: the value came.
    ValueAlloc { ctx: Handle },
    /// Evaluating: the result's context came; allocate the result.
    EvalContext { ctx: Handle, state: Handle, expr: Vec<u8>, path: Vec<u8> },
    /// Evaluating: the result's slot came; evaluate into it.
    EvalAlloc { ctx: Handle, state: Handle, expr: Vec<u8>, path: Vec<u8>, fresh: Handle },
    /// Evaluating: done.
    EvalRun { fresh: Handle, value: Handle },
    /// A child value came; it needs a context of its own.
    Child,
    /// The child's context came.
    Wrap { value: Handle },
    /// An attribute came: read its name.
    Attr,
    /// The attribute's name came; the value needs a context of its own.
    AttrName { value: Handle },
    /// The attribute's context came.
    AttrWrap { name: String, value: Handle },
    /// Making an attribute set: the builder came.
    AttrsBuilder { ctx: Handle, value: Handle, entries: Vec<(String, Handle)> },
    /// Making an attribute set: the entries before `next` are in.
    AttrsInsert {
        ctx: Handle,
        value: Handle,
        builder: Handle,
        entries: Vec<(String, Handle)>,
        next: usize,
    },
    /// Making an attribute set: the set is made.
    AttrsMake { builder: Handle },
    /// Making a list: the builder came.
    ListBuilder { ctx: Handle, value: Handle, items: Vec<Handle> },
    /// Making a list: the items before `next` are in.
    ListInsert { ctx: Handle, value: Handle, builder: Handle, items: Vec<Handle>, next: usize },
    /// Making a list: the list is made.
    ListMake { builder: Handle },
    /// Building: the kind of the value came.
    BuildKind { ctx: Handle, state: Handle, store: Handle, ours: Handle, value: Handle },
    /// Building: the `drvPath` attribute came.
    BuildAttr { ctx: Handle, store: Handle },
    /// Building: the attribute's context came.
    BuildWrap { ctx: Handle, store: Handle, child: Handle },
    /// Building: the kind of the attribute came.
    BuildChildKind { ctx: Handle, store: Handle, child: Handle, fresh: Handle },
    /// Building: the attribute's string came.
    BuildText { ctx: Handle, store: Handle, child: Handle, fresh: Handle },
    /// Building: a context for parsing came.
    BuildPathContext { ctx: Handle, store: Handle, child: Handle, fresh: Handle, path: Vec<u8> },
    /// Building: the parsed path came.
    BuildParse { ctx: Handle, store: Handle, child: Handle, fresh: Handle, scratch: Handle },
    /// Building: the context for parsing is gone; realise.
    BuildParsed { ctx: Handle, store: Handle, child: Handle, fresh: Handle, path: Handle },
    /// Building: the outputs came.
    BuildRealise { child: Handle, fresh: Handle, path: Handle },
    /// Give back `owed`, in order, then finish with `result`.
    Unwind { owed: Vec<Release>, result: Result<Output, Error> },
}

/// An operation that waits for the reply to `call`.
#[derive(Debug, PartialEq, Eq)]
pub struct Pending {
    /// The call to perform.
    pub call: Call,
    pub stage: Stage,
    pub op: Op,
}

/// Where an operation stands.
#[derive(Debug, PartialEq, Eq)]
pub enum Step {
    /// A call is to be performed, and its reply handed to [`Pending::resume`].
    Perform(Pending),
    /// The operation is over.
    Finished(Result<Output, Error>),
}

impl Step {
    /// This step ends the operation with `result`.
    pub open spec fn finishes(self, result: Result<OutputView, ErrorView>) -> bool {
        self matches Step::Finished(r) && outcome(r) == result
    }

    /// This step starts giving back `owed`, in order, with `result` to
    /// finish with: the first release is asked for and the others wait, or,
    /// where nothing is owed, the operation is over.
    pub open spec fn winds_down(
        self,
        owed: Seq<Release>,
        result: Result<OutputView, ErrorView>,
    ) -> bool {
        if owed.len() == 0 {
            self.finishes(result)
        } else {
            &&& self matches Step::Perform(p)
            &&& p.call == Call::Release(owed[0])
            &&& p.stage == Stage::Call
            &&& p.op matches Op::Unwind { owed: rest, result: r }
            &&& rest@ == owed.skip(1)
            &&& outcome(r) == result
        }
    }

    /// This step asks for `function` with the context `ctx`, to go on with `op`.
    pub open spec fn asks(self, ctx: Handle, function: Function, op: Op) -> bool {
        self == Step::Perform(
            Pending { call: Call::Checked { ctx, function }, stage: Stage::Call, op },
        )
    }

    /// This step makes `call`, which no context judges, to go on with `op`.
    pub open spec fn makes(self, call: Call, op: Op) -> bool {
        self == Step::Perform(Pending { call, stage: Stage::Call, op })
    }

    /// This step is what making an attribute set does once the entries
    /// before `next` are in the builder: the next entry goes in under its
    /// name as a C string, or, if the name cannot be one, the builder is
    /// given back and the operation fails; after the last entry the set is
    /// made.
    pub open spec fn fills_attrs(
        self,
        ctx: Handle,
        value: Handle,
        builder: Handle,
        entries: Vec<(String, Handle)>,
        next: usize,
    ) -> bool {
        if next < entries.len() {
            if nul_free(entries[next as int].0@) {
                &&& self matches Step::Perform(p)
                &&& p.stage == Stage::Call
                &&& p.call matches Call::Checked {
                    ctx: c,
                    function: Function::BindingsBuilderInsert { builder: b, name, value: v },
                }
                &&& c == ctx
                &&& b == builder
                &&& v == entries[next as int].1
                &&& name@ == c_string_of(entries[next as int].0@)
                &&& p.op == Op::AttrsInsert {
                    ctx,
                    value,
                    builder,
                    entries,
                    next: (next + 1) as usize,
                }
            } else {
                self.winds_down(
                    seq![Release::BindingsBuilder(builder)],
                    Err(ErrorView::UnknownError),
                )
            }
        } else {
            self.asks(ctx, Function::MakeAttrs { value, builder }, Op::AttrsMake { builder })
        }
    }

    /// This step is what making a list does once the items before `next` are
    /// in the builder: the next item goes in at its index, or, if the engine
    /// cannot count that far, the builder is given back and the operation
    /// fails; after the last item the list is made.
    pub open spec fn fills_list(
        self,
        ctx: Handle,
        value: Handle,
        builder: Handle,
        items: Vec<Handle>,
        next: usize,
    ) -> bool {
        if next < items.len() {
            if next <= u32::MAX {
                self.asks(
                    ctx,
                    Function::ListBuilderInsert {
                        builder,
                        index: next as u32,
                        value: items[next as int],
                    },
                    Op::ListInsert { ctx, value, builder, items, next: (next + 1) as usize },
                )
            } else {
                self.winds_down(
                    seq![Release::ListBuilder(builder)],
                    Err(ErrorView::UnknownError),
                )
            }
        } else {
            self.asks(ctx, Function::MakeList { builder, value }, Op::ListMake { builder })
        }
    }
}

impl Op {
    /// What the operation has to give back, in this order, if it ends here
    /// without handing anything to its caller.
    pub open spec fn owes(self) -> Seq<Release> {
        match self {
            Op::InitUtil { ctx } | Op::InitStore { ctx } | Op::InitExpr { ctx } => seq![
                Release::Context(ctx),
            ],
            Op::StoreOpen { ctx } => seq![Release::Context(ctx)],
            Op::PathParse { ctx } => seq![Release::Context(ctx)],
            Op::StateContext { store, .. } => seq![Release::Store(store)],
            Op::StateCreate { ctx, store } => seq![Release::Context(ctx), Release::Store(store)],
            Op::ValueAlloc { ctx } => seq![Release::Context(ctx)],
            Op::EvalAlloc { fresh, .. } => seq![Release::Context(fresh)],
            Op::EvalRun { fresh, value } => seq![Release::Value(value), Release::Context(fresh)],
            Op::Wrap { value } => seq![Release::Value(value)],
            Op::AttrName { value } => seq![Release::Value(value)],
            Op::AttrWrap { value, .. } => seq![Release::Value(value)],
            Op::AttrsInsert { builder, .. } => seq![Release::BindingsBuilder(builder)],
            Op::AttrsMake { builder } => seq![Release::BindingsBuilder(builder)],
            Op::ListInsert { builder, .. } => seq![Release::ListBuilder(builder)],
            Op::ListMake { builder } => seq![Release::ListBuilder(builder)],
            Op::BuildWrap { child, .. } => seq![Release::Value(child)],
            Op::BuildChildKind { child, fresh, .. }
            | Op::BuildText { child, fresh, .. }
            | Op::BuildPathContext { child, fresh, .. } => seq![
                Release::Value(child),
                Release::Context(fresh),
            ],
            Op::BuildParse { child, fresh, scratch, .. } => seq![
                Release::Context(scratch),
                Release::Value(child),
                Release::Context(fresh),
            ],
            Op::BuildParsed { child, fresh, path, .. } | Op::BuildRealise { child, fresh, path } => seq![
                Release::StorePath(path),
                Release::Value(child),
                Release::Context(fresh),
            ],
            Op::Unwind { owed, .. } => owed@,
            _ => seq![],
        }
    }

    /// Whether `step` is what follows when the call in flight has failed
    /// with `error`: all that the operation owes is given back, and then it
    /// ends with the error. A build that fails to find the `drvPath`
    /// attribute ends with [`Error::NotDerivation`] instead. An operation
    /// that is only giving back goes on doing so.
    pub open spec fn fails(self, error: ErrorView, step: Step) -> bool {
        match self {
            Op::Unwind { owed, result } => step.winds_down(owed@, outcome(result)),
            Op::BuildAttr { .. } => step.winds_down(
                self.owes(),
                Err(
                    if error is NixErrorKey {
                        ErrorView::NotDerivation
                    } else {
                        error
                    },
                ),
            ),
            _ => step.winds_down(self.owes(), Err(error)),
        }
    }

    /// Whether the operation is over as soon as its one call has proved good.
    pub open spec fn single(self) -> bool {
        self is Done || self is Kind || self is Int || self is Float || self is Bool
            || self is Size || self is Text
    }

    /// What an operation that is over after one call makes of what the call
    /// handed back.
    pub open spec fn made_of(self, reply: Reply) -> Result<OutputView, ErrorView> {
        match (self, reply) {
            (Op::Done, _) => Ok(OutputView::Nothing),
            (Op::Kind, Reply::Kind(ty)) => kind_of(ty),
            (Op::Int, Reply::Int(n)) => Ok(OutputView::Int(n)),
            (Op::Float, Reply::Bits(bits)) => Ok(OutputView::Float(bits)),
            (Op::Bool, Reply::Bool(b)) => Ok(OutputView::Bool(b)),
            (Op::Size, Reply::Size(n)) => Ok(OutputView::Size(n as usize)),
            (Op::Text, Reply::Bytes(bytes)) => text_of(bytes@),
            _ => Err(ErrorView::UnknownError),
        }
    }

    /// Whether `step` is what follows when the call in flight has succeeded
    /// with `reply`. A reply of a form that the operation cannot use at this
    /// point fails it with [`Error::UnknownError`].
    pub open spec fn proceeds(self, reply: Reply, step: Step) -> bool {
        if self.single() {
            step.finishes(self.made_of(reply))
        } else {
            self.goes_on(reply, step)
        }
    }

    /// Whether `step` is what follows `reply` in an operation that takes
    /// more than one call.
    pub open spec fn goes_on(self, reply: Reply, step: Step) -> bool {
        match (self, reply) {
            (Op::CStr, Reply::Handle(ptr)) => step.makes(Call::ReadCStr { ptr }, Op::Text),
            (Op::NewContext, Reply::Handle(handle)) => step.finishes(
                Ok(OutputView::Context(Context { handle })),
            ),
            (Op::InitContext, Reply::Handle(ctx)) => step.asks(
                ctx,
                Function::LibutilInit,
                Op::InitUtil { ctx },
            ),
            (Op::InitUtil { ctx }, _) => step.asks(
                ctx,
                Function::LibstoreInit,
                Op::InitStore { ctx },
            ),
            (Op::InitStore { ctx }, _) => step.asks(
                ctx,
                Function::LibexprInit,
                Op::InitExpr { ctx },
            ),
            (Op::InitExpr { ctx }, _) => step.winds_down(
                self.owes(),
                Ok(OutputView::Nothing),
            ),
            (Op::StoreContext { uri }, Reply::Handle(ctx)) => step.asks(
                ctx,
                Function::StoreOpen { uri },
                Op::StoreOpen { ctx },
            ),
            (Op::StoreOpen { ctx }, Reply::Handle(store)) => step.winds_down(
                self.owes(),
                Ok(OutputView::Store(Store { store })),
            ),
            (Op::PathContext { store, path }, Reply::Handle(ctx)) => step.asks(
                ctx,
                Function::StoreParsePath { store, path },
                Op::PathParse { ctx },
            ),
            (Op::PathParse { ctx }, Reply::Handle(store_path)) => step.winds_down(
                self.owes(),
                Ok(OutputView::StorePath(StorePath { store_path })),
            ),
            (Op::StateContext { store, lookup }, Reply::Handle(ctx)) => step.asks(
                ctx,
                Function::StateCreate { lookup, store },
                Op::StateCreate { ctx, store },
            ),
            (Op::StateCreate { ctx, store }, Reply::Handle(state)) => step.finishes(
                Ok(
                    OutputView::State(
                        State { ctx: Context { handle: ctx }, store: Store { store }, state },
                    ),
                ),
            ),
            (Op::ValueContext { state }, Reply::Handle(ctx)) => step.asks(
                ctx,
                Function::AllocValue { state },
                Op::ValueAlloc { ctx },
            ),
            (Op::ValueAlloc { ctx }, Reply::Handle(value)) => step.finishes(
                Ok(OutputView::Value(Value { ctx: Context { handle: ctx }, value })),
            ),
            (Op::EvalContext { ctx, state, expr, path }, Reply::Handle(fresh)) => step.asks(
                fresh,
                Function::AllocValue { state },
                Op::EvalAlloc { ctx, state, expr, path, fresh },
            ),
            (Op::EvalAlloc { ctx, state, expr, path, fresh }, Reply::Handle(value)) => step.asks(
                ctx,
                Function::ExprEvalFromString { state, expr, path, value },
                Op::EvalRun { fresh, value },
            ),
            (Op::EvalRun { fresh, value }, _) => step.finishes(
                Ok(OutputView::Value(Value { ctx: Context { handle: fresh }, value })),
            ),
            (Op::Child, Reply::Handle(value)) => step.makes(
                Call::ContextCreate,
                Op::Wrap { value },
            ),
            (Op::Wrap { value }, Reply::Handle(ctx)) => step.finishes(
                Ok(OutputView::Value(Value { ctx: Context { handle: ctx }, value })),
            ),
            (Op::Attr, Reply::Named { name, value }) => step.makes(
                Call::ReadCStr { ptr: name },
                Op::AttrName { value },
            ),
            (Op::AttrName { value }, Reply::Bytes(bytes)) => if valid_utf8(bytes@) {
                &&& step matches Step::Perform(p)
                &&& p.call == Call::ContextCreate
                &&& p.stage == Stage::Call
                &&& p.op matches Op::AttrWrap { name, value: v }
                &&& name@ == decode_utf8(bytes@)
                &&& v == value
            } else {
                step.winds_down(self.owes(), Err(ErrorView::UnknownError))
            },
            (Op::AttrWrap { name, value }, Reply::Handle(ctx)) => step.finishes(
                Ok(OutputView::Attr(name@, Value { ctx: Context { handle: ctx }, value })),
            ),
            (Op::AttrsBuilder { ctx, value, entries }, Reply::Handle(builder)) => step.fills_attrs(
                ctx,
                value,
                builder,
                entries,
                0,
            ),
            (Op::AttrsInsert { ctx, value, builder, entries, next }, _) => step.fills_attrs(
                ctx,
                value,
                builder,
                entries,
                next,
            ),
            (Op::AttrsMake { builder }, _) => step.winds_down(
                self.owes(),
                Ok(OutputView::Nothing),
            ),
            (Op::ListBuilder { ctx, value, items }, Reply::Handle(builder)) => step.fills_list(
                ctx,
                value,
                builder,
                items,
                0,
            ),
            (Op::ListInsert { ctx, value, builder, items, next }, _) => step.fills_list(
                ctx,
                value,
                builder,
                items,
                next,
            ),
            (Op::ListMake { builder }, _) => step.winds_down(
                self.owes(),
                Ok(OutputView::Nothing),
            ),
            (Op::BuildKind { ctx, state, store, ours, value }, Reply::Kind(ty)) => {
                match ValueType::of_raw(ty) {
                    None => step.finishes(Err(ErrorView::UnknownError)),
                    Some(ValueType::Attrs) => {
                        &&& step matches Step::Perform(p)
                        &&& p.stage == Stage::Call
                        &&& p.call matches Call::Checked {
                            ctx: c,
                            function: Function::GetAttrByName { value: v, state: s, name },
                        }
                        &&& c == ours
                        &&& v == value
                        &&& s == state
                        &&& name@ == drv_path_name()
                        &&& p.op == Op::BuildAttr { ctx, store }
                    },
                    Some(_) => step.finishes(Err(ErrorView::NotDerivation)),
                }
            },
            (Op::BuildAttr { ctx, store }, Reply::Handle(child)) => step.makes(
                Call::ContextCreate,
                Op::BuildWrap { ctx, store, child },
            ),
            (Op::BuildWrap { ctx, store, child }, Reply::Handle(fresh)) => step.asks(
                fresh,
                Function::GetType { value: child },
                Op::BuildChildKind { ctx, store, child, fresh },
            ),
            (Op::BuildChildKind { ctx, store, child, fresh }, Reply::Kind(ty)) => {
                match ValueType::of_raw(ty) {
                    None => step.winds_down(self.owes(), Err(ErrorView::UnknownError)),
                    Some(ValueType::String) => step.asks(
                        fresh,
                        Function::GetString { value: child },
                        Op::BuildText { ctx, store, child, fresh },
                    ),
                    Some(_) => step.winds_down(self.owes(), Err(ErrorView::NotDerivation)),
                }
            },
            (Op::BuildText { ctx, store, child, fresh }, Reply::Bytes(bytes)) => if valid_utf8(
                bytes@,
            ) && nul_free(decode_utf8(bytes@)) {
                &&& step matches Step::Perform(p)
                &&& p.call == Call::ContextCreate
                &&& p.stage == Stage::Call
                &&& p.op matches Op::BuildPathContext {
                    ctx: c,
                    store: s,
                    child: v,
                    fresh: f,
                    path,
                }
                &&& c == ctx
                &&& s == store
                &&& v == child
                &&& f == fresh
                &&& path@ == c_string_of(decode_utf8(bytes@))
            } else {
                step.winds_down(self.owes(), Err(ErrorView::UnknownError))
            },
            (
                Op::BuildPathContext { ctx, store, child, fresh, path },
                Reply::Handle(scratch),
            ) => step.asks(
                scratch,
                Function::StoreParsePath { store, path },
                Op::BuildParse { ctx, store, child, fresh, scratch },
            ),
            (Op::BuildParse { ctx, store, child, fresh, scratch }, Reply::Handle(path)) => step.makes(
                Call::Release(Release::Context(scratch)),
                Op::BuildParsed { ctx, store, child, fresh, path },
            ),
            (Op::BuildParsed { ctx, store, child, fresh, path }, _) => step.asks(
                ctx,
                Function::StoreRealise { store, path },
                Op::BuildRealise { child, fresh, path },
            ),
            (Op::BuildRealise { child, fresh, path }, Reply::Outputs(outputs)) => step.winds_down(
                self.owes(),
                Ok(OutputView::Outputs(outputs@)),
            ),
            (Op::Unwind { owed, result }, _) => step.winds_down(owed@, outcome(result)),
            _ => self.fails(ErrorView::UnknownError, step),
        }
    }
}

impl Pending {
    /// Whether `step` is what follows this point of an operation when
    /// `reply` comes back from the call in flight.
    ///
    /// A function that takes a context is followed at once by a question
    /// for that context's status. Success lets the operation proceed with
    /// what the function returned; any other status is followed by a
    /// question for the context's message, and the operation fails with the
    /// error that status and message stand for. A call that no context
    /// judges lets the operation proceed with its reply. A reply of the
    /// wrong form fails the operation with [`Error::UnknownError`].
    pub open spec fn resumes(self, reply: Reply, step: Step) -> bool {
        if !reply.answers(self.call) {
            self.op.fails(ErrorView::UnknownError, step)
        } else {
            match (self.stage, self.call, reply) {
                (Stage::Call, Call::Checked { ctx, function }, _) => step == Step::Perform(
                    Pending {
                        call: Call::ErrCode { ctx },
                        stage: Stage::Status { function, output: reply },
                        op: self.op,
                    },
                ),
                (Stage::Call, _, _) => self.op.proceeds(reply, step),
                (Stage::Status { function, output }, Call::ErrCode { ctx }, Reply::Code(code)) => {
                    if code == NIX_OK {
                        self.op.proceeds(output, step)
                    } else {
                        step == Step::Perform(
                            Pending {
                                call: Call::ErrMsg { ctx },
                                stage: Stage::Message { code },
                                op: self.op,
                            },
                        )
                    }
                },
                (Stage::Message { code }, _, Reply::Bytes(message)) => self.op.fails(
                    Context::failure(code, message@),
                    step,
                ),
                _ => self.op.fails(ErrorView::UnknownError, step),
            }
        }
    }
}

/// Asks for `function` with the context `ctx`, to go on with `op`.
pub(crate) fn ask(ctx: Handle, function: Function, op: Op) -> (step: Step)
    ensures
        step.asks(ctx, function, op),
{
    Step::Perform(Pending { call: Call::Checked { ctx, function }, stage: Stage::Call, op })
}

/// Makes `call`, which no context judges, to go on with `op`.
pub(crate) fn make(call: Call, op: Op) -> (step: Step)
    ensures
        step.makes(call, op),
{
    Step::Perform(Pending { call, stage: Stage::Call, op })
}

/// A debt of one resource.
fn owing(release: Release) -> (owed: Vec<Release>)
    ensures
        owed@ == seq![release],
{
    let mut owed: Vec<Release> = Vec::new();
    owed.push(release);
    assert(owed@ =~= seq![release]);
    owed
}

/// The name of the attribute that holds a derivation's store path, as a C string.
fn drv_path() -> (name: Vec<u8>)
    ensures
        name@ == drv_path_name(),
{
    let mut name: Vec<u8> = Vec::new();
    name.push(0x64);
    name.push(0x72);
    name.push(0x76);
    name.push(0x50);
    name.push(0x61);
    name.push(0x74);
    name.push(0x68);
    name.push(0);
    assert(name@ =~= drv_path_name());
    name
}

/// Goes on making an attribute set whose entries before `next` are in the builder.
fn fill_attrs(
    ctx: Handle,
    value: Handle,
    builder: Handle,
    entries: Vec<(String, Handle)>,
    next: usize,
) -> (step: Step)
    ensures
        step.fills_attrs(ctx, value, builder, entries, next),
{
    if next < entries.len() {
        let child = entries[next].1;
        match c_string(entries[next].0.as_str()) {
            Ok(name) => ask(
                ctx,
                Function::BindingsBuilderInsert { builder, name, value: child },
                Op::AttrsInsert { ctx, value, builder, entries, next: next + 1 },
            ),
            Err(e) => unwind(owing(Release::BindingsBuilder(builder)), Err(e)),
        }
    } else {
        ask(ctx, Function::MakeAttrs { value, builder }, Op::AttrsMake { builder })
    }
}

/// Goes on making a list whose items before `next` are in the builder.
fn fill_list(ctx: Handle, value: Handle, builder: Handle, items: Vec<Handle>, next: usize) -> (step:
    Step)
    ensures
        step.fills_list(ctx, value, builder, items, next),
{
    if next < items.len() {
        if next <= u32::MAX as usize {
            let item = items[next];
            ask(
                ctx,
                Function::ListBuilderInsert { builder, index: next as u32, value: item },
                Op::ListInsert { ctx, value, builder, items, next: next + 1 },
            )
        } else {
            unwind(owing(Release::ListBuilder(builder)), Err(Error::UnknownError))
        }
    } else {
        ask(ctx, Function::MakeList { builder, value }, Op::ListMake { builder })
    }
}

impl Op {
    /// What the operation has to give back, in this order, if it ends here
    /// without handing anything to its caller.
    fn owed(&self) -> (owed: Vec<Release>)
        ensures
            owed@ == self.owes(),
    {
        let owed = match self {
            Op::InitUtil { ctx } | Op::InitStore { ctx } | Op::InitExpr { ctx } => vec![
                Release::Context(*ctx),
            ],
            Op::StoreOpen { ctx } => vec![Release::Context(*ctx)],
            Op::PathParse { ctx } => vec![Release::Context(*ctx)],
            Op::StateContext { store, .. } => vec![Release::Store(*store)],
            Op::StateCreate { ctx, store } => vec![Release::Context(*ctx), Release::Store(*store)],
            Op::ValueAlloc { ctx } => vec![Release::Context(*ctx)],
            Op::EvalAlloc { fresh, .. } => vec![Release::Context(*fresh)],
            Op::EvalRun { fresh, value } => vec![Release::Value(*value), Release::Context(*fresh)],
            Op::Wrap { value } => vec![Release::Value(*value)],
            Op::AttrName { value } => vec![Release::Value(*value)],
            Op::AttrWrap { value, .. } => vec![Release::Value(*value)],
            Op::AttrsInsert { builder, .. } => vec![Release::BindingsBuilder(*builder)],
            Op::AttrsMake { builder } => vec![Release::BindingsBuilder(*builder)],
            Op::ListInsert { builder, .. } => vec![Release::ListBuilder(*builder)],
            Op::ListMake { builder } => vec![Release::ListBuilder(*builder)],
            Op::BuildWrap { child, .. } => vec![Release::Value(*child)],
            Op::BuildChildKind { child, fresh, .. }
            | Op::BuildText { child, fresh, .. }
            | Op::BuildPathContext { child, fresh, .. } => vec![
                Release::Value(*child),
                Release::Context(*fresh),
            ],
            Op::BuildParse { child, fresh, scratch, .. } => vec![
                Release::Context(*scratch),
                Release::Value(*child),
                Release::Context(*fresh),
            ],
            Op::BuildParsed { child, fresh, path, .. } | Op::BuildRealise { child, fresh, path } => vec![
                Release::StorePath(*path),
                Release::Value(*child),
                Release::Context(*fresh),
            ],
            Op::Unwind { owed, .. } => owed.clone(),
            _ => Vec::new(),
        };
        assert(owed@ =~= self.owes());
        owed
    }

    /// What follows when the call in flight has failed with `error`.
    fn fail(self, error: Error) -> (step: Step)
        ensures
            self.fails(error@, step),
    {
        let owed = self.owed();
        match self {
            Op::Unwind { owed, result } => unwind(owed, result),
            Op::BuildAttr { .. } => {
                let error = match error {
                    Error::NixErrorKey(_) => Error::NotDerivation,
                    other => other,
                };
                unwind(owed, Err(error))
            },
            _ => unwind(owed, Err(error)),
        }
    }

    /// What follows when the call in flight has succeeded with `reply`.
    fn advance(self, reply: Reply) -> (step: Step)
        ensures
            self.proceeds(reply, step),
    {
        let owed = self.owed();
        match (self, reply) {
            (Op::Done, _) => Step::Finished(Ok(Output::Nothing)),
            (Op::Kind, Reply::Kind(ty)) => match ValueType::from_raw(ty) {
                Ok(kind) => Step::Finished(Ok(Output::Kind(kind))),
                Err(e) => Step::Finished(Err(e)),
            },
            (Op::Int, Reply::Int(n)) => Step::Finished(Ok(Output::Int(n))),
            (Op::Float, Reply::Bits(bits)) => Step::Finished(Ok(Output::Float(bits))),
            (Op::Bool, Reply::Bool(b)) => Step::Finished(Ok(Output::Bool(b))),
            (Op::Size, Reply::Size(n)) => Step::Finished(Ok(Output::Size(n as usize))),
            (Op::Text, Reply::Bytes(bytes)) => match string_from_c(bytes) {
                Ok(text) => Step::Finished(Ok(Output::Text(text))),
                Err(e) => Step::Finished(Err(e)),
            },
            (Op::CStr, Reply::Handle(ptr)) => make(Call::ReadCStr { ptr }, Op::Text),
            (Op::NewContext, Reply::Handle(handle)) => Step::Finished(
                Ok(Output::Context(Context { handle })),
            ),
            (Op::InitContext, Reply::Handle(ctx)) => ask(
                ctx,
                Function::LibutilInit,
                Op::InitUtil { ctx },
            ),
            (Op::InitUtil { ctx }, _) => ask(ctx, Function::LibstoreInit, Op::InitStore { ctx }),
            (Op::InitStore { ctx }, _) => ask(ctx, Function::LibexprInit, Op::InitExpr { ctx }),
            (Op::InitExpr { ctx }, _) => unwind(owed, Ok(Output::Nothing)),
            (Op::StoreContext { uri }, Reply::Handle(ctx)) => ask(
                ctx,
                Function::StoreOpen { uri },
                Op::StoreOpen { ctx },
            ),
            (Op::StoreOpen { ctx }, Reply::Handle(store)) => unwind(owed,
                Ok(Output::Store(Store { store })),
            ),
            (Op::PathContext { store, path }, Reply::Handle(ctx)) => ask(
                ctx,
                Function::StoreParsePath { store, path },
                Op::PathParse { ctx },
            ),
            (Op::PathParse { ctx }, Reply::Handle(store_path)) => unwind(owed,
                Ok(Output::StorePath(StorePath { store_path })),
            ),
            (Op::StateContext { store, lookup }, Reply::Handle(ctx)) => ask(
                ctx,
                Function::StateCreate { lookup, store },
                Op::StateCreate { ctx, store },
            ),
            (Op::StateCreate { ctx, store }, Reply::Handle(state)) => Step::Finished(
                Ok(
                    Output::State(
                        State { ctx: Context { handle: ctx }, store: Store { store }, state },
                    ),
                ),
            ),
            (Op::ValueContext { state }, Reply::Handle(ctx)) => ask(
                ctx,
                Function::AllocValue { state },
                Op::ValueAlloc { ctx },
            ),
            (Op::ValueAlloc { ctx }, Reply::Handle(value)) => Step::Finished(
                Ok(Output::Value(Value { ctx: Context { handle: ctx }, value })),
            ),
            (Op::EvalContext { ctx, state, expr, path }, Reply::Handle(fresh)) => ask(
                fresh,
                Function::AllocValue { state },
                Op::EvalAlloc { ctx, state, expr, path, fresh },
            ),
            (Op::EvalAlloc { ctx, state, expr, path, fresh }, Reply::Handle(value)) => ask(
                ctx,
                Function::ExprEvalFromString { state, expr, path, value },
                Op::EvalRun { fresh, value },
            ),
            (Op::EvalRun { fresh, value }, _) => Step::Finished(
                Ok(Output::Value(Value { ctx: Context { handle: fresh }, value })),
            ),
            (Op::Child, Reply::Handle(value)) => make(Call::ContextCreate, Op::Wrap { value }),
            (Op::Wrap { value }, Reply::Handle(ctx)) => Step::Finished(
                Ok(Output::Value(Value { ctx: Context { handle: ctx }, value })),
            ),
            (Op::Attr, Reply::Named { name, value }) => make(
                Call::ReadCStr { ptr: name },
                Op::AttrName { value },
            ),
            (Op::AttrName { value }, Reply::Bytes(bytes)) => match string_from_c(bytes) {
                Ok(name) => make(Call::ContextCreate, Op::AttrWrap { name, value }),
                Err(e) => unwind(owed, Err(e)),
            },
            (Op::AttrWrap { name, value }, Reply::Handle(ctx)) => Step::Finished(
                Ok(Output::Attr(name, Value { ctx: Context { handle: ctx }, value })),
            ),
            (Op::AttrsBuilder { ctx, value, entries }, Reply::Handle(builder)) => fill_attrs(
                ctx,
                value,
                builder,
                entries,
                0,
            ),
            (Op::AttrsInsert { ctx, value, builder, entries, next }, _) => fill_attrs(
                ctx,
                value,
                builder,
                entries,
                next,
            ),
            (Op::AttrsMake { builder }, _) => unwind(owed,
                Ok(Output::Nothing),
            ),
            (Op::ListBuilder { ctx, value, items }, Reply::Handle(builder)) => fill_list(
                ctx,
                value,
                builder,
                items,
                0,
            ),
            (Op::ListInsert { ctx, value, builder, items, next }, _) => fill_list(
                ctx,
                value,
                builder,
                items,
                next,
            ),
            (Op::ListMake { builder }, _) => unwind(owed,
                Ok(Output::Nothing),
            ),
            (Op::BuildKind { ctx, state, store, ours, value }, Reply::Kind(ty)) => {
                match ValueType::from_raw(ty) {
                    Err(e) => Step::Finished(Err(e)),
                    Ok(ValueType::Attrs) => ask(
                        ours,
                        Function::GetAttrByName { value, state, name: drv_path() },
                        Op::BuildAttr { ctx, store },
                    ),
                    Ok(_) => Step::Finished(Err(Error::NotDerivation)),
                }
            },
            (Op::BuildAttr { ctx, store }, Reply::Handle(child)) => make(
                Call::ContextCreate,
                Op::BuildWrap { ctx, store, child },
            ),
            (Op::BuildWrap { ctx, store, child }, Reply::Handle(fresh)) => ask(
                fresh,
                Function::GetType { value: child },
                Op::BuildChildKind { ctx, store, child, fresh },
            ),
            (Op::BuildChildKind { ctx, store, child, fresh }, Reply::Kind(ty)) => {
                match ValueType::from_raw(ty) {
                    Err(e) => unwind(owed, Err(e)),
                    Ok(ValueType::String) => ask(
                        fresh,
                        Function::GetString { value: child },
                        Op::BuildText { ctx, store, child, fresh },
                    ),
                    Ok(_) => unwind(owed,
                        Err(Error::NotDerivation),
                    ),
                }
            },
            (Op::BuildText { ctx, store, child, fresh }, Reply::Bytes(bytes)) => {
                let text = match string_from_c(bytes) {
                    Ok(text) => text,
                    Err(e) => {
                        return unwind(owed,
                            Err(e),
                        );
                    },
                };
                match c_string(text.as_str()) {
                    Ok(path) => make(
                        Call::ContextCreate,
                        Op::BuildPathContext { ctx, store, child, fresh, path },
                    ),
                    Err(e) => unwind(owed, Err(e)),
                }
            },
            (
                Op::BuildPathContext { ctx, store, child, fresh, path },
                Reply::Handle(scratch),
            ) => ask(
                scratch,
                Function::StoreParsePath { store, path },
                Op::BuildParse { ctx, store, child, fresh, scratch },
            ),
            (Op::BuildParse { ctx, store, child, fresh, scratch }, Reply::Handle(path)) => make(
                Call::Release(Release::Context(scratch)),
                Op::BuildParsed { ctx, store, child, fresh, path },
            ),
            (Op::BuildParsed { ctx, store, child, fresh, path }, _) => ask(
                ctx,
                Function::StoreRealise { store, path },
                Op::BuildRealise { child, fresh, path },
            ),
            (Op::BuildRealise { child, fresh, path }, Reply::Outputs(outputs)) => unwind(owed,
                Ok(Output::Outputs(outputs)),
            ),
            (Op::Unwind { owed, result }, _) => unwind(owed, result),
            (op, _) => op.fail(Error::UnknownError),
        }
    }
}

impl Pending {
    /// Takes the reply to the call in flight and gives the operation's next
    /// step. A sound operation stays sound.
    pub fn resume(self, reply: Reply) -> (step: Step)
        ensures
            self.resumes(reply, step),
            self.sound() ==> step.sound(),
    {
        let ghost before = self;
        let ghost came = reply;
        let step = self.turn(reply);
        proof {
            if before.sound() {
                law_the_books_balance(before, came, step);
            }
        }
        step
    }

    fn turn(self, reply: Reply) -> (step: Step)
        ensures
            self.resumes(reply, step),
    {
        if !reply.fits(&self.call) {
            return self.op.fail(Error::UnknownError);
        }
        match (self.stage, self.call, reply) {
            (Stage::Call, Call::Checked { ctx, function }, reply) => Step::Perform(
                Pending {
                    call: Call::ErrCode { ctx },
                    stage: Stage::Status { function, output: reply },
                    op: self.op,
                },
            ),
            (Stage::Call, _, reply) => self.op.advance(reply),
            (Stage::Status { function, output }, Call::ErrCode { ctx }, Reply::Code(code)) => {
                if code == NIX_OK {
                    self.op.advance(output)
                } else {
                    Step::Perform(
                        Pending {
                            call: Call::ErrMsg { ctx },
                            stage: Stage::Message { code },
                            op: self.op,
                        },
                    )
                }
            },
            (Stage::Message { code }, _, Reply::Bytes(message)) => {
                match Context::check(code, message) {
                    Err(error) => self.op.fail(error),
                    Ok(()) => self.op.fail(Error::UnknownError),
                }
            },
            _ => self.op.fail(Error::UnknownError),
        }
    }
}

/// Gives back `owed`, in order, and then finishes with `result`.
pub(crate) fn unwind(owed: Vec<Release>, result: Result<Output, Error>) -> (step: Step)
    ensures
        step.winds_down(owed@, outcome(result)),
{
    let ghost all = owed@;
    let mut owed = owed;
    if owed.len() > 0 {
        let first = owed.remove(0);
        assert(owed@ == all.skip(1));
        Step::Perform(
            Pending {
                call: Call::Release(first),
                stage: Stage::Call,
                op: Op::Unwind { owed, result },
            },
        )
    } else {
        Step::Finished(result)
    }
}

} // verus!
