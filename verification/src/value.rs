//! Values of the evaluator: their kinds, and the operations on them.

use crate::context::Context;
use crate::engine::{Call, Function, Handle, Release};
use crate::operation::{ask, make, unwind, Op, Output, OutputView, Stage, Step};
use crate::state::State;
use crate::utils::{c_string, c_string_of, nul_free, Error, ErrorView};
use vstd::prelude::*;

verus! {

/// The kind of a value, as the engine reports it.
#[derive(Debug, Clone, Copy, PartialEq, Eq, Structural)]
pub enum ValueType {
    Thunk,
    Int,
    Float,
    Bool,
    String,
    Path,
    Null,
    Attrs,
    List,
    Function,
    External,
}

pub const NIX_TYPE_THUNK: u32 = 0;
pub const NIX_TYPE_INT: u32 = 1;
pub const NIX_TYPE_FLOAT: u32 = 2;
pub const NIX_TYPE_BOOL: u32 = 3;
pub const NIX_TYPE_STRING: u32 = 4;
pub const NIX_TYPE_PATH: u32 = 5;
pub const NIX_TYPE_NULL: u32 = 6;
pub const NIX_TYPE_ATTRS: u32 = 7;
pub const NIX_TYPE_LIST: u32 = 8;
pub const NIX_TYPE_FUNCTION: u32 = 9;
pub const NIX_TYPE_EXTERNAL: u32 = 10;

impl ValueType {
    /// The kind that the engine's number `ty` stands for, if it stands for one.
    pub open spec fn of_raw(ty: u32) -> Option<ValueType> {
        if ty == NIX_TYPE_THUNK {
            Some(ValueType::Thunk)
        } else if ty == NIX_TYPE_INT {
            Some(ValueType::Int)
        } else if ty == NIX_TYPE_FLOAT {
            Some(ValueType::Float)
        } else if ty == NIX_TYPE_BOOL {
            Some(ValueType::Bool)
        } else if ty == NIX_TYPE_STRING {
            Some(ValueType::String)
        } else if ty == NIX_TYPE_PATH {
            Some(ValueType::Path)
        } else if ty == NIX_TYPE_NULL {
            Some(ValueType::Null)
        } else if ty == NIX_TYPE_ATTRS {
            Some(ValueType::Attrs)
        } else if ty == NIX_TYPE_LIST {
            Some(ValueType::List)
        } else if ty == NIX_TYPE_FUNCTION {
            Some(ValueType::Function)
        } else if ty == NIX_TYPE_EXTERNAL {
            Some(ValueType::External)
        } else {
            None
        }
    }

    /// The engine's number for this kind.
    pub open spec fn raw(self) -> u32 {
        match self {
            ValueType::Thunk => NIX_TYPE_THUNK,
            ValueType::Int => NIX_TYPE_INT,
            ValueType::Float => NIX_TYPE_FLOAT,
            ValueType::Bool => NIX_TYPE_BOOL,
            ValueType::String => NIX_TYPE_STRING,
            ValueType::Path => NIX_TYPE_PATH,
            ValueType::Null => NIX_TYPE_NULL,
            ValueType::Attrs => NIX_TYPE_ATTRS,
            ValueType::List => NIX_TYPE_LIST,
            ValueType::Function => NIX_TYPE_FUNCTION,
            ValueType::External => NIX_TYPE_EXTERNAL,
        }
    }

    /// Reads the engine's number for a kind; a number that names none is an unknown error.
    pub fn from_raw(ty: u32) -> (r: Result<ValueType, Error>)
        ensures
            match r {
                Ok(kind) => ValueType::of_raw(ty) == Some(kind),
                Err(e) => ValueType::of_raw(ty) is None && e@ == ErrorView::UnknownError,
            },
    {
        match ty {
            NIX_TYPE_THUNK => Ok(ValueType::Thunk),
            NIX_TYPE_INT => Ok(ValueType::Int),
            NIX_TYPE_FLOAT => Ok(ValueType::Float),
            NIX_TYPE_BOOL => Ok(ValueType::Bool),
            NIX_TYPE_STRING => Ok(ValueType::String),
            NIX_TYPE_PATH => Ok(ValueType::Path),
            NIX_TYPE_NULL => Ok(ValueType::Null),
            NIX_TYPE_ATTRS => Ok(ValueType::Attrs),
            NIX_TYPE_LIST => Ok(ValueType::List),
            NIX_TYPE_FUNCTION => Ok(ValueType::Function),
            NIX_TYPE_EXTERNAL => Ok(ValueType::External),
            _ => Err(Error::UnknownError),
        }
    }
}

/// Every kind is read back from its own number, and from no other.
pub proof fn law_kind_numbers(kind: ValueType, ty: u32)
    ensures
        ValueType::of_raw(kind.raw()) == Some(kind),
        ValueType::of_raw(ty) == Some(kind) ==> ty == kind.raw(),
{
}

/// A value of the evaluator, owned together with the context that the calls on it report to.
#[derive(Debug, PartialEq, Eq)]
pub struct Value {
    pub ctx: Context,
    pub value: Handle,
}

/// Whether `entries` are the attributes `values` with each value's handle in its place.
pub open spec fn entries_of(values: Seq<(String, &Value)>, entries: Seq<(String, Handle)>) -> bool {
    &&& entries.len() == values.len()
    &&& forall|i: int|
        0 <= i < values.len() ==> (#[trigger] entries[i]).0@ == values[i].0@ && entries[i].1
            == values[i].1.value
}

/// Whether `items` are the handles of `values`, in order.
pub open spec fn items_of(values: Seq<&Value>, items: Seq<Handle>) -> bool {
    &&& items.len() == values.len()
    &&& forall|i: int| 0 <= i < values.len() ==> #[trigger] items[i] == values[i].value
}

impl Value {
    /// Allocates a value in `state`, under a context of its own that the value keeps.
    pub fn new(state: &State) -> (step: Step)
        ensures
            step.sound(),
            step.makes(Call::ContextCreate, Op::ValueContext { state: state.state }),
    {
        make(Call::ContextCreate, Op::ValueContext { state: state.state })
    }

    /// Asks for the kind of the value.
    pub fn get_type(&self) -> (step: Step)
        ensures
            step.sound(),
            step.asks(self.ctx.handle, Function::GetType { value: self.value }, Op::Kind),
    {
        ask(self.ctx.handle, Function::GetType { value: self.value }, Op::Kind)
    }

    /// Forces the value: a thunk is evaluated to its head.
    pub fn force(&self, state: &State) -> (step: Step)
        ensures
            step.sound(),
            step.asks(
                self.ctx.handle,
                Function::ValueForce { state: state.state, value: self.value },
                Op::Done,
            ),
    {
        ask(
            self.ctx.handle,
            Function::ValueForce { state: state.state, value: self.value },
            Op::Done,
        )
    }

    /// Forces the value and all that it holds.
    pub fn force_deep(&self, state: &State) -> (step: Step)
        ensures
            step.sound(),
            step.asks(
                self.ctx.handle,
                Function::ValueForceDeep { state: state.state, value: self.value },
                Op::Done,
            ),
    {
        ask(
            self.ctx.handle,
            Function::ValueForceDeep { state: state.state, value: self.value },
            Op::Done,
        )
    }

    /// Makes the value the application of `f` to `arg`, not yet evaluated.
    pub fn init_thunk(&self, f: &Value, arg: &Value) -> (step: Step)
        ensures
            step.sound(),
            step.asks(
                self.ctx.handle,
                Function::InitApply { value: self.value, function: f.value, argument: arg.value },
                Op::Done,
            ),
    {
        ask(
            self.ctx.handle,
            Function::InitApply { value: self.value, function: f.value, argument: arg.value },
            Op::Done,
        )
    }

    /// Makes the value the integer `value`.
    pub fn init_int(&self, value: i64) -> (step: Step)
        ensures
            step.sound(),
            step.asks(
                self.ctx.handle,
                Function::InitInt { value: self.value, int: value },
                Op::Done,
            ),
    {
        ask(self.ctx.handle, Function::InitInt { value: self.value, int: value }, Op::Done)
    }

    /// Makes the value the floating-point number whose IEEE 754 binary64 form is `bits`.
    pub fn init_float(&self, bits: u64) -> (step: Step)
        ensures
            step.sound(),
            step.asks(self.ctx.handle, Function::InitFloat { value: self.value, bits }, Op::Done),
    {
        ask(self.ctx.handle, Function::InitFloat { value: self.value, bits }, Op::Done)
    }

    /// Makes the value the boolean `value`.
    pub fn init_bool(&self, value: bool) -> (step: Step)
        ensures
            step.sound(),
            step.asks(
                self.ctx.handle,
                Function::InitBool { value: self.value, boolean: value },
                Op::Done,
            ),
    {
        ask(self.ctx.handle, Function::InitBool { value: self.value, boolean: value }, Op::Done)
    }

    /// Makes the value the string `value`.
    ///
    /// Text with a nul byte inside is refused before anything is asked of the engine.
    pub fn init_string(&self, value: &str) -> (step: Step)
        ensures
            step.sound(),
            if nul_free(value@) {
                &&& step matches Step::Perform(p)
                &&& p.stage == Stage::Call
                &&& p.op == Op::Done
                &&& p.call matches Call::Checked {
                    ctx,
                    function: Function::InitString { value: v, text },
                }
                &&& ctx == self.ctx.handle
                &&& v == self.value
                &&& text@ == c_string_of(value@)
            } else {
                step.finishes(Err(ErrorView::UnknownError))
            },
    {
        match c_string(value) {
            Ok(text) => ask(
                self.ctx.handle,
                Function::InitString { value: self.value, text },
                Op::Done,
            ),
            Err(e) => Step::Finished(Err(e)),
        }
    }

    /// Makes the value the path `value`.
    ///
    /// Text with a nul byte inside is refused before anything is asked of the engine.
    pub fn init_path(&self, state: &State, value: &str) -> (step: Step)
        ensures
            step.sound(),
            if nul_free(value@) {
                &&& step matches Step::Perform(p)
                &&& p.stage == Stage::Call
                &&& p.op == Op::Done
                &&& p.call matches Call::Checked {
                    ctx,
                    function: Function::InitPathString { state: s, value: v, text },
                }
                &&& ctx == self.ctx.handle
                &&& s == state.state
                &&& v == self.value
                &&& text@ == c_string_of(value@)
            } else {
                step.finishes(Err(ErrorView::UnknownError))
            },
    {
        match c_string(value) {
            Ok(text) => ask(
                self.ctx.handle,
                Function::InitPathString { state: state.state, value: self.value, text },
                Op::Done,
            ),
            Err(e) => Step::Finished(Err(e)),
        }
    }

    /// Makes the value null.
    pub fn init_null(&self) -> (step: Step)
        ensures
            step.sound(),
            step.asks(self.ctx.handle, Function::InitNull { value: self.value }, Op::Done),
    {
        ask(self.ctx.handle, Function::InitNull { value: self.value }, Op::Done)
    }

    /// Makes the value the attribute set that holds each of `values` under its name.
    ///
    /// A builder sized for `values` is asked for; the entries go in one by
    /// one, in order; then the set is made. Whatever happens after the
    /// builder has come, it is given back before the operation ends.
    pub fn init_attrs(&self, state: &State, values: Vec<(String, &Value)>) -> (step: Step)
        ensures
            step.sound(),
            step matches Step::Perform(p) && p.stage == Stage::Call && p.call == (Call::Checked {
                ctx: self.ctx.handle,
                function: Function::MakeBindingsBuilder {
                    state: state.state,
                    capacity: values.len(),
                },
            }) && (p.op matches Op::AttrsBuilder { ctx, value, entries } && ctx == self.ctx.handle
                && value == self.value && entries_of(values@, entries@)),
    {
        let mut entries: Vec<(String, Handle)> = Vec::new();
        let mut i: usize = 0;
        while i < values.len()
            invariant
                i <= values.len(),
                entries_of(values@.take(i as int), entries@),
            decreases values.len() - i,
        {
            let name = values[i].0.clone();
            let handle = values[i].1.value;
            entries.push((name, handle));
            proof {
                let before = values@.take(i as int);
                let after = values@.take(i + 1);
                assert forall|j: int| 0 <= j < after.len() implies (#[trigger] entries@[j]).0@
                    == after[j].0@ && entries@[j].1 == after[j].1.value by {
                    if j < i {
                        assert(before[j] == after[j]);
                    }
                }
            }
            i += 1;
        }
        assert(values@.take(i as int) == values@);
        ask(
            self.ctx.handle,
            Function::MakeBindingsBuilder { state: state.state, capacity: values.len() },
            Op::AttrsBuilder { ctx: self.ctx.handle, value: self.value, entries },
        )
    }

    /// Makes the value the list of `values`, in order.
    ///
    /// A builder sized for `values` is asked for; the items go in one by
    /// one, each at its index; then the list is made. Whatever happens after
    /// the builder has come, it is given back before the operation ends. A
    /// list longer than the engine can index is refused before anything is
    /// asked of the engine.
    pub fn init_list(&self, state: &State, values: &[&Value]) -> (step: Step)
        ensures
            step.sound(),
            if values@.len() <= u32::MAX {
                &&& step matches Step::Perform(p)
                &&& p.stage == Stage::Call
                &&& p.call == Call::Checked {
                    ctx: self.ctx.handle,
                    function: Function::MakeListBuilder {
                        state: state.state,
                        capacity: values@.len() as usize,
                    },
                }
                &&& p.op matches Op::ListBuilder { ctx, value, items }
                &&& ctx == self.ctx.handle
                &&& value == self.value
                &&& items_of(values@, items@)
            } else {
                step.finishes(Err(ErrorView::UnknownError))
            },
    {
        if values.len() > u32::MAX as usize {
            return Step::Finished(Err(Error::UnknownError));
        }
        let mut items: Vec<Handle> = Vec::new();
        let mut i: usize = 0;
        while i < values.len()
            invariant
                i <= values.len(),
                items@.len() == i,
                forall|j: int| 0 <= j < i ==> #[trigger] items@[j] == values@[j].value,
            decreases values.len() - i,
        {
            items.push(values[i].value);
            i += 1;
        }
        ask(
            self.ctx.handle,
            Function::MakeListBuilder { state: state.state, capacity: values.len() },
            Op::ListBuilder { ctx: self.ctx.handle, value: self.value, items },
        )
    }

    /// Reads the value as an integer.
    pub fn as_int(&self) -> (step: Step)
        ensures
            step.sound(),
            step.asks(self.ctx.handle, Function::GetInt { value: self.value }, Op::Int),
    {
        ask(self.ctx.handle, Function::GetInt { value: self.value }, Op::Int)
    }

    /// Reads the value as a floating-point number, in IEEE 754 binary64.
    pub fn float(&self) -> (step: Step)
        ensures
            step.sound(),
            step.asks(self.ctx.handle, Function::GetFloat { value: self.value }, Op::Float),
    {
        ask(self.ctx.handle, Function::GetFloat { value: self.value }, Op::Float)
    }

    /// Reads the value as a boolean.
    pub fn bool(&self) -> (step: Step)
        ensures
            step.sound(),
            step.asks(self.ctx.handle, Function::GetBool { value: self.value }, Op::Bool),
    {
        ask(self.ctx.handle, Function::GetBool { value: self.value }, Op::Bool)
    }

    /// Reads the value as a string, from the bytes that the engine pushes.
    pub fn string(&self) -> (step: Step)
        ensures
            step.sound(),
            step.asks(self.ctx.handle, Function::GetString { value: self.value }, Op::Text),
    {
        ask(self.ctx.handle, Function::GetString { value: self.value }, Op::Text)
    }

    /// Reads the value as a path: the string that the engine points to, once
    /// the call has proved good.
    pub fn path(&self) -> (step: Step)
        ensures
            step.sound(),
            step.asks(self.ctx.handle, Function::GetPathString { value: self.value }, Op::CStr),
    {
        ask(self.ctx.handle, Function::GetPathString { value: self.value }, Op::CStr)
    }

    /// Counts the attributes of the value.
    pub fn attrs_len(&self) -> (step: Step)
        ensures
            step.sound(),
            step.asks(self.ctx.handle, Function::GetAttrsSize { value: self.value }, Op::Size),
    {
        ask(self.ctx.handle, Function::GetAttrsSize { value: self.value }, Op::Size)
    }

    /// Looks the attribute `name` up. What comes is a value of its own, with
    /// a context of its own.
    ///
    /// A name with a nul byte inside is refused before anything is asked of the engine.
    pub fn attrs_get(&self, state: &State, name: &str) -> (step: Step)
        ensures
            step.sound(),
            if nul_free(name@) {
                &&& step matches Step::Perform(p)
                &&& p.stage == Stage::Call
                &&& p.op == Op::Child
                &&& p.call matches Call::Checked {
                    ctx,
                    function: Function::GetAttrByName { value: v, state: s, name: bytes },
                }
                &&& ctx == self.ctx.handle
                &&& v == self.value
                &&& s == state.state
                &&& bytes@ == c_string_of(name@)
            } else {
                step.finishes(Err(ErrorView::UnknownError))
            },
    {
        match c_string(name) {
            Ok(name) => ask(
                self.ctx.handle,
                Function::GetAttrByName { value: self.value, state: state.state, name },
                Op::Child,
            ),
            Err(e) => Step::Finished(Err(e)),
        }
    }

    /// Takes the attribute at the index `id`: its name and its value. An
    /// index beyond what the engine can count to is refused before anything
    /// is asked of the engine.
    pub fn attrs_get_byid(&self, state: &State, id: usize) -> (step: Step)
        ensures
            step.sound(),
            if id <= u32::MAX {
                step.asks(
                    self.ctx.handle,
                    Function::GetAttrByIdx {
                        value: self.value,
                        state: state.state,
                        index: id as u32,
                    },
                    Op::Attr,
                )
            } else {
                step.finishes(Err(ErrorView::UnknownError))
            },
    {
        if id > u32::MAX as usize {
            return Step::Finished(Err(Error::UnknownError));
        }
        ask(
            self.ctx.handle,
            Function::GetAttrByIdx { value: self.value, state: state.state, index: id as u32 },
            Op::Attr,
        )
    }

    /// Counts the elements of the value.
    pub fn list_len(&self) -> (step: Step)
        ensures
            step.sound(),
            step.asks(self.ctx.handle, Function::GetListSize { value: self.value }, Op::Size),
    {
        ask(self.ctx.handle, Function::GetListSize { value: self.value }, Op::Size)
    }

    /// Takes the element at the index `id`. An index beyond what the engine
    /// can count to is refused before anything is asked of the engine.
    pub fn list_get(&self, state: &State, id: usize) -> (step: Step)
        ensures
            step.sound(),
            if id <= u32::MAX {
                step.asks(
                    self.ctx.handle,
                    Function::GetListByIdx {
                        value: self.value,
                        state: state.state,
                        index: id as u32,
                    },
                    Op::Child,
                )
            } else {
                step.finishes(Err(ErrorView::UnknownError))
            },
    {
        if id > u32::MAX as usize {
            return Step::Finished(Err(Error::UnknownError));
        }
        ask(
            self.ctx.handle,
            Function::GetListByIdx { value: self.value, state: state.state, index: id as u32 },
            Op::Child,
        )
    }

    /// Drops this handle's count on the value, then gives its context back.
    pub fn release(self) -> (step: Step)
        ensures
            step.sound(),
            step.winds_down(
                seq![Release::Value(self.value), Release::Context(self.ctx.handle)],
                Ok(OutputView::Nothing),
            ),
    {
        let mut owed: Vec<Release> = Vec::new();
        owed.push(Release::Value(self.value));
        owed.push(Release::Context(self.ctx.handle));
        assert(owed@ =~= seq![Release::Value(self.value), Release::Context(self.ctx.handle)]);
        unwind(owed, Ok(Output::Nothing))
    }
}

} // verus!
