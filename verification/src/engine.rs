//! The native engine as this library sees it: the calls it can be asked to
//! make and what comes back from each.
//!
//! Nothing here touches the engine. An operation of the library is a sequence
//! of [`Call`]s; whoever drives it performs each call and hands the [`Reply`]
//! back.

use crate::utils::Outputs;
use vstd::prelude::*;

verus! {

/// An address in the engine's memory. The library never looks behind it.
#[derive(Debug, Clone, Copy, PartialEq, Eq, Structural, Hash)]
pub struct Handle {
    pub addr: usize,
}

/// A native resource together with the function that gives it back.
#[derive(Debug, Clone, Copy, PartialEq, Eq, Structural, Hash)]
pub enum Release {
    /// `nix_c_context_free`
    Context(Handle),
    /// `nix_store_free`
    Store(Handle),
    /// `nix_store_path_free`
    StorePath(Handle),
    /// `nix_state_free`
    State(Handle),
    /// `nix_gc_decref`, with no context
    Value(Handle),
    /// `nix_bindings_builder_free`
    BindingsBuilder(Handle),
    /// `nix_list_builder_free`
    ListBuilder(Handle),
}

/// A function of the engine that reports failure through an error context,
/// with its arguments but the context.
#[derive(Debug, Clone, PartialEq, Eq)]
#[allow(inconsistent_fields)]
pub enum Function {
    /// `nix_libutil_init`
    LibutilInit,
    /// `nix_libstore_init`
    LibstoreInit,
    /// `nix_libexpr_init`
    LibexprInit,
    /// `nix_store_open`, with no parameters; `uri` ends in its nul
    StoreOpen { uri: Vec<u8> },
    /// `nix_store_parse_path`; `path` ends in its nul
    StoreParsePath { store: Handle, path: Vec<u8> },
    /// `nix_store_realise`, collecting the outputs with [`crate::utils::build_cb`]
    StoreRealise { store: Handle, path: Handle },
    /// `nix_state_create`; each slot of `lookup` is a string that ends in its
    /// nul, or the null pointer
    StateCreate { lookup: Vec<Option<Vec<u8>>>, store: Handle },
    /// `nix_expr_eval_from_string`; `expr` and `path` end in their nul
    ExprEvalFromString { state: Handle, expr: Vec<u8>, path: Vec<u8>, value: Handle },
    /// `nix_alloc_value`
    AllocValue { state: Handle },
    /// `nix_get_type`
    GetType { value: Handle },
    /// `nix_value_force`
    ValueForce { state: Handle, value: Handle },
    /// `nix_value_force_deep`
    ValueForceDeep { state: Handle, value: Handle },
    /// `nix_init_apply`
    InitApply { value: Handle, function: Handle, argument: Handle },
    /// `nix_init_int`
    InitInt { value: Handle, int: i64 },
    /// `nix_init_float`; `bits` is the number in IEEE 754 binary64
    InitFloat { value: Handle, bits: u64 },
    /// `nix_init_bool`
    InitBool { value: Handle, boolean: bool },
    /// `nix_init_string`; `text` ends in its nul
    InitString { value: Handle, text: Vec<u8> },
    /// `nix_init_path_string`; `text` ends in its nul
    InitPathString { state: Handle, value: Handle, text: Vec<u8> },
    /// `nix_init_null`
    InitNull { value: Handle },
    /// `nix_make_bindings_builder`
    MakeBindingsBuilder { state: Handle, capacity: usize },
    /// `nix_bindings_builder_insert`; `name` ends in its nul
    BindingsBuilderInsert { builder: Handle, name: Vec<u8>, value: Handle },
    /// `nix_make_attrs`
    MakeAttrs { value: Handle, builder: Handle },
    /// `nix_make_list_builder`
    MakeListBuilder { state: Handle, capacity: usize },
    /// `nix_list_builder_insert`
    ListBuilderInsert { builder: Handle, index: u32, value: Handle },
    /// `nix_make_list`
    MakeList { builder: Handle, value: Handle },
    /// `nix_get_int`
    GetInt { value: Handle },
    /// `nix_get_float`
    GetFloat { value: Handle },
    /// `nix_get_bool`
    GetBool { value: Handle },
    /// `nix_get_string`, collecting the bytes with [`crate::utils::get_string_cb`]
    GetString { value: Handle },
    /// `nix_get_path_string`
    GetPathString { value: Handle },
    /// `nix_get_attrs_size`
    GetAttrsSize { value: Handle },
    /// `nix_get_attr_byname`; `name` ends in its nul
    GetAttrByName { value: Handle, state: Handle, name: Vec<u8> },
    /// `nix_get_attr_byidx`
    GetAttrByIdx { value: Handle, state: Handle, index: u32 },
    /// `nix_get_list_size`
    GetListSize { value: Handle },
    /// `nix_get_list_byidx`
    GetListByIdx { value: Handle, state: Handle, index: u32 },
}

/// One thing to ask of the engine.
#[derive(Debug, Clone, PartialEq, Eq)]
pub enum Call {
    /// `nix_c_context_create`
    ContextCreate,
    /// `nix_err_code`
    ErrCode { ctx: Handle },
    /// `nix_err_msg` on `ctx`, itself called with no context and no length
    ErrMsg { ctx: Handle },
    /// Read the nul-terminated string at `ptr`
    ReadCStr { ptr: Handle },
    /// `nix_store_path_name`, collecting the bytes with [`crate::utils::get_string_cb`]
    StorePathName { path: Handle },
    /// Give a resource back
    Release(Release),
    /// Call `function` with the context `ctx`
    Checked { ctx: Handle, function: Function },
}

/// The form of a reply.
#[derive(Debug, Clone, Copy, PartialEq, Eq, Structural)]
pub enum Shape {
    Nothing,
    Handle,
    Code,
    Int,
    Bits,
    Bool,
    Kind,
    Size,
    Bytes,
    Named,
    Outputs,
}

/// What came back from a call.
#[derive(Debug, Clone, PartialEq, Eq)]
pub enum Reply {
    /// The function returns nothing, or only a status that the context holds too
    Nothing,
    /// A pointer
    Handle(Handle),
    /// The status that a context holds
    Code(i32),
    /// An integer payload
    Int(i64),
    /// A floating-point payload, in IEEE 754 binary64
    Bits(u64),
    /// A boolean payload
    Bool(bool),
    /// The engine's number for a kind of value
    Kind(u32),
    /// A count of attributes or elements
    Size(u32),
    /// The bytes of a string, without a terminator
    Bytes(Vec<u8>),
    /// A pointer to an attribute's name, and the attribute's value
    Named { name: Handle, value: Handle },
    /// The outputs collected while realising
    Outputs(Outputs),
}

impl Function {
    /// The form of what this function hands back.
    pub open spec fn expects(self) -> Shape {
        match self {
            Function::StoreOpen { .. }
            | Function::StoreParsePath { .. }
            | Function::StateCreate { .. }
            | Function::AllocValue { .. }
            | Function::MakeBindingsBuilder { .. }
            | Function::MakeListBuilder { .. }
            | Function::GetPathString { .. }
            | Function::GetAttrByName { .. }
            | Function::GetListByIdx { .. } => Shape::Handle,
            Function::StoreRealise { .. } => Shape::Outputs,
            Function::GetType { .. } => Shape::Kind,
            Function::GetInt { .. } => Shape::Int,
            Function::GetFloat { .. } => Shape::Bits,
            Function::GetBool { .. } => Shape::Bool,
            Function::GetString { .. } => Shape::Bytes,
            Function::GetAttrsSize { .. } | Function::GetListSize { .. } => Shape::Size,
            Function::GetAttrByIdx { .. } => Shape::Named,
            _ => Shape::Nothing,
        }
    }

    /// The form of what this function hands back.
    pub fn shape(&self) -> (shape: Shape)
        ensures
            shape == self.expects(),
    {
        match self {
            Function::StoreOpen { .. }
            | Function::StoreParsePath { .. }
            | Function::StateCreate { .. }
            | Function::AllocValue { .. }
            | Function::MakeBindingsBuilder { .. }
            | Function::MakeListBuilder { .. }
            | Function::GetPathString { .. }
            | Function::GetAttrByName { .. }
            | Function::GetListByIdx { .. } => Shape::Handle,
            Function::StoreRealise { .. } => Shape::Outputs,
            Function::GetType { .. } => Shape::Kind,
            Function::GetInt { .. } => Shape::Int,
            Function::GetFloat { .. } => Shape::Bits,
            Function::GetBool { .. } => Shape::Bool,
            Function::GetString { .. } => Shape::Bytes,
            Function::GetAttrsSize { .. } | Function::GetListSize { .. } => Shape::Size,
            Function::GetAttrByIdx { .. } => Shape::Named,
            _ => Shape::Nothing,
        }
    }

    /// The resource that the caller owns once this function has succeeded
    /// with `output`, if it hands one out.
    pub open spec fn yields(self, output: Reply) -> Option<Release> {
        match (self, output) {
            (Function::StoreOpen { .. }, Reply::Handle(h)) => Some(Release::Store(h)),
            (Function::StoreParsePath { .. }, Reply::Handle(h)) => Some(Release::StorePath(h)),
            (Function::StateCreate { .. }, Reply::Handle(h)) => Some(Release::State(h)),
            (Function::AllocValue { .. }, Reply::Handle(h)) => Some(Release::Value(h)),
            (Function::GetAttrByName { .. }, Reply::Handle(h)) => Some(Release::Value(h)),
            (Function::GetListByIdx { .. }, Reply::Handle(h)) => Some(Release::Value(h)),
            (Function::GetAttrByIdx { .. }, Reply::Named { value, .. }) => Some(
                Release::Value(value),
            ),
            (Function::MakeBindingsBuilder { .. }, Reply::Handle(h)) => Some(
                Release::BindingsBuilder(h),
            ),
            (Function::MakeListBuilder { .. }, Reply::Handle(h)) => Some(Release::ListBuilder(h)),
            _ => None,
        }
    }
}

impl Call {
    /// The form of what this call hands back.
    pub open spec fn expects(self) -> Shape {
        match self {
            Call::ContextCreate => Shape::Handle,
            Call::ErrCode { .. } => Shape::Code,
            Call::ErrMsg { .. } => Shape::Bytes,
            Call::ReadCStr { .. } => Shape::Bytes,
            Call::StorePathName { .. } => Shape::Bytes,
            Call::Release(_) => Shape::Nothing,
            Call::Checked { function, .. } => function.expects(),
        }
    }

    /// The form of what this call hands back.
    pub fn shape(&self) -> (shape: Shape)
        ensures
            shape == self.expects(),
    {
        match self {
            Call::ContextCreate => Shape::Handle,
            Call::ErrCode { .. } => Shape::Code,
            Call::ErrMsg { .. } => Shape::Bytes,
            Call::ReadCStr { .. } => Shape::Bytes,
            Call::StorePathName { .. } => Shape::Bytes,
            Call::Release(_) => Shape::Nothing,
            Call::Checked { function, .. } => function.shape(),
        }
    }
}

impl Reply {
    /// The form of this reply.
    pub open spec fn form(self) -> Shape {
        match self {
            Reply::Nothing => Shape::Nothing,
            Reply::Handle(_) => Shape::Handle,
            Reply::Code(_) => Shape::Code,
            Reply::Int(_) => Shape::Int,
            Reply::Bits(_) => Shape::Bits,
            Reply::Bool(_) => Shape::Bool,
            Reply::Kind(_) => Shape::Kind,
            Reply::Size(_) => Shape::Size,
            Reply::Bytes(_) => Shape::Bytes,
            Reply::Named { .. } => Shape::Named,
            Reply::Outputs(_) => Shape::Outputs,
        }
    }

    /// The form of this reply.
    pub fn shape(&self) -> (shape: Shape)
        ensures
            shape == self.form(),
    {
        match self {
            Reply::Nothing => Shape::Nothing,
            Reply::Handle(_) => Shape::Handle,
            Reply::Code(_) => Shape::Code,
            Reply::Int(_) => Shape::Int,
            Reply::Bits(_) => Shape::Bits,
            Reply::Bool(_) => Shape::Bool,
            Reply::Kind(_) => Shape::Kind,
            Reply::Size(_) => Shape::Size,
            Reply::Bytes(_) => Shape::Bytes,
            Reply::Named { .. } => Shape::Named,
            Reply::Outputs(_) => Shape::Outputs,
        }
    }

    /// Whether this reply has the form that `call` hands back. What comes
    /// back from a call that hands nothing back is never looked at, so any
    /// reply answers it.
    pub open spec fn answers(self, call: Call) -> bool {
        call.expects() == Shape::Nothing || self.form() == call.expects()
    }

    /// Whether this reply has the form that `call` hands back.
    pub fn fits(&self, call: &Call) -> (fits: bool)
        ensures
            fits == self.answers(*call),
    {
        let expected = call.shape();
        expected == Shape::Nothing || self.shape() == expected
    }
}

} // verus!
