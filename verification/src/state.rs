//! Evaluator states.

use crate::context::Context;
use crate::engine::{Call, Function, Handle, Release};
use crate::operation::{ask, make, unwind, Op, Output, OutputView, Stage, Step};
use crate::path::StorePath;
use crate::store::Store;
use crate::utils::{c_string, c_string_of, nul_free, ErrorView};
use crate::value::Value;
use vstd::prelude::*;

verus! {

/// An evaluator state, owned together with the store it evaluates against
/// and the context that its calls report to.
#[derive(Debug, PartialEq, Eq)]
pub struct State {
    pub ctx: Context,
    pub store: Store,
    pub state: Handle,
}

/// Whether every one of `paths` can be a C string.
pub open spec fn all_nul_free(paths: Seq<&str>) -> bool {
    forall|i: int| 0 <= i < paths.len() ==> nul_free(#[trigger] paths[i]@)
}

/// Whether `lookup` is the table that the engine takes for `paths`: one C
/// string for each path, in order, and the null pointer after the last.
pub open spec fn lookup_of(paths: Seq<&str>, lookup: Seq<Option<Vec<u8>>>) -> bool {
    &&& lookup.len() == paths.len() + 1
    &&& lookup[paths.len() as int] is None
    &&& forall|i: int|
        0 <= i < paths.len() ==> (#[trigger] lookup[i]) is Some && lookup[i]->0@ == c_string_of(
            paths[i]@,
        )
}

impl State {
    /// Whether `step` starts the creation of a state over `store` that looks
    /// files up under `paths`: a context is asked for, with the lookup table
    /// ready, or, if a path has a nul byte inside, the store is closed and the
    /// operation fails.
    pub open spec fn creates(store: Store, paths: Seq<&str>, step: Step) -> bool {
        if all_nul_free(paths) {
            &&& step matches Step::Perform(p)
            &&& p.call == Call::ContextCreate
            &&& p.stage == Stage::Call
            &&& p.op matches Op::StateContext { store: s, lookup }
            &&& s == store.store
            &&& lookup_of(paths, lookup@)
        } else {
            step.winds_down(seq![Release::Store(store.store)], Err(ErrorView::UnknownError))
        }
    }

    /// Creates a state over `store` that looks nothing up.
    pub fn new(store: Store) -> (step: Step)
        ensures
            step.sound(),
            State::creates(store, Seq::empty(), step),
    {
        let paths: Vec<&str> = Vec::new();
        State::new_with_paths(store, paths.as_slice())
    }

    /// Creates a state over `store` that looks files up under `paths`.
    ///
    /// The state takes the store over: if it cannot be created, the store is
    /// closed. A path with a nul byte inside fails the operation before the
    /// engine is asked for anything but to close the store.
    pub fn new_with_paths(store: Store, paths: &[&str]) -> (step: Step)
        ensures
            step.sound(),
            State::creates(store, paths@, step),
    {
        let mut lookup: Vec<Option<Vec<u8>>> = Vec::new();
        let mut i: usize = 0;
        while i < paths.len()
            invariant
                i <= paths.len(),
                lookup@.len() == i,
                forall|j: int| 0 <= j < i ==> nul_free(#[trigger] paths@[j]@),
                forall|j: int|
                    0 <= j < i ==> (#[trigger] lookup@[j]) is Some && lookup@[j]->0@
                        == c_string_of(paths@[j]@),
            decreases paths.len() - i,
        {
            match c_string(paths[i]) {
                Ok(bytes) => {
                    lookup.push(Some(bytes));
                },
                Err(e) => {
                    let mut owed: Vec<Release> = Vec::new();
                    owed.push(Release::Store(store.store));
                    assert(owed@ =~= seq![Release::Store(store.store)]);
                    return unwind(owed, Err(e));
                },
            }
            i += 1;
        }
        lookup.push(None);
        make(Call::ContextCreate, Op::StateContext { store: store.store, lookup })
    }

    /// Evaluates `expr` as if it stood in a file in the current directory.
    pub fn eval(&self, expr: &str) -> (step: Step)
        ensures
            step.sound(),
            self.evaluates(".", expr, step),
    {
        self.eval_with_path(".", expr)
    }

    /// Whether `step` starts the evaluation of `expr` relative to `path`:
    /// a context for the result is asked for, or, if either text has a nul
    /// byte inside, the operation is over with nothing asked.
    pub open spec fn evaluates(&self, path: &str, expr: &str, step: Step) -> bool {
        if nul_free(expr@) && nul_free(path@) {
            &&& step matches Step::Perform(p)
            &&& p.call == Call::ContextCreate
            &&& p.stage == Stage::Call
            &&& p.op matches Op::EvalContext { ctx, state, expr: e, path: b }
            &&& ctx == self.ctx.handle
            &&& state == self.state
            &&& e@ == c_string_of(expr@)
            &&& b@ == c_string_of(path@)
        } else {
            step.finishes(Err(ErrorView::UnknownError))
        }
    }

    /// Evaluates `expr`, with relative paths in it taken from `path`, into a
    /// fresh value. The value may still be a thunk. If evaluation fails the
    /// fresh value is given back.
    pub fn eval_with_path(&self, path: &str, expr: &str) -> (step: Step)
        ensures
            step.sound(),
            self.evaluates(path, expr, step),
    {
        let expr = match c_string(expr) {
            Ok(expr) => expr,
            Err(e) => {
                return Step::Finished(Err(e));
            },
        };
        let path = match c_string(path) {
            Ok(path) => path,
            Err(e) => {
                return Step::Finished(Err(e));
            },
        };
        make(
            Call::ContextCreate,
            Op::EvalContext { ctx: self.ctx.handle, state: self.state, expr, path },
        )
    }

    /// Parses `path` against this state's store.
    pub fn store_path(&self, path: &str) -> (step: Step)
        ensures
            step.sound(),
            StorePath::parses(&self.store, path, step),
    {
        StorePath::new(&self.store, path)
    }

    /// Whether `step` starts the building of `value`: the kind of `value`
    /// is asked for under its own context.
    pub open spec fn builds(&self, value: &Value, step: Step) -> bool {
        step.asks(
            value.ctx.handle,
            Function::GetType { value: value.value },
            Op::BuildKind {
                ctx: self.ctx.handle,
                state: self.state,
                store: self.store.store,
                ours: value.ctx.handle,
                value: value.value,
            },
        )
    }

    /// Realises the derivation that `value` describes and gives the path of
    /// each of its outputs by name.
    ///
    /// The value has to be an attribute set whose `drvPath` attribute is a
    /// string; anything else is no derivation. The first thing asked is the
    /// kind of `value`.
    pub fn build(&self, value: &Value) -> (step: Step)
        ensures
            step.sound(),
            self.builds(value, step),
    {
        ask(
            value.ctx.handle,
            Function::GetType { value: value.value },
            Op::BuildKind {
                ctx: self.ctx.handle,
                state: self.state,
                store: self.store.store,
                ours: value.ctx.handle,
                value: value.value,
            },
        )
    }

    /// Gives back the state, then its context, then the store under it.
    pub fn release(self) -> (step: Step)
        ensures
            step.sound(),
            step.winds_down(
                seq![
                    Release::State(self.state),
                    Release::Context(self.ctx.handle),
                    Release::Store(self.store.store),
                ],
                Ok(OutputView::Nothing),
            ),
    {
        let mut owed: Vec<Release> = Vec::new();
        owed.push(Release::State(self.state));
        owed.push(Release::Context(self.ctx.handle));
        owed.push(Release::Store(self.store.store));
        assert(owed@ =~= seq![
            Release::State(self.state),
            Release::Context(self.ctx.handle),
            Release::Store(self.store.store),
        ]);
        unwind(owed, Ok(Output::Nothing))
    }
}

} // verus!
