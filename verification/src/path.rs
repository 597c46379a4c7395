//! Store paths.

use crate::engine::{Call, Handle, Release};
use crate::operation::{make, unwind, Op, Output, OutputView, Stage, Step};
use crate::store::Store;
use crate::utils::{c_string, c_string_of, nul_free, ErrorView};
use vstd::prelude::*;

verus! {

/// A parsed store path, owned.
#[derive(Debug, PartialEq, Eq)]
pub struct StorePath {
    pub store_path: Handle,
}

impl StorePath {
    /// Whether `step` starts the parsing of `path` against `store`: a
    /// context is asked for, or, if `path` has a nul byte inside, the
    /// operation is over with nothing asked.
    pub open spec fn parses(store: &Store, path: &str, step: Step) -> bool {
        if nul_free(path@) {
            &&& step matches Step::Perform(p)
            &&& p.call == Call::ContextCreate
            &&& p.stage == Stage::Call
            &&& p.op matches Op::PathContext { store: s, path: bytes }
            &&& s == store.store
            &&& bytes@ == c_string_of(path@)
        } else {
            step.finishes(Err(ErrorView::UnknownError))
        }
    }

    /// Parses `path` against `store`, under a context of its own that is
    /// given back when the path has come or failed to.
    ///
    /// A `path` with a nul byte inside is refused before anything is asked
    /// of the engine.
    pub fn new(store: &Store, path: &str) -> (step: Step)
        ensures
            step.sound(),
            StorePath::parses(store, path, step),
    {
        match c_string(path) {
            Ok(path) => make(Call::ContextCreate, Op::PathContext { store: store.store, path }),
            Err(e) => Step::Finished(Err(e)),
        }
    }

    /// The name part of the path, decoded from the bytes that the engine pushes.
    pub fn name(&self) -> (step: Step)
        ensures
            step.sound(),
            step.makes(Call::StorePathName { path: self.store_path }, Op::Text),
    {
        make(Call::StorePathName { path: self.store_path }, Op::Text)
    }

    /// Gives the path back.
    pub fn release(self) -> (step: Step)
        ensures
            step.sound(),
            step.winds_down(seq![Release::StorePath(self.store_path)], Ok(OutputView::Nothing)),
    {
        let mut owed: Vec<Release> = Vec::new();
        owed.push(Release::StorePath(self.store_path));
        assert(owed@ =~= seq![Release::StorePath(self.store_path)]);
        unwind(owed, Ok(Output::Nothing))
    }
}

} // verus!
