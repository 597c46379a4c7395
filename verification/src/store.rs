//! Stores.

use crate::engine::{Call, Handle, Release};
use crate::operation::{make, unwind, Op, Output, OutputView, Stage, Step};
use crate::utils::{c_string, c_string_of, nul_free, ErrorView};
use vstd::prelude::*;

verus! {

/// An open store, owned.
#[derive(Debug, PartialEq, Eq)]
pub struct Store {
    pub store: Handle,
}

impl Store {
    /// Whether `step` starts the opening of the store at `uri`: a context
    /// is asked for, or, if `uri` has a nul byte inside, the operation is
    /// over with nothing asked.
    pub open spec fn opens(uri: &str, step: Step) -> bool {
        if nul_free(uri@) {
            &&& step matches Step::Perform(p)
            &&& p.call == Call::ContextCreate
            &&& p.stage == Stage::Call
            &&& p.op matches Op::StoreContext { uri: bytes }
            &&& bytes@ == c_string_of(uri@)
        } else {
            step.finishes(Err(ErrorView::UnknownError))
        }
    }

    /// Opens the store at `uri`, with no parameters, under a context of its
    /// own that is given back when the store has come or failed to.
    ///
    /// A `uri` with a nul byte inside is refused before anything is asked of
    /// the engine.
    pub fn new(uri: &str) -> (step: Step)
        ensures
            step.sound(),
            Store::opens(uri, step),
    {
        match c_string(uri) {
            Ok(uri) => make(Call::ContextCreate, Op::StoreContext { uri }),
            Err(e) => Step::Finished(Err(e)),
        }
    }

    /// Closes the store.
    pub fn release(self) -> (step: Step)
        ensures
            step.sound(),
            step.winds_down(seq![Release::Store(self.store)], Ok(OutputView::Nothing)),
    {
        let mut owed: Vec<Release> = Vec::new();
        owed.push(Release::Store(self.store));
        assert(owed@ =~= seq![Release::Store(self.store)]);
        unwind(owed, Ok(Output::Nothing))
    }
}

} // verus!
