//! The pass entry point.
//!
//! One desugaring pass among several that a driver sequences over a pipeline;
//! they all share the `Result`-shaped signature of [`OrExpressionsDesugarerPass::apply`].
//! This pass performs no fallible work itself: the error type exists only so
//! the signature matches its sibling passes, and `apply` always succeeds.

use crate::ast::Stage;
use crate::locate::locate_stages;
use crate::locate::FilterStageDesugarerVisitor;
use crate::model::stages_view;
use vstd::prelude::*;

verus! {

/// The error type shared by the desugaring passes.  The OR-desugaring pass
/// never constructs a value of it.
#[derive(Debug, PartialEq, Eq)]
pub enum Error {
    /// A failure detected by an earlier phase and propagated unchanged.
    Propagated,
}

/// For every `Match` stage, translates SQL OR expressions, and the
/// compatible SQL semantic operators below them, into native operator
/// expressions, honoring subquery scope boundaries.
pub struct OrExpressionsDesugarerPass;

impl OrExpressionsDesugarerPass {
    /// Applies the pass to a whole pipeline: every expression-language
    /// predicate site is rewritten by a fresh scope-tracking visitor, every
    /// native-language site and non-predicate stage passes through unchanged,
    /// and the walk reaches the predicate sites of nested pipelines.  The
    /// pass cannot fail: the result is always `Ok`.
    pub fn apply(&self, pipeline: Vec<Stage>) -> (r: Result<Vec<Stage>, Error>)
        ensures
            r is Ok,
            stages_view(r->Ok_0@) == locate_stages(stages_view(pipeline@)),
    {
        let visitor = FilterStageDesugarerVisitor {};
        let stage = visitor.visit_pipeline(pipeline);
        Ok(stage)
    }
}

} // verus!
