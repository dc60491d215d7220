//! Laws that relate the library's operations to each other, stated over the
//! same models that the operations' own contracts use.

use vstd::prelude::*;

use crate::expected::{Expected, ExpectedLength};
use crate::input::InputModel;
use crate::traits::{Details, FromContext};

verus! {

/// Any length error with a maximum present is fatal: its retry requirement
/// is absent, regardless of its minimum or of how many bytes were found.
pub proof fn lemma_fatal_length_never_retries(e: &ExpectedLength)
    requires
        e.max_spec() is Some,
    ensures
        e.retry_amount() is None,
{
}

/// An exact length is expected precisely when both bounds are present and
/// equal; the exact length is then that shared bound, the minimum.
pub proof fn lemma_exact_length(e: &ExpectedLength)
    ensures
        e.is_exact_spec() <==> (e.max_spec() is Some && e.max_spec() == Some(e.min_spec())),
{
}

/// Context-wrap idempotence: wrapping an error with a context whose input
/// equals the error's current input leaves the span, the found value and
/// the input itself unchanged; only the operation chain grows.
pub proof fn lemma_context_wrap_same_input(
    e: Expected,
    input: InputModel,
    op: Seq<char>,
    r: Expected,
)
    requires
        input == e.input_m(),
        e.from_context_post(input, op, r),
    ensures
        r.span_m() == e.span_m(),
        r.found_m() == e.found_m(),
        r.input_m() == e.input_m(),
        r.ops() == e.ops().push(op),
{
}

/// The widening rule: wrapping with a broader input updates the error's
/// input to it exactly when the current input is contained within the new
/// one, and leaves the input unchanged otherwise; the span is never touched.
pub proof fn lemma_widening_rule(e: Expected, wider: InputModel, op: Seq<char>, r: Expected)
    requires
        e.from_context_post(wider, op, r),
    ensures
        e.input_m().is_within(wider) ==> r.input_m() == wider,
        !e.input_m().is_within(wider) ==> r.input_m() == e.input_m(),
        r.span_m() == e.span_m(),
        r.ops() == e.ops().push(op),
{
}

/// Context wrapping is order-preserving: the innermost failing operation's
/// label stays the first entry of the chain, and each wrap appends exactly
/// its own label at the outer end.
pub proof fn lemma_wrap_preserves_innermost(
    e: Expected,
    input: InputModel,
    op: Seq<char>,
    r: Expected,
)
    requires
        e.ops().len() > 0,
        e.from_context_post(input, op, r),
    ensures
        r.ops().len() == e.ops().len() + 1,
        r.ops()[0] == e.ops()[0],
        r.ops().last() == op,
{
}

/// Rendering stability: a report is a pure function of the error it
/// describes, so rendering the same error twice yields identical output.
pub proof fn lemma_render_stable(e: &Expected, first: Seq<char>, second: Seq<char>)
    requires
        first == e.display_spec(),
        second == e.display_spec(),
    ensures
        first == second,
{
}

} // verus!
