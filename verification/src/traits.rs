//! The error capabilities: named operation contexts, the uniform read-only
//! `Details` view over any error kind, context absorption (`FromContext`),
//! and construction from the concrete kinds (`FromExpected`). The zero-cost
//! [`Invalid`] error implements the same capabilities with no-op context
//! collection, so the same reading code runs with or without diagnostics.

use vstd::prelude::*;

use crate::expected::{ExpectedLength, ExpectedValid, ExpectedValue};
use crate::input::{Input, InputModel};
use crate::retry::RetryRequirement;

verus! {

/// A named marker describing which enclosing operation was in progress when
/// an error occurred; minimally a static operation-name label.
pub trait Context: Sized {
    /// The operation label.
    spec fn operation_spec(&self) -> Seq<char>;

    /// The operation label.
    fn operation(&self) -> (r: &'static str)
        ensures
            r@ == self.operation_spec(),
    ;
}

impl Context for &'static str {
    open spec fn operation_spec(&self) -> Seq<char> {
        (*self)@
    }

    fn operation(&self) -> (r: &'static str) {
        *self
    }
}

/// The uniform read-only view over any error kind: whole input, failing
/// span, operation chain, found/expected values, description fragment and
/// retry requirement.
pub trait Details {
    /// Model of the input in its entirety that was being processed when the
    /// error occurred.
    spec fn input_m(&self) -> InputModel;

    /// Model of the specific failing section of the input.
    spec fn span_m(&self) -> InputModel;

    /// Operation labels, innermost first: first the operation that failed,
    /// then each wrapping context in the order it was attached.
    spec fn ops(&self) -> Seq<Seq<char>>;

    /// Model of the value that was found, if applicable.
    spec fn found_m(&self) -> Option<InputModel>;

    /// Model of the value that was expected, if applicable.
    spec fn expected_m(&self) -> Option<InputModel>;

    /// The description fragment of what went wrong.
    spec fn description_spec(&self) -> Seq<char>;

    /// The number of additional bytes required before a retry could
    /// succeed, or nothing when the failure is fatal.
    spec fn retry_amount(&self) -> Option<int>;

    /// The input in its entirety that was being processed.
    fn input(&self) -> (r: &Input)
        ensures
            r@ == self.input_m(),
    ;

    /// The specific failing section of the input.
    fn span(&self) -> (r: &Input)
        ensures
            r@ == self.span_m(),
    ;

    /// The label of the innermost operation, the one that failed.
    fn context(&self) -> (r: &'static str)
        ensures
            r@ == self.ops()[0],
    ;

    /// The value that was found, if applicable.
    fn found_value(&self) -> (r: Option<&Input>)
        ensures
            r is Some <==> self.found_m() is Some,
            r matches Some(v) ==> self.found_m() == Some(v@),
    ;

    /// The value that was expected, if applicable.
    fn expected_value(&self) -> (r: Option<&Input>)
        ensures
            r is Some <==> self.expected_m() is Some,
            r matches Some(v) ==> self.expected_m() == Some(v@),
    ;

    /// The description of what went wrong: a lowercase, punctuation-free
    /// fragment.
    fn description(&self) -> (r: String)
        ensures
            r@ == self.description_spec(),
    ;

    /// The retry requirement: how many more bytes could let the failed read
    /// succeed, or nothing when no amount of additional input would help.
    fn retry_requirement(&self) -> (r: Option<RetryRequirement>)
        ensures
            r is Some <==> self.retry_amount() is Some,
            r matches Some(rr) ==> Some(rr.amount_spec()) == self.retry_amount(),
    ;
}

/// Implemented by error types that absorb a wrapping (input, context) pair
/// as they propagate out of nested operations.
pub trait FromContext: Sized {
    /// What wrapping observably does: relates the error before wrapping, the
    /// wrapping input and operation label, and the error after wrapping.
    spec fn from_context_post(self, input: InputModel, op: Seq<char>, r: Self) -> bool;

    /// Wrap with an (input, context) pair while propagating. The kind of the
    /// error never changes; a diagnostic-free error type makes this a no-op.
    fn from_context<C: Context>(self, input: Input, context: C) -> (r: Self)
        ensures
            self.from_context_post(input@, context.operation_spec(), r),
    ;
}

/// Implemented by error types constructible from each concrete error kind.
pub trait FromExpected: From<ExpectedValue> + From<ExpectedLength> + From<
    ExpectedValid,
> {

}

/// The full requirement on a reading operation's error type: constructible
/// from every concrete kind, and able to absorb contexts while propagating.
pub trait Error: FromContext + FromExpected {

}

/// The fast error representation: it records nothing, so reading code
/// instantiated with it pays no diagnostic cost at all. Wrapping with a
/// context is a guaranteed no-op.
#[derive(Clone, Copy, Debug, PartialEq, Eq, Structural)]
pub struct Invalid;

impl FromContext for Invalid {
    open spec fn from_context_post(self, input: InputModel, op: Seq<char>, r: Self) -> bool {
        r == self
    }

    fn from_context<C: Context>(self, input: Input, context: C) -> (r: Self) {
        self
    }
}

impl From<ExpectedValue> for Invalid {
    fn from(err: ExpectedValue) -> (r: Self) {
        Invalid
    }
}

impl vstd::std_specs::convert::FromSpecImpl<ExpectedValue> for Invalid {
    open spec fn obeys_from_spec() -> bool {
        true
    }

    open spec fn from_spec(err: ExpectedValue) -> Self {
        Invalid
    }
}

impl From<ExpectedLength> for Invalid {
    fn from(err: ExpectedLength) -> (r: Self) {
        Invalid
    }
}

impl vstd::std_specs::convert::FromSpecImpl<ExpectedLength> for Invalid {
    open spec fn obeys_from_spec() -> bool {
        true
    }

    open spec fn from_spec(err: ExpectedLength) -> Self {
        Invalid
    }
}

impl From<ExpectedValid> for Invalid {
    fn from(err: ExpectedValid) -> (r: Self) {
        Invalid
    }
}

impl vstd::std_specs::convert::FromSpecImpl<ExpectedValid> for Invalid {
    open spec fn obeys_from_spec() -> bool {
        true
    }

    open spec fn from_spec(err: ExpectedValid) -> Self {
        Invalid
    }
}

impl FromExpected for Invalid {

}

impl Error for Invalid {

}

} // verus!
