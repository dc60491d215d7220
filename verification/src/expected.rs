//! The closed error taxonomy: an exact value that was not found
//! ([`ExpectedValue`]), a length constraint that was violated
//! ([`ExpectedLength`]), and a decoded value that failed a validity check
//! ([`ExpectedValid`]), together with the catch-all [`Expected`] union that
//! forwards the [`Details`] capability to whichever kind is active.
//!
//! Every kind keeps a failing span contained in its overall input; when a
//! wrapping operation supplies a broader input, the input is widened to it
//! only if the current input is itself contained in the new one.

use vstd::prelude::*;

use crate::input::{lemma_within_transitive, Input, InputModel};
use crate::render::{
    length_description, length_description_string, render_parts, render_spec, spec_opt_int,
};
use crate::retry::{retry_amount_from, RetryRequirement};
use crate::traits::{Context, Details, Error, FromContext, FromExpected};

verus! {

/// Build the walkable operation chain, innermost first: the failing
/// operation itself, then each wrapping context in the order it was
/// attached.
fn chain_vec(operation: &'static str, rest: &Vec<&'static str>) -> (r: Vec<&'static str>)
    ensures
        r@ == seq![operation] + rest@,
{
    let mut chain: Vec<&'static str> = Vec::new();
    chain.push(operation);
    let mut i: usize = 0;
    proof {
        assert(chain@ =~= (seq![operation] + rest@).take(1));
    }
    while i < rest.len()
        invariant
            0 <= i <= rest@.len(),
            chain@ == (seq![operation] + rest@).take(i as int + 1),
        decreases rest@.len() - i,
    {
        let op: &'static str = rest[i];
        chain.push(op);
        proof {
            assert(chain@ =~= (seq![operation] + rest@).take(i as int + 2));
        }
        i += 1;
    }
    proof {
        assert(chain@ =~= seq![operation] + rest@);
    }
    chain
}

/// An error representing a failed exact value requirement.
#[derive(Debug)]
pub struct ExpectedValue {
    value: Input,
    span: Input,
    input: Input,
    operation: &'static str,
    context_ops: Vec<&'static str>,
}

impl ExpectedValue {
    #[verifier::type_invariant]
    spec fn type_inv(self) -> bool {
        self.span@.is_within(self.input@)
    }

    /// Construct the error at the point the mismatch is detected: the exact
    /// `value` that was required, the failing `span`, the overall `input`,
    /// and the name of the failing operation.
    pub fn new(value: Input, span: Input, input: Input, operation: &'static str) -> (r: Self)
        requires
            span@.is_within(input@),
        ensures
            r.input_m() == input@,
            r.span_m() == span@,
            r.expected_m() == Some(value@),
            r.ops() == seq![operation@],
    {
        let r = ExpectedValue { value, span, input, operation, context_ops: Vec::new() };
        proof {
            assert(r.ops() =~= seq![operation@]);
        }
        r
    }

    /// The value that was expected.
    pub fn expected(&self) -> (r: &Input)
        ensures
            Some(r@) == self.expected_m(),
    {
        &self.value
    }

    /// Widen the overall input to `input`, only if the current input is
    /// itself contained in `input`.
    pub fn update_input(&mut self, input: &Input)
        ensures
            final(self).input_m() == (if old(self).input_m().is_within(input@) {
                input@
            } else {
                old(self).input_m()
            }),
            final(self).span_m() == old(self).span_m(),
            final(self).expected_m() == old(self).expected_m(),
            final(self).ops() == old(self).ops(),
    {
        proof {
            use_type_invariant(&*self);
        }
        if self.input.is_within(input) {
            proof {
                lemma_within_transitive(self.span@, self.input@, input@);
            }
            self.input = input.clone();
        }
    }

    /// The whole rendered report for this error.
    pub open spec fn display_spec(&self) -> Seq<char> {
        render_spec(
            self.description_spec(),
            self.span_m().start - self.input_m().start,
            self.span_m().len(),
            self.found_m(),
            self.expected_m(),
            self.ops(),
        )
    }

    /// Render the report described by [`ExpectedValue::display_spec`].
    pub fn display(&self) -> (r: String)
        ensures
            r@ == self.display_spec(),
    {
        proof {
            use_type_invariant(self);
        }
        let desc = self.description();
        let rel = self.span.start_offset() - self.input.start_offset();
        render_parts(
            &desc,
            rel,
            self.span.len(),
            Some(&self.span),
            Some(&self.value),
            self.operation,
            &self.context_ops,
        )
    }

    /// The walkable context stack: every operation label, innermost first.
    pub fn context_stack(&self) -> (r: Vec<&'static str>)
        ensures
            r@.map_values(|s: &'static str| s@) == self.ops(),
    {
        let r = chain_vec(self.operation, &self.context_ops);
        proof {
            assert(r@.map_values(|s: &'static str| s@) =~= self.ops());
        }
        r
    }
}

impl Details for ExpectedValue {
    closed spec fn input_m(&self) -> InputModel {
        self.input@
    }

    closed spec fn span_m(&self) -> InputModel {
        self.span@
    }

    closed spec fn ops(&self) -> Seq<Seq<char>> {
        seq![self.operation@] + self.context_ops@.map_values(|s: &'static str| s@)
    }

    open spec fn found_m(&self) -> Option<InputModel> {
        Some(self.span_m())
    }

    closed spec fn expected_m(&self) -> Option<InputModel> {
        Some(self.value@)
    }

    open spec fn description_spec(&self) -> Seq<char> {
        "found a different value to the exact expected"@
    }

    /// Recoverable only by the shortage against the expected value's length.
    open spec fn retry_amount(&self) -> Option<int> {
        retry_amount_from(self.span_m().len(), self.expected_m().unwrap().len())
    }

    fn input(&self) -> (r: &Input) {
        &self.input
    }

    fn span(&self) -> (r: &Input) {
        &self.span
    }

    fn context(&self) -> (r: &'static str) {
        self.operation
    }

    fn found_value(&self) -> (r: Option<&Input>) {
        Some(&self.span)
    }

    fn expected_value(&self) -> (r: Option<&Input>) {
        Some(&self.value)
    }

    fn description(&self) -> (r: String) {
        String::from_str("found a different value to the exact expected")
    }

    fn retry_requirement(&self) -> (r: Option<RetryRequirement>) {
        RetryRequirement::from_had_and_needed(self.span.len(), self.value.len())
    }
}

impl FromContext for ExpectedValue {
    open spec fn from_context_post(self, input: InputModel, op: Seq<char>, r: Self) -> bool {
        &&& r.input_m() == (if self.input_m().is_within(input) {
            input
        } else {
            self.input_m()
        })
        &&& r.span_m() == self.span_m()
        &&& r.expected_m() == self.expected_m()
        &&& r.ops() == self.ops().push(op)
    }

    fn from_context<C: Context>(self, input: Input, context: C) -> (r: Self) {
        let ghost orig = self;
        let mut e = self;
        e.update_input(&input);
        let op: &'static str = context.operation();
        proof {
            use_type_invariant(&e);
        }
        let ExpectedValue { value, span, input: whole, operation, context_ops: mut chain } = e;
        chain.push(op);
        let r = ExpectedValue { value, span, input: whole, operation, context_ops: chain };
        proof {
            assert(r.ops() =~= orig.ops().push(op@));
        }
        r
    }
}

/// An error representing a failed length requirement: at least `min` bytes,
/// and — when a maximum applies — at most `max` bytes. A present maximum
/// means the input exceeded it in some way, which no amount of additional
/// input can mend.
#[derive(Debug)]
pub struct ExpectedLength {
    min: usize,
    max: Option<usize>,
    span: Input,
    input: Input,
    operation: &'static str,
    context_ops: Vec<&'static str>,
}

impl ExpectedLength {
    #[verifier::type_invariant]
    spec fn type_inv(self) -> bool {
        self.span@.is_within(self.input@)
    }

    /// The minimum length that was expected.
    pub closed spec fn min_spec(self) -> int {
        self.min as int
    }

    /// The maximum length that was expected, if applicable.
    pub closed spec fn max_spec(self) -> Option<int> {
        spec_opt_int(self.max)
    }

    /// True when an exact length was expected: both bounds present and equal.
    pub open spec fn is_exact_spec(self) -> bool {
        self.max_spec() == Some(self.min_spec())
    }

    /// Construct the error at the point the violation is detected: the
    /// violated bounds, the failing `span`, the overall `input`, and the
    /// name of the failing operation.
    pub fn new(
        min: usize,
        max: Option<usize>,
        span: Input,
        input: Input,
        operation: &'static str,
    ) -> (r: Self)
        requires
            span@.is_within(input@),
        ensures
            r.input_m() == input@,
            r.span_m() == span@,
            r.min_spec() == min,
            r.max_spec() == spec_opt_int(max),
            r.ops() == seq![operation@],
    {
        let r = ExpectedLength { min, max, span, input, operation, context_ops: Vec::new() };
        proof {
            assert(r.ops() =~= seq![operation@]);
        }
        r
    }

    /// The minimum length that was expected.
    ///
    /// This does not take into account the section of input being processed
    /// when the error occurred; to work out the requirement to continue, use
    /// [`Details::retry_requirement`].
    pub fn min(&self) -> (r: usize)
        ensures
            r == self.min_spec(),
    {
        self.min
    }

    /// The maximum length that was expected, if applicable. A present value
    /// signifies the input exceeded it in some way.
    pub fn max(&self) -> (r: Option<usize>)
        ensures
            spec_opt_int(r) == self.max_spec(),
    {
        self.max
    }

    /// True when an exact length was expected.
    pub fn is_exact(&self) -> (r: bool)
        ensures
            r == self.is_exact_spec(),
    {
        match self.max {
            Some(m) => m == self.min,
            None => false,
        }
    }

    /// True when a maximum applies: the failure can never be recovered by
    /// waiting for more input.
    pub fn is_fatal(&self) -> (r: bool)
        ensures
            r == (self.max_spec() is Some),
    {
        self.max.is_some()
    }

    /// The exact length that was expected: a value precisely when an exact
    /// length was expected, and then the shared bound itself.
    pub fn exact(&self) -> (r: Option<usize>)
        ensures
            r is Some <==> self.is_exact_spec(),
            r matches Some(v) ==> v == self.min_spec() && Some(v as int) == self.max_spec(),
    {
        if self.is_exact() {
            self.max
        } else {
            None
        }
    }

    /// Widen the overall input to `input`, only if the current input is
    /// itself contained in `input`.
    pub fn update_input(&mut self, input: &Input)
        ensures
            final(self).input_m() == (if old(self).input_m().is_within(input@) {
                input@
            } else {
                old(self).input_m()
            }),
            final(self).span_m() == old(self).span_m(),
            final(self).min_spec() == old(self).min_spec(),
            final(self).max_spec() == old(self).max_spec(),
            final(self).ops() == old(self).ops(),
    {
        proof {
            use_type_invariant(&*self);
        }
        if self.input.is_within(input) {
            proof {
                lemma_within_transitive(self.span@, self.input@, input@);
            }
            self.input = input.clone();
        }
    }

    /// The whole rendered report for this error.
    pub open spec fn display_spec(&self) -> Seq<char> {
        render_spec(
            self.description_spec(),
            self.span_m().start - self.input_m().start,
            self.span_m().len(),
            self.found_m(),
            self.expected_m(),
            self.ops(),
        )
    }

    /// Render the report described by [`ExpectedLength::display_spec`].
    pub fn display(&self) -> (r: String)
        ensures
            r@ == self.display_spec(),
    {
        proof {
            use_type_invariant(self);
        }
        let desc = self.description();
        let rel = self.span.start_offset() - self.input.start_offset();
        render_parts(
            &desc,
            rel,
            self.span.len(),
            Some(&self.input),
            None,
            self.operation,
            &self.context_ops,
        )
    }

    /// The walkable context stack: every operation label, innermost first.
    pub fn context_stack(&self) -> (r: Vec<&'static str>)
        ensures
            r@.map_values(|s: &'static str| s@) == self.ops(),
    {
        let r = chain_vec(self.operation, &self.context_ops);
        proof {
            assert(r@.map_values(|s: &'static str| s@) =~= self.ops());
        }
        r
    }
}

impl Details for ExpectedLength {
    closed spec fn input_m(&self) -> InputModel {
        self.input@
    }

    closed spec fn span_m(&self) -> InputModel {
        self.span@
    }

    closed spec fn ops(&self) -> Seq<Seq<char>> {
        seq![self.operation@] + self.context_ops@.map_values(|s: &'static str| s@)
    }

    open spec fn found_m(&self) -> Option<InputModel> {
        Some(self.input_m())
    }

    open spec fn expected_m(&self) -> Option<InputModel> {
        None
    }

    open spec fn description_spec(&self) -> Seq<char> {
        length_description(self.min_spec(), self.max_spec(), self.span_m().len())
    }

    /// A present maximum is fatal; otherwise the shortage against `min`.
    open spec fn retry_amount(&self) -> Option<int> {
        if self.max_spec() is Some {
            None
        } else {
            retry_amount_from(self.span_m().len(), self.min_spec())
        }
    }

    fn input(&self) -> (r: &Input) {
        &self.input
    }

    fn span(&self) -> (r: &Input) {
        &self.span
    }

    fn context(&self) -> (r: &'static str) {
        self.operation
    }

    fn found_value(&self) -> (r: Option<&Input>) {
        Some(&self.input)
    }

    fn expected_value(&self) -> (r: Option<&Input>) {
        None
    }

    fn description(&self) -> (r: String) {
        length_description_string(self.min, self.max, self.span.len())
    }

    fn retry_requirement(&self) -> (r: Option<RetryRequirement>) {
        if self.max.is_some() {
            None
        } else {
            RetryRequirement::from_had_and_needed(self.span.len(), self.min)
        }
    }
}

impl FromContext for ExpectedLength {
    open spec fn from_context_post(self, input: InputModel, op: Seq<char>, r: Self) -> bool {
        &&& r.input_m() == (if self.input_m().is_within(input) {
            input
        } else {
            self.input_m()
        })
        &&& r.span_m() == self.span_m()
        &&& r.min_spec() == self.min_spec()
        &&& r.max_spec() == self.max_spec()
        &&& r.ops() == self.ops().push(op)
    }

    fn from_context<C: Context>(self, input: Input, context: C) -> (r: Self) {
        let ghost orig = self;
        let mut e = self;
        e.update_input(&input);
        let op: &'static str = context.operation();
        proof {
            use_type_invariant(&e);
        }
        let ExpectedLength { min, max, span, input: whole, operation, context_ops: mut chain } = e;
        chain.push(op);
        let r = ExpectedLength { min, max, span, input: whole, operation, context_ops: chain };
        proof {
            assert(r.ops() =~= orig.ops().push(op@));
        }
        r
    }
}

/// An error representing a decoded value that failed a validity check. The
/// check is not a simple length comparison, so the retry requirement is
/// supplied, precomputed, by the operation that detected the failure.
#[derive(Debug)]
pub struct ExpectedValid {
    span: Input,
    input: Input,
    operation: &'static str,
    expected: &'static str,
    retry: Option<RetryRequirement>,
    context_ops: Vec<&'static str>,
}

impl ExpectedValid {
    #[verifier::type_invariant]
    spec fn type_inv(self) -> bool {
        self.span@.is_within(self.input@)
    }

    /// The static description of the expected-valid thing.
    pub closed spec fn expected_text(self) -> Seq<char> {
        self.expected@
    }

    /// The caller-supplied retry requirement.
    pub closed spec fn stored_retry(self) -> Option<RetryRequirement> {
        self.retry
    }

    /// Construct the error at the point the validity check fails: the
    /// failing `span`, the overall `input`, the name of the failing
    /// operation, a static description of what would have been valid, and
    /// the precomputed retry requirement.
    pub fn new(
        span: Input,
        input: Input,
        operation: &'static str,
        expected: &'static str,
        retry: Option<RetryRequirement>,
    ) -> (r: Self)
        requires
            span@.is_within(input@),
        ensures
            r.input_m() == input@,
            r.span_m() == span@,
            r.expected_text() == expected@,
            r.stored_retry() == retry,
            r.ops() == seq![operation@],
    {
        let r = ExpectedValid { span, input, operation, expected, retry, context_ops: Vec::new() };
        proof {
            assert(r.ops() =~= seq![operation@]);
        }
        r
    }

    /// Widen the overall input to `input`, only if the current input is
    /// itself contained in `input`.
    pub fn update_input(&mut self, input: &Input)
        ensures
            final(self).input_m() == (if old(self).input_m().is_within(input@) {
                input@
            } else {
                old(self).input_m()
            }),
            final(self).span_m() == old(self).span_m(),
            final(self).expected_text() == old(self).expected_text(),
            final(self).stored_retry() == old(self).stored_retry(),
            final(self).ops() == old(self).ops(),
    {
        proof {
            use_type_invariant(&*self);
        }
        if self.input.is_within(input) {
            proof {
                lemma_within_transitive(self.span@, self.input@, input@);
            }
            self.input = input.clone();
        }
    }

    /// The whole rendered report for this error.
    pub open spec fn display_spec(&self) -> Seq<char> {
        render_spec(
            self.description_spec(),
            self.span_m().start - self.input_m().start,
            self.span_m().len(),
            self.found_m(),
            self.expected_m(),
            self.ops(),
        )
    }

    /// Render the report described by [`ExpectedValid::display_spec`].
    pub fn display(&self) -> (r: String)
        ensures
            r@ == self.display_spec(),
    {
        proof {
            use_type_invariant(self);
        }
        let desc = self.description();
        let rel = self.span.start_offset() - self.input.start_offset();
        render_parts(
            &desc,
            rel,
            self.span.len(),
            Some(&self.input),
            None,
            self.operation,
            &self.context_ops,
        )
    }

    /// The walkable context stack: every operation label, innermost first.
    pub fn context_stack(&self) -> (r: Vec<&'static str>)
        ensures
            r@.map_values(|s: &'static str| s@) == self.ops(),
    {
        let r = chain_vec(self.operation, &self.context_ops);
        proof {
            assert(r@.map_values(|s: &'static str| s@) =~= self.ops());
        }
        r
    }
}

impl Details for ExpectedValid {
    closed spec fn input_m(&self) -> InputModel {
        self.input@
    }

    closed spec fn span_m(&self) -> InputModel {
        self.span@
    }

    closed spec fn ops(&self) -> Seq<Seq<char>> {
        seq![self.operation@] + self.context_ops@.map_values(|s: &'static str| s@)
    }

    open spec fn found_m(&self) -> Option<InputModel> {
        Some(self.input_m())
    }

    open spec fn expected_m(&self) -> Option<InputModel> {
        None
    }

    open spec fn description_spec(&self) -> Seq<char> {
        "invalid "@ + self.expected_text()
    }

    /// Exactly the precomputed requirement supplied at construction.
    open spec fn retry_amount(&self) -> Option<int> {
        match self.stored_retry() {
            Some(rr) => Some(rr.amount_spec()),
            None => None,
        }
    }

    fn input(&self) -> (r: &Input) {
        &self.input
    }

    fn span(&self) -> (r: &Input) {
        &self.span
    }

    fn context(&self) -> (r: &'static str) {
        self.operation
    }

    fn found_value(&self) -> (r: Option<&Input>) {
        Some(&self.input)
    }

    fn expected_value(&self) -> (r: Option<&Input>) {
        None
    }

    fn description(&self) -> (r: String) {
        let mut s = String::from_str("invalid ");
        s.append(self.expected);
        s
    }

    fn retry_requirement(&self) -> (r: Option<RetryRequirement>) {
        self.retry
    }
}

impl FromContext for ExpectedValid {
    open spec fn from_context_post(self, input: InputModel, op: Seq<char>, r: Self) -> bool {
        &&& r.input_m() == (if self.input_m().is_within(input) {
            input
        } else {
            self.input_m()
        })
        &&& r.span_m() == self.span_m()
        &&& r.expected_text() == self.expected_text()
        &&& r.stored_retry() == self.stored_retry()
        &&& r.ops() == self.ops().push(op)
    }

    fn from_context<C: Context>(self, input: Input, context: C) -> (r: Self) {
        let ghost orig = self;
        let mut e = self;
        e.update_input(&input);
        let op: &'static str = context.operation();
        proof {
            use_type_invariant(&e);
        }
        let ExpectedValid {
            span,
            input: whole,
            operation,
            expected,
            retry,
            context_ops: mut chain,
        } = e;
        chain.push(op);
        let r = ExpectedValid {
            span,
            input: whole,
            operation,
            expected,
            retry,
            context_ops: chain,
        };
        proof {
            assert(r.ops() =~= orig.ops().push(op@));
        }
        r
    }
}

/// A catch-all union of every error kind this library produces. It forwards
/// the whole [`Details`] capability to whichever kind is active — the only
/// dispatch point needed, since the set of kinds is closed.
#[derive(Debug)]
pub enum Expected {
    /// An exact value was expected in a context.
    Value(ExpectedValue),
    /// A valid value was expected in a context.
    Valid(ExpectedValid),
    /// A length was expected in a context.
    Length(ExpectedLength),
}

impl Expected {
    /// Widen the overall input of the active kind to `input`, only if the
    /// current input is itself contained in `input`. The kind never changes,
    /// and neither does anything the kind reports except the input itself.
    pub fn update_input(&mut self, input: &Input)
        ensures
            final(self).input_m() == (if old(self).input_m().is_within(input@) {
                input@
            } else {
                old(self).input_m()
            }),
            final(self).span_m() == old(self).span_m(),
            final(self).expected_m() == old(self).expected_m(),
            final(self).ops() == old(self).ops(),
            final(self).description_spec() == old(self).description_spec(),
            final(self).retry_amount() == old(self).retry_amount(),
            (*final(self)) is Value <==> (*old(self)) is Value,
            (*final(self)) is Valid <==> (*old(self)) is Valid,
            (*final(self)) is Length <==> (*old(self)) is Length,
    {
        match self {
            Expected::Value(e) => e.update_input(input),
            Expected::Valid(e) => e.update_input(input),
            Expected::Length(e) => e.update_input(input),
        }
    }

    /// The whole rendered report for the active kind.
    pub open spec fn display_spec(&self) -> Seq<char> {
        match self {
            Expected::Value(e) => e.display_spec(),
            Expected::Valid(e) => e.display_spec(),
            Expected::Length(e) => e.display_spec(),
        }
    }

    /// Render the report described by [`Expected::display_spec`].
    pub fn display(&self) -> (r: String)
        ensures
            r@ == self.display_spec(),
    {
        match self {
            Expected::Value(e) => e.display(),
            Expected::Valid(e) => e.display(),
            Expected::Length(e) => e.display(),
        }
    }

    /// The walkable context stack of the active kind: every operation label,
    /// innermost first.
    pub fn context_stack(&self) -> (r: Vec<&'static str>)
        ensures
            r@.map_values(|s: &'static str| s@) == self.ops(),
    {
        match self {
            Expected::Value(e) => e.context_stack(),
            Expected::Valid(e) => e.context_stack(),
            Expected::Length(e) => e.context_stack(),
        }
    }
}

impl Details for Expected {
    open spec fn input_m(&self) -> InputModel {
        match self {
            Expected::Value(e) => e.input_m(),
            Expected::Valid(e) => e.input_m(),
            Expected::Length(e) => e.input_m(),
        }
    }

    open spec fn span_m(&self) -> InputModel {
        match self {
            Expected::Value(e) => e.span_m(),
            Expected::Valid(e) => e.span_m(),
            Expected::Length(e) => e.span_m(),
        }
    }

    open spec fn ops(&self) -> Seq<Seq<char>> {
        match self {
            Expected::Value(e) => e.ops(),
            Expected::Valid(e) => e.ops(),
            Expected::Length(e) => e.ops(),
        }
    }

    open spec fn found_m(&self) -> Option<InputModel> {
        match self {
            Expected::Value(e) => e.found_m(),
            Expected::Valid(e) => e.found_m(),
            Expected::Length(e) => e.found_m(),
        }
    }

    open spec fn expected_m(&self) -> Option<InputModel> {
        match self {
            Expected::Value(e) => e.expected_m(),
            Expected::Valid(e) => e.expected_m(),
            Expected::Length(e) => e.expected_m(),
        }
    }

    open spec fn description_spec(&self) -> Seq<char> {
        match self {
            Expected::Value(e) => e.description_spec(),
            Expected::Valid(e) => e.description_spec(),
            Expected::Length(e) => e.description_spec(),
        }
    }

    open spec fn retry_amount(&self) -> Option<int> {
        match self {
            Expected::Value(e) => e.retry_amount(),
            Expected::Valid(e) => e.retry_amount(),
            Expected::Length(e) => e.retry_amount(),
        }
    }

    fn input(&self) -> (r: &Input) {
        match self {
            Expected::Value(e) => e.input(),
            Expected::Valid(e) => e.input(),
            Expected::Length(e) => e.input(),
        }
    }

    fn span(&self) -> (r: &Input) {
        match self {
            Expected::Value(e) => e.span(),
            Expected::Valid(e) => e.span(),
            Expected::Length(e) => e.span(),
        }
    }

    fn context(&self) -> (r: &'static str) {
        match self {
            Expected::Value(e) => e.context(),
            Expected::Valid(e) => e.context(),
            Expected::Length(e) => e.context(),
        }
    }

    fn found_value(&self) -> (r: Option<&Input>) {
        match self {
            Expected::Value(e) => e.found_value(),
            Expected::Valid(e) => e.found_value(),
            Expected::Length(e) => e.found_value(),
        }
    }

    fn expected_value(&self) -> (r: Option<&Input>) {
        match self {
            Expected::Value(e) => e.expected_value(),
            Expected::Valid(e) => e.expected_value(),
            Expected::Length(e) => e.expected_value(),
        }
    }

    fn description(&self) -> (r: String) {
        match self {
            Expected::Value(e) => e.description(),
            Expected::Valid(e) => e.description(),
            Expected::Length(e) => e.description(),
        }
    }

    fn retry_requirement(&self) -> (r: Option<RetryRequirement>) {
        match self {
            Expected::Value(e) => e.retry_requirement(),
            Expected::Valid(e) => e.retry_requirement(),
            Expected::Length(e) => e.retry_requirement(),
        }
    }
}

impl FromContext for Expected {
    /// Wrapping never changes the kind; the active kind absorbs the pair.
    open spec fn from_context_post(self, input: InputModel, op: Seq<char>, r: Self) -> bool {
        match (self, r) {
            (Expected::Value(a), Expected::Value(b)) => a.from_context_post(input, op, b),
            (Expected::Valid(a), Expected::Valid(b)) => a.from_context_post(input, op, b),
            (Expected::Length(a), Expected::Length(b)) => a.from_context_post(input, op, b),
            _ => false,
        }
    }

    fn from_context<C: Context>(self, input: Input, context: C) -> (r: Self) {
        match self {
            Expected::Value(e) => Expected::Value(e.from_context(input, context)),
            Expected::Valid(e) => Expected::Valid(e.from_context(input, context)),
            Expected::Length(e) => Expected::Length(e.from_context(input, context)),
        }
    }
}

impl From<ExpectedValue> for Expected {
    fn from(err: ExpectedValue) -> (r: Self) {
        Expected::Value(err)
    }
}

impl vstd::std_specs::convert::FromSpecImpl<ExpectedValue> for Expected {
    open spec fn obeys_from_spec() -> bool {
        true
    }

    open spec fn from_spec(err: ExpectedValue) -> Self {
        Expected::Value(err)
    }
}

impl From<ExpectedValid> for Expected {
    fn from(err: ExpectedValid) -> (r: Self) {
        Expected::Valid(err)
    }
}

impl vstd::std_specs::convert::FromSpecImpl<ExpectedValid> for Expected {
    open spec fn obeys_from_spec() -> bool {
        true
    }

    open spec fn from_spec(err: ExpectedValid) -> Self {
        Expected::Valid(err)
    }
}

impl From<ExpectedLength> for Expected {
    fn from(err: ExpectedLength) -> (r: Self) {
        Expected::Length(err)
    }
}

impl vstd::std_specs::convert::FromSpecImpl<ExpectedLength> for Expected {
    open spec fn obeys_from_spec() -> bool {
        true
    }

    open spec fn from_spec(err: ExpectedLength) -> Self {
        Expected::Length(err)
    }
}

impl FromExpected for Expected {

}

impl Error for Expected {

}

} // verus!
