//! The exposed boundary operations around a reading routine: a whole-buffer
//! read that succeeds only when the routine consumes the entire buffer, and
//! a scoping operation that wraps any escaping error with a named operation
//! context before further propagation.

use vstd::prelude::*;

use crate::expected::{Expected, ExpectedLength};
use crate::input::{Input, InputModel};
use crate::traits::{Details, FromContext};

verus! {

/// What a whole-buffer read over `input` returns, given what its reading
/// routine returned: the routine's value when it consumed everything; a
/// fatal length error with both bounds zero, naming the leftover, when it
/// did not; and the routine's own error, untouched, when the routine itself
/// failed.
pub open spec fn read_all_post<T>(
    input: InputModel,
    res: Result<(T, Input), Expected>,
    r: Result<T, Expected>,
) -> bool {
    match res {
        Ok((value, rest)) => {
            if rest@.bytes.len() == 0 {
                r == Ok::<T, Expected>(value)
            } else {
                r matches Err(Expected::Length(le)) && le.min_spec() == 0 && le.max_spec() == Some(
                    0int,
                ) && le.input_m() == input && le.span_m() == (if rest@.is_within(input) {
                    rest@
                } else {
                    input
                }) && le.ops() == seq!["read all"@]
            }
        },
        Err(inner) => r == Err::<T, Expected>(inner),
    }
}

/// Run a whole-buffer reading routine over `input`. The routine hands back
/// its value together with the input it has not consumed; the read succeeds
/// only if nothing is left over. A leftover is reported as a length error
/// with a minimum and maximum of zero — none expected but some found — which
/// is fatal.
pub fn read_all<T, F: FnOnce(Input) -> Result<(T, Input), Expected>>(input: Input, f: F) -> (r:
    Result<T, Expected>)
    requires
        call_requires(f, (input,)),
    ensures
        exists|res: Result<(T, Input), Expected>|
            #[trigger] call_ensures(f, (input,), res) && read_all_post(input@, res, r),
{
    let whole = input.clone();
    let res = f(input);
    let ghost routine_result = res;
    let r = match res {
        Ok((value, rest)) => {
            if rest.is_empty() {
                Ok(value)
            } else {
                let span = if rest.is_within(&whole) {
                    rest
                } else {
                    whole.clone()
                };
                Err(Expected::Length(ExpectedLength::new(0, Some(0), span, whole, "read all")))
            }
        },
        Err(e) => Err(e),
    };
    proof {
        assert(call_ensures(f, (input,), routine_result) && read_all_post(
            input@,
            routine_result,
            r,
        ));
    }
    r
}

/// Run `f` as the named operation over `input`: any escaping error is
/// wrapped with the (input, operation) pair before further propagation, so
/// an outer operation can annotate an inner failure without knowing its
/// concrete kind.
pub fn with_context<T, E: FromContext, F: FnOnce() -> Result<T, E>>(
    input: Input,
    operation: &'static str,
    f: F,
) -> (r: Result<T, E>)
    requires
        call_requires(f, ()),
    ensures
        r matches Ok(t) ==> call_ensures(f, (), Ok(t)),
        r matches Err(e) ==> exists|e0: E|
            #[trigger] call_ensures(f, (), Err(e0)) && e0.from_context_post(
                input@,
                operation@,
                e,
            ),
{
    match f() {
        Ok(value) => Ok(value),
        Err(e) => Err(e.from_context(input, operation)),
    }
}

} // verus!
