//! The prefix matcher: the capability answering "is this candidate at the
//! very start of that input", used by consume-literal operations. Candidates
//! are single bytes, characters (matched against byte inputs through their
//! multi-byte encoded form), byte slices, string slices and fixed-size byte
//! arrays; a reference to any implementor is itself an implementor.

use vstd::prelude::*;
use vstd::string::StrSliceExecFns;
use vstd::utf8::{char_is_scalar, encode_scalar, encode_utf8};

use crate::input::{Input, Text};

verus! {

/// Decide whether one byte sequence stands at the start of another.
fn starts_with_bytes(prefix: &[u8], data: &[u8]) -> (r: bool)
    ensures
        r == prefix@.is_prefix_of(data@),
{
    if prefix.len() > data.len() {
        return false;
    }
    let mut i: usize = 0;
    while i < prefix.len()
        invariant
            0 <= i <= prefix@.len() <= data@.len(),
            forall|k: int| 0 <= k < i ==> prefix@[k] == data@[k],
        decreases prefix@.len() - i,
    {
        if prefix[i] != data[i] {
            proof {
                assert(prefix@[i as int] != data@.subrange(0, prefix@.len() as int)[i as int]);
            }
            return false;
        }
        i += 1;
    }
    proof {
        assert(prefix@ =~= data@.subrange(0, prefix@.len() as int));
    }
    true
}

/// The multi-byte encoded form of a character.
pub fn encode_char(c: char) -> (r: Vec<u8>)
    ensures
        r@ == encode_scalar(c as u32),
{
    broadcast use char_is_scalar;

    let u = c as u32;
    let mut v: Vec<u8> = Vec::new();
    if u <= 0x7F {
        v.push((u & 0x7F) as u8);
    } else if u <= 0x7FF {
        v.push(0xC0u8 | (((u >> 6) & 0x1F) as u8));
        v.push(0x80u8 | ((u & 0x3F) as u8));
    } else if u <= 0xFFFF {
        v.push(0xE0u8 | (((u >> 12) & 0x0F) as u8));
        v.push(0x80u8 | (((u >> 6) & 0x3F) as u8));
        v.push(0x80u8 | ((u & 0x3F) as u8));
    } else {
        v.push(0xF0u8 | (((u >> 18) & 0x7) as u8));
        v.push(0x80u8 | (((u >> 12) & 0x3F) as u8));
        v.push(0x80u8 | (((u >> 6) & 0x3F) as u8));
        v.push(0x80u8 | ((u & 0x3F) as u8));
    }
    proof {
        assert(v@ =~= encode_scalar(u));
    }
    v
}

/// The capability answering "is this candidate a prefix of that input".
/// Kept distinct from ordinary value equality: a match is always anchored at
/// the very start of the input.
pub trait Prefix<I>: Sized {
    /// What a match means for this candidate kind.
    spec fn is_prefix_spec(self, input: &I) -> bool;

    /// Decide whether `self` is a prefix of `input`.
    fn is_prefix_of(self, input: &I) -> (r: bool)
        ensures
            r == self.is_prefix_spec(input),
    ;
}

/// A reference to any implementor also satisfies the capability, so owned
/// and borrowed candidates are interchangeable.
impl<I, T: Prefix<I> + Copy> Prefix<I> for &T {
    open spec fn is_prefix_spec(self, input: &I) -> bool {
        (*self).is_prefix_spec(input)
    }

    fn is_prefix_of(self, input: &I) -> (r: bool) {
        (*self).is_prefix_of(input)
    }
}

/// A byte matches a byte-range input by first-byte equality.
impl Prefix<Input> for u8 {
    open spec fn is_prefix_spec(self, input: &Input) -> bool {
        input@.bytes.len() >= 1 && input@.bytes[0] == self
    }

    fn is_prefix_of(self, input: &Input) -> (r: bool) {
        let data = input.as_dangerous();
        if data.len() == 0 {
            false
        } else {
            data[0] == self
        }
    }
}

/// A character matches a text input by first-character equality.
impl Prefix<Text> for char {
    open spec fn is_prefix_spec(self, input: &Text) -> bool {
        input@.chars.len() >= 1 && input@.chars[0] == self
    }

    fn is_prefix_of(self, input: &Text) -> (r: bool) {
        let chars = input.as_dangerous();
        if chars.len() == 0 {
            false
        } else {
            chars[0] == self
        }
    }
}

/// A character matches a byte-range input through its multi-byte encoded
/// form, compared as a byte prefix.
impl Prefix<Input> for char {
    open spec fn is_prefix_spec(self, input: &Input) -> bool {
        encode_scalar(self as u32).is_prefix_of(input@.bytes)
    }

    fn is_prefix_of(self, input: &Input) -> (r: bool) {
        let encoded = encode_char(self);
        starts_with_bytes(encoded.as_slice(), input.as_dangerous())
    }
}

/// A byte slice matches a byte-range input by byte-wise prefix comparison.
impl Prefix<Input> for &[u8] {
    open spec fn is_prefix_spec(self, input: &Input) -> bool {
        self@.is_prefix_of(input@.bytes)
    }

    fn is_prefix_of(self, input: &Input) -> (r: bool) {
        starts_with_bytes(self, input.as_dangerous())
    }
}

/// A string slice matches a text input by character-wise prefix comparison.
impl Prefix<Text> for &str {
    open spec fn is_prefix_spec(self, input: &Text) -> bool {
        self@.is_prefix_of(input@.chars)
    }

    fn is_prefix_of(self, input: &Text) -> (r: bool) {
        let n = self.unicode_len();
        let chars = input.as_dangerous();
        if n > chars.len() {
            return false;
        }
        let mut i: usize = 0;
        while i < n
            invariant
                0 <= i <= n == self@.len(),
                n <= chars@.len(),
                chars@ == input@.chars,
                forall|k: int| 0 <= k < i ==> self@[k] == chars@[k],
            decreases n - i,
        {
            if self.get_char(i) != chars[i] {
                proof {
                    assert(self@[i as int] != input@.chars.subrange(0, self@.len() as int)[
                        i as int
                    ]);
                }
                return false;
            }
            i += 1;
        }
        proof {
            assert(self@ =~= input@.chars.subrange(0, self@.len() as int));
        }
        true
    }
}

/// A string slice matches a byte-range input through its encoded bytes,
/// compared as a byte prefix.
impl Prefix<Input> for &str {
    open spec fn is_prefix_spec(self, input: &Input) -> bool {
        encode_utf8(self@).is_prefix_of(input@.bytes)
    }

    fn is_prefix_of(self, input: &Input) -> (r: bool) {
        starts_with_bytes(self.as_bytes(), input.as_dangerous())
    }
}

/// A fixed-size byte array matches a byte-range input exactly as the byte
/// slice over it does.
impl<const N: usize> Prefix<Input> for &[u8; N] {
    open spec fn is_prefix_spec(self, input: &Input) -> bool {
        self@.is_prefix_of(input@.bytes)
    }

    fn is_prefix_of(self, input: &Input) -> (r: bool) {
        starts_with_bytes(self.as_slice(), input.as_dangerous())
    }
}

} // verus!
