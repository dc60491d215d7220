//! The span/input model: read-only views over a contiguous range borrowed
//! from one caller-owned buffer, in two flavors (raw bytes, and decoded
//! text). Containment of one view within another is defined by offset-range
//! inclusion within the same originating buffer, never by value equality.

use vstd::prelude::*;
use vstd::slice::{slice_subrange, slice_to_vec};

verus! {

/// Mathematical model of an [`Input`]: the identity of the originating
/// buffer, the start offset of the viewed range within that buffer, and the
/// bytes of the viewed range.
#[verifier::ext_equal]
pub ghost struct InputModel {
    pub id: int,
    pub start: int,
    pub bytes: Seq<u8>,
}

impl InputModel {
    /// Length of the viewed range, in bytes.
    pub open spec fn len(self) -> int {
        self.bytes.len() as int
    }

    /// One past the last offset of the viewed range within its buffer.
    pub open spec fn end(self) -> int {
        self.start + self.bytes.len()
    }

    /// Containment: `self` views a sub-range of `outer`, in the same
    /// originating buffer. Two equal-valued ranges at different offsets, or
    /// in different buffers, are never within each other.
    pub open spec fn is_within(self, outer: InputModel) -> bool {
        &&& self.id == outer.id
        &&& outer.start <= self.start
        &&& self.end() <= outer.end()
    }

    /// The viewed range lies within addressable offsets.
    pub open spec fn wf(self) -> bool {
        0 <= self.start && self.end() <= usize::MAX
    }
}

/// Containment is transitive, which keeps an error's span within its input
/// when the input is widened to an enclosing range.
pub proof fn lemma_within_transitive(a: InputModel, b: InputModel, c: InputModel)
    requires
        a.is_within(b),
        b.is_within(c),
    ensures
        a.is_within(c),
{
}

/// A read-only view of a byte range of one buffer: the bytes of the range,
/// together with the caller-chosen identifier of the originating buffer and
/// the range's start offset within it.
///
/// Every view derived from this one by [`Input::narrow`] keeps the buffer
/// identifier and shifts the offset, so each sub-range still traces back,
/// losslessly, to a range of the original buffer, and containment queries
/// relate only ranges of the same buffer.
#[derive(Debug)]
pub struct Input {
    buffer_id: u64,
    offset: usize,
    data: Vec<u8>,
}

impl View for Input {
    type V = InputModel;

    closed spec fn view(&self) -> InputModel {
        InputModel { id: self.buffer_id as int, start: self.offset as int, bytes: self.data@ }
    }
}

impl Input {
    #[verifier::type_invariant]
    spec fn type_inv(self) -> bool {
        self@.wf()
    }

    /// Construct a view of a whole byte range, rooted at `offset` within the
    /// buffer named by `buffer_id`.
    pub fn new(buffer_id: u64, offset: usize, data: Vec<u8>) -> (r: Input)
        requires
            offset + data@.len() <= usize::MAX,
        ensures
            r@ == (InputModel { id: buffer_id as int, start: offset as int, bytes: data@ }),
    {
        Input { buffer_id, offset, data }
    }

    /// Length of the viewed range, in bytes.
    pub fn len(&self) -> (r: usize)
        ensures
            r == self@.bytes.len(),
    {
        self.data.len()
    }

    /// True when the viewed range holds no bytes.
    pub fn is_empty(&self) -> (r: bool)
        ensures
            r == (self@.bytes.len() == 0),
    {
        self.data.len() == 0
    }

    /// The start offset of the viewed range within its buffer.
    pub fn start_offset(&self) -> (r: usize)
        ensures
            r == self@.start,
    {
        self.offset
    }

    /// The identifier of the originating buffer.
    pub fn buffer_id(&self) -> (r: u64)
        ensures
            r == self@.id,
    {
        self.buffer_id
    }

    /// The single named unchecked accessor onto the raw viewed bytes; kept
    /// visually distinct so that every direct byte access is easy to review.
    pub fn as_dangerous(&self) -> (r: &[u8])
        ensures
            r@ == self@.bytes,
    {
        self.data.as_slice()
    }

    /// True when `self` views a sub-range of `outer` in the same buffer.
    pub fn is_within(&self, outer: &Input) -> (r: bool)
        ensures
            r == self@.is_within(outer@),
    {
        proof {
            use_type_invariant(self);
            use_type_invariant(outer);
        }
        self.buffer_id == outer.buffer_id && outer.offset <= self.offset && self.offset
            + self.data.len() <= outer.offset + outer.data.len()
    }

    /// Narrow to the sub-range `[start, end)` of the viewed bytes. The
    /// result traces to the same buffer, shifted by `start`.
    pub fn narrow(&self, start: usize, end: usize) -> (r: Input)
        requires
            start <= end <= self@.bytes.len(),
        ensures
            r@.id == self@.id,
            r@.start == self@.start + start,
            r@.bytes == self@.bytes.subrange(start as int, end as int),
            r@.is_within(self@),
    {
        proof {
            use_type_invariant(self);
        }
        let part = slice_subrange(self.data.as_slice(), start, end);
        let data = slice_to_vec(part);
        Input { buffer_id: self.buffer_id, offset: self.offset + start, data }
    }
}

impl Clone for Input {
    /// A clone views the same range of the same buffer.
    fn clone(&self) -> (r: Self)
        ensures
            r@ == self@,
    {
        proof {
            use_type_invariant(self);
        }
        let data = slice_to_vec(self.data.as_slice());
        Input { buffer_id: self.buffer_id, offset: self.offset, data }
    }
}

/// Mathematical model of a [`Text`]: the identity of the originating buffer,
/// the start offset (counted in characters) of the viewed range, and the
/// characters of the viewed range.
#[verifier::ext_equal]
pub ghost struct TextModel {
    pub id: int,
    pub start: int,
    pub chars: Seq<char>,
}

impl TextModel {
    /// Length of the viewed range, in characters.
    pub open spec fn len(self) -> int {
        self.chars.len() as int
    }

    /// One past the last character offset of the viewed range.
    pub open spec fn end(self) -> int {
        self.start + self.chars.len()
    }

    /// Containment: character-offset range inclusion in the same buffer.
    pub open spec fn is_within(self, outer: TextModel) -> bool {
        &&& self.id == outer.id
        &&& outer.start <= self.start
        &&& self.end() <= outer.end()
    }

    /// The viewed range lies within addressable offsets.
    pub open spec fn wf(self) -> bool {
        0 <= self.start && self.end() <= usize::MAX
    }
}

/// A read-only view of a character range of one buffer whose contents are
/// guaranteed valid text, located like an [`Input`] by a buffer identifier
/// and a start offset, counted in characters.
#[derive(Debug)]
pub struct Text {
    buffer_id: u64,
    offset: usize,
    chars: Vec<char>,
}

impl View for Text {
    type V = TextModel;

    closed spec fn view(&self) -> TextModel {
        TextModel { id: self.buffer_id as int, start: self.offset as int, chars: self.chars@ }
    }
}

impl Text {
    #[verifier::type_invariant]
    spec fn type_inv(self) -> bool {
        self@.wf()
    }

    /// Construct a text view rooted at character offset `offset` within the
    /// buffer named by `buffer_id`.
    pub fn new(buffer_id: u64, offset: usize, chars: Vec<char>) -> (r: Text)
        requires
            offset + chars@.len() <= usize::MAX,
        ensures
            r@ == (TextModel { id: buffer_id as int, start: offset as int, chars: chars@ }),
    {
        Text { buffer_id, offset, chars }
    }

    /// Length of the viewed range, in characters.
    pub fn len(&self) -> (r: usize)
        ensures
            r == self@.chars.len(),
    {
        self.chars.len()
    }

    /// True when the viewed range holds no characters.
    pub fn is_empty(&self) -> (r: bool)
        ensures
            r == (self@.chars.len() == 0),
    {
        self.chars.len() == 0
    }

    /// The start offset of the viewed range within its buffer, in characters.
    pub fn start_offset(&self) -> (r: usize)
        ensures
            r == self@.start,
    {
        self.offset
    }

    /// The single named unchecked accessor onto the raw viewed characters.
    pub fn as_dangerous(&self) -> (r: &[char])
        ensures
            r@ == self@.chars,
    {
        self.chars.as_slice()
    }

    /// True when `self` views a sub-range of `outer` in the same buffer.
    pub fn is_within(&self, outer: &Text) -> (r: bool)
        ensures
            r == self@.is_within(outer@),
    {
        proof {
            use_type_invariant(self);
            use_type_invariant(outer);
        }
        self.buffer_id == outer.buffer_id && outer.offset <= self.offset && self.offset
            + self.chars.len() <= outer.offset + outer.chars.len()
    }

    /// Narrow to the sub-range `[start, end)` of the viewed characters.
    pub fn narrow(&self, start: usize, end: usize) -> (r: Text)
        requires
            start <= end <= self@.chars.len(),
        ensures
            r@.id == self@.id,
            r@.start == self@.start + start,
            r@.chars == self@.chars.subrange(start as int, end as int),
            r@.is_within(self@),
    {
        proof {
            use_type_invariant(self);
        }
        let part = slice_subrange(self.chars.as_slice(), start, end);
        let chars = slice_to_vec(part);
        Text { buffer_id: self.buffer_id, offset: self.offset + start, chars }
    }
}

impl Clone for Text {
    /// A clone views the same range of the same buffer.
    fn clone(&self) -> (r: Self)
        ensures
            r@ == self@,
    {
        proof {
            use_type_invariant(self);
        }
        let chars = slice_to_vec(self.chars.as_slice());
        Text { buffer_id: self.buffer_id, offset: self.offset, chars }
    }
}

} // verus!
