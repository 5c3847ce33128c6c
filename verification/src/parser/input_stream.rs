//! The input stream: owns the raw source bytes and supports byte-at-a-time
//! read/unread, mark/rewind to an earlier byte offset, and fixed-text
//! lookahead used for keyword confirmation.

use vstd::prelude::*;
use vstd::string::StringSliceAdditionalSpecFns;
use crate::parser::char_utils::AsciiChar;

verus! {

/// An opaque, totally ordered byte offset into the source buffer.
#[derive(Debug, Clone, Copy, PartialEq, Eq, Structural)]
pub struct StreamPosition {
    offset: u32,
}

impl StreamPosition {
    pub closed spec fn spec_value(self) -> u32 {
        self.offset
    }

    /// The position at a given offset.
    pub closed spec fn at(v: u32) -> StreamPosition {
        StreamPosition { offset: v }
    }

    /// A position is determined by its offset.
    pub proof fn lemma_fixed_by_value(p1: StreamPosition, p2: StreamPosition)
        ensures
            p1.spec_value() == p2.spec_value() ==> p1 == p2,
    {
    }

    pub proof fn lemma_at_value(v: u32)
        ensures
            StreamPosition::at(v).spec_value() == v,
    {
    }

    /// A sentinel offset used before any position has been recorded.
    pub fn default() -> (r: StreamPosition)
        ensures
            r.spec_value() == u32::MAX,
    {
        StreamPosition { offset: u32::MAX }
    }

    #[verifier::when_used_as_spec(spec_value)]
    pub fn value(self) -> (r: u32)
        ensures
            r == self.spec_value(),
    {
        self.offset
    }

    /// The length of the span from `other` up to this position.
    pub fn length_from(self, other: StreamPosition) -> (r: u32)
        requires
            self.spec_value() >= other.spec_value(),
        ensures
            r == self.spec_value() - other.spec_value(),
    {
        self.offset - other.offset
    }
}

/// The bytes starting at `posn` spell exactly the ASCII text `s`.
pub open spec fn bytes_match_text(data: Seq<u8>, posn: int, s: Seq<char>) -> bool {
    forall|i: int| 0 <= i < s.len() ==> data[posn + i] == (#[trigger] s[i]) as u8
}

/// An in-memory byte buffer with an explicit read cursor.
pub struct VecInputStream {
    data: Vec<u8>,
    cur: usize,
}

impl VecInputStream {
    /// The source bytes backing the stream.
    pub closed spec fn bytes(&self) -> Seq<u8> {
        self.data@
    }

    /// The current read cursor, as an offset into `bytes()`.
    pub closed spec fn cursor(&self) -> int {
        self.cur as int
    }

    /// The cursor stays inside the buffer, and offsets fit in a
    /// `StreamPosition`.
    pub open spec fn wf(&self) -> bool {
        0 <= self.cursor() <= self.bytes().len() && self.bytes().len() <= u32::MAX
    }

    pub fn new(data: Vec<u8>) -> (r: VecInputStream)
        requires
            data@.len() <= u32::MAX,
        ensures
            r.wf(),
            r.bytes() == data@,
            r.cursor() == 0,
    {
        VecInputStream { data, cur: 0 }
    }

    pub fn current_offset(&self) -> (r: u32)
        requires
            self.wf(),
        ensures
            r == self.cursor(),
    {
        self.cur as u32
    }

    pub fn end_offset(&self) -> (r: u32)
        requires
            self.wf(),
        ensures
            r == self.bytes().len(),
    {
        self.data.len() as u32
    }

    pub fn is_valid_position(&self, posn: StreamPosition) -> (r: bool)
        requires
            self.wf(),
        ensures
            r <==> posn.value() <= self.bytes().len(),
    {
        posn.value() <= self.end_offset()
    }

    pub fn is_rewind_position(&self, posn: StreamPosition) -> (r: bool)
        requires
            self.wf(),
        ensures
            r <==> posn.value() <= self.cursor(),
    {
        posn.value() <= self.current_offset()
    }

    /// Read the next byte, or the end sentinel at buffer exhaustion.
    pub fn read_ascii(&mut self) -> (r: AsciiChar)
        requires
            old(self).wf(),
        ensures
            final(self).wf(),
            final(self).bytes() == old(self).bytes(),
            old(self).cursor() < old(self).bytes().len() ==> {
                &&& r.code() == old(self).bytes()[old(self).cursor()]
                &&& final(self).cursor() == old(self).cursor() + 1
            },
            old(self).cursor() == old(self).bytes().len() ==> {
                &&& r.code() == -1
                &&& final(self).cursor() == old(self).cursor()
            },
    {
        if self.cur < self.data.len() {
            let ch = self.data[self.cur];
            self.cur = self.cur + 1;
            AsciiChar::new(ch)
        } else {
            AsciiChar::end()
        }
    }

    /// Push back the byte that was just read. The caller may only unread
    /// the most recently read byte, which pins the cursor movement exactly.
    pub fn unread_ascii(&mut self, ch: AsciiChar)
        requires
            old(self).wf(),
            ch.code() == -1 || (old(self).cursor() >= 1 && ch.code() == old(self).bytes()[old(
                self,
            ).cursor() - 1]),
        ensures
            final(self).wf(),
            final(self).bytes() == old(self).bytes(),
            final(self).cursor() == if ch.code() == -1 {
                old(self).cursor()
            } else {
                old(self).cursor() - 1
            },
    {
        if !ch.is_end() {
            self.cur = self.cur - 1;
        }
    }

    /// What `mark` captures: the current cursor as a position.
    pub closed spec fn mark_spec(&self) -> StreamPosition {
        StreamPosition { offset: self.cur as u32 }
    }

    /// Capture the current cursor as an opaque position.
    pub fn mark(&self) -> (r: StreamPosition)
        requires
            self.wf(),
        ensures
            r.value() == self.cursor(),
            r == self.mark_spec(),
    {
        StreamPosition { offset: self.cur as u32 }
    }

    /// What `rewind` leaves behind: the same bytes with the cursor at
    /// the target position.
    pub closed spec fn rewind_spec(&self, posn: StreamPosition) -> VecInputStream {
        VecInputStream { data: self.data, cur: posn.spec_value() as usize }
    }

    /// Reset the cursor to a previously captured position. Rewinding
    /// forward is forbidden: the target must not exceed the cursor.
    pub fn rewind(&mut self, posn: StreamPosition)
        requires
            old(self).wf(),
            posn.value() <= old(self).cursor(),
        ensures
            final(self).wf(),
            final(self).bytes() == old(self).bytes(),
            final(self).cursor() == posn.value(),
            *final(self) == old(self).rewind_spec(posn),
    {
        self.cur = posn.value() as usize;
    }

    /// Law (backtrack exactness): rewinding to a mark taken at the
    /// current state restores that state exactly, byte for byte and
    /// cursor for cursor.
    pub proof fn lemma_backtrack_exact(&self)
        requires
            self.wf(),
        ensures
            self.rewind_spec(self.mark_spec()) == *self,
    {
    }

    /// Compare the buffer bytes starting at `posn` against a fixed ASCII
    /// text, without moving the cursor.
    pub fn check_ascii_text(&self, text: &str, posn: StreamPosition) -> (r: bool)
        requires
            self.wf(),
            vstd::string::is_ascii(text),
            posn.value() + text@.len() <= self.bytes().len(),
        ensures
            r <==> bytes_match_text(self.bytes(), posn.value() as int, text@),
    {
        proof {
            broadcast use vstd::string::is_ascii_spec_bytes;

        }
        let tb: &[u8] = text.as_bytes();
        let base = posn.value() as usize;
        let mut i: usize = 0;
        while i < tb.len()
            invariant
                self.wf(),
                vstd::string::is_ascii(text),
                tb@ == text.spec_bytes(),
                tb@.len() == text@.len(),
                forall|j: int| 0 <= j < tb@.len() ==> tb@[j] == text@[j] as u8,
                base == posn.value(),
                base + tb@.len() <= self.bytes().len(),
                0 <= i <= tb@.len(),
                forall|j: int| 0 <= j < i ==> self.bytes()[base + j] == (#[trigger] text@[j]) as u8,
            decreases tb@.len() - i,
        {
            if self.data[base + i] != tb[i] {
                return false;
            }
            i = i + 1;
        }
        true
    }
}

} // verus!
