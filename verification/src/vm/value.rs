//! The VM's boxed value format ("Ex-Boxing", short for exponent boxing).
//!
//! A value is a single 64-bit word whose low 4 bits select an
//! interpretation: a 32-bit immediate integer, immediate undefined/null,
//! an immediate boolean, a short immediate string (up to 7 bytes, length
//! in the second nibble, bytes packed one per octet above it), a heap
//! pointer address whose low 4 bits are zero, or an immediate double.
//!
//! Unlike NaN-boxing, the NaN bit space of doubles is not reused. Instead
//! the scheme exploits the fact that common doubles have exponents from a
//! restricted range: the IEEE-754 bit pattern is rotated left so the high
//! exponent bits land in the low tag nibble, then a fixed adjustment is
//! added so the tag lands in the reserved double-tag range. Doubles are
//! handled here as their raw 64-bit IEEE-754 bit patterns; only a
//! collaborator that performs floating-point arithmetic needs to
//! reinterpret them.

use vstd::prelude::*;

verus! {

pub const MASK_TAG: u8 = 0b1111;

pub const TAG_IMM_I32: u8 = 0b0000;

pub const TAG_IMM_UNDEF_NULL: u8 = 0b0001;

pub const TAG_IMM_BOOL: u8 = 0b0010;

pub const TAG_IMM_STR: u8 = 0b0011;

pub const TAG_PTR: u8 = 0b0100;

pub const TAG_IMM_F64_MIN: u8 = 0b0111;

pub const TAG_IMM_F64_MAX: u8 = 0b1111;

pub const SHIFT_IMM_I32: u8 = 32;

pub const SHIFT_IMM_UNDEF_NULL: u8 = 32;

pub const SHIFT_IMM_BOOL: u8 = 32;

pub const PAYLOAD_IMM_UNDEF: u32 = 1;

pub const PAYLOAD_IMM_NULL: u32 = 2;

pub const SHIFT_IMM_STR_LENGTH: u8 = 4;

pub const IMM_STR_MAX_LENGTH: u8 = 7;

pub const F64_TAG_ADJUST: u8 = 0b0111;

pub const F64_ROTATE: u8 = 5;

/// Opaque heap-value placeholder. The collaborator VM defines the real
/// heap cell layout; this crate only carries addresses of such cells.
pub struct HeapValue {}

/// The low tag nibble of an encoded word.
pub open spec fn val_tag(bits: u64) -> u64 {
    bits & 0xF
}

/// The 64-bit rotation used by the double encoding.
pub open spec fn rotl_f64(x: u64) -> u64 {
    (x << 5) | (x >> 59)
}

/// The inverse rotation used by the double decoding.
pub open spec fn rotr_f64(x: u64) -> u64 {
    (x >> 5) | (x << 59)
}

/// An IEEE-754 bit pattern whose rotation lands in the adjustable range,
/// so the double is representable as an immediate.
pub open spec fn f64_bits_encodable(fbits: u64) -> bool {
    val_tag(rotl_f64(fbits)) <= 0b1000
}

/// The VM's boxed value: one tagged 64-bit word.
#[derive(Debug, Clone, Copy, PartialEq, Eq, Structural)]
pub struct Value {
    bits: u64,
}

/// An "unpacked" value: the explicit sum type a value decodes to.
/// `Ptr` carries the heap cell address; `Float64` carries the IEEE-754
/// bit pattern of the double.
#[derive(Debug, Clone, PartialEq, Eq)]
pub enum UnpackedValue {
    Int32(i32),
    Undefined,
    Null,
    Bool(bool),
    Ptr(u64),
    ImmStr(Vec<u8>),
    Float64(u64),
}

impl Value {
    /// The encoded 64-bit word.
    pub closed spec fn spec_bits(self) -> u64 {
        self.bits
    }

    /// Every constructor yields a word whose tag is an assigned one; the
    /// two unassigned tag values never occur.
    pub open spec fn wf(self) -> bool {
        val_tag(self.spec_bits()) != 5 && val_tag(self.spec_bits()) != 6
    }

    pub fn new_imm_i32(ival: i32) -> (r: Value)
        ensures
            r.spec_bits() == (ival as u32 as u64) << 32,
            val_tag(r.spec_bits()) == TAG_IMM_I32,
            r.wf(),
    {
        let bits: u64 = (ival as u32 as u64) << 32;
        proof {
            assert(val_tag((ival as u32 as u64) << 32) == 0) by (bit_vector);
        }
        Value { bits }
    }

    pub fn new_imm_undef() -> (r: Value)
        ensures
            r.spec_bits() == ((PAYLOAD_IMM_UNDEF as u64) << 32) | (TAG_IMM_UNDEF_NULL as u64),
            val_tag(r.spec_bits()) == TAG_IMM_UNDEF_NULL,
            r.wf(),
    {
        let bits: u64 = ((PAYLOAD_IMM_UNDEF as u64) << 32) | (TAG_IMM_UNDEF_NULL as u64);
        proof {
            assert(val_tag(((1u64) << 32) | 1u64) == 1) by (bit_vector);
        }
        Value { bits }
    }

    pub fn new_imm_null() -> (r: Value)
        ensures
            r.spec_bits() == ((PAYLOAD_IMM_NULL as u64) << 32) | (TAG_IMM_UNDEF_NULL as u64),
            val_tag(r.spec_bits()) == TAG_IMM_UNDEF_NULL,
            r.wf(),
    {
        let bits: u64 = ((PAYLOAD_IMM_NULL as u64) << 32) | (TAG_IMM_UNDEF_NULL as u64);
        proof {
            assert(val_tag(((2u64) << 32) | 1u64) == 1) by (bit_vector);
        }
        Value { bits }
    }

    pub fn new_imm_bool(bval: bool) -> (r: Value)
        ensures
            r.spec_bits() == ((bval as u64) << 32) | (TAG_IMM_BOOL as u64),
            val_tag(r.spec_bits()) == TAG_IMM_BOOL,
            r.wf(),
    {
        let bits: u64 = ((if bval {
            1u64
        } else {
            0u64
        }) << 32) | (TAG_IMM_BOOL as u64);
        proof {
            let b = bval as u64;
            assert(b <= 1 ==> val_tag((b << 32) | 2u64) == 2) by (bit_vector);
        }
        Value { bits }
    }

    /// Encode a short string: the length in the second nibble, byte `i` of
    /// the string in the octet starting at bit `(i + 1) * 8`.
    pub fn new_imm_str(bytes: &[u8]) -> (r: Value)
        requires
            bytes@.len() <= IMM_STR_MAX_LENGTH,
        ensures
            val_tag(r.spec_bits()) == TAG_IMM_STR,
            r.wf(),
            (r.spec_bits() >> 4) & 0x7 == bytes@.len(),
            forall|i: int|
                0 <= i < bytes@.len() ==> ((r.spec_bits() >> (((i + 1) * 8) as u64)) & 0xFF)
                    == bytes@[i],
    {
        let len = bytes.len();
        let mut uval: u64 = (TAG_IMM_STR as u64) | ((len as u64) << 4);
        proof {
            let l = len as u64;
            assert(l <= 7 ==> (val_tag(3u64 | (l << 4)) == 3 && ((3u64 | (l << 4)) >> 4) & 0x7 == l
                && (3u64 | (l << 4)) >> 8 == 0)) by (bit_vector);
        }
        let mut i: usize = 0;
        while i < len
            invariant
                len == bytes@.len(),
                len <= 7,
                0 <= i <= len,
                val_tag(uval) == TAG_IMM_STR,
                (uval >> 4) & 0x7 == len,
                uval >> (((i + 1) * 8) as u64) == 0,
                forall|j: int|
                    0 <= j < i ==> ((uval >> (((j + 1) * 8) as u64)) & 0xFF) == bytes@[j],
            decreases len - i,
        {
            let b = bytes[i];
            let sh: u64 = ((i as u64) + 1) * 8;
            let ghost prev = uval;
            uval = uval | ((b as u64) << sh);
            proof {
                let bb = b as u64;
                let ii = i as u64;
                assert(ii <= 6 && bb <= 0xFF && prev >> ((ii + 1) * 8) == 0 ==> (prev | (bb << ((
                ii + 1) * 8))) >> ((ii + 2) * 8) == 0) by (bit_vector);
                assert(ii <= 6 && bb <= 0xFF && prev >> ((ii + 1) * 8) == 0 ==> ((prev | (bb << ((
                ii + 1) * 8))) >> ((ii + 1) * 8)) & 0xFF == bb) by (bit_vector);
                assert(ii <= 6 ==> (prev | (bb << ((ii + 1) * 8))) & 0xF == prev & 0xF)
                    by (bit_vector);
                assert(ii <= 6 ==> ((prev | (bb << ((ii + 1) * 8))) >> 4) & 0x7 == (prev >> 4)
                    & 0x7) by (bit_vector);
                assert(forall|s: u64|
                    ii <= 6 && s % 8 == 0 && s < (ii + 1) * 8 ==> ((prev | (bb << ((ii + 1) * 8)))
                        >> s) & 0xFF == (prev >> s) & 0xFF) by (bit_vector);
                assert forall|j: int| 0 <= j < i + 1 implies ((uval >> (((j + 1) * 8) as u64))
                    & 0xFF) == bytes@[j] by {
                    if j < i {
                        assert((((j + 1) * 8) as u64) % 8 == 0 && (((j + 1) * 8) as u64) < (ii + 1)
                            * 8);
                    }
                }
            }
            i = i + 1;
        }
        Value { bits: uval }
    }

    /// Box a heap cell address. Heap allocations are at least 16-byte
    /// aligned, so the low 4 bits of the address must be zero.
    pub fn new_ptr(addr: u64) -> (r: Value)
        requires
            addr & 0xF == 0,
        ensures
            r.spec_bits() == addr | (TAG_PTR as u64),
            val_tag(r.spec_bits()) == TAG_PTR,
            r.wf(),
    {
        proof {
            let a = addr;
            assert(a & 0xF == 0 ==> val_tag(a | 4u64) == 4) by (bit_vector);
        }
        Value { bits: addr | (TAG_PTR as u64) }
    }

    /// Box a double given as its IEEE-754 bit pattern. Only patterns whose
    /// rotation lands in the adjustable range are representable; others
    /// must be heap-boxed by the caller.
    pub fn new_imm_f64(fbits: u64) -> (r: Value)
        requires
            f64_bits_encodable(fbits),
        ensures
            r.spec_bits() == rotl_f64(fbits) + (F64_TAG_ADJUST as u64),
            val_tag(r.spec_bits()) >= TAG_IMM_F64_MIN,
            r.wf(),
    {
        let rot: u64 = (fbits << 5) | (fbits >> 59);
        proof {
            let x = rot;
            assert(x & 0xF <= 8 ==> x <= u64::MAX - 7) by (bit_vector);
            assert(x & 0xF <= 8 ==> vstd::prelude::add(x, 7) & 0xF >= 7) by (bit_vector);
        }
        Value { bits: rot + (F64_TAG_ADJUST as u64) }
    }

    pub closed spec fn extract_tag_spec(self) -> u8 {
        (self.bits & 0xF) as u8
    }

    fn extract_tag(&self) -> (r: u8)
        ensures
            r == val_tag(self.spec_bits()),
    {
        proof {
            let b = self.bits;
            assert((b & 0xF) <= 0xF) by (bit_vector);
        }
        (self.bits & 0xF) as u8
    }

    pub fn is_imm_i32(&self) -> (r: bool)
        ensures
            r <==> val_tag(self.spec_bits()) == TAG_IMM_I32,
    {
        self.extract_tag() == TAG_IMM_I32
    }

    pub fn is_imm_undef_null(&self) -> (r: bool)
        ensures
            r <==> val_tag(self.spec_bits()) == TAG_IMM_UNDEF_NULL,
    {
        self.extract_tag() == TAG_IMM_UNDEF_NULL
    }

    pub fn is_imm_bool(&self) -> (r: bool)
        ensures
            r <==> val_tag(self.spec_bits()) == TAG_IMM_BOOL,
    {
        self.extract_tag() == TAG_IMM_BOOL
    }

    pub fn is_imm_str(&self) -> (r: bool)
        ensures
            r <==> val_tag(self.spec_bits()) == TAG_IMM_STR,
    {
        self.extract_tag() == TAG_IMM_STR
    }

    pub fn is_ptr(&self) -> (r: bool)
        ensures
            r <==> val_tag(self.spec_bits()) == TAG_PTR,
    {
        self.extract_tag() == TAG_PTR
    }

    pub fn is_imm_f64(&self) -> (r: bool)
        ensures
            r <==> val_tag(self.spec_bits()) >= TAG_IMM_F64_MIN,
    {
        self.extract_tag() >= TAG_IMM_F64_MIN
    }

    pub fn is_imm_undef(&self) -> (r: bool)
        ensures
            r <==> self.spec_bits() == ((PAYLOAD_IMM_UNDEF as u64) << 32) | (TAG_IMM_UNDEF_NULL
                as u64),
    {
        self.bits == ((PAYLOAD_IMM_UNDEF as u64) << 32) | (TAG_IMM_UNDEF_NULL as u64)
    }

    pub fn is_imm_null(&self) -> (r: bool)
        ensures
            r <==> self.spec_bits() == ((PAYLOAD_IMM_NULL as u64) << 32) | (TAG_IMM_UNDEF_NULL
                as u64),
    {
        self.bits == ((PAYLOAD_IMM_NULL as u64) << 32) | (TAG_IMM_UNDEF_NULL as u64)
    }

    pub fn is_imm_false(&self) -> (r: bool)
        ensures
            r <==> self.spec_bits() == TAG_IMM_BOOL as u64,
    {
        self.bits == TAG_IMM_BOOL as u64
    }

    pub fn is_imm_true(&self) -> (r: bool)
        ensures
            r <==> self.spec_bits() == ((1u64) << 32) | (TAG_IMM_BOOL as u64),
    {
        self.bits == ((1u64) << 32) | (TAG_IMM_BOOL as u64)
    }

    /// The integer payload. This is the "unchecked" accessor tier: the
    /// caller must already have established the matching tag.
    pub fn get_unchecked_imm_i32(&self) -> (r: i32)
        requires
            val_tag(self.spec_bits()) == TAG_IMM_I32,
        ensures
            r == (self.spec_bits() >> 32) as u32 as i32,
    {
        (self.bits >> 32) as u32 as i32
    }

    pub fn get_imm_i32(&self) -> (r: Option<i32>)
        ensures
            r == if val_tag(self.spec_bits()) == TAG_IMM_I32 {
                Some((self.spec_bits() >> 32) as u32 as i32)
            } else {
                Option::<i32>::None
            },
    {
        if self.is_imm_i32() {
            Some(self.get_unchecked_imm_i32())
        } else {
            None
        }
    }

    pub fn get_unchecked_imm_bool(&self) -> (r: bool)
        requires
            val_tag(self.spec_bits()) == TAG_IMM_BOOL,
        ensures
            r <==> (self.spec_bits() >> 32) != 0,
    {
        (self.bits >> 32) != 0
    }

    pub fn get_imm_bool(&self) -> (r: Option<bool>)
        ensures
            r == if val_tag(self.spec_bits()) == TAG_IMM_BOOL {
                Some((self.spec_bits() >> 32) != 0)
            } else {
                Option::<bool>::None
            },
    {
        if self.is_imm_bool() {
            Some(self.get_unchecked_imm_bool())
        } else {
            None
        }
    }

    /// The length nibble of an immediate string.
    pub fn get_unchecked_imm_str_len(&self) -> (r: u8)
        requires
            val_tag(self.spec_bits()) == TAG_IMM_STR,
        ensures
            r == (self.spec_bits() >> 4) & 0x7,
            r <= 7,
    {
        proof {
            let b = self.bits;
            assert((b >> 4) & 0x7 <= 7) by (bit_vector);
            assert(((b >> 4) as u8) & 0x7 == ((b >> 4) & 0x7) as u8) by (bit_vector);
        }
        ((self.bits >> 4) as u8) & 0x7
    }

    /// Byte `idx` of an immediate string.
    pub fn get_unchecked_imm_str_char(&self, idx: u8) -> (r: u8)
        requires
            val_tag(self.spec_bits()) == TAG_IMM_STR,
            idx < (self.spec_bits() >> 4) & 0x7,
        ensures
            r == (self.spec_bits() >> (((idx + 1) * 8) as u64)) & 0xFF,
    {
        let sh: u64 = ((idx as u64) + 1) * 8;
        proof {
            let b = self.bits;
            let s = sh;
            assert(s <= 56 ==> ((b >> s) as u8) == (b >> s) & 0xFF) by (bit_vector);
            assert((b >> 4) & 0x7 <= 7) by (bit_vector);
        }
        (self.bits >> sh) as u8
    }

    /// All bytes of an immediate string, in order.
    pub fn get_unchecked_imm_str(&self) -> (r: Vec<u8>)
        requires
            val_tag(self.spec_bits()) == TAG_IMM_STR,
        ensures
            r@.len() == (self.spec_bits() >> 4) & 0x7,
            forall|i: int|
                0 <= i < r@.len() ==> r@[i] == (self.spec_bits() >> (((i + 1) * 8) as u64)) & 0xFF,
    {
        let len = self.get_unchecked_imm_str_len();
        let mut bytes: Vec<u8> = Vec::new();
        let mut i: u8 = 0;
        while i < len
            invariant
                val_tag(self.spec_bits()) == TAG_IMM_STR,
                len == (self.spec_bits() >> 4) & 0x7,
                len <= 7,
                0 <= i <= len,
                bytes@.len() == i as int,
                forall|j: int|
                    0 <= j < i as int ==> bytes@[j] == (self.spec_bits() >> (((j + 1) * 8) as u64))
                        & 0xFF,
            decreases len - i,
        {
            bytes.push(self.get_unchecked_imm_str_char(i));
            i = i + 1;
        }
        bytes
    }

    pub fn get_imm_str(&self) -> (r: Option<Vec<u8>>)
        ensures
            val_tag(self.spec_bits()) == TAG_IMM_STR <==> r is Some,
            r is Some ==> {
                &&& r->0@.len() == (self.spec_bits() >> 4) & 0x7
                &&& forall|i: int|
                    0 <= i < r->0@.len() ==> r->0@[i] == (self.spec_bits() >> (((i + 1) * 8)
                        as u64)) & 0xFF
            },
    {
        if self.is_imm_str() {
            Some(self.get_unchecked_imm_str())
        } else {
            None
        }
    }

    /// The boxed heap cell address, with the tag nibble cleared.
    pub fn get_unchecked_ptr(&self) -> (r: u64)
        requires
            val_tag(self.spec_bits()) == TAG_PTR,
        ensures
            r == self.spec_bits() & !0xFu64,
            r & 0xF == 0,
    {
        proof {
            let b = self.bits;
            assert((b & !0xFu64) & 0xF == 0) by (bit_vector);
        }
        self.bits & !0xFu64
    }

    pub fn get_ptr(&self) -> (r: Option<u64>)
        ensures
            r == if val_tag(self.spec_bits()) == TAG_PTR {
                Some(self.spec_bits() & !0xFu64)
            } else {
                Option::<u64>::None
            },
    {
        if self.is_ptr() {
            Some(self.get_unchecked_ptr())
        } else {
            None
        }
    }

    /// The IEEE-754 bit pattern of an immediate double.
    pub fn get_unchecked_imm_f64(&self) -> (r: u64)
        requires
            val_tag(self.spec_bits()) >= TAG_IMM_F64_MIN,
        ensures
            r == rotr_f64((self.spec_bits() - (F64_TAG_ADJUST as u64)) as u64),
    {
        proof {
            let b = self.bits;
            assert(b & 0xF >= 7 ==> b >= 7) by (bit_vector);
        }
        let unadj: u64 = self.bits - (F64_TAG_ADJUST as u64);
        (unadj >> 5) | (unadj << 59)
    }

    pub fn get_imm_f64(&self) -> (r: Option<u64>)
        ensures
            r == if val_tag(self.spec_bits()) >= TAG_IMM_F64_MIN {
                Some(rotr_f64((self.spec_bits() - (F64_TAG_ADJUST as u64)) as u64))
            } else {
                Option::<u64>::None
            },
    {
        if self.is_imm_f64() {
            Some(self.get_unchecked_imm_f64())
        } else {
            None
        }
    }

    /// Total projection of a well-formed value into the explicit sum type.
    pub fn unpack(&self) -> (r: UnpackedValue)
        requires
            self.wf(),
        ensures
            val_tag(self.spec_bits()) == TAG_IMM_I32 ==> r == UnpackedValue::Int32(
                (self.spec_bits() >> 32) as u32 as i32,
            ),
            val_tag(self.spec_bits()) == TAG_IMM_UNDEF_NULL ==> r == if (self.spec_bits() >> 32)
                as u32 == PAYLOAD_IMM_UNDEF {
                UnpackedValue::Undefined
            } else {
                UnpackedValue::Null
            },
            val_tag(self.spec_bits()) == TAG_IMM_BOOL ==> r == UnpackedValue::Bool(
                (self.spec_bits() >> 32) != 0,
            ),
            val_tag(self.spec_bits()) == TAG_IMM_STR ==> {
                &&& r is ImmStr
                &&& r->ImmStr_0@.len() == (self.spec_bits() >> 4) & 0x7
                &&& forall|i: int|
                    0 <= i < r->ImmStr_0@.len() ==> r->ImmStr_0@[i] == (self.spec_bits() >> (((i
                        + 1) * 8) as u64)) & 0xFF
            },
            val_tag(self.spec_bits()) == TAG_PTR ==> r == UnpackedValue::Ptr(
                self.spec_bits() & !0xFu64,
            ),
            val_tag(self.spec_bits()) >= TAG_IMM_F64_MIN ==> r == UnpackedValue::Float64(
                rotr_f64((self.spec_bits() - (F64_TAG_ADJUST as u64)) as u64),
            ),
    {
        let tag = self.extract_tag();
        if tag == TAG_IMM_I32 {
            UnpackedValue::Int32(self.get_unchecked_imm_i32())
        } else if tag == TAG_IMM_UNDEF_NULL {
            if (self.bits >> 32) as u32 == PAYLOAD_IMM_UNDEF {
                UnpackedValue::Undefined
            } else {
                UnpackedValue::Null
            }
        } else if tag == TAG_IMM_BOOL {
            UnpackedValue::Bool(self.get_unchecked_imm_bool())
        } else if tag == TAG_IMM_STR {
            UnpackedValue::ImmStr(self.get_unchecked_imm_str())
        } else if tag == TAG_PTR {
            UnpackedValue::Ptr(self.get_unchecked_ptr())
        } else {
            proof {
                let b = self.bits;
                assert(b & 0xF <= 0xF) by (bit_vector);
            }
            UnpackedValue::Float64(self.get_unchecked_imm_f64())
        }
    }
}

/// Law: decoding inverts encoding for immediate 32-bit integers.
pub proof fn lemma_imm_i32_round_trip(ival: i32)
    ensures
        ((((ival as u32 as u64) << 32) >> 32) as u32 as i32) == ival,
{
    let iu = ival as u32;
    assert((((iu as u64) << 32) >> 32) as u32 == iu) by (bit_vector);
    assert(ival as u32 as i32 == ival) by (bit_vector);
}

/// Law: decoding inverts encoding for immediate short strings: byte `i`
/// placed by the constructor is recovered exactly.
pub proof fn lemma_imm_str_round_trip(v: Value, s: Seq<u8>)
    requires
        s.len() <= IMM_STR_MAX_LENGTH,
        val_tag(v.spec_bits()) == TAG_IMM_STR,
        (v.spec_bits() >> 4) & 0x7 == s.len(),
        forall|i: int| 0 <= i < s.len() ==> ((v.spec_bits() >> (((i + 1) * 8) as u64)) & 0xFF)
            == s[i],
    ensures
        forall|r: Seq<u8>|
            (r.len() == (v.spec_bits() >> 4) & 0x7 && (forall|i: int|
                0 <= i < r.len() ==> r[i] == (v.spec_bits() >> (((i + 1) * 8) as u64)) & 0xFF))
                ==> r =~= s,
{
}

/// Law: decoding inverts encoding for immediate doubles: for every
/// encodable bit pattern, rotating back after removing the adjustment
/// returns the original pattern.
pub proof fn lemma_imm_f64_round_trip(fbits: u64)
    requires
        f64_bits_encodable(fbits),
    ensures
        val_tag((rotl_f64(fbits) + (F64_TAG_ADJUST as u64)) as u64) >= TAG_IMM_F64_MIN,
        rotr_f64(((rotl_f64(fbits) + (F64_TAG_ADJUST as u64)) as u64 - (F64_TAG_ADJUST as u64))
            as u64) == fbits,
{
    let x = fbits;
    assert(((x << 5) | (x >> 59)) & 0xF <= 8 ==> ((x << 5) | (x >> 59)) <= u64::MAX - 7)
        by (bit_vector);
    assert(((x << 5) | (x >> 59)) & 0xF <= 8 ==> vstd::prelude::add((x << 5) | (x >> 59), 7) & 0xF
        >= 7) by (bit_vector);
    let rot = rotl_f64(x);
    assert(((rot >> 5) | (rot << 59)) == x ==> rotr_f64(rot) == x);
    assert((((x << 5) | (x >> 59)) >> 5) | (((x << 5) | (x >> 59)) << 59) == x) by (bit_vector);
}

} // verus!
