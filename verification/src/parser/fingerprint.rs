//! Byte-run scanning and the keyword tail-word fingerprint: the rolling
//! word of an identifier's last bytes, and the packing lemmas that make
//! a fingerprint comparison equivalent to a byte comparison.

use vstd::prelude::*;
use crate::parser::char_utils::identifier_continue_code;

verus! {

/// The first index at or after `pos` whose byte fails `p`, or the buffer
/// end if every remaining byte satisfies `p`.
pub open spec fn scan_while(data: Seq<u8>, pos: int, p: spec_fn(int) -> bool) -> int
    decreases data.len() - pos,
{
    if pos < data.len() && p(data[pos] as int) {
        scan_while(data, pos + 1, p)
    } else {
        pos
    }
}

pub proof fn lemma_scan_while(data: Seq<u8>, pos: int, p: spec_fn(int) -> bool)
    requires
        0 <= pos <= data.len(),
    ensures
        pos <= scan_while(data, pos, p) <= data.len(),
        forall|i: int| pos <= i < scan_while(data, pos, p) ==> p(data[i] as int),
        scan_while(data, pos, p) < data.len() ==> !p(data[scan_while(data, pos, p)] as int),
    decreases data.len() - pos,
{
    if pos < data.len() && p(data[pos] as int) {
        lemma_scan_while(data, pos + 1, p);
    }
}


/// The fingerprint the identifier scanner keeps: the last up-to-four
/// bytes of the identifier, shifted in one byte at a time.
pub open spec fn tail_fp(s: Seq<u8>) -> u32
    decreases s.len(),
{
    if s.len() == 0 {
        0
    } else {
        (tail_fp(s.drop_last()) << 8) | (s.last() as u32)
    }
}

/// Four bytes packed big-endian into a word.
pub open spec fn pack4(a: u8, b: u8, c: u8, d: u8) -> u32 {
    ((a as u32) << 24) | ((b as u32) << 16) | ((c as u32) << 8) | (d as u32)
}

/// Three bytes packed into a word.
pub open spec fn pack3(a: u8, b: u8, c: u8) -> u32 {
    ((a as u32) << 16) | ((b as u32) << 8) | (c as u32)
}

/// Two bytes packed into a word.
pub open spec fn pack2(a: u8, b: u8) -> u32 {
    ((a as u32) << 8) | (b as u32)
}

/// The fingerprint of a sequence of at least four bytes is its last four
/// bytes, packed.
pub proof fn lemma_tail_fp_4(s: Seq<u8>)
    requires
        s.len() >= 4,
    ensures
        tail_fp(s) == pack4(
            s[s.len() - 4],
            s[s.len() - 3],
            s[s.len() - 2],
            s[s.len() - 1],
        ),
    decreases s.len(),
{
    if s.len() == 4 {
        let a = s[0] as u32;
        let b = s[1] as u32;
        let c = s[2] as u32;
        let d = s[3] as u32;
        let s3 = s.drop_last();
        let s2 = s3.drop_last();
        let s1 = s2.drop_last();
        assert(s1.drop_last() =~= Seq::<u8>::empty());
        assert(tail_fp(s1.drop_last()) == 0);
        assert(tail_fp(s1) == (0u32 << 8) | a);
        assert(tail_fp(s2) == (((0u32 << 8) | a) << 8) | b);
        assert(tail_fp(s3) == ((((((0u32 << 8) | a) << 8) | b) << 8) | c));
        assert(tail_fp(s) == (((((((0u32 << 8) | a) << 8) | b) << 8) | c) << 8) | d);
        assert(a < 256 && b < 256 && c < 256 && d < 256 ==> ((((((((0u32 << 8) | a) << 8) | b)
            << 8) | c) << 8) | d) == ((a << 24) | (b << 16) | (c << 8) | d)) by (bit_vector);
    } else {
        lemma_tail_fp_4(s.drop_last());
        let n = s.len();
        let x1 = s[n - 5] as u32;
        let a = s[n - 4] as u32;
        let b = s[n - 3] as u32;
        let c = s[n - 2] as u32;
        let d = s[n - 1] as u32;
        assert(tail_fp(s.drop_last()) == ((x1 << 24) | (a << 16) | (b << 8) | c));
        assert(a < 256 && b < 256 && c < 256 && d < 256 ==> ((((x1 << 24) | (a << 16) | (b << 8)
            | c) << 8) | d) == ((a << 24) | (b << 16) | (c << 8) | d)) by (bit_vector);
    }
}

/// The fingerprint of one, two or three bytes, packed.
pub proof fn lemma_tail_fp_small(s: Seq<u8>)
    requires
        1 <= s.len() <= 3,
    ensures
        s.len() == 1 ==> tail_fp(s) == s[0] as u32,
        s.len() == 2 ==> tail_fp(s) == pack2(s[0], s[1]),
        s.len() == 3 ==> tail_fp(s) == pack3(s[0], s[1], s[2]),
    decreases s.len(),
{
    if s.len() == 1 {
        let a = s[0] as u32;
        assert(s.drop_last() =~= Seq::<u8>::empty());
        assert(tail_fp(s.drop_last()) == 0);
        assert(tail_fp(s) == (0u32 << 8) | a);
        assert(((0u32 << 8) | a) == a) by (bit_vector);
    } else if s.len() == 2 {
        lemma_tail_fp_small(s.drop_last());
        let a = s[0] as u32;
        let b = s[1] as u32;
        assert(tail_fp(s.drop_last()) == a);
        assert(tail_fp(s) == (a << 8) | b);
    } else {
        lemma_tail_fp_small(s.drop_last());
        let a = s[0] as u32;
        let b = s[1] as u32;
        let c = s[2] as u32;
        assert(tail_fp(s.drop_last()) == ((a << 8) | b));
        assert(tail_fp(s) == (((a << 8) | b) << 8) | c);
        assert((((a << 8) | b) << 8) | c == ((a << 16) | (b << 8) | c)) by (bit_vector);
    }
}

/// Packing four bytes is injective.
pub broadcast proof fn lemma_pack4_injective(a: u8, b: u8, c: u8, d: u8, e: u8, f: u8, g: u8, h: u8)
    ensures
        #[trigger] pack4(a, b, c, d) == #[trigger] pack4(e, f, g, h) ==> a == e && b == f && c == g
            && d == h,
{
    let au = a as u32;
    let bu = b as u32;
    let cu = c as u32;
    let du = d as u32;
    let eu = e as u32;
    let fu = f as u32;
    let gu = g as u32;
    let hu = h as u32;
    assert(au < 256 && bu < 256 && cu < 256 && du < 256 && eu < 256 && fu < 256 && gu < 256 && hu
        < 256 && ((au << 24) | (bu << 16) | (cu << 8) | du) == ((eu << 24) | (fu << 16) | (gu << 8)
        | hu) ==> au == eu && bu == fu && cu == gu && du == hu) by (bit_vector);
}

/// The value range of four packed identifier bytes. Identifier bytes
/// are at least `'$'` (0x24) and below 0x80, so fingerprints of
/// different lengths cannot collide.
pub broadcast proof fn lemma_pack4_range(a: u8, b: u8, c: u8, d: u8)
    ensures
        0x24 <= a < 0x80 && b < 0x80 && c < 0x80 && d < 0x80 ==> 0x24000000 <= #[trigger] pack4(
            a,
            b,
            c,
            d,
        ) < 0x80000000,
{
    let au = a as u32;
    let bu = b as u32;
    let cu = c as u32;
    let du = d as u32;
    assert(0x24 <= au < 0x80 && bu < 0x80 && cu < 0x80 && du < 0x80 ==> 0x24000000 <= ((au << 24)
        | (bu << 16) | (cu << 8) | du) < 0x80000000) by (bit_vector);
}

/// The value range of three packed identifier bytes.
pub broadcast proof fn lemma_pack3_range(a: u8, b: u8, c: u8)
    ensures
        0x24 <= a < 0x80 && b < 0x80 && c < 0x80 ==> 0x240000 <= #[trigger] pack3(a, b, c)
            < 0x800000,
{
    let au = a as u32;
    let bu = b as u32;
    let cu = c as u32;
    assert(0x24 <= au < 0x80 && bu < 0x80 && cu < 0x80 ==> 0x240000 <= ((au << 16) | (bu << 8)
        | cu) < 0x800000) by (bit_vector);
}

/// The value range of two packed identifier bytes.
pub broadcast proof fn lemma_pack2_range(a: u8, b: u8)
    ensures
        0x24 <= a < 0x80 && b < 0x80 ==> 0x2400 <= #[trigger] pack2(a, b) < 0x8000,
{
    let au = a as u32;
    let bu = b as u32;
    assert(0x24 <= au < 0x80 && bu < 0x80 ==> 0x2400 <= ((au << 8) | bu) < 0x8000) by (bit_vector);
}

/// Packing three bytes is injective.
pub broadcast proof fn lemma_pack3_injective(a: u8, b: u8, c: u8, e: u8, f: u8, g: u8)
    ensures
        #[trigger] pack3(a, b, c) == #[trigger] pack3(e, f, g) ==> a == e && b == f && c == g,
{
    let au = a as u32;
    let bu = b as u32;
    let cu = c as u32;
    let eu = e as u32;
    let fu = f as u32;
    let gu = g as u32;
    assert(au < 256 && bu < 256 && cu < 256 && eu < 256 && fu < 256 && gu < 256 && ((au << 16) | (
    bu << 8) | cu) == ((eu << 16) | (fu << 8) | gu) ==> au == eu && bu == fu && cu == gu)
        by (bit_vector);
}

/// Packing two bytes is injective.
pub broadcast proof fn lemma_pack2_injective(a: u8, b: u8, e: u8, f: u8)
    ensures
        #[trigger] pack2(a, b) == #[trigger] pack2(e, f) ==> a == e && b == f,
{
    let au = a as u32;
    let bu = b as u32;
    let eu = e as u32;
    let fu = f as u32;
    assert(au < 256 && bu < 256 && eu < 256 && fu < 256 && ((au << 8) | bu) == ((eu << 8) | fu)
        ==> au == eu && bu == fu) by (bit_vector);
}

/// An identifier byte lies between `'$'` (0x24) and `'z'` (0x7a).
pub proof fn lemma_identifier_byte_range(c: int)
    requires
        identifier_continue_code(c),
    ensures
        0x24 <= c < 0x80,
{
}

/// The fingerprint of an identifier span, characterized by the span's
/// length: the packed trailing bytes, in a length-separated value range.
pub proof fn lemma_ident_tail(data: Seq<u8>, start: int, e: int)
    requires
        0 <= start < e <= data.len(),
        forall|i: int| start <= i < e ==> identifier_continue_code(data[i] as int),
    ensures
        e - start >= 4 ==> tail_fp(data.subrange(start, e)) == pack4(
            data[e - 4],
            data[e - 3],
            data[e - 2],
            data[e - 1],
        ) && 0x24000000 <= tail_fp(data.subrange(start, e)) < 0x80000000,
        e - start == 3 ==> tail_fp(data.subrange(start, e)) == pack3(
            data[start],
            data[start + 1],
            data[start + 2],
        ) && 0x240000 <= tail_fp(data.subrange(start, e)) < 0x800000,
        e - start == 2 ==> tail_fp(data.subrange(start, e)) == pack2(data[start], data[start + 1])
            && 0x2400 <= tail_fp(data.subrange(start, e)) < 0x8000,
        e - start == 1 ==> tail_fp(data.subrange(start, e)) == data[start] as u32 && 0x24 <= tail_fp(
            data.subrange(start, e),
        ) < 0x80,
{
    let sub = data.subrange(start, e);
    assert(forall|i: int| 0 <= i < sub.len() ==> identifier_continue_code(#[trigger] sub[i] as int));
    assert forall|i: int| 0 <= i < sub.len() implies 0x24 <= #[trigger] sub[i] < 0x80 by {
        lemma_identifier_byte_range(sub[i] as int);
    }
    if e - start >= 4 {
        lemma_tail_fp_4(sub);
        lemma_pack4_range(sub[sub.len() - 4], sub[sub.len() - 3], sub[sub.len() - 2], sub[sub.len()
            - 1]);
    } else {
        lemma_tail_fp_small(sub);
        if e - start == 3 {
            lemma_pack3_range(sub[0], sub[1], sub[2]);
        } else if e - start == 2 {
            lemma_pack2_range(sub[0], sub[1]);
        }
    }
}




} // verus!
