use vstd::prelude::*;
use vstd::utf8::*;
use crate::error::SemError;

verus! {

/// Whether the text holds a nul character.
pub open spec fn has_nul(s: Seq<char>) -> bool {
    s.contains('\0')
}

/// Whether `b` is a nul-terminated byte string: it ends in a zero byte and
/// holds no other.
pub open spec fn is_c_string(b: Seq<u8>) -> bool {
    &&& b.len() > 0
    &&& b.last() == 0u8
    &&& forall|i: int| 0 <= i < b.len() - 1 ==> b[i] != 0u8
}

proof fn lemma_marked_byte_nonzero(x: u8)
    by (bit_vector)
    ensures
        (0x80u8 | x) != 0u8,
        (0xC0u8 | x) != 0u8,
        (0xE0u8 | x) != 0u8,
        (0xF0u8 | x) != 0u8,
{
}

proof fn lemma_low_byte_zero(v: u32)
    by (bit_vector)
    requires
        v <= 0x7F,
    ensures
        ((v & 0x7F) as u8 == 0u8) == (v == 0u32),
{
}

/// The UTF-8 encoding of one character holds a zero byte exactly when the
/// character is nul.
proof fn lemma_scalar_nul(c: char)
    ensures
        encode_scalar(c as u32).contains(0u8) == (c == '\0'),
{
    let v = c as u32;
    let e = encode_scalar(v);
    assert((c == '\0') == (v == 0u32));
    if has_width_1_encoding(v) {
        lemma_low_byte_zero(v);
        assert(e.contains(0u8) == (e[0] == 0u8));
    } else if has_width_2_encoding(v) {
        lemma_marked_byte_nonzero(((v >> 6) & 0x1F) as u8);
        lemma_marked_byte_nonzero((v & 0x3F) as u8);
        assert(!e.contains(0u8));
    } else if has_width_3_encoding(v) {
        lemma_marked_byte_nonzero(((v >> 12) & 0x0F) as u8);
        lemma_marked_byte_nonzero(((v >> 6) & 0x3F) as u8);
        lemma_marked_byte_nonzero((v & 0x3F) as u8);
        assert(!e.contains(0u8));
    } else {
        lemma_marked_byte_nonzero(((v >> 18) & 0x7) as u8);
        lemma_marked_byte_nonzero(((v >> 12) & 0x3F) as u8);
        lemma_marked_byte_nonzero(((v >> 6) & 0x3F) as u8);
        lemma_marked_byte_nonzero((v & 0x3F) as u8);
        assert(!e.contains(0u8));
    }
}

/// The UTF-8 encoding of a text holds a zero byte exactly when the text
/// holds a nul character.
pub proof fn lemma_encoding_nul(s: Seq<char>)
    ensures
        encode_utf8(s).contains(0u8) == has_nul(s),
    decreases s.len(),
{
    if s.len() > 0 {
        let head = encode_scalar(s[0] as u32);
        let tail = encode_utf8(s.drop_first());
        lemma_scalar_nul(s[0]);
        lemma_encoding_nul(s.drop_first());
        assert(encode_utf8(s) == head + tail);
        if (head + tail).contains(0u8) {
            let k = choose|k: int| 0 <= k < (head + tail).len() && (head + tail)[k] == 0u8;
            if k < head.len() {
                assert(head[k] == 0u8);
            } else {
                assert(tail[k - head.len()] == 0u8);
            }
        }
        if head.contains(0u8) {
            let k = choose|k: int| 0 <= k < head.len() && head[k] == 0u8;
            assert((head + tail)[k] == 0u8);
        }
        if tail.contains(0u8) {
            let k = choose|k: int| 0 <= k < tail.len() && tail[k] == 0u8;
            assert((head + tail)[k + head.len()] == 0u8);
        }
        if s.contains('\0') {
            let k = choose|k: int| 0 <= k < s.len() && s[k] == '\0';
            if k > 0 {
                assert(s.drop_first()[k - 1] == '\0');
            }
        }
        if s.drop_first().contains('\0') {
            let k = choose|k: int| 0 <= k < s.len() - 1 && s.drop_first()[k] == '\0';
            assert(s[k + 1] == '\0');
        }
    }
}

/// The nul-terminated form of `name`: its UTF-8 bytes followed by a zero
/// byte. A name that holds a nul character has no such form and is refused.
pub fn encode_name(name: &str) -> (r: Result<Vec<u8>, SemError>)
    ensures
        match r {
            Ok(bytes) => !has_nul(name@) && bytes@ == encode_utf8(name@).push(0u8) && is_c_string(
                bytes@,
            ),
            Err(e) => has_nul(name@) && e == SemError::NameEncoding,
        },
{
    let src = name.as_bytes();
    proof {
        lemma_encoding_nul(name@);
    }
    let mut out: Vec<u8> = Vec::new();
    let mut i: usize = 0;
    while i < src.len()
        invariant
            src@ == encode_utf8(name@),
            encode_utf8(name@).contains(0u8) == has_nul(name@),
            i <= src@.len(),
            out@ == src@.subrange(0, i as int),
            forall|j: int| 0 <= j < i ==> src@[j] != 0u8,
        decreases src@.len() - i,
    {
        if src[i] == 0 {
            assert(src@[i as int] == 0u8);
            return Err(SemError::NameEncoding);
        }
        out.push(src[i]);
        i = i + 1;
        assert(out@ =~= src@.subrange(0, i as int));
    }
    assert(out@ =~= src@);
    out.push(0);
    Ok(out)
}

} // verus!
