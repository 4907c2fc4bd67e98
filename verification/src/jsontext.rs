//! Canonical JSON text fragments. The audit chain hashes a canonical JSON
//! rendering of each event, so the escaping rules here are part of the
//! chain's definition: `"`, `\` and the ASCII control characters are escaped
//! exactly as serde-style JSON writers do, and nothing else is.

use vstd::prelude::*;
use vstd::slice::slice_index_get;
use vstd::string::StringSliceAdditionalSpecFns;
use vstd::utf8::{
    char_is_scalar, encode_scalar, encode_utf8, encode_utf8_valid_utf8, has_width_1_encoding,
    has_width_2_encoding, has_width_3_encoding, is_leading_byte_width_1, leading_byte_width_1,
    partial_valid_utf8, partial_valid_utf8_extend_ascii_block, valid_utf8, valid_utf8_concat,
};

verus! {

pub open spec fn hex_digit_byte(d: u8) -> u8 {
    if d < 10 {
        (0x30 + d) as u8
    } else {
        (0x57 + d) as u8
    }
}

/// The canonical escape of one byte inside a JSON string literal.
pub open spec fn json_escaped_byte(b: u8) -> Seq<u8> {
    if b == 0x22 {  // '"'
        seq![0x5cu8, 0x22u8]
    } else if b == 0x5c {  // '\'
        seq![0x5cu8, 0x5cu8]
    } else if b == 0x08 {
        seq![0x5cu8, 0x62u8]
    } else if b == 0x09 {
        seq![0x5cu8, 0x74u8]
    } else if b == 0x0a {
        seq![0x5cu8, 0x6eu8]
    } else if b == 0x0c {
        seq![0x5cu8, 0x66u8]
    } else if b == 0x0d {
        seq![0x5cu8, 0x72u8]
    } else if b < 0x20 {
        seq![0x5cu8, 0x75u8, 0x30u8, 0x30u8, hex_digit_byte(b / 16), hex_digit_byte(b % 16)]
    } else {
        seq![b]
    }
}

pub open spec fn json_escaped(bs: Seq<u8>) -> Seq<u8>
    decreases bs.len(),
{
    if bs.len() == 0 {
        Seq::empty()
    } else {
        json_escaped_byte(bs.first()) + json_escaped(bs.drop_first())
    }
}

/// A JSON string literal holding the UTF-8 bytes `bs`.
pub open spec fn json_quoted(bs: Seq<u8>) -> Seq<u8> {
    seq![0x22u8] + json_escaped(bs) + seq![0x22u8]
}

pub proof fn lemma_json_escaped_push(bs: Seq<u8>, b: u8)
    ensures
        json_escaped(bs.push(b)) == json_escaped(bs) + json_escaped_byte(b),
    decreases bs.len(),
{
    if bs.len() == 0 {
        assert(bs.push(b).first() == b);
        assert(bs.push(b).drop_first() =~= Seq::<u8>::empty());
        assert(json_escaped(bs.push(b)) == json_escaped_byte(b) + json_escaped(Seq::<u8>::empty()));
        assert(json_escaped(bs.push(b)) =~= json_escaped(bs) + json_escaped_byte(b));
    } else {
        assert(bs.push(b).first() == bs.first());
        assert(bs.push(b).drop_first() =~= bs.drop_first().push(b));
        lemma_json_escaped_push(bs.drop_first(), b);
        assert(json_escaped(bs.push(b)) =~= json_escaped(bs) + json_escaped_byte(b));
    }
}

proof fn lemma_json_escaped_concat(a: Seq<u8>, b: Seq<u8>)
    ensures
        json_escaped(a + b) == json_escaped(a) + json_escaped(b),
    decreases a.len(),
{
    if a.len() == 0 {
        assert(a + b =~= b);
        assert(json_escaped(a) =~= Seq::<u8>::empty());
        assert(json_escaped(a) + json_escaped(b) =~= json_escaped(b));
    } else {
        assert((a + b)[0] == a[0]);
        assert((a + b).drop_first() =~= a.drop_first() + b);
        lemma_json_escaped_concat(a.drop_first(), b);
        assert(json_escaped(a + b) =~= json_escaped(a) + json_escaped(b));
    }
}

proof fn lemma_ascii_valid_utf8(bs: Seq<u8>)
    requires
        forall|i: int| 0 <= i < bs.len() ==> #[trigger] bs[i] < 0x80,
    ensures
        valid_utf8(bs),
{
    assert(bs.subrange(0, 0) =~= Seq::<u8>::empty());
    assert(valid_utf8(Seq::<u8>::empty()));
    assert(partial_valid_utf8(bs, 0));
    assert(forall|i: int| 0 <= i < bs.len() ==> #[trigger] is_leading_byte_width_1(bs[i]));
    partial_valid_utf8_extend_ascii_block(bs, 0, bs.len() as int);
    assert(bs.subrange(0, bs.len() as int) =~= bs);
}

proof fn lemma_json_escaped_passthrough(bs: Seq<u8>)
    requires
        forall|i: int| 0 <= i < bs.len() ==> 0x80 <= #[trigger] bs[i],
    ensures
        json_escaped(bs) == bs,
    decreases bs.len(),
{
    if bs.len() > 0 {
        lemma_json_escaped_passthrough(bs.drop_first());
        assert(json_escaped_byte(bs[0]) =~= seq![bs[0]]);
        assert(json_escaped(bs) =~= bs);
    }
}

proof fn lemma_json_escaped_byte_ascii(b: u8)
    requires
        b < 0x80,
    ensures
        forall|i: int|
            0 <= i < json_escaped_byte(b).len() ==> #[trigger] json_escaped_byte(b)[i] < 0x80,
{
}

/// The escaping of any UTF-8 encoding is itself valid UTF-8: ASCII bytes
/// expand to ASCII escapes, and the bytes of a multi-byte character pass
/// through untouched as a whole scalar.
proof fn lemma_json_escaped_encode_valid(s: Seq<char>)
    ensures
        valid_utf8(json_escaped(encode_utf8(s))),
    decreases s.len(),
{
    if s.len() == 0 {
        assert(encode_utf8(s) =~= Seq::<u8>::empty());
        assert(json_escaped(encode_utf8(s)) =~= Seq::<u8>::empty());
        assert(valid_utf8(Seq::<u8>::empty()));
    } else {
        let c = s[0];
        let u = c as u32;
        let head = encode_scalar(u);
        let tail = encode_utf8(s.drop_first());
        assert(encode_utf8(s) == head + tail);
        lemma_json_escaped_concat(head, tail);
        lemma_json_escaped_encode_valid(s.drop_first());
        char_is_scalar(c);
        if has_width_1_encoding(u) {
            let b = leading_byte_width_1(u);
            assert((u & 0x7F) < 0x80) by (bit_vector);
            assert(head =~= seq![b]);
            assert(head.first() == b);
            assert(head.drop_first() =~= Seq::<u8>::empty());
            assert(json_escaped(Seq::<u8>::empty()) =~= Seq::<u8>::empty());
            assert(json_escaped(head) == json_escaped_byte(b) + json_escaped(head.drop_first()));
            assert(json_escaped(head) =~= json_escaped_byte(b));
            lemma_json_escaped_byte_ascii(b);
            lemma_ascii_valid_utf8(json_escaped(head));
        } else {
            assert forall|i: int| 0 <= i < head.len() implies 0x80 <= #[trigger] head[i] by {
                lemma_encode_scalar_bytes_high(u);
            }
            lemma_json_escaped_passthrough(head);
            assert(seq![c].drop_first() =~= Seq::<char>::empty());
            assert(encode_utf8(Seq::<char>::empty()) =~= Seq::<u8>::empty());
            assert(encode_utf8(seq![c]) == encode_scalar(seq![c][0] as u32) + encode_utf8(
                seq![c].drop_first(),
            ));
            assert(encode_utf8(seq![c]) =~= head);
            encode_utf8_valid_utf8(seq![c]);
        }
        valid_utf8_concat(json_escaped(head), json_escaped(tail));
        assert(json_escaped(encode_utf8(s)) == json_escaped(head) + json_escaped(tail));
    }
}

proof fn lemma_encode_scalar_bytes_high(u: u32)
    requires
        vstd::utf8::is_scalar(u),
        !has_width_1_encoding(u),
    ensures
        forall|i: int|
            0 <= i < encode_scalar(u).len() ==> 0x80 <= #[trigger] encode_scalar(u)[i],
{
    assert(0x80u8 <= (0xC0 | ((u >> 6) & 0x1F) as u8)) by (bit_vector);
    assert(0x80u8 <= (0xE0 | ((u >> 12) & 0x0F) as u8)) by (bit_vector);
    assert(0x80u8 <= (0xF0 | ((u >> 18) & 0x7) as u8)) by (bit_vector);
    assert(0x80u8 <= (0x80 | (u & 0x3F) as u8)) by (bit_vector);
    assert(0x80u8 <= (0x80 | ((u >> 6) & 0x3F) as u8)) by (bit_vector);
    assert(0x80u8 <= (0x80 | ((u >> 12) & 0x3F) as u8)) by (bit_vector);
    if has_width_2_encoding(u) {
        assert(encode_scalar(u) =~= seq![
            vstd::utf8::leading_byte_width_2(u),
            vstd::utf8::last_continuation_byte(u),
        ]);
    } else if has_width_3_encoding(u) {
        assert(encode_scalar(u) =~= seq![
            vstd::utf8::leading_byte_width_3(u),
            vstd::utf8::second_last_continuation_byte(u),
            vstd::utf8::last_continuation_byte(u),
        ]);
    } else {
        assert(encode_scalar(u) =~= seq![
            vstd::utf8::leading_byte_width_4(u),
            vstd::utf8::third_last_continuation_byte(u),
            vstd::utf8::second_last_continuation_byte(u),
            vstd::utf8::last_continuation_byte(u),
        ]);
    }
}

/// A JSON string literal built over any UTF-8 text is itself valid UTF-8.
pub proof fn lemma_json_quoted_valid_utf8(s: Seq<char>)
    ensures
        valid_utf8(json_quoted(encode_utf8(s))),
{
    lemma_json_escaped_encode_valid(s);
    assert(forall|i: int|
        0 <= i < seq![0x22u8].len() ==> #[trigger] seq![0x22u8][i] < 0x80);
    lemma_ascii_valid_utf8(seq![0x22u8]);
    valid_utf8_concat(seq![0x22u8], json_escaped(encode_utf8(s)));
    valid_utf8_concat(seq![0x22u8] + json_escaped(encode_utf8(s)), seq![0x22u8]);
    assert(json_quoted(encode_utf8(s)) =~= (seq![0x22u8] + json_escaped(encode_utf8(s)))
        + seq![0x22u8]);
}

fn push_escaped_byte(out: &mut Vec<u8>, b: u8)
    ensures
        final(out)@ == old(out)@ + json_escaped_byte(b),
{
    if b == 0x22 {
        out.push(0x5c);
        out.push(0x22);
    } else if b == 0x5c {
        out.push(0x5c);
        out.push(0x5c);
    } else if b == 0x08 {
        out.push(0x5c);
        out.push(0x62);
    } else if b == 0x09 {
        out.push(0x5c);
        out.push(0x74);
    } else if b == 0x0a {
        out.push(0x5c);
        out.push(0x6e);
    } else if b == 0x0c {
        out.push(0x5c);
        out.push(0x66);
    } else if b == 0x0d {
        out.push(0x5c);
        out.push(0x72);
    } else if b < 0x20 {
        out.push(0x5c);
        out.push(0x75);
        out.push(0x30);
        out.push(0x30);
        let hi = b / 16;
        let lo = b % 16;
        out.push(if hi < 10 { 0x30 + hi } else { 0x57 + hi });
        out.push(if lo < 10 { 0x30 + lo } else { 0x57 + lo });
    } else {
        out.push(b);
    }
    proof {
        assert(out@ =~= old(out)@ + json_escaped_byte(b));
    }
}

/// Appends the UTF-8 bytes of `s` to `out`.
pub fn push_str_bytes(out: &mut Vec<u8>, s: &str)
    ensures
        final(out)@ == old(out)@ + s.spec_bytes(),
        valid_utf8(old(out)@) ==> valid_utf8(final(out)@),
{
    proof {
        encode_utf8_valid_utf8(s@);
        if valid_utf8(out@) {
            valid_utf8_concat(out@, s.spec_bytes());
        }
    }
    let bytes = s.as_bytes();
    let n = bytes.len();
    let mut i: usize = 0;
    while i < n
        invariant
            bytes@ == s.spec_bytes(),
            n == bytes@.len(),
            0 <= i <= n,
            out@ == old(out)@ + bytes@.take(i as int),
        decreases n - i,
    {
        let b = *slice_index_get(bytes, i);
        out.push(b);
        proof {
            assert(bytes@.take(i + 1 as int) =~= bytes@.take(i as int).push(b));
        }
        i = i + 1;
    }
    proof {
        assert(bytes@.take(n as int) =~= bytes@);
    }
}

/// Appends the JSON string literal holding the UTF-8 bytes of `s` to `out`.
pub fn push_json_quoted(out: &mut Vec<u8>, s: &str)
    ensures
        final(out)@ == old(out)@ + json_quoted(s.spec_bytes()),
        valid_utf8(old(out)@) ==> valid_utf8(final(out)@),
{
    proof {
        lemma_json_quoted_valid_utf8(s@);
        if valid_utf8(out@) {
            valid_utf8_concat(out@, json_quoted(s.spec_bytes()));
        }
    }
    out.push(0x22);
    let bytes = s.as_bytes();
    let n = bytes.len();
    let mut i: usize = 0;
    while i < n
        invariant
            bytes@ == s.spec_bytes(),
            n == bytes@.len(),
            0 <= i <= n,
            out@ == old(out)@ + seq![0x22u8] + json_escaped(bytes@.take(i as int)),
        decreases n - i,
    {
        let b = *slice_index_get(bytes, i);
        proof {
            assert(bytes@.take(i + 1 as int) =~= bytes@.take(i as int).push(b));
            lemma_json_escaped_push(bytes@.take(i as int), b);
        }
        push_escaped_byte(out, b);
        i = i + 1;
    }
    out.push(0x22);
    proof {
        assert(bytes@.take(n as int) =~= bytes@);
        assert(out@ =~= old(out)@ + json_quoted(s.spec_bytes()));
    }
}

} // verus!
