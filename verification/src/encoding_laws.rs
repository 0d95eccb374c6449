//! What percent-encoding keeps and what it keeps out.

use crate::encoding;
use vstd::prelude::*;

verus! {

/// The value of a hexadecimal digit.
pub open spec fn hex_value(digit: char) -> int {
    let code = digit as int;
    if 0x30 <= code <= 0x39 {
        code - 0x30
    } else if 0x41 <= code <= 0x46 {
        code - 0x41 + 10
    } else {
        code - 0x61 + 10
    }
}

/// The bytes that percent-encoded text stands for.
pub open spec fn percent_decoded(text: Seq<char>) -> Seq<u8>
    decreases text.len(),
{
    if text.len() == 0 {
        seq![]
    } else if text[0] == '%' && text.len() >= 3 {
        seq![(hex_value(text[1]) * 16 + hex_value(text[2])) as u8] + percent_decoded(text.skip(3))
    } else {
        seq![text[0] as u8] + percent_decoded(text.skip(1))
    }
}

/// The digits of a byte give the byte back.
proof fn lemma_hex_round_trip(b: u8)
    ensures
        hex_value(encoding::hex_digit(b as int / 16)) == b as int / 16,
        hex_value(encoding::hex_digit(b as int % 16)) == b as int % 16,
        (b as int / 16) * 16 + b as int % 16 == b,
{
}

/// Decoding reads encoded bytes and goes on behind them.
proof fn lemma_decode_bytes(bytes: Seq<u8>, rest: Seq<char>)
    ensures
        percent_decoded(encoding::encoded_bytes(bytes) + rest) == bytes + percent_decoded(rest),
    decreases bytes.len(),
{
    if bytes.len() == 0 {
        assert(encoding::encoded_bytes(bytes) + rest =~= rest);
        assert(bytes + percent_decoded(rest) =~= percent_decoded(rest));
    } else {
        let first = bytes[0];
        let head = encoding::encoded_byte(first);
        let tail = encoding::encoded_bytes(bytes.drop_first()) + rest;
        let text = encoding::encoded_bytes(bytes) + rest;
        lemma_decode_bytes(bytes.drop_first(), rest);
        lemma_hex_round_trip(first);
        assert(text =~= head + tail);
        assert(text.skip(head.len() as int) =~= tail);
        assert(text[0] == head[0]);
        if encoding::is_unreserved(first) {
            assert(text[0] as u8 == first);
        } else {
            assert(text[1] == head[1] && text[2] == head[2]);
        }
        assert(percent_decoded(text) =~= seq![first] + percent_decoded(tail));
        assert(bytes =~= seq![first] + bytes.drop_first());
        assert(percent_decoded(text) =~= bytes + percent_decoded(rest));
    }
}

/// Decoding an encoded text gives the text back, in UTF-8.
pub proof fn law_decoding_undoes_encoding(text: Seq<char>)
    ensures
        percent_decoded(encoding::percent_encoded(text)) == vstd::utf8::encode_utf8(text),
{
    let bytes = vstd::utf8::encode_utf8(text);
    lemma_decode_bytes(bytes, Seq::empty());
    assert(encoding::encoded_bytes(bytes) + Seq::empty() =~= encoding::encoded_bytes(bytes));
    assert(bytes + percent_decoded(Seq::empty()) =~= bytes);
}

/// Different texts are encoded differently.
pub proof fn law_encoding_is_injective(a: Seq<char>, b: Seq<char>)
    requires
        encoding::percent_encoded(a) == encoding::percent_encoded(b),
    ensures
        a == b,
{
    law_decoding_undoes_encoding(a);
    law_decoding_undoes_encoding(b);
    vstd::utf8::encode_utf8_decode_utf8(a);
    vstd::utf8::encode_utf8_decode_utf8(b);
}

/// Whether a character can occur in percent-encoded text.
pub open spec fn is_encoded_char(c: char) -> bool {
    c == '%' || (c as int <= 0x7f && encoding::is_unreserved(c as u8))
}

/// Encoded text is made of unreserved characters and percent signs alone.
pub proof fn law_encoded_alphabet(text: Seq<char>)
    ensures
        forall|i: int|
            0 <= i < encoding::percent_encoded(text).len() ==> is_encoded_char(
                #[trigger] encoding::percent_encoded(text)[i],
            ),
{
    lemma_encoded_alphabet(vstd::utf8::encode_utf8(text));
}

/// The same of bytes.
proof fn lemma_encoded_alphabet(bytes: Seq<u8>)
    ensures
        forall|i: int|
            0 <= i < encoding::encoded_bytes(bytes).len() ==> is_encoded_char(
                #[trigger] encoding::encoded_bytes(bytes)[i],
            ),
    decreases bytes.len(),
{
    if bytes.len() > 0 {
        let head = encoding::encoded_byte(bytes[0]);
        let tail = encoding::encoded_bytes(bytes.drop_first());
        lemma_encoded_alphabet(bytes.drop_first());
        assert forall|i: int| 0 <= i < (head + tail).len() implies is_encoded_char(
            #[trigger] (head + tail)[i],
        ) by {
            if i < head.len() {
                assert((head + tail)[i] == head[i]);
            } else {
                assert((head + tail)[i] == tail[i - head.len()]);
            }
        }
    }
}

/// Encoded text holds no slash and no character that HTML gives a meaning to.
pub proof fn law_encoded_is_harmless(text: Seq<char>)
    ensures
        !encoding::percent_encoded(text).contains('/'),
        !encoding::percent_encoded(text).contains('\''),
        !encoding::percent_encoded(text).contains('"'),
        !encoding::percent_encoded(text).contains('<'),
        !encoding::percent_encoded(text).contains('>'),
        !encoding::percent_encoded(text).contains('&'),
{
    law_encoded_alphabet(text);
}

/// The UTF-8 form of two texts in a row.
proof fn lemma_utf8_concat(a: Seq<char>, b: Seq<char>)
    ensures
        vstd::utf8::encode_utf8(a + b) == vstd::utf8::encode_utf8(a) + vstd::utf8::encode_utf8(b),
    decreases a.len(),
{
    if a.len() == 0 {
        assert(a + b =~= b);
        assert(vstd::utf8::encode_utf8(a) + vstd::utf8::encode_utf8(b)
            =~= vstd::utf8::encode_utf8(b));
    } else {
        lemma_utf8_concat(a.drop_first(), b);
        assert((a + b).drop_first() =~= a.drop_first() + b);
        assert(vstd::utf8::encode_utf8(a + b) =~= vstd::utf8::encode_utf8(a)
            + vstd::utf8::encode_utf8(b));
    }
}

/// A text is its parts, put together again.
pub proof fn law_parts_make_the_text(text: Seq<char>)
    ensures
        encoding::parts(text).len() > 0,
        encoding::joined(encoding::parts(text)) == text,
    decreases text.len(),
{
    if text.len() > 0 {
        let before = encoding::parts(text.drop_last());
        let all = encoding::parts(text);
        law_parts_make_the_text(text.drop_last());
        if text.last() == '/' {
            assert(all.drop_last() =~= before);
            assert(encoding::joined(all) =~= text);
        } else if before.len() > 1 {
            assert(all.drop_last() =~= before.drop_last());
            assert(encoding::joined(all) =~= encoding::joined(before).push(text.last()));
            assert(encoding::joined(all) =~= text);
        } else {
            assert(all =~= seq![before[0].push(text.last())]);
            assert(encoding::joined(all) =~= text);
        }
    }
}

/// Decoding reads encoded parts and goes on behind them.
proof fn lemma_decode_parts(parts: Seq<Seq<char>>, rest: Seq<char>)
    ensures
        percent_decoded(encoding::joined(encoding::encoded_parts(parts)) + rest)
            == vstd::utf8::encode_utf8(encoding::joined(parts)) + percent_decoded(rest),
    decreases parts.len(),
{
    let encoded = encoding::encoded_parts(parts);
    if parts.len() == 0 {
        assert(encoding::joined(encoded) + rest =~= rest);
        assert(vstd::utf8::encode_utf8(encoding::joined(parts)) + percent_decoded(rest)
            =~= percent_decoded(rest));
    } else if parts.len() == 1 {
        lemma_decode_bytes(vstd::utf8::encode_utf8(parts[0]), rest);
    } else {
        let front = parts.drop_last();
        let last = parts.last();
        let slash = seq!['/'];
        let tail = encoding::percent_encoded(last) + rest;
        assert(encoded.drop_last() =~= encoding::encoded_parts(front));
        assert(encoding::joined(encoded) + rest =~= encoding::joined(
            encoding::encoded_parts(front),
        ) + (slash + tail));
        lemma_decode_parts(front, slash + tail);
        lemma_decode_bytes(vstd::utf8::encode_utf8(last), rest);
        assert((slash + tail).skip(1) =~= tail);
        lemma_utf8_concat(encoding::joined(front) + slash, last);
        lemma_utf8_concat(encoding::joined(front), slash);
        assert(vstd::utf8::encode_utf8(slash) =~= seq![0x2fu8]) by {
            assert(slash.drop_first() =~= Seq::empty());
            vstd::utf8::is_ascii_chars_encode_utf8(slash);
        }
        assert(percent_decoded(slash + tail) =~= seq![0x2fu8] + percent_decoded(tail));
        assert(percent_decoded(encoding::joined(encoded) + rest) =~= vstd::utf8::encode_utf8(
            encoding::joined(parts),
        ) + percent_decoded(rest));
    }
}

/// Decoding an encoded path gives the path back, in UTF-8.
pub proof fn law_decoding_undoes_path_encoding(path: Seq<char>)
    ensures
        percent_decoded(encoding::encoded_path(path)) == vstd::utf8::encode_utf8(path),
{
    let encoded = encoding::encoded_path(path);
    law_parts_make_the_text(path);
    lemma_decode_parts(encoding::parts(path), Seq::empty());
    assert(encoded + Seq::empty() =~= encoded);
    assert(vstd::utf8::encode_utf8(path) + percent_decoded(Seq::empty())
        =~= vstd::utf8::encode_utf8(path));
}

/// The parts of two texts in a row, of which the second has no slash.
proof fn lemma_parts_extend(a: Seq<char>, b: Seq<char>)
    requires
        !b.contains('/'),
    ensures
        encoding::parts(a).len() > 0,
        encoding::parts(a + b) == encoding::parts(a).drop_last().push(
            encoding::parts(a).last() + b,
        ),
    decreases b.len(),
{
    law_parts_make_the_text(a);
    if b.len() == 0 {
        assert(a + b =~= a);
        assert(encoding::parts(a).last() + b =~= encoding::parts(a).last());
        assert(encoding::parts(a + b) =~= encoding::parts(a).drop_last().push(
            encoding::parts(a).last() + b,
        ));
    } else {
        let c = b.drop_last();
        assert(!c.contains('/')) by {
            if c.contains('/') {
                let i = choose|i: int| 0 <= i < c.len() && c[i] == '/';
                assert(b[i] == '/');
            }
        }
        lemma_parts_extend(a, c);
        assert((a + b).drop_last() =~= a + c);
        assert(b[b.len() - 1] != '/');
        assert(encoding::parts(a).last() + b =~= (encoding::parts(a).last() + c).push(b.last()));
        assert(encoding::parts(a + b) =~= encoding::parts(a).drop_last().push(
            encoding::parts(a).last() + b,
        ));
    }
}

/// The parts of two texts with a slash between them are those of the first and
/// then those of the second.
pub(crate) proof fn lemma_parts_on_both_sides(a: Seq<char>, b: Seq<char>)
    ensures
        encoding::parts(a + seq!['/'] + b) == encoding::parts(a) + encoding::parts(b),
    decreases b.len(),
{
    let text = a + seq!['/'] + b;
    law_parts_make_the_text(a);
    if b.len() == 0 {
        assert(text.drop_last() =~= a);
        assert(encoding::parts(text) =~= encoding::parts(a) + encoding::parts(b));
    } else {
        let c = b.drop_last();
        law_parts_make_the_text(c);
        lemma_parts_on_both_sides(a, c);
        assert(text.drop_last() =~= a + seq!['/'] + c);
        assert(encoding::parts(text) =~= encoding::parts(a) + encoding::parts(b));
    }
}

/// Parts without slashes are what their joined text is made of.
proof fn lemma_parts_of_joined(all: Seq<Seq<char>>)
    requires
        all.len() > 0,
        forall|i: int| 0 <= i < all.len() ==> !(#[trigger] all[i]).contains('/'),
    ensures
        encoding::parts(encoding::joined(all)) == all,
    decreases all.len(),
{
    if all.len() == 1 {
        lemma_parts_extend(Seq::empty(), all[0]);
        assert(Seq::<char>::empty() + all[0] =~= all[0]);
        assert(encoding::parts(all[0]) =~= all);
    } else {
        let front = all.drop_last();
        assert forall|i: int| 0 <= i < front.len() implies !(#[trigger] front[i]).contains('/') by {
            assert(front[i] == all[i]);
        }
        lemma_parts_of_joined(front);
        let start = encoding::joined(front) + seq!['/'];
        assert(start.drop_last() =~= encoding::joined(front));
        lemma_parts_extend(start, all.last());
        assert(encoding::parts(start).drop_last() =~= front);
        assert(Seq::<char>::empty() + all.last() =~= all.last());
        assert(encoding::parts(encoding::joined(all)) =~= all);
    }
}

/// The slashes of an encoded path are those of the path: its parts are the
/// encoded parts of the path.
pub proof fn law_encoding_keeps_parts(path: Seq<char>)
    ensures
        encoding::parts(encoding::encoded_path(path)) == encoding::encoded_parts(
            encoding::parts(path),
        ),
{
    let all = encoding::encoded_parts(encoding::parts(path));
    law_parts_make_the_text(path);
    assert forall|i: int| 0 <= i < all.len() implies !(#[trigger] all[i]).contains('/') by {
        law_encoded_is_harmless(encoding::parts(path)[i]);
    }
    lemma_parts_of_joined(all);
}

/// No part of a text has a slash in it.
pub proof fn law_parts_have_no_slash(text: Seq<char>, i: int)
    requires
        0 <= i < encoding::parts(text).len(),
    ensures
        !encoding::parts(text)[i].contains('/'),
    decreases text.len(),
{
    if text.len() > 0 {
        let front = text.drop_last();
        let before = encoding::parts(front);
        law_parts_make_the_text(front);
        let last = before.len() - 1;
        if text.last() == '/' {
            if i < before.len() {
                law_parts_have_no_slash(front, i);
            }
        } else if i < last {
            law_parts_have_no_slash(front, i);
        } else {
            law_parts_have_no_slash(front, last);
            let part = encoding::parts(text)[i];
            assert forall|k: int| 0 <= k < part.len() implies part[k] != '/' by {
                if k < before[last].len() {
                    assert(before[last].contains(before[last][k]));
                }
            }
        }
    }
}

/// A path is encoded part by part: it has as many parts as before, and each is
/// the encoding of what it was.
pub proof fn law_each_part_is_encoded(path: Seq<char>, i: int)
    requires
        0 <= i < encoding::parts(path).len(),
    ensures
        encoding::parts(encoding::encoded_path(path)).len() == encoding::parts(path).len(),
        encoding::parts(encoding::encoded_path(path))[i] == encoding::percent_encoded(
            encoding::parts(path)[i],
        ),
{
    law_encoding_keeps_parts(path);
}

} // verus!
