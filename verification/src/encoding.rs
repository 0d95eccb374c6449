//! Percent-encoding of texts and of paths.

use vstd::prelude::*;

verus! {

/// Whether a byte stands for itself in percent-encoded text: an ASCII letter or
/// digit, or one of `-`, `.`, `_` and `~`.
pub open spec fn is_unreserved(b: u8) -> bool {
    ||| 0x30 <= b <= 0x39
    ||| 0x41 <= b <= 0x5a
    ||| 0x61 <= b <= 0x7a
    ||| b == 0x2d
    ||| b == 0x2e
    ||| b == 0x5f
    ||| b == 0x7e
}

/// The hexadecimal digit of a number below 16, in upper case.
pub open spec fn hex_digit(n: int) -> char {
    if n < 10 {
        (0x30 + n) as char
    } else {
        (0x41 + n - 10) as char
    }
}

/// A byte in percent-encoded text.
pub open spec fn encoded_byte(b: u8) -> Seq<char> {
    if is_unreserved(b) {
        seq![b as char]
    } else {
        seq!['%', hex_digit(b as int / 16), hex_digit(b as int % 16)]
    }
}

/// Bytes in percent-encoded text.
pub open spec fn encoded_bytes(bytes: Seq<u8>) -> Seq<char>
    decreases bytes.len(),
{
    if bytes.len() == 0 {
        seq![]
    } else {
        encoded_byte(bytes[0]) + encoded_bytes(bytes.drop_first())
    }
}

/// The percent-encoding of a text: that of its UTF-8 bytes.
pub open spec fn percent_encoded(text: Seq<char>) -> Seq<char> {
    encoded_bytes(vstd::utf8::encode_utf8(text))
}

/// Calls `urlencoding::encode`, which percent-encodes every byte of the text's
/// UTF-8 form but for ASCII letters and digits and `-`, `_`, `.`, `~`, with
/// hexadecimal digits in upper case.
#[verifier::external_body]
pub(crate) fn encode(text: &str) -> (encoded: String)
    ensures
        encoded@ == percent_encoded(text@),
{
    urlencoding::encode(text).into_owned()
}

/// The parts of a text between its slashes; one more than there are slashes.
pub open spec fn parts(text: Seq<char>) -> Seq<Seq<char>>
    decreases text.len(),
{
    if text.len() == 0 {
        seq![seq![]]
    } else {
        let before = parts(text.drop_last());
        if text.last() == '/' {
            before.push(seq![])
        } else {
            before.drop_last().push(before.last().push(text.last()))
        }
    }
}

/// Parts put together again, with a slash between any two.
pub open spec fn joined(parts: Seq<Seq<char>>) -> Seq<char>
    decreases parts.len(),
{
    if parts.len() == 0 {
        seq![]
    } else if parts.len() == 1 {
        parts[0]
    } else {
        joined(parts.drop_last()) + seq!['/'] + parts.last()
    }
}

/// Each part percent-encoded.
pub open spec fn encoded_parts(parts: Seq<Seq<char>>) -> Seq<Seq<char>> {
    parts.map_values(|part: Seq<char>| percent_encoded(part))
}

/// A path with each part percent-encoded. The slashes between the parts stay.
pub open spec fn encoded_path(path: Seq<char>) -> Seq<char> {
    joined(encoded_parts(parts(path)))
}

/// Percent-encodes each part of a path.
pub fn encode_path(path: &str) -> (encoded: String)
    ensures
        encoded@ == encoded_path(path@),
{
    let mut done = String::new();
    let mut part = String::new();
    proof {
        assert(path@.take(0) =~= Seq::empty());
        assert(seq![Seq::<char>::empty()].drop_last() =~= Seq::empty());
    }
    for c in it: path.chars()
        invariant
            it.seq() == path@,
            parts(path@.take(it.index())).len() > 0,
            part@ == parts(path@.take(it.index())).last(),
            done@ == slashed(encoded_parts(parts(path@.take(it.index())).drop_last())),
    {
        let ghost i = it.index();
        let ghost before = parts(path@.take(i));
        let ghost after = parts(path@.take(i + 1));
        proof {
            assert(path@.take(i + 1).drop_last() =~= path@.take(i));
        }
        if c == '/' {
            done.append(encode(part.as_str()).as_str());
            done.append("/");
            part = String::new();
            proof {
                reveal_strlit("/");
                assert("/"@ =~= seq!['/']);
                assert(after.drop_last() =~= before);
                assert(encoded_parts(before).drop_last() =~= encoded_parts(before.drop_last()));
            }
        } else {
            part.push(c);
            proof {
                assert(after.drop_last() =~= before.drop_last());
            }
        }
    }
    done.append(encode(part.as_str()).as_str());
    proof {
        assert(path@.take(path@.len() as int) =~= path@);
        let all = parts(path@);
        assert(encoded_parts(all).drop_last() =~= encoded_parts(all.drop_last()));
        lemma_joined_is_slashed(encoded_parts(all));
    }
    done
}

/// Parts with a slash after each.
pub open spec fn slashed(parts: Seq<Seq<char>>) -> Seq<char>
    decreases parts.len(),
{
    if parts.len() == 0 {
        seq![]
    } else {
        slashed(parts.drop_last()) + parts.last() + seq!['/']
    }
}

/// The last part has no slash after it.
pub(crate) proof fn lemma_joined_is_slashed(parts: Seq<Seq<char>>)
    requires
        parts.len() > 0,
    ensures
        joined(parts) == slashed(parts.drop_last()) + parts.last(),
    decreases parts.len(),
{
    if parts.len() > 1 {
        lemma_joined_is_slashed(parts.drop_last());
        assert(joined(parts) =~= slashed(parts.drop_last()) + parts.last());
    } else {
        assert(slashed(parts.drop_last()) =~= Seq::empty());
        assert(joined(parts) =~= slashed(parts.drop_last()) + parts.last());
    }
}

} // verus!
