//! Lump names: ASCII text cut out of fixed-width, NUL-padded fields.

use vstd::prelude::*;
use vstd::string::StringSliceAdditionalSpecFns;
use vstd::utf8::{decode_utf8, encode_utf8, is_ascii_chars, valid_utf8};

verus! {

/// True when every byte is below 128.
pub open spec fn is_ascii_bytes(bytes: Seq<u8>) -> bool {
    forall|i: int| 0 <= i < bytes.len() ==> bytes[i] < 128
}

/// The text that ASCII bytes spell: one character per byte, with the same code.
pub open spec fn ascii_chars(bytes: Seq<u8>) -> Seq<char> {
    Seq::new(bytes.len(), |i: int| bytes[i] as char)
}

/// `bytes` without the NUL bytes at its end. NUL bytes elsewhere stay.
pub open spec fn trim_trailing_nuls(bytes: Seq<u8>) -> Seq<u8>
    decreases bytes.len(),
{
    if bytes.len() > 0 && bytes.last() == 0 {
        trim_trailing_nuls(bytes.drop_last())
    } else {
        bytes
    }
}

/// The bytes of `bytes` before its first NUL byte; all of them if it has none.
pub open spec fn until_nul(bytes: Seq<u8>) -> Seq<u8>
    decreases bytes.len(),
{
    if bytes.len() == 0 || bytes[0] == 0 {
        Seq::empty()
    } else {
        seq![bytes[0]] + until_nul(bytes.drop_first())
    }
}

/// Trimming keeps a prefix, removes NUL bytes only, and leaves no NUL byte at the end.
pub proof fn lemma_trim_trailing_nuls(bytes: Seq<u8>)
    ensures
        trim_trailing_nuls(bytes).len() <= bytes.len(),
        trim_trailing_nuls(bytes) == bytes.subrange(0, trim_trailing_nuls(bytes).len() as int),
        forall|i: int| trim_trailing_nuls(bytes).len() <= i < bytes.len() ==> bytes[i] == 0,
        trim_trailing_nuls(bytes).len() > 0 ==> trim_trailing_nuls(bytes).last() != 0,
    decreases bytes.len(),
{
    if bytes.len() > 0 && bytes.last() == 0 {
        let shorter = bytes.drop_last();
        lemma_trim_trailing_nuls(shorter);
        let n = trim_trailing_nuls(shorter).len() as int;
        assert(shorter.subrange(0, n) =~= bytes.subrange(0, n));
        assert forall|i: int| n <= i < bytes.len() implies bytes[i] == 0 by {
            if i < shorter.len() {
                assert(shorter[i] == bytes[i]);
            }
        }
    } else {
        assert(bytes.subrange(0, bytes.len() as int) =~= bytes);
    }
}

/// The prefix of length `n` is the trimmed sequence when only NUL bytes follow it and it
/// does not end in one.
pub proof fn lemma_trimmed_prefix(bytes: Seq<u8>, n: int)
    requires
        0 <= n <= bytes.len(),
        forall|i: int| n <= i < bytes.len() ==> bytes[i] == 0,
        n > 0 ==> bytes[n - 1] != 0,
    ensures
        trim_trailing_nuls(bytes) == bytes.subrange(0, n),
    decreases bytes.len(),
{
    if n == bytes.len() {
        assert(bytes.subrange(0, n) =~= bytes);
    } else {
        let shorter = bytes.drop_last();
        lemma_trimmed_prefix(shorter, n);
        assert(shorter.subrange(0, n) =~= bytes.subrange(0, n));
    }
}

/// The prefix of length `n` is what stands before the first NUL byte when it holds no NUL
/// byte and either ends the sequence or is followed by one.
pub proof fn lemma_until_nul_prefix(bytes: Seq<u8>, n: int)
    requires
        0 <= n <= bytes.len(),
        forall|i: int| 0 <= i < n ==> bytes[i] != 0,
        n == bytes.len() || bytes[n] == 0,
    ensures
        until_nul(bytes) == bytes.subrange(0, n),
    decreases n,
{
    if n == 0 {
        assert(bytes.subrange(0, 0) =~= Seq::<u8>::empty());
    } else {
        let rest = bytes.drop_first();
        assert forall|i: int| 0 <= i < n - 1 implies rest[i] != 0 by {
            assert(rest[i] == bytes[i + 1]);
        }
        lemma_until_nul_prefix(rest, n - 1);
        assert(bytes.subrange(0, n) =~= seq![bytes[0]] + rest.subrange(0, n - 1));
    }
}

/// What stands before the first NUL byte is a prefix without a NUL byte, and a NUL byte
/// follows it unless it is the whole sequence.
pub proof fn lemma_until_nul(bytes: Seq<u8>)
    ensures
        until_nul(bytes).len() <= bytes.len(),
        until_nul(bytes) == bytes.subrange(0, until_nul(bytes).len() as int),
        forall|i: int| 0 <= i < until_nul(bytes).len() ==> bytes[i] != 0,
        until_nul(bytes).len() < bytes.len() ==> bytes[until_nul(bytes).len() as int] == 0,
    decreases bytes.len(),
{
    if bytes.len() == 0 || bytes[0] == 0 {
        assert(bytes.subrange(0, 0) =~= Seq::<u8>::empty());
    } else {
        let rest = bytes.drop_first();
        lemma_until_nul(rest);
        let n = until_nul(rest).len() as int;
        assert(bytes.subrange(0, n + 1) =~= seq![bytes[0]] + rest.subrange(0, n));
        assert forall|i: int| 0 <= i < n + 1 implies bytes[i] != 0 by {
            if i > 0 {
                assert(rest[i - 1] == bytes[i]);
            }
        }
    }
}

/// ASCII bytes are valid UTF-8 and decode to one character per byte.
pub proof fn lemma_ascii_is_utf8(bytes: Seq<u8>)
    requires
        is_ascii_bytes(bytes),
    ensures
        valid_utf8(bytes),
        decode_utf8(bytes) == ascii_chars(bytes),
{
    let chars = ascii_chars(bytes);
    assert(is_ascii_chars(chars)) by {
        assert forall|i: int| 0 <= i < chars.len() implies '\0' <= #[trigger] chars[i]
            <= '\u{7f}' by {
            assert(bytes[i] < 128);
        }
    }
    vstd::utf8::is_ascii_chars_encode_utf8(chars);
    assert(encode_utf8(chars) =~= bytes) by {
        assert forall|i: int| 0 <= i < bytes.len() implies encode_utf8(chars)[i] == bytes[i] by {
            assert(chars[i] as u8 == encode_utf8(chars)[i]);
            assert(bytes[i] < 128);
        }
    }
    vstd::utf8::encode_utf8_valid_utf8(chars);
    vstd::utf8::encode_utf8_decode_utf8(chars);
}

/// `core::str::from_utf8`, which std documents as checking that the bytes are valid UTF-8
/// and then viewing them as text without copying. The contract states that it succeeds
/// exactly on valid UTF-8 and that the text is then the decoding of the bytes.
#[verifier::external_body]
fn str_from_utf8(bytes: &[u8]) -> (r: Option<&str>)
    ensures
        r is Some <==> valid_utf8(bytes@),
        r matches Some(s) ==> s@ == decode_utf8(bytes@),
{
    core::str::from_utf8(bytes).ok()
}

/// The length of `bytes` without the NUL bytes at its end.
pub fn trimmed_len(bytes: &[u8]) -> (n: usize)
    ensures
        n <= bytes@.len(),
        bytes@.subrange(0, n as int) == trim_trailing_nuls(bytes@),
{
    let mut n: usize = bytes.len();
    while n > 0 && bytes[n - 1] == 0
        invariant
            n <= bytes@.len(),
            forall|i: int| n <= i < bytes@.len() ==> bytes@[i] == 0,
        decreases n,
    {
        n = n - 1;
    }
    proof {
        lemma_trimmed_prefix(bytes@, n as int);
    }
    n
}

/// The number of bytes of `bytes` before its first NUL byte.
pub fn nul_position(bytes: &[u8]) -> (n: usize)
    ensures
        n <= bytes@.len(),
        bytes@.subrange(0, n as int) == until_nul(bytes@),
{
    let mut n: usize = 0;
    while n < bytes.len() && bytes[n] != 0
        invariant
            n <= bytes@.len(),
            forall|i: int| 0 <= i < n ==> bytes@[i] != 0,
        decreases bytes@.len() - n,
    {
        n = n + 1;
    }
    proof {
        lemma_until_nul_prefix(bytes@, n as int);
    }
    n
}

/// The text that `bytes` spell, or `None` if one of them is outside ASCII.
pub fn ascii_string(bytes: &[u8]) -> (r: Option<String>)
    ensures
        r is Some <==> is_ascii_bytes(bytes@),
        r matches Some(s) ==> s@ == ascii_chars(bytes@),
{
    let mut i: usize = 0;
    while i < bytes.len()
        invariant
            i <= bytes@.len(),
            forall|j: int| 0 <= j < i ==> bytes@[j] < 128,
        decreases bytes@.len() - i,
    {
        if bytes[i] >= 128 {
            return None;
        }
        i = i + 1;
    }
    proof {
        lemma_ascii_is_utf8(bytes@);
    }
    match str_from_utf8(bytes) {
        Some(s) => Some(s.to_owned()),
        None => None,
    }
}

/// True when `a` and `b` are the same text, byte for byte.
pub fn same_text(a: &str, b: &str) -> (r: bool)
    ensures
        r == (a@ == b@),
{
    let x: &[u8] = a.as_bytes();
    let y: &[u8] = b.as_bytes();
    proof {
        vstd::utf8::encode_utf8_decode_utf8(a@);
        vstd::utf8::encode_utf8_decode_utf8(b@);
    }
    if x.len() != y.len() {
        return false;
    }
    let mut i: usize = 0;
    while i < x.len()
        invariant
            i <= x@.len(),
            x@.len() == y@.len(),
            x@ == a.spec_bytes(),
            y@ == b.spec_bytes(),
            forall|j: int| 0 <= j < i ==> x@[j] == y@[j],
        decreases x@.len() - i,
    {
        if x[i] != y[i] {
            return false;
        }
        i = i + 1;
    }
    assert(x@ =~= y@);
    true
}

} // verus!
