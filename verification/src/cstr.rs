use vstd::prelude::*;
use vstd::slice::slice_subrange;
use vstd::utf8::{
    decode_utf8, encode_utf8, encode_utf8_decode_utf8, encode_utf8_valid_utf8, valid_utf8,
};
use crate::text::{
    count_nul, find_zero, first_zero, lemma_count_nul_zero,
    lemma_encode_concat, lemma_encode_nul, lemma_first_zero, lemma_first_zero_at, lemma_no_nul_no_zero,
    str_from_utf8, utf8_failure_of, string_from_utf8_lossy, utf8_lossy, Utf8Failure,
};

verus! {

/// How `to_cstr` judges a string, in the order in which it tests.
#[derive(PartialEq, Eq, Structural, Debug, Clone, Copy)]
pub enum CStrCheck {
    /// Exactly one NUL, and it is the last character.
    Valid,
    /// More than one NUL.
    InteriorNul,
    /// The empty string.
    Empty,
    /// At most one NUL, but the last character is not NUL.
    Unterminated,
}

/// The judgement of `to_cstr` on the characters `s`.
pub open spec fn cstr_check(s: Seq<char>) -> CStrCheck {
    if count_nul(s) > 1 {
        CStrCheck::InteriorNul
    } else if s.len() == 0 {
        CStrCheck::Empty
    } else if s.last() != '\0' {
        CStrCheck::Unterminated
    } else {
        CStrCheck::Valid
    }
}

/// `s` can stand as a C string as it is: it ends in NUL and holds no other.
pub open spec fn is_c_string(s: Seq<char>) -> bool {
    cstr_check(s) == CStrCheck::Valid
}

/// The bytes that a C string pointer to `b` denotes: those before the first
/// NUL, or all of them when there is none.
pub open spec fn c_prefix(b: Seq<u8>) -> Seq<u8> {
    match first_zero(b) {
        Some(z) => b.subrange(0, z),
        None => b,
    }
}

/// Judges whether `rust_str` can be handed to C as it is.
pub fn check_cstr(rust_str: &str) -> (r: CStrCheck)
    ensures
        r == cstr_check(rust_str@),
{
    // Counting stops at two: only "more than one" matters.
    let mut nuls: usize = 0;
    let mut last: Option<char> = None;
    for c in it: rust_str.chars()
        invariant
            it.seq() == rust_str@,
            nuls <= 2,
            nuls < 2 ==> nuls == count_nul(rust_str@.take(it.index() as int)),
            nuls == 2 ==> count_nul(rust_str@.take(it.index() as int)) >= 2,
            it.index() == 0 ==> last is None,
            it.index() > 0 ==> last == Some(rust_str@[it.index() - 1]),
    {
        assert(rust_str@.take(it.index() as int + 1).drop_last() == rust_str@.take(
            it.index() as int,
        ));
        if c == '\0' && nuls < 2 {
            nuls = nuls + 1;
        }
        last = Some(c);
    }
    assert(rust_str@.take(rust_str@.len() as int) == rust_str@);
    if nuls > 1 {
        return CStrCheck::InteriorNul;
    }
    match last {
        None => CStrCheck::Empty,
        Some(c) => {
            if c != '\0' {
                CStrCheck::Unterminated
            } else {
                CStrCheck::Valid
            }
        },
    }
}

/// Accepts `rust_str` as a C string, as it is, when it ends in NUL and holds
/// no other NUL; `None` otherwise (the string is never extended).
pub fn to_cstr<'a>(rust_str: &'a str) -> (r: Option<&'a str>)
    ensures
        r is Some <==> is_c_string(rust_str@),
        r matches Some(s) ==> s == rust_str,
{
    match check_cstr(rust_str) {
        CStrCheck::Valid => Some(rust_str),
        _ => None,
    }
}

/// The Rust string that a C string denotes: the bytes before the first NUL,
/// with each invalid UTF-8 sequence replaced by U+FFFD.
pub fn from_cstr(some_str: &[u8]) -> (r: String)
    ensures
        r@ == utf8_lossy(c_prefix(some_str@)),
        valid_utf8(c_prefix(some_str@)) ==> r@ == decode_utf8(c_prefix(some_str@)),
        forall|j: int| 0 <= j < r@.len() ==> r@[j] != '\0',
{
    proof {
        lemma_first_zero(some_str@);
    }
    match find_zero(some_str) {
        Some(z) => string_from_utf8_lossy(slice_subrange(some_str, 0, z)),
        None => string_from_utf8_lossy(some_str),
    }
}

/// A string that `to_cstr` accepts is a C string byte for byte: its UTF-8
/// encoding is the encoding of the text before the NUL, followed by one zero
/// byte, and no other byte is zero.
pub proof fn lemma_c_string_bytes(s: Seq<char>)
    requires
        is_c_string(s),
    ensures
        encode_utf8(s) == encode_utf8(s.drop_last()).push(0u8),
        forall|i: int|
            0 <= i < encode_utf8(s.drop_last()).len() ==> #[trigger] encode_utf8(s)[i] != 0,
        count_nul(s.drop_last()) == 0,
{
    let body = s.drop_last();
    assert(s =~= body + seq!['\0']);
    lemma_encode_concat(body, seq!['\0']);
    lemma_encode_nul();
    assert(encode_utf8(s) =~= encode_utf8(body).push(0u8));
    lemma_count_nul_zero(body);
    lemma_no_nul_no_zero(body);
    assert forall|i: int| 0 <= i < encode_utf8(body).len() implies #[trigger] encode_utf8(s)[i]
        != 0 by {
        assert(encode_utf8(s)[i] == encode_utf8(body)[i]);
    }
}

/// Converting a string that `to_cstr` accepts back with `from_cstr`, from
/// its bytes, gives the string without its closing NUL: the bytes that
/// `from_cstr` reads are valid UTF-8 and decode to exactly that text.
pub proof fn lemma_cstr_round_trip(s: Seq<char>)
    requires
        is_c_string(s),
    ensures
        c_prefix(encode_utf8(s)) == encode_utf8(s.drop_last()),
        valid_utf8(c_prefix(encode_utf8(s))),
        decode_utf8(c_prefix(encode_utf8(s))) == s.drop_last(),
{
    lemma_c_string_bytes(s);
    let b = encode_utf8(s);
    let z = encode_utf8(s.drop_last()).len() as int;
    assert(b[z] == 0);
    lemma_first_zero_at(b, z);
    assert(b.subrange(0, z) =~= encode_utf8(s.drop_last()));
    encode_utf8_valid_utf8(s.drop_last());
    encode_utf8_decode_utf8(s.drop_last());
}

/// The text of an error message given as bytes, as `CStr::to_str` reads it:
/// the characters when the bytes are valid UTF-8, the UTF-8 error otherwise,
/// with the length of the longest valid prefix of the message and what
/// follows it.
pub fn strerror_text(msg: &[u8]) -> (r: Result<&str, Utf8Failure>)
    ensures
        r is Ok <==> valid_utf8(msg@),
        r matches Ok(s) ==> s@ == decode_utf8(msg@),
        r matches Err(f) ==> utf8_failure_of(msg@, f),
{
    str_from_utf8(msg)
}

/// The line printed for an error message: its text when it is valid UTF-8,
/// `unparseable` otherwise.
pub fn error_text<'a>(msg: &'a [u8], unparseable: &'a str) -> (r: &'a str)
    ensures
        valid_utf8(msg@) ==> r@ == decode_utf8(msg@),
        !valid_utf8(msg@) ==> r == unparseable,
{
    match strerror_text(msg) {
        Ok(k) => k,
        Err(_) => unparseable,
    }
}

/// What `to_cstr` accepts, said without counting: a non-empty string whose
/// last character is NUL and whose other characters are not.
pub proof fn law_c_string(s: Seq<char>)
    ensures
        is_c_string(s) <==> {
            &&& s.len() > 0
            &&& s.last() == '\0'
            &&& forall|i: int| 0 <= i < s.len() - 1 ==> s[i] != '\0'
        },
{
    if s.len() > 0 {
        let body = s.drop_last();
        lemma_count_nul_zero(body);
        assert forall|i: int| 0 <= i < s.len() - 1 implies s[i] == body[i] by {}
        if s.last() == '\0' {
            assert(count_nul(s) == count_nul(body) + 1);
        }
    }
}

} // verus!

