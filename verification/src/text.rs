use vstd::prelude::*;
use vstd::utf8::{
    char_is_scalar, char_u32_cast, decode_utf8, encode_scalar, encode_utf8,
    encode_utf8_decode_utf8, has_width_1_encoding, has_width_2_encoding, has_width_3_encoding,
    valid_utf8, leading_byte_width_1, is_char_boundary, encode_utf8_first_scalar,
    encode_utf8_valid_utf8, pop_first_scalar, length_of_first_scalar, leading_byte_width_2, leading_byte_width_3, leading_byte_width_4,
    last_continuation_byte, second_last_continuation_byte, third_last_continuation_byte,
};

verus! {

// ---------------------------------------------------------------------------
// Facts about NUL characters and the UTF-8 encoding.
// ---------------------------------------------------------------------------

/// Number of NUL characters in `s`.
pub open spec fn count_nul(s: Seq<char>) -> nat
    decreases s.len(),
{
    if s.len() == 0 {
        0
    } else {
        count_nul(s.drop_last()) + if s.last() == '\0' { 1nat } else { 0nat }
    }
}

/// The index of the first zero byte of `b`, if it has one.
pub open spec fn first_zero(b: Seq<u8>) -> Option<int>
    decreases b.len(),
{
    if b.len() == 0 {
        None
    } else if b[0] == 0 {
        Some(0)
    } else {
        match first_zero(b.drop_first()) {
            Some(i) => Some(i + 1),
            None => None,
        }
    }
}

/// `first_zero` finds the first zero byte, and only fails when there is none.
pub proof fn lemma_first_zero(b: Seq<u8>)
    ensures
        match first_zero(b) {
            Some(z) => 0 <= z < b.len() && b[z] == 0 && forall|j: int| 0 <= j < z ==> b[j] != 0,
            None => forall|j: int| 0 <= j < b.len() ==> b[j] != 0,
        },
    decreases b.len(),
{
    if b.len() > 0 && b[0] != 0 {
        lemma_first_zero(b.drop_first());
        assert forall|j: int| 1 <= j < b.len() implies b[j] == b.drop_first()[j - 1] by {}
    }
}

/// A zero byte at `z` with no zero byte before it is what `first_zero` finds.
pub proof fn lemma_first_zero_at(b: Seq<u8>, z: int)
    requires
        0 <= z < b.len(),
        b[z] == 0,
        forall|j: int| 0 <= j < z ==> b[j] != 0,
    ensures
        first_zero(b) == Some(z),
{
    lemma_first_zero(b);
    match first_zero(b) {
        Some(y) => {
            if y < z {
                assert(b[y] != 0);
            } else if z < y {
                assert(b[z] != 0);
            }
        },
        None => {
            assert(b[z] != 0);
        },
    }
}

/// `count_nul` is zero exactly when no character is NUL.
pub proof fn lemma_count_nul_zero(s: Seq<char>)
    ensures
        count_nul(s) == 0 <==> forall|i: int| 0 <= i < s.len() ==> s[i] != '\0',
    decreases s.len(),
{
    if s.len() > 0 {
        lemma_count_nul_zero(s.drop_last());
        if count_nul(s) == 0 {
            assert forall|i: int| 0 <= i < s.len() implies s[i] != '\0' by {
                if i < s.len() - 1 {
                    assert(s[i] == s.drop_last()[i]);
                }
            }
        } else {
            if forall|i: int| 0 <= i < s.len() ==> s[i] != '\0' {
                assert forall|i: int| 0 <= i < s.drop_last().len() implies s.drop_last()[i]
                    != '\0' by {
                    assert(s.drop_last()[i] == s[i]);
                }
                assert(s.last() == s[s.len() - 1]);
            }
        }
    }
}

/// Appending one character adds one to the count exactly when it is NUL.
pub proof fn lemma_count_nul_push(s: Seq<char>, c: char)
    ensures
        count_nul(s.push(c)) == count_nul(s) + if c == '\0' { 1nat } else { 0nat },
{
    assert(s.push(c).drop_last() =~= s);
}

/// The encoding of a concatenation is the concatenation of the encodings.
pub proof fn lemma_encode_concat(a: Seq<char>, b: Seq<char>)
    ensures
        encode_utf8(a + b) == encode_utf8(a) + encode_utf8(b),
    decreases a.len(),
{
    if a.len() == 0 {
        assert(a + b =~= b);
        assert(encode_utf8(a) =~= Seq::<u8>::empty());
        assert(encode_utf8(a) + encode_utf8(b) =~= encode_utf8(b));
    } else {
        lemma_encode_concat(a.drop_first(), b);
        assert((a + b).drop_first() =~= a.drop_first() + b);
        assert((a + b)[0] == a[0]);
        assert(encode_utf8(a + b) =~= encode_utf8(a) + encode_utf8(b));
    }
}

/// NUL is encoded as the single byte zero.
pub proof fn lemma_encode_nul()
    ensures
        encode_scalar('\0' as u32) == seq![0u8],
        encode_utf8(seq!['\0']) == seq![0u8],
{
    let v: u32 = '\0' as u32;
    assert(v == 0);
    assert(leading_byte_width_1(0u32) == 0u8) by (bit_vector);
    assert(seq!['\0'].drop_first() =~= Seq::<char>::empty());
    assert(encode_utf8(seq!['\0']) =~= encode_scalar(v) + encode_utf8(Seq::<char>::empty()));
    assert(encode_scalar(v) =~= seq![0u8]);
}

/// Every byte of the encoding of a character other than NUL is non-zero.
pub proof fn lemma_scalar_bytes_nonzero(c: char)
    requires
        c != '\0',
    ensures
        forall|k: int|
            0 <= k < encode_scalar(c as u32).len() ==> #[trigger] encode_scalar(c as u32)[k] != 0,
{
    let v = c as u32;
    char_is_scalar(c);
    char_u32_cast(c, v);
    if v == 0 {
        assert(c == (0u32 as char));
        assert('\0' == (0u32 as char));
    }
    assert(v != 0);
    if has_width_1_encoding(v) {
        assert(leading_byte_width_1(v) != 0) by (bit_vector)
            requires
                1 <= v <= 0x7F,
        ;
    } else if has_width_2_encoding(v) {
        assert(leading_byte_width_2(v) != 0 && last_continuation_byte(v) != 0) by (bit_vector);
    } else if has_width_3_encoding(v) {
        assert(leading_byte_width_3(v) != 0 && second_last_continuation_byte(v) != 0
            && last_continuation_byte(v) != 0) by (bit_vector);
    } else {
        assert(leading_byte_width_4(v) != 0 && third_last_continuation_byte(v) != 0
            && second_last_continuation_byte(v) != 0 && last_continuation_byte(v) != 0)
            by (bit_vector);
    }
}

/// A string without NUL characters encodes to bytes without a zero byte.
pub proof fn lemma_no_nul_no_zero(s: Seq<char>)
    requires
        forall|i: int| 0 <= i < s.len() ==> s[i] != '\0',
    ensures
        forall|j: int| 0 <= j < encode_utf8(s).len() ==> encode_utf8(s)[j] != 0,
    decreases s.len(),
{
    if s.len() > 0 {
        assert forall|i: int| 0 <= i < s.drop_first().len() implies s.drop_first()[i] != '\0' by {
            assert(s.drop_first()[i] == s[i + 1]);
        }
        lemma_no_nul_no_zero(s.drop_first());
        lemma_scalar_bytes_nonzero(s[0]);
        let head = encode_scalar(s[0] as u32);
        let tail = encode_utf8(s.drop_first());
        assert(encode_utf8(s) == head + tail);
        assert forall|j: int| 0 <= j < encode_utf8(s).len() implies encode_utf8(s)[j] != 0 by {
            if j < head.len() {
                assert(encode_utf8(s)[j] == head[j]);
            } else {
                assert(encode_utf8(s)[j] == tail[j - head.len()]);
            }
        }
    }
}

/// A NUL character at `i` shows up as a zero byte right after the encoding
/// of the characters before it.
pub proof fn lemma_nul_gives_zero(s: Seq<char>, i: int)
    requires
        0 <= i < s.len(),
        s[i] == '\0',
    ensures
        encode_utf8(s.take(i)).len() < encode_utf8(s).len(),
        encode_utf8(s)[encode_utf8(s.take(i)).len() as int] == 0,
{
    let pre = s.take(i);
    let post = s.skip(i);
    assert(s =~= pre + post);
    lemma_encode_concat(pre, post);
    lemma_encode_nul();
    assert(post[0] == '\0');
    assert(encode_utf8(post) == encode_scalar(post[0] as u32) + encode_utf8(post.drop_first()));
    assert(encode_utf8(post)[0] == 0);
}

/// A zero byte in an encoding marks a NUL character, and all characters
/// before that one encode to exactly the bytes before the zero.
pub proof fn lemma_zero_is_nul(d: Seq<char>, z: int) -> (k: int)
    requires
        0 <= z < encode_utf8(d).len(),
        encode_utf8(d)[z] == 0,
    ensures
        0 <= k < d.len(),
        d[k] == '\0',
        encode_utf8(d.take(k)).len() == z,
    decreases d.len(),
{
    let head = encode_scalar(d[0] as u32);
    let rest = d.drop_first();
    assert(encode_utf8(d) == head + encode_utf8(rest));
    if z < head.len() {
        assert(encode_utf8(d)[z] == head[z]);
        if d[0] != '\0' {
            lemma_scalar_bytes_nonzero(d[0]);
        }
        lemma_encode_nul();
        assert(d.take(0) =~= Seq::<char>::empty());
        assert(encode_utf8(d.take(0)) =~= Seq::<u8>::empty());
        0
    } else {
        assert(encode_utf8(rest)[z - head.len()] == encode_utf8(d)[z]);
        let k1 = lemma_zero_is_nul(rest, z - head.len());
        assert(d.take(k1 + 1) =~= seq![d[0]] + rest.take(k1));
        lemma_encode_concat(seq![d[0]], rest.take(k1));
        assert(seq![d[0]].drop_first() =~= Seq::<char>::empty());
        assert(encode_utf8(seq![d[0]]) =~= head + encode_utf8(Seq::<char>::empty()));
        assert(encode_utf8(seq![d[0]]) =~= head);
        assert(d[k1 + 1] == rest[k1]);
        k1 + 1
    }
}

/// A character whose encoding starts with an ASCII byte is encoded in that
/// one byte.
pub proof fn lemma_ascii_lead(c: char)
    requires
        encode_scalar(c as u32)[0] < 0x80,
    ensures
        encode_scalar(c as u32).len() == 1,
{
    let v = c as u32;
    char_is_scalar(c);
    if has_width_2_encoding(v) {
        assert(leading_byte_width_2(v) >= 0xC0) by (bit_vector);
    } else if has_width_3_encoding(v) {
        assert(leading_byte_width_3(v) >= 0xE0) by (bit_vector);
    } else if !has_width_1_encoding(v) {
        assert(leading_byte_width_4(v) >= 0xF0) by (bit_vector);
    }
}

/// The end of the encoding of the first `k` characters is a character
/// boundary of the whole encoding.
pub proof fn lemma_char_boundary(d: Seq<char>, k: int)
    requires
        0 <= k <= d.len(),
    ensures
        valid_utf8(encode_utf8(d)),
        is_char_boundary(encode_utf8(d), encode_utf8(d.take(k)).len() as int),
    decreases d.len(),
{
    let b = encode_utf8(d);
    encode_utf8_valid_utf8(d);
    if k == 0 {
        assert(d.take(0) =~= Seq::<char>::empty());
        assert(encode_utf8(d.take(0)) =~= Seq::<u8>::empty());
    } else {
        let rest = d.drop_first();
        let head = encode_scalar(d[0] as u32);
        encode_utf8_first_scalar(d);
        assert(b == head + encode_utf8(rest));
        assert(pop_first_scalar(b) =~= encode_utf8(rest));
        lemma_char_boundary(rest, k - 1);
        assert(d.take(k) =~= seq![d[0]] + rest.take(k - 1));
        lemma_encode_concat(seq![d[0]], rest.take(k - 1));
        assert(seq![d[0]].drop_first() =~= Seq::<char>::empty());
        assert(encode_utf8(seq![d[0]]) =~= head + encode_utf8(Seq::<char>::empty()));
        assert(encode_utf8(seq![d[0]]) =~= head);
        assert(rest =~= rest.take(k - 1) + rest.skip(k - 1));
        lemma_encode_concat(rest.take(k - 1), rest.skip(k - 1));
        assert(encode_utf8(d.take(k)).len() == head.len() + encode_utf8(rest.take(k - 1)).len());
        assert(length_of_first_scalar(b) == head.len());
    }
}

// ---------------------------------------------------------------------------
// Calls into std.
// ---------------------------------------------------------------------------

/// Declares `std::str::Utf8Error`, the error of `std::str::from_utf8`.
#[verifier::external_type_specification]
#[verifier::external_body]
pub struct ExUtf8Error(std::str::Utf8Error);

/// A failed UTF-8 check: std's error, with the two things it reports handed
/// out as plain values.
pub struct Utf8Failure {
    pub error: std::str::Utf8Error,
    /// The length of the longest valid prefix.
    pub valid_up_to: usize,
    /// `None` when the input ends inside a character, else the length of the
    /// invalid sequence that starts at `valid_up_to`.
    pub error_len: Option<usize>,
}

/// `n` is the length of the longest prefix of `b` that is valid UTF-8.
pub open spec fn longest_valid_prefix(b: Seq<u8>, n: int) -> bool {
    &&& 0 <= n <= b.len()
    &&& valid_utf8(b.subrange(0, n))
    &&& forall|m: int| n < m <= b.len() ==> !valid_utf8(#[trigger] b.subrange(0, m))
}

/// What `f` reports of the invalid bytes `b`: the longest valid prefix, and
/// either an end of input 1 to 3 bytes after it, or an invalid sequence of at
/// least one byte that starts there and lies within `b`.
pub open spec fn utf8_failure_of(b: Seq<u8>, f: Utf8Failure) -> bool {
    &&& longest_valid_prefix(b, f.valid_up_to as int)
    &&& match f.error_len {
        None => 1 <= b.len() - f.valid_up_to <= 3,
        Some(k) => 1 <= k && f.valid_up_to + k <= b.len(),
    }
}

/// Calls `std::str::from_utf8`. Its documentation promises `Ok` exactly
/// when the bytes are valid UTF-8, in which case the `str` holds those bytes,
/// so its characters are their decoding. On failure the error's
/// `valid_up_to` and `error_len` are handed out beside it, with what their
/// documentation says: `valid_up_to` is the largest index up to which the
/// input would convert with `Ok`; `error_len` is `None` when the end of the
/// input came 1 to 3 bytes after it, else the length of the invalid sequence
/// that starts there. Which bytes form that sequence is not stated.
#[verifier::external_body]
pub(crate) fn str_from_utf8(v: &[u8]) -> (r: Result<&str, Utf8Failure>)
    ensures
        r is Ok <==> valid_utf8(v@),
        r matches Ok(s) ==> s@ == decode_utf8(v@),
        r matches Err(f) ==> utf8_failure_of(v@, f),
{
    std::str::from_utf8(v).map_err(
        |error| Utf8Failure { valid_up_to: error.valid_up_to(), error_len: error.error_len(), error },
    )
}

/// What `String::from_utf8_lossy` makes of a byte sequence: invalid
/// sequences become U+FFFD.
pub uninterp spec fn utf8_lossy(bytes: Seq<u8>) -> Seq<char>;

/// Calls `String::from_utf8_lossy` and takes ownership of the result. The
/// contract names the result; the facts stated of it are the documented
/// ones that valid UTF-8 is decoded without change, and that the only
/// character put in besides decoded ones is U+FFFD, so that bytes without a
/// zero give a text without NUL.
#[verifier::external_body]
pub(crate) fn string_from_utf8_lossy(v: &[u8]) -> (r: String)
    ensures
        r@ == utf8_lossy(v@),
        valid_utf8(v@) ==> r@ == decode_utf8(v@),
        (forall|i: int| 0 <= i < v@.len() ==> v@[i] != 0) ==> forall|j: int|
            0 <= j < r@.len() ==> r@[j] != '\0',
{
    String::from_utf8_lossy(v).into_owned()
}

// ---------------------------------------------------------------------------
// Small executable helpers.
// ---------------------------------------------------------------------------

/// Finds the first zero byte.
pub fn find_zero(b: &[u8]) -> (r: Option<usize>)
    ensures
        match r {
            Some(z) => first_zero(b@) == Some(z as int),
            None => first_zero(b@) is None,
        },
{
    let n = b.len();
    let mut i: usize = 0;
    while i < n
        invariant
            n == b@.len(),
            i <= n,
            forall|j: int| 0 <= j < i ==> b@[j] != 0,
        decreases n - i,
    {
        if b[i] == 0 {
            proof {
                lemma_first_zero_at(b@, i as int);
            }
            return Some(i);
        }
        i = i + 1;
    }
    proof {
        lemma_first_zero(b@);
        if first_zero(b@) is Some {
            let z = first_zero(b@)->0;
            assert(b@[z] != 0);
        }
    }
    None
}

/// Compares two strings character by character.
pub fn str_eq(a: &str, b: &str) -> (r: bool)
    ensures
        r == (a@ == b@),
{
    let x = a.as_bytes();
    let y = b.as_bytes();
    proof {
        encode_utf8_decode_utf8(a@);
        encode_utf8_decode_utf8(b@);
        assert(x@ == encode_utf8(a@));
        assert(y@ == encode_utf8(b@));
    }
    if x.len() != y.len() {
        return false;
    }
    let n = x.len();
    let mut i: usize = 0;
    while i < n
        invariant
            n == x@.len(),
            n == y@.len(),
            x@ == encode_utf8(a@),
            y@ == encode_utf8(b@),
            i <= n,
            forall|j: int| 0 <= j < i ==> x@[j] == y@[j],
        decreases n - i,
    {
        if x[i] != y[i] {
            assert(x@[i as int] != y@[i as int]);
            assert(x@ != y@);
            return false;
        }
        i = i + 1;
    }
    assert(x@ =~= y@);
    true
}

} // verus!
