//! Conversions between native NUL-terminated byte strings and text.
//!
//! Decoding never fails the caller: a byte string that is not valid UTF-8
//! decodes to `Decoded::InvalidUtf8`, whose text is empty and which asks for
//! one diagnostic warning. Encoding refuses text with an embedded NUL, which a
//! NUL-terminated byte string cannot carry.
use vstd::prelude::*;
use vstd::utf8::*;

verus! {

broadcast use group_utf8_lib;

/// The bytes of `b` before its first NUL, or all of `b` when it holds none.
pub open spec fn c_string_bytes(b: Seq<u8>) -> Seq<u8>
    decreases b.len(),
{
    if b.len() == 0 || b[0] == 0 {
        seq![]
    } else {
        seq![b[0]] + c_string_bytes(b.drop_first())
    }
}

/// The text that a native byte string decodes to, or `None` when the bytes
/// before its terminator are not valid UTF-8.
pub open spec fn decoded_text(b: Seq<u8>) -> Option<Seq<char>> {
    if valid_utf8(c_string_bytes(b)) {
        Some(decode_utf8(c_string_bytes(b)))
    } else {
        None
    }
}

/// True when the text holds a NUL character.
pub open spec fn has_nul(s: Seq<char>) -> bool {
    exists|i: int| 0 <= i < s.len() && s[i] == '\0'
}

/// The native byte string for a text: its UTF-8 bytes, then a NUL.
pub open spec fn encoded_bytes(s: Seq<char>) -> Seq<u8> {
    encode_utf8(s).push(0)
}

/// The outcome of decoding a native byte string.
pub enum Decoded {
    /// The bytes before the terminator were valid UTF-8.
    Text(String),
    /// The bytes before the terminator were not valid UTF-8.
    InvalidUtf8,
}

impl Decoded {
    /// The decoded text, or the empty text when decoding failed.
    pub fn text(self) -> (r: String)
        ensures
            self matches Decoded::Text(s) ==> r@ == s@,
            self is InvalidUtf8 ==> r@ == Seq::<char>::empty(),
    {
        match self {
            Decoded::Text(s) => s,
            Decoded::InvalidUtf8 => String::new(),
        }
    }

    /// Whether this outcome calls for a diagnostic warning: exactly when the
    /// bytes were not valid UTF-8.
    pub fn needs_warning(&self) -> (r: bool)
        ensures
            r <==> self is InvalidUtf8,
    {
        match self {
            Decoded::Text(_) => false,
            Decoded::InvalidUtf8 => true,
        }
    }
}

/// The reason an encoding failed.
#[derive(Debug, PartialEq, Eq, Structural)]
pub enum EncodeError {
    /// The text holds a NUL; `position` is the byte offset of the first one
    /// in the text's UTF-8 bytes.
    EmbeddedNul { position: usize },
}

/// Relies on `String::from_utf8`: succeeds exactly on valid UTF-8 and then
/// holds the text those bytes encode.
#[verifier::external_body]
fn string_from_utf8(bytes: Vec<u8>) -> (r: Option<String>)
    ensures
        r is Some <==> valid_utf8(bytes@),
        r matches Some(s) ==> s@ == decode_utf8(bytes@),
{
    String::from_utf8(bytes).ok()
}

/// If `b` has no NUL among its first `n` bytes, and `n` is its length or the
/// index of a NUL, the terminated prefix is the first `n` bytes.
proof fn lemma_c_string_bytes_prefix(b: Seq<u8>, n: int)
    requires
        0 <= n <= b.len(),
        forall|j: int| 0 <= j < n ==> b[j] != 0,
        n < b.len() ==> b[n] == 0,
    ensures
        c_string_bytes(b) == b.take(n),
    decreases n,
{
    if n == 0 {
        assert(b.take(0) =~= Seq::<u8>::empty());
    } else {
        let rest = b.drop_first();
        assert forall|j: int| 0 <= j < n - 1 implies rest[j] != 0 by {
            assert(rest[j] == b[j + 1]);
        }
        lemma_c_string_bytes_prefix(rest, n - 1);
        assert(b.take(n) =~= seq![b[0]] + rest.take(n - 1));
    }
}

/// Decodes a native byte string: the bytes up to its first NUL (all of them
/// when it holds none) are read as UTF-8. Nothing after the NUL is read.
pub fn decode(buf: &[u8]) -> (r: Decoded)
    ensures
        decoded_text(buf@) matches Some(t) ==> r matches Decoded::Text(s) && s@ == t,
        decoded_text(buf@) is None ==> r is InvalidUtf8,
{
    let mut n: usize = 0;
    let mut bytes: Vec<u8> = Vec::new();
    while n < buf.len() && buf[n] != 0
        invariant
            n <= buf@.len(),
            forall|j: int| 0 <= j < n ==> buf@[j] != 0,
            bytes@ == buf@.take(n as int),
        decreases buf@.len() - n,
    {
        bytes.push(buf[n]);
        n = n + 1;
        assert(bytes@ =~= buf@.take(n as int));
    }
    proof {
        lemma_c_string_bytes_prefix(buf@, n as int);
    }
    match string_from_utf8(bytes) {
        Some(s) => Decoded::Text(s),
        None => Decoded::InvalidUtf8,
    }
}

/// The UTF-8 encoding of a single character holds a zero byte exactly when
/// the character is NUL.
proof fn lemma_scalar_zero_byte(c: char)
    ensures
        encode_scalar(c as u32).contains(0u8) <==> c == '\0',
{
    let v = c as u32;
    let e = encode_scalar(v);
    if has_width_1_encoding(v) {
        assert(leading_byte_width_1(v) == 0 <==> v == 0) by (bit_vector)
            requires
                v <= 0x7f,
        ;
        assert(e[0] == leading_byte_width_1(v));
        if c == '\0' {
            assert(e[0] == 0u8);
        }
    } else {
        assert(last_continuation_byte(v) != 0) by (bit_vector);
        assert(second_last_continuation_byte(v) != 0) by (bit_vector);
        assert(third_last_continuation_byte(v) != 0) by (bit_vector);
        assert(leading_byte_width_2(v) != 0) by (bit_vector);
        assert(leading_byte_width_3(v) != 0) by (bit_vector);
        assert(leading_byte_width_4(v) != 0) by (bit_vector);
        assert(!e.contains(0u8));
    }
}

/// The UTF-8 encoding of a text holds a zero byte exactly when the text holds
/// a NUL character.
pub proof fn lemma_nul_byte_iff_nul_char(s: Seq<char>)
    ensures
        encode_utf8(s).contains(0u8) <==> has_nul(s),
    decreases s.len(),
{
    if s.len() == 0 {
    } else {
        let head = encode_scalar(s[0] as u32);
        let rest = s.drop_first();
        lemma_scalar_zero_byte(s[0]);
        lemma_nul_byte_iff_nul_char(rest);
        let all = encode_utf8(s);
        assert(all == head + encode_utf8(rest));
        if has_nul(s) {
            let i = choose|i: int| 0 <= i < s.len() && s[i] == '\0';
            if i == 0 {
                let k = choose|k: int| 0 <= k < head.len() && head[k] == 0u8;
                assert(all[k] == 0u8);
            } else {
                assert(rest[i - 1] == '\0');
                let k = choose|k: int|
                    0 <= k < encode_utf8(rest).len() && encode_utf8(rest)[k] == 0u8;
                assert(all[head.len() + k] == 0u8);
            }
        }
        if all.contains(0u8) {
            let k = choose|k: int| 0 <= k < all.len() && all[k] == 0u8;
            if k < head.len() {
                assert(head[k] == 0u8);
            } else {
                assert(encode_utf8(rest)[k - head.len()] == 0u8);
                let i = choose|i: int| 0 <= i < rest.len() && rest[i] == '\0';
                assert(s[i + 1] == '\0');
            }
        }
    }
}

/// Encodes a text as a native byte string: its UTF-8 bytes followed by a NUL.
///
/// Fails exactly when the text holds a NUL, with the byte offset of the
/// first one.
pub fn encode(text: &str) -> (r: Result<Vec<u8>, EncodeError>)
    ensures
        r is Ok <==> !has_nul(text@),
        r matches Ok(v) ==> v@ == encoded_bytes(text@),
        r matches Err(EncodeError::EmbeddedNul { position }) ==> {
            &&& position < encode_utf8(text@).len()
            &&& encode_utf8(text@)[position as int] == 0
            &&& forall|j: int| 0 <= j < position ==> encode_utf8(text@)[j] != 0
        },
{
    let bytes = text.as_bytes();
    proof {
        lemma_nul_byte_iff_nul_char(text@);
    }
    let mut out: Vec<u8> = Vec::new();
    let mut i: usize = 0;
    while i < bytes.len()
        invariant
            bytes@ == encode_utf8(text@),
            bytes@.contains(0u8) <==> has_nul(text@),
            i <= bytes@.len(),
            out@ == bytes@.take(i as int),
            forall|j: int| 0 <= j < i ==> bytes@[j] != 0,
        decreases bytes@.len() - i,
    {
        if bytes[i] == 0 {
            assert(bytes@.contains(0u8));
            return Err(EncodeError::EmbeddedNul { position: i });
        }
        out.push(bytes[i]);
        i = i + 1;
        assert(out@ =~= bytes@.take(i as int));
    }
    assert(!bytes@.contains(0u8));
    assert(out@ =~= bytes@);
    out.push(0);
    Ok(out)
}

/// Encoding a text without NUL and decoding the result gives the text back.
pub proof fn lemma_round_trip(s: Seq<char>)
    requires
        !has_nul(s),
    ensures
        decoded_text(encoded_bytes(s)) == Some(s),
{
    let b = encode_utf8(s);
    let e = encoded_bytes(s);
    lemma_nul_byte_iff_nul_char(s);
    assert forall|j: int| 0 <= j < b.len() implies e[j] != 0 by {
        if e[j] == 0 {
            assert(b[j] == 0u8);
            assert(b.contains(0u8));
        }
    }
    lemma_c_string_bytes_prefix(e, b.len() as int);
    assert(e.take(b.len() as int) =~= b);
}

/// A text that holds a NUL at any position meets the condition on which
/// `encode` fails, and its UTF-8 bytes hold a zero byte.
pub proof fn lemma_nul_anywhere_fails(s: Seq<char>, i: int)
    requires
        0 <= i < s.len(),
        s[i] == '\0',
    ensures
        has_nul(s),
        encode_utf8(s).contains(0u8),
{
    lemma_nul_byte_iff_nul_char(s);
}

} // verus!
