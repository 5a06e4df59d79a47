use vstd::prelude::*;
use vstd::string::StringSliceAdditionalSpecFns;
use vstd::utf8::{decode_utf8, encode_utf8, valid_utf8};

use crate::error::{interior_nul_message, Error};

verus! {

/// The decimal digit for `d`, which is below ten.
pub open spec fn digit_char(d: nat) -> char {
    if d == 0 {
        '0'
    } else if d == 1 {
        '1'
    } else if d == 2 {
        '2'
    } else if d == 3 {
        '3'
    } else if d == 4 {
        '4'
    } else if d == 5 {
        '5'
    } else if d == 6 {
        '6'
    } else if d == 7 {
        '7'
    } else if d == 8 {
        '8'
    } else {
        '9'
    }
}

/// The decimal notation of `n`, most significant digit first, without leading zeros.
pub open spec fn decimal(n: nat) -> Seq<char>
    decreases n,
{
    if n < 10 {
        seq![digit_char(n)]
    } else {
        decimal(n / 10).push(digit_char(n % 10))
    }
}

fn digit_str(d: usize) -> (s: &'static str)
    requires
        d < 10,
    ensures
        s@ == seq![digit_char(d as nat)],
{
    proof {
        reveal_strlit("0");
        reveal_strlit("1");
        reveal_strlit("2");
        reveal_strlit("3");
        reveal_strlit("4");
        reveal_strlit("5");
        reveal_strlit("6");
        reveal_strlit("7");
        reveal_strlit("8");
        reveal_strlit("9");
    }
    let s = if d == 0 {
        "0"
    } else if d == 1 {
        "1"
    } else if d == 2 {
        "2"
    } else if d == 3 {
        "3"
    } else if d == 4 {
        "4"
    } else if d == 5 {
        "5"
    } else if d == 6 {
        "6"
    } else if d == 7 {
        "7"
    } else if d == 8 {
        "8"
    } else {
        "9"
    };
    assert(s@ =~= seq![digit_char(d as nat)]);
    s
}

/// Writes `n` in decimal notation.
pub fn decimal_string(n: usize) -> (s: String)
    ensures
        s@ == decimal(n as nat),
    decreases n,
{
    if n < 10 {
        String::from_str(digit_str(n))
    } else {
        let head = decimal_string(n / 10);
        let s = head.concat(digit_str(n % 10));
        assert(s@ =~= decimal(n as nat));
        s
    }
}

} // verus!

verus! {

/// No byte of `bytes` is zero.
pub open spec fn nul_free(bytes: Seq<u8>) -> bool {
    forall|i: int| 0 <= i < bytes.len() ==> bytes[i] != 0
}

/// `p` is the offset of the first zero byte of `bytes`.
pub open spec fn first_nul(bytes: Seq<u8>, p: int) -> bool {
    &&& 0 <= p < bytes.len()
    &&& bytes[p] == 0
    &&& forall|j: int| 0 <= j < p ==> bytes[j] != 0
}

/// What encoding `bytes` as a C string gives: the bytes followed by a
/// terminating zero, or, where they hold a zero byte, the message of the
/// error that names the offset of the first one.
pub open spec fn c_string_of(bytes: Seq<u8>) -> Result<Seq<u8>, Seq<char>> {
    if nul_free(bytes) {
        Ok(bytes.push(0u8))
    } else {
        Err(interior_nul_message(nul_offset(bytes) as nat))
    }
}

/// Encodes `s` as a C string: its UTF-8 bytes followed by a terminating
/// zero byte. A string that holds a NUL byte cannot be passed that way and
/// is refused, with the offset of its first NUL byte in the message.
pub fn c_string(s: &str) -> (r: Result<Vec<u8>, Error>)
    ensures
        match r {
            Ok(bytes) => c_string_of(s.spec_bytes()) == Ok::<Seq<u8>, Seq<char>>(bytes@),
            Err(e) => c_string_of(s.spec_bytes()) == Err::<Seq<u8>, Seq<char>>(e@),
        },
{
    let b = s.as_bytes();
    let n = b.len();
    let mut out: Vec<u8> = Vec::new();
    let mut i: usize = 0;
    while i < n
        invariant
            n == b@.len(),
            b@ == s.spec_bytes(),
            i <= n,
            out@ == b@.subrange(0, i as int),
            nul_free(out@),
        decreases n - i,
    {
        if b[i] == 0 {
            proof {
                assert(first_nul(b@, i as int)) by {
                    assert forall|j: int| 0 <= j < i implies b@[j] != 0 by {
                        assert(out@[j] == b@[j]);
                    }
                }
                nul_offset_is_first(b@);
                first_nul_unique(b@, i as int, nul_offset(b@));
            }
            return Err(Error::interior_nul(i));
        }
        out.push(b[i]);
        i = i + 1;
        assert(out@ =~= b@.subrange(0, i as int));
    }
    assert(out@ =~= b@);
    out.push(0u8);
    Ok(out)
}

} // verus!

verus! {

/// What `String::from_utf8_lossy` makes of `bytes`: the text they encode,
/// with each invalid sequence replaced by U+FFFD.
pub uninterp spec fn lossy_utf8(bytes: Seq<u8>) -> Seq<char>;

/// Calls std's `String::from_utf8_lossy` and takes the result as an owned
/// `String`. Trusted: the result is the named function of the bytes, and on
/// valid UTF-8 it is exactly the text the bytes encode, as std documents.
#[verifier::external_body]
fn decode_lossy(bytes: &[u8]) -> (s: String)
    ensures
        s@ == lossy_utf8(bytes@),
        valid_utf8(bytes@) ==> s@ == decode_utf8(bytes@),
{
    String::from_utf8_lossy(bytes).into_owned()
}

/// The engine's description of its last error, from the C string it hands
/// back (`None` where it hands back a null pointer): that text decoded
/// leniently, or "unknown error" where there is none.
pub fn last_error_text(raw: Option<&[u8]>) -> (s: String)
    ensures
        raw is None ==> s@ == "unknown error"@,
        raw matches Some(bytes) ==> s@ == lossy_utf8(bytes@),
        raw matches Some(bytes) ==> (valid_utf8(bytes@) ==> s@ == decode_utf8(bytes@)),
{
    match raw {
        None => String::from_str("unknown error"),
        Some(bytes) => decode_lossy(bytes),
    }
}

} // verus!

verus! {

/// There is exactly one first zero byte.
pub proof fn first_nul_unique(bytes: Seq<u8>, p: int, q: int)
    requires
        first_nul(bytes, p),
        first_nul(bytes, q),
    ensures
        p == q,
{
    if p < q {
        assert(bytes[p] != 0);
    } else if q < p {
        assert(bytes[q] != 0);
    }
}

/// The offset of the first zero byte of `bytes`, which holds one.
pub open spec fn nul_offset(bytes: Seq<u8>) -> int {
    choose|p: int| first_nul(bytes, p)
}

proof fn first_nul_within(bytes: Seq<u8>, n: int)
    requires
        0 <= n <= bytes.len(),
        exists|i: int| 0 <= i < n && bytes[i] == 0,
    ensures
        exists|p: int| first_nul(bytes, p),
    decreases n,
{
    if exists|i: int| 0 <= i < n - 1 && bytes[i] == 0 {
        first_nul_within(bytes, n - 1);
    } else {
        assert(first_nul(bytes, n - 1));
    }
}

/// Where `bytes` hold a zero byte, `nul_offset` is the first one.
pub proof fn nul_offset_is_first(bytes: Seq<u8>)
    requires
        !nul_free(bytes),
    ensures
        first_nul(bytes, nul_offset(bytes)),
{
    first_nul_within(bytes, bytes.len() as int);
}

} // verus!

verus! {

proof fn scalar_bytes_nonzero(v: u32)
    by (bit_vector)
    requires
        0x80 <= v <= 0x10FFFF,
    ensures
        (0xC0u8 | ((v >> 6u32) & 0x1Fu32) as u8) != 0u8,
        (0xE0u8 | ((v >> 12u32) & 0x0Fu32) as u8) != 0u8,
        (0xF0u8 | ((v >> 18u32) & 0x7u32) as u8) != 0u8,
        (0x80u8 | (v & 0x3Fu32) as u8) != 0u8,
        (0x80u8 | ((v >> 6u32) & 0x3Fu32) as u8) != 0u8,
        (0x80u8 | ((v >> 12u32) & 0x3Fu32) as u8) != 0u8,
{
}

proof fn low_byte_zero(v: u32)
    by (bit_vector)
    requires
        v <= 0x7F,
    ensures
        ((v & 0x7Fu32) as u8 == 0u8) <==> v == 0u32,
{
}

proof fn encode_scalar_nul_free(c: char)
    ensures
        nul_free(vstd::utf8::encode_scalar(c as u32)) <==> c != '\0',
{
    let v = c as u32;
    vstd::utf8::char_is_scalar(c);
    let e = vstd::utf8::encode_scalar(v);
    if v <= 0x7F {
        low_byte_zero(v);
        assert(e[0] == (v & 0x7Fu32) as u8);
        if c == '\0' {
            assert(v == 0);
            assert(e[0] == 0);
        } else {
            assert(v != 0) by {
                vstd::utf8::char_u32_cast(c, v);
                if v == 0 {
                    assert((0u32 as char) == '\0');
                }
            }
        }
    } else {
        scalar_bytes_nonzero(v);
        assert(c != '\0');
    }
}

proof fn nul_free_concat(a: Seq<u8>, b: Seq<u8>)
    ensures
        nul_free(a + b) <==> nul_free(a) && nul_free(b),
{
    if nul_free(a + b) {
        assert forall|i: int| 0 <= i < b.len() implies b[i] != 0 by {
            assert((a + b)[a.len() + i] == b[i]);
        }
        assert forall|i: int| 0 <= i < a.len() implies a[i] != 0 by {
            assert((a + b)[i] == a[i]);
        }
    }
}

/// A string is refused as a C string exactly when it holds the character
/// U+0000: its UTF-8 encoding has a zero byte just where that character is.
pub proof fn nul_byte_iff_nul_char(s: Seq<char>)
    ensures
        nul_free(encode_utf8(s)) <==> !s.contains('\0'),
    decreases s.len(),
{
    if s.len() == 0 {
        assert(!s.contains('\0'));
    } else {
        nul_byte_iff_nul_char(s.drop_first());
        encode_scalar_nul_free(s[0]);
        nul_free_concat(vstd::utf8::encode_scalar(s[0] as u32), encode_utf8(s.drop_first()));
        if s.contains('\0') {
            let k = choose|k: int| 0 <= k < s.len() && s[k] == '\0';
            if k > 0 {
                assert(s.drop_first()[k - 1] == '\0');
            }
        }
        if s.drop_first().contains('\0') {
            let k = choose|k: int| 0 <= k < s.drop_first().len() && s.drop_first()[k] == '\0';
            assert(s[k + 1] == '\0');
        }
    }
}

/// A string accepted as a C string reaches the engine intact: the bytes
/// before the terminating zero decode back to it.
pub proof fn c_string_round_trip(s: Seq<char>)
    requires
        !s.contains('\0'),
    ensures
        c_string_of(encode_utf8(s)) matches Ok(bytes) && bytes.last() == 0 && decode_utf8(
            bytes.drop_last(),
        ) == s,
{
    nul_byte_iff_nul_char(s);
    vstd::utf8::encode_utf8_decode_utf8(s);
    let bytes = encode_utf8(s).push(0u8);
    assert(bytes.drop_last() =~= encode_utf8(s));
}

} // verus!
