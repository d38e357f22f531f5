//! Hexadecimal text for byte strings (engine heap images travel as hex).
use vstd::prelude::*;
use vstd::string::StringSliceAdditionalSpecFns;

use crate::text::{hex_char, hex_digits, push_hex, push_text};

verus! {

/// The hex text of `bytes`: two lowercase digits per byte.
pub open spec fn hex_of(bytes: Seq<u8>) -> Seq<char>
    decreases bytes.len(),
{
    if bytes.len() == 0 {
        Seq::empty()
    } else {
        hex_of(bytes.drop_last()) + hex_digits(bytes.last() as nat, 2)
    }
}

/// Encodes bytes as lowercase hex text.
pub fn encode(bytes: &[u8]) -> (s: String)
    ensures
        s@ == hex_of(bytes@),
{
    let mut s = String::new();
    let mut i: usize = 0;
    while i < bytes.len()
        invariant
            i <= bytes@.len(),
            s@ == hex_of(bytes@.take(i as int)),
        decreases bytes.len() - i,
    {
        push_hex(&mut s, bytes[i] as u64, 2);
        assert(bytes@.take(i + 1).drop_last() =~= bytes@.take(i as int));
        i = i + 1;
    }
    assert(bytes@.take(bytes@.len() as int) =~= bytes@);
    s
}

/// The value of a hex digit (either case).
pub open spec fn hex_val(b: u8) -> Option<u8> {
    if 48 <= b <= 57 {
        Some((b - 48) as u8)
    } else if 97 <= b <= 102 {
        Some((b - 87) as u8)
    } else if 65 <= b <= 70 {
        Some((b - 55) as u8)
    } else {
        None
    }
}

/// The byte a two-character field denotes, read as a base-16 `u8` the way
/// `u8::from_str_radix` reads it: two hex digits, or a `+` and one digit.
pub open spec fn pair_value(b0: u8, b1: u8) -> Option<u8> {
    if b0 == 43 {
        hex_val(b1)
    } else {
        match (hex_val(b0), hex_val(b1)) {
            (Some(x), Some(y)) => Some((16 * x + y) as u8),
            _ => None,
        }
    }
}

/// The bytes denoted by the pairs of `t` (of even length), or `None` when a
/// pair is not a byte.
pub open spec fn pairs_value(t: Seq<u8>) -> Option<Seq<u8>>
    decreases t.len(),
{
    if t.len() < 2 {
        Some(Seq::empty())
    } else {
        match (pair_value(t[0], t[1]), pairs_value(t.skip(2))) {
            (Some(v), Some(rest)) => Some(seq![v] + rest),
            _ => None,
        }
    }
}

/// The messages of the two ways a hex text fails.
pub open spec fn odd_length_message() -> Seq<char> {
    "odd length hex string"@
}

/// The message of a field that is not a byte (that of
/// `std::num::ParseIntError` for an invalid digit).
pub open spec fn invalid_digit_message() -> Seq<char> {
    "invalid digit found in string"@
}

fn hex_value(b: u8) -> (r: Option<u8>)
    ensures
        r == hex_val(b),
{
    if 48 <= b && b <= 57 {
        Some(b - 48)
    } else if 97 <= b && b <= 102 {
        Some(b - 87)
    } else if 65 <= b && b <= 70 {
        Some(b - 55)
    } else {
        None
    }
}

fn pair(b0: u8, b1: u8) -> (r: Option<u8>)
    ensures
        r == pair_value(b0, b1),
{
    if b0 == 43 {
        hex_value(b1)
    } else {
        match (hex_value(b0), hex_value(b1)) {
            (Some(x), Some(y)) => Some(16 * x + y),
            _ => None,
        }
    }
}

proof fn lemma_pairs_prefix(t: Seq<u8>, i: int)
    requires
        0 <= i,
        i % 2 == 0,
        i + 2 <= t.len(),
    ensures
        pairs_value(t.skip(i)) == match (pair_value(t[i], t[i + 1]), pairs_value(t.skip(i + 2))) {
            (Some(v), Some(rest)) => Some(seq![v] + rest),
            _ => None::<Seq<u8>>,
        },
{
    assert(t.skip(i).skip(2) =~= t.skip(i + 2));
}

/// Decodes hex text: an error for an odd number of bytes, and for a field
/// that is not a byte; else the bytes, in order.
pub fn decode(s: &str) -> (r: Result<Vec<u8>, String>)
    requires
        s.spec_bytes().len() % 2 == 0 ==> forall|i: int|
            0 <= i < s.spec_bytes().len() && i % 2 == 0 ==> vstd::utf8::is_char_boundary(
                s.spec_bytes(),
                i,
            ),
    ensures
        s.spec_bytes().len() % 2 == 1 ==> (r matches Err(m) && m@ == odd_length_message()),
        s.spec_bytes().len() % 2 == 0 ==> match pairs_value(s.spec_bytes()) {
            Some(v) => r matches Ok(out) && out@ == v,
            None => r matches Err(m) && m@ == invalid_digit_message(),
        },
{
    let bytes = s.as_bytes();
    let n = bytes.len();
    if n % 2 != 0 {
        let mut m = String::new();
        push_text(&mut m, "odd length hex string");
        return Err(m);
    }
    let mut out: Vec<u8> = Vec::new();
    let mut i: usize = 0;
    proof {
        assert(bytes@.skip(0) =~= bytes@);
        match pairs_value(bytes@) {
            Some(r) => {
                assert(out@ + r =~= r);
            },
            None => {},
        }
    }
    while i < n
        invariant
            bytes@ == s.spec_bytes(),
            n == bytes@.len(),
            n % 2 == 0,
            i % 2 == 0,
            i <= n,
            pairs_value(bytes@) == match pairs_value(bytes@.skip(i as int)) {
                Some(rest) => Some(out@ + rest),
                None => None::<Seq<u8>>,
            },
        decreases n - i,
    {
        proof {
            lemma_pairs_prefix(bytes@, i as int);
        }
        match pair(bytes[i], bytes[i + 1]) {
            Some(v) => {
                let ghost before = out@;
                out.push(v);
                proof {
                    match pairs_value(bytes@.skip(i + 2)) {
                        Some(rest) => {
                            assert(before + (seq![v] + rest) =~= out@ + rest);
                        },
                        None => {},
                    }
                }
            },
            None => {
                let mut m = String::new();
                push_text(&mut m, "invalid digit found in string");
                return Err(m);
            },
        }
        i = i + 2;
    }
    assert(bytes@.skip(i as int).len() == 0);
    assert(out@ + Seq::<u8>::empty() =~= out@);
    Ok(out)
}

/// The bytes of an ASCII text.
pub open spec fn ascii_bytes(t: Seq<char>) -> Seq<u8> {
    Seq::new(t.len(), |i: int| t[i] as u8)
}

proof fn lemma_pairs_concat(a: Seq<u8>, b: Seq<u8>)
    requires
        a.len() % 2 == 0,
    ensures
        pairs_value(a + b) == match (pairs_value(a), pairs_value(b)) {
            (Some(x), Some(y)) => Some(x + y),
            _ => None::<Seq<u8>>,
        },
    decreases a.len(),
{
    if a.len() == 0 {
        assert(a + b =~= b);
        assert(Seq::<u8>::empty() + pairs_value(b)->0 =~= pairs_value(b)->0);
    } else {
        assert((a + b).skip(2) =~= a.skip(2) + b);
        lemma_pairs_concat(a.skip(2), b);
        assert((a + b)[0] == a[0] && (a + b)[1] == a[1]);
        match (pair_value(a[0], a[1]), pairs_value(a.skip(2)), pairs_value(b)) {
            (Some(v), Some(x), Some(y)) => {
                assert(seq![v] + (x + y) =~= (seq![v] + x) + y);
            },
            _ => {},
        }
    }
}

/// Decoding what was encoded gives the bytes back: the hex text of any
/// bytes is ASCII, and its fields denote exactly those bytes.
pub proof fn law_hex_roundtrip(bytes: Seq<u8>)
    ensures
        hex_of(bytes).len() == 2 * bytes.len(),
        forall|i: int| 0 <= i < hex_of(bytes).len() ==> (#[trigger] hex_of(bytes)[i] as u32) < 128,
        pairs_value(ascii_bytes(hex_of(bytes))) == Some(bytes),
    decreases bytes.len(),
{
    if bytes.len() == 0 {
        assert(ascii_bytes(hex_of(bytes)) =~= Seq::<u8>::empty());
        assert(bytes =~= Seq::<u8>::empty());
    } else {
        let init = bytes.drop_last();
        let x = bytes.last();
        law_hex_roundtrip(init);
        lemma_hex_digits_len(x as nat, 2);
        let d = hex_digits(x as nat, 2);
        assert(d =~= seq![hex_char(((x as nat) / 16) % 16), hex_char((x as nat) % 16)]) by {
            assert(hex_digits(((x as nat) / 16) as nat, 1) =~= Seq::<char>::empty().push(hex_char(((x as nat) / 16) % 16)));
        }
        let db = ascii_bytes(d);
        assert(pair_value(db[0], db[1]) == Some(x)) by {
            let hi = ((x as nat) / 16) % 16;
            let lo = (x as nat) % 16;
            assert(hi == (x as nat) / 16);
            assert(16 * hi + lo == x);
        }
        assert(db.skip(2) =~= Seq::<u8>::empty());
        assert(pairs_value(db.skip(2)) == Some(Seq::<u8>::empty()));
        assert(seq![x] + Seq::<u8>::empty() =~= seq![x]);
        assert(pairs_value(db) == Some(seq![x]));
        assert(ascii_bytes(hex_of(bytes)) =~= ascii_bytes(hex_of(init)) + db);
        lemma_pairs_concat(ascii_bytes(hex_of(init)), db);
        assert(init + seq![x] =~= bytes);
        assert forall|i: int| 0 <= i < hex_of(bytes).len() implies (#[trigger] hex_of(bytes)[i] as u32) < 128 by {
            if i < hex_of(init).len() {
                assert(hex_of(bytes)[i] == hex_of(init)[i]);
            } else {
                assert(hex_of(bytes)[i] == d[i - hex_of(init).len()]);
            }
        }
    }
}

/// Bytes below 128 are valid UTF-8, and every index up to their length is
/// a character boundary.
proof fn lemma_ascii_boundaries(bytes: Seq<u8>, i: int)
    requires
        forall|j: int| 0 <= j < bytes.len() ==> #[trigger] bytes[j] < 128,
        0 <= i <= bytes.len(),
    ensures
        vstd::utf8::valid_utf8(bytes),
        vstd::utf8::is_char_boundary(bytes, i),
    decreases bytes.len(),
{
    if bytes.len() == 0 {
    } else {
        let rest = vstd::utf8::pop_first_scalar(bytes);
        assert(vstd::utf8::is_leading_byte_width_1(bytes[0]));
        assert(vstd::utf8::length_of_first_scalar(bytes) == 1);
        assert(rest =~= bytes.subrange(1, bytes.len() as int));
        assert forall|j: int| 0 <= j < rest.len() implies #[trigger] rest[j] < 128 by {
            assert(rest[j] == bytes[j + 1]);
        }
        if i > 0 {
            lemma_ascii_boundaries(rest, i - 1);
        } else {
            lemma_ascii_boundaries(rest, 0);
        }
        assert(vstd::utf8::valid_first_scalar(bytes));
    }
}

/// What `encode` writes, `decode` reads back: the text of the hex digits of
/// `bytes` meets decode's requirement, has an even number of bytes, and its
/// fields denote exactly `bytes`.
pub proof fn law_decode_reads_encoded(s: &str, bytes: Seq<u8>)
    requires
        s@ == hex_of(bytes),
    ensures
        s.spec_bytes() == ascii_bytes(hex_of(bytes)),
        s.spec_bytes().len() % 2 == 0,
        pairs_value(s.spec_bytes()) == Some(bytes),
        forall|i: int|
            0 <= i < s.spec_bytes().len() && i % 2 == 0 ==> vstd::utf8::is_char_boundary(
                s.spec_bytes(),
                i,
            ),
{
    law_hex_roundtrip(bytes);
    assert(vstd::utf8::is_ascii_chars(s@)) by {
        assert forall|i: int| 0 <= i < s@.len() implies '\0' <= #[trigger] s@[i] <= '\u{7f}' by {
            let c = s@[i];
            assert(c == hex_of(bytes)[i]);
            assert((c as u32) < 128);
            vstd::utf8::char_u32_cast(c, c as u32);
            assert((c as u32) as int == c as int);
        }
    }
    vstd::string::is_ascii_spec_bytes(s);
    assert(s.spec_bytes() =~= ascii_bytes(hex_of(bytes)));
    let b = s.spec_bytes();
    assert forall|j: int| 0 <= j < b.len() implies #[trigger] b[j] < 128 by {
        assert((hex_of(bytes)[j] as u32) < 128);
    }
    assert forall|i: int| 0 <= i < b.len() && i % 2 == 0 implies vstd::utf8::is_char_boundary(b, i) by {
        lemma_ascii_boundaries(b, i);
    }
}

proof fn lemma_hex_digits_len(n: nat, w: nat)
    ensures
        hex_digits(n, w).len() == w,
    decreases w,
{
    if w > 0 {
        lemma_hex_digits_len(n / 16, (w - 1) as nat);
    }
}

} // verus!
