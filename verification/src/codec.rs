//! The text codec for binary-safe payloads.
//!
//! Payloads that must travel as plain text are framed in the usual 64-glyph
//! alphabet: three payload bytes become four alphabet bytes, a short final
//! group is filled with `=`.  Encoding is total; decoding accepts exactly
//! the well-formed framings and is proved to invert encoding on every
//! payload.

use vstd::arithmetic::div_mod::lemma_fundamental_div_mod;
use vstd::arithmetic::div_mod::lemma_fundamental_div_mod_converse;
use vstd::prelude::*;

verus! {

/// The padding byte `=` that fills a short final group.
pub const PAD: u8 = 61;

/// Why a framed payload could not be decoded.
#[derive(Clone, Copy, PartialEq, Eq, Structural, Debug)]
pub enum DecodeError {
    /// The input is not a well-formed framing: wrong length, a byte outside
    /// the alphabet, or padding anywhere but the end of the final group.
    Malformed,
}

/// The alphabet byte that carries a six-bit value.
pub open spec fn sextet_byte(v: int) -> u8 {
    if v < 26 {
        (65 + v) as u8  // 'A' ..= 'Z'
    } else if v < 52 {
        (97 + (v - 26)) as u8  // 'a' ..= 'z'
    } else if v < 62 {
        (48 + (v - 52)) as u8  // '0' ..= '9'
    } else if v == 62 {
        43u8  // '+'
    } else {
        47u8  // '/'
    }
}

/// The six-bit value an alphabet byte carries, or -1 for a byte outside the
/// alphabet.
pub open spec fn byte_sextet(b: u8) -> int {
    if 65 <= b < 91 {
        b - 65
    } else if 97 <= b < 123 {
        (b - 97) + 26
    } else if 48 <= b < 58 {
        (b - 48) + 52
    } else if b == 43 {
        62
    } else if b == 47 {
        63
    } else {
        -1
    }
}

/// The four alphabet bytes of a full three-byte group.
pub open spec fn enc3(b0: u8, b1: u8, b2: u8) -> Seq<u8> {
    seq![
        sextet_byte(b0 as int / 4),
        sextet_byte((b0 as int % 4) * 16 + b1 as int / 16),
        sextet_byte((b1 as int % 16) * 4 + b2 as int / 64),
        sextet_byte(b2 as int % 64),
    ]
}

/// The final group of a payload whose length leaves two bytes over.
pub open spec fn enc2(b0: u8, b1: u8) -> Seq<u8> {
    seq![
        sextet_byte(b0 as int / 4),
        sextet_byte((b0 as int % 4) * 16 + b1 as int / 16),
        sextet_byte((b1 as int % 16) * 4),
        PAD,
    ]
}

/// The final group of a payload whose length leaves one byte over.
pub open spec fn enc1(b0: u8) -> Seq<u8> {
    seq![sextet_byte(b0 as int / 4), sextet_byte((b0 as int % 4) * 16), PAD, PAD]
}

/// The framing of a payload: full groups, then a padded final group when
/// the length is no multiple of three.
pub open spec fn b64_encode(s: Seq<u8>) -> Seq<u8>
    decreases s.len(),
{
    if s.len() >= 3 {
        enc3(s[0], s[1], s[2]) + b64_encode(s.skip(3))
    } else if s.len() == 2 {
        enc2(s[0], s[1])
    } else if s.len() == 1 {
        enc1(s[0])
    } else {
        Seq::<u8>::empty()
    }
}

/// The three payload bytes of a padding-free group, or nothing when a byte
/// falls outside the alphabet.
pub open spec fn dec4(c0: u8, c1: u8, c2: u8, c3: u8) -> Option<Seq<u8>> {
    let v0 = byte_sextet(c0);
    let v1 = byte_sextet(c1);
    let v2 = byte_sextet(c2);
    let v3 = byte_sextet(c3);
    if v0 >= 0 && v1 >= 0 && v2 >= 0 && v3 >= 0 {
        Some(
            seq![
                (v0 * 4 + v1 / 16) as u8,
                ((v1 % 16) * 16 + v2 / 4) as u8,
                ((v2 % 4) * 64 + v3) as u8,
            ],
        )
    } else {
        None
    }
}

/// The payload bytes of the final group, which alone may end in padding.
pub open spec fn dec_final(c0: u8, c1: u8, c2: u8, c3: u8) -> Option<Seq<u8>> {
    let v0 = byte_sextet(c0);
    let v1 = byte_sextet(c1);
    let v2 = byte_sextet(c2);
    if c2 == PAD && c3 == PAD {
        if v0 >= 0 && v1 >= 0 {
            Some(seq![(v0 * 4 + v1 / 16) as u8])
        } else {
            None
        }
    } else if c3 == PAD {
        if v0 >= 0 && v1 >= 0 && v2 >= 0 {
            Some(seq![(v0 * 4 + v1 / 16) as u8, ((v1 % 16) * 16 + v2 / 4) as u8])
        } else {
            None
        }
    } else {
        dec4(c0, c1, c2, c3)
    }
}

/// The payload a framing carries, or nothing when the framing is not
/// well formed.
pub open spec fn b64_decode(s: Seq<u8>) -> Option<Seq<u8>>
    decreases s.len(),
{
    if s.len() == 0 {
        Some(Seq::<u8>::empty())
    } else if s.len() < 4 {
        None::<Seq<u8>>
    } else if s.len() == 4 {
        dec_final(s[0], s[1], s[2], s[3])
    } else {
        match dec4(s[0], s[1], s[2], s[3]) {
            Some(group) => match b64_decode(s.skip(4)) {
                Some(rest) => Some(group + rest),
                None => None,
            },
            None => None,
        }
    }
}

/// Every six-bit value survives the alphabet and back.
proof fn lemma_sextet_round_trip(v: int)
    requires
        0 <= v < 64,
    ensures
        byte_sextet(sextet_byte(v)) == v,
        sextet_byte(v) != PAD,
{
}

/// Encoding a full group and reading it back yields the group.
proof fn lemma_dec4_enc3(b0: u8, b1: u8, b2: u8)
    ensures
        dec4(enc3(b0, b1, b2)[0], enc3(b0, b1, b2)[1], enc3(b0, b1, b2)[2], enc3(b0, b1, b2)[3])
            == Some(seq![b0, b1, b2]),
        enc3(b0, b1, b2)[2] != PAD,
        enc3(b0, b1, b2)[3] != PAD,
{
    let v0 = b0 as int / 4;
    let v1 = (b0 as int % 4) * 16 + b1 as int / 16;
    let v2 = (b1 as int % 16) * 4 + b2 as int / 64;
    let v3 = b2 as int % 64;
    lemma_sextet_round_trip(v0);
    lemma_sextet_round_trip(v1);
    lemma_sextet_round_trip(v2);
    lemma_sextet_round_trip(v3);
    lemma_fundamental_div_mod_converse(v1, 16, b0 as int % 4, b1 as int / 16);
    lemma_fundamental_div_mod(b0 as int, 4);
    assert(v0 * 4 + v1 / 16 == b0 as int);
    lemma_fundamental_div_mod_converse(v2, 4, b1 as int % 16, b2 as int / 64);
    lemma_fundamental_div_mod(b1 as int, 16);
    assert((v1 % 16) * 16 + v2 / 4 == b1 as int);
    lemma_fundamental_div_mod(b2 as int, 64);
    assert((v2 % 4) * 64 + v3 == b2 as int);
    assert(seq![(v0 * 4 + v1 / 16) as u8, ((v1 % 16) * 16 + v2 / 4) as u8, ((v2 % 4) * 64
        + v3) as u8] =~= seq![b0, b1, b2]);
}

/// Encoding a two-byte final group and reading it back yields the group.
proof fn lemma_dec_final_enc2(b0: u8, b1: u8)
    ensures
        dec_final(enc2(b0, b1)[0], enc2(b0, b1)[1], enc2(b0, b1)[2], enc2(b0, b1)[3]) == Some(
            seq![b0, b1],
        ),
{
    let v0 = b0 as int / 4;
    let v1 = (b0 as int % 4) * 16 + b1 as int / 16;
    let v2 = (b1 as int % 16) * 4;
    lemma_sextet_round_trip(v0);
    lemma_sextet_round_trip(v1);
    lemma_sextet_round_trip(v2);
    lemma_fundamental_div_mod_converse(v1, 16, b0 as int % 4, b1 as int / 16);
    lemma_fundamental_div_mod(b0 as int, 4);
    assert(v0 * 4 + v1 / 16 == b0 as int);
    lemma_fundamental_div_mod_converse(v2, 4, b1 as int % 16, 0);
    lemma_fundamental_div_mod(b1 as int, 16);
    assert((v1 % 16) * 16 + v2 / 4 == b1 as int);
    assert(seq![(v0 * 4 + v1 / 16) as u8, ((v1 % 16) * 16 + v2 / 4) as u8] =~= seq![b0, b1]);
}

/// Encoding a one-byte final group and reading it back yields the byte.
proof fn lemma_dec_final_enc1(b0: u8)
    ensures
        dec_final(enc1(b0)[0], enc1(b0)[1], enc1(b0)[2], enc1(b0)[3]) == Some(seq![b0]),
{
    let v0 = b0 as int / 4;
    let v1 = (b0 as int % 4) * 16;
    lemma_sextet_round_trip(v0);
    lemma_sextet_round_trip(v1);
    lemma_fundamental_div_mod_converse(v1, 16, b0 as int % 4, 0);
    lemma_fundamental_div_mod(b0 as int, 4);
    assert(v0 * 4 + v1 / 16 == b0 as int);
    assert(seq![(v0 * 4 + v1 / 16) as u8] =~= seq![b0]);
}

/// Encoding distributes over a split at a full-group boundary.
proof fn lemma_encode_split(a: Seq<u8>, b: Seq<u8>)
    requires
        a.len() % 3 == 0,
    ensures
        b64_encode(a + b) == b64_encode(a) + b64_encode(b),
    decreases a.len(),
{
    if a.len() == 0 {
        assert(a + b =~= b);
        assert(b64_encode(a) + b64_encode(b) =~= b64_encode(b));
    } else {
        assert(a.len() >= 3);
        let ab = a + b;
        assert(ab[0] == a[0] && ab[1] == a[1] && ab[2] == a[2]);
        assert(ab.skip(3) =~= a.skip(3) + b);
        assert(a.skip(3).len() % 3 == 0);
        lemma_encode_split(a.skip(3), b);
        assert(b64_encode(a + b) =~= b64_encode(a) + b64_encode(b));
    }
}

/// A framing is empty only for the empty payload, and otherwise holds at
/// least one full group of four bytes.
proof fn lemma_encode_len(s: Seq<u8>)
    ensures
        s.len() == 0 ==> b64_encode(s).len() == 0,
        s.len() > 0 ==> b64_encode(s).len() >= 4,
    decreases s.len(),
{
    if s.len() >= 3 {
        lemma_encode_len(s.skip(3));
    }
}

/// Round trip: decoding the framing of any payload yields that payload.
pub proof fn lemma_encode_decode_round_trip(s: Seq<u8>)
    ensures
        b64_decode(b64_encode(s)) == Some(s),
    decreases s.len(),
{
    let e = b64_encode(s);
    if s.len() == 0 {
        assert(e =~= Seq::<u8>::empty());
        assert(Seq::<u8>::empty() =~= s);
    } else if s.len() == 1 {
        assert(e =~= enc1(s[0]));
        lemma_dec_final_enc1(s[0]);
        assert(seq![s[0]] =~= s);
    } else if s.len() == 2 {
        assert(e =~= enc2(s[0], s[1]));
        lemma_dec_final_enc2(s[0], s[1]);
        assert(seq![s[0], s[1]] =~= s);
    } else {
        let g = enc3(s[0], s[1], s[2]);
        let rest = b64_encode(s.skip(3));
        assert(e =~= g + rest);
        lemma_dec4_enc3(s[0], s[1], s[2]);
        lemma_encode_len(s.skip(3));
        if s.len() == 3 {
            assert(s.skip(3).len() == 0);
            assert(e.len() == 4);
            assert(e[0] == g[0] && e[1] == g[1] && e[2] == g[2] && e[3] == g[3]);
            assert(b64_decode(e) == dec_final(e[0], e[1], e[2], e[3]));
            assert(dec_final(g[0], g[1], g[2], g[3]) == dec4(g[0], g[1], g[2], g[3]));
            assert(seq![s[0], s[1], s[2]] =~= s);
        } else {
            assert(rest.len() >= 4);
            assert(e.len() >= 8);
            assert(e[0] == g[0] && e[1] == g[1] && e[2] == g[2] && e[3] == g[3]);
            lemma_encode_decode_round_trip(s.skip(3));
            assert(e.skip(4) =~= rest);
            assert(b64_decode(e) == Some(seq![s[0], s[1], s[2]] + s.skip(3)));
            assert(seq![s[0], s[1], s[2]] + s.skip(3) =~= s);
        }
    }
}

/// A framing whose length is no multiple of four decodes to nothing.
proof fn lemma_decode_bad_len(s: Seq<u8>)
    requires
        s.len() % 4 != 0,
    ensures
        b64_decode(s) is None,
    decreases s.len(),
{
    if s.len() > 4 {
        assert(s.skip(4).len() % 4 != 0);
        lemma_decode_bad_len(s.skip(4));
    }
}

/// The alphabet byte that carries a six-bit value.
fn sextet_to_byte(v: u8) -> (r: u8)
    requires
        v < 64,
    ensures
        r == sextet_byte(v as int),
{
    if v < 26 {
        65 + v
    } else if v < 52 {
        97 + (v - 26)
    } else if v < 62 {
        48 + (v - 52)
    } else if v == 62 {
        43
    } else {
        47
    }
}

/// The six-bit value an alphabet byte carries, or nothing for a byte
/// outside the alphabet.
fn byte_to_sextet(b: u8) -> (r: Option<u8>)
    ensures
        (r is Some) == (byte_sextet(b) >= 0),
        r matches Some(v) ==> v as int == byte_sextet(b) && v < 64,
{
    if b >= 65 && b < 91 {
        Some(b - 65)
    } else if b >= 97 && b < 123 {
        Some((b - 97) + 26)
    } else if b >= 48 && b < 58 {
        Some((b - 48) + 52)
    } else if b == 43 {
        Some(62)
    } else if b == 47 {
        Some(63)
    } else {
        None
    }
}

/// Frames a payload as alphabet text.
pub fn encode(data: &[u8]) -> (r: Vec<u8>)
    ensures
        r@ == b64_encode(data@),
{
    let n = data.len();
    let mut out: Vec<u8> = Vec::new();
    let mut i: usize = 0;
    while n - i >= 3
        invariant
            n == data@.len(),
            i <= n,
            i % 3 == 0,
            out@ == b64_encode(data@.take(i as int)),
        decreases n - i,
    {
        let b0 = data[i];
        let b1 = data[i + 1];
        let b2 = data[i + 2];
        out.push(sextet_to_byte(b0 / 4));
        out.push(sextet_to_byte((b0 % 4) * 16 + b1 / 16));
        out.push(sextet_to_byte((b1 % 16) * 4 + b2 / 64));
        out.push(sextet_to_byte(b2 % 64));
        proof {
            let pre = data@.take(i as int);
            let post = data@.take(i as int + 3);
            let g3 = seq![b0, b1, b2];
            assert(post =~= pre + g3);
            lemma_encode_split(pre, g3);
            assert(g3.len() == 3 && g3[0] == b0 && g3[1] == b1 && g3[2] == b2);
            assert(g3.skip(3) =~= Seq::<u8>::empty());
            assert(b64_encode(g3) =~= enc3(b0, b1, b2) + b64_encode(g3.skip(3)));
            assert(b64_encode(g3) =~= enc3(b0, b1, b2));
            assert(out@ =~= b64_encode(post));
        }
        i = i + 3;
    }
    if n - i == 1 {
        let b0 = data[i];
        out.push(sextet_to_byte(b0 / 4));
        out.push(sextet_to_byte((b0 % 4) * 16));
        out.push(PAD);
        out.push(PAD);
        proof {
            assert(data@.take(i as int) + data@.skip(i as int) =~= data@);
            lemma_encode_split(data@.take(i as int), data@.skip(i as int));
            assert(data@.skip(i as int) =~= seq![b0]);
            assert(out@ =~= b64_encode(data@));
        }
    } else if n - i == 2 {
        let b0 = data[i];
        let b1 = data[i + 1];
        out.push(sextet_to_byte(b0 / 4));
        out.push(sextet_to_byte((b0 % 4) * 16 + b1 / 16));
        out.push(sextet_to_byte((b1 % 16) * 4));
        out.push(PAD);
        proof {
            assert(data@.take(i as int) + data@.skip(i as int) =~= data@);
            lemma_encode_split(data@.take(i as int), data@.skip(i as int));
            assert(data@.skip(i as int) =~= seq![b0, b1]);
            assert(out@ =~= b64_encode(data@));
        }
    } else {
        proof {
            assert(data@.take(i as int) =~= data@);
        }
    }
    out
}

/// Reads the payload out of alphabet text; a framing that is not well
/// formed is refused, if and only if it is not.
pub fn decode(data: &[u8]) -> (r: Result<Vec<u8>, DecodeError>)
    ensures
        (r is Ok) == (b64_decode(data@) is Some),
        r matches Ok(v) ==> b64_decode(data@) == Some(v@),
{
    let n = data.len();
    if n == 0 {
        let out: Vec<u8> = Vec::new();
        proof {
            assert(out@ =~= Seq::<u8>::empty());
        }
        return Ok(out);
    }
    if n % 4 != 0 {
        proof {
            lemma_decode_bad_len(data@);
        }
        return Err(DecodeError::Malformed);
    }
    let mut out: Vec<u8> = Vec::new();
    let mut i: usize = 0;
    proof {
        assert(data@.skip(0) =~= data@);
        match b64_decode(data@) {
            Some(tail) => {
                assert(out@ + tail =~= tail);
            },
            None => {},
        }
    }
    while i + 4 < n
        invariant
            n == data@.len(),
            n % 4 == 0,
            i % 4 == 0,
            i + 4 <= n,
            (b64_decode(data@) is Some) == (b64_decode(data@.skip(i as int)) is Some),
            b64_decode(data@.skip(i as int)) matches Some(tail) ==> b64_decode(data@) == Some(
                out@ + tail,
            ),
        decreases n - i,
    {
        let ghost suffix = data@.skip(i as int);
        proof {
            assert(suffix.len() == n - i);
            assert(suffix.len() > 4);
            assert(suffix[0] == data@[i as int]);
            assert(suffix[1] == data@[i as int + 1]);
            assert(suffix[2] == data@[i as int + 2]);
            assert(suffix[3] == data@[i as int + 3]);
        }
        let c0 = data[i];
        let c1 = data[i + 1];
        let c2 = data[i + 2];
        let c3 = data[i + 3];
        let (v0, v1, v2, v3) = match (
            byte_to_sextet(c0),
            byte_to_sextet(c1),
            byte_to_sextet(c2),
            byte_to_sextet(c3),
        ) {
            (Some(v0), Some(v1), Some(v2), Some(v3)) => (v0, v1, v2, v3),
            _ => {
                proof {
                    assert(dec4(suffix[0], suffix[1], suffix[2], suffix[3]) is None);
                    assert(b64_decode(suffix) is None);
                }
                return Err(DecodeError::Malformed);
            },
        };
        let ghost pre_out = out@;
        out.push(v0 * 4 + v1 / 16);
        out.push((v1 % 16) * 16 + v2 / 4);
        out.push((v2 % 4) * 64 + v3);
        proof {
            let group = seq![(v0 * 4 + v1 / 16) as u8, ((v1 % 16) * 16 + v2 / 4) as u8, ((v2 % 4)
                * 64 + v3) as u8];
            assert(dec4(suffix[0], suffix[1], suffix[2], suffix[3]) == Some(group));
            assert(suffix.skip(4) =~= data@.skip(i as int + 4));
            assert(out@ =~= pre_out + group);
            match b64_decode(data@.skip(i as int + 4)) {
                Some(tail) => {
                    assert(b64_decode(suffix) == Some(group + tail));
                    assert(pre_out + (group + tail) =~= (pre_out + group) + tail);
                },
                None => {},
            }
        }
        i = i + 4;
    }
    let ghost suffix = data@.skip(i as int);
    proof {
        assert(i + 4 == n);
        assert(suffix.len() == 4);
        assert(suffix[0] == data@[i as int]);
        assert(suffix[1] == data@[i as int + 1]);
        assert(suffix[2] == data@[i as int + 2]);
        assert(suffix[3] == data@[i as int + 3]);
        assert(b64_decode(suffix) == dec_final(suffix[0], suffix[1], suffix[2], suffix[3]));
    }
    let c0 = data[i];
    let c1 = data[i + 1];
    let c2 = data[i + 2];
    let c3 = data[i + 3];
    let ghost pre_out = out@;
    if c2 == PAD && c3 == PAD {
        let (v0, v1) = match (byte_to_sextet(c0), byte_to_sextet(c1)) {
            (Some(v0), Some(v1)) => (v0, v1),
            _ => {
                proof {
                    assert(b64_decode(suffix) is None);
                }
                return Err(DecodeError::Malformed);
            },
        };
        out.push(v0 * 4 + v1 / 16);
        proof {
            assert(b64_decode(suffix) == Some(seq![(v0 * 4 + v1 / 16) as u8]));
            assert(out@ =~= pre_out + seq![(v0 * 4 + v1 / 16) as u8]);
        }
    } else if c3 == PAD {
        let (v0, v1, v2) = match (byte_to_sextet(c0), byte_to_sextet(c1), byte_to_sextet(c2)) {
            (Some(v0), Some(v1), Some(v2)) => (v0, v1, v2),
            _ => {
                proof {
                    assert(b64_decode(suffix) is None);
                }
                return Err(DecodeError::Malformed);
            },
        };
        out.push(v0 * 4 + v1 / 16);
        out.push((v1 % 16) * 16 + v2 / 4);
        proof {
            let group = seq![(v0 * 4 + v1 / 16) as u8, ((v1 % 16) * 16 + v2 / 4) as u8];
            assert(b64_decode(suffix) == Some(group));
            assert(out@ =~= pre_out + group);
        }
    } else {
        let (v0, v1, v2, v3) = match (
            byte_to_sextet(c0),
            byte_to_sextet(c1),
            byte_to_sextet(c2),
            byte_to_sextet(c3),
        ) {
            (Some(v0), Some(v1), Some(v2), Some(v3)) => (v0, v1, v2, v3),
            _ => {
                proof {
                    assert(dec4(suffix[0], suffix[1], suffix[2], suffix[3]) is None);
                    assert(b64_decode(suffix) is None);
                }
                return Err(DecodeError::Malformed);
            },
        };
        out.push(v0 * 4 + v1 / 16);
        out.push((v1 % 16) * 16 + v2 / 4);
        out.push((v2 % 4) * 64 + v3);
        proof {
            let group = seq![(v0 * 4 + v1 / 16) as u8, ((v1 % 16) * 16 + v2 / 4) as u8, ((v2 % 4)
                * 64 + v3) as u8];
            assert(dec_final(suffix[0], suffix[1], suffix[2], suffix[3]) == Some(group));
            assert(out@ =~= pre_out + group);
        }
    }
    Ok(out)
}

} // verus!
