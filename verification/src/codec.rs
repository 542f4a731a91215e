//! The Phoenix path encoding: reversible, binary-safe text encoding of a
//! remote path, sent as the `path` query parameter of every Phoenix request.
//!
//! The wire format is standard base64 (RFC 4648 alphabet, `=` padding) of the
//! path's UTF-8 bytes. Encoding is done by the `base64` crate behind one
//! trusted wrapper whose contract states the encoding exactly, byte by byte;
//! decoding is this module's own verified code, and the round trip
//! `decode(encode(p)) == p` is proved for every path.

use vstd::prelude::*;
use vstd::utf8::{encode_utf8, is_ascii_chars, is_ascii_chars_encode_utf8};

verus! {

/// The padding byte `'='`.
pub const PAD_BYTE: u8 = 61;

/// The alphabet byte standing for the six-bit value `v`.
pub open spec fn sextet_byte(v: u8) -> u8
    recommends
        v < 64,
{
    if v < 26 {
        (65 + v) as u8  // 'A'..'Z'
    } else if v < 52 {
        (71 + v) as u8  // 'a'..'z'
    } else if v < 62 {
        (v - 4) as u8  // '0'..'9'
    } else if v == 62 {
        43u8  // '+'
    } else {
        47u8  // '/'
    }
}

/// The six-bit value an alphabet byte stands for, `None` outside the alphabet.
pub open spec fn sextet_val(b: u8) -> Option<u8> {
    if 65 <= b && b <= 90 {
        Some((b - 65) as u8)
    } else if 97 <= b && b <= 122 {
        Some((b - 71) as u8)
    } else if 48 <= b && b <= 57 {
        Some((b + 4) as u8)
    } else if b == 43 {
        Some(62u8)
    } else if b == 47 {
        Some(63u8)
    } else {
        None
    }
}

/// Standard base64 of a byte sequence: each group of three input bytes
/// becomes four alphabet bytes; a final group of one or two input bytes is
/// padded with `=` to a full four.
pub open spec fn b64_encode(s: Seq<u8>) -> Seq<u8>
    decreases s.len(),
{
    if s.len() == 0 {
        Seq::empty()
    } else if s.len() == 1 {
        seq![
            sextet_byte(s[0] >> 2),
            sextet_byte((s[0] & 3) << 4),
            PAD_BYTE,
            PAD_BYTE,
        ]
    } else if s.len() == 2 {
        seq![
            sextet_byte(s[0] >> 2),
            sextet_byte(((s[0] & 3) << 4) | (s[1] >> 4)),
            sextet_byte((s[1] & 15) << 2),
            PAD_BYTE,
        ]
    } else {
        seq![
            sextet_byte(s[0] >> 2),
            sextet_byte(((s[0] & 3) << 4) | (s[1] >> 4)),
            sextet_byte(((s[1] & 15) << 2) | (s[2] >> 6)),
            sextet_byte(s[2] & 63),
        ] + b64_encode(s.skip(3))
    }
}

/// Decodes one four-byte group. Padding is accepted only in the last one or
/// two positions, and only with zeroed spare bits (the canonical forms that
/// [`b64_encode`] produces).
pub open spec fn decode_group(a: u8, b: u8, c: u8, d: u8) -> Option<Seq<u8>> {
    match (sextet_val(a), sextet_val(b)) {
        (Some(v0), Some(v1)) => {
            if c == PAD_BYTE && d == PAD_BYTE {
                if v1 & 15 == 0 {
                    Some(seq![(v0 << 2) | (v1 >> 4)])
                } else {
                    None
                }
            } else if d == PAD_BYTE {
                match sextet_val(c) {
                    Some(v2) => {
                        if v2 & 3 == 0 {
                            Some(seq![(v0 << 2) | (v1 >> 4), ((v1 & 15) << 4) | (v2 >> 2)])
                        } else {
                            None
                        }
                    },
                    None => None,
                }
            } else {
                match (sextet_val(c), sextet_val(d)) {
                    (Some(v2), Some(v3)) => Some(
                        seq![
                            (v0 << 2) | (v1 >> 4),
                            ((v1 & 15) << 4) | (v2 >> 2),
                            ((v2 & 3) << 6) | v3,
                        ],
                    ),
                    _ => None,
                }
            }
        },
        _ => None,
    }
}

/// Decodes a base64 byte sequence: four-byte groups, padding admitted only in
/// the final group. `None` on any length that is not a multiple of four, any
/// byte outside the alphabet, misplaced padding, or non-canonical spare bits.
pub open spec fn b64_decode(s: Seq<u8>) -> Option<Seq<u8>>
    decreases s.len(),
{
    if s.len() == 0 {
        Some(Seq::empty())
    } else if s.len() < 4 {
        None
    } else if s.len() == 4 {
        decode_group(s[0], s[1], s[2], s[3])
    } else if s[2] == PAD_BYTE || s[3] == PAD_BYTE {
        None
    } else {
        match (decode_group(s[0], s[1], s[2], s[3]), b64_decode(s.skip(4))) {
            (Some(g), Some(rest)) => Some(g + rest),
            _ => None,
        }
    }
}

/// The characters of an ASCII byte sequence, one character per byte.
pub open spec fn ascii_chars(b: Seq<u8>) -> Seq<char> {
    Seq::new(b.len(), |i: int| b[i] as char)
}

/// The base64 text that the Phoenix query parameter carries for a path:
/// the encoding of the path's UTF-8 bytes, read back as characters.
pub open spec fn encoded_path(path: Seq<char>) -> Seq<char> {
    ascii_chars(b64_encode(encode_utf8(path)))
}

/// Relies on `base64::encode`: standard alphabet with `=` padding, applied to
/// the path's UTF-8 bytes; the result is ASCII text, one character per
/// encoded byte.
#[verifier::external_body]
pub fn encode_path(path: &str) -> (r: String)
    ensures
        r@ == encoded_path(path@),
{
    base64::encode(path.as_bytes())
}

proof fn lemma_sextet_roundtrip(v: u8)
    requires
        v < 64,
    ensures
        sextet_val(sextet_byte(v)) == Some(v),
        sextet_byte(v) != PAD_BYTE,
{
}

/// Decodes the Phoenix path encoding, the exact inverse of what
/// [`encode_path`] produces.
pub fn decode_path(enc: &str) -> (r: Option<Vec<u8>>)
    ensures
        match r {
            Some(v) => b64_decode(encode_utf8(enc@)) == Some(v@),
            None => b64_decode(encode_utf8(enc@)) is None,
        },
{
    let bytes: &[u8] = enc.as_bytes();
    decode_bytes(bytes)
}

/// Decodes a base64 byte sequence, verified against [`b64_decode`].
pub fn decode_bytes(bytes: &[u8]) -> (r: Option<Vec<u8>>)
    ensures
        match r {
            Some(v) => b64_decode(bytes@) == Some(v@),
            None => b64_decode(bytes@) is None,
        },
{
    let n = bytes.len();
    if n == 0 {
        return Some(Vec::new());
    }
    if n % 4 != 0 {
        proof {
            lemma_non_multiple_of_four(bytes@);
        }
        return None;
    }
    let mut out: Vec<u8> = Vec::new();
    let mut i: usize = 0;
    proof {
        assert(bytes@.skip(0) =~= bytes@);
        if b64_decode(bytes@) is Some {
            assert(out@ + b64_decode(bytes@).unwrap() =~= b64_decode(bytes@).unwrap());
        }
    }
    while i + 4 < n
        invariant
            i % 4 == 0,
            n % 4 == 0,
            n == bytes@.len(),
            i + 4 <= n,
            b64_decode(bytes@) == match b64_decode(bytes@.skip(i as int)) {
                Some(t) => Some(out@ + t),
                None => None::<Seq<u8>>,
            },
        decreases n - i,
    {
        let a = bytes[i];
        let b = bytes[i + 1];
        let c = bytes[i + 2];
        let d = bytes[i + 3];
        proof {
            assert(bytes@.skip(i as int).len() > 4);
            assert(bytes@.skip(i as int)[0] == a);
            assert(bytes@.skip(i as int)[1] == b);
            assert(bytes@.skip(i as int)[2] == c);
            assert(bytes@.skip(i as int)[3] == d);
            assert(bytes@.skip(i as int).skip(4) =~= bytes@.skip(i + 4));
        }
        if c == PAD_BYTE || d == PAD_BYTE {
            return None;
        }
        match decode_group_exec(a, b, c, d) {
            Some((x, y, z)) => {
                proof {
                    let g = decode_group(a, b, c, d).unwrap();
                    assert(g =~= seq![x, y, z]);
                    if b64_decode(bytes@.skip(i + 4)) is Some {
                        let t = b64_decode(bytes@.skip(i + 4)).unwrap();
                        assert(out@ + (g + t) =~= (out@ + g) + t);
                    }
                }
                out.push(x);
                out.push(y);
                out.push(z);
                i = i + 4;
            },
            None => {
                return None;
            },
        }
    }
    // the final group, where padding is admitted
    let a = bytes[i];
    let b = bytes[i + 1];
    let c = bytes[i + 2];
    let d = bytes[i + 3];
    proof {
        assert(bytes@.skip(i as int).len() == 4);
        assert(bytes@.skip(i as int)[0] == a);
        assert(bytes@.skip(i as int)[1] == b);
        assert(bytes@.skip(i as int)[2] == c);
        assert(bytes@.skip(i as int)[3] == d);
    }
    match decode_last_group_exec(a, b, c, d) {
        Some(tail) => {
            proof {
                let g = decode_group(a, b, c, d).unwrap();
                assert(out@ + g =~= out@ + tail@);
            }
            let mut j: usize = 0;
            let ghost prefix = out@;
            while j < tail.len()
                invariant
                    j <= tail@.len(),
                    out@ == prefix + tail@.take(j as int),
                decreases tail@.len() - j,
            {
                let x = tail[j];
                out.push(x);
                j = j + 1;
                proof {
                    assert(prefix + tail@.take(j as int) =~= (prefix + tail@.take(
                        j - 1,
                    )).push(tail@[j - 1]));
                }
            }
            proof {
                assert(tail@.take(tail@.len() as int) =~= tail@);
            }
            Some(out)
        },
        None => None,
    }
}

/// Decodes one non-final group (no padding allowed).
fn decode_group_exec(a: u8, b: u8, c: u8, d: u8) -> (r: Option<(u8, u8, u8)>)
    requires
        c != PAD_BYTE,
        d != PAD_BYTE,
    ensures
        match r {
            Some((x, y, z)) => decode_group(a, b, c, d) == Some(seq![x, y, z]),
            None => decode_group(a, b, c, d) is None,
        },
{
    match (sextet_val_exec(a), sextet_val_exec(b), sextet_val_exec(c), sextet_val_exec(d)) {
        (Some(v0), Some(v1), Some(v2), Some(v3)) => Some(
            ((v0 << 2) | (v1 >> 4), ((v1 & 15) << 4) | (v2 >> 2), ((v2 & 3) << 6) | v3),
        ),
        _ => None,
    }
}

/// Decodes the final group, honouring `=` padding.
fn decode_last_group_exec(a: u8, b: u8, c: u8, d: u8) -> (r: Option<Vec<u8>>)
    ensures
        match r {
            Some(v) => decode_group(a, b, c, d) == Some(v@),
            None => decode_group(a, b, c, d) is None,
        },
{
    let v0 = match sextet_val_exec(a) {
        Some(v) => v,
        None => {
            return None;
        },
    };
    let v1 = match sextet_val_exec(b) {
        Some(v) => v,
        None => {
            return None;
        },
    };
    if c == PAD_BYTE && d == PAD_BYTE {
        if v1 & 15 == 0 {
            let mut v: Vec<u8> = Vec::new();
            v.push((v0 << 2) | (v1 >> 4));
            proof {
                assert(v@ =~= seq![(v0 << 2) | (v1 >> 4)]);
            }
            Some(v)
        } else {
            None
        }
    } else if d == PAD_BYTE {
        match sextet_val_exec(c) {
            Some(v2) => {
                if v2 & 3 == 0 {
                    let mut v: Vec<u8> = Vec::new();
                    v.push((v0 << 2) | (v1 >> 4));
                    v.push(((v1 & 15) << 4) | (v2 >> 2));
                    proof {
                        assert(v@ =~= seq![(v0 << 2) | (v1 >> 4), ((v1 & 15) << 4) | (v2 >> 2)]);
                    }
                    Some(v)
                } else {
                    None
                }
            },
            None => None,
        }
    } else {
        match (sextet_val_exec(c), sextet_val_exec(d)) {
            (Some(v2), Some(v3)) => {
                let mut v: Vec<u8> = Vec::new();
                v.push((v0 << 2) | (v1 >> 4));
                v.push(((v1 & 15) << 4) | (v2 >> 2));
                v.push(((v2 & 3) << 6) | v3);
                proof {
                    assert(v@ =~= seq![
                        (v0 << 2) | (v1 >> 4),
                        ((v1 & 15) << 4) | (v2 >> 2),
                        ((v2 & 3) << 6) | v3,
                    ]);
                }
                Some(v)
            },
            _ => None,
        }
    }
}

/// The six-bit value of an alphabet byte, executable twin of [`sextet_val`].
fn sextet_val_exec(b: u8) -> (r: Option<u8>)
    ensures
        r == sextet_val(b),
{
    if 65 <= b && b <= 90 {
        Some(b - 65)
    } else if 97 <= b && b <= 122 {
        Some(b - 71)
    } else if 48 <= b && b <= 57 {
        Some(b + 4)
    } else if b == 43 {
        Some(62)
    } else if b == 47 {
        Some(63)
    } else {
        None
    }
}

proof fn lemma_non_multiple_of_four(s: Seq<u8>)
    requires
        s.len() % 4 != 0,
    ensures
        b64_decode(s) is None,
    decreases s.len(),
{
    if s.len() > 4 {
        lemma_non_multiple_of_four(s.skip(4));
    }
}

proof fn lemma_encode_len(s: Seq<u8>)
    ensures
        b64_encode(s).len() == ((s.len() + 2) / 3) * 4,
    decreases s.len(),
{
    if s.len() >= 3 {
        lemma_encode_len(s.skip(3));
    }
}

/// Base64 round trip at the byte level: decoding what [`b64_encode`] produced
/// gives back the input, for every byte sequence.
pub proof fn lemma_b64_roundtrip(s: Seq<u8>)
    ensures
        b64_decode(b64_encode(s)) == Some(s),
    decreases s.len(),
{
    if s.len() == 0 {
        assert(b64_decode(b64_encode(s)) =~= Some(s));
    } else if s.len() == 1 {
        let b0 = s[0];
        assert(((b0 & 3) << 4) < 64 && (b0 >> 2) < 64 && (((b0 & 3) << 4) & 15) == 0
            && ((b0 >> 2) << 2) | (((b0 & 3) << 4) >> 4) == b0) by (bit_vector);
        lemma_sextet_roundtrip(b0 >> 2);
        lemma_sextet_roundtrip((b0 & 3) << 4);
        assert(b64_decode(b64_encode(s)).unwrap() =~= s);
    } else if s.len() == 2 {
        let b0 = s[0];
        let b1 = s[1];
        let v0 = b0 >> 2;
        let v1 = ((b0 & 3) << 4) | (b1 >> 4);
        let v2 = (b1 & 15) << 2;
        assert((b0 >> 2) < 64 && (((b0 & 3) << 4) | (b1 >> 4)) < 64 && ((b1 & 15) << 2) < 64
            && (((b1 & 15) << 2) & 3) == 0 && ((b0 >> 2) << 2) | ((((b0 & 3) << 4) | (b1 >> 4))
            >> 4) == b0 && (((((b0 & 3) << 4) | (b1 >> 4)) & 15) << 4) | (((b1 & 15) << 2) >> 2)
            == b1) by (bit_vector);
        lemma_sextet_roundtrip(v0);
        lemma_sextet_roundtrip(v1);
        lemma_sextet_roundtrip(v2);
        assert(b64_decode(b64_encode(s)).unwrap() =~= s);
    } else {
        let b0 = s[0];
        let b1 = s[1];
        let b2 = s[2];
        let v0 = b0 >> 2;
        let v1 = ((b0 & 3) << 4) | (b1 >> 4);
        let v2 = ((b1 & 15) << 2) | (b2 >> 6);
        let v3 = b2 & 63;
        assert((b0 >> 2) < 64 && (((b0 & 3) << 4) | (b1 >> 4)) < 64 && ((((b1 & 15) << 2) | (b2
            >> 6))) < 64 && (b2 & 63) < 64 && ((b0 >> 2) << 2) | ((((b0 & 3) << 4) | (b1 >> 4))
            >> 4) == b0 && (((((b0 & 3) << 4) | (b1 >> 4)) & 15) << 4) | ((((b1 & 15) << 2) | (b2
            >> 6)) >> 2) == b1 && (((((b1 & 15) << 2) | (b2 >> 6)) & 3) << 6) | (b2 & 63) == b2)
            by (bit_vector);
        lemma_sextet_roundtrip(v0);
        lemma_sextet_roundtrip(v1);
        lemma_sextet_roundtrip(v2);
        lemma_sextet_roundtrip(v3);
        let g = seq![sextet_byte(v0), sextet_byte(v1), sextet_byte(v2), sextet_byte(v3)];
        let e = b64_encode(s);
        assert(e =~= g + b64_encode(s.skip(3)));
        if s.len() == 3 {
            lemma_encode_len(s.skip(3));
            assert(e.len() == 4);
            assert(decode_group(e[0], e[1], e[2], e[3]).unwrap() =~= s);
        } else {
            lemma_b64_roundtrip(s.skip(3));
            lemma_encode_len(s.skip(3));
            assert(e.len() > 4);
            assert(e.skip(4) =~= b64_encode(s.skip(3)));
            assert(decode_group(e[0], e[1], e[2], e[3]).unwrap() =~= seq![b0, b1, b2]);
            assert(seq![b0, b1, b2] + s.skip(3) =~= s);
        }
    }
}

proof fn lemma_encode_bytes_ascii(s: Seq<u8>)
    ensures
        forall|i: int| 0 <= i < b64_encode(s).len() ==> #[trigger] b64_encode(s)[i] < 128,
    decreases s.len(),
{
    if s.len() == 0 {
    } else if s.len() <= 2 {
        assert forall|i: int| 0 <= i < b64_encode(s).len() implies #[trigger] b64_encode(s)[i]
            < 128 by {
            assert(b64_encode(s).len() == 4);
        }
    } else {
        lemma_encode_bytes_ascii(s.skip(3));
        let g = seq![
            sextet_byte(s[0] >> 2),
            sextet_byte(((s[0] & 3) << 4) | (s[1] >> 4)),
            sextet_byte(((s[1] & 15) << 2) | (s[2] >> 6)),
            sextet_byte(s[2] & 63),
        ];
        assert(b64_encode(s) == g + b64_encode(s.skip(3)));
        assert forall|i: int| 0 <= i < b64_encode(s).len() implies #[trigger] b64_encode(s)[i]
            < 128 by {
            if i >= 4 {
                assert(b64_encode(s)[i] == b64_encode(s.skip(3))[i - 4]);
            }
        }
    }
}

proof fn lemma_ascii_chars_utf8(b: Seq<u8>)
    requires
        forall|i: int| 0 <= i < b.len() ==> #[trigger] b[i] < 128,
    ensures
        encode_utf8(ascii_chars(b)) == b,
{
    let chars = ascii_chars(b);
    assert(is_ascii_chars(chars)) by {
        assert forall|i: int| 0 <= i < chars.len() implies '\0' <= #[trigger] chars[i]
            <= '\u{7f}' by {
            assert(b[i] < 128);
        }
    }
    is_ascii_chars_encode_utf8(chars);
    assert(encode_utf8(chars) =~= b);
}

/// Path-encoding round trip: for every path, decoding the base64 text that
/// [`encode_path`] produces yields exactly that path's UTF-8 bytes.
pub proof fn lemma_path_encoding_roundtrip(path: Seq<char>)
    ensures
        b64_decode(encode_utf8(encoded_path(path))) == Some(encode_utf8(path)),
{
    let b = encode_utf8(path);
    lemma_encode_bytes_ascii(b);
    lemma_ascii_chars_utf8(b64_encode(b));
    lemma_b64_roundtrip(b);
}

} // verus!
