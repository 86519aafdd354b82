//! The textual wire encoding of stored payloads.
//!
//! The store keeps each binary value as printable text; this codec is the
//! reversible encoding used for that: two lowercase hex digits per byte.
//! Decoding the encoding of any byte sequence reproduces it exactly.
use crate::secrets::{GeneratedMaterial, MaterialView};
use vstd::prelude::*;

verus! {

/// Whether `c` is an ASCII digit or a lowercase hex letter.
pub open spec fn is_hex_digit(c: u8) -> bool {
    (48 <= c && c <= 57) || (97 <= c && c <= 102)
}

/// The ASCII code of the hex digit for a nibble.
pub open spec fn hex_digit_of(n: u8) -> u8
    recommends
        n < 16,
{
    if n < 10 {
        (n + 48) as u8
    } else {
        (n + 87) as u8
    }
}

/// The nibble a hex digit stands for.
pub open spec fn hex_val_of(c: u8) -> u8
    recommends
        is_hex_digit(c),
{
    if c <= 57 {
        (c - 48) as u8
    } else {
        (c - 87) as u8
    }
}

/// The hex encoding of a byte sequence: byte `i` becomes the digits of its
/// high nibble and low nibble, in that order.
pub open spec fn hex_encoded(bytes: Seq<u8>) -> Seq<u8> {
    Seq::new(
        bytes.len() * 2,
        |i: int|
            if i % 2 == 0 {
                hex_digit_of(bytes[i / 2] / 16)
            } else {
                hex_digit_of(bytes[i / 2] % 16)
            },
    )
}

/// The byte sequence a hex text stands for: each digit pair becomes one byte.
pub open spec fn hex_decoded(s: Seq<u8>) -> Seq<u8>
    recommends
        s.len() % 2 == 0,
{
    Seq::new(s.len() / 2, |i: int| (hex_val_of(s[2 * i]) * 16 + hex_val_of(s[2 * i + 1])) as u8)
}

/// Reading back the digit of a nibble gives the nibble.
proof fn lemma_digit_round_trip(n: u8)
    requires
        n < 16,
    ensures
        is_hex_digit(hex_digit_of(n)),
        hex_val_of(hex_digit_of(n)) == n,
{
}

/// Law: the textual encoding is reversible. Decoding the hex encoding of any
/// byte sequence reproduces the exact original bytes, and the encoding is
/// always well-formed hex text of twice the length.
pub proof fn lemma_hex_round_trip(bytes: Seq<u8>)
    ensures
        hex_encoded(bytes).len() == bytes.len() * 2,
        forall|i: int|
            0 <= i < hex_encoded(bytes).len() ==> is_hex_digit(#[trigger] hex_encoded(bytes)[i]),
        hex_decoded(hex_encoded(bytes)) =~= bytes,
{
    let enc = hex_encoded(bytes);
    assert forall|i: int| 0 <= i < enc.len() implies is_hex_digit(#[trigger] enc[i]) by {
        lemma_digit_round_trip(bytes[i / 2] / 16);
        lemma_digit_round_trip(bytes[i / 2] % 16);
    }
    assert forall|i: int| 0 <= i < bytes.len() implies hex_decoded(enc)[i] == bytes[i] by {
        lemma_digit_round_trip(bytes[i] / 16);
        lemma_digit_round_trip(bytes[i] % 16);
        assert(enc[2 * i] == hex_digit_of(bytes[i] / 16));
        assert(enc[2 * i + 1] == hex_digit_of(bytes[i] % 16));
        assert((bytes[i] / 16) * 16 + bytes[i] % 16 == bytes[i]) by (nonlinear_arith);
    }
}

/// Encodes one binary value as hex text.
pub fn hex_encode(bytes: &Vec<u8>) -> (r: Vec<u8>)
    ensures
        r@ == hex_encoded(bytes@),
{
    let mut r: Vec<u8> = Vec::new();
    let mut i: usize = 0;
    while i < bytes.len()
        invariant
            i <= bytes@.len(),
            r@.len() == 2 * i,
            forall|j: int| 0 <= j < r@.len() ==> r@[j] == hex_encoded(bytes@)[j],
        decreases bytes@.len() - i,
    {
        let b = bytes[i];
        let hi: u8 = b / 16;
        let lo: u8 = b % 16;
        r.push(if hi < 10 { hi + 48 } else { hi + 87 });
        r.push(if lo < 10 { lo + 48 } else { lo + 87 });
        i = i + 1;
    }
    assert(r@ =~= hex_encoded(bytes@));
    r
}

/// Decodes hex text back to the binary value it stands for. Returns `None`
/// exactly when the text is not well-formed hex: odd length, or a character
/// outside the lowercase hex alphabet.
pub fn hex_decode(s: &Vec<u8>) -> (r: Option<Vec<u8>>)
    ensures
        r is Some <==> (s@.len() % 2 == 0 && forall|i: int|
            0 <= i < s@.len() ==> is_hex_digit(#[trigger] s@[i])),
        r is Some ==> r->0@ == hex_decoded(s@),
{
    if s.len() % 2 != 0 {
        return None;
    }
    let mut r: Vec<u8> = Vec::new();
    let mut i: usize = 0;
    while i < s.len()
        invariant
            s@.len() % 2 == 0,
            i % 2 == 0,
            i <= s@.len(),
            r@.len() == i / 2,
            forall|j: int| 0 <= j < i ==> is_hex_digit(#[trigger] s@[j]),
            forall|j: int| 0 <= j < r@.len() ==> r@[j] == hex_decoded(s@)[j],
        decreases s@.len() - i,
    {
        let hi = s[i];
        let lo = s[i + 1];
        let hv: u8 = if 48 <= hi && hi <= 57 {
            hi - 48
        } else if 97 <= hi && hi <= 102 {
            hi - 87
        } else {
            return None;
        };
        let lv: u8 = if 48 <= lo && lo <= 57 {
            lo - 48
        } else if 97 <= lo && lo <= 102 {
            lo - 87
        } else {
            return None;
        };
        r.push(hv * 16 + lv);
        i = i + 2;
    }
    assert(r@ =~= hex_decoded(s@));
    Some(r)
}

/// The persisted shape of material: every field key kept, every binary value
/// replaced by its hex text.
pub open spec fn material_encoded(m: MaterialView) -> MaterialView {
    Seq::new(m.len(), |i: int| (m[i].0, hex_encoded(m[i].1)))
}

/// The material a persisted shape stands for: every value decoded from hex.
pub open spec fn material_decoded(m: MaterialView) -> MaterialView
    recommends
        forall|i: int| 0 <= i < m.len() ==> (#[trigger] m[i]).1.len() % 2 == 0,
{
    Seq::new(m.len(), |i: int| (m[i].0, hex_decoded(m[i].1)))
}

/// Law: the persisted textual encoding of generated material round-trips.
/// Decoding the encoding of any material reproduces the exact original
/// key-to-bytes mapping.
pub proof fn lemma_material_round_trip(m: MaterialView)
    ensures
        material_decoded(material_encoded(m)) =~= m,
{
    assert forall|i: int|
        0 <= i < m.len() implies material_decoded(material_encoded(m))[i] == m[i] by {
        lemma_hex_round_trip(m[i].1);
        assert(hex_decoded(hex_encoded(m[i].1)) =~= m[i].1);
    }
}

/// Encodes material into its persisted shape.
pub fn encode_material(m: &GeneratedMaterial) -> (r: GeneratedMaterial)
    ensures
        r@ == material_encoded(m@),
{
    let mut entries: Vec<(String, Vec<u8>)> = Vec::new();
    let mut i: usize = 0;
    while i < m.entries.len()
        invariant
            i <= m.entries@.len(),
            entries@.len() == i,
            forall|j: int|
                0 <= j < i ==> (#[trigger] entries@[j]).0@ == m@[j].0 && entries@[j].1@
                    == hex_encoded(m@[j].1),
        decreases m.entries@.len() - i,
    {
        let key = m.entries[i].0.clone();
        let encoded = hex_encode(&m.entries[i].1);
        entries.push((key, encoded));
        i = i + 1;
    }
    let r = GeneratedMaterial { entries };
    assert(r@ =~= material_encoded(m@));
    r
}

/// Decodes a persisted shape back into material. Returns `None` exactly when
/// some value is not well-formed hex text.
pub fn decode_material(m: &GeneratedMaterial) -> (r: Option<GeneratedMaterial>)
    ensures
        r is Some <==> (forall|i: int|
            0 <= i < m@.len() ==> (#[trigger] m@[i]).1.len() % 2 == 0 && forall|j: int|
                0 <= j < m@[i].1.len() ==> is_hex_digit(#[trigger] m@[i].1[j])),
        r is Some ==> r->0@ == material_decoded(m@),
{
    let mut entries: Vec<(String, Vec<u8>)> = Vec::new();
    let mut i: usize = 0;
    while i < m.entries.len()
        invariant
            i <= m.entries@.len(),
            entries@.len() == i,
            forall|j: int|
                0 <= j < i ==> (#[trigger] m@[j]).1.len() % 2 == 0 && forall|k: int|
                    0 <= k < m@[j].1.len() ==> is_hex_digit(#[trigger] m@[j].1[k]),
            forall|j: int|
                0 <= j < i ==> (#[trigger] entries@[j]).0@ == m@[j].0 && entries@[j].1@
                    == hex_decoded(m@[j].1),
        decreases m.entries@.len() - i,
    {
        let key = m.entries[i].0.clone();
        match hex_decode(&m.entries[i].1) {
            Some(decoded) => {
                entries.push((key, decoded));
            },
            None => {
                proof {
                    assert(m@[i as int].1 == m.entries@[i as int].1@);
                    assert(!(m@[i as int].1.len() % 2 == 0 && forall|j: int|
                        0 <= j < m@[i as int].1.len() ==> is_hex_digit(
                            #[trigger] m@[i as int].1[j],
                        )));
                }
                return None;
            },
        }
        i = i + 1;
    }
    let r = GeneratedMaterial { entries };
    assert(r@ =~= material_decoded(m@));
    Some(r)
}

} // verus!
