//! Byte-level codecs.
//!
//! Two formats live here: lowercase hex (used for store keys and for the
//! key-material blobs inside the persisted entry) and the persisted keygen
//! entry itself, a JSON object
//! `{"ciphersuite":"<ID>","entry":{"keypkg":"<hex>","pubkeypkg":"<hex>"}}`
//! stored under the hex of the group verifying key.
use vstd::prelude::*;

use crate::suite::Suite;
use crate::suite::spec_suite_id;

verus! {

broadcast use vstd::string::group_string_axioms;

/// The bytes of an ASCII character sequence, one byte per character.
pub open spec fn ascii_bytes(s: Seq<char>) -> Seq<u8> {
    Seq::new(s.len(), |i: int| s[i] as u8)
}

/// The lowercase hex digit for a nibble.
pub open spec fn hex_digit_of(n: u8) -> u8 {
    if n < 10 {
        (0x30 + n) as u8
    } else {
        (0x57 + n) as u8
    }
}

/// Lowercase hex encoding: two digits per byte, high nibble first.
pub open spec fn hex_of(bytes: Seq<u8>) -> Seq<u8> {
    Seq::new(
        bytes.len() * 2,
        |i: int|
            if i % 2 == 0 {
                hex_digit_of(bytes[i / 2] >> 4)
            } else {
                hex_digit_of(bytes[i / 2] & 0xf)
            },
    )
}

/// Whether a byte is a lowercase hex digit.
pub open spec fn is_hex_digit(b: u8) -> bool {
    (0x30 <= b && b <= 0x39) || (0x61 <= b && b <= 0x66)
}

/// The value of a lowercase hex digit.
pub open spec fn hex_val(b: u8) -> u8 {
    if 0x30 <= b && b <= 0x39 {
        (b - 0x30) as u8
    } else if 0x61 <= b && b <= 0x66 {
        (b - 0x57) as u8
    } else {
        0
    }
}

/// The bytes denoted by a sequence of hex digits (two digits per byte).
pub open spec fn unhex(s: Seq<u8>) -> Seq<u8> {
    Seq::new(s.len() / 2, |i: int| (hex_val(s[2 * i]) * 16 + hex_val(s[2 * i + 1])) as u8)
}

/// A hex digit produced by the encoder is a lowercase hex digit and decodes
/// back to the nibble it encodes.
pub proof fn lemma_hex_digit_round_trip(n: u8)
    requires
        n < 16,
    ensures
        is_hex_digit(hex_digit_of(n)),
        hex_val(hex_digit_of(n)) == n,
{
}

/// A lowercase hex digit is produced by the encoder from its own value.
pub proof fn lemma_hex_digit_complete(b: u8)
    requires
        is_hex_digit(b),
    ensures
        hex_val(b) < 16,
        hex_digit_of(hex_val(b)) == b,
{
}

/// Decoding a hex encoding gives back the original bytes.
pub proof fn lemma_unhex_of_hex(bytes: Seq<u8>)
    ensures
        unhex(hex_of(bytes)) =~= bytes,
{
    assert forall|i: int| 0 <= i < bytes.len() implies unhex(hex_of(bytes))[i] == bytes[i] by {
        let b = bytes[i];
        assert((b >> 4) < 16 && (b & 0xf) < 16 && ((b >> 4) * 16 + (b & 0xf)) == b)
            by (bit_vector);
        lemma_hex_digit_round_trip(b >> 4);
        lemma_hex_digit_round_trip(b & 0xf);
        assert(hex_of(bytes)[2 * i] == hex_digit_of(b >> 4));
        assert(hex_of(bytes)[2 * i + 1] == hex_digit_of(b & 0xf));
    }
}

/// Encoding a hex decoding gives back the original digits, for well-formed
/// hex digit sequences.
pub proof fn lemma_hex_of_unhex(s: Seq<u8>)
    requires
        s.len() % 2 == 0,
        forall|i: int| 0 <= i < s.len() ==> is_hex_digit(#[trigger] s[i]),
    ensures
        hex_of(unhex(s)) =~= s,
{
    assert forall|i: int| 0 <= i < s.len() implies hex_of(unhex(s))[i] == s[i] by {
        let j = i / 2;
        let hi = hex_val(s[2 * j]);
        let lo = hex_val(s[2 * j + 1]);
        lemma_hex_digit_complete(s[2 * j]);
        lemma_hex_digit_complete(s[2 * j + 1]);
        let b = unhex(s)[j];
        assert(b == (hi * 16 + lo) as u8);
        assert(hi < 16 && lo < 16 ==> (((hi * 16 + lo) as u8) >> 4) == hi && (((hi * 16 + lo)
            as u8) & 0xf) == lo) by (bit_vector);
        if i % 2 == 0 {
            assert(2 * j == i);
        } else {
            assert(2 * j + 1 == i);
        }
    }
}

/// The encoder of a single nibble.
fn hex_digit_byte(n: u8) -> (r: u8)
    requires
        n < 16,
    ensures
        r == hex_digit_of(n),
{
    if n < 10 {
        0x30 + n
    } else {
        0x57 + n
    }
}

/// Lowercase hex encoding of a byte string.
pub fn hex_encode(bytes: &Vec<u8>) -> (r: Vec<u8>)
    ensures
        r@ == hex_of(bytes@),
{
    let mut out: Vec<u8> = Vec::new();
    let mut i: usize = 0;
    while i < bytes.len()
        invariant
            i <= bytes@.len(),
            out@.len() == 2 * i,
            forall|j: int| 0 <= j < out@.len() ==> out@[j] == hex_of(bytes@)[j],
        decreases bytes@.len() - i,
    {
        let b = bytes[i];
        let hi = b >> 4;
        let lo = b & 0xf;
        proof {
            assert((b >> 4) < 16 && (b & 0xf) < 16) by (bit_vector);
        }
        out.push(hex_digit_byte(hi));
        out.push(hex_digit_byte(lo));
        i = i + 1;
    }
    proof {
        assert(out@ =~= hex_of(bytes@));
    }
    out
}

/// Decode a lowercase hex string.  Returns `None` exactly when the input has
/// odd length or holds a byte that is no lowercase hex digit.
pub fn hex_decode(s: &Vec<u8>) -> (r: Option<Vec<u8>>)
    ensures
        match r {
            Some(bs) => s@.len() % 2 == 0 && (forall|i: int|
                0 <= i < s@.len() ==> is_hex_digit(#[trigger] s@[i])) && bs@ == unhex(s@),
            None => !(s@.len() % 2 == 0 && (forall|i: int|
                0 <= i < s@.len() ==> is_hex_digit(#[trigger] s@[i]))),
        },
{
    if s.len() % 2 != 0 {
        return None;
    }
    let mut out: Vec<u8> = Vec::new();
    let mut i: usize = 0;
    while i < s.len()
        invariant
            s@.len() % 2 == 0,
            i % 2 == 0,
            i <= s@.len(),
            out@.len() == i / 2,
            forall|j: int| 0 <= j < i ==> is_hex_digit(#[trigger] s@[j]),
            forall|j: int| 0 <= j < out@.len() ==> out@[j] == unhex(s@)[j],
        decreases s@.len() - i,
    {
        let a = s[i];
        let b = s[i + 1];
        let da = if 0x30 <= a && a <= 0x39 {
            a - 0x30
        } else if 0x61 <= a && a <= 0x66 {
            a - 0x57
        } else {
            return None;
        };
        let db = if 0x30 <= b && b <= 0x39 {
            b - 0x30
        } else if 0x61 <= b && b <= 0x66 {
            b - 0x57
        } else {
            return None;
        };
        out.push(da * 16 + db);
        i = i + 2;
    }
    proof {
        assert(out@ =~= unhex(s@));
    }
    Some(out)
}

/// A copy of a byte string.
pub fn clone_bytes(v: &Vec<u8>) -> (r: Vec<u8>)
    ensures
        r@ == v@,
{
    let r = v.clone();
    proof {
        assert(r@ =~= v@);
    }
    r
}

/// Compare two byte strings.
pub fn bytes_eq(a: &Vec<u8>, b: &Vec<u8>) -> (r: bool)
    ensures
        r == (a@ == b@),
{
    if a.len() != b.len() {
        proof {
            assert(a@ != b@);
        }
        return false;
    }
    let mut i: usize = 0;
    while i < a.len()
        invariant
            a@.len() == b@.len(),
            i <= a@.len(),
            forall|j: int| 0 <= j < i ==> a@[j] == b@[j],
        decreases a@.len() - i,
    {
        if a[i] != b[i] {
            proof {
                assert(a@ != b@);
            }
            return false;
        }
        i = i + 1;
    }
    proof {
        assert(a@ =~= b@);
    }
    true
}

/// Append one byte string to another.
pub fn push_all(dst: &mut Vec<u8>, src: &Vec<u8>)
    ensures
        final(dst)@ == old(dst)@ + src@,
{
    let mut i: usize = 0;
    while i < src.len()
        invariant
            i <= src@.len(),
            dst@ == old(dst)@ + src@.take(i as int),
        decreases src@.len() - i,
    {
        dst.push(src[i]);
        proof {
            assert(old(dst)@ + src@.take(i as int) + seq![src@[i as int]] =~= old(dst)@
                + src@.take(i + 1));
        }
        i = i + 1;
    }
    proof {
        assert(old(dst)@ + src@.take(src@.len() as int) =~= old(dst)@ + src@);
    }
}

/// Append the bytes of an ASCII literal.
fn push_lit(dst: &mut Vec<u8>, lit: &str)
    requires
        lit.is_ascii(),
    ensures
        final(dst)@ == old(dst)@ + ascii_bytes(lit@),
{
    let bs = lit.as_bytes();
    let mut i: usize = 0;
    while i < bs.len()
        invariant
            bs@ == ascii_bytes(lit@),
            i <= bs@.len(),
            dst@ == old(dst)@ + bs@.take(i as int),
        decreases bs@.len() - i,
    {
        dst.push(bs[i]);
        proof {
            assert(old(dst)@ + bs@.take(i as int) + seq![bs@[i as int]] =~= old(dst)@ + bs@.take(
                i + 1,
            ));
        }
        i = i + 1;
    }
    proof {
        assert(old(dst)@ + bs@.take(bs@.len() as int) =~= old(dst)@ + bs@);
    }
}

/// Whether the bytes of an ASCII literal stand in `frame` at `pos`.
fn match_lit(frame: &Vec<u8>, pos: usize, lit: &str) -> (r: bool)
    requires
        lit.is_ascii(),
    ensures
        r == (pos + lit@.len() <= frame@.len() && (forall|j: int|
            0 <= j < lit@.len() ==> frame@[pos + j] == ascii_bytes(lit@)[j])),
{
    let bs = lit.as_bytes();
    let flen = frame.len();
    if pos > flen || bs.len() > flen - pos {
        return false;
    }
    let mut i: usize = 0;
    while i < bs.len()
        invariant
            bs@ == ascii_bytes(lit@),
            flen == frame@.len(),
            pos + bs@.len() <= flen,
            i <= bs@.len(),
            forall|j: int| 0 <= j < i ==> frame@[pos + j] == bs@[j],
        decreases bs@.len() - i,
    {
        if frame[pos + i] != bs[i] {
            return false;
        }
        i = i + 1;
    }
    true
}

/// The first position at or after `from` holding `target`, if any.
fn find_byte(frame: &Vec<u8>, from: usize, target: u8) -> (r: Option<usize>)
    requires
        from <= frame@.len(),
    ensures
        match r {
            Some(j) => from <= j < frame@.len() && frame@[j as int] == target && (forall|t: int|
                from <= t < j ==> frame@[t] != target),
            None => forall|t: int| from <= t < frame@.len() ==> frame@[t] != target,
        },
{
    let mut i: usize = from;
    while i < frame.len()
        invariant
            from <= i <= frame@.len(),
            forall|t: int| from <= t < i ==> frame@[t] != target,
        decreases frame@.len() - i,
    {
        if frame[i] == target {
            return Some(i);
        }
        i = i + 1;
    }
    None
}

/// A copy of `v[from..to]`.
fn copy_range(v: &Vec<u8>, from: usize, to: usize) -> (r: Vec<u8>)
    requires
        from <= to <= v@.len(),
    ensures
        r@ == v@.subrange(from as int, to as int),
{
    let mut out: Vec<u8> = Vec::new();
    let mut i: usize = from;
    while i < to
        invariant
            from <= i <= to <= v@.len(),
            out@ == v@.subrange(from as int, i as int),
        decreases to - i,
    {
        out.push(v[i]);
        proof {
            assert(v@.subrange(from as int, i as int) + seq![v@[i as int]] =~= v@.subrange(
                from as int,
                i + 1,
            ));
        }
        i = i + 1;
    }
    out
}

/// The opening of the persisted entry, holding the suite identifier:
/// `{"ciphersuite":"<ID>","entry":{"keypkg":"`.
pub open spec fn spec_frame_prefix(s: Suite) -> Seq<char> {
    match s {
        Suite::Ed25519Sha512 => "{\"ciphersuite\":\"FROST-ED25519-SHA512-v1\",\"entry\":{\"keypkg\":\""@,
        Suite::Secp256K1Sha256 => "{\"ciphersuite\":\"FROST-secp256k1-SHA256-v1\",\"entry\":{\"keypkg\":\""@,
    }
}

/// The frame prefix spells the suite's identifier between the opening
/// `{"ciphersuite":"` and the following `","entry":{"keypkg":"`.
pub proof fn lemma_frame_prefix_embeds_id(s: Suite)
    ensures
        spec_frame_prefix(s).len() == 16 + spec_suite_id(s).len() + 21,
        spec_frame_prefix(s).subrange(16, spec_frame_prefix(s).len() - 21) =~= spec_suite_id(s),
{
    reveal_strlit("{\"ciphersuite\":\"FROST-ED25519-SHA512-v1\",\"entry\":{\"keypkg\":\"");
    reveal_strlit("{\"ciphersuite\":\"FROST-secp256k1-SHA256-v1\",\"entry\":{\"keypkg\":\"");
    reveal_strlit("FROST-ED25519-SHA512-v1");
    reveal_strlit("FROST-secp256k1-SHA256-v1");
}

/// The persisted keygen entry: a JSON object holding the ciphersuite
/// identifier and the ciphersuite-defined serializations of the key package
/// and the public key package, each as lowercase hex.
pub open spec fn spec_entry_frame(s: Suite, keypkg: Seq<u8>, pubkeypkg: Seq<u8>) -> Seq<u8> {
    ascii_bytes(spec_frame_prefix(s)) + hex_of(keypkg) + ascii_bytes("\",\"pubkeypkg\":\""@)
        + hex_of(pubkeypkg) + ascii_bytes("\"}}"@)
}

/// The bytes of a suite's textual identifier.
pub fn suite_id_bytes(s: Suite) -> (r: Vec<u8>)
    ensures
        r@ == ascii_bytes(spec_suite_id(s)),
{
    proof {
        reveal_strlit("FROST-ED25519-SHA512-v1");
        reveal_strlit("FROST-secp256k1-SHA256-v1");
    }
    let mut out: Vec<u8> = Vec::new();
    match s {
        Suite::Ed25519Sha512 => push_lit(&mut out, "FROST-ED25519-SHA512-v1"),
        Suite::Secp256K1Sha256 => push_lit(&mut out, "FROST-secp256k1-SHA256-v1"),
    }
    proof {
        assert(out@ =~= ascii_bytes(spec_suite_id(s)));
    }
    out
}

/// Encode a keygen entry for persistence.
pub fn encode_entry(s: Suite, keypkg: &Vec<u8>, pubkeypkg: &Vec<u8>) -> (r: Vec<u8>)
    ensures
        r@ == spec_entry_frame(s, keypkg@, pubkeypkg@),
{
    proof {
        reveal_strlit("{\"ciphersuite\":\"FROST-ED25519-SHA512-v1\",\"entry\":{\"keypkg\":\"");
        reveal_strlit("{\"ciphersuite\":\"FROST-secp256k1-SHA256-v1\",\"entry\":{\"keypkg\":\"");
        reveal_strlit("\",\"pubkeypkg\":\"");
        reveal_strlit("\"}}");
    }
    let mut out: Vec<u8> = Vec::new();
    match s {
        Suite::Ed25519Sha512 => push_lit(
            &mut out,
            "{\"ciphersuite\":\"FROST-ED25519-SHA512-v1\",\"entry\":{\"keypkg\":\"",
        ),
        Suite::Secp256K1Sha256 => push_lit(
            &mut out,
            "{\"ciphersuite\":\"FROST-secp256k1-SHA256-v1\",\"entry\":{\"keypkg\":\"",
        ),
    }
    let khex = hex_encode(keypkg);
    push_all(&mut out, &khex);
    push_lit(&mut out, "\",\"pubkeypkg\":\"");
    let phex = hex_encode(pubkeypkg);
    push_all(&mut out, &phex);
    push_lit(&mut out, "\"}}");
    proof {
        assert(out@ =~= spec_entry_frame(s, keypkg@, pubkeypkg@));
    }
    out
}

/// Whether a byte string opens like a persisted entry: `{"ciphersuite":"`.
pub open spec fn spec_has_suite_prefix(f: Seq<u8>) -> bool {
    f.len() >= 16 && forall|j: int|
        0 <= j < 16 ==> f[j] == ascii_bytes("{\"ciphersuite\":\""@)[j]
}

/// Whether position `qe` closes the ciphersuite name: the first quote at or
/// after the opening prefix.
pub open spec fn spec_suite_id_end(f: Seq<u8>, qe: int) -> bool {
    16 <= qe < f.len() && f[qe] == 0x22 && forall|t: int| 16 <= t < qe ==> f[t] != 0x22
}

/// The ciphersuite name a byte string claims, read between the opening
/// `{"ciphersuite":"` and the next quote; `None` when the opening or the
/// closing quote is missing.  The claim is read even off strings that are no
/// well-formed entry, so an entry naming an unsupported suite can be
/// reported by name.
pub fn claimed_suite_id(frame: &Vec<u8>) -> (r: Option<Vec<u8>>)
    ensures
        match r {
            Some(id) => spec_has_suite_prefix(frame@) && spec_suite_id_end(
                frame@,
                16 + id@.len() as int,
            ) && id@ == frame@.subrange(16, 16 + id@.len() as int),
            None => !spec_has_suite_prefix(frame@) || (forall|t: int|
                16 <= t < frame@.len() ==> frame@[t] != 0x22),
        },
{
    proof {
        reveal_strlit("{\"ciphersuite\":\"");
    }
    if !match_lit(frame, 0, "{\"ciphersuite\":\"") {
        proof {
            assert(("{\"ciphersuite\":\""@).len() == 16);
        }
        return None;
    }
    match find_byte(frame, 16, 0x22) {
        Some(qe) => {
            let id = copy_range(frame, 16, qe);
            Some(id)
        },
        None => None,
    }
}

/// A hex digit is never a quote, so a hex region ends exactly at the next
/// quote byte.
pub proof fn lemma_hex_digit_not_quote(b: u8)
    requires
        is_hex_digit(b),
    ensures
        b != 0x22,
{
}

/// Where each region of an entry frame stands and what it holds: the prefix,
/// the key-package hex, the `","pubkeypkg":"` separator, the public-package
/// hex, and the closing `"}}`.
pub proof fn lemma_frame_parts(s: Suite, k: Seq<u8>, p: Seq<u8>)
    ensures
        spec_entry_frame(s, k, p).len() == spec_frame_prefix(s).len() + 2 * k.len() + 15 + 2
            * p.len() + 3,
        forall|j: int|
            0 <= j < spec_frame_prefix(s).len() ==> spec_entry_frame(s, k, p)[j] == ascii_bytes(
                spec_frame_prefix(s),
            )[j],
        forall|j: int|
            0 <= j < 2 * k.len() ==> spec_entry_frame(s, k, p)[spec_frame_prefix(s).len() + j]
                == hex_of(k)[j],
        forall|j: int|
            0 <= j < 15 ==> spec_entry_frame(s, k, p)[spec_frame_prefix(s).len() + 2 * k.len() + j]
                == ascii_bytes("\",\"pubkeypkg\":\""@)[j],
        forall|j: int|
            0 <= j < 2 * p.len() ==> spec_entry_frame(s, k, p)[spec_frame_prefix(s).len() + 2
                * k.len() + 15 + j] == hex_of(p)[j],
        forall|j: int|
            0 <= j < 3 ==> spec_entry_frame(s, k, p)[spec_frame_prefix(s).len() + 2 * k.len() + 15
                + 2 * p.len() + j] == ascii_bytes("\"}}"@)[j],
{
    reveal_strlit("\",\"pubkeypkg\":\"");
    reveal_strlit("\"}}");
    assert(("\",\"pubkeypkg\":\""@).len() == 15);
    assert(("\"}}"@).len() == 3);
}

/// Decode a persisted keygen entry.  Succeeds, with the suite and the two
/// serialized packages, exactly on byte strings that `encode_entry` can
/// produce.
#[verifier::rlimit(60)]
pub fn decode_entry(frame: &Vec<u8>) -> (r: Option<(Suite, Vec<u8>, Vec<u8>)>)
    ensures
        match r {
            Some((s, k, p)) => frame@ == spec_entry_frame(s, k@, p@),
            None => forall|s: Suite, k: Seq<u8>, p: Seq<u8>| frame@ != spec_entry_frame(s, k, p),
        },
{
    proof {
        reveal_strlit("{\"ciphersuite\":\"FROST-ED25519-SHA512-v1\",\"entry\":{\"keypkg\":\"");
        reveal_strlit("{\"ciphersuite\":\"FROST-secp256k1-SHA256-v1\",\"entry\":{\"keypkg\":\"");
        reveal_strlit("\",\"pubkeypkg\":\"");
        reveal_strlit("\"}}");
    }
    let ghost gframe: Seq<u8> = frame@;
    let flen = frame.len();
    let ed_lit = "{\"ciphersuite\":\"FROST-ED25519-SHA512-v1\",\"entry\":{\"keypkg\":\"";
    let secp_lit = "{\"ciphersuite\":\"FROST-secp256k1-SHA256-v1\",\"entry\":{\"keypkg\":\"";
    let (s, plen): (Suite, usize) = if match_lit(frame, 0, ed_lit) {
        (Suite::Ed25519Sha512, 60)
    } else if match_lit(frame, 0, secp_lit) {
        (Suite::Secp256K1Sha256, 62)
    } else {
        proof {
            assert forall|s2: Suite, k2: Seq<u8>, p2: Seq<u8>| gframe != spec_entry_frame(
                s2,
                k2,
                p2,
            ) by {
                if gframe == spec_entry_frame(s2, k2, p2) {
                    lemma_frame_parts(s2, k2, p2);
                }
            }
        }
        return None;
    };
    proof {
        assert(plen == spec_frame_prefix(s).len());
        assert(forall|j: int|
            0 <= j < plen ==> gframe[j] == ascii_bytes(spec_frame_prefix(s))[j]);
        // The two prefixes differ, so the frame can encode no other suite.
        assert forall|s2: Suite, k2: Seq<u8>, p2: Seq<u8>|
            s2 != s implies gframe != spec_entry_frame(s2, k2, p2) by {
            if gframe == spec_entry_frame(s2, k2, p2) {
                lemma_frame_parts(s2, k2, p2);
                assert(gframe[22] == ascii_bytes(spec_frame_prefix(s2))[22]);
                assert(gframe[22] == ascii_bytes(spec_frame_prefix(s))[22]);
            }
        }
    }
    let qk = match find_byte(frame, plen, 0x22) {
        Some(q) => q,
        None => {
            proof {
                assert forall|k2: Seq<u8>, p2: Seq<u8>| gframe != spec_entry_frame(
                    s,
                    k2,
                    p2,
                ) by {
                    if gframe == spec_entry_frame(s, k2, p2) {
                        lemma_frame_parts(s, k2, p2);
                        assert(gframe[plen + 2 * k2.len()] == ascii_bytes(
                            "\",\"pubkeypkg\":\""@,
                        )[0]);
                    }
                }
            }
            return None;
        },
    };
    proof {
        // In any encoding by this suite, the first quote after the prefix
        // closes the key-package hex region.
        assert forall|k2: Seq<u8>, p2: Seq<u8>|
            gframe == spec_entry_frame(s, k2, p2) implies qk == plen + 2 * k2.len() by {
            lemma_frame_parts(s, k2, p2);
            assert(gframe[plen + 2 * k2.len()] == ascii_bytes("\",\"pubkeypkg\":\""@)[0]);
            if qk < plen + 2 * k2.len() {
                assert(gframe[qk as int] == hex_of(k2)[qk - plen]);
                let b = k2[(qk - plen) / 2];
                assert((b >> 4) < 16 && (b & 0xf) < 16) by (bit_vector);
                lemma_hex_digit_round_trip(
                    if (qk - plen) % 2 == 0 {
                        b >> 4
                    } else {
                        b & 0xf
                    },
                );
            }
        }
    }
    let khex = copy_range(frame, plen, qk);
    let k = match hex_decode(&khex) {
        Some(k) => k,
        None => {
            proof {
                assert forall|k2: Seq<u8>, p2: Seq<u8>| gframe != spec_entry_frame(
                    s,
                    k2,
                    p2,
                ) by {
                    if gframe == spec_entry_frame(s, k2, p2) {
                        lemma_frame_parts(s, k2, p2);
                        assert(khex@ =~= hex_of(k2));
                        assert forall|i: int| 0 <= i < khex@.len() implies is_hex_digit(
                            #[trigger] khex@[i],
                        ) by {
                            let b = k2[i / 2];
                            assert((b >> 4) < 16 && (b & 0xf) < 16) by (bit_vector);
                            lemma_hex_digit_round_trip(
                                if i % 2 == 0 {
                                    b >> 4
                                } else {
                                    b & 0xf
                                },
                            );
                        }
                    }
                }
            }
            return None;
        },
    };
    if !match_lit(frame, qk, "\",\"pubkeypkg\":\"") {
        proof {
            assert forall|k2: Seq<u8>, p2: Seq<u8>| gframe != spec_entry_frame(s, k2, p2) by {
                if gframe == spec_entry_frame(s, k2, p2) {
                    lemma_frame_parts(s, k2, p2);
                }
            }
        }
        return None;
    }
    proof {
        assert(("\",\"pubkeypkg\":\""@).len() == 15);
        assert(qk + 15 <= flen);
    }
    let h1 = qk + 15;
    let qp = match find_byte(frame, h1, 0x22) {
        Some(q) => q,
        None => {
            proof {
                assert forall|k2: Seq<u8>, p2: Seq<u8>| gframe != spec_entry_frame(
                    s,
                    k2,
                    p2,
                ) by {
                    if gframe == spec_entry_frame(s, k2, p2) {
                        lemma_frame_parts(s, k2, p2);
                        assert(gframe[plen + 2 * k2.len() + 15 + 2 * p2.len()] == ascii_bytes(
                            "\"}}"@,
                        )[0]);
                    }
                }
            }
            return None;
        },
    };
    proof {
        // Likewise the first quote after the separator closes the
        // public-package hex region.
        assert forall|k2: Seq<u8>, p2: Seq<u8>|
            gframe == spec_entry_frame(s, k2, p2) implies qp == plen + 2 * k2.len() + 15 + 2
            * p2.len() by {
            lemma_frame_parts(s, k2, p2);
            assert(h1 == plen + 2 * k2.len() + 15);
            assert(gframe[plen + 2 * k2.len() + 15 + 2 * p2.len()] == ascii_bytes("\"}}"@)[0]);
            if qp < plen + 2 * k2.len() + 15 + 2 * p2.len() {
                assert(gframe[qp as int] == hex_of(p2)[qp - h1]);
                let b = p2[(qp - h1) / 2];
                assert((b >> 4) < 16 && (b & 0xf) < 16) by (bit_vector);
                lemma_hex_digit_round_trip(
                    if (qp - h1) % 2 == 0 {
                        b >> 4
                    } else {
                        b & 0xf
                    },
                );
            }
        }
    }
    let phex = copy_range(frame, h1, qp);
    let p = match hex_decode(&phex) {
        Some(p) => p,
        None => {
            proof {
                assert forall|k2: Seq<u8>, p2: Seq<u8>| gframe != spec_entry_frame(
                    s,
                    k2,
                    p2,
                ) by {
                    if gframe == spec_entry_frame(s, k2, p2) {
                        lemma_frame_parts(s, k2, p2);
                        assert(phex@ =~= hex_of(p2));
                        assert forall|i: int| 0 <= i < phex@.len() implies is_hex_digit(
                            #[trigger] phex@[i],
                        ) by {
                            let b = p2[i / 2];
                            assert((b >> 4) < 16 && (b & 0xf) < 16) by (bit_vector);
                            lemma_hex_digit_round_trip(
                                if i % 2 == 0 {
                                    b >> 4
                                } else {
                                    b & 0xf
                                },
                            );
                        }
                    }
                }
            }
            return None;
        },
    };
    let end_ok = match_lit(frame, qp, "\"}}");
    proof {
        assert(("\"}}"@).len() == 3);
        assert(end_ok ==> qp + 3 <= flen);
    }
    if !end_ok || qp + 3 != flen {
        proof {
            assert forall|k2: Seq<u8>, p2: Seq<u8>| gframe != spec_entry_frame(s, k2, p2) by {
                if gframe == spec_entry_frame(s, k2, p2) {
                    lemma_frame_parts(s, k2, p2);
                }
            }
        }
        return None;
    }
    proof {
        lemma_frame_parts(s, k@, p@);
        lemma_hex_of_unhex(khex@);
        lemma_hex_of_unhex(phex@);
        assert(hex_of(k@) =~= khex@);
        assert(hex_of(p@) =~= phex@);
        assert(gframe =~= spec_entry_frame(s, k@, p@));
    }
    Some((s, k, p))
}

} // verus!
