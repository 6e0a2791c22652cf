//! Hash-linking of verdicts.
//!
//! A verdict's hash is the lower-case hexadecimal SHA-256 digest of the
//! verdict's byte layout, which is fixed and documented here so that an
//! independent verifier reproduces the same digest:
//!
//! | field                         | bytes | encoding                         |
//! |-------------------------------|-------|----------------------------------|
//! | tick                          | 8     | unsigned, little-endian          |
//! | subject (site index)          | 4     | unsigned, little-endian          |
//! | deed kind                     | 1     | tag                              |
//! | 14 scalars, in field order    | 8 each| two's complement, little-endian  |
//! | neurorights band before, after| 1 each| tag                              |
//! | justice snapshot: site        | 4     | unsigned, little-endian          |
//! | justice snapshot: 3 ratios    | 8 each| two's complement, little-endian  |
//! | decision                      | 1     | tag                              |
//! | reason                        | 1     | tag                              |
//! | previous record's hash        | rest  | UTF-8                            |
//!
//! Tags count the variants of each enum from 0, in declaration order.

use vstd::prelude::*;
use vstd::bytes::{spec_u32_to_le_bytes, spec_u64_to_le_bytes, u32_to_le_bytes, u64_to_le_bytes};
use vstd::string::StringSliceAdditionalSpecFns;
use crate::gates::{CorridorDecision, CorridorReason};
use crate::model::{DeedKind, JusticeSnapshot, NeurorightsBand};
use crate::predictor::CorridorScalars;

verus! {

/// The SHA-256 digest of `data`, as the `sha2` crate computes it.
pub uninterp spec fn sha256_digest(data: Seq<u8>) -> Seq<u8>;

/// The lower-case hexadecimal digit of a value below 16.
pub open spec fn hex_digit(n: int) -> char {
    seq!['0', '1', '2', '3', '4', '5', '6', '7', '8', '9', 'a', 'b', 'c', 'd', 'e', 'f'][n]
}

/// The lower-case hexadecimal text of `bytes`: two digits per byte, the high
/// half first.
pub open spec fn hex_encoding(bytes: Seq<u8>) -> Seq<char> {
    Seq::new(
        2 * bytes.len(),
        |i: int|
            if i % 2 == 0 {
                hex_digit(bytes[i / 2] as int / 16)
            } else {
                hex_digit(bytes[i / 2] as int % 16)
            },
    )
}

/// The hexadecimal SHA-256 digest of `data`.
pub open spec fn sha256_hex(data: Seq<u8>) -> Seq<char> {
    hex_encoding(sha256_digest(data))
}

/// Calls `sha2::Sha256::digest`. The contract names the digest, which is a
/// function of the input bytes alone, and states its size: 32 bytes.
#[verifier::external_body]
fn sha256(data: &[u8]) -> (out: Vec<u8>)
    ensures
        out@ == sha256_digest(data@),
        out@.len() == 32,
{
    <sha2::Sha256 as sha2::Digest>::digest(data).to_vec()
}

/// Calls `hex::encode`, which writes each byte as two lower-case hexadecimal
/// digits, the high half first.
#[verifier::external_body]
pub(crate) fn hex_encode(data: &[u8]) -> (out: String)
    ensures
        out@ == hex_encoding(data@),
{
    hex::encode(data)
}

/// The lower-case hexadecimal SHA-256 digest of `data`: 64 digits.
pub fn compute_sha256_hash(data: &[u8]) -> (out: String)
    ensures
        out@ == sha256_hex(data@),
        out@.len() == 64,
{
    let digest = sha256(data);
    hex_encode(digest.as_slice())
}

/// The two's complement of a signed scalar, as an unsigned 64-bit value.
pub open spec fn twos_complement(x: i64) -> u64 {
    if x >= 0 {
        x as u64
    } else {
        (x + 0x1_0000_0000_0000_0000) as u64
    }
}

/// The eight bytes of a signed scalar.
pub open spec fn scalar_bytes(x: i64) -> Seq<u8> {
    spec_u64_to_le_bytes(twos_complement(x))
}

/// The tag of a deed kind.
pub open spec fn kind_tag(kind: DeedKind) -> u8 {
    match kind {
        DeedKind::EcologicalSharing => 0,
        DeedKind::ResourceAid => 1,
        DeedKind::MathScienceEducation => 2,
        DeedKind::MinorDisturbance => 3,
    }
}

/// The tag of a neurorights band.
pub open spec fn band_tag(band: NeurorightsBand) -> u8 {
    match band {
        NeurorightsBand::Open => 0,
        NeurorightsBand::Guarded => 1,
        NeurorightsBand::NonActuating => 2,
    }
}

/// The tag of a decision.
pub open spec fn decision_tag(decision: CorridorDecision) -> u8 {
    match decision {
        CorridorDecision::Allow => 0,
        CorridorDecision::Downscale => 1,
        CorridorDecision::Deny => 2,
    }
}

/// The tag of a reason.
pub open spec fn reason_tag(reason: CorridorReason) -> u8 {
    match reason {
        CorridorReason::Okay => 0,
        CorridorReason::BioRailExceeded => 1,
        CorridorReason::BioLoadExceeded => 2,
        CorridorReason::ThermodynamicExceeded => 3,
        CorridorReason::NeurorightsViolated => 4,
        CorridorReason::JusticeBandBreached => 5,
    }
}

/// The bytes of a predicted bundle: its fourteen scalars in field order,
/// then the two band tags.
pub open spec fn scalars_bytes(s: CorridorScalars) -> Seq<u8> {
    scalar_bytes(s.b_before) + scalar_bytes(s.b_after) + scalar_bytes(s.bioload_before)
        + scalar_bytes(s.bioload_after) + scalar_bytes(s.temp_before) + scalar_bytes(s.temp_after)
        + scalar_bytes(s.heart_rate_before) + scalar_bytes(s.heart_rate_after) + scalar_bytes(
        s.hpcc_before,
    ) + scalar_bytes(s.hpcc_after) + scalar_bytes(s.erg_before) + scalar_bytes(s.erg_after)
        + scalar_bytes(s.tecr_before) + scalar_bytes(s.tecr_after) + seq![
        band_tag(s.neurorights_before),
        band_tag(s.neurorights_after),
    ]
}

/// The bytes of a justice snapshot.
pub open spec fn justice_bytes(j: JusticeSnapshot) -> Seq<u8> {
    spec_u32_to_le_bytes(j.site) + scalar_bytes(j.hpcc) + scalar_bytes(j.erg) + scalar_bytes(
        j.tecr,
    )
}

/// The byte layout that a verdict's hash commits to.
pub open spec fn verdict_bytes(
    tick: u64,
    site: u32,
    kind: DeedKind,
    scalars: CorridorScalars,
    justice: JusticeSnapshot,
    decision: CorridorDecision,
    reason: CorridorReason,
    prev_hash: Seq<char>,
) -> Seq<u8> {
    spec_u64_to_le_bytes(tick) + spec_u32_to_le_bytes(site) + seq![kind_tag(kind)] + scalars_bytes(
        scalars,
    ) + justice_bytes(justice) + seq![decision_tag(decision), reason_tag(reason)]
        + vstd::utf8::encode_utf8(prev_hash)
}

/// A verdict's hash, which is the hexadecimal SHA-256 digest of its byte layout.
pub open spec fn verdict_digest(
    tick: u64,
    site: u32,
    kind: DeedKind,
    scalars: CorridorScalars,
    justice: JusticeSnapshot,
    decision: CorridorDecision,
    reason: CorridorReason,
    prev_hash: Seq<char>,
) -> Seq<char> {
    sha256_hex(verdict_bytes(tick, site, kind, scalars, justice, decision, reason, prev_hash))
}

/// The length of the fixed part of a verdict's layout; the previous hash
/// follows it.
pub const FIXED_LAYOUT_LEN: usize = 157;

/// A signed scalar takes eight bytes, and its bytes determine it.
pub proof fn lemma_scalar_bytes(x: i64, y: i64)
    ensures
        scalar_bytes(x).len() == 8,
        scalar_bytes(x) == scalar_bytes(y) ==> x == y,
{
    vstd::bytes::lemma_auto_spec_u64_to_from_le_bytes();
    if scalar_bytes(x) == scalar_bytes(y) {
        assert(vstd::bytes::spec_u64_from_le_bytes(scalar_bytes(x)) == twos_complement(x));
        assert(vstd::bytes::spec_u64_from_le_bytes(scalar_bytes(y)) == twos_complement(y));
    }
}

/// Where each field of a predicted bundle stands in its bytes.
pub proof fn lemma_scalars_layout(s: CorridorScalars)
    ensures
        scalars_bytes(s).len() == 114,
        scalars_bytes(s).subrange(0, 8) == scalar_bytes(s.b_before),
        scalars_bytes(s).subrange(8, 16) == scalar_bytes(s.b_after),
        scalars_bytes(s).subrange(16, 24) == scalar_bytes(s.bioload_before),
        scalars_bytes(s).subrange(24, 32) == scalar_bytes(s.bioload_after),
        scalars_bytes(s).subrange(32, 40) == scalar_bytes(s.temp_before),
        scalars_bytes(s).subrange(40, 48) == scalar_bytes(s.temp_after),
        scalars_bytes(s).subrange(48, 56) == scalar_bytes(s.heart_rate_before),
        scalars_bytes(s).subrange(56, 64) == scalar_bytes(s.heart_rate_after),
        scalars_bytes(s).subrange(64, 72) == scalar_bytes(s.hpcc_before),
        scalars_bytes(s).subrange(72, 80) == scalar_bytes(s.hpcc_after),
        scalars_bytes(s).subrange(80, 88) == scalar_bytes(s.erg_before),
        scalars_bytes(s).subrange(88, 96) == scalar_bytes(s.erg_after),
        scalars_bytes(s).subrange(96, 104) == scalar_bytes(s.tecr_before),
        scalars_bytes(s).subrange(104, 112) == scalar_bytes(s.tecr_after),
        scalars_bytes(s)[112] == band_tag(s.neurorights_before),
        scalars_bytes(s)[113] == band_tag(s.neurorights_after),
{
    vstd::bytes::lemma_auto_spec_u64_to_from_le_bytes();
    let bytes = scalars_bytes(s);
    assert(bytes.subrange(0, 8) =~= scalar_bytes(s.b_before));
    assert(bytes.subrange(8, 16) =~= scalar_bytes(s.b_after));
    assert(bytes.subrange(16, 24) =~= scalar_bytes(s.bioload_before));
    assert(bytes.subrange(24, 32) =~= scalar_bytes(s.bioload_after));
    assert(bytes.subrange(32, 40) =~= scalar_bytes(s.temp_before));
    assert(bytes.subrange(40, 48) =~= scalar_bytes(s.temp_after));
    assert(bytes.subrange(48, 56) =~= scalar_bytes(s.heart_rate_before));
    assert(bytes.subrange(56, 64) =~= scalar_bytes(s.heart_rate_after));
    assert(bytes.subrange(64, 72) =~= scalar_bytes(s.hpcc_before));
    assert(bytes.subrange(72, 80) =~= scalar_bytes(s.hpcc_after));
    assert(bytes.subrange(80, 88) =~= scalar_bytes(s.erg_before));
    assert(bytes.subrange(88, 96) =~= scalar_bytes(s.erg_after));
    assert(bytes.subrange(96, 104) =~= scalar_bytes(s.tecr_before));
    assert(bytes.subrange(104, 112) =~= scalar_bytes(s.tecr_after));
}

/// Where each field of a justice snapshot stands in its bytes.
pub proof fn lemma_justice_layout(j: JusticeSnapshot)
    ensures
        justice_bytes(j).len() == 28,
        justice_bytes(j).subrange(0, 4) == spec_u32_to_le_bytes(j.site),
        justice_bytes(j).subrange(4, 12) == scalar_bytes(j.hpcc),
        justice_bytes(j).subrange(12, 20) == scalar_bytes(j.erg),
        justice_bytes(j).subrange(20, 28) == scalar_bytes(j.tecr),
{
    vstd::bytes::lemma_auto_spec_u64_to_from_le_bytes();
    vstd::bytes::lemma_auto_spec_u32_to_from_le_bytes();
    let bytes = justice_bytes(j);
    assert(bytes.subrange(0, 4) =~= spec_u32_to_le_bytes(j.site));
    assert(bytes.subrange(4, 12) =~= scalar_bytes(j.hpcc));
    assert(bytes.subrange(12, 20) =~= scalar_bytes(j.erg));
    assert(bytes.subrange(20, 28) =~= scalar_bytes(j.tecr));
}

/// Where each field of a verdict stands in the bytes that its hash commits
/// to: a fixed part of `FIXED_LAYOUT_LEN` bytes, then the previous hash.
pub proof fn lemma_verdict_layout(
    tick: u64,
    site: u32,
    kind: DeedKind,
    scalars: CorridorScalars,
    justice: JusticeSnapshot,
    decision: CorridorDecision,
    reason: CorridorReason,
    prev_hash: Seq<char>,
)
    ensures
        ({
            let bytes = verdict_bytes(
                tick,
                site,
                kind,
                scalars,
                justice,
                decision,
                reason,
                prev_hash,
            );
            &&& bytes.len() == FIXED_LAYOUT_LEN + vstd::utf8::encode_utf8(prev_hash).len()
            &&& bytes.subrange(0, 8) == spec_u64_to_le_bytes(tick)
            &&& bytes.subrange(8, 12) == spec_u32_to_le_bytes(site)
            &&& bytes[12] == kind_tag(kind)
            &&& bytes.subrange(13, 127) == scalars_bytes(scalars)
            &&& bytes.subrange(127, 155) == justice_bytes(justice)
            &&& bytes[155] == decision_tag(decision)
            &&& bytes[156] == reason_tag(reason)
            &&& bytes.subrange(157, bytes.len() as int) == vstd::utf8::encode_utf8(prev_hash)
        }),
{
    vstd::bytes::lemma_auto_spec_u64_to_from_le_bytes();
    vstd::bytes::lemma_auto_spec_u32_to_from_le_bytes();
    lemma_scalars_layout(scalars);
    lemma_justice_layout(justice);
    let bytes = verdict_bytes(tick, site, kind, scalars, justice, decision, reason, prev_hash);
    assert(bytes.subrange(0, 8) =~= spec_u64_to_le_bytes(tick));
    assert(bytes.subrange(8, 12) =~= spec_u32_to_le_bytes(site));
    assert(bytes.subrange(13, 127) =~= scalars_bytes(scalars));
    assert(bytes.subrange(127, 155) =~= justice_bytes(justice));
    assert(bytes.subrange(157, bytes.len() as int) =~= vstd::utf8::encode_utf8(prev_hash));
}

/// The bytes of a predicted bundle determine the bundle.
pub proof fn lemma_scalars_bytes_injective(s: CorridorScalars, t: CorridorScalars)
    requires
        scalars_bytes(s) == scalars_bytes(t),
    ensures
        s == t,
{
    lemma_scalars_layout(s);
    lemma_scalars_layout(t);
    lemma_scalar_bytes(s.b_before, t.b_before);
    lemma_scalar_bytes(s.b_after, t.b_after);
    lemma_scalar_bytes(s.bioload_before, t.bioload_before);
    lemma_scalar_bytes(s.bioload_after, t.bioload_after);
    lemma_scalar_bytes(s.temp_before, t.temp_before);
    lemma_scalar_bytes(s.temp_after, t.temp_after);
    lemma_scalar_bytes(s.heart_rate_before, t.heart_rate_before);
    lemma_scalar_bytes(s.heart_rate_after, t.heart_rate_after);
    lemma_scalar_bytes(s.hpcc_before, t.hpcc_before);
    lemma_scalar_bytes(s.hpcc_after, t.hpcc_after);
    lemma_scalar_bytes(s.erg_before, t.erg_before);
    lemma_scalar_bytes(s.erg_after, t.erg_after);
    lemma_scalar_bytes(s.tecr_before, t.tecr_before);
    lemma_scalar_bytes(s.tecr_after, t.tecr_after);
}

/// The bytes of a justice snapshot determine the snapshot.
pub proof fn lemma_justice_bytes_injective(j: JusticeSnapshot, k: JusticeSnapshot)
    requires
        justice_bytes(j) == justice_bytes(k),
    ensures
        j == k,
{
    vstd::bytes::lemma_auto_spec_u32_to_from_le_bytes();
    lemma_justice_layout(j);
    lemma_justice_layout(k);
    lemma_scalar_bytes(j.hpcc, k.hpcc);
    lemma_scalar_bytes(j.erg, k.erg);
    lemma_scalar_bytes(j.tecr, k.tecr);
    assert(vstd::bytes::spec_u32_from_le_bytes(spec_u32_to_le_bytes(j.site)) == j.site);
    assert(vstd::bytes::spec_u32_from_le_bytes(spec_u32_to_le_bytes(k.site)) == k.site);
}

/// The layout is unambiguous: two verdicts with the same bytes agree in
/// every field and in the previous hash. So a digest of the bytes commits to
/// all of them.
pub proof fn lemma_verdict_bytes_injective(
    tick: u64,
    site: u32,
    kind: DeedKind,
    scalars: CorridorScalars,
    justice: JusticeSnapshot,
    decision: CorridorDecision,
    reason: CorridorReason,
    prev_hash: Seq<char>,
    tick2: u64,
    site2: u32,
    kind2: DeedKind,
    scalars2: CorridorScalars,
    justice2: JusticeSnapshot,
    decision2: CorridorDecision,
    reason2: CorridorReason,
    prev_hash2: Seq<char>,
)
    requires
        verdict_bytes(tick, site, kind, scalars, justice, decision, reason, prev_hash)
            == verdict_bytes(
            tick2,
            site2,
            kind2,
            scalars2,
            justice2,
            decision2,
            reason2,
            prev_hash2,
        ),
    ensures
        tick == tick2,
        site == site2,
        kind == kind2,
        scalars == scalars2,
        justice == justice2,
        decision == decision2,
        reason == reason2,
        prev_hash == prev_hash2,
{
    vstd::bytes::lemma_auto_spec_u64_to_from_le_bytes();
    vstd::bytes::lemma_auto_spec_u32_to_from_le_bytes();
    lemma_verdict_layout(tick, site, kind, scalars, justice, decision, reason, prev_hash);
    lemma_verdict_layout(tick2, site2, kind2, scalars2, justice2, decision2, reason2, prev_hash2);
    lemma_scalars_bytes_injective(scalars, scalars2);
    lemma_justice_bytes_injective(justice, justice2);
    assert(vstd::bytes::spec_u64_from_le_bytes(spec_u64_to_le_bytes(tick)) == tick);
    assert(vstd::bytes::spec_u64_from_le_bytes(spec_u64_to_le_bytes(tick2)) == tick2);
    assert(vstd::bytes::spec_u32_from_le_bytes(spec_u32_to_le_bytes(site)) == site);
    assert(vstd::bytes::spec_u32_from_le_bytes(spec_u32_to_le_bytes(site2)) == site2);
    vstd::utf8::encode_utf8_decode_utf8(prev_hash);
    vstd::utf8::encode_utf8_decode_utf8(prev_hash2);
}

fn push_bytes(buf: &mut Vec<u8>, bytes: &[u8])
    ensures
        final(buf)@ == old(buf)@ + bytes@,
{
    buf.extend_from_slice(bytes);
    assert(buf@ =~= old(buf)@ + bytes@);
}

fn push_tag(buf: &mut Vec<u8>, tag: u8)
    ensures
        final(buf)@ == old(buf)@ + seq![tag],
{
    buf.push(tag);
    assert(buf@ =~= old(buf)@ + seq![tag]);
}

fn push_u32(buf: &mut Vec<u8>, x: u32)
    ensures
        final(buf)@ == old(buf)@ + spec_u32_to_le_bytes(x),
{
    let bytes = u32_to_le_bytes(x);
    push_bytes(buf, bytes.as_slice());
}

fn push_u64(buf: &mut Vec<u8>, x: u64)
    ensures
        final(buf)@ == old(buf)@ + spec_u64_to_le_bytes(x),
{
    let bytes = u64_to_le_bytes(x);
    push_bytes(buf, bytes.as_slice());
}

fn push_scalar(buf: &mut Vec<u8>, x: i64)
    ensures
        final(buf)@ == old(buf)@ + scalar_bytes(x),
{
    let u: u64 = if x >= 0 {
        x as u64
    } else {
        (x as i128 + 0x1_0000_0000_0000_0000i128) as u64
    };
    push_u64(buf, u);
}

fn kind_byte(kind: DeedKind) -> (t: u8)
    ensures
        t == kind_tag(kind),
{
    match kind {
        DeedKind::EcologicalSharing => 0,
        DeedKind::ResourceAid => 1,
        DeedKind::MathScienceEducation => 2,
        DeedKind::MinorDisturbance => 3,
    }
}

fn band_byte(band: NeurorightsBand) -> (t: u8)
    ensures
        t == band_tag(band),
{
    match band {
        NeurorightsBand::Open => 0,
        NeurorightsBand::Guarded => 1,
        NeurorightsBand::NonActuating => 2,
    }
}

fn decision_byte(decision: CorridorDecision) -> (t: u8)
    ensures
        t == decision_tag(decision),
{
    match decision {
        CorridorDecision::Allow => 0,
        CorridorDecision::Downscale => 1,
        CorridorDecision::Deny => 2,
    }
}

fn reason_byte(reason: CorridorReason) -> (t: u8)
    ensures
        t == reason_tag(reason),
{
    match reason {
        CorridorReason::Okay => 0,
        CorridorReason::BioRailExceeded => 1,
        CorridorReason::BioLoadExceeded => 2,
        CorridorReason::ThermodynamicExceeded => 3,
        CorridorReason::NeurorightsViolated => 4,
        CorridorReason::JusticeBandBreached => 5,
    }
}

fn push_scalars(buf: &mut Vec<u8>, s: &CorridorScalars)
    ensures
        final(buf)@ == old(buf)@ + scalars_bytes(*s),
{
    push_scalar(buf, s.b_before);
    push_scalar(buf, s.b_after);
    push_scalar(buf, s.bioload_before);
    push_scalar(buf, s.bioload_after);
    push_scalar(buf, s.temp_before);
    push_scalar(buf, s.temp_after);
    push_scalar(buf, s.heart_rate_before);
    push_scalar(buf, s.heart_rate_after);
    push_scalar(buf, s.hpcc_before);
    push_scalar(buf, s.hpcc_after);
    push_scalar(buf, s.erg_before);
    push_scalar(buf, s.erg_after);
    push_scalar(buf, s.tecr_before);
    push_scalar(buf, s.tecr_after);
    push_tag(buf, band_byte(s.neurorights_before));
    push_tag(buf, band_byte(s.neurorights_after));
    assert(buf@ =~= old(buf)@ + scalars_bytes(*s));
}

fn push_justice(buf: &mut Vec<u8>, j: &JusticeSnapshot)
    ensures
        final(buf)@ == old(buf)@ + justice_bytes(*j),
{
    push_u32(buf, j.site);
    push_scalar(buf, j.hpcc);
    push_scalar(buf, j.erg);
    push_scalar(buf, j.tecr);
    assert(buf@ =~= old(buf)@ + justice_bytes(*j));
}

/// Lays a verdict out as the bytes that its hash commits to.
pub fn encode_verdict(
    tick: u64,
    site: u32,
    kind: DeedKind,
    scalars: &CorridorScalars,
    justice: &JusticeSnapshot,
    decision: CorridorDecision,
    reason: CorridorReason,
    prev_hash: &str,
) -> (out: Vec<u8>)
    ensures
        out@ == verdict_bytes(tick, site, kind, *scalars, *justice, decision, reason, prev_hash@),
{
    let mut buf: Vec<u8> = Vec::new();
    push_u64(&mut buf, tick);
    push_u32(&mut buf, site);
    push_tag(&mut buf, kind_byte(kind));
    push_scalars(&mut buf, scalars);
    push_justice(&mut buf, justice);
    push_tag(&mut buf, decision_byte(decision));
    push_tag(&mut buf, reason_byte(reason));
    push_bytes(&mut buf, prev_hash.as_bytes());
    assert(buf@ =~= verdict_bytes(
        tick,
        site,
        kind,
        *scalars,
        *justice,
        decision,
        reason,
        prev_hash@,
    ));
    buf
}

/// The hash of a verdict, committing to every field of it and to the hash of
/// the previous record (or to the genesis value for the first).
pub fn hash_verdict(
    tick: u64,
    site: u32,
    kind: DeedKind,
    scalars: &CorridorScalars,
    justice: &JusticeSnapshot,
    decision: CorridorDecision,
    reason: CorridorReason,
    prev_hash: &str,
) -> (hash: String)
    ensures
        hash@ == verdict_digest(
            tick,
            site,
            kind,
            *scalars,
            *justice,
            decision,
            reason,
            prev_hash@,
        ),
        hash@.len() == 64,
{
    let bytes = encode_verdict(tick, site, kind, scalars, justice, decision, reason, prev_hash);
    compute_sha256_hash(bytes.as_slice())
}

} // verus!
