use governance_corridor::gates::{CorridorDecision, CorridorReason};
use governance_corridor::hashlink::{compute_sha256_hash, encode_verdict, hash_verdict};
use governance_corridor::model::{DeedKind, JusticeSnapshot, NeurorightsBand};
use governance_corridor::predictor::CorridorScalars;
use governance_corridor::verdict::record_verdict;

fn scalars() -> CorridorScalars {
    CorridorScalars {
        b_before: 1,
        b_after: 2,
        bioload_before: 3,
        bioload_after: 4,
        temp_before: 5,
        temp_after: 6,
        heart_rate_before: 7,
        heart_rate_after: 8,
        hpcc_before: 9,
        hpcc_after: 10,
        erg_before: 11,
        erg_after: 12,
        tecr_before: -1,
        tecr_after: -2,
        neurorights_before: NeurorightsBand::Guarded,
        neurorights_after: NeurorightsBand::NonActuating,
    }
}

fn snapshot() -> JusticeSnapshot {
    JusticeSnapshot { site: 0x0a0b0c0d, hpcc: 256, erg: i64::MIN, tecr: i64::MAX }
}

#[test]
fn sha256_of_known_inputs() {
    assert_eq!(
        compute_sha256_hash(b""),
        "e3b0c44298fc1c149afbf4c8996fb92427ae41e4649b934ca495991b7852b855"
    );
    assert_eq!(
        compute_sha256_hash(b"abc"),
        "ba7816bf8f01cfea414140de5dae2223b00361a396177a9cb410ff61f20015ad"
    );
}

#[test]
fn verdict_byte_layout() {
    let bytes = encode_verdict(
        0x0102030405060708,
        0x11223344,
        DeedKind::MathScienceEducation,
        &scalars(),
        &snapshot(),
        CorridorDecision::Downscale,
        CorridorReason::JusticeBandBreached,
        "ab",
    );
    let mut expected: Vec<u8> = Vec::new();
    expected.extend_from_slice(&[8, 7, 6, 5, 4, 3, 2, 1]);
    expected.extend_from_slice(&[0x44, 0x33, 0x22, 0x11]);
    expected.push(2);
    for v in 1u8..=12 {
        expected.extend_from_slice(&[v, 0, 0, 0, 0, 0, 0, 0]);
    }
    expected.extend_from_slice(&[0xff; 8]);
    expected.extend_from_slice(&[0xfe, 0xff, 0xff, 0xff, 0xff, 0xff, 0xff, 0xff]);
    expected.push(1);
    expected.push(2);
    expected.extend_from_slice(&[0x0d, 0x0c, 0x0b, 0x0a]);
    expected.extend_from_slice(&[0, 1, 0, 0, 0, 0, 0, 0]);
    expected.extend_from_slice(&[0, 0, 0, 0, 0, 0, 0, 0x80]);
    expected.extend_from_slice(&[0xff, 0xff, 0xff, 0xff, 0xff, 0xff, 0xff, 0x7f]);
    expected.push(1);
    expected.push(5);
    expected.extend_from_slice(b"ab");
    assert_eq!(bytes.len(), 159);
    assert_eq!(bytes, expected);
}

#[test]
fn verdict_hash_is_the_digest_of_the_layout() {
    let bytes = encode_verdict(
        5,
        6,
        DeedKind::ResourceAid,
        &scalars(),
        &snapshot(),
        CorridorDecision::Allow,
        CorridorReason::Okay,
        "",
    );
    let hash = hash_verdict(
        5,
        6,
        DeedKind::ResourceAid,
        &scalars(),
        &snapshot(),
        CorridorDecision::Allow,
        CorridorReason::Okay,
        "",
    );
    assert_eq!(hash, compute_sha256_hash(&bytes));
    assert_eq!(hash.len(), 64);
    assert!(hash.chars().all(|c| c.is_ascii_digit() || ('a'..='f').contains(&c)));
}

#[test]
fn hash_commits_to_every_field() {
    let base = || {
        hash_verdict(
            5,
            6,
            DeedKind::ResourceAid,
            &scalars(),
            &snapshot(),
            CorridorDecision::Allow,
            CorridorReason::Okay,
            "p",
        )
    };
    let reference = base();
    assert_eq!(reference, base());
    let mut s = scalars();
    s.erg_after += 1;
    let mut j = snapshot();
    j.hpcc += 1;
    let variants = vec![
        hash_verdict(4, 6, DeedKind::ResourceAid, &scalars(), &snapshot(), CorridorDecision::Allow, CorridorReason::Okay, "p"),
        hash_verdict(5, 7, DeedKind::ResourceAid, &scalars(), &snapshot(), CorridorDecision::Allow, CorridorReason::Okay, "p"),
        hash_verdict(5, 6, DeedKind::EcologicalSharing, &scalars(), &snapshot(), CorridorDecision::Allow, CorridorReason::Okay, "p"),
        hash_verdict(5, 6, DeedKind::ResourceAid, &s, &snapshot(), CorridorDecision::Allow, CorridorReason::Okay, "p"),
        hash_verdict(5, 6, DeedKind::ResourceAid, &scalars(), &j, CorridorDecision::Allow, CorridorReason::Okay, "p"),
        hash_verdict(5, 6, DeedKind::ResourceAid, &scalars(), &snapshot(), CorridorDecision::Deny, CorridorReason::Okay, "p"),
        hash_verdict(5, 6, DeedKind::ResourceAid, &scalars(), &snapshot(), CorridorDecision::Allow, CorridorReason::BioRailExceeded, "p"),
        hash_verdict(5, 6, DeedKind::ResourceAid, &scalars(), &snapshot(), CorridorDecision::Allow, CorridorReason::Okay, "q"),
    ];
    for v in variants {
        assert_ne!(v, reference);
    }
}

#[test]
fn recorded_verdict_keeps_its_inputs() {
    let v = record_verdict(
        5,
        6,
        DeedKind::ResourceAid,
        scalars(),
        snapshot(),
        CorridorDecision::Deny,
        CorridorReason::BioLoadExceeded,
        "prev",
    );
    assert_eq!(v.tick, 5);
    assert_eq!(v.primary_site, 6);
    assert_eq!(v.deed, DeedKind::ResourceAid);
    assert_eq!(v.decision, CorridorDecision::Deny);
    assert_eq!(v.reason, CorridorReason::BioLoadExceeded);
    assert_eq!(v.scalars, scalars());
    assert_eq!(v.justice, snapshot());
    assert_eq!(
        v.hash,
        hash_verdict(
            5,
            6,
            DeedKind::ResourceAid,
            &scalars(),
            &snapshot(),
            CorridorDecision::Deny,
            CorridorReason::BioLoadExceeded,
            "prev",
        )
    );
}
