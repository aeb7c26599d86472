use unik::clock::ClockSeq;
use unik::layout::Layout;
use unik::{Node, Variant, Version, UUID};

#[test]
fn pack_unpack_round_trip() {
    let fields = Layout {
        time_low: 0xab72_0268,
        time_mid: 0xb83f,
        time_hi_and_version: 0x11ec,
        clock_seq_hi_and_reserved: 0xb9,
        clock_seq_low: 0x09,
        node: Node([0x02, 0x42, 0xac, 0x12, 0x00, 0x02]),
    };
    let packed = fields.new();
    assert_eq!(
        packed.0,
        [
            0xab, 0x72, 0x02, 0x68, 0xb8, 0x3f, 0x11, 0xec, 0xb9, 0x09, 0x02, 0x42, 0xac, 0x12,
            0x00, 0x02
        ]
    );
    let unpacked = Layout::from_raw_bytes(packed);
    assert_eq!(unpacked, fields);
}

#[test]
fn unpack_pack_round_trip() {
    let uuid = UUID::parse("ab720268-b83f-11ec-b909-0242ac120002").unwrap();
    let repacked = Layout::from_raw_bytes(uuid).new();
    assert_eq!(repacked, uuid);
}

#[test]
fn generated_identifiers_render_and_parse_back() {
    let mut clock = ClockSeq::from_seed(7);
    let samples = [
        UUID::v1(
            unik::Timestamp::UTC(0x1234_5678_9abc),
            Node([1, 2, 3, 4, 5, 6]),
            &mut clock,
        )
            .new(),
        UUID::v2(
            unik::rfc4122::v2::Domain::ORG,
            77,
            unik::Timestamp::UTC(5),
            Node([9; 6]),
            &mut clock,
        )
            .new(),
        UUID::v3("round-trip", UUID::namespace_url()).new(),
        UUID::v4().unwrap().new(),
        UUID::v5("round-trip", UUID::namespace_url()).new(),
    ];
    for uuid in samples.iter() {
        let lower = uuid.to_canonical_string(false);
        assert_eq!(UUID::parse(&lower).unwrap(), *uuid);
        let upper = uuid.to_canonical_string(true);
        assert_eq!(UUID::parse(&upper).unwrap(), *uuid);
    }
}

#[test]
fn every_strategy_tags_version_and_variant() {
    let mut clock = ClockSeq::new().unwrap();
    let v1 = UUID::v1(
        unik::Timestamp::now().unwrap(),
        Node::from([0u8; 6]),
        &mut clock,
    );
    let v2 = UUID::v2(
        unik::rfc4122::v2::Domain::PERSON,
        1,
        unik::Timestamp::now().unwrap(),
        Node::from([0u8; 6]),
        &mut clock,
    );
    let v3 = UUID::v3("tag", UUID::namespace_dns());
    let v4 = UUID::v4().unwrap();
    let v5 = UUID::v5("tag", UUID::namespace_dns());
    let cases = [
        (v1, Version::TIME),
        (v2, Version::DCE),
        (v3, Version::MD5),
        (v4, Version::RAND),
        (v5, Version::SHA1),
    ];
    for (layout, version) in cases.iter() {
        assert_eq!(layout.get_version(), Ok(*version));
        assert_eq!(layout.get_variant(), Ok(Variant::RFC4122));
        let uuid = layout.new();
        assert_eq!(uuid.get_version(), Ok(*version));
        assert_eq!(uuid.get_variant(), Ok(Variant::RFC4122));
    }
}

#[test]
fn name_based_generation_is_deterministic() {
    let first = UUID::v3("determinism", UUID::namespace_dns());
    let second = UUID::v3("determinism", UUID::namespace_dns());
    assert_eq!(first.new(), second.new());

    let first = UUID::v5("determinism", UUID::namespace_dns());
    let second = UUID::v5("determinism", UUID::namespace_dns());
    assert_eq!(first.new(), second.new());
}

#[test]
fn v3_dns_test_fixture() {
    let uuid = UUID::v3("test", UUID::namespace_dns()).new();
    assert_eq!(
        uuid.0,
        [
            0x24, 0x48, 0xbd, 0x95, 0x00, 0xca, 0x36, 0x4e, 0x96, 0x0f, 0x33, 0x01, 0xa6, 0x91,
            0xb2, 0x6c
        ]
    );
    assert_eq!(
        uuid.to_canonical_string(false),
        "2448bd95-00ca-364e-960f-3301a691b26c"
    );
    assert_eq!(uuid.get_version(), Ok(Version::MD5));
    assert_eq!(uuid.get_variant(), Ok(Variant::RFC4122));
}

#[test]
fn v5_dns_test_fixture() {
    let uuid = UUID::v5("test", UUID::namespace_dns()).new();
    assert_eq!(
        uuid.to_canonical_string(false),
        "4db109b9-c40e-5570-806b-af077eb8645e"
    );
    assert_eq!(uuid.get_version(), Ok(Version::SHA1));
    assert_eq!(uuid.get_variant(), Ok(Variant::RFC4122));
}

#[test]
fn parsing_pinned_time_based_string() {
    let uuid = UUID::parse("ab720268-b83f-11ec-b909-0242ac120002").unwrap();
    assert_eq!(uuid.get_version(), Ok(Version::TIME));
}

#[test]
fn parsing_pinned_dce_string() {
    let uuid = UUID::parse("000003e8-c22b-21ec-bd01-d4bed9408ecc").unwrap();
    assert_eq!(uuid.get_version(), Ok(Version::DCE));
}

#[test]
fn ten_thousand_random_identifiers_do_not_collide() {
    let mut seen: Vec<[u8; 16]> = Vec::with_capacity(10_000);
    for _ in 0..10_000 {
        seen.push(UUID::v4().unwrap().new().0);
    }
    seen.sort();
    for pair in seen.windows(2) {
        assert_ne!(pair[0], pair[1]);
    }
}

#[test]
fn clock_sequence_draws_are_pairwise_distinct() {
    let mut clock = ClockSeq::from_seed(0x3ffe);
    let mut draws: Vec<u16> = Vec::with_capacity(1000);
    for _ in 0..1000 {
        draws.push(clock.next());
    }
    let mut sorted = draws.clone();
    sorted.sort();
    for pair in sorted.windows(2) {
        assert_ne!(pair[0] % 0x4000, pair[1] % 0x4000);
    }
    // The counter wraps at 14 bits.
    assert_eq!(draws[0], 0x3ffe);
    assert_eq!(draws[1], 0x3fff);
    assert_eq!(draws[2], 0);
}

#[test]
fn clock_sequence_seed_is_masked_and_rendered_little_endian() {
    let clock = ClockSeq::from_seed(0xffff);
    assert_eq!(clock.to_le_bytes(), [0xff, 0x3f]);

    let clock = ClockSeq::from_seed(0x1234);
    assert_eq!(clock.to_le_bytes(), [0x34, 0x12]);

    assert_eq!(ClockSeq::default().to_le_bytes(), [0, 0]);
}
