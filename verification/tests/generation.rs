use unik::clock::ClockSeq;
use unik::layout::Layout;
use unik::rfc4122::v2::Domain;
use unik::{DecodeError, Node, Timestamp, Variant, Version, UUID};

#[test]
fn uuid_default() {
    let mut clock = ClockSeq::new().unwrap();
    let uuid = UUID::v1(Timestamp::now().unwrap(), Node::from([0u8; 6]), &mut clock).new();
    assert_eq!(uuid.get_version(), Ok(Version::TIME));
    assert_eq!(uuid.get_variant(), Ok(Variant::RFC4122));
}

#[test]
fn layout_from_raw_bytes() {
    let mut clock = ClockSeq::new().unwrap();
    let uuid = UUID::v1(Timestamp::now().unwrap(), Node::from([0u8; 6]), &mut clock).new();
    let layout = Layout::from_raw_bytes(uuid);

    assert_eq!(layout.get_version(), Ok(Version::TIME));
    assert_eq!(layout.get_variant(), Ok(Variant::RFC4122));
}

#[test]
fn uuid_with_predef_timestamp() {
    let mut clock = ClockSeq::new().unwrap();
    let layout = UUID::v1(
        Timestamp::UTC(1234_5678_u64),
        Node::from([u8::MIN; 6]),
        &mut clock,
    );
    assert_eq!(layout.get_timestamp(), 1234_5678_u64);
    assert_eq!(layout.get_version(), Ok(Version::TIME));
    assert_eq!(layout.get_variant(), Ok(Variant::RFC4122));
}

#[test]
fn get_timestamp_from_parsed_string() {
    let mut clock = ClockSeq::new().unwrap();
    let layout = UUID::v1(
        Timestamp::UTC(1234_5678_u64),
        Node::from([u8::MIN; 6]),
        &mut clock,
    );

    let rendered = layout.new().to_canonical_string(false);
    assert_eq!(
        1234_5678_u64,
        Layout::from_raw_bytes(UUID::parse(rendered.as_str()).unwrap()).get_timestamp()
    );
}

#[test]
fn uuid_new_v1() {
    let mut clock = ClockSeq::new().unwrap();
    let layout = UUID::v1(Timestamp::UTC(1234_5678), Node::from([u8::MAX; 6]), &mut clock);

    assert_eq!(layout.get_timestamp(), 1234_5678_u64);
    assert_eq!(layout.get_version(), Ok(Version::TIME));
    assert_eq!(layout.get_variant(), Ok(Variant::RFC4122));

    let cloned = layout.clone();
    assert!(cloned == layout);
}

#[test]
fn uuid_dce_org() {
    let mut clock = ClockSeq::new().unwrap();
    let uuid = UUID::v2(
        Domain::PERSON,
        1000,
        Timestamp::now().unwrap(),
        Node::from([0u8; 6]),
        &mut clock,
    )
        .new();
    assert_eq!(uuid.get_version(), Ok(Version::DCE));
    assert_eq!(uuid.get_variant(), Ok(Variant::RFC4122));
    assert_eq!(uuid.get_domain(), Ok(Domain::PERSON));
}

#[test]
fn uuid_new_v2() {
    let mut clock = ClockSeq::new().unwrap();
    let layout = UUID::v2(
        Domain::PERSON,
        1000,
        Timestamp::now().unwrap(),
        Node::from([u8::MAX; 6]),
        &mut clock,
    );

    assert_eq!(layout.get_version(), Ok(Version::DCE));
    assert_eq!(layout.get_variant(), Ok(Variant::RFC4122));
}

#[test]
fn dce_layout_carries_id_and_domain() {
    let mut clock = ClockSeq::new().unwrap();
    let layout = UUID::v2(
        Domain::GROUP,
        0x0102_0304,
        Timestamp::UTC(0),
        Node::from([0u8; 6]),
        &mut clock,
    );
    assert_eq!(layout.time_low, 0x0102_0304);
    let uuid = layout.new();
    assert_eq!(uuid.0[0..4], [0x01, 0x02, 0x03, 0x04]);
    assert_eq!(uuid.get_domain(), Ok(Domain::GROUP));
}

#[test]
fn unrecognized_tags_are_reported() {
    let uuid = UUID::parse("00000000-0000-0000-0003-000000000000").unwrap();
    assert_eq!(uuid.get_version(), Err(DecodeError::UnrecognizedVersion));
    assert_eq!(uuid.get_domain(), Err(DecodeError::UnrecognizedDomain));
    // The all-zero identifier carries the NCS variant pattern.
    assert_eq!(UUID::default().get_variant(), Ok(Variant::NCS));
}

#[test]
fn uuid_using_hash_sha1() {
    let namespace = [
        UUID::namespace_dns(),
        UUID::namespace_oid(),
        UUID::namespace_url(),
        UUID::namespace_x500(),
    ];

    for &ns in namespace.iter() {
        assert_eq!(UUID::v3("test", ns).get_version(), Ok(Version::MD5));
        assert_eq!(UUID::v3("test", ns).get_variant(), Ok(Variant::RFC4122));
    }
}

#[test]
fn v3_uuid_using_hash_sha1() {
    let nss = [
        UUID::namespace_dns(),
        UUID::namespace_oid(),
        UUID::namespace_url(),
        UUID::namespace_x500(),
    ];

    for &ns in nss.iter() {
        assert_eq!(UUID::v3("test", ns).get_version(), Ok(Version::MD5));
        assert_eq!(UUID::v3("test", ns).get_variant(), Ok(Variant::RFC4122));
    }
}

#[test]
fn v5_new_uuid_using_md5() {
    let nss = [
        UUID::namespace_dns(),
        UUID::namespace_oid(),
        UUID::namespace_url(),
        UUID::namespace_x500(),
    ];

    for &ns in nss.iter() {
        let uuid = UUID::v5("test", ns).new();
        assert_eq!(uuid.get_version(), Ok(Version::SHA1));
        assert_eq!(uuid.get_variant(), Ok(Variant::RFC4122));
    }
}

#[test]
fn uuid_from_random() {
    let uuid = UUID::v4().unwrap();

    assert_eq!(uuid.get_version(), Ok(Version::RAND));
    assert_eq!(uuid.get_variant(), Ok(Variant::RFC4122));
}

#[test]
fn v4_uuid_from_random() {
    let uuid = UUID::v4().unwrap().new();
    assert_eq!(uuid.get_version(), Ok(Version::RAND));
    assert_eq!(uuid.get_variant(), Ok(Variant::RFC4122));
}

#[test]
fn new_from_rand() {
    let uuid = UUID::v4().unwrap();

    assert_eq!(uuid.get_version(), Ok(Version::RAND));
    assert_eq!(uuid.get_variant(), Ok(Variant::RFC4122));
}
