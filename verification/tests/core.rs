use unik::layout::Layout;
use unik::{Node, ParseError, Timestamp, Variant, Version, UUID};

#[test]
fn uuid_default_value() {
    let uuid = UUID::default();
    assert_eq!(uuid, UUID([0; 16]));
    assert_eq!(uuid.0, [0u8; 16]);
}

#[test]
fn uuid_convert() {
    let uuid = UUID::default();
    let into: [u8; 16] = uuid.into();
    assert_eq!(into, [0u8; 16]);

    let uuid = UUID::from([0u8; 16]);
    assert_eq!(uuid, UUID::default())
}

#[test]
fn uuid_derive() {
    let default = UUID::default();
    let from = UUID::from([u8::MAX; 16]);

    assert_eq!(default, default);
    assert_eq!(from, from);

    assert_ne!(default, from);
    assert_ne!(from, default);

    let copy = default;
    assert_eq!(copy, UUID([0u8; 16]));

    let clone = default.clone();
    assert_eq!(clone, UUID([0u8; 16]));
}

#[test]
fn uuid_format() {
    let uuid = UUID::default();
    let mut buffer = String::new();

    buffer.clear();
    buffer = format!("{}", uuid.to_canonical_string(false));
    assert!(buffer.len() == 36);
    assert!(
        buffer.chars().all(|c| c.is_lowercase() || c.is_digit(10) || c == '-'),
        "{}",
        buffer
    );

    buffer.clear();
    buffer = format!("{}", uuid.to_canonical_string(false).to_lowercase());
    assert!(buffer.len() == 36);
    assert!(
        buffer.chars().all(|c| c.is_lowercase() || c.is_digit(10) || c == '-'),
        "{}",
        buffer
    );

    buffer.clear();
    buffer = format!("{}", uuid.to_canonical_string(false).to_uppercase());
    assert!(buffer.len() == 36);
    assert!(
        buffer.chars().all(|c| c.is_uppercase() || c.is_digit(10) || c == '-'),
        "{}",
        buffer
    );
}

#[test]
fn layout_from_timstamp() {
    let mut utc = Timestamp::UTC(0x1234);
    let mut layout = Layout::from(utc);
    assert_eq!(layout.get_timestamp(), 0x1234);
    assert_eq!(layout.get_timestamp().to_le_bytes()[0], 0x34);
    assert_eq!(layout.get_timestamp().to_le_bytes()[1], 0x12);

    utc = Timestamp::UTC(u64::MIN);
    layout = Layout::from(utc);
    assert_eq!(layout.get_timestamp(), u64::MIN);

    // The layout only has room for the 60 timestamp bits; the top nibble
    // belongs to the version tag.
    utc = Timestamp::UTC(u64::MAX);
    layout = Layout::from(utc);
    assert_eq!(layout.get_timestamp(), u64::MAX & 0x0fff_ffff_ffff_ffff)
}

#[test]
fn layout_from_node() {
    let layout = Layout::from(Node::from([u8::MIN; 6]));
    assert_eq!(layout.node.0, [u8::MIN; 6]);

    let layout = Layout::from(Node::from([u8::MAX; 6]));
    assert_eq!(layout.node.0, [u8::MAX; 6])
}

#[test]
fn convert_layout_into_raw_bytes() {
    let uuids = [
        "ab720268-b83f-11ec-b909-0242ac120002",
        "000003e8-c22b-21ec-bd01-d4bed9408ecc",
        "17d040bd-44d6-3dab-8c26-724978b6a91d",
        "6a665038-24cf-4cf6-9b61-05f0c2fc6c08",
        "498f67a8-ebc5-5299-aa33-7c358b9c60e8",
    ];
    let versions = [
        Version::TIME,
        Version::DCE,
        Version::MD5,
        Version::RAND,
        Version::SHA1,
    ];
    let mut uuid;
    for i in 0..4 {
        uuid = UUID::parse(uuids[i]).unwrap();
        assert_eq!(uuid.get_version(), Ok(versions[i]));
        assert_eq!(uuid.get_variant(), Ok(Variant::RFC4122))
    }
}

#[test]
fn from_raw_bytes() {
    let uuid = UUID::parse("ab720268-b83f-41ec-b909-0242ac120002").unwrap();
    println!("{:?}", uuid.get_version());
    assert_eq!(uuid.get_version(), Ok(Version::RAND));
    assert_eq!(uuid.get_variant().unwrap(), Variant::RFC4122);
}

#[test]
fn parse_accepts_both_canonical_forms() {
    let hyphenated = UUID::parse("2448bd95-00ca-364e-960f-3301a691b26c").unwrap();
    let bare = UUID::parse("2448bd9500ca364e960f3301a691b26c").unwrap();
    assert_eq!(hyphenated, bare);

    let upper = UUID::parse("2448BD95-00CA-364E-960F-3301A691B26C").unwrap();
    assert_eq!(upper, hyphenated);

    let padded = UUID::parse("  2448bd95-00ca-364e-960f-3301a691b26c\n").unwrap();
    assert_eq!(padded, hyphenated);
}

#[test]
fn parse_rejects_bad_input() {
    assert_eq!(UUID::parse("not-a-uuid"), Err(ParseError::InvalidLength));
    assert_eq!(
        UUID::parse("gggggggg-gggg-gggg-gggg-gggggggggggg"),
        Err(ParseError::InvalidHexDigit)
    );
    // A hyphen off its place is a structural fault, not a hex fault.
    assert_eq!(
        UUID::parse("ab720268b-83f-11ec-b909-0242ac120002"),
        Err(ParseError::InvalidCharacter)
    );
    // The bare form admits no separators at all: this input is 32 bytes
    // long but one of them is a hyphen.
    assert_eq!(
        UUID::parse("2448bd95-0ca364e960f3301a691b26c"),
        Err(ParseError::InvalidCharacter)
    );
    assert_eq!(UUID::parse(""), Err(ParseError::InvalidLength));
    assert_eq!(
        UUID::parse("2448bd9500ca364e960f3301a691b26crr"),
        Err(ParseError::InvalidLength)
    );
}

#[test]
fn canonical_string_round_trip() {
    let samples = [
        "ab720268-b83f-11ec-b909-0242ac120002",
        "000003e8-c22b-21ec-bd01-d4bed9408ecc",
        "17d040bd-44d6-3dab-8c26-724978b6a91d",
        "6a665038-24cf-4cf6-9b61-05f0c2fc6c08",
        "498f67a8-ebc5-5299-aa33-7c358b9c60e8",
        "00000000-0000-0000-0000-000000000000",
        "ffffffff-ffff-ffff-ffff-ffffffffffff",
    ];
    for s in samples.iter() {
        let uuid = UUID::parse(s).unwrap();
        let lower = uuid.to_canonical_string(false);
        assert_eq!(&lower, s);
        assert_eq!(UUID::parse(&lower).unwrap(), uuid);
        let upper = uuid.to_canonical_string(true);
        assert_eq!(upper, s.to_uppercase());
        assert_eq!(UUID::parse(&upper).unwrap(), uuid);
    }
}

#[test]
fn get_node_returns_last_six_bytes() {
    let uuid = UUID::parse("ab720268-b83f-11ec-b909-0242ac120002").unwrap();
    assert_eq!(uuid.get_node(), Node([0x02, 0x42, 0xac, 0x12, 0x00, 0x02]));
}

#[test]
fn namespace_values_match_the_published_ones() {
    assert_eq!(
        UUID::namespace_dns().to_canonical_string(false),
        "6ba7b810-9dad-11d1-80b4-00c04fd430c8"
    );
    assert_eq!(
        UUID::namespace_url().to_canonical_string(false),
        "6ba7b811-9dad-11d1-80b4-00c04fd430c8"
    );
    assert_eq!(
        UUID::namespace_oid().to_canonical_string(false),
        "6ba7b812-9dad-11d1-80b4-00c04fd430c8"
    );
    assert_eq!(
        UUID::namespace_x500().to_canonical_string(false),
        "6ba7b814-9dad-11d1-80b4-00c04fd430c8"
    );
}

#[test]
fn node_renders_as_hyphenated_hex_pairs() {
    let node = Node([0xab, 0xcd, 0x01, 0x23, 0x45, 0xff]);
    assert_eq!(node.to_canonical_string(), "ab-cd-01-23-45-ff");
    assert_eq!(Node([0u8; 6]).to_canonical_string(), "00-00-00-00-00-00");
}

#[test]
fn timestamp_conversion_is_exact() {
    assert_eq!(Timestamp::from_unix_nanos(0).get(), 0x01B2_1DD2_1381_4000);
    assert_eq!(
        Timestamp::from_unix_nanos(250).get(),
        0x01B2_1DD2_1381_4000 + 2
    );
    assert_eq!(Timestamp::UTC(42).get(), 42);
}
