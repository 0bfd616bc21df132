//! The codecs of single fields, and the JSON tree that they sit on.
use tweet::util::decimal::decimal_text;
use tweet::{
    checked_instant, datefmt_de, datefmt_ser, Cause, Json, JsonNumber, MalformedPayload, MediaType,
    Timestamp, Wire,
};

fn format_fault() -> MalformedPayload {
    MalformedPayload { path: vec![], cause: Cause::FormatMismatch }
}

#[test]
fn timestamp_decodes_to_its_instant() {
    assert_eq!(
        datefmt_de("Wed Oct 10 20:19:24 +0000 2018"),
        Ok(Timestamp { seconds: 1539202764, nanos: 0 })
    );
    assert_eq!(datefmt_de("Thu Jan  1 00:00:00 +0000 1970"), Ok(Timestamp { seconds: 0, nanos: 0 }));
}

#[test]
fn timestamp_encodes_in_the_fixed_layout() {
    assert_eq!(
        datefmt_ser(&Timestamp { seconds: 1539202764, nanos: 0 }),
        Some("Wed Oct 10 20:19:24 +0000 2018".to_string())
    );
    assert_eq!(
        datefmt_ser(&Timestamp { seconds: 1546398245, nanos: 0 }),
        Some("Wed Jan  2 03:04:05 +0000 2019".to_string())
    );
    assert_eq!(
        datefmt_ser(&Timestamp { seconds: -1, nanos: 999_999_999 }),
        Some("Wed Dec 31 23:59:59 +0000 1969".to_string())
    );
}

#[test]
fn timestamp_survives_decode_and_encode() {
    for text in [
        "Wed Oct 10 20:19:24 +0000 2018",
        "Wed May 23 06:01:13 +0000 2007",
        "Wed Jan  2 03:04:05 +0000 2019",
        "Sat Dec 31 23:59:59 +0000 2016",
    ] {
        let date = datefmt_de(text).unwrap();
        assert_eq!(datefmt_ser(&date), Some(text.to_string()));
    }
}

#[test]
fn timestamp_that_is_not_written_exactly_is_refused() {
    for text in [
        "",
        "yesterday",
        "2018-10-10T20:19:24Z",
        "Wed Oct 10 20:19:24 2018",
        "Thu Oct 10 20:19:24 +0000 2018",
        "Wed Oct 10 20:19:24 +0100 2018",
        "Wed Oct 32 20:19:24 +0000 2018",
        "Wed Oct 10 24:19:24 +0000 2018",
        "Wed Oct 10 20:19:24 +0000 2018 ",
        "Wed Jan 02 03:04:05 +0000 2019",
        "wed oct 10 20:19:24 +0000 2018",
        "Wed Oct 10 20:19:24 +00:00 2018",
        "Wed  Oct 10 20:19:24 +0000 2018",
    ] {
        assert_eq!(datefmt_de(text), Err(format_fault()), "{text:?}");
    }
}

#[test]
fn instant_without_a_date_is_not_written() {
    assert_eq!(datefmt_ser(&Timestamp { seconds: i64::MAX, nanos: 0 }), None);
    assert_eq!(datefmt_ser(&Timestamp { seconds: i64::MIN, nanos: 0 }), None);
    assert_eq!(datefmt_ser(&Timestamp { seconds: 0, nanos: 2_000_000_000 }), None);
}

#[test]
fn timestamp_field_is_a_string_in_the_layout() {
    assert_eq!(
        Timestamp::decode(&Json::String("Wed Oct 10 20:19:24 +0000 2018".to_string())),
        Ok(Timestamp { seconds: 1539202764, nanos: 0 })
    );
    assert_eq!(
        Timestamp::decode(&Json::Number(JsonNumber::Int(1539202764))),
        Err(MalformedPayload { path: vec![], cause: Cause::TypeMismatch })
    );
    assert_eq!(Timestamp::decode(&Json::String("soon".to_string())), Err(format_fault()));
    assert_eq!(
        Timestamp { seconds: 1539202764, nanos: 0 }.encode(),
        Some(Json::String("Wed Oct 10 20:19:24 +0000 2018".to_string()))
    );
}

#[test]
fn media_kind_is_told_by_its_name() {
    assert_eq!(MediaType::from_name("photo"), MediaType::Photo);
    assert_eq!(MediaType::from_name("gif"), MediaType::Gif);
    assert_eq!(MediaType::from_name("video"), MediaType::Video);
    assert_eq!(MediaType::from_name("panorama"), MediaType::Unknown("panorama".to_string()));
    assert_eq!(MediaType::from_name("Photo"), MediaType::Unknown("Photo".to_string()));
    assert_eq!(MediaType::from_name(""), MediaType::Unknown(String::new()));
}

#[test]
fn media_kind_is_written_as_its_name() {
    assert_eq!(MediaType::Photo.name(), "photo");
    assert_eq!(MediaType::Gif.name(), "gif");
    assert_eq!(MediaType::Video.name(), "video");
    assert_eq!(MediaType::Unknown("panorama".to_string()).name(), "panorama");
    for name in ["photo", "gif", "video", "panorama", "VIDEO", ""] {
        assert_eq!(MediaType::from_name(name).name(), name);
    }
}

#[test]
fn media_kind_field_is_a_string() {
    assert_eq!(MediaType::decode(&Json::String("gif".to_string())), Ok(MediaType::Gif));
    assert_eq!(
        MediaType::decode(&Json::Null),
        Err(MalformedPayload { path: vec![], cause: Cause::TypeMismatch })
    );
    assert_eq!(MediaType::Video.encode(), Some(Json::String("video".to_string())));
}

#[test]
fn number_is_written_in_decimal() {
    assert_eq!(decimal_text(0), "0");
    assert_eq!(decimal_text(7), "7");
    assert_eq!(decimal_text(10), "10");
    assert_eq!(decimal_text(1050118621198921728), "1050118621198921728");
    assert_eq!(decimal_text(u64::MAX), "18446744073709551615");
}

#[test]
fn json_text_parses_to_a_tree() {
    let tree = Json::parse(r#" {"b": [1, -2, 2.5, 1e3, null, true], "a": "x\ny", "c": {}} "#).unwrap();
    assert_eq!(
        tree,
        Json::Object(vec![
            ("a".to_string(), Json::String("x\ny".to_string())),
            (
                "b".to_string(),
                Json::Array(vec![
                    Json::Number(JsonNumber::Int(1)),
                    Json::Number(JsonNumber::Int(-2)),
                    Json::Number(JsonNumber::Real("2.5".to_string())),
                    Json::Number(JsonNumber::Real("1000.0".to_string())),
                    Json::Null,
                    Json::Bool(true),
                ])
            ),
            ("c".to_string(), Json::Object(vec![])),
        ])
    );
    assert_eq!(Json::parse("18446744073709551615"), Some(Json::Number(JsonNumber::Int(u64::MAX as i128))));
    assert_eq!(Json::parse("-9223372036854775808"), Some(Json::Number(JsonNumber::Int(i64::MIN as i128))));
}

#[test]
fn text_that_is_not_json_does_not_parse() {
    assert_eq!(Json::parse(""), None);
    assert_eq!(Json::parse("{"), None);
    assert_eq!(Json::parse("{} {}"), None);
    assert_eq!(Json::parse("{'a': 1}"), None);
    assert_eq!(Json::parse("NaN"), None);
}

#[test]
fn tree_is_written_as_json_text() {
    let tree = Json::Object(vec![
        ("b".to_string(), Json::Array(vec![Json::Number(JsonNumber::Int(-2)), Json::Null])),
        ("a".to_string(), Json::String("x\"y".to_string())),
        ("r".to_string(), Json::Number(JsonNumber::Real("2.5".to_string()))),
        ("t".to_string(), Json::Bool(false)),
    ]);
    assert_eq!(
        tree.render(),
        Some(r#"{"a":"x\"y","b":[-2,null],"r":2.5,"t":false}"#.to_string())
    );
    assert_eq!(Json::Null.render(), Some("null".to_string()));
}

#[test]
fn lookup_takes_the_last_member_of_a_name() {
    let members = vec![
        ("a".to_string(), Json::Bool(true)),
        ("b".to_string(), Json::Null),
        ("a".to_string(), Json::Bool(false)),
    ];
    assert_eq!(tweet::json::get(&members, "a"), Some(&Json::Bool(false)));
    assert_eq!(tweet::json::get(&members, "b"), Some(&Json::Null));
    assert_eq!(tweet::json::get(&members, "c"), None);
    assert_eq!(tweet::json::get(&members, "A"), None);
}

#[test]
fn integers_decode_within_their_range() {
    assert_eq!(u64::decode(&Json::Number(JsonNumber::Int(0))), Ok(0));
    assert_eq!(u64::decode(&Json::Number(JsonNumber::Int(u64::MAX as i128))), Ok(u64::MAX));
    assert!(u64::decode(&Json::Number(JsonNumber::Int(u64::MAX as i128 + 1))).is_err());
    assert!(u64::decode(&Json::Number(JsonNumber::Int(-1))).is_err());
    assert_eq!(u32::decode(&Json::Number(JsonNumber::Int(u32::MAX as i128))), Ok(u32::MAX));
    assert!(u32::decode(&Json::Number(JsonNumber::Int(u32::MAX as i128 + 1))).is_err());
    assert!(u32::decode(&Json::Number(JsonNumber::Real("1.0".to_string()))).is_err());
    assert!(u32::decode(&Json::String("1".to_string())).is_err());
    assert_eq!(7u32.encode(), Some(Json::Number(JsonNumber::Int(7))));
    assert_eq!(u64::MAX.encode(), Some(Json::Number(JsonNumber::Int(u64::MAX as i128))));
}

#[test]
fn sequences_and_pairs_decode_item_by_item() {
    let items = Json::Array(vec![Json::Number(JsonNumber::Int(3)), Json::Number(JsonNumber::Int(4))]);
    assert_eq!(Vec::<u32>::decode(&items), Ok(vec![3, 4]));
    assert_eq!(<(u32, u32)>::decode(&items), Ok((3, 4)));
    assert_eq!(Vec::<u32>::decode(&Json::Array(vec![])), Ok(vec![]));
    assert_eq!(vec![3u32, 4].encode(), Some(items));
    let mixed = Json::Array(vec![Json::Number(JsonNumber::Int(3)), Json::Bool(true), Json::Null]);
    assert_eq!(
        Vec::<u32>::decode(&mixed),
        Err(MalformedPayload { path: vec![tweet::Step::Index(1)], cause: Cause::TypeMismatch })
    );
}

#[test]
fn instant_with_a_fraction_comes_back_without_it() {
    let written = datefmt_ser(&Timestamp { seconds: 1539202764, nanos: 500_000_000 }).unwrap();
    assert_eq!(written, "Wed Oct 10 20:19:24 +0000 2018");
    assert_eq!(datefmt_de(&written), Ok(Timestamp { seconds: 1539202764, nanos: 0 }));
}

#[test]
fn day_below_ten_is_written_with_a_space_and_read_so() {
    let second_of_january = Timestamp { seconds: 1546398245, nanos: 0 };
    assert_eq!(
        datefmt_ser(&second_of_january),
        Some("Wed Jan  2 03:04:05 +0000 2019".to_string())
    );
    assert_eq!(datefmt_de("Wed Jan  2 03:04:05 +0000 2019"), Ok(second_of_january));
    assert_eq!(datefmt_de("Wed Jan 02 03:04:05 +0000 2019"), Err(format_fault()));
    assert_eq!(datefmt_de("Wed Jan 2 03:04:05 +0000 2019"), Err(format_fault()));
    assert_eq!(
        datefmt_ser(&Timestamp { seconds: 1546398245 + 7 * 86400, nanos: 0 }),
        Some("Wed Jan  9 03:04:05 +0000 2019".to_string())
    );
    assert_eq!(
        datefmt_ser(&Timestamp { seconds: 1546398245 + 8 * 86400, nanos: 0 }),
        Some("Thu Jan 10 03:04:05 +0000 2019".to_string())
    );
}

#[test]
fn instant_is_taken_where_it_is_written_as_the_text() {
    let text = "Wed Oct 10 20:19:24 +0000 2018";
    assert_eq!(
        checked_instant(text, (1539202764, 0), Some(text)),
        Ok(Timestamp { seconds: 1539202764, nanos: 0 })
    );
    assert_eq!(checked_instant(text, (7, 8), Some(text)), Ok(Timestamp { seconds: 7, nanos: 8 }));
    assert_eq!(
        checked_instant("Wed Jan 02 03:04:05 +0000 2019", (1546398245, 0), Some("Wed Jan  2 03:04:05 +0000 2019")),
        Err(format_fault())
    );
    assert_eq!(checked_instant(text, (1539202764, 0), None), Err(format_fault()));
    assert_eq!(checked_instant("", (0, 0), Some("")), Ok(Timestamp { seconds: 0, nanos: 0 }));
}

#[test]
fn tree_with_a_number_that_serde_json_has_not_is_not_written() {
    let least = Json::Number(JsonNumber::Int(i64::MIN as i128));
    let most = Json::Number(JsonNumber::Int(u64::MAX as i128));
    assert_eq!(least.render(), Some("-9223372036854775808".to_string()));
    assert_eq!(most.render(), Some("18446744073709551615".to_string()));
    let below = Json::Number(JsonNumber::Int(i64::MIN as i128 - 1));
    let above = Json::Number(JsonNumber::Int(u64::MAX as i128 + 1));
    assert!(!below.is_writable());
    assert!(!above.is_writable());
    assert_eq!(below.render(), None);
    assert_eq!(above.render(), None);
    for text in ["", "abc", "1.", "--1", "1e999", "NaN", " 1"] {
        let real = JsonNumber::Real(text.to_string());
        assert!(!real.is_writable(), "{text:?}");
        assert_eq!(Json::Number(real).render(), None, "{text:?}");
    }
    for text in ["2.5", "-0.0", "1e300", "1000.0", "7"] {
        assert!(JsonNumber::Real(text.to_string()).is_writable(), "{text:?}");
    }
    let deep = Json::Object(vec![(
        "a".to_string(),
        Json::Array(vec![Json::Null, Json::Number(JsonNumber::Real("x".to_string()))]),
    )]);
    assert!(!deep.is_writable());
    assert_eq!(deep.render(), None);
    let fine = Json::Object(vec![(
        "a".to_string(),
        Json::Array(vec![Json::Null, Json::Number(JsonNumber::Real("0.5".to_string()))]),
    )]);
    assert!(fine.is_writable());
    assert_eq!(fine.render(), Some(r#"{"a":[null,0.5]}"#.to_string()));
}

#[test]
fn number_field_takes_what_can_be_written_again() {
    assert_eq!(
        JsonNumber::decode(&Json::Number(JsonNumber::Real("2.5".to_string()))),
        Ok(JsonNumber::Real("2.5".to_string()))
    );
    assert_eq!(JsonNumber::decode(&Json::Number(JsonNumber::Int(-3))), Ok(JsonNumber::Int(-3)));
    assert_eq!(
        JsonNumber::decode(&Json::Number(JsonNumber::Real("north".to_string()))),
        Err(MalformedPayload { path: vec![], cause: Cause::TypeMismatch })
    );
    assert_eq!(
        JsonNumber::decode(&Json::String("2.5".to_string())),
        Err(MalformedPayload { path: vec![], cause: Cause::TypeMismatch })
    );
    assert_eq!(JsonNumber::Int(u64::MAX as i128 + 1).encode(), None);
    assert_eq!(JsonNumber::Int(5).encode(), Some(Json::Number(JsonNumber::Int(5))));
}

#[test]
fn instants_of_whole_seconds_survive_the_wire() {
    for seconds in [0, 1, 59, 1539202764, 1546398245, 253402300799, -1, -62135596800] {
        assert!(Timestamp { seconds, nanos: 0 }.survives(), "{seconds}");
    }
    assert!(!Timestamp { seconds: 1539202764, nanos: 1 }.survives());
    assert!(!Timestamp { seconds: i64::MAX, nanos: 0 }.survives());
}
