use ncm_parser::decimal::{digit_text, parse_u64, u64_text};
use ncm_parser::envelope::{document_of, key_material_of, strip_prefix, unwrap_key, unwrap_metadata};
use ncm_parser::json::{JsonNumber, JsonValue};
use ncm_parser::segment::{length_of, read_segment_iter, read_segment_reader};
use ncm_parser::{ByteIter, ByteReader, NCMMetadata, ParseError};

const FIELDS: [(&str, &str); 17] = [
    ("musicId", "\"98765432109876543210\""),
    ("musicName", "\"Name\""),
    ("artist", "[[\"One\",11],[\"Two\",\"22\",\"more\"]]"),
    ("albumId", "\"33\""),
    ("album", "\"Album\""),
    ("albumPicDocId", "\"109951163\""),
    ("albumPic", "\"https://p.example/cover.png\""),
    ("bitrate", "999000"),
    ("mp3DocId", "\"abcdef\""),
    ("duration", "215000"),
    ("mvId", "\"5501\""),
    ("alias", "[\"a1\",\"a2\"]"),
    ("transNames", "[\"t1\"]"),
    ("format", "\"flac\""),
    ("fee", "8"),
    ("privilege", "{\"flag\":4}"),
    ("unread", "[null,{\"deep\":[1.5,-2]}]"),
];

fn document(skip: &str, more: &[(&str, &str)]) -> String {
    let members: Vec<String> = FIELDS
        .iter()
        .filter(|field| field.0 != skip)
        .chain(more.iter())
        .map(|field| format!("\"{}\":{}", field.0, field.1))
        .collect();
    format!("{{{}}}", members.join(","))
}

fn full() -> String {
    document("", &[])
}

fn without(field: &str) -> String {
    document(field, &[])
}

fn with(field: &str, value: &str) -> String {
    document(field, &[(field, value)])
}

fn failure(document: &str) -> Option<ParseError> {
    NCMMetadata::new(document.as_bytes()).err()
}

#[test]
fn full_record_is_read() {
    let record = NCMMetadata::new(full().as_bytes()).unwrap();
    assert_eq!(record.music_id, "98765432109876543210");
    assert_eq!(record.music_name, "Name");
    assert_eq!(record.artists, vec![("One".to_string(), 11), ("Two".to_string(), 22)]);
    assert_eq!(record.album_id, 33);
    assert_eq!(record.album_name, "Album");
    assert_eq!(record.album_pic_doc_id, 109951163);
    assert_eq!(record.album_pic_url, "https://p.example/cover.png");
    assert_eq!(record.bitrate, 999000);
    assert_eq!(record.mp3_doc_id, Some("abcdef".to_string()));
    assert_eq!(record.duration, 215000);
    assert_eq!(record.mv_id, 5501);
    assert_eq!(record.alias, vec!["a1".to_string(), "a2".to_string()]);
    assert_eq!(record.trans_names, vec!["t1".to_string()]);
    assert_eq!(record.format, "flac");
    assert_eq!(record.fee, Some(8));
    assert_eq!(record.flag, Some(4));
}

#[test]
fn record_is_read_from_a_tree() {
    let members = |id: JsonValue| {
        vec![
            ("musicName".to_string(), JsonValue::Text("N".to_string())),
            ("musicId".to_string(), id),
            ("artist".to_string(), JsonValue::List(vec![])),
            ("albumId".to_string(), JsonValue::Number(JsonNumber::Unsigned(1))),
            ("album".to_string(), JsonValue::Text("A".to_string())),
            ("albumPicDocId".to_string(), JsonValue::Text("+2".to_string())),
            ("albumPic".to_string(), JsonValue::Text("u".to_string())),
            ("bitrate".to_string(), JsonValue::Number(JsonNumber::Unsigned(3))),
            ("duration".to_string(), JsonValue::Number(JsonNumber::Unsigned(4))),
            ("alias".to_string(), JsonValue::List(vec![])),
            ("transNames".to_string(), JsonValue::List(vec![])),
            ("format".to_string(), JsonValue::Text("mp3".to_string())),
        ]
    };
    let doc = JsonValue::Object(members(JsonValue::Number(JsonNumber::Unsigned(1234567890))));
    let record = NCMMetadata::from_json(&doc).unwrap();
    assert_eq!(record.music_id, "1234567890");
    assert_eq!(record.music_name, "N");
    assert!(record.artists.is_empty());
    assert_eq!(record.album_id, 1);
    assert_eq!(record.album_pic_doc_id, 2);
    assert_eq!(record.bitrate, 3);
    assert_eq!(record.duration, 4);
    assert_eq!(record.mv_id, 0);
    assert_eq!(record.fee, None);
    assert_eq!(record.flag, None);
    let doc = JsonValue::Object(members(JsonValue::Number(JsonNumber::Other("-7".to_string()))));
    assert_eq!(NCMMetadata::from_json(&doc).unwrap().music_id, "-7");
    let doc = JsonValue::Object(members(JsonValue::Text("id".to_string())));
    assert_eq!(NCMMetadata::from_json(&doc).unwrap().music_id, "id");
    let doc = JsonValue::Object(members(JsonValue::Null));
    assert_eq!(
        NCMMetadata::from_json(&doc).err(),
        Some(ParseError::ParseMetadataFailed("Failed parsing [musicId]."))
    );
    assert_eq!(
        NCMMetadata::from_json(&JsonValue::Null).err(),
        Some(ParseError::ParseMetadataFailed("Failed parsing [musicName]."))
    );
}

#[test]
fn track_id_is_kept_as_text() {
    let id = |value: &str| NCMMetadata::new(with("musicId", value).as_bytes()).map(|r| r.music_id);
    assert_eq!(id("\"abc\"").ok(), Some("abc".to_string()));
    assert_eq!(id("\"007\"").ok(), Some("007".to_string()));
    assert_eq!(id("\"\"").ok(), Some("".to_string()));
    assert_eq!(id("0").ok(), Some("0".to_string()));
    assert_eq!(id("42").ok(), Some("42".to_string()));
    assert_eq!(id("1000").ok(), Some("1000".to_string()));
    assert_eq!(id("18446744073709551615").ok(), Some("18446744073709551615".to_string()));
    assert_eq!(id("-5").ok(), Some("-5".to_string()));
    assert_eq!(id("1.5").ok(), Some("1.5".to_string()));
    assert_eq!(id("98765432109876543210").ok(), Some("9.876543210987654e+19".to_string()));
    for bad in ["null", "true", "[1,\"a\"]", "{\"a\":1}"] {
        assert_eq!(
            id(bad).err(),
            Some(ParseError::ParseMetadataFailed("Failed parsing [musicId].")),
            "{}",
            bad
        );
    }
    assert_eq!(
        failure(&without("musicId")),
        Some(ParseError::ParseMetadataFailed("Failed parsing [musicId]."))
    );
}

#[test]
fn numbers_are_written_in_decimal() {
    for n in [0, 1, 9, 10, 11, 99, 100, 101, 1234567890, u64::MAX - 1, u64::MAX] {
        assert_eq!(u64_text(n), n.to_string());
        assert_eq!(parse_u64(&u64_text(n)), Some(n));
    }
    assert_eq!(u64_text(7), "7");
    assert_eq!(u64_text(120), "120");
    assert_eq!(u64_text(u64::MAX), "18446744073709551615");
    for d in 0..10 {
        assert_eq!(digit_text(d), d.to_string());
    }
}

#[test]
fn ids_are_numbers_or_decimal_text() {
    let album = |value: &str| NCMMetadata::new(with("albumId", value).as_bytes()).map(|r| r.album_id);
    assert_eq!(album("7").ok(), Some(7));
    assert_eq!(album("\"7\"").ok(), Some(7));
    assert_eq!(album("\"+7\"").ok(), Some(7));
    assert_eq!(album("\"18446744073709551615\"").ok(), Some(u64::MAX));
    for bad in ["\"18446744073709551616\"", "\"\"", "\"7a\"", "\" 7\"", "\"-7\"", "-7", "7.5", "null", "[7]", "true"] {
        assert_eq!(
            album(bad).err(),
            Some(ParseError::ParseMetadataFailed("Failed parsing [albumId].")),
            "{}",
            bad
        );
    }
    let picture = |value: &str| {
        NCMMetadata::new(with("albumPicDocId", value).as_bytes()).map(|r| r.album_pic_doc_id)
    };
    assert_eq!(picture("12").ok(), Some(12));
    assert_eq!(picture("\"0012\"").ok(), Some(12));
    assert_eq!(
        picture("\"x\"").err(),
        Some(ParseError::ParseMetadataFailed("Failed parsing [albumPicDocId]."))
    );
}

#[test]
fn video_id_is_zero_where_it_is_no_id() {
    let video = |value: &str| NCMMetadata::new(with("mvId", value).as_bytes()).unwrap().mv_id;
    assert_eq!(video("9"), 9);
    assert_eq!(video("\"9\""), 9);
    assert_eq!(video("\"\""), 0);
    assert_eq!(video("\"none\""), 0);
    assert_eq!(video("null"), 0);
    assert_eq!(video("-1"), 0);
    assert_eq!(NCMMetadata::new(without("mvId").as_bytes()).unwrap().mv_id, 0);
}

#[test]
fn flag_is_looked_up_in_two_places() {
    let flag = |document: String| NCMMetadata::new(document.as_bytes()).unwrap().flag;
    assert_eq!(flag(full()), Some(4));
    assert_eq!(flag(with("flag", "128")), Some(128));
    assert_eq!(flag(with("flag", "\"128\"")), Some(4));
    assert_eq!(flag(without("privilege")), None);
    assert_eq!(flag(with("privilege", "{}")), None);
    assert_eq!(flag(with("privilege", "{\"flag\":\"4\"}")), None);
    assert_eq!(flag(with("privilege", "{\"other\":1}")), None);
    assert_eq!(flag(with("privilege", "[4]")), None);
    assert_eq!(flag(with("privilege", "{\"flag\":1,\"flag\":2}")), Some(2));
}

#[test]
fn optional_fields_may_be_missing() {
    let record = NCMMetadata::new(without("fee").as_bytes()).unwrap();
    assert_eq!(record.fee, None);
    let record = NCMMetadata::new(with("fee", "\"8\"").as_bytes()).unwrap();
    assert_eq!(record.fee, None);
    let record = NCMMetadata::new(without("mp3DocId").as_bytes()).unwrap();
    assert_eq!(record.mp3_doc_id, None);
    let record = NCMMetadata::new(with("mp3DocId", "5").as_bytes()).unwrap();
    assert_eq!(record.mp3_doc_id, None);
}

#[test]
fn each_required_field_is_named_when_missing() {
    let cases = [
        ("musicName", "Failed parsing [musicName]."),
        ("musicId", "Failed parsing [musicId]."),
        ("artist", "Failed parsing [artist]."),
        ("albumId", "Failed parsing [albumId]."),
        ("album", "Failed parsing [album]."),
        ("albumPicDocId", "Failed parsing [albumPicDocId]."),
        ("albumPic", "Failed parsing [albumPic]."),
        ("bitrate", "Failed parsing [bitrate]."),
        ("duration", "Failed parsing [duration]."),
        ("alias", "Failed parsing [alias]."),
        ("transNames", "Failed parsing [transNames]."),
        ("format", "Failed parsing [format]."),
    ];
    for (field, text) in cases {
        assert_eq!(failure(&without(field)), Some(ParseError::ParseMetadataFailed(text)));
        assert_eq!(failure(&with(field, "false")), Some(ParseError::ParseMetadataFailed(text)));
    }
}

#[test]
fn first_bad_field_is_the_one_named() {
    let mut document = without("format");
    document = document.replace("\"album\":\"Album\"", "\"album\":1");
    assert!(document.contains("\"album\":1"));
    assert_eq!(
        failure(&document),
        Some(ParseError::ParseMetadataFailed("Failed parsing [album]."))
    );
    assert_eq!(
        failure("{}"),
        Some(ParseError::ParseMetadataFailed("Failed parsing [musicName]."))
    );
    assert_eq!(
        failure("[1,2]"),
        Some(ParseError::ParseMetadataFailed("Failed parsing [musicName]."))
    );
}

#[test]
fn numbers_as_text_are_no_bitrate() {
    assert_eq!(
        failure(&with("bitrate", "\"320000\"")),
        Some(ParseError::ParseMetadataFailed("Failed parsing [bitrate]."))
    );
    assert_eq!(
        failure(&with("duration", "\"1\"")),
        Some(ParseError::ParseMetadataFailed("Failed parsing [duration]."))
    );
}

#[test]
fn artists_need_a_name_and_an_id() {
    let artists = |value: &str| NCMMetadata::new(with("artist", value).as_bytes()).map(|r| r.artists);
    assert_eq!(artists("[]").ok(), Some(vec![]));
    assert_eq!(artists("[[\"A\",\"+1\"]]").ok(), Some(vec![("A".to_string(), 1)]));
    for bad in ["[[\"A\"]]", "[[]]", "[[1,2]]", "[[\"A\",\"x\"]]", "[[\"A\",1],7]", "{}", "\"A\"", "[[\"A\",null]]"] {
        assert_eq!(
            artists(bad).err(),
            Some(ParseError::ParseMetadataFailed("Failed parsing [artist].")),
            "{}",
            bad
        );
    }
}

#[test]
fn lists_of_names_hold_strings_only() {
    assert_eq!(
        failure(&with("alias", "[\"a\",1]")),
        Some(ParseError::ParseMetadataFailed("Failed parsing [alias]."))
    );
    assert_eq!(
        failure(&with("transNames", "[null]")),
        Some(ParseError::ParseMetadataFailed("Failed parsing [transNames]."))
    );
    assert_eq!(
        failure(&with("transNames", "\"t\"")),
        Some(ParseError::ParseMetadataFailed("Failed parsing [transNames]."))
    );
}

#[test]
fn bytes_that_are_no_json_are_no_record() {
    for bad in [&b""[..], &b"{"[..], &b"{\"musicName\":}"[..], &b"\xff\xfe"[..], &b"{} {}"[..]] {
        assert_eq!(
            NCMMetadata::new(bad).err(),
            Some(ParseError::ParseMetadataFailed("Cannot read the ncm metadata."))
        );
        assert_eq!(JsonValue::parse(bad), None);
    }
}

#[test]
fn document_becomes_a_tree() {
    let value = JsonValue::parse(b" {\"b\": [1, -2, 1.5, \"s\", null, true], \"a\": {\"k\": 18446744073709551615}} ").unwrap();
    let expected = JsonValue::Object(vec![
        (
            "a".to_string(),
            JsonValue::Object(vec![(
                "k".to_string(),
                JsonValue::Number(JsonNumber::Unsigned(u64::MAX)),
            )]),
        ),
        (
            "b".to_string(),
            JsonValue::List(vec![
                JsonValue::Number(JsonNumber::Unsigned(1)),
                JsonValue::Number(JsonNumber::Other("-2".to_string())),
                JsonValue::Number(JsonNumber::Other("1.5".to_string())),
                JsonValue::Text("s".to_string()),
                JsonValue::Null,
                JsonValue::Bool(true),
            ]),
        ),
    ]);
    assert_eq!(value, expected);
    assert_eq!(
        JsonValue::parse(b"[1e2, 0.10, -0, 1E400]"),
        None
    );
    assert_eq!(
        JsonValue::parse(b"[1e2, 0.10, -0, 18446744073709551616]"),
        Some(JsonValue::List(vec![
            JsonValue::Number(JsonNumber::Other("100.0".to_string())),
            JsonValue::Number(JsonNumber::Other("0.1".to_string())),
            JsonValue::Number(JsonNumber::Other("-0.0".to_string())),
            JsonValue::Number(JsonNumber::Other("1.8446744073709552e+19".to_string())),
        ]))
    );
}

#[test]
fn members_are_found_by_key() {
    let value = JsonValue::Object(vec![
        ("k".to_string(), JsonValue::Bool(false)),
        ("other".to_string(), JsonValue::Null),
        ("k".to_string(), JsonValue::Bool(true)),
    ]);
    assert_eq!(value.member("k"), Some(&JsonValue::Bool(true)));
    assert_eq!(value.member("other"), Some(&JsonValue::Null));
    assert_eq!(value.member("K"), None);
    assert_eq!(value.member(""), None);
    assert_eq!(JsonValue::List(vec![]).member("k"), None);
    assert_eq!(JsonValue::Text("k".to_string()).as_str(), Some(&"k".to_string()));
    assert_eq!(JsonValue::Null.as_str(), None);
    assert_eq!(JsonValue::Number(JsonNumber::Unsigned(5)).as_u64(), Some(5));
    assert_eq!(JsonValue::Number(JsonNumber::Other("-5".to_string())).as_u64(), None);
    assert_eq!(JsonValue::Text("5".to_string()).as_u64(), None);
    assert_eq!(JsonValue::List(vec![JsonValue::Null]).as_array().map(|a| a.len()), Some(1));
    assert_eq!(JsonValue::Null.as_array(), None);
}

#[test]
fn decimal_text_is_read_as_the_standard_library_reads_it() {
    let cases = [
        "0", "7", "+7", "007", "18446744073709551615", "18446744073709551616",
        "99999999999999999999999999", "", "+", "-", "-0", "-7", "++7", "7+", " 7", "7 ", "7a",
        "a7", "1_000", "1.0", "0x10", "\u{663}", "7\u{e9}", "+0", "00000000000000000000000001",
    ];
    for text in cases {
        assert_eq!(parse_u64(text), text.parse::<u64>().ok(), "{:?}", text);
    }
    assert_eq!(parse_u64("18446744073709551615"), Some(u64::MAX));
    assert_eq!(parse_u64("18446744073709551616"), None);
    assert_eq!(parse_u64("+42"), Some(42));
    assert_eq!(parse_u64(""), None);
}

#[test]
fn segment_length_is_little_endian() {
    assert_eq!(length_of(1, 0, 0, 0), 1);
    assert_eq!(length_of(0, 1, 0, 0), 256);
    assert_eq!(length_of(0x78, 0x56, 0x34, 0x12), 0x12345678);
    assert_eq!(length_of(0xff, 0xff, 0xff, 0xff), u32::MAX);
}

#[test]
fn segment_is_read_from_either_source() {
    let bytes = [3, 0, 0, 0, 0x10, 0x20, 0x30, 0xee, 0xef];
    let mut iter = ByteIter::new(&bytes);
    assert_eq!(read_segment_iter(&mut iter, 0x0f), Some(vec![0x1f, 0x2f, 0x3f]));
    assert_eq!(iter.next(), Some(0xee));
    let mut reader = ByteReader::new(&bytes);
    assert_eq!(read_segment_reader(&mut reader, 0x0f), Some(vec![0x1f, 0x2f, 0x3f]));
    assert_eq!(reader.read_to_end(), vec![0xee, 0xef]);
    let empty = [0, 0, 0, 0];
    assert_eq!(read_segment_iter(&mut ByteIter::new(&empty), 9), Some(vec![]));
    assert_eq!(read_segment_reader(&mut ByteReader::new(&empty), 9), Some(vec![]));
}

#[test]
fn short_segment_leaves_the_source_at_its_end() {
    for bytes in [&[][..], &[1, 0, 0][..], &[2, 0, 0, 0, 5][..], &[0, 0, 0, 1, 5, 6, 7][..]] {
        let mut iter = ByteIter::new(bytes);
        assert_eq!(read_segment_iter(&mut iter, 0), None);
        assert_eq!(iter.next(), None);
        let mut reader = ByteReader::new(bytes);
        assert_eq!(read_segment_reader(&mut reader, 0), None);
        assert!(reader.read_to_end().is_empty());
    }
}

#[test]
fn sources_give_their_bytes_in_order() {
    let bytes = [1, 2, 3, 4, 5];
    let mut iter = ByteIter::new(&bytes);
    assert_eq!(iter.next(), Some(1));
    let mut copy = iter.clone();
    assert_eq!(iter.next(), Some(2));
    assert_eq!(copy.next(), Some(2));
    assert_eq!(copy.next(), Some(3));
    let mut reader = ByteReader::new(&bytes);
    assert_eq!(reader.read_exact(0), Some(vec![]));
    assert_eq!(reader.read_exact(2), Some(vec![1, 2]));
    assert_eq!(reader.read_exact(4), None);
    assert_eq!(reader.read_exact(1), None);
    assert_eq!(reader.read_exact(0), Some(vec![]));
}

#[test]
fn prefixes_are_stripped() {
    assert_eq!(strip_prefix(b"abcdef", b"abc"), Some(b"def".to_vec()));
    assert_eq!(strip_prefix(b"abc", b"abc"), Some(vec![]));
    assert_eq!(strip_prefix(b"abc", b""), Some(b"abc".to_vec()));
    assert_eq!(strip_prefix(b"ab", b"abc"), None);
    assert_eq!(strip_prefix(b"abd", b"abc"), None);
    assert_eq!(key_material_of(b"neteasecloudmusicKEY"), Ok(b"KEY".to_vec()));
    assert_eq!(key_material_of(b"neteasecloudmusic"), Ok(vec![]));
    assert_eq!(key_material_of(b"neteasecloudmusi"), Err(ParseError::DecryptRC4KeyFailed));
    assert_eq!(key_material_of(b"Neteasecloudmusic1"), Err(ParseError::DecryptRC4KeyFailed));
    assert_eq!(document_of(b"music:{}"), Ok(b"{}".to_vec()));
    assert_eq!(document_of(b"music"), Err(ParseError::DecryptMetadataFailed));
    assert_eq!(document_of(b"{}"), Err(ParseError::DecryptMetadataFailed));
}

#[test]
fn known_wrapped_key_is_unwrapped() {
    let segment = [
        0x48, 0xaa, 0xb1, 0x8f, 0x0d, 0x8e, 0x9f, 0x70, 0x31, 0x69, 0x21, 0xdb, 0x05, 0xb9, 0x73,
        0x79, 0xff, 0xcb, 0x88, 0xed, 0x6b, 0x06, 0xa1, 0x9f, 0xe3, 0x6c, 0x2b, 0xb5, 0x7a, 0xe2,
        0x34, 0x63,
    ];
    assert_eq!(unwrap_key(&segment), Ok(vec![0x01]));
    let mut other = segment;
    other[31] ^= 1;
    assert_eq!(unwrap_key(&other), Err(ParseError::DecryptRC4KeyFailed));
}

#[test]
fn known_wrapped_metadata_is_unwrapped() {
    assert_eq!(
        unwrap_metadata(b"163 key(Don't modify):Ezn/hkA6Frpn5Yy+oSW0AQ=="),
        Ok(b"{\"a\":1}".to_vec())
    );
    assert_eq!(
        unwrap_metadata(b"163 key(Don't modify):Ezn/hkA6Frpn5Yy+oSW0AQ="),
        Err(ParseError::DecryptMetadataFailed)
    );
    assert_eq!(
        unwrap_metadata(b"163 key(Don't modify) Ezn/hkA6Frpn5Yy+oSW0AQ=="),
        Err(ParseError::DecryptMetadataFailed)
    );
}

#[test]
fn garbage_is_not_unwrapped() {
    assert_eq!(unwrap_key(&[]), Err(ParseError::DecryptRC4KeyFailed));
    assert_eq!(unwrap_key(&[0; 15]), Err(ParseError::DecryptRC4KeyFailed));
    assert_eq!(unwrap_key(&[0; 16]), Err(ParseError::DecryptRC4KeyFailed));
    assert_eq!(unwrap_metadata(b""), Err(ParseError::DecryptMetadataFailed));
    assert_eq!(
        unwrap_metadata(b"163 key(Don't modify):"),
        Err(ParseError::DecryptMetadataFailed)
    );
    assert_eq!(
        unwrap_metadata(b"163 key(Don't modify):not base64!"),
        Err(ParseError::DecryptMetadataFailed)
    );
    assert_eq!(
        unwrap_metadata(b"163 key(Don't modify):AAAA"),
        Err(ParseError::DecryptMetadataFailed)
    );
}

#[test]
fn image_extension_follows_the_last_dot() {
    let with_address = |address: &str| {
        let mut record = NCMMetadata::new(full().as_bytes()).unwrap();
        record.album_pic_url = address.to_string();
        record.image_extension()
    };
    assert_eq!(NCMMetadata::new(full().as_bytes()).unwrap().image_extension(), Some("png".to_string()));
    assert_eq!(with_address("http://x/y.jpg"), Some("jpg".to_string()));
    assert_eq!(with_address("a.b.c"), Some("c".to_string()));
    assert_eq!(with_address("ends."), Some("".to_string()));
    assert_eq!(with_address(".front"), Some("front".to_string()));
    assert_eq!(with_address("\u{56fe}.\u{7247}"), Some("\u{7247}".to_string()));
    assert_eq!(with_address("no dot"), None);
    assert_eq!(with_address(""), None);
}
