use alvr_core::config_file::append_quoted;
use alvr_core::config_file::encode;
use alvr_core::config_file::combine_members;
use alvr_core::config_file::parse;
use alvr_core::config_file::read_config;

fn quoted(text: &str) -> String {
    let mut out = String::new();
    append_quoted(&mut out, text);
    out
}

fn samples() -> Vec<String> {
    let mut all = vec![
        String::new(),
        "1234.client.alvr".to_string(),
        "with \"quotes\" and \\ backslash".to_string(),
        "tab\there\nnewline\rreturn".to_string(),
        "\u{8}\u{c}\u{0}\u{1}\u{1f}\u{7f}".to_string(),
        "slash / and unicode \u{e9}\u{4e2d}\u{1f600}".to_string(),
        "{\"protocol_id\":1,\"hostname\":\"x\"}".to_string(),
        "\\u0041".to_string(),
    ];
    let every_control: String = (0..0x20_u8).map(|code| code as char).collect();
    all.push(every_control);
    all
}

#[test]
fn the_object_is_written_without_spaces() {
    assert_eq!(encode(0, ""), "{\"protocol_id\":0,\"hostname\":\"\"}");
    assert_eq!(
        encode(18_446_744_073_709_551_615, "9999.client.alvr"),
        "{\"protocol_id\":18446744073709551615,\"hostname\":\"9999.client.alvr\"}"
    );
}

#[test]
fn strings_are_escaped() {
    assert_eq!(quoted("plain"), "\"plain\"");
    assert_eq!(quoted("a\"b"), "\"a\\\"b\"");
    assert_eq!(quoted("a\\b"), "\"a\\\\b\"");
    assert_eq!(quoted("\n\r\t\u{8}\u{c}"), "\"\\n\\r\\t\\b\\f\"");
    assert_eq!(quoted("\u{0}\u{1f}\u{b}"), "\"\\u0000\\u001f\\u000b\"");
    assert_eq!(quoted("/\u{7f}\u{e9}"), "\"/\u{7f}\u{e9}\"");
}

#[test]
fn strings_are_escaped_as_the_json_writer_does() {
    for text in samples() {
        assert_eq!(quoted(&text), serde_json::to_string(&text).unwrap());
    }
}

#[test]
fn what_is_written_is_read_back() {
    let ids = [0_u64, 1, 9, 10, 42, 1_000_000, u64::MAX - 1, u64::MAX];
    for hostname in samples() {
        for id in ids {
            let text = encode(id, &hostname);
            assert_eq!(parse(&text), Some((id, hostname.clone())));
        }
    }
}

#[test]
fn what_is_written_is_read_by_the_json_reader() {
    for hostname in samples() {
        let text = encode(77, &hostname);
        let value: serde_json::Value = serde_json::from_str(&text).unwrap();
        assert_eq!(value.get("protocol_id").and_then(|id| id.as_u64()), Some(77));
        assert_eq!(value.get("hostname").and_then(|name| name.as_str()), Some(hostname.as_str()));
        assert_eq!(value.as_object().map(|object| object.len()), Some(2));
    }
}

#[test]
fn what_the_json_writer_writes_is_read() {
    for hostname in samples() {
        let mut object = serde_json::Map::new();
        object.insert("protocol_id".to_string(), serde_json::Value::from(5_u64));
        object.insert("hostname".to_string(), serde_json::Value::from(hostname.clone()));
        let compact = serde_json::to_string(&serde_json::Value::Object(object.clone())).unwrap();
        assert_eq!(parse(&compact), Some((5, hostname.clone())));
        let pretty = serde_json::to_string_pretty(&serde_json::Value::Object(object)).unwrap();
        assert_eq!(parse(&pretty), Some((5, hostname.clone())));
    }
}

#[test]
fn spaces_and_either_order_are_read() {
    let expected = Some((12, "a b".to_string()));
    assert_eq!(parse(" { \"protocol_id\" : 12 , \"hostname\" : \"a b\" } "), expected);
    assert_eq!(parse("{\"hostname\":\"a b\",\"protocol_id\":12}"), expected);
    assert_eq!(parse("\n{\n\t\"hostname\":\r\n\"a b\"\n,\n\"protocol_id\"\n:\n12\n}\n"), expected);
}

#[test]
fn escapes_are_read() {
    assert_eq!(
        parse("{\"protocol_id\":1,\"hostname\":\"\\\"\\\\\\/\\b\\f\\n\\r\\t\"}"),
        Some((1, "\"\\/\u{8}\u{c}\n\r\t".to_string()))
    );
    assert_eq!(
        parse("{\"protocol_id\":1,\"hostname\":\"\\u0041\\u00e9\\u00E9\\u4e2d\\uFFFF\\u0000\"}"),
        Some((1, "A\u{e9}\u{e9}\u{4e2d}\u{ffff}\u{0}".to_string()))
    );
    assert_eq!(
        parse("{\"\\u0070rotocol_id\":1,\"host\\u006eame\":\"x\"}"),
        Some((1, "x".to_string()))
    );
}

#[test]
fn numbers_that_are_no_plain_integers_are_refused() {
    for number in ["", "-1", "+1", "01", "00", "1.0", "1e3", "1E3", "0x10", " ", "\"1\"", "null", "18446744073709551616", "99999999999999999999999"] {
        let text = format!("{{\"protocol_id\":{},\"hostname\":\"x\"}}", number);
        assert_eq!(parse(&text), None);
    }
    assert_eq!(parse("{\"protocol_id\":0,\"hostname\":\"x\"}"), Some((0, "x".to_string())));
    assert_eq!(
        parse("{\"protocol_id\":18446744073709551615,\"hostname\":\"x\"}"),
        Some((u64::MAX, "x".to_string()))
    );
}

#[test]
fn strings_that_are_broken_are_refused() {
    for string in [
        "\"open",
        "\"bad \\x escape\"",
        "\"short \\u12\"",
        "\"not hex \\u12g4\"",
        "\"surrogate \\ud83d\\ude00\"",
        "\"lone \\udc00\"",
        "\"raw \n newline\"",
        "\"raw \u{1} control\"",
        "\"dangling \\",
        "x",
        "12",
    ] {
        let text = format!("{{\"protocol_id\":1,\"hostname\":{}}}", string);
        assert_eq!(parse(&text), None);
    }
}

#[test]
fn objects_of_another_shape_are_refused() {
    for text in [
        "",
        "   ",
        "{}",
        "[]",
        "null",
        "{\"protocol_id\":1}",
        "{\"hostname\":\"x\"}",
        "{\"protocol_id\":1,\"protocol_id\":2}",
        "{\"hostname\":\"x\",\"hostname\":\"y\"}",
        "{\"protocol_id\":1,\"hostname\":\"x\",}",
        "{\"protocol_id\":1,\"hostname\":\"x\",\"extra\":true}",
        "{\"protocol_id\":1 \"hostname\":\"x\"}",
        "{\"protocol_id\" 1,\"hostname\":\"x\"}",
        "{\"protocol_id\":1,\"hostname\":\"x\"",
        "{\"protocol_id\":1,\"hostname\":\"x\"}}",
        "{\"protocol_id\":1,\"hostname\":\"x\"} trailing",
        "{\"Protocol_id\":1,\"hostname\":\"x\"}",
        "{protocol_id:1,hostname:\"x\"}",
        "\u{a0}{\"protocol_id\":1,\"hostname\":\"x\"}",
    ] {
        assert_eq!(parse(text), None);
    }
}

#[test]
fn files_of_this_writer_are_read_as_written() {
    for hostname in samples() {
        let text = encode(9, &hostname);
        assert_eq!(read_config(&text), Some((9, hostname.clone())));
        assert_eq!(read_config(&text), parse(&text));
    }
}

#[test]
fn objects_with_more_members_are_configurations() {
    let expected = Some((7, "1234.client.alvr".to_string()));
    for text in [
        "{\"x\":0,\"protocol_id\":7,\"hostname\":\"1234.client.alvr\"}",
        "{\"protocol_id\":7,\"hostname\":\"1234.client.alvr\",\"extra\":true}",
        "{\"protocol_id\":7,\"nested\":{\"hostname\":\"other\",\"list\":[1,2.5e3,null]},\"hostname\":\"1234.client.alvr\"}",
        "{\"hostname\":\"wrong\",\"protocol_id\":7,\"hostname\":\"1234.client.alvr\"}",
        " {\"a\":\"\\u00e9\", \"hostname\" : \"1234.client.alvr\", \"protocol_id\" : 7 } ",
    ] {
        assert_eq!(parse(text), None);
        assert_eq!(read_config(text), expected);
    }
}

#[test]
fn paired_surrogates_are_read() {
    let text = "{\"protocol_id\":1,\"hostname\":\"smile \\ud83d\\ude00\"}";
    assert_eq!(parse(text), None);
    assert_eq!(read_config(text), Some((1, "smile \u{1f600}".to_string())));
    assert_eq!(read_config("{\"protocol_id\":1,\"hostname\":\"lone \\udc00\"}"), None);
}

#[test]
fn what_holds_no_configuration_is_none() {
    for text in [
        "",
        "null",
        "[7,\"1234.client.alvr\"]",
        "{}",
        "{\"protocol_id\":7}",
        "{\"hostname\":\"x\"}",
        "{\"protocol_id\":-1,\"hostname\":\"x\"}",
        "{\"protocol_id\":7.0,\"hostname\":\"x\"}",
        "{\"protocol_id\":\"7\",\"hostname\":\"x\"}",
        "{\"protocol_id\":18446744073709551616,\"hostname\":\"x\"}",
        "{\"protocol_id\":7,\"hostname\":7}",
        "{\"protocol_id\":7,\"hostname\":null}",
        "{\"protocol_id\":7,\"hostname\":\"x\"} trailing",
        "{\"protocol_id\":7,\"hostname\":\"x\"",
        "{\"nested\":{\"protocol_id\":7,\"hostname\":\"x\"}}",
    ] {
        assert_eq!(read_config(text), None);
    }
}

#[test]
fn members_make_a_configuration_only_together() {
    assert_eq!(combine_members(Some(7), Some("x".to_string())), Some((7, "x".to_string())));
    assert_eq!(combine_members(None, Some("x".to_string())), None);
    assert_eq!(combine_members(Some(7), None), None);
    assert_eq!(combine_members(None, None), None);
}
