use brightness_slider::codec::{decode_command, encode_command};
use brightness_slider::command::Command;

#[test]
fn encodes_canonically() {
    assert_eq!(encode_command(&Command::Increase(5)), b"{\"Inc\":5}".to_vec());
    assert_eq!(
        encode_command(&Command::Decrease(100)),
        b"{\"Dec\":100}".to_vec()
    );
    assert_eq!(
        encode_command(&Command::SetAbsolute(0)),
        b"{\"Set\":0}".to_vec()
    );
    assert_eq!(
        encode_command(&Command::SetAbsolute(255)),
        b"{\"Set\":255}".to_vec()
    );
    assert_eq!(
        encode_command(&Command::Increase(42)),
        b"{\"Inc\":42}".to_vec()
    );
}

#[test]
fn every_command_round_trips() {
    for v in 0u8..=255 {
        for cmd in [
            Command::Increase(v),
            Command::Decrease(v),
            Command::SetAbsolute(v),
        ] {
            let bytes = encode_command(&cmd);
            assert_eq!(decode_command(&bytes), Some(cmd));
        }
    }
}

#[test]
fn decodes_exact_bytes() {
    assert_eq!(decode_command(b"{\"Inc\":20}"), Some(Command::Increase(20)));
    assert_eq!(decode_command(b"{\"Dec\":15}"), Some(Command::Decrease(15)));
    assert_eq!(
        decode_command(b"{\"Set\":150}"),
        Some(Command::SetAbsolute(150))
    );
}

#[test]
fn rejects_malformed_payloads() {
    assert_eq!(decode_command(b""), None);
    assert_eq!(decode_command(b"ping"), None);
    assert_eq!(decode_command(b"inc 5"), None);
    assert_eq!(decode_command(b"{\"Inc\":5"), None);
    assert_eq!(decode_command(b"\"Inc\":5}"), None);
    assert_eq!(decode_command(b"{\"Inc\":5}}"), None);
    assert_eq!(decode_command(b"{'Inc':5}"), None);
}

#[test]
fn rejects_unknown_tags() {
    assert_eq!(decode_command(b"{\"Foo\":5}"), None);
    assert_eq!(decode_command(b"{\"inc\":5}"), None);
    assert_eq!(decode_command(b"{\"INC\":5}"), None);
}

#[test]
fn rejects_non_canonical_numbers() {
    assert_eq!(decode_command(b"{\"Inc\": 5}"), None);
    assert_eq!(decode_command(b"{\"Inc\":05}"), None);
    assert_eq!(decode_command(b"{\"Inc\":005}"), None);
    assert_eq!(decode_command(b"{\"Inc\":+5}"), None);
    assert_eq!(decode_command(b"{\"Inc\":-5}"), None);
    assert_eq!(decode_command(b"{\"Inc\":}"), None);
}

#[test]
fn rejects_out_of_range_numbers() {
    // The u8 bound of the wire format: 256 and up cannot decode.
    assert_eq!(decode_command(b"{\"Set\":256}"), None);
    assert_eq!(decode_command(b"{\"Set\":999}"), None);
    assert_eq!(decode_command(b"{\"Set\":1000}"), None);
}

#[test]
fn encoding_matches_the_json_form() {
    // The wire format is the JSON serialization of the tagged union; hold
    // our encoder to what a JSON library produces for the same value.
    let mut map = serde_json::Map::new();
    map.insert(
        "Inc".to_string(),
        serde_json::Value::Number(serde_json::Number::from(20u8)),
    );
    let json = serde_json::Value::Object(map);
    assert_eq!(
        encode_command(&Command::Increase(20)),
        serde_json::to_string(&json).unwrap().into_bytes()
    );

    let mut map = serde_json::Map::new();
    map.insert(
        "Set".to_string(),
        serde_json::Value::Number(serde_json::Number::from(0u8)),
    );
    let json = serde_json::Value::Object(map);
    assert_eq!(
        encode_command(&Command::SetAbsolute(0)),
        serde_json::to_string(&json).unwrap().into_bytes()
    );
}

#[test]
fn decoder_reads_what_the_json_library_writes() {
    for v in [0u8, 7, 42, 100, 255] {
        let mut map = serde_json::Map::new();
        map.insert(
            "Dec".to_string(),
            serde_json::Value::Number(serde_json::Number::from(v)),
        );
        let bytes = serde_json::to_vec(&serde_json::Value::Object(map)).unwrap();
        assert_eq!(decode_command(&bytes), Some(Command::Decrease(v)));
    }
}
