use ace_engine::minecraft_resource::MinecraftResource;
use ace_engine::minecraft_resource::PlayerHead;
use ace_engine::minecraft_resource::PlayerPosition;
use ace_engine::telemetry::decode;
use ace_engine::telemetry::reading;
use ace_engine::telemetry::snapshot_from_json;
use ace_engine::telemetry::update;

const MESSAGE: &str =
    r#"{"coords": {"x": 12.5, "y": 64, "z": -7.125}, "head": {"yaw": -90.25, "y": 5.5}, "more": 1}"#;

fn expected() -> MinecraftResource {
    MinecraftResource {
        player_position: PlayerPosition { x: 12_500, y: 64_000, z: -7_125 },
        player_head: PlayerHead { yaw: -90_250, y: 5_500 },
    }
}

#[test]
fn a_message_decodes_to_its_snapshot() {
    assert_eq!(decode(MESSAGE.as_bytes()), Some(expected()));
}

#[test]
fn a_parsed_message_decodes_like_its_bytes() {
    let json: serde_json::Value = serde_json::from_str(MESSAGE).unwrap();
    assert_eq!(snapshot_from_json(&json), Some(expected()));
    assert_eq!(reading(&json, "coords", "x"), Some(12_500));
    assert_eq!(reading(&json, "head", "y"), Some(5_500));
    assert_eq!(reading(&json, "head", "x"), None);
    assert_eq!(reading(&json, "more", "x"), None);
    assert_eq!(reading(&json, "less", "x"), None);
}

#[test]
fn bytes_that_are_not_json_decode_to_nothing() {
    assert_eq!(decode(b""), None);
    assert_eq!(decode(b"{"), None);
    assert_eq!(decode(b"coords"), None);
    assert_eq!(decode(&[0xff, 0xfe]), None);
}

#[test]
fn a_message_with_a_reading_missing_decodes_to_nothing() {
    let fields = ["\"x\": 1.0", "\"y\": 2.0", "\"z\": 3.0"];
    for missing in 0..3 {
        let kept: Vec<&str> =
            fields.iter().enumerate().filter(|(i, _)| *i != missing).map(|(_, f)| *f).collect();
        let text =
            format!("{{\"coords\": {{{}}}, \"head\": {{\"yaw\": 0.0, \"y\": 0.0}}}}", kept.join(", "));
        assert_eq!(decode(text.as_bytes()), None, "{text}");
    }
    assert_eq!(decode(br#"{"coords": {"x": 1, "y": 2, "z": 3}, "head": {"yaw": 0}}"#), None);
    assert_eq!(decode(br#"{"coords": {"x": 1, "y": 2, "z": 3}, "head": {"y": 0}}"#), None);
    assert_eq!(decode(br#"{"coords": {"x": 1, "y": 2, "z": 3}}"#), None);
    assert_eq!(decode(br#"{"head": {"yaw": 0, "y": 0}}"#), None);
    assert_eq!(decode(br#"[1, 2, 3]"#), None);
}

#[test]
fn a_message_with_a_reading_of_the_wrong_kind_decodes_to_nothing() {
    assert_eq!(
        decode(br#"{"coords": {"x": "1", "y": 2, "z": 3}, "head": {"yaw": 0, "y": 0}}"#),
        None
    );
    assert_eq!(
        decode(br#"{"coords": {"x": null, "y": 2, "z": 3}, "head": {"yaw": 0, "y": 0}}"#),
        None
    );
    assert_eq!(decode(br#"{"coords": [1, 2, 3], "head": {"yaw": 0, "y": 0}}"#), None);
}

#[test]
fn a_message_with_a_reading_out_of_range_decodes_to_nothing() {
    assert_eq!(
        decode(br#"{"coords": {"x": 1e10, "y": 2, "z": 3}, "head": {"yaw": 0, "y": 0}}"#),
        None
    );
    assert_eq!(
        decode(br#"{"coords": {"x": 1, "y": 2, "z": 3}, "head": {"yaw": -1000000001, "y": 0}}"#),
        None
    );
    assert!(decode(br#"{"coords": {"x": 1e9, "y": 2, "z": 3}, "head": {"yaw": -1e9, "y": 0}}"#)
        .is_some());
}

#[test]
fn an_update_keeps_the_old_snapshot_when_the_message_is_bad() {
    let mut resource = MinecraftResource::new();
    assert!(update(&mut resource, MESSAGE.as_bytes()));
    assert_eq!(resource, expected());
    assert!(!update(&mut resource, b"{\"coords\": {}}"));
    assert_eq!(resource, expected());
    assert!(update(
        &mut resource,
        br#"{"coords": {"x": 0, "y": 0, "z": 0}, "head": {"yaw": 0, "y": 0}}"#
    ));
    assert_eq!(resource, MinecraftResource::new());
}
