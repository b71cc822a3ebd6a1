use gamesense::envelope::decode_response;
use gamesense::error::GameSenseError;
use gamesense::raw_client::{EngineConfig, RawGameSenseClient, DEFAULT_ADDRESS};
use gamesense::request::{
    AsyncEngineRequest, BindEvent, EngineRequest, FrameContainer, GameEvent, Heartbeat,
    RegisterEvent, RegisterGame, RemoveEvent, RemoveGame, ScreenFrameData,
};
use gamesense::wire::WireValue;
use serde_json::Value;

fn json(w: &WireValue) -> Value {
    match w {
        WireValue::Text(s) => Value::from(s.clone()),
        WireValue::Integer(i) => Value::from(*i),
        WireValue::Flag(b) => Value::from(*b),
        WireValue::Bytes(b) => Value::from(b.clone()),
        WireValue::List(items) => Value::Array(items.iter().map(json).collect()),
        WireValue::Object(fields) => {
            let mut m = serde_json::Map::new();
            for f in fields {
                m.insert(f.key.clone(), json(&f.value));
            }
            Value::Object(m)
        }
        WireValue::Json(v) => v.clone(),
    }
}

fn parse(s: &str) -> Value {
    serde_json::from_str(s).unwrap()
}

#[test]
fn paths_are_fixed_per_kind() {
    assert_eq!(RegisterGame::path(), "game_metadata");
    assert_eq!(RemoveGame::path(), "remove_game");
    assert_eq!(Heartbeat::path(), "game_heartbeat");
    assert_eq!(RegisterEvent::path(), "register_game_event");
    assert_eq!(RemoveEvent::path(), "remove_game_event");
    assert_eq!(BindEvent::path(), "bind_game_event");
    assert_eq!(GameEvent::<()>::path(), "game_event");
    assert_eq!(GameEvent::<FrameContainer>::path(), "game_event");
}

#[test]
fn register_game_omits_absent_fields() {
    let r = RegisterGame { game: "G", display_name: None, developer: None, timeout: None };
    assert_eq!(json(&r.into_wire()), parse(r#"{"game":"G"}"#));
}

#[test]
fn register_game_includes_given_fields() {
    let r = RegisterGame {
        game: "G",
        display_name: Some("My Game"),
        developer: Some("Me"),
        timeout: Some(15000),
    };
    assert_eq!(
        json(&r.into_wire()),
        parse(
            r#"{"game":"G","game_display_name":"My Game","developer":"Me","deinitialize_timer_length_ms":15000}"#
        )
    );
}

#[test]
fn remove_and_heartbeat_bodies() {
    assert_eq!(json(&RemoveGame { game: "G" }.into_wire()), parse(r#"{"game":"G"}"#));
    assert_eq!(json(&Heartbeat { game: "G" }.into_wire()), parse(r#"{"game":"G"}"#));
    assert_eq!(
        json(&RemoveEvent { game: "G", event: "E" }.into_wire()),
        parse(r#"{"game":"G","event":"E"}"#)
    );
}

#[test]
fn register_event_optional_settings() {
    let bare = RegisterEvent {
        game: "G",
        event: "E",
        min_value: None,
        max_value: None,
        icon_id: None,
        value_optional: None,
    };
    assert_eq!(json(&bare.into_wire()), parse(r#"{"game":"G","event":"E"}"#));
    let full = RegisterEvent {
        game: "G",
        event: "E",
        min_value: Some(-5),
        max_value: Some(100),
        icon_id: Some(3),
        value_optional: Some(false),
    };
    assert_eq!(
        json(&full.into_wire()),
        parse(r#"{"game":"G","event":"E","min_value":-5,"max_value":100,"icon_id":3,"value_optional":false}"#)
    );
}

#[test]
fn bind_event_keeps_handlers_in_order() {
    let b = BindEvent {
        game: "G",
        event: "E",
        min_value: Some(0),
        max_value: None,
        icon_id: None,
        value_optional: Some(true),
        handlers: vec![parse(r#"{"mode":"a"}"#), parse(r#"{"mode":"b"}"#)],
    };
    assert_eq!(
        json(&b.into_wire()),
        parse(r#"{"game":"G","event":"E","handlers":[{"mode":"a"},{"mode":"b"}],"min_value":0,"value_optional":true}"#)
    );
}

#[test]
fn game_event_without_frame_has_only_value() {
    let e = GameEvent { game: "G", event: "E", value: 5, data: () };
    assert_eq!(json(&e.into_wire()), parse(r#"{"game":"G","event":"E","data":{"value":5}}"#));
}

#[test]
fn game_event_frame_has_only_supplied_buffers() {
    let small = [1u8; 576];
    let large = [2u8; 852];
    let frame = ScreenFrameData {
        image_128x36: Some(&small),
        image_128x40: None,
        image_128x48: None,
        image_128x52: Some(&large),
    };
    let e = GameEvent { game: "G", event: "E", value: -1, data: FrameContainer { frame } };
    let v = json(&e.into_wire());
    let f = v["data"]["frame"].as_object().unwrap();
    assert_eq!(f.len(), 2);
    assert_eq!(f["image-data-128x36"].as_array().unwrap().len(), 576);
    assert_eq!(f["image-data-128x52"].as_array().unwrap().len(), 852);
    assert_eq!(f["image-data-128x52"][0], Value::from(2));
    assert_eq!(v["data"]["value"], Value::from(-1));
}

#[test]
fn empty_frame_is_an_empty_object() {
    let frame = ScreenFrameData {
        image_128x36: None,
        image_128x40: None,
        image_128x48: None,
        image_128x52: None,
    };
    assert_eq!(json(&frame.into_wire()), parse("{}"));
}

#[test]
fn default_client_posts_to_loopback() {
    let c = RawGameSenseClient::new().unwrap();
    assert_eq!(c.address(), DEFAULT_ADDRESS);
    assert_eq!(c.endpoint_url("game_event"), "http://127.0.0.1:5000/game_event");
}

#[test]
fn configured_client_posts_to_its_address() {
    let config = EngineConfig::from_json(r#"{"address":"127.0.0.1:51234","encrypted_address":"x"}"#)
        .unwrap();
    let c = RawGameSenseClient::with_config(config).unwrap();
    let out = c.heartbeat("TESTGAME");
    assert_eq!(out.url, "http://127.0.0.1:51234/game_heartbeat");
    assert_eq!(json(&out.body), parse(r#"{"game":"TESTGAME"}"#));
}

#[test]
fn config_errors_are_discovery_failures() {
    assert_eq!(EngineConfig::from_json("{").err(), Some(GameSenseError::DiscoveryFailed));
    assert_eq!(EngineConfig::from_json(r#"{"port":1}"#).err(), Some(GameSenseError::DiscoveryFailed));
    assert_eq!(EngineConfig::from_json(r#"{"address":5000}"#).err(), Some(GameSenseError::DiscoveryFailed));
}

#[test]
fn raw_requests_build_their_bodies() {
    let c = RawGameSenseClient::new().unwrap();
    let reg = c.register_game("TESTGAME", Some("Test"), Some("Dev"), None);
    assert_eq!(reg.url, "http://127.0.0.1:5000/game_metadata");
    assert_eq!(
        json(&reg.body),
        parse(r#"{"game":"TESTGAME","game_display_name":"Test","developer":"Dev"}"#)
    );
    let rm = c.remove_game("TESTGAME");
    assert_eq!(rm.url, "http://127.0.0.1:5000/remove_game");
    let ev = c.register_event("TESTGAME", "test", None, Some(10), None, None);
    assert_eq!(ev.url, "http://127.0.0.1:5000/register_game_event");
    assert_eq!(json(&ev.body), parse(r#"{"game":"TESTGAME","event":"test","max_value":10}"#));
    let rev = c.remove_event("TESTGAME", "test");
    assert_eq!(rev.url, "http://127.0.0.1:5000/remove_game_event");
    let b = c.bind_event("TESTGAME", "test", None, None, Some(1), None, vec![]);
    assert_eq!(b.url, "http://127.0.0.1:5000/bind_game_event");
    assert_eq!(json(&b.body), parse(r#"{"game":"TESTGAME","event":"test","handlers":[],"icon_id":1}"#));
}

#[test]
fn trigger_event_scenario() {
    let c = RawGameSenseClient::new().unwrap();
    let out = c.game_event("TESTGAME", "test", 5, None);
    assert_eq!(out.url, "http://127.0.0.1:5000/game_event");
    assert_eq!(json(&out.body), parse(r#"{"game":"TESTGAME","event":"test","data":{"value":5}}"#));
    assert_eq!(decode_response(r#"{"result":"registered"}"#), Ok("registered".to_string()));
    assert_eq!(decode_response(r#"{"result":"ok"}"#), Ok("ok".to_string()));
    assert_eq!(
        decode_response(r#"{"error":"game not registered"}"#).unwrap_err().message(),
        "game not registered"
    );
}

#[test]
fn raw_event_with_json_frame() {
    let c = RawGameSenseClient::new().unwrap();
    let out = c.game_event("G", "E", 1, Some(parse(r#"{"image-data-128x36":[0]}"#)));
    assert_eq!(
        json(&out.body),
        parse(r#"{"game":"G","event":"E","data":{"value":1,"frame":{"image-data-128x36":[0]}}}"#)
    );
}
