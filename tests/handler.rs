use std::time::Duration;

use rustc_serialize::json::Json;

use restmote::{
    keycode_from_str, modifier_from_str, Config, ConfigError, Field, KeyEntry, KeyPress,
    KeyRequest, KeyboardAction, KeyboardHandler, Modifier, PolicyError, RequestError,
    RequestField,
};

const SAMPLE: &str = "{
    \"pid\":1234,
    \"keypress_delay\":77,
    \"keys\": [
        {
          \"key\":\"a\",
          \"allowed_modifiers\":[\"COMMAND\", \"SHIFT\", \"OPTION\", \"CONTROL\"]
        },
        {
          \"key\":\"b\",
          \"allowed_modifiers\":[\"CONTROL\"]
        },
        {
          \"key\":\"ENTER\",
          \"allowed_modifiers\":[]
        }
    ]
}";

/// Reads a configuration record out of its JSON text.
fn config_from_json(text: &str) -> Config {
    let json = Json::from_str(text).unwrap();
    let keys = json
        .find("keys")
        .unwrap()
        .as_array()
        .unwrap()
        .iter()
        .map(|entry| KeyEntry {
            key: entry.find("key").unwrap().as_string().unwrap().to_string(),
            allowed_modifiers: entry
                .find("allowed_modifiers")
                .unwrap()
                .as_array()
                .unwrap()
                .iter()
                .map(|m| m.as_string().unwrap().to_string())
                .collect(),
        })
        .collect();
    Config {
        pid: json.find("pid").unwrap().as_i64().unwrap() as i32,
        keypress_delay: json.find("keypress_delay").unwrap().as_u64().unwrap(),
        keys,
    }
}

fn entry(key: &str, modifiers: &[&str]) -> KeyEntry {
    KeyEntry {
        key: key.to_string(),
        allowed_modifiers: modifiers.iter().map(|m| m.to_string()).collect(),
    }
}

fn sample_handler() -> KeyboardHandler {
    KeyboardHandler::keyboard_handler_from_config(&config_from_json(SAMPLE)).unwrap()
}

fn text(s: &str) -> RequestField {
    RequestField::Text(s.to_string())
}

fn request(key: RequestField, modifier: RequestField, action: RequestField) -> KeyRequest {
    KeyRequest { key, modifier, action }
}

#[test]
fn keyboard_handler_from_str_test() {
    let handler = sample_handler();

    assert_eq!(handler.keyboard().pid(), 1234);
    assert_eq!(Duration::from_millis(handler.keyboard().delay_ms()), Duration::from_millis(77));

    let a = keycode_from_str("a").unwrap();
    let b = keycode_from_str("b").unwrap();
    let d = keycode_from_str("d").unwrap();
    let enter = keycode_from_str("ENTER").unwrap();

    assert!(handler.authorize(a, None).is_ok());
    assert!(handler.authorize(b, None).is_ok());
    assert!(handler.authorize(enter, None).is_ok());
    assert!(handler.authorize(d, None).is_err());
}

#[test]
fn allow_list_checks_keys_and_modifiers() {
    let handler = sample_handler();
    let a = keycode_from_str("a").unwrap();
    let b = keycode_from_str("b").unwrap();
    let d = keycode_from_str("d").unwrap();
    assert_eq!(handler.authorize(a, Some(Modifier::Command)), Ok(()));
    assert_eq!(handler.authorize(a, Some(Modifier::Alternate)), Ok(()));
    assert_eq!(handler.authorize(b, Some(Modifier::Control)), Ok(()));
    assert_eq!(handler.authorize(b, Some(Modifier::Shift)), Err(PolicyError::ModifierNotAllowed));
    assert_eq!(handler.authorize(d, None), Err(PolicyError::KeyNotAllowed));
    assert_eq!(handler.authorize(d, Some(Modifier::Shift)), Err(PolicyError::KeyNotAllowed));
}

#[test]
fn empty_modifier_list_allows_no_modifier() {
    let handler = sample_handler();
    let enter = keycode_from_str("enter").unwrap();
    assert_eq!(enter, 0x24);
    assert_eq!(handler.authorize(enter, None), Ok(()));
    assert_eq!(
        handler.authorize(enter, Some(Modifier::Shift)),
        Err(PolicyError::ModifierNotAllowed)
    );
}

#[test]
fn loading_twice_decides_alike() {
    let first = sample_handler();
    let second = sample_handler();
    let modifiers = [
        None,
        Some(Modifier::Shift),
        Some(Modifier::Control),
        Some(Modifier::Command),
        Some(Modifier::Alternate),
    ];
    for key in 0u16..0x80 {
        for m in modifiers.iter() {
            assert_eq!(first.authorize(key, *m), second.authorize(key, *m));
        }
    }
}

#[test]
fn later_entry_replaces_modifiers_of_same_key() {
    let config = Config {
        pid: 1,
        keypress_delay: 0,
        keys: vec![entry("a", &["shift"]), entry("A", &["control"])],
    };
    let handler = KeyboardHandler::keyboard_handler_from_config(&config).unwrap();
    assert_eq!(handler.authorize(0x00, Some(Modifier::Control)), Ok(()));
    assert_eq!(
        handler.authorize(0x00, Some(Modifier::Shift)),
        Err(PolicyError::ModifierNotAllowed)
    );
}

#[test]
fn unknown_key_refuses_configuration() {
    let config = Config {
        pid: 1,
        keypress_delay: 10,
        keys: vec![entry("a", &["shift"]), entry("hyperkey", &[]), entry("zz", &[])],
    };
    assert_eq!(
        KeyboardHandler::keyboard_handler_from_config(&config).err(),
        Some(ConfigError::UnsupportedKey("hyperkey".to_string()))
    );
}

#[test]
fn unknown_modifier_refuses_configuration() {
    let config = Config {
        pid: 1,
        keypress_delay: 10,
        keys: vec![entry("a", &["shift", "Meta", "super"])],
    };
    assert_eq!(
        KeyboardHandler::keyboard_handler_from_config(&config).err(),
        Some(ConfigError::UnsupportedModifier("Meta".to_string()))
    );
}

#[test]
fn empty_configuration_allows_nothing() {
    let config = Config { pid: 9, keypress_delay: 0, keys: Vec::new() };
    let handler = KeyboardHandler::keyboard_handler_from_config(&config).unwrap();
    assert_eq!(handler.authorize(0x00, None), Err(PolicyError::KeyNotAllowed));
    assert_eq!(handler.keyboard().pid(), 9);
}

#[test]
fn request_with_allowed_key_gives_press() {
    let handler = sample_handler();
    let r = handler.handle_request(&request(text("A"), text("command"), text("down")));
    assert_eq!(
        r,
        Ok(KeyPress {
            keycode: 0x00,
            modifier: Some(Modifier::Command),
            action: KeyboardAction::Down,
        })
    );
}

#[test]
fn request_without_action_cycles() {
    let handler = sample_handler();
    let r = handler.handle_request(&request(text("b"), RequestField::Absent, RequestField::Absent));
    assert_eq!(
        r,
        Ok(KeyPress { keycode: 0x0B, modifier: None, action: KeyboardAction::Cycle })
    );
}

#[test]
fn unknown_modifier_in_request_means_none() {
    let handler = sample_handler();
    let r = handler.handle_request(&request(text("enter"), text("hyper"), text("up")));
    assert_eq!(r, Ok(KeyPress { keycode: 0x24, modifier: None, action: KeyboardAction::Up }));
    let r = handler.handle_request(&request(text("enter"), RequestField::NotText, text("up")));
    assert_eq!(r, Ok(KeyPress { keycode: 0x24, modifier: None, action: KeyboardAction::Up }));
}

#[test]
fn request_errors_in_order() {
    let handler = sample_handler();
    let cases = [
        (
            request(RequestField::Absent, text("shift"), text("up")),
            RequestError::MissingField(Field::Key),
        ),
        (
            request(RequestField::NotText, text("shift"), text("up")),
            RequestError::NotText(Field::Key),
        ),
        (request(text("foobar"), text("shift"), text("jump")), RequestError::InvalidKey),
        (
            request(text("d"), text("shift"), RequestField::NotText),
            RequestError::NotText(Field::Action),
        ),
        (request(text("d"), text("shift"), text("jump")), RequestError::InvalidAction),
        (request(text("d"), text("shift"), text("up")), RequestError::KeyNotAllowed),
        (request(text("b"), text("SHIFT"), text("cycle")), RequestError::ModifierNotAllowed),
    ];
    for (req, expected) in cases.iter() {
        assert_eq!(handler.handle_request(req), Err(*expected));
    }
}

#[test]
fn status_codes_split_client_and_server_faults() {
    assert_eq!(RequestError::InjectionFailed.status_code(), 500);
    assert_eq!(RequestError::InvalidKey.status_code(), 400);
    assert_eq!(RequestError::MissingField(Field::Key).status_code(), 400);
    assert_eq!(RequestError::ModifierNotAllowed.status_code(), 400);
}

#[test]
fn modifier_names_of_sample_resolve() {
    for name in ["COMMAND", "SHIFT", "OPTION", "CONTROL"] {
        assert!(modifier_from_str(name).is_some());
    }
}
