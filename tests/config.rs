use lustats_config::{Config, CustomUnitNames, Error, Json, Liveu, Rtmp, Twitch};
use serde_json::Value;

fn json_from_value(v: Value) -> Json {
    match v {
        Value::Null => Json::Null,
        Value::Bool(b) => Json::Bool(b),
        Value::Number(n) => Json::Number(n.as_u64()),
        Value::String(s) => Json::Str(s),
        Value::Array(a) => Json::Array(a.into_iter().map(json_from_value).collect()),
        Value::Object(m) => {
            Json::Object(m.into_iter().map(|(k, x)| (k, json_from_value(x))).collect())
        }
    }
}

fn parse(text: &str) -> Result<Config, Error> {
    let value: Value = serde_json::from_str(text).map_err(|e| Error::Parse(e.to_string()))?;
    Config::from_json(&json_from_value(value))
}

fn strings(items: &[&str]) -> Vec<String> {
    items.iter().map(|s| s.to_string()).collect()
}

fn sample(with_optional: bool) -> Config {
    Config {
        liveu: Liveu { email: "me@example.com".to_string(), password: "hunter2".to_string() },
        twitch: Twitch {
            bot_username: "statbot".to_string(),
            bot_oauth: "abc123".to_string(),
            channel: "somechannel".to_string(),
            commands: strings(&["!lustats", "!liveustats", "!lus"]),
            command_cooldown: 30,
        },
        rtmp: if with_optional {
            Some(Rtmp {
                url: "http://localhost/stat".to_string(),
                application: "publish".to_string(),
                key: "live".to_string(),
            })
        } else {
            None
        },
        custom_port_names: if with_optional {
            Some(CustomUnitNames {
                ethernet: "LAN".to_string(),
                wifi: "WiFi".to_string(),
                usb1: "Modem A".to_string(),
                usb2: "Modem B".to_string(),
            })
        } else {
            None
        },
    }
}

fn assert_same(a: &Config, b: &Config) {
    assert_eq!(format!("{:?}", a), format!("{:?}", b));
}

const WELL_FORMED: &str = r#"{
  "liveu": { "email": "a@b.c", "password": "pw" },
  "twitch": {
    "botUsername": "bot", "botOauth": "tok", "channel": "chan",
    "commands": ["!lustats", "!lus"], "commandCooldown": 5
  },
  "rtmp": null,
  "custom_port_names": null
}"#;

#[test]
fn load_with_null_optional_sections() {
    let c = parse(WELL_FORMED).expect("a well-formed file loads");
    assert!(c.rtmp.is_none());
    assert!(c.custom_port_names.is_none());
    assert_eq!(c.liveu.email, "a@b.c");
    assert_eq!(c.liveu.password, "pw");
    assert_eq!(c.twitch.bot_username, "bot");
    assert_eq!(c.twitch.bot_oauth, "tok");
    assert_eq!(c.twitch.channel, "chan");
    assert_eq!(c.twitch.commands, strings(&["!lustats", "!lus"]));
    assert_eq!(c.twitch.command_cooldown, 5);
}

#[test]
fn load_with_optional_sections_missing() {
    let text = r#"{
      "liveu": { "email": "a", "password": "b" },
      "twitch": { "botUsername": "u", "botOauth": "o", "channel": "c",
                  "commands": [], "commandCooldown": 0 }
    }"#;
    let c = parse(text).expect("absent optional blocks are allowed");
    assert!(c.rtmp.is_none());
    assert!(c.custom_port_names.is_none());
    assert!(c.twitch.commands.is_empty());
}

#[test]
fn load_with_optional_sections_present() {
    let text = r#"{
      "liveu": { "email": "a", "password": "b" },
      "twitch": { "botUsername": "u", "botOauth": "o", "channel": "c",
                  "commands": ["!x"], "commandCooldown": 65535 },
      "rtmp": { "url": "http://h/stat", "application": "app", "key": "k" },
      "custom_port_names": { "ethernet": "E", "wifi": "W", "usb1": "U1", "usb2": "U2" },
      "unused": true
    }"#;
    let c = parse(text).expect("loads");
    let r = c.rtmp.expect("rtmp present");
    assert_eq!((r.url.as_str(), r.application.as_str(), r.key.as_str()), ("http://h/stat", "app", "k"));
    let u = c.custom_port_names.expect("names present");
    assert_eq!(
        (u.ethernet.as_str(), u.wifi.as_str(), u.usb1.as_str(), u.usb2.as_str()),
        ("E", "W", "U1", "U2")
    );
    assert_eq!(c.twitch.command_cooldown, 65535);
}

#[test]
fn load_missing_channel_fails() {
    let text = WELL_FORMED.replace(r#""channel": "chan","#, "");
    assert!(!text.contains("channel"));
    assert!(matches!(parse(&text), Err(Error::Parse(_))));
}

#[test]
fn load_wrong_types_fail() {
    let cooldown_text = WELL_FORMED.replace(r#""commandCooldown": 5"#, r#""commandCooldown": "5""#);
    assert!(matches!(parse(&cooldown_text), Err(Error::Parse(_))));
    let too_big = WELL_FORMED.replace(r#""commandCooldown": 5"#, r#""commandCooldown": 65536"#);
    assert!(matches!(parse(&too_big), Err(Error::Parse(_))));
    let negative = WELL_FORMED.replace(r#""commandCooldown": 5"#, r#""commandCooldown": -1"#);
    assert!(matches!(parse(&negative), Err(Error::Parse(_))));
    let fraction = WELL_FORMED.replace(r#""commandCooldown": 5"#, r#""commandCooldown": 5.5"#);
    assert!(matches!(parse(&fraction), Err(Error::Parse(_))));
    let bad_command = WELL_FORMED.replace(r#""!lus"]"#, r#"3]"#);
    assert!(matches!(parse(&bad_command), Err(Error::Parse(_))));
    let null_liveu = WELL_FORMED.replace(r#"{ "email": "a@b.c", "password": "pw" }"#, "null");
    assert!(matches!(parse(&null_liveu), Err(Error::Parse(_))));
    let bad_rtmp = WELL_FORMED.replace(r#""rtmp": null"#, r#""rtmp": { "url": "u" }"#);
    assert!(matches!(parse(&bad_rtmp), Err(Error::Parse(_))));
}

#[test]
fn load_malformed_text_fails() {
    assert!(matches!(parse("{ not json"), Err(Error::Parse(_))));
    assert!(matches!(Config::from_json(&Json::Null), Err(Error::Parse(_))));
    assert!(matches!(Config::from_json(&Json::Array(vec![])), Err(Error::Parse(_))));
}

#[test]
fn round_trip_with_all_sections() {
    let c = sample(true);
    let back = Config::from_json(&c.to_json()).expect("reads back");
    assert_same(&c, &back);
}

#[test]
fn round_trip_without_optional_sections() {
    let c = sample(false);
    let back = Config::from_json(&c.to_json()).expect("reads back");
    assert_same(&c, &back);
    assert!(back.rtmp.is_none());
    assert!(back.custom_port_names.is_none());
}

#[test]
fn round_trip_through_text() {
    for with_optional in [true, false] {
        let c = sample(with_optional);
        let value = value_from_json(c.to_json());
        let text = serde_json::to_string_pretty(&value).expect("encodes");
        let back = parse(&text).expect("reads back");
        assert_same(&c, &back);
    }
}

fn value_from_json(j: Json) -> Value {
    match j {
        Json::Null => Value::Null,
        Json::Bool(b) => Value::Bool(b),
        Json::Number(Some(n)) => Value::from(n),
        Json::Number(None) => Value::Null,
        Json::Str(s) => Value::String(s),
        Json::Array(a) => Value::Array(a.into_iter().map(value_from_json).collect()),
        Json::Object(fields) => {
            let mut m = serde_json::Map::new();
            for (k, x) in fields {
                m.insert(k, value_from_json(x));
            }
            Value::Object(m)
        }
    }
}

#[test]
fn written_layout_keeps_key_names() {
    let j = sample(false).to_json();
    let text = serde_json::to_string(&value_from_json(j)).expect("encodes");
    assert_eq!(
        text,
        r#"{"liveu":{"email":"me@example.com","password":"hunter2"},"twitch":{"botUsername":"statbot","botOauth":"abc123","channel":"somechannel","commands":["!lustats","!liveustats","!lus"],"commandCooldown":30},"rtmp":null,"custom_port_names":null}"#
    );
}

#[test]
fn member_finds_first_match() {
    let j = Json::Object(vec![
        ("a".to_string(), Json::Bool(true)),
        ("b".to_string(), Json::Bool(false)),
        ("a".to_string(), Json::Null),
    ]);
    assert!(matches!(j.member("a"), Some(Json::Bool(true))));
    assert!(matches!(j.member("b"), Some(Json::Bool(false))));
    assert!(j.member("c").is_none());
    assert!(Json::Null.member("a").is_none());
}

#[test]
fn default_unit_names() {
    let u = CustomUnitNames::default();
    assert_eq!(
        (u.ethernet.as_str(), u.wifi.as_str(), u.usb1.as_str(), u.usb2.as_str()),
        ("ETH", "WiFi", "USB1", "USB2")
    );
}
