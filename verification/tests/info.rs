use serde_json::Value;
use window_control::info::WindowInfo;

fn sample() -> WindowInfo {
    WindowInfo { width: 400, height: 600, x: -12, y: 34, always_on_top: true }
}

#[test]
fn json_report_has_the_five_members() {
    let object = sample().to_json();
    assert_eq!(object.len(), 5);
    assert_eq!(object.get("width"), Some(&Value::from(400)));
    assert_eq!(object.get("height"), Some(&Value::from(600)));
    assert_eq!(object.get("x"), Some(&Value::from(-12)));
    assert_eq!(object.get("y"), Some(&Value::from(34)));
    assert_eq!(object.get("alwaysOnTop"), Some(&Value::Bool(true)));
    assert_eq!(object.get("always_on_top"), None);
}

#[test]
fn json_report_equals_an_object_built_by_hand() {
    let mut expected = serde_json::Map::new();
    expected.insert("alwaysOnTop".to_string(), Value::Bool(false));
    expected.insert("height".to_string(), Value::from(2u32));
    expected.insert("width".to_string(), Value::from(1u32));
    expected.insert("x".to_string(), Value::from(3i32));
    expected.insert("y".to_string(), Value::from(-4i32));
    let info = WindowInfo { width: 1, height: 2, x: 3, y: -4, always_on_top: false };
    assert_eq!(Value::Object(info.to_json()), Value::Object(expected));
}

#[test]
fn json_report_holds_whole_numbers_and_a_flag() {
    let object = sample().to_json();
    assert_eq!(object["width"].as_u64(), Some(400));
    assert_eq!(object["height"].as_u64(), Some(600));
    assert_eq!(object["x"].as_i64(), Some(-12));
    assert_eq!(object["y"].as_i64(), Some(34));
    assert_eq!(object["alwaysOnTop"].as_bool(), Some(true));
    assert!(object["x"].is_i64());
    assert!(!object["x"].is_f64());
}

#[test]
fn json_report_reaches_the_limits_of_its_numbers() {
    let info = WindowInfo {
        width: u32::MAX,
        height: 0,
        x: i32::MIN,
        y: i32::MAX,
        always_on_top: false,
    };
    let object = info.to_json();
    assert_eq!(object["width"].as_u64(), Some(4_294_967_295));
    assert_eq!(object["height"].as_u64(), Some(0));
    assert_eq!(object["x"].as_i64(), Some(-2_147_483_648));
    assert_eq!(object["y"].as_i64(), Some(2_147_483_647));
    assert_eq!(object["alwaysOnTop"].as_bool(), Some(false));
}

#[test]
fn json_report_reads_back_from_its_text() {
    let text = Value::Object(sample().to_json()).to_string();
    let parsed: Value = serde_json::from_str(&text).unwrap();
    assert_eq!(parsed, Value::Object(sample().to_json()));
    assert!(text.contains("\"alwaysOnTop\":true"));
    assert!(text.contains("\"width\":400"));
    assert!(text.contains("\"x\":-12"));
}
