use codex_longwatch::json::{parse, Json};

#[test]
fn documents_are_parsed_and_written() {
    let json = parse(br#" {"b": [1, -2, 2.50, true, null], "a": "x\u0041"} "#).unwrap();
    assert_eq!(json.to_text(), r#"{"a":"xA","b":[1,-2,2.5,true,null]}"#);
    assert_eq!(json.to_bytes().unwrap(), json.to_text().into_bytes());
    let value = json.to_value();
    assert_eq!(value["b"][2].as_f64(), Some(2.5));
    assert_eq!(Json::from_value(&value).to_value(), value);
    assert!(parse(b"{").is_err());
    assert!(parse(b"1 2").is_err());
    assert!(parse(b"\xff").is_err());
}

#[test]
fn fields_are_read_put_and_removed() {
    let json = parse(br#"{"n": 18446744073709551615, "i": -3, "t": "x", "b": false}"#).unwrap();
    assert_eq!(json.get("n").unwrap().as_u64(), Some(u64::MAX));
    assert_eq!(json.get("n").unwrap().as_i64(), None);
    assert_eq!(json.get("i").unwrap().as_i64(), Some(-3));
    assert_eq!(json.get("i").unwrap().as_u64(), None);
    assert_eq!(json.get_text("t").as_deref(), Some("x"));
    assert_eq!(json.get_text("i"), None);
    assert_eq!(json.get("b").unwrap().as_bool(), Some(false));
    assert!(json.get("x").is_none());
    let json = json.without("n").put("x", Json::unsigned(7)).put("t", Json::signed(-1));
    assert_eq!(json.to_text(), r#"{"b":false,"i":-3,"t":-1,"x":7}"#);
    assert_eq!(json.copy().to_text(), json.to_text());
    let built = Json::object1("a", Json::Bool(true)).with("b", Json::text("c"));
    assert_eq!(built.to_text(), r#"{"a":true,"b":"c"}"#);
}
