use page_logic::decimal::decimal_text;
use page_logic::decode::{decode_body, decode_record, decode_records, decode_value};
use page_logic::loader::{read_reply, FetchError, Reply};
use page_logic::record::{Amiibo, Data};
use serde_json::{Number, Value};

fn text(value: &str) -> Value {
    Value::String(value.to_string())
}

fn object(members: &[(&str, Value)]) -> Value {
    let mut map = serde_json::Map::new();
    for (key, value) in members {
        map.insert(key.to_string(), value.clone());
    }
    Value::Object(map)
}

fn element(name: &str) -> Value {
    object(&[
        ("amiiboSeries", text("series")),
        ("character", text("character")),
        ("gameSeries", text("game")),
        ("head", text("head")),
        ("image", text("image")),
        ("name", text(name)),
    ])
}

fn figure(name: &str) -> Amiibo {
    Amiibo {
        amiibo_series: "series".to_string(),
        character: "character".to_string(),
        game_series: "game".to_string(),
        head: "head".to_string(),
        image: "image".to_string(),
        name: name.to_string(),
    }
}

#[test]
fn record_takes_each_text_from_its_own_member() {
    let value = object(&[
        ("amiiboSeries", text("a")),
        ("character", text("b")),
        ("gameSeries", text("c")),
        ("head", text("d")),
        ("image", text("e")),
        ("name", text("f")),
    ]);
    assert_eq!(
        decode_record(&value),
        Some(Amiibo {
            amiibo_series: "a".to_string(),
            character: "b".to_string(),
            game_series: "c".to_string(),
            head: "d".to_string(),
            image: "e".to_string(),
            name: "f".to_string(),
        })
    );
}

#[test]
fn record_needs_an_object() {
    assert_eq!(decode_record(&Value::Null), None);
    assert_eq!(decode_record(&Value::Bool(true)), None);
    assert_eq!(decode_record(&Value::Number(Number::from(3))), None);
    assert_eq!(decode_record(&text("Mario")), None);
    assert_eq!(decode_record(&Value::Array(vec![element("Mario")])), None);
    assert_eq!(decode_record(&object(&[])), None);
}

#[test]
fn record_needs_text_under_every_member() {
    let mut value = element("Mario");
    value.as_object_mut().unwrap().insert("head".to_string(), Value::Number(Number::from(0)));
    assert_eq!(decode_record(&value), None);

    let mut value = element("Mario");
    value.as_object_mut().unwrap().insert("image".to_string(), Value::Null);
    assert_eq!(decode_record(&value), None);

    let mut value = element("Mario");
    value.as_object_mut().unwrap().remove("character");
    assert_eq!(decode_record(&value), None);
}

#[test]
fn records_come_out_in_the_order_of_the_list() {
    let list = vec![element("c"), element("a"), element("b")];
    assert_eq!(decode_records(&list), Some(vec![figure("c"), figure("a"), figure("b")]));
    assert_eq!(decode_records(&Vec::new()), Some(Vec::new()));
}

#[test]
fn one_bad_element_leaves_no_records() {
    let list = vec![element("a"), Value::Null, element("b")];
    assert_eq!(decode_records(&list), None);
    let list = vec![element("a"), element("b"), object(&[("name", text("c"))])];
    assert_eq!(decode_records(&list), None);
}

#[test]
fn envelope_is_an_object_with_the_list() {
    let value = object(&[("amiibo", Value::Array(vec![element("a"), element("b")]))]);
    assert_eq!(decode_value(&value), Some(Data { amiibo: vec![figure("a"), figure("b")] }));

    let value = object(&[("amiibo", Value::Array(vec![])), ("more", Value::Bool(false))]);
    assert_eq!(decode_value(&value), Some(Data { amiibo: vec![] }));
}

#[test]
fn envelope_without_a_list_is_refused() {
    assert_eq!(decode_value(&object(&[])), None);
    assert_eq!(decode_value(&object(&[("list", Value::Array(vec![]))])), None);
    assert_eq!(decode_value(&object(&[("amiibo", Value::Null)])), None);
    assert_eq!(decode_value(&object(&[("amiibo", element("a"))])), None);
    assert_eq!(decode_value(&Value::Array(vec![element("a")])), None);
    assert_eq!(decode_value(&Value::Array(vec![Value::Array(vec![element("a")])])), None);
    assert_eq!(decode_value(&text("amiibo")), None);
}

#[test]
fn body_is_parsed_and_then_decoded() {
    let body = "  {\n \"amiibo\" : [ {\"name\":\"n\",\"image\":\"i\",\"head\":\"h\",\"gameSeries\":\"g\",\"character\":\"c\",\"amiiboSeries\":\"s\"} ]\n}  ";
    assert_eq!(
        decode_body(body),
        Some(Data {
            amiibo: vec![Amiibo {
                amiibo_series: "s".to_string(),
                character: "c".to_string(),
                game_series: "g".to_string(),
                head: "h".to_string(),
                image: "i".to_string(),
                name: "n".to_string(),
            }]
        })
    );
    assert_eq!(decode_body("{\"amiibo\":[]}"), Some(Data { amiibo: vec![] }));
    assert_eq!(decode_body("{\"amiibo\":[]"), None);
    assert_eq!(decode_body("amiibo"), None);
    assert_eq!(decode_body(""), None);
}

#[test]
fn last_of_two_members_with_one_name_counts() {
    let body = "{\"amiibo\":7,\"amiibo\":[]}";
    assert_eq!(decode_body(body), Some(Data { amiibo: vec![] }));
    let body = "{\"amiibo\":[],\"amiibo\":7}";
    assert_eq!(decode_body(body), None);
}

#[test]
fn envelope_gives_up_its_list() {
    let data = Data { amiibo: vec![figure("a"), figure("b")] };
    assert_eq!(data.into_records(), vec![figure("a"), figure("b")]);
}

#[test]
fn reply_is_read_as_records_or_a_fault() {
    let good = Reply::Answer { status: 200, body: "{\"amiibo\":[]}".to_string() };
    assert_eq!(read_reply(&good), Ok(vec![]));

    let refused = Reply::Answer { status: 403, body: "{\"amiibo\":[]}".to_string() };
    assert_eq!(read_reply(&refused), Err(FetchError::Status { code: 403 }));

    let garbled = Reply::Answer { status: 200, body: "{\"amiibo\":".to_string() };
    assert_eq!(read_reply(&garbled), Err(FetchError::Decode));

    let lost = Reply::Unreachable { reason: "offline".to_string() };
    assert_eq!(read_reply(&lost), Err(FetchError::Transport { reason: "offline".to_string() }));
}

#[test]
fn status_outranks_the_body() {
    let reply = Reply::Answer { status: 500, body: "not json".to_string() };
    assert_eq!(read_reply(&reply), Err(FetchError::Status { code: 500 }));
}

#[test]
fn numbers_are_written_in_decimal() {
    assert_eq!(decimal_text(0), "0");
    assert_eq!(decimal_text(7), "7");
    assert_eq!(decimal_text(9), "9");
    assert_eq!(decimal_text(10), "10");
    assert_eq!(decimal_text(99), "99");
    assert_eq!(decimal_text(100), "100");
    assert_eq!(decimal_text(204), "204");
    assert_eq!(decimal_text(1234), "1234");
    assert_eq!(decimal_text(60000), "60000");
    assert_eq!(decimal_text(65535), "65535");
}
