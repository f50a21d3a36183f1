use loggr::error::LoggrError;
use loggr::files::{
    decode_entry, decode_timesheet, encode_entry, encode_timesheet, load_timesheet, save_timesheet,
};
use loggr::timesheet::{Timesheet, TimesheetEntry};
use serde_json::{Number, Value};

fn entry(date: &str, time_in: &str, time_out: &str) -> TimesheetEntry {
    TimesheetEntry::new(date.to_string(), time_in.to_string(), time_out.to_string())
}

fn text(chars: &str) -> Value {
    Value::String(chars.to_string())
}

fn object(members: &[(&str, Value)]) -> Value {
    let mut map = serde_json::Map::new();
    for (key, value) in members {
        map.insert(key.to_string(), value.clone());
    }
    Value::Object(map)
}

fn sample() -> Timesheet {
    Timesheet::new(
        "Alpha".to_string(),
        vec![entry("Mon", "09:00", "17:00"), entry("Tue \"late\"", "08:15\n", "")],
    )
}

#[test]
fn missing_record_is_not_found() {
    assert_eq!(load_timesheet("Alpha".to_string(), None), Err(LoggrError::NotFound));
}

#[test]
fn text_that_is_no_json_is_malformed() {
    for record in ["", "not json", "{\"entries\": [", "{\"entries\": []} trailing"] {
        assert_eq!(load_timesheet("Alpha".to_string(), Some(record)), Err(LoggrError::ParseError));
    }
}

#[test]
fn record_without_an_entries_array_is_malformed() {
    for record in [
        "{}",
        "[]",
        "null",
        "\"entries\"",
        "{\"name\": \"Alpha\"}",
        "{\"entries\": {}}",
        "{\"entries\": \"none\"}",
        "{\"entries\": 3}",
        "{\"Entries\": []}",
    ] {
        assert_eq!(load_timesheet("Alpha".to_string(), Some(record)), Err(LoggrError::ParseError));
    }
}

#[test]
fn record_with_a_bad_entry_is_malformed() {
    for record in [
        "{\"entries\": [1]}",
        "{\"entries\": [{}]}",
        "{\"entries\": [{\"date\": \"Mon\", \"time_in\": \"1\"}]}",
        "{\"entries\": [{\"date\": \"Mon\", \"time_in\": \"1\", \"time_out\": 2}]}",
        "{\"entries\": [{\"date\": null, \"time_in\": \"1\", \"time_out\": \"2\"}]}",
        "{\"entries\": [{\"date\": \"Mon\", \"time_in\": [\"1\"], \"time_out\": \"2\"}]}",
        "{\"entries\": [{\"date\": \"Mon\", \"time_in\": \"1\", \"time_out\": \"2\"}, []]}",
    ] {
        assert_eq!(load_timesheet("Alpha".to_string(), Some(record)), Err(LoggrError::ParseError));
    }
}

#[test]
fn record_with_no_entries_loads_empty() {
    assert_eq!(
        load_timesheet("Alpha".to_string(), Some("{\"name\": \"Alpha\", \"entries\": []}")),
        Ok(Timesheet::new("Alpha".to_string(), vec![]))
    );
}

#[test]
fn record_loads_its_entries_in_order() {
    let record = "{\"name\":\"Alpha\",\"entries\":[\
        {\"date\":\"Mon\",\"time_in\":\"09:00\",\"time_out\":\"17:00\"},\
        {\"time_out\":\"\",\"extra\":1,\"date\":\"Tue\",\"time_in\":\"08:15\"}]}";
    assert_eq!(
        load_timesheet("Alpha".to_string(), Some(record)),
        Ok(Timesheet::new(
            "Alpha".to_string(),
            vec![entry("Mon", "09:00", "17:00"), entry("Tue", "08:15", "")]
        ))
    );
}

#[test]
fn loaded_timesheet_bears_the_name_it_was_asked_by() {
    let record = "{\"name\": \"Other\", \"entries\": []}";
    assert_eq!(
        load_timesheet("Alpha".to_string(), Some(record)),
        Ok(Timesheet::new("Alpha".to_string(), vec![]))
    );
    assert_eq!(
        load_timesheet("Alpha".to_string(), Some("{\"entries\": []}")),
        Ok(Timesheet::new("Alpha".to_string(), vec![]))
    );
}

#[test]
fn decode_entry_reads_three_strings() {
    let item = object(&[("date", text("Mon")), ("time_in", text("1")), ("time_out", text(""))]);
    assert_eq!(decode_entry(&item), Some(entry("Mon", "1", "")));
}

#[test]
fn decode_entry_refuses_other_shapes() {
    assert_eq!(decode_entry(&Value::Null), None);
    assert_eq!(decode_entry(&text("Mon")), None);
    assert_eq!(decode_entry(&Value::Array(vec![text("Mon"), text("1"), text("2")])), None);
    assert_eq!(decode_entry(&object(&[("date", text("Mon")), ("time_in", text("1"))])), None);
    let number = Value::Number(Number::from(5u8));
    assert_eq!(
        decode_entry(&object(&[("date", number), ("time_in", text("1")), ("time_out", text("2"))])),
        None
    );
    let flag = Value::Bool(true);
    assert_eq!(
        decode_entry(&object(&[("date", text("Mon")), ("time_in", text("1")), ("time_out", flag)])),
        None
    );
}

#[test]
fn decode_timesheet_reads_the_entries_member() {
    let item = object(&[("date", text("Mon")), ("time_in", text("1")), ("time_out", text("2"))]);
    let record = object(&[("entries", Value::Array(vec![item.clone(), item]))]);
    assert_eq!(
        decode_timesheet("Alpha".to_string(), &record),
        Ok(Timesheet::new("Alpha".to_string(), vec![entry("Mon", "1", "2"), entry("Mon", "1", "2")]))
    );
    assert_eq!(
        decode_timesheet("Alpha".to_string(), &Value::Array(vec![])),
        Err(LoggrError::ParseError)
    );
    assert_eq!(
        decode_timesheet("Alpha".to_string(), &object(&[("entries", text("x"))])),
        Err(LoggrError::ParseError)
    );
}

#[test]
fn encode_entry_makes_an_object_of_three_strings() {
    let item = encode_entry(&entry("Mon", "09:00", ""));
    assert_eq!(
        item,
        object(&[("date", text("Mon")), ("time_in", text("09:00")), ("time_out", text(""))])
    );
}

#[test]
fn encode_timesheet_makes_name_and_entries() {
    let record = encode_timesheet(&Timesheet::new("Alpha".to_string(), vec![entry("Mon", "1", "2")]));
    let item = object(&[("date", text("Mon")), ("time_in", text("1")), ("time_out", text("2"))]);
    assert_eq!(record, object(&[("name", text("Alpha")), ("entries", Value::Array(vec![item]))]));
}

#[test]
fn saved_text_is_the_json_of_the_record() {
    let saved = save_timesheet(Timesheet::new("Alpha".to_string(), vec![entry("Mon", "1", "")])).unwrap();
    let parsed: Value = serde_json::from_str(&saved).unwrap();
    let item = object(&[("date", text("Mon")), ("time_in", text("1")), ("time_out", text(""))]);
    assert_eq!(parsed, object(&[("name", text("Alpha")), ("entries", Value::Array(vec![item]))]));
}

#[test]
fn saving_the_same_timesheet_twice_gives_the_same_text() {
    let first = save_timesheet(sample());
    let second = save_timesheet(sample().clone());
    assert!(first.is_ok());
    assert_eq!(first, second);
}

#[test]
fn saving_succeeds_for_every_timesheet() {
    let odd = Timesheet::new(
        "\u{0} \"quoted\" \\ \n é 日本".to_string(),
        vec![entry("", "", ""), entry("\t", "\u{7f}", "\u{1F600}")],
    );
    let saved = save_timesheet(odd.clone()).unwrap();
    assert_eq!(load_timesheet(odd.name.clone(), Some(&saved)), Ok(odd));
    assert!(save_timesheet(Timesheet::new(String::new(), vec![])).is_ok());
}

#[test]
fn save_then_load_gives_the_timesheet_back() {
    let saved = save_timesheet(sample()).unwrap();
    assert_eq!(load_timesheet("Alpha".to_string(), Some(&saved)), Ok(sample()));
    let empty = Timesheet::new("Beta".to_string(), vec![]);
    let saved = save_timesheet(empty.clone()).unwrap();
    assert_eq!(load_timesheet("Beta".to_string(), Some(&saved)), Ok(empty));
}

#[test]
fn decode_of_encode_gives_the_timesheet_back() {
    let record = encode_timesheet(&sample());
    assert_eq!(decode_timesheet("Alpha".to_string(), &record), Ok(sample()));
    for e in sample().entries {
        assert_eq!(decode_entry(&encode_entry(&e)), Some(e));
    }
}
