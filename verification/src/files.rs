//! Records: how a timesheet is read out of the text that the store keeps
//! for it, and written into it.

use crate::error::LoggrError;
use crate::json::{
    array_value, json_document, json_text, json_tree, json_trees, member_of,
    object_value, parse_document, render_document, text_value, JsonTree,
};
use crate::timesheet::{
    entry_views, sheet_view, EntryView, Timesheet, TimesheetEntry, TimesheetView,
};
use vstd::prelude::*;

verus! {

/// The entry that an item of a record stands for: an object whose members
/// `date`, `time_in` and `time_out` are strings. Any other item stands for
/// none.
pub open spec fn entry_of(item: JsonTree) -> Option<EntryView> {
    match (item.member("date"@), item.member("time_in"@), item.member("time_out"@)) {
        (Some(JsonTree::Text(date)), Some(JsonTree::Text(time_in)), Some(JsonTree::Text(time_out))) => Some(
            EntryView { date, time_in, time_out },
        ),
        _ => None,
    }
}

/// Whether each of the items stands for an entry.
pub open spec fn all_entries(items: Seq<JsonTree>) -> bool {
    forall|i: int| 0 <= i < items.len() ==> (#[trigger] entry_of(items[i])) is Some
}

/// The entries that the items stand for, in their order.
pub open spec fn entries_of(items: Seq<JsonTree>) -> Seq<EntryView> {
    Seq::new(items.len(), |i: int| entry_of(items[i])->0)
}

/// The timesheet that a record stands for under the name it is kept by: the
/// record is an object whose member `entries` is an array of entries. Any
/// other document is malformed.
pub open spec fn timesheet_of(name: Seq<char>, record: JsonTree) -> Result<
    TimesheetView,
    LoggrError,
> {
    match record.member("entries"@) {
        Some(JsonTree::Array(items)) => if all_entries(items) {
            Ok(TimesheetView { name, entries: entries_of(items) })
        } else {
            Err(LoggrError::ParseError)
        },
        _ => Err(LoggrError::ParseError),
    }
}

/// What loading gives for a project, from the text that the store keeps for
/// it: no text is no record; a text that is no JSON document is malformed.
pub open spec fn loaded_from(name: Seq<char>, record: Option<Seq<char>>) -> Result<
    TimesheetView,
    LoggrError,
> {
    match record {
        None => Err(LoggrError::NotFound),
        Some(text) => match json_document(text) {
            Some(tree) => timesheet_of(name, tree),
            None => Err(LoggrError::ParseError),
        },
    }
}

/// The value of an entry that may be missing.
pub open spec fn entry_view(entry: Option<TimesheetEntry>) -> Option<EntryView> {
    match entry {
        Some(e) => Some(e@),
        None => None,
    }
}

/// Reads a string member of an object.
fn text_member(value: &serde_json::Value, key: &str) -> (text: Option<String>)
    ensures
        match text {
            Some(chars) => json_tree(*value).member(key@) == Some(JsonTree::Text(chars@)),
            None => !(json_tree(*value).member(key@) matches Some(JsonTree::Text(_))),
        },
{
    match member_of(value, key) {
        Some(inner) => match inner.as_str() {
            Some(chars) => Some(chars.to_owned()),
            None => None,
        },
        None => None,
    }
}

/// Reads one entry out of an item of a record.
pub fn decode_entry(item: &serde_json::Value) -> (entry: Option<TimesheetEntry>)
    ensures
        entry_view(entry) == entry_of(json_tree(*item)),
{
    let date = text_member(item, "date");
    let time_in = text_member(item, "time_in");
    let time_out = text_member(item, "time_out");
    match (date, time_in, time_out) {
        (Some(date), Some(time_in), Some(time_out)) => Some(
            TimesheetEntry::new(date, time_in, time_out),
        ),
        _ => None,
    }
}

/// Reads the timesheet of the project `timesheet_name` out of its record.
pub fn decode_timesheet(timesheet_name: String, record: &serde_json::Value) -> (sheet: Result<
    Timesheet,
    LoggrError,
>)
    ensures
        sheet_view(sheet) == timesheet_of(timesheet_name@, json_tree(*record)),
{
    let items = match member_of(record, "entries") {
        Some(inner) => match inner.as_array() {
            Some(items) => items,
            None => { return Err(LoggrError::ParseError); },
        },
        None => { return Err(LoggrError::ParseError); },
    };
    let ghost trees = json_trees(items@);
    let mut entries: Vec<TimesheetEntry> = Vec::new();
    let mut i: usize = 0;
    while i < items.len()
        invariant
            i <= items.len(),
            trees == json_trees(items@),
            json_tree(*record).member("entries"@) == Some(JsonTree::Array(trees)),
            entries.len() == i,
            forall|j: int| 0 <= j < i ==> entry_of(#[trigger] trees[j]) == Some(entries@[j]@),
        decreases items.len() - i,
    {
        match decode_entry(&items[i]) {
            Some(entry) => {
                entries.push(entry);
            },
            None => {
                assert(entry_of(trees[i as int]) is None);
                return Err(LoggrError::ParseError);
            },
        }
        i += 1;
    }
    assert(all_entries(trees));
    assert(entry_views(entries@) =~= entries_of(trees));
    Ok(Timesheet::new(timesheet_name, entries))
}

/// Loads the timesheet of the project `timesheet_name` from the text that
/// the store keeps for it, or from `None` where it keeps none.
pub fn load_timesheet(timesheet_name: String, record: Option<&str>) -> (sheet: Result<
    Timesheet,
    LoggrError,
>)
    ensures
        sheet_view(sheet) == loaded_from(
            timesheet_name@,
            match record {
                Some(text) => Some(text@),
                None => None,
            },
        ),
{
    match record {
        None => Err(LoggrError::NotFound),
        Some(text) => match parse_document(text) {
            Ok(value) => decode_timesheet(timesheet_name, &value),
            Err(_) => Err(LoggrError::ParseError),
        },
    }
}

/// The item of a record that stands for an entry.
pub open spec fn entry_record(entry: EntryView) -> JsonTree {
    JsonTree::Object(
        Map::<Seq<char>, JsonTree>::empty().insert("date"@, JsonTree::Text(entry.date)).insert(
            "time_in"@,
            JsonTree::Text(entry.time_in),
        ).insert("time_out"@, JsonTree::Text(entry.time_out)),
    )
}

/// The items of a record that stand for the entries, in their order.
pub open spec fn entry_records(entries: Seq<EntryView>) -> Seq<JsonTree> {
    Seq::new(entries.len(), |i: int| entry_record(entries[i]))
}

/// The record of a timesheet: an object with the members `name`, a string,
/// and `entries`, the array of its entries.
pub open spec fn record_of(sheet: TimesheetView) -> JsonTree {
    JsonTree::Object(
        Map::<Seq<char>, JsonTree>::empty().insert("name"@, JsonTree::Text(sheet.name)).insert(
            "entries"@,
            JsonTree::Array(entry_records(sheet.entries)),
        ),
    )
}

/// The keys of a record differ from each other.
pub proof fn lemma_keys_differ()
    ensures
        "name"@ != "entries"@,
        "date"@ != "time_in"@,
        "date"@ != "time_out"@,
        "time_in"@ != "time_out"@,
{
    reveal_strlit("name");
    reveal_strlit("entries");
    reveal_strlit("date");
    reveal_strlit("time_in");
    reveal_strlit("time_out");
    assert("name"@.len() == 4 && "entries"@.len() == 7);
    assert("date"@.len() == 4 && "time_in"@.len() == 7 && "time_out"@.len() == 8);
}

/// Writes one entry as an item of a record.
pub fn encode_entry(entry: &TimesheetEntry) -> (item: serde_json::Value)
    ensures
        json_tree(item) == entry_record(entry@),
{
    let mut members: Vec<(String, serde_json::Value)> = Vec::new();
    members.push(("date".to_owned(), text_value(entry.date.clone())));
    members.push(("time_in".to_owned(), text_value(entry.time_in.clone())));
    members.push(("time_out".to_owned(), text_value(entry.time_out.clone())));
    proof {
        lemma_keys_differ();
    }
    let item = object_value(members);
    proof {
        let made = json_tree(item)->Object_0;
        let wanted = entry_record(entry@)->Object_0;
        assert(members@[0].0@ == "date"@);
        assert(members@[1].0@ == "time_in"@);
        assert(members@[2].0@ == "time_out"@);
        assert(made =~= wanted);
    }
    item
}

/// Writes a timesheet as a record.
pub fn encode_timesheet(timesheet: &Timesheet) -> (record: serde_json::Value)
    ensures
        json_tree(record) == record_of(timesheet@),
{
    let mut items: Vec<serde_json::Value> = Vec::new();
    let mut i: usize = 0;
    while i < timesheet.entries.len()
        invariant
            i <= timesheet.entries.len(),
            items.len() == i,
            forall|j: int|
                0 <= j < i ==> json_tree(#[trigger] items@[j]) == entry_record(
                    timesheet.entries@[j]@,
                ),
        decreases timesheet.entries.len() - i,
    {
        items.push(encode_entry(&timesheet.entries[i]));
        i += 1;
    }
    assert(json_trees(items@) =~= entry_records(timesheet@.entries));
    let mut members: Vec<(String, serde_json::Value)> = Vec::new();
    members.push(("name".to_owned(), text_value(timesheet.name.clone())));
    members.push(("entries".to_owned(), array_value(items)));
    proof {
        lemma_keys_differ();
    }
    let record = object_value(members);
    proof {
        let made = json_tree(record)->Object_0;
        let wanted = record_of(timesheet@)->Object_0;
        assert(members@[0].0@ == "name"@);
        assert(members@[1].0@ == "entries"@);
        assert(made =~= wanted);
    }
    record
}

/// Writes the text that the store is to keep for a timesheet. It always
/// succeeds, and equal timesheets give the same text.
pub fn save_timesheet(timesheet: Timesheet) -> (record: Result<String, LoggrError>)
    ensures
        record matches Ok(text) && text@ == json_text(record_of(timesheet@)),
{
    let value = encode_timesheet(&timesheet);
    match render_document(&value) {
        Ok(text) => Ok(text),
        Err(_) => Err(LoggrError::IOError),
    }
}

/// A timesheet is read back from its own record as it was, under its own
/// name: its name and its entries are the same.
pub proof fn lemma_record_round_trip(sheet: TimesheetView)
    ensures
        timesheet_of(sheet.name, record_of(sheet)) == Ok::<TimesheetView, LoggrError>(sheet),
{
    lemma_keys_differ();
    let items = entry_records(sheet.entries);
    assert(record_of(sheet).member("entries"@) == Some(JsonTree::Array(items)));
    assert forall|i: int| 0 <= i < items.len() implies (#[trigger] entry_of(items[i])) == Some(
        sheet.entries[i],
    ) by {
        let item = items[i];
        assert(item.member("date"@) == Some(JsonTree::Text(sheet.entries[i].date)));
        assert(item.member("time_in"@) == Some(JsonTree::Text(sheet.entries[i].time_in)));
        assert(item.member("time_out"@) == Some(JsonTree::Text(sheet.entries[i].time_out)));
    }
    assert(entries_of(items) =~= sheet.entries);
}

} // verus!
