use loggr::timesheet::{Stamp, Timesheet, TimesheetEntry};

fn stamp(date: &str, time: &str) -> Stamp {
    Stamp::new(date.to_string(), time.to_string()).unwrap()
}

fn entry(date: &str, time_in: &str, time_out: &str) -> TimesheetEntry {
    TimesheetEntry::new(date.to_string(), time_in.to_string(), time_out.to_string())
}

#[test]
fn new_entry_keeps_its_labels() {
    let e = entry("Mon", "09:00", "17:00");
    assert_eq!(e.date, "Mon");
    assert_eq!(e.time_in, "09:00");
    assert_eq!(e.time_out, "17:00");
}

#[test]
fn entry_is_open_while_time_out_is_empty() {
    assert!(entry("Mon", "09:00", "").is_open());
    assert!(!entry("Mon", "09:00", "17:00").is_open());
}

#[test]
fn new_timesheet_keeps_name_and_entries() {
    let e = entry("Mon", "09:00", "17:00");
    let sheet = Timesheet::new("Alpha".to_string(), vec![e.clone()]);
    assert_eq!(sheet.name, "Alpha");
    assert_eq!(sheet.entries, vec![e]);
}

#[test]
fn clone_of_a_timesheet_is_equal() {
    let sheet = Timesheet::new(
        "Alpha".to_string(),
        vec![entry("Mon", "09:00", "17:00"), entry("Tue", "08:00", "")],
    );
    assert_eq!(sheet.clone(), sheet);
}

#[test]
fn stamp_needs_a_time_label() {
    assert!(Stamp::new("Mon".to_string(), String::new()).is_none());
    assert!(Stamp::new(String::new(), "09:00".to_string()).is_some());
    let s = stamp("Mon", "09:00");
    assert_eq!(s.date(), "Mon");
    assert_eq!(s.time(), "09:00");
}

#[test]
fn first_toggle_opens_an_entry() {
    let mut sheet = Timesheet::new("Alpha".to_string(), vec![]);
    assert!(!sheet.is_clocked_in());
    sheet.clock_io(&stamp("Mon", "09:00"));
    assert_eq!(sheet.entries, vec![entry("Mon", "09:00", "")]);
    assert!(sheet.is_clocked_in());
    assert_eq!(sheet.name, "Alpha");
}

#[test]
fn second_toggle_closes_the_same_entry() {
    let mut sheet = Timesheet::new("Alpha".to_string(), vec![]);
    sheet.clock_io(&stamp("Mon", "09:00"));
    sheet.clock_io(&stamp("Tue", "17:30"));
    assert_eq!(sheet.entries, vec![entry("Mon", "09:00", "17:30")]);
    assert!(!sheet.is_clocked_in());
}

#[test]
fn toggle_after_a_closed_entry_appends() {
    let mut sheet = Timesheet::new("Alpha".to_string(), vec![entry("Mon", "09:00", "17:00")]);
    sheet.clock_io(&stamp("Tue", "08:15"));
    assert_eq!(
        sheet.entries,
        vec![entry("Mon", "09:00", "17:00"), entry("Tue", "08:15", "")]
    );
}

#[test]
fn toggle_on_an_open_entry_writes_only_its_time_out() {
    let mut sheet = Timesheet::new(
        "Alpha".to_string(),
        vec![entry("Mon", "09:00", "17:00"), entry("Tue", "08:15", "")],
    );
    sheet.clock_io(&stamp("Wed", "12:00"));
    assert_eq!(
        sheet.entries,
        vec![entry("Mon", "09:00", "17:00"), entry("Tue", "08:15", "12:00")]
    );
}

#[test]
fn closed_entries_survive_many_toggles() {
    let mut sheet = Timesheet::new("Alpha".to_string(), vec![]);
    for i in 0..6 {
        sheet.clock_io(&stamp("Mon", &format!("t{}", i)));
    }
    assert_eq!(
        sheet.entries,
        vec![entry("Mon", "t0", "t1"), entry("Mon", "t2", "t3"), entry("Mon", "t4", "t5")]
    );
}

#[test]
fn an_open_entry_in_the_middle_is_left_alone() {
    let mut sheet = Timesheet::new(
        "Alpha".to_string(),
        vec![entry("Mon", "09:00", ""), entry("Tue", "08:15", "10:00")],
    );
    sheet.clock_io(&stamp("Wed", "12:00"));
    assert_eq!(
        sheet.entries,
        vec![
            entry("Mon", "09:00", ""),
            entry("Tue", "08:15", "10:00"),
            entry("Wed", "12:00", "")
        ]
    );
}
