use loggr::app::{App, CurrentScreen};
use loggr::keys::{Key, KeyInput};
use loggr::timesheet::{Stamp, Timesheet, TimesheetEntry};
use loggr::ui::{entry_text, instructions, row_text, RowMark};

fn press(app: &mut App, key: Key) {
    let now = Stamp::new("Today".to_string(), "09:00".to_string()).unwrap();
    app.handle_key(KeyInput::plain(key), &now).unwrap();
}

fn entry(date: &str, time_in: &str, time_out: &str) -> TimesheetEntry {
    TimesheetEntry::new(date.to_string(), time_in.to_string(), time_out.to_string())
}

#[test]
fn every_screen_has_its_instructions() {
    assert_eq!(instructions(CurrentScreen::Main), "`h` project mode | `CTRL + c quit`");
    assert_eq!(
        instructions(CurrentScreen::ProjectList),
        "`j/down` move down | `k/up` move up | `ENTER` to load | `a` append project | `l` list mode"
    );
    assert_eq!(instructions(CurrentScreen::ProjectAdding), "type to enter a name | `CTRL q` back");
    assert_eq!(instructions(CurrentScreen::Exiting), "");
}

#[test]
fn highlighted_rows_start_with_a_pointer() {
    assert_eq!(row_text(RowMark::Highlighted, "Alpha"), "> Alpha");
    assert_eq!(row_text(RowMark::HighlightedSelected, "Alpha"), "> Alpha");
    assert_eq!(row_text(RowMark::Selected, "Alpha"), "  Alpha");
    assert_eq!(row_text(RowMark::Plain, ""), "  ");
    assert!(RowMark::Highlighted.is_highlighted());
    assert!(RowMark::HighlightedSelected.is_highlighted());
    assert!(!RowMark::Selected.is_highlighted());
    assert!(!RowMark::Plain.is_highlighted());
}

#[test]
fn entry_text_joins_the_three_labels() {
    assert_eq!(entry_text(&entry("Mon", "09:00", "17:00")), "Mon, 09:00, 17:00");
    assert_eq!(entry_text(&entry("Mon", "09:00", "")), "Mon, 09:00, ");
}

#[test]
fn empty_session_has_no_rows() {
    let app = App::new();
    assert!(app.project_rows().is_empty());
    assert!(app.entry_rows().is_empty());
}

#[test]
fn project_rows_mark_highlight_and_selection() {
    let names = vec!["Alpha".to_string(), "Beta".to_string(), "Gamma".to_string()];
    let mut app = App::with_projects(names);
    assert_eq!(
        app.project_rows(),
        vec![
            (RowMark::Highlighted, "> Alpha".to_string()),
            (RowMark::Plain, "  Beta".to_string()),
            (RowMark::Plain, "  Gamma".to_string()),
        ]
    );
    press(&mut app, Key::Char('h'));
    press(&mut app, Key::Down);
    app.select_project(Ok(Timesheet::new("Beta".to_string(), vec![]))).unwrap();
    assert_eq!(app.project_mark(1), RowMark::HighlightedSelected);
    press(&mut app, Key::Down);
    assert_eq!(
        app.project_rows(),
        vec![
            (RowMark::Plain, "  Alpha".to_string()),
            (RowMark::Selected, "  Beta".to_string()),
            (RowMark::Highlighted, "> Gamma".to_string()),
        ]
    );
}

#[test]
fn entry_rows_follow_the_entry_highlight() {
    let sheet = Timesheet::new(
        "Alpha".to_string(),
        vec![entry("Mon", "1", "2"), entry("Tue", "3", "")],
    );
    let mut app = App::with_projects(vec!["Alpha".to_string()]);
    press(&mut app, Key::Char('h'));
    app.select_project(Ok(sheet)).unwrap();
    press(&mut app, Key::Char('l'));
    press(&mut app, Key::Down);
    assert_eq!(app.entry_mark(1), RowMark::Highlighted);
    assert_eq!(app.entry_mark(0), RowMark::Plain);
    assert_eq!(
        app.entry_rows(),
        vec![
            (RowMark::Plain, "  Mon, 1, 2".to_string()),
            (RowMark::Highlighted, "> Tue, 3, ".to_string()),
        ]
    );
}

#[test]
fn centered_margin_halves_what_is_left() {
    assert_eq!(loggr::ui::centered_margin(50), 25);
    assert_eq!(loggr::ui::centered_margin(20), 40);
    assert_eq!(loggr::ui::centered_margin(0), 50);
    assert_eq!(loggr::ui::centered_margin(99), 0);
    assert_eq!(loggr::ui::centered_margin(100), 0);
    assert_eq!(loggr::ui::centered_margin(u16::MAX), 0);
}
