//! What holds of the session and of timesheets whatever is done with them.

use crate::app::{distinct, lemma_push_distinct, AppView, CurrentScreen, RequestView};
use crate::cursor::{scrolled_all, ScrollDirection};
use crate::cursor::{lemma_scrolled_all_empty, lemma_scrolled_all_stays};
use crate::error::LoggrError;
use crate::keys::{Key, KeyInput};
use crate::timesheet::{StampView, TimesheetView};
use vstd::prelude::*;

verus! {

/// The session after a run of keys, read in order, all at `now`.
pub open spec fn after_keys(app: AppView, keys: Seq<KeyInput>, now: StampView) -> AppView
    decreases keys.len(),
{
    if keys.len() == 0 {
        app
    } else {
        after_keys(app, keys.drop_last(), now).after_key(keys.last(), now)
    }
}

/// Whether the session answered every key of the run with nothing to do and
/// nothing to report.
pub open spec fn all_quiet(app: AppView, keys: Seq<KeyInput>, now: StampView) -> bool {
    forall|i: int|
        0 <= i < keys.len() ==> (#[trigger] after_keys(app, keys.take(i), now)).key_answer(keys[i])
            == Ok::<RequestView, LoggrError>(RequestView::Nothing)
}

/// Whether every key of the run is a scroll key.
pub open spec fn all_scroll(keys: Seq<KeyInput>) -> bool {
    forall|i: int| 0 <= i < keys.len() ==> (#[trigger] keys[i]).scrolls() is Some
}

/// The cursor moves that a run of scroll keys asks for.
pub open spec fn moves_of(keys: Seq<KeyInput>) -> Seq<ScrollDirection> {
    Seq::new(keys.len(), |i: int| keys[i].scrolls()->0)
}

/// No run of keys breaks what holds of a session at all times.
pub proof fn lemma_keys_keep_inv(app: AppView, keys: Seq<KeyInput>, now: StampView)
    requires
        app.inv(),
    ensures
        after_keys(app, keys, now).inv(),
    decreases keys.len(),
{
    if keys.len() > 0 {
        lemma_keys_keep_inv(app, keys.drop_last(), now);
        crate::app::lemma_key_keeps_inv(
            after_keys(app, keys.drop_last(), now),
            keys.last(),
            now,
        );
    }
}

/// No answer of the store breaks what holds of a session at all times.
pub proof fn lemma_store_keeps_inv(
    app: AppView,
    loaded: Result<TimesheetView, LoggrError>,
    saved: Result<(), LoggrError>,
)
    requires
        app.inv(),
    ensures
        app.after_load(loaded).inv(),
        app.after_save(saved).inv(),
{
}

/// On the project list a run of scroll keys moves the project highlight as
/// the cursor rule says, changes nothing else and reports nothing.
pub proof fn lemma_project_scrolling(app: AppView, keys: Seq<KeyInput>, now: StampView)
    requires
        app.current_screen == CurrentScreen::ProjectList,
        all_scroll(keys),
    ensures
        after_keys(app, keys, now) == (AppView {
            highlighted_project: scrolled_all(
                app.highlighted_project,
                app.project_list.len() as int,
                moves_of(keys),
            ),
            ..app
        }),
        all_quiet(app, keys, now),
    decreases keys.len(),
{
    if keys.len() > 0 {
        let front = keys.drop_last();
        lemma_project_scrolling(app, front, now);
        assert(moves_of(keys).drop_last() =~= moves_of(front));
        assert(moves_of(keys).last() == keys.last().scrolls()->0);
        assert(!keys.last().quits());
        assert forall|i: int| 0 <= i < keys.len() implies (#[trigger] after_keys(
            app,
            keys.take(i),
            now,
        )).key_answer(keys[i]) == Ok::<RequestView, LoggrError>(RequestView::Nothing) by {
            if i < front.len() {
                assert(keys.take(i) =~= front.take(i));
                assert(keys[i] == front[i]);
            } else {
                assert(keys.take(i) =~= front);
                assert(!keys[i].quits());
            }
        }
    }
}

/// On the main screen, with a timesheet loaded, a run of scroll keys moves
/// the entry highlight as the cursor rule says, changes nothing else and
/// reports nothing.
pub proof fn lemma_entry_scrolling(app: AppView, keys: Seq<KeyInput>, now: StampView)
    requires
        app.current_screen == CurrentScreen::Main,
        app.loaded_project is Some,
        all_scroll(keys),
    ensures
        after_keys(app, keys, now) == (AppView {
            highlighted_entry: scrolled_all(
                app.highlighted_entry,
                app.entry_count(),
                moves_of(keys),
            ),
            ..app
        }),
        all_quiet(app, keys, now),
    decreases keys.len(),
{
    if keys.len() > 0 {
        let front = keys.drop_last();
        lemma_entry_scrolling(app, front, now);
        assert(moves_of(keys).drop_last() =~= moves_of(front));
        assert(moves_of(keys).last() == keys.last().scrolls()->0);
        assert(!keys.last().quits());
        assert(keys.last().key != Key::Char('h'));
        assert forall|i: int| 0 <= i < keys.len() implies (#[trigger] after_keys(
            app,
            keys.take(i),
            now,
        )).key_answer(keys[i]) == Ok::<RequestView, LoggrError>(RequestView::Nothing) by {
            if i < front.len() {
                assert(keys.take(i) =~= front.take(i));
                assert(keys[i] == front[i]);
            } else {
                assert(keys.take(i) =~= front);
                assert(!keys[i].quits());
            }
        }
    }
}

/// In an empty project list the highlight stays at 0 under every run of
/// scroll keys, and no key of the run is answered with an error.
pub proof fn lemma_empty_list_scrolling(app: AppView, keys: Seq<KeyInput>, now: StampView)
    requires
        app.current_screen == CurrentScreen::ProjectList,
        app.project_list.len() == 0,
        app.highlighted_project == 0,
        all_scroll(keys),
    ensures
        after_keys(app, keys, now) == app,
        all_quiet(app, keys, now),
{
    lemma_project_scrolling(app, keys, now);
    lemma_scrolled_all_empty(moves_of(keys));
}

/// With a loaded timesheet that has no entry, the entry highlight stays at 0
/// under every run of scroll keys on the main screen, and no key of the run
/// is answered with an error.
pub proof fn lemma_no_entries_scrolling(app: AppView, keys: Seq<KeyInput>, now: StampView)
    requires
        app.current_screen == CurrentScreen::Main,
        app.loaded_project is Some,
        app.entry_count() == 0,
        app.highlighted_entry == 0,
        all_scroll(keys),
    ensures
        after_keys(app, keys, now) == app,
        all_quiet(app, keys, now),
{
    lemma_entry_scrolling(app, keys, now);
    lemma_scrolled_all_empty(moves_of(keys));
}

/// In a project list of `N` names the highlight stays within `0..N` under
/// every run of scroll keys.
pub proof fn lemma_list_scrolling_in_bounds(app: AppView, keys: Seq<KeyInput>, now: StampView)
    requires
        app.current_screen == CurrentScreen::ProjectList,
        app.project_list.len() > 0,
        0 <= app.highlighted_project < app.project_list.len(),
        all_scroll(keys),
    ensures
        0 <= after_keys(app, keys, now).highlighted_project < app.project_list.len(),
        after_keys(app, keys, now).project_list == app.project_list,
{
    lemma_project_scrolling(app, keys, now);
    lemma_scrolled_all_stays(
        app.highlighted_project,
        app.project_list.len() as int,
        moves_of(keys),
    );
}

/// With a loaded timesheet of `N` entries the entry highlight stays within
/// `0..N` under every run of scroll keys on the main screen.
pub proof fn lemma_entry_scrolling_in_bounds(app: AppView, keys: Seq<KeyInput>, now: StampView)
    requires
        app.current_screen == CurrentScreen::Main,
        app.loaded_project is Some,
        app.entry_count() > 0,
        0 <= app.highlighted_entry < app.entry_count(),
        all_scroll(keys),
    ensures
        0 <= after_keys(app, keys, now).highlighted_entry < app.entry_count(),
        after_keys(app, keys, now).loaded_project == app.loaded_project,
{
    lemma_entry_scrolling(app, keys, now);
    lemma_scrolled_all_stays(app.highlighted_entry, app.entry_count(), moves_of(keys));
}

/// On the project list, with a timesheet loaded that is clocked out, the
/// clock key pressed twice leaves one entry more than before: the first
/// press opens it, the second closes the same entry. Nothing else of the
/// session changes, and neither press reports or asks for anything.
pub proof fn lemma_clock_key_twice(
    app: AppView,
    key: KeyInput,
    first: StampView,
    second: StampView,
)
    requires
        app.current_screen == CurrentScreen::ProjectList,
        app.loaded_project is Some,
        !app.loaded_project->0.is_clocked_in(),
        key.key == Key::Char('c') || key.key == Key::Char('C'),
        !key.quits(),
        second.time.len() > 0,
    ensures
        app.after_key(key, first).after_key(key, second) == (AppView {
            loaded_project: Some(
                TimesheetView {
                    name: app.loaded_project->0.name,
                    entries: app.loaded_project->0.entries.push(
                        first.opening().closed_at(second.time),
                    ),
                },
            ),
            ..app
        }),
        app.after_key(key, first).loaded_project->0.entries
            == app.loaded_project->0.entries.push(first.opening()),
        app.key_answer(key) == Ok::<RequestView, LoggrError>(RequestView::Nothing),
        app.after_key(key, first).key_answer(key) == Ok::<RequestView, LoggrError>(
            RequestView::Nothing,
        ),
{
    lemma_toggle_twice(app.loaded_project->0, first, second);
}

/// Committing a blank name on the text entry is refused: Enter is answered
/// with the report of an empty input and changes nothing, and whatever a
/// store says to a save that was never asked for changes nothing either. The
/// project list is as it was and the text entry is still shown.
pub proof fn lemma_blank_name_refused(
    app: AppView,
    key: KeyInput,
    now: StampView,
    saved: Result<(), LoggrError>,
)
    requires
        app.current_screen == CurrentScreen::ProjectAdding,
        app.project_name_input.len() == 0,
        key.key == Key::Enter,
        !key.quits(),
    ensures
        app.after_key(key, now) == app,
        app.key_answer(key) == Err::<RequestView, LoggrError>(LoggrError::EmptyInput),
        app.after_save(saved) == app,
        app.save_answer(saved) == Err::<(), LoggrError>(LoggrError::EmptyInput),
{
}

/// Committing a name that the project list holds already is refused: Enter
/// is answered with the report of a duplicate name, asks nothing of the
/// store and changes nothing, and whatever a store says to a save that was
/// never asked for changes nothing either. The project list is as it was and
/// the text entry is still shown.
pub proof fn lemma_listed_name_refused(
    app: AppView,
    key: KeyInput,
    now: StampView,
    saved: Result<(), LoggrError>,
)
    requires
        app.current_screen == CurrentScreen::ProjectAdding,
        app.project_list.contains(app.project_name_input),
        app.project_name_input.len() > 0,
        key.key == Key::Enter,
        !key.quits(),
    ensures
        app.after_key(key, now) == app,
        app.key_answer(key) == Err::<RequestView, LoggrError>(LoggrError::DuplicateName),
        app.after_save(saved) == app,
        app.save_answer(saved) == Err::<(), LoggrError>(LoggrError::DuplicateName),
{
}

/// The project list stays unique by name: no key, no answer to a load and no
/// answer to a save puts a name into the list that it holds already.
pub proof fn lemma_names_stay_distinct(
    app: AppView,
    key: KeyInput,
    now: StampView,
    loaded: Result<TimesheetView, LoggrError>,
    saved: Result<(), LoggrError>,
)
    requires
        distinct(app.project_list),
    ensures
        distinct(app.after_key(key, now).project_list),
        distinct(app.after_load(loaded).project_list),
        distinct(app.after_save(saved).project_list),
{
    if saved is Ok && app.can_add() {
        lemma_push_distinct(app.project_list, app.project_name_input);
    }
}

/// Only a save that succeeded changes the project list, and it appends one
/// name that is not empty and was not in the list. No key changes the list,
/// and no answer to a load does.
pub proof fn lemma_list_grows_by_saved_names(
    app: AppView,
    key: KeyInput,
    now: StampView,
    loaded: Result<TimesheetView, LoggrError>,
    saved: Result<(), LoggrError>,
)
    ensures
        app.after_key(key, now).project_list == app.project_list,
        app.after_load(loaded).project_list == app.project_list,
        app.after_save(saved).project_list == app.project_list || (saved is Ok
            && app.project_name_input.len() > 0 && !app.project_list.contains(
            app.project_name_input,
        ) && app.after_save(saved).project_list == app.project_list.push(
            app.project_name_input,
        )),
{
}

/// Whether the loaded timesheet, if there is one, bears the name of the
/// selected project.
pub open spec fn selection_names_loaded(app: AppView) -> bool {
    app.loaded_project matches Some(sheet) ==> 0 <= app.selected_project < app.project_list.len()
        && app.project_list[app.selected_project] == sheet.name
}

/// The selected project names the loaded timesheet for as long as the store
/// answers a request to load with the timesheet of the name it was asked for:
/// no key and no save breaks this.
pub proof fn lemma_selection_names_loaded(
    app: AppView,
    key: KeyInput,
    now: StampView,
    loaded: Result<TimesheetView, LoggrError>,
    saved: Result<(), LoggrError>,
)
    requires
        app.inv(),
        selection_names_loaded(app),
        loaded matches Ok(sheet) ==> app.highlighted_name() == Some(sheet.name),
    ensures
        selection_names_loaded(app.after_key(key, now)),
        selection_names_loaded(app.after_load(loaded)),
        selection_names_loaded(app.after_save(saved)),
{
}

/// Starting clocked out, one toggle appends exactly one entry, which is open
/// and bears the labels of its moment; a second toggle closes that same entry
/// with its own time label and appends nothing. The entries that were there
/// before are as they were.
pub proof fn lemma_toggle_twice(sheet: TimesheetView, first: StampView, second: StampView)
    requires
        !sheet.is_clocked_in(),
        second.time.len() > 0,
    ensures
        sheet.toggled(first).entries == sheet.entries.push(first.opening()),
        sheet.toggled(first).is_clocked_in(),
        sheet.toggled(first).toggled(second).entries == sheet.entries.push(
            first.opening().closed_at(second.time),
        ),
        !sheet.toggled(first).toggled(second).is_clocked_in(),
        sheet.toggled(first).toggled(second).name == sheet.name,
{
    let opened = sheet.toggled(first);
    assert(opened.entries.last() == first.opening());
    assert(opened.toggled(second).entries =~= sheet.entries.push(
        first.opening().closed_at(second.time),
    ));
}

/// Clocking in and clocking out alternate: a toggle at a moment whose time
/// label is set clocks out of a timesheet that was clocked in, and in to one
/// that was not.
pub proof fn lemma_toggle_alternates(sheet: TimesheetView, now: StampView)
    requires
        now.time.len() > 0,
    ensures
        sheet.toggled(now).is_clocked_in() == !sheet.is_clocked_in(),
{
}

/// A toggle never removes an entry and never touches one that is closed:
/// the time that closed an entry stays. At most the last entry changes, and
/// then only its `time_out`.
pub proof fn lemma_toggle_keeps_closed(sheet: TimesheetView, now: StampView)
    ensures
        sheet.toggled(now).name == sheet.name,
        sheet.entries.len() <= sheet.toggled(now).entries.len() <= sheet.entries.len() + 1,
        forall|i: int|
            0 <= i < sheet.entries.len() && !sheet.entries[i].is_open() ==> #[trigger] sheet.toggled(
                now,
            ).entries[i] == sheet.entries[i],
        forall|i: int|
            0 <= i < sheet.entries.len() - 1 ==> #[trigger] sheet.toggled(now).entries[i]
                == sheet.entries[i],
        forall|i: int|
            0 <= i < sheet.entries.len() ==> (#[trigger] sheet.toggled(now).entries[i]).date
                == sheet.entries[i].date && sheet.toggled(now).entries[i].time_in
                == sheet.entries[i].time_in,
{
}

/// A session that has quit takes no more input: no key changes it or asks
/// for anything.
pub proof fn lemma_exit_is_final(app: AppView, keys: Seq<KeyInput>, now: StampView)
    requires
        app.current_screen == CurrentScreen::Exiting,
    ensures
        after_keys(app, keys, now) == app,
        all_quiet(app, keys, now),
    decreases keys.len(),
{
    if keys.len() > 0 {
        let front = keys.drop_last();
        lemma_exit_is_final(app, front, now);
        assert forall|i: int| 0 <= i < keys.len() implies (#[trigger] after_keys(
            app,
            keys.take(i),
            now,
        )).key_answer(keys[i]) == Ok::<RequestView, LoggrError>(RequestView::Nothing) by {
            lemma_exit_is_final(app, keys.take(i), now);
        }
    }
}

/// From every screen but the exit screen the command to quit leads to the
/// exit screen, stops the session, and does nothing else.
pub proof fn lemma_quit_from_anywhere(app: AppView, key: KeyInput, now: StampView)
    requires
        key.quits(),
    ensures
        app.after_key(key, now).current_screen == CurrentScreen::Exiting,
        app.current_screen != CurrentScreen::Exiting ==> app.after_key(key, now) == app.quitted(),
        app.key_answer(key) == Ok::<RequestView, LoggrError>(RequestView::Nothing),
{
}

} // verus!
