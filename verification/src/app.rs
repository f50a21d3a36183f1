//! The session: the screen that is shown, the project list, the loaded
//! timesheet, the two highlight cursors and the text being typed.

use crate::cursor::{clamp, clamped, in_list, scroll, scrolled, ScrollDirection};
use crate::error::LoggrError;
use crate::keys::{Key, KeyInput};
use crate::timesheet::{sheet_view, EntryView, Stamp, StampView, Timesheet, TimesheetView};
use vstd::prelude::*;

verus! {

/// The screen that the session shows. Exactly one is active at a time.
#[derive(Clone, Copy, Debug, PartialEq, Eq, Structural)]
pub enum CurrentScreen {
    /// The entries of the loaded timesheet.
    Main,
    /// The project list, for browsing and selecting.
    ProjectList,
    /// The text entry for the name of a new project.
    ProjectAdding,
    /// The session has quit and takes no more input.
    Exiting,
}

/// Whether no two of the names are equal.
pub open spec fn distinct(names: Seq<Seq<char>>) -> bool {
    forall|i: int, j: int| 0 <= i < j < names.len() ==> names[i] != names[j]
}

/// The names without their repeats: each name stands where it stood first,
/// and every later name equal to it is left out.
pub open spec fn without_repeats(names: Seq<Seq<char>>) -> Seq<Seq<char>>
    decreases names.len(),
{
    if names.len() == 0 {
        names
    } else {
        let front = without_repeats(names.drop_last());
        if front.contains(names.last()) {
            front
        } else {
            front.push(names.last())
        }
    }
}

/// The value of a session.
pub struct AppView {
    pub running: bool,
    pub current_screen: CurrentScreen,
    pub loaded_project: Option<TimesheetView>,
    pub project_list: Seq<Seq<char>>,
    pub highlighted_project: int,
    pub project_name_input: Seq<char>,
    pub selected_project: int,
    pub highlighted_entry: int,
}

impl AppView {
    /// The session at its start, with the given project names.
    pub open spec fn start(names: Seq<Seq<char>>) -> AppView {
        AppView {
            running: true,
            current_screen: CurrentScreen::Main,
            loaded_project: None,
            project_list: names,
            highlighted_project: 0,
            project_name_input: Seq::<char>::empty(),
            selected_project: 0,
            highlighted_entry: 0,
        }
    }

    /// The number of entries that can be highlighted: those of the loaded
    /// timesheet, or none.
    pub open spec fn entry_count(self) -> int {
        match self.loaded_project {
            Some(sheet) => sheet.entries.len() as int,
            None => 0,
        }
    }

    /// What holds of a session at all times: it runs until it is on the exit
    /// screen; no two names of the project list are equal; each highlight
    /// stands on a row of its list, or at 0 where the list is empty; while a
    /// timesheet is loaded the selected project is one of the list; and text
    /// is typed on the text entry screen only.
    pub open spec fn inv(self) -> bool {
        &&& self.running <==> self.current_screen != CurrentScreen::Exiting
        &&& distinct(self.project_list)
        &&& in_list(self.highlighted_project, self.project_list.len() as int)
        &&& in_list(self.highlighted_entry, self.entry_count())
        &&& self.loaded_project is Some ==> 0 <= self.selected_project < self.project_list.len()
        &&& self.current_screen == CurrentScreen::Main || self.current_screen
            == CurrentScreen::ProjectList ==> self.project_name_input.len() == 0
    }

    /// The session on another screen.
    pub open spec fn on_screen(self, screen: CurrentScreen) -> AppView {
        AppView { current_screen: screen, ..self }
    }

    /// The session with other text in the text entry.
    pub open spec fn with_input(self, input: Seq<char>) -> AppView {
        AppView { project_name_input: input, ..self }
    }

    /// The session after it quit.
    pub open spec fn quitted(self) -> AppView {
        AppView { running: false, current_screen: CurrentScreen::Exiting, ..self }
    }

    /// The session after one move of the project highlight.
    pub open spec fn project_scrolled(self, direction: ScrollDirection) -> AppView {
        AppView {
            highlighted_project: scrolled(
                self.highlighted_project,
                self.project_list.len() as int,
                direction,
            ),
            ..self
        }
    }

    /// The session after one move of the entry highlight. With no timesheet
    /// loaded nothing moves.
    pub open spec fn entry_scrolled(self, direction: ScrollDirection) -> AppView {
        match self.loaded_project {
            Some(sheet) => AppView {
                highlighted_entry: scrolled(
                    self.highlighted_entry,
                    sheet.entries.len() as int,
                    direction,
                ),
                ..self
            },
            None => self,
        }
    }

    /// The session after one toggle of the clock at `now`. With no timesheet
    /// loaded nothing changes.
    pub open spec fn clocked(self, now: StampView) -> AppView {
        match self.loaded_project {
            Some(sheet) => AppView { loaded_project: Some(sheet.toggled(now)), ..self },
            None => self,
        }
    }

    /// What an operation answers that needs a loaded timesheet.
    pub open spec fn needing_project(self) -> Result<(), LoggrError> {
        if self.loaded_project is Some {
            Ok(())
        } else {
            Err(LoggrError::NoProjectLoaded)
        }
    }
}

/// The value of a request.
pub enum RequestView {
    Nothing,
    Load(Seq<char>),
    Save(TimesheetView),
}

impl AppView {
    /// The name under the project highlight, where it stands on a row.
    pub open spec fn highlighted_name(self) -> Option<Seq<char>> {
        if 0 <= self.highlighted_project < self.project_list.len() {
            Some(self.project_list[self.highlighted_project])
        } else {
            None
        }
    }

    /// Whether the session is ready to take the timesheet of the highlighted
    /// project: it shows the project list and the highlight stands on a row.
    pub open spec fn can_select(self) -> bool {
        self.current_screen == CurrentScreen::ProjectList && self.highlighted_name() is Some
    }

    /// The session after the store answered the request to load the
    /// highlighted project. A timesheet that came, while the session could
    /// select, is now the loaded one: the highlighted project is the selected
    /// one, and the entry highlight is brought back into the new entries. In
    /// every other case nothing changes.
    pub open spec fn after_load(self, outcome: Result<TimesheetView, LoggrError>) -> AppView {
        match outcome {
            Ok(sheet) => if self.can_select() {
                AppView {
                    loaded_project: Some(sheet),
                    selected_project: self.highlighted_project,
                    highlighted_entry: clamped(self.highlighted_entry, sheet.entries.len() as int),
                    ..self
                }
            } else {
                self
            },
            Err(_) => self,
        }
    }

    /// The timesheet with which a new project starts: it has the typed name
    /// and no entry.
    pub open spec fn new_sheet(self) -> TimesheetView {
        TimesheetView { name: self.project_name_input, entries: Seq::<EntryView>::empty() }
    }

    /// What keeps the typed name from becoming a project, if anything does:
    /// it is empty, or the project list holds it already.
    pub open spec fn name_refusal(self) -> Option<LoggrError> {
        if self.project_name_input.len() == 0 {
            Some(LoggrError::EmptyInput)
        } else if self.project_list.contains(self.project_name_input) {
            Some(LoggrError::DuplicateName)
        } else {
            None
        }
    }

    /// Whether the session is ready to take a new project: it shows the text
    /// entry, and the typed name is not empty and not yet in the project
    /// list.
    pub open spec fn can_add(self) -> bool {
        self.current_screen == CurrentScreen::ProjectAdding && self.name_refusal() is None
    }

    /// The session with the typed name appended to the project list, back on
    /// the project list with the text entry cleared.
    pub open spec fn committed(self) -> AppView {
        AppView {
            project_list: self.project_list.push(self.project_name_input),
            current_screen: CurrentScreen::ProjectList,
            project_name_input: Seq::<char>::empty(),
            ..self
        }
    }

    /// The session after the store answered the request to save the
    /// timesheet of a new project. Where the store succeeded, while the
    /// session could add, the name is committed. In every other case nothing
    /// changes.
    pub open spec fn after_save(self, outcome: Result<(), LoggrError>) -> AppView {
        if outcome is Ok && self.can_add() {
            self.committed()
        } else {
            self
        }
    }

    /// What the session answers once the store has answered a request to
    /// save: on the text entry a name that cannot become a project is
    /// reported, whatever the store said; otherwise the answer is the
    /// store's.
    pub open spec fn save_answer(self, outcome: Result<(), LoggrError>) -> Result<(), LoggrError> {
        if self.current_screen == CurrentScreen::ProjectAdding {
            match self.name_refusal() {
                Some(condition) => Err(condition),
                None => outcome,
            }
        } else {
            outcome
        }
    }

    /// The text entry after the last character was removed. Empty, it stays
    /// empty.
    pub open spec fn erased(self) -> Seq<char> {
        if self.project_name_input.len() > 0 {
            self.project_name_input.drop_last()
        } else {
            self.project_name_input
        }
    }

    /// The session after a key on the main screen: `h` shows the project
    /// list, the scroll keys move the entry highlight.
    pub open spec fn after_main_key(self, key: KeyInput) -> AppView {
        if key.key == Key::Char('h') {
            self.on_screen(CurrentScreen::ProjectList)
        } else {
            match key.scrolls() {
                Some(direction) => self.entry_scrolled(direction),
                None => self,
            }
        }
    }

    /// The session after a key on the project list: the scroll keys move the
    /// project highlight, the right arrow and `l` show the main screen, `a`
    /// opens an empty text entry, `c` and `C` toggle the clock. Enter changes
    /// nothing by itself: it asks for the highlighted project.
    pub open spec fn after_list_key(self, key: KeyInput, now: StampView) -> AppView {
        match key.scrolls() {
            Some(direction) => self.project_scrolled(direction),
            None => match key.key {
                Key::Right | Key::Char('l') => self.on_screen(CurrentScreen::Main),
                Key::Char('a') => self.on_screen(CurrentScreen::ProjectAdding).with_input(
                    Seq::<char>::empty(),
                ),
                Key::Char('c') | Key::Char('C') => self.clocked(now),
                _ => self,
            },
        }
    }

    /// The session after a key on the text entry: control with `q` clears the
    /// text and goes back to the project list, any other character is
    /// appended, backspace removes the last character. Enter changes nothing
    /// by itself: it asks to save the new project, or reports why the typed
    /// name cannot become one.
    pub open spec fn after_adding_key(self, key: KeyInput) -> AppView {
        if key.cancels() {
            self.on_screen(CurrentScreen::ProjectList).with_input(Seq::<char>::empty())
        } else {
            match key.key {
                Key::Char(ch) => self.with_input(self.project_name_input.push(ch)),
                Key::Backspace => self.with_input(self.erased()),
                _ => self,
            }
        }
    }

    /// The session after one key at `now`. On the exit screen no key does
    /// anything. Elsewhere the command to quit comes first and does nothing
    /// but quit; every other key is read by the screen that is shown, and a
    /// key that the screen does not know changes nothing.
    pub open spec fn after_key(self, key: KeyInput, now: StampView) -> AppView {
        if self.current_screen == CurrentScreen::Exiting {
            self
        } else if key.quits() {
            self.quitted()
        } else {
            match self.current_screen {
                CurrentScreen::Main => self.after_main_key(key),
                CurrentScreen::ProjectList => self.after_list_key(key, now),
                CurrentScreen::ProjectAdding => self.after_adding_key(key),
                CurrentScreen::Exiting => self,
            }
        }
    }

    /// Whether the key is one that a screen reads before any other and that
    /// asks nothing of the store: any key on the exit screen, and the command
    /// to quit.
    pub open spec fn key_is_settled(self, key: KeyInput) -> bool {
        self.current_screen == CurrentScreen::Exiting || key.quits()
    }

    /// What the session answers to one key: the request that the program
    /// around it has to carry out, or the condition that made the key do
    /// nothing.
    ///
    /// Scrolling the entries on the main screen and toggling the clock on the
    /// project list need a loaded timesheet. Enter on the project list asks to
    /// load the highlighted project, and asks nothing while the list is empty.
    /// Enter on the text entry asks to save the timesheet of the new project;
    /// for a blank name, and for a name that the project list holds already,
    /// it asks nothing of the store and reports the name instead.
    pub open spec fn key_answer(self, key: KeyInput) -> Result<RequestView, LoggrError> {
        if self.key_is_settled(key) {
            Ok(RequestView::Nothing)
        } else {
            match self.current_screen {
                CurrentScreen::Main => if key.key != Key::Char('h') && key.scrolls() is Some
                    && self.loaded_project is None {
                    Err(LoggrError::NoProjectLoaded)
                } else {
                    Ok(RequestView::Nothing)
                },
                CurrentScreen::ProjectList => if key.scrolls() is Some {
                    Ok(RequestView::Nothing)
                } else {
                    match key.key {
                        Key::Char('c') | Key::Char('C') => if self.loaded_project is None {
                            Err(LoggrError::NoProjectLoaded)
                        } else {
                            Ok(RequestView::Nothing)
                        },
                        Key::Enter => match self.highlighted_name() {
                            Some(name) => Ok(RequestView::Load(name)),
                            None => Ok(RequestView::Nothing),
                        },
                        _ => Ok(RequestView::Nothing),
                    }
                },
                CurrentScreen::ProjectAdding => if !key.cancels() && key.key == Key::Enter {
                    match self.name_refusal() {
                        Some(condition) => Err(condition),
                        None => Ok(RequestView::Save(self.new_sheet())),
                    }
                } else {
                    Ok(RequestView::Nothing)
                },
                CurrentScreen::Exiting => Ok(RequestView::Nothing),
            }
        }
    }
}

/// What the session asks the program around it to do after a key.
#[derive(Debug, PartialEq, Eq)]
pub enum Request {
    /// Nothing.
    Nothing,
    /// Load the timesheet of the named project from the store, and hand the
    /// outcome to `select_project`.
    Load(String),
    /// Save the timesheet to the store, and hand the outcome to
    /// `add_project`.
    Save(Timesheet),
}

impl View for Request {
    type V = RequestView;

    open spec fn view(&self) -> RequestView {
        match self {
            Request::Nothing => RequestView::Nothing,
            Request::Load(name) => RequestView::Load(name@),
            Request::Save(sheet) => RequestView::Save(sheet@),
        }
    }
}

/// The value of what the session answered to a key.
pub open spec fn answer_view(answer: Result<Request, LoggrError>) -> Result<
    RequestView,
    LoggrError,
> {
    match answer {
        Ok(request) => Ok(request@),
        Err(e) => Err(e),
    }
}

/// The values of a list of names.
pub open spec fn name_views(names: Seq<String>) -> Seq<Seq<char>> {
    Seq::new(names.len(), |i: int| names[i]@)
}

/// The application state: one session of the time tracker.
pub struct App {
    pub running: bool,
    pub current_screen: CurrentScreen,
    pub loaded_project: Option<Timesheet>,
    pub project_list: Vec<String>,
    pub highlighted_project: usize,
    pub project_name_input: String,
    pub selected_project: usize,
    pub highlighted_entry: usize,
}

impl View for App {
    type V = AppView;

    open spec fn view(&self) -> AppView {
        AppView {
            running: self.running,
            current_screen: self.current_screen,
            loaded_project: match self.loaded_project {
                Some(sheet) => Some(sheet@),
                None => None,
            },
            project_list: name_views(self.project_list@),
            highlighted_project: self.highlighted_project as int,
            project_name_input: self.project_name_input@,
            selected_project: self.selected_project as int,
            highlighted_entry: self.highlighted_entry as int,
        }
    }
}

impl App {
    /// A session at its start: running, on the main screen, with no project
    /// in the list and none loaded.
    pub fn new() -> (app: App)
        ensures
            app@ == AppView::start(Seq::<Seq<char>>::empty()),
            app@.inv(),
    {
        let app = App::with_projects(Vec::new());
        assert(app@.project_list =~= Seq::<Seq<char>>::empty());
        app
    }

    /// A session at its start whose project list holds `names`, in their
    /// order. A name that comes more than once is taken where it comes first
    /// and left out after that, so that no two names of the list are equal.
    pub fn with_projects(names: Vec<String>) -> (app: App)
        ensures
            app@ == AppView::start(without_repeats(name_views(names@))),
            distinct(name_views(names@)) ==> app@.project_list == name_views(names@),
            app@.inv(),
    {
        let ghost given = name_views(names@);
        let mut kept: Vec<String> = Vec::new();
        let mut i: usize = 0;
        assert(given.take(0) =~= Seq::<Seq<char>>::empty());
        while i < names.len()
            invariant
                i <= names.len(),
                given == name_views(names@),
                name_views(kept@) == without_repeats(given.take(i as int)),
            decreases names.len() - i,
        {
            proof {
                assert(given.take(i + 1).drop_last() =~= given.take(i as int));
                assert(given.take(i + 1).last() == names@[i as int]@);
            }
            if !holds_name(&kept, &names[i]) {
                let ghost before = name_views(kept@);
                kept.push(names[i].clone());
                assert(name_views(kept@) =~= before.push(names@[i as int]@));
            }
            i += 1;
        }
        proof {
            assert(given.take(names.len() as int) =~= given);
            lemma_without_repeats(given);
        }
        App {
            running: true,
            current_screen: CurrentScreen::Main,
            loaded_project: None,
            project_list: kept,
            highlighted_project: 0,
            selected_project: 0,
            project_name_input: String::new(),
            highlighted_entry: 0,
        }
    }

    /// Whether the project list holds `name`.
    pub fn has_project(&self, name: &String) -> (held: bool)
        ensures
            held == self@.project_list.contains(name@),
    {
        holds_name(&self.project_list, name)
    }

    /// What keeps the typed name from becoming a project, if anything does.
    pub fn name_refusal(&self) -> (refusal: Option<LoggrError>)
        ensures
            refusal == self@.name_refusal(),
    {
        if self.project_name_input.as_str().is_empty() {
            Some(LoggrError::EmptyInput)
        } else if holds_name(&self.project_list, &self.project_name_input) {
            Some(LoggrError::DuplicateName)
        } else {
            None
        }
    }

    /// Quits: the session stops running and shows the exit screen.
    pub fn quit(&mut self)
        ensures
            final(self)@ == old(self)@.quitted(),
            old(self)@.inv() ==> final(self)@.inv(),
    {
        self.running = false;
        self.current_screen = CurrentScreen::Exiting;
    }

    /// Moves the project highlight by one row.
    pub fn scroll_project_list(&mut self, direction: ScrollDirection)
        ensures
            final(self)@ == old(self)@.project_scrolled(direction),
            old(self)@.inv() ==> final(self)@.inv(),
    {
        self.highlighted_project = scroll(
            self.highlighted_project,
            self.project_list.len(),
            direction,
        );
    }

    /// Moves the entry highlight by one row within the loaded timesheet.
    /// With none loaded it reports so and moves nothing.
    pub fn scroll_entries_list(&mut self, direction: ScrollDirection) -> (done: Result<
        (),
        LoggrError,
    >)
        ensures
            final(self)@ == old(self)@.entry_scrolled(direction),
            done == old(self)@.needing_project(),
            old(self)@.inv() ==> final(self)@.inv(),
    {
        match &self.loaded_project {
            Some(project) => {
                self.highlighted_entry = scroll(
                    self.highlighted_entry,
                    project.entries.len(),
                    direction,
                );
                Ok(())
            },
            None => Err(LoggrError::NoProjectLoaded),
        }
    }

    /// Toggles the clock of the loaded timesheet at `now`. With none loaded
    /// it reports so and changes nothing.
    pub fn toggle_clock(&mut self, now: &Stamp) -> (done: Result<(), LoggrError>)
        ensures
            final(self)@ == old(self)@.clocked(now@),
            done == old(self)@.needing_project(),
            old(self)@.inv() ==> final(self)@.inv(),
    {
        match &mut self.loaded_project {
            Some(project) => {
                project.clock_io(now);
                Ok(())
            },
            None => Err(LoggrError::NoProjectLoaded),
        }
    }

    /// Takes what the store answered to the request to load the highlighted
    /// project. The answer is the store's: an error is handed on and leaves
    /// the session as it was.
    pub fn select_project(&mut self, outcome: Result<Timesheet, LoggrError>) -> (done: Result<
        (),
        LoggrError,
    >)
        ensures
            final(self)@ == old(self)@.after_load(sheet_view(outcome)),
            done is Ok <==> outcome is Ok,
            done matches Err(e) ==> outcome == Err::<Timesheet, LoggrError>(e),
            old(self)@.inv() ==> final(self)@.inv(),
    {
        match outcome {
            Ok(sheet) => {
                if self.current_screen == CurrentScreen::ProjectList && self.highlighted_project
                    < self.project_list.len() {
                    self.selected_project = self.highlighted_project;
                    self.highlighted_entry = clamp(self.highlighted_entry, sheet.entries.len());
                    self.loaded_project = Some(sheet);
                }
                Ok(())
            },
            Err(e) => Err(e),
        }
    }

    /// Takes what the store answered to the request to save the timesheet of
    /// a new project. Where it succeeded the typed name joins the project
    /// list; an error is handed on and leaves the session as it was, the
    /// typed name included. A name that is blank or in the list already is
    /// never taken.
    pub fn add_project(&mut self, outcome: Result<(), LoggrError>) -> (done: Result<
        (),
        LoggrError,
    >)
        ensures
            final(self)@ == old(self)@.after_save(outcome),
            done == old(self)@.save_answer(outcome),
            old(self)@.inv() ==> final(self)@.inv(),
    {
        if self.current_screen == CurrentScreen::ProjectAdding {
            if let Some(condition) = self.name_refusal() {
                return Err(condition);
            }
            if outcome.is_ok() {
                proof {
                    if distinct(self@.project_list) {
                        lemma_push_distinct(self@.project_list, self@.project_name_input);
                    }
                }
                self.project_list.push(self.project_name_input.clone());
                self.current_screen = CurrentScreen::ProjectList;
                self.project_name_input = String::new();
                assert(self@.project_list =~= old(self)@.committed().project_list);
            }
        }
        outcome
    }

    /// Reads one key that came on the main screen.
    fn handle_main_key(&mut self, key: KeyInput) -> (answer: Result<Request, LoggrError>)
        requires
            old(self).current_screen == CurrentScreen::Main,
            !old(self)@.key_is_settled(key),
        ensures
            final(self)@ == old(self)@.after_main_key(key),
            answer_view(answer) == old(self)@.key_answer(key),
    {
        if let Key::Char('h') = key.key {
            self.current_screen = CurrentScreen::ProjectList;
            return Ok(Request::Nothing);
        }
        match key.scroll_direction() {
            Some(direction) => match self.scroll_entries_list(direction) {
                Ok(()) => Ok(Request::Nothing),
                Err(e) => Err(e),
            },
            None => Ok(Request::Nothing),
        }
    }

    /// Reads one key that came on the project list.
    fn handle_list_key(&mut self, key: KeyInput, now: &Stamp) -> (answer: Result<
        Request,
        LoggrError,
    >)
        requires
            old(self).current_screen == CurrentScreen::ProjectList,
            !old(self)@.key_is_settled(key),
        ensures
            final(self)@ == old(self)@.after_list_key(key, now@),
            answer_view(answer) == old(self)@.key_answer(key),
    {
        if let Some(direction) = key.scroll_direction() {
            self.scroll_project_list(direction);
            return Ok(Request::Nothing);
        }
        match key.key {
            Key::Right | Key::Char('l') => {
                self.current_screen = CurrentScreen::Main;
                Ok(Request::Nothing)
            },
            Key::Char('a') => {
                self.current_screen = CurrentScreen::ProjectAdding;
                self.project_name_input = String::new();
                Ok(Request::Nothing)
            },
            Key::Char('c') | Key::Char('C') => match self.toggle_clock(now) {
                Ok(()) => Ok(Request::Nothing),
                Err(e) => Err(e),
            },
            Key::Enter => {
                if self.highlighted_project < self.project_list.len() {
                    Ok(Request::Load(self.project_list[self.highlighted_project].clone()))
                } else {
                    Ok(Request::Nothing)
                }
            },
            _ => Ok(Request::Nothing),
        }
    }

    /// Reads one key that came on the text entry.
    fn handle_adding_key(&mut self, key: KeyInput) -> (answer: Result<Request, LoggrError>)
        requires
            old(self).current_screen == CurrentScreen::ProjectAdding,
            !old(self)@.key_is_settled(key),
        ensures
            final(self)@ == old(self)@.after_adding_key(key),
            answer_view(answer) == old(self)@.key_answer(key),
    {
        if key.is_cancel() {
            self.current_screen = CurrentScreen::ProjectList;
            self.project_name_input = String::new();
            return Ok(Request::Nothing);
        }
        match key.key {
            Key::Char(ch) => {
                self.project_name_input.push(ch);
                Ok(Request::Nothing)
            },
            Key::Backspace => {
                self.project_name_input.pop();
                Ok(Request::Nothing)
            },
            Key::Enter => match self.name_refusal() {
                Some(condition) => Err(condition),
                None => {
                    let sheet = Timesheet::new(self.project_name_input.clone(), Vec::new());
                    assert(sheet@.entries =~= Seq::<EntryView>::empty());
                    Ok(Request::Save(sheet))
                },
            },
            _ => Ok(Request::Nothing),
        }
    }

    /// Reads one key at `now` and answers with the request that the program
    /// around the session has to carry out, or with the condition that made
    /// the key do nothing.
    pub fn handle_key(&mut self, key: KeyInput, now: &Stamp) -> (answer: Result<
        Request,
        LoggrError,
    >)
        ensures
            final(self)@ == old(self)@.after_key(key, now@),
            answer_view(answer) == old(self)@.key_answer(key),
            old(self)@.inv() ==> final(self)@.inv(),
    {
        proof {
            if self@.inv() {
                lemma_key_keeps_inv(self@, key, now@);
            }
        }
        match self.current_screen {
            CurrentScreen::Exiting => Ok(Request::Nothing),
            _ if key.is_quit() => {
                self.quit();
                Ok(Request::Nothing)
            },
            CurrentScreen::Main => self.handle_main_key(key),
            CurrentScreen::ProjectList => self.handle_list_key(key, now),
            CurrentScreen::ProjectAdding => self.handle_adding_key(key),
        }
    }
}

/// Whether the list holds `name`.
fn holds_name(list: &Vec<String>, name: &String) -> (held: bool)
    ensures
        held == name_views(list@).contains(name@),
{
    let mut i: usize = 0;
    while i < list.len()
        invariant
            i <= list.len(),
            forall|j: int| 0 <= j < i ==> name_views(list@)[j] != name@,
        decreases list.len() - i,
    {
        if list[i] == *name {
            assert(name_views(list@)[i as int] == name@);
            return true;
        }
        i += 1;
    }
    false
}

/// No key breaks what holds of a session at all times.
pub proof fn lemma_key_keeps_inv(app: AppView, key: KeyInput, now: StampView)
    requires
        app.inv(),
    ensures
        app.after_key(key, now).inv(),
{
}

/// A name that a list of different names does not hold can join it: the
/// names are still different.
pub proof fn lemma_push_distinct(names: Seq<Seq<char>>, name: Seq<char>)
    requires
        distinct(names),
        !names.contains(name),
    ensures
        distinct(names.push(name)),
{
    assert forall|i: int, j: int| 0 <= i < j < names.push(name).len() implies names.push(name)[i]
        != names.push(name)[j] by {
        if j == names.len() {
            assert(names.contains(names[i]));
        }
    }
}

/// Leaving out the repeats gives a list of different names that holds the
/// same names as before; a list of different names is left as it is.
pub proof fn lemma_without_repeats(names: Seq<Seq<char>>)
    ensures
        distinct(without_repeats(names)),
        forall|name: Seq<char>| #[trigger]
            without_repeats(names).contains(name) <==> names.contains(name),
        distinct(names) ==> without_repeats(names) == names,
        without_repeats(names).len() <= names.len(),
    decreases names.len(),
{
    if names.len() > 0 {
        let shorter = names.drop_last();
        let front = without_repeats(shorter);
        lemma_without_repeats(shorter);
        if !front.contains(names.last()) {
            lemma_push_distinct(front, names.last());
        }
        assert forall|name: Seq<char>| #[trigger]
            without_repeats(names).contains(name) <==> names.contains(name) by {
            if names.contains(name) {
                let i = choose|i: int| 0 <= i < names.len() && names[i] == name;
                if i < shorter.len() {
                    assert(shorter[i] == name);
                    assert(shorter.contains(name));
                    assert(front.contains(name));
                    let k = choose|k: int| 0 <= k < front.len() && front[k] == name;
                    assert(without_repeats(names)[k] == name);
                } else if !front.contains(names.last()) {
                    assert(without_repeats(names)[front.len() as int] == name);
                }
            }
            if without_repeats(names).contains(name) {
                let k = choose|k: int|
                    0 <= k < without_repeats(names).len() && without_repeats(names)[k] == name;
                if k < front.len() {
                    assert(front[k] == name);
                    assert(front.contains(name));
                    assert(shorter.contains(name));
                    let i = choose|i: int| 0 <= i < shorter.len() && shorter[i] == name;
                    assert(names[i] == name);
                } else {
                    assert(names[names.len() - 1] == name);
                }
            }
        }
        if distinct(names) {
            assert(distinct(shorter)) by {
                assert forall|i: int, j: int| 0 <= i < j < shorter.len() implies shorter[i]
                    != shorter[j] by {
                    assert(names[i] != names[j]);
                }
            }
            if shorter.contains(names.last()) {
                let i = choose|i: int| 0 <= i < shorter.len() && shorter[i] == names.last();
                assert(names[i] != names[names.len() - 1]);
            }
            assert(without_repeats(names) =~= names);
        }
    }
}

} // verus!
