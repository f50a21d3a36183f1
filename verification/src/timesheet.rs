//! Timesheets: the ordered log of clock entries of one project.

use crate::error::LoggrError;
use vstd::prelude::*;

verus! {

/// The value of an entry: three labels.
pub struct EntryView {
    pub date: Seq<char>,
    pub time_in: Seq<char>,
    pub time_out: Seq<char>,
}

impl EntryView {
    /// An entry is open while its `time_out` is unset, that is empty: the
    /// project is then clocked in.
    pub open spec fn is_open(self) -> bool {
        self.time_out.len() == 0
    }

    /// This entry with `time` written as its `time_out`.
    pub open spec fn closed_at(self, time: Seq<char>) -> EntryView {
        EntryView { date: self.date, time_in: self.time_in, time_out: time }
    }
}

/// The value of a timesheet: its name and its entries, oldest first.
pub struct TimesheetView {
    pub name: Seq<char>,
    pub entries: Seq<EntryView>,
}

/// The value of a stamp: the labels of one moment.
pub struct StampView {
    pub date: Seq<char>,
    pub time: Seq<char>,
}

impl StampView {
    /// The entry that clocking in at this moment opens.
    pub open spec fn opening(self) -> EntryView {
        EntryView { date: self.date, time_in: self.time, time_out: Seq::<char>::empty() }
    }
}

impl TimesheetView {
    /// Whether the project is clocked in: there is a last entry and it is open.
    pub open spec fn is_clocked_in(self) -> bool {
        self.entries.len() > 0 && self.entries.last().is_open()
    }

    /// The timesheet after one clock toggle at `now`. Clocked in, the last
    /// entry is closed with the time label; otherwise a new open entry is
    /// appended. No other entry changes.
    pub open spec fn toggled(self, now: StampView) -> TimesheetView {
        if self.is_clocked_in() {
            TimesheetView {
                name: self.name,
                entries: self.entries.update(
                    self.entries.len() - 1,
                    self.entries.last().closed_at(now.time),
                ),
            }
        } else {
            TimesheetView { name: self.name, entries: self.entries.push(now.opening()) }
        }
    }
}

/// The date and time labels of one moment, as the clock of the surrounding
/// program words them. The time label is never empty, so that a time written
/// into an entry always reads as set.
pub struct Stamp {
    date: String,
    time: String,
}

impl View for Stamp {
    type V = StampView;

    closed spec fn view(&self) -> StampView {
        StampView { date: self.date@, time: self.time@ }
    }
}

impl Stamp {
    #[verifier::type_invariant]
    spec fn time_is_set(self) -> bool {
        self.time@.len() > 0
    }

    /// A stamp of the two labels, or `None` where the time label is empty.
    pub fn new(date: String, time: String) -> (stamp: Option<Stamp>)
        ensures
            stamp is None <==> time@.len() == 0,
            stamp matches Some(s) ==> s@ == (StampView { date: date@, time: time@ }),
    {
        if time.as_str().is_empty() {
            None
        } else {
            Some(Stamp { date, time })
        }
    }

    /// The date label.
    pub fn date(&self) -> (date: &String)
        ensures
            date@ == self@.date,
    {
        &self.date
    }

    /// The time label, which is not empty.
    pub fn time(&self) -> (time: &String)
        ensures
            time@ == self@.time,
            time@.len() > 0,
    {
        proof {
            use_type_invariant(self);
        }
        &self.time
    }
}

/// One clock-in/clock-out record with a date label.
#[derive(Debug, PartialEq, Eq)]
pub struct TimesheetEntry {
    pub date: String,
    pub time_in: String,
    pub time_out: String,
}

impl View for TimesheetEntry {
    type V = EntryView;

    open spec fn view(&self) -> EntryView {
        EntryView { date: self.date@, time_in: self.time_in@, time_out: self.time_out@ }
    }
}

impl Clone for TimesheetEntry {
    fn clone(&self) -> (copy: Self)
        ensures
            copy@ == self@,
    {
        TimesheetEntry {
            date: self.date.clone(),
            time_in: self.time_in.clone(),
            time_out: self.time_out.clone(),
        }
    }
}

impl TimesheetEntry {
    /// An entry of the three labels.
    pub fn new(date: String, time_in: String, time_out: String) -> (entry: TimesheetEntry)
        ensures
            entry@ == (EntryView { date: date@, time_in: time_in@, time_out: time_out@ }),
    {
        TimesheetEntry { date, time_in, time_out }
    }

    /// Whether the entry is open.
    pub fn is_open(&self) -> (open: bool)
        ensures
            open == self@.is_open(),
    {
        self.time_out.as_str().is_empty()
    }
}

/// The values of a run of entries.
pub open spec fn entry_views(entries: Seq<TimesheetEntry>) -> Seq<EntryView> {
    Seq::new(entries.len(), |i: int| entries[i]@)
}

/// The ordered log of clock entries of one project.
#[derive(Debug, PartialEq, Eq)]
pub struct Timesheet {
    pub name: String,
    pub entries: Vec<TimesheetEntry>,
}

impl View for Timesheet {
    type V = TimesheetView;

    open spec fn view(&self) -> TimesheetView {
        TimesheetView { name: self.name@, entries: entry_views(self.entries@) }
    }
}

impl Clone for Timesheet {
    fn clone(&self) -> (copy: Self)
        ensures
            copy@ == self@,
    {
        let mut entries: Vec<TimesheetEntry> = Vec::new();
        let mut i: usize = 0;
        while i < self.entries.len()
            invariant
                i <= self.entries.len(),
                entries.len() == i,
                forall|j: int| 0 <= j < i ==> entries@[j]@ == self.entries@[j]@,
            decreases self.entries.len() - i,
        {
            entries.push(self.entries[i].clone());
            i += 1;
        }
        assert(entry_views(entries@) =~= entry_views(self.entries@));
        Timesheet { name: self.name.clone(), entries }
    }
}

impl Timesheet {
    /// A timesheet of the given name and entries.
    pub fn new(name: String, entries: Vec<TimesheetEntry>) -> (sheet: Timesheet)
        ensures
            sheet.name == name,
            sheet.entries == entries,
            sheet@ == (TimesheetView { name: name@, entries: entry_views(entries@) }),
    {
        Timesheet { name, entries }
    }

    /// Whether the project is clocked in.
    pub fn is_clocked_in(&self) -> (clocked_in: bool)
        ensures
            clocked_in == self@.is_clocked_in(),
    {
        let n = self.entries.len();
        n > 0 && self.entries[n - 1].is_open()
    }

    /// Toggles the clock at `now`: closes the open entry, or opens a new one.
    /// Clocking in and clocking out alternate.
    pub fn clock_io(&mut self, now: &Stamp)
        ensures
            final(self)@ == old(self)@.toggled(now@),
            final(self)@.is_clocked_in() == !old(self)@.is_clocked_in(),
    {
        proof {
            use_type_invariant(now);
        }
        let n = self.entries.len();
        if self.is_clocked_in() {
            let last = &self.entries[n - 1];
            let closed = TimesheetEntry::new(
                last.date.clone(),
                last.time_in.clone(),
                now.time().clone(),
            );
            self.entries.set(n - 1, closed);
            assert(entry_views(self.entries@) =~= old(self)@.toggled(now@).entries);
        } else {
            let opened = TimesheetEntry::new(now.date().clone(), now.time().clone(), String::new());
            self.entries.push(opened);
            assert(entry_views(self.entries@) =~= old(self)@.toggled(now@).entries);
        }
    }
}

/// The value of an outcome that is a timesheet or a condition.
pub open spec fn sheet_view(outcome: Result<Timesheet, LoggrError>) -> Result<
    TimesheetView,
    LoggrError,
> {
    match outcome {
        Ok(sheet) => Ok(sheet@),
        Err(e) => Err(e),
    }
}

} // verus!
