//! What the screen shows of a session: the rows of the two lists with their
//! marks, and the line of instructions. How the rows are laid out and styled
//! is left to the program that draws them.

use crate::app::{App, AppView, CurrentScreen};
use crate::timesheet::{EntryView, TimesheetEntry};
use vstd::prelude::*;

verus! {

/// How a row of a list stands out.
#[derive(Clone, Copy, Debug, PartialEq, Eq, Structural)]
pub enum RowMark {
    /// The row does not stand out.
    Plain,
    /// The row of the project whose timesheet is loaded.
    Selected,
    /// The row under the highlight.
    Highlighted,
    /// The row under the highlight, of the project whose timesheet is loaded.
    HighlightedSelected,
}

impl RowMark {
    /// Whether the row is under the highlight.
    pub open spec fn highlighted(self) -> bool {
        self == RowMark::Highlighted || self == RowMark::HighlightedSelected
    }

    /// Whether the row is under the highlight.
    pub fn is_highlighted(&self) -> (highlighted: bool)
        ensures
            highlighted == self.highlighted(),
    {
        match self {
            RowMark::Highlighted | RowMark::HighlightedSelected => true,
            _ => false,
        }
    }
}

/// What a row starts with: a pointer where it is under the highlight, and as
/// many blanks where it is not.
pub open spec fn row_prefix(mark: RowMark) -> Seq<char> {
    if mark.highlighted() {
        "> "@
    } else {
        "  "@
    }
}

/// The label of an entry: its three labels, parted by a comma and a blank.
pub open spec fn entry_label(entry: EntryView) -> Seq<char> {
    entry.date + ", "@ + entry.time_in + ", "@ + entry.time_out
}

/// The value of a row.
pub open spec fn row_view(row: (RowMark, String)) -> (RowMark, Seq<char>) {
    (row.0, row.1@)
}

impl AppView {
    /// The mark of the row of the project at `index`. The selected project
    /// is marked only while a timesheet is loaded.
    pub open spec fn project_mark(self, index: int) -> RowMark {
        let highlighted = index == self.highlighted_project;
        let selected = self.loaded_project is Some && index == self.selected_project;
        if highlighted && selected {
            RowMark::HighlightedSelected
        } else if highlighted {
            RowMark::Highlighted
        } else if selected {
            RowMark::Selected
        } else {
            RowMark::Plain
        }
    }

    /// The mark of the row of the entry at `index`.
    pub open spec fn entry_mark(self, index: int) -> RowMark {
        if index == self.highlighted_entry {
            RowMark::Highlighted
        } else {
            RowMark::Plain
        }
    }

    /// The row of the project at `index`.
    pub open spec fn project_row(self, index: int) -> (RowMark, Seq<char>) {
        let mark = self.project_mark(index);
        (mark, row_prefix(mark) + self.project_list[index])
    }

    /// The row of the entry at `index` of the loaded timesheet.
    pub open spec fn entry_row(self, index: int) -> (RowMark, Seq<char>) {
        let mark = self.entry_mark(index);
        (mark, row_prefix(mark) + entry_label(self.loaded_project->0.entries[index]))
    }

    /// The rows of the project list, one for each project, in their order.
    pub open spec fn project_rows(self) -> Seq<(RowMark, Seq<char>)> {
        Seq::new(self.project_list.len(), |i: int| self.project_row(i))
    }

    /// The rows of the entries of the loaded timesheet, in their order; none
    /// where no timesheet is loaded.
    pub open spec fn entry_rows(self) -> Seq<(RowMark, Seq<char>)> {
        Seq::new(self.entry_count() as nat, |i: int| self.entry_row(i))
    }
}

/// The values of a run of rows.
pub open spec fn row_views(rows: Seq<(RowMark, String)>) -> Seq<(RowMark, Seq<char>)> {
    Seq::new(rows.len(), |i: int| row_view(rows[i]))
}

/// The instructions that a screen shows.
pub open spec fn instructions_of(screen: CurrentScreen) -> Seq<char> {
    match screen {
        CurrentScreen::Main => "`h` project mode | `CTRL + c quit`"@,
        CurrentScreen::ProjectList => "`j/down` move down | `k/up` move up | `ENTER` to load | `a` append project | `l` list mode"@,
        CurrentScreen::ProjectAdding => "type to enter a name | `CTRL q` back"@,
        CurrentScreen::Exiting => ""@,
    }
}

/// The instructions that a screen shows. The exit screen shows none.
pub fn instructions(screen: CurrentScreen) -> (text: &'static str)
    ensures
        text@ == instructions_of(screen),
{
    match screen {
        CurrentScreen::Main => "`h` project mode | `CTRL + c quit`",
        CurrentScreen::ProjectList => "`j/down` move down | `k/up` move up | `ENTER` to load | `a` append project | `l` list mode",
        CurrentScreen::ProjectAdding => "type to enter a name | `CTRL q` back",
        CurrentScreen::Exiting => "",
    }
}

/// The share of a length, in percent, that is left on each side of a part
/// that takes `share` percent of it and stands in the middle. A share above
/// 100 counts as 100.
pub open spec fn margin_of(share: int) -> int {
    if share >= 100 {
        0
    } else {
        (100 - share) / 2
    }
}

/// The share that is left on each side of a centered part.
pub fn centered_margin(share: u16) -> (margin: u16)
    ensures
        margin == margin_of(share as int),
        share <= 100 ==> 2 * margin + share <= 100,
{
    if share >= 100 {
        0
    } else {
        (100 - share) / 2
    }
}

/// The text of a row: the prefix of its mark, then its label.
pub fn row_text(mark: RowMark, label: &str) -> (text: String)
    ensures
        text@ == row_prefix(mark) + label@,
{
    let prefix = if mark.is_highlighted() {
        "> "
    } else {
        "  "
    };
    String::from_str(prefix).concat(label)
}

/// The label of an entry.
pub fn entry_text(entry: &TimesheetEntry) -> (text: String)
    ensures
        text@ == entry_label(entry@),
{
    let mut text = entry.date.clone();
    text.append(", ");
    text.append(entry.time_in.as_str());
    text.append(", ");
    text.append(entry.time_out.as_str());
    text
}

impl App {
    /// The mark of the row of the project at `index`.
    pub fn project_mark(&self, index: usize) -> (mark: RowMark)
        ensures
            mark == self@.project_mark(index as int),
    {
        let highlighted = index == self.highlighted_project;
        let selected = self.loaded_project.is_some() && index == self.selected_project;
        if highlighted && selected {
            RowMark::HighlightedSelected
        } else if highlighted {
            RowMark::Highlighted
        } else if selected {
            RowMark::Selected
        } else {
            RowMark::Plain
        }
    }

    /// The mark of the row of the entry at `index`.
    pub fn entry_mark(&self, index: usize) -> (mark: RowMark)
        ensures
            mark == self@.entry_mark(index as int),
    {
        if index == self.highlighted_entry {
            RowMark::Highlighted
        } else {
            RowMark::Plain
        }
    }

    /// The rows of the project list.
    pub fn project_rows(&self) -> (rows: Vec<(RowMark, String)>)
        ensures
            row_views(rows@) == self@.project_rows(),
    {
        let mut rows: Vec<(RowMark, String)> = Vec::new();
        let mut i: usize = 0;
        while i < self.project_list.len()
            invariant
                i <= self.project_list.len(),
                rows.len() == i,
                forall|j: int| 0 <= j < i ==> row_view(#[trigger] rows@[j]) == self@.project_row(j),
            decreases self.project_list.len() - i,
        {
            let mark = self.project_mark(i);
            rows.push((mark, row_text(mark, self.project_list[i].as_str())));
            i += 1;
        }
        assert(row_views(rows@) =~= self@.project_rows());
        rows
    }

    /// The rows of the entries of the loaded timesheet.
    pub fn entry_rows(&self) -> (rows: Vec<(RowMark, String)>)
        ensures
            row_views(rows@) == self@.entry_rows(),
    {
        let mut rows: Vec<(RowMark, String)> = Vec::new();
        match &self.loaded_project {
            Some(sheet) => {
                let mut i: usize = 0;
                while i < sheet.entries.len()
                    invariant
                        self.loaded_project == Some(*sheet),
                        i <= sheet.entries.len(),
                        rows.len() == i,
                        forall|j: int|
                            0 <= j < i ==> row_view(#[trigger] rows@[j]) == self@.entry_row(j),
                    decreases sheet.entries.len() - i,
                {
                    let mark = self.entry_mark(i);
                    let label = entry_text(&sheet.entries[i]);
                    rows.push((mark, row_text(mark, label.as_str())));
                    i += 1;
                }
                assert(row_views(rows@) =~= self@.entry_rows());
            },
            None => {
                assert(row_views(rows@) =~= self@.entry_rows());
            },
        }
        rows
    }
}

} // verus!
