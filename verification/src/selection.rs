//! The selection model: an ordered list of task texts plus an optional
//! selected index, with clamped navigation operations.
//!
//! Invariant: whenever an index is selected it lies within the task list.
//! Every operation is total — on an empty list navigation leaves the
//! selection at `None`, and an out-of-range request changes nothing.

use vstd::prelude::*;

verus! {

/// Text shown when no task is selected.
pub open spec fn no_selection_text() -> Seq<char> {
    "No task Selected"@
}

/// An ordered sequence of task texts and an optional selected index.
pub struct StatefulList {
    tasks: Vec<String>,
    selected: Option<usize>,
}

impl StatefulList {
    /// The task texts, in insertion order; duplicates allowed.
    pub closed spec fn items(&self) -> Seq<String> {
        self.tasks@
    }

    /// The selected index, if any.
    pub closed spec fn sel(&self) -> Option<usize> {
        self.selected
    }

    /// A selected index always lies within the task list.
    pub open spec fn wf(&self) -> bool {
        self.sel() matches Some(i) ==> i < self.items().len()
    }

    /// A fresh model over the given tasks, with nothing selected.
    pub fn new(tasks: Vec<String>) -> (out: Self)
        ensures
            out.wf(),
            out.items() == tasks@,
            out.sel() is None,
    {
        StatefulList { tasks, selected: None }
    }

    /// The selected index, if any.
    pub fn selected(&self) -> (r: Option<usize>)
        ensures
            r == self.sel(),
    {
        self.selected
    }

    /// How many tasks the list holds.
    pub fn len(&self) -> (n: usize)
        ensures
            n == self.items().len(),
    {
        self.tasks.len()
    }

    /// The task text at the given index.
    pub fn task_at(&self, i: usize) -> (r: &String)
        requires
            i < self.items().len(),
        ensures
            r == self.items()[i as int],
    {
        &self.tasks[i]
    }

    /// Advance the selection by one, clamped at the last index; select the
    /// first item when nothing is selected and the list is non-empty; leave
    /// an empty list unselected.
    pub fn move_next(&mut self)
        requires
            old(self).wf(),
        ensures
            final(self).wf(),
            final(self).items() == old(self).items(),
            old(self).items().len() == 0 ==> final(self).sel() is None,
            old(self).items().len() > 0 && old(self).sel() is None ==> final(self).sel()
                == Some(0usize),
            old(self).sel() matches Some(i) ==> final(self).sel() == Some(
                if i + 1 < old(self).items().len() {
                    (i + 1) as usize
                } else {
                    i
                },
            ),
    {
        let n = self.tasks.len();
        match self.selected {
            None => {
                if n > 0 {
                    self.selected = Some(0);
                }
            },
            Some(i) => {
                if i + 1 < n {
                    self.selected = Some(i + 1);
                }
            },
        }
    }

    /// Move the selection back by one, clamped at the first index; select
    /// the first item when nothing is selected and the list is non-empty;
    /// leave an empty list unselected.
    pub fn move_previous(&mut self)
        requires
            old(self).wf(),
        ensures
            final(self).wf(),
            final(self).items() == old(self).items(),
            old(self).items().len() == 0 ==> final(self).sel() is None,
            old(self).items().len() > 0 && old(self).sel() is None ==> final(self).sel()
                == Some(0usize),
            old(self).sel() matches Some(i) ==> final(self).sel() == Some(
                if i > 0 {
                    (i - 1) as usize
                } else {
                    0usize
                },
            ),
    {
        match self.selected {
            None => {
                if self.tasks.len() > 0 {
                    self.selected = Some(0);
                }
            },
            Some(i) => {
                if i > 0 {
                    self.selected = Some(i - 1);
                }
            },
        }
    }

    /// Select the given index; a request at or past the end of the list is
    /// a no-op and leaves the selection unchanged.
    pub fn select_index(&mut self, i: usize)
        requires
            old(self).wf(),
        ensures
            final(self).wf(),
            final(self).items() == old(self).items(),
            i < old(self).items().len() ==> final(self).sel() == Some(i),
            i >= old(self).items().len() ==> final(self).sel() == old(self).sel(),
    {
        if i < self.tasks.len() {
            self.selected = Some(i);
        }
    }

    /// Clear the selection.
    pub fn clear_selection(&mut self)
        requires
            old(self).wf(),
        ensures
            final(self).wf(),
            final(self).items() == old(self).items(),
            final(self).sel() is None,
    {
        self.selected = None;
    }

    /// The selected task's text, or the fixed no-selection sentinel when
    /// nothing is selected.
    pub fn current(&self) -> (r: String)
        requires
            self.wf(),
        ensures
            self.sel() is None ==> r@ == no_selection_text(),
            self.sel() matches Some(i) ==> r@ == self.items()[i as int]@,
    {
        match self.selected {
            None => "No task Selected".to_string(),
            Some(i) => self.tasks[i].clone(),
        }
    }
}

} // verus!
