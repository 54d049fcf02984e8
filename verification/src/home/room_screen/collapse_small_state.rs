//! Runs of small state events by their place in the timeline.

use vstd::prelude::*;

verus! {

/// A run of consecutive small state events: the indices of its first and of
/// its last item in the timeline.
#[derive(Clone, Copy, Debug, PartialEq, Eq, Structural)]
pub struct CollapsedStateEvents {
    start_index: usize,
    end_index: usize,
}

impl CollapsedStateEvents {
    /// The run from `start_index` to `end_index`, both included; `None`
    /// where the end lies before the start.
    pub fn new(start_index: usize, end_index: usize) -> (run: Option<Self>)
        ensures
            match run {
                Some(run) => start_index <= end_index && run.start() == start_index && run.end()
                    == end_index,
                None => start_index > end_index,
            },
    {
        if start_index <= end_index {
            Some(CollapsedStateEvents { start_index, end_index })
        } else {
            None
        }
    }

    /// The index of the first item of the run.
    pub closed spec fn start(self) -> usize {
        self.start_index
    }

    /// The index of the last item of the run.
    pub closed spec fn end(self) -> usize {
        self.end_index
    }

    /// The index of the first item of the run.
    pub fn start_index(&self) -> (index: usize)
        ensures
            index == self.start(),
    {
        self.start_index
    }

    /// The index of the last item of the run.
    pub fn end_index(&self) -> (index: usize)
        ensures
            index == self.end(),
    {
        self.end_index
    }

    /// Whether the item at `index` belongs to the run.
    pub fn contains(&self, index: usize) -> (inside: bool)
        ensures
            inside == (self.start() <= index <= self.end()),
    {
        self.start_index <= index && index <= self.end_index
    }
}

} // verus!
