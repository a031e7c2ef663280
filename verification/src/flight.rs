//! The dates whose documents are being fetched. Of the requests that want
//! the document of one date fetched at one time, one does the fetching and
//! the others wait for it.

use crate::calendar::{CalendarDate, Ymd};
use crate::key::DateKey;
use vstd::prelude::*;

verus! {

/// The board on which a request puts the date that it is about to fetch.
#[derive(Debug)]
pub struct FlightBoard {
    dates: Vec<CalendarDate>,
}

/// The dates that a list names.
pub open spec fn named(dates: Seq<CalendarDate>) -> Set<Ymd> {
    Set::new(|date: Ymd| exists|i: int| 0 <= i < dates.len() && (#[trigger] dates[i])@ == date)
}

impl View for FlightBoard {
    type V = Set<Ymd>;

    closed spec fn view(&self) -> Set<Ymd> {
        named(self.dates@)
    }
}

impl FlightBoard {
    /// A board with no date on it.
    pub fn new() -> (board: FlightBoard)
        ensures
            board@ == Set::<Ymd>::empty(),
    {
        let board = FlightBoard { dates: Vec::new() };
        assert(board@ =~= Set::<Ymd>::empty());
        board
    }

    /// Whether the document of `key` is being fetched.
    pub fn is_fetching(&self, key: &DateKey) -> (found: bool)
        ensures
            found == self@.contains(key@),
    {
        let date = key.date();
        let mut index: usize = 0;
        while index < self.dates.len()
            invariant
                index <= self.dates.len(),
                date@ == key@,
                forall|i: int| 0 <= i < index ==> (#[trigger] self.dates@[i])@ != key@,
            decreases self.dates.len() - index,
        {
            if self.dates[index].is_same(&date) {
                return true;
            }
            index = index + 1;
        }
        false
    }

    /// Puts the date of `key` on the board. Says whether it was not there
    /// before: then the caller is the one to fetch the document, and takes
    /// the date off the board when it has done so. Otherwise another request
    /// is fetching it, and the caller waits.
    pub fn claim(&mut self, key: &DateKey) -> (first: bool)
        ensures
            first == !old(self)@.contains(key@),
            final(self)@ == old(self)@.insert(key@),
    {
        if self.is_fetching(key) {
            assert(self@ =~= old(self)@.insert(key@));
            false
        } else {
            let date = key.date();
            self.dates.push(date);
            proof {
                let before = old(self).dates@;
                let after = self.dates@;
                assert(after[before.len() as int]@ == key@);
                assert forall|other: Ymd| #[trigger]
                    named(after).contains(other) == named(before).insert(key@).contains(
                        other,
                    ) by {
                    if named(before).contains(other) {
                        let i = choose|i: int| 0 <= i < before.len() && before[i]@ == other;
                        assert(after[i]@ == other);
                    }
                    if named(after).contains(other) && other != key@ {
                        let i = choose|i: int| 0 <= i < after.len() && after[i]@ == other;
                        assert(before[i]@ == other);
                    }
                }
                assert(self@ =~= old(self)@.insert(key@));
            }
            true
        }
    }

    /// Takes the date of `key` off the board.
    pub fn release(&mut self, key: &DateKey)
        ensures
            final(self)@ == old(self)@.remove(key@),
    {
        let date = key.date();
        let mut kept: Vec<CalendarDate> = Vec::new();
        let mut index: usize = 0;
        while index < self.dates.len()
            invariant
                index <= self.dates.len(),
                self.dates@ == old(self).dates@,
                date@ == key@,
                forall|i: int| 0 <= i < kept@.len() ==> (#[trigger] kept@[i])@ != key@,
                forall|i: int|
                    0 <= i < kept@.len() ==> named(self.dates@).contains((#[trigger] kept@[i])@),
                forall|i: int|
                    0 <= i < index && (#[trigger] self.dates@[i])@ != key@ ==> named(
                        kept@,
                    ).contains(self.dates@[i]@),
            decreases self.dates.len() - index,
        {
            let current = self.dates[index];
            if !current.is_same(&date) {
                let ghost before = kept@;
                kept.push(current);
                proof {
                    let last = before.len() as int;
                    assert(kept@[last]@ == current@);
                    assert forall|i: int|
                        0 <= i <= index && (#[trigger] self.dates@[i])@ != key@ implies named(
                        kept@,
                    ).contains(self.dates@[i]@) by {
                        if i < index {
                            assert(named(before).contains(self.dates@[i]@));
                            let j = choose|j: int|
                                0 <= j < before.len() && (#[trigger] before[j])@
                                    == self.dates@[i]@;
                            assert(kept@[j]@ == self.dates@[i]@);
                        } else {
                            assert(kept@[last]@ == self.dates@[i]@);
                        }
                    }
                }
            }
            index = index + 1;
        }
        proof {
            assert forall|other: Ymd| #[trigger]
                named(kept@).contains(other) == named(self.dates@).remove(key@).contains(
                    other,
                ) by {
                if named(kept@).contains(other) {
                    let i = choose|i: int| 0 <= i < kept@.len() && kept@[i]@ == other;
                    assert(kept@[i]@ != key@);
                }
                if named(self.dates@).contains(other) && other != key@ {
                    let i = choose|i: int|
                        0 <= i < self.dates@.len() && self.dates@[i]@ == other;
                    assert(self.dates@[i]@ != key@);
                }
            }
            assert(named(kept@) =~= old(self)@.remove(key@));
        }
        self.dates = kept;
    }
}

} // verus!
