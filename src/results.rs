//! The current page of results, the selected row, and the viewed watermark.
use vstd::prelude::*;

use crate::text::{parse_unsigned, parse_unsigned_str};

verus! {

/// One listing as the search service returns it.
#[derive(Clone, Debug, Default, PartialEq)]
pub struct Response {
    pub id: String,
    pub name: String,
    pub hash: String,
    pub date: String,
    pub filesize: String,
    pub category: String,
    pub sub_category: String,
    pub magnet: String,
    pub torrent: String,
    pub seeders: String,
    pub leechers: String,
    pub completed: String,
    pub status: String,
}

/// The number that a listing's identifier writes; 0 where it writes none.
pub open spec fn id_value(id: Seq<char>) -> nat {
    match parse_unsigned(id, u64::MAX as nat) {
        Some(v) => v,
        None => 0,
    }
}

/// The number that a listing's identifier writes; 0 where it writes none.
pub fn id_number(id: &str) -> (r: u64)
    ensures
        r == id_value(id@),
{
    match parse_unsigned_str(id, u64::MAX) {
        Some(v) => v,
        None => 0,
    }
}

/// Whether a listing with identifier `id` counts as viewed under `watermark`.
pub open spec fn viewed_under(id: Seq<char>, watermark: nat) -> bool {
    id_value(id) <= watermark
}

/// The selection after the list has been replaced by one of length `len`:
/// an index past the end moves to the last row, or away if no row is left.
pub open spec fn clamp_selection(current: Option<usize>, len: nat) -> Option<usize> {
    match current {
        Some(i) => if i < len {
            Some(i)
        } else if len == 0 {
            None
        } else {
            Some((len - 1) as usize)
        },
        None => None,
    }
}

/// The row reached by moving down `amount` rows in a list of `len > 0` rows.
pub open spec fn index_after_down(current: Option<usize>, amount: nat, len: nat) -> nat {
    match current {
        Some(i) => if i + amount >= len - 1 {
            (len - 1) as nat
        } else {
            (i + amount) as nat
        },
        None => 0,
    }
}

/// The row reached by moving up `amount` rows.
pub open spec fn index_after_up(current: Option<usize>, amount: nat) -> nat {
    match current {
        Some(i) => if amount >= i {
            0
        } else {
            (i - amount) as nat
        },
        None => 0,
    }
}

/// The selection after moving down by each of `amounts` in turn.
pub open spec fn after_moves_down(current: Option<usize>, amounts: Seq<usize>, len: nat) -> Option<
    usize,
>
    decreases amounts.len(),
{
    if amounts.len() == 0 {
        current
    } else {
        after_moves_down(
            Some(index_after_down(current, amounts[0] as nat, len) as usize),
            amounts.drop_first(),
            len,
        )
    }
}

/// However many moves down are made, from whatever row, on a non-empty list
/// the selection ends on a row of the list.
pub proof fn lemma_moves_down_stay_in_list(current: Option<usize>, amounts: Seq<usize>, len: nat)
    requires
        0 < len <= usize::MAX,
        amounts.len() > 0,
    ensures
        after_moves_down(current, amounts, len) is Some,
        after_moves_down(current, amounts, len)->0 < len,
    decreases amounts.len(),
{
    let next = Some(index_after_down(current, amounts[0] as nat, len) as usize);
    assert(after_moves_down(current, amounts, len) == after_moves_down(
        next,
        amounts.drop_first(),
        len,
    ));
    if amounts.len() > 1 {
        lemma_moves_down_stay_in_list(next, amounts.drop_first(), len);
    } else {
        assert(after_moves_down(next, amounts.drop_first(), len) == next);
    }
}

#[derive(Debug)]
pub struct App {
    pub items: Vec<Response>,
    pub current: Option<usize>,
    pub last_id: u64,
}

impl App {
    /// The selection, if any, is a row of the list.
    pub open spec fn wf(&self) -> bool {
        match self.current {
            Some(i) => i < self.items.len(),
            None => true,
        }
    }

    pub open spec fn is_viewed_spec(&self, i: int) -> bool {
        viewed_under(self.items@[i].id@, self.last_id as nat)
    }

    pub fn new() -> (r: App)
        ensures
            r.items@.len() == 0,
            r.current is None,
            r.last_id == 0,
            r.wf(),
    {
        App { items: Vec::new(), current: None, last_id: 0 }
    }

    /// Sets the viewed watermark; storing it is the caller's.
    pub fn set_id(&mut self, id: u64)
        ensures
            final(self).last_id == id,
            final(self).items@ == old(self).items@,
            final(self).current == old(self).current,
    {
        self.last_id = id;
    }

    /// Replaces the list, and moves a selection that now lies past its end.
    pub fn update_items(&mut self, items: Vec<Response>)
        ensures
            final(self).items@ == items@,
            final(self).current == clamp_selection(old(self).current, items@.len()),
            final(self).last_id == old(self).last_id,
            final(self).wf(),
    {
        let len = items.len();
        self.items = items;
        self.current = match self.current {
            Some(i) => if i < len {
                Some(i)
            } else if len == 0 {
                None
            } else {
                Some(len - 1)
            },
            None => None,
        };
    }

    /// Selects the first row; on an empty list nothing changes.
    pub fn first_item(&mut self)
        ensures
            final(self).current == (if old(self).items@.len() == 0 {
                old(self).current
            } else {
                Some(0usize)
            }),
            final(self).items@ == old(self).items@,
            final(self).last_id == old(self).last_id,
            old(self).wf() ==> final(self).wf(),
    {
        if self.items.len() > 0 {
            self.current = Some(0);
        }
    }

    /// Selects the last row; on an empty list nothing changes.
    pub fn last_item(&mut self)
        ensures
            final(self).current == (if old(self).items@.len() == 0 {
                old(self).current
            } else {
                Some((old(self).items@.len() - 1) as usize)
            }),
            final(self).items@ == old(self).items@,
            final(self).last_id == old(self).last_id,
            old(self).wf() ==> final(self).wf(),
    {
        let len = self.items.len();
        if len > 0 {
            self.current = Some(len - 1);
        }
    }

    /// Moves the selection down `amount` rows, stopping at the last; with no
    /// selection, selects the first row. On an empty list nothing changes.
    pub fn next_by(&mut self, amount: usize)
        ensures
            final(self).current == (if old(self).items@.len() == 0 {
                old(self).current
            } else {
                Some(
                    index_after_down(old(self).current, amount as nat, old(self).items@.len())
                        as usize,
                )
            }),
            final(self).items@ == old(self).items@,
            final(self).last_id == old(self).last_id,
            old(self).items@.len() > 0 ==> final(self).wf(),
            old(self).wf() ==> final(self).wf(),
    {
        let len = self.items.len();
        if len == 0 {
            return;
        }
        let last = len - 1;
        let i = match self.current {
            Some(i) => if i >= last || amount >= last - i {
                last
            } else {
                i + amount
            },
            None => 0,
        };
        self.current = Some(i);
    }

    /// Moves the selection up `amount` rows, stopping at the first; with no
    /// selection, selects the first row. On an empty list nothing changes.
    pub fn previous_by(&mut self, amount: usize)
        requires
            old(self).wf(),
        ensures
            final(self).current == (if old(self).items@.len() == 0 {
                old(self).current
            } else {
                Some(index_after_up(old(self).current, amount as nat) as usize)
            }),
            final(self).items@ == old(self).items@,
            final(self).last_id == old(self).last_id,
            final(self).wf(),
    {
        if self.items.len() == 0 {
            return;
        }
        let i = match self.current {
            Some(i) => if amount >= i {
                0
            } else {
                i - amount
            },
            None => 0,
        };
        self.current = Some(i);
    }

    /// The row that commands act on: the selection, or the first row.
    pub fn selected_index(&self) -> (r: usize)
        ensures
            r == (match self.current {
                Some(i) => i,
                None => 0,
            }),
    {
        match self.current {
            Some(i) => i,
            None => 0,
        }
    }

    /// Whether row `i` counts as viewed: its identifier, read as a number
    /// (0 where it is none), is at most the watermark.
    pub fn is_viewed(&self, i: usize) -> (r: bool)
        requires
            i < self.items@.len(),
        ensures
            r == self.is_viewed_spec(i as int),
    {
        id_number(self.items[i].id.as_str()) <= self.last_id
    }
}

/// Once the watermark is set to `id`, exactly the rows whose identifier is at
/// most `id` count as viewed, with the list itself unchanged; raising the
/// watermark leaves every row that was viewed viewed.
pub proof fn lemma_marking_flips_rows(before: App, after: App, id: u64)
    requires
        after.last_id == id,
        after.items@ == before.items@,
    ensures
        forall|i: int|
            0 <= i < after.items@.len() ==> (#[trigger] after.is_viewed_spec(i) <==> id_value(
                before.items@[i].id@,
            ) <= id),
        before.last_id <= id ==> forall|i: int|
            0 <= i < after.items@.len() && #[trigger] before.is_viewed_spec(i)
                ==> after.is_viewed_spec(i),
{
}

} // verus!
