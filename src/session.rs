//! The browsing session: one key at a time, the state moves on and the
//! caller is told what outside work to do next.
use vstd::prelude::*;

use crate::params::{page_after_next, page_after_prev, Params};
use crate::results::{clamp_selection, id_number, id_value, index_after_down, index_after_up, App, Response};
use crate::text::{is_digit, is_digit_char, parse_unsigned, parse_unsigned_str, pop_char, push_char};

verus! {

/// The keys that the session tells apart.
#[derive(Clone, Copy, Debug, PartialEq, Eq, Structural)]
pub enum Key {
    Char(char),
    Up,
    Down,
    Enter,
    Backspace,
    Other,
}

#[derive(Clone, Copy, Debug, PartialEq, Eq, Structural)]
pub enum Mode {
    /// Moving through the list.
    Browse,
    /// Typing a new query.
    Search,
    /// The help screen; any key leaves it.
    Help,
}

/// What the caller does after a key has been handled, before it draws the
/// screen for the session's mode again.
#[derive(Debug)]
pub enum Action {
    /// Nothing outside the session.
    Continue,
    /// End the session.
    Quit,
    /// Fetch the results for these parameters and hand them to
    /// `receive_items`.
    Fetch(Params),
    /// Open this address in the browser.
    Open(String),
    /// Store this watermark.
    Persist(u64),
}

/// The count that a run of typed digits asks for: the number they write
/// where it fits under `max`, else 1.
pub open spec fn repeat_count(digits: Seq<char>, max: nat) -> nat {
    match parse_unsigned(digits, max) {
        Some(v) => v,
        None => 1,
    }
}

/// The address of a listing's page.
pub open spec fn listing_url(id: Seq<char>) -> Seq<char> {
    "https://nyaa.si/view/"@ + id
}

pub struct Session {
    pub app: App,
    pub params: Params,
    /// Digits typed ahead of a command, which say how many times to do it.
    pub amount: String,
    pub mode: Mode,
    /// The query being typed in search mode.
    pub query: String,
}

impl Session {
    pub open spec fn wf(&self) -> bool {
        self.app.wf()
    }

    /// The row that commands act on.
    pub open spec fn selected(&self) -> int {
        match self.app.current {
            Some(i) => i as int,
            None => 0,
        }
    }

    /// `self` and `other` differ at most in the typed digits.
    pub open spec fn same_but_amount(&self, other: &Session) -> bool {
        &&& self.app.items@ == other.app.items@
        &&& self.app.current == other.app.current
        &&& self.app.last_id == other.app.last_id
        &&& self.params == other.params
        &&& self.mode == other.mode
        &&& self.query == other.query
    }

    pub open spec fn unchanged(&self, other: &Session) -> bool {
        self.same_but_amount(other) && self.amount@ == other.amount@
    }

    pub fn new(app: App, params: Params) -> (r: Session)
        requires
            app.wf(),
        ensures
            r.app == app,
            r.params == params,
            r.amount@ == Seq::<char>::empty(),
            r.mode == Mode::Browse,
            r.query@ == Seq::<char>::empty(),
            r.wf(),
    {
        Session { app, params, amount: String::new(), mode: Mode::Browse, query: String::new() }
    }

    /// Adds a typed digit to the count; any other character is ignored.
    pub fn accumulate_digit(&mut self, c: char)
        ensures
            final(self).amount@ == (if is_digit(c) {
                old(self).amount@.push(c)
            } else {
                old(self).amount@
            }),
            final(self).same_but_amount(old(self)),
            final(self).app == old(self).app,
    {
        if is_digit_char(c) {
            push_char(&mut self.amount, c);
        }
    }

    /// Takes the typed count, for a command whose count holds at most `max`:
    /// 1 where no digits were typed or their number is too large.
    pub fn consume_repeat_count(&mut self, max: u64) -> (r: u64)
        ensures
            r == repeat_count(old(self).amount@, max as nat),
            r <= max || r == 1,
            final(self).amount@ == Seq::<char>::empty(),
            final(self).same_but_amount(old(self)),
            final(self).app == old(self).app,
    {
        let r = match parse_unsigned_str(self.amount.as_str(), max) {
            Some(v) => v,
            None => 1,
        };
        self.amount = String::new();
        r
    }

    /// Takes the typed count for a move through the list.
    fn consume_move_count(&mut self) -> (r: usize)
        ensures
            r == repeat_count(old(self).amount@, usize::MAX as nat),
            final(self).amount@ == Seq::<char>::empty(),
            final(self).same_but_amount(old(self)),
            final(self).app == old(self).app,
    {
        let r = self.consume_repeat_count(usize::MAX as u64);
        r as usize
    }

    /// Takes the typed count for a move through the pages.
    fn consume_page_count(&mut self) -> (r: u16)
        ensures
            r == repeat_count(old(self).amount@, u16::MAX as nat),
            final(self).amount@ == Seq::<char>::empty(),
            final(self).same_but_amount(old(self)),
            final(self).app == old(self).app,
    {
        let r = self.consume_repeat_count(u16::MAX as u64);
        r as u16
    }

    /// Hands over a freshly fetched list, which replaces the current one.
    pub fn receive_items(&mut self, items: Vec<Response>)
        requires
            old(self).wf(),
        ensures
            final(self).app.items@ == items@,
            final(self).app.current == clamp_selection(old(self).app.current, items@.len()),
            final(self).app.last_id == old(self).app.last_id,
            final(self).params == old(self).params,
            final(self).amount@ == old(self).amount@,
            final(self).mode == old(self).mode,
            final(self).query@ == old(self).query@,
            final(self).wf(),
    {
        self.app.update_items(items);
    }

    /// The selection that a move down, with the typed count, leads to.
    pub open spec fn selection_after_down(&self) -> Option<usize> {
        if self.app.items@.len() == 0 {
            self.app.current
        } else {
            Some(
                index_after_down(
                    self.app.current,
                    repeat_count(self.amount@, usize::MAX as nat),
                    self.app.items@.len(),
                ) as usize,
            )
        }
    }

    /// The selection that a move up, with the typed count, leads to.
    pub open spec fn selection_after_up(&self) -> Option<usize> {
        if self.app.items@.len() == 0 {
            self.app.current
        } else {
            Some(index_after_up(self.app.current, repeat_count(self.amount@, usize::MAX as nat)) as usize)
        }
    }

    /// `self` is `old` with the selection set to `current` and the count taken.
    pub open spec fn moved_from(&self, old: &Session, current: Option<usize>) -> bool {
        &&& self.app.current == current
        &&& self.amount@ == Seq::<char>::empty()
        &&& self.app.items@ == old.app.items@
        &&& self.app.last_id == old.app.last_id
        &&& self.params == old.params
        &&& self.mode == old.mode
        &&& self.query@ == old.query@
    }

    /// `self` is `old` on page `page` with the count taken.
    pub open spec fn paged_from(&self, old: &Session, page: nat) -> bool {
        &&& self.params.page == page
        &&& self.params.query == old.params.query
        &&& self.amount@ == Seq::<char>::empty()
        &&& self.app == old.app
        &&& self.mode == old.mode
        &&& self.query@ == old.query@
    }

    fn move_down(&mut self) -> (r: Action)
        requires
            old(self).wf(),
        ensures
            r is Continue,
            final(self).moved_from(old(self), old(self).selection_after_down()),
            final(self).wf(),
    {
        let amount = self.consume_move_count();
        self.app.next_by(amount);
        Action::Continue
    }

    fn move_up(&mut self) -> (r: Action)
        requires
            old(self).wf(),
        ensures
            r is Continue,
            final(self).moved_from(old(self), old(self).selection_after_up()),
            final(self).wf(),
    {
        let amount = self.consume_move_count();
        self.app.previous_by(amount);
        Action::Continue
    }

    fn next_page(&mut self) -> (r: Action)
        ensures
            final(self).paged_from(
                old(self),
                page_after_next(
                    old(self).params.page as nat,
                    repeat_count(old(self).amount@, u16::MAX as nat),
                ),
            ),
            r is Fetch,
            r->Fetch_0.page == final(self).params.page,
            r->Fetch_0.query@ == old(self).params.query@,
    {
        let amount = self.consume_page_count();
        self.params.next_page_by(amount);
        Action::Fetch(self.params.snapshot())
    }

    fn prev_page(&mut self) -> (r: Action)
        ensures
            final(self).paged_from(
                old(self),
                page_after_prev(
                    old(self).params.page as nat,
                    repeat_count(old(self).amount@, u16::MAX as nat),
                ),
            ),
            r is Fetch,
            r->Fetch_0.page == final(self).params.page,
            r->Fetch_0.query@ == old(self).params.query@,
    {
        let amount = self.consume_page_count();
        self.params.prev_page_by(amount);
        Action::Fetch(self.params.snapshot())
    }

    /// Opens the page of the selected listing.
    fn open_listing(&self) -> (r: Action)
        requires
            self.wf(),
            self.app.items@.len() > 0,
        ensures
            r is Open,
            r->Open_0@ == listing_url(self.app.items@[self.selected()].id@),
    {
        let i = self.app.selected_index();
        let mut url = String::from_str("https://nyaa.si/view/");
        url.append(self.app.items[i].id.as_str());
        Action::Open(url)
    }

    /// Sets the watermark to the selected listing's identifier.
    fn mark_viewed(&mut self) -> (r: Action)
        requires
            old(self).wf(),
            old(self).app.items@.len() > 0,
        ensures
            final(self).app.last_id == id_value(old(self).app.items@[old(self).selected()].id@),
            final(self).app.items@ == old(self).app.items@,
            final(self).app.current == old(self).app.current,
            final(self).params == old(self).params,
            final(self).amount == old(self).amount,
            final(self).mode == old(self).mode,
            final(self).query == old(self).query,
            r is Persist,
            r->Persist_0 == final(self).app.last_id,
    {
        let i = self.app.selected_index();
        let id = id_number(self.app.items[i].id.as_str());
        self.app.set_id(id);
        Action::Persist(id)
    }

    /// Handles one key and says what the caller does next.
    pub fn handle_key(&mut self, key: Key) -> (r: Action)
        requires
            old(self).wf(),
        ensures
            final(self).wf(),
            // help screen: any key goes back to the list
            old(self).mode == Mode::Help ==> {
                &&& r is Continue
                &&& final(self).mode == Mode::Browse
                &&& final(self).app == old(self).app
                &&& final(self).params == old(self).params
                &&& final(self).amount == old(self).amount
                &&& final(self).query == old(self).query
            },
            // typing a query
            old(self).mode == Mode::Search ==> {
                &&& final(self).app == old(self).app
                &&& final(self).amount == old(self).amount
                &&& key is Char ==> {
                    &&& r is Continue
                    &&& final(self).query@ == old(self).query@.push(key->Char_0)
                    &&& final(self).params == old(self).params
                    &&& final(self).mode == Mode::Search
                }
                &&& key is Backspace ==> {
                    &&& r is Continue
                    &&& final(self).query@ == (if old(self).query@.len() == 0 {
                        old(self).query@
                    } else {
                        old(self).query@.drop_last()
                    })
                    &&& final(self).params == old(self).params
                    &&& final(self).mode == Mode::Search
                }
                &&& key is Enter ==> {
                    &&& final(self).params.query@ == old(self).query@
                    &&& final(self).params.page == old(self).params.page
                    &&& final(self).query@ == Seq::<char>::empty()
                    &&& final(self).mode == Mode::Browse
                    &&& r is Fetch
                    &&& r->Fetch_0.page == old(self).params.page
                    &&& r->Fetch_0.query@ == old(self).query@
                }
                &&& !(key is Char || key is Backspace || key is Enter) ==> {
                    &&& r is Continue
                    &&& final(self).unchanged(old(self))
                }
            },
            // moving through the list
            old(self).mode == Mode::Browse ==> {
                &&& key is Char && is_digit(key->Char_0) ==> {
                    &&& r is Continue
                    &&& final(self).amount@ == old(self).amount@.push(key->Char_0)
                    &&& final(self).same_but_amount(old(self))
                }
                &&& key == Key::Char('q') ==> r is Quit && final(self).unchanged(old(self))
                &&& (key == Key::Down || key == Key::Char('j')) ==> {
                    &&& r is Continue
                    &&& final(self).moved_from(old(self), old(self).selection_after_down())
                }
                &&& (key == Key::Up || key == Key::Char('k')) ==> {
                    &&& r is Continue
                    &&& final(self).moved_from(old(self), old(self).selection_after_up())
                }
                &&& key == Key::Char('G') ==> {
                    &&& r is Continue
                    &&& final(self).same_but_selection(old(self))
                    &&& final(self).app.current == (if old(self).app.items@.len() == 0 {
                        old(self).app.current
                    } else {
                        Some((old(self).app.items@.len() - 1) as usize)
                    })
                }
                &&& key == Key::Char('g') ==> {
                    &&& r is Continue
                    &&& final(self).same_but_selection(old(self))
                    &&& final(self).app.current == (if old(self).app.items@.len() == 0 {
                        old(self).app.current
                    } else {
                        Some(0usize)
                    })
                }
                &&& key == Key::Char('n') ==> {
                    &&& final(self).paged_from(
                        old(self),
                        page_after_next(
                            old(self).params.page as nat,
                            repeat_count(old(self).amount@, u16::MAX as nat),
                        ),
                    )
                    &&& r is Fetch
                    &&& r->Fetch_0.page == final(self).params.page
                    &&& r->Fetch_0.query@ == old(self).params.query@
                }
                &&& key == Key::Char('p') ==> {
                    &&& final(self).paged_from(
                        old(self),
                        page_after_prev(
                            old(self).params.page as nat,
                            repeat_count(old(self).amount@, u16::MAX as nat),
                        ),
                    )
                    &&& r is Fetch
                    &&& r->Fetch_0.page == final(self).params.page
                    &&& r->Fetch_0.query@ == old(self).params.query@
                }
                &&& key == Key::Char('/') ==> {
                    &&& r is Continue
                    &&& final(self).mode == Mode::Search
                    &&& final(self).query@ == Seq::<char>::empty()
                    &&& final(self).app == old(self).app
                    &&& final(self).params == old(self).params
                    &&& final(self).amount == old(self).amount
                }
                &&& key == Key::Char('h') ==> {
                    &&& r is Continue
                    &&& final(self).mode == Mode::Help
                    &&& final(self).app == old(self).app
                    &&& final(self).params == old(self).params
                    &&& final(self).amount == old(self).amount
                    &&& final(self).query == old(self).query
                }
                &&& key == Key::Char('b') ==> {
                    &&& final(self).params.query@ == Seq::<char>::empty()
                    &&& final(self).params.page == old(self).params.page
                    &&& final(self).app == old(self).app
                    &&& final(self).amount == old(self).amount
                    &&& final(self).mode == Mode::Browse
                    &&& final(self).query == old(self).query
                    &&& r is Fetch
                    &&& r->Fetch_0.page == old(self).params.page
                    &&& r->Fetch_0.query@ == Seq::<char>::empty()
                }
                &&& opens_selected(key) ==> final(self).unchanged(old(self))
                &&& opens_selected(key) && old(self).app.items@.len() == 0 ==> r is Continue
                &&& opens_selected(key) && old(self).app.items@.len() > 0 ==> {
                    let item = old(self).app.items@[old(self).selected()];
                    &&& r is Open
                    &&& key == Key::Char('o') ==> r->Open_0@ == listing_url(item.id@)
                    &&& key == Key::Char('m') ==> r->Open_0@ == item.magnet@
                    &&& key == Key::Char('t') ==> r->Open_0@ == item.torrent@
                }
                &&& key == Key::Char('s') && old(self).app.items@.len() == 0 ==> {
                    r is Continue && final(self).unchanged(old(self))
                }
                &&& key == Key::Char('s') && old(self).app.items@.len() > 0 ==> {
                    &&& final(self).app.last_id == id_value(
                        old(self).app.items@[old(self).selected()].id@,
                    )
                    &&& final(self).same_but_watermark(old(self))
                    &&& r is Persist
                    &&& r->Persist_0 == final(self).app.last_id
                }
                &&& !browse_command(key) ==> r is Continue && final(self).unchanged(old(self))
            },
    {
        match self.mode {
            Mode::Help => {
                self.mode = Mode::Browse;
                Action::Continue
            },
            Mode::Search => match key {
                Key::Char(c) => {
                    push_char(&mut self.query, c);
                    Action::Continue
                },
                Key::Backspace => {
                    let _ = pop_char(&mut self.query);
                    Action::Continue
                },
                Key::Enter => {
                    let q = self.query.clone();
                    self.params.set_query(q);
                    self.query = String::new();
                    self.mode = Mode::Browse;
                    Action::Fetch(self.params.snapshot())
                },
                _ => Action::Continue,
            },
            Mode::Browse => match key {
                Key::Down => self.move_down(),
                Key::Up => self.move_up(),
                Key::Char(c) => self.browse_char(c),
                _ => Action::Continue,
            },
        }
    }

    fn browse_char(&mut self, c: char) -> (r: Action)
        requires
            old(self).wf(),
            old(self).mode == Mode::Browse,
        ensures
            final(self).wf(),
            is_digit(c) ==> {
                &&& r is Continue
                &&& final(self).amount@ == old(self).amount@.push(c)
                &&& final(self).same_but_amount(old(self))
            },
            c == 'q' ==> r is Quit && final(self).unchanged(old(self)),
            c == 'j' ==> r is Continue && final(self).moved_from(
                old(self),
                old(self).selection_after_down(),
            ),
            c == 'k' ==> r is Continue && final(self).moved_from(
                old(self),
                old(self).selection_after_up(),
            ),
            c == 'G' ==> {
                &&& r is Continue
                &&& final(self).same_but_selection(old(self))
                &&& final(self).app.current == (if old(self).app.items@.len() == 0 {
                    old(self).app.current
                } else {
                    Some((old(self).app.items@.len() - 1) as usize)
                })
            },
            c == 'g' ==> {
                &&& r is Continue
                &&& final(self).same_but_selection(old(self))
                &&& final(self).app.current == (if old(self).app.items@.len() == 0 {
                    old(self).app.current
                } else {
                    Some(0usize)
                })
            },
            c == 'n' ==> {
                &&& final(self).paged_from(
                    old(self),
                    page_after_next(
                        old(self).params.page as nat,
                        repeat_count(old(self).amount@, u16::MAX as nat),
                    ),
                )
                &&& r is Fetch
                &&& r->Fetch_0.page == final(self).params.page
                &&& r->Fetch_0.query@ == old(self).params.query@
            },
            c == 'p' ==> {
                &&& final(self).paged_from(
                    old(self),
                    page_after_prev(
                        old(self).params.page as nat,
                        repeat_count(old(self).amount@, u16::MAX as nat),
                    ),
                )
                &&& r is Fetch
                &&& r->Fetch_0.page == final(self).params.page
                &&& r->Fetch_0.query@ == old(self).params.query@
            },
            c == '/' ==> {
                &&& r is Continue
                &&& final(self).mode == Mode::Search
                &&& final(self).query@ == Seq::<char>::empty()
                &&& final(self).app == old(self).app
                &&& final(self).params == old(self).params
                &&& final(self).amount == old(self).amount
            },
            c == 'h' ==> {
                &&& r is Continue
                &&& final(self).mode == Mode::Help
                &&& final(self).app == old(self).app
                &&& final(self).params == old(self).params
                &&& final(self).amount == old(self).amount
                &&& final(self).query == old(self).query
            },
            c == 'b' ==> {
                &&& final(self).params.query@ == Seq::<char>::empty()
                &&& final(self).params.page == old(self).params.page
                &&& final(self).app == old(self).app
                &&& final(self).amount == old(self).amount
                &&& final(self).mode == Mode::Browse
                &&& final(self).query == old(self).query
                &&& r is Fetch
                &&& r->Fetch_0.page == old(self).params.page
                &&& r->Fetch_0.query@ == Seq::<char>::empty()
            },
            opens_selected(Key::Char(c)) ==> final(self).unchanged(old(self)),
            opens_selected(Key::Char(c)) && old(self).app.items@.len() == 0 ==> r is Continue,
            opens_selected(Key::Char(c)) && old(self).app.items@.len() > 0 ==> {
                let item = old(self).app.items@[old(self).selected()];
                &&& r is Open
                &&& c == 'o' ==> r->Open_0@ == listing_url(item.id@)
                &&& c == 'm' ==> r->Open_0@ == item.magnet@
                &&& c == 't' ==> r->Open_0@ == item.torrent@
            },
            c == 's' && old(self).app.items@.len() == 0 ==> {
                r is Continue && final(self).unchanged(old(self))
            },
            c == 's' && old(self).app.items@.len() > 0 ==> {
                &&& final(self).app.last_id == id_value(
                    old(self).app.items@[old(self).selected()].id@,
                )
                &&& final(self).same_but_watermark(old(self))
                &&& r is Persist
                &&& r->Persist_0 == final(self).app.last_id
            },
            !browse_command(Key::Char(c)) ==> r is Continue && final(self).unchanged(old(self)),
    {
        if is_digit_char(c) {
            self.accumulate_digit(c);
            return Action::Continue;
        }
        match c {
            'q' => Action::Quit,
            'j' => self.move_down(),
            'k' => self.move_up(),
            'G' => {
                self.app.last_item();
                Action::Continue
            },
            'g' => {
                self.app.first_item();
                Action::Continue
            },
            'n' => self.next_page(),
            'p' => self.prev_page(),
            '/' => {
                self.query = String::new();
                self.mode = Mode::Search;
                Action::Continue
            },
            'h' => {
                self.mode = Mode::Help;
                Action::Continue
            },
            'b' => {
                self.params.set_query(String::new());
                Action::Fetch(self.params.snapshot())
            },
            'o' | 'm' | 't' => {
                if self.app.items.len() == 0 {
                    return Action::Continue;
                }
                if c == 'o' {
                    self.open_listing()
                } else {
                    let i = self.app.selected_index();
                    let item = &self.app.items[i];
                    let url = if c == 'm' {
                        item.magnet.clone()
                    } else {
                        item.torrent.clone()
                    };
                    Action::Open(url)
                }
            },
            's' => {
                if self.app.items.len() == 0 {
                    return Action::Continue;
                }
                self.mark_viewed()
            },
            _ => Action::Continue,
        }
    }

    /// `self` and `other` differ at most in the selection.
    pub open spec fn same_but_selection(&self, other: &Session) -> bool {
        &&& self.app.items@ == other.app.items@
        &&& self.app.last_id == other.app.last_id
        &&& self.params == other.params
        &&& self.amount == other.amount
        &&& self.mode == other.mode
        &&& self.query == other.query
    }

    /// `self` and `other` differ at most in the watermark.
    pub open spec fn same_but_watermark(&self, other: &Session) -> bool {
        &&& self.app.items@ == other.app.items@
        &&& self.app.current == other.app.current
        &&& self.params == other.params
        &&& self.amount == other.amount
        &&& self.mode == other.mode
        &&& self.query == other.query
    }
}

/// The keys that open something of the selected listing in the browser.
pub open spec fn opens_selected(key: Key) -> bool {
    key == Key::Char('o') || key == Key::Char('m') || key == Key::Char('t')
}

/// The keys that do something while browsing the list.
pub open spec fn browse_command(key: Key) -> bool {
    match key {
        Key::Char(c) => is_digit(c) || c == 'q' || c == 'j' || c == 'k' || c == 'G' || c == 'g'
            || c == 'n' || c == 'p' || c == '/' || c == 'h' || c == 'b' || c == 'o' || c == 'm'
            || c == 't' || c == 's',
        Key::Up | Key::Down => true,
        _ => false,
    }
}

} // verus!
