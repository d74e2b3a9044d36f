//! The parameters of a search request: page number and query text.
use vstd::prelude::*;

verus! {

/// The highest page that paging forward reaches.
pub const LAST_PAGE: u16 = 1000;

/// The page after moving forward `amount` pages from `page`, held at
/// `LAST_PAGE`.
pub open spec fn page_after_next(page: nat, amount: nat) -> nat {
    if page + amount < LAST_PAGE {
        page + amount
    } else {
        LAST_PAGE as nat
    }
}

/// The page after moving back `amount` pages from `page`, held at 0.
pub open spec fn page_after_prev(page: nat, amount: nat) -> nat {
    if page <= amount {
        0
    } else {
        (page - amount) as nat
    }
}

#[derive(Debug)]
pub struct Params {
    pub page: u16,
    pub query: String,
}

impl Params {
    /// The first request of a session: page 1, empty query.
    pub fn new() -> (r: Self)
        ensures
            r.page == 1,
            r.query@ == Seq::<char>::empty(),
    {
        Params { page: 1, query: String::new() }
    }

    pub fn next_page_by(&mut self, amount: u16)
        ensures
            final(self).page == page_after_next(old(self).page as nat, amount as nat),
            final(self).page <= LAST_PAGE,
            final(self).query == old(self).query,
    {
        let page = self.page as u32;
        self.page = if page + (amount as u32) < LAST_PAGE as u32 {
            (page + amount as u32) as u16
        } else {
            LAST_PAGE
        };
    }

    pub fn prev_page_by(&mut self, amount: u16)
        ensures
            final(self).page == page_after_prev(old(self).page as nat, amount as nat),
            final(self).page <= old(self).page,
            final(self).query == old(self).query,
    {
        let page = self.page;
        self.page = if page <= amount {
            0
        } else {
            page - amount
        };
    }

    pub fn set_query(&mut self, query: String)
        ensures
            final(self).query == query,
            final(self).page == old(self).page,
    {
        self.query = query;
    }

    /// A copy of these parameters, to hand to a fetch.
    pub fn snapshot(&self) -> (r: Params)
        ensures
            r.page == self.page,
            r.query@ == self.query@,
    {
        Params { page: self.page, query: self.query.clone() }
    }
}

} // verus!
