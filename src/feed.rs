//! What a page keeps of an endpoint that it polls: the last data that arrived
//! intact, whether a fetch the user is waiting for is under way, and when the
//! data last changed.
use crate::clock::UtcDateTime;
use vstd::prelude::*;

verus! {

/// The state of a polled endpoint on a page.
#[derive(Clone, Debug, PartialEq)]
pub struct Feed<T> {
    pub data: T,
    pub is_loading: bool,
    pub last_updated: Option<String>,
}

impl<T> Feed<T> {
    /// A feed that holds `initial` and waits for its first answer.
    pub fn new(initial: T) -> (r: Feed<T>)
        ensures
            r.data == initial,
            r.is_loading,
            r.last_updated is None,
    {
        Feed { data: initial, is_loading: true, last_updated: None }
    }

    /// A fetch that the user waits for begins.
    pub fn start(&mut self)
        ensures
            final(self).is_loading,
            final(self).data == old(self).data,
            final(self).last_updated == old(self).last_updated,
    {
        self.is_loading = true;
    }

    /// An answer arrived at `now`; `parsed` is what it held, or `None` where it
    /// could not be read. Data that could not be read leaves the old data in
    /// place until a later answer. `foreground` tells whether the user was
    /// waiting for this answer.
    pub fn receive(&mut self, parsed: Option<T>, now: &UtcDateTime, foreground: bool)
        ensures
            parsed matches Some(v) ==> final(self).data == v,
            parsed matches Some(_) ==> (final(self).last_updated matches Some(s) && s@
                == now.clock_view()),
            parsed is None ==> final(self).data == old(self).data,
            parsed is None ==> final(self).last_updated == old(self).last_updated,
            final(self).is_loading == (old(self).is_loading && !foreground),
    {
        match parsed {
            Some(v) => {
                self.data = v;
                self.last_updated = Some(now.clock_text());
            },
            None => {},
        }
        if foreground {
            self.is_loading = false;
        }
    }
}

} // verus!
