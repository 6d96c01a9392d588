//! The request counter: a tally of the GET and POST requests seen so far.

use crate::step::{
    advanced, increment, lemma_advanced_successor, lemma_advanced_without_wrap,
    lemma_advanced_zero, successor,
};
use vstd::prelude::*;

verus! {

/// The method of an HTTP request.
#[derive(Clone, Copy, Debug, PartialEq, Eq)]
pub enum Method {
    Get,
    Put,
    Post,
    Delete,
    Options,
    Head,
    Trace,
    Connect,
    Patch,
}

/// The counts of GET and POST requests at one moment.
#[derive(Clone, Copy, Debug, PartialEq, Eq)]
pub struct RequestTally {
    pub get_count: usize,
    pub post_count: usize,
}

impl RequestTally {
    /// The tally before any request.
    pub open spec fn zero() -> RequestTally {
        RequestTally { get_count: 0, post_count: 0 }
    }

    /// The tally after one more request with `method`. A GET or a POST moves
    /// its own count one step; any other method leaves the tally as it was.
    pub open spec fn after(self, method: Method) -> RequestTally {
        match method {
            Method::Get => RequestTally {
                get_count: successor(self.get_count),
                post_count: self.post_count,
            },
            Method::Post => RequestTally {
                get_count: self.get_count,
                post_count: successor(self.post_count),
            },
            _ => self,
        }
    }

    /// The tally after requests with each of `methods` in turn.
    pub open spec fn after_all(self, methods: Seq<Method>) -> RequestTally
        decreases methods.len(),
    {
        if methods.len() == 0 {
            self
        } else {
            self.after_all(methods.drop_last()).after(methods.last())
        }
    }
}

/// How many of `methods` are `method`.
pub open spec fn occurrences(methods: Seq<Method>, method: Method) -> nat
    decreases methods.len(),
{
    if methods.len() == 0 {
        0
    } else if methods.last() == method {
        occurrences(methods.drop_last(), method) + 1
    } else {
        occurrences(methods.drop_last(), method)
    }
}

/// `times` requests in a row, all with `method`.
pub open spec fn repeated(method: Method, times: nat) -> Seq<Method> {
    Seq::new(times, |i: int| method)
}

/// Counts the requests that pass, by method.
pub struct RequestCounter {
    get: usize,
    post: usize,
}

impl View for RequestCounter {
    type V = RequestTally;

    closed spec fn view(&self) -> RequestTally {
        RequestTally { get_count: self.get, post_count: self.post }
    }
}

impl RequestCounter {
    /// A counter that has seen no request.
    pub fn new() -> (counter: RequestCounter)
        ensures
            counter@ == RequestTally::zero(),
    {
        RequestCounter { get: 0, post: 0 }
    }

    /// Takes note of one request with `method`.
    pub fn record(&mut self, method: Method)
        ensures
            final(self)@ == old(self)@.after(method),
    {
        match method {
            Method::Get => {
                self.get = increment(self.get);
            },
            Method::Post => {
                self.post = increment(self.post);
            },
            _ => {},
        }
    }

    /// The counts as they stand.
    pub fn snapshot(&self) -> (tally: RequestTally)
        ensures
            tally == self@,
    {
        RequestTally { get_count: self.get, post_count: self.post }
    }
}

impl Default for RequestCounter {
    fn default() -> (counter: RequestCounter)
        ensures
            counter@ == RequestTally::zero(),
    {
        RequestCounter::new()
    }
}

/// After a run of requests each count has moved one step for each request of
/// its method, and for no other.
pub proof fn lemma_tally_after_requests(start: RequestTally, methods: Seq<Method>)
    ensures
        start.after_all(methods).get_count == advanced(
            start.get_count,
            occurrences(methods, Method::Get),
        ),
        start.after_all(methods).post_count == advanced(
            start.post_count,
            occurrences(methods, Method::Post),
        ),
    decreases methods.len(),
{
    if methods.len() == 0 {
        lemma_advanced_zero(start.get_count);
        lemma_advanced_zero(start.post_count);
    } else {
        let before = methods.drop_last();
        lemma_tally_after_requests(start, before);
        lemma_advanced_successor(start.get_count, occurrences(before, Method::Get));
        lemma_advanced_successor(start.post_count, occurrences(before, Method::Post));
    }
}

/// A counter that starts at zero shows the number of GET requests and the
/// number of POST requests that it has seen, as long as both fit in `usize`.
pub proof fn lemma_tally_counts_requests(methods: Seq<Method>)
    requires
        occurrences(methods, Method::Get) <= usize::MAX,
        occurrences(methods, Method::Post) <= usize::MAX,
    ensures
        RequestTally::zero().after_all(methods) == (RequestTally {
            get_count: occurrences(methods, Method::Get) as usize,
            post_count: occurrences(methods, Method::Post) as usize,
        }),
{
    lemma_tally_after_requests(RequestTally::zero(), methods);
    lemma_advanced_without_wrap(0, occurrences(methods, Method::Get));
    lemma_advanced_without_wrap(0, occurrences(methods, Method::Post));
}

/// No GET request is lost: after `more` of them the GET count is `more`
/// higher, as long as that fits in `usize`, and the POST count is unchanged.
pub proof fn lemma_gets_are_all_counted(start: RequestTally, more: nat)
    requires
        start.get_count + more <= usize::MAX,
    ensures
        start.after_all(repeated(Method::Get, more)) == (RequestTally {
            get_count: (start.get_count + more) as usize,
            post_count: start.post_count,
        }),
{
    lemma_tally_after_requests(start, repeated(Method::Get, more));
    lemma_occurrences_of_repeated(Method::Get, Method::Get, more);
    lemma_occurrences_of_repeated(Method::Get, Method::Post, more);
    lemma_advanced_without_wrap(start.get_count, more);
    lemma_advanced_zero(start.post_count);
}

/// A run of one method holds that method as often as it is long, and no other.
proof fn lemma_occurrences_of_repeated(method: Method, counted: Method, times: nat)
    ensures
        occurrences(repeated(method, times), counted) == if counted == method {
            times
        } else {
            0
        },
    decreases times,
{
    if times > 0 {
        let shorter = (times - 1) as nat;
        lemma_occurrences_of_repeated(method, counted, shorter);
        assert(repeated(method, times).drop_last() =~= repeated(method, shorter));
    }
}

} // verus!
