//! A bounded budget of attempts with a fixed pause between them.

use vstd::prelude::*;

verus! {

/// How often something may be tried, and how often it has been.
#[derive(Debug, Clone, Copy, PartialEq, Eq, Structural)]
pub struct Attempts {
    /// The most attempts allowed.
    pub limit: u8,
    /// The attempts begun so far.
    pub made: u8,
    /// The pause before every attempt but the first, in milliseconds.
    pub pause_ms: u64,
}

impl Attempts {
    /// No more attempts were begun than are allowed.
    pub open spec fn wf(self) -> bool {
        self.made <= self.limit
    }

    /// Whether another attempt is allowed.
    pub open spec fn has_left(self) -> bool {
        self.made < self.limit
    }

    /// The budget after one more attempt was begun.
    pub open spec fn after_attempt(self) -> Attempts {
        Attempts { made: (self.made + 1) as u8, ..self }
    }

    /// A budget of `limit` attempts, none begun.
    pub fn new(limit: u8, pause_ms: u64) -> (a: Attempts)
        ensures
            a == (Attempts { limit, made: 0, pause_ms }),
            a.wf(),
    {
        Attempts { limit, made: 0, pause_ms }
    }

    /// Whether another attempt is allowed.
    pub fn can_retry(&self) -> (b: bool)
        ensures
            b == self.has_left(),
    {
        self.made < self.limit
    }

    /// Begins an attempt if one is left: the new budget and the number of
    /// the attempt, counted from one.
    pub fn begin(self) -> (r: Option<(Attempts, u8)>)
        requires
            self.wf(),
        ensures
            r is Some <==> self.has_left(),
            r matches Some((next, number)) ==> next == self.after_attempt() && next.wf() && number
                == self.made + 1 && number <= self.limit,
    {
        if self.made < self.limit {
            let number = self.made + 1;
            Some((Attempts { limit: self.limit, made: number, pause_ms: self.pause_ms }, number))
        } else {
            None
        }
    }

    /// The pause owed before the next attempt: none before the first.
    pub fn pause_before_next(&self) -> (ms: u64)
        ensures
            ms == if self.made == 0 {
                0
            } else {
                self.pause_ms
            },
    {
        if self.made == 0 {
            0
        } else {
            self.pause_ms
        }
    }
}

/// However often `begin` succeeds, the attempts begun never pass the limit:
/// after `limit` attempts none is left.
pub proof fn lemma_attempts_are_bounded(a: Attempts)
    requires
        a.wf(),
    ensures
        a.has_left() ==> a.after_attempt().wf() && a.after_attempt().made == a.made + 1,
        !a.has_left() ==> a.made == a.limit,
{
}

} // verus!
