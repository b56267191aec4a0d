//! The expectation held for one method.

use crate::mismatch::{CallCountMismatch, Mismatch};
use vstd::prelude::*;

verus! {

/// The mathematical value of a [`TrackedMethod`].
///
/// `remaining` is `None` while no target was set: the method is then not held
/// to any number of calls. Once a target `n` was set and `c` calls were
/// recorded, it is `Some(n - c)`.
pub struct Expectation {
    /// The label used in diagnostics.
    pub name: Seq<char>,
    /// The calls still owed, if a target was set.
    pub remaining: Option<int>,
}

impl Expectation {
    /// The state in which every expectation starts: named, with no target.
    pub open spec fn untracked(name: Seq<char>) -> Expectation {
        Expectation { name, remaining: None }
    }

    /// The state after the target was set to exactly `calls`.
    pub open spec fn expect_calls(self, calls: int) -> Expectation {
        Expectation { name: self.name, remaining: Some(calls) }
    }

    /// The state after one more call was recorded.
    pub open spec fn record_call(self) -> Expectation {
        match self.remaining {
            Some(n) => Expectation { name: self.name, remaining: Some(n - 1) },
            None => self,
        }
    }

    /// The state after `count` more calls were recorded.
    pub open spec fn record_calls(self, count: nat) -> Expectation
        decreases count,
    {
        if count == 0 {
            self
        } else {
            self.record_call().record_calls((count - 1) as nat)
        }
    }

    /// Whether one more call can be recorded in a 64-bit counter.
    pub open spec fn can_record(self) -> bool {
        self.remaining != Some(i64::MIN as int)
    }

    /// What verification finds: nothing where no target was set or no call is
    /// owed, else the method's name with the calls owed (negative where the
    /// method was called too often).
    pub open spec fn mismatch(self) -> Option<Mismatch> {
        match self.remaining {
            Some(n) if n != 0 => Some(Mismatch { method_name: self.name, deviation: n }),
            _ => None,
        }
    }
}

/// What is expected of one method: its name, and how many calls it is still
/// owed.
#[derive(Debug)]
pub struct TrackedMethod {
    calls_exact: Option<i64>,
    name: String,
}

impl View for TrackedMethod {
    type V = Expectation;

    closed spec fn view(&self) -> Expectation {
        Expectation {
            name: self.name@,
            remaining: match self.calls_exact {
                Some(n) => Some(n as int),
                None => None,
            },
        }
    }
}

impl TrackedMethod {
    /// A method with the given name and no target.
    pub fn new(name: String) -> (method: Self)
        ensures
            method@ == Expectation::untracked(name@),
    {
        TrackedMethod { calls_exact: None, name }
    }

    /// Sets the target: from now on exactly `calls` more calls are expected.
    pub fn expect_calls(&mut self, calls: i64)
        ensures
            final(self)@ == old(self)@.expect_calls(calls as int),
    {
        self.calls_exact = Some(calls);
    }

    /// The label used in diagnostics.
    pub fn name(&self) -> (name: &str)
        ensures
            name@ == self@.name,
    {
        self.name.as_str()
    }

    /// The calls still owed, or `None` while no target was set.
    pub fn remaining(&self) -> (remaining: Option<i64>)
        ensures
            match remaining {
                Some(n) => self@.remaining == Some(n as int),
                None => self@.remaining is None,
            },
    {
        self.calls_exact
    }

    /// Records one call. Without a target this changes nothing.
    pub fn was_called(&mut self)
        requires
            old(self)@.can_record(),
        ensures
            final(self)@ == old(self)@.record_call(),
    {
        if let Some(calls) = self.calls_exact {
            self.calls_exact = Some(calls - 1);
        }
    }

    /// Holds the calls recorded against the target.
    pub fn verify(&self) -> (outcome: Result<(), CallCountMismatch>)
        ensures
            match outcome {
                Ok(_) => self@.mismatch() is None,
                Err(e) => self@.mismatch() == Some(e@),
            },
    {
        match self.calls_exact {
            Some(x) if x != 0 => Err(
                CallCountMismatch { method_name: self.name.clone(), deviation: x },
            ),
            _ => Ok(()),
        }
    }
}

} // verus!
