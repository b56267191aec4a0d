//! The error raised when a method was not called as often as was expected.

use crate::decimal::{decimal, decimal_string};
use vstd::prelude::*;
use vstd::string::StringExecFns;

verus! {

/// The mathematical value of a [`CallCountMismatch`].
pub struct Mismatch {
    /// The label of the method that was called too often or too rarely.
    pub method_name: Seq<char>,
    /// Expected calls minus recorded calls.
    pub deviation: int,
}

impl Mismatch {
    /// By how many calls the method missed what was expected.
    pub open spec fn magnitude(self) -> nat {
        if self.deviation < 0 {
            (-self.deviation) as nat
        } else {
            self.deviation as nat
        }
    }

    /// The mismatch in words: the method's name, by how many calls it missed
    /// the target, and in which direction.
    pub open spec fn message(self) -> Seq<char> {
        self.method_name + " was called "@ + decimal(self.magnitude()) + (if self.magnitude() == 1 {
            " time "@
        } else {
            " times "@
        }) + (if self.deviation < 0 {
            "more"@
        } else {
            "fewer"@
        }) + " than expected"@
    }
}

/// A method was not called as often as was expected of it.
#[derive(Debug, PartialEq, Eq)]
pub struct CallCountMismatch {
    /// The label of the method.
    pub method_name: String,
    /// Expected calls minus recorded calls: positive where calls are missing,
    /// negative where there were too many.
    pub deviation: i64,
}

impl View for CallCountMismatch {
    type V = Mismatch;

    open spec fn view(&self) -> Mismatch {
        Mismatch { method_name: self.method_name@, deviation: self.deviation as int }
    }
}

impl CallCountMismatch {
    /// By how many calls the method missed what was expected.
    pub fn magnitude(&self) -> (magnitude: u64)
        ensures
            magnitude == self@.magnitude(),
    {
        let wide: i128 = self.deviation as i128;
        if wide < 0 {
            (-wide) as u64
        } else {
            wide as u64
        }
    }

    /// The mismatch in words, for a failure report.
    pub fn message(&self) -> (text: String)
        ensures
            text@ == self@.message(),
    {
        let magnitude = self.magnitude();
        let mut text = self.method_name.clone();
        text.append(" was called ");
        text.append(decimal_string(magnitude).as_str());
        text.append(if magnitude == 1 { " time " } else { " times " });
        text.append(if self.deviation < 0 { "more" } else { "fewer" });
        text.append(" than expected");
        text
    }
}

} // verus!
