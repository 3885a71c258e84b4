//! Numbers with a fraction, kept as the message gives them.
use vstd::prelude::*;

verus! {

/// The value by which a field says that its number is not there.
#[derive(Clone, Copy, Debug, PartialEq, Eq, Structural)]
pub enum AbsentMark {
    /// Zero, exactly.
    Zero,
    /// Minus one, up to two units in the last place.
    MinusOne,
    /// Minus two, up to two units in the last place.
    MinusTwo,
}

/// A double-precision number, told by where it comes from.
#[derive(Clone, Debug, PartialEq, Eq)]
pub enum Double {
    /// The number that the text writes, or zero where it writes none.
    Parsed(String),
    /// As `Parsed`, unless that number is the mark: then the largest double.
    Marked(String, AbsentMark),
    /// This integer.
    Whole(i32),
    /// The largest double, which stands for a number that is not there.
    Max,
}

impl Double {
    /// What is left of the number once it is known whether its text writes the mark.
    pub open spec fn spec_resolve(self, hit: bool) -> Double {
        match self {
            Double::Marked(text, _) => if hit {
                Double::Max
            } else {
                Double::Parsed(text)
            },
            _ => self,
        }
    }

    /// Settles a marked number: the largest double where the text writes the mark (`hit`), else
    /// the number that the text writes. Every other number stays as it is.
    pub fn resolve(self, hit: bool) -> (r: Double)
        ensures
            r == self.spec_resolve(hit),
            r !is Marked,
            self matches Double::Marked(text, _) ==> r == if hit {
                Double::Max
            } else {
                Double::Parsed(text)
            },
            self !is Marked ==> r == self,
    {
        match self {
            Double::Marked(text, _) => if hit {
                Double::Max
            } else {
                Double::Parsed(text)
            },
            other => other,
        }
    }
}

} // verus!
