//! A numbering: either a pattern or a function supplied by the caller.
use vstd::prelude::*;

use crate::pattern::{NumberingPattern, PatternView};

verus! {

/// How to number a sequence of things.
#[derive(Debug, Clone, PartialEq, Hash)]
pub enum Numbering<F> {
    /// A pattern with prefixes, counting symbols and a suffix.
    Pattern(NumberingPattern),
    /// A function of the numbers, which the caller calls.
    Func(F),
}

/// What applying a numbering asks for.
#[derive(Debug)]
pub enum Numbered<'a, F> {
    /// The finished text.
    Text(String),
    /// A call of the function with the numbers as its positional arguments,
    /// in order; its result is the numbering's result, as it is.
    Call(&'a F, Vec<u64>),
}

impl<F> Numbering<F> {
    /// Apply the numbering to the given numbers.
    pub fn apply(&self, numbers: &[u64]) -> (r: Numbered<'_, F>)
        ensures
            match self {
                Numbering::Pattern(p) => r matches Numbered::Text(t) && t@ == p.formatted(numbers@),
                Numbering::Func(f) => r matches Numbered::Call(g, args) && *g == *f && args@
                    == numbers@,
            },
    {
        match self {
            Numbering::Pattern(pattern) => Numbered::Text(pattern.apply(numbers)),
            Numbering::Func(func) => {
                let mut args: Vec<u64> = Vec::new();
                let mut i: usize = 0;
                while i < numbers.len()
                    invariant
                        i <= numbers@.len(),
                        args@ == numbers@.take(i as int),
                    decreases numbers@.len() - i,
                {
                    args.push(numbers[i]);
                    i = i + 1;
                    assert(args@ =~= numbers@.take(i as int));
                }
                assert(numbers@.take(i as int) =~= numbers@);
                Numbered::Call(func, args)
            },
        }
    }

    /// Trim the first prefix and the suffix if this is a pattern.
    pub fn trimmed(self) -> (r: Self)
        ensures
            match self {
                Numbering::Pattern(p) => r matches Numbering::Pattern(q) && q@ == (PatternView {
                    trimmed: true,
                    ..p@
                }),
                Numbering::Func(f) => r == self,
            },
    {
        match self {
            Numbering::Pattern(pattern) => {
                let q = pattern.into_trimmed();
                Numbering::Pattern(q)
            },
            Numbering::Func(func) => Numbering::Func(func),
        }
    }
}

/// Applies a numbering to a sequence of numbers.
pub fn numbering<'a, F>(scheme: &'a Numbering<F>, numbers: &[u64]) -> (r: Numbered<'a, F>)
    ensures
        match scheme {
            Numbering::Pattern(p) => r matches Numbered::Text(t) && t@ == p.formatted(numbers@),
            Numbering::Func(f) => r matches Numbered::Call(g, args) && *g == *f && args@
                == numbers@,
        },
{
    scheme.apply(numbers)
}

impl<F> From<NumberingPattern> for Numbering<F> {
    fn from(pattern: NumberingPattern) -> (r: Self) {
        Numbering::Pattern(pattern)
    }
}

impl<F> vstd::std_specs::convert::FromSpecImpl<NumberingPattern> for Numbering<F> {
    open spec fn obeys_from_spec() -> bool {
        true
    }

    open spec fn from_spec(pattern: NumberingPattern) -> Self {
        Numbering::Pattern(pattern)
    }
}

} // verus!
