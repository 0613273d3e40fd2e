//! Counts without an upper limit.
//!
//! The number of readers of a payload has no bound of its own, so the count
//! is kept in as many machine words as it needs: counting one more never
//! fails and never wraps.

use vstd::prelude::*;
use vstd::string::*;
use crate::text::{append_decimal, decimal_digits};

verus! {

/// The number that a sequence of words stands for: every word but the last
/// is full, and the last one holds the rest.
pub open spec fn words_value(words: Seq<u64>) -> nat {
    if words.len() == 0 {
        0
    } else {
        ((words.len() - 1) * u64::MAX + words.last()) as nat
    }
}

/// Every word but the last is full, and the last one is not zero.
pub open spec fn words_well_formed(words: Seq<u64>) -> bool {
    &&& forall|i: int| 0 <= i < words.len() - 1 ==> words[i] == u64::MAX
    &&& words.len() > 0 ==> words.last() >= 1
}

/// The text of a count in a diagnostic: its decimal digits as far as one
/// machine word reaches, and a remark beyond that.
pub open spec fn count_text(n: nat) -> Seq<char> {
    if n <= u64::MAX {
        decimal_digits(n)
    } else {
        "more than "@ + decimal_digits(u64::MAX as nat)
    }
}

/// A natural number of any size.
#[derive(Debug, PartialEq, Eq)]
pub struct ClaimCount {
    words: Vec<u64>,
}

impl View for ClaimCount {
    type V = nat;

    closed spec fn view(&self) -> nat {
        words_value(self.words@)
    }
}

impl ClaimCount {
    #[verifier::type_invariant]
    spec fn inv(self) -> bool {
        words_well_formed(self.words@)
    }

    /// The count of nothing.
    pub fn zero() -> (count: Self)
        ensures
            count@ == 0,
    {
        ClaimCount { words: Vec::new() }
    }

    /// The count that is `n`.
    pub fn from_u64(n: u64) -> (count: Self)
        ensures
            count@ == n,
    {
        let mut words: Vec<u64> = Vec::new();
        if n > 0 {
            words.push(n);
        }
        ClaimCount { words }
    }

    /// The count as one machine word, if it fits into one.
    pub fn as_u64(&self) -> (n: Option<u64>)
        ensures
            match n {
                Some(n) => self@ == n,
                None => self@ > u64::MAX,
            },
    {
        proof {
            use_type_invariant(self);
        }
        if self.words.len() == 0 {
            Some(0)
        } else if self.words.len() == 1 {
            Some(self.words[0])
        } else {
            None
        }
    }

    pub fn is_zero(&self) -> (zero: bool)
        ensures
            zero == (self@ == 0),
    {
        proof {
            use_type_invariant(self);
        }
        self.words.len() == 0
    }

    /// Counts one more.
    pub fn increment(&mut self)
        ensures
            final(self)@ == old(self)@ + 1,
    {
        proof {
            use_type_invariant(&*self);
        }
        let mut words: Vec<u64> = Vec::new();
        core::mem::swap(&mut self.words, &mut words);
        let len = words.len();
        if len > 0 && words[len - 1] < u64::MAX {
            let last = words[len - 1];
            words.set(len - 1, last + 1);
        } else {
            words.push(1);
        }
        self.words = words;
    }

    /// Counts one less.
    pub fn decrement(&mut self)
        requires
            old(self)@ > 0,
        ensures
            final(self)@ == old(self)@ - 1,
    {
        proof {
            use_type_invariant(&*self);
        }
        let mut words: Vec<u64> = Vec::new();
        core::mem::swap(&mut self.words, &mut words);
        let len = words.len();
        let last = words[len - 1];
        if last > 1 {
            words.set(len - 1, last - 1);
        } else {
            words.pop();
        }
        self.words = words;
    }

    /// Appends the text of the count to `out`.
    pub fn append_to(&self, out: &mut String)
        ensures
            final(out)@ == old(out)@ + count_text(self@),
    {
        match self.as_u64() {
            Some(n) => {
                append_decimal(out, n);
            },
            None => {
                out.append("more than ");
                append_decimal(out, u64::MAX);
                assert(old(out)@ + count_text(self@) =~= (old(out)@ + "more than "@)
                    + decimal_digits(u64::MAX as nat));
            },
        }
    }
}

impl Clone for ClaimCount {
    fn clone(&self) -> (copy: Self)
        ensures
            copy@ == self@,
    {
        proof {
            use_type_invariant(self);
        }
        let words = self.words.clone();
        assert(words@ =~= self.words@);
        ClaimCount { words }
    }
}

} // verus!
