// SPDX-License-Identifier: GPL-2.0

//! The fact table: an ordered, immutable list of facts.
//!
//! A table is modelled by the bytes of its facts, a `Seq<Seq<u8>>`. It is
//! never empty and none of its facts is empty; both hold of every
//! `FactTable` that exists.

use vstd::prelude::*;
use vstd::string::*;
use vstd::utf8::{decode_utf8, encode_utf8_decode_utf8};

verus! {

/// The UTF-8 bytes of each text, in order.
pub open spec fn bytes_of(texts: Seq<&'static str>) -> Seq<Seq<u8>> {
    Seq::new(texts.len(), |i: int| texts[i].spec_bytes())
}

/// A list of facts makes a table when it has at least one fact and every
/// fact has at least one byte.
pub open spec fn valid_table(facts: Seq<Seq<u8>>) -> bool {
    &&& facts.len() > 0
    &&& forall|i: int| 0 <= i < facts.len() ==> (#[trigger] facts[i]).len() > 0
}

/// The facts a device selects from.
#[derive(Debug)]
pub struct FactTable {
    facts: Vec<&'static str>,
}

impl View for FactTable {
    type V = Seq<Seq<u8>>;

    closed spec fn view(&self) -> Seq<Seq<u8>> {
        bytes_of(self.facts@)
    }
}

impl FactTable {
    /// Holds of every table: `valid_table` of its facts.
    #[verifier::type_invariant]
    pub open spec fn wf(&self) -> bool {
        valid_table(self@)
    }

    /// Makes a table of texts that are known to form one.
    pub(crate) fn from_valid(texts: Vec<&'static str>) -> (table: FactTable)
        requires
            valid_table(bytes_of(texts@)),
        ensures
            table@ == bytes_of(texts@),
    {
        FactTable { facts: texts }
    }

    /// Makes a table of `texts`, in their order, if they form one: `None`
    /// for an empty list and for a list with an empty text.
    pub fn new(texts: Vec<&'static str>) -> (table: Option<FactTable>)
        ensures
            table is Some <==> valid_table(bytes_of(texts@)),
            table matches Some(t) ==> t@ == bytes_of(texts@),
    {
        if texts.len() == 0 {
            return None;
        }
        let mut i: usize = 0;
        while i < texts.len()
            invariant
                i <= texts@.len(),
                forall|j: int| 0 <= j < i ==> (#[trigger] bytes_of(texts@)[j]).len() > 0,
            decreases texts@.len() - i,
        {
            if texts[i].as_bytes().len() == 0 {
                assert(bytes_of(texts@)[i as int].len() == 0);
                return None;
            }
            i = i + 1;
        }
        Some(FactTable::from_valid(texts))
    }

    /// The number of facts, which is never zero.
    pub fn size(&self) -> (n: usize)
        ensures
            n == self@.len(),
            n > 0,
    {
        proof {
            use_type_invariant(self);
        }
        self.facts.len()
    }

    /// The fact at `index`: the text whose UTF-8 bytes the table holds
    /// there. The same index always gives the same bytes, and at least one.
    pub fn get(&self, index: usize) -> (fact: &'static str)
        requires
            index < self@.len(),
        ensures
            fact.spec_bytes() == self@[index as int],
            fact@ == decode_utf8(self@[index as int]),
            fact.spec_bytes().len() > 0,
    {
        proof {
            use_type_invariant(self);
            assert(self@[index as int].len() > 0);
            encode_utf8_decode_utf8(self.facts@[index as int]@);
        }
        self.facts[index]
    }

    /// The length in bytes of the longest fact: a buffer of this size holds
    /// whichever fact a read selects.
    pub fn longest(&self) -> (n: usize)
        ensures
            forall|i: int| 0 <= i < self@.len() ==> (#[trigger] self@[i]).len() <= n,
            exists|i: int| 0 <= i < self@.len() && (#[trigger] self@[i]).len() == n,
    {
        proof {
            use_type_invariant(self);
        }
        let mut best: usize = self.facts[0].as_bytes().len();
        let ghost mut at: int = 0;
        let mut i: usize = 1;
        while i < self.facts.len()
            invariant
                1 <= i <= self@.len(),
                self@ == bytes_of(self.facts@),
                0 <= at < i,
                self@[at].len() == best,
                forall|j: int| 0 <= j < i ==> (#[trigger] self@[j]).len() <= best,
            decreases self@.len() - i,
        {
            let len: usize = self.facts[i].as_bytes().len();
            if len > best {
                best = len;
                proof {
                    at = i as int;
                }
            }
            i = i + 1;
        }
        best
    }
}

} // verus!
