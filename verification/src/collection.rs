//! Name-keyed collections of job records.
//!
//! A collection source yields a sequence of `(name, job)` pairs in
//! declaration order. Keys must be unique: a duplicate key is a structural
//! error, never a silent overwrite. Declaration order is preserved in the
//! stored entries, though it carries no meaning for lookup.

use crate::job::Job;
use vstd::prelude::*;

verus! {

/// A failure arising from the shape or value range of parsed input.
/// Every variant identifies what was malformed; no failure is recovered
/// from internally, and none is silently defaulted.
#[derive(Clone, Debug, PartialEq, Eq)]
pub enum StructuralError {
    /// A required field of the record is absent; carries the field name.
    MissingField(String),
    /// A value names no member of the closed enumeration expected there;
    /// carries the offending value's text.
    OutsideEnumeration(String),
    /// A numeric field lies outside the receiving integer's representable
    /// range; carries the offending value's text.
    OutOfRange(String),
    /// The source's shape does not match the expected record; carries the
    /// collaborating format layer's description.
    Malformed(String),
    /// Two entries of a collection share a key; carries that key.
    DuplicateKey(String),
}

/// All keys of the entry sequence are distinct (by their character
/// sequences).
pub open spec fn distinct_keys(entries: Seq<(String, Job)>) -> bool {
    forall|i: int, j: int|
        0 <= i < j < entries.len() ==> entries[i].0@ != entries[j].0@
}

/// A name-keyed mapping of job records with unique keys, in declaration
/// order. Built only from a pair sequence whose keys are distinct.
#[derive(Clone, Debug, PartialEq, Eq)]
pub struct JobMap {
    entries: Vec<(String, Job)>,
}

impl View for JobMap {
    type V = Seq<(String, Job)>;

    closed spec fn view(&self) -> Seq<(String, Job)> {
        self.entries@
    }
}

impl JobMap {
    /// Every `JobMap` has distinct keys.
    pub closed spec fn wf(&self) -> bool {
        distinct_keys(self.entries@)
    }

    /// Builds the mapping from `(name, job)` pairs in declaration order.
    /// Succeeds exactly when the keys are distinct, keeping the pairs
    /// unchanged and in order; otherwise reports the first duplicated key
    /// encountered (the key of the earliest entry that repeats an earlier
    /// one), and no partial mapping.
    pub fn from_pairs(pairs: Vec<(String, Job)>) -> (r: Result<JobMap, StructuralError>)
        ensures
            r is Ok <==> distinct_keys(pairs@),
            r is Ok ==> r->Ok_0@ == pairs@ && r->Ok_0.wf(),
            r is Err ==> r->Err_0 is DuplicateKey,
            r is Err ==> exists|j: int|
                0 <= j < pairs@.len() && distinct_keys(#[trigger] pairs@.take(j))
                    && r->Err_0->DuplicateKey_0@ == pairs@[j].0@
                    && exists|i: int| 0 <= i < j && pairs@[i].0@ == pairs@[j].0@,
    {
        let n = pairs.len();
        let mut j: usize = 0;
        while j < n
            invariant
                j <= n,
                n == pairs@.len(),
                distinct_keys(pairs@.take(j as int)),
            decreases n - j,
        {
            let mut i: usize = 0;
            while i < j
                invariant
                    i <= j < n,
                    n == pairs@.len(),
                    distinct_keys(pairs@.take(j as int)),
                    forall|k: int| 0 <= k < i ==> pairs@[k].0@ != pairs@[j as int].0@,
                decreases j - i,
            {
                if pairs[i].0 == pairs[j].0 {
                    proof {
                        assert(pairs@[i as int].0@ == pairs@[j as int].0@);
                    }
                    return Err(StructuralError::DuplicateKey(pairs[j].0.clone()));
                }
                i += 1;
            }
            proof {
                assert forall|a: int, b: int|
                    0 <= a < b < pairs@.take(j + 1).len() implies (#[trigger] pairs@.take(j + 1)[a]).0@
                        != (#[trigger] pairs@.take(j + 1)[b]).0@ by {
                    if b < j {
                        assert(pairs@.take(j as int)[a].0@ != pairs@.take(j as int)[b].0@);
                    }
                }
                assert(distinct_keys(pairs@.take(j + 1)));
            }
            j += 1;
        }
        proof {
            assert(pairs@.take(n as int) =~= pairs@);
        }
        Ok(JobMap { entries: pairs })
    }

    /// Key-uniqueness invariant, stated over the visible entry sequence:
    /// a well-formed mapping never holds two entries with one key.
    pub proof fn lemma_distinct(&self)
        requires
            self.wf(),
        ensures
            distinct_keys(self@),
    {
    }

    /// The number of entries.
    pub fn len(&self) -> (n: usize)
        ensures
            n == self@.len(),
    {
        self.entries.len()
    }

    /// The entries, in declaration order.
    pub fn entries(&self) -> (r: &Vec<(String, Job)>)
        ensures
            r@ == self@,
    {
        &self.entries
    }

    /// Looks a job up by its name: the entry whose key has exactly the
    /// characters of `name`, or `None` where no entry carries that key.
    pub fn get(&self, name: &str) -> (r: Option<&Job>)
        ensures
            r is Some ==> exists|i: int|
                0 <= i < self@.len() && (#[trigger] self@[i]).0@ == name@ && r->Some_0 == self@[i].1,
            r is None ==> forall|i: int|
                0 <= i < self@.len() ==> (#[trigger] self@[i]).0@ != name@,
    {
        let wanted: String = name.to_owned();
        let n = self.entries.len();
        let mut i: usize = 0;
        while i < n
            invariant
                i <= n,
                n == self.entries@.len(),
                wanted@ == name@,
                forall|k: int| 0 <= k < i ==> (#[trigger] self.entries@[k]).0@ != name@,
            decreases n - i,
        {
            if self.entries[i].0 == wanted {
                proof {
                    assert((self@[i as int]).0@ == name@);
                }
                return Some(&self.entries[i].1);
            }
            i += 1;
        }
        None
    }
}

} // verus!
