//! One ceremony at a time for each session.
//!
//! The record of a session is one file, rewritten as a whole by every signing.
//! Two invocations on one path would write over each other, so whoever runs
//! invocations side by side enters each path here before it begins and takes
//! it out when it has ended.

use crate::text::{own, same_text};
use vstd::prelude::*;

verus! {

/// The paths of the sessions with an invocation in flight.
#[derive(Debug)]
pub struct InFlight {
    paths: Vec<String>,
}

impl View for InFlight {
    type V = Set<Seq<char>>;

    closed spec fn view(&self) -> Set<Seq<char>> {
        Set::new(|path: Seq<char>| listed(self.paths@, path))
    }
}

/// `path` is one of `paths`.
spec fn listed(paths: Seq<String>, path: Seq<char>) -> bool {
    exists|i: int| 0 <= i < paths.len() && (#[trigger] paths[i])@ == path
}

/// No path occurs twice.
spec fn distinct(paths: Seq<String>) -> bool {
    forall|i: int, j: int|
        0 <= i < j < paths.len() ==> (#[trigger] paths[i])@ != (#[trigger] paths[j])@
}

impl Default for InFlight {
    fn default() -> (none: Self)
        ensures
            none@ == Set::<Seq<char>>::empty(),
    {
        InFlight::new()
    }
}

impl InFlight {
    #[verifier::type_invariant]
    spec fn well_formed(self) -> bool {
        distinct(self.paths@)
    }

    /// No invocation is in flight.
    pub fn new() -> (none: Self)
        ensures
            none@ == Set::<Seq<char>>::empty(),
    {
        let none = InFlight { paths: Vec::new() };
        assert(none@ =~= Set::<Seq<char>>::empty());
        none
    }

    /// The place of `path` among the paths, if it is there.
    fn position(&self, path: &str) -> (place: Option<usize>)
        ensures
            match place {
                Some(i) => i < self.paths@.len() && self.paths@[i as int]@ == path@,
                None => !listed(self.paths@, path@),
            },
    {
        let mut i: usize = 0;
        while i < self.paths.len()
            invariant
                i <= self.paths@.len(),
                forall|k: int| 0 <= k < i ==> (#[trigger] self.paths@[k])@ != path@,
            decreases self.paths@.len() - i,
        {
            if same_text(self.paths[i].as_str(), path) {
                return Some(i);
            }
            i = i + 1;
        }
        None
    }

    /// Whether an invocation is in flight on `path`.
    pub fn holds(&self, path: &str) -> (held: bool)
        ensures
            held == self@.contains(path@),
    {
        self.position(path).is_some()
    }

    /// Enters `path` unless an invocation is in flight on it. The answer says
    /// whether the caller's invocation may begin.
    pub fn begin(self, path: &str) -> (entered: (Self, bool))
        ensures
            entered.1 == !self@.contains(path@),
            entered.0@ == self@.insert(path@),
    {
        proof {
            use_type_invariant(&self);
        }
        match self.position(path) {
            Some(_) => {
                assert(self@ =~= self@.insert(path@));
                (self, false)
            },
            None => {
                let ghost before = self.paths@;
                let mut paths = self.paths;
                paths.push(own(path));
                let ghost after = paths@;
                proof {
                    assert forall|i: int, j: int| 0 <= i < j < after.len() implies (
                    #[trigger] after[i])@ != (#[trigger] after[j])@ by {
                        if j < before.len() {
                            assert(before[i]@ != before[j]@);
                        } else {
                            assert(before[i] == after[i]);
                        }
                    }
                }
                let next = InFlight { paths };
                proof {
                    assert forall|t: Seq<char>| next@.contains(t) <==> self@.insert(
                        path@,
                    ).contains(t) by {
                        if listed(after, t) {
                            let i = choose|i: int| 0 <= i < after.len() && (#[trigger] after[i])@
                                == t;
                            if i < before.len() {
                                assert(before[i]@ == t);
                            }
                        }
                        if listed(before, t) {
                            let i = choose|i: int| 0 <= i < before.len() && (
                            #[trigger] before[i])@ == t;
                            assert(after[i]@ == t);
                        }
                        if t == path@ {
                            assert(after[before.len() as int]@ == t);
                        }
                    }
                    assert(next@ =~= self@.insert(path@));
                }
                (next, true)
            },
        }
    }

    /// Takes `path` out: the invocation on it has ended.
    pub fn end(self, path: &str) -> (left: Self)
        ensures
            left@ == self@.remove(path@),
    {
        proof {
            use_type_invariant(&self);
        }
        match self.position(path) {
            None => {
                assert(self@ =~= self@.remove(path@));
                self
            },
            Some(k) => {
                let ghost before = self.paths@;
                let mut paths = self.paths;
                paths.remove(k);
                let ghost after = paths@;
                proof {
                    assert(after =~= before.remove(k as int));
                    assert forall|i: int, j: int| 0 <= i < j < after.len() implies (
                    #[trigger] after[i])@ != (#[trigger] after[j])@ by {
                        let bi = if i < k { i } else { i + 1 };
                        let bj = if j < k { j } else { j + 1 };
                        assert(after[i] == before[bi]);
                        assert(after[j] == before[bj]);
                        assert(before[bi]@ != before[bj]@);
                    }
                }
                let next = InFlight { paths };
                proof {
                    assert forall|t: Seq<char>| next@.contains(t) <==> self@.remove(
                        path@,
                    ).contains(t) by {
                        if listed(after, t) {
                            let i = choose|i: int| 0 <= i < after.len() && (#[trigger] after[i])@
                                == t;
                            let bi = if i < k { i } else { i + 1 };
                            assert(after[i] == before[bi]);
                            assert(before[bi]@ == t);
                            if bi < k {
                                assert(before[bi]@ != before[k as int]@);
                            } else {
                                assert(before[k as int]@ != before[bi]@);
                            }
                        }
                        if listed(before, t) && t != path@ {
                            let i = choose|i: int| 0 <= i < before.len() && (
                            #[trigger] before[i])@ == t;
                            let ai = if i < k { i } else { i - 1 };
                            assert(after[ai] == before[i]);
                            assert(after[ai]@ == t);
                        }
                    }
                    assert(next@ =~= self@.remove(path@));
                }
                next
            },
        }
    }
}

} // verus!
