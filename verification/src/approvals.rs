//! The delegates of one token: a finite map from account to approval id,
//! kept in a vector in which no account occurs twice.

use vstd::prelude::*;
use crate::model::ids_below;

verus! {

/// One delegate and the approval id issued to it.
struct Approval {
    account: String,
    approval_id: u64,
}

/// The delegates of one token. Its view is the map from each delegate's
/// account to the approval id that it holds.
pub struct Approvals {
    entries: Vec<Approval>,
}

/// No account occurs at two places of `s`.
spec fn distinct(s: Seq<Approval>) -> bool {
    forall|i: int, j: int| 0 <= i < j < s.len() ==> s[i].account@ != s[j].account@
}

/// `i` is a place of `s` that holds `account`.
spec fn at(s: Seq<Approval>, account: Seq<char>, i: int) -> bool {
    0 <= i < s.len() && s[i].account@ == account
}

/// The map that `s` stands for.
spec fn model(s: Seq<Approval>) -> Map<Seq<char>, u64> {
    Map::new(
        |a: Seq<char>| exists|i: int| at(s, a, i),
        |a: Seq<char>| s[choose|i: int| at(s, a, i)].approval_id,
    )
}

/// In a sequence without repetition, the map takes each entry's account to
/// that entry's approval id.
proof fn lemma_model_at(s: Seq<Approval>, i: int)
    requires
        distinct(s),
        0 <= i < s.len(),
    ensures
        model(s).contains_key(s[i].account@),
        model(s)[s[i].account@] == s[i].approval_id,
{
    let a = s[i].account@;
    assert(at(s, a, i));
    let j = choose|j: int| at(s, a, j);
    assert(at(s, a, j));
    assert(j == i);
}

/// The place of `account` in `v`, if it has one.
fn position(v: &Vec<Approval>, account: &String) -> (out: Option<usize>)
    ensures
        match out {
            Some(i) => at(v@, account@, i as int),
            None => forall|i: int| !at(v@, account@, i),
        },
{
    let mut k: usize = 0;
    while k < v.len()
        invariant
            k <= v.len(),
            forall|i: int| 0 <= i < k ==> !at(v@, account@, i),
        decreases v.len() - k,
    {
        if v[k].account.eq(account) {
            return Some(k);
        }
        k += 1;
    }
    None
}

impl Approvals {
    #[verifier::type_invariant]
    spec fn inv(self) -> bool {
        distinct(self.entries@)
    }

    /// The map from delegate to approval id.
    pub closed spec fn view(&self) -> Map<Seq<char>, u64> {
        model(self.entries@)
    }

    /// No delegates.
    pub fn new() -> (out: Self)
        ensures
            out@ == Map::<Seq<char>, u64>::empty(),
    {
        let out = Approvals { entries: Vec::new() };
        assert(out@ =~= Map::<Seq<char>, u64>::empty());
        out
    }

    /// The approval id that `account` holds, if it is a delegate.
    pub fn get(&self, account: &String) -> (out: Option<u64>)
        ensures
            out == (if self@.contains_key(account@) {
                Some(self@[account@])
            } else {
                None
            }),
    {
        proof {
            use_type_invariant(self);
        }
        match position(&self.entries, account) {
            Some(i) => {
                proof {
                    lemma_model_at(self.entries@, i as int);
                }
                Some(self.entries[i].approval_id)
            },
            None => None,
        }
    }

    /// Whether there is no delegate at all.
    pub fn is_empty(&self) -> (out: bool)
        ensures
            out == (self@ == Map::<Seq<char>, u64>::empty()),
    {
        proof {
            use_type_invariant(self);
            if self.entries@.len() > 0 {
                lemma_model_at(self.entries@, 0);
            } else {
                assert(self@ =~= Map::<Seq<char>, u64>::empty());
            }
        }
        self.entries.len() == 0
    }

    /// Makes `account` a delegate with `approval_id`, in place of the
    /// approval it held, if any.
    pub fn insert(&mut self, account: String, approval_id: u64)
        ensures
            final(self)@ == old(self)@.insert(account@, approval_id),
    {
        proof {
            use_type_invariant(&*self);
        }
        let mut entries: Vec<Approval> = Vec::new();
        std::mem::swap(&mut entries, &mut self.entries);
        let ghost before = entries@;
        let ghost key = account@;
        let found = position(&entries, &account);
        let ghost slot: int = match found {
            Some(i) => i as int,
            None => before.len() as int,
        };
        match found {
            Some(i) => {
                entries.set(i, Approval { account, approval_id });
            },
            None => {
                entries.push(Approval { account, approval_id });
            },
        }
        proof {
            let after = entries@;
            assert forall|p: int, q: int| 0 <= p < q < after.len() implies after[p].account@
                != after[q].account@ by {
                if after.len() == before.len() {
                    assert(before[p].account@ != before[q].account@);
                } else if q == before.len() {
                    assert(!at(before, key, p));
                } else {
                    assert(before[p].account@ != before[q].account@);
                }
            }
            assert(distinct(after));
            assert forall|a: Seq<char>| #[trigger]
                model(after).contains_key(a) <==> (a == key || model(before).contains_key(a)) by {
                if a == key {
                    if after.len() == before.len() {
                        let i = choose|i: int| at(before, key, i);
                        assert(at(after, key, i));
                    } else {
                        assert(at(after, key, before.len() as int));
                    }
                } else if model(after).contains_key(a) {
                    let j = choose|j: int| at(after, a, j);
                    assert(at(before, a, j));
                } else if model(before).contains_key(a) {
                    let j = choose|j: int| at(before, a, j);
                    assert(at(after, a, j));
                }
            }
            assert forall|a: Seq<char>| #[trigger]
                model(after).contains_key(a) implies model(after)[a] == (if a == key {
                approval_id
            } else {
                model(before)[a]
            }) by {
                let j = choose|j: int| at(after, a, j);
                lemma_model_at(after, j);
                if a != key {
                    assert(at(before, a, j));
                    lemma_model_at(before, j);
                } else {
                    assert(at(after, key, slot));
                    assert(j == slot);
                }
            }
            assert(model(after) =~= model(before).insert(key, approval_id));
        }
        self.entries = entries;
    }

    /// Takes `account` out of the delegates and returns the approval id it
    /// held, or `None` where it was no delegate.
    pub fn remove(&mut self, account: &String) -> (out: Option<u64>)
        ensures
            final(self)@ == old(self)@.remove(account@),
            out == (if old(self)@.contains_key(account@) {
                Some(old(self)@[account@])
            } else {
                None
            }),
    {
        proof {
            use_type_invariant(&*self);
        }
        let mut entries: Vec<Approval> = Vec::new();
        std::mem::swap(&mut entries, &mut self.entries);
        let ghost before = entries@;
        let ghost key = account@;
        let out = match position(&entries, account) {
            Some(i) => {
                proof {
                    lemma_model_at(before, i as int);
                }
                let gone = entries.remove(i);
                proof {
                    let after = entries@;
                    assert forall|p: int, q: int| 0 <= p < q < after.len() implies after[p].account@
                        != after[q].account@ by {
                        let pp = if p < i { p } else { p + 1 };
                        let qq = if q < i { q } else { q + 1 };
                        assert(before[pp].account@ != before[qq].account@);
                    }
                    assert(distinct(after));
                    assert forall|a: Seq<char>| #[trigger]
                        model(after).contains_key(a) <==> (a != key && model(before).contains_key(
                            a,
                        )) by {
                        if model(after).contains_key(a) {
                            let j = choose|j: int| at(after, a, j);
                            let jj = if j < i { j } else { j + 1 };
                            assert(at(before, a, jj));
                            assert(before[jj].account@ != before[i as int].account@);
                        } else if a != key && model(before).contains_key(a) {
                            let j = choose|j: int| at(before, a, j);
                            let jj = if j < i { j } else { j - 1 };
                            assert(at(after, a, jj));
                        }
                    }
                    assert forall|a: Seq<char>| #[trigger]
                        model(after).contains_key(a) implies model(after)[a] == model(before)[a] by {
                        let j = choose|j: int| at(after, a, j);
                        let jj = if j < i { j } else { j + 1 };
                        lemma_model_at(after, j);
                        assert(at(before, a, jj));
                        lemma_model_at(before, jj);
                    }
                    assert(model(after) =~= model(before).remove(key));
                }
                Some(gone.approval_id)
            },
            None => {
                proof {
                    assert(!model(before).contains_key(key));
                    assert(model(before) =~= model(before).remove(key));
                }
                None
            },
        };
        self.entries = entries;
        out
    }

    /// Whether every approval id held lies below `bound`.
    pub fn all_below(&self, bound: u64) -> (out: bool)
        ensures
            out == ids_below(self@, bound),
    {
        proof {
            use_type_invariant(self);
        }
        let mut k: usize = 0;
        while k < self.entries.len()
            invariant
                k <= self.entries@.len(),
                distinct(self.entries@),
                forall|i: int| 0 <= i < k ==> (#[trigger] self.entries@[i]).approval_id < bound,
            decreases self.entries@.len() - k,
        {
            if self.entries[k].approval_id >= bound {
                proof {
                    lemma_model_at(self.entries@, k as int);
                    assert(self@.contains_key(self.entries@[k as int].account@));
                }
                return false;
            }
            k += 1;
        }
        proof {
            let s = self.entries@;
            assert forall|a: Seq<char>| #[trigger] self@.contains_key(a) implies self@[a]
                < bound by {
                let j = choose|j: int| at(s, a, j);
                lemma_model_at(s, j);
            }
        }
        true
    }

    /// Every delegate with the approval id it holds, each once.
    pub fn delegates(&self) -> (out: Vec<(String, u64)>)
        ensures
            forall|i: int|
                0 <= i < out@.len() ==> self@.contains_key(#[trigger] out@[i].0@) && self@[out@[i].0@]
                    == out@[i].1,
            forall|a: Seq<char>|
                self@.contains_key(a) ==> exists|i: int|
                    0 <= i < out@.len() && #[trigger] out@[i].0@ == a,
            forall|i: int, j: int| 0 <= i < j < out@.len() ==> out@[i].0@ != out@[j].0@,
    {
        proof {
            use_type_invariant(self);
        }
        let mut out: Vec<(String, u64)> = Vec::new();
        let mut k: usize = 0;
        while k < self.entries.len()
            invariant
                k <= self.entries@.len(),
                out@.len() == k,
                forall|i: int|
                    0 <= i < k ==> (#[trigger] out@[i]).0@ == self.entries@[i].account@ && out@[i].1
                        == self.entries@[i].approval_id,
            decreases self.entries@.len() - k,
        {
            out.push((self.entries[k].account.clone(), self.entries[k].approval_id));
            k += 1;
        }
        proof {
            let s = self.entries@;
            assert forall|i: int| 0 <= i < out@.len() implies self@.contains_key(
                #[trigger] out@[i].0@,
            ) && self@[out@[i].0@] == out@[i].1 by {
                lemma_model_at(s, i);
            }
            assert forall|a: Seq<char>| self@.contains_key(a) implies exists|i: int|
                0 <= i < out@.len() && #[trigger] out@[i].0@ == a by {
                let j = choose|j: int| at(s, a, j);
                assert(out@[j].0@ == a);
            }
            assert forall|i: int, j: int| 0 <= i < j < out@.len() implies out@[i].0@ != out@[j].0@ by {
                assert(s[i].account@ != s[j].account@);
            }
        }
        out
    }

    /// Takes every delegate out.
    pub fn clear(&mut self)
        ensures
            final(self)@ == Map::<Seq<char>, u64>::empty(),
    {
        self.entries = Vec::new();
        assert(model(self.entries@) =~= Map::<Seq<char>, u64>::empty());
    }
}

} // verus!
