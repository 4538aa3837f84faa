//! A small association list from account identities to values.
//!
//! It backs the member registry, the delegate index, the escrow balances
//! and the per-proposal vote records. The mathematical model is the partial
//! map `spec_get`: the first entry whose key matches wins, and `set` never
//! adds a second entry for a key that is already present.

use vstd::prelude::*;

verus! {

/// An association list from identity strings to values of type `V`.
#[derive(Debug)]
pub struct KvList<V> {
    pub pairs: Vec<(String, V)>,
}

impl<V> KvList<V> {
    /// The value bound to `key` in the entry sequence `s`, if any; the
    /// earliest entry for a key is the binding.
    pub open spec fn seq_get(s: Seq<(String, V)>, key: Seq<char>) -> Option<V>
        decreases s.len(),
    {
        if s.len() == 0 {
            None
        } else if s[0].0@ == key {
            Some(s[0].1)
        } else {
            Self::seq_get(s.skip(1), key)
        }
    }

    /// The value bound to `key`, as a mathematical partial map.
    pub open spec fn spec_get(self, key: Seq<char>) -> Option<V> {
        Self::seq_get(self.pairs@, key)
    }

    /// An empty list: no key is bound.
    pub fn new() -> (r: Self)
        ensures
            forall|k: Seq<char>| r.spec_get(k) is None,
    {
        KvList { pairs: Vec::new() }
    }

    /// Looks `key` up, returning a reference to its value if it is bound.
    pub fn get(&self, key: &String) -> (r: Option<&V>)
        ensures
            match r {
                Some(v) => self.spec_get(key@) == Some(*v),
                None => self.spec_get(key@) is None,
            },
    {
        let n = self.pairs.len();
        let mut i: usize = 0;
        proof {
            assert(self.pairs@.skip(0) =~= self.pairs@);
        }
        while i < n
            invariant
                n == self.pairs@.len(),
                i <= n,
                Self::seq_get(self.pairs@, key@) == Self::seq_get(
                    self.pairs@.skip(i as int),
                    key@,
                ),
                forall|j: int| 0 <= j < i ==> #[trigger] self.pairs@[j].0@ != key@,
            decreases n - i,
        {
            proof {
                assert(self.pairs@.skip(i as int)[0] == self.pairs@[i as int]);
            }
            if self.pairs[i].0 == *key {
                return Some(&self.pairs[i].1);
            }
            proof {
                assert(self.pairs@.skip(i as int).skip(1) =~= self.pairs@.skip(i as int + 1));
            }
            i = i + 1;
        }
        proof {
            assert(self.pairs@.skip(n as int).len() == 0);
        }
        None
    }

    /// Binds `key` to `value`, replacing any existing binding and leaving
    /// every other key untouched.
    pub fn set(&mut self, key: &String, value: V)
        ensures
            final(self).spec_get(key@) == Some(value),
            forall|k: Seq<char>|
                k != key@ ==> #[trigger] final(self).spec_get(k) == old(self).spec_get(k),
    {
        let n = self.pairs.len();
        let mut i: usize = 0;
        while i < n
            invariant
                n == self.pairs@.len(),
                i <= n,
                self.pairs@ == old(self).pairs@,
                forall|j: int| 0 <= j < i ==> #[trigger] self.pairs@[j].0@ != key@,
            decreases n - i,
        {
            if self.pairs[i].0 == *key {
                let ghost prefix_clear = i as int;
                self.pairs[i] = (key.clone(), value);
                proof {
                    Self::lemma_seq_get_update(
                        old(self).pairs@,
                        prefix_clear,
                        self.pairs@[prefix_clear],
                    );
                }
                return;
            }
            i = i + 1;
        }
        self.pairs.push((key.clone(), value));
        proof {
            Self::lemma_seq_get_push(old(self).pairs@, self.pairs@.last());
        }
    }

    /// Replacing the entry at the first index bound to a key rebinds that
    /// key and nothing else.
    proof fn lemma_seq_get_update(s: Seq<(String, V)>, i: int, kv: (String, V))
        requires
            0 <= i < s.len(),
            forall|j: int| 0 <= j < i ==> #[trigger] s[j].0@ != kv.0@,
            s[i].0@ == kv.0@,
        ensures
            forall|k: Seq<char>|
                #[trigger] Self::seq_get(s.update(i, kv), k) == (if k == kv.0@ {
                    Some(kv.1)
                } else {
                    Self::seq_get(s, k)
                }),
    {
        assert forall|k: Seq<char>|
            #[trigger] Self::seq_get(s.update(i, kv), k) == (if k == kv.0@ {
                Some(kv.1)
            } else {
                Self::seq_get(s, k)
            }) by {
            Self::lemma_seq_get_update_point(s, i, kv, k);
        }
    }

    /// One key's view of `lemma_seq_get_update`.
    proof fn lemma_seq_get_update_point(s: Seq<(String, V)>, i: int, kv: (String, V), k: Seq<char>)
        requires
            0 <= i < s.len(),
            forall|j: int| 0 <= j < i ==> #[trigger] s[j].0@ != kv.0@,
            s[i].0@ == kv.0@,
        ensures
            Self::seq_get(s.update(i, kv), k) == (if k == kv.0@ {
                Some(kv.1)
            } else {
                Self::seq_get(s, k)
            }),
        decreases i,
    {
        let t = s.update(i, kv);
        if i == 0 {
            assert(t[0] == kv);
            if k != kv.0@ {
                assert(t.skip(1) =~= s.skip(1));
                assert(Self::seq_get(t, k) == Self::seq_get(t.skip(1), k));
                assert(Self::seq_get(s, k) == Self::seq_get(s.skip(1), k));
            }
        } else {
            assert(t[0] == s[0]);
            assert(s[0].0@ != kv.0@);
            assert(t.skip(1) =~= s.skip(1).update(i - 1, kv));
            assert(s.skip(1)[i - 1] == s[i]);
            assert forall|j: int| 0 <= j < i - 1 implies #[trigger] s.skip(1)[j].0@ != kv.0@ by {
                assert(s.skip(1)[j] == s[j + 1]);
            }
            Self::lemma_seq_get_update_point(s.skip(1), i - 1, kv, k);
            if k == s[0].0@ {
                assert(Self::seq_get(t, k) == Some(t[0].1));
                assert(Self::seq_get(s, k) == Some(s[0].1));
            } else {
                assert(Self::seq_get(t, k) == Self::seq_get(t.skip(1), k));
                assert(Self::seq_get(s, k) == Self::seq_get(s.skip(1), k));
            }
        }
    }

    /// Appending an entry for a key that is absent binds that key and
    /// nothing else.
    proof fn lemma_seq_get_push(s: Seq<(String, V)>, kv: (String, V))
        requires
            forall|j: int| 0 <= j < s.len() ==> #[trigger] s[j].0@ != kv.0@,
        ensures
            forall|k: Seq<char>|
                #[trigger] Self::seq_get(s.push(kv), k) == (if k == kv.0@ {
                    Some(kv.1)
                } else {
                    Self::seq_get(s, k)
                }),
    {
        assert forall|k: Seq<char>|
            #[trigger] Self::seq_get(s.push(kv), k) == (if k == kv.0@ {
                Some(kv.1)
            } else {
                Self::seq_get(s, k)
            }) by {
            Self::lemma_seq_get_push_point(s, kv, k);
        }
    }

    /// One key's view of `lemma_seq_get_push`.
    proof fn lemma_seq_get_push_point(s: Seq<(String, V)>, kv: (String, V), k: Seq<char>)
        requires
            forall|j: int| 0 <= j < s.len() ==> #[trigger] s[j].0@ != kv.0@,
        ensures
            Self::seq_get(s.push(kv), k) == (if k == kv.0@ {
                Some(kv.1)
            } else {
                Self::seq_get(s, k)
            }),
        decreases s.len(),
    {
        let t = s.push(kv);
        if s.len() == 0 {
            assert(t[0] == kv);
            if k != kv.0@ {
                assert(t.skip(1).len() == 0);
                assert(Self::seq_get(t, k) == Self::seq_get(t.skip(1), k));
                assert(Self::seq_get(t.skip(1), k) is None);
            }
        } else {
            assert(t[0] == s[0]);
            assert(s[0].0@ != kv.0@);
            assert(t.skip(1) =~= s.skip(1).push(kv));
            assert forall|j: int| 0 <= j < s.skip(1).len() implies #[trigger] s.skip(1)[j].0@
                != kv.0@ by {
                assert(s.skip(1)[j] == s[j + 1]);
            }
            Self::lemma_seq_get_push_point(s.skip(1), kv, k);
            if k == s[0].0@ {
                assert(Self::seq_get(t, k) == Some(t[0].1));
                assert(Self::seq_get(s, k) == Some(s[0].1));
            } else {
                assert(Self::seq_get(t, k) == Self::seq_get(t.skip(1), k));
                assert(Self::seq_get(s, k) == Self::seq_get(s.skip(1), k));
            }
        }
    }
}

} // verus!
