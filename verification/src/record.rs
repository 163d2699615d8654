//! The payload value that crosses the codec boundary: a mapping from string
//! keys to 64-bit integers, the representative structurally-serializable
//! value of this crate. Its mathematical view is a `Map<Seq<char>, int>`;
//! when a key is bound more than once, the binding added last wins.

use vstd::prelude::*;

verus! {

/// A mapping from string keys to 64-bit integers.
///
/// The entries are kept in insertion order; the view collapses them to a
/// finite map in which the binding added last wins. Two `Record`s are `==`
/// exactly when their views are equal as maps, whatever the entry order.
#[derive(Clone, Debug)]
pub struct Record {
    pub(crate) entries: Vec<(String, i64)>,
}

/// The map denoted by a sequence of key/value entries: each entry is
/// inserted in order, so a later binding of a key shadows an earlier one.
pub(crate) open spec fn entries_map(s: Seq<(String, i64)>) -> Map<Seq<char>, int>
    decreases s.len(),
{
    if s.len() == 0 {
        Map::empty()
    } else {
        entries_map(s.drop_last()).insert(s.last().0@, s.last().1 as int)
    }
}

impl View for Record {
    type V = Map<Seq<char>, int>;

    closed spec fn view(&self) -> Map<Seq<char>, int> {
        entries_map(self.entries@)
    }
}

/// The maps that a `Record` can hold: finitely many keys, each bound to an
/// integer in the range of `i64`.
pub open spec fn representable(m: Map<Seq<char>, int>) -> bool {
    &&& m.dom().finite()
    &&& forall|k: Seq<char>| #[trigger] m.dom().contains(k) ==> i64::MIN <= m[k] <= i64::MAX
}

/// A key is in the map of an entry sequence exactly when some entry holds it.
proof fn lemma_entries_map_dom(s: Seq<(String, i64)>)
    ensures
        forall|k: Seq<char>| #[trigger] entries_map(s).dom().contains(k)
            ==> exists|i: int| 0 <= i < s.len() && s[i].0@ == k,
        forall|i: int| 0 <= i < s.len() ==> entries_map(s).dom().contains(#[trigger] s[i].0@),
    decreases s.len(),
{
    if s.len() > 0 {
        lemma_entries_map_dom(s.drop_last());
        assert forall|k: Seq<char>| #[trigger] entries_map(s).dom().contains(k)
            implies exists|i: int| 0 <= i < s.len() && s[i].0@ == k by {
            if k == s.last().0@ {
                assert(s[s.len() - 1].0@ == k);
            } else {
                assert(entries_map(s.drop_last()).dom().contains(k));
                let i = choose|i: int|
                    0 <= i < s.drop_last().len() && s.drop_last()[i].0@ == k;
                assert(s.drop_last()[i] == s[i]);
                assert(s[i].0@ == k);
            }
        }
        assert forall|i: int| 0 <= i < s.len()
            implies entries_map(s).dom().contains(#[trigger] s[i].0@) by {
            if i < s.len() - 1 {
                assert(s.drop_last()[i].0@ == s[i].0@);
            }
        }
    }
}

/// The map of an entry sequence is finite and every value fits in an `i64`.
proof fn lemma_entries_map_bounds(s: Seq<(String, i64)>)
    ensures
        entries_map(s).dom().finite(),
        forall|k: Seq<char>| #[trigger] entries_map(s).dom().contains(k)
            ==> i64::MIN <= entries_map(s)[k] <= i64::MAX,
    decreases s.len(),
{
    if s.len() > 0 {
        lemma_entries_map_bounds(s.drop_last());
    }
}

/// Every `Record` denotes a representable map.
pub proof fn lemma_record_representable(r: &Record)
    ensures
        representable(r@),
{
    lemma_entries_map_bounds(r.entries@);
}

/// Relies on `str`'s `PartialEq`: two string slices are equal exactly when
/// their character contents are equal.
#[verifier::external_body]
fn str_eq(a: &str, b: &str) -> (r: bool)
    ensures
        r == (a@ == b@),
{
    a == b
}

impl Record {
    /// An empty mapping.
    pub fn new() -> (r: Record)
        ensures
            r@ == Map::<Seq<char>, int>::empty(),
    {
        Record { entries: Vec::new() }
    }

    /// Binds `key` to `value`, shadowing any earlier binding of `key`.
    pub fn insert(&mut self, key: String, value: i64)
        ensures
            final(self)@ == old(self)@.insert(key@, value as int),
    {
        let ghost old_entries = self.entries@;
        let ghost k = key@;
        self.entries.push((key, value));
        proof {
            assert(self.entries@.drop_last() =~= old_entries);
        }
    }

    /// Looks up the value bound to `key`, if any.
    pub fn get(&self, key: &str) -> (r: Option<i64>)
        ensures
            match r {
                Some(v) => self@.dom().contains(key@) && self@[key@] == v as int,
                None => !self@.dom().contains(key@),
            },
    {
        let ghost s = self.entries@;
        let ghost k = key@;
        let mut i: usize = self.entries.len();
        proof {
            assert(s.take(i as int) =~= s);
        }
        while i > 0
            invariant
                i <= s.len(),
                s == self.entries@,
                k == key@,
                entries_map(s).dom().contains(k) == entries_map(s.take(i as int)).dom().contains(
                    k,
                ),
                entries_map(s).dom().contains(k) ==> entries_map(s)[k] == entries_map(
                    s.take(i as int),
                )[k],
            decreases i,
        {
            i = i - 1;
            proof {
                assert(s.take(i + 1).drop_last() =~= s.take(i as int));
                assert(s.take(i + 1).last() == s[i as int]);
            }
            if str_eq(self.entries[i].0.as_str(), key) {
                return Some(self.entries[i].1);
            }
        }
        proof {
            assert(s.take(0) =~= Seq::<(String, i64)>::empty());
        }
        None
    }
}

impl PartialEq for Record {
    /// Two `Record`s are equal exactly when they denote the same map, whatever
    /// the order in which their entries were added.
    fn eq(&self, other: &Record) -> (r: bool) {
        proof {
            lemma_entries_map_dom(self.entries@);
            lemma_entries_map_dom(other.entries@);
        }
        let mut i: usize = 0;
        while i < self.entries.len()
            invariant
                forall|j: int|
                    0 <= j < i ==> {
                        let k = (#[trigger] self.entries@[j]).0@;
                        other@.dom().contains(k) && other@[k] == self@[k]
                    },
                i <= self.entries@.len(),
            decreases self.entries@.len() - i,
        {
            let ghost k = self.entries@[i as int].0@;
            proof {
                lemma_entries_map_dom(self.entries@);
                assert(entries_map(self.entries@).dom().contains(self.entries@[i as int].0@));
            }
            let sv = match self.get(self.entries[i].0.as_str()) {
                Some(v) => v,
                None => { proof { assert(false); } 0 },
            };
            match other.get(self.entries[i].0.as_str()) {
                Some(ov) => {
                    if ov != sv {
                        proof {
                            if self@ =~= other@ {
                                assert(self@[k] == other@[k]);
                                assert(false);
                            }
                        }
                        return false;
                    }
                },
                None => {
                    proof {
                        if self@ =~= other@ {
                            assert(other@.dom().contains(k));
                            assert(false);
                        }
                    }
                    return false;
                },
            }
            i = i + 1;
        }
        let mut j: usize = 0;
        while j < other.entries.len()
            invariant
                forall|l: int|
                    0 <= l < j ==> self@.dom().contains((#[trigger] other.entries@[l]).0@),
                j <= other.entries@.len(),
                forall|l: int|
                    0 <= l < self.entries@.len() ==> {
                        let k = (#[trigger] self.entries@[l]).0@;
                        other@.dom().contains(k) && other@[k] == self@[k]
                    },
            decreases other.entries@.len() - j,
        {
            let ghost k = other.entries@[j as int].0@;
            proof {
                lemma_entries_map_dom(other.entries@);
                assert(entries_map(other.entries@).dom().contains(other.entries@[j as int].0@));
            }
            match self.get(other.entries[j].0.as_str()) {
                Some(_) => {},
                None => {
                    proof {
                        if self@ =~= other@ {
                            assert(self@.dom().contains(k));
                            assert(false);
                        }
                    }
                    return false;
                },
            }
            j = j + 1;
        }
        proof {
            assert forall|k: Seq<char>| self@.dom().contains(k) implies other@.dom().contains(k)
                && self@[k] == other@[k] by {
                let l = choose|l: int|
                    0 <= l < self.entries@.len() && self.entries@[l].0@ == k;
                assert(self.entries@[l].0@ == k);
            }
            assert forall|k: Seq<char>| other@.dom().contains(k) implies self@.dom().contains(
                k,
            ) by {
                let l = choose|l: int|
                    0 <= l < other.entries@.len() && other.entries@[l].0@ == k;
                assert(other.entries@[l].0@ == k);
            }
            assert(self@ =~= other@);
        }
        true
    }
}

impl vstd::std_specs::cmp::PartialEqSpecImpl for Record {
    open spec fn obeys_eq_spec() -> bool {
        true
    }

    open spec fn eq_spec(&self, other: &Record) -> bool {
        self@ =~= other@
    }
}

} // verus!
