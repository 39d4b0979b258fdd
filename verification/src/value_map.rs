//! The ordered key-to-value map a collection produces.

use vstd::prelude::*;

use crate::value::{Value, ValueView};

verus! {

/// View of a sequence of map entries.
pub open spec fn entries_view(s: Seq<(String, Value)>) -> Seq<(Seq<char>, ValueView)> {
    s.map_values(|p: (String, Value)| (p.0@, p.1@))
}

/// The first value listed under `key`, if any.
pub open spec fn entries_first_match(
    s: Seq<(Seq<char>, ValueView)>,
    key: Seq<char>,
) -> Option<ValueView>
    decreases s.len(),
{
    if s.len() == 0 {
        None
    } else if s[0].0 == key {
        Some(s[0].1)
    } else {
        entries_first_match(s.drop_first(), key)
    }
}

/// An ordered map from keys to typed values, produced fresh by each
/// collection. Lookup returns the first entry under the key; a collection
/// produces exactly one entry per recognized key.
#[derive(Clone, Debug, PartialEq)]
pub struct ValueMap {
    pub entries: Vec<(String, Value)>,
}

impl View for ValueMap {
    type V = Seq<(Seq<char>, ValueView)>;

    open spec fn view(&self) -> Seq<(Seq<char>, ValueView)> {
        entries_view(self.entries@)
    }
}

impl ValueMap {
    /// The keys, in insertion order.
    pub open spec fn spec_keys(&self) -> Seq<Seq<char>> {
        self@.map_values(|p: (Seq<char>, ValueView)| p.0)
    }

    /// No two entries share a key.
    pub open spec fn wf(&self) -> bool {
        forall|i: int, j: int| 0 <= i < j < self@.len() ==> self@[i].0 != self@[j].0
    }

    /// The value under `key`, if any.
    pub open spec fn spec_get(&self, key: Seq<char>) -> Option<ValueView> {
        entries_first_match(self@, key)
    }

    /// How many entries the map holds.
    pub fn len(&self) -> (r: usize)
        ensures
            r == self@.len(),
    {
        self.entries.len()
    }

    /// Look one key up.
    pub fn get(&self, key: &str) -> (r: Option<&Value>)
        ensures
            match r {
                Some(v) => self.spec_get(key@) == Some(v@),
                None => self.spec_get(key@) == None::<ValueView>,
            },
    {
        let k: String = key.to_owned();
        let mut i: usize = 0;
        proof {
            assert(self@.skip(0) =~= self@);
        }
        while i < self.entries.len()
            invariant
                i <= self.entries.len(),
                k@ == key@,
                entries_first_match(self@, key@) == entries_first_match(
                    self@.skip(i as int),
                    key@,
                ),
            decreases self.entries.len() - i,
        {
            if self.entries[i].0 == k {
                proof {
                    assert(self@.skip(i as int)[0] == self@[i as int]);
                    assert(self@[i as int].0 == key@);
                }
                return Some(&self.entries[i].1);
            }
            proof {
                assert(self@.skip(i as int)[0] == self@[i as int]);
                assert(self@.skip(i as int).drop_first() =~= self@.skip(i as int + 1));
            }
            i += 1;
        }
        proof {
            assert(self@.skip(self.entries@.len() as int) =~= Seq::<(
                Seq<char>,
                ValueView,
            )>::empty());
        }
        None
    }

    /// Whether the map holds an entry under `key`.
    pub fn contains_key(&self, key: &str) -> (r: bool)
        ensures
            r == (self.spec_get(key@) matches Some(_)),
    {
        match self.get(key) {
            Some(_) => true,
            None => false,
        }
    }
}

} // verus!
