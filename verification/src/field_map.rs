//! The wire-level representation of a header: a string-keyed map of string
//! field values. Insertion order is irrelevant to correctness; the view is a
//! mathematical map in which a later insertion of a key replaces an earlier
//! one.
use vstd::prelude::*;

verus! {

/// A flat string-keyed property set, the wire form of a header's fields.
/// An absent key means the field is not set; no empty-string sentinels.
pub struct FieldMap {
    entries: Vec<(String, String)>,
}

/// The map that a run of entries stands for, later entries replacing earlier
/// ones with the same key.
pub open spec fn entries_map(s: Seq<(String, String)>) -> Map<Seq<char>, Seq<char>>
    decreases s.len(),
{
    if s.len() == 0 {
        Map::empty()
    } else {
        entries_map(s.drop_last()).insert(s.last().0@, s.last().1@)
    }
}

impl View for FieldMap {
    type V = Map<Seq<char>, Seq<char>>;

    closed spec fn view(&self) -> Map<Seq<char>, Seq<char>> {
        entries_map(self.entries@)
    }
}

impl FieldMap {
    /// Creates an empty field map.
    pub fn new() -> (r: FieldMap)
        ensures
            r@ == Map::<Seq<char>, Seq<char>>::empty(),
    {
        FieldMap { entries: Vec::new() }
    }

    /// Binds a key to a value, replacing any earlier binding of that key.
    pub fn insert(&mut self, key: &str, value: String)
        ensures
            final(self)@ == old(self)@.insert(key@, value@),
    {
        self.entries.push((key.to_owned(), value));
        proof {
            assert(self.entries@.drop_last() =~= old(self).entries@);
        }
    }

    /// Looks a key up, returning a copy of its value.
    pub fn get(&self, key: &str) -> (r: Option<String>)
        ensures
            (match r {
                Some(v) => self@.contains_key(key@) && v@ == self@[key@],
                None => !self@.contains_key(key@),
            }),
    {
        let k: String = key.to_owned();
        let mut i: usize = self.entries.len();
        proof {
            assert(self.entries@.subrange(0, i as int) =~= self.entries@);
        }
        while i > 0
            invariant
                i <= self.entries@.len(),
                k@ == key@,
                entries_map(self.entries@).contains_key(key@) == entries_map(
                    self.entries@.subrange(0, i as int),
                ).contains_key(key@),
                entries_map(self.entries@).contains_key(key@) ==> entries_map(self.entries@)[key@]
                    == entries_map(self.entries@.subrange(0, i as int))[key@],
            decreases i,
        {
            proof {
                assert(self.entries@.subrange(0, i as int).drop_last() =~= self.entries@.subrange(
                    0,
                    i - 1,
                ));
                assert(self.entries@.subrange(0, i as int).last() == self.entries@[i - 1]);
            }
            if self.entries[i - 1].0 == k {
                return Some(self.entries[i - 1].1.clone());
            }
            i -= 1;
        }
        proof {
            assert(self.entries@.subrange(0, 0) =~= Seq::<(String, String)>::empty());
        }
        None
    }

    /// Whether a key is present in the map.
    pub fn contains_key(&self, key: &str) -> (r: bool)
        ensures
            r == self@.contains_key(key@),
    {
        self.get(key).is_some()
    }

    /// Merges another map into this one; on a shared key the other map's
    /// value wins.
    pub fn merge(&mut self, other: &FieldMap)
        ensures
            final(self)@ == old(self)@.union_prefer_right(other@),
    {
        let mut i: usize = 0;
        while i < other.entries.len()
            invariant
                i <= other.entries@.len(),
                self@ == old(self)@.union_prefer_right(
                    entries_map(other.entries@.subrange(0, i as int)),
                ),
            decreases other.entries@.len() - i,
        {
            proof {
                assert(other.entries@.subrange(0, i + 1).drop_last() =~= other.entries@.subrange(
                    0,
                    i as int,
                ));
                assert(other.entries@.subrange(0, i + 1).last() == other.entries@[i as int]);
            }
            let k: String = other.entries[i].0.clone();
            let v: String = other.entries[i].1.clone();
            let ghost pre_entries = self.entries@;
            self.entries.push((k, v));
            proof {
                assert(self.entries@.drop_last() =~= pre_entries);
                assert(self@ == entries_map(pre_entries).insert(k@, v@));
                assert(self@ =~= old(self)@.union_prefer_right(
                    entries_map(other.entries@.subrange(0, i + 1)),
                ));
            }
            i += 1;
        }
        proof {
            assert(other.entries@.subrange(0, other.entries@.len() as int) =~= other.entries@);
        }
    }
}

} // verus!
