//! References: named texts that `&name&` in a document stands for.

use vstd::prelude::*;

verus! {

/// A map from reference names to their texts.
#[derive(Debug)]
pub struct TextReferenceMap {
    entries: Vec<(String, String)>,
}

/// The map described by a list of entries, later entries overriding earlier ones.
pub open spec fn entries_map(entries: Seq<(String, String)>) -> Map<Seq<char>, Seq<char>>
    decreases entries.len(),
{
    if entries.len() == 0 {
        Map::empty()
    } else {
        entries_map(entries.drop_last()).insert(entries.last().0@, entries.last().1@)
    }
}

/// A read gives back the last text written for its name, and a write to a
/// name leaves the other names as they were.
pub proof fn lemma_get_after_insert(
    map: Map<Seq<char>, Seq<char>>,
    key: Seq<char>,
    value: Seq<char>,
    other: Seq<char>,
)
    ensures
        map.insert(key, value).contains_key(key),
        map.insert(key, value)[key] == value,
        other != key ==> map.insert(key, value).contains_key(other) == map.contains_key(other),
        other != key && map.contains_key(other) ==> map.insert(key, value)[other] == map[other],
{
}

impl View for TextReferenceMap {
    type V = Map<Seq<char>, Seq<char>>;

    closed spec fn view(&self) -> Map<Seq<char>, Seq<char>> {
        entries_map(self.entries@)
    }
}

impl TextReferenceMap {
    pub fn new() -> (r: Self)
        ensures
            r@ == Map::<Seq<char>, Seq<char>>::empty(),
    {
        Self { entries: Vec::new() }
    }

    /// Binds `key` to `value`, replacing any earlier binding.
    pub fn insert(&mut self, key: String, value: String)
        ensures
            final(self)@ == old(self)@.insert(key@, value@),
    {
        let ghost before = self.entries@;
        self.entries.push((key, value));
        assert(self.entries@.drop_last() =~= before);
    }

    /// The text bound to `key`.
    pub fn get(&self, key: &str) -> (r: Option<&String>)
        ensures
            r is Some == self@.contains_key(key@),
            r matches Some(v) ==> v@ == self@[key@],
    {
        let wanted = String::from_str(key);
        let ghost all = self.entries@;
        let mut j = self.entries.len();
        assert(all.take(j as int) =~= all);
        while j > 0
            invariant
                j <= all.len(),
                all == self.entries@,
                wanted@ == key@,
                entries_map(all).contains_key(key@) == entries_map(all.take(j as int)).contains_key(
                    key@,
                ),
                entries_map(all.take(j as int)).contains_key(key@) ==> entries_map(all)[key@]
                    == entries_map(all.take(j as int))[key@],
            decreases j,
        {
            let entry = &self.entries[j - 1];
            assert(all.take(j as int).drop_last() =~= all.take(j - 1));
            assert(all.take(j as int).last() == all[j - 1]);
            if entry.0 == wanted {
                return Some(&entry.1);
            }
            j = j - 1;
        }
        assert(all.take(0) =~= Seq::<(String, String)>::empty());
        None
    }
}

} // verus!
