//! The bibliography of a dossier: records indexed by key, in key order.

pub mod bibliography_record;

use vstd::prelude::*;
use bibliography_record::BibliographyRecord;
use crate::compiler::compilation_result::CompilationResult;

verus! {

/// Name of the fictitious document that holds the bibliography.
pub const BIBLIOGRAPHY_FICTITIOUS_DOCUMENT: &'static str = "bibliography";

/// Strict lexicographic order of character sequences (the order of `String`).
pub open spec fn seq_char_lt(a: Seq<char>, b: Seq<char>) -> bool
    decreases a.len(),
{
    if a.len() == 0 {
        b.len() > 0
    } else if b.len() == 0 {
        false
    } else if a[0] != b[0] {
        (a[0] as int) < (b[0] as int)
    } else {
        seq_char_lt(a.drop_first(), b.drop_first())
    }
}

/// The keys of a bibliography content.
pub open spec fn content_keys(content: Seq<(String, BibliographyRecord)>) -> Seq<Seq<char>> {
    content.map_values(|e: (String, BibliographyRecord)| e.0@)
}

/// Keys strictly increase, as in an ordered map.
pub open spec fn keys_strictly_sorted(keys: Seq<Seq<char>>) -> bool {
    forall|i: int, j: int| 0 <= i < j < keys.len() ==> seq_char_lt(#[trigger] keys[i], #[trigger] keys[j])
}

/// Strictly ordered keys are distinct.
pub proof fn lemma_lt_irreflexive(a: Seq<char>)
    ensures
        !seq_char_lt(a, a),
    decreases a.len(),
{
    if a.len() > 0 {
        lemma_lt_irreflexive(a.drop_first());
    }
}

/// Two different sequences are ordered one way or the other.
pub proof fn lemma_lt_total(a: Seq<char>, b: Seq<char>)
    requires
        a != b,
    ensures
        seq_char_lt(a, b) || seq_char_lt(b, a),
    decreases a.len(),
{
    if a.len() > 0 && b.len() > 0 && a[0] == b[0] {
        if a.drop_first() == b.drop_first() {
            assert(a =~= seq![a[0]] + a.drop_first());
            assert(b =~= seq![b[0]] + b.drop_first());
            assert(a =~= b);
        } else {
            lemma_lt_total(a.drop_first(), b.drop_first());
        }
    } else if a.len() == 0 && b.len() == 0 {
        assert(a =~= b);
    } else if a.len() > 0 && b.len() > 0 {
        assert((a[0] as int) != (b[0] as int));
    }
}

/// The order is transitive.
pub proof fn lemma_lt_transitive(a: Seq<char>, b: Seq<char>, c: Seq<char>)
    requires
        seq_char_lt(a, b),
        seq_char_lt(b, c),
    ensures
        seq_char_lt(a, c),
    decreases a.len(),
{
    if a.len() > 0 && b.len() > 0 && c.len() > 0 && a[0] == b[0] && b[0] == c[0] {
        lemma_lt_transitive(a.drop_first(), b.drop_first(), c.drop_first());
    }
}

/// The record of the last entry of `content` with key `key`, if any.
pub open spec fn last_record(content: Seq<(String, BibliographyRecord)>, key: Seq<char>) -> Option<
    BibliographyRecord,
>
    decreases content.len(),
{
    if content.len() == 0 {
        None
    } else if content.last().0@ == key {
        Some(content.last().1)
    } else {
        last_record(content.drop_last(), key)
    }
}

/// The position, counting from 1, of the first occurrence of `key` in `keys`.
pub open spec fn key_number(keys: Seq<Seq<char>>, key: Seq<char>) -> Option<nat>
    decreases keys.len(),
{
    if keys.len() == 0 {
        None
    } else if keys[0] == key {
        Some(1)
    } else {
        match key_number(keys.drop_first(), key) {
            Some(n) => Some(n + 1),
            None => None,
        }
    }
}

/// `key_number` is the position of the first occurrence.
pub proof fn lemma_key_number(keys: Seq<Seq<char>>, key: Seq<char>, k: int)
    requires
        0 <= k <= keys.len(),
        forall|i: int| 0 <= i < k ==> keys[i] != key,
    ensures
        k < keys.len() && keys[k] == key ==> key_number(keys, key) == Some((k + 1) as nat),
        k == keys.len() ==> key_number(keys, key) is None,
    decreases k,
{
    if k > 0 {
        let rest = keys.drop_first();
        assert forall|i: int| 0 <= i < k - 1 implies rest[i] != key by {
            assert(rest[i] == keys[i + 1]);
        }
        lemma_key_number(rest, key, k - 1);
        if k < keys.len() {
            assert(rest[k - 1] == keys[k]);
        }
    }
}

/// The anchor of the record `key` in the document of the bibliography.
pub open spec fn bibliography_reference(key: Seq<char>) -> Seq<char> {
    "#"@ + BIBLIOGRAPHY_FICTITIOUS_DOCUMENT@ + "-"@ + key
}

/// The keys after one more entry.
proof fn lemma_keys_push(content: Seq<(String, BibliographyRecord)>, entry: (String, BibliographyRecord))
    ensures
        forall|k: Seq<char>|
            content_keys(content.push(entry)).contains(k) <==> (content_keys(content).contains(k) || k
                == entry.0@),
{
    let ks = content_keys(content.push(entry));
    assert(ks =~= content_keys(content).push(entry.0@));
    assert forall|k: Seq<char>| ks.contains(k) <==> (content_keys(content).contains(k) || k == entry.0@) by {
        if ks.contains(k) {
            let x = choose|x: int| 0 <= x < ks.len() && ks[x] == k;
            if x < content.len() {
                assert(content_keys(content)[x] == k);
            }
        }
        if content_keys(content).contains(k) {
            let x = choose|x: int| 0 <= x < content_keys(content).len() && content_keys(content)[x] == k;
            assert(ks[x] == k);
        }
        if k == entry.0@ {
            assert(ks[content.len() as int] == k);
        }
    }
}

/// `a` comes strictly before `b`.
fn string_lt(a: &String, b: &String) -> (r: bool)
    ensures
        r == seq_char_lt(a@, b@),
{
    let n = a.as_str().unicode_len();
    let m = b.as_str().unicode_len();
    let mut i: usize = 0;
    assert(a@.skip(0) =~= a@);
    assert(b@.skip(0) =~= b@);
    while i < n && i < m && a.as_str().get_char(i) == b.as_str().get_char(i)
        invariant
            n == a@.len(),
            m == b@.len(),
            i <= n,
            i <= m,
            seq_char_lt(a@, b@) == seq_char_lt(a@.skip(i as int), b@.skip(i as int)),
        decreases n - i,
    {
        assert(a@.skip(i as int).drop_first() =~= a@.skip(i + 1));
        assert(b@.skip(i as int).drop_first() =~= b@.skip(i + 1));
        i = i + 1;
    }
    if i == n {
        i < m
    } else if i == m {
        false
    } else {
        assert(a@.skip(i as int)[0] == a@[i as int]);
        assert(b@.skip(i as int)[0] == b@[i as int]);
        (a.as_str().get_char(i) as u32) < (b.as_str().get_char(i) as u32)
    }
}

/// A bibliography: a title and records in key order.
#[derive(Debug)]
pub struct Bibliography {
    title: String,
    content: Vec<(String, BibliographyRecord)>,
    compilation_result: Option<CompilationResult>,
}

impl Bibliography {
    pub closed spec fn spec_title(&self) -> Seq<char> {
        self.title@
    }

    pub closed spec fn spec_keys(&self) -> Seq<Seq<char>> {
        content_keys(self.content@)
    }

    /// The records with their keys, in key order.
    pub closed spec fn spec_records(&self) -> Seq<(String, BibliographyRecord)> {
        self.content@
    }

    pub closed spec fn spec_has_compilation_result(&self) -> bool {
        self.compilation_result is Some
    }

    /// A bibliography of the given records, put in key order; of records
    /// with the same key the last one is kept.
    pub fn new(title: String, content: Vec<(String, BibliographyRecord)>) -> (r: Self)
        ensures
            r.spec_title() == title@,
            keys_strictly_sorted(r.spec_keys()),
            forall|k: Seq<char>| r.spec_keys().contains(k) <==> content_keys(content@).contains(k),
            forall|i: int|
                0 <= i < r.spec_records().len() ==> Some((#[trigger] r.spec_records()[i]).1)
                    == last_record(content@, r.spec_records()[i].0@),
            !r.spec_has_compilation_result(),
    {
        let ghost input = content@;
        let total = content.len();
        let mut rest = content;
        let mut sorted: Vec<(String, BibliographyRecord)> = Vec::new();
        let mut j: usize = 0;
        while rest.len() > 0
            invariant
                j + rest@.len() == input.len(),
                input.len() == total,
                rest@ == input.skip(j as int),
                keys_strictly_sorted(content_keys(sorted@)),
                forall|k: Seq<char>|
                    content_keys(sorted@).contains(k) <==> content_keys(input.take(j as int)).contains(k),
                forall|i: int|
                    0 <= i < sorted@.len() ==> Some((#[trigger] sorted@[i]).1) == last_record(
                        input.take(j as int),
                        sorted@[i].0@,
                    ),
            decreases rest@.len(),
        {
            let entry = rest.remove(0);
            let ghost before = sorted@;
            let ghost taken = input.take(j + 1);
            assert(taken.drop_last() =~= input.take(j as int));
            assert(taken.last() == entry);
            assert(rest@ =~= input.skip(j + 1));
            let (position, same) = Self::position_for(&sorted, &entry.0);
            if same {
                sorted.set(position, entry);
                proof {
                    assert(content_keys(sorted@) =~= content_keys(before));
                    assert forall|k: Seq<char>|
                        content_keys(sorted@).contains(k) <==> content_keys(taken).contains(k) by {
                        lemma_keys_push(input.take(j as int), entry);
                        assert(taken =~= input.take(j as int).push(entry));
                        if k == entry.0@ {
                            assert(content_keys(sorted@)[position as int] == k);
                        }
                    }
                    assert forall|i: int| 0 <= i < sorted@.len() implies Some(
                        (#[trigger] sorted@[i]).1,
                    ) == last_record(taken, sorted@[i].0@) by {
                        if i != position {
                            assert(sorted@[i] == before[i]);
                            assert(content_keys(before)[i] != content_keys(before)[position as int]) by {
                                if i < position {
                                    lemma_lt_irreflexive(content_keys(before)[i]);
                                } else {
                                    lemma_lt_irreflexive(content_keys(before)[position as int]);
                                }
                            }
                        }
                    }
                }
            } else {
                sorted.insert(position, entry);
                proof {
                    let ks = content_keys(sorted@);
                    let kb = content_keys(before);
                    assert(ks =~= kb.take(position as int).push(entry.0@) + kb.skip(position as int));
                    assert forall|a: int, b: int| 0 <= a < b < ks.len() implies seq_char_lt(
                        #[trigger] ks[a],
                        #[trigger] ks[b],
                    ) by {
                        if a < position && b == position {
                        } else if a < position && b > position {
                            assert(ks[b] == kb[b - 1]);
                            if b - 1 > position {
                                lemma_lt_transitive(ks[a], entry.0@, kb[position as int]);
                                lemma_lt_transitive(ks[a], kb[position as int], kb[b - 1]);
                            } else {
                                lemma_lt_transitive(ks[a], entry.0@, kb[position as int]);
                            }
                        } else if a == position {
                            assert(ks[b] == kb[b - 1]);
                            if b - 1 > position {
                                lemma_lt_transitive(entry.0@, kb[position as int], kb[b - 1]);
                            }
                        } else if a > position {
                            assert(ks[a] == kb[a - 1] && ks[b] == kb[b - 1]);
                        } else {
                            assert(ks[a] == kb[a] && ks[b] == kb[b]);
                        }
                    }
                    lemma_keys_push(input.take(j as int), entry);
                    assert(taken =~= input.take(j as int).push(entry));
                    assert forall|k: Seq<char>| ks.contains(k) <==> content_keys(taken).contains(k) by {
                        if ks.contains(k) {
                            let x = choose|x: int| 0 <= x < ks.len() && ks[x] == k;
                            if x < position {
                                assert(kb[x] == k);
                            } else if x > position {
                                assert(kb[x - 1] == k);
                            }
                        }
                        if kb.contains(k) {
                            let x = choose|x: int| 0 <= x < kb.len() && kb[x] == k;
                            if x < position {
                                assert(ks[x] == k);
                            } else {
                                assert(ks[x + 1] == k);
                            }
                        }
                        if k == entry.0@ {
                            assert(ks[position as int] == k);
                        }
                    }
                    assert forall|i: int| 0 <= i < sorted@.len() implies Some(
                        (#[trigger] sorted@[i]).1,
                    ) == last_record(taken, sorted@[i].0@) by {
                        if i < position {
                            assert(sorted@[i] == before[i]);
                            assert(kb[i] != entry.0@) by {
                                lemma_lt_irreflexive(entry.0@);
                            }
                        } else if i > position {
                            assert(sorted@[i] == before[i - 1]);
                            assert(kb[i - 1] != entry.0@) by {
                                lemma_lt_irreflexive(entry.0@);
                                if i - 1 > position {
                                    lemma_lt_transitive(entry.0@, kb[position as int], kb[i - 1]);
                                }
                            }
                        }
                    }
                }
            }
            j = j + 1;
        }
        assert(input.take(j as int) =~= input);
        Self { title, content: sorted, compilation_result: None }
    }

    /// Where `key` goes in `sorted`: the first position whose key is not
    /// below it, and whether that key is `key` itself.
    fn position_for(sorted: &Vec<(String, BibliographyRecord)>, key: &String) -> (r: (usize, bool))
        requires
            keys_strictly_sorted(content_keys(sorted@)),
        ensures
            r.0 <= sorted@.len(),
            forall|i: int| 0 <= i < r.0 ==> seq_char_lt(#[trigger] content_keys(sorted@)[i], key@),
            r.1 ==> r.0 < sorted@.len() && content_keys(sorted@)[r.0 as int] == key@,
            !r.1 && r.0 < sorted@.len() ==> seq_char_lt(key@, content_keys(sorted@)[r.0 as int]),
    {
        let ghost ks = content_keys(sorted@);
        let mut i: usize = 0;
        while i < sorted.len()
            invariant
                i <= sorted@.len(),
                ks == content_keys(sorted@),
                forall|x: int| 0 <= x < i ==> seq_char_lt(#[trigger] ks[x], key@),
            decreases sorted.len() - i,
        {
            assert(ks[i as int] == sorted@[i as int].0@);
            if sorted[i].0 == *key {
                return (i, true);
            }
            if !string_lt(&sorted[i].0, key) {
                proof {
                    lemma_lt_total(ks[i as int], key@);
                }
                return (i, false);
            }
            i = i + 1;
        }
        (i, false)
    }
    pub fn title(&self) -> (r: &String)
        ensures
            r@ == self.spec_title(),
    {
        &self.title
    }

    pub fn set_title(&mut self, title: String)
        ensures
            final(self).spec_title() == title@,
            final(self).spec_keys() == old(self).spec_keys(),
    {
        self.title = title;
    }

    pub fn content(&self) -> (r: &Vec<(String, BibliographyRecord)>)
        ensures
            content_keys(r@) == self.spec_keys(),
    {
        &self.content
    }

    pub fn set_compilation_result(&mut self, result: Option<CompilationResult>)
        ensures
            final(self).spec_has_compilation_result() == result is Some,
            final(self).spec_title() == old(self).spec_title(),
            final(self).spec_keys() == old(self).spec_keys(),
    {
        self.compilation_result = result;
    }

    pub fn compilation_result(&self) -> (r: &Option<CompilationResult>)
        ensures
            r is Some == self.spec_has_compilation_result(),
    {
        &self.compilation_result
    }

    /// The position (counting from 1) of `target_key` among the keys.
    pub fn get_n_from_key(&self, target_key: &str) -> (r: Option<usize>)
        ensures
            match r {
                Some(n) => 1 <= n <= self.spec_keys().len() && self.spec_keys()[n - 1]
                    == target_key@,
                None => !self.spec_keys().contains(target_key@),
            },
            r is None ==> forall|i: int|
                0 <= i < self.spec_keys().len() ==> self.spec_keys()[i] != target_key@,
            r matches Some(n) ==> forall|i: int|
                0 <= i < n - 1 ==> self.spec_keys()[i] != target_key@,
            match r {
                Some(n) => key_number(self.spec_keys(), target_key@) == Some(n as nat),
                None => key_number(self.spec_keys(), target_key@) is None,
            },
    {
        let wanted = String::from_str(target_key);
        let mut index: usize = 0;
        while index < self.content.len()
            invariant
                index <= self.content.len(),
                wanted@ == target_key@,
                forall|i: int| 0 <= i < index ==> self.spec_keys()[i] != target_key@,
            decreases self.content.len() - index,
        {
            if self.content[index].0 == wanted {
                proof {
                    lemma_key_number(self.spec_keys(), target_key@, index as int);
                }
                return Some(index + 1);
            }
            index = index + 1;
        }
        proof {
            lemma_key_number(self.spec_keys(), target_key@, index as int);
        }
        None
    }

    /// The anchor of the record `target_key`, if the bibliography holds it.
    pub fn get_reference_from_key(&self, target_key: &str) -> (r: Option<String>)
        ensures
            r is Some == self.spec_keys().contains(target_key@),
            r matches Some(h) ==> h@ == bibliography_reference(target_key@),
    {
        match self.get_n_from_key(target_key) {
            Some(_) => {
                let mut reference = String::from_str("#");
                reference.append(BIBLIOGRAPHY_FICTITIOUS_DOCUMENT);
                reference.append("-");
                reference.append(target_key);
                Some(reference)
            },
            None => None,
        }
    }
}

} // verus!
