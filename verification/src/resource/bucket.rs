//! A bucket selects a set of identifiers: all of them, none, or a listed few.

use vstd::prelude::*;

verus! {

/// A selection of identifiers.
#[derive(Debug)]
pub enum Bucket {
    All,
    Nothing,
    Only(Vec<String>),
}

/// What a bucket selects, as a mathematical value.
pub enum BucketView {
    All,
    Nothing,
    Only(Seq<Seq<char>>),
}

impl BucketView {
    /// The identifier `id` is selected.
    pub open spec fn contains(self, id: Seq<char>) -> bool {
        match self {
            BucketView::All => true,
            BucketView::Nothing => false,
            BucketView::Only(ids) => ids.contains(id),
        }
    }

    /// The selection of `self` widened by `other`.
    pub open spec fn extend(self, other: BucketView) -> BucketView {
        match (self, other) {
            (BucketView::All, _) => BucketView::All,
            (_, BucketView::All) => BucketView::All,
            (BucketView::Nothing, o) => o,
            (s, BucketView::Nothing) => s,
            (BucketView::Only(a), BucketView::Only(b)) => BucketView::Only(a + b),
        }
    }
}

pub open spec fn strings_view(v: Seq<String>) -> Seq<Seq<char>> {
    v.map_values(|s: String| s@)
}

impl View for Bucket {
    type V = BucketView;

    open spec fn view(&self) -> BucketView {
        match self {
            Bucket::All => BucketView::All,
            Bucket::Nothing => BucketView::Nothing,
            Bucket::Only(ids) => BucketView::Only(strings_view(ids@)),
        }
    }
}

/// A copy of a list of strings.
pub fn clone_strings(v: &Vec<String>) -> (r: Vec<String>)
    ensures
        strings_view(r@) == strings_view(v@),
{
    let mut r: Vec<String> = Vec::new();
    let mut i: usize = 0;
    while i < v.len()
        invariant
            i <= v.len(),
            r.len() == i,
            forall|j: int| 0 <= j < i ==> (#[trigger] r@[j])@ == v@[j]@,
        decreases v.len() - i,
    {
        r.push(v[i].clone());
        i = i + 1;
    }
    assert(strings_view(r@) =~= strings_view(v@));
    r
}

impl Clone for Bucket {
    fn clone(&self) -> (r: Self)
        ensures
            r@ == self@,
    {
        match self {
            Bucket::All => Bucket::All,
            Bucket::Nothing => Bucket::Nothing,
            Bucket::Only(ids) => Bucket::Only(clone_strings(ids)),
        }
    }
}

impl Bucket {
    /// The bucket selects every identifier.
    pub fn is_all(&self) -> (r: bool)
        ensures
            r == (self@ is All),
    {
        match self {
            Bucket::All => true,
            _ => false,
        }
    }

    /// The bucket selects the identifier `id`.
    pub fn contains(&self, id: &String) -> (r: bool)
        ensures
            r == self@.contains(id@),
    {
        match self {
            Bucket::All => true,
            Bucket::Nothing => false,
            Bucket::Only(ids) => {
                let mut i: usize = 0;
                while i < ids.len()
                    invariant
                        i <= ids.len(),
                        forall|j: int| 0 <= j < i ==> ids@[j]@ != id@,
                        self@ == BucketView::Only(strings_view(ids@)),
                    decreases ids.len() - i,
                {
                    let same = ids[i] == *id;
                    if same {
                        assert(ids@[i as int]@ == id@);
                        assert(strings_view(ids@)[i as int] == id@);
                        assert(strings_view(ids@).contains(id@));
                        return true;
                    }
                    i = i + 1;
                }
                assert(!strings_view(ids@).contains(id@)) by {
                    if strings_view(ids@).contains(id@) {
                        let j = choose|j: int|
                            0 <= j < strings_view(ids@).len() && strings_view(ids@)[j] == id@;
                        assert(ids@[j]@ == id@);
                    }
                }
                false
            },
        }
    }

    /// This bucket widened by the identifiers of `other`.
    pub fn extend(self, other: &Bucket) -> (r: Bucket)
        ensures
            r@ == self@.extend(other@),
    {
        match (self, other) {
            (Bucket::All, _) => Bucket::All,
            (_, Bucket::All) => Bucket::All,
            (Bucket::Nothing, o) => o.clone(),
            (s, Bucket::Nothing) => s,
            (Bucket::Only(a), Bucket::Only(b)) => {
                let mut ids = a;
                let mut extra = clone_strings(b);
                let ghost before = ids@;
                ids.append(&mut extra);
                assert(strings_view(ids@) =~= strings_view(before) + strings_view(b@));
                Bucket::Only(ids)
            },
        }
    }
}

/// Widening a bucket selects exactly what either bucket selected.
pub proof fn lemma_extend_contains(a: BucketView, b: BucketView, id: Seq<char>)
    ensures
        a.extend(b).contains(id) == (a.contains(id) || b.contains(id)),
{
    match (a, b) {
        (BucketView::Only(x), BucketView::Only(y)) => {
            if (x + y).contains(id) {
                let j = choose|j: int| 0 <= j < (x + y).len() && (x + y)[j] == id;
                if j < x.len() {
                    assert(x[j] == id);
                } else {
                    assert(y[j - x.len()] == id);
                }
            }
            if x.contains(id) {
                let j = choose|j: int| 0 <= j < x.len() && x[j] == id;
                assert((x + y)[j] == id);
            }
            if y.contains(id) {
                let j = choose|j: int| 0 <= j < y.len() && y[j] == id;
                assert((x + y)[x.len() + j] == id);
            }
        },
        _ => {},
    }
}

} // verus!
