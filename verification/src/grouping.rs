//! Grouping loaded children under their parents, as `diesel`'s `GroupedBy::grouped_by`
//! does: child lists follow the parents' order, each child joins the last parent with its
//! key, keeps its order, and a child whose key matches no parent is left out.
use vstd::prelude::*;

verus! {

/// A row that refers to a parent by key.
pub trait Child: Sized {
    spec fn parent_key(&self) -> Option<i32>;

    fn key(&self) -> (r: Option<i32>)
        ensures
            r == self.parent_key();

    fn duplicate(&self) -> (r: Self)
        ensures
            r == *self;
}

/// No later parent has the key of parent `i`.
pub open spec fn last_with_key(ids: Seq<i32>, i: int) -> bool {
    forall|j: int| i < j < ids.len() ==> ids[j] != ids[i]
}

pub open spec fn belongs_to<T: Child>(id: i32) -> spec_fn(T) -> bool {
    |c: T| c.parent_key() == Some(id)
}

/// The children grouped under parent `i`.
pub open spec fn group_at<T: Child>(ids: Seq<i32>, children: Seq<T>, i: int) -> Seq<T> {
    if last_with_key(ids, i) { children.filter(belongs_to::<T>(ids[i])) } else { Seq::empty() }
}

/// The children of the parent with key `id`, in their order.
pub fn children_of<T: Child>(children: &Vec<T>, id: i32) -> (r: Vec<T>)
    ensures
        r@ == children@.filter(belongs_to::<T>(id)),
{
    let mut kept: Vec<T> = Vec::new();
    let mut i: usize = 0;
    while i < children.len()
        invariant
            i <= children@.len(),
            kept@ == children@.take(i as int).filter(belongs_to::<T>(id)),
        decreases children.len() - i,
    {
        proof {
            children@.take(i as int).lemma_filter_push(children@[i as int], belongs_to::<T>(id));
            assert(children@.take(i as int).push(children@[i as int]) =~= children@.take(i + 1));
        }
        if children[i].key() == Some(id) {
            kept.push(children[i].duplicate());
        }
        i = i + 1;
    }
    assert(children@.take(children@.len() as int) =~= children@);
    kept
}

/// Whether no parent after position `i` has the key of parent `i`.
fn is_last_with_key(ids: &Vec<i32>, i: usize) -> (r: bool)
    requires
        i < ids.len(),
    ensures
        r == last_with_key(ids@, i as int),
{
    let mut j: usize = i + 1;
    while j < ids.len()
        invariant
            i < j <= ids@.len(),
            forall|k: int| i < k < j ==> ids@[k] != ids@[i as int],
        decreases ids.len() - j,
    {
        if ids[j] == ids[i] {
            return false;
        }
        j = j + 1;
    }
    true
}

/// The children grouped under each parent key, in the parents' order.
pub fn grouped_by<T: Child>(children: &Vec<T>, ids: &Vec<i32>) -> (r: Vec<Vec<T>>)
    ensures
        r@.len() == ids@.len(),
        forall|i: int| 0 <= i < ids@.len() ==> (#[trigger] r@[i])@ == group_at(ids@, children@, i),
{
    let mut groups: Vec<Vec<T>> = Vec::new();
    let mut i: usize = 0;
    while i < ids.len()
        invariant
            i <= ids@.len(),
            groups@.len() == i,
            forall|k: int| 0 <= k < i ==> (#[trigger] groups@[k])@ == group_at(ids@, children@, k),
        decreases ids.len() - i,
    {
        if is_last_with_key(ids, i) {
            groups.push(children_of(children, ids[i]));
        } else {
            let empty: Vec<T> = Vec::new();
            assert(empty@ =~= Seq::<T>::empty());
            groups.push(empty);
        }
        i = i + 1;
    }
    groups
}

/// Every group, in the parents' order.
pub open spec fn groups<T: Child>(ids: Seq<i32>, children: Seq<T>) -> Seq<Seq<T>> {
    Seq::new(ids.len(), |i: int| group_at(ids, children, i))
}

/// All groups one after the other.
pub fn flattened<T: Child>(grouped: Vec<Vec<T>>, Ghost(expected): Ghost<Seq<Seq<T>>>) -> (r: Vec<T>)
    requires
        grouped@.len() == expected.len(),
        forall|i: int| 0 <= i < expected.len() ==> (#[trigger] grouped@[i])@ == expected[i],
    ensures
        r@ == expected.flatten(),
{
    let mut all: Vec<T> = Vec::new();
    let mut i: usize = 0;
    while i < grouped.len()
        invariant
            i <= grouped@.len(),
            grouped@.len() == expected.len(),
            forall|k: int| 0 <= k < expected.len() ==> (#[trigger] grouped@[k])@ == expected[k],
            all@ == expected.take(i as int).flatten(),
        decreases grouped.len() - i,
    {
        let group = &grouped[i];
        let mut j: usize = 0;
        let ghost before = all@;
        while j < group.len()
            invariant
                j <= group@.len(),
                all@ == before + group@.take(j as int),
            decreases group.len() - j,
        {
            all.push(group[j].duplicate());
            assert(group@.take(j + 1) =~= group@.take(j as int).push(group@[j as int]));
            assert(all@ =~= before + group@.take(j + 1));
            j = j + 1;
        }
        proof {
            assert(group@.take(group@.len() as int) =~= group@);
            expected.take(i as int).lemma_flatten_push(expected[i as int]);
            assert(expected.take(i as int).push(expected[i as int]) =~= expected.take(i + 1));
        }
        i = i + 1;
    }
    assert(expected.take(expected.len() as int) =~= expected);
    all
}

/// With one parent, its group holds every child of that key.
pub proof fn lemma_single_parent_group<T: Child>(id: i32, children: Seq<T>)
    ensures
        group_at(seq![id], children, 0) == children.filter(belongs_to::<T>(id)),
{
}

/// The number of children in the groups of the first `n` parents.
pub open spec fn grouped_count<T: Child>(ids: Seq<i32>, children: Seq<T>, n: int) -> int
    decreases n,
{
    if n <= 0 { 0 } else { grouped_count(ids, children, n - 1) + group_at(ids, children, n - 1).len() }
}

/// A child whose key is the id of one of the first `n` parents.
pub open spec fn keyed_among<T: Child>(ids: Seq<i32>, n: int) -> spec_fn(T) -> bool {
    |c: T| exists|j: int| 0 <= j < n && c.parent_key() == Some(#[trigger] ids[j])
}

pub open spec fn distinct_ids(ids: Seq<i32>) -> bool {
    forall|i: int, j: int| 0 <= i < j < ids.len() ==> ids[i] != ids[j]
}

/// Filtering by one of two predicates that never hold together keeps as many items as the
/// two filters together.
proof fn lemma_filter_either_len<T>(s: Seq<T>, p: spec_fn(T) -> bool, q: spec_fn(T) -> bool)
    requires
        forall|x: T| !(#[trigger] p(x) && q(x)),
    ensures
        s.filter(|x: T| p(x) || q(x)).len() == s.filter(p).len() + s.filter(q).len(),
    decreases s.len(),
{
    reveal(Seq::filter);
    if s.len() > 0 {
        lemma_filter_either_len(s.drop_last(), p, q);
        assert(!(p(s.last()) && q(s.last())));
    }
}

/// When no two parents share an id, grouping loses no child of a listed parent and repeats
/// none: the groups of the parents hold, all together, exactly as many children as there
/// are children whose key is one of the parents' ids.
pub proof fn lemma_grouping_keeps_every_child<T: Child>(ids: Seq<i32>, children: Seq<T>, n: int)
    requires
        distinct_ids(ids),
        0 <= n <= ids.len(),
    ensures
        grouped_count(ids, children, n) == children.filter(keyed_among::<T>(ids, n)).len(),
    decreases n,
{
    if n == 0 {
        assert(children.filter(keyed_among::<T>(ids, 0)) =~= Seq::<T>::empty()) by {
            reveal(Seq::filter);
            lemma_filter_none(children, keyed_among::<T>(ids, 0));
        }
    } else {
        lemma_grouping_keeps_every_child(ids, children, n - 1);
        let before = keyed_among::<T>(ids, n - 1);
        let here = belongs_to::<T>(ids[n - 1]);
        assert forall|x: T| !(#[trigger] before(x) && here(x)) by {
            if before(x) && here(x) {
                let j = choose|j: int| 0 <= j < n - 1 && x.parent_key() == Some(#[trigger] ids[j]);
                assert(ids[j] != ids[n - 1]);
            }
        }
        lemma_filter_either_len(children, before, here);
        assert(keyed_among::<T>(ids, n) =~= |x: T| before(x) || here(x)) by {
            assert forall|x: T| #[trigger] keyed_among::<T>(ids, n)(x) == (before(x) || here(x)) by {
                if here(x) {
                    assert(x.parent_key() == Some(ids[n - 1]));
                }
                if keyed_among::<T>(ids, n)(x) && !before(x) {
                    let j = choose|j: int| 0 <= j < n && x.parent_key() == Some(#[trigger] ids[j]);
                    assert(j == n - 1);
                }
            }
        }
        assert(last_with_key(ids, n - 1));
    }
}

/// A filter whose predicate holds of nothing keeps nothing.
proof fn lemma_filter_none<T>(s: Seq<T>, p: spec_fn(T) -> bool)
    requires
        forall|x: T| !#[trigger] p(x),
    ensures
        s.filter(p) =~= Seq::<T>::empty(),
    decreases s.len(),
{
    reveal(Seq::filter);
    if s.len() > 0 {
        lemma_filter_none(s.drop_last(), p);
    }
}

} // verus!
