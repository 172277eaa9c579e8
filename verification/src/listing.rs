//! The order of a listing: directories before files, and names in
//! case-sensitive lexicographic order within each group.

use vstd::prelude::*;
use vstd::seq_lib::*;
use crate::text::{
    lemma_bytes_le_reflexive, lemma_bytes_le_total, lemma_bytes_le_transitive,
    lemma_name_le_antisymmetric, name_le, name_precedes,
};

verus! {

/// An item that a listing can order.
pub trait Listed: Sized {
    /// Whether the item belongs to the leading group (the directories).
    spec fn leads(&self) -> bool;

    /// The name by which the item is ordered within its group.
    spec fn title(&self) -> Seq<char>;

    /// Whether the item belongs to the leading group.
    fn is_leading(&self) -> (leading: bool)
        ensures
            leading == self.leads(),
    ;

    /// The name by which the item is ordered within its group.
    fn title_text(&self) -> (title: &str)
        ensures
            title@ == self.title(),
    ;
}

/// `a` may stand before `b`: a directory before a file, and within one group
/// the name that is no later in the order of names.
pub open spec fn comes_before<T: Listed>(a: T, b: T) -> bool {
    if a.leads() != b.leads() {
        a.leads()
    } else {
        name_le(a.title(), b.title())
    }
}

/// `a` and `b` may stand in either order: same group, same name.
pub open spec fn same_rank<T: Listed>(a: T, b: T) -> bool {
    a.leads() == b.leads() && a.title() == b.title()
}

/// Every item may stand before all that follow it.
pub open spec fn is_ordered<T: Listed>(items: Seq<T>) -> bool {
    forall|i: int, j: int| 0 <= i < j < items.len() ==> comes_before(items[i], items[j])
}

/// The items of `items` that have the rank of `like`, in their order.
pub open spec fn ranked_like<T: Listed>(items: Seq<T>, like: T) -> Seq<T> {
    items.filter(|item: T| same_rank(item, like))
}

/// Items of one rank stand in `after` as they stood in `before`, and no item
/// was gained or lost.
pub open spec fn keeps_ties<T: Listed>(before: Seq<T>, after: Seq<T>) -> bool {
    forall|like: T| #[trigger] ranked_like(after, like) == ranked_like(before, like)
}

/// Any two items are comparable.
pub proof fn lemma_comes_before_total<T: Listed>(a: T, b: T)
    ensures
        comes_before(a, b) || comes_before(b, a),
{
    lemma_bytes_le_total(vstd::utf8::encode_utf8(a.title()), vstd::utf8::encode_utf8(b.title()));
}

/// The order of a listing is transitive.
pub proof fn lemma_comes_before_transitive<T: Listed>(a: T, b: T, c: T)
    requires
        comes_before(a, b),
        comes_before(b, c),
    ensures
        comes_before(a, c),
{
    if a.leads() == b.leads() && b.leads() == c.leads() {
        lemma_bytes_le_transitive(
            vstd::utf8::encode_utf8(a.title()),
            vstd::utf8::encode_utf8(b.title()),
            vstd::utf8::encode_utf8(c.title()),
        );
    }
}

/// Two items have the same rank exactly when each may stand before the other.
pub proof fn lemma_same_rank_is_mutual<T: Listed>(a: T, b: T)
    ensures
        same_rank(a, b) <==> comes_before(a, b) && comes_before(b, a),
{
    if comes_before(a, b) && comes_before(b, a) {
        lemma_name_le_antisymmetric(a.title(), b.title());
    }
    if same_rank(a, b) {
        lemma_bytes_le_reflexive(vstd::utf8::encode_utf8(a.title()));
    }
}

/// The first item of a sequence leads the items of its own rank.
proof fn lemma_first_leads_its_rank<T: Listed>(items: Seq<T>)
    requires
        items.len() > 0,
    ensures
        ranked_like(items, items[0]).len() > 0,
        ranked_like(items, items[0])[0] == items[0],
        forall|like: T| #[trigger]
            ranked_like(items, like) == (if same_rank(items[0], like) {
                seq![items[0]]
            } else {
                Seq::empty()
            }) + ranked_like(items.drop_first(), like),
{
    assert(items =~= seq![items[0]] + items.drop_first());
    assert forall|like: T| #[trigger]
        ranked_like(items, like) == (if same_rank(items[0], like) {
            seq![items[0]]
        } else {
            Seq::empty()
        }) + ranked_like(items.drop_first(), like) by {
        items.drop_first().lemma_filter_prepend(items[0], |item: T| same_rank(item, like));
    }
    assert(ranked_like(items, items[0]) == seq![items[0]] + ranked_like(
        items.drop_first(),
        items[0],
    ));
}

/// In an ordered sequence with an item of the rank of `like`, the first item
/// may stand before `like`.
proof fn lemma_first_is_least<T: Listed>(items: Seq<T>, like: T)
    requires
        is_ordered(items),
        ranked_like(items, like).len() > 0,
    ensures
        items.len() > 0,
        comes_before(items[0], like),
{
    let keep = |item: T| same_rank(item, like);
    let found = items.filter(keep)[0];
    items.lemma_filter_pred(keep, 0);
    assert(items.filter(keep).contains(found));
    items.lemma_filter_contains_rev(keep, found);
    let at = choose|at: int| 0 <= at < items.len() && items[at] == found;
    lemma_same_rank_is_mutual(found, like);
    if at > 0 {
        lemma_comes_before_transitive(items[0], found, like);
    }
}

/// An order of the items is the only one: two ordered sequences in which
/// the items of every rank stand alike are the same sequence.
pub proof fn lemma_arrangement_unique<T: Listed>(a: Seq<T>, b: Seq<T>)
    requires
        is_ordered(a),
        is_ordered(b),
        keeps_ties(a, b),
    ensures
        a == b,
    decreases a.len(),
{
    if a.len() == 0 {
        if b.len() > 0 {
            lemma_first_leads_its_rank(b);
            assert(ranked_like(a, b[0]) =~= Seq::<T>::empty()) by {
                reveal(Seq::filter);
            }
        }
        assert(a =~= b);
    } else {
        lemma_first_leads_its_rank(a);
        assert(ranked_like(b, a[0]) == ranked_like(a, a[0]));
        lemma_first_is_least(b, a[0]);
        lemma_first_leads_its_rank(b);
        assert(ranked_like(a, b[0]) == ranked_like(b, b[0]));
        lemma_first_is_least(a, b[0]);
        lemma_same_rank_is_mutual(b[0], a[0]);
        assert(same_rank(b[0], a[0]));
        assert(ranked_like(b, a[0])[0] == b[0]);
        assert(a[0] == b[0]);
        let rest_a = a.drop_first();
        let rest_b = b.drop_first();
        assert forall|like: T| #[trigger]
            ranked_like(rest_b, like) == ranked_like(rest_a, like) by {
            let head = if same_rank(a[0], like) {
                seq![a[0]]
            } else {
                Seq::<T>::empty()
            };
            assert(ranked_like(a, like) == head + ranked_like(rest_a, like));
            assert(ranked_like(b, like) == head + ranked_like(rest_b, like));
            assert(ranked_like(b, like) == ranked_like(a, like));
            assert(ranked_like(rest_a, like) =~= (head + ranked_like(rest_a, like)).skip(
                head.len() as int,
            ));
            assert(ranked_like(rest_b, like) =~= (head + ranked_like(rest_b, like)).skip(
                head.len() as int,
            ));
        }
        assert(is_ordered(rest_a)) by {
            assert forall|i: int, j: int| 0 <= i < j < rest_a.len() implies comes_before(
                rest_a[i],
                rest_a[j],
            ) by {
                assert(comes_before(a[i + 1], a[j + 1]));
            }
        }
        assert(is_ordered(rest_b)) by {
            assert forall|i: int, j: int| 0 <= i < j < rest_b.len() implies comes_before(
                rest_b[i],
                rest_b[j],
            ) by {
                assert(comes_before(b[i + 1], b[j + 1]));
            }
        }
        lemma_arrangement_unique(rest_a, rest_b);
        assert(a =~= seq![a[0]] + rest_a);
        assert(b =~= seq![b[0]] + rest_b);
    }
}

/// Arranging what is already in order changes nothing.
pub proof fn lemma_ordered_stays<T: Listed>(items: Seq<T>, arranged: Seq<T>)
    requires
        is_ordered(items),
        is_ordered(arranged),
        keeps_ties(items, arranged),
    ensures
        arranged == items,
{
    lemma_arrangement_unique(items, arranged);
}

/// Whether `a` may stand before `b`.
pub fn precedes<T: Listed>(a: &T, b: &T) -> (before: bool)
    ensures
        before == comes_before(*a, *b),
{
    let a_leads = a.is_leading();
    let b_leads = b.is_leading();
    if a_leads != b_leads {
        a_leads
    } else {
        name_precedes(a.title_text(), b.title_text())
    }
}

/// Every item of `firsts` may stand before every item of `lasts`.
spec fn all_before<T: Listed>(firsts: Seq<T>, lasts: Seq<T>) -> bool {
    forall|i: int, j: int|
        0 <= i < firsts.len() && 0 <= j < lasts.len() ==> comes_before(
            #[trigger] firsts[i],
            #[trigger] lasts[j],
        )
}

/// No item of `lasts` may stand before an item of `firsts`.
spec fn all_after<T: Listed>(lasts: Seq<T>, firsts: Seq<T>) -> bool {
    forall|i: int, j: int|
        0 <= i < lasts.len() && 0 <= j < firsts.len() ==> !comes_before(
            #[trigger] lasts[i],
            #[trigger] firsts[j],
        )
}

/// `merged` holds the items of `left` and of `right`, those of one rank with
/// the left ones first.
spec fn merges<T: Listed>(merged: Seq<T>, left: Seq<T>, right: Seq<T>) -> bool {
    &&& forall|like: T| #[trigger]
        ranked_like(merged, like) == ranked_like(left, like) + ranked_like(right, like)
    &&& merged.to_multiset() == left.to_multiset().add(right.to_multiset())
}

/// The state of a merge that works from the ends of `left` and `right`
/// towards their fronts: the first `i` items of `left` and the first `j` of
/// `right` are still to come, and `tail` is the merged rest.
spec fn merging<T: Listed>(left: Seq<T>, right: Seq<T>, i: int, j: int, tail: Seq<T>) -> bool {
    &&& is_ordered(left)
    &&& is_ordered(right)
    &&& 0 <= i <= left.len()
    &&& 0 <= j <= right.len()
    &&& is_ordered(tail)
    &&& all_before(left.take(i), tail)
    &&& all_before(right.take(j), tail)
    &&& all_after(left.skip(i), right.take(j))
    &&& merges(tail, left.skip(i), right.skip(j))
}

/// The items from place `from - 1` on are the item at that place and then
/// the items from `from` on.
proof fn lemma_skip_one_less<T>(items: Seq<T>, from: int)
    requires
        0 < from <= items.len(),
    ensures
        items.skip(from - 1) == seq![items[from - 1]] + items.skip(from),
        items.skip(from - 1).to_multiset() == items.skip(from).to_multiset().insert(
            items[from - 1],
        ),
{
    assert(items.skip(from - 1) =~= seq![items[from - 1]] + items.skip(from));
    to_multiset_insert(items.skip(from), 0, items[from - 1]);
    assert(items.skip(from).insert(0, items[from - 1]) =~= seq![items[from - 1]] + items.skip(
        from,
    ));
}

/// Taking the last item of `left` keeps the account of what is merged.
proof fn lemma_take_left<T: Listed>(tail: Seq<T>, left: Seq<T>, at: int, taken_right: Seq<T>)
    requires
        0 < at <= left.len(),
        merges(tail, left.skip(at), taken_right),
    ensures
        merges(seq![left[at - 1]] + tail, left.skip(at - 1), taken_right),
{
    let item = left[at - 1];
    lemma_skip_one_less(left, at);
    assert forall|like: T| #[trigger]
        ranked_like(seq![item] + tail, like) == ranked_like(left.skip(at - 1), like)
            + ranked_like(taken_right, like) by {
        let keep = |other: T| same_rank(other, like);
        tail.lemma_filter_prepend(item, keep);
        left.skip(at).lemma_filter_prepend(item, keep);
        assert(ranked_like(tail, like) == ranked_like(left.skip(at), like) + ranked_like(
            taken_right,
            like,
        ));
        let head = if keep(item) {
            seq![item]
        } else {
            Seq::<T>::empty()
        };
        assert(head + (left.skip(at).filter(keep) + taken_right.filter(keep)) =~= (head
            + left.skip(at).filter(keep)) + taken_right.filter(keep));
    }
    to_multiset_insert(tail, 0, item);
    assert(tail.insert(0, item) =~= seq![item] + tail);
    assert(left.skip(at).to_multiset().insert(item).add(taken_right.to_multiset())
        =~= left.skip(at).to_multiset().add(taken_right.to_multiset()).insert(item));
}

/// Taking the last item of `right` keeps the account of what is merged,
/// where the items taken from the left so far all come strictly after it.
proof fn lemma_take_right<T: Listed>(tail: Seq<T>, taken_left: Seq<T>, right: Seq<T>, at: int)
    requires
        0 < at <= right.len(),
        merges(tail, taken_left, right.skip(at)),
        forall|i: int| 0 <= i < taken_left.len() ==> !comes_before(
            #[trigger] taken_left[i],
            right[at - 1],
        ),
    ensures
        merges(seq![right[at - 1]] + tail, taken_left, right.skip(at - 1)),
{
    let item = right[at - 1];
    lemma_skip_one_less(right, at);
    assert forall|like: T| #[trigger]
        ranked_like(seq![item] + tail, like) == ranked_like(taken_left, like) + ranked_like(
            right.skip(at - 1),
            like,
        ) by {
        let keep = |other: T| same_rank(other, like);
        tail.lemma_filter_prepend(item, keep);
        right.skip(at).lemma_filter_prepend(item, keep);
        assert(ranked_like(tail, like) == ranked_like(taken_left, like) + ranked_like(
            right.skip(at),
            like,
        ));
        if keep(item) {
            assert forall|i: int| 0 <= i < taken_left.len() implies !keep(
                #[trigger] taken_left[i],
            ) by {
                lemma_same_rank_is_mutual(taken_left[i], item);
            }
            assert(taken_left.all(|other: T| !keep(other)));
            taken_left.lemma_all_neg_filter_empty(keep);
            assert(taken_left.filter(keep) =~= Seq::<T>::empty());
            assert(seq![item] + (taken_left.filter(keep) + right.skip(at).filter(keep))
                =~= taken_left.filter(keep) + (seq![item] + right.skip(at).filter(keep)));
        } else {
            assert(Seq::<T>::empty() + (taken_left.filter(keep) + right.skip(at).filter(keep))
                =~= taken_left.filter(keep) + (Seq::<T>::empty() + right.skip(at).filter(keep)));
        }
    }
    to_multiset_insert(tail, 0, item);
    assert(tail.insert(0, item) =~= seq![item] + tail);
    assert(taken_left.to_multiset().add(right.skip(at).to_multiset().insert(item))
        =~= taken_left.to_multiset().add(right.skip(at).to_multiset()).insert(item));
}

/// An item that may stand before every item of an ordered sequence can be
/// put in front of it.
proof fn lemma_ordered_with_front<T: Listed>(item: T, tail: Seq<T>)
    requires
        is_ordered(tail),
        forall|j: int| 0 <= j < tail.len() ==> comes_before(item, #[trigger] tail[j]),
    ensures
        is_ordered(seq![item] + tail),
{
    let joined = seq![item] + tail;
    assert forall|i: int, j: int| 0 <= i < j < joined.len() implies comes_before(
        joined[i],
        joined[j],
    ) by {
        if i > 0 {
            assert(comes_before(tail[i - 1], tail[j - 1]));
        } else {
            assert(comes_before(item, tail[j - 1]));
        }
    }
}

/// Each of the first `count` items of the ordered `items` may stand before
/// whatever the last of them may stand before.
proof fn lemma_front_before<T: Listed>(items: Seq<T>, count: int, bound: T)
    requires
        is_ordered(items),
        0 < count <= items.len(),
        comes_before(items[count - 1], bound),
    ensures
        forall|i: int| 0 <= i < count ==> comes_before(#[trigger] items[i], bound),
{
    assert forall|i: int| 0 <= i < count implies comes_before(#[trigger] items[i], bound) by {
        if i < count - 1 {
            lemma_comes_before_transitive(items[i], items[count - 1], bound);
        }
    }
}

/// A merge starts with everything still to come and nothing merged.
proof fn lemma_merging_starts<T: Listed>(left: Seq<T>, right: Seq<T>)
    requires
        is_ordered(left),
        is_ordered(right),
    ensures
        merging(left, right, left.len() as int, right.len() as int, Seq::empty()),
{
    let nothing = Seq::<T>::empty();
    assert(left.skip(left.len() as int) =~= nothing);
    assert(right.skip(right.len() as int) =~= nothing);
    assert forall|like: T| #[trigger]
        ranked_like(nothing, like) == ranked_like(nothing, like) + ranked_like(nothing, like) by {
        reveal(Seq::filter);
    }
    lemma_multiset_commutative(nothing, nothing);
    assert(nothing + nothing =~= nothing);
}

/// Where the last item to come of `left` may stand before the last to come
/// of `right`, or `left` has none to come, the merge goes on with the item
/// of `right`.
proof fn lemma_merging_takes_right<T: Listed>(
    left: Seq<T>,
    right: Seq<T>,
    i: int,
    j: int,
    tail: Seq<T>,
)
    requires
        merging(left, right, i, j, tail),
        j > 0,
        i > 0 ==> comes_before(left[i - 1], right[j - 1]),
    ensures
        merging(left, right, i, j - 1, seq![right[j - 1]] + tail),
{
    let item = right[j - 1];
    let longer = seq![item] + tail;
    assert(item == right.take(j)[j - 1]);
    assert forall|k: int| 0 <= k < left.skip(i).len() implies !comes_before(
        #[trigger] left.skip(i)[k],
        item,
    ) by {
        assert(!comes_before(left.skip(i)[k], right.take(j)[j - 1]));
    }
    lemma_take_right(tail, left.skip(i), right, j);
    assert forall|k: int| 0 <= k < tail.len() implies comes_before(item, #[trigger] tail[k]) by {
        assert(comes_before(right.take(j)[j - 1], tail[k]));
    }
    lemma_ordered_with_front(item, tail);
    assert(all_before(right.take(j - 1), longer)) by {
        assert forall|a: int, b: int|
            0 <= a < right.take(j - 1).len() && 0 <= b < longer.len() implies comes_before(
            #[trigger] right.take(j - 1)[a],
            #[trigger] longer[b],
        ) by {
            if b == 0 {
                assert(comes_before(right[a], right[j - 1]));
            } else {
                assert(comes_before(right.take(j)[a], tail[b - 1]));
            }
        }
    }
    assert(all_before(left.take(i), longer)) by {
        if i > 0 {
            lemma_front_before(left, i, item);
        }
        assert forall|a: int, b: int|
            0 <= a < left.take(i).len() && 0 <= b < longer.len() implies comes_before(
            #[trigger] left.take(i)[a],
            #[trigger] longer[b],
        ) by {
            if b > 0 {
                assert(comes_before(left.take(i)[a], tail[b - 1]));
            } else {
                assert(comes_before(left[a], item));
            }
        }
    }
    assert(all_after(left.skip(i), right.take(j - 1))) by {
        assert forall|a: int, b: int|
            0 <= a < left.skip(i).len() && 0 <= b < right.take(j - 1).len() implies !comes_before(
            #[trigger] left.skip(i)[a],
            #[trigger] right.take(j - 1)[b],
        ) by {
            assert(right.take(j - 1)[b] == right.take(j)[b]);
        }
    }
}

/// Where the last item to come of `left` may not stand before the last to
/// come of `right`, or `right` has none to come, the merge goes on with the
/// item of `left`.
proof fn lemma_merging_takes_left<T: Listed>(
    left: Seq<T>,
    right: Seq<T>,
    i: int,
    j: int,
    tail: Seq<T>,
)
    requires
        merging(left, right, i, j, tail),
        i > 0,
        j > 0 ==> !comes_before(left[i - 1], right[j - 1]),
    ensures
        merging(left, right, i - 1, j, seq![left[i - 1]] + tail),
{
    let item = left[i - 1];
    let longer = seq![item] + tail;
    assert(item == left.take(i)[i - 1]);
    lemma_take_left(tail, left, i, right.skip(j));
    lemma_skip_one_less(left, i);
    assert forall|k: int| 0 <= k < tail.len() implies comes_before(item, #[trigger] tail[k]) by {
        assert(comes_before(left.take(i)[i - 1], tail[k]));
    }
    lemma_ordered_with_front(item, tail);
    assert(all_before(left.take(i - 1), longer)) by {
        assert forall|a: int, b: int|
            0 <= a < left.take(i - 1).len() && 0 <= b < longer.len() implies comes_before(
            #[trigger] left.take(i - 1)[a],
            #[trigger] longer[b],
        ) by {
            if b == 0 {
                assert(comes_before(left[a], left[i - 1]));
            } else {
                assert(comes_before(left.take(i)[a], tail[b - 1]));
            }
        }
    }
    if j > 0 {
        lemma_comes_before_total(item, right[j - 1]);
        lemma_front_before(right, j, item);
    }
    assert(all_before(right.take(j), longer)) by {
        assert forall|a: int, b: int|
            0 <= a < right.take(j).len() && 0 <= b < longer.len() implies comes_before(
            #[trigger] right.take(j)[a],
            #[trigger] longer[b],
        ) by {
            if b > 0 {
                assert(comes_before(right.take(j)[a], tail[b - 1]));
            } else {
                assert(comes_before(right[a], item));
            }
        }
    }
    assert(all_after(left.skip(i - 1), right.take(j))) by {
        assert forall|a: int, b: int|
            0 <= a < left.skip(i - 1).len() && 0 <= b < right.take(j).len() implies !comes_before(
            #[trigger] left.skip(i - 1)[a],
            #[trigger] right.take(j)[b],
        ) by {
            if a > 0 {
                assert(left.skip(i - 1)[a] == left.skip(i)[a - 1]);
            } else if comes_before(item, right[b]) {
                if b < j - 1 {
                    assert(comes_before(right[b], right[j - 1]));
                    lemma_comes_before_transitive(item, right[b], right[j - 1]);
                }
            }
        }
    }
}

/// The ordered sequences `left` and `right` as one ordered sequence. Among
/// items of one rank those of `left` come first.
fn merge<T: Listed>(left: Vec<T>, right: Vec<T>) -> (merged: Vec<T>)
    requires
        is_ordered(left@),
        is_ordered(right@),
    ensures
        is_ordered(merged@),
        merges(merged@, left@, right@),
{
    let ghost all_left = left@;
    let ghost all_right = right@;
    let mut left = left;
    let mut right = right;
    let mut backwards: Vec<T> = Vec::new();
    let ghost mut tail: Seq<T> = Seq::empty();
    proof {
        lemma_merging_starts(all_left, all_right);
        assert(all_left.take(all_left.len() as int) =~= all_left);
        assert(all_right.take(all_right.len() as int) =~= all_right);
    }
    while left.len() > 0 || right.len() > 0
        invariant
            left@ == all_left.take(left.len() as int),
            right@ == all_right.take(right.len() as int),
            merging(all_left, all_right, left.len() as int, right.len() as int, tail),
            backwards.len() == tail.len(),
            forall|k: int|
                0 <= k < backwards.len() ==> #[trigger] backwards@[k] == tail[tail.len() - 1 - k],
        decreases left.len() + right.len(),
    {
        let from_right = if right.len() == 0 {
            false
        } else if left.len() == 0 {
            true
        } else {
            precedes(&left[left.len() - 1], &right[right.len() - 1])
        };
        let item = if from_right {
            proof {
                lemma_merging_takes_right(
                    all_left,
                    all_right,
                    left.len() as int,
                    right.len() as int,
                    tail,
                );
            }
            right.pop().unwrap()
        } else {
            proof {
                lemma_merging_takes_left(
                    all_left,
                    all_right,
                    left.len() as int,
                    right.len() as int,
                    tail,
                );
            }
            left.pop().unwrap()
        };
        backwards.push(item);
        proof {
            tail = seq![item] + tail;
            assert(left@ =~= all_left.take(left.len() as int));
            assert(right@ =~= all_right.take(right.len() as int));
        }
    }
    proof {
        assert(all_left.skip(0) =~= all_left);
        assert(all_right.skip(0) =~= all_right);
    }
    let mut merged: Vec<T> = Vec::new();
    while backwards.len() > 0
        invariant
            backwards.len() + merged.len() == tail.len(),
            merged@ == tail.take(merged.len() as int),
            forall|k: int|
                0 <= k < backwards.len() ==> #[trigger] backwards@[k] == tail[tail.len() - 1 - k],
        decreases backwards.len(),
    {
        let item = backwards.pop().unwrap();
        merged.push(item);
        assert(merged@ =~= tail.take(merged.len() as int));
    }
    assert(merged@ =~= tail);
    merged
}

/// Orders `items`: directories first, then by name. Items of the same rank
/// keep the order in which they came.
pub fn arrange<T: Listed>(items: Vec<T>) -> (arranged: Vec<T>)
    ensures
        is_ordered(arranged@),
        keeps_ties(items@, arranged@),
        arranged@.to_multiset() == items@.to_multiset(),
    decreases items.len(),
{
    if items.len() <= 1 {
        return items;
    }
    let middle: usize = items.len() / 2;
    let mut first = items;
    let second = first.split_off(middle);
    let ghost first_half = first@;
    let ghost second_half = second@;
    let first = arrange(first);
    let second = arrange(second);
    let arranged = merge(first, second);
    proof {
        assert(items@ =~= first_half + second_half);
        assert forall|like: T| #[trigger]
            ranked_like(arranged@, like) == ranked_like(items@, like) by {
            assert(ranked_like(arranged@, like) == ranked_like(first@, like) + ranked_like(
                second@,
                like,
            ));
            assert(ranked_like(first@, like) == ranked_like(first_half, like));
            assert(ranked_like(second@, like) == ranked_like(second_half, like));
            Seq::filter_distributes_over_add(
                first_half,
                second_half,
                |item: T| same_rank(item, like),
            );
        }
        lemma_multiset_commutative(first_half, second_half);
    }
    arranged
}

} // verus!
