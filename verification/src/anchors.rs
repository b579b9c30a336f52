//! The anchors of a document as plain values, and the link targets among
//! them.

use vstd::prelude::*;

verus! {

/// An anchor element as the extractor sees it: its link target where it
/// carries one, `None` where it does not.
pub type Anchor = Option<Seq<char>>;

/// The test that keeps the anchors which carry a link target.
pub open spec fn carries_target() -> spec_fn(Anchor) -> bool {
    |anchor: Anchor| anchor is Some
}

/// The link target of an anchor that carries one.
pub open spec fn target_of() -> spec_fn(Anchor) -> Seq<char> {
    |anchor: Anchor| anchor.unwrap()
}

/// The link targets among `anchors`: one for each anchor that carries one, in
/// the order of the anchors, each as it stands.
pub open spec fn link_targets(anchors: Seq<Anchor>) -> Seq<Seq<char>> {
    anchors.filter(carries_target()).map_values(target_of())
}

/// The positions in `anchors` at which an anchor carries a link target.
pub open spec fn target_positions(anchors: Seq<Anchor>) -> Set<int> {
    Set::new(|i: int| 0 <= i < anchors.len() && anchors[i] is Some)
}

/// Without anchors there are no link targets.
pub proof fn lemma_no_anchors_no_targets()
    ensures
        link_targets(Seq::<Anchor>::empty()) == Seq::<Seq<char>>::empty(),
{
    reveal(Seq::filter);
}

/// One more anchor at the end adds its link target at the end, if it carries
/// one, and nothing otherwise.
pub proof fn lemma_link_targets_push(anchors: Seq<Anchor>, last: Anchor)
    ensures
        link_targets(anchors.push(last)) == match last {
            Some(target) => link_targets(anchors).push(target),
            None => link_targets(anchors),
        },
{
    reveal(Seq::filter);
    assert(anchors.push(last).drop_last() == anchors);
}

/// The link targets of two runs of anchors, one after the other, are those of
/// the first run followed by those of the second.
pub proof fn lemma_link_targets_concat(first: Seq<Anchor>, second: Seq<Anchor>)
    ensures
        link_targets(first + second) == link_targets(first) + link_targets(second),
    decreases second.len(),
{
    if second.len() == 0 {
        lemma_no_anchors_no_targets();
        assert(first + second == first);
        assert(link_targets(first) + Seq::<Seq<char>>::empty() == link_targets(first));
    } else {
        let before = second.drop_last();
        let last = second.last();
        lemma_link_targets_concat(first, before);
        lemma_link_targets_push(first + before, last);
        lemma_link_targets_push(before, last);
        assert((first + before).push(last) == first + second);
        assert(before.push(last) == second);
        match last {
            Some(target) => {
                assert((link_targets(first) + link_targets(before)).push(target) == link_targets(
                    first,
                ) + link_targets(before).push(target));
            },
            None => {},
        }
    }
}

/// An anchor that carries no link target leaves no trace: put among other
/// anchors at any place, it changes nothing of their link targets.
pub proof fn lemma_anchor_without_target_is_skipped(anchors: Seq<Anchor>, at: int)
    requires
        0 <= at <= anchors.len(),
    ensures
        link_targets(anchors.insert(at, None)) == link_targets(anchors),
{
    let before = anchors.take(at);
    let after = anchors.skip(at);
    let bare: Seq<Anchor> = seq![None];
    assert(anchors.insert(at, None) == (before + bare) + after);
    assert(before + after == anchors);
    lemma_link_targets_concat(before + bare, after);
    lemma_link_targets_concat(before, bare);
    lemma_link_targets_concat(before, after);
    lemma_no_anchors_no_targets();
    lemma_link_targets_push(Seq::<Anchor>::empty(), None);
    assert(Seq::<Anchor>::empty().push(None) == bare);
    assert(link_targets(before) + Seq::<Seq<char>>::empty() == link_targets(before));
}

/// Every link target is the target of an anchor that carries it.
pub proof fn lemma_targets_belong_to_anchors(anchors: Seq<Anchor>)
    ensures
        forall|j: int|
            0 <= j < link_targets(anchors).len() ==> anchors.contains(
                Some(#[trigger] link_targets(anchors)[j]),
            ),
    decreases anchors.len(),
{
    if anchors.len() == 0 {
        lemma_no_anchors_no_targets();
        assert(anchors == Seq::<Anchor>::empty());
    } else {
        let before = anchors.drop_last();
        let last = anchors.last();
        lemma_targets_belong_to_anchors(before);
        lemma_link_targets_push(before, last);
        assert(before.push(last) == anchors);
        assert forall|j: int| 0 <= j < link_targets(anchors).len() implies anchors.contains(
            Some(#[trigger] link_targets(anchors)[j]),
        ) by {
            if j < link_targets(before).len() {
                let target = link_targets(before)[j];
                assert(before.contains(Some(target)));
                let i = choose|i: int| 0 <= i < before.len() && before[i] == Some(target);
                assert(anchors[i] == before[i]);
            } else {
                assert(anchors[anchors.len() - 1] == Some(link_targets(anchors)[j]));
            }
        }
    }
}

/// Every anchor that carries a link target has it among the link targets.
pub proof fn lemma_anchors_with_target_are_kept(anchors: Seq<Anchor>)
    ensures
        forall|i: int|
            0 <= i < anchors.len() && (#[trigger] anchors[i]) is Some ==> link_targets(
                anchors,
            ).contains(anchors[i].unwrap()),
    decreases anchors.len(),
{
    if anchors.len() > 0 {
        let before = anchors.drop_last();
        let last = anchors.last();
        lemma_anchors_with_target_are_kept(before);
        lemma_link_targets_push(before, last);
        assert(before.push(last) == anchors);
        let targets = link_targets(anchors);
        assert forall|i: int|
            0 <= i < anchors.len() && (#[trigger] anchors[i]) is Some implies targets.contains(
            anchors[i].unwrap(),
        ) by {
            if i < before.len() {
                assert(before[i] == anchors[i]);
                let j = choose|j: int|
                    0 <= j < link_targets(before).len() && link_targets(before)[j]
                        == before[i].unwrap();
                assert(targets[j] == anchors[i].unwrap());
            } else {
                assert(targets[targets.len() - 1] == anchors[i].unwrap());
            }
        }
    }
}

/// There are as many link targets as there are anchors that carry one.
pub proof fn lemma_targets_count(anchors: Seq<Anchor>)
    ensures
        target_positions(anchors).finite(),
        link_targets(anchors).len() == target_positions(anchors).len(),
    decreases anchors.len(),
{
    if anchors.len() == 0 {
        lemma_no_anchors_no_targets();
        assert(anchors == Seq::<Anchor>::empty());
        assert(target_positions(anchors) == Set::<int>::empty());
    } else {
        let before = anchors.drop_last();
        let last = anchors.last();
        let end = anchors.len() - 1;
        lemma_targets_count(before);
        lemma_link_targets_push(before, last);
        assert(before.push(last) == anchors);
        match last {
            Some(target) => {
                assert(target_positions(anchors) == target_positions(before).insert(end));
            },
            None => {
                assert(target_positions(anchors) == target_positions(before));
            },
        }
    }
}

} // verus!
