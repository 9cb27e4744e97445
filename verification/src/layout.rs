use vstd::prelude::*;

use crate::collections::{Duplicate, StringMap};
use crate::dto::{NativeActionDto, NativeActionTriggerDto, NativeBlockDto, NativeFrameDto};
use crate::mapper::{group_view, map_block, map_trigger, opt_items, spec_block, spec_trigger};
use crate::model::{BlockView, NativeActionTriggerModel, NativeBlockModel, TriggerView};

verus! {

broadcast use vstd::seq_lib::group_to_multiset_ensures;

/// `s` with `b` placed after every leading block whose position is not
/// greater than its own. Inserting the blocks of a list one by one this way
/// orders them by position, blocks of equal position in list order.
pub open spec fn stable_insert(s: Seq<BlockView>, b: BlockView) -> Seq<BlockView>
    decreases s.len(),
{
    if s.len() == 0 {
        seq![b]
    } else if s[0].position > b.position {
        seq![b] + s
    } else {
        seq![s[0]] + stable_insert(s.drop_first(), b)
    }
}

/// The blocks of a list grouped by parent id, each group ordered by position
/// and, among equal positions, in list order.
pub open spec fn children_view(blocks: Seq<BlockView>) -> Map<Seq<char>, Seq<BlockView>>
    decreases blocks.len(),
{
    if blocks.len() == 0 {
        Map::empty()
    } else {
        let m = children_view(blocks.drop_last());
        let b = blocks.last();
        m.insert(b.parent_id, stable_insert(group_of(m, b.parent_id), b))
    }
}

/// The group of a parent; none reads as empty.
pub open spec fn group_of(m: Map<Seq<char>, Seq<BlockView>>, parent: Seq<char>) -> Seq<BlockView> {
    if m.contains_key(parent) {
        m[parent]
    } else {
        Seq::empty()
    }
}

/// The blocks of a frame response, in the order the server lists them.
pub open spec fn frame_blocks(dto: NativeFrameDto) -> Seq<BlockView> {
    opt_items(dto.blocks).map_values(|d: NativeBlockDto| spec_block(d))
}

/// Whether blocks are ordered by position.
pub open spec fn by_position(s: Seq<BlockView>) -> bool {
    forall|i: int, j: int| 0 <= i < j < s.len() ==> s[i].position <= s[j].position
}

/// Whether a block has the given parent.
pub open spec fn has_parent(parent: Seq<char>) -> spec_fn(BlockView) -> bool {
    |b: BlockView| b.parent_id == parent
}

proof fn lemma_stable_insert_at(s: Seq<BlockView>, b: BlockView, k: int)
    requires
        0 <= k <= s.len(),
        forall|j: int| 0 <= j < k ==> s[j].position <= b.position,
        k < s.len() ==> s[k].position > b.position,
    ensures
        stable_insert(s, b) == s.insert(k, b),
    decreases s.len(),
{
    if s.len() == 0 {
        assert(s.insert(k, b) =~= seq![b]);
    } else if k == 0 {
        assert(s.insert(0, b) =~= seq![b] + s);
    } else {
        let t = s.drop_first();
        assert forall|j: int| 0 <= j < k - 1 implies t[j].position <= b.position by {
            assert(t[j] == s[j + 1]);
        }
        if k - 1 < t.len() {
            assert(t[k - 1] == s[k]);
        }
        lemma_stable_insert_at(t, b, k - 1);
        assert(seq![s[0]] + t.insert(k - 1, b) =~= s.insert(k, b));
    }
}

proof fn lemma_stable_insert_bound(s: Seq<BlockView>, b: BlockView, low: i32)
    requires
        forall|i: int| 0 <= i < s.len() ==> s[i].position >= low,
        b.position >= low,
    ensures
        forall|i: int|
            0 <= i < stable_insert(s, b).len() ==> #[trigger] stable_insert(s, b)[i].position >= low,
    decreases s.len(),
{
    if s.len() > 0 && s[0].position <= b.position {
        let t = s.drop_first();
        lemma_stable_insert_bound(t, b, low);
        let r = stable_insert(t, b);
        assert forall|i: int| 0 <= i < stable_insert(s, b).len() implies #[trigger] stable_insert(
            s,
            b,
        )[i].position >= low by {
            if i > 0 {
                assert(stable_insert(s, b)[i] == r[i - 1]);
            }
        }
    }
}

/// Inserting a block into blocks ordered by position keeps them ordered, and
/// adds exactly that block.
pub proof fn lemma_stable_insert_ordered(s: Seq<BlockView>, b: BlockView)
    requires
        by_position(s),
    ensures
        by_position(stable_insert(s, b)),
        stable_insert(s, b).to_multiset() == s.to_multiset().insert(b),
    decreases s.len(),
{
    broadcast use vstd::multiset::group_multiset_axioms;

    if s.len() == 0 {
        assert(stable_insert(s, b) =~= s.insert(0, b));
    } else if s[0].position > b.position {
        assert(stable_insert(s, b) =~= s.insert(0, b));
        let r = stable_insert(s, b);
        assert forall|i: int, j: int| 0 <= i < j < r.len() implies r[i].position
            <= r[j].position by {
            if i > 0 {
                assert(r[i] == s[i - 1] && r[j] == s[j - 1]);
            } else {
                assert(r[j] == s[j - 1]);
            }
        }
    } else {
        let t = s.drop_first();
        let r = stable_insert(t, b);
        assert(by_position(t)) by {
            assert forall|i: int, j: int| 0 <= i < j < t.len() implies t[i].position
                <= t[j].position by {
                assert(t[i] == s[i + 1] && t[j] == s[j + 1]);
            }
        }
        lemma_stable_insert_ordered(t, b);
        assert forall|i: int| 0 <= i < t.len() implies t[i].position >= s[0].position by {
            assert(t[i] == s[i + 1]);
        }
        lemma_stable_insert_bound(t, b, s[0].position);
        let whole = stable_insert(s, b);
        assert(whole == seq![s[0]] + r);
        assert forall|i: int, j: int| 0 <= i < j < whole.len() implies whole[i].position
            <= whole[j].position by {
            assert(whole[j] == r[j - 1]);
            if i > 0 {
                assert(whole[i] == r[i - 1]);
            }
        }
        assert(whole =~= r.insert(0, s[0]));
        assert(s =~= t.insert(0, s[0]));
        assert(whole.to_multiset() =~= s.to_multiset().insert(b));
    }
}

/// Each parent's group lists exactly the blocks with that parent, ordered by
/// position; a parent without blocks has no group.
pub proof fn law_children_ordered_by_position(blocks: Seq<BlockView>, parent: Seq<char>)
    ensures
        by_position(group_of(children_view(blocks), parent)),
        group_of(children_view(blocks), parent).to_multiset() == blocks.filter(
            has_parent(parent),
        ).to_multiset(),
    decreases blocks.len(),
{
    broadcast use vstd::multiset::group_multiset_axioms;

    reveal(Seq::filter);
    if blocks.len() == 0 {
        assert(blocks.filter(has_parent(parent)) =~= Seq::<BlockView>::empty());
    } else {
        let rest = blocks.drop_last();
        let b = blocks.last();
        law_children_ordered_by_position(rest, parent);
        let before = group_of(children_view(rest), parent);
        if b.parent_id == parent {
            lemma_stable_insert_ordered(before, b);
            assert(blocks.filter(has_parent(parent)) == rest.filter(has_parent(parent)).push(b));
        } else {
            assert(group_of(children_view(blocks), parent) == before);
            assert(blocks.filter(has_parent(parent)) == rest.filter(has_parent(parent)));
        }
    }
}

/// Places a block among its siblings: after every block whose position is
/// not greater than its own.
fn insert_by_position(siblings: &mut Vec<NativeBlockModel>, block: NativeBlockModel)
    ensures
        final(siblings).deep_view() == stable_insert(old(siblings).deep_view(), block.deep_view()),
{
    let ghost before = siblings.deep_view();
    let mut k: usize = 0;
    while k < siblings.len() && siblings[k].position <= block.position
        invariant
            k <= siblings@.len(),
            siblings.deep_view() == before,
            forall|j: int| 0 <= j < k ==> before[j].position <= block.position,
        decreases siblings@.len() - k,
    {
        k = k + 1;
    }
    proof {
        lemma_stable_insert_at(before, block.deep_view(), k as int);
    }
    let ghost view = block.deep_view();
    siblings.insert(k, block);
    assert(siblings.deep_view() =~= before.insert(k as int, view));
}

/// Groups the blocks of a frame response by parent id, each group ordered by
/// position, blocks of equal position in the order the server lists them.
pub fn group_blocks(dto: &NativeFrameDto) -> (r: StringMap<Vec<NativeBlockModel>>)
    ensures
        r@ == children_view(frame_blocks(*dto)),
{
    let mut out: StringMap<Vec<NativeBlockModel>> = StringMap::new();
    let ghost blocks = frame_blocks(*dto);
    match &dto.blocks {
        None => {
            assert(blocks =~= Seq::<BlockView>::empty());
        },
        Some(list) => {
            let mut i: usize = 0;
            while i < list.len()
                invariant
                    i <= list@.len(),
                    blocks == list@.map_values(|d: NativeBlockDto| spec_block(d)),
                    out@ == children_view(blocks.take(i as int)),
                decreases list@.len() - i,
            {
                let model = map_block(&list[i]);
                let parent = model.parent_id.clone();
                let mut siblings: Vec<NativeBlockModel> = match out.get(parent.as_str()) {
                    Some(existing) => existing.duplicate(),
                    None => Vec::new(),
                };
                proof {
                    assert(blocks.take(i + 1).drop_last() =~= blocks.take(i as int));
                    assert(siblings.deep_view() =~= group_of(out@, parent@));
                }
                insert_by_position(&mut siblings, model);
                out.insert(parent, siblings);
                i = i + 1;
            }
            assert(blocks.take(list@.len() as int) =~= blocks);
        },
    }
    out
}

/// The triggers of an action response keyed by parent id, in list order.
pub open spec fn trigger_entries(dto: NativeActionDto) -> Seq<(Seq<char>, TriggerView)> {
    opt_items(dto.triggers).map_values(
        |d: NativeActionTriggerDto| (spec_trigger(d).parent_id, spec_trigger(d)),
    )
}

/// Groups the triggers of an action response by parent id, each group in the
/// order the server lists them.
pub fn group_triggers(dto: &NativeActionDto) -> (r: StringMap<Vec<NativeActionTriggerModel>>)
    ensures
        r@ == group_view(trigger_entries(*dto)),
{
    let mut out: StringMap<Vec<NativeActionTriggerModel>> = StringMap::new();
    let ghost entries = trigger_entries(*dto);
    match &dto.triggers {
        None => {
            assert(entries =~= Seq::<(Seq<char>, TriggerView)>::empty());
        },
        Some(list) => {
            let mut i: usize = 0;
            while i < list.len()
                invariant
                    i <= list@.len(),
                    entries == list@.map_values(
                        |d: NativeActionTriggerDto| (spec_trigger(d).parent_id, spec_trigger(d)),
                    ),
                    out@ == group_view(entries.take(i as int)),
                decreases list@.len() - i,
            {
                let model = map_trigger(&list[i]);
                let parent = model.parent_id.clone();
                let mut siblings: Vec<NativeActionTriggerModel> = match out.get(parent.as_str()) {
                    Some(existing) => existing.duplicate(),
                    None => Vec::new(),
                };
                siblings.push(model);
                proof {
                    assert(entries.take(i + 1).drop_last() =~= entries.take(i as int));
                    let prev = group_view(entries.take(i as int));
                    if prev.contains_key(parent@) {
                        assert(siblings.deep_view() =~= prev[parent@].push(entries[i as int].1));
                    } else {
                        assert(siblings.deep_view() =~= seq![entries[i as int].1]);
                    }
                }
                out.insert(parent, siblings);
                i = i + 1;
            }
            assert(entries.take(list@.len() as int) =~= entries);
        },
    }
    out
}

} // verus!
