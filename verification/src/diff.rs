use vstd::prelude::*;

use crate::collections::{lemma_to_map_dom, lemma_to_map_value, Duplicate, SameAs, StringMap};
use crate::model::{
    ActionView, BlockView, NativeActionModel, NativeBlockModel, NativeFrameModel,
    NativeVariableModel, TypedValueView,
};
use crate::state::{merge_variables, spec_merge, FrameState, FrameStateView};

verus! {

/// Everything a frame screen renders.
#[derive(Debug)]
pub struct FrameFull {
    pub state: FrameState,
    pub root_key: Option<String>,
    pub blocks: StringMap<NativeBlockModel>,
    pub variables: StringMap<NativeVariableModel>,
    pub actions: StringMap<Vec<NativeActionModel>>,
}

/// The variables and blocks one change touched.
#[derive(Debug)]
pub struct FrameDiff {
    pub variables: StringMap<NativeVariableModel>,
    pub blocks: StringMap<NativeBlockModel>,
}

pub struct DiffView {
    pub variables: Map<Seq<char>, TypedValueView>,
    pub blocks: Map<Seq<char>, BlockView>,
}

impl DeepView for FrameDiff {
    type V = DiffView;

    open spec fn deep_view(&self) -> DiffView {
        DiffView { variables: self.variables@, blocks: self.blocks@ }
    }
}

/// Whether a block shows a variable: one of its data entries has the
/// variable's key as value.
pub open spec fn block_uses(b: BlockView, variable_key: Seq<char>) -> bool {
    exists|k: Seq<char>| b.data.contains_key(k) && #[trigger] b.data[k].value == variable_key
}

/// The blocks, among the given entries, that show a variable, keyed by block key.
pub open spec fn spec_blocks_using(
    entries: Seq<(Seq<char>, BlockView)>,
    variable_key: Seq<char>,
) -> Map<Seq<char>, BlockView>
    decreases entries.len(),
{
    if entries.len() == 0 {
        Map::empty()
    } else {
        let earlier = spec_blocks_using(entries.drop_last(), variable_key);
        let b = entries.last().1;
        if block_uses(b, variable_key) {
            earlier.insert(b.key, b)
        } else {
            earlier
        }
    }
}

/// Every block among the entries that shows the variable is in the result,
/// under its own key; every block in the result shows the variable and is
/// one of the entries, stored under its own key.
pub proof fn law_blocks_using_keeps_every_user(
    entries: Seq<(Seq<char>, BlockView)>,
    variable_key: Seq<char>,
)
    ensures
        forall|i: int|
            0 <= i < entries.len() && block_uses(#[trigger] entries[i].1, variable_key)
                ==> spec_blocks_using(entries, variable_key).contains_key(entries[i].1.key),
        forall|k: Seq<char>| #[trigger]
            spec_blocks_using(entries, variable_key).contains_key(k) ==> exists|i: int|
                0 <= i < entries.len() && entries[i].1 == spec_blocks_using(entries, variable_key)[k]
                    && entries[i].1.key == k && block_uses(entries[i].1, variable_key),
    decreases entries.len(),
{
    if entries.len() > 0 {
        let rest = entries.drop_last();
        law_blocks_using_keeps_every_user(rest, variable_key);
        let m = spec_blocks_using(entries, variable_key);
        let n = entries.len() - 1;
        assert forall|i: int|
            0 <= i < entries.len() && block_uses(#[trigger] entries[i].1, variable_key)
                implies m.contains_key(entries[i].1.key) by {
            if i < n {
                assert(entries[i] == rest[i]);
            }
        }
        assert forall|k: Seq<char>| #[trigger] m.contains_key(k) implies exists|i: int|
            0 <= i < entries.len() && entries[i].1 == m[k] && entries[i].1.key == k && block_uses(
                entries[i].1,
                variable_key,
            ) by {
            let b = entries.last().1;
            if block_uses(b, variable_key) && k == b.key {
                assert(entries[n].1 == m[k]);
            } else {
                let earlier = spec_blocks_using(rest, variable_key);
                assert(earlier.contains_key(k) && earlier[k] == m[k]);
                let j = choose|j: int|
                    0 <= j < rest.len() && rest[j].1 == earlier[k] && rest[j].1.key == k
                        && block_uses(rest[j].1, variable_key);
                assert(entries[j] == rest[j]);
            }
        }
    }
}

/// What setting a variable changes: nothing when the variable is unknown or
/// already has the value; otherwise the variable with its new value (keeping
/// its type) and the blocks that show it.
pub open spec fn spec_variable_diff(
    variables: Map<Seq<char>, TypedValueView>,
    block_entries: Seq<(Seq<char>, BlockView)>,
    key: Seq<char>,
    value: Seq<char>,
) -> Option<DiffView> {
    if !variables.contains_key(key) || variables[key].value == value {
        None
    } else {
        Some(
            DiffView {
                variables: Map::empty().insert(
                    key,
                    TypedValueView { key, value, value_type: variables[key].value_type },
                ),
                blocks: spec_blocks_using(block_entries, key),
            },
        )
    }
}

/// What replacing a block changes: nothing when no block has its key or the
/// block there is the same; otherwise the new block.
pub open spec fn spec_block_diff(blocks: Map<Seq<char>, BlockView>, block: BlockView) -> Option<
    DiffView,
> {
    if !blocks.contains_key(block.key) || blocks[block.key] == block {
        None
    } else {
        Some(DiffView { variables: Map::empty(), blocks: Map::empty().insert(block.key, block) })
    }
}

/// The render state of a frame screen, updated change by change.
pub struct InternalState {
    pub frame: FrameFull,
}

fn uses_variable(block: &NativeBlockModel, variable_key: &str) -> (r: bool)
    ensures
        r == block_uses(block.deep_view(), variable_key@),
{
    proof {
        use_type_invariant(&block.data);
        block.data.lemma_wf();
    }
    let n = block.data.len();
    let mut i: usize = 0;
    while i < n
        invariant
            n == block.data.entries().len(),
            i <= n,
            crate::collections::distinct_keys(block.data.entries()),
            block.data@ == crate::collections::to_map(block.data.entries()),
            forall|j: int| 0 <= j < i ==> (#[trigger] block.data.entries()[j]).1.value != variable_key@,
        decreases n - i,
    {
        if crate::text::str_equal(block.data.value_at(i).value.as_str(), variable_key) {
            proof {
                lemma_to_map_value(block.data.entries(), i as int);
                let k = block.data.entries()[i as int].0;
                assert(block.data@.contains_key(k) && block.data@[k].value == variable_key@);
                assert(block.deep_view().data.contains_key(k) && block.deep_view().data[k].value
                    == variable_key@);
            }
            return true;
        }
        i = i + 1;
    }
    proof {
        assert forall|k: Seq<char>| block.data@.contains_key(k) implies #[trigger] block.data@[k].value
            != variable_key@ by {
            lemma_to_map_dom(block.data.entries(), k);
            let j = choose|j: int|
                0 <= j < block.data.entries().len() && block.data.entries()[j].0 == k;
            lemma_to_map_value(block.data.entries(), j);
        }
    }
    false
}

impl InternalState {
    pub fn fresh() -> (r: Self)
        ensures
            r.frame.state.deep_view() is Loading,
            r.frame.root_key is None,
            r.frame.blocks@ == Map::<Seq<char>, BlockView>::empty(),
            r.frame.variables@ == Map::<Seq<char>, TypedValueView>::empty(),
            r.frame.actions@ == Map::<Seq<char>, Seq<ActionView>>::empty(),
    {
        InternalState {
            frame: FrameFull {
                state: FrameState::Loading,
                root_key: None,
                blocks: StringMap::new(),
                variables: StringMap::new(),
                actions: StringMap::new(),
            },
        }
    }

    pub fn error(message: String) -> (r: Self)
        ensures
            r.frame.state.deep_view() == FrameStateView::Error(message@),
            r.frame.root_key is None,
            r.frame.blocks@ == Map::<Seq<char>, BlockView>::empty(),
            r.frame.variables@ == Map::<Seq<char>, TypedValueView>::empty(),
            r.frame.actions@ == Map::<Seq<char>, Seq<ActionView>>::empty(),
    {
        InternalState {
            frame: FrameFull {
                state: FrameState::Error { message },
                root_key: None,
                blocks: StringMap::new(),
                variables: StringMap::new(),
                actions: StringMap::new(),
            },
        }
    }

    pub fn ready(
        frame: &NativeFrameModel,
        args: &StringMap<String>,
        globals: &StringMap<String>,
    ) -> (r: Self)
        ensures
            r.frame.state.deep_view() is Ready,
            r.frame.root_key.deep_view() == frame.root_id.deep_view(),
            r.frame.blocks@ == frame.blocks@,
            r.frame.variables@ == spec_merge(frame.variables@, args.entries(), globals.entries()),
            r.frame.actions@ == frame.actions@,
    {
        InternalState {
            frame: FrameFull {
                state: FrameState::Ready,
                root_key: frame.root_id.duplicate(),
                blocks: frame.blocks.duplicate(),
                actions: frame.actions.duplicate(),
                variables: merge_variables(frame.variables.duplicate(), args, globals),
            },
        }
    }

    /// Sets a variable's value; returns what changed, if anything.
    pub fn change_variable(&mut self, key: &str, value: String) -> (r: Option<FrameDiff>)
        ensures
            r.deep_view() == spec_variable_diff(
                old(self).frame.variables@,
                old(self).frame.blocks.entries(),
                key@,
                value@,
            ),
            r is None ==> final(self).frame.variables@ == old(self).frame.variables@,
            r is Some ==> final(self).frame.variables@ == old(self).frame.variables@.insert(
                key@,
                TypedValueView {
                    key: key@,
                    value: value@,
                    value_type: old(self).frame.variables@[key@].value_type,
                },
            ),
            final(self).frame.blocks@ == old(self).frame.blocks@,
            final(self).frame.blocks.entries() == old(self).frame.blocks.entries(),
            final(self).frame.actions@ == old(self).frame.actions@,
            final(self).frame.state.deep_view() == old(self).frame.state.deep_view(),
            final(self).frame.root_key.deep_view() == old(self).frame.root_key.deep_view(),
            r matches Some(d) ==> forall|i: int|
                0 <= i < old(self).frame.blocks.entries().len() && block_uses(
                    #[trigger] old(self).frame.blocks.entries()[i].1,
                    key@,
                ) ==> d.blocks@.contains_key(old(self).frame.blocks.entries()[i].1.key),
    {
        proof {
            law_blocks_using_keeps_every_user(self.frame.blocks.entries(), key@);
        }
        let diff = self.variable_diff(key, value);
        match diff {
            None => None,
            Some(d) => {
                let updated = d.variables.get(key).unwrap().duplicate();
                self.frame.variables.insert(String::from_str(key), updated);
                Some(d)
            },
        }
    }

    /// Replaces a block by key; returns what changed, if anything.
    pub fn change_block(&mut self, block: &NativeBlockModel) -> (r: Option<FrameDiff>)
        ensures
            r.deep_view() == spec_block_diff(old(self).frame.blocks@, block.deep_view()),
            r is None ==> final(self).frame.blocks@ == old(self).frame.blocks@,
            r is Some ==> final(self).frame.blocks@ == old(self).frame.blocks@.insert(
                block.key@,
                block.deep_view(),
            ),
            final(self).frame.variables@ == old(self).frame.variables@,
            final(self).frame.actions@ == old(self).frame.actions@,
            final(self).frame.state.deep_view() == old(self).frame.state.deep_view(),
            final(self).frame.root_key.deep_view() == old(self).frame.root_key.deep_view(),
    {
        let diff = self.block_diff(block);
        match diff {
            None => None,
            Some(d) => {
                self.frame.blocks.insert(block.key.clone(), block.duplicate());
                Some(d)
            },
        }
    }

    fn variable_diff(&self, key: &str, value: String) -> (r: Option<FrameDiff>)
        ensures
            r.deep_view() == spec_variable_diff(
                self.frame.variables@,
                self.frame.blocks.entries(),
                key@,
                value@,
            ),
    {
        let existing = match self.frame.variables.get(key) {
            Some(v) => v,
            None => {
                return None;
            },
        };
        if existing.value == value {
            return None;
        }
        let updated = NativeVariableModel {
            key: String::from_str(key),
            value,
            value_type: existing.value_type.clone(),
        };
        let mut variables: StringMap<NativeVariableModel> = StringMap::new();
        variables.insert(String::from_str(key), updated);
        Some(FrameDiff { variables, blocks: self.blocks_using(key) })
    }

    fn blocks_using(&self, variable_key: &str) -> (r: StringMap<NativeBlockModel>)
        ensures
            r@ == spec_blocks_using(self.frame.blocks.entries(), variable_key@),
            forall|i: int|
                0 <= i < self.frame.blocks.entries().len() && block_uses(
                    #[trigger] self.frame.blocks.entries()[i].1,
                    variable_key@,
                ) ==> r@.contains_key(self.frame.blocks.entries()[i].1.key),
    {
        let mut out: StringMap<NativeBlockModel> = StringMap::new();
        let n = self.frame.blocks.len();
        let mut i: usize = 0;
        while i < n
            invariant
                n == self.frame.blocks.entries().len(),
                i <= n,
                out@ == spec_blocks_using(self.frame.blocks.entries().take(i as int), variable_key@),
            decreases n - i,
        {
            let block = self.frame.blocks.value_at(i);
            proof {
                assert(self.frame.blocks.entries().take(i + 1).drop_last()
                    =~= self.frame.blocks.entries().take(i as int));
            }
            if uses_variable(block, variable_key) {
                out.insert(block.key.clone(), block.duplicate());
            }
            i = i + 1;
        }
        assert(self.frame.blocks.entries().take(n as int) =~= self.frame.blocks.entries());
        proof {
            law_blocks_using_keeps_every_user(self.frame.blocks.entries(), variable_key@);
        }
        out
    }

    fn block_diff(&self, block: &NativeBlockModel) -> (r: Option<FrameDiff>)
        ensures
            r.deep_view() == spec_block_diff(self.frame.blocks@, block.deep_view()),
    {
        match self.frame.blocks.get(block.key.as_str()) {
            None => {
                return None;
            },
            Some(existing) => {
                if existing.same_as(block) {
                    return None;
                }
            },
        }
        let mut blocks: StringMap<NativeBlockModel> = StringMap::new();
        blocks.insert(block.key.clone(), block.duplicate());
        Some(FrameDiff { variables: StringMap::new(), blocks })
    }
}

/// Setting a block twice changes nothing the second time.
pub proof fn law_block_change_idempotent(blocks: Map<Seq<char>, BlockView>, block: BlockView)
    ensures
        spec_block_diff(blocks.insert(block.key, block), block) is None,
{
}

/// Setting a variable to the value it was just given changes nothing.
pub proof fn law_variable_change_idempotent(
    variables: Map<Seq<char>, TypedValueView>,
    block_entries: Seq<(Seq<char>, BlockView)>,
    key: Seq<char>,
    value: Seq<char>,
)
    requires
        spec_variable_diff(variables, block_entries, key, value) is Some,
    ensures
        spec_variable_diff(
            variables.insert(
                key,
                TypedValueView { key, value, value_type: variables[key].value_type },
            ),
            block_entries,
            key,
            value,
        ) is None,
{
}

} // verus!
