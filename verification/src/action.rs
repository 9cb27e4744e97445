use vstd::prelude::*;

use crate::collections::{Duplicate, StringMap};
use crate::model::{
    ActionView, BlockView, NativeActionModel, NativeActionTriggerModel, NativeActionTriggerThen,
    NativeBlockModel, NativeVariableModel, TriggerView, TypedValueView,
};
use crate::text::{contains_text, str_equal};

verus! {

/// keyType of the built-in scripting action, executed in core.
pub const SCRIPT_KEY_TYPE: &'static str = "SCRIPT";

/// What a host action handler is given: the trigger, and whole snapshots of
/// the variables and blocks so that it can read them at once.
#[derive(Debug)]
pub struct ActionContext {
    pub instance_name: String,
    pub list_item_index: i32,
    pub key_type: String,
    pub trigger: NativeActionTriggerModel,
    pub variables: StringMap<NativeVariableModel>,
    pub blocks: StringMap<NativeBlockModel>,
}

/// What a host action handler returns: the branch of child triggers to run
/// next, and the variables and blocks to change before that.
#[derive(Debug)]
pub struct ActionResult {
    pub branch: NativeActionTriggerThen,
    pub variable_changes: Vec<NativeVariableModel>,
    pub block_changes: Vec<NativeBlockModel>,
}

impl ActionResult {
    /// Continue with the NEXT branch, changing nothing.
    pub fn next() -> (r: Self)
        ensures
            r.branch == NativeActionTriggerThen::Next,
            r.variable_changes@.len() == 0,
            r.block_changes@.len() == 0,
    {
        ActionResult {
            branch: NativeActionTriggerThen::Next,
            variable_changes: Vec::new(),
            block_changes: Vec::new(),
        }
    }
}

/// The result a trigger goes on with: the one its handler gave, or, when no
/// handler ran (no handler is registered for its key type), NEXT with no
/// changes.
pub fn result_or_next(handled: Option<ActionResult>) -> (r: ActionResult)
    ensures
        handled matches Some(x) ==> r == x,
        handled is None ==> r.branch == NativeActionTriggerThen::Next && r.variable_changes@.len()
            == 0 && r.block_changes@.len() == 0,
{
    match handled {
        Some(result) => result,
        None => ActionResult::next(),
    }
}

/// A host-implemented action (navigation, dialog, network, custom). The
/// engine resolves a trigger's key type to a registered handler; the result
/// drives the rest of the trigger graph.
pub trait NativeActionHandler {
    fn handle(&self, context: ActionContext) -> ActionResult;
}

/// The triggers of `triggers` that satisfy `keep`, in order.
pub open spec fn select(triggers: Seq<TriggerView>, keep: spec_fn(TriggerView) -> bool) -> Seq<
    TriggerView,
>
    decreases triggers.len(),
{
    if triggers.len() == 0 {
        Seq::empty()
    } else {
        let earlier = select(triggers.drop_last(), keep);
        if keep(triggers.last()) {
            earlier.push(triggers.last())
        } else {
            earlier
        }
    }
}

/// A trigger the action starts with: one without a parent.
pub open spec fn is_root(t: TriggerView) -> bool {
    t.parent_id.len() == 0
}

/// A trigger that runs after `parent` returned `branch`.
pub open spec fn is_child(t: TriggerView, parent: Seq<char>, branch: NativeActionTriggerThen) -> bool {
    t.parent_id == parent && t.branch == branch
}

/// The triggers an action starts with when an event happens: none when the
/// event is not the action's event, its parentless triggers otherwise.
pub open spec fn spec_start_triggers(action: ActionView, event: Seq<char>) -> Seq<TriggerView> {
    if action.event != event {
        Seq::empty()
    } else {
        select(action.triggers, |t: TriggerView| is_root(t))
    }
}

fn select_triggers(
    triggers: &Vec<NativeActionTriggerModel>,
    parent: &str,
    branch: Option<NativeActionTriggerThen>,
) -> (r: Vec<NativeActionTriggerModel>)
    ensures
        r.deep_view() == match branch {
            None => select(triggers.deep_view(), |t: TriggerView| is_root(t)),
            Some(b) => select(triggers.deep_view(), |t: TriggerView| is_child(t, parent@, b)),
        },
{
    let ghost keep = match branch {
        None => |t: TriggerView| is_root(t),
        Some(b) => |t: TriggerView| is_child(t, parent@, b),
    };
    let mut out: Vec<NativeActionTriggerModel> = Vec::new();
    let mut i: usize = 0;
    while i < triggers.len()
        invariant
            i <= triggers@.len(),
            keep == (match branch {
                None => |t: TriggerView| is_root(t),
                Some(b) => |t: TriggerView| is_child(t, parent@, b),
            }),
            out.deep_view() == select(triggers.deep_view().take(i as int), keep),
        decreases triggers@.len() - i,
    {
        let t = &triggers[i];
        let keep_it = match branch {
            None => t.parent_id.as_str().is_empty(),
            Some(b) => str_equal(t.parent_id.as_str(), parent) && t.branch == b,
        };
        proof {
            assert(triggers.deep_view().take(i + 1).drop_last() =~= triggers.deep_view().take(
                i as int,
            ));
            assert(triggers.deep_view().take(i + 1).last() == t.deep_view());
        }
        let ghost before = out.deep_view();
        if keep_it {
            out.push(t.duplicate());
            assert(out.deep_view() =~= before.push(t.deep_view()));
        }
        i = i + 1;
    }
    assert(triggers.deep_view().take(triggers@.len() as int) =~= triggers.deep_view());
    out
}

/// The triggers to run first when `performed_event` happens on a block with
/// `action`.
pub fn start_triggers(action: &NativeActionModel, performed_event: &str) -> (r: Vec<
    NativeActionTriggerModel,
>)
    ensures
        r.deep_view() == spec_start_triggers(action.deep_view(), performed_event@),
{
    if !str_equal(action.event.as_str(), performed_event) {
        return Vec::new();
    }
    select_triggers(&action.triggers, "", None)
}

/// The triggers to run after `parent` returned `branch`: its children on that
/// branch, in order.
pub fn next_triggers(
    action: &NativeActionModel,
    parent: &NativeActionTriggerModel,
    branch: NativeActionTriggerThen,
) -> (r: Vec<NativeActionTriggerModel>)
    ensures
        r.deep_view() == select(
            action.deep_view().triggers,
            |t: TriggerView| is_child(t, parent.id@, branch),
        ),
{
    select_triggers(&action.triggers, parent.id.as_str(), Some(branch))
}

/// The triggers of an action still to run, depth first: the children a
/// trigger's result selects run, in order, before the triggers that were
/// waiting after it.
pub struct TriggerQueue {
    stack: Vec<NativeActionTriggerModel>,
}

impl View for TriggerQueue {
    type V = Seq<TriggerView>;

    /// The triggers in the order they will run.
    closed spec fn view(&self) -> Seq<TriggerView> {
        let s = self.stack.deep_view();
        Seq::new(s.len(), |i: int| s[s.len() - 1 - i])
    }
}

impl TriggerQueue {
    /// The queue that puts `triggers`, in order, before what is queued.
    fn push_front(&mut self, triggers: Vec<NativeActionTriggerModel>)
        ensures
            final(self)@ == triggers.deep_view() + old(self)@,
    {
        let ghost items = triggers.deep_view();
        let mut j: usize = triggers.len();
        while j > 0
            invariant
                j <= triggers@.len(),
                items == triggers.deep_view(),
                self@ == items.subrange(j as int, items.len() as int) + old(self)@,
            decreases j,
        {
            let ghost before = self@;
            let ghost before_stack = self.stack.deep_view();
            self.stack.push(triggers[j - 1].duplicate());
            proof {
                assert(self.stack.deep_view() =~= before_stack.push(items[j - 1]));
                assert(self@ =~= seq![items[j - 1]] + before);
                assert(items.subrange(j - 1, items.len() as int) =~= seq![items[j - 1]]
                    + items.subrange(j as int, items.len() as int));
            }
            j = j - 1;
        }
        assert(items.subrange(0, items.len() as int) =~= items);
    }

    /// The triggers `performed_event` starts on a block with `action`.
    pub fn start(action: &NativeActionModel, performed_event: &str) -> (r: Self)
        ensures
            r@ == spec_start_triggers(action.deep_view(), performed_event@),
    {
        let mut queue = TriggerQueue { stack: Vec::new() };
        assert(queue@ =~= Seq::<TriggerView>::empty());
        let first = start_triggers(action, performed_event);
        queue.push_front(first);
        assert(queue@ =~= spec_start_triggers(action.deep_view(), performed_event@));
        queue
    }

    /// Takes the trigger to run next, if any.
    pub fn next(&mut self) -> (r: Option<NativeActionTriggerModel>)
        ensures
            old(self)@.len() == 0 ==> r is None && final(self)@ == old(self)@,
            old(self)@.len() > 0 ==> (r matches Some(t) && t.deep_view() == old(self)@[0]
                && final(self)@ == old(self)@.drop_first()),
    {
        let ghost before = self.stack.deep_view();
        let r = self.stack.pop();
        proof {
            if before.len() > 0 {
                assert(self.stack.deep_view() =~= before.drop_last());
                assert(self@ =~= old(self)@.drop_first());
            }
        }
        r
    }

    /// Queues the children that `branch` selects under `parent` to run next.
    pub fn push_children(
        &mut self,
        action: &NativeActionModel,
        parent: &NativeActionTriggerModel,
        branch: NativeActionTriggerThen,
    )
        ensures
            final(self)@ == select(
                action.deep_view().triggers,
                |t: TriggerView| is_child(t, parent.id@, branch),
            ) + old(self)@,
    {
        let children = next_triggers(action, parent, branch);
        self.push_front(children);
    }
}

/// How the engine runs a trigger.
#[derive(Debug, Clone, Copy, PartialEq, Eq, Structural)]
pub enum TriggerRoute {
    /// The built-in scripting action, run in core.
    Script,
    /// A handler registered by the host for the key type.
    Handler,
    /// No handler: the trigger continues with NEXT and changes nothing.
    Fallback,
}

/// How a trigger of a key type runs, given the key types with a handler.
pub open spec fn spec_route(key_type: Seq<char>, registered: Seq<Seq<char>>) -> TriggerRoute {
    if key_type == SCRIPT_KEY_TYPE@ {
        TriggerRoute::Script
    } else if registered.contains(key_type) {
        TriggerRoute::Handler
    } else {
        TriggerRoute::Fallback
    }
}

pub fn route_trigger(key_type: &str, registered: &Vec<String>) -> (r: TriggerRoute)
    ensures
        r == spec_route(key_type@, registered.deep_view()),
{
    if str_equal(key_type, SCRIPT_KEY_TYPE) {
        return TriggerRoute::Script;
    }
    if contains_text(registered, key_type) {
        TriggerRoute::Handler
    } else {
        TriggerRoute::Fallback
    }
}

/// The variables after applying each change in order.
pub open spec fn apply_variable_changes(
    variables: Map<Seq<char>, TypedValueView>,
    changes: Seq<TypedValueView>,
) -> Map<Seq<char>, TypedValueView>
    decreases changes.len(),
{
    if changes.len() == 0 {
        variables
    } else {
        apply_variable_changes(variables, changes.drop_last()).insert(
            changes.last().key,
            changes.last(),
        )
    }
}

/// The blocks after applying each change in order.
pub open spec fn apply_block_changes(
    blocks: Map<Seq<char>, BlockView>,
    changes: Seq<BlockView>,
) -> Map<Seq<char>, BlockView>
    decreases changes.len(),
{
    if changes.len() == 0 {
        blocks
    } else {
        apply_block_changes(blocks, changes.drop_last()).insert(changes.last().key, changes.last())
    }
}

/// After applying block changes, every changed block is stored under its
/// own key, holding the last change with that key; a key no change has keeps
/// the block it had.
pub proof fn law_block_changes_stored_by_key(blocks: Map<Seq<char>, BlockView>, changes: Seq<BlockView>)
    ensures
        forall|i: int|
            0 <= i < changes.len() ==> apply_block_changes(blocks, changes).contains_key(
                #[trigger] changes[i].key,
            ),
        forall|i: int|
            0 <= i < changes.len() && (forall|j: int| i < j < changes.len() ==> changes[j].key
                != changes[i].key) ==> apply_block_changes(blocks, changes)[#[trigger] changes[i].key]
                == changes[i],
        forall|k: Seq<char>|
            (forall|i: int| 0 <= i < changes.len() ==> changes[i].key != k) ==> #[trigger] apply_block_changes(
                blocks,
                changes,
            ).get(k) == blocks.get(k),
    decreases changes.len(),
{
    if changes.len() > 0 {
        let rest = changes.drop_last();
        let n = changes.len() - 1;
        law_block_changes_stored_by_key(blocks, rest);
        let m = apply_block_changes(blocks, changes);
        assert forall|i: int| 0 <= i < changes.len() implies m.contains_key(#[trigger] changes[i].key) by {
            if i < n {
                assert(changes[i] == rest[i]);
            }
        }
        assert forall|i: int|
            0 <= i < changes.len() && (forall|j: int| i < j < changes.len() ==> changes[j].key
                != changes[i].key) implies m[#[trigger] changes[i].key] == changes[i] by {
            if i < n {
                assert(changes[i] == rest[i]);
                assert(changes[n].key != changes[i].key);
                assert forall|j: int| i < j < rest.len() implies rest[j].key != rest[i].key by {
                    assert(rest[j] == changes[j]);
                }
            }
        }
        assert forall|k: Seq<char>|
            (forall|i: int| 0 <= i < changes.len() ==> changes[i].key != k) implies #[trigger] m.get(k)
                == blocks.get(k) by {
            assert(changes[n].key != k);
            assert forall|i: int| 0 <= i < rest.len() implies rest[i].key != k by {
                assert(rest[i] == changes[i]);
            }
            let earlier = apply_block_changes(blocks, rest);
            assert(earlier.get(k) == blocks.get(k));
            assert(m.dom().contains(k) == earlier.dom().contains(k));
            if earlier.dom().contains(k) {
                assert(m[k] == earlier[k]);
            }
        }
    }
}

/// After applying variable changes, every changed variable is stored under
/// its own key, holding the last change with that key; a key no change has
/// keeps the variable it had.
pub proof fn law_variable_changes_stored_by_key(
    variables: Map<Seq<char>, TypedValueView>,
    changes: Seq<TypedValueView>,
)
    ensures
        forall|i: int|
            0 <= i < changes.len() ==> apply_variable_changes(variables, changes).contains_key(
                #[trigger] changes[i].key,
            ),
        forall|i: int|
            0 <= i < changes.len() && (forall|j: int| i < j < changes.len() ==> changes[j].key
                != changes[i].key) ==> apply_variable_changes(variables, changes)[#[trigger] changes[i].key]
                == changes[i],
        forall|k: Seq<char>|
            (forall|i: int| 0 <= i < changes.len() ==> changes[i].key != k) ==> #[trigger] apply_variable_changes(
                variables,
                changes,
            ).get(k) == variables.get(k),
    decreases changes.len(),
{
    if changes.len() > 0 {
        let rest = changes.drop_last();
        let n = changes.len() - 1;
        law_variable_changes_stored_by_key(variables, rest);
        let m = apply_variable_changes(variables, changes);
        assert forall|i: int| 0 <= i < changes.len() implies m.contains_key(#[trigger] changes[i].key) by {
            if i < n {
                assert(changes[i] == rest[i]);
            }
        }
        assert forall|i: int|
            0 <= i < changes.len() && (forall|j: int| i < j < changes.len() ==> changes[j].key
                != changes[i].key) implies m[#[trigger] changes[i].key] == changes[i] by {
            if i < n {
                assert(changes[i] == rest[i]);
                assert(changes[n].key != changes[i].key);
                assert forall|j: int| i < j < rest.len() implies rest[j].key != rest[i].key by {
                    assert(rest[j] == changes[j]);
                }
            }
        }
        assert forall|k: Seq<char>|
            (forall|i: int| 0 <= i < changes.len() ==> changes[i].key != k) implies #[trigger] m.get(k)
                == variables.get(k) by {
            assert(changes[n].key != k);
            assert forall|i: int| 0 <= i < rest.len() implies rest[i].key != k by {
                assert(rest[i] == changes[i]);
            }
            let earlier = apply_variable_changes(variables, rest);
            assert(earlier.get(k) == variables.get(k));
            assert(m.dom().contains(k) == earlier.dom().contains(k));
            if earlier.dom().contains(k) {
                assert(m[k] == earlier[k]);
            }
        }
    }
}

pub fn apply_result(
    result: &ActionResult,
    variables: &mut StringMap<NativeVariableModel>,
    blocks: &mut StringMap<NativeBlockModel>,
)
    ensures
        final(variables)@ == apply_variable_changes(
            old(variables)@,
            result.variable_changes.deep_view(),
        ),
        final(blocks)@ == apply_block_changes(old(blocks)@, result.block_changes.deep_view()),
        forall|i: int|
            0 <= i < result.block_changes.deep_view().len() ==> final(blocks)@.contains_key(
                #[trigger] result.block_changes.deep_view()[i].key,
            ),
        forall|i: int|
            0 <= i < result.block_changes.deep_view().len() && (forall|j: int|
                i < j < result.block_changes.deep_view().len() ==> result.block_changes.deep_view()[j].key
                    != result.block_changes.deep_view()[i].key) ==> final(blocks)@[#[trigger] result.block_changes.deep_view()[i].key]
                == result.block_changes.deep_view()[i],
        forall|i: int|
            0 <= i < result.variable_changes.deep_view().len() ==> final(variables)@.contains_key(
                #[trigger] result.variable_changes.deep_view()[i].key,
            ),
        forall|i: int|
            0 <= i < result.variable_changes.deep_view().len() && (forall|j: int|
                i < j < result.variable_changes.deep_view().len() ==> result.variable_changes.deep_view()[j].key
                    != result.variable_changes.deep_view()[i].key) ==> final(variables)@[#[trigger] result.variable_changes.deep_view()[i].key]
                == result.variable_changes.deep_view()[i],
{
    let mut i: usize = 0;
    while i < result.variable_changes.len()
        invariant
            i <= result.variable_changes@.len(),
            variables@ == apply_variable_changes(
                old(variables)@,
                result.variable_changes.deep_view().take(i as int),
            ),
        decreases result.variable_changes@.len() - i,
    {
        let v = &result.variable_changes[i];
        variables.insert(v.key.clone(), v.duplicate());
        assert(result.variable_changes.deep_view().take(i + 1).drop_last()
            =~= result.variable_changes.deep_view().take(i as int));
        i = i + 1;
    }
    assert(result.variable_changes.deep_view().take(result.variable_changes@.len() as int)
        =~= result.variable_changes.deep_view());
    let mut j: usize = 0;
    while j < result.block_changes.len()
        invariant
            j <= result.block_changes@.len(),
            blocks@ == apply_block_changes(
                old(blocks)@,
                result.block_changes.deep_view().take(j as int),
            ),
        decreases result.block_changes@.len() - j,
    {
        let b = &result.block_changes[j];
        blocks.insert(b.key.clone(), b.duplicate());
        assert(result.block_changes.deep_view().take(j + 1).drop_last()
            =~= result.block_changes.deep_view().take(j as int));
        j = j + 1;
    }
    assert(result.block_changes.deep_view().take(result.block_changes@.len() as int)
        =~= result.block_changes.deep_view());
    proof {
        law_block_changes_stored_by_key(old(blocks)@, result.block_changes.deep_view());
        law_variable_changes_stored_by_key(old(variables)@, result.variable_changes.deep_view());
    }
}

/// Every trigger that runs after a parent's result belongs to that parent and
/// to the branch the result chose; a trigger on another branch never runs.
pub proof fn law_children_follow_branch(
    triggers: Seq<TriggerView>,
    parent: Seq<char>,
    branch: NativeActionTriggerThen,
    i: int,
)
    requires
        0 <= i < select(triggers, |t: TriggerView| is_child(t, parent, branch)).len(),
    ensures
        select(triggers, |t: TriggerView| is_child(t, parent, branch))[i].parent_id == parent,
        select(triggers, |t: TriggerView| is_child(t, parent, branch))[i].branch == branch,
    decreases triggers.len(),
{
    let keep = |t: TriggerView| is_child(t, parent, branch);
    let earlier = select(triggers.drop_last(), keep);
    if i < earlier.len() {
        law_children_follow_branch(triggers.drop_last(), parent, branch, i);
    }
}

/// Every trigger that belongs to the parent and to the branch its result
/// chose runs: none of them is left out.
pub proof fn law_every_child_on_branch_runs(
    triggers: Seq<TriggerView>,
    parent: Seq<char>,
    branch: NativeActionTriggerThen,
)
    ensures
        forall|i: int|
            0 <= i < triggers.len() && (#[trigger] triggers[i]).parent_id == parent
                && triggers[i].branch == branch ==> select(
                triggers,
                |t: TriggerView| is_child(t, parent, branch),
            ).contains(triggers[i]),
        forall|t: TriggerView|
            select(triggers, |t: TriggerView| is_child(t, parent, branch)).contains(t) ==> (
            t.parent_id == parent && t.branch == branch && triggers.contains(t)),
    decreases triggers.len(),
{
    lemma_select_exactly(triggers, |t: TriggerView| is_child(t, parent, branch));
}

/// When the action's own event happens, every trigger without a parent
/// starts, and only those.
pub proof fn law_every_root_trigger_starts(action: ActionView)
    ensures
        forall|i: int|
            0 <= i < action.triggers.len() && (#[trigger] action.triggers[i]).parent_id.len() == 0
                ==> spec_start_triggers(action, action.event).contains(action.triggers[i]),
        forall|t: TriggerView|
            spec_start_triggers(action, action.event).contains(t) ==> t.parent_id.len() == 0
                && action.triggers.contains(t),
{
    lemma_select_exactly(action.triggers, |t: TriggerView| is_root(t));
}

proof fn lemma_select_exactly(triggers: Seq<TriggerView>, keep: spec_fn(TriggerView) -> bool)
    ensures
        forall|i: int|
            0 <= i < triggers.len() && keep(#[trigger] triggers[i]) ==> select(triggers, keep).contains(
                triggers[i],
            ),
        forall|t: TriggerView| #[trigger] select(triggers, keep).contains(t) ==> keep(t) && triggers.contains(t),
    decreases triggers.len(),
{
    if triggers.len() > 0 {
        let rest = triggers.drop_last();
        lemma_select_exactly(rest, keep);
        let earlier = select(rest, keep);
        let n = triggers.len() - 1;
        let out = select(triggers, keep);
        assert forall|i: int| 0 <= i < triggers.len() && keep(#[trigger] triggers[i]) implies out.contains(
            triggers[i],
        ) by {
            if i < n {
                assert(triggers[i] == rest[i]);
                assert(earlier.contains(triggers[i]));
                let j = choose|j: int| 0 <= j < earlier.len() && earlier[j] == triggers[i];
                if keep(triggers.last()) {
                    assert(out[j] == earlier[j]);
                }
            } else {
                assert(out[out.len() - 1] == triggers[n]);
            }
        }
        assert forall|t: TriggerView| out.contains(t) implies keep(t) && triggers.contains(t) by {
            let j = choose|j: int| 0 <= j < out.len() && out[j] == t;
            if j < earlier.len() {
                assert(out[j] == earlier[j]);
                assert(earlier[j] == t);
                assert(earlier.contains(t));
                assert(keep(t) && rest.contains(t));
                let k = choose|k: int| 0 <= k < rest.len() && rest[k] == t;
                assert(triggers[k] == rest[k]);
            } else {
                assert(keep(triggers.last()));
                assert(out == earlier.push(triggers.last()));
                assert(t == triggers[n]);
            }
        }
    }
}

/// How a trigger runs, by its key type: the SCRIPT key type runs the script
/// in core, a key type with a registered handler runs that handler, and any
/// other goes on with NEXT.
pub proof fn law_route_table(key_type: Seq<char>, registered: Seq<Seq<char>>)
    ensures
        key_type == SCRIPT_KEY_TYPE@ ==> spec_route(key_type, registered) == TriggerRoute::Script,
        key_type != SCRIPT_KEY_TYPE@ && registered.contains(key_type) ==> spec_route(key_type, registered)
            == TriggerRoute::Handler,
        key_type != SCRIPT_KEY_TYPE@ && !registered.contains(key_type) ==> spec_route(
            key_type,
            registered,
        ) == TriggerRoute::Fallback,
{
}

/// An event other than the action's own starts no trigger.
pub proof fn law_event_mismatch_runs_nothing(action: ActionView, event: Seq<char>)
    requires
        action.event != event,
    ensures
        spec_start_triggers(action, event).len() == 0,
{
}

} // verus!
