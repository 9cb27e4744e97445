use vstd::prelude::*;

use crate::collections::{distinct_keys, has_key, to_map, lemma_to_map_dom, lemma_to_map_value, Duplicate, StringMap};
use crate::error::{ErrorModel, ErrorType};
use crate::model::{
    ActionView, BlockView, FrameView, NativeActionModel, NativeBlockModel, NativeFrameModel,
    NativeVariableModel, TypedValueView,
};

verus! {

pub const VARIABLE_TYPE_STRING: &'static str = "STRING";

/// The rendering state of a frame.
#[derive(Debug)]
pub enum FrameState {
    Loading,
    Ready,
    Error { message: String },
}

/// The content of a rendering state.
pub enum FrameStateView {
    Loading,
    Ready,
    Error(Seq<char>),
}

impl DeepView for FrameState {
    type V = FrameStateView;

    open spec fn deep_view(&self) -> FrameStateView {
        match self {
            FrameState::Loading => FrameStateView::Loading,
            FrameState::Ready => FrameStateView::Ready,
            FrameState::Error { message } => FrameStateView::Error(message@),
        }
    }
}

impl Duplicate for FrameState {
    fn duplicate(&self) -> (r: Self) {
        match self {
            FrameState::Loading => FrameState::Loading,
            FrameState::Ready => FrameState::Ready,
            FrameState::Error { message } => FrameState::Error { message: message.clone() },
        }
    }
}

/// Everything an observer of a frame sees at once.
#[derive(Debug)]
pub struct FrameSnapshot {
    pub state: FrameState,
    pub blocks: StringMap<NativeBlockModel>,
    pub variables: StringMap<NativeVariableModel>,
    pub actions: StringMap<Vec<NativeActionModel>>,
}

pub struct SnapshotView {
    pub state: FrameStateView,
    pub blocks: Map<Seq<char>, BlockView>,
    pub variables: Map<Seq<char>, TypedValueView>,
    pub actions: Map<Seq<char>, Seq<ActionView>>,
}

impl DeepView for FrameSnapshot {
    type V = SnapshotView;

    open spec fn deep_view(&self) -> SnapshotView {
        SnapshotView {
            state: self.state.deep_view(),
            blocks: self.blocks@,
            variables: self.variables@,
            actions: self.actions@,
        }
    }
}

/// What an observer of a frame screen is told.
pub trait FrameStateObserver {
    fn on_frame_changed(&self, snapshot: FrameSnapshot);
}

/// A route argument or global parameter as a frame variable: always a string.
pub open spec fn string_variable(key: Seq<char>, value: Seq<char>) -> TypedValueView {
    TypedValueView { key, value, value_type: VARIABLE_TYPE_STRING@ }
}

/// The variables after setting each pair, in order, as a string variable.
pub open spec fn set_strings(
    variables: Map<Seq<char>, TypedValueView>,
    pairs: Seq<(Seq<char>, Seq<char>)>,
) -> Map<Seq<char>, TypedValueView>
    decreases pairs.len(),
{
    if pairs.len() == 0 {
        variables
    } else {
        set_strings(variables, pairs.drop_last()).insert(
            pairs.last().0,
            string_variable(pairs.last().0, pairs.last().1),
        )
    }
}

/// The variables of a frame with the route arguments and then the global
/// parameters written over them.
pub open spec fn spec_merge(
    variables: Map<Seq<char>, TypedValueView>,
    args: Seq<(Seq<char>, Seq<char>)>,
    globals: Seq<(Seq<char>, Seq<char>)>,
) -> Map<Seq<char>, TypedValueView> {
    set_strings(set_strings(variables, args), globals)
}

fn set_all(variables: &mut StringMap<NativeVariableModel>, pairs: &StringMap<String>)
    ensures
        final(variables)@ == set_strings(old(variables)@, pairs.entries()),
{
    let n = pairs.len();
    let mut i: usize = 0;
    while i < n
        invariant
            n == pairs.entries().len(),
            i <= n,
            variables@ == set_strings(old(variables)@, pairs.entries().take(i as int)),
        decreases n - i,
    {
        let key = pairs.key_at(i);
        let value = pairs.value_at(i);
        let variable = NativeVariableModel {
            key: key.clone(),
            value: value.clone(),
            value_type: String::from_str(VARIABLE_TYPE_STRING),
        };
        variables.insert(key.clone(), variable);
        assert(pairs.entries().take(i + 1).drop_last() =~= pairs.entries().take(i as int));
        i = i + 1;
    }
    assert(pairs.entries().take(n as int) =~= pairs.entries());
}

pub fn merge_variables(
    variables: StringMap<NativeVariableModel>,
    args: &StringMap<String>,
    globals: &StringMap<String>,
) -> (r: StringMap<NativeVariableModel>)
    ensures
        r@ == spec_merge(variables@, args.entries(), globals.entries()),
{
    let mut variables = variables;
    set_all(&mut variables, args);
    set_all(&mut variables, globals);
    variables
}

proof fn lemma_set_strings(
    variables: Map<Seq<char>, TypedValueView>,
    pairs: Seq<(Seq<char>, Seq<char>)>,
    k: Seq<char>,
)
    requires
        distinct_keys(pairs),
    ensures
        has_key(pairs, k) ==> set_strings(variables, pairs).contains_key(k) && set_strings(
            variables,
            pairs,
        )[k] == string_variable(k, to_map(pairs)[k]),
        !has_key(pairs, k) ==> set_strings(variables, pairs).contains_key(k)
            == variables.contains_key(k) && set_strings(variables, pairs)[k] == variables[k],
    decreases pairs.len(),
{
    if pairs.len() > 0 {
        let rest = pairs.drop_last();
        assert(distinct_keys(rest));
        lemma_set_strings(variables, rest, k);
        lemma_to_map_dom(rest, k);
        if k == pairs.last().0 {
            lemma_to_map_value(pairs, pairs.len() - 1);
        } else {
            if has_key(pairs, k) {
                let i = choose|i: int| 0 <= i < pairs.len() && pairs[i].0 == k;
                assert(rest[i].0 == k);
                lemma_to_map_value(pairs, i);
                lemma_to_map_value(rest, i);
            }
            if has_key(rest, k) {
                let i = choose|i: int| 0 <= i < rest.len() && rest[i].0 == k;
                assert(pairs[i].0 == k);
            }
        }
    }
}

/// A frame's variables, overridden: a global parameter wins over a route
/// argument of the same key, which wins over the frame's own variable; keys
/// that neither sets keep the frame's variable.
pub proof fn law_merge_precedence(
    variables: Map<Seq<char>, TypedValueView>,
    args: StringMap<String>,
    globals: StringMap<String>,
    k: Seq<char>,
)
    requires
        args.keys_are_distinct(),
        globals.keys_are_distinct(),
    ensures
        globals@.contains_key(k) ==> spec_merge(variables, args.entries(), globals.entries())[k]
            == string_variable(k, globals@[k]),
        !globals@.contains_key(k) && args@.contains_key(k) ==> spec_merge(
            variables,
            args.entries(),
            globals.entries(),
        )[k] == string_variable(k, args@[k]),
        !globals@.contains_key(k) && !args@.contains_key(k) ==> spec_merge(
            variables,
            args.entries(),
            globals.entries(),
        ).contains_key(k) == variables.contains_key(k) && spec_merge(
            variables,
            args.entries(),
            globals.entries(),
        )[k] == variables[k],
{
    lemma_to_map_dom(args.entries(), k);
    lemma_to_map_dom(globals.entries(), k);
    lemma_set_strings(variables, args.entries(), k);
    lemma_set_strings(set_strings(variables, args.entries()), globals.entries(), k);
}

struct State {
    frame_state: FrameState,
    frame: Option<NativeFrameModel>,
    variables: StringMap<NativeVariableModel>,
}

/// The content of the state a frame manager keeps.
pub struct ManagerView {
    pub frame_state: FrameStateView,
    pub frame: Option<FrameView>,
    pub variables: Map<Seq<char>, TypedValueView>,
    pub args: Map<Seq<char>, Seq<char>>,
    pub globals: Seq<(Seq<char>, Seq<char>)>,
    pub arg_entries: Seq<(Seq<char>, Seq<char>)>,
}

/// The blocks a frame shows; none before a frame arrives.
pub open spec fn frame_blocks(frame: Option<FrameView>) -> Map<Seq<char>, BlockView> {
    match frame {
        Some(f) => f.blocks,
        None => Map::empty(),
    }
}

/// The actions a frame holds; none before a frame arrives.
pub open spec fn frame_actions(frame: Option<FrameView>) -> Map<Seq<char>, Seq<ActionView>> {
    match frame {
        Some(f) => f.actions,
        None => Map::empty(),
    }
}

/// The state a failed frame update leaves: a cache miss still waits for the
/// network, any other failure is shown.
pub open spec fn failure_state(e: crate::error::ErrorView) -> FrameStateView {
    if e.error_type == ErrorType::Cache {
        FrameStateView::Loading
    } else {
        FrameStateView::Error(e.message)
    }
}

/// A failure to read the frame from the cache keeps the screen loading; any
/// other failure shows its message.
pub proof fn law_failure_state_by_type(e: crate::error::ErrorView)
    ensures
        e.error_type == ErrorType::Cache ==> failure_state(e) == FrameStateView::Loading,
        e.error_type == ErrorType::Network ==> failure_state(e) == FrameStateView::Error(e.message),
{
}

impl State {
    spec fn view(&self) -> (FrameStateView, Option<FrameView>, Map<Seq<char>, TypedValueView>) {
        (self.frame_state.deep_view(), self.frame.deep_view(), self.variables@)
    }

    fn fresh() -> (r: Self)
        ensures
            r.view() == (FrameStateView::Loading, None::<FrameView>, Map::<
                Seq<char>,
                TypedValueView,
            >::empty()),
    {
        State { frame_state: FrameState::Loading, frame: None, variables: StringMap::new() }
    }

    fn blocks(&self) -> (r: StringMap<NativeBlockModel>)
        ensures
            r@ == frame_blocks(self.frame.deep_view()),
    {
        match &self.frame {
            Some(frame) => frame.blocks.duplicate(),
            None => StringMap::new(),
        }
    }

    fn actions(&self) -> (r: StringMap<Vec<NativeActionModel>>)
        ensures
            r@ == frame_actions(self.frame.deep_view()),
    {
        match &self.frame {
            Some(frame) => frame.actions.duplicate(),
            None => StringMap::new(),
        }
    }

    fn snapshot(&self) -> (r: FrameSnapshot)
        ensures
            r.deep_view() == (SnapshotView {
                state: self.frame_state.deep_view(),
                blocks: frame_blocks(self.frame.deep_view()),
                variables: self.variables@,
                actions: frame_actions(self.frame.deep_view()),
            }),
    {
        FrameSnapshot {
            state: self.frame_state.duplicate(),
            blocks: self.blocks(),
            variables: self.variables.duplicate(),
            actions: self.actions(),
        }
    }

    fn is_fresh(&self) -> (r: bool)
        ensures
            r == (self.frame is None && self.frame_state.deep_view() is Loading),
    {
        self.frame.is_none() && match self.frame_state {
            FrameState::Loading => true,
            _ => false,
        }
    }
}

/// Keeps the state of the frame shown on one screen: the latest frame, its
/// variables with the route arguments and global parameters applied, and
/// whether it is loading, ready or failed.
pub struct FrameStateManager {
    state: State,
    args: StringMap<String>,
    globals: StringMap<String>,
}

impl View for FrameStateManager {
    type V = ManagerView;

    closed spec fn view(&self) -> ManagerView {
        ManagerView {
            frame_state: self.state.frame_state.deep_view(),
            frame: self.state.frame.deep_view(),
            variables: self.state.variables@,
            args: self.args@,
            globals: self.globals.entries(),
            arg_entries: self.args.entries(),
        }
    }
}

impl FrameStateManager {
    pub fn new(globals: StringMap<String>) -> (r: Self)
        ensures
            r@.frame_state is Loading,
            r@.frame is None,
            r@.variables == Map::<Seq<char>, TypedValueView>::empty(),
            r@.args == Map::<Seq<char>, Seq<char>>::empty(),
            r@.arg_entries == Seq::<(Seq<char>, Seq<char>)>::empty(),
            r@.globals == globals.entries(),
    {
        FrameStateManager { state: State::fresh(), args: StringMap::new(), globals }
    }

    /// Replaces the global parameters that later frames are given.
    pub fn set_globals(&mut self, globals: StringMap<String>)
        ensures
            final(self)@ == (ManagerView { globals: globals.entries(), ..old(self)@ }),
    {
        self.globals = globals;
    }

    /// Starts showing a route: the state is reset to loading and the route
    /// arguments are kept for the frames that arrive.
    pub fn setup_frame(&mut self, args: StringMap<String>)
        ensures
            final(self)@.frame_state is Loading,
            final(self)@.frame is None,
            final(self)@.variables == Map::<Seq<char>, TypedValueView>::empty(),
            final(self)@.args == args@,
            final(self)@.arg_entries == args.entries(),
            final(self)@.globals == old(self)@.globals,
    {
        self.state = State::fresh();
        self.args = args;
    }

    /// What a new observer is shown at once: nothing while the manager is
    /// still fresh, the current snapshot otherwise.
    pub fn observe(&self) -> (r: Option<FrameSnapshot>)
        ensures
            (self@.frame is None && self@.frame_state is Loading) ==> r is None,
            !(self@.frame is None && self@.frame_state is Loading) ==> r is Some && r->0.deep_view()
                == (SnapshotView {
                state: self@.frame_state,
                blocks: frame_blocks(self@.frame),
                variables: self@.variables,
                actions: frame_actions(self@.frame),
            }),
    {
        if self.state.is_fresh() {
            None
        } else {
            Some(self.state.snapshot())
        }
    }

    /// Forgets the frame shown.
    pub fn release(&mut self)
        ensures
            final(self)@ == (ManagerView {
                frame_state: FrameStateView::Loading,
                frame: None,
                variables: Map::empty(),
                ..old(self)@
            }),
    {
        self.state = State::fresh();
    }

    pub fn frame_state(&self) -> (r: FrameState)
        ensures
            r.deep_view() == self@.frame_state,
    {
        self.state.frame_state.duplicate()
    }

    pub fn root_block_id(&self) -> (r: Option<String>)
        ensures
            r.deep_view() == match self@.frame {
                Some(f) => f.root_id,
                None => None,
            },
    {
        match &self.state.frame {
            Some(frame) => frame.root_id.duplicate(),
            None => None,
        }
    }

    pub fn blocks(&self) -> (r: StringMap<NativeBlockModel>)
        ensures
            r@ == frame_blocks(self@.frame),
    {
        self.state.blocks()
    }

    pub fn variables(&self) -> (r: StringMap<NativeVariableModel>)
        ensures
            r@ == self@.variables,
    {
        self.state.variables.duplicate()
    }

    pub fn actions(&self) -> (r: StringMap<Vec<NativeActionModel>>)
        ensures
            r@ == frame_actions(self@.frame),
    {
        self.state.actions()
    }

    /// Takes in the latest frame update for the route and returns the
    /// snapshot to show. A frame becomes ready with its variables merged with
    /// the route arguments and global parameters; a failure changes only the
    /// rendering state.
    pub fn apply_frame(&mut self, result: Result<NativeFrameModel, ErrorModel>) -> (r:
        FrameSnapshot)
        ensures
            match result {
                Ok(frame) => {
                    let variables = spec_merge(
                        frame.variables@,
                        old(self)@.arg_entries,
                        old(self)@.globals,
                    );
                    &&& final(self)@ == (ManagerView {
                        frame_state: FrameStateView::Ready,
                        frame: Some(frame.deep_view()),
                        variables,
                        ..old(self)@
                    })
                    &&& r.deep_view() == (SnapshotView {
                        state: FrameStateView::Ready,
                        blocks: frame.blocks@,
                        variables,
                        actions: frame.actions@,
                    })
                },
                Err(e) => {
                    &&& final(self)@ == (ManagerView {
                        frame_state: failure_state(e.deep_view()),
                        ..old(self)@
                    })
                    &&& r.deep_view() == (SnapshotView {
                        state: failure_state(e.deep_view()),
                        blocks: frame_blocks(old(self)@.frame),
                        variables: old(self)@.variables,
                        actions: frame_actions(old(self)@.frame),
                    })
                },
            },
    {
        match result {
            Ok(frame) => {
                let variables = merge_variables(frame.variables.duplicate(), &self.args, &self.globals);
                let snapshot = FrameSnapshot {
                    state: FrameState::Ready,
                    blocks: frame.blocks.duplicate(),
                    variables: variables.duplicate(),
                    actions: frame.actions.duplicate(),
                };
                self.state.frame = Some(frame);
                self.state.variables = variables;
                self.state.frame_state = FrameState::Ready;
                snapshot
            },
            Err(error) => {
                let state = if error.error_type == ErrorType::Cache {
                    FrameState::Loading
                } else {
                    FrameState::Error { message: error.message }
                };
                self.state.frame_state = state;
                self.state.snapshot()
            },
        }
    }
}

} // verus!
