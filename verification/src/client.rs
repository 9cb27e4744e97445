use vstd::prelude::*;

use crate::action::{
    apply_block_changes, apply_result, apply_variable_changes, route_trigger, spec_route,
    ActionContext, ActionResult, TriggerRoute,
};
use crate::collections::{Duplicate, StringMap};
use crate::error::{ErrorModel, ErrorType, ErrorView};
use crate::repository::{not_cached, not_cached_error, StoredFrame};
use crate::keys::FRAME_NOT_CACHED;
use crate::localization::LocalizationClient;
use crate::memory::{MemoryFrameSource};
use crate::model::{
    ActionView, BlockView, FrameStatusView, FrameView, NativeActionModel,
    NativeActionTriggerModel, NativeBlockModel, NativeFrameModel, NativeFrameState,
    NativeVariableModel, TypedValueView,
};
use crate::state::{merge_variables, spec_merge};
use crate::text::{contains_text, str_equal};
use crate::script::{override_property, spec_override_property};
use crate::log::{
    block_change_log, spec_block_change_log, spec_variable_change_log, variable_change_log, LogEvent,
};
use crate::mapper::opt_text;

verus! {

/// The frame engine behind the host's frame screen: the route shown, its
/// arguments and the global parameters, the frame state, the variables,
/// blocks and actions shown, how many frames have arrived, the key types the
/// host handles, and the frames kept in memory.
pub struct FrameClient {
    development_mode: bool,
    instance_name: String,
    route: Option<String>,
    args: StringMap<String>,
    global_parameters: StringMap<String>,
    frame_state: NativeFrameState,
    variables: StringMap<NativeVariableModel>,
    blocks: StringMap<NativeBlockModel>,
    actions: StringMap<Vec<NativeActionModel>>,
    generation: u32,
    handlers: Vec<String>,
    frames: MemoryFrameSource,
}

pub struct FrameClientView {
    pub development_mode: bool,
    pub instance_name: Seq<char>,
    pub route: Option<Seq<char>>,
    pub args: Seq<(Seq<char>, Seq<char>)>,
    pub global_parameters: Seq<(Seq<char>, Seq<char>)>,
    pub global_parameter_map: Map<Seq<char>, Seq<char>>,
    pub frame_state: FrameStatusView,
    pub variables: Map<Seq<char>, TypedValueView>,
    pub blocks: Map<Seq<char>, BlockView>,
    pub actions: Map<Seq<char>, Seq<ActionView>>,
    pub generation: u32,
    pub handlers: Seq<Seq<char>>,
    pub frames: Map<Seq<char>, FrameView>,
}

impl View for FrameClient {
    type V = FrameClientView;

    closed spec fn view(&self) -> FrameClientView {
        FrameClientView {
            development_mode: self.development_mode,
            instance_name: self.instance_name@,
            route: self.route.deep_view(),
            args: self.args.entries(),
            global_parameters: self.global_parameters.entries(),
            global_parameter_map: self.global_parameters@,
            frame_state: self.frame_state.deep_view(),
            variables: self.variables@,
            blocks: self.blocks@,
            actions: self.actions@,
            generation: self.generation,
            handlers: self.handlers.deep_view(),
            frames: self.frames@,
        }
    }
}

/// The loading state of a frame that is still loading.
pub open spec fn loading_status(development_mode: bool) -> FrameStatusView {
    FrameStatusView {
        is_loading: true,
        is_success: false,
        development_mode,
        error: Seq::empty(),
    }
}

/// The loading state of a frame that arrived.
pub open spec fn success_status(development_mode: bool) -> FrameStatusView {
    FrameStatusView {
        is_loading: false,
        is_success: true,
        development_mode,
        error: Seq::empty(),
    }
}

/// The loading state a failed update leaves: a cache miss keeps loading,
/// any other failure is shown with its message.
pub open spec fn failure_status(development_mode: bool, e: ErrorView) -> FrameStatusView {
    if e.error_type == ErrorType::Cache {
        loading_status(development_mode)
    } else {
        FrameStatusView {
            is_loading: false,
            is_success: false,
            development_mode,
            error: e.message,
        }
    }
}

/// The count of arrived frames after one more, wrapping around.
pub open spec fn next_generation(g: u32) -> u32 {
    if g == u32::MAX {
        0
    } else {
        (g + 1) as u32
    }
}

/// A cache failure leaves the frame loading; a network failure shows its
/// message and is neither loading nor a success.
pub proof fn law_failure_status_by_type(development_mode: bool, e: ErrorView)
    ensures
        e.error_type == ErrorType::Cache ==> failure_status(development_mode, e) == loading_status(
            development_mode,
        ),
        e.error_type == ErrorType::Network ==> ({
            let s = failure_status(development_mode, e);
            &&& !s.is_loading
            &&& !s.is_success
            &&& s.error == e.message
            &&& s.development_mode == development_mode
        }),
{
}

impl FrameClient {
    pub fn new(development_mode: bool, instance_name: String) -> (r: Self)
        ensures
            r@.development_mode == development_mode,
            r@.instance_name == instance_name@,
            r@.route is None,
            r@.args == Seq::<(Seq<char>, Seq<char>)>::empty(),
            r@.global_parameters == Seq::<(Seq<char>, Seq<char>)>::empty(),
            r@.frame_state == loading_status(development_mode),
            r@.variables == Map::<Seq<char>, TypedValueView>::empty(),
            r@.blocks == Map::<Seq<char>, BlockView>::empty(),
            r@.actions == Map::<Seq<char>, Seq<ActionView>>::empty(),
            r@.generation == 0,
            r@.handlers == Seq::<Seq<char>>::empty(),
            r@.frames == Map::<Seq<char>, FrameView>::empty(),
    {
        let r = FrameClient {
            development_mode,
            instance_name,
            route: None,
            args: StringMap::new(),
            global_parameters: StringMap::new(),
            frame_state: NativeFrameState::initial(development_mode),
            variables: StringMap::new(),
            blocks: StringMap::new(),
            actions: StringMap::new(),
            generation: 0,
            handlers: Vec::new(),
            frames: MemoryFrameSource::new(),
        };
        assert(r.handlers.deep_view() =~= Seq::<Seq<char>>::empty());
        r
    }

    /// Starts showing a route: it is loading, with nothing shown yet, and its
    /// arguments are kept for the frames that arrive.
    pub fn setup_frame(&mut self, route: String, route_arguments: StringMap<String>)
        ensures
            final(self)@ == (FrameClientView {
                route: Some(route@),
                args: route_arguments.entries(),
                frame_state: loading_status(old(self)@.development_mode),
                variables: Map::empty(),
                blocks: Map::empty(),
                actions: Map::empty(),
                ..old(self)@
            }),
    {
        self.route = Some(route);
        self.args = route_arguments;
        self.frame_state = NativeFrameState::initial(self.development_mode);
        self.variables = StringMap::new();
        self.blocks = StringMap::new();
        self.actions = StringMap::new();
    }

    /// The frame of a route kept in memory. In development mode frames are
    /// always read from the store, so none is returned.
    pub fn cached_frame(&self, route: &str) -> (r: Option<NativeFrameModel>)
        ensures
            self@.development_mode ==> r is None,
            !self@.development_mode ==> r.deep_view() == self@.frames.get(route@),
    {
        if self.development_mode {
            None
        } else {
            self.frames.get_frame(route)
        }
    }

    /// Takes in what reading the store found for a route: a frame is kept in
    /// memory and returned; no entry is the not-cached error; an entry that
    /// does not decode is a cache error with the decoder's message and the
    /// not-cached code; a failure of the store itself is returned unchanged.
    pub fn accept_stored_frame(
        &mut self,
        route: &str,
        stored: Result<StoredFrame, ErrorModel>,
    ) -> (r: Result<NativeFrameModel, ErrorModel>)
        ensures
            match stored {
                Err(e) => r matches Err(e2) && e2.deep_view() == e.deep_view()
                    && final(self)@ == old(self)@,
                Ok(StoredFrame::Missing) => r matches Err(e) && e.deep_view() == not_cached_error()
                    && final(self)@ == old(self)@,
                Ok(StoredFrame::Unreadable { reason }) => r matches Err(e) && e.deep_view()
                    == (ErrorView {
                    error_type: ErrorType::Cache,
                    message: reason@,
                    error_code: Some(FRAME_NOT_CACHED@),
                }) && final(self)@ == old(self)@,
                Ok(StoredFrame::Frame { frame: f }) => r matches Ok(f2) && f2.deep_view()
                    == f.deep_view() && final(self)@ == (FrameClientView {
                    frames: old(self)@.frames.insert(route@, f.deep_view()),
                    ..old(self)@
                }),
            },
    {
        match stored {
            Err(e) => Err(e),
            Ok(StoredFrame::Missing) => Err(not_cached()),
            Ok(StoredFrame::Unreadable { reason }) => Err(
                ErrorModel::cache(reason.as_str()).with_code(FRAME_NOT_CACHED),
            ),
            Ok(StoredFrame::Frame { frame }) => {
                self.frames.save_frame(route, frame.duplicate());
                Ok(frame)
            },
        }
    }

    pub fn apply_frame_update(&mut self, update: Result<NativeFrameModel, ErrorModel>)
        ensures
            match update {
                Ok(f) => final(self)@ == (FrameClientView {
                    frame_state: success_status(old(self)@.development_mode),
                    variables: spec_merge(f.variables@, old(self)@.args, old(self)@.global_parameters),
                    blocks: f.blocks@,
                    actions: f.actions@,
                    generation: next_generation(old(self)@.generation),
                    ..old(self)@
                }),
                Err(e) => final(self)@ == (FrameClientView {
                    frame_state: failure_status(old(self)@.development_mode, e.deep_view()),
                    ..old(self)@
                }),
            },
    {
        match update {
            Ok(frame) => {
                self.variables = merge_variables(frame.variables, &self.args, &self.global_parameters);
                self.blocks = frame.blocks;
                self.actions = frame.actions;
                self.frame_state = NativeFrameState::success(self.development_mode);
                self.generation = if self.generation == u32::MAX {
                    0
                } else {
                    self.generation + 1
                };
            },
            Err(error) => {
                self.frame_state = if error.error_type == ErrorType::Cache {
                    NativeFrameState::initial(self.development_mode)
                } else {
                    NativeFrameState::error(self.development_mode, error.message.as_str())
                };
            },
        }
    }

    /// A sync brought a frame for a route: it is kept in memory, and shown if
    /// the route is the one shown.
    pub fn publish(&mut self, route: &str, frame: NativeFrameModel)
        ensures
            old(self)@.route == Some(route@) ==> final(self)@ == (FrameClientView {
                frame_state: success_status(old(self)@.development_mode),
                variables: spec_merge(frame.variables@, old(self)@.args, old(self)@.global_parameters),
                blocks: frame.blocks@,
                actions: frame.actions@,
                generation: next_generation(old(self)@.generation),
                frames: old(self)@.frames.insert(route@, frame.deep_view()),
                ..old(self)@
            }),
            old(self)@.route != Some(route@) ==> final(self)@ == (FrameClientView {
                frames: old(self)@.frames.insert(route@, frame.deep_view()),
                ..old(self)@
            }),
    {
        self.frames.save_frame(route, frame.duplicate());
        let shown = match &self.route {
            Some(r) => str_equal(r.as_str(), route),
            None => false,
        };
        if shown {
            self.apply_frame_update(Ok(frame));
        }
    }

    /// The text of the route shown; none reads as empty.
    fn route_text(&self) -> (r: String)
        ensures
            r@ == opt_text(self@.route),
    {
        match &self.route {
            Some(r) => r.clone(),
            None => String::new(),
        }
    }

    /// The host sets a variable; when it asks for it, the change is logged,
    /// with the value the variable had before.
    pub fn handle_variable(&mut self, variable: NativeVariableModel, need_to_log: bool) -> (r:
        Option<LogEvent>)
        ensures
            final(self)@ == (FrameClientView {
                variables: old(self)@.variables.insert(variable.key@, variable.deep_view()),
                ..old(self)@
            }),
            !need_to_log ==> r is None,
            need_to_log ==> (r matches Some(e) && e.deep_view() == spec_variable_change_log(
                variable.key@,
                match old(self)@.variables.get(variable.key@) {
                    Some(v) => Some(v.value),
                    None => None,
                },
                variable.value@,
                variable.value_type@,
                opt_text(old(self)@.route),
                old(self)@.development_mode,
            )),
    {
        let key = variable.key.clone();
        let event = if need_to_log {
            let previous = match self.variables.get(key.as_str()) {
                Some(v) => Some(v.value.clone()),
                None => None,
            };
            let route = self.route_text();
            Some(
                variable_change_log(
                    key.as_str(),
                    &previous,
                    variable.value.as_str(),
                    variable.value_type.as_str(),
                    route.as_str(),
                    self.development_mode,
                ),
            )
        } else {
            None
        };
        self.variables.insert(key, variable);
        event
    }

    /// The log of a change a script made to a variable of the route shown.
    pub fn variable_log(&self, key: &str, previous: &Option<String>, value: &str, value_type: &str) -> (r:
        LogEvent)
        ensures
            r.deep_view() == spec_variable_change_log(
                key@,
                previous.deep_view(),
                value@,
                value_type@,
                opt_text(self@.route),
                self@.development_mode,
            ),
    {
        let route = self.route_text();
        variable_change_log(key, previous, value, value_type, route.as_str(), self.development_mode)
    }

    /// The log of a change to a block of the route shown.
    pub fn block_log(&self, key: &str, key_type: &str) -> (r: LogEvent)
        ensures
            r.deep_view() == spec_block_change_log(
                key@,
                key_type@,
                opt_text(self@.route),
                self@.development_mode,
            ),
    {
        let route = self.route_text();
        block_change_log(key, key_type, route.as_str(), self.development_mode)
    }

    /// The host handles triggers of a key type.
    pub fn register_action_handler(&mut self, key_type: String)
        ensures
            final(self)@ == (FrameClientView {
                handlers: if old(self)@.handlers.contains(key_type@) {
                    old(self)@.handlers
                } else {
                    old(self)@.handlers.push(key_type@)
                },
                ..old(self)@
            }),
    {
        if contains_text(&self.handlers, key_type.as_str()) {
            return;
        }
        let ghost before = self.handlers.deep_view();
        self.handlers.push(key_type);
        assert(self.handlers.deep_view() =~= before.push(key_type@));
    }

    /// The host replaces a block.
    pub fn change_block(&mut self, block: NativeBlockModel)
        ensures
            final(self)@ == (FrameClientView {
                blocks: old(self)@.blocks.insert(block.key@, block.deep_view()),
                ..old(self)@
            }),
    {
        let key = block.key.clone();
        self.blocks.insert(key, block);
    }

    /// The translation of a key in the localization.
    pub fn localize(&self, localization: &LocalizationClient, key: String) -> (r: Option<String>)
        ensures
            r.deep_view() == localization@.localizations.get(key@),
    {
        localization.translate(key)
    }

    /// Replaces the global parameters sent with syncs and given to frames.
    pub fn set_global_parameters(&mut self, parameters: StringMap<String>)
        ensures
            final(self)@ == (FrameClientView {
                global_parameters: parameters.entries(),
                global_parameter_map: parameters@,
                ..old(self)@
            }),
    {
        self.global_parameters = parameters;
    }

    pub fn global_parameters(&self) -> (r: StringMap<String>)
        ensures
            r@ == self@.global_parameter_map,
            r.entries() == self@.global_parameters,
    {
        self.global_parameters.duplicate()
    }

    /// Forgets every frame kept in memory.
    pub fn clear_all_frames(&mut self) -> (r: Result<(), ErrorModel>)
        ensures
            r is Ok,
            final(self)@ == (FrameClientView { frames: Map::empty(), ..old(self)@ }),
    {
        self.frames = MemoryFrameSource::new();
        Ok(())
    }

    /// Forgets the frame of a route kept in memory.
    pub fn clear_frame(&mut self, route: String) -> (r: Result<(), ErrorModel>)
        ensures
            r is Ok,
            final(self)@ == (FrameClientView { frames: old(self)@.frames.remove(route@), ..old(self)@ }),
    {
        self.frames.clear(route.as_str());
        Ok(())
    }

    pub fn native_frame_state(&self) -> (r: NativeFrameState)
        ensures
            r.deep_view() == self@.frame_state,
    {
        self.frame_state.duplicate()
    }

    pub fn blocks_state(&self) -> (r: StringMap<NativeBlockModel>)
        ensures
            r@ == self@.blocks,
    {
        self.blocks.duplicate()
    }

    pub fn variables_state(&self) -> (r: StringMap<NativeVariableModel>)
        ensures
            r@ == self@.variables,
    {
        self.variables.duplicate()
    }

    pub fn action_state(&self) -> (r: StringMap<Vec<NativeActionModel>>)
        ensures
            r@ == self@.actions,
    {
        self.actions.duplicate()
    }

    pub fn frame_update_generation(&self) -> (r: u32)
        ensures
            r == self@.generation,
    {
        self.generation
    }

    /// How a trigger runs: the script action, a host handler, or the fallback.
    pub fn route_of(&self, trigger: &NativeActionTriggerModel) -> (r: TriggerRoute)
        ensures
            r == spec_route(trigger.key_type@, self@.handlers),
    {
        route_trigger(trigger.key_type.as_str(), &self.handlers)
    }

    /// What a host handler of a trigger is given.
    pub fn action_context(&self, list_item_index: i32, trigger: &NativeActionTriggerModel) -> (r:
        ActionContext)
        ensures
            r.instance_name@ == self@.instance_name,
            r.list_item_index == list_item_index,
            r.key_type@ == trigger.key_type@,
            r.trigger.deep_view() == trigger.deep_view(),
            r.variables@ == self@.variables,
            r.blocks@ == self@.blocks,
    {
        ActionContext {
            instance_name: self.instance_name.clone(),
            list_item_index,
            key_type: trigger.key_type.clone(),
            trigger: trigger.duplicate(),
            variables: self.variables.duplicate(),
            blocks: self.blocks.duplicate(),
        }
    }

    pub fn find_variable(&self, key: &str) -> (r: Option<NativeVariableModel>)
        ensures
            r.deep_view() == self@.variables.get(key@),
    {
        match self.variables.get(key) {
            Some(v) => Some(v.duplicate()),
            None => None,
        }
    }

    pub fn find_block(&self, key: &str) -> (r: Option<NativeBlockModel>)
        ensures
            r.deep_view() == self@.blocks.get(key@),
    {
        match self.blocks.get(key) {
            Some(b) => Some(b.duplicate()),
            None => None,
        }
    }

    /// A script sets a variable's value, already converted to its type; the
    /// variable keeps its type, and an unknown variable is left unset.
    /// Returns the previous value.
    pub fn set_variable_value(&mut self, key: &str, value: String) -> (r: Option<String>)
        ensures
            r.deep_view() == match old(self)@.variables.get(key@) {
                Some(v) => Some(v.value),
                None => None,
            },
            !old(self)@.variables.contains_key(key@) ==> final(self)@ == old(self)@,
            old(self)@.variables.contains_key(key@) ==> final(self)@ == (FrameClientView {
                variables: old(self)@.variables.insert(
                    old(self)@.variables[key@].key,
                    TypedValueView {
                        key: old(self)@.variables[key@].key,
                        value: value@,
                        value_type: old(self)@.variables[key@].value_type,
                    },
                ),
                ..old(self)@
            }),
    {
        let existing = match self.variables.get(key) {
            Some(v) => v,
            None => {
                return None;
            },
        };
        let previous = existing.value.clone();
        let updated = NativeVariableModel {
            key: existing.key.clone(),
            value,
            value_type: existing.value_type.clone(),
        };
        let own_key = existing.key.clone();
        self.variables.insert(own_key, updated);
        Some(previous)
    }

    /// A script sets a variable's value, already converted to its type, as
    /// `set_variable_value` does, and the change is logged with the value the
    /// variable had before; an unknown variable is left unset and logs nothing.
    pub fn script_set_variable(&mut self, key: &str, value: String) -> (r: Option<LogEvent>)
        ensures
            !old(self)@.variables.contains_key(key@) ==> final(self)@ == old(self)@ && r is None,
            old(self)@.variables.contains_key(key@) ==> {
                let v = old(self)@.variables[key@];
                &&& final(self)@ == (FrameClientView {
                    variables: old(self)@.variables.insert(
                        v.key,
                        TypedValueView { key: v.key, value: value@, value_type: v.value_type },
                    ),
                    ..old(self)@
                })
                &&& r matches Some(e) && e.deep_view() == spec_variable_change_log(
                    v.key,
                    Some(v.value),
                    value@,
                    v.value_type,
                    opt_text(old(self)@.route),
                    old(self)@.development_mode,
                )
            },
    {
        let (own_key, value_type) = match self.variables.get(key) {
            Some(v) => (v.key.clone(), v.value_type.clone()),
            None => {
                return None;
            },
        };
        let shown = value.clone();
        let previous = self.set_variable_value(key, value);
        Some(self.variable_log(own_key.as_str(), &previous, shown.as_str(), value_type.as_str()))
    }

    /// A script overrides some device values of one property of a block;
    /// nothing happens when the block or the property is unknown.
    pub fn update_block_properties(
        &mut self,
        block_key: &str,
        property_key: &str,
        mobile: Option<String>,
        tablet: Option<String>,
        desktop: Option<String>,
    ) -> (r: Option<LogEvent>)
        ensures
            ({
                let old_blocks = old(self)@.blocks;
                if old_blocks.contains_key(block_key@) && old_blocks[block_key@].properties.contains_key(
                    property_key@,
                ) {
                    let b = old_blocks[block_key@];
                    let p = spec_override_property(
                        b.properties[property_key@],
                        mobile.deep_view(),
                        tablet.deep_view(),
                        desktop.deep_view(),
                    );
                    &&& final(self)@ == (FrameClientView {
                        blocks: old_blocks.insert(
                            b.key,
                            BlockView { properties: b.properties.insert(property_key@, p), ..b },
                        ),
                        ..old(self)@
                    })
                    &&& r matches Some(e) && e.deep_view() == spec_block_change_log(
                        b.key,
                        b.key_type,
                        opt_text(old(self)@.route),
                        old(self)@.development_mode,
                    )
                } else {
                    final(self)@ == old(self)@ && r is None
                }
            }),
    {
        let mut block = match self.blocks.get(block_key) {
            Some(b) => b.duplicate(),
            None => {
                return None;
            },
        };
        let updated = match block.properties.get(property_key) {
            Some(current) => override_property(current, mobile, tablet, desktop),
            None => {
                return None;
            },
        };
        block.properties.insert(String::from_str(property_key), updated);
        let event = self.block_log(block.key.as_str(), block.key_type.as_str());
        let key = block.key.clone();
        self.blocks.insert(key, block);
        Some(event)
    }

    /// Applies what a trigger changed, before its children run.
    pub fn apply_action_result(&mut self, result: &ActionResult)
        ensures
            final(self)@ == (FrameClientView {
                variables: apply_variable_changes(
                    old(self)@.variables,
                    result.variable_changes.deep_view(),
                ),
                blocks: apply_block_changes(old(self)@.blocks, result.block_changes.deep_view()),
                ..old(self)@
            }),
    {
        apply_result(result, &mut self.variables, &mut self.blocks);
    }
}

} // verus!
