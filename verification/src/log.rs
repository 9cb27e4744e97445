use vstd::prelude::*;

use crate::collections::StringMap;
use crate::error::{ErrorModel, ErrorType, ErrorView};
use crate::script::{count_text, decimal, spec_variable_change_message, variable_change_message};
use crate::state::{FrameState, FrameStateView};
use crate::text::join2;

verus! {

// ------------------------------------------------------------ keys

pub const TAG_VARIABLE_CHANGE: &'static str = "VARIABLE_CHANGE";
pub const TAG_BLOCK_CHANGE: &'static str = "BLOCK_CHANGE";
pub const TAG_FRAME_SYNC_STATE: &'static str = "FRAME_SYNC_STATE";
pub const TAG_FRAME_STATE: &'static str = "FRAME_STATE";
pub const TAG_SCAFFOLD_FETCH: &'static str = "SCAFFOLD_FETCH";

pub const PARAM_STATE: &'static str = "state";
pub const PARAM_KEY: &'static str = "key";
pub const PARAM_NEW_VALUE: &'static str = "new_value";
pub const PARAM_PREVIOUS_VALUE: &'static str = "previous_value";
pub const PARAM_VARIABLE_TYPE: &'static str = "variable_type";
pub const PARAM_FRAME_ROUTE: &'static str = "frame_route";
pub const PARAM_BLOCK_KEY: &'static str = "block_key";
pub const PARAM_KEY_TYPE: &'static str = "key_type";
pub const PARAM_FRAMES_COUNT: &'static str = "frames_count";
pub const PARAM_ERROR_TYPE: &'static str = "error_type";
pub const PARAM_ERROR_MESSAGE: &'static str = "error_message";
pub const PARAM_ERROR_CODE: &'static str = "error_code";

pub const STATE_VARIABLE_UPDATED: &'static str = "VARIABLE_UPDATED";
pub const STATE_BLOCK_UPDATED: &'static str = "BLOCK_UPDATED";
pub const STATE_FRAME_SYNC_SUCCEED: &'static str = "FRAME_SYNC_SUCCEED";
pub const STATE_FRAME_SYNC_FAILED: &'static str = "FRAME_SYNC_FAILED";
pub const STATE_FRAME_LOADING: &'static str = "FRAME_LOADING";
pub const STATE_FRAME_READY: &'static str = "FRAME_READY";
pub const STATE_FRAME_ERROR: &'static str = "FRAME_ERROR";
pub const STATE_SCAFFOLD_FETCH_SUCCEED: &'static str = "SCAFFOLD_FETCH_SUCCEED";
pub const STATE_SCAFFOLD_FETCH_FAILED: &'static str = "SCAFFOLD_FETCH_FAILED";

pub const ERROR_TYPE_CACHE: &'static str = "CACHE";
pub const ERROR_TYPE_NETWORK: &'static str = "NETWORK";

// ------------------------------------------------------------ events

/// How much a log event matters.
#[derive(Debug, Clone, Copy, PartialEq, Eq, Structural)]
pub enum LogLevel {
    Debug,
    Info,
    Error,
}

/// An event for the host's logger: its level, its tag, a message for people
/// and parameters for machines.
#[derive(Debug)]
pub struct LogEvent {
    pub level: LogLevel,
    pub tag: String,
    pub message: String,
    pub params: StringMap<String>,
}

pub struct LogView {
    pub level: LogLevel,
    pub tag: Seq<char>,
    pub message: Seq<char>,
    pub params: Map<Seq<char>, Seq<char>>,
}

impl DeepView for LogEvent {
    type V = LogView;

    open spec fn deep_view(&self) -> LogView {
        LogView {
            level: self.level,
            tag: self.tag@,
            message: self.message@,
            params: self.params@,
        }
    }
}

/// The level of a change log: debug while developing, info otherwise.
pub open spec fn change_level(development_mode: bool) -> LogLevel {
    if development_mode {
        LogLevel::Debug
    } else {
        LogLevel::Info
    }
}

fn change_level_of(development_mode: bool) -> (r: LogLevel)
    ensures
        r == change_level(development_mode),
{
    if development_mode {
        LogLevel::Debug
    } else {
        LogLevel::Info
    }
}

fn text_of(s: &str) -> (r: String)
    ensures
        r@ == s@,
{
    String::from_str(s)
}

/// The log of a variable change: the key, the new value and the type, the
/// previous value only when there was one and it differs, and the route.
pub open spec fn spec_variable_change_log(
    key: Seq<char>,
    previous: Option<Seq<char>>,
    value: Seq<char>,
    value_type: Seq<char>,
    route: Seq<char>,
    development_mode: bool,
) -> LogView {
    let base = Map::<Seq<char>, Seq<char>>::empty().insert(
        PARAM_STATE@,
        STATE_VARIABLE_UPDATED@,
    ).insert(PARAM_KEY@, key).insert(PARAM_NEW_VALUE@, value).insert(
        PARAM_VARIABLE_TYPE@,
        value_type,
    );
    let params = if previous is Some && previous->0 != value {
        base.insert(PARAM_PREVIOUS_VALUE@, previous->0)
    } else {
        base
    };
    LogView {
        level: change_level(development_mode),
        tag: TAG_VARIABLE_CHANGE@,
        message: spec_variable_change_message(key, previous, value),
        params: params.insert(PARAM_FRAME_ROUTE@, route),
    }
}

pub fn variable_change_log(
    key: &str,
    previous: &Option<String>,
    value: &str,
    value_type: &str,
    route: &str,
    development_mode: bool,
) -> (r: LogEvent)
    ensures
        r.deep_view() == spec_variable_change_log(
            key@,
            previous.deep_view(),
            value@,
            value_type@,
            route@,
            development_mode,
        ),
{
    let mut params: StringMap<String> = StringMap::new();
    params.insert(text_of(PARAM_STATE), text_of(STATE_VARIABLE_UPDATED));
    params.insert(text_of(PARAM_KEY), text_of(key));
    params.insert(text_of(PARAM_NEW_VALUE), text_of(value));
    params.insert(text_of(PARAM_VARIABLE_TYPE), text_of(value_type));
    match previous {
        Some(p) => {
            if !crate::text::str_equal(p.as_str(), value) {
                params.insert(text_of(PARAM_PREVIOUS_VALUE), p.clone());
            }
        },
        None => {},
    }
    params.insert(text_of(PARAM_FRAME_ROUTE), text_of(route));
    LogEvent {
        level: change_level_of(development_mode),
        tag: text_of(TAG_VARIABLE_CHANGE),
        message: variable_change_message(key, previous, value),
        params,
    }
}

/// The message of a block change.
pub open spec fn spec_block_change_message(key: Seq<char>, key_type: Seq<char>) -> Seq<char> {
    "Block updated: "@ + key + "["@ + key_type + "]"@
}

/// The log of a block change: the block's key and key type, and the route.
pub open spec fn spec_block_change_log(
    key: Seq<char>,
    key_type: Seq<char>,
    route: Seq<char>,
    development_mode: bool,
) -> LogView {
    LogView {
        level: change_level(development_mode),
        tag: TAG_BLOCK_CHANGE@,
        message: spec_block_change_message(key, key_type),
        params: Map::<Seq<char>, Seq<char>>::empty().insert(PARAM_STATE@, STATE_BLOCK_UPDATED@).insert(
            PARAM_BLOCK_KEY@,
            key,
        ).insert(PARAM_KEY_TYPE@, key_type).insert(PARAM_FRAME_ROUTE@, route),
    }
}

pub fn block_change_log(key: &str, key_type: &str, route: &str, development_mode: bool) -> (r:
    LogEvent)
    ensures
        r.deep_view() == spec_block_change_log(key@, key_type@, route@, development_mode),
{
    let mut params: StringMap<String> = StringMap::new();
    params.insert(text_of(PARAM_STATE), text_of(STATE_BLOCK_UPDATED));
    params.insert(text_of(PARAM_BLOCK_KEY), text_of(key));
    params.insert(text_of(PARAM_KEY_TYPE), text_of(key_type));
    params.insert(text_of(PARAM_FRAME_ROUTE), text_of(route));
    let mut message = join2("Block updated: ", key);
    message.append("[");
    message.append(key_type);
    message.append("]");
    LogEvent {
        level: change_level_of(development_mode),
        tag: text_of(TAG_BLOCK_CHANGE),
        message,
        params,
    }
}

/// The parameters that describe a failure: its type, its message and, when
/// it has one, its code.
pub open spec fn spec_error_parameters(e: ErrorView) -> Map<Seq<char>, Seq<char>> {
    let base = Map::<Seq<char>, Seq<char>>::empty().insert(
        PARAM_ERROR_TYPE@,
        if e.error_type == ErrorType::Cache {
            ERROR_TYPE_CACHE@
        } else {
            ERROR_TYPE_NETWORK@
        },
    ).insert(PARAM_ERROR_MESSAGE@, e.message);
    match e.error_code {
        Some(code) => base.insert(PARAM_ERROR_CODE@, code),
        None => base,
    }
}

pub fn error_parameters(error: &ErrorModel) -> (r: StringMap<String>)
    ensures
        r@ == spec_error_parameters(error.deep_view()),
{
    let mut params: StringMap<String> = StringMap::new();
    let kind = match error.error_type {
        ErrorType::Cache => text_of(ERROR_TYPE_CACHE),
        ErrorType::Network => text_of(ERROR_TYPE_NETWORK),
    };
    params.insert(text_of(PARAM_ERROR_TYPE), kind);
    params.insert(text_of(PARAM_ERROR_MESSAGE), error.message.clone());
    match &error.error_code {
        Some(code) => {
            params.insert(text_of(PARAM_ERROR_CODE), code.clone());
        },
        None => {},
    }
    params
}

/// The log of a successful frame sync.
pub open spec fn spec_sync_success_log(route: Seq<char>) -> LogView {
    LogView {
        level: LogLevel::Info,
        tag: TAG_FRAME_SYNC_STATE@,
        message: "Successfully synced frame"@,
        params: Map::<Seq<char>, Seq<char>>::empty().insert(PARAM_STATE@, STATE_FRAME_SYNC_SUCCEED@).insert(
            PARAM_FRAME_ROUTE@,
            route,
        ),
    }
}

pub fn sync_success_log(route: &str) -> (r: LogEvent)
    ensures
        r.deep_view() == spec_sync_success_log(route@),
{
    let mut params: StringMap<String> = StringMap::new();
    params.insert(text_of(PARAM_STATE), text_of(STATE_FRAME_SYNC_SUCCEED));
    params.insert(text_of(PARAM_FRAME_ROUTE), text_of(route));
    LogEvent {
        level: LogLevel::Info,
        tag: text_of(TAG_FRAME_SYNC_STATE),
        message: text_of("Successfully synced frame"),
        params,
    }
}

/// The log of a failed frame sync: the failure's parameters, the state and
/// the route.
pub open spec fn spec_sync_failure_log(route: Seq<char>, e: ErrorView) -> LogView {
    LogView {
        level: LogLevel::Error,
        tag: TAG_FRAME_SYNC_STATE@,
        message: "Failed to sync frame"@,
        params: spec_error_parameters(e).insert(PARAM_STATE@, STATE_FRAME_SYNC_FAILED@).insert(
            PARAM_FRAME_ROUTE@,
            route,
        ),
    }
}

pub fn sync_failure_log(route: &str, error: &ErrorModel) -> (r: LogEvent)
    ensures
        r.deep_view() == spec_sync_failure_log(route@, error.deep_view()),
{
    let mut params = error_parameters(error);
    params.insert(text_of(PARAM_STATE), text_of(STATE_FRAME_SYNC_FAILED));
    params.insert(text_of(PARAM_FRAME_ROUTE), text_of(route));
    LogEvent {
        level: LogLevel::Error,
        tag: text_of(TAG_FRAME_SYNC_STATE),
        message: text_of("Failed to sync frame"),
        params,
    }
}

/// The log of a frame screen's rendering state: loading and ready are
/// change logs, an error is an error with its message.
pub open spec fn spec_frame_state_log(route: Seq<char>, state: FrameStateView, development_mode: bool) -> LogView {
    let base = Map::<Seq<char>, Seq<char>>::empty();
    match state {
        FrameStateView::Loading => LogView {
            level: change_level(development_mode),
            tag: TAG_FRAME_STATE@,
            message: "Frame is loading"@,
            params: base.insert(PARAM_STATE@, STATE_FRAME_LOADING@).insert(PARAM_FRAME_ROUTE@, route),
        },
        FrameStateView::Ready => LogView {
            level: change_level(development_mode),
            tag: TAG_FRAME_STATE@,
            message: "Frame is ready"@,
            params: base.insert(PARAM_STATE@, STATE_FRAME_READY@).insert(PARAM_FRAME_ROUTE@, route),
        },
        FrameStateView::Error(message) => LogView {
            level: LogLevel::Error,
            tag: TAG_FRAME_STATE@,
            message: "Frame failed to load"@,
            params: base.insert(PARAM_STATE@, STATE_FRAME_ERROR@).insert(
                PARAM_ERROR_MESSAGE@,
                message,
            ).insert(PARAM_FRAME_ROUTE@, route),
        },
    }
}

pub fn frame_state_log(route: &str, state: &FrameState, development_mode: bool) -> (r: LogEvent)
    ensures
        r.deep_view() == spec_frame_state_log(route@, state.deep_view(), development_mode),
{
    let mut params: StringMap<String> = StringMap::new();
    match state {
        FrameState::Loading => {
            params.insert(text_of(PARAM_STATE), text_of(STATE_FRAME_LOADING));
            params.insert(text_of(PARAM_FRAME_ROUTE), text_of(route));
            LogEvent {
                level: change_level_of(development_mode),
                tag: text_of(TAG_FRAME_STATE),
                message: text_of("Frame is loading"),
                params,
            }
        },
        FrameState::Ready => {
            params.insert(text_of(PARAM_STATE), text_of(STATE_FRAME_READY));
            params.insert(text_of(PARAM_FRAME_ROUTE), text_of(route));
            LogEvent {
                level: change_level_of(development_mode),
                tag: text_of(TAG_FRAME_STATE),
                message: text_of("Frame is ready"),
                params,
            }
        },
        FrameState::Error { message } => {
            params.insert(text_of(PARAM_STATE), text_of(STATE_FRAME_ERROR));
            params.insert(text_of(PARAM_ERROR_MESSAGE), message.clone());
            params.insert(text_of(PARAM_FRAME_ROUTE), text_of(route));
            LogEvent {
                level: LogLevel::Error,
                tag: text_of(TAG_FRAME_STATE),
                message: text_of("Frame failed to load"),
                params,
            }
        },
    }
}

/// The log of a fetched scaffold: how many frames it lists.
pub open spec fn spec_scaffold_success_log(frames_count: nat) -> LogView {
    LogView {
        level: LogLevel::Info,
        tag: TAG_SCAFFOLD_FETCH@,
        message: "Successfully fetched scaffold"@,
        params: Map::<Seq<char>, Seq<char>>::empty().insert(
            PARAM_STATE@,
            STATE_SCAFFOLD_FETCH_SUCCEED@,
        ).insert(PARAM_FRAMES_COUNT@, decimal(frames_count as int)),
    }
}

pub fn scaffold_success_log(frames_count: usize) -> (r: LogEvent)
    ensures
        r.deep_view() == spec_scaffold_success_log(frames_count as nat),
{
    let mut params: StringMap<String> = StringMap::new();
    params.insert(text_of(PARAM_STATE), text_of(STATE_SCAFFOLD_FETCH_SUCCEED));
    params.insert(text_of(PARAM_FRAMES_COUNT), count_text(frames_count));
    LogEvent {
        level: LogLevel::Info,
        tag: text_of(TAG_SCAFFOLD_FETCH),
        message: text_of("Successfully fetched scaffold"),
        params,
    }
}

/// The log of a failed scaffold fetch: the failure's parameters and the state.
pub open spec fn spec_scaffold_failure_log(e: ErrorView) -> LogView {
    LogView {
        level: LogLevel::Error,
        tag: TAG_SCAFFOLD_FETCH@,
        message: "Failed to fetch scaffold"@,
        params: spec_error_parameters(e).insert(PARAM_STATE@, STATE_SCAFFOLD_FETCH_FAILED@),
    }
}

pub fn scaffold_failure_log(error: &ErrorModel) -> (r: LogEvent)
    ensures
        r.deep_view() == spec_scaffold_failure_log(error.deep_view()),
{
    let mut params = error_parameters(error);
    params.insert(text_of(PARAM_STATE), text_of(STATE_SCAFFOLD_FETCH_FAILED));
    LogEvent {
        level: LogLevel::Error,
        tag: text_of(TAG_SCAFFOLD_FETCH),
        message: text_of("Failed to fetch scaffold"),
        params,
    }
}

/// A variable change is logged with its previous value exactly when the
/// value changed.
pub proof fn law_previous_value_only_when_changed(
    key: Seq<char>,
    previous: Option<Seq<char>>,
    value: Seq<char>,
    value_type: Seq<char>,
    route: Seq<char>,
    development_mode: bool,
)
    ensures
        spec_variable_change_log(key, previous, value, value_type, route, development_mode).params.contains_key(
            PARAM_PREVIOUS_VALUE@,
        ) <==> (previous is Some && previous->0 != value),
{
    reveal_strlit("previous_value");
    reveal_strlit("state");
    reveal_strlit("key");
    reveal_strlit("new_value");
    reveal_strlit("variable_type");
    reveal_strlit("frame_route");
    assert(PARAM_PREVIOUS_VALUE@[0] != PARAM_STATE@[0]);
    assert(PARAM_PREVIOUS_VALUE@[0] != PARAM_KEY@[0]);
    assert(PARAM_PREVIOUS_VALUE@[0] != PARAM_NEW_VALUE@[0]);
    assert(PARAM_PREVIOUS_VALUE@[0] != PARAM_VARIABLE_TYPE@[0]);
    assert(PARAM_PREVIOUS_VALUE@[0] != PARAM_FRAME_ROUTE@[0]);
}

} // verus!
