use vstd::prelude::*;

use crate::collections::Duplicate;
use crate::error::{ErrorModel, ErrorType, ErrorView};
use crate::keys::{dev_key, prod_key, spec_dev_key, spec_prod_key, CONNECTION_REQUIRED, FRAME_NOT_CACHED};
use crate::model::{FrameView, NativeFrameModel};
use crate::sync::result_view;

verus! {

/// The error of a route with no stored frame.
pub open spec fn not_cached_error() -> ErrorView {
    ErrorView {
        error_type: ErrorType::Cache,
        message: CONNECTION_REQUIRED@,
        error_code: Some(FRAME_NOT_CACHED@),
    }
}

pub fn not_cached() -> (r: ErrorModel)
    ensures
        r.deep_view() == not_cached_error(),
{
    ErrorModel::cache(CONNECTION_REQUIRED).with_code(FRAME_NOT_CACHED)
}

/// The cache key of a route's frame in a mode.
pub open spec fn spec_frame_key(route: Seq<char>, development_mode: bool) -> Seq<char> {
    if development_mode {
        spec_dev_key(route)
    } else {
        spec_prod_key(route)
    }
}

/// What reading a route's frame in a mode finds in a store of frames by key.
pub open spec fn spec_read(
    store: Map<Seq<char>, FrameView>,
    route: Seq<char>,
    development_mode: bool,
) -> Result<FrameView, ErrorView> {
    match store.get(spec_frame_key(route, development_mode)) {
        Some(f) => Ok(f),
        None => Err(not_cached_error()),
    }
}

/// A frame saved for production is what a read with development mode off
/// finds, and a frame saved for development what a read with it on finds;
/// saving leaves every other route and mode as it was.
pub proof fn law_saved_frame_reads_back(
    store: Map<Seq<char>, FrameView>,
    route: Seq<char>,
    production: bool,
    frame: FrameView,
    other: Seq<char>,
    other_development_mode: bool,
)
    ensures
        spec_read(store.insert(spec_frame_key(route, !production), frame), route, !production)
            == Ok::<FrameView, ErrorView>(frame),
        (other != route || other_development_mode != !production) ==> spec_read(
            store.insert(spec_frame_key(route, !production), frame),
            other,
            other_development_mode,
        ) == spec_read(store, other, other_development_mode),
{
    crate::keys::lemma_frame_keys_distinct(route, other);
    crate::keys::lemma_frame_keys_distinct(other, route);
}

/// The cache key of a route's frame: the development key or the production key.
pub fn frame_key(route: &str, development_mode: bool) -> (r: String)
    ensures
        r@ == spec_frame_key(route@, development_mode),
{
    if development_mode {
        dev_key(route)
    } else {
        prod_key(route)
    }
}

/// What reading a cache entry found.
#[derive(Debug)]
pub enum StoredFrame {
    /// No entry under the key.
    Missing,
    /// An entry that does not decode as a frame, with what the decoder said.
    Unreadable { reason: String },
    /// A frame.
    Frame { frame: NativeFrameModel },
}

/// What to make of a cache entry: the frame it holds, if any, and whether the
/// entry must be removed because it does not decode.
pub fn read_frame(stored: StoredFrame) -> (r: (Option<NativeFrameModel>, bool))
    ensures
        match stored {
            StoredFrame::Missing => r.0 is None && !r.1,
            StoredFrame::Unreadable { .. } => r.0 is None && r.1,
            StoredFrame::Frame { frame } => r.0 matches Some(f) && f.deep_view()
                == frame.deep_view() && !r.1,
        },
{
    match stored {
        StoredFrame::Missing => (None, false),
        StoredFrame::Unreadable { .. } => (None, true),
        StoredFrame::Frame { frame } => (Some(frame), false),
    }
}

/// The frame of a route read from the cache, or the not-cached error.
pub fn get_frame(read: Option<NativeFrameModel>) -> (r: Result<NativeFrameModel, ErrorModel>)
    ensures
        result_view(r) == match read {
            Some(f) => Ok(f.deep_view()),
            None => Err(not_cached_error()),
        },
{
    match read {
        Some(frame) => Ok(frame),
        None => Err(not_cached()),
    }
}

/// The checksum of the stored production frame, if there is one.
pub fn cached_checksum(read: &Option<NativeFrameModel>) -> (r: Option<String>)
    ensures
        r.deep_view() == match *read {
            Some(f) => f.deep_view().checksum,
            None => None,
        },
{
    match read {
        Some(frame) => frame.checksum.duplicate(),
        None => None,
    }
}

/// The first value subscribers of a route see: the frame kept in memory, or
/// the not-cached error.
pub fn initial_update(memory: Option<NativeFrameModel>) -> (r: Result<NativeFrameModel, ErrorModel>)
    ensures
        result_view(r) == match memory {
            Some(f) => Ok(f.deep_view()),
            None => Err(not_cached_error()),
        },
{
    get_frame(memory)
}

/// What a download brought: a new frame, or the news that the stored one is
/// still current.
#[derive(Debug)]
pub enum SyncOutcome {
    Updated { frame: NativeFrameModel },
    Unchanged,
}

/// What to do once a route is shown: show the frame found in memory or the
/// cache and then refresh it in the background, or download it first.
#[derive(Debug)]
pub enum LoadStart {
    ShowThenSync { frame: NativeFrameModel },
    Download,
}

pub fn load_start(cached: Option<NativeFrameModel>) -> (r: LoadStart)
    ensures
        match cached {
            Some(f) => r matches LoadStart::ShowThenSync { frame } && frame.deep_view()
                == f.deep_view(),
            None => r matches LoadStart::Download,
        },
{
    match cached {
        Some(frame) => LoadStart::ShowThenSync { frame },
        None => LoadStart::Download,
    }
}

/// What follows the first download of a route: the frame to keep (if any),
/// the update its subscribers see, and the result of the load. A download
/// that finds nothing new with nothing stored is the not-cached error.
pub fn after_load_download(result: Result<SyncOutcome, ErrorModel>) -> (r: (
    Option<NativeFrameModel>,
    Result<NativeFrameModel, ErrorModel>,
    Result<(), ErrorModel>,
))
    ensures
        match result {
            Ok(SyncOutcome::Updated { frame }) => {
                &&& r.0 matches Some(f) && f.deep_view() == frame.deep_view()
                &&& result_view(r.1) == Ok::<FrameView, ErrorView>(frame.deep_view())
                &&& r.2 is Ok
            },
            Ok(SyncOutcome::Unchanged) => {
                &&& r.0 is None
                &&& result_view(r.1) == Err::<FrameView, ErrorView>(not_cached_error())
                &&& r.2 matches Err(e) && e.deep_view() == not_cached_error()
            },
            Err(e) => {
                &&& r.0 is None
                &&& result_view(r.1) == Err::<FrameView, ErrorView>(e.deep_view())
                &&& r.2 matches Err(e2) && e2.deep_view() == e.deep_view()
            },
        },
{
    match result {
        Ok(SyncOutcome::Updated { frame }) => {
            let shown = frame.duplicate();
            (Some(frame), Ok(shown), Ok(()))
        },
        Ok(SyncOutcome::Unchanged) => (None, Err(not_cached()), Err(not_cached())),
        Err(error) => {
            let shown = error.duplicate();
            (None, Err(shown), Err(error))
        },
    }
}

/// What follows a background refresh: the frame to keep (if any), the update
/// to send to the route's subscribers (if any), and the result of the
/// refresh. A new frame is sent when `spec_sends_sync_result` says so for a
/// success; a failure is sent when it says so for a failure, so that it
/// reaches subscribers that have no frame and never replaces a frame shown.
pub fn after_sync_download(
    development_mode: bool,
    subscribers_have_frame: bool,
    result: Result<SyncOutcome, ErrorModel>,
) -> (r: (Option<NativeFrameModel>, Option<Result<NativeFrameModel, ErrorModel>>, Result<(), ErrorModel>))
    ensures
        match result {
            Ok(SyncOutcome::Updated { frame }) => {
                &&& r.0 matches Some(f) && f.deep_view() == frame.deep_view()
                &&& spec_sends_sync_result(development_mode, subscribers_have_frame, true) ==> (
                r.1 matches Some(Ok(f)) && f.deep_view() == frame.deep_view())
                &&& !spec_sends_sync_result(development_mode, subscribers_have_frame, true)
                    ==> r.1 is None
                &&& r.2 is Ok
            },
            Ok(SyncOutcome::Unchanged) => r.0 is None && r.1 is None && r.2 is Ok,
            Err(e) => {
                &&& r.0 is None
                &&& spec_sends_sync_result(development_mode, subscribers_have_frame, false) ==> (
                r.1 matches Some(Err(e2)) && e2.deep_view() == e.deep_view())
                &&& !spec_sends_sync_result(development_mode, subscribers_have_frame, false)
                    ==> r.1 is None
                &&& r.2 matches Err(e2) && e2.deep_view() == e.deep_view()
            },
        },
{
    match result {
        Ok(SyncOutcome::Updated { frame }) => {
            if sends_sync_result(development_mode, subscribers_have_frame, true) {
                let shown = frame.duplicate();
                (Some(frame), Some(Ok(shown)), Ok(()))
            } else {
                (Some(frame), None, Ok(()))
            }
        },
        Ok(SyncOutcome::Unchanged) => (None, None, Ok(())),
        Err(error) => {
            if sends_sync_result(development_mode, subscribers_have_frame, false) {
                let sent = error.duplicate();
                (None, Some(Err(sent)), Err(error))
            } else {
                (None, None, Err(error))
            }
        },
    }
}

/// What a load returns once the route was shown from the cache: the load has
/// succeeded, whatever the background refresh that follows returns.
pub fn shown_load_result(refresh: Result<(), ErrorModel>) -> (r: Result<(), ErrorModel>)
    ensures
        r is Ok,
{
    Ok(())
}

/// Whether the result of a sync reaches the subscribers of a route. A new
/// frame is sent in development mode, or when the subscribers have no frame
/// yet; a failure is sent only when they have no frame yet, so that a frame
/// already shown stays shown.
pub open spec fn spec_sends_sync_result(
    development_mode: bool,
    subscribers_have_frame: bool,
    succeeded: bool,
) -> bool {
    if succeeded {
        development_mode || !subscribers_have_frame
    } else {
        !subscribers_have_frame
    }
}

pub fn sends_sync_result(development_mode: bool, subscribers_have_frame: bool, succeeded: bool) -> (r:
    bool)
    ensures
        r == spec_sends_sync_result(development_mode, subscribers_have_frame, succeeded),
{
    if succeeded {
        development_mode || !subscribers_have_frame
    } else {
        !subscribers_have_frame
    }
}

/// Who hears of a sync: a new frame reaches subscribers in development mode
/// and, in production mode, only subscribers that have no frame yet; a
/// failure reaches only subscribers that have no frame yet.
pub proof fn law_sync_result_reaches(development_mode: bool, subscribers_have_frame: bool)
    ensures
        development_mode ==> spec_sends_sync_result(development_mode, subscribers_have_frame, true),
        !subscribers_have_frame ==> spec_sends_sync_result(development_mode, subscribers_have_frame, true),
        !development_mode && subscribers_have_frame ==> !spec_sends_sync_result(
            development_mode,
            subscribers_have_frame,
            true,
        ),
        !subscribers_have_frame ==> spec_sends_sync_result(development_mode, subscribers_have_frame, false),
        subscribers_have_frame ==> !spec_sends_sync_result(development_mode, subscribers_have_frame, false),
{
}

/// A failed refresh never replaces a frame that is already shown.
pub proof fn law_failure_keeps_shown_frame(development_mode: bool)
    ensures
        !spec_sends_sync_result(development_mode, true, false),
{
}

} // verus!
