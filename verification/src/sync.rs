use vstd::prelude::*;

use crate::collections::Duplicate;
use crate::error::{spec_or_code, sync_error, ErrorModel, ErrorView};
use crate::keys::{FRAME_CHECKSUM, FRAME_COMMUNITY_SYNC, FRAME_PRODUCTION_SYNC, FRAME_SYNC};
use crate::mapper::{opt_text, text};
use crate::model::{FrameView, NativeFrameModel};

verus! {

/// A result, each side taken by its view.
pub open spec fn result_view<T: DeepView, E: DeepView>(r: Result<T, E>) -> Result<T::V, E::V> {
    match r {
        Ok(v) => Ok(v.deep_view()),
        Err(e) => Err(e.deep_view()),
    }
}

/// Which frame a sync brings: the development frame; the production frame,
/// gated by whether one is stored and by the server's checksum; the
/// production frame as the cloud source syncs it, gated by the checksum
/// stored with it; or a community frame from its own endpoint.
#[derive(Debug, Clone, Copy, PartialEq, Eq, Structural)]
pub enum SyncSource {
    Development,
    Production,
    CloudProduction,
    Community,
}

/// The error code of a failed download from a source.
pub open spec fn fetch_code(source: SyncSource) -> Seq<char> {
    match source {
        SyncSource::Development => FRAME_SYNC@,
        SyncSource::Production => FRAME_PRODUCTION_SYNC@,
        SyncSource::CloudProduction => FRAME_PRODUCTION_SYNC@,
        SyncSource::Community => FRAME_COMMUNITY_SYNC@,
    }
}

fn fetch_code_of(source: SyncSource) -> (r: &'static str)
    ensures
        r@ == fetch_code(source),
{
    match source {
        SyncSource::Development => FRAME_SYNC,
        SyncSource::Production => FRAME_PRODUCTION_SYNC,
        SyncSource::CloudProduction => FRAME_PRODUCTION_SYNC,
        SyncSource::Community => FRAME_COMMUNITY_SYNC,
    }
}

/// Whether frames from a source are stored as production frames.
pub open spec fn stored_as_production(source: SyncSource) -> bool {
    source != SyncSource::Development
}

/// Where a frame sync stands.
#[derive(Debug)]
pub enum SyncPhase {
    Start,
    AwaitFrame { source: SyncSource },
    AwaitProductionExists,
    AwaitChecksum,
    AwaitCachedChecksum { remote: String },
    AwaitStore { frame: NativeFrameModel },
    AwaitStoredChecksum,
    AwaitRemoteChecksum { cached: String },
    AwaitStoredFrame,
    Done,
}

/// What the outside world reports back to a frame sync.
#[derive(Debug)]
pub enum SyncEvent {
    Begin { source: SyncSource },
    FrameFetched { frame: Result<NativeFrameModel, ErrorModel> },
    ProductionExists { exists: Result<bool, ErrorModel> },
    ChecksumFetched { checksum: Result<String, ErrorModel> },
    CachedChecksumFound { cached: Result<Option<String>, ErrorModel> },
    Stored { outcome: Result<(), ErrorModel> },
    StoredChecksumRead { cached: Result<Option<String>, ErrorModel> },
    StoredFrameRead { frame: Result<NativeFrameModel, ErrorModel> },
}

/// What a frame sync asks the outside world to do next.
#[derive(Debug)]
pub enum SyncAction {
    /// Download the frame of the route from the source.
    FetchFrame { source: SyncSource },
    /// Ask the local store whether a production frame of the route exists.
    CheckProductionExists,
    /// Download the production checksum of the route.
    FetchChecksum,
    /// Ask the local store for the checksum it keeps for the route.
    FindCachedChecksum { remote: String },
    /// Store the frame, with its checksum, as a production or development frame.
    Store { production: bool, checksum: String, frame: NativeFrameModel },
    /// Read the checksum stored with the route's production frame, if any.
    ReadStoredChecksum,
    /// Read the route's stored production frame.
    ReadStoredFrame,
    /// The sync is over: publish the frame, if any, and report the result.
    Finish { publish: Option<NativeFrameModel>, result: Result<(), ErrorModel> },
    /// The event does not answer the phase; nothing to do.
    Ignore,
}

pub enum SyncPhaseView {
    Start,
    AwaitFrame(SyncSource),
    AwaitProductionExists,
    AwaitChecksum,
    AwaitCachedChecksum(Seq<char>),
    AwaitStore(FrameView),
    AwaitStoredChecksum,
    AwaitRemoteChecksum(Seq<char>),
    AwaitStoredFrame,
    Done,
}

pub enum SyncEventView {
    Begin(SyncSource),
    FrameFetched(Result<FrameView, ErrorView>),
    ProductionExists(Result<bool, ErrorView>),
    ChecksumFetched(Result<Seq<char>, ErrorView>),
    CachedChecksumFound(Result<Option<Seq<char>>, ErrorView>),
    Stored(Result<(), ErrorView>),
    StoredChecksumRead(Result<Option<Seq<char>>, ErrorView>),
    StoredFrameRead(Result<FrameView, ErrorView>),
}

pub enum SyncActionView {
    FetchFrame(SyncSource),
    CheckProductionExists,
    FetchChecksum,
    FindCachedChecksum(Seq<char>),
    Store(bool, Seq<char>, FrameView),
    ReadStoredChecksum,
    ReadStoredFrame,
    Finish(Option<FrameView>, Result<(), ErrorView>),
    Ignore,
}

impl DeepView for SyncPhase {
    type V = SyncPhaseView;

    open spec fn deep_view(&self) -> SyncPhaseView {
        match self {
            SyncPhase::Start => SyncPhaseView::Start,
            SyncPhase::AwaitFrame { source } => SyncPhaseView::AwaitFrame(*source),
            SyncPhase::AwaitProductionExists => SyncPhaseView::AwaitProductionExists,
            SyncPhase::AwaitChecksum => SyncPhaseView::AwaitChecksum,
            SyncPhase::AwaitCachedChecksum { remote } => SyncPhaseView::AwaitCachedChecksum(
                remote@,
            ),
            SyncPhase::AwaitStore { frame } => SyncPhaseView::AwaitStore(frame.deep_view()),
            SyncPhase::AwaitStoredChecksum => SyncPhaseView::AwaitStoredChecksum,
            SyncPhase::AwaitRemoteChecksum { cached } => SyncPhaseView::AwaitRemoteChecksum(
                cached@,
            ),
            SyncPhase::AwaitStoredFrame => SyncPhaseView::AwaitStoredFrame,
            SyncPhase::Done => SyncPhaseView::Done,
        }
    }
}

impl DeepView for SyncEvent {
    type V = SyncEventView;

    open spec fn deep_view(&self) -> SyncEventView {
        match self {
            SyncEvent::Begin { source } => SyncEventView::Begin(*source),
            SyncEvent::FrameFetched { frame } => SyncEventView::FrameFetched(result_view(*frame)),
            SyncEvent::ProductionExists { exists } => SyncEventView::ProductionExists(
                match exists {
                    Ok(b) => Ok(*b),
                    Err(e) => Err(e.deep_view()),
                },
            ),
            SyncEvent::ChecksumFetched { checksum } => SyncEventView::ChecksumFetched(
                result_view(*checksum),
            ),
            SyncEvent::CachedChecksumFound { cached } => SyncEventView::CachedChecksumFound(
                result_view(*cached),
            ),
            SyncEvent::Stored { outcome } => SyncEventView::Stored(
                match outcome {
                    Ok(_) => Ok(()),
                    Err(e) => Err(e.deep_view()),
                },
            ),
            SyncEvent::StoredChecksumRead { cached } => SyncEventView::StoredChecksumRead(
                result_view(*cached),
            ),
            SyncEvent::StoredFrameRead { frame } => SyncEventView::StoredFrameRead(
                result_view(*frame),
            ),
        }
    }
}

impl DeepView for SyncAction {
    type V = SyncActionView;

    open spec fn deep_view(&self) -> SyncActionView {
        match self {
            SyncAction::FetchFrame { source } => SyncActionView::FetchFrame(*source),
            SyncAction::CheckProductionExists => SyncActionView::CheckProductionExists,
            SyncAction::FetchChecksum => SyncActionView::FetchChecksum,
            SyncAction::FindCachedChecksum { remote } => SyncActionView::FindCachedChecksum(
                remote@,
            ),
            SyncAction::Store { production, checksum, frame } => SyncActionView::Store(
                *production,
                checksum@,
                frame.deep_view(),
            ),
            SyncAction::ReadStoredChecksum => SyncActionView::ReadStoredChecksum,
            SyncAction::ReadStoredFrame => SyncActionView::ReadStoredFrame,
            SyncAction::Finish { publish, result } => SyncActionView::Finish(
                publish.deep_view(),
                match result {
                    Ok(_) => Ok(()),
                    Err(e) => Err(e.deep_view()),
                },
            ),
            SyncAction::Ignore => SyncActionView::Ignore,
        }
    }
}

/// One step of a frame sync.
///
/// A development sync downloads the development frame and stores it. A
/// production sync downloads the production frame when none is stored yet;
/// when one is stored, it downloads the checksum first and downloads the frame
/// only when the stored checksum differs. A cloud production sync reads the
/// checksum stored with the route's frame: with none it downloads the frame;
/// with one it downloads the server's checksum, and downloads the frame when
/// the two differ and reads the stored frame back when they agree. A
/// community sync downloads the
/// frame from its endpoint and stores it as a production frame. A stored frame
/// is published. A failed download keeps its error code or takes the stage's.
pub open spec fn spec_sync_step(phase: SyncPhaseView, event: SyncEventView) -> (
    SyncPhaseView,
    SyncActionView,
) {
    match (phase, event) {
        (SyncPhaseView::Start, SyncEventView::Begin(source)) => {
            if source == SyncSource::Production {
                (SyncPhaseView::AwaitProductionExists, SyncActionView::CheckProductionExists)
            } else if source == SyncSource::CloudProduction {
                (SyncPhaseView::AwaitStoredChecksum, SyncActionView::ReadStoredChecksum)
            } else {
                (SyncPhaseView::AwaitFrame(source), SyncActionView::FetchFrame(source))
            }
        },
        (SyncPhaseView::AwaitFrame(source), SyncEventView::FrameFetched(result)) => match result {
            Err(e) => (
                SyncPhaseView::Done,
                SyncActionView::Finish(None, Err(spec_or_code(e, fetch_code(source)))),
            ),
            Ok(f) => (
                SyncPhaseView::AwaitStore(f),
                SyncActionView::Store(stored_as_production(source), opt_text(f.checksum), f),
            ),
        },
        (SyncPhaseView::AwaitProductionExists, SyncEventView::ProductionExists(result)) => {
            match result {
                Err(e) => (SyncPhaseView::Done, SyncActionView::Finish(None, Err(e))),
                Ok(false) => (
                    SyncPhaseView::AwaitFrame(SyncSource::Production),
                    SyncActionView::FetchFrame(SyncSource::Production),
                ),
                Ok(true) => (SyncPhaseView::AwaitChecksum, SyncActionView::FetchChecksum),
            }
        },
        (SyncPhaseView::AwaitChecksum, SyncEventView::ChecksumFetched(result)) => match result {
            Err(e) => (
                SyncPhaseView::Done,
                SyncActionView::Finish(None, Err(spec_or_code(e, FRAME_CHECKSUM@))),
            ),
            Ok(remote) => (
                SyncPhaseView::AwaitCachedChecksum(remote),
                SyncActionView::FindCachedChecksum(remote),
            ),
        },
        (SyncPhaseView::AwaitCachedChecksum(remote), SyncEventView::CachedChecksumFound(result)) => {
            match result {
                Err(e) => (SyncPhaseView::Done, SyncActionView::Finish(None, Err(e))),
                Ok(cached) => if remote == opt_text(cached) {
                    (SyncPhaseView::Done, SyncActionView::Finish(None, Ok(())))
                } else {
                    (
                        SyncPhaseView::AwaitFrame(SyncSource::Production),
                        SyncActionView::FetchFrame(SyncSource::Production),
                    )
                },
            }
        },
        (SyncPhaseView::AwaitStore(f), SyncEventView::Stored(result)) => match result {
            Err(e) => (SyncPhaseView::Done, SyncActionView::Finish(None, Err(e))),
            Ok(_) => (SyncPhaseView::Done, SyncActionView::Finish(Some(f), Ok(()))),
        },
        (SyncPhaseView::AwaitStoredChecksum, SyncEventView::StoredChecksumRead(result)) => {
            match result {
                Err(e) => (SyncPhaseView::Done, SyncActionView::Finish(None, Err(e))),
                Ok(None) => (
                    SyncPhaseView::AwaitFrame(SyncSource::CloudProduction),
                    SyncActionView::FetchFrame(SyncSource::CloudProduction),
                ),
                Ok(Some(cached)) => (
                    SyncPhaseView::AwaitRemoteChecksum(cached),
                    SyncActionView::FetchChecksum,
                ),
            }
        },
        (SyncPhaseView::AwaitRemoteChecksum(cached), SyncEventView::ChecksumFetched(result)) => {
            match result {
                Err(e) => (
                    SyncPhaseView::Done,
                    SyncActionView::Finish(None, Err(spec_or_code(e, FRAME_CHECKSUM@))),
                ),
                Ok(remote) => if remote != cached {
                    (
                        SyncPhaseView::AwaitFrame(SyncSource::CloudProduction),
                        SyncActionView::FetchFrame(SyncSource::CloudProduction),
                    )
                } else {
                    (SyncPhaseView::AwaitStoredFrame, SyncActionView::ReadStoredFrame)
                },
            }
        },
        (SyncPhaseView::AwaitStoredFrame, SyncEventView::StoredFrameRead(result)) => match result {
            Err(e) => (SyncPhaseView::Done, SyncActionView::Finish(None, Err(e))),
            Ok(f) => (SyncPhaseView::Done, SyncActionView::Finish(Some(f), Ok(()))),
        },
        _ => (phase, SyncActionView::Ignore),
    }
}

pub fn sync_step(phase: SyncPhase, event: SyncEvent) -> (r: (SyncPhase, SyncAction))
    ensures
        (r.0.deep_view(), r.1.deep_view()) == spec_sync_step(phase.deep_view(), event.deep_view()),
        ((phase matches SyncPhase::AwaitFrame { source: SyncSource::Community }) && (
        event matches SyncEvent::FrameFetched { frame: Ok(_) })) ==> (r.1 matches SyncAction::Store {
            production: true,
            ..
        }),
        ((phase matches SyncPhase::AwaitFrame { source: SyncSource::Development }) && (
        event matches SyncEvent::FrameFetched { frame: Ok(_) })) ==> (r.1 matches SyncAction::Store {
            production: false,
            ..
        }),
{
    match (phase, event) {
        (SyncPhase::Start, SyncEvent::Begin { source }) => {
            match source {
                SyncSource::Production => (
                    SyncPhase::AwaitProductionExists,
                    SyncAction::CheckProductionExists,
                ),
                SyncSource::CloudProduction => (
                    SyncPhase::AwaitStoredChecksum,
                    SyncAction::ReadStoredChecksum,
                ),
                _ => (SyncPhase::AwaitFrame { source }, SyncAction::FetchFrame { source }),
            }
        },
        (SyncPhase::AwaitFrame { source }, SyncEvent::FrameFetched { frame }) => match frame {
            Err(e) => (
                SyncPhase::Done,
                SyncAction::Finish {
                    publish: None,
                    result: Err(sync_error(e, fetch_code_of(source))),
                },
            ),
            Ok(frame) => {
                let production = match source {
                    SyncSource::Development => false,
                    _ => true,
                };
                let checksum = text(&frame.checksum);
                let stored = frame.duplicate();
                (
                    SyncPhase::AwaitStore { frame },
                    SyncAction::Store { production, checksum, frame: stored },
                )
            },
        },
        (SyncPhase::AwaitProductionExists, SyncEvent::ProductionExists { exists }) => match exists {
            Err(e) => (SyncPhase::Done, SyncAction::Finish { publish: None, result: Err(e) }),
            Ok(exists) => {
                if exists {
                    (SyncPhase::AwaitChecksum, SyncAction::FetchChecksum)
                } else {
                    (
                        SyncPhase::AwaitFrame { source: SyncSource::Production },
                        SyncAction::FetchFrame { source: SyncSource::Production },
                    )
                }
            },
        },
        (SyncPhase::AwaitChecksum, SyncEvent::ChecksumFetched { checksum }) => match checksum {
            Err(e) => (
                SyncPhase::Done,
                SyncAction::Finish { publish: None, result: Err(sync_error(e, FRAME_CHECKSUM)) },
            ),
            Ok(remote) => {
                let asked = remote.clone();
                (
                    SyncPhase::AwaitCachedChecksum { remote },
                    SyncAction::FindCachedChecksum { remote: asked },
                )
            },
        },
        (SyncPhase::AwaitCachedChecksum { remote }, SyncEvent::CachedChecksumFound { cached }) => {
            match cached {
                Err(e) => (SyncPhase::Done, SyncAction::Finish { publish: None, result: Err(e) }),
                Ok(cached) => {
                    let cached_text = text(&cached);
                    if remote == cached_text {
                        (SyncPhase::Done, SyncAction::Finish { publish: None, result: Ok(()) })
                    } else {
                        (
                            SyncPhase::AwaitFrame { source: SyncSource::Production },
                            SyncAction::FetchFrame { source: SyncSource::Production },
                        )
                    }
                },
            }
        },
        (SyncPhase::AwaitStore { frame }, SyncEvent::Stored { outcome }) => match outcome {
            Err(e) => (SyncPhase::Done, SyncAction::Finish { publish: None, result: Err(e) }),
            Ok(_) => (SyncPhase::Done, SyncAction::Finish { publish: Some(frame), result: Ok(()) }),
        },
        (SyncPhase::AwaitStoredChecksum, SyncEvent::StoredChecksumRead { cached }) => match cached {
            Err(e) => (SyncPhase::Done, SyncAction::Finish { publish: None, result: Err(e) }),
            Ok(None) => (
                SyncPhase::AwaitFrame { source: SyncSource::CloudProduction },
                SyncAction::FetchFrame { source: SyncSource::CloudProduction },
            ),
            Ok(Some(cached)) => (SyncPhase::AwaitRemoteChecksum { cached }, SyncAction::FetchChecksum),
        },
        (SyncPhase::AwaitRemoteChecksum { cached }, SyncEvent::ChecksumFetched { checksum }) => {
            match checksum {
                Err(e) => (
                    SyncPhase::Done,
                    SyncAction::Finish { publish: None, result: Err(sync_error(e, FRAME_CHECKSUM)) },
                ),
                Ok(remote) => {
                    if remote != cached {
                        (
                            SyncPhase::AwaitFrame { source: SyncSource::CloudProduction },
                            SyncAction::FetchFrame { source: SyncSource::CloudProduction },
                        )
                    } else {
                        (SyncPhase::AwaitStoredFrame, SyncAction::ReadStoredFrame)
                    }
                },
            }
        },
        (SyncPhase::AwaitStoredFrame, SyncEvent::StoredFrameRead { frame }) => match frame {
            Err(e) => (SyncPhase::Done, SyncAction::Finish { publish: None, result: Err(e) }),
            Ok(f) => (SyncPhase::Done, SyncAction::Finish { publish: Some(f), result: Ok(()) }),
        },
        (phase, _) => (phase, SyncAction::Ignore),
    }
}

/// A production sync that finds a stored frame whose checksum matches the
/// server's finishes successfully without downloading or publishing the frame.
pub proof fn law_matching_checksum_skips_download(
    remote: Seq<char>,
    cached: Seq<char>,
)
    requires
        remote == cached,
    ensures
        ({
            let s1 = spec_sync_step(SyncPhaseView::Start, SyncEventView::Begin(SyncSource::Production));
            let s2 = spec_sync_step(s1.0, SyncEventView::ProductionExists(Ok(true)));
            let s3 = spec_sync_step(s2.0, SyncEventView::ChecksumFetched(Ok(remote)));
            let s4 = spec_sync_step(s3.0, SyncEventView::CachedChecksumFound(Ok(Some(cached))));
            &&& s1.1 == SyncActionView::CheckProductionExists
            &&& s2.1 == SyncActionView::FetchChecksum
            &&& s3.1 == SyncActionView::FindCachedChecksum(remote)
            &&& s4.1 == SyncActionView::Finish(None, Ok(()))
            &&& s4.0 == SyncPhaseView::Done
        }),
{
}

/// A production sync whose stored checksum differs downloads the production
/// frame, stores it as production, and publishes it.
pub proof fn law_changed_checksum_downloads(
    remote: Seq<char>,
    cached: Option<Seq<char>>,
    frame: FrameView,
)
    requires
        remote != opt_text(cached),
    ensures
        ({
            let s3 = spec_sync_step(SyncPhaseView::AwaitCachedChecksum(remote), SyncEventView::CachedChecksumFound(Ok(cached)));
            let s4 = spec_sync_step(s3.0, SyncEventView::FrameFetched(Ok(frame)));
            let s5 = spec_sync_step(s4.0, SyncEventView::Stored(Ok(())));
            &&& s3.1 == SyncActionView::FetchFrame(SyncSource::Production)
            &&& s4.1 == SyncActionView::Store(true, opt_text(frame.checksum), frame)
            &&& s5.1 == SyncActionView::Finish(Some(frame), Ok(()))
        }),
{
}

/// A development sync never asks for a checksum: it downloads the development
/// frame, stores it as a development frame, and publishes it.
pub proof fn law_development_sync_publishes(frame: FrameView)
    ensures
        ({
            let s1 = spec_sync_step(SyncPhaseView::Start, SyncEventView::Begin(SyncSource::Development));
            let s2 = spec_sync_step(s1.0, SyncEventView::FrameFetched(Ok(frame)));
            let s3 = spec_sync_step(s2.0, SyncEventView::Stored(Ok(())));
            &&& s1.1 == SyncActionView::FetchFrame(SyncSource::Development)
            &&& s2.1 == SyncActionView::Store(false, opt_text(frame.checksum), frame)
            &&& s3.1 == SyncActionView::Finish(Some(frame), Ok(()))
        }),
{
}

/// A cloud production sync with no stored checksum downloads the production
/// frame at once, without asking for the server's checksum, stores it as
/// production and publishes it.
pub proof fn law_cloud_sync_without_checksum_downloads(frame: FrameView)
    ensures
        ({
            let s1 = spec_sync_step(SyncPhaseView::Start, SyncEventView::Begin(SyncSource::CloudProduction));
            let s2 = spec_sync_step(s1.0, SyncEventView::StoredChecksumRead(Ok(None)));
            let s3 = spec_sync_step(s2.0, SyncEventView::FrameFetched(Ok(frame)));
            let s4 = spec_sync_step(s3.0, SyncEventView::Stored(Ok(())));
            &&& s1.1 == SyncActionView::ReadStoredChecksum
            &&& s2.1 == SyncActionView::FetchFrame(SyncSource::CloudProduction)
            &&& s3.1 == SyncActionView::Store(true, opt_text(frame.checksum), frame)
            &&& s4.1 == SyncActionView::Finish(Some(frame), Ok(()))
        }),
{
}

/// A cloud production sync with a stored checksum asks for the server's
/// checksum; when the two differ it downloads, stores and publishes the
/// production frame, and when they agree it reads the stored frame back and
/// publishes that, downloading nothing.
pub proof fn law_cloud_sync_checksum_gates_download(
    cached: Seq<char>,
    remote: Seq<char>,
    frame: FrameView,
)
    ensures
        ({
            let s1 = spec_sync_step(SyncPhaseView::Start, SyncEventView::Begin(SyncSource::CloudProduction));
            let s2 = spec_sync_step(s1.0, SyncEventView::StoredChecksumRead(Ok(Some(cached))));
            let s3 = spec_sync_step(s2.0, SyncEventView::ChecksumFetched(Ok(remote)));
            &&& s2.1 == SyncActionView::FetchChecksum
            &&& remote != cached ==> {
                let s4 = spec_sync_step(s3.0, SyncEventView::FrameFetched(Ok(frame)));
                let s5 = spec_sync_step(s4.0, SyncEventView::Stored(Ok(())));
                &&& s3.1 == SyncActionView::FetchFrame(SyncSource::CloudProduction)
                &&& s4.1 == SyncActionView::Store(true, opt_text(frame.checksum), frame)
                &&& s5.1 == SyncActionView::Finish(Some(frame), Ok(()))
            }
            &&& remote == cached ==> {
                let s4 = spec_sync_step(s3.0, SyncEventView::StoredFrameRead(Ok(frame)));
                &&& s3.1 == SyncActionView::ReadStoredFrame
                &&& s4.1 == SyncActionView::Finish(Some(frame), Ok(()))
            }
        }),
{
}

/// A downloaded frame is stored as a production frame for every source but
/// development: a community frame and a production frame go under the
/// route's production key, a development frame under its development key;
/// the stored checksum is the frame's own, and the frame stored is the one
/// downloaded.
pub proof fn law_downloaded_frames_stored_by_source(frame: FrameView)
    ensures
        spec_sync_step(
            SyncPhaseView::AwaitFrame(SyncSource::Community),
            SyncEventView::FrameFetched(Ok(frame)),
        ) == (SyncPhaseView::AwaitStore(frame), SyncActionView::Store(true, opt_text(frame.checksum), frame)),
        spec_sync_step(
            SyncPhaseView::AwaitFrame(SyncSource::Production),
            SyncEventView::FrameFetched(Ok(frame)),
        ) == (SyncPhaseView::AwaitStore(frame), SyncActionView::Store(true, opt_text(frame.checksum), frame)),
        spec_sync_step(
            SyncPhaseView::AwaitFrame(SyncSource::CloudProduction),
            SyncEventView::FrameFetched(Ok(frame)),
        ) == (SyncPhaseView::AwaitStore(frame), SyncActionView::Store(true, opt_text(frame.checksum), frame)),
        spec_sync_step(
            SyncPhaseView::AwaitFrame(SyncSource::Development),
            SyncEventView::FrameFetched(Ok(frame)),
        ) == (SyncPhaseView::AwaitStore(frame), SyncActionView::Store(false, opt_text(frame.checksum), frame)),
{
}

/// A community sync downloads the frame from its endpoint, stores it as the
/// route's production frame, and publishes it.
pub proof fn law_community_sync_stores_production(frame: FrameView)
    ensures
        ({
            let s1 = spec_sync_step(SyncPhaseView::Start, SyncEventView::Begin(SyncSource::Community));
            let s2 = spec_sync_step(s1.0, SyncEventView::FrameFetched(Ok(frame)));
            let s3 = spec_sync_step(s2.0, SyncEventView::Stored(Ok(())));
            &&& s1.1 == SyncActionView::FetchFrame(SyncSource::Community)
            &&& s2.1 == SyncActionView::Store(true, opt_text(frame.checksum), frame)
            &&& s3.1 == SyncActionView::Finish(Some(frame), Ok(()))
        }),
{
}

/// A failed download, of a frame or of a checksum, always ends the sync with
/// an error that carries a code.
pub proof fn law_download_failure_has_code(phase: SyncPhaseView, event: SyncEventView)
    requires
        (event matches SyncEventView::FrameFetched(Err(_))) || (event matches SyncEventView::ChecksumFetched(Err(_))),
        spec_sync_step(phase, event).1 != SyncActionView::Ignore,
    ensures
        spec_sync_step(phase, event).1 matches SyncActionView::Finish(None, Err(e)) && e.error_code is Some,
{
}

} // verus!
