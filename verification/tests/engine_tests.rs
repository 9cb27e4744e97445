use nativeblocks::action::{result_or_next, ActionResult, TriggerQueue, TriggerRoute};
use nativeblocks::client::FrameClient;
use nativeblocks::collections::StringMap;
use nativeblocks::dto::{NativeBlockDto, NativeFrameDto, NativeVariableDto, NativeActionDto};
use nativeblocks::error::{ErrorModel, ErrorType};
use nativeblocks::localization::{LocalizationClient, NativeLocalizationModel};
use nativeblocks::mapper::to_model;
use nativeblocks::repository::StoredFrame;
use nativeblocks::model::{
    NativeActionModel, NativeActionTriggerModel, NativeActionTriggerThen, NativeFrameModel,
    NativeVariableModel,
};
use nativeblocks::sync::{sync_step, SyncAction, SyncEvent, SyncPhase, SyncSource};

fn s(v: &str) -> Option<String> {
    Some(v.to_string())
}

fn frame(checksum: Option<&str>) -> NativeFrameModel {
    to_model(&Some(NativeFrameDto {
        checksum: checksum.map(|c| c.to_string()),
        variables: Some(vec![NativeVariableDto { key: s("name"), value: s("Bob"), variable_type: s("STRING") }]),
        blocks: Some(vec![NativeBlockDto {
            id: s("b1"),
            parent_id: s(""),
            integration_version: Some(1),
            key_type: s("ROOT"),
            key: s("root"),
            position: Some(0),
            ..Default::default()
        }]),
        actions: Some(vec![NativeActionDto { id: s("a1"), key: s("root"), event: s("onAppear"), triggers: Some(vec![]) }]),
    }))
}

fn args(pairs: &[(&str, &str)]) -> StringMap<String> {
    let mut m = StringMap::new();
    for (k, v) in pairs {
        m.insert(k.to_string(), v.to_string());
    }
    m
}

/// Drives a sync to its end, answering each action from the given closures.
fn run_sync(
    source: SyncSource,
    mut answer: impl FnMut(&SyncAction) -> SyncEvent,
) -> (Option<NativeFrameModel>, Result<(), ErrorModel>, Vec<String>) {
    let mut log = Vec::new();
    let (mut phase, mut action) = sync_step(SyncPhase::Start, SyncEvent::Begin { source });
    loop {
        match action {
            SyncAction::Finish { publish, result } => return (publish, result, log),
            SyncAction::Ignore => panic!("unexpected event"),
            other => {
                log.push(format!("{:?}", std::mem::discriminant(&other)));
                let event = answer(&other);
                let next = sync_step(phase, event);
                phase = next.0;
                action = next.1;
            }
        }
    }
}

#[test]
fn setup_with_empty_cache_reports_loading() {
    let mut engine = FrameClient::new(true, "test".into());
    engine.setup_frame("home".into(), args(&[]));
    let stored = engine.accept_stored_frame("home", Ok(StoredFrame::Missing));
    let err = stored.unwrap_err();
    assert_eq!(err.error_code.as_deref(), Some("NB0101"));
    engine.apply_frame_update(Err(err));
    let state = engine.native_frame_state();
    assert!(state.is_loading);
    assert!(!state.is_success);
}

#[test]
fn dev_sync_populates_observable_state() {
    let mut engine = FrameClient::new(true, "test".into());
    engine.setup_frame("home".into(), args(&[("id", "42")]));
    let (publish, result, _) = run_sync(SyncSource::Development, |action| match action {
        SyncAction::FetchFrame { source } => {
            assert_eq!(*source, SyncSource::Development);
            SyncEvent::FrameFetched { frame: Ok(frame(None)) }
        }
        SyncAction::Store { production, .. } => {
            assert!(!production);
            SyncEvent::Stored { outcome: Ok(()) }
        }
        _ => panic!("development sync asks only for the frame and the store"),
    });
    assert!(result.is_ok());
    engine.publish("home", publish.expect("a stored frame is published"));

    let state = engine.native_frame_state();
    assert!(state.is_success, "frame should be successful after sync");
    assert_eq!(engine.frame_update_generation(), 1);
    let variables = engine.variables_state();
    assert_eq!(variables.get("name").map(|v| v.value.as_str()), Some("Bob"));
    assert_eq!(variables.get("id").map(|v| v.value.as_str()), Some("42"));
    assert!(engine.blocks_state().contains_key("root"));
    assert!(engine.action_state().contains_key("root"));
}

#[test]
fn observers_receive_state_snapshots() {
    let mut engine = FrameClient::new(true, "test".into());
    let seen = engine.frame_update_generation();
    assert!(!engine.blocks_state().contains_key("root"));
    engine.setup_frame("home".into(), args(&[]));
    engine.publish("home", frame(None));
    assert_ne!(engine.frame_update_generation(), seen, "a new frame is a change observers see");
    assert!(engine.blocks_state().contains_key("root"));
}

#[test]
fn production_sync_is_checksum_gated() {
    let mut calls = 0;
    let (publish, result, _) = run_sync(SyncSource::Production, |action| match action {
        SyncAction::CheckProductionExists => SyncEvent::ProductionExists { exists: Ok(false) },
        SyncAction::FetchFrame { source } => {
            assert_eq!(*source, SyncSource::Production);
            calls += 1;
            SyncEvent::FrameFetched { frame: Ok(frame(Some("abc"))) }
        }
        SyncAction::Store { production, checksum, .. } => {
            assert!(*production);
            assert_eq!(checksum, "abc");
            SyncEvent::Stored { outcome: Ok(()) }
        }
        _ => panic!("first production sync downloads the frame"),
    });
    assert!(result.is_ok() && publish.is_some());
    let (publish, result, _) = run_sync(SyncSource::Production, |action| match action {
        SyncAction::CheckProductionExists => SyncEvent::ProductionExists { exists: Ok(true) },
        SyncAction::FetchChecksum => {
            calls += 1;
            SyncEvent::ChecksumFetched { checksum: Ok("abc".into()) }
        }
        SyncAction::FindCachedChecksum { remote } => {
            assert_eq!(remote, "abc");
            SyncEvent::CachedChecksumFound { cached: Ok(Some("abc".into())) }
        }
        _ => panic!("checksum match must skip re-fetch"),
    });
    assert!(result.is_ok());
    assert!(publish.is_none());
    assert_eq!(calls, 2, "checksum match must skip re-fetch");
}

#[test]
fn changed_checksum_downloads_again() {
    let (publish, result, _) = run_sync(SyncSource::Production, |action| match action {
        SyncAction::CheckProductionExists => SyncEvent::ProductionExists { exists: Ok(true) },
        SyncAction::FetchChecksum => SyncEvent::ChecksumFetched { checksum: Ok("new".into()) },
        SyncAction::FindCachedChecksum { .. } => SyncEvent::CachedChecksumFound { cached: Ok(Some("old".into())) },
        SyncAction::FetchFrame { .. } => SyncEvent::FrameFetched { frame: Ok(frame(Some("new"))) },
        SyncAction::Store { .. } => SyncEvent::Stored { outcome: Ok(()) },
        _ => panic!("unexpected"),
    });
    assert!(result.is_ok());
    assert_eq!(publish.unwrap().checksum.as_deref(), Some("new"));
}

#[test]
fn sync_failures_carry_stage_codes() {
    let (_, result, _) = run_sync(SyncSource::Development, |_| SyncEvent::FrameFetched {
        frame: Err(ErrorModel::network("down")),
    });
    assert_eq!(result.unwrap_err().error_code.as_deref(), Some("NB0103"));
    let (_, result, _) = run_sync(SyncSource::Community, |_| SyncEvent::FrameFetched {
        frame: Err(ErrorModel::network("down")),
    });
    assert_eq!(result.unwrap_err().error_code.as_deref(), Some("NB0104"));
    let (_, result, _) = run_sync(SyncSource::Production, |action| match action {
        SyncAction::CheckProductionExists => SyncEvent::ProductionExists { exists: Ok(true) },
        _ => SyncEvent::ChecksumFetched { checksum: Err(ErrorModel::network("down")) },
    });
    assert_eq!(result.unwrap_err().error_code.as_deref(), Some("NB0105"));
    let (_, result, _) = run_sync(SyncSource::Production, |action| match action {
        SyncAction::CheckProductionExists => SyncEvent::ProductionExists { exists: Ok(false) },
        _ => SyncEvent::FrameFetched { frame: Err(ErrorModel::network("down").with_code("X")) },
    });
    assert_eq!(result.unwrap_err().error_code.as_deref(), Some("X"));
    let (_, result, _) = run_sync(SyncSource::Production, |_| SyncEvent::ProductionExists {
        exists: Err(ErrorModel::cache("db")),
    });
    let e = result.unwrap_err();
    assert!(e.error_code.is_none() && e.error_type == ErrorType::Cache);
    let (publish, result, _) = run_sync(SyncSource::Development, |action| match action {
        SyncAction::FetchFrame { .. } => SyncEvent::FrameFetched { frame: Ok(frame(None)) },
        _ => SyncEvent::Stored { outcome: Err(ErrorModel::cache("disk full")) },
    });
    assert!(publish.is_none());
    assert_eq!(result.unwrap_err().message, "disk full");
}

#[test]
fn mismatched_event_is_ignored() {
    let (phase, action) = sync_step(SyncPhase::AwaitChecksum, SyncEvent::Stored { outcome: Ok(()) });
    assert!(matches!(action, SyncAction::Ignore));
    assert!(matches!(phase, SyncPhase::AwaitChecksum));
}

#[test]
fn localize_delegates_to_localization_feature() {
    let engine = FrameClient::new(true, "test".into());
    let mut localization = LocalizationClient::create();
    let mut map = StringMap::new();
    map.insert("greeting".to_string(), "Hello".to_string());
    localization.apply(&NativeLocalizationModel { checksum: None, localizations: map });
    assert_eq!(engine.localize(&localization, "greeting".into()), Some("Hello".to_string()));
    assert_eq!(engine.localize(&localization, "missing".into()), None);
}

#[test]
fn handle_variable_updates_state_and_stream() {
    let mut engine = FrameClient::new(true, "test".into());
    engine.handle_variable(NativeVariableModel::new("count", "1", "INT"), false);
    assert_eq!(engine.variables_state().get("count").map(|v| v.value.as_str()), Some("1"));
}

fn trigger(id: &str, parent: &str, key_type: &str, branch: NativeActionTriggerThen) -> NativeActionTriggerModel {
    NativeActionTriggerModel {
        name: key_type.into(),
        id: id.into(),
        parent_id: parent.into(),
        version: 1,
        key_type: key_type.into(),
        branch,
        properties: StringMap::new(),
        data: StringMap::new(),
    }
}

fn action(triggers: Vec<NativeActionTriggerModel>) -> NativeActionModel {
    NativeActionModel { id: "act".into(), key: "btn".into(), event: "onClick".into(), triggers }
}

/// Runs an action the way the host loop does, with handlers that set one
/// variable each and return a fixed branch.
fn run_action(
    engine: &mut FrameClient,
    act: &NativeActionModel,
    event: &str,
    handlers: &[(&str, NativeActionTriggerThen, &str, &str)],
) {
    let mut queue = TriggerQueue::start(act, event);
    while let Some(t) = queue.next() {
        let result = match engine.route_of(&t) {
            TriggerRoute::Handler => {
                let (_, branch, k, v) = handlers.iter().find(|h| h.0 == t.key_type).unwrap();
                let _context = engine.action_context(0, &t);
                ActionResult {
                    branch: *branch,
                    variable_changes: vec![NativeVariableModel::new(k, v, "STRING")],
                    block_changes: Vec::new(),
                }
            }
            _ => ActionResult::next(),
        };
        engine.apply_action_result(&result);
        queue.push_children(act, &t, result.branch);
    }
}

#[test]
fn trigger_graph_follows_then_branch() {
    let mut engine = FrameClient::new(true, "test".into());
    let handlers = [
        ("SET_A", NativeActionTriggerThen::Next, "a", "1"),
        ("SET_B", NativeActionTriggerThen::Success, "b", "2"),
        ("SET_C", NativeActionTriggerThen::Next, "c", "3"),
    ];
    for h in &handlers {
        engine.register_action_handler(h.0.into());
    }
    let act = action(vec![
        trigger("t1", "", "SET_A", NativeActionTriggerThen::Next),
        trigger("t2", "t1", "SET_B", NativeActionTriggerThen::Success),
        trigger("t3", "t1", "SET_C", NativeActionTriggerThen::Next),
    ]);
    run_action(&mut engine, &act, "onClick", &handlers);
    let vars = engine.variables_state();
    assert_eq!(vars.get("a").map(|v| v.value.as_str()), Some("1"));
    assert_eq!(vars.get("c").map(|v| v.value.as_str()), Some("3"));
    assert!(!vars.contains_key("b"), "SUCCESS branch must not run after NEXT");
}

#[test]
fn event_mismatch_runs_nothing() {
    let mut engine = FrameClient::new(true, "test".into());
    let handlers = [("SET_A", NativeActionTriggerThen::Next, "a", "1")];
    engine.register_action_handler("SET_A".into());
    let act = action(vec![trigger("t1", "", "SET_A", NativeActionTriggerThen::Next)]);
    run_action(&mut engine, &act, "onAppear", &handlers);
    assert!(engine.variables_state().is_empty());
}

#[test]
fn unregistered_action_falls_back_without_panic() {
    let mut engine = FrameClient::new(true, "test".into());
    let act = action(vec![trigger("t1", "", "UNKNOWN", NativeActionTriggerThen::Next)]);
    assert_eq!(engine.route_of(&act.triggers[0]), TriggerRoute::Fallback);
    run_action(&mut engine, &act, "onClick", &[]);
    assert!(engine.variables_state().is_empty());
}

#[test]
fn script_triggers_run_in_core() {
    let mut engine = FrameClient::new(true, "test".into());
    engine.register_action_handler("SCRIPT".into());
    let t = trigger("t1", "", "SCRIPT", NativeActionTriggerThen::Next);
    assert_eq!(engine.route_of(&t), TriggerRoute::Script);
}

#[test]
fn failures_set_the_frame_state() {
    let mut engine = FrameClient::new(false, "test".into());
    engine.setup_frame("home".into(), args(&[]));
    engine.apply_frame_update(Err(ErrorModel::network("offline")));
    let state = engine.native_frame_state();
    assert!(!state.is_loading && !state.is_success);
    assert_eq!(state.error, "offline");
    assert_eq!(engine.frame_update_generation(), 0);
}

#[test]
fn frames_are_kept_by_route_and_cleared() {
    let mut engine = FrameClient::new(false, "test".into());
    engine.setup_frame("home".into(), args(&[]));
    engine.publish("other", frame(Some("x")));
    assert_eq!(engine.frame_update_generation(), 0, "only the shown route is applied");
    assert!(engine.cached_frame("other").is_some());
    let read = engine.accept_stored_frame("home", Ok(StoredFrame::Frame { frame: frame(Some("y")) })).unwrap();
    assert_eq!(read.checksum.as_deref(), Some("y"));
    assert_eq!(engine.cached_frame("home").unwrap().checksum.as_deref(), Some("y"));
    engine.clear_frame("home".into()).unwrap();
    assert!(engine.cached_frame("home").is_none());
    assert!(engine.cached_frame("other").is_some());
    engine.clear_all_frames().unwrap();
    assert!(engine.cached_frame("other").is_none());
    let dev = FrameClient::new(true, "test".into());
    assert!(dev.cached_frame("home").is_none());
}

#[test]
fn unreadable_stored_frame_is_not_cached() {
    let mut engine = FrameClient::new(false, "test".into());
    let err = engine
        .accept_stored_frame("home", Ok(StoredFrame::Unreadable { reason: "bad json".into() }))
        .unwrap_err();
    assert_eq!(err.message, "bad json");
    assert_eq!(err.error_type, ErrorType::Cache);
    assert_eq!(err.error_code.as_deref(), Some("NB0101"));
    assert!(engine.cached_frame("home").is_none());
}

#[test]
fn store_failure_is_returned_unchanged() {
    let mut engine = FrameClient::new(false, "test".into());
    let err = engine.accept_stored_frame("home", Err(ErrorModel::cache("disk full"))).unwrap_err();
    assert_eq!(err.message, "disk full");
    assert!(err.error_code.is_none());
}

#[test]
fn global_parameters_override_arguments() {
    let mut engine = FrameClient::new(true, "test".into());
    engine.set_global_parameters(args(&[("name", "Global")]));
    engine.setup_frame("home".into(), args(&[("name", "Arg"), ("id", "1")]));
    engine.apply_frame_update(Ok(frame(None)));
    let vars = engine.variables_state();
    assert_eq!(vars.get("name").map(|v| v.value.as_str()), Some("Global"));
    assert_eq!(vars.get("id").map(|v| v.value_type.as_str()), Some("STRING"));
    assert_eq!(engine.global_parameters().get("name").map(|v| v.as_str()), Some("Global"));
}

#[test]
fn script_updates_reach_variables_and_blocks() {
    let mut engine = FrameClient::new(true, "test".into());
    engine.handle_variable(NativeVariableModel::new("count", "1", "INT"), false);
    assert_eq!(engine.set_variable_value("count", "2".into()).as_deref(), Some("1"));
    assert_eq!(engine.find_variable("count").unwrap().value, "2");
    assert_eq!(engine.find_variable("count").unwrap().value_type, "INT");
    assert!(engine.set_variable_value("missing", "2".into()).is_none());
    assert!(engine.find_variable("missing").is_none());
}

#[test]
fn script_reads_blocks_by_key() {
    let mut engine = FrameClient::new(true, "test".into());
    engine.setup_frame("home".into(), args(&[]));
    engine.publish("home", frame(None));
    let root = engine.find_block("root").expect("the root block is shown");
    assert_eq!(root.id, "b1");
    assert_eq!(root.key_type, "ROOT");
    assert!(engine.find_block("missing").is_none());
}

#[test]
fn triggers_run_depth_first_in_order() {
    let act = action(vec![
        trigger("t1", "", "A", NativeActionTriggerThen::Next),
        trigger("t2", "", "B", NativeActionTriggerThen::Next),
        trigger("t11", "t1", "C", NativeActionTriggerThen::Next),
        trigger("t12", "t1", "C", NativeActionTriggerThen::Next),
        trigger("t13", "t1", "C", NativeActionTriggerThen::Failure),
        trigger("t111", "t11", "C", NativeActionTriggerThen::Next),
    ]);
    let mut queue = TriggerQueue::start(&act, "onClick");
    let mut order = Vec::new();
    while let Some(t) = queue.next() {
        order.push(t.id.clone());
        queue.push_children(&act, &t, NativeActionTriggerThen::Next);
    }
    assert_eq!(order, vec!["t1", "t11", "t111", "t12", "t2"]);
    let mut none = TriggerQueue::start(&act, "onAppear");
    assert!(none.next().is_none());
}

#[test]
fn cloud_production_sync_gates_on_stored_checksum() {
    let (publish, result, _) = run_sync(SyncSource::CloudProduction, |action| match action {
        SyncAction::ReadStoredChecksum => SyncEvent::StoredChecksumRead { cached: Ok(None) },
        SyncAction::FetchFrame { .. } => SyncEvent::FrameFetched { frame: Ok(frame(Some(""))) },
        SyncAction::Store { production, .. } => {
            assert!(*production);
            SyncEvent::Stored { outcome: Ok(()) }
        }
        _ => panic!("no stored checksum: the frame is downloaded at once"),
    });
    assert!(result.is_ok() && publish.is_some());
    let mut downloads = 0;
    let (publish, result, _) = run_sync(SyncSource::CloudProduction, |action| match action {
        SyncAction::ReadStoredChecksum => SyncEvent::StoredChecksumRead { cached: Ok(Some("abc".into())) },
        SyncAction::FetchChecksum => SyncEvent::ChecksumFetched { checksum: Ok("abc".into()) },
        SyncAction::ReadStoredFrame => SyncEvent::StoredFrameRead { frame: Ok(frame(Some("abc"))) },
        _ => {
            downloads += 1;
            panic!("matching checksums download nothing")
        }
    });
    assert_eq!(downloads, 0);
    assert!(result.is_ok());
    assert_eq!(publish.unwrap().checksum.as_deref(), Some("abc"));
    let (publish, result, _) = run_sync(SyncSource::CloudProduction, |action| match action {
        SyncAction::ReadStoredChecksum => SyncEvent::StoredChecksumRead { cached: Ok(Some("abc".into())) },
        SyncAction::FetchChecksum => SyncEvent::ChecksumFetched { checksum: Ok("new".into()) },
        SyncAction::FetchFrame { .. } => SyncEvent::FrameFetched { frame: Ok(frame(Some("new"))) },
        SyncAction::Store { .. } => SyncEvent::Stored { outcome: Ok(()) },
        _ => panic!("a changed checksum downloads the frame"),
    });
    assert!(result.is_ok());
    assert_eq!(publish.unwrap().checksum.as_deref(), Some("new"));
}

#[test]
fn unhandled_trigger_goes_on_with_next() {
    let r = result_or_next(None);
    assert_eq!(r.branch, NativeActionTriggerThen::Next);
    assert!(r.variable_changes.is_empty() && r.block_changes.is_empty());
    let given = ActionResult { branch: NativeActionTriggerThen::Failure, variable_changes: vec![], block_changes: vec![] };
    assert_eq!(result_or_next(Some(given)).branch, NativeActionTriggerThen::Failure);
}
