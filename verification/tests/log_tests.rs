use nativeblocks::client::FrameClient;
use nativeblocks::collections::StringMap;
use nativeblocks::dto::{NativeBlockDto, NativeBlockPropertyDto, NativeFrameDto};
use nativeblocks::error::ErrorModel;
use nativeblocks::log::{
    block_change_log, frame_state_log, scaffold_failure_log, scaffold_success_log, sync_failure_log,
    sync_success_log, variable_change_log, LogEvent, LogLevel,
};
use nativeblocks::mapper::to_model;
use nativeblocks::model::NativeVariableModel;
use nativeblocks::state::FrameState;

fn param<'a>(event: &'a LogEvent, key: &str) -> Option<&'a str> {
    event.params.get(key).map(|v| v.as_str())
}

#[test]
fn variable_change_logs_previous_value_only_when_changed() {
    let changed = variable_change_log("count", &Some("1".into()), "2", "INT", "home", true);
    assert_eq!(changed.level, LogLevel::Debug);
    assert_eq!(changed.tag, "VARIABLE_CHANGE");
    assert_eq!(changed.message, "Variable changed: count changed from '1' to '2'");
    assert_eq!(param(&changed, "state"), Some("VARIABLE_UPDATED"));
    assert_eq!(param(&changed, "key"), Some("count"));
    assert_eq!(param(&changed, "new_value"), Some("2"));
    assert_eq!(param(&changed, "variable_type"), Some("INT"));
    assert_eq!(param(&changed, "previous_value"), Some("1"));
    assert_eq!(param(&changed, "frame_route"), Some("home"));
    assert_eq!(changed.params.len(), 6);
    let same = variable_change_log("count", &Some("2".into()), "2", "INT", "home", false);
    assert_eq!(same.level, LogLevel::Info);
    assert_eq!(same.message, "Variable changed: count set to '2'");
    assert_eq!(param(&same, "previous_value"), None);
    let fresh = variable_change_log("count", &None, "2", "INT", "home", false);
    assert_eq!(param(&fresh, "previous_value"), None);
}

#[test]
fn block_change_log_names_the_block() {
    let event = block_change_log("title", "TEXT", "home", false);
    assert_eq!(event.level, LogLevel::Info);
    assert_eq!(event.tag, "BLOCK_CHANGE");
    assert_eq!(event.message, "Block updated: title[TEXT]");
    assert_eq!(param(&event, "block_key"), Some("title"));
    assert_eq!(param(&event, "key_type"), Some("TEXT"));
    assert_eq!(param(&event, "state"), Some("BLOCK_UPDATED"));
    assert_eq!(param(&event, "frame_route"), Some("home"));
}

#[test]
fn sync_logs_carry_the_route_and_the_failure() {
    let ok = sync_success_log("home");
    assert_eq!(ok.level, LogLevel::Info);
    assert_eq!(ok.tag, "FRAME_SYNC_STATE");
    assert_eq!(ok.message, "Successfully synced frame");
    assert_eq!(param(&ok, "state"), Some("FRAME_SYNC_SUCCEED"));
    assert_eq!(param(&ok, "frame_route"), Some("home"));
    let failed = sync_failure_log("home", &ErrorModel::network("down").with_code("NB0103"));
    assert_eq!(failed.level, LogLevel::Error);
    assert_eq!(failed.message, "Failed to sync frame");
    assert_eq!(param(&failed, "state"), Some("FRAME_SYNC_FAILED"));
    assert_eq!(param(&failed, "error_type"), Some("NETWORK"));
    assert_eq!(param(&failed, "error_message"), Some("down"));
    assert_eq!(param(&failed, "error_code"), Some("NB0103"));
    let uncoded = sync_failure_log("home", &ErrorModel::cache("gone"));
    assert_eq!(param(&uncoded, "error_code"), None);
}

#[test]
fn frame_state_and_scaffold_logs() {
    assert_eq!(frame_state_log("home", &FrameState::Ready, true).level, LogLevel::Debug);
    let error = frame_state_log("home", &FrameState::Error { message: "offline".into() }, true);
    assert_eq!(error.level, LogLevel::Error);
    assert_eq!(param(&error, "error_message"), Some("offline"));
    assert_eq!(param(&error, "state"), Some("FRAME_ERROR"));
    let fetched = scaffold_success_log(12);
    assert_eq!(param(&fetched, "frames_count"), Some("12"));
    assert_eq!(fetched.tag, "SCAFFOLD_FETCH");
    let failed = scaffold_failure_log(&ErrorModel::network("down"));
    assert_eq!(param(&failed, "state"), Some("SCAFFOLD_FETCH_FAILED"));
    assert_eq!(failed.level, LogLevel::Error);
}

#[test]
fn engine_changes_come_with_their_logs() {
    let mut engine = FrameClient::new(true, "test".into());
    engine.setup_frame("home".into(), StringMap::new());
    assert!(engine.handle_variable(NativeVariableModel::new("count", "1", "INT"), false).is_none());
    let logged = engine.handle_variable(NativeVariableModel::new("count", "2", "INT"), true).unwrap();
    assert_eq!(param(&logged, "previous_value"), Some("1"));
    assert_eq!(param(&logged, "frame_route"), Some("home"));
    let scripted = engine.script_set_variable("count", "3".into()).unwrap();
    assert_eq!(param(&scripted, "previous_value"), Some("2"));
    assert_eq!(param(&scripted, "new_value"), Some("3"));
    assert_eq!(engine.find_variable("count").unwrap().value, "3");
    assert!(engine.script_set_variable("missing", "1".into()).is_none());

    let frame = to_model(&Some(NativeFrameDto {
        blocks: Some(vec![NativeBlockDto {
            id: Some("b1".into()),
            key: Some("title".into()),
            key_type: Some("TEXT".into()),
            properties: Some(vec![NativeBlockPropertyDto {
                key: Some("text".into()),
                value_mobile: Some("a".into()),
                ..Default::default()
            }]),
            ..Default::default()
        }]),
        ..Default::default()
    }));
    engine.publish("home", frame);
    let event = engine.update_block_properties("title", "text", Some("b".into()), None, None).unwrap();
    assert_eq!(event.message, "Block updated: title[TEXT]");
    assert!(engine.update_block_properties("title", "missing", None, None, None).is_none());
    assert!(engine.update_block_properties("nope", "text", None, None, None).is_none());
}
