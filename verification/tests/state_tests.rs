use nativeblocks::collections::StringMap;
use nativeblocks::diff::InternalState;
use nativeblocks::dto::{NativeBlockDataDto, NativeBlockDto, NativeFrameDto, NativeVariableDto};
use nativeblocks::error::ErrorModel;
use nativeblocks::mapper::to_model;
use nativeblocks::memory::MemoryFrameSource;
use nativeblocks::model::NativeFrameModel;
use nativeblocks::state::{merge_variables, FrameState, FrameStateManager};
use nativeblocks::collections::Duplicate;

fn s(v: &str) -> Option<String> {
    Some(v.to_string())
}

fn map(pairs: &[(&str, &str)]) -> StringMap<String> {
    let mut m = StringMap::new();
    for (k, v) in pairs {
        m.insert(k.to_string(), v.to_string());
    }
    m
}

fn frame() -> NativeFrameModel {
    to_model(&Some(NativeFrameDto {
        checksum: s("c1"),
        variables: Some(vec![
            NativeVariableDto { key: s("name"), value: s("Bob"), variable_type: s("STRING") },
            NativeVariableDto { key: s("count"), value: s("1"), variable_type: s("INT") },
        ]),
        blocks: Some(vec![
            NativeBlockDto {
                id: s("b1"),
                key: s("title"),
                key_type: s("ROOT"),
                data: Some(vec![NativeBlockDataDto { key: s("text"), value: s("name"), data_type: s("STRING") }]),
                ..Default::default()
            },
            NativeBlockDto { id: s("b2"), key: s("other"), key_type: s("TEXT"), ..Default::default() },
        ]),
        actions: None,
    }))
}

#[test]
fn merge_gives_globals_then_arguments_precedence() {
    let merged = merge_variables(frame().variables, &map(&[("name", "Arg"), ("id", "7")]), &map(&[("id", "G")]));
    assert_eq!(merged.get("name").map(|v| v.value.as_str()), Some("Arg"));
    assert_eq!(merged.get("name").map(|v| v.value_type.as_str()), Some("STRING"));
    assert_eq!(merged.get("id").map(|v| v.value.as_str()), Some("G"));
    assert_eq!(merged.get("count").map(|v| v.value_type.as_str()), Some("INT"));
}

#[test]
fn manager_shows_nothing_while_fresh() {
    let m = FrameStateManager::new(map(&[]));
    assert!(m.observe().is_none());
    assert!(matches!(m.frame_state(), FrameState::Loading));
    assert!(m.root_block_id().is_none());
}

#[test]
fn manager_applies_frames_and_failures() {
    let mut m = FrameStateManager::new(map(&[("g", "1")]));
    m.setup_frame(map(&[("id", "42")]));
    let snapshot = m.apply_frame(Ok(frame()));
    assert!(matches!(snapshot.state, FrameState::Ready));
    assert_eq!(snapshot.variables.get("id").map(|v| v.value.as_str()), Some("42"));
    assert_eq!(snapshot.variables.get("g").map(|v| v.value.as_str()), Some("1"));
    assert_eq!(m.root_block_id().as_deref(), Some("b1"));
    assert!(m.blocks().contains_key("title"));
    assert!(m.observe().is_some());

    let snapshot = m.apply_frame(Err(ErrorModel::cache("miss")));
    assert!(matches!(snapshot.state, FrameState::Loading));
    assert!(snapshot.blocks.contains_key("title"), "a failure keeps the frame");
    let snapshot = m.apply_frame(Err(ErrorModel::network("offline")));
    match snapshot.state {
        FrameState::Error { message } => assert_eq!(message, "offline"),
        other => panic!("unexpected {:?}", other),
    }
    m.release();
    assert!(m.observe().is_none());
    assert!(m.variables().is_empty());
}

#[test]
fn variable_change_reports_blocks_that_show_it() {
    let mut state = InternalState::ready(&frame(), &map(&[]), &map(&[]));
    assert!(state.change_variable("missing", "x".into()).is_none());
    assert!(state.change_variable("name", "Bob".into()).is_none(), "same value changes nothing");
    let diff = state.change_variable("name", "Alice".into()).expect("a change");
    assert_eq!(diff.variables.get("name").map(|v| v.value.as_str()), Some("Alice"));
    assert!(diff.blocks.contains_key("title"));
    assert!(!diff.blocks.contains_key("other"));
    assert_eq!(state.frame.variables.get("name").map(|v| v.value.as_str()), Some("Alice"));
    assert!(state.change_variable("name", "Alice".into()).is_none());
}

#[test]
fn block_change_is_idempotent() {
    let mut state = InternalState::ready(&frame(), &map(&[]), &map(&[]));
    let mut block = state.frame.blocks.get("other").unwrap().duplicate();
    assert!(state.change_block(&block).is_none(), "same block changes nothing");
    block.visibility = "hidden".into();
    let diff = state.change_block(&block).expect("a change");
    assert!(diff.blocks.contains_key("other"));
    assert!(diff.variables.is_empty());
    assert!(state.change_block(&block).is_none());
    let mut unknown = block.duplicate();
    unknown.key = "nope".into();
    assert!(state.change_block(&unknown).is_none());
}

#[test]
fn fresh_and_error_states_are_empty() {
    let fresh = InternalState::fresh();
    assert!(matches!(fresh.frame.state, FrameState::Loading));
    let failed = InternalState::error("boom".into());
    assert!(matches!(failed.frame.state, FrameState::Error { .. }));
    assert!(failed.frame.blocks.is_empty());
}

#[test]
fn memory_source_reads_back_and_forgets() {
    let mut memory = MemoryFrameSource::new();
    assert!(memory.get_frame("home").is_none());
    memory.save_frame("home", frame());
    memory.save_frame("about", frame());
    assert_eq!(memory.get_frame("home").unwrap().checksum.as_deref(), Some("c1"));
    memory.clear("home");
    assert!(memory.get_frame("home").is_none());
    memory.save_frame("home", frame());
    memory.clear_all(&vec!["home".to_string(), "missing".to_string()]);
    assert!(memory.get_frame("home").is_none());
    assert!(memory.get_frame("about").is_some());
}
