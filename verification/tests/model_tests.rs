use nativeblocks::collections::{Duplicate, SameAs, StringMap};
use nativeblocks::error::{sync_error, ErrorModel, ErrorType};
use nativeblocks::keys::{dev_key, prod_key};
use nativeblocks::model::{NativeActionTriggerThen, NativeFrameState, NativeVariableModel};
use nativeblocks::action::ActionResult;

#[test]
fn variable_model_new_keeps_fields() {
    let v = NativeVariableModel::new("count", "1", "INT");
    assert_eq!(v.key, "count");
    assert_eq!(v.value, "1");
    assert_eq!(v.value_type, "INT");
}

#[test]
fn trigger_branch_text_round_trips() {
    for branch in [
        NativeActionTriggerThen::Success,
        NativeActionTriggerThen::Failure,
        NativeActionTriggerThen::Next,
        NativeActionTriggerThen::End,
    ] {
        assert_eq!(NativeActionTriggerThen::from_then(branch.as_str()), branch);
    }
    assert_eq!(NativeActionTriggerThen::Success.as_str(), "SUCCESS");
    assert_eq!(NativeActionTriggerThen::Failure.as_str(), "FAILURE");
    assert_eq!(NativeActionTriggerThen::Next.as_str(), "NEXT");
    assert_eq!(NativeActionTriggerThen::End.as_str(), "END");
}

#[test]
fn unknown_branch_text_means_end() {
    assert_eq!(NativeActionTriggerThen::from_then(""), NativeActionTriggerThen::End);
    assert_eq!(NativeActionTriggerThen::from_then("next"), NativeActionTriggerThen::End);
    assert_eq!(NativeActionTriggerThen::from_then("SUCCESS "), NativeActionTriggerThen::End);
}

#[test]
fn frame_state_constructors() {
    let s = NativeFrameState::initial(true);
    assert!(s.is_loading && !s.is_success && s.development_mode && s.error.is_empty());
    let s = NativeFrameState::success(false);
    assert!(!s.is_loading && s.is_success && !s.development_mode && s.error.is_empty());
    let s = NativeFrameState::error(true, "boom");
    assert!(!s.is_loading && !s.is_success && s.development_mode);
    assert_eq!(s.error, "boom");
}

#[test]
fn action_result_next_changes_nothing() {
    let r = ActionResult::next();
    assert_eq!(r.branch, NativeActionTriggerThen::Next);
    assert!(r.variable_changes.is_empty());
    assert!(r.block_changes.is_empty());
}

#[test]
fn frame_keys_are_prefixed() {
    assert_eq!(dev_key("home"), "FRAME_DEV::home");
    assert_eq!(prod_key("home"), "FRAME_PROD::home");
    assert_ne!(dev_key("x"), prod_key("x"));
}

#[test]
fn error_codes_are_kept_or_given() {
    let e = ErrorModel::network("down").with_code("NB0001");
    assert_eq!(e.error_code.as_deref(), Some("NB0001"));
    let kept = sync_error(e, "NB0103");
    assert_eq!(kept.error_code.as_deref(), Some("NB0001"));
    let given = sync_error(ErrorModel::cache("miss"), "NB0103");
    assert_eq!(given.error_code.as_deref(), Some("NB0103"));
    assert_eq!(given.error_type, ErrorType::Cache);
    assert_eq!(given.message, "miss");
}

#[test]
fn string_map_insert_get_remove() {
    let mut m: StringMap<String> = StringMap::new();
    assert!(m.is_empty());
    m.insert("a".to_string(), "1".to_string());
    m.insert("b".to_string(), "2".to_string());
    m.insert("a".to_string(), "3".to_string());
    assert_eq!(m.len(), 2);
    assert_eq!(m.get("a").map(|s| s.as_str()), Some("3"));
    assert_eq!(m.key_at(0), "a");
    assert!(m.contains_key("b"));
    m.remove("a");
    assert!(!m.contains_key("a"));
    assert_eq!(m.len(), 1);
    m.remove("missing");
    assert_eq!(m.len(), 1);
}

#[test]
fn string_map_equality_ignores_order() {
    let mut a: StringMap<String> = StringMap::new();
    a.insert("x".to_string(), "1".to_string());
    a.insert("y".to_string(), "2".to_string());
    let mut b: StringMap<String> = StringMap::new();
    b.insert("y".to_string(), "2".to_string());
    b.insert("x".to_string(), "1".to_string());
    assert!(a.same_as(&b));
    b.insert("x".to_string(), "9".to_string());
    assert!(!a.same_as(&b));
    let c = a.duplicate();
    assert!(c.same_as(&a));
}
