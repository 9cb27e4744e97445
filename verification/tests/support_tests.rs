use nativeblocks::collections::StringMap;
use nativeblocks::dto::NativeFrameDto;
use nativeblocks::error::ErrorModel;
use nativeblocks::keys::{dev_key, prod_key};
use nativeblocks::localization::{
    to_model as localization_model, LocalizationClient, LocalizationState, LocalizationStateManager,
    NativeLocalizationDto, NativeLocalizationsDto,
};
use nativeblocks::mapper::to_model;
use nativeblocks::model::{NativeActionTriggerModel, NativeActionTriggerPropertyModel, NativeActionTriggerThen, NativeBlockPropertyModel};
use nativeblocks::repository::{
    after_load_download, after_sync_download, cached_checksum, frame_key, get_frame, initial_update,
    load_start, not_cached, read_frame, sends_sync_result, shown_load_result, LoadStart, StoredFrame, SyncOutcome,
};
use nativeblocks::script::{
    cast, cast_kind, decimal_text, override_property, script_source, variable_change_message, CastKind,
};

fn s(v: &str) -> Option<String> {
    Some(v.to_string())
}

fn frame(checksum: &str) -> nativeblocks::model::NativeFrameModel {
    to_model(&Some(NativeFrameDto { checksum: s(checksum), ..Default::default() }))
}

#[test]
fn localization_response_is_keyed() {
    let dto = NativeLocalizationsDto {
        checksum: s("c"),
        localizations: Some(vec![
            NativeLocalizationDto { key: s("hi"), value: s("Hello") },
            NativeLocalizationDto { key: s("hi"), value: s("Hey") },
            NativeLocalizationDto { key: None, value: s("blank") },
        ]),
    };
    let m = localization_model(&Some(dto));
    assert_eq!(m.checksum.as_deref(), Some("c"));
    assert_eq!(m.localizations.get("hi").map(|v| v.as_str()), Some("Hey"));
    assert_eq!(m.localizations.get("").map(|v| v.as_str()), Some("blank"));
    assert!(localization_model(&None).localizations.is_empty());
}

#[test]
fn localization_client_translates_loaded_keys() {
    let mut client = LocalizationClient::create();
    assert!(client.language_code().is_none());
    client.set_language_code("fr".into());
    assert_eq!(client.language_code().as_deref(), Some("fr"));
    assert_eq!(client.translate("hi".into()), None);
    let mut map = StringMap::new();
    map.insert("hi".to_string(), "Salut".to_string());
    client.apply(&nativeblocks::localization::NativeLocalizationModel { checksum: None, localizations: map });
    assert_eq!(client.translate("hi".into()).as_deref(), Some("Salut"));
}

#[test]
fn localization_manager_refreshes() {
    let mut manager = LocalizationStateManager::new();
    let first = manager.observe();
    assert!(matches!(first.state, LocalizationState::Loading));
    assert!(first.localizations.is_none());
    manager.begin_refresh("en".into());
    assert_eq!(manager.observe().language_code.as_deref(), Some("en"));
    let mut map = StringMap::new();
    map.insert("hi".to_string(), "Hello".to_string());
    let shown = manager.finish_refresh(Ok(nativeblocks::localization::NativeLocalizationModel { checksum: None, localizations: map }));
    assert_eq!(shown.unwrap().get("hi").map(|v| v.as_str()), Some("Hello"));
    let snap = manager.observe();
    assert!(matches!(snap.state, LocalizationState::Ready));
    assert!(snap.localizations.is_some());
    assert!(manager.finish_refresh(Err(ErrorModel::cache("miss"))).is_none());
    assert!(matches!(manager.localization_state(), LocalizationState::Loading));
    manager.finish_refresh(Err(ErrorModel::network("offline")));
    assert!(matches!(manager.localization_state(), LocalizationState::Error { .. }));
    manager.release();
    assert!(manager.observe().language_code.is_none());
    let mut client = LocalizationClient::create();
    manager.set_language_code(&mut client, "de".into());
    assert_eq!(client.language_code().as_deref(), Some("de"));
    assert_eq!(manager.translate(&client, "x".into()), None);
}

#[test]
fn cache_reads_and_keys() {
    assert_eq!(frame_key("home", true), dev_key("home"));
    assert_eq!(frame_key("home", false), prod_key("home"));
    assert_eq!(read_frame(StoredFrame::Missing).1, false);
    let (f, remove) = read_frame(StoredFrame::Unreadable { reason: "bad json".into() });
    assert!(f.is_none() && remove);
    let (f, remove) = read_frame(StoredFrame::Frame { frame: frame("a") });
    assert!(f.is_some() && !remove);
    let err = get_frame(None).unwrap_err();
    assert_eq!(err.error_code.as_deref(), Some("NB0101"));
    assert_eq!(err.message, "Please make sure internet connection is available");
    assert_eq!(get_frame(Some(frame("a"))).unwrap().checksum.as_deref(), Some("a"));
    assert_eq!(cached_checksum(&Some(frame("a"))).as_deref(), Some("a"));
    assert!(cached_checksum(&None).is_none());
    assert!(initial_update(None).is_err());
    assert_eq!(not_cached().error_code.as_deref(), Some("NB0101"));
}

#[test]
fn load_and_sync_publication() {
    assert!(matches!(load_start(Some(frame("a"))), LoadStart::ShowThenSync { .. }));
    assert!(matches!(load_start(None), LoadStart::Download));
    let (keep, shown, result) = after_load_download(Ok(SyncOutcome::Updated { frame: frame("a") }));
    assert!(keep.is_some() && shown.is_ok() && result.is_ok());
    let (keep, shown, result) = after_load_download(Ok(SyncOutcome::Unchanged));
    assert!(keep.is_none() && shown.is_err() && result.is_err());
    let (keep, shown, result) = after_load_download(Err(ErrorModel::network("down")));
    assert!(keep.is_none());
    assert_eq!(shown.unwrap_err().message, "down");
    assert_eq!(result.unwrap_err().message, "down");
    let (keep, sent, result) = after_sync_download(true, true, Ok(SyncOutcome::Updated { frame: frame("a") }));
    assert!(keep.is_some() && matches!(sent, Some(Ok(_))) && result.is_ok());
    let (keep, sent, result) = after_sync_download(false, true, Ok(SyncOutcome::Updated { frame: frame("a") }));
    assert!(keep.is_some() && sent.is_none() && result.is_ok());
    let (keep, sent, _) = after_sync_download(false, false, Ok(SyncOutcome::Updated { frame: frame("a") }));
    assert!(keep.is_some() && matches!(sent, Some(Ok(_))));
    let (keep, sent, result) = after_sync_download(false, true, Ok(SyncOutcome::Unchanged));
    assert!(keep.is_none() && sent.is_none() && result.is_ok());
    let (keep, sent, result) = after_sync_download(false, false, Err(ErrorModel::network("down")));
    assert!(keep.is_none());
    assert_eq!(sent.unwrap().unwrap_err().message, "down");
    assert_eq!(result.unwrap_err().message, "down");
    let (_, sent, result) = after_sync_download(true, true, Err(ErrorModel::network("down")));
    assert!(sent.is_none() && result.is_err());
    assert!(shown_load_result(Err(ErrorModel::network("down"))).is_ok());
    assert!(sends_sync_result(true, true, true));
    assert!(!sends_sync_result(false, true, true));
    assert!(sends_sync_result(false, false, true));
    assert!(!sends_sync_result(true, true, false));
    assert!(sends_sync_result(true, false, false));
}

#[test]
fn decimal_text_writes_integers() {
    assert_eq!(decimal_text(0), "0");
    assert_eq!(decimal_text(42), "42");
    assert_eq!(decimal_text(-42), "-42");
    assert_eq!(decimal_text(i64::MIN), "-9223372036854775808");
    assert_eq!(decimal_text(i64::MAX), "9223372036854775807");
}

#[test]
fn cast_converts_script_values() {
    assert_eq!(cast_kind("int"), CastKind::Int);
    assert_eq!(cast_kind("Boolean"), CastKind::Boolean);
    assert_eq!(cast_kind("double"), CastKind::Double);
    assert_eq!(cast_kind("STRING"), CastKind::Text);
    assert_eq!(cast("007", CastKind::Int).as_deref(), Some("7"));
    assert_eq!(cast("+5", CastKind::Int).as_deref(), Some("5"));
    assert_eq!(cast("abc", CastKind::Int).as_deref(), Some(""));
    assert_eq!(cast("3000000000", CastKind::Int).as_deref(), Some(""));
    assert_eq!(cast("3000000000", CastKind::Long).as_deref(), Some("3000000000"));
    assert_eq!(cast("true", CastKind::Boolean).as_deref(), Some("true"));
    assert_eq!(cast("yes", CastKind::Boolean).as_deref(), Some(""));
    assert_eq!(cast("x", CastKind::Text).as_deref(), Some("x"));
    assert_eq!(cast("1.5", CastKind::Double), None);
}

#[test]
fn script_source_replaces_index() {
    let mut properties = StringMap::new();
    properties.insert(
        "script".to_string(),
        NativeActionTriggerPropertyModel { key: "script".into(), value: "show({{index}}, {{index}})".into(), value_type: "STRING".into() },
    );
    let trigger = NativeActionTriggerModel {
        name: "s".into(),
        id: "t1".into(),
        parent_id: "".into(),
        version: 1,
        key_type: "SCRIPT".into(),
        branch: NativeActionTriggerThen::Next,
        properties,
        data: StringMap::new(),
    };
    assert_eq!(script_source(&trigger, 3).as_deref(), Some("show(3, 3)"));
    let empty = NativeActionTriggerModel { properties: StringMap::new(), ..trigger };
    assert!(script_source(&empty, 3).is_none());
}

#[test]
fn variable_change_messages() {
    assert_eq!(variable_change_message("a", &s("1"), "2"), "Variable changed: a changed from '1' to '2'");
    assert_eq!(variable_change_message("a", &s("2"), "2"), "Variable changed: a set to '2'");
    assert_eq!(variable_change_message("a", &None, "2"), "Variable changed: a set to '2'");
}

#[test]
fn property_overrides_keep_other_devices() {
    let current = NativeBlockPropertyModel {
        key: "color".into(),
        value_mobile: "red".into(),
        value_tablet: "green".into(),
        value_desktop: "blue".into(),
        value_type: "STRING".into(),
    };
    let p = override_property(&current, s("black"), None, s("white"));
    assert_eq!(p.value_mobile, "black");
    assert_eq!(p.value_tablet, "green");
    assert_eq!(p.value_desktop, "white");
    assert_eq!(p.key, "color");
}
