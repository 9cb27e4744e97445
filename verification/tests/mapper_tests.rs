use nativeblocks::dto::{
    NativeActionDto, NativeActionTriggerDto, NativeActionTriggerPropertyDto, NativeBlockDataDto,
    NativeBlockDto, NativeFrameDataDto, NativeFrameDto, NativeFrameProductionChecksumDataDto,
    NativeFrameProductionChecksumDto, NativeVariableDto,
};
use nativeblocks::layout::{group_blocks, group_triggers};
use nativeblocks::mapper::{checksum_of, frame_of, map_block, map_trigger, text, to_model};
use nativeblocks::model::NativeActionTriggerThen;

fn s(v: &str) -> Option<String> {
    Some(v.to_string())
}

fn block(id: &str, key: &str, key_type: &str, position: Option<i32>) -> NativeBlockDto {
    NativeBlockDto {
        id: s(id),
        parent_id: s(""),
        integration_version: Some(1),
        slot: s(""),
        key_type: s(key_type),
        key: s(key),
        visibility_key: s("visible"),
        position,
        ..Default::default()
    }
}

fn sample_frame() -> NativeFrameDto {
    NativeFrameDto {
        checksum: s("abc"),
        variables: Some(vec![NativeVariableDto {
            key: s("name"),
            value: s("Bob"),
            variable_type: s("STRING"),
        }]),
        blocks: Some(vec![block("b1", "root", "ROOT", Some(0))]),
        actions: Some(vec![NativeActionDto {
            id: s("a1"),
            key: s("root"),
            event: s("onAppear"),
            triggers: Some(vec![NativeActionTriggerDto {
                id: s("t1"),
                parent_id: s(""),
                integration_version: Some(1),
                name: s("log"),
                key_type: s("LOG"),
                branch: s("NEXT"),
                ..Default::default()
            }]),
        }]),
    }
}

#[test]
fn missing_frame_reads_as_empty() {
    let m = to_model(&None);
    assert!(m.checksum.is_none());
    assert!(m.variables.is_empty() && m.blocks.is_empty() && m.actions.is_empty());
    assert!(m.root_id.is_none());
}

#[test]
fn frame_is_keyed_by_key() {
    let m = to_model(&Some(sample_frame()));
    assert_eq!(m.checksum.as_deref(), Some("abc"));
    assert_eq!(m.variables.get("name").map(|v| v.value.as_str()), Some("Bob"));
    assert_eq!(m.variables.get("name").map(|v| v.value_type.as_str()), Some("STRING"));
    let root = m.blocks.get("root").expect("block keyed by its key");
    assert_eq!(root.id, "b1");
    assert_eq!(root.key_type, "ROOT");
    assert_eq!(m.root_id.as_deref(), Some("b1"));
    let actions = m.actions.get("root").expect("actions grouped by key");
    assert_eq!(actions.len(), 1);
    assert_eq!(actions[0].triggers[0].branch, NativeActionTriggerThen::Next);
}

#[test]
fn missing_fields_take_defaults() {
    let b = map_block(&NativeBlockDto::default());
    assert_eq!(b.id, "");
    assert_eq!(b.version, -1);
    assert_eq!(b.position, 0);
    assert!(b.data.is_empty() && b.properties.is_empty() && b.slots.is_empty());
    let t = map_trigger(&NativeActionTriggerDto::default());
    assert_eq!(t.branch, NativeActionTriggerThen::End);
    assert_eq!(t.version, -1);
    assert_eq!(text(&None), "");
}

#[test]
fn later_item_with_same_key_wins() {
    let dto = NativeFrameDto {
        variables: Some(vec![
            NativeVariableDto { key: s("k"), value: s("1"), variable_type: s("INT") },
            NativeVariableDto { key: s("k"), value: s("2"), variable_type: s("INT") },
        ]),
        ..Default::default()
    };
    let m = to_model(&Some(dto));
    assert_eq!(m.variables.len(), 1);
    assert_eq!(m.variables.get("k").map(|v| v.value.as_str()), Some("2"));
}

#[test]
fn block_data_and_trigger_properties_are_keyed() {
    let mut b = block("b1", "title", "TEXT", Some(3));
    b.data = Some(vec![NativeBlockDataDto { key: s("text"), value: s("name"), data_type: s("STRING") }]);
    let model = map_block(&b);
    assert_eq!(model.data.get("text").map(|d| d.value.as_str()), Some("name"));
    let t = NativeActionTriggerDto {
        properties: Some(vec![NativeActionTriggerPropertyDto {
            key: s("script"),
            value: s("x"),
            property_type: s("STRING"),
        }]),
        branch: s("FAILURE"),
        ..Default::default()
    };
    let tm = map_trigger(&t);
    assert_eq!(tm.properties.get("script").map(|p| p.value.as_str()), Some("x"));
    assert_eq!(tm.branch, NativeActionTriggerThen::Failure);
}

#[test]
fn root_is_the_first_root_block_of_least_position() {
    let dto = NativeFrameDto {
        blocks: Some(vec![
            block("b1", "one", "ROOT", Some(5)),
            block("b2", "two", "COLUMN", Some(0)),
            block("b3", "three", "ROOT", Some(1)),
            block("b4", "four", "ROOT", Some(1)),
        ]),
        ..Default::default()
    };
    assert_eq!(to_model(&Some(dto)).root_id.as_deref(), Some("b3"));
    let none = NativeFrameDto { blocks: Some(vec![block("b2", "two", "COLUMN", None)]), ..Default::default() };
    assert!(to_model(&Some(none)).root_id.is_none());
}

#[test]
fn response_picks_the_asked_frame() {
    let data = NativeFrameDataDto { frame: Some(sample_frame()), frame_production: None };
    assert_eq!(frame_of(&data, false).checksum.as_deref(), Some("abc"));
    assert!(frame_of(&data, true).checksum.is_none());
}

#[test]
fn checksum_response_defaults_to_empty() {
    let some = NativeFrameProductionChecksumDataDto {
        frame_production_checksum: Some(NativeFrameProductionChecksumDto { checksum: s("abc") }),
    };
    assert_eq!(checksum_of(&some), "abc");
    assert_eq!(checksum_of(&NativeFrameProductionChecksumDataDto::default()), "");
}

fn child(id: &str, parent: &str, position: Option<i32>) -> NativeBlockDto {
    NativeBlockDto { parent_id: s(parent), ..block(id, id, "BOX", position) }
}

#[test]
fn blocks_are_grouped_by_parent_in_position_order() {
    let dto = NativeFrameDto {
        blocks: Some(vec![
            block("root", "root", "ROOT", Some(0)),
            child("c", "root", Some(2)),
            child("a", "root", Some(1)),
            child("d", "root", Some(2)),
            child("x", "c", None),
            child("b", "root", Some(0)),
        ]),
        ..Default::default()
    };
    let groups = group_blocks(&dto);
    assert_eq!(groups.len(), 3);
    let ids = |parent: &str| -> Vec<String> {
        groups.get(parent).unwrap().iter().map(|b| b.id.clone()).collect()
    };
    assert_eq!(ids(""), vec!["root"]);
    assert_eq!(ids("root"), vec!["b", "a", "c", "d"]);
    assert_eq!(ids("c"), vec!["x"]);
    assert!(group_blocks(&NativeFrameDto::default()).is_empty());
}

#[test]
fn triggers_are_grouped_by_parent_in_list_order() {
    let trigger = |id: &str, parent: &str| NativeActionTriggerDto {
        id: s(id),
        parent_id: s(parent),
        branch: s("NEXT"),
        ..Default::default()
    };
    let dto = NativeActionDto {
        id: s("a1"),
        key: s("btn"),
        event: s("onClick"),
        triggers: Some(vec![trigger("t1", ""), trigger("t2", "t1"), trigger("t3", ""), trigger("t4", "t1")]),
    };
    let groups = group_triggers(&dto);
    let ids = |parent: &str| -> Vec<String> {
        groups.get(parent).unwrap().iter().map(|t| t.id.clone()).collect()
    };
    assert_eq!(groups.len(), 2);
    assert_eq!(ids(""), vec!["t1", "t3"]);
    assert_eq!(ids("t1"), vec!["t2", "t4"]);
    assert_eq!(groups.get("t1").unwrap()[0].branch, NativeActionTriggerThen::Next);
}

#[test]
fn root_survives_a_later_block_with_the_same_key() {
    let dto = NativeFrameDto {
        blocks: Some(vec![
            NativeBlockDto { id: s("r"), key_type: s("ROOT"), ..Default::default() },
            NativeBlockDto { id: s("c"), key_type: s("COLUMN"), ..Default::default() },
        ]),
        ..Default::default()
    };
    let model = to_model(&Some(dto));
    assert_eq!(model.root_id.as_deref(), Some("r"));
    assert_eq!(model.blocks.len(), 1);
    assert_eq!(model.blocks.get("").unwrap().id, "c");
}
