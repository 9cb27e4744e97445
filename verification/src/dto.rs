use vstd::prelude::*;

verus! {

/// The `data` object of a frame response: the development frame or the
/// production frame, whichever the query asked for.
#[derive(Debug, Default)]
pub struct NativeFrameDataDto {
    pub frame: Option<NativeFrameDto>,
    pub frame_production: Option<NativeFrameDto>,
}

#[derive(Debug, Default)]
pub struct NativeFrameDto {
    pub checksum: Option<String>,
    pub variables: Option<Vec<NativeVariableDto>>,
    pub blocks: Option<Vec<NativeBlockDto>>,
    pub actions: Option<Vec<NativeActionDto>>,
}

#[derive(Debug, Default)]
pub struct NativeVariableDto {
    pub key: Option<String>,
    pub value: Option<String>,
    pub variable_type: Option<String>,
}

#[derive(Debug, Default)]
pub struct NativeBlockDto {
    pub id: Option<String>,
    pub parent_id: Option<String>,
    pub integration_version: Option<i32>,
    pub slot: Option<String>,
    pub key_type: Option<String>,
    pub key: Option<String>,
    pub visibility_key: Option<String>,
    pub position: Option<i32>,
    pub data: Option<Vec<NativeBlockDataDto>>,
    pub properties: Option<Vec<NativeBlockPropertyDto>>,
    pub slots: Option<Vec<NativeBlockSlotDto>>,
}

#[derive(Debug, Default)]
pub struct NativeBlockPropertyDto {
    pub key: Option<String>,
    pub value_mobile: Option<String>,
    pub value_tablet: Option<String>,
    pub value_desktop: Option<String>,
    pub property_type: Option<String>,
}

#[derive(Debug, Default)]
pub struct NativeBlockDataDto {
    pub key: Option<String>,
    pub value: Option<String>,
    pub data_type: Option<String>,
}

#[derive(Debug, Default)]
pub struct NativeBlockSlotDto {
    pub slot: Option<String>,
}

#[derive(Debug, Default)]
pub struct NativeActionDto {
    pub id: Option<String>,
    pub key: Option<String>,
    pub event: Option<String>,
    pub triggers: Option<Vec<NativeActionTriggerDto>>,
}

/// A trigger as the server sends it; `branch` is the JSON field `then`.
#[derive(Debug, Default)]
pub struct NativeActionTriggerDto {
    pub id: Option<String>,
    pub parent_id: Option<String>,
    pub integration_version: Option<i32>,
    pub name: Option<String>,
    pub key_type: Option<String>,
    pub branch: Option<String>,
    pub properties: Option<Vec<NativeActionTriggerPropertyDto>>,
    pub data: Option<Vec<NativeActionTriggerDataDto>>,
}

#[derive(Debug, Default)]
pub struct NativeActionTriggerPropertyDto {
    pub key: Option<String>,
    pub value: Option<String>,
    pub property_type: Option<String>,
}

#[derive(Debug, Default)]
pub struct NativeActionTriggerDataDto {
    pub key: Option<String>,
    pub value: Option<String>,
    pub data_type: Option<String>,
}

#[derive(Debug, Default)]
pub struct NativeFrameProductionChecksumDataDto {
    pub frame_production_checksum: Option<NativeFrameProductionChecksumDto>,
}

#[derive(Debug, Default)]
pub struct NativeFrameProductionChecksumDto {
    pub checksum: Option<String>,
}

} // verus!
