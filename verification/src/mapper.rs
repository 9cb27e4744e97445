use vstd::prelude::*;

use crate::collections::{to_map, Duplicate, StringMap};
use crate::dto::{
    NativeActionDto, NativeActionTriggerDataDto, NativeActionTriggerDto,
    NativeActionTriggerPropertyDto, NativeBlockDataDto, NativeBlockDto, NativeBlockPropertyDto,
    NativeBlockSlotDto, NativeFrameDataDto, NativeFrameDto, NativeFrameProductionChecksumDataDto,
    NativeVariableDto,
};
use crate::model::{
    then_of_text, ActionView, BlockView, FrameView, NativeActionModel,
    NativeActionTriggerDataModel, NativeActionTriggerModel, NativeActionTriggerPropertyModel,
    NativeActionTriggerThen, NativeBlockDataModel, NativeBlockModel, NativeBlockPropertyModel,
    NativeBlockSlotModel, NativeFrameModel, NativeVariableModel, PropertyView, TriggerView,
    TypedValueView,
};
use crate::text::str_equal;

verus! {

pub const ROOT_KEY_TYPE: &'static str = "ROOT";

/// The text of an optional server string; a missing string reads as empty.
pub open spec fn opt_text(value: Option<Seq<char>>) -> Seq<char> {
    match value {
        Some(s) => s,
        None => Seq::empty(),
    }
}

/// The items of an optional server list; a missing list reads as empty.
pub open spec fn opt_items<D>(items: Option<Vec<D>>) -> Seq<D> {
    match items {
        Some(v) => v@,
        None => Seq::empty(),
    }
}

/// A model that is read from a server item of type `D`.
pub trait MapFrom<D>: Sized + DeepView {
    spec fn spec_map(d: D) -> Self::V;

    fn map_from(d: &D) -> (r: Self)
        ensures
            r.deep_view() == Self::spec_map(*d),
    ;
}

/// A model with a text key, by which it is stored in a keyed map.
pub trait Keyed: DeepView {
    spec fn spec_key(v: Self::V) -> Seq<char>;

    fn key(&self) -> (r: &String)
        ensures
            r@ == Self::spec_key(self.deep_view()),
    ;
}

/// The entries that keying the items of a list makes, in list order.
pub open spec fn keyed_entries<D, M: Keyed + MapFrom<D>>(items: Seq<D>) -> Seq<(Seq<char>, M::V)> {
    items.map_values(|d: D| (M::spec_key(M::spec_map(d)), M::spec_map(d)))
}

/// The map keying the items of a server list builds: a later item replaces an
/// earlier item with the same key.
pub open spec fn keyed_view<D, M: Keyed + MapFrom<D>>(items: Option<Vec<D>>) -> Map<
    Seq<char>,
    M::V,
> {
    to_map(keyed_entries::<D, M>(opt_items(items)))
}

/// Groups models by key, each group in list order.
pub open spec fn group_view<T>(entries: Seq<(Seq<char>, T)>) -> Map<Seq<char>, Seq<T>>
    decreases entries.len(),
{
    if entries.len() == 0 {
        Map::empty()
    } else {
        let m = group_view(entries.drop_last());
        let k = entries.last().0;
        let v = entries.last().1;
        m.insert(k, if m.contains_key(k) { m[k].push(v) } else { seq![v] })
    }
}

/// The map grouping the items of a server list by key builds.
pub open spec fn grouped_view<D, M: Keyed + MapFrom<D>>(items: Option<Vec<D>>) -> Map<
    Seq<char>,
    Seq<M::V>,
> {
    group_view(keyed_entries::<D, M>(opt_items(items)))
}

pub fn text(value: &Option<String>) -> (r: String)
    ensures
        r@ == opt_text(value.deep_view()),
{
    match value {
        Some(s) => s.clone(),
        None => String::new(),
    }
}

pub fn keyed<D, M: Keyed + MapFrom<D>>(items: &Option<Vec<D>>) -> (r: StringMap<M>)
    ensures
        r@ == keyed_view::<D, M>(*items),
{
    let mut out: StringMap<M> = StringMap::new();
    match items {
        None => {
            assert(keyed_entries::<D, M>(opt_items(*items)) =~= Seq::empty());
        },
        Some(list) => {
            let ghost entries = keyed_entries::<D, M>(list@);
            let mut i: usize = 0;
            while i < list.len()
                invariant
                    i <= list@.len(),
                    entries == keyed_entries::<D, M>(list@),
                    out@ == to_map(entries.take(i as int)),
                decreases list@.len() - i,
            {
                let model = M::map_from(&list[i]);
                let key = model.key().clone();
                out.insert(key, model);
                assert(entries.take(i + 1).drop_last() =~= entries.take(i as int));
                i = i + 1;
            }
            assert(entries.take(list@.len() as int) =~= entries);
        },
    }
    out
}

pub fn grouped<D, M: Keyed + MapFrom<D> + Duplicate>(items: &Option<Vec<D>>) -> (r: StringMap<
    Vec<M>,
>)
    ensures
        r@ == grouped_view::<D, M>(*items),
{
    let mut out: StringMap<Vec<M>> = StringMap::new();
    match items {
        None => {
            assert(keyed_entries::<D, M>(opt_items(*items)) =~= Seq::empty());
        },
        Some(list) => {
            let ghost entries = keyed_entries::<D, M>(list@);
            let mut i: usize = 0;
            while i < list.len()
                invariant
                    i <= list@.len(),
                    entries == keyed_entries::<D, M>(list@),
                    out@ == group_view(entries.take(i as int)),
                decreases list@.len() - i,
            {
                let model = M::map_from(&list[i]);
                let key = model.key().clone();
                let mut bucket: Vec<M> = match out.get(key.as_str()) {
                    Some(existing) => existing.duplicate(),
                    None => Vec::new(),
                };
                bucket.push(model);
                proof {
                    assert(entries.take(i + 1).drop_last() =~= entries.take(i as int));
                    let prev = group_view(entries.take(i as int));
                    if prev.contains_key(key@) {
                        assert(bucket.deep_view() =~= prev[key@].push(entries[i as int].1));
                    } else {
                        assert(bucket.deep_view() =~= seq![entries[i as int].1]);
                    }
                }
                out.insert(key, bucket);
                i = i + 1;
            }
            assert(entries.take(list@.len() as int) =~= entries);
        },
    }
    out
}

// ------------------------------------------------------------ leaf items

pub open spec fn spec_variable(d: NativeVariableDto) -> TypedValueView {
    TypedValueView {
        key: opt_text(d.key.deep_view()),
        value: opt_text(d.value.deep_view()),
        value_type: opt_text(d.variable_type.deep_view()),
    }
}

pub fn map_variable(dto: &NativeVariableDto) -> (r: NativeVariableModel)
    ensures
        r.deep_view() == spec_variable(*dto),
        r.key@ == opt_text(dto.key.deep_view()),
        r.value@ == opt_text(dto.value.deep_view()),
        r.value_type@ == opt_text(dto.variable_type.deep_view()),
{
    NativeVariableModel {
        key: text(&dto.key),
        value: text(&dto.value),
        value_type: text(&dto.variable_type),
    }
}

pub open spec fn spec_block_data(d: NativeBlockDataDto) -> TypedValueView {
    TypedValueView {
        key: opt_text(d.key.deep_view()),
        value: opt_text(d.value.deep_view()),
        value_type: opt_text(d.data_type.deep_view()),
    }
}

pub fn map_block_data(dto: &NativeBlockDataDto) -> (r: NativeBlockDataModel)
    ensures
        r.deep_view() == spec_block_data(*dto),
        r.key@ == opt_text(dto.key.deep_view()),
        r.value@ == opt_text(dto.value.deep_view()),
        r.value_type@ == opt_text(dto.data_type.deep_view()),
{
    NativeBlockDataModel {
        key: text(&dto.key),
        value: text(&dto.value),
        value_type: text(&dto.data_type),
    }
}

pub open spec fn spec_block_property(d: NativeBlockPropertyDto) -> PropertyView {
    PropertyView {
        key: opt_text(d.key.deep_view()),
        value_mobile: opt_text(d.value_mobile.deep_view()),
        value_tablet: opt_text(d.value_tablet.deep_view()),
        value_desktop: opt_text(d.value_desktop.deep_view()),
        value_type: opt_text(d.property_type.deep_view()),
    }
}

pub fn map_block_property(dto: &NativeBlockPropertyDto) -> (r: NativeBlockPropertyModel)
    ensures
        r.deep_view() == spec_block_property(*dto),
        r.key@ == opt_text(dto.key.deep_view()),
        r.value_mobile@ == opt_text(dto.value_mobile.deep_view()),
        r.value_tablet@ == opt_text(dto.value_tablet.deep_view()),
        r.value_desktop@ == opt_text(dto.value_desktop.deep_view()),
        r.value_type@ == opt_text(dto.property_type.deep_view()),
{
    NativeBlockPropertyModel {
        key: text(&dto.key),
        value_mobile: text(&dto.value_mobile),
        value_tablet: text(&dto.value_tablet),
        value_desktop: text(&dto.value_desktop),
        value_type: text(&dto.property_type),
    }
}

/// A mapped property takes each device value from the same device field of
/// the server item, its key from the key and its type from the type; a
/// missing field reads as empty.
pub proof fn law_property_devices_come_from_their_own_fields(d: NativeBlockPropertyDto)
    ensures
        spec_block_property(d).key == opt_text(d.key.deep_view()),
        spec_block_property(d).value_mobile == opt_text(d.value_mobile.deep_view()),
        spec_block_property(d).value_tablet == opt_text(d.value_tablet.deep_view()),
        spec_block_property(d).value_desktop == opt_text(d.value_desktop.deep_view()),
        spec_block_property(d).value_type == opt_text(d.property_type.deep_view()),
        d.value_tablet matches Some(t) ==> spec_block_property(d).value_tablet == t@,
        d.value_desktop matches Some(t) ==> spec_block_property(d).value_desktop == t@,
        d.value_mobile matches Some(t) ==> spec_block_property(d).value_mobile == t@,
{
}

pub open spec fn spec_block_slot(d: NativeBlockSlotDto) -> Seq<char> {
    opt_text(d.slot.deep_view())
}

pub fn map_block_slot(dto: &NativeBlockSlotDto) -> (r: NativeBlockSlotModel)
    ensures
        r.deep_view() == spec_block_slot(*dto),
        r.slot@ == opt_text(dto.slot.deep_view()),
{
    NativeBlockSlotModel { slot: text(&dto.slot) }
}

pub open spec fn spec_trigger_property(d: NativeActionTriggerPropertyDto) -> TypedValueView {
    TypedValueView {
        key: opt_text(d.key.deep_view()),
        value: opt_text(d.value.deep_view()),
        value_type: opt_text(d.property_type.deep_view()),
    }
}

pub fn map_trigger_property(dto: &NativeActionTriggerPropertyDto) -> (r:
    NativeActionTriggerPropertyModel)
    ensures
        r.deep_view() == spec_trigger_property(*dto),
        r.key@ == opt_text(dto.key.deep_view()),
        r.value@ == opt_text(dto.value.deep_view()),
        r.value_type@ == opt_text(dto.property_type.deep_view()),
{
    NativeActionTriggerPropertyModel {
        key: text(&dto.key),
        value: text(&dto.value),
        value_type: text(&dto.property_type),
    }
}

pub open spec fn spec_trigger_data(d: NativeActionTriggerDataDto) -> TypedValueView {
    TypedValueView {
        key: opt_text(d.key.deep_view()),
        value: opt_text(d.value.deep_view()),
        value_type: opt_text(d.data_type.deep_view()),
    }
}

pub fn map_trigger_data(dto: &NativeActionTriggerDataDto) -> (r: NativeActionTriggerDataModel)
    ensures
        r.deep_view() == spec_trigger_data(*dto),
        r.key@ == opt_text(dto.key.deep_view()),
        r.value@ == opt_text(dto.value.deep_view()),
        r.value_type@ == opt_text(dto.data_type.deep_view()),
{
    NativeActionTriggerDataModel {
        key: text(&dto.key),
        value: text(&dto.value),
        value_type: text(&dto.data_type),
    }
}

pub open spec fn spec_block(d: NativeBlockDto) -> BlockView {
    BlockView {
        id: opt_text(d.id.deep_view()),
        parent_id: opt_text(d.parent_id.deep_view()),
        version: match d.integration_version {
            Some(v) => v,
            None => -1i32,
        },
        slot: opt_text(d.slot.deep_view()),
        key_type: opt_text(d.key_type.deep_view()),
        key: opt_text(d.key.deep_view()),
        visibility: opt_text(d.visibility_key.deep_view()),
        position: match d.position {
            Some(p) => p,
            None => 0,
        },
        data: keyed_view::<NativeBlockDataDto, NativeBlockDataModel>(d.data),
        properties: keyed_view::<NativeBlockPropertyDto, NativeBlockPropertyModel>(d.properties),
        slots: keyed_view::<NativeBlockSlotDto, NativeBlockSlotModel>(d.slots),
    }
}

pub fn map_block(dto: &NativeBlockDto) -> (r: NativeBlockModel)
    ensures
        r.deep_view() == spec_block(*dto),
        r.id@ == opt_text(dto.id.deep_view()),
        r.parent_id@ == opt_text(dto.parent_id.deep_view()),
        r.slot@ == opt_text(dto.slot.deep_view()),
        r.key_type@ == opt_text(dto.key_type.deep_view()),
        r.key@ == opt_text(dto.key.deep_view()),
        r.visibility@ == opt_text(dto.visibility_key.deep_view()),
        dto.integration_version matches Some(v) ==> r.version == v,
        dto.integration_version is None ==> r.version == -1,
        dto.position matches Some(p) ==> r.position == p,
        dto.position is None ==> r.position == 0,
{
    NativeBlockModel {
        id: text(&dto.id),
        parent_id: text(&dto.parent_id),
        version: match dto.integration_version {
            Some(v) => v,
            None => -1i32,
        },
        slot: text(&dto.slot),
        key_type: text(&dto.key_type),
        key: text(&dto.key),
        visibility: text(&dto.visibility_key),
        position: match dto.position {
            Some(p) => p,
            None => 0,
        },
        data: keyed::<NativeBlockDataDto, NativeBlockDataModel>(&dto.data),
        properties: keyed::<NativeBlockPropertyDto, NativeBlockPropertyModel>(&dto.properties),
        slots: keyed::<NativeBlockSlotDto, NativeBlockSlotModel>(&dto.slots),
    }
}

pub open spec fn spec_trigger(d: NativeActionTriggerDto) -> TriggerView {
    TriggerView {
        name: opt_text(d.name.deep_view()),
        id: opt_text(d.id.deep_view()),
        parent_id: opt_text(d.parent_id.deep_view()),
        version: match d.integration_version {
            Some(v) => v,
            None => -1i32,
        },
        key_type: opt_text(d.key_type.deep_view()),
        branch: then_of_text(opt_text(d.branch.deep_view())),
        properties: keyed_view::<NativeActionTriggerPropertyDto, NativeActionTriggerPropertyModel>(
            d.properties,
        ),
        data: keyed_view::<NativeActionTriggerDataDto, NativeActionTriggerDataModel>(d.data),
    }
}

pub fn map_trigger(dto: &NativeActionTriggerDto) -> (r: NativeActionTriggerModel)
    ensures
        r.deep_view() == spec_trigger(*dto),
        r.name@ == opt_text(dto.name.deep_view()),
        r.id@ == opt_text(dto.id.deep_view()),
        r.parent_id@ == opt_text(dto.parent_id.deep_view()),
        r.key_type@ == opt_text(dto.key_type.deep_view()),
        dto.integration_version matches Some(v) ==> r.version == v,
        dto.integration_version is None ==> r.version == -1,
{
    let branch_text = text(&dto.branch);
    NativeActionTriggerModel {
        branch: NativeActionTriggerThen::from_then(branch_text.as_str()),
        name: text(&dto.name),
        id: text(&dto.id),
        parent_id: text(&dto.parent_id),
        version: match dto.integration_version {
            Some(v) => v,
            None => -1i32,
        },
        key_type: text(&dto.key_type),
        properties: keyed::<NativeActionTriggerPropertyDto, NativeActionTriggerPropertyModel>(
            &dto.properties,
        ),
        data: keyed::<NativeActionTriggerDataDto, NativeActionTriggerDataModel>(&dto.data),
    }
}

pub open spec fn spec_action(d: NativeActionDto) -> ActionView {
    ActionView {
        id: opt_text(d.id.deep_view()),
        key: opt_text(d.key.deep_view()),
        event: opt_text(d.event.deep_view()),
        triggers: opt_items(d.triggers).map_values(|t: NativeActionTriggerDto| spec_trigger(t)),
    }
}

pub fn map_action(dto: &NativeActionDto) -> (r: NativeActionModel)
    ensures
        r.deep_view() == spec_action(*dto),
        r.id@ == opt_text(dto.id.deep_view()),
        r.key@ == opt_text(dto.key.deep_view()),
        r.event@ == opt_text(dto.event.deep_view()),
        r.triggers@.len() == opt_items(dto.triggers).len(),
{
    let mut triggers: Vec<NativeActionTriggerModel> = Vec::new();
    match &dto.triggers {
        None => {},
        Some(list) => {
            let mut i: usize = 0;
            while i < list.len()
                invariant
                    i <= list@.len(),
                    triggers@.len() == i,
                    forall|j: int|
                        0 <= j < i ==> (#[trigger] triggers@[j]).deep_view() == spec_trigger(
                            list@[j],
                        ),
                decreases list@.len() - i,
            {
                triggers.push(map_trigger(&list[i]));
                i = i + 1;
            }
        },
    }
    let r = NativeActionModel {
        id: text(&dto.id),
        key: text(&dto.key),
        event: text(&dto.event),
        triggers,
    };
    assert(r.triggers.deep_view() =~= opt_items(dto.triggers).map_values(
        |t: NativeActionTriggerDto| spec_trigger(t),
    ));
    r
}

/// The ROOT block that comes first among those of least position, if any.
pub open spec fn spec_root_block(entries: Seq<(Seq<char>, BlockView)>) -> Option<BlockView>
    decreases entries.len(),
{
    if entries.len() == 0 {
        None
    } else {
        let earlier = spec_root_block(entries.drop_last());
        let b = entries.last().1;
        if b.key_type == ROOT_KEY_TYPE@ && (earlier is None || b.position < earlier->0.position) {
            Some(b)
        } else {
            earlier
        }
    }
}

/// The id of the root block.
pub open spec fn spec_root_id(entries: Seq<(Seq<char>, BlockView)>) -> Option<Seq<char>> {
    match spec_root_block(entries) {
        Some(b) => Some(b.id),
        None => None,
    }
}

/// The root block, when there is one, is a ROOT block, and no ROOT block
/// has a smaller position.
pub proof fn law_root_block_is_first_least_root(entries: Seq<(Seq<char>, BlockView)>)
    ensures
        spec_root_block(entries) matches Some(b) ==> b.key_type == ROOT_KEY_TYPE@ && (forall|i: int|
            0 <= i < entries.len() && (#[trigger] entries[i]).1.key_type == ROOT_KEY_TYPE@
                ==> b.position <= entries[i].1.position),
        spec_root_block(entries) is None ==> forall|i: int|
            0 <= i < entries.len() ==> (#[trigger] entries[i]).1.key_type != ROOT_KEY_TYPE@,
    decreases entries.len(),
{
    if entries.len() > 0 {
        let rest = entries.drop_last();
        law_root_block_is_first_least_root(rest);
        let n = entries.len() - 1;
        match spec_root_block(entries) {
            Some(b) => {
                assert forall|i: int|
                    0 <= i < entries.len() && (#[trigger] entries[i]).1.key_type == ROOT_KEY_TYPE@
                        implies b.position <= entries[i].1.position by {
                    if i < n {
                        assert(entries[i] == rest[i]);
                    }
                }
            },
            None => {
                assert forall|i: int| 0 <= i < entries.len() implies (#[trigger] entries[
                    i
                ]).1.key_type != ROOT_KEY_TYPE@ by {
                    if i < n {
                        assert(entries[i] == rest[i]);
                    }
                }
            },
        }
    }
}

pub open spec fn spec_frame(dto: Option<NativeFrameDto>) -> FrameView {
    match dto {
        None => FrameView {
            checksum: None,
            variables: Map::empty(),
            blocks: Map::empty(),
            root_id: None,
            actions: Map::empty(),
        },
        Some(d) => FrameView {
            checksum: d.checksum.deep_view(),
            variables: keyed_view::<NativeVariableDto, NativeVariableModel>(d.variables),
            blocks: keyed_view::<NativeBlockDto, NativeBlockModel>(d.blocks),
            root_id: spec_root_id(keyed_entries::<NativeBlockDto, NativeBlockModel>(opt_items(d.blocks))),
            actions: grouped_view::<NativeActionDto, NativeActionModel>(d.actions),
        },
    }
}

/// The entries that putting each entry of `s` in turn into an empty map keeps.
pub open spec fn put_all<T>(s: Seq<(Seq<char>, T)>) -> Seq<(Seq<char>, T)>
    decreases s.len(),
{
    if s.len() == 0 {
        Seq::empty()
    } else {
        crate::collections::put(put_all(s.drop_last()), s.last().0, s.last().1)
    }
}

/// Reads a frame as the server sends it; a missing frame reads as an empty one.
pub fn to_model(dto: &Option<NativeFrameDto>) -> (r: NativeFrameModel)
    ensures
        r.deep_view() == spec_frame(*dto),
{
    match dto {
        None => {
            let r = NativeFrameModel {
                checksum: None,
                variables: StringMap::new(),
                blocks: StringMap::new(),
                root_id: None,
                actions: StringMap::new(),
            };
            r
        },
        Some(d) => {
            let variables = keyed::<NativeVariableDto, NativeVariableModel>(&d.variables);
            let (blocks, root) = keyed_blocks(&d.blocks);
            let actions = grouped::<NativeActionDto, NativeActionModel>(&d.actions);
            NativeFrameModel {
                checksum: d.checksum.duplicate(),
                variables,
                blocks,
                root_id: root,
                actions,
            }
        },
    }
}

/// Keys the blocks of a frame by block key, keeping track of their order, and
/// finds the root block among all of them, before blocks that share a key
/// replace one another.
fn keyed_blocks(items: &Option<Vec<NativeBlockDto>>) -> (r: (StringMap<NativeBlockModel>, Option<String>))
    ensures
        r.0@ == keyed_view::<NativeBlockDto, NativeBlockModel>(*items),
        r.0.entries() == put_all(keyed_entries::<NativeBlockDto, NativeBlockModel>(opt_items(*items))),
        r.1.deep_view() == spec_root_id(keyed_entries::<NativeBlockDto, NativeBlockModel>(opt_items(*items))),
{
    let mut out: StringMap<NativeBlockModel> = StringMap::new();
    let mut best: Option<(i32, String)> = None;
    let ghost entries = keyed_entries::<NativeBlockDto, NativeBlockModel>(opt_items(*items));
    match items {
        None => {
            assert(entries =~= Seq::empty());
        },
        Some(list) => {
            let mut i: usize = 0;
            while i < list.len()
                invariant
                    i <= list@.len(),
                    entries == keyed_entries::<NativeBlockDto, NativeBlockModel>(list@),
                    out@ == to_map(entries.take(i as int)),
                    out.entries() == put_all(entries.take(i as int)),
                    match best {
                        Some((p, id)) => spec_root_block(entries.take(i as int)) matches Some(b)
                            && b.position == p && b.id == id@,
                        None => spec_root_block(entries.take(i as int)) is None,
                    },
                decreases list@.len() - i,
            {
                let model = map_block(&list[i]);
                assert(entries.take(i + 1).drop_last() =~= entries.take(i as int));
                assert(entries.take(i + 1).last() == entries[i as int]);
                if str_equal(model.key_type.as_str(), ROOT_KEY_TYPE) {
                    let better = match &best {
                        None => true,
                        Some((p, _)) => model.position < *p,
                    };
                    if better {
                        best = Some((model.position, model.id.clone()));
                    }
                }
                let key = model.key.clone();
                out.insert(key, model);
                i = i + 1;
            }
            assert(entries.take(list@.len() as int) =~= entries);
        },
    }
    let root = match best {
        Some((_, id)) => Some(id),
        None => None,
    };
    (out, root)
}

/// The checksum a production checksum response carries; none reads as empty.
pub fn checksum_of(dto: &NativeFrameProductionChecksumDataDto) -> (r: String)
    ensures
        r@ == match dto.frame_production_checksum {
            Some(c) => opt_text(c.checksum.deep_view()),
            None => Seq::empty(),
        },
{
    match &dto.frame_production_checksum {
        Some(c) => text(&c.checksum),
        None => String::new(),
    }
}

/// The frame of a frame response: the production frame or the development one.
pub fn frame_of(data: &NativeFrameDataDto, production: bool) -> (r: NativeFrameModel)
    ensures
        r.deep_view() == spec_frame(if production { data.frame_production } else { data.frame }),
{
    if production {
        to_model(&data.frame_production)
    } else {
        to_model(&data.frame)
    }
}

// -------------------------------------------------- keyed item adapters

impl MapFrom<NativeVariableDto> for NativeVariableModel {
    open spec fn spec_map(d: NativeVariableDto) -> TypedValueView {
        spec_variable(d)
    }

    fn map_from(d: &NativeVariableDto) -> (r: Self) {
        map_variable(d)
    }
}

impl Keyed for NativeVariableModel {
    open spec fn spec_key(v: TypedValueView) -> Seq<char> {
        v.key
    }

    fn key(&self) -> (r: &String) {
        &self.key
    }
}

impl MapFrom<NativeBlockDataDto> for NativeBlockDataModel {
    open spec fn spec_map(d: NativeBlockDataDto) -> TypedValueView {
        spec_block_data(d)
    }

    fn map_from(d: &NativeBlockDataDto) -> (r: Self) {
        map_block_data(d)
    }
}

impl Keyed for NativeBlockDataModel {
    open spec fn spec_key(v: TypedValueView) -> Seq<char> {
        v.key
    }

    fn key(&self) -> (r: &String) {
        &self.key
    }
}

impl MapFrom<NativeBlockPropertyDto> for NativeBlockPropertyModel {
    open spec fn spec_map(d: NativeBlockPropertyDto) -> PropertyView {
        spec_block_property(d)
    }

    fn map_from(d: &NativeBlockPropertyDto) -> (r: Self) {
        map_block_property(d)
    }
}

impl Keyed for NativeBlockPropertyModel {
    open spec fn spec_key(v: PropertyView) -> Seq<char> {
        v.key
    }

    fn key(&self) -> (r: &String) {
        &self.key
    }
}

impl MapFrom<NativeBlockSlotDto> for NativeBlockSlotModel {
    open spec fn spec_map(d: NativeBlockSlotDto) -> Seq<char> {
        spec_block_slot(d)
    }

    fn map_from(d: &NativeBlockSlotDto) -> (r: Self) {
        map_block_slot(d)
    }
}

impl Keyed for NativeBlockSlotModel {
    open spec fn spec_key(v: Seq<char>) -> Seq<char> {
        v
    }

    fn key(&self) -> (r: &String) {
        &self.slot
    }
}

impl MapFrom<NativeActionTriggerPropertyDto> for NativeActionTriggerPropertyModel {
    open spec fn spec_map(d: NativeActionTriggerPropertyDto) -> TypedValueView {
        spec_trigger_property(d)
    }

    fn map_from(d: &NativeActionTriggerPropertyDto) -> (r: Self) {
        map_trigger_property(d)
    }
}

impl Keyed for NativeActionTriggerPropertyModel {
    open spec fn spec_key(v: TypedValueView) -> Seq<char> {
        v.key
    }

    fn key(&self) -> (r: &String) {
        &self.key
    }
}

impl MapFrom<NativeActionTriggerDataDto> for NativeActionTriggerDataModel {
    open spec fn spec_map(d: NativeActionTriggerDataDto) -> TypedValueView {
        spec_trigger_data(d)
    }

    fn map_from(d: &NativeActionTriggerDataDto) -> (r: Self) {
        map_trigger_data(d)
    }
}

impl MapFrom<NativeBlockDto> for NativeBlockModel {
    open spec fn spec_map(d: NativeBlockDto) -> BlockView {
        spec_block(d)
    }

    fn map_from(d: &NativeBlockDto) -> (r: Self) {
        map_block(d)
    }
}

impl Keyed for NativeBlockModel {
    open spec fn spec_key(v: BlockView) -> Seq<char> {
        v.key
    }

    fn key(&self) -> (r: &String) {
        &self.key
    }
}

impl MapFrom<NativeActionDto> for NativeActionModel {
    open spec fn spec_map(d: NativeActionDto) -> ActionView {
        spec_action(d)
    }

    fn map_from(d: &NativeActionDto) -> (r: Self) {
        map_action(d)
    }
}

impl Keyed for NativeActionModel {
    open spec fn spec_key(v: ActionView) -> Seq<char> {
        v.key
    }

    fn key(&self) -> (r: &String) {
        &self.key
    }
}

impl Keyed for NativeActionTriggerDataModel {
    open spec fn spec_key(v: TypedValueView) -> Seq<char> {
        v.key
    }

    fn key(&self) -> (r: &String) {
        &self.key
    }
}

} // verus!
