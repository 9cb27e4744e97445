use vstd::prelude::*;

use crate::collections::{Duplicate, SameAs, StringMap};
use crate::text::str_equal;

verus! {

/// The content of a keyed, typed text value (a variable, a block's data
/// entry, a trigger's property or data entry).
pub struct TypedValueView {
    pub key: Seq<char>,
    pub value: Seq<char>,
    pub value_type: Seq<char>,
}

/// The content of a block property.
pub struct PropertyView {
    pub key: Seq<char>,
    pub value_mobile: Seq<char>,
    pub value_tablet: Seq<char>,
    pub value_desktop: Seq<char>,
    pub value_type: Seq<char>,
}

/// The content of a block.
pub struct BlockView {
    pub id: Seq<char>,
    pub parent_id: Seq<char>,
    pub version: i32,
    pub slot: Seq<char>,
    pub key_type: Seq<char>,
    pub key: Seq<char>,
    pub visibility: Seq<char>,
    pub position: i32,
    pub data: Map<Seq<char>, TypedValueView>,
    pub properties: Map<Seq<char>, PropertyView>,
    pub slots: Map<Seq<char>, Seq<char>>,
}

/// The content of an action trigger.
pub struct TriggerView {
    pub name: Seq<char>,
    pub id: Seq<char>,
    pub parent_id: Seq<char>,
    pub version: i32,
    pub key_type: Seq<char>,
    pub branch: NativeActionTriggerThen,
    pub properties: Map<Seq<char>, TypedValueView>,
    pub data: Map<Seq<char>, TypedValueView>,
}

/// The content of an action.
pub struct ActionView {
    pub id: Seq<char>,
    pub key: Seq<char>,
    pub event: Seq<char>,
    pub triggers: Seq<TriggerView>,
}

/// The content of a frame.
pub struct FrameView {
    pub checksum: Option<Seq<char>>,
    pub variables: Map<Seq<char>, TypedValueView>,
    pub blocks: Map<Seq<char>, BlockView>,
    pub root_id: Option<Seq<char>>,
    pub actions: Map<Seq<char>, Seq<ActionView>>,
}

#[derive(Debug)]
pub struct NativeVariableModel {
    pub key: String,
    pub value: String,
    pub value_type: String,
}

#[derive(Debug)]
pub struct NativeBlockModel {
    pub id: String,
    pub parent_id: String,
    pub version: i32,
    pub slot: String,
    pub key_type: String,
    pub key: String,
    pub visibility: String,
    pub position: i32,
    pub data: StringMap<NativeBlockDataModel>,
    pub properties: StringMap<NativeBlockPropertyModel>,
    pub slots: StringMap<NativeBlockSlotModel>,
}

#[derive(Debug)]
pub struct NativeBlockPropertyModel {
    pub key: String,
    pub value_mobile: String,
    pub value_tablet: String,
    pub value_desktop: String,
    pub value_type: String,
}

#[derive(Debug)]
pub struct NativeBlockDataModel {
    pub key: String,
    pub value: String,
    pub value_type: String,
}

#[derive(Debug)]
pub struct NativeBlockSlotModel {
    pub slot: String,
}

#[derive(Debug)]
pub struct NativeActionModel {
    pub id: String,
    pub key: String,
    pub event: String,
    pub triggers: Vec<NativeActionTriggerModel>,
}

#[derive(Debug)]
pub struct NativeActionTriggerModel {
    pub name: String,
    pub id: String,
    pub parent_id: String,
    pub version: i32,
    pub key_type: String,
    pub branch: NativeActionTriggerThen,
    pub properties: StringMap<NativeActionTriggerPropertyModel>,
    pub data: StringMap<NativeActionTriggerDataModel>,
}

/// Which branch of its parent trigger a trigger belongs to.
#[derive(Debug, Clone, Copy, PartialEq, Eq, Structural)]
pub enum NativeActionTriggerThen {
    Success,
    Failure,
    Next,
    End,
}

#[derive(Debug)]
pub struct NativeActionTriggerPropertyModel {
    pub key: String,
    pub value: String,
    pub value_type: String,
}

#[derive(Debug)]
pub struct NativeActionTriggerDataModel {
    pub key: String,
    pub value: String,
    pub value_type: String,
}

/// A frame: its variables keyed by variable key, its blocks keyed by block
/// key, the id of its root block, and its actions grouped by the key of the
/// block they belong to.
#[derive(Debug)]
pub struct NativeFrameModel {
    pub checksum: Option<String>,
    pub variables: StringMap<NativeVariableModel>,
    pub blocks: StringMap<NativeBlockModel>,
    pub root_id: Option<String>,
    pub actions: StringMap<Vec<NativeActionModel>>,
}

/// The loading state of a frame as the host sees it.
#[derive(Debug)]
pub struct NativeFrameState {
    pub is_loading: bool,
    pub is_success: bool,
    pub development_mode: bool,
    pub error: String,
}

// ---------------------------------------------------------------- views

impl DeepView for NativeVariableModel {
    type V = TypedValueView;

    open spec fn deep_view(&self) -> TypedValueView {
        TypedValueView { key: self.key@, value: self.value@, value_type: self.value_type@ }
    }
}

impl DeepView for NativeBlockDataModel {
    type V = TypedValueView;

    open spec fn deep_view(&self) -> TypedValueView {
        TypedValueView { key: self.key@, value: self.value@, value_type: self.value_type@ }
    }
}

impl DeepView for NativeActionTriggerPropertyModel {
    type V = TypedValueView;

    open spec fn deep_view(&self) -> TypedValueView {
        TypedValueView { key: self.key@, value: self.value@, value_type: self.value_type@ }
    }
}

impl DeepView for NativeActionTriggerDataModel {
    type V = TypedValueView;

    open spec fn deep_view(&self) -> TypedValueView {
        TypedValueView { key: self.key@, value: self.value@, value_type: self.value_type@ }
    }
}

impl DeepView for NativeBlockPropertyModel {
    type V = PropertyView;

    open spec fn deep_view(&self) -> PropertyView {
        PropertyView {
            key: self.key@,
            value_mobile: self.value_mobile@,
            value_tablet: self.value_tablet@,
            value_desktop: self.value_desktop@,
            value_type: self.value_type@,
        }
    }
}

impl DeepView for NativeBlockSlotModel {
    type V = Seq<char>;

    open spec fn deep_view(&self) -> Seq<char> {
        self.slot@
    }
}

impl DeepView for NativeBlockModel {
    type V = BlockView;

    open spec fn deep_view(&self) -> BlockView {
        BlockView {
            id: self.id@,
            parent_id: self.parent_id@,
            version: self.version,
            slot: self.slot@,
            key_type: self.key_type@,
            key: self.key@,
            visibility: self.visibility@,
            position: self.position,
            data: self.data@,
            properties: self.properties@,
            slots: self.slots@,
        }
    }
}

impl DeepView for NativeActionTriggerModel {
    type V = TriggerView;

    open spec fn deep_view(&self) -> TriggerView {
        TriggerView {
            name: self.name@,
            id: self.id@,
            parent_id: self.parent_id@,
            version: self.version,
            key_type: self.key_type@,
            branch: self.branch,
            properties: self.properties@,
            data: self.data@,
        }
    }
}

impl DeepView for NativeActionModel {
    type V = ActionView;

    open spec fn deep_view(&self) -> ActionView {
        ActionView {
            id: self.id@,
            key: self.key@,
            event: self.event@,
            triggers: self.triggers.deep_view(),
        }
    }
}

impl DeepView for NativeFrameModel {
    type V = FrameView;

    open spec fn deep_view(&self) -> FrameView {
        FrameView {
            checksum: self.checksum.deep_view(),
            variables: self.variables@,
            blocks: self.blocks@,
            root_id: self.root_id.deep_view(),
            actions: self.actions@,
        }
    }
}

/// The content of a frame loading state.
pub struct FrameStatusView {
    pub is_loading: bool,
    pub is_success: bool,
    pub development_mode: bool,
    pub error: Seq<char>,
}

impl DeepView for NativeFrameState {
    type V = FrameStatusView;

    open spec fn deep_view(&self) -> FrameStatusView {
        FrameStatusView {
            is_loading: self.is_loading,
            is_success: self.is_success,
            development_mode: self.development_mode,
            error: self.error@,
        }
    }
}

// ------------------------------------------------------------ copying

impl<T: Duplicate> Duplicate for Vec<T> {
    fn duplicate(&self) -> (r: Self) {
        let mut out: Vec<T> = Vec::new();
        let mut i: usize = 0;
        while i < self.len()
            invariant
                i <= self@.len(),
                out@.len() == i,
                forall|j: int|
                    0 <= j < i ==> (#[trigger] out@[j]).deep_view() == self@[j].deep_view(),
            decreases self@.len() - i,
        {
            out.push(self[i].duplicate());
            i = i + 1;
        }
        assert(out.deep_view() =~= self.deep_view());
        out
    }
}

impl<T: Duplicate> Duplicate for Option<T> {
    fn duplicate(&self) -> (r: Self) {
        match self {
            Some(v) => Some(v.duplicate()),
            None => None,
        }
    }
}

impl Duplicate for NativeVariableModel {
    fn duplicate(&self) -> (r: Self) {
        NativeVariableModel {
            key: self.key.clone(),
            value: self.value.clone(),
            value_type: self.value_type.clone(),
        }
    }
}

impl Duplicate for NativeBlockDataModel {
    fn duplicate(&self) -> (r: Self) {
        NativeBlockDataModel {
            key: self.key.clone(),
            value: self.value.clone(),
            value_type: self.value_type.clone(),
        }
    }
}

impl Duplicate for NativeActionTriggerPropertyModel {
    fn duplicate(&self) -> (r: Self) {
        NativeActionTriggerPropertyModel {
            key: self.key.clone(),
            value: self.value.clone(),
            value_type: self.value_type.clone(),
        }
    }
}

impl Duplicate for NativeActionTriggerDataModel {
    fn duplicate(&self) -> (r: Self) {
        NativeActionTriggerDataModel {
            key: self.key.clone(),
            value: self.value.clone(),
            value_type: self.value_type.clone(),
        }
    }
}

impl Duplicate for NativeBlockPropertyModel {
    fn duplicate(&self) -> (r: Self) {
        NativeBlockPropertyModel {
            key: self.key.clone(),
            value_mobile: self.value_mobile.clone(),
            value_tablet: self.value_tablet.clone(),
            value_desktop: self.value_desktop.clone(),
            value_type: self.value_type.clone(),
        }
    }
}

impl Duplicate for NativeBlockSlotModel {
    fn duplicate(&self) -> (r: Self) {
        NativeBlockSlotModel { slot: self.slot.clone() }
    }
}

impl Duplicate for NativeBlockModel {
    fn duplicate(&self) -> (r: Self) {
        NativeBlockModel {
            id: self.id.clone(),
            parent_id: self.parent_id.clone(),
            version: self.version,
            slot: self.slot.clone(),
            key_type: self.key_type.clone(),
            key: self.key.clone(),
            visibility: self.visibility.clone(),
            position: self.position,
            data: self.data.duplicate(),
            properties: self.properties.duplicate(),
            slots: self.slots.duplicate(),
        }
    }
}

impl Duplicate for NativeActionTriggerModel {
    fn duplicate(&self) -> (r: Self) {
        NativeActionTriggerModel {
            name: self.name.clone(),
            id: self.id.clone(),
            parent_id: self.parent_id.clone(),
            version: self.version,
            key_type: self.key_type.clone(),
            branch: self.branch,
            properties: self.properties.duplicate(),
            data: self.data.duplicate(),
        }
    }
}

impl Duplicate for NativeActionModel {
    fn duplicate(&self) -> (r: Self) {
        NativeActionModel {
            id: self.id.clone(),
            key: self.key.clone(),
            event: self.event.clone(),
            triggers: self.triggers.duplicate(),
        }
    }
}

impl Duplicate for NativeFrameModel {
    fn duplicate(&self) -> (r: Self) {
        NativeFrameModel {
            checksum: self.checksum.duplicate(),
            variables: self.variables.duplicate(),
            blocks: self.blocks.duplicate(),
            root_id: self.root_id.duplicate(),
            actions: self.actions.duplicate(),
        }
    }
}

// --------------------------------------------------------- comparison

impl SameAs for NativeBlockDataModel {
    fn same_as(&self, other: &Self) -> (r: bool) {
        self.key == other.key && self.value == other.value && self.value_type == other.value_type
    }
}

impl SameAs for NativeBlockSlotModel {
    fn same_as(&self, other: &Self) -> (r: bool) {
        self.slot == other.slot
    }
}

impl SameAs for NativeBlockPropertyModel {
    fn same_as(&self, other: &Self) -> (r: bool) {
        self.key == other.key && self.value_mobile == other.value_mobile && self.value_tablet
            == other.value_tablet && self.value_desktop == other.value_desktop && self.value_type
            == other.value_type
    }
}

impl SameAs for NativeBlockModel {
    fn same_as(&self, other: &Self) -> (r: bool) {
        self.id == other.id && self.parent_id == other.parent_id && self.version == other.version
            && self.slot == other.slot && self.key_type == other.key_type && self.key == other.key
            && self.visibility == other.visibility && self.position == other.position
            && self.data.same_as(&other.data) && self.properties.same_as(&other.properties)
            && self.slots.same_as(&other.slots)
    }
}

// ----------------------------------------------------------- behaviour

impl NativeVariableModel {
    pub fn new(key: &str, value: &str, value_type: &str) -> (r: Self)
        ensures
            r.key@ == key@,
            r.value@ == value@,
            r.value_type@ == value_type@,
    {
        NativeVariableModel {
            key: String::from_str(key),
            value: String::from_str(value),
            value_type: String::from_str(value_type),
        }
    }
}

/// The text of a trigger branch.
pub open spec fn then_text(branch: NativeActionTriggerThen) -> Seq<char> {
    match branch {
        NativeActionTriggerThen::Success => "SUCCESS"@,
        NativeActionTriggerThen::Failure => "FAILURE"@,
        NativeActionTriggerThen::Next => "NEXT"@,
        NativeActionTriggerThen::End => "END"@,
    }
}

/// The branch a text names; any text but the three branch names means END.
pub open spec fn then_of_text(text: Seq<char>) -> NativeActionTriggerThen {
    if text == "SUCCESS"@ {
        NativeActionTriggerThen::Success
    } else if text == "FAILURE"@ {
        NativeActionTriggerThen::Failure
    } else if text == "NEXT"@ {
        NativeActionTriggerThen::Next
    } else {
        NativeActionTriggerThen::End
    }
}

impl NativeActionTriggerThen {
    pub fn as_str(self) -> (r: &'static str)
        ensures
            r@ == then_text(self),
    {
        match self {
            NativeActionTriggerThen::Success => "SUCCESS",
            NativeActionTriggerThen::Failure => "FAILURE",
            NativeActionTriggerThen::Next => "NEXT",
            NativeActionTriggerThen::End => "END",
        }
    }

    pub fn from_then(value: &str) -> (r: Self)
        ensures
            r == then_of_text(value@),
    {
        if str_equal(value, "SUCCESS") {
            NativeActionTriggerThen::Success
        } else if str_equal(value, "FAILURE") {
            NativeActionTriggerThen::Failure
        } else if str_equal(value, "NEXT") {
            NativeActionTriggerThen::Next
        } else {
            NativeActionTriggerThen::End
        }
    }
}

/// Reading back the text of a branch gives the branch.
pub proof fn law_then_text_round_trip(branch: NativeActionTriggerThen)
    ensures
        then_of_text(then_text(branch)) == branch,
{
    reveal_strlit("SUCCESS");
    reveal_strlit("FAILURE");
    reveal_strlit("NEXT");
    reveal_strlit("END");
    assert("FAILURE"@[0] != "SUCCESS"@[0]);
    assert("NEXT"@.len() != "SUCCESS"@.len());
    assert("NEXT"@.len() != "FAILURE"@.len());
    assert("END"@.len() != "SUCCESS"@.len());
    assert("END"@.len() != "FAILURE"@.len());
    assert("END"@.len() != "NEXT"@.len());
}

impl NativeFrameState {
    pub fn initial(development_mode: bool) -> (r: Self)
        ensures
            r.is_loading,
            !r.is_success,
            r.development_mode == development_mode,
            r.error@ == Seq::<char>::empty(),
    {
        NativeFrameState {
            is_loading: true,
            is_success: false,
            development_mode,
            error: String::new(),
        }
    }

    pub fn success(development_mode: bool) -> (r: Self)
        ensures
            !r.is_loading,
            r.is_success,
            r.development_mode == development_mode,
            r.error@ == Seq::<char>::empty(),
    {
        NativeFrameState {
            is_loading: false,
            is_success: true,
            development_mode,
            error: String::new(),
        }
    }

    pub fn error(development_mode: bool, error: &str) -> (r: Self)
        ensures
            !r.is_loading,
            !r.is_success,
            r.development_mode == development_mode,
            r.error@ == error@,
    {
        NativeFrameState {
            is_loading: false,
            is_success: false,
            development_mode,
            error: String::from_str(error),
        }
    }

    pub fn duplicate(&self) -> (r: Self)
        ensures
            r.is_loading == self.is_loading,
            r.is_success == self.is_success,
            r.development_mode == self.development_mode,
            r.error@ == self.error@,
    {
        NativeFrameState {
            is_loading: self.is_loading,
            is_success: self.is_success,
            development_mode: self.development_mode,
            error: self.error.clone(),
        }
    }
}

} // verus!
