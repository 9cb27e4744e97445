use vstd::prelude::*;

use crate::collections::{to_map, Duplicate, StringMap};
use crate::error::{ErrorModel, ErrorType};
use crate::mapper::{opt_items, opt_text, text};

verus! {

/// A localization response as the server sends it.
#[derive(Debug, Default)]
pub struct NativeLocalizationsDto {
    pub checksum: Option<String>,
    pub localizations: Option<Vec<NativeLocalizationDto>>,
}

#[derive(Debug, Default)]
pub struct NativeLocalizationDto {
    pub key: Option<String>,
    pub value: Option<String>,
}

/// The translations of one language, keyed by translation key.
#[derive(Debug)]
pub struct NativeLocalizationModel {
    pub checksum: Option<String>,
    pub localizations: StringMap<String>,
}

/// The pairs a localization response lists, in order.
pub open spec fn localization_pairs(items: Seq<NativeLocalizationDto>) -> Seq<(Seq<char>, Seq<char>)> {
    items.map_values(
        |d: NativeLocalizationDto| (opt_text(d.key.deep_view()), opt_text(d.value.deep_view())),
    )
}

/// Reads a localization response; a missing response reads as empty, and a
/// later translation replaces an earlier one with the same key.
pub fn to_model(dto: &Option<NativeLocalizationsDto>) -> (r: NativeLocalizationModel)
    ensures
        match *dto {
            None => r.checksum is None && r.localizations@ == Map::<Seq<char>, Seq<char>>::empty(),
            Some(d) => r.checksum.deep_view() == d.checksum.deep_view() && r.localizations@
                == to_map(localization_pairs(opt_items(d.localizations))),
        },
{
    match dto {
        None => NativeLocalizationModel { checksum: None, localizations: StringMap::new() },
        Some(d) => {
            let mut out: StringMap<String> = StringMap::new();
            let ghost pairs = localization_pairs(opt_items(d.localizations));
            match &d.localizations {
                None => {
                    assert(pairs =~= Seq::empty());
                },
                Some(list) => {
                    let mut i: usize = 0;
                    while i < list.len()
                        invariant
                            i <= list@.len(),
                            pairs == localization_pairs(list@),
                            out@ == to_map(pairs.take(i as int)),
                        decreases list@.len() - i,
                    {
                        let item = &list[i];
                        out.insert(text(&item.key), text(&item.value));
                        assert(pairs.take(i + 1).drop_last() =~= pairs.take(i as int));
                        i = i + 1;
                    }
                    assert(pairs.take(list@.len() as int) =~= pairs);
                },
            }
            NativeLocalizationModel { checksum: d.checksum.duplicate(), localizations: out }
        },
    }
}

/// The loading state of the localization.
#[derive(Debug)]
pub enum LocalizationState {
    Loading,
    Ready,
    Error { message: String },
}

pub enum LocalizationStateView {
    Loading,
    Ready,
    Error(Seq<char>),
}

impl DeepView for LocalizationState {
    type V = LocalizationStateView;

    open spec fn deep_view(&self) -> LocalizationStateView {
        match self {
            LocalizationState::Loading => LocalizationStateView::Loading,
            LocalizationState::Ready => LocalizationStateView::Ready,
            LocalizationState::Error { message } => LocalizationStateView::Error(message@),
        }
    }
}

impl Duplicate for LocalizationState {
    fn duplicate(&self) -> (r: Self) {
        match self {
            LocalizationState::Loading => LocalizationState::Loading,
            LocalizationState::Ready => LocalizationState::Ready,
            LocalizationState::Error { message } => LocalizationState::Error {
                message: message.clone(),
            },
        }
    }
}

/// What an observer of the localization is told.
pub trait LocalizationStateObserver {
    fn on_state_changed(&self, state: LocalizationState);

    fn on_localization_changed(&self, localizations: StringMap<String>);

    fn on_language_code_changed(&self, language_code: Option<String>);
}

/// The chosen language and the translations loaded for it.
pub struct LocalizationClient {
    language_code: Option<String>,
    localizations: StringMap<String>,
}

pub struct LocalizationClientView {
    pub language_code: Option<Seq<char>>,
    pub localizations: Map<Seq<char>, Seq<char>>,
}

impl View for LocalizationClient {
    type V = LocalizationClientView;

    closed spec fn view(&self) -> LocalizationClientView {
        LocalizationClientView {
            language_code: self.language_code.deep_view(),
            localizations: self.localizations@,
        }
    }
}

impl LocalizationClient {
    pub fn create() -> (r: Self)
        ensures
            r@.language_code is None,
            r@.localizations == Map::<Seq<char>, Seq<char>>::empty(),
    {
        LocalizationClient { language_code: None, localizations: StringMap::new() }
    }

    pub fn set_language_code(&mut self, language_code: String)
        ensures
            final(self)@.language_code == Some(language_code@),
            final(self)@.localizations == old(self)@.localizations,
    {
        self.language_code = Some(language_code);
    }

    pub fn language_code(&self) -> (r: Option<String>)
        ensures
            r.deep_view() == self@.language_code,
    {
        self.language_code.duplicate()
    }

    /// Keeps the translations loaded for the language.
    pub fn apply(&mut self, localization: &NativeLocalizationModel)
        ensures
            final(self)@.localizations == localization.localizations@,
            final(self)@.language_code == old(self)@.language_code,
    {
        self.localizations = localization.localizations.duplicate();
    }

    /// The translation of a key, if the loaded translations have one.
    pub fn translate(&self, key: String) -> (r: Option<String>)
        ensures
            r.deep_view() == self@.localizations.get(key@),
    {
        match self.localizations.get(key.as_str()) {
            Some(v) => Some(v.clone()),
            None => None,
        }
    }
}

/// What a new observer of the localization is shown: the state, the language
/// code, and the translations when they are ready.
#[derive(Debug)]
pub struct LocalizationSnapshot {
    pub state: LocalizationState,
    pub language_code: Option<String>,
    pub localizations: Option<StringMap<String>>,
}

/// Keeps the localization state one screen shows.
pub struct LocalizationStateManager {
    localization_state: LocalizationState,
    localizations: StringMap<String>,
    language_code: Option<String>,
}

pub struct LocalizationManagerView {
    pub localization_state: LocalizationStateView,
    pub localizations: Map<Seq<char>, Seq<char>>,
    pub language_code: Option<Seq<char>>,
}

impl View for LocalizationStateManager {
    type V = LocalizationManagerView;

    closed spec fn view(&self) -> LocalizationManagerView {
        LocalizationManagerView {
            localization_state: self.localization_state.deep_view(),
            localizations: self.localizations@,
            language_code: self.language_code.deep_view(),
        }
    }
}

/// The state a failed load leaves: a cache miss keeps loading, any other
/// failure is shown.
pub open spec fn localization_failure_state(e: crate::error::ErrorView) -> LocalizationStateView {
    if e.error_type == ErrorType::Cache {
        LocalizationStateView::Loading
    } else {
        LocalizationStateView::Error(e.message)
    }
}

impl LocalizationStateManager {
    pub fn new() -> (r: Self)
        ensures
            r@.localization_state is Loading,
            r@.localizations == Map::<Seq<char>, Seq<char>>::empty(),
            r@.language_code is None,
    {
        LocalizationStateManager {
            localization_state: LocalizationState::Loading,
            localizations: StringMap::new(),
            language_code: None,
        }
    }

    /// What a new observer is told at once.
    pub fn observe(&self) -> (r: LocalizationSnapshot)
        ensures
            r.state.deep_view() == self@.localization_state,
            r.language_code.deep_view() == self@.language_code,
            (self@.localization_state is Ready) == (r.localizations is Some),
            r.localizations is Some ==> r.localizations->0@ == self@.localizations,
    {
        let localizations = match self.localization_state {
            LocalizationState::Ready => Some(self.localizations.duplicate()),
            _ => None,
        };
        LocalizationSnapshot {
            state: self.localization_state.duplicate(),
            language_code: self.language_code.duplicate(),
            localizations,
        }
    }

    /// Forgets the translations and the language shown.
    pub fn release(&mut self)
        ensures
            final(self)@.localization_state is Loading,
            final(self)@.localizations == Map::<Seq<char>, Seq<char>>::empty(),
            final(self)@.language_code is None,
    {
        self.localizations = StringMap::new();
        self.language_code = None;
        self.localization_state = LocalizationState::Loading;
    }

    /// Starts showing a language: the client is told the language code.
    pub fn setup_localization(&self, client: &mut LocalizationClient, language_code: String)
        ensures
            final(client)@.language_code == Some(language_code@),
            final(client)@.localizations == old(client)@.localizations,
    {
        client.set_language_code(language_code);
    }

    pub fn set_language_code(&self, client: &mut LocalizationClient, language_code: String)
        ensures
            final(client)@.language_code == Some(language_code@),
            final(client)@.localizations == old(client)@.localizations,
    {
        client.set_language_code(language_code);
    }

    pub fn translate(&self, client: &LocalizationClient, key: String) -> (r: Option<String>)
        ensures
            r.deep_view() == client@.localizations.get(key@),
    {
        client.translate(key)
    }

    pub fn localization_state(&self) -> (r: LocalizationState)
        ensures
            r.deep_view() == self@.localization_state,
    {
        self.localization_state.duplicate()
    }

    /// A language code was chosen: it is shown and its translations start
    /// loading.
    pub fn begin_refresh(&mut self, language_code: String)
        ensures
            final(self)@.language_code == Some(language_code@),
            final(self)@.localization_state is Loading,
            final(self)@.localizations == old(self)@.localizations,
    {
        self.language_code = Some(language_code);
        self.localization_state = LocalizationState::Loading;
    }

    /// The translations of the chosen language arrived, or failed to.
    /// Returns the translations to show when they arrived.
    pub fn finish_refresh(&mut self, result: Result<NativeLocalizationModel, ErrorModel>) -> (r:
        Option<StringMap<String>>)
        ensures
            final(self)@.language_code == old(self)@.language_code,
            match result {
                Ok(model) => {
                    &&& final(self)@.localization_state is Ready
                    &&& final(self)@.localizations == model.localizations@
                    &&& r is Some && r->0@ == model.localizations@
                },
                Err(e) => {
                    &&& final(self)@.localization_state == localization_failure_state(
                        e.deep_view(),
                    )
                    &&& final(self)@.localizations == old(self)@.localizations
                    &&& r is None
                },
            },
    {
        match result {
            Ok(model) => {
                let shown = model.localizations.duplicate();
                self.localizations = model.localizations;
                self.localization_state = LocalizationState::Ready;
                Some(shown)
            },
            Err(error) => {
                self.localization_state = if error.error_type == ErrorType::Cache {
                    LocalizationState::Loading
                } else {
                    LocalizationState::Error { message: error.message }
                };
                None
            },
        }
    }
}

} // verus!
