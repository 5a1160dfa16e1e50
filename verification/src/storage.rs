//! The record of configured providers: their keys, the place last looked up
//! with each, and which of them is active.
//!
//! The record is changed in memory. `Storage::load` takes what was read from
//! the file and `Storage::store` hands back what is to be written, which is
//! nothing where nothing was changed.

use crate::data::{Location, LocationView, Provider};
use vstd::prelude::*;

verus! {

/// What is kept of one provider.
#[derive(Debug)]
pub struct ProviderData {
    pub kind: Provider,
    pub api_key: String,
    pub saved_location: Option<Location>,
}

pub struct EntryView {
    pub kind: Provider,
    pub api_key: Seq<char>,
    pub saved_location: Option<LocationView>,
}

/// The view of an optional place.
pub open spec fn place_of(location: Option<Location>) -> Option<LocationView> {
    match location {
        Some(location) => Some(location@),
        None => None,
    }
}

impl View for ProviderData {
    type V = EntryView;

    open spec fn view(&self) -> EntryView {
        EntryView {
            kind: self.kind,
            api_key: self.api_key@,
            saved_location: place_of(self.saved_location),
        }
    }
}

/// The record as it stands in the file: the active provider first, then the
/// providers in the order in which they were configured.
#[derive(Debug)]
pub struct Config {
    pub active_provider: Option<Provider>,
    pub providers: Vec<ProviderData>,
}

pub struct ConfigView {
    pub active_provider: Option<Provider>,
    pub providers: Seq<EntryView>,
}

impl View for Config {
    type V = ConfigView;

    open spec fn view(&self) -> ConfigView {
        ConfigView {
            active_provider: self.active_provider,
            providers: self.providers@.map_values(|entry: ProviderData| entry@),
        }
    }
}

impl Default for Config {
    /// The record of a first run: no provider, none active.
    fn default() -> (config: Self)
        ensures
            config@ == ConfigView::empty(),
    {
        let config = Config { active_provider: None, providers: Vec::new() };
        assert(config@.providers =~= Seq::<EntryView>::empty());
        config
    }
}

impl ConfigView {
    /// The record that holds nothing.
    pub open spec fn empty() -> ConfigView {
        ConfigView { active_provider: None, providers: Seq::empty() }
    }

    /// The kinds of the entries, in their order.
    pub open spec fn kinds(self) -> Seq<Provider> {
        self.providers.map_values(|entry: EntryView| entry.kind)
    }

    /// Whether the record has an entry for `kind`.
    pub open spec fn configured(self, kind: Provider) -> bool {
        self.kinds().contains(kind)
    }

    /// Where the first entry for `kind` stands.
    pub open spec fn position(self, kind: Provider) -> Option<int> {
        self.kinds().index_of_first(kind)
    }

    /// The key kept for `kind`.
    pub open spec fn api_key(self, kind: Provider) -> Option<Seq<char>> {
        match self.position(kind) {
            Some(i) => Some(self.providers[i].api_key),
            None => None,
        }
    }

    /// The place kept for `kind`.
    pub open spec fn saved_location(self, kind: Provider) -> Option<LocationView> {
        match self.position(kind) {
            Some(i) => self.providers[i].saved_location,
            None => None,
        }
    }

    /// No two entries are of one kind.
    pub open spec fn distinct(self) -> bool {
        forall|i: int, j: int|
            0 <= i < j < self.providers.len() ==> self.providers[i].kind != self.providers[j].kind
    }

    /// What the record's own operations keep true of it: no two entries are
    /// of one kind, and the active provider has an entry.
    pub open spec fn wf(self) -> bool {
        &&& self.distinct()
        &&& match self.active_provider {
            Some(kind) => self.configured(kind),
            None => true,
        }
    }

    /// The record after `kind` was given the key `api_key`: its entry has
    /// the new key and is otherwise as before, or a new entry without a
    /// place stands at the end; `kind` is active.
    pub open spec fn configure(self, kind: Provider, api_key: Seq<char>) -> ConfigView {
        ConfigView {
            active_provider: Some(kind),
            providers: match self.position(kind) {
                Some(i) => self.providers.update(
                    i,
                    EntryView {
                        kind: self.providers[i].kind,
                        api_key,
                        saved_location: self.providers[i].saved_location,
                    },
                ),
                None => self.providers.push(EntryView { kind, api_key, saved_location: None }),
            },
        }
    }

    /// The record with `kind` active.
    pub open spec fn activate(self, kind: Provider) -> ConfigView {
        ConfigView { active_provider: Some(kind), providers: self.providers }
    }

    /// The record after `location` was kept for `kind`, which has an entry.
    pub open spec fn save(self, kind: Provider, location: LocationView) -> ConfigView {
        match self.position(kind) {
            Some(i) => ConfigView {
                active_provider: self.active_provider,
                providers: self.providers.update(
                    i,
                    EntryView {
                        kind: self.providers[i].kind,
                        api_key: self.providers[i].api_key,
                        saved_location: Some(location),
                    },
                ),
            },
            None => self,
        }
    }

    /// What `position` tells: the entry it points at is the first of its
    /// kind, and where it points at none there is none.
    pub proof fn lemma_position(self, kind: Provider)
        ensures
            match self.position(kind) {
                Some(i) => {
                    &&& self.configured(kind)
                    &&& 0 <= i < self.providers.len()
                    &&& self.providers[i].kind == kind
                    &&& forall|j: int| 0 <= j < i ==> self.providers[j].kind != kind
                },
                None => {
                    &&& !self.configured(kind)
                    &&& forall|j: int| 0 <= j < self.providers.len() ==> self.providers[j].kind != kind
                },
            },
    {
        let kinds = self.kinds();
        kinds.index_of_first_ensures(kind);
        match self.position(kind) {
            Some(i) => {
                assert forall|j: int| 0 <= j < i implies self.providers[j].kind != kind by {
                    assert(kinds[j] != kind);
                }
            },
            None => {
                assert forall|j: int| 0 <= j < self.providers.len() implies self.providers[j].kind
                    != kind by {
                    assert(kinds[j] == self.providers[j].kind);
                }
            },
        }
    }

    /// The first entry of a kind is where `position` points.
    pub proof fn lemma_first_is_position(self, kind: Provider, i: int)
        requires
            0 <= i < self.providers.len(),
            self.providers[i].kind == kind,
            forall|j: int| 0 <= j < i ==> self.providers[j].kind != kind,
        ensures
            self.position(kind) == Some(i),
    {
        self.lemma_position(kind);
        assert(self.kinds()[i] == kind);
    }
}

/// The record in memory, and whether it differs from what was loaded.
#[derive(Debug)]
pub struct Storage {
    config: Config,
    changed: bool,
}

pub struct StorageView {
    pub config: ConfigView,
    pub changed: bool,
}

impl View for Storage {
    type V = StorageView;

    closed spec fn view(&self) -> StorageView {
        StorageView { config: self.config@, changed: self.changed }
    }
}

impl StorageView {
    /// The state after `Storage::load`.
    pub open spec fn loaded(config: ConfigView) -> StorageView {
        StorageView { config, changed: false }
    }

    /// What `Storage::store` hands back to be written.
    pub open spec fn stored(self) -> Option<ConfigView> {
        if self.changed {
            Some(self.config)
        } else {
            None
        }
    }

    /// The state after `Storage::configure_provider`.
    pub open spec fn configure_provider(self, kind: Provider, api_key: Seq<char>) -> StorageView {
        StorageView { config: self.config.configure(kind, api_key), changed: true }
    }

    /// The state after `Storage::mark_provider_active`: untouched where
    /// `kind` is active already.
    pub open spec fn mark_provider_active(self, kind: Provider) -> StorageView {
        if self.config.active_provider == Some(kind) {
            self
        } else {
            StorageView { config: self.config.activate(kind), changed: true }
        }
    }

    /// The state after `Storage::save_location`.
    pub open spec fn save_location(self, kind: Provider, location: LocationView) -> StorageView {
        StorageView { config: self.config.save(kind, location), changed: true }
    }
}

impl Storage {
    /// Takes up the record that was read.
    pub fn load(config: Config) -> (storage: Self)
        ensures
            storage@ == StorageView::loaded(config@),
    {
        Self { config, changed: false }
    }

    /// Gives up the record: the whole of it where it was changed since it
    /// was loaded, to be written, and nothing where it was not.
    pub fn store(self) -> (written: Option<Config>)
        ensures
            written_view(written) == self@.stored(),
    {
        if self.changed {
            Some(self.config)
        } else {
            None
        }
    }

    /// The record as it stands.
    pub fn config(&self) -> (config: &Config)
        ensures
            config@ == self@.config,
    {
        &self.config
    }

    /// Whether the record differs from what was loaded.
    pub fn is_changed(&self) -> (changed: bool)
        ensures
            changed == self@.changed,
    {
        self.changed
    }

    /// Finds the first entry for `kind`.
    fn position(&self, kind: Provider) -> (found: Option<usize>)
        ensures
            match found {
                Some(i) => self@.config.position(kind) == Some(i as int),
                None => self@.config.position(kind) is None,
            },
    {
        let mut i: usize = 0;
        while i < self.config.providers.len()
            invariant
                0 <= i <= self.config.providers.len(),
                forall|j: int| 0 <= j < i ==> self@.config.providers[j].kind != kind,
            decreases self.config.providers.len() - i,
        {
            if self.config.providers[i].kind == kind {
                proof {
                    self@.config.lemma_first_is_position(kind, i as int);
                }
                return Some(i);
            }
            i = i + 1;
        }
        proof {
            self@.config.lemma_position(kind);
        }
        None
    }

    /// Tells whether `kind` has an entry.
    pub fn is_provider_configured(&self, kind: Provider) -> (configured: bool)
        ensures
            configured == self@.config.configured(kind),
    {
        proof {
            self@.config.lemma_position(kind);
        }
        self.position(kind).is_some()
    }

    /// Gives `kind` the key `api_key`, in its entry or in a new one, and
    /// makes it the active provider.
    pub fn configure_provider(&mut self, kind: Provider, api_key: String)
        ensures
            final(self)@ == old(self)@.configure_provider(kind, api_key@),
    {
        match self.position(kind) {
            Some(i) => {
                proof {
                    self@.config.lemma_position(kind);
                }
                self.config.providers[i].api_key = api_key;
                assert(self@.config.providers =~= old(self)@.config.configure(
                    kind,
                    api_key@,
                ).providers);
            },
            None => {
                self.config.providers.push(ProviderData { kind, api_key, saved_location: None });
                assert(self@.config.providers =~= old(self)@.config.configure(
                    kind,
                    api_key@,
                ).providers);
            },
        }
        self.mark_provider_active(kind);
        self.changed = true;
    }

    /// Makes `kind` the active provider. Where it is that already, nothing
    /// is touched.
    pub fn mark_provider_active(&mut self, kind: Provider)
        ensures
            final(self)@ == old(self)@.mark_provider_active(kind),
    {
        if self.config.active_provider != Some(kind) {
            self.config.active_provider = Some(kind);
            self.changed = true;
        }
    }

    /// The provider that look-ups go to where none is asked for.
    pub fn get_active_provider(&self) -> (active: Option<Provider>)
        ensures
            active == self@.config.active_provider,
    {
        self.config.active_provider
    }

    /// The key kept for `kind`, which has an entry.
    pub fn get_api_key(&self, kind: Provider) -> (api_key: &str)
        requires
            self@.config.configured(kind),
        ensures
            self@.config.api_key(kind) == Some(api_key@),
    {
        proof {
            self@.config.lemma_position(kind);
        }
        let i = self.position(kind).unwrap();
        self.config.providers[i].api_key.as_str()
    }

    /// Keeps `location` for `kind`, which has an entry, in place of the one
    /// kept before.
    pub fn save_location(&mut self, kind: Provider, location: Location)
        requires
            old(self)@.config.configured(kind),
        ensures
            final(self)@ == old(self)@.save_location(kind, location@),
    {
        proof {
            self@.config.lemma_position(kind);
        }
        let i = self.position(kind).unwrap();
        self.config.providers[i].saved_location = Some(location);
        assert(self@.config.providers =~= old(self)@.config.save(kind, location@).providers);
        self.changed = true;
    }

    /// The place kept for `kind`, if there is an entry and it holds one.
    pub fn get_saved_location(&self, kind: Provider) -> (location: Option<&Location>)
        ensures
            match location {
                Some(location) => self@.config.saved_location(kind) == Some(location@),
                None => self@.config.saved_location(kind) is None,
            },
    {
        proof {
            self@.config.lemma_position(kind);
        }
        match self.position(kind) {
            Some(i) => self.config.providers[i].saved_location.as_ref(),
            None => None,
        }
    }
}

/// What an operation of the record leaves alone: whether `other` has an
/// entry, and the key and the place kept for it.
pub open spec fn same_for(before: ConfigView, after: ConfigView, other: Provider) -> bool {
    &&& after.configured(other) == before.configured(other)
    &&& after.api_key(other) == before.api_key(other)
    &&& after.saved_location(other) == before.saved_location(other)
}

/// Replacing an entry by one of its own kind moves no entry: every kind is
/// found where it was.
proof fn lemma_update_keeps_positions(before: ConfigView, i: int, entry: EntryView, other: Provider)
    requires
        0 <= i < before.providers.len(),
        entry.kind == before.providers[i].kind,
    ensures
        ({
            let after = ConfigView {
                active_provider: before.active_provider,
                providers: before.providers.update(i, entry),
            };
            &&& after.position(other) == before.position(other)
            &&& after.configured(other) == before.configured(other)
            &&& after.distinct() == before.distinct()
        }),
{
    let after = ConfigView {
        active_provider: before.active_provider,
        providers: before.providers.update(i, entry),
    };
    assert(after.kinds() =~= before.kinds());
    if before.distinct() {
        assert forall|a: int, b: int| 0 <= a < b < after.providers.len() implies after.providers[a].kind
            != after.providers[b].kind by {
            assert(before.providers[a].kind != before.providers[b].kind);
        }
    }
    if after.distinct() {
        assert forall|a: int, b: int|
            0 <= a < b < before.providers.len() implies before.providers[a].kind
            != before.providers[b].kind by {
            assert(after.providers[a].kind != after.providers[b].kind);
        }
    }
}

/// A new entry at the end, of a kind that had none, moves no other entry.
proof fn lemma_push_keeps_positions(before: ConfigView, entry: EntryView, other: Provider)
    requires
        before.position(entry.kind) is None,
    ensures
        ({
            let after = ConfigView {
                active_provider: before.active_provider,
                providers: before.providers.push(entry),
            };
            &&& after.position(entry.kind) == Some(before.providers.len() as int)
            &&& other != entry.kind ==> after.position(other) == before.position(other)
            &&& other != entry.kind ==> after.configured(other) == before.configured(other)
            &&& before.distinct() ==> after.distinct()
        }),
{
    let after = ConfigView {
        active_provider: before.active_provider,
        providers: before.providers.push(entry),
    };
    let end = before.providers.len() as int;
    before.lemma_position(entry.kind);
    before.lemma_position(other);
    after.lemma_position(other);
    after.lemma_first_is_position(entry.kind, end);
    if other != entry.kind {
        match before.position(other) {
            Some(i) => {
                assert(after.providers[i] == before.providers[i]);
                assert forall|j: int| 0 <= j < i implies after.providers[j].kind != other by {
                    assert(after.providers[j] == before.providers[j]);
                }
                after.lemma_first_is_position(other, i);
            },
            None => {
                if after.position(other) is Some {
                    let j = after.position(other).unwrap();
                    assert(after.providers[j] == before.providers[j]);
                }
            },
        }
    }
    if before.distinct() {
        assert forall|a: int, b: int| 0 <= a < b < after.providers.len() implies after.providers[a].kind
            != after.providers[b].kind by {
            if b < end {
                assert(before.providers[a].kind != before.providers[b].kind);
            }
        }
    }
}

/// A provider that was given a key is active, has an entry, and has that
/// key; the record is marked as changed, so that it is written, and what is
/// written and loaded again still says the same.
pub proof fn lemma_configured_key_survives_reload(
    state: StorageView,
    kind: Provider,
    api_key: Seq<char>,
)
    ensures
        ({
            let after = state.configure_provider(kind, api_key);
            &&& after.config.active_provider == Some(kind)
            &&& after.stored() == Some(after.config)
            &&& StorageView::loaded(after.stored().unwrap()).config.configured(kind)
            &&& StorageView::loaded(after.stored().unwrap()).config.api_key(kind) == Some(api_key)
        }),
{
    let before = state.config;
    let after = before.configure(kind, api_key);
    before.lemma_position(kind);
    match before.position(kind) {
        Some(i) => {
            lemma_update_keeps_positions(before, i, after.providers[i], kind);
        },
        None => {
            lemma_push_keeps_positions(before, after.providers.last(), kind);
        },
    }
    after.lemma_position(kind);
}

/// Giving a configured provider another key adds no entry: the list keeps
/// its length, the provider's place stays as it was, and the key is the new
/// one.
pub proof fn lemma_reconfigure_replaces_key(state: StorageView, kind: Provider, api_key: Seq<char>)
    requires
        state.config.configured(kind),
    ensures
        ({
            let after = state.configure_provider(kind, api_key);
            &&& after.config.providers.len() == state.config.providers.len()
            &&& after.config.api_key(kind) == Some(api_key)
            &&& after.config.saved_location(kind) == state.config.saved_location(kind)
        }),
{
    let before = state.config;
    let after = before.configure(kind, api_key);
    before.lemma_position(kind);
    let i = before.position(kind).unwrap();
    lemma_update_keeps_positions(before, i, after.providers[i], kind);
}

/// Giving a provider a key and then another leaves one entry where the
/// first key made one: the list is as long after the second as after the
/// first, the key is the second, and a record without two entries of one
/// kind stays so.
pub proof fn lemma_configuring_twice_keeps_one_entry(
    state: StorageView,
    kind: Provider,
    first_key: Seq<char>,
    second_key: Seq<char>,
)
    ensures
        ({
            let once = state.configure_provider(kind, first_key);
            let twice = once.configure_provider(kind, second_key);
            &&& once.config.configured(kind)
            &&& once.config.api_key(kind) == Some(first_key)
            &&& twice.config.providers.len() == once.config.providers.len()
            &&& twice.config.configured(kind)
            &&& twice.config.api_key(kind) == Some(second_key)
            &&& state.config.distinct() ==> twice.config.distinct()
        }),
{
    let once = state.configure_provider(kind, first_key);
    let twice = once.configure_provider(kind, second_key);
    lemma_configured_key_survives_reload(state, kind, first_key);
    lemma_configured_key_survives_reload(once, kind, second_key);
    lemma_reconfigure_replaces_key(once, kind, second_key);
    state.config.lemma_position(kind);
    match state.config.position(kind) {
        Some(i) => {
            lemma_update_keeps_positions(state.config, i, once.config.providers[i], kind);
        },
        None => {
            lemma_push_keeps_positions(state.config, once.config.providers.last(), kind);
        },
    }
    once.config.lemma_position(kind);
    let j = once.config.position(kind).unwrap();
    lemma_update_keeps_positions(once.config, j, twice.config.providers[j], kind);
}

/// Giving a key to a provider that has no entry yet adds one entry, at the
/// end, without a place.
pub proof fn lemma_first_configuration_appends(
    state: StorageView,
    kind: Provider,
    api_key: Seq<char>,
)
    requires
        !state.config.configured(kind),
    ensures
        ({
            let after = state.configure_provider(kind, api_key);
            &&& after.config.providers == state.config.providers.push(
                EntryView { kind, api_key, saved_location: None },
            )
            &&& after.config.api_key(kind) == Some(api_key)
            &&& after.config.saved_location(kind) is None
        }),
{
    let before = state.config;
    let after = before.configure(kind, api_key);
    before.lemma_position(kind);
    lemma_push_keeps_positions(before, after.providers.last(), kind);
}

/// Giving a key to one provider leaves every other provider's entry, key
/// and place as they were.
pub proof fn lemma_configure_leaves_others(
    state: StorageView,
    kind: Provider,
    api_key: Seq<char>,
    other: Provider,
)
    requires
        other != kind,
    ensures
        same_for(state.config, state.configure_provider(kind, api_key).config, other),
{
    let before = state.config;
    let after = before.configure(kind, api_key);
    before.lemma_position(kind);
    match before.position(kind) {
        Some(i) => {
            lemma_update_keeps_positions(before, i, after.providers[i], other);
            before.lemma_position(other);
        },
        None => {
            lemma_push_keeps_positions(before, after.providers.last(), other);
            before.lemma_position(other);
        },
    }
}

/// Marking the provider that is active already changes nothing, the mark
/// of change included: a record that was not to be written is still not to
/// be written.
pub proof fn lemma_reactivation_is_silent(state: StorageView, kind: Provider)
    requires
        state.config.active_provider == Some(kind),
    ensures
        state.mark_provider_active(kind) == state,
        state.mark_provider_active(kind).stored() == state.stored(),
        !state.changed ==> state.mark_provider_active(kind).stored() is None,
{
}

/// Marking a provider active makes it the active one, marks the record as
/// changed where it was another, and leaves every entry as it was.
pub proof fn lemma_activation_keeps_entries(state: StorageView, kind: Provider, other: Provider)
    ensures
        state.mark_provider_active(kind).config.active_provider == Some(kind),
        state.mark_provider_active(kind).config.providers == state.config.providers,
        state.config.active_provider != Some(kind) ==> state.mark_provider_active(kind).changed,
        same_for(state.config, state.mark_provider_active(kind).config, other),
{
}

/// A place kept for a configured provider is the one that is read back, and
/// the provider's key stays as it was.
pub proof fn lemma_saved_location_is_read_back(
    state: StorageView,
    kind: Provider,
    location: LocationView,
)
    requires
        state.config.configured(kind),
    ensures
        ({
            let after = state.save_location(kind, location);
            &&& after.config.saved_location(kind) == Some(location)
            &&& after.config.api_key(kind) == state.config.api_key(kind)
            &&& after.config.active_provider == state.config.active_provider
            &&& after.config.providers.len() == state.config.providers.len()
            &&& after.changed
        }),
{
    let before = state.config;
    let after = before.save(kind, location);
    before.lemma_position(kind);
    let i = before.position(kind).unwrap();
    lemma_update_keeps_positions(before, i, after.providers[i], kind);
}

/// Keeping a place for one provider leaves every other provider's entry,
/// key and place as they were.
pub proof fn lemma_save_location_leaves_others(
    state: StorageView,
    kind: Provider,
    location: LocationView,
    other: Provider,
)
    requires
        other != kind,
    ensures
        same_for(state.config, state.save_location(kind, location).config, other),
{
    let before = state.config;
    let after = before.save(kind, location);
    before.lemma_position(kind);
    before.lemma_position(other);
    match before.position(kind) {
        Some(i) => {
            lemma_update_keeps_positions(before, i, after.providers[i], other);
        },
        None => {},
    }
}

/// A record is written only where it was changed: not as it was loaded, and
/// always after a key was given or a place kept, or another provider became
/// active.
pub proof fn lemma_written_only_when_changed(
    state: StorageView,
    kind: Provider,
    api_key: Seq<char>,
    location: LocationView,
)
    ensures
        StorageView::loaded(state.config).stored() is None,
        state.stored() is Some <==> state.changed,
        state.configure_provider(kind, api_key).stored() is Some,
        state.save_location(kind, location).stored() is Some,
        state.config.active_provider != Some(kind) ==> state.mark_provider_active(kind).stored()
            is Some,
{
}

/// Two providers side by side: each is active once it was given its key,
/// and when the first is marked active again it is the active one, while
/// both keep their keys and the second keeps its place.
pub proof fn lemma_switching_providers(
    state: StorageView,
    first: Provider,
    first_key: Seq<char>,
    second: Provider,
    second_key: Seq<char>,
)
    requires
        first != second,
    ensures
        ({
            let one = state.configure_provider(first, first_key);
            let two = one.configure_provider(second, second_key);
            let back = two.mark_provider_active(first);
            &&& one.config.active_provider == Some(first)
            &&& two.config.active_provider == Some(second)
            &&& back.config.active_provider == Some(first)
            &&& back.config.api_key(first) == Some(first_key)
            &&& back.config.api_key(second) == Some(second_key)
            &&& back.config.saved_location(second) == two.config.saved_location(second)
            &&& back.config.providers == two.config.providers
        }),
{
    let one = state.configure_provider(first, first_key);
    let two = one.configure_provider(second, second_key);
    lemma_configured_key_survives_reload(state, first, first_key);
    lemma_configured_key_survives_reload(one, second, second_key);
    lemma_configure_leaves_others(one, second, second_key, first);
}

/// The record's operations keep it well formed: the empty record is, giving
/// a key and keeping a place preserve it, and so does marking active a
/// provider that has an entry.
pub proof fn lemma_operations_keep_wf(
    state: StorageView,
    kind: Provider,
    api_key: Seq<char>,
    location: LocationView,
)
    ensures
        ConfigView::empty().wf(),
        state.config.wf() ==> state.configure_provider(kind, api_key).config.wf(),
        state.config.wf() ==> state.save_location(kind, location).config.wf(),
        state.config.wf() && state.config.configured(kind) ==> state.mark_provider_active(
            kind,
        ).config.wf(),
{
    let before = state.config;
    before.lemma_position(kind);
    if before.wf() {
        let given = before.configure(kind, api_key);
        match before.position(kind) {
            Some(i) => {
                lemma_update_keeps_positions(before, i, given.providers[i], kind);
            },
            None => {
                lemma_push_keeps_positions(before, given.providers.last(), kind);
            },
        }
        given.lemma_position(kind);
        let kept = before.save(kind, location);
        match before.position(kind) {
            Some(i) => {
                lemma_update_keeps_positions(before, i, kept.providers[i], kind);
                if before.active_provider is Some {
                    lemma_update_keeps_positions(
                        before,
                        i,
                        kept.providers[i],
                        before.active_provider.unwrap(),
                    );
                }
            },
            None => {},
        }
    }
}

/// The view of what is handed back to be written.
pub open spec fn written_view(written: Option<Config>) -> Option<ConfigView> {
    match written {
        Some(config) => Some(config@),
        None => None,
    }
}

} // verus!
