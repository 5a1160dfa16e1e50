//! The decisions of the `configure` and `get` commands.
//!
//! A command asks the user, calls the provider and reports in between; what
//! it does with the answers is decided here, on the record and on plain
//! values.

use crate::data::{Location, Provider};
use crate::storage::Storage;
use vstd::prelude::*;

verus! {

/// Why a command stops without having done its work.
#[derive(Copy, Clone, Debug, PartialEq, Eq, Structural)]
pub enum Refusal {
    NoProviderConfigured,
    ProviderNotConfigured,
    NoSavedLocation,
    LocationNotFound,
    IncorrectApiKey,
}

impl Refusal {
    /// The sentence that tells the user of the refusal.
    pub open spec fn text(self) -> Seq<char> {
        match self {
            Refusal::NoProviderConfigured => "None of the providers is configured."@,
            Refusal::ProviderNotConfigured => "Provider is not configured."@,
            Refusal::NoSavedLocation => "No saved location for active provider."@,
            Refusal::LocationNotFound => "Sorry, cannot find any location for the given input."@,
            Refusal::IncorrectApiKey => "Incorrect provider API key."@,
        }
    }

    pub fn message(&self) -> (text: &'static str)
        ensures
            text@ == self.text(),
    {
        match self {
            Refusal::NoProviderConfigured => "None of the providers is configured.",
            Refusal::ProviderNotConfigured => "Provider is not configured.",
            Refusal::NoSavedLocation => "No saved location for active provider.",
            Refusal::LocationNotFound => "Sorry, cannot find any location for the given input.",
            Refusal::IncorrectApiKey => "Incorrect provider API key.",
        }
    }
}

/// Settles which provider a look-up goes to.
///
/// Without a wish it is the active one, and the record is left alone. A
/// provider that is asked for must have an entry, and is then made active.
/// On a well-formed record the provider that is settled on has an entry.
pub fn choose_active_provider(storage: &mut Storage, provider: Option<Provider>) -> (chosen: Result<
    Provider,
    Refusal,
>)
    ensures
        chosen == match provider {
            None => match old(storage)@.config.active_provider {
                Some(active) => Ok::<Provider, Refusal>(active),
                None => Err::<Provider, Refusal>(Refusal::NoProviderConfigured),
            },
            Some(wished) => if old(storage)@.config.configured(wished) {
                Ok::<Provider, Refusal>(wished)
            } else {
                Err::<Provider, Refusal>(Refusal::ProviderNotConfigured)
            },
        },
        final(storage)@ == match (provider, chosen) {
            (Some(wished), Ok(_)) => old(storage)@.mark_provider_active(wished),
            _ => old(storage)@,
        },
        old(storage)@.config.wf() ==> (chosen matches Ok(kind) ==> final(storage)@.config.configured(
            kind,
        )),
{
    match provider {
        None => match storage.get_active_provider() {
            Some(active) => Ok(active),
            None => Err(Refusal::NoProviderConfigured),
        },
        Some(wished) => {
            if storage.is_provider_configured(wished) {
                storage.mark_provider_active(wished);
                Ok(wished)
            } else {
                Err(Refusal::ProviderNotConfigured)
            }
        },
    }
}

/// Takes up a key once the provider has judged it: a key that holds is
/// given to `provider`, which becomes active; one that does not is refused
/// and the record left alone.
pub fn configure_provider(storage: &mut Storage, provider: Provider, api_key: String, valid: bool) -> (done:
    Result<(), Refusal>)
    ensures
        done == if valid {
            Ok::<(), Refusal>(())
        } else {
            Err::<(), Refusal>(Refusal::IncorrectApiKey)
        },
        final(storage)@ == if valid {
            old(storage)@.configure_provider(provider, api_key@)
        } else {
            old(storage)@
        },
{
    if !valid {
        return Err(Refusal::IncorrectApiKey);
    }
    storage.configure_provider(provider, api_key);
    Ok(())
}

/// Where the place of a look-up comes from.
#[derive(Debug)]
pub enum Plan<'a> {
    /// The place kept from an earlier look-up.
    Saved(&'a Location),
    /// A search for what the user wrote.
    Search(String),
}

/// Settles where the place of a look-up comes from: a search for what the
/// user wrote, or else the place kept for `provider`, which must be there.
pub fn choose_location<'a>(
    storage: &'a Storage,
    provider: Provider,
    location_str: Option<String>,
) -> (plan: Result<Plan<'a>, Refusal>)
    ensures
        match location_str {
            Some(query) => plan == Ok::<Plan<'a>, Refusal>(Plan::Search(query)),
            None => match storage@.config.saved_location(provider) {
                Some(kept) => plan matches Ok(Plan::Saved(location)) && location@ == kept,
                None => plan == Err::<Plan<'a>, Refusal>(Refusal::NoSavedLocation),
            },
        },
{
    match location_str {
        Some(query) => Ok(Plan::Search(query)),
        None => match storage.get_saved_location(provider) {
            Some(location) => Ok(Plan::Saved(location)),
            None => Err(Refusal::NoSavedLocation),
        },
    }
}

/// What a search came to, where it found anything.
#[derive(Debug)]
pub enum Found {
    /// The one place that the search found.
    One(Location),
    /// The places among which the user is to choose.
    Several(Vec<Location>),
}

/// Sorts the answer of a search: no place is a refusal, one place is taken,
/// and several are handed back for the user to choose from, in their order.
pub fn narrow(locations: Vec<Location>) -> (found: Result<Found, Refusal>)
    ensures
        found == if locations@.len() == 0 {
            Err::<Found, Refusal>(Refusal::LocationNotFound)
        } else if locations@.len() == 1 {
            Ok::<Found, Refusal>(Found::One(locations@[0]))
        } else {
            Ok::<Found, Refusal>(Found::Several(locations))
        },
{
    let mut locations = locations;
    if locations.len() == 0 {
        Err(Refusal::LocationNotFound)
    } else if locations.len() == 1 {
        Ok(Found::One(locations.swap_remove(0)))
    } else {
        Ok(Found::Several(locations))
    }
}

/// Takes the place that the user chose out of the list.
pub fn pick(locations: Vec<Location>, selection: usize) -> (location: Location)
    requires
        selection < locations@.len(),
    ensures
        location == locations@[selection as int],
{
    let mut locations = locations;
    locations.swap_remove(selection)
}

} // verus!
