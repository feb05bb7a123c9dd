use vstd::prelude::*;

verus! {

/// Name of the persisted settings file in the per-user config directory.
pub fn store_name() -> (s: &'static str)
    ensures
        s@ == "settings.json"@,
{
    "settings.json"
}

/// The single fixed key under which the default server URL is persisted.
pub fn default_server_key() -> (s: &'static str)
    ensures
        s@ == "defaultServerUrl"@,
{
    "defaultServerUrl"
}

/// A value persisted under a settings key.
///
/// The store holds arbitrary JSON; the shim reads only string values and
/// treats anything else found under its key as if the key were unset.
#[derive(Clone, Debug)]
pub enum StoredValue {
    /// A JSON string.
    Text(String),
    /// Any other JSON value.
    Other,
}

/// The state of the settings store: the value, if any, held under the single
/// fixed key for the default server URL. Absence is a valid state, not an
/// error.
///
/// The surrounding application loads this state from the persisted store and
/// writes it back after a change; every transition of the state itself is
/// decided here.
#[derive(Clone, Debug)]
pub struct Settings {
    pub entry: Option<StoredValue>,
}

/// The URL read from a settings state: the text under the key, and absent
/// when the key is unset or holds anything but a string.
pub open spec fn spec_get_url(s: Settings) -> Option<String> {
    match s.entry {
        Some(StoredValue::Text(u)) => Some(u),
        Some(StoredValue::Other) => None,
        None => None,
    }
}

/// The settings state after a write: a present URL is stored as text under
/// the key, an absent one deletes the key. Nothing of the previous state
/// remains.
pub open spec fn spec_set_url(s: Settings, url: Option<String>) -> Settings {
    match url {
        Some(u) => Settings { entry: Some(StoredValue::Text(u)) },
        None => Settings { entry: None },
    }
}

impl Settings {
    /// The state of a store in which the fixed key holds the given value, or
    /// is unset.
    pub fn new(entry: Option<StoredValue>) -> (s: Settings)
        ensures
            s.entry == entry,
    {
        Settings { entry }
    }

    /// Read the default server URL: the stored text, or absent if the key is
    /// unset or holds a non-string value.
    pub fn get_default_server_url(&self) -> (r: Option<String>)
        ensures
            r == spec_get_url(*self),
    {
        match &self.entry {
            Some(StoredValue::Text(u)) => Some(u.clone()),
            Some(StoredValue::Other) => None,
            None => None,
        }
    }

    /// Write the default server URL: store it under the fixed key, or delete
    /// the key when the new value is absent.
    pub fn set_default_server_url(&mut self, url: Option<String>)
        ensures
            *final(self) == spec_set_url(*old(self), url),
    {
        match url {
            Some(u) => {
                self.entry = Some(StoredValue::Text(u));
            },
            None => {
                self.entry = None;
            },
        }
    }
}

/// Clearing the URL and then reading it yields absence, from any prior
/// state.
pub proof fn lemma_clear_then_get_absent(s: Settings)
    ensures
        spec_get_url(spec_set_url(s, None::<String>)) == None::<String>,
{
}

/// Writing a URL and then reading it yields exactly that URL, from any prior
/// state: a set-then-get round trip is the identity.
pub proof fn lemma_set_then_get_round_trip(s: Settings, u: String)
    ensures
        spec_get_url(spec_set_url(s, Some(u))) == Some(u),
{
}

/// Sequential writes keep only the last value: the state after two writes is
/// the state the second write alone would leave, whatever came before.
pub proof fn lemma_last_write_wins(s: Settings, u1: Option<String>, u2: Option<String>)
    ensures
        spec_set_url(spec_set_url(s, u1), u2) == spec_set_url(s, u2),
{
}

} // verus!
