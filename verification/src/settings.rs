//! The singleton settings record: catalog credentials, catalog filter
//! strings, and the collection-cycle parameters. The host keeps it in a
//! JSON file; a missing or unreadable file yields the default record.

use vstd::prelude::*;

verus! {

/// Catalog credentials and filters, plus the collection-cycle parameters.
pub struct Settings {
    pub username: String,
    pub api_key: String,
    pub purity: String,
    pub categories: String,
    pub atleast: String,
    pub ratios: String,
    pub collection_cycle_collection_id: u64,
    pub collection_cycle_interval_minutes: u32,
}

/// The mathematical value of a `Settings` record: each string as its
/// sequence of characters.
pub struct SettingsV {
    pub username: Seq<char>,
    pub api_key: Seq<char>,
    pub purity: Seq<char>,
    pub categories: Seq<char>,
    pub atleast: Seq<char>,
    pub ratios: Seq<char>,
    pub collection_cycle_collection_id: u64,
    pub collection_cycle_interval_minutes: u32,
}

impl View for Settings {
    type V = SettingsV;

    open spec fn view(&self) -> SettingsV {
        SettingsV {
            username: self.username@,
            api_key: self.api_key@,
            purity: self.purity@,
            categories: self.categories@,
            atleast: self.atleast@,
            ratios: self.ratios@,
            collection_cycle_collection_id: self.collection_cycle_collection_id,
            collection_cycle_interval_minutes: self.collection_cycle_interval_minutes,
        }
    }
}

impl DeepView for Settings {
    type V = SettingsV;

    open spec fn deep_view(&self) -> SettingsV {
        self.view()
    }
}

/// The default catalog purity filter.
pub fn default_purity() -> (r: String)
    ensures
        r@ == "100"@,
{
    "100".to_owned()
}

/// The default catalog categories filter.
pub fn default_categories() -> (r: String)
    ensures
        r@ == "111"@,
{
    "111".to_owned()
}

/// The default collection-cycle interval, in minutes.
pub fn default_collection_cycle_interval() -> (r: u32)
    ensures
        r == 30,
{
    30
}

/// The value of the default settings record: empty credentials and filter
/// overrides, the default purity and categories, no cycled collection, and
/// the default cycle interval.
pub open spec fn spec_default_settings() -> SettingsV {
    SettingsV {
        username: Seq::<char>::empty(),
        api_key: Seq::<char>::empty(),
        purity: "100"@,
        categories: "111"@,
        atleast: Seq::<char>::empty(),
        ratios: Seq::<char>::empty(),
        collection_cycle_collection_id: 0,
        collection_cycle_interval_minutes: 30,
    }
}

impl Default for Settings {
    fn default() -> (r: Self)
        ensures
            r@ == spec_default_settings(),
    {
        Settings {
            username: String::new(),
            api_key: String::new(),
            purity: default_purity(),
            categories: default_categories(),
            atleast: String::new(),
            ratios: String::new(),
            collection_cycle_collection_id: 0,
            collection_cycle_interval_minutes: default_collection_cycle_interval(),
        }
    }
}

/// The read-side policy of the settings store: a record that could be
/// loaded is returned as it stands, and an absent or unreadable one yields
/// the default record rather than an error.
pub fn settings_or_default(loaded: Option<Settings>) -> (r: Settings)
    ensures
        match loaded {
            Some(s) => r == s,
            None => r@ == spec_default_settings(),
        },
{
    match loaded {
        Some(s) => s,
        None => Settings::default(),
    }
}

} // verus!
