//! Application settings: an explicit owned state, created once at startup
//! and handed to whoever needs it — no ambient global, no lazy singleton.

use vstd::prelude::*;

use crate::codec::str_eq_lit;

verus! {

/// The settings the application runs with.
#[derive(Debug)]
pub struct AppSettings {
    /// The folder under which uploaded files are kept.
    pub base_folder: String,
}

impl Default for AppSettings {
    /// The defaults used until stored settings are loaded.
    fn default() -> (r: Self)
        ensures
            r.base_folder@ == ("files")@,
    {
        AppSettings { base_folder: String::from_str("files") }
    }
}

/// One stored key/value row of settings.
#[derive(Debug)]
pub struct SettingEntry {
    pub key: String,
    pub value: String,
}

/// The mathematical value of a [`SettingEntry`].
pub ghost struct SettingEntryV {
    pub key: Seq<char>,
    pub value: Seq<char>,
}

impl View for SettingEntry {
    type V = SettingEntryV;

    open spec fn view(&self) -> SettingEntryV {
        SettingEntryV { key: self.key@, value: self.value@ }
    }
}

/// The base folder denoted by stored rows: the last `base_folder` row
/// wins; with none, the default stands.
pub open spec fn spec_base_folder(entries: Seq<SettingEntryV>) -> Seq<char>
    decreases entries.len(),
{
    if entries.len() == 0 {
        ("files")@
    } else if entries.last().key == ("base_folder")@ {
        entries.last().value
    } else {
        spec_base_folder(entries.drop_last())
    }
}

pub open spec fn entries_view(entries: Seq<SettingEntry>) -> Seq<SettingEntryV> {
    entries.map_values(|e: SettingEntry| e@)
}

impl AppSettings {
    /// The settings denoted by stored key/value rows: each recognized key
    /// overwrites the default, in row order, so the last row wins;
    /// unrecognized keys are ignored.
    pub fn from_entries(entries: Vec<SettingEntry>) -> (r: AppSettings)
        ensures
            r.base_folder@ == spec_base_folder(entries_view(entries@)),
    {
        let ghost evs = entries_view(entries@);
        let mut r = AppSettings::default();
        let mut i: usize = 0;
        while i < entries.len()
            invariant
                i <= entries@.len(),
                evs == entries_view(entries@),
                r.base_folder@ == spec_base_folder(evs.subrange(0, i as int)),
            decreases entries@.len() - i,
        {
            proof {
                assert(evs.subrange(0, i + 1).drop_last() =~= evs.subrange(0, i as int));
                assert(evs.subrange(0, i + 1).last() == evs[i as int]);
            }
            let e = &entries[i];
            if str_eq_lit(e.key.as_str(), "base_folder") {
                r = AppSettings { base_folder: e.value.clone() };
            }
            i = i + 1;
        }
        proof {
            assert(evs.subrange(0, evs.len() as int) =~= evs);
        }
        r
    }
}

/// The owned settings cell, threaded through by reference in place of a
/// process-wide mutable global.
#[derive(Debug)]
pub struct SettingsStore {
    pub settings: AppSettings,
}

impl SettingsStore {
    pub fn new() -> (r: Self)
        ensures
            r.settings.base_folder@ == ("files")@,
    {
        SettingsStore { settings: AppSettings::default() }
    }
}

/// The settings currently in force.
pub fn get_settings(store: &SettingsStore) -> (r: &AppSettings)
    ensures
        r.base_folder@ == store.settings.base_folder@,
{
    &store.settings
}

/// Replaces the settings in force.
pub fn set_settings(store: &mut SettingsStore, settings: AppSettings)
    ensures
        final(store).settings == settings,
{
    store.settings = settings;
}

} // verus!
