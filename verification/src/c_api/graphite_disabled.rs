//! Answers to the Graphite feature queries for builds without Graphite.
//!
//! Without Graphite no font exposes a Graphite feature: every count is zero,
//! every code and label lookup finds nothing, and no line breaking through
//! Graphite can be started. The engine handle and the C strings that the
//! C callers pass are not consulted; the out-parameters of a feature search
//! are left as they were.

#![allow(non_snake_case)]

use vstd::prelude::*;

verus! {

/// The number of Graphite features of the engine's font: none.
pub fn countGraphiteFeatures() -> (count: u32)
    ensures
        count == 0,
{
    0
}

/// The code of the feature at `index`: there is none, so 0.
pub fn getGraphiteFeatureCode(_index: u32) -> (code: u32)
    ensures
        code == 0,
{
    0
}

/// The number of settings of a feature: none.
pub fn countGraphiteFeatureSettings(_feature_id: u32) -> (count: u32)
    ensures
        count == 0,
{
    0
}

/// The code of a feature's setting at `index`: there is none, so 0.
pub fn getGraphiteFeatureSettingCode(_feature_id: u32, _index: u32) -> (code: u32)
    ensures
        code == 0,
{
    0
}

/// A feature's default setting: 0.
pub fn getGraphiteFeatureDefaultSetting(_feature_id: u32) -> (setting: u32)
    ensures
        setting == 0,
{
    0
}

/// A feature's label: there is none.
pub fn getGraphiteFeatureLabel(_feature_id: u32) -> (label: Option<String>)
    ensures
        label is None,
{
    None
}

/// A setting's label: there is none.
pub fn getGraphiteFeatureSettingLabel(_feature_id: u32, _setting_id: u32) -> (label: Option<
    String,
>)
    ensures
        label is None,
{
    None
}

/// Looks a `feature=value` specification up among the Graphite features:
/// nothing is found, and `feature` and `value` keep what they held.
pub fn findGraphiteFeature(_spec: &[u8], feature: &mut u32, value: &mut i32) -> (found: bool)
    ensures
        !found,
        *final(feature) == *old(feature),
        *final(value) == *old(value),
{
    false
}

/// The id of the feature called `name`: none, so -1.
pub fn findGraphiteFeatureNamed(_name: &[u8]) -> (id: i64)
    ensures
        id == -1,
{
    -1
}

/// The id of the setting called `name` of feature `id`: none, so -1.
pub fn findGraphiteFeatureSettingNamed(_id: u32, _name: &[u8]) -> (setting: i64)
    ensures
        setting == -1,
{
    -1
}

/// Starts Graphite line breaking over `text`: it cannot be started.
pub fn initGraphiteBreaking(_text: &[u16]) -> (started: bool)
    ensures
        !started,
{
    false
}

/// The next Graphite break: none, so -1.
pub fn findNextGraphiteBreak() -> (position: i32)
    ensures
        position == -1,
{
    -1
}

} // verus!
