use xetex_layout::c_api::graphite_disabled::{
    countGraphiteFeatureSettings, countGraphiteFeatures, findGraphiteFeature,
    findGraphiteFeatureNamed, findGraphiteFeatureSettingNamed, findNextGraphiteBreak,
    getGraphiteFeatureCode, getGraphiteFeatureDefaultSetting, getGraphiteFeatureLabel,
    getGraphiteFeatureSettingCode, getGraphiteFeatureSettingLabel, initGraphiteBreaking,
};

#[test]
fn without_graphite_there_are_no_features() {
    assert_eq!(countGraphiteFeatures(), 0);
    assert_eq!(getGraphiteFeatureCode(3), 0);
    assert_eq!(countGraphiteFeatureSettings(7), 0);
    assert_eq!(getGraphiteFeatureSettingCode(7, 1), 0);
    assert_eq!(getGraphiteFeatureDefaultSetting(7), 0);
    assert_eq!(getGraphiteFeatureLabel(7), None);
    assert_eq!(getGraphiteFeatureSettingLabel(7, 1), None);
}

#[test]
fn without_graphite_lookups_fail() {
    assert_eq!(findGraphiteFeatureNamed(b"liga"), -1);
    assert_eq!(findGraphiteFeatureSettingNamed(1, b"on"), -1);
    assert!(!initGraphiteBreaking(&[0x61, 0x62]));
    assert_eq!(findNextGraphiteBreak(), -1);
}

#[test]
fn feature_search_leaves_its_outputs_alone() {
    let mut feature = 0x6c696761u32;
    let mut value = 5i32;
    assert!(!findGraphiteFeature(b"liga=1", &mut feature, &mut value));
    assert_eq!(feature, 0x6c696761);
    assert_eq!(value, 5);
}
