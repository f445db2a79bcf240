use hq_launcher::mod_config::{
    compatible_mod_tasks, manifest_id_for, normalize_aliases, ModEntry, ModsConfig, RemoteManifest,
};
use hq_launcher::variable::get_practice_mod_list;

fn entry(enabled: bool, low: Option<u32>, high: Option<u32>) -> ModEntry {
    ModEntry {
        name: "SomeMod".to_string(),
        dev: "SomeDev".to_string(),
        enabled,
        low_cap: low,
        high_cap: high,
        version_config: Vec::new(),
    }
}

fn pinned_entry(pins: Vec<(u32, &str)>) -> ModEntry {
    ModEntry {
        name: "Pinned".to_string(),
        dev: "Dev".to_string(),
        enabled: true,
        low_cap: None,
        high_cap: None,
        version_config: pins.into_iter().map(|(k, v)| (k, v.to_string())).collect(),
    }
}

#[test]
fn disabled_mod_is_never_compatible() {
    assert!(!entry(false, None, None).is_compatible(56));
    assert!(!entry(false, Some(1), Some(999)).is_compatible(56));
    assert!(!entry(false, Some(56), Some(56)).is_compatible(56));
}

#[test]
fn compatibility_follows_bounds() {
    assert!(entry(true, None, None).is_compatible(1));
    assert!(entry(true, Some(50), None).is_compatible(50));
    assert!(!entry(true, Some(50), None).is_compatible(49));
    assert!(entry(true, None, Some(60)).is_compatible(60));
    assert!(!entry(true, None, Some(60)).is_compatible(61));
    assert!(entry(true, Some(50), Some(60)).is_compatible(55));
    assert!(!entry(true, Some(50), Some(60)).is_compatible(61));
    assert!(!entry(true, Some(50), Some(60)).is_compatible(49));
}

#[test]
fn pinned_version_selects_greatest_threshold_at_or_below() {
    let m = pinned_entry(vec![(56, "1.0.1"), (73, "1.1.1")]);
    assert_eq!(m.pinned_version_for(55), None);
    assert_eq!(m.pinned_version_for(56), Some("1.0.1".to_string()));
    assert_eq!(m.pinned_version_for(72), Some("1.0.1".to_string()));
    assert_eq!(m.pinned_version_for(73), Some("1.1.1".to_string()));
    assert_eq!(m.pinned_version_for(999), Some("1.1.1".to_string()));
}

#[test]
fn pinned_version_with_no_thresholds_is_none() {
    let m = pinned_entry(vec![]);
    assert_eq!(m.pinned_version_for(100), None);
}

#[test]
fn sentinel_value_resolves_to_no_pin() {
    let m = pinned_entry(vec![(56, "0.0.0")]);
    assert_eq!(m.pinned_version_for(56), None);
    assert_eq!(m.pinned_version_for(100), None);
    let m2 = pinned_entry(vec![(56, "1.0.1"), (73, "0.0.0")]);
    assert_eq!(m2.pinned_version_for(72), Some("1.0.1".to_string()));
    assert_eq!(m2.pinned_version_for(73), None);
}

#[test]
fn alias_normalization_rewrites_known_typo() {
    let mut cfg = ModsConfig {
        mods: vec![
            ModEntry {
                name: "LCMaxSoundFix".to_string(),
                dev: "Hardy".to_string(),
                enabled: true,
                low_cap: None,
                high_cap: None,
                version_config: Vec::new(),
            },
            entry(true, None, None),
        ],
    };
    let changed = normalize_aliases(&mut cfg);
    assert!(changed);
    assert_eq!(cfg.mods[0].name, "LCMaxSoundsFix");
    assert_eq!(cfg.mods[0].dev, "Hardy");
    assert_eq!(cfg.mods[1].name, "SomeMod");

    // A second pass finds nothing left to rewrite.
    let changed_again = normalize_aliases(&mut cfg);
    assert!(!changed_again);
    assert_eq!(cfg.mods[0].name, "LCMaxSoundsFix");
}

#[test]
fn alias_normalization_leaves_other_devs_alone() {
    let mut cfg = ModsConfig {
        mods: vec![ModEntry {
            name: "LCMaxSoundFix".to_string(),
            dev: "SomeoneElse".to_string(),
            enabled: true,
            low_cap: None,
            high_cap: None,
            version_config: Vec::new(),
        }],
    };
    let changed = normalize_aliases(&mut cfg);
    assert!(!changed);
    assert_eq!(cfg.mods[0].name, "LCMaxSoundFix");
}

#[test]
fn from_remote_splits_facets_and_normalizes() {
    let remote = RemoteManifest {
        version: 9,
        manifests: vec![(56, "mid-56".to_string()), (73, "mid-73".to_string())],
        chain_config: vec![vec!["a".to_string(), "b".to_string()]],
        mods: vec![ModEntry {
            name: "LCMaxSoundFix".to_string(),
            dev: "Hardy".to_string(),
            enabled: true,
            low_cap: None,
            high_cap: None,
            version_config: Vec::new(),
        }],
    };
    let (version, cfg, chain, manifests) = ModsConfig::from_remote(remote);
    assert_eq!(version, 9);
    assert_eq!(cfg.mods.len(), 1);
    assert_eq!(cfg.mods[0].name, "LCMaxSoundsFix");
    assert_eq!(chain, vec![vec!["a".to_string(), "b".to_string()]]);
    assert_eq!(manifests.len(), 2);
    assert_eq!(manifests[0], (56, "mid-56".to_string()));
}

#[test]
fn manifest_lookup_finds_version() {
    let manifests = vec![(56, "mid-56".to_string()), (73, "mid-73".to_string())];
    assert_eq!(manifest_id_for(&manifests, 56), Some("mid-56".to_string()));
    assert_eq!(manifest_id_for(&manifests, 73), Some("mid-73".to_string()));
    assert_eq!(manifest_id_for(&manifests, 60), None);
    assert_eq!(manifest_id_for(&Vec::new(), 56), None);
}

#[test]
fn mod_tasks_filter_and_pin() {
    let cfg = ModsConfig {
        mods: vec![
            pinned_entry(vec![(56, "1.0.1"), (73, "1.1.1")]),
            entry(false, None, None),
            entry(true, Some(60), None),
            pinned_entry(vec![(70, "0.0.0")]),
        ],
    };
    let tasks = compatible_mod_tasks(&cfg, 56);
    // The disabled entry and the one requiring version 60 are dropped.
    assert_eq!(tasks.len(), 2);
    assert_eq!(tasks[0].name, "Pinned");
    assert_eq!(tasks[0].pinned, Some("1.0.1".to_string()));
    assert_eq!(tasks[1].pinned, None);

    let tasks73 = compatible_mod_tasks(&cfg, 73);
    assert_eq!(tasks73.len(), 3);
    assert_eq!(tasks73[0].pinned, Some("1.1.1".to_string()));
    assert_eq!(tasks73[1].name, "SomeMod");
    assert_eq!(tasks73[2].pinned, None);
}

#[test]
fn practice_mod_list_is_fixed() {
    let mods = get_practice_mod_list();
    assert_eq!(mods.len(), 5);
    let names: Vec<&str> = mods.iter().map(|m| m.name.as_str()).collect();
    assert_eq!(
        names,
        vec![
            "LethalDevMode",
            "Imperium",
            "OdinSerializer",
            "LethalNetworkAPI",
            "CruiserJumpPractice"
        ]
    );
    let devs: Vec<&str> = mods.iter().map(|m| m.dev.as_str()).collect();
    assert_eq!(
        devs,
        vec!["megumin", "giosuel", "Lordfirespeed", "xilophor", "aoirint"]
    );
    for m in &mods {
        assert!(m.enabled);
        assert!(m.low_cap.is_none());
        assert!(m.high_cap.is_none());
        assert!(m.version_config.is_empty());
    }
}
