use vstd::prelude::*;
use crate::mod_config::ModEntry;

verus! {

/// The built-in practice mod set, install order as listed: LethalDevMode,
/// Imperium, OdinSerializer, LethalNetworkAPI, CruiserJumpPractice. Every
/// entry is enabled, unbounded and unpinned.
pub fn get_practice_mod_list() -> (r: Vec<ModEntry>)
    ensures
        r@.len() == 5,
        forall|i: int|
            0 <= i < 5 ==> {
                &&& (#[trigger] r@[i]).enabled
                &&& r@[i].low_cap is None
                &&& r@[i].high_cap is None
                &&& r@[i].version_config@.len() == 0
                &&& r@[i].wf()
            },
        r@[0].dev@ == "megumin"@ && r@[0].name@ == "LethalDevMode"@,
        r@[1].dev@ == "giosuel"@ && r@[1].name@ == "Imperium"@,
        r@[2].dev@ == "Lordfirespeed"@ && r@[2].name@ == "OdinSerializer"@,
        r@[3].dev@ == "xilophor"@ && r@[3].name@ == "LethalNetworkAPI"@,
        r@[4].dev@ == "aoirint"@ && r@[4].name@ == "CruiserJumpPractice"@,
{
    let mut r: Vec<ModEntry> = Vec::new();
    r.push(
        ModEntry {
            dev: "megumin".to_owned(),
            name: "LethalDevMode".to_owned(),
            enabled: true,
            low_cap: None,
            high_cap: None,
            version_config: Vec::new(),
        },
    );
    r.push(
        ModEntry {
            dev: "giosuel".to_owned(),
            name: "Imperium".to_owned(),
            enabled: true,
            low_cap: None,
            high_cap: None,
            version_config: Vec::new(),
        },
    );
    r.push(
        ModEntry {
            dev: "Lordfirespeed".to_owned(),
            name: "OdinSerializer".to_owned(),
            enabled: true,
            low_cap: None,
            high_cap: None,
            version_config: Vec::new(),
        },
    );
    r.push(
        ModEntry {
            dev: "xilophor".to_owned(),
            name: "LethalNetworkAPI".to_owned(),
            enabled: true,
            low_cap: None,
            high_cap: None,
            version_config: Vec::new(),
        },
    );
    r.push(
        ModEntry {
            dev: "aoirint".to_owned(),
            name: "CruiserJumpPractice".to_owned(),
            enabled: true,
            low_cap: None,
            high_cap: None,
            version_config: Vec::new(),
        },
    );
    r
}

} // verus!
