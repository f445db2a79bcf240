use vstd::prelude::*;

verus! {

/// One entry of the curated mod set.
///
/// `version_config` maps game-version thresholds to pinned package version
/// strings. It is kept sorted strictly ascending by threshold, keys unique,
/// which `version_config_wf` states.
pub struct ModEntry {
    pub name: String,
    pub dev: String,
    pub enabled: bool,
    /// Inclusive lower bound on the game versions this mod installs for.
    pub low_cap: Option<u32>,
    /// Inclusive upper bound on the game versions this mod installs for.
    pub high_cap: Option<u32>,
    /// Threshold pinning: game versions at or above a key use that key's
    /// package version, the greatest applicable key winning.
    pub version_config: Vec<(u32, String)>,
}

/// The curated mod set; list order is install order.
pub struct ModsConfig {
    pub mods: Vec<ModEntry>,
}

/// The remote manifest, already decoded into plain values: the server's
/// monotonically increasing counter, the per-game-version depot manifest
/// identifiers, the opaque load-order chains (passed through untouched), and
/// the mod list.
pub struct RemoteManifest {
    pub version: u32,
    pub manifests: Vec<(u32, String)>,
    pub chain_config: Vec<Vec<String>>,
    pub mods: Vec<ModEntry>,
}

/// The threshold keys are strictly ascending, hence unique.
pub open spec fn version_config_wf(vc: Seq<(u32, String)>) -> bool {
    forall|i: int, j: int| 0 <= i < j < vc.len() ==> vc[i].0 < vc[j].0
}

/// The entry selected by threshold pinning before the sentinel rule: the one
/// with the greatest key not exceeding `v`, found scanning from the end of the
/// ascending list.
pub open spec fn spec_pin_entry(vc: Seq<(u32, String)>, v: u32) -> Option<String>
    decreases vc.len(),
{
    if vc.len() == 0 {
        None
    } else if vc.last().0 <= v {
        Some(vc.last().1)
    } else {
        spec_pin_entry(vc.drop_last(), v)
    }
}

/// Threshold pinning with the sentinel rule: a selected value equal to
/// `"0.0.0"` means "no pin, use latest".
pub open spec fn spec_pinned_version(vc: Seq<(u32, String)>, v: u32) -> Option<String> {
    match spec_pin_entry(vc, v) {
        None => None,
        Some(s) => if s@ == "0.0.0"@ {
            None
        } else {
            Some(s)
        },
    }
}

impl ModEntry {
    pub open spec fn wf(self) -> bool {
        version_config_wf(self.version_config@)
    }

    /// A mod installs for `v` exactly when it is enabled and `v` lies within
    /// its (optional, inclusive) version bounds.
    pub open spec fn spec_is_compatible(self, v: u32) -> bool {
        &&& self.enabled
        &&& (self.low_cap is Some ==> v >= self.low_cap->0)
        &&& (self.high_cap is Some ==> v <= self.high_cap->0)
    }

    pub fn is_compatible(&self, game_version: u32) -> (r: bool)
        ensures
            r == self.spec_is_compatible(game_version),
    {
        if !self.enabled {
            return false;
        }
        if let Some(min) = self.low_cap {
            if game_version < min {
                return false;
            }
        }
        if let Some(max) = self.high_cap {
            if game_version > max {
                return false;
            }
        }
        true
    }

    /// The package version pinned for `game_version`, or `None` when the
    /// caller should fetch the latest release: no threshold applies, or the
    /// applicable one carries the `"0.0.0"` sentinel.
    pub fn pinned_version_for(&self, game_version: u32) -> (r: Option<String>)
        ensures
            r == spec_pinned_version(self.version_config@, game_version),
    {
        let n = self.version_config.len();
        let mut i = n;
        proof {
            assert(self.version_config@.take(n as int) =~= self.version_config@);
        }
        while i > 0
            invariant
                i <= n,
                n == self.version_config@.len(),
                spec_pin_entry(self.version_config@, game_version) == spec_pin_entry(
                    self.version_config@.take(i as int),
                    game_version,
                ),
            decreases i,
        {
            let key = self.version_config[i - 1].0;
            proof {
                assert(self.version_config@.take(i as int).drop_last() =~= self.version_config@
                    .take(i as int - 1));
            }
            if key <= game_version {
                let val = self.version_config[i - 1].1.clone();
                let sentinel: String = "0.0.0".to_owned();
                if val == sentinel {
                    return None;
                }
                return Some(val);
            }
            i = i - 1;
        }
        None
    }
}

/// With ascending keys, the selection of `spec_pin_entry` is exactly spec'd
/// threshold pinning: `None` means no key is at or below `v`; a selected value
/// comes from an applicable key that no other applicable key exceeds.
pub proof fn lemma_pin_entry_selects_greatest(vc: Seq<(u32, String)>, v: u32)
    requires
        version_config_wf(vc),
    ensures
        spec_pin_entry(vc, v) is None ==> forall|i: int| 0 <= i < vc.len() ==> vc[i].0 > v,
        spec_pin_entry(vc, v) matches Some(s) ==> exists|i: int|
            {
                &&& 0 <= i < vc.len()
                &&& vc[i].0 <= v
                &&& vc[i].1 == s
                &&& forall|j: int| 0 <= j < vc.len() && vc[j].0 <= v ==> vc[j].0 <= vc[i].0
            },
    decreases vc.len(),
{
    if vc.len() == 0 {
    } else if vc.last().0 <= v {
        let i = vc.len() - 1;
        assert(forall|j: int| 0 <= j < vc.len() && vc[j].0 <= v ==> vc[j].0 <= vc[i as int].0);
    } else {
        assert(version_config_wf(vc.drop_last()));
        lemma_pin_entry_selects_greatest(vc.drop_last(), v);
        if spec_pin_entry(vc, v) is None {
            assert forall|k: int| 0 <= k < vc.len() implies vc[k].0 > v by {
                if k < vc.len() - 1 {
                    assert(vc.drop_last()[k] == vc[k]);
                } else {
                    assert(vc[k] == vc.last());
                }
            }
        }
        if spec_pin_entry(vc, v) is Some {
            let s = spec_pin_entry(vc, v)->0;
            let i = choose|i: int|
                {
                    &&& 0 <= i < vc.drop_last().len()
                    &&& vc.drop_last()[i].0 <= v
                    &&& vc.drop_last()[i].1 == s
                    &&& forall|j: int|
                        0 <= j < vc.drop_last().len() && vc.drop_last()[j].0 <= v ==> vc.drop_last(
                        )[j].0 <= vc.drop_last()[i].0
                };
            assert(vc[i].0 <= v && vc[i].1 == s);
            assert forall|j: int| 0 <= j < vc.len() && vc[j].0 <= v implies vc[j].0 <= vc[i].0 by {
                if j < vc.len() - 1 {
                    assert(vc.drop_last()[j] == vc[j]);
                } else {
                    assert(vc[j] == vc.last());
                }
            }
        }
    }
}

/// A disabled mod is incompatible with every game version, whatever its
/// bounds say.
pub proof fn lemma_disabled_never_compatible(m: ModEntry, v: u32)
    requires
        !m.enabled,
    ensures
        !m.spec_is_compatible(v),
{
}

/// The alias table: known historical identifier typos, as
/// `(dev, old name) -> corrected name`. `None` means the pair is not an
/// alias and stays as it is.
pub open spec fn spec_alias_target(dev: Seq<char>, name: Seq<char>) -> Option<Seq<char>> {
    if dev == "Hardy"@ && name == "LCMaxSoundFix"@ {
        Some("LCMaxSoundsFix"@)
    } else {
        None
    }
}

/// How one entry looks after alias normalization: only the name may change,
/// and only through the alias table.
pub open spec fn spec_normalized_entry(o: ModEntry, n: ModEntry) -> bool {
    &&& n.dev == o.dev
    &&& n.enabled == o.enabled
    &&& n.low_cap == o.low_cap
    &&& n.high_cap == o.high_cap
    &&& n.version_config == o.version_config
    &&& match spec_alias_target(o.dev@, o.name@) {
        Some(corrected) => n.name@ == corrected,
        None => n.name == o.name,
    }
}

/// Rewrites known historical identifier typos via the alias table, once per
/// loaded config. Returns whether anything was rewritten.
pub fn normalize_aliases(cfg: &mut ModsConfig) -> (changed: bool)
    ensures
        final(cfg).mods@.len() == old(cfg).mods@.len(),
        forall|i: int|
            0 <= i < old(cfg).mods@.len() ==> spec_normalized_entry(
                old(cfg).mods@[i],
                final(cfg).mods@[i],
            ),
        changed == exists|i: int|
            0 <= i < old(cfg).mods@.len() && spec_alias_target(
                old(cfg).mods@[i].dev@,
                old(cfg).mods@[i].name@,
            ) is Some,
{
    let mut changed = false;
    let n = cfg.mods.len();
    let mut i: usize = 0;
    while i < n
        invariant
            i <= n,
            n == cfg.mods@.len(),
            cfg.mods@.len() == old(cfg).mods@.len(),
            forall|j: int| i <= j < n ==> cfg.mods@[j] == old(cfg).mods@[j],
            forall|j: int|
                0 <= j < i ==> spec_normalized_entry(old(cfg).mods@[j], cfg.mods@[j]),
            changed == exists|j: int|
                0 <= j < i && spec_alias_target(
                    old(cfg).mods@[j].dev@,
                    old(cfg).mods@[j].name@,
                ) is Some,
        decreases n - i,
    {
        let dev_alias: String = "Hardy".to_owned();
        let name_alias: String = "LCMaxSoundFix".to_owned();
        let is_alias = cfg.mods[i].dev == dev_alias && cfg.mods[i].name == name_alias;
        if is_alias {
            cfg.mods[i].name = "LCMaxSoundsFix".to_owned();
            changed = true;
        }
        i = i + 1;
    }
    changed
}

/// An alias correction never produces a pair the table would rewrite again:
/// normalization is idempotent.
pub proof fn lemma_alias_normalization_idempotent(dev: Seq<char>, name: Seq<char>)
    ensures
        spec_alias_target(dev, name) matches Some(corrected) ==> spec_alias_target(
            dev,
            corrected,
        ) is None,
{
    reveal_strlit("LCMaxSoundFix");
    reveal_strlit("LCMaxSoundsFix");
    assert("LCMaxSoundFix"@.len() == 13);
    assert("LCMaxSoundsFix"@.len() == 14);
}

/// One unit of work for the mods-installation collaborator: which package to
/// fetch, and the pinned package version, or `None` for the latest release.
pub struct ModTask {
    pub dev: String,
    pub name: String,
    pub pinned: Option<String>,
}

/// The work the mods-installation collaborator is handed for `v`: one task
/// per compatible entry, in install order, each carrying its pin resolution.
pub open spec fn spec_mod_tasks(mods: Seq<ModEntry>, v: u32) -> Seq<ModTask>
    decreases mods.len(),
{
    if mods.len() == 0 {
        Seq::empty()
    } else {
        let rest = spec_mod_tasks(mods.skip(1), v);
        if mods[0].spec_is_compatible(v) {
            seq![
                ModTask {
                    dev: mods[0].dev,
                    name: mods[0].name,
                    pinned: spec_pinned_version(mods[0].version_config@, v),
                },
            ] + rest
        } else {
            rest
        }
    }
}

/// The task list is exactly the compatible entries, in order: every task
/// carries the identifiers and pin resolution of some compatible entry, and
/// every compatible entry is represented.
pub proof fn lemma_mod_tasks_correspond(mods: Seq<ModEntry>, v: u32)
    ensures
        spec_mod_tasks(mods, v).len() <= mods.len(),
        forall|k: int|
            0 <= k < spec_mod_tasks(mods, v).len() ==> exists|i: int|
                {
                    &&& 0 <= i < mods.len()
                    &&& mods[i].spec_is_compatible(v)
                    &&& (#[trigger] spec_mod_tasks(mods, v)[k]).dev == mods[i].dev
                    &&& spec_mod_tasks(mods, v)[k].name == mods[i].name
                    &&& spec_mod_tasks(mods, v)[k].pinned == spec_pinned_version(
                        mods[i].version_config@,
                        v,
                    )
                },
        forall|i: int|
            0 <= i < mods.len() && (#[trigger] mods[i]).spec_is_compatible(v) ==> exists|k: int|
                {
                    &&& 0 <= k < spec_mod_tasks(mods, v).len()
                    &&& spec_mod_tasks(mods, v)[k].dev == mods[i].dev
                    &&& spec_mod_tasks(mods, v)[k].name == mods[i].name
                    &&& spec_mod_tasks(mods, v)[k].pinned == spec_pinned_version(
                        mods[i].version_config@,
                        v,
                    )
                },
    decreases mods.len(),
{
    if mods.len() > 0 {
        lemma_mod_tasks_correspond(mods.skip(1), v);
        let tasks = spec_mod_tasks(mods, v);
        let rest = spec_mod_tasks(mods.skip(1), v);
        if mods[0].spec_is_compatible(v) {
            assert(tasks[0].dev == mods[0].dev);
            assert forall|k: int| 1 <= k < tasks.len() implies tasks[k] == rest[k - 1] by {}
        } else {
            assert(tasks =~= rest);
        }
        assert forall|i: int|
            0 <= i < mods.len() && (#[trigger] mods[i]).spec_is_compatible(v) implies exists|
            k: int,
        |
            {
                &&& 0 <= k < tasks.len()
                &&& tasks[k].dev == mods[i].dev
                &&& tasks[k].name == mods[i].name
                &&& tasks[k].pinned == spec_pinned_version(mods[i].version_config@, v)
            } by {
            if i == 0 {
                assert(tasks[0].dev == mods[0].dev);
            } else {
                assert(mods.skip(1)[i - 1] == mods[i]);
                let k0 = choose|k0: int|
                    {
                        &&& 0 <= k0 < rest.len()
                        &&& rest[k0].dev == mods.skip(1)[i - 1].dev
                        &&& rest[k0].name == mods.skip(1)[i - 1].name
                        &&& rest[k0].pinned == spec_pinned_version(
                            mods.skip(1)[i - 1].version_config@,
                            v,
                        )
                    };
                if mods[0].spec_is_compatible(v) {
                    assert(tasks[k0 + 1] == rest[k0]);
                } else {
                    assert(tasks[k0] == rest[k0]);
                }
            }
        }
        assert forall|k: int| 0 <= k < tasks.len() implies exists|i: int|
            {
                &&& 0 <= i < mods.len()
                &&& mods[i].spec_is_compatible(v)
                &&& (#[trigger] tasks[k]).dev == mods[i].dev
                &&& tasks[k].name == mods[i].name
                &&& tasks[k].pinned == spec_pinned_version(mods[i].version_config@, v)
            } by {
            let shift: int = if mods[0].spec_is_compatible(v) {
                1
            } else {
                0
            };
            if mods[0].spec_is_compatible(v) && k == 0 {
            } else {
                let i0 = choose|i0: int|
                    {
                        &&& 0 <= i0 < mods.skip(1).len()
                        &&& mods.skip(1)[i0].spec_is_compatible(v)
                        &&& (#[trigger] rest[k - shift]).dev == mods.skip(1)[i0].dev
                        &&& rest[k - shift].name == mods.skip(1)[i0].name
                        &&& rest[k - shift].pinned == spec_pinned_version(
                            mods.skip(1)[i0].version_config@,
                            v,
                        )
                    };
                assert(mods.skip(1)[i0] == mods[i0 + 1]);
            }
        }
    }
}

/// Resolves the compatible mod set and each mod's pin for `game_version`.
pub fn compatible_mod_tasks(cfg: &ModsConfig, game_version: u32) -> (r: Vec<ModTask>)
    ensures
        r@ == spec_mod_tasks(cfg.mods@, game_version),
{
    let mut r: Vec<ModTask> = Vec::new();
    let n = cfg.mods.len();
    let mut i: usize = 0;
    proof {
        assert(cfg.mods@.skip(0) =~= cfg.mods@);
    }
    while i < n
        invariant
            i <= n,
            n == cfg.mods@.len(),
            r@ + spec_mod_tasks(cfg.mods@.skip(i as int), game_version) == spec_mod_tasks(
                cfg.mods@,
                game_version,
            ),
        decreases n - i,
    {
        let ghost pre = r@;
        proof {
            assert(cfg.mods@.skip(i as int)[0] == cfg.mods@[i as int]);
            assert(cfg.mods@.skip(i as int).skip(1) =~= cfg.mods@.skip(i + 1));
        }
        let m = &cfg.mods[i];
        if m.is_compatible(game_version) {
            let task = ModTask {
                dev: m.dev.clone(),
                name: m.name.clone(),
                pinned: m.pinned_version_for(game_version),
            };
            proof {
                assert(task == spec_mod_tasks(cfg.mods@.skip(i as int), game_version)[0]);
            }
            r.push(task);
            proof {
                assert(pre + spec_mod_tasks(cfg.mods@.skip(i as int), game_version) =~= r@
                    + spec_mod_tasks(cfg.mods@.skip(i + 1), game_version));
            }
        }
        i = i + 1;
    }
    proof {
        assert(cfg.mods@.skip(n as int) =~= Seq::<ModEntry>::empty());
        assert(r@ + Seq::<ModTask>::empty() =~= r@);
    }
    r
}

/// The depot manifest identifier recorded for `v`: the first pair carrying
/// that game version, or nothing.
pub open spec fn spec_manifest_lookup(manifests: Seq<(u32, String)>, v: u32) -> Option<String>
    decreases manifests.len(),
{
    if manifests.len() == 0 {
        None
    } else if manifests[0].0 == v {
        Some(manifests[0].1)
    } else {
        spec_manifest_lookup(manifests.skip(1), v)
    }
}

/// Looks up the depot manifest identifier for `game_version`.
pub fn manifest_id_for(manifests: &Vec<(u32, String)>, game_version: u32) -> (r: Option<String>)
    ensures
        r == spec_manifest_lookup(manifests@, game_version),
{
    let n = manifests.len();
    let mut i: usize = 0;
    proof {
        assert(manifests@.skip(0) =~= manifests@);
    }
    while i < n
        invariant
            i <= n,
            n == manifests@.len(),
            spec_manifest_lookup(manifests@.skip(i as int), game_version) == spec_manifest_lookup(
                manifests@,
                game_version,
            ),
        decreases n - i,
    {
        proof {
            assert(manifests@.skip(i as int)[0] == manifests@[i as int]);
            assert(manifests@.skip(i as int).skip(1) =~= manifests@.skip(i + 1));
        }
        if manifests[i].0 == game_version {
            return Some(manifests[i].1.clone());
        }
        i = i + 1;
    }
    proof {
        assert(manifests@.skip(n as int) =~= Seq::<(u32, String)>::empty());
    }
    None
}

impl ModsConfig {
    /// Splits a decoded remote manifest into its four facets: the manifest
    /// version counter, the alias-normalized mod set, the opaque load-order
    /// chains, and the per-game-version depot manifest identifiers.
    pub fn from_remote(m: RemoteManifest) -> (r: (u32, ModsConfig, Vec<Vec<String>>, Vec<
        (u32, String),
    >))
        ensures
            r.0 == m.version,
            r.2 == m.chain_config,
            r.3 == m.manifests,
            r.1.mods@.len() == m.mods@.len(),
            forall|i: int|
                0 <= i < m.mods@.len() ==> spec_normalized_entry(m.mods@[i], r.1.mods@[i]),
    {
        let mut cfg = ModsConfig { mods: m.mods };
        normalize_aliases(&mut cfg);
        (m.version, cfg, m.chain_config, m.manifests)
    }
}

} // verus!
