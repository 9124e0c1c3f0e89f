//! Choosing one of the pixel-format configurations that the window system
//! offers.

use vstd::prelude::*;

verus! {

/// What the choice reads of one configuration.
#[derive(Clone, Copy, Debug, PartialEq, Eq)]
pub struct ConfigInfo {
    /// Whether surfaces of this configuration can be transparent; `None`
    /// where the window system cannot tell.
    pub supports_transparency: Option<bool>,
    /// Samples per pixel of the multisample buffer; zero without one.
    pub num_samples: u8,
}

impl ConfigInfo {
    /// Transparency counts only where it is known to be supported.
    pub open spec fn transparent(self) -> bool {
        self.supports_transparency == Some(true)
    }

    pub fn is_transparent(&self) -> (known: bool)
        ensures
            known == self.transparent(),
    {
        match self.supports_transparency {
            Some(supported) => supported,
            None => false,
        }
    }
}

/// Whether `candidate` takes the place of the configuration held so far.
///
/// The sample counts are compared whatever the transparency of the two, so
/// an opaque candidate with fewer samples displaces a transparent one.
pub open spec fn displaces(candidate: ConfigInfo, held: ConfigInfo) -> bool {
    (candidate.transparent() && !held.transparent()) || candidate.num_samples < held.num_samples
}

/// The index held after the first `n` configurations have been seen, in
/// order, starting from the first.
pub open spec fn pick_among(configs: Seq<ConfigInfo>, n: nat) -> int
    decreases n,
{
    if n <= 1 {
        0
    } else {
        let held = pick_among(configs, (n - 1) as nat);
        if displaces(configs[n - 1], configs[held]) {
            n - 1
        } else {
            held
        }
    }
}

/// The index of the configuration that is chosen.
pub open spec fn spec_pick(configs: Seq<ConfigInfo>) -> int {
    pick_among(configs, configs.len())
}

/// Some configuration is known to support transparency.
pub open spec fn any_transparent(configs: Seq<ConfigInfo>) -> bool {
    exists|i: int| 0 <= i < configs.len() && (#[trigger] configs[i]).transparent()
}

/// What the preference asks of a choice `k`: a transparent configuration
/// if there is one, and among those of its kind one with the fewest
/// samples.
pub open spec fn preferred(configs: Seq<ConfigInfo>, k: int) -> bool {
    &&& 0 <= k < configs.len()
    &&& any_transparent(configs) ==> configs[k].transparent()
    &&& forall|i: int|
        0 <= i < configs.len() && (#[trigger] configs[i]).transparent() == configs[k].transparent()
            ==> configs[k].num_samples <= configs[i].num_samples
}

/// `p` is a transparent configuration with the fewest samples among the
/// transparent ones, and no opaque configuration after it has fewer.
pub open spec fn settles_at(configs: Seq<ConfigInfo>, p: int) -> bool {
    &&& 0 <= p < configs.len()
    &&& configs[p].transparent()
    &&& forall|i: int|
        0 <= i < configs.len() && (#[trigger] configs[i]).transparent()
            ==> configs[p].num_samples <= configs[i].num_samples
    &&& forall|j: int|
        p < j < configs.len() && !(#[trigger] configs[j]).transparent()
            ==> configs[p].num_samples <= configs[j].num_samples
}

/// The order of the configurations does not defeat the preference: where
/// one is transparent, the choice settles at some index.
pub open spec fn order_keeps_preference(configs: Seq<ConfigInfo>) -> bool {
    any_transparent(configs) ==> exists|p: int| settles_at(configs, p)
}

/// Chooses a configuration by index: the first is held, and each later one
/// takes its place where [`displaces`] says so.
pub fn gl_config_picker(configs: &Vec<ConfigInfo>) -> (chosen: usize)
    requires
        configs.len() > 0,
    ensures
        chosen == spec_pick(configs@),
        chosen < configs.len(),
{
    let mut held: usize = 0;
    let mut i: usize = 1;
    while i < configs.len()
        invariant
            1 <= i <= configs.len(),
            held < i,
            held == pick_among(configs@, i as nat),
        decreases configs.len() - i,
    {
        let candidate = &configs[i];
        let current = &configs[held];
        let gains_transparency = candidate.is_transparent() && !current.is_transparent();
        if gains_transparency || candidate.num_samples < current.num_samples {
            held = i;
        }
        i = i + 1;
    }
    held
}

/// The choice is one of the configurations seen.
pub proof fn lemma_pick_in_range(configs: Seq<ConfigInfo>, n: nat)
    requires
        1 <= n <= configs.len(),
    ensures
        0 <= pick_among(configs, n) < n,
    decreases n,
{
    if n > 1 {
        lemma_pick_in_range(configs, (n - 1) as nat);
    }
}

/// No configuration after the chosen one displaces it.
pub proof fn lemma_pick_unbeaten(configs: Seq<ConfigInfo>, n: nat)
    requires
        1 <= n <= configs.len(),
    ensures
        forall|j: int|
            pick_among(configs, n) < j < n ==> !displaces(
                #[trigger] configs[j],
                configs[pick_among(configs, n)],
            ),
    decreases n,
{
    if n > 1 {
        lemma_pick_unbeaten(configs, (n - 1) as nat);
        lemma_pick_in_range(configs, (n - 1) as nat);
    }
}

/// Where the configurations seen agree on transparency, the choice is the
/// first of those with the fewest samples.
pub proof fn lemma_pick_uniform(configs: Seq<ConfigInfo>, n: nat)
    requires
        1 <= n <= configs.len(),
        forall|i: int| 0 <= i < n ==> (#[trigger] configs[i]).transparent() == configs[0].transparent(),
    ensures
        forall|i: int|
            0 <= i < n ==> configs[pick_among(configs, n)].num_samples <= (
            #[trigger] configs[i]).num_samples,
        forall|i: int|
            0 <= i < pick_among(configs, n) ==> configs[pick_among(configs, n)].num_samples < (
            #[trigger] configs[i]).num_samples,
    decreases n,
{
    if n > 1 {
        lemma_pick_uniform(configs, (n - 1) as nat);
        lemma_pick_in_range(configs, (n - 1) as nat);
    }
}

/// Once the choice has settled at `p`, it stays on a transparent
/// configuration with as few samples as `p` has.
proof fn lemma_pick_settled(configs: Seq<ConfigInfo>, p: int, n: nat)
    requires
        settles_at(configs, p),
        p < n <= configs.len(),
    ensures
        0 <= pick_among(configs, n) < n,
        configs[pick_among(configs, n)].transparent(),
        configs[pick_among(configs, n)].num_samples == configs[p].num_samples,
    decreases n,
{
    lemma_pick_in_range(configs, n);
    if n > p + 1 {
        lemma_pick_settled(configs, p, (n - 1) as nat);
    } else if n > 1 {
        lemma_pick_in_range(configs, (n - 1) as nat);
    }
}

/// The choice supports transparency if any configuration does, and has the
/// fewest samples among the configurations of its kind, exactly on the
/// inputs whose order keeps the preference.
///
/// On the others an opaque configuration with fewer samples comes after
/// every transparent one that has the fewest, and takes its place.
pub proof fn lemma_pick_prefers_transparency(configs: Seq<ConfigInfo>)
    requires
        configs.len() > 0,
    ensures
        order_keeps_preference(configs) <==> preferred(configs, spec_pick(configs)),
{
    let n = configs.len();
    let k = spec_pick(configs);
    lemma_pick_in_range(configs, n);
    lemma_pick_unbeaten(configs, n);
    if order_keeps_preference(configs) {
        if any_transparent(configs) {
            let p = choose|p: int| settles_at(configs, p);
            lemma_pick_settled(configs, p, n);
        } else {
            lemma_pick_uniform(configs, n);
        }
        assert(preferred(configs, k));
    }
    if preferred(configs, k) {
        if any_transparent(configs) {
            assert(settles_at(configs, k));
        }
    }
}

} // verus!
