//! Biome rules and the ordered, first-match biome classifier.
//!
//! A rule is a closed-form range test over the three environment channels
//! (both bounds inclusive), together with the identifier of its ground tile
//! and an ordered list of spawn rules. The registry keeps rules in
//! registration order and classification returns the first rule whose ranges
//! admit the sample, so overlaps are resolved purely by that order.

use vstd::prelude::*;
use crate::fixed::EnvironmentSample;

verus! {

/// One weighted spawn trial: an object type identifier and an independent
/// fixed-point probability in [0, `FIXED_ONE`].
pub struct SpawnRule {
    pub object_type: String,
    pub probability: i64,
}

/// A named biome rule: suitability ranges, ground tile, spawn rules.
pub struct BiomeRule {
    pub type_tag: String,
    pub height_min: i64,
    pub height_max: i64,
    pub moisture_min: i64,
    pub moisture_max: i64,
    pub temperature_min: i64,
    pub temperature_max: i64,
    pub ground_tile_type: String,
    pub spawnable_objects: Vec<SpawnRule>,
}

impl BiomeRule {
    /// Membership of a sample in this rule's ranges; every bound inclusive.
    pub open spec fn spec_suitable(self, s: EnvironmentSample) -> bool {
        &&& self.height_min <= s.height <= self.height_max
        &&& self.moisture_min <= s.moisture <= self.moisture_max
        &&& self.temperature_min <= s.temperature <= self.temperature_max
    }

    pub fn is_suitable(&self, height: i64, moisture: i64, temperature: i64) -> (r: bool)
        ensures
            r == self.spec_suitable(crate::fixed::env(height, moisture, temperature)),
    {
        self.height_min <= height && height <= self.height_max
            && self.moisture_min <= moisture && moisture <= self.moisture_max
            && self.temperature_min <= temperature && temperature <= self.temperature_max
    }
}

/// Index of the first rule at or after `i` that admits `s`; `rules.len()`
/// if none does.
pub open spec fn spec_find_from(rules: Seq<BiomeRule>, s: EnvironmentSample, i: int) -> int
    decreases rules.len() - i,
{
    if i < 0 || i >= rules.len() {
        rules.len() as int
    } else if rules[i].spec_suitable(s) {
        i
    } else {
        spec_find_from(rules, s, i + 1)
    }
}

/// The classifier's choice on `s`: the first matching rule in registration
/// order, if any.
pub open spec fn spec_find(rules: Seq<BiomeRule>, s: EnvironmentSample) -> Option<BiomeRule> {
    let i = spec_find_from(rules, s, 0);
    if i < rules.len() {
        Some(rules[i])
    } else {
        None
    }
}

/// What `spec_find_from` returns: a position between `i` and the length,
/// matching if in range, with nothing matching before it.
pub proof fn lemma_find_from_characterization(
    rules: Seq<BiomeRule>,
    s: EnvironmentSample,
    i: int,
)
    requires
        0 <= i <= rules.len(),
    ensures
        i <= spec_find_from(rules, s, i) <= rules.len(),
        spec_find_from(rules, s, i) < rules.len() ==> rules[spec_find_from(rules, s, i)].spec_suitable(s),
        forall|k: int| i <= k < spec_find_from(rules, s, i) ==> !rules[k].spec_suitable(s),
        spec_find_from(rules, s, i) == rules.len() ==> forall|k: int|
            i <= k < rules.len() ==> !rules[k].spec_suitable(s),
    decreases rules.len() - i,
{
    if i < rules.len() && !rules[i].spec_suitable(s) {
        lemma_find_from_characterization(rules, s, i + 1);
    }
}

/// Classifier exclusivity by order: when two overlapping rules both admit a
/// sample, the classifier's choice is the one registered earlier — it sits at
/// an index no later than the first of the two, and so is never the later
/// rule's index.
pub proof fn lemma_first_match_wins(
    rules: Seq<BiomeRule>,
    s: EnvironmentSample,
    i: int,
    j: int,
)
    requires
        0 <= i < j < rules.len(),
        rules[i].spec_suitable(s),
        rules[j].spec_suitable(s),
    ensures
        spec_find_from(rules, s, 0) <= i,
        spec_find(rules, s) == Some(rules[spec_find_from(rules, s, 0)]),
        rules[spec_find_from(rules, s, 0)].spec_suitable(s),
{
    lemma_find_from_characterization(rules, s, 0);
}

/// The ordered collection of registered biome rules.
pub struct BiomeRegistry {
    rules: Vec<BiomeRule>,
}

impl BiomeRegistry {
    /// The registered rules, in registration order.
    pub closed spec fn rules(&self) -> Seq<BiomeRule> {
        self.rules@
    }

    pub fn new() -> (r: BiomeRegistry)
        ensures
            r.rules() == Seq::<BiomeRule>::empty(),
    {
        BiomeRegistry { rules: Vec::new() }
    }

    /// Append a rule; later lookups prefer rules registered earlier.
    pub fn register(&mut self, rule: BiomeRule)
        ensures
            final(self).rules() == old(self).rules().push(rule),
    {
        self.rules.push(rule);
    }

    /// First-match classification of a sample, in registration order.
    pub fn find_biome(&self, height: i64, moisture: i64, temperature: i64) -> (r: Option<
        &BiomeRule,
    >)
        ensures
            ({
                let s = crate::fixed::env(height, moisture, temperature);
                let m = spec_find_from(self.rules(), s, 0);
                &&& (r is Some <==> m < self.rules().len())
                &&& (r matches Some(b) ==> *b == self.rules()[m])
                &&& (r matches Some(b) ==> spec_find(self.rules(), s) == Some(*b))
                &&& (r is None ==> spec_find(self.rules(), s) is None)
            }),
    {
        let ghost s = crate::fixed::env(height, moisture, temperature);
        let n = self.rules.len();
        let mut idx: usize = 0;
        while idx < n
            invariant
                0 <= idx <= n,
                n == self.rules().len(),
                s == crate::fixed::env(height, moisture, temperature),
                spec_find_from(self.rules(), s, 0) == spec_find_from(self.rules(), s, idx as int),
            decreases n - idx,
        {
            let rule = &self.rules[idx];
            if rule.is_suitable(height, moisture, temperature) {
                proof {
                    assert(spec_find_from(self.rules(), s, idx as int) == idx);
                }
                return Some(rule);
            }
            proof {
                assert(spec_find_from(self.rules(), s, idx as int) == spec_find_from(
                    self.rules(),
                    s,
                    idx as int + 1,
                ));
            }
            idx += 1;
        }
        None
    }
}

} // verus!
