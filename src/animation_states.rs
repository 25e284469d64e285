//! The named boolean states that transition conditions read.

use bevy::utils::HashMap;
use vstd::prelude::*;

verus! {

/// The mapping from state name to value held in a `AnimationStates`.
pub uninterp spec fn state_values(s: AnimationStates) -> Map<Seq<char>, bool>;

/// A store of named booleans, kept in bevy's hash map.
#[verifier::external_body]
pub struct AnimationStates {
    map: HashMap<String, bool>,
}

impl View for AnimationStates {
    type V = Map<Seq<char>, bool>;

    open spec fn view(&self) -> Map<Seq<char>, bool> {
        state_values(*self)
    }
}

impl AnimationStates {
    /// Relies on `HashMap::default` of bevy's `HashMap` (hashbrown's, with a
    /// default hasher): a new map holds no entry.
    #[verifier::external_body]
    pub(crate) fn new() -> (r: AnimationStates)
        ensures
            state_values(r).dom() == Set::<Seq<char>>::empty(),
    {
        AnimationStates { map: HashMap::default() }
    }

    /// Relies on hashbrown's `HashMap::insert`: the name now maps to the value,
    /// every other entry is kept.
    #[verifier::external_body]
    pub(crate) fn insert(&mut self, name: String, value: bool)
        ensures
            state_values(*final(self)) == state_values(*old(self)).insert(name@, value),
    {
        self.map.insert(name, value);
    }

    /// Relies on hashbrown's `HashMap::get`: the value stored under the name, if any.
    #[verifier::external_body]
    pub(crate) fn get(&self, name: &String) -> (r: Option<bool>)
        ensures
            r == (if state_values(*self).contains_key(name@) {
                Some(state_values(*self)[name@])
            } else {
                None::<bool>
            }),
    {
        self.map.get(name).copied()
    }
}

} // verus!
