use vstd::prelude::*;
use bevy::platform::collections::HashMap;

verus! {

/// The `HashMap` of `bevy::platform::collections`. Nothing is known of its
/// inside; what a map holds is told by [`state_entries`].
#[verifier::external_type_specification]
#[verifier::external_body]
#[verifier::reject_recursive_types(K)]
#[verifier::reject_recursive_types(V)]
#[verifier::reject_recursive_types(S)]
pub struct ExHashMap<K, V, S>(bevy::platform::collections::HashMap<K, V, S>);

/// The `FixedHasher` of `bevy::platform::hash`, with which such a map
/// hashes its keys.
#[verifier::external_type_specification]
#[verifier::external_body]
pub struct ExFixedHasher(bevy::platform::hash::FixedHasher);

/// A map from action codes to pressed flags.
pub type StateMap = HashMap<u8, bool>;

/// What a map from action codes to pressed flags holds.
pub uninterp spec fn state_entries(m: StateMap) -> Map<u8, bool>;

/// The entries of a map that holds nothing.
pub open spec fn no_entries() -> Map<u8, bool> {
    Map::empty()
}

/// `HashMap::new` of `bevy::platform::collections`: the map that it makes
/// holds nothing.
#[verifier::external_body]
pub(crate) fn state_new() -> (made: StateMap)
    ensures
        state_entries(made) == no_entries(),
{
    HashMap::new()
}

/// `HashMap::get` of `bevy::platform::collections`: the value held under
/// `key`, if one is.
#[verifier::external_body]
pub(crate) fn state_get(m: &StateMap, key: u8) -> (r: Option<bool>)
    ensures
        r == (if state_entries(*m).contains_key(key) {
            Some(state_entries(*m)[key])
        } else {
            None
        }),
{
    m.get(&key).copied()
}

/// `HashMap::insert` of `bevy::platform::collections`: afterwards the map
/// holds `value` under `key` and is otherwise as it was; the value that was
/// held under `key` before, if one was, is returned.
#[verifier::external_body]
pub(crate) fn state_insert(m: &mut StateMap, key: u8, value: bool) -> (r: Option<bool>)
    ensures
        state_entries(*final(m)) == state_entries(*old(m)).insert(key, value),
        r == (if state_entries(*old(m)).contains_key(key) {
            Some(state_entries(*old(m))[key])
        } else {
            None
        }),
{
    m.insert(key, value)
}

/// `Clone::clone_from` of the `HashMap` of `bevy::platform::collections`:
/// afterwards `target` holds what `source` holds.
#[verifier::external_body]
pub(crate) fn state_clone_from(target: &mut StateMap, source: &StateMap)
    ensures
        state_entries(*final(target)) == state_entries(*source),
{
    target.clone_from(source);
}

} // verus!
