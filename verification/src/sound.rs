//! Permanent (looping) sounds registered by AI owners, keyed by sound UID.

use fxhash::FxHashMap;
use vstd::prelude::*;

use crate::collections::fx_map_entry_or_insert;

verus! {

/// A looping sound an AI class starts: its UID and the native parameter word.
#[derive(Clone, Copy, Debug, PartialEq, Eq, Structural)]
pub struct RobotsPermanentSoundConfig {
    pub sound_uid: u32,
    pub native_parameter: u32,
}

/// A registered looping sound and the live AI that first registered it.
#[derive(Clone, Copy, Debug, PartialEq, Eq, Structural)]
pub struct NativeAiPermanentSoundRegistration {
    pub owner_key: u64,
    pub sound_uid: u32,
    pub native_parameter: u32,
}

/// The registration that `owner_key` would create for `sound`.
pub open spec fn fresh_registration(owner_key: u64, sound: RobotsPermanentSoundConfig) -> NativeAiPermanentSoundRegistration {
    NativeAiPermanentSoundRegistration {
        owner_key,
        sound_uid: sound.sound_uid,
        native_parameter: sound.native_parameter,
    }
}

/// The registry after `owner_key` registers `sound`: unchanged when the UID is
/// already registered, otherwise with the fresh registration added.
pub open spec fn registry_after_register(
    registry: Map<u32, NativeAiPermanentSoundRegistration>,
    owner_key: u64,
    sound: RobotsPermanentSoundConfig,
) -> Map<u32, NativeAiPermanentSoundRegistration> {
    if registry.contains_key(sound.sound_uid) {
        registry
    } else {
        registry.insert(sound.sound_uid, fresh_registration(owner_key, sound))
    }
}

/// Registers `sound` for `owner_key` unless its UID is already registered: the
/// first native owner of a UID is kept, and the registration in force is
/// returned.
pub fn register_native_ai_permanent_sound(
    registry: &mut FxHashMap<u32, NativeAiPermanentSoundRegistration>,
    owner_key: u64,
    sound: RobotsPermanentSoundConfig,
) -> (registration: NativeAiPermanentSoundRegistration)
    ensures
        final(registry)@ == registry_after_register(old(registry)@, owner_key, sound),
        registration == registry_after_register(old(registry)@, owner_key, sound)[sound.sound_uid],
{
    fx_map_entry_or_insert(
        registry,
        sound.sound_uid,
        NativeAiPermanentSoundRegistration {
            owner_key,
            sound_uid: sound.sound_uid,
            native_parameter: sound.native_parameter,
        },
    )
}

/// Registering a sound UID a second time, by any owner and with any parameter,
/// changes nothing: the first registration stays in force and is what the second
/// call returns. A first registration names its owner.
pub proof fn lemma_permanent_sound_keeps_first_owner(
    registry: Map<u32, NativeAiPermanentSoundRegistration>,
    first_owner: u64,
    first_sound: RobotsPermanentSoundConfig,
    second_owner: u64,
    second_sound: RobotsPermanentSoundConfig,
)
    requires
        second_sound.sound_uid == first_sound.sound_uid,
    ensures
        ({
            let after_first = registry_after_register(registry, first_owner, first_sound);
            &&& registry_after_register(after_first, second_owner, second_sound) == after_first
            &&& registry_after_register(after_first, second_owner, second_sound)[second_sound.sound_uid]
                == after_first[first_sound.sound_uid]
            &&& !registry.contains_key(first_sound.sound_uid) ==> after_first[first_sound.sound_uid]
                == fresh_registration(first_owner, first_sound)
            &&& !registry.contains_key(first_sound.sound_uid) ==> {
                &&& after_first[first_sound.sound_uid].owner_key == first_owner
                &&& after_first[first_sound.sound_uid].sound_uid == first_sound.sound_uid
                &&& after_first[first_sound.sound_uid].native_parameter
                    == first_sound.native_parameter
                &&& after_first.dom() == registry.dom().insert(first_sound.sound_uid)
            }
            &&& registry.contains_key(first_sound.sound_uid) ==> after_first == registry
        }),
{
}

} // verus!
