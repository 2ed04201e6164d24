//! The creator latch of a serialized AI trigger (native XTrigger_AI_Character +0x104).

use vstd::prelude::*;

verus! {

/// A world position carried as the IEEE-754 bit patterns of its three `f32`
/// coordinates. The library stores and hands it back; it never computes on it.
#[derive(Clone, Copy, Debug, PartialEq, Eq, Structural)]
pub struct NativeVec3Bits {
    pub x_bits: u32,
    pub y_bits: u32,
    pub z_bits: u32,
}

/// What the trigger's creator remembers of the AI it spawned.
#[derive(Clone, Copy, Debug, PartialEq, Eq, Structural)]
pub struct NativeSerializedAiCreatorRuntime {
    /// Common natural death sets this; CreateItem refuses to recreate the XItem
    /// while it remains set.
    pub death_latched: bool,
    /// The dying XItem's live position, copied back into the trigger before
    /// deferred destruction.
    pub position_override: Option<NativeVec3Bits>,
}

impl NativeSerializedAiCreatorRuntime {
    /// Whether the creator lets CreateItem (re)create the XItem.
    pub open spec fn creation_allowed(self) -> bool {
        !self.death_latched
    }

    /// The creator after recording a natural death at `position`.
    pub open spec fn after_natural_death(self, position: NativeVec3Bits) -> Self {
        NativeSerializedAiCreatorRuntime { death_latched: true, position_override: Some(position) }
    }

    /// Whether CreateItem may (re)create the trigger's XItem.
    pub fn allows_create_item(self) -> (allowed: bool)
        ensures
            allowed == self.creation_allowed(),
    {
        !self.death_latched
    }

    /// Latches the natural death and keeps the position where it happened.
    pub fn record_natural_death(&mut self, position: NativeVec3Bits)
        ensures
            *final(self) == old(self).after_natural_death(position),
    {
        self.death_latched = true;
        self.position_override = Some(position);
    }
}

impl Default for NativeSerializedAiCreatorRuntime {
    /// A creator that has seen no death.
    fn default() -> (runtime: Self)
        ensures
            !runtime.death_latched,
            runtime.position_override == None::<NativeVec3Bits>,
    {
        NativeSerializedAiCreatorRuntime { death_latched: false, position_override: None }
    }
}

/// Once a natural death is recorded the creator refuses to recreate the XItem,
/// whatever it had seen before, and a later death only moves the remembered
/// position.
pub proof fn lemma_natural_death_blocks_respawn(
    creator: NativeSerializedAiCreatorRuntime,
    first: NativeVec3Bits,
    second: NativeVec3Bits,
)
    ensures
        !creator.after_natural_death(first).creation_allowed(),
        !creator.after_natural_death(first).after_natural_death(second).creation_allowed(),
        creator.after_natural_death(first).after_natural_death(second).position_override == Some(
            second,
        ),
{
}

} // verus!
