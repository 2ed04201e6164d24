//! Small selector decisions that the AI hosts make around shared behavior nodes.

use vstd::prelude::*;

use crate::handler_class::RobotsAiHandlerClass;

verus! {

/// Priority that the RollerBot FollowNetworkPath selector node reports: its own
/// runtime priority while a patrol path is bound, and the floor priority 1 when
/// the map provides no path, so that only this node is disabled.
pub fn rollerbot_follow_path_host_priority(path_bound: bool, state_priority: u8) -> (priority: u8)
    ensures
        priority == if path_bound { state_priority } else { 1u8 },
{
    if path_bound {
        state_priority
    } else {
        1
    }
}

/// Whether a mine's solid contact with the player requests the mine's own death.
/// The shapes must really overlap; only the EF01 and EQ04 mines react, and only
/// while their owner has no destruction pending.
pub open spec fn special_ai_solid_contact_requests_death(
    handler_class: RobotsAiHandlerClass,
    owner_pending_destroy: bool,
    shapes_intersect: bool,
) -> bool {
    &&& shapes_intersect
    &&& !owner_pending_destroy
    &&& (handler_class == RobotsAiHandlerClass::Ef01Mine || handler_class
        == RobotsAiHandlerClass::Eq04Mine)
}

/// Native Handler +0x64 overlap callback of the EF01 and EQ04 mines, given
/// whether the owner's and the player's solid collision shapes intersect.
pub fn native_special_ai_solid_contact_requests_death(
    handler_class: RobotsAiHandlerClass,
    owner_pending_destroy: bool,
    shapes_intersect: bool,
) -> (requests_death: bool)
    ensures
        requests_death == special_ai_solid_contact_requests_death(
            handler_class,
            owner_pending_destroy,
            shapes_intersect,
        ),
{
    if !shapes_intersect {
        return false;
    }
    match handler_class {
        RobotsAiHandlerClass::Ef01Mine => !owner_pending_destroy,
        RobotsAiHandlerClass::Eq04Mine => !owner_pending_destroy,
        _ => false,
    }
}

} // verus!
