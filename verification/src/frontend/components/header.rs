//! The bar at the top of the screen.
use vstd::prelude::*;

verus! {

/// The icon of the notification button while notifications are on.
pub const NOTIFICATIONS_ON_ICON: &'static str = "fas fa-sync-alt";

/// The icon of the notification button while notifications are off.
pub const NOTIFICATIONS_OFF_ICON: &'static str = "fas fa-bell-slash";

/// The icon of the notification button.
pub fn notifications_icon(notifications_on: bool) -> (icon: &'static str)
    ensures
        icon@ == if notifications_on {
            NOTIFICATIONS_ON_ICON@
        } else {
            NOTIFICATIONS_OFF_ICON@
        },
{
    if notifications_on {
        NOTIFICATIONS_ON_ICON
    } else {
        NOTIFICATIONS_OFF_ICON
    }
}

/// Whether the button that asks the device for its position is disabled:
/// it is where the device cannot tell its position.
pub fn location_button_disabled(geolocation_supported: bool) -> (disabled: bool)
    ensures
        disabled == !geolocation_supported,
{
    !geolocation_supported
}

} // verus!
