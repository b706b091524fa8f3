//! LED roles and the one decision the choreography layer needs from the
//! core: which LED celebrates a winner. The blink patterns themselves are
//! pure output and stay with the driver.

use vstd::prelude::*;

use crate::button::ButtonRole;

verus! {

/// The three LEDs of the device.
#[derive(PartialEq, Eq, Structural, Clone, Copy, Debug)]
pub enum LedRole {
    Onboard,
    Player1,
    Player2,
}

/// The LED that belongs to a winning button.
pub fn winner_led_role(winner: ButtonRole) -> (r: LedRole)
    ensures
        winner == ButtonRole::Player1 ==> r == LedRole::Player1,
        winner == ButtonRole::Player2 ==> r == LedRole::Player2,
{
    match winner {
        ButtonRole::Player1 => LedRole::Player1,
        ButtonRole::Player2 => LedRole::Player2,
    }
}

} // verus!
