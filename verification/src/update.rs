//! What the plugin does with one change that the device reports.
//!
//! A twist of the dial runs the rotation command. Everything else is passed
//! on to the host as it came.

use vstd::prelude::*;

verus! {

/// Position of the dial among the encoders of the N1.
pub const DIAL_ENCODER: u8 = 2;

/// A change in the state of the device.
#[derive(Clone, Copy, Debug, PartialEq, Eq, Structural)]
pub enum DeviceStateUpdate {
    /// A button went down.
    ButtonDown(u8),
    /// A button came up.
    ButtonUp(u8),
    /// An encoder was pressed.
    EncoderDown(u8),
    /// An encoder was released.
    EncoderUp(u8),
    /// An encoder was turned by so many ticks.
    EncoderTwist(u8, i8),
}

/// What to do about an update.
#[derive(Clone, Copy, Debug, PartialEq, Eq, Structural)]
pub enum UpdateAction {
    /// Run the rotation command for this direction.
    Rotate { direction: i8 },
    /// Tell the host that a key went down.
    KeyDown { position: u8 },
    /// Tell the host that a key came up.
    KeyUp { position: u8 },
    /// Tell the host that an encoder was pressed. `report` asks that a failure
    /// to tell it be logged as an error rather than passed over.
    EncoderDown { position: u8, report: bool },
    /// Tell the host that an encoder was released; `report` as above.
    EncoderUp { position: u8, report: bool },
    /// Tell the host that an encoder was turned.
    EncoderChange { position: u8, ticks: i16 },
}

/// The action that `update` calls for.
pub open spec fn action_for(update: DeviceStateUpdate) -> UpdateAction {
    match update {
        DeviceStateUpdate::ButtonDown(key) => UpdateAction::KeyDown { position: key },
        DeviceStateUpdate::ButtonUp(key) => UpdateAction::KeyUp { position: key },
        DeviceStateUpdate::EncoderDown(encoder) => UpdateAction::EncoderDown {
            position: encoder,
            report: encoder == DIAL_ENCODER,
        },
        DeviceStateUpdate::EncoderUp(encoder) => UpdateAction::EncoderUp {
            position: encoder,
            report: encoder == DIAL_ENCODER,
        },
        DeviceStateUpdate::EncoderTwist(encoder, ticks) => if encoder == DIAL_ENCODER {
            UpdateAction::Rotate { direction: ticks }
        } else {
            UpdateAction::EncoderChange { position: encoder, ticks: ticks as i16 }
        },
    }
}

/// Whether the host hears of `update`.
pub open spec fn reaches_host(update: DeviceStateUpdate) -> bool {
    !(update matches DeviceStateUpdate::EncoderTwist(encoder, _) && encoder == DIAL_ENCODER)
}

/// Decides what to do about `update`.
pub fn route_update(update: &DeviceStateUpdate) -> (action: UpdateAction)
    ensures
        action == action_for(*update),
{
    match *update {
        DeviceStateUpdate::EncoderTwist(encoder, ticks) => {
            if encoder == DIAL_ENCODER {
                UpdateAction::Rotate { direction: ticks }
            } else {
                UpdateAction::EncoderChange { position: encoder, ticks: ticks as i16 }
            }
        },
        DeviceStateUpdate::EncoderDown(encoder) => UpdateAction::EncoderDown {
            position: encoder,
            report: encoder == DIAL_ENCODER,
        },
        DeviceStateUpdate::EncoderUp(encoder) => UpdateAction::EncoderUp {
            position: encoder,
            report: encoder == DIAL_ENCODER,
        },
        DeviceStateUpdate::ButtonDown(key) => UpdateAction::KeyDown { position: key },
        DeviceStateUpdate::ButtonUp(key) => UpdateAction::KeyUp { position: key },
    }
}

/// Only the dial is handled by the plugin itself: an update runs a command
/// exactly when it is a twist of the dial, and every other update reaches the
/// host with its position and ticks unchanged.
pub proof fn lemma_only_dial_twists_rotate(update: DeviceStateUpdate)
    ensures
        action_for(update) is Rotate <==> !reaches_host(update),
        update matches DeviceStateUpdate::EncoderTwist(encoder, ticks) ==> {
            &&& action_for(update) matches UpdateAction::Rotate { direction } ==> direction == ticks
            &&& action_for(update) matches UpdateAction::EncoderChange { position, ticks: sent }
                ==> position == encoder && sent == ticks
        },
{
}

} // verus!
