//! The life of one device session.
//!
//! A session brings a device up, registers it with the host, reads its input
//! until the device fails or the session is cancelled, and takes it down
//! again. Each state names the one operation that the session is waiting
//! for. The caller performs that operation and reports whether it went well;
//! [`session_step`] answers with the next state and with what has to change in
//! the plugin's two tables.

use crate::device::{N1_COLS, N1_ENCODER_COUNT, N1_KEY_COUNT, N1_PROTOCOL_VERSION, N1_ROWS};
use crate::registry::IdMap;
use vstd::prelude::*;

verus! {

/// Mode of the device in which the host, not the firmware, drives it.
pub const SOFTWARE_MODE: u8 = 3;

/// Time that the device is given to change its mode, in milliseconds.
pub const MODE_SETTLE_MILLIS: u64 = 50;

/// Brightness, in percent, to which a session sets the displays.
pub const INITIAL_BRIGHTNESS: u8 = 50;

/// Device type under which the host files the N1.
pub const HOST_DEVICE_TYPE: u8 = 0;

/// Where a session stands: the operation that it is waiting for.
#[derive(Clone, Copy, Debug, PartialEq, Eq, Structural)]
pub enum SessionState {
    Connecting,
    SettingMode,
    Settling,
    SettingBrightness,
    ClearingImages,
    Flushing,
    Registering,
    Reading,
    ShuttingDown,
    Unregistering,
    Closed,
}

/// The operation that a session asks its caller to perform.
#[derive(Clone, Copy, Debug, PartialEq, Eq, Structural)]
pub enum SessionAction {
    /// Open the device.
    Connect { protocol_version: usize, key_count: usize, encoder_count: usize },
    /// Put the device into the given mode.
    SetMode { mode: u8 },
    /// Wait.
    Sleep { millis: u64 },
    /// Set the brightness of the displays.
    SetBrightness { percent: u8 },
    /// Blank every key image.
    ClearImages,
    /// Send what is pending to the device.
    Flush,
    /// Announce the device to the host.
    Register { rows: u8, columns: u8, encoders: u8, device_type: u8 },
    /// Read the next batch of input and act on it, unless the session is
    /// cancelled first.
    Read,
    /// Put the device to rest.
    Shutdown,
    /// Withdraw the device from the host.
    Unregister,
    /// Nothing is left to do.
    Stop,
}

/// What a step changes in the plugin's tables, for the session's device id.
#[derive(Clone, Copy, Debug, PartialEq, Eq, Structural)]
pub enum RegistryEffect {
    /// Nothing.
    Keep,
    /// The session gave up before the device was registered: its token goes.
    DropToken,
    /// The device is registered with the host: it enters the device table.
    MarkConnected,
    /// The session is over: the device and its token leave both tables.
    Forget,
}

/// The answer to one report.
#[derive(Clone, Copy, Debug, PartialEq, Eq, Structural)]
pub struct Transition {
    pub next: SessionState,
    pub effect: RegistryEffect,
}

/// Whether a session in this state has its device in the device table.
pub open spec fn is_connected(state: SessionState) -> bool {
    state is Reading || state is ShuttingDown
}

/// Whether a session in this state may still have its token in the token
/// table.
pub open spec fn may_hold_token(state: SessionState) -> bool {
    !(state is Unregistering || state is Closed)
}

/// Whether a failure in this state ends the session on the spot. The device
/// has not been registered then, so there is nothing to take down.
pub open spec fn is_vital(state: SessionState) -> bool {
    state is Connecting || state is SettingMode || state is Registering
}

/// The state that follows `state` when every operation goes well and the
/// reading has come to its end.
pub open spec fn successor(state: SessionState) -> SessionState {
    match state {
        SessionState::Connecting => SessionState::SettingMode,
        SessionState::SettingMode => SessionState::Settling,
        SessionState::Settling => SessionState::SettingBrightness,
        SessionState::SettingBrightness => SessionState::ClearingImages,
        SessionState::ClearingImages => SessionState::Flushing,
        SessionState::Flushing => SessionState::Registering,
        SessionState::Registering => SessionState::Reading,
        SessionState::Reading => SessionState::ShuttingDown,
        SessionState::ShuttingDown => SessionState::Unregistering,
        SessionState::Unregistering => SessionState::Closed,
        SessionState::Closed => SessionState::Closed,
    }
}

/// The state after `state`, once its operation was reported as done (`ok`) or
/// as failed or cancelled (`!ok`).
///
/// A vital operation that fails closes the session. Reading goes on for as
/// long as it succeeds, and its failure or cancellation starts the way down.
/// Every other operation is followed by the next whatever came of it.
pub open spec fn next_state(state: SessionState, ok: bool) -> SessionState {
    if is_vital(state) && !ok {
        SessionState::Closed
    } else if state is Reading && ok {
        SessionState::Reading
    } else {
        successor(state)
    }
}

/// What the step from `state` changes in the tables.
pub open spec fn effect_of(state: SessionState, ok: bool) -> RegistryEffect {
    let next = next_state(state, ok);
    if !is_connected(state) && is_connected(next) {
        RegistryEffect::MarkConnected
    } else if is_connected(state) && !is_connected(next) {
        RegistryEffect::Forget
    } else if may_hold_token(state) && !may_hold_token(next) {
        RegistryEffect::DropToken
    } else {
        RegistryEffect::Keep
    }
}

/// The operation that a session in `state` waits for.
pub open spec fn action_of(state: SessionState) -> SessionAction {
    match state {
        SessionState::Connecting => SessionAction::Connect {
            protocol_version: N1_PROTOCOL_VERSION,
            key_count: N1_KEY_COUNT,
            encoder_count: N1_ENCODER_COUNT,
        },
        SessionState::SettingMode => SessionAction::SetMode { mode: SOFTWARE_MODE },
        SessionState::Settling => SessionAction::Sleep { millis: MODE_SETTLE_MILLIS },
        SessionState::SettingBrightness => SessionAction::SetBrightness {
            percent: INITIAL_BRIGHTNESS,
        },
        SessionState::ClearingImages => SessionAction::ClearImages,
        SessionState::Flushing => SessionAction::Flush,
        SessionState::Registering => SessionAction::Register {
            rows: N1_ROWS as u8,
            columns: N1_COLS as u8,
            encoders: N1_ENCODER_COUNT as u8,
            device_type: HOST_DEVICE_TYPE,
        },
        SessionState::Reading => SessionAction::Read,
        SessionState::ShuttingDown => SessionAction::Shutdown,
        SessionState::Unregistering => SessionAction::Unregister,
        SessionState::Closed => SessionAction::Stop,
    }
}

/// The device table after `effect` was applied for the device `id`.
pub open spec fn devices_after(
    effect: RegistryEffect,
    id: Seq<char>,
    devices: Map<Seq<char>, ()>,
) -> Map<Seq<char>, ()> {
    match effect {
        RegistryEffect::MarkConnected => devices.insert(id, ()),
        RegistryEffect::Forget => devices.remove(id),
        _ => devices,
    }
}

/// The token table after `effect` was applied for the device `id`.
pub open spec fn tokens_after<T>(
    effect: RegistryEffect,
    id: Seq<char>,
    tokens: Map<Seq<char>, T>,
) -> Map<Seq<char>, T> {
    match effect {
        RegistryEffect::DropToken | RegistryEffect::Forget => tokens.remove(id),
        _ => tokens,
    }
}

/// The tables say of the device `id` what a session in `state` expects: the
/// device is in the device table exactly while the session is connected, and
/// no token is left behind once the session can hold none.
pub open spec fn tables_agree<T>(
    state: SessionState,
    id: Seq<char>,
    devices: Map<Seq<char>, ()>,
    tokens: Map<Seq<char>, T>,
) -> bool {
    &&& devices.contains_key(id) <==> is_connected(state)
    &&& !may_hold_token(state) ==> !tokens.contains_key(id)
}

/// The number of steps that a session in `state` has before it at most, not
/// counting the batches that it reads.
pub open spec fn steps_left(state: SessionState) -> nat {
    match state {
        SessionState::Connecting => 10,
        SessionState::SettingMode => 9,
        SessionState::Settling => 8,
        SessionState::SettingBrightness => 7,
        SessionState::ClearingImages => 6,
        SessionState::Flushing => 5,
        SessionState::Registering => 4,
        SessionState::Reading => 3,
        SessionState::ShuttingDown => 2,
        SessionState::Unregistering => 1,
        SessionState::Closed => 0,
    }
}

/// The state in which every session starts.
pub fn initial_state() -> (state: SessionState)
    ensures
        state is Connecting,
{
    SessionState::Connecting
}

/// The operation that a session in `state` waits for.
pub fn session_action(state: SessionState) -> (action: SessionAction)
    ensures
        action == action_of(state),
{
    match state {
        SessionState::Connecting => SessionAction::Connect {
            protocol_version: N1_PROTOCOL_VERSION,
            key_count: N1_KEY_COUNT,
            encoder_count: N1_ENCODER_COUNT,
        },
        SessionState::SettingMode => SessionAction::SetMode { mode: SOFTWARE_MODE },
        SessionState::Settling => SessionAction::Sleep { millis: MODE_SETTLE_MILLIS },
        SessionState::SettingBrightness => SessionAction::SetBrightness {
            percent: INITIAL_BRIGHTNESS,
        },
        SessionState::ClearingImages => SessionAction::ClearImages,
        SessionState::Flushing => SessionAction::Flush,
        SessionState::Registering => SessionAction::Register {
            rows: N1_ROWS as u8,
            columns: N1_COLS as u8,
            encoders: N1_ENCODER_COUNT as u8,
            device_type: HOST_DEVICE_TYPE,
        },
        SessionState::Reading => SessionAction::Read,
        SessionState::ShuttingDown => SessionAction::Shutdown,
        SessionState::Unregistering => SessionAction::Unregister,
        SessionState::Closed => SessionAction::Stop,
    }
}

/// Takes the report on the operation that `state` was waiting for: `ok` when
/// it went well, `!ok` when it failed or, while reading, when the session was
/// cancelled.
pub fn session_step(state: SessionState, ok: bool) -> (transition: Transition)
    ensures
        transition.next == next_state(state, ok),
        transition.effect == effect_of(state, ok),
{
    match state {
        SessionState::Connecting => if ok {
            Transition { next: SessionState::SettingMode, effect: RegistryEffect::Keep }
        } else {
            Transition { next: SessionState::Closed, effect: RegistryEffect::DropToken }
        },
        SessionState::SettingMode => if ok {
            Transition { next: SessionState::Settling, effect: RegistryEffect::Keep }
        } else {
            Transition { next: SessionState::Closed, effect: RegistryEffect::DropToken }
        },
        SessionState::Settling => Transition {
            next: SessionState::SettingBrightness,
            effect: RegistryEffect::Keep,
        },
        SessionState::SettingBrightness => Transition {
            next: SessionState::ClearingImages,
            effect: RegistryEffect::Keep,
        },
        SessionState::ClearingImages => Transition {
            next: SessionState::Flushing,
            effect: RegistryEffect::Keep,
        },
        SessionState::Flushing => Transition {
            next: SessionState::Registering,
            effect: RegistryEffect::Keep,
        },
        SessionState::Registering => if ok {
            Transition { next: SessionState::Reading, effect: RegistryEffect::MarkConnected }
        } else {
            Transition { next: SessionState::Closed, effect: RegistryEffect::DropToken }
        },
        SessionState::Reading => if ok {
            Transition { next: SessionState::Reading, effect: RegistryEffect::Keep }
        } else {
            Transition { next: SessionState::ShuttingDown, effect: RegistryEffect::Keep }
        },
        SessionState::ShuttingDown => Transition {
            next: SessionState::Unregistering,
            effect: RegistryEffect::Forget,
        },
        SessionState::Unregistering => Transition {
            next: SessionState::Closed,
            effect: RegistryEffect::Keep,
        },
        SessionState::Closed => Transition {
            next: SessionState::Closed,
            effect: RegistryEffect::Keep,
        },
    }
}

/// Applies `effect` to the two tables for the device `id`.
pub fn apply_effect<T>(
    effect: RegistryEffect,
    id: &String,
    devices: &mut IdMap<()>,
    tokens: &mut IdMap<T>,
)
    ensures
        final(devices)@ == devices_after(effect, id@, old(devices)@),
        final(tokens)@ == tokens_after(effect, id@, old(tokens)@),
{
    match effect {
        RegistryEffect::Keep => {},
        RegistryEffect::DropToken => {
            tokens.remove(id);
        },
        RegistryEffect::MarkConnected => {
            devices.insert(id.clone(), ());
        },
        RegistryEffect::Forget => {
            devices.remove(id);
            tokens.remove(id);
        },
    }
}

/// Every step but a successful read brings a session closer to its end: it
/// lowers the number of steps that are left. A closed session stays closed.
pub proof fn lemma_step_makes_progress(state: SessionState, ok: bool)
    ensures
        steps_left(next_state(state, ok)) <= steps_left(state),
        !(state is Closed) && !(state is Reading && ok) ==> steps_left(next_state(state, ok))
            < steps_left(state),
        state is Closed ==> next_state(state, ok) is Closed,
{
}

/// A step keeps the tables in agreement with the session: a device is in the
/// device table exactly while its session is connected, and a session that
/// has closed leaves no token behind.
pub proof fn lemma_step_keeps_tables<T>(
    state: SessionState,
    ok: bool,
    id: Seq<char>,
    devices: Map<Seq<char>, ()>,
    tokens: Map<Seq<char>, T>,
)
    requires
        tables_agree(state, id, devices, tokens),
    ensures
        tables_agree(
            next_state(state, ok),
            id,
            devices_after(effect_of(state, ok), id, devices),
            tokens_after(effect_of(state, ok), id, tokens),
        ),
{
}

/// A step touches no entry but that of the session's own device.
pub proof fn lemma_step_leaves_others<T>(
    state: SessionState,
    ok: bool,
    id: Seq<char>,
    other: Seq<char>,
    devices: Map<Seq<char>, ()>,
    tokens: Map<Seq<char>, T>,
)
    requires
        other != id,
    ensures
        devices_after(effect_of(state, ok), id, devices).contains_key(other)
            == devices.contains_key(other),
        tokens_after(effect_of(state, ok), id, tokens).contains_key(other) == tokens.contains_key(
            other,
        ),
        tokens.contains_key(other) ==> tokens_after(effect_of(state, ok), id, tokens)[other]
            == tokens[other],
{
}

/// A session is connected only between its registration and its shutdown:
/// a step connects the device exactly when the registration succeeds.
pub proof fn lemma_connects_on_registration(state: SessionState, ok: bool)
    ensures
        effect_of(state, ok) is MarkConnected <==> state is Registering && ok,
        effect_of(state, ok) is Forget <==> state is ShuttingDown,
        effect_of(state, ok) is DropToken <==> is_vital(state) && !ok,
{
}

} // verus!
