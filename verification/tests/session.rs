use n1_encoder::registry::IdMap;
use n1_encoder::session::{
    apply_effect, initial_state, session_action, session_step, RegistryEffect, SessionAction,
    SessionState, Transition, HOST_DEVICE_TYPE, INITIAL_BRIGHTNESS, MODE_SETTLE_MILLIS,
    SOFTWARE_MODE,
};
use tokio_util::sync::CancellationToken;

const ALL_STATES: [SessionState; 11] = [
    SessionState::Connecting,
    SessionState::SettingMode,
    SessionState::Settling,
    SessionState::SettingBrightness,
    SessionState::ClearingImages,
    SessionState::Flushing,
    SessionState::Registering,
    SessionState::Reading,
    SessionState::ShuttingDown,
    SessionState::Unregistering,
    SessionState::Closed,
];

fn connected(state: SessionState) -> bool {
    matches!(state, SessionState::Reading | SessionState::ShuttingDown)
}

fn step(state: SessionState, ok: bool) -> (SessionState, RegistryEffect) {
    let Transition { next, effect } = session_step(state, ok);
    (next, effect)
}

#[test]
fn session_constants() {
    assert_eq!(SOFTWARE_MODE, 3);
    assert_eq!(MODE_SETTLE_MILLIS, 50);
    assert_eq!(INITIAL_BRIGHTNESS, 50);
    assert_eq!(HOST_DEVICE_TYPE, 0);
}

#[test]
fn session_starts_by_connecting() {
    assert_eq!(initial_state(), SessionState::Connecting);
}

#[test]
fn each_state_waits_for_its_operation() {
    assert_eq!(
        session_action(SessionState::Connecting),
        SessionAction::Connect { protocol_version: 3, key_count: 18, encoder_count: 3 }
    );
    assert_eq!(session_action(SessionState::SettingMode), SessionAction::SetMode { mode: 3 });
    assert_eq!(session_action(SessionState::Settling), SessionAction::Sleep { millis: 50 });
    assert_eq!(
        session_action(SessionState::SettingBrightness),
        SessionAction::SetBrightness { percent: 50 }
    );
    assert_eq!(session_action(SessionState::ClearingImages), SessionAction::ClearImages);
    assert_eq!(session_action(SessionState::Flushing), SessionAction::Flush);
    assert_eq!(
        session_action(SessionState::Registering),
        SessionAction::Register { rows: 6, columns: 3, encoders: 3, device_type: 0 }
    );
    assert_eq!(session_action(SessionState::Reading), SessionAction::Read);
    assert_eq!(session_action(SessionState::ShuttingDown), SessionAction::Shutdown);
    assert_eq!(session_action(SessionState::Unregistering), SessionAction::Unregister);
    assert_eq!(session_action(SessionState::Closed), SessionAction::Stop);
}

#[test]
fn untroubled_session_walks_through_every_state() {
    let mut state = initial_state();
    let mut seen = vec![state];
    while state != SessionState::Reading {
        state = session_step(state, true).next;
        seen.push(state);
    }
    state = session_step(state, true).next;
    assert_eq!(state, SessionState::Reading);
    state = session_step(state, false).next;
    seen.push(state);
    while state != SessionState::Closed {
        state = session_step(state, true).next;
        seen.push(state);
    }
    assert_eq!(seen, ALL_STATES.to_vec());
}

#[test]
fn failed_connect_closes_and_drops_the_token() {
    assert_eq!(
        step(SessionState::Connecting, false),
        (SessionState::Closed, RegistryEffect::DropToken)
    );
}

#[test]
fn failed_mode_change_closes_and_drops_the_token() {
    assert_eq!(
        step(SessionState::SettingMode, false),
        (SessionState::Closed, RegistryEffect::DropToken)
    );
}

#[test]
fn failed_registration_closes_and_drops_the_token() {
    assert_eq!(
        step(SessionState::Registering, false),
        (SessionState::Closed, RegistryEffect::DropToken)
    );
}

#[test]
fn successful_registration_marks_the_device_connected() {
    assert_eq!(
        step(SessionState::Registering, true),
        (SessionState::Reading, RegistryEffect::MarkConnected)
    );
}

#[test]
fn failures_of_brightness_images_and_flush_are_passed_over() {
    for ok in [true, false] {
        assert_eq!(
            step(SessionState::Settling, ok),
            (SessionState::SettingBrightness, RegistryEffect::Keep)
        );
        assert_eq!(
            step(SessionState::SettingBrightness, ok),
            (SessionState::ClearingImages, RegistryEffect::Keep)
        );
        assert_eq!(
            step(SessionState::ClearingImages, ok),
            (SessionState::Flushing, RegistryEffect::Keep)
        );
        assert_eq!(
            step(SessionState::Flushing, ok),
            (SessionState::Registering, RegistryEffect::Keep)
        );
    }
}

#[test]
fn reading_goes_on_while_it_succeeds() {
    assert_eq!(step(SessionState::Reading, true), (SessionState::Reading, RegistryEffect::Keep));
}

#[test]
fn read_failure_or_cancellation_starts_the_shutdown() {
    assert_eq!(
        step(SessionState::Reading, false),
        (SessionState::ShuttingDown, RegistryEffect::Keep)
    );
}

#[test]
fn shutdown_forgets_the_device_whatever_came_of_it() {
    for ok in [true, false] {
        assert_eq!(
            step(SessionState::ShuttingDown, ok),
            (SessionState::Unregistering, RegistryEffect::Forget)
        );
        assert_eq!(
            step(SessionState::Unregistering, ok),
            (SessionState::Closed, RegistryEffect::Keep)
        );
    }
}

#[test]
fn closed_session_stays_closed() {
    for ok in [true, false] {
        assert_eq!(step(SessionState::Closed, ok), (SessionState::Closed, RegistryEffect::Keep));
    }
}

#[test]
fn every_step_but_a_good_read_moves_forward() {
    for (rank, state) in ALL_STATES.iter().enumerate() {
        for ok in [true, false] {
            let next = session_step(*state, ok).next;
            let next_rank = ALL_STATES.iter().position(|s| *s == next).unwrap();
            if *state == SessionState::Closed || (*state == SessionState::Reading && ok) {
                assert_eq!(next_rank, rank);
            } else {
                assert!(next_rank > rank);
            }
        }
    }
}

#[test]
fn effects_follow_the_connection() {
    for state in ALL_STATES {
        for ok in [true, false] {
            let (next, effect) = step(state, ok);
            assert_eq!(
                effect == RegistryEffect::MarkConnected,
                !connected(state) && connected(next)
            );
            assert_eq!(effect == RegistryEffect::Forget, connected(state) && !connected(next));
        }
    }
}

#[test]
fn apply_keep_changes_nothing() {
    let id = "N1-1".to_string();
    let mut devices: IdMap<()> = IdMap::new();
    let mut tokens: IdMap<CancellationToken> = IdMap::new();
    tokens.insert(id.clone(), CancellationToken::new());
    apply_effect(RegistryEffect::Keep, &id, &mut devices, &mut tokens);
    assert!(!devices.contains_key(&id));
    assert!(tokens.contains_key(&id));
}

#[test]
fn apply_mark_connected_enters_the_device() {
    let id = "N1-1".to_string();
    let mut devices: IdMap<()> = IdMap::new();
    let mut tokens: IdMap<CancellationToken> = IdMap::new();
    tokens.insert(id.clone(), CancellationToken::new());
    apply_effect(RegistryEffect::MarkConnected, &id, &mut devices, &mut tokens);
    assert!(devices.contains_key(&id));
    assert!(tokens.contains_key(&id));
    assert_eq!(devices.len(), 1);
}

#[test]
fn apply_drop_token_takes_the_token_only() {
    let id = "N1-1".to_string();
    let other = "N1-2".to_string();
    let mut devices: IdMap<()> = IdMap::new();
    let mut tokens: IdMap<CancellationToken> = IdMap::new();
    devices.insert(other.clone(), ());
    tokens.insert(id.clone(), CancellationToken::new());
    tokens.insert(other.clone(), CancellationToken::new());
    apply_effect(RegistryEffect::DropToken, &id, &mut devices, &mut tokens);
    assert!(!tokens.contains_key(&id));
    assert!(tokens.contains_key(&other));
    assert!(devices.contains_key(&other));
}

#[test]
fn apply_forget_clears_both_tables_of_the_device() {
    let id = "N1-1".to_string();
    let other = "N1-2".to_string();
    let mut devices: IdMap<()> = IdMap::new();
    let mut tokens: IdMap<CancellationToken> = IdMap::new();
    for key in [&id, &other] {
        devices.insert(key.clone(), ());
        tokens.insert(key.clone(), CancellationToken::new());
    }
    apply_effect(RegistryEffect::Forget, &id, &mut devices, &mut tokens);
    assert!(!devices.contains_key(&id));
    assert!(!tokens.contains_key(&id));
    assert!(devices.contains_key(&other));
    assert!(tokens.contains_key(&other));
}

#[test]
fn dropped_token_is_not_cancelled() {
    let id = "N1-1".to_string();
    let mut devices: IdMap<()> = IdMap::new();
    let mut tokens: IdMap<CancellationToken> = IdMap::new();
    let token = CancellationToken::new();
    tokens.insert(id.clone(), token.clone());
    apply_effect(RegistryEffect::DropToken, &id, &mut devices, &mut tokens);
    assert!(!token.is_cancelled());
}

#[test]
fn whole_session_keeps_the_tables_in_step() {
    let id = "N1-1".to_string();
    let mut devices: IdMap<()> = IdMap::new();
    let mut tokens: IdMap<CancellationToken> = IdMap::new();
    tokens.insert(id.clone(), CancellationToken::new());
    let mut state = initial_state();
    let reports = [true, true, true, false, true, true, true, true, true, false, false, true];
    for ok in reports {
        let t = session_step(state, ok);
        apply_effect(t.effect, &id, &mut devices, &mut tokens);
        state = t.next;
        assert_eq!(devices.contains_key(&id), connected(state));
    }
    assert_eq!(state, SessionState::Closed);
    assert_eq!(session_action(state), SessionAction::Stop);
    assert!(!devices.contains_key(&id));
    assert!(!tokens.contains_key(&id));
}
