use duck_net::action::S2CActionTypes;
use duck_net::appearance::{unpack_duck_color, DuckColor, OtherPlayerAnimation, OtherPlayerAnimationState};
use duck_net::dispatch::DomainEvent;
use duck_net::json::Json;
use duck_net::session::{
    BootstrapAction, ConnectionState, HandshakeOutcome, JoinRequestEvent, MoveRequestEvent, PumpAction,
    ReadOutcome, RelayAction, Session, WriteOutcome,
};

fn ready_session() -> Session {
    let mut s = Session::new();
    assert_eq!(s.setup_connection(), BootstrapAction::SpawnHandshake);
    assert_eq!(s.handle_tasks(HandshakeOutcome::Succeeded), BootstrapAction::InstallConnection);
    assert_eq!(s.state(), ConnectionState::Ready);
    s
}

#[test]
fn bootstrap_spawns_one_handshake_at_a_time() {
    let mut s = Session::new();
    assert_eq!(s.state(), ConnectionState::NotStarted);
    assert_eq!(s.setup_connection(), BootstrapAction::SpawnHandshake);
    assert_eq!(s.state(), ConnectionState::InFlight);
    assert_eq!(s.setup_connection(), BootstrapAction::Ignore);
    assert_eq!(s.handle_tasks(HandshakeOutcome::Pending), BootstrapAction::Ignore);
    assert_eq!(s.state(), ConnectionState::InFlight);
    assert_eq!(s.handle_tasks(HandshakeOutcome::Succeeded), BootstrapAction::InstallConnection);
    assert_eq!(s.state(), ConnectionState::Ready);
    assert_eq!(s.setup_connection(), BootstrapAction::Ignore);
    assert_eq!(s.handle_tasks(HandshakeOutcome::Failed), BootstrapAction::Ignore);
    assert_eq!(s.state(), ConnectionState::Ready);
}

#[test]
fn failed_handshake_installs_nothing() {
    let mut s = Session::new();
    s.setup_connection();
    assert_eq!(s.handle_tasks(HandshakeOutcome::Failed), BootstrapAction::ReportFailure);
    assert_eq!(s.state(), ConnectionState::Failed);
    assert!(matches!(s.receive_ws_msg(ReadOutcome::Frame("{}".to_string())), PumpAction::Idle));
    assert_eq!(s.join_request_bevy_event_listener(&JoinRequestEvent("ann".to_string())), None);
    assert_eq!(s.setup_connection(), BootstrapAction::SpawnHandshake);
    assert_eq!(s.state(), ConnectionState::InFlight);
}

#[test]
fn would_block_read_asks_for_nothing() {
    let s = ready_session();
    assert!(matches!(s.receive_ws_msg(ReadOutcome::WouldBlock), PumpAction::Idle));
    assert_eq!(s.state(), ConnectionState::Ready);
}

#[test]
fn read_error_is_logged_and_connection_stays() {
    let s = ready_session();
    match s.receive_ws_msg(ReadOutcome::Failed("reset".to_string())) {
        PumpAction::LogError(m) => assert_eq!(m, "reset"),
        _ => panic!("expected a log"),
    }
    assert_eq!(s.state(), ConnectionState::Ready);
    assert!(matches!(s.receive_ws_msg(ReadOutcome::WouldBlock), PumpAction::Idle));
}

#[test]
fn binary_frame_is_the_sentinel() {
    let s = ready_session();
    match s.receive_ws_msg(ReadOutcome::NotText) {
        PumpAction::Deliver(env, e) => {
            assert_eq!(env.action_type, S2CActionTypes::Empty);
            assert!(matches!(env.data, Json::Null));
            assert!(e.is_none());
        }
        _ => panic!("expected a delivery"),
    }
}

#[test]
fn buffered_frames_drain_one_per_tick_in_order() {
    let s = ready_session();
    let mut buffer: std::collections::VecDeque<String> = [
        "{\"action_type\":\"ud\",\"data\":{\"disconnected_player_uuid\":\"u1\"}}",
        "garbage",
        "{\"action_type\":\"ud\",\"data\":{\"disconnected_player_uuid\":\"u2\"}}",
        "{\"action_type\":\"ygc\",\"data\":{}}",
    ]
    .iter()
    .map(|t| t.to_string())
    .collect();
    let n = buffer.len();
    let mut delivered = Vec::new();
    for _ in 0..n {
        let read = match buffer.pop_front() {
            Some(t) => ReadOutcome::Frame(t),
            None => ReadOutcome::WouldBlock,
        };
        match s.receive_ws_msg(read) {
            PumpAction::Deliver(env, e) => delivered.push((env.action_type, e)),
            _ => panic!("expected a delivery"),
        }
    }
    assert!(buffer.is_empty());
    assert_eq!(delivered.len(), 4);
    assert!(matches!(&delivered[0], (S2CActionTypes::UserDisconnected, Some(DomainEvent::UserDisconnected(e))) if e.data.disconnected_player_uuid == "u1"));
    assert!(matches!(&delivered[1], (S2CActionTypes::Empty, None)));
    assert!(matches!(&delivered[2], (S2CActionTypes::UserDisconnected, Some(DomainEvent::UserDisconnected(e))) if e.data.disconnected_player_uuid == "u2"));
    assert!(matches!(&delivered[3], (S2CActionTypes::YouGotCrackers, Some(DomainEvent::YouGotCrackers(_, sc))) if sc.new_score == 0));
    assert!(matches!(s.receive_ws_msg(ReadOutcome::WouldBlock), PumpAction::Idle));
}

#[test]
fn relays_write_once_where_connected() {
    let idle = Session::new();
    assert_eq!(idle.move_request_bevy_event_listener(&MoveRequestEvent("1.0".to_string(), "0.0".to_string())), None);
    let s = ready_session();
    assert_eq!(
        s.move_request_bevy_event_listener(&MoveRequestEvent("1.0".to_string(), "0.0".to_string())),
        Some("{\"action_type\":\"move\",\"data\":{\"x_direction\":1.0,\"y_direction\":0.0}}".to_string())
    );
    assert_eq!(
        s.move_request_bevy_event_listener(&MoveRequestEvent("1.0".to_string(), "null".to_string())),
        Some("{\"action_type\":\"move\",\"data\":{\"x_direction\":1.0,\"y_direction\":null}}".to_string())
    );
    assert_eq!(s.move_request_bevy_event_listener(&MoveRequestEvent("1.0".to_string(), "inf".to_string())), None);
    assert_eq!(
        s.join_request_bevy_event_listener(&JoinRequestEvent("ann".to_string())),
        Some("{\"action_type\":\"join\",\"data\":{\"friendly_name\":\"ann\"}}".to_string())
    );
}

#[test]
fn write_outcomes_map_to_relay_actions() {
    assert_eq!(Session::relay_outcome(WriteOutcome::Sent), RelayAction::Delivered);
    assert_eq!(Session::relay_outcome(WriteOutcome::WouldBlock), RelayAction::Dropped);
    assert_eq!(Session::relay_outcome(WriteOutcome::Failed), RelayAction::LogError);
}

#[test]
fn duck_colors_read_from_names() {
    assert_eq!(unpack_duck_color("blue"), DuckColor::Blue);
    assert_eq!(unpack_duck_color("red"), DuckColor::Red);
    assert_eq!(unpack_duck_color("green"), DuckColor::Green);
    assert_eq!(unpack_duck_color("white"), DuckColor::White);
    assert_eq!(unpack_duck_color("error"), DuckColor::White);
    assert_eq!(unpack_duck_color("Blue"), DuckColor::White);
}

#[test]
fn idle_animation_cycles_two_frames() {
    let mut a = OtherPlayerAnimation::new();
    assert_eq!(a.get_atlas_index(), 0);
    assert_eq!(a.interval_ms(), 500);
    a.update_timer(false);
    assert!(!a.changed());
    assert_eq!(a.get_atlas_index(), 0);
    a.update_timer(true);
    assert!(a.changed());
    assert_eq!(a.get_atlas_index(), 1);
    a.update_timer(true);
    assert_eq!(a.get_atlas_index(), 0);
}

#[test]
fn walking_animation_steps_on_third_and_sixth_frames() {
    let mut a = OtherPlayerAnimation::new();
    a.update_state(OtherPlayerAnimationState::Walking);
    assert_eq!(a.interval_ms(), 50);
    assert_eq!(a.get_atlas_index(), 6);
    let mut steps = Vec::new();
    for _ in 0..6 {
        a.update_timer(true);
        steps.push((a.get_atlas_index(), a.plays_step_sound()));
    }
    assert_eq!(steps, vec![(7, false), (8, true), (9, false), (10, false), (11, true), (6, false)]);
    a.update_timer(true);
    a.update_state(OtherPlayerAnimationState::Walking);
    assert_eq!(a.get_atlas_index(), 7);
    a.update_state(OtherPlayerAnimationState::Idling);
    assert_eq!(a.get_atlas_index(), 0);
    assert!(!a.changed());
}
