use block_city_adventure::pvp_net::{
    peer_index_for_id, reset_pvp_network, NetMode, PeerAddr, PvpFireMsg, PvpInputMsg, PvpMsg,
    PvpNetConfig, PvpNetState, PvpPhase, PvpPlayerStateMsg, PvpStateMsg, Vec2Bits,
    DISCONNECT_TIMEOUT_NS, HEARTBEAT_INTERVAL_NS, PVP_PORT,
};

const SEC: u64 = 1_000_000_000;

fn addr(last: u8, port: u16) -> PeerAddr {
    PeerAddr::V4 { ip4: u32::from_be_bytes([192, 168, 1, last]), port }
}

fn input(x: f32) -> PvpInputMsg {
    PvpInputMsg {
        move_axis: Vec2Bits { x: x.to_bits(), y: 0 },
        melee: true,
        ranged: false,
        dash: false,
        aim: Vec2Bits { x: 0, y: 1.0f32.to_bits() },
    }
}

#[test]
fn constants_match_the_protocol() {
    assert_eq!(PVP_PORT, 3456);
    assert_eq!(HEARTBEAT_INTERVAL_NS, 5 * SEC);
    assert_eq!(DISCONNECT_TIMEOUT_NS, 15 * SEC);
}

#[test]
fn player_ids_map_to_slots() {
    assert_eq!(peer_index_for_id(1), Some(0));
    assert_eq!(peer_index_for_id(2), Some(1));
    assert_eq!(peer_index_for_id(0), None);
    assert_eq!(peer_index_for_id(3), None);
}

#[test]
fn host_welcomes_a_client_as_player_two() {
    let mut net = PvpNetState::new_session(Some(1));
    let c = addr(2, 50000);
    let out = net.tick(NetMode::Host, PvpPhase::Lobby, 3 * SEC, &vec![(c, PvpMsg::Hello)]);
    assert_eq!(out.sends, vec![(c, PvpMsg::Welcome { your_id: 2 })]);
    assert_eq!(out.next_phase, Some(PvpPhase::Game));
    assert!(!out.drop_socket);
    assert!(net.connected);
    assert_eq!(net.peer, Some(c));
    assert_eq!(net.my_id, Some(1));
    assert_eq!(net.last_heard_ns, 3 * SEC);
}

#[test]
fn client_keeps_greeting_until_welcomed() {
    let mut net = PvpNetState::new_session(None);
    let h = addr(1, PVP_PORT);
    net.peer = Some(h);
    let out = net.tick(NetMode::Client, PvpPhase::Lobby, SEC, &vec![]);
    assert_eq!(out.sends, vec![(h, PvpMsg::Hello)]);
    assert_eq!(out.next_phase, None);
    let out2 = net.tick(NetMode::Client, PvpPhase::Lobby, 2 * SEC, &vec![(h, PvpMsg::Welcome { your_id: 2 })]);
    assert_eq!(out2.sends, vec![(h, PvpMsg::Hello)]);
    assert_eq!(out2.next_phase, Some(PvpPhase::Game));
    assert!(net.connected);
    assert_eq!(net.my_id, Some(2));
    let out3 = net.tick(NetMode::Client, PvpPhase::Game, 3 * SEC, &vec![]);
    assert!(out3.sends.is_empty());
}

#[test]
fn dedicated_server_assigns_two_players_then_starts() {
    let mut net = PvpNetState::new_session(None);
    let a = addr(10, 1000);
    let b = addr(11, 1001);
    let out = net.tick(NetMode::Server, PvpPhase::Lobby, SEC, &vec![(a, PvpMsg::Hello)]);
    assert_eq!(out.sends, vec![(a, PvpMsg::Welcome { your_id: 1 })]);
    assert_eq!(out.next_phase, None);
    assert!(!net.connected);
    let out = net.tick(NetMode::Server, PvpPhase::Lobby, 2 * SEC, &vec![(b, PvpMsg::Hello), (a, PvpMsg::Hello)]);
    assert_eq!(
        out.sends,
        vec![(b, PvpMsg::Welcome { your_id: 2 }), (a, PvpMsg::Welcome { your_id: 1 })]
    );
    assert_eq!(out.next_phase, Some(PvpPhase::Game));
    assert!(net.connected);
    assert_eq!(net.peers, [Some(a), Some(b)]);
    assert_eq!(net.last_heard_by_id_ns, [2 * SEC, 2 * SEC]);
}

#[test]
fn dedicated_server_refuses_a_third_player() {
    let mut net = PvpNetState::new_session(None);
    let (a, b, c) = (addr(1, 1), addr(2, 2), addr(3, 3));
    assert_eq!(net.assign_server_peer(a, 5), Some(1));
    assert_eq!(net.assign_server_peer(b, 6), Some(2));
    assert_eq!(net.assign_server_peer(c, 7), None);
    assert_eq!(net.assign_server_peer(b, 8), Some(2));
    assert_eq!(net.last_heard_by_id_ns, [5, 8]);
    let out = net.tick(NetMode::Server, PvpPhase::Game, 9, &vec![(c, PvpMsg::Hello)]);
    assert!(out.sends.is_empty());
    assert_eq!(net.peer_id_for_addr(c), None);
    assert_eq!(net.peer_id_for_addr(a), Some(1));
}

#[test]
fn server_stores_inputs_per_player() {
    let mut net = PvpNetState::new_session(None);
    let (a, b, stranger) = (addr(1, 1), addr(2, 2), addr(9, 9));
    net.assign_server_peer(a, 1);
    net.assign_server_peer(b, 1);
    net.tick(
        NetMode::Server,
        PvpPhase::Game,
        4 * SEC,
        &vec![(b, PvpMsg::Input(input(0.5))), (stranger, PvpMsg::Input(input(-1.0)))],
    );
    assert_eq!(net.input_for_player(2), input(0.5));
    assert_eq!(net.input_for_player(1), PvpInputMsg::neutral());
    assert_eq!(net.input_for_player(7), PvpInputMsg::neutral());
    assert_eq!(net.last_heard_by_id_ns, [1, 4 * SEC]);
    assert_eq!(net.last_input_from_client, None);
}

#[test]
fn host_keeps_the_client_input() {
    let mut net = PvpNetState::new_session(Some(1));
    assert_eq!(net.client_input(), PvpInputMsg::default());
    net.tick(NetMode::Host, PvpPhase::Game, 1, &vec![(addr(2, 2), PvpMsg::Input(input(0.25)))]);
    assert_eq!(net.client_input(), input(0.25));
}

#[test]
fn states_fire_and_results() {
    let mut net = PvpNetState::new_session(None);
    let h = addr(1, 1);
    let snapshot = PvpStateMsg {
        tick: 7,
        p1: PvpPlayerStateMsg { id: 1, pos: Vec2Bits { x: 1, y: 2 }, hp: 100f32.to_bits(), lives: 3, melee_flash: false },
        p2: PvpPlayerStateMsg { id: 2, pos: Vec2Bits { x: 3, y: 4 }, hp: 50f32.to_bits(), lives: 2, melee_flash: true },
    };
    let fire = PvpFireMsg { shooter_id: 2, origin: Vec2Bits { x: 0, y: 0 }, dir: Vec2Bits { x: 1, y: 0 }, melee: false };
    let out = net.tick(
        NetMode::Client,
        PvpPhase::Game,
        1,
        &vec![(h, PvpMsg::State(snapshot)), (h, PvpMsg::Fire(fire)), (h, PvpMsg::Fire(fire)), (h, PvpMsg::Result { winner: 2 })],
    );
    assert_eq!(net.last_state, Some(snapshot));
    assert_eq!(net.fire_events, vec![fire, fire]);
    assert_eq!(net.winner, Some(2));
    assert_eq!(out.next_phase, Some(PvpPhase::Result));

    let mut host = PvpNetState::new_session(Some(1));
    let out = host.tick(NetMode::Host, PvpPhase::Result, 1, &vec![(h, PvpMsg::State(snapshot)), (h, PvpMsg::Result { winner: 1 })]);
    assert_eq!(host.last_state, None);
    assert_eq!(host.winner, Some(1));
    assert_eq!(out.next_phase, None);
}

#[test]
fn heartbeats_every_five_seconds() {
    let mut net = PvpNetState::new_session(Some(1));
    let c = addr(2, 2);
    net.tick(NetMode::Host, PvpPhase::Lobby, SEC, &vec![(c, PvpMsg::Hello)]);
    let early = net.tick(NetMode::Host, PvpPhase::Game, 4 * SEC, &vec![]);
    assert!(early.sends.is_empty());
    let due = net.tick(NetMode::Host, PvpPhase::Game, 5 * SEC, &vec![]);
    assert_eq!(due.sends, vec![(c, PvpMsg::Heartbeat)]);
    assert_eq!(net.last_heartbeat_sent_ns, 5 * SEC);
    let again = net.tick(NetMode::Host, PvpPhase::Game, 9 * SEC, &vec![(c, PvpMsg::Heartbeat)]);
    assert!(again.sends.is_empty());
    let next = net.tick(NetMode::Host, PvpPhase::Game, 10 * SEC, &vec![]);
    assert_eq!(next.sends, vec![(c, PvpMsg::Heartbeat)]);
}

#[test]
fn server_heartbeats_go_to_both_players() {
    let mut net = PvpNetState::new_session(None);
    let (a, b) = (addr(1, 1), addr(2, 2));
    net.tick(NetMode::Server, PvpPhase::Lobby, 1, &vec![(a, PvpMsg::Hello), (b, PvpMsg::Hello)]);
    assert_eq!(net.send_targets(), vec![a, b]);
    let out = net.tick(NetMode::Server, PvpPhase::Game, 6 * SEC, &vec![]);
    assert_eq!(out.sends, vec![(a, PvpMsg::Heartbeat), (b, PvpMsg::Heartbeat)]);
}

#[test]
fn silent_server_player_is_dropped_and_match_resets() {
    let mut net = PvpNetState::new_session(None);
    let (a, b) = (addr(1, 1), addr(2, 2));
    net.tick(NetMode::Server, PvpPhase::Lobby, SEC, &vec![(a, PvpMsg::Hello), (b, PvpMsg::Hello)]);
    net.tick(NetMode::Server, PvpPhase::Game, 10 * SEC, &vec![(b, PvpMsg::Input(input(1.0)))]);
    let calm = net.tick(NetMode::Server, PvpPhase::Game, 16 * SEC, &vec![]);
    assert_eq!(calm.next_phase, None);
    assert!(net.connected);
    let out = net.tick(NetMode::Server, PvpPhase::Game, 16 * SEC + 1, &vec![]);
    assert_eq!(out.next_phase, Some(PvpPhase::Lobby));
    assert_eq!(net.peers, [None, None]);
    assert!(!net.connected);
    assert_eq!(net.latest_inputs, [PvpInputMsg::neutral(), PvpInputMsg::neutral()]);
}

#[test]
fn silent_server_player_in_lobby_frees_its_slot() {
    let mut net = PvpNetState::new_session(None);
    let (a, b) = (addr(1, 1), addr(2, 2));
    net.tick(NetMode::Server, PvpPhase::Lobby, SEC, &vec![(a, PvpMsg::Hello)]);
    net.tick(NetMode::Server, PvpPhase::Lobby, 10 * SEC, &vec![(b, PvpMsg::Hello)]);
    let out = net.tick(NetMode::Server, PvpPhase::Lobby, 17 * SEC, &vec![]);
    assert_eq!(out.next_phase, None);
    assert_eq!(net.peers, [None, Some(b)]);
    assert_eq!(net.last_heard_by_id_ns, [0, 10 * SEC]);
    let c = addr(3, 3);
    net.tick(NetMode::Server, PvpPhase::Lobby, 18 * SEC, &vec![(c, PvpMsg::Hello)]);
    assert_eq!(net.peers, [Some(c), Some(b)]);
}

#[test]
fn silent_host_drops_the_client() {
    let mut net = PvpNetState::new_session(Some(1));
    let c = addr(2, 2);
    net.tick(NetMode::Host, PvpPhase::Lobby, SEC, &vec![(c, PvpMsg::Hello), (c, PvpMsg::Input(input(1.0)))]);
    let out = net.tick(NetMode::Host, PvpPhase::Game, 17 * SEC, &vec![]);
    assert_eq!(out.next_phase, Some(PvpPhase::Lobby));
    assert!(!net.connected);
    assert_eq!(net.my_id, Some(1));
    assert_eq!(net.last_input_from_client, None);

    let mut client = PvpNetState::new_session(None);
    client.tick(NetMode::Client, PvpPhase::Lobby, SEC, &vec![(c, PvpMsg::Welcome { your_id: 2 })]);
    let out = client.tick(NetMode::Client, PvpPhase::Lobby, 20 * SEC, &vec![]);
    assert_eq!(out.next_phase, None);
    assert!(!client.connected);
    assert_eq!(client.my_id, None);
}

#[test]
fn no_mode_drops_the_socket() {
    let mut net = PvpNetState::new_session(None);
    let out = net.tick(NetMode::Unset, PvpPhase::Elsewhere, 1, &vec![(addr(1, 1), PvpMsg::Hello)]);
    assert!(out.drop_socket);
    assert!(out.sends.is_empty());
    assert_eq!(net.last_heard_ns, 1);
}

#[test]
fn reset_returns_to_defaults() {
    let mut config = PvpNetConfig::default();
    assert_eq!(config.mode, NetMode::Unset);
    assert_eq!(config.port, PVP_PORT);
    assert_eq!(config.nickname, "Player");
    assert_eq!(config.room_id, "main");
    config.mode = NetMode::Client;
    config.host_ip = "10.0.0.1".to_string();
    config.port = 9;
    let mut net = PvpNetState::new_session(Some(1));
    net.tick(NetMode::Host, PvpPhase::Lobby, SEC, &vec![(addr(2, 2), PvpMsg::Hello), (addr(2, 2), PvpMsg::Result { winner: 1 })]);
    reset_pvp_network(&mut config, &mut net);
    assert_eq!(config.mode, NetMode::Unset);
    assert_eq!(config.host_ip, "");
    assert_eq!(config.port, PVP_PORT);
    assert_eq!(net.peer, None);
    assert!(!net.connected);
    assert_eq!(net.my_id, None);
    assert_eq!(net.winner, None);
    assert_eq!(net.last_heard_ns, SEC);
    assert!(net.send_targets().is_empty());
}

#[test]
fn begin_session_and_clear_runtime() {
    let mut net = PvpNetState::new_session(None);
    net.tick(NetMode::Client, PvpPhase::Game, 1, &vec![(addr(1, 1), PvpMsg::Result { winner: 2 })]);
    net.clear_runtime();
    assert_eq!(net.winner, None);
    assert_eq!(net.last_heard_ns, 1);
    net.begin_session(Some(1));
    assert_eq!(net.my_id, Some(1));
    assert_eq!(net.last_heard_ns, 0);
    net.clear_server_peer(0);
    assert!(!net.connected);
    net.reset_server_session();
    assert_eq!(net.my_id, None);
    assert!(!net.server_peers_ready());
}

#[test]
fn non_finite_inputs_are_rejected() {
    let mut server = PvpNetState::new_session(None);
    let (a, b) = (addr(1, 1), addr(2, 2));
    server.tick(NetMode::Server, PvpPhase::Lobby, SEC, &vec![(a, PvpMsg::Hello), (b, PvpMsg::Hello)]);
    let bad = [f32::NAN, f32::INFINITY, f32::NEG_INFINITY];
    for x in bad {
        let mut i = input(0.5);
        i.move_axis.x = x.to_bits();
        let mut j = input(0.5);
        j.aim.y = x.to_bits();
        server.tick(NetMode::Server, PvpPhase::Game, 2 * SEC, &vec![(a, PvpMsg::Input(i)), (b, PvpMsg::Input(j))]);
    }
    assert_eq!(server.latest_inputs, [PvpInputMsg::neutral(), PvpInputMsg::neutral()]);
    assert_eq!(server.last_heard_by_id_ns, [SEC, SEC]);
    assert_eq!(server.last_heard_ns, SEC);

    let mut host = PvpNetState::new_session(Some(1));
    let mut k = input(1.0);
    k.move_axis.y = f32::NAN.to_bits();
    host.tick(NetMode::Host, PvpPhase::Game, 3, &vec![(a, PvpMsg::Input(k))]);
    assert_eq!(host.last_input_from_client, None);
    let ok = input(f32::MAX);
    host.tick(NetMode::Host, PvpPhase::Game, 4, &vec![(a, PvpMsg::Input(ok))]);
    assert_eq!(host.last_input_from_client, Some(ok));
}
