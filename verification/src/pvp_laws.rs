//! What holds of the PVP session across calls: how player ids and slots
//! correspond, what every network tick preserves, and when heartbeats and
//! disconnects happen.
use vstd::prelude::*;
use crate::pvp_net::{
    addressed, elapsed_over, input_finite, fresh_session, id_of_addr, message_handled, messages_handled,
    network_reset, peer_assigned, peers_ready, send_targets_of, slot_of_id, tick_prelude,
    tick_result, NetMode, PeerAddr, PvpInputMsg, PvpMsg, PvpNetView, PvpPhase, DISCONNECT_TIMEOUT_NS,
    HEARTBEAT_INTERVAL_NS,
};

verus! {

/// The session's per-player arrays have one entry for each of the two players.
pub open spec fn session_well_formed(v: PvpNetView) -> bool {
    v.peers.len() == 2 && v.latest_inputs.len() == 2 && v.last_heard_by_id.len() == 2
}

/// No address holds both player slots.
pub open spec fn players_apart(v: PvpNetView) -> bool {
    v.peers[0] is Some ==> v.peers[0] != v.peers[1]
}

/// The session counts as connected only while both player slots are taken
/// (what a dedicated server keeps).
pub open spec fn connected_only_when_full(v: PvpNetView) -> bool {
    v.connected ==> peers_ready(v)
}

/// A player id names a slot exactly when it is 1 or 2, and the id found for
/// an address names the slot that holds that address.
pub proof fn law_id_names_its_slot(v: PvpNetView, addr: PeerAddr)
    requires
        session_well_formed(v),
    ensures
        forall|id: u8| (slot_of_id(id) is Some) <==> (id == 1 || id == 2),
        id_of_addr(v, addr) matches Some(id) ==> (slot_of_id(id) matches Some(i) && v.peers[i]
            == Some(addr)),
        id_of_addr(v, addr) is None ==> v.peers[0] != Some(addr) && v.peers[1] != Some(addr),
{
}

/// A dedicated server hands out player ids 1 and 2 only, and the slot of the
/// id it gives then holds the sender; it gives none only when both slots
/// hold other players, and then changes nothing.
pub proof fn law_assign_gives_a_slot(v: PvpNetView, addr: PeerAddr, now: u64)
    requires
        session_well_formed(v),
    ensures
        ({
            let (w, id) = peer_assigned(v, addr, now);
            &&& session_well_formed(w)
            &&& match id {
                Some(i) => (i == 1 || i == 2) && w.peers[i - 1] == Some(addr),
                None => w == v && v.peers[0] is Some && v.peers[1] is Some && v.peers[0] != Some(
                    addr,
                ) && v.peers[1] != Some(addr),
            }
        }),
{
}

/// A returning player keeps its id: once a dedicated server gave `addr` an
/// id, it gives `addr` the same id again, at any later time.
pub proof fn law_assign_is_stable(v: PvpNetView, addr: PeerAddr, t1: u64, t2: u64)
    requires
        session_well_formed(v),
        peer_assigned(v, addr, t1).1 is Some,
    ensures
        peer_assigned(peer_assigned(v, addr, t1).0, addr, t2).1 == peer_assigned(v, addr, t1).1,
{
}

/// Two different players never share an id: after assigning `a` and then
/// `b`, different addresses, both with ids, the ids differ.
pub proof fn law_assign_keeps_players_apart(
    v: PvpNetView,
    a: PeerAddr,
    b: PeerAddr,
    t1: u64,
    t2: u64,
)
    requires
        session_well_formed(v),
        players_apart(v),
        a != b,
        peer_assigned(v, a, t1).1 is Some,
        peer_assigned(peer_assigned(v, a, t1).0, b, t2).1 is Some,
    ensures
        players_apart(peer_assigned(v, a, t1).0),
        players_apart(peer_assigned(peer_assigned(v, a, t1).0, b, t2).0),
        peer_assigned(peer_assigned(v, a, t1).0, b, t2).1 != peer_assigned(v, a, t1).1,
{
}

/// A freshly started session, and one after a full reset, is well formed,
/// keeps its players apart and is not connected.
pub proof fn law_fresh_and_reset_sessions_are_sound(my_id: Option<u8>, v: PvpNetView)
    requires
        session_well_formed(v),
    ensures
        session_well_formed(fresh_session(my_id)),
        players_apart(fresh_session(my_id)),
        !fresh_session(my_id).connected,
        connected_only_when_full(fresh_session(my_id)),
        session_well_formed(network_reset(v)),
        players_apart(network_reset(v)),
        !network_reset(v).connected,
        network_reset(v).peers[0] is None && network_reset(v).peers[1] is None,
        network_reset(v).my_id is None,
        network_reset(network_reset(v)) == network_reset(v),
{
    assert(network_reset(network_reset(v)) =~= network_reset(v));
}

proof fn lemma_message_keeps(
    v: PvpNetView,
    mode: NetMode,
    phase: PvpPhase,
    now: u64,
    from: PeerAddr,
    msg: PvpMsg,
)
    requires
        session_well_formed(v),
        players_apart(v),
    ensures
        session_well_formed(message_handled(v, mode, phase, now, from, msg).0),
        players_apart(message_handled(v, mode, phase, now, from, msg).0),
        mode == NetMode::Server && connected_only_when_full(v) ==> connected_only_when_full(
            message_handled(v, mode, phase, now, from, msg).0,
        ),
{
}

proof fn lemma_messages_keep(
    v: PvpNetView,
    mode: NetMode,
    phase: PvpPhase,
    now: u64,
    msgs: Seq<(PeerAddr, PvpMsg)>,
)
    requires
        session_well_formed(v),
        players_apart(v),
    ensures
        session_well_formed(messages_handled(v, mode, phase, now, msgs).0),
        players_apart(messages_handled(v, mode, phase, now, msgs).0),
        mode == NetMode::Server && connected_only_when_full(v) ==> connected_only_when_full(
            messages_handled(v, mode, phase, now, msgs).0,
        ),
    decreases msgs.len(),
{
    if msgs.len() > 0 {
        lemma_messages_keep(v, mode, phase, now, msgs.drop_last());
        let v1 = messages_handled(v, mode, phase, now, msgs.drop_last()).0;
        let (from, msg) = msgs.last();
        lemma_message_keeps(v1, mode, phase, now, from, msg);
    }
}

/// Every network tick keeps the session well formed and its two players on
/// different addresses, whatever it receives.
pub proof fn law_tick_keeps_players_apart(
    v: PvpNetView,
    mode: NetMode,
    phase: PvpPhase,
    now: u64,
    msgs: Seq<(PeerAddr, PvpMsg)>,
)
    requires
        session_well_formed(v),
        players_apart(v),
    ensures
        session_well_formed(tick_result(v, mode, phase, now, msgs).0),
        players_apart(tick_result(v, mode, phase, now, msgs).0),
{
    let v1 = tick_prelude(v, mode, phase, now).0;
    lemma_messages_keep(v1, mode, phase, now, msgs);
}

/// A dedicated server is connected only while both players are present:
/// every tick keeps that so, whatever it receives.
pub proof fn law_server_connected_only_when_full(
    v: PvpNetView,
    phase: PvpPhase,
    now: u64,
    msgs: Seq<(PeerAddr, PvpMsg)>,
)
    requires
        session_well_formed(v),
        players_apart(v),
        connected_only_when_full(v),
    ensures
        connected_only_when_full(tick_result(v, NetMode::Server, phase, now, msgs).0),
{
    let v1 = tick_prelude(v, NetMode::Server, phase, now).0;
    lemma_messages_keep(v1, NetMode::Server, phase, now, msgs);
}

/// Once the heartbeat interval has passed on a connected session, the tick
/// sends a heartbeat to every target and records the time.
pub proof fn law_heartbeat_when_due(v: PvpNetView, mode: NetMode, phase: PvpPhase, now: u64)
    requires
        v.connected,
        now - v.last_heartbeat_sent >= HEARTBEAT_INTERVAL_NS,
    ensures
        tick_prelude(v, mode, phase, now).0.last_heartbeat_sent == now,
        forall|t: PeerAddr|
            send_targets_of(v).contains(t) ==> tick_prelude(v, mode, phase, now).1.contains(
                (t, PvpMsg::Heartbeat),
            ),
{
    let (w, sends, n) = tick_prelude(v, mode, phase, now);
    let beats = addressed(send_targets_of(v), PvpMsg::Heartbeat);
    let hello = if phase == PvpPhase::Lobby && mode == NetMode::Client && !v.connected
        && v.peer is Some {
        seq![(v.peer.unwrap(), PvpMsg::Hello)]
    } else {
        Seq::empty()
    };
    assert(sends == hello + beats);
    assert forall|t: PeerAddr| send_targets_of(v).contains(t) implies sends.contains(
        (t, PvpMsg::Heartbeat),
    ) by {
        let k = choose|k: int| 0 <= k < send_targets_of(v).len() && send_targets_of(v)[k] == t;
        assert(beats[k] == (t, PvpMsg::Heartbeat));
        assert(sends[hello.len() + k] == (t, PvpMsg::Heartbeat));
    }
}

/// Before the heartbeat interval has passed, or while not connected, a tick
/// sends no heartbeat and keeps the time of the last one.
pub proof fn law_no_heartbeat_before_due(v: PvpNetView, mode: NetMode, phase: PvpPhase, now: u64)
    requires
        !v.connected || now - v.last_heartbeat_sent < HEARTBEAT_INTERVAL_NS,
    ensures
        tick_prelude(v, mode, phase, now).0.last_heartbeat_sent == v.last_heartbeat_sent,
        forall|t: PeerAddr| !tick_prelude(v, mode, phase, now).1.contains((t, PvpMsg::Heartbeat)),
{
}

/// A dedicated server drops every player it has heard from but not for
/// longer than the disconnect timeout, and is then not connected.
pub proof fn law_server_drops_silent_players(v: PvpNetView, phase: PvpPhase, now: u64, i: int)
    requires
        session_well_formed(v),
        0 <= i < 2,
        v.peers[i] is Some,
        v.last_heard_by_id[i] > 0,
        elapsed_over(v.last_heard_by_id[i], now, DISCONNECT_TIMEOUT_NS),
    ensures
        tick_prelude(v, NetMode::Server, phase, now).0.peers[i] is None,
        !tick_prelude(v, NetMode::Server, phase, now).0.connected,
        phase == PvpPhase::Game ==> tick_prelude(v, NetMode::Server, phase, now).2 == Some(
            PvpPhase::Lobby,
        ),
{
}

/// A host or client whose peer fell silent for longer than the disconnect
/// timeout is no longer connected, a host stays player 1, and a running
/// match returns to the lobby.
pub proof fn law_silent_peer_disconnects(v: PvpNetView, mode: NetMode, phase: PvpPhase, now: u64)
    requires
        mode != NetMode::Server,
        v.connected,
        v.last_heard > 0,
        elapsed_over(v.last_heard, now, DISCONNECT_TIMEOUT_NS),
    ensures
        !tick_prelude(v, mode, phase, now).0.connected,
        tick_prelude(v, mode, phase, now).0.my_id == (if mode == NetMode::Host {
            Some(1u8)
        } else {
            None
        }),
        phase == PvpPhase::Game ==> tick_prelude(v, mode, phase, now).2 == Some(PvpPhase::Lobby),
{
}

/// An input packet with an infinite or NaN axis is refused: in any mode and
/// screen it changes nothing (the stored inputs included), gets no reply and
/// switches no screen.
pub proof fn law_non_finite_input_is_dropped(
    v: PvpNetView,
    mode: NetMode,
    phase: PvpPhase,
    now: u64,
    from: PeerAddr,
    input: PvpInputMsg,
)
    requires
        !input_finite(input),
    ensures
        message_handled(v, mode, phase, now, from, PvpMsg::Input(input)) == (
            v,
            None::<(PeerAddr, PvpMsg)>,
            None::<PvpPhase>,
        ),
{
}

/// On a dedicated server each player's controls drive that player alone: a
/// finite input from the address in slot `k` becomes the stored input of
/// slot `k` and marks slot `k` heard now, while the other slot's input and
/// time stay as they were; no player changes places, nothing is sent and
/// the screen stays.
pub proof fn law_server_input_drives_its_own_slot(
    v: PvpNetView,
    phase: PvpPhase,
    now: u64,
    k: int,
    input: PvpInputMsg,
)
    requires
        session_well_formed(v),
        players_apart(v),
        0 <= k < 2,
        v.peers[k] is Some,
        input_finite(input),
    ensures
        ({
            let (w, reply, switch) = message_handled(
                v,
                NetMode::Server,
                phase,
                now,
                v.peers[k].unwrap(),
                PvpMsg::Input(input),
            );
            &&& w.latest_inputs == v.latest_inputs.update(k, input)
            &&& w.last_heard_by_id == v.last_heard_by_id.update(k, now)
            &&& w.latest_inputs[1 - k] == v.latest_inputs[1 - k]
            &&& w.last_heard_by_id[1 - k] == v.last_heard_by_id[1 - k]
            &&& w.peers == v.peers
            &&& w.last_heard == now
            &&& reply is None
            &&& switch is None
        }),
{
}

/// A listen host (or client) keeps a finite input it receives as the
/// client's latest input, from whichever address it came, and leaves the
/// per-slot inputs of a dedicated server alone.
pub proof fn law_host_keeps_the_client_input(
    v: PvpNetView,
    mode: NetMode,
    phase: PvpPhase,
    now: u64,
    from: PeerAddr,
    input: PvpInputMsg,
)
    requires
        mode != NetMode::Server,
        input_finite(input),
    ensures
        ({
            let (w, reply, switch) = message_handled(v, mode, phase, now, from, PvpMsg::Input(input));
            &&& w.last_input_from_client == Some(input)
            &&& w.latest_inputs == v.latest_inputs
            &&& w.last_heard_by_id == v.last_heard_by_id
            &&& w.last_heard == now
            &&& reply is None
            &&& switch is None
        }),
{
}

} // verus!
