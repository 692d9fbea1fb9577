//! The PVP network session: one host or dedicated server and up to two
//! players over UDP. This module holds the session state and every
//! decision of the network tick: who is connected, which player slot a
//! datagram's sender owns, when to send heartbeats, when a silent peer is
//! dropped, and what each message does. Sockets, encoding and the clock
//! stay with the caller, which hands in decoded messages and the time and
//! performs the sends that the tick asks for.
//!
//! Time is counted in nanoseconds since the game started. Floating-point
//! payloads of messages (positions, axes, health) are carried as their
//! IEEE-754 bit patterns: this module stores and forwards them, never
//! reads them.
use vstd::prelude::*;
use crate::text::{push_decimal, push_str, string_from};

verus! {

/// The UDP port of a PVP room.
pub const PVP_PORT: u16 = 3456;

/// How often a connected session sends a heartbeat, in nanoseconds.
pub const HEARTBEAT_INTERVAL_NS: u64 = 5_000_000_000;

/// How long a peer may stay silent before it counts as gone, in nanoseconds.
pub const DISCONNECT_TIMEOUT_NS: u64 = 15_000_000_000;

/// The part this process plays in a PVP session.
#[derive(Debug, Clone, Copy, PartialEq, Eq, Structural)]
pub enum NetMode {
    /// No session chosen.
    Unset,
    Server,
    Host,
    Client,
}

impl Default for NetMode {
    fn default() -> (r: Self)
        ensures
            r == NetMode::Unset,
    {
        NetMode::Unset
    }
}

/// A UDP socket address: an IPv4 address (as its 32 bits) and port, or an
/// IPv6 address (as its 128 bits), port, flow info and scope id.
#[derive(Debug, Clone, Copy, PartialEq, Eq, Structural)]
pub enum PeerAddr {
    V4 { ip4: u32, port: u16 },
    V6 { ip6: u128, port: u16, flowinfo: u32, scope_id: u32 },
}

/// A two-dimensional vector of `f32` values, as their bit patterns.
#[derive(Debug, Clone, Copy, PartialEq, Eq, Structural)]
pub struct Vec2Bits {
    pub x: u32,
    pub y: u32,
}

/// One frame of a player's controls. The axes hold the bits of `f32` values.
#[derive(Debug, Clone, Copy, PartialEq, Eq, Structural)]
pub struct PvpInputMsg {
    pub move_axis: Vec2Bits,
    pub melee: bool,
    pub ranged: bool,
    pub dash: bool,
    pub aim: Vec2Bits,
}

/// The `f32` with bit pattern `b` is finite: its exponent bits are not all
/// ones (which would make it infinite or NaN).
pub open spec fn finite_f32_bits(b: u32) -> bool {
    (b / 0x80_0000) % 0x100 != 0xff
}

/// Every axis of `i` is finite.
pub open spec fn input_finite(i: PvpInputMsg) -> bool {
    finite_f32_bits(i.move_axis.x) && finite_f32_bits(i.move_axis.y) && finite_f32_bits(i.aim.x)
        && finite_f32_bits(i.aim.y)
}

/// A message the session refuses outright: an input with an infinite or NaN
/// axis, which would pollute the simulation.
pub open spec fn message_rejected(msg: PvpMsg) -> bool {
    match msg {
        PvpMsg::Input(i) => !input_finite(i),
        _ => false,
    }
}

/// No input: zero axes, no button held.
pub open spec fn neutral_input() -> PvpInputMsg {
    PvpInputMsg {
        move_axis: Vec2Bits { x: 0, y: 0 },
        melee: false,
        ranged: false,
        dash: false,
        aim: Vec2Bits { x: 0, y: 0 },
    }
}

impl PvpInputMsg {
    /// No input: zero axes, no button held.
    pub fn neutral() -> (r: Self)
        ensures
            r == neutral_input(),
    {
        PvpInputMsg {
            move_axis: Vec2Bits { x: 0, y: 0 },
            melee: false,
            ranged: false,
            dash: false,
            aim: Vec2Bits { x: 0, y: 0 },
        }
    }
}

impl Default for PvpInputMsg {
    fn default() -> (r: Self)
        ensures
            r == neutral_input(),
    {
        PvpInputMsg::neutral()
    }
}

/// One player in a state snapshot. `pos` and `hp` hold the bits of `f32` values.
#[derive(Debug, Clone, Copy, PartialEq, Eq, Structural)]
pub struct PvpPlayerStateMsg {
    pub id: u8,
    pub pos: Vec2Bits,
    pub hp: u32,
    pub lives: u8,
    pub melee_flash: bool,
}

/// A snapshot of both players, sent by the simulating side.
#[derive(Debug, Clone, Copy, PartialEq, Eq, Structural)]
pub struct PvpStateMsg {
    pub tick: u32,
    pub p1: PvpPlayerStateMsg,
    pub p2: PvpPlayerStateMsg,
}

/// An attack. `origin` and `dir` hold the bits of `f32` values.
#[derive(Debug, Clone, Copy, PartialEq, Eq, Structural)]
pub struct PvpFireMsg {
    pub shooter_id: u8,
    pub origin: Vec2Bits,
    pub dir: Vec2Bits,
    pub melee: bool,
}

/// A message of the PVP protocol.
#[derive(Debug, Clone, Copy, PartialEq, Eq, Structural)]
pub enum PvpMsg {
    Hello,
    Welcome { your_id: u8 },
    Input(PvpInputMsg),
    State(PvpStateMsg),
    Fire(PvpFireMsg),
    Result { winner: u8 },
    Heartbeat,
}

/// The screen the game shows, as far as the PVP session is concerned.
#[derive(Debug, Clone, Copy, PartialEq, Eq, Structural)]
pub enum PvpPhase {
    /// Waiting for the players.
    Lobby,
    /// A match is running.
    Game,
    /// The match is over.
    Result,
    /// Any other screen.
    Elsewhere,
}

/// The player's choices for a PVP session.
#[derive(Debug, Clone)]
pub struct PvpNetConfig {
    pub mode: NetMode,
    pub host_ip: String,
    pub port: u16,
    pub nickname: String,
    pub room_id: String,
}

/// The value of a [`PvpNetConfig`].
pub struct PvpNetConfigView {
    pub mode: NetMode,
    pub host_ip: Seq<char>,
    pub port: u16,
    pub nickname: Seq<char>,
    pub room_id: Seq<char>,
}

impl View for PvpNetConfig {
    type V = PvpNetConfigView;

    open spec fn view(&self) -> PvpNetConfigView {
        PvpNetConfigView {
            mode: self.mode,
            host_ip: self.host_ip@,
            port: self.port,
            nickname: self.nickname@,
            room_id: self.room_id@,
        }
    }
}

/// No session chosen: no host, the PVP port, player `Player` in room `main`.
pub open spec fn pvp_config_default() -> PvpNetConfigView {
    PvpNetConfigView {
        mode: NetMode::Unset,
        host_ip: Seq::empty(),
        port: PVP_PORT,
        nickname: "Player"@,
        room_id: "main"@,
    }
}

impl Default for PvpNetConfig {
    fn default() -> (r: Self)
        ensures
            r@ == pvp_config_default(),
    {
        PvpNetConfig {
            mode: NetMode::Unset,
            host_ip: String::new(),
            port: PVP_PORT,
            nickname: string_from("Player"),
            room_id: string_from("main"),
        }
    }
}

/// The state of a PVP session, apart from its socket.
///
/// A host or client talks to one `peer`; a dedicated server keeps its two
/// players in `peers`, player id `i + 1` in slot `i`.
#[derive(Debug, Clone)]
pub struct PvpNetState {
    pub peer: Option<PeerAddr>,
    pub peers: [Option<PeerAddr>; 2],
    pub connected: bool,
    pub my_id: Option<u8>,
    pub last_input_from_client: Option<PvpInputMsg>,
    pub latest_inputs: [PvpInputMsg; 2],
    pub last_state: Option<PvpStateMsg>,
    pub fire_events: Vec<PvpFireMsg>,
    pub winner: Option<u8>,
    pub last_heard_ns: u64,
    pub last_heard_by_id_ns: [u64; 2],
    pub last_heartbeat_sent_ns: u64,
}

/// The value of a [`PvpNetState`]; the arrays are sequences of length two.
#[verifier::ext_equal]
pub struct PvpNetView {
    pub peer: Option<PeerAddr>,
    pub peers: Seq<Option<PeerAddr>>,
    pub connected: bool,
    pub my_id: Option<u8>,
    pub last_input_from_client: Option<PvpInputMsg>,
    pub latest_inputs: Seq<PvpInputMsg>,
    pub last_state: Option<PvpStateMsg>,
    pub fire_events: Seq<PvpFireMsg>,
    pub winner: Option<u8>,
    pub last_heard: u64,
    pub last_heard_by_id: Seq<u64>,
    pub last_heartbeat_sent: u64,
}

impl View for PvpNetState {
    type V = PvpNetView;

    open spec fn view(&self) -> PvpNetView {
        PvpNetView {
            peer: self.peer,
            peers: self.peers@,
            connected: self.connected,
            my_id: self.my_id,
            last_input_from_client: self.last_input_from_client,
            latest_inputs: self.latest_inputs@,
            last_state: self.last_state,
            fire_events: self.fire_events@,
            winner: self.winner,
            last_heard: self.last_heard_ns,
            last_heard_by_id: self.last_heard_by_id_ns@,
            last_heartbeat_sent: self.last_heartbeat_sent_ns,
        }
    }
}

/// A session that has just started, with our player id `my_id`: nobody
/// known, nothing heard, nothing received.
pub open spec fn fresh_session(my_id: Option<u8>) -> PvpNetView {
    PvpNetView {
        peer: None,
        peers: seq![None, None],
        connected: false,
        my_id,
        last_input_from_client: None,
        latest_inputs: seq![neutral_input(), neutral_input()],
        last_state: None,
        fire_events: Seq::empty(),
        winner: None,
        last_heard: 0,
        last_heard_by_id: seq![0, 0],
        last_heartbeat_sent: 0,
    }
}

/// `v` with every input, snapshot, attack and result received so far forgotten.
pub open spec fn runtime_cleared(v: PvpNetView) -> PvpNetView {
    PvpNetView {
        last_input_from_client: None,
        latest_inputs: seq![neutral_input(), neutral_input()],
        last_state: None,
        fire_events: Seq::empty(),
        winner: None,
        ..v
    }
}

/// A dedicated server's session with both players forgotten.
pub open spec fn server_session_reset(v: PvpNetView) -> PvpNetView {
    runtime_cleared(
        PvpNetView {
            peer: None,
            peers: seq![None, None],
            connected: false,
            my_id: None,
            last_heard_by_id: seq![0, 0],
            ..v
        },
    )
}

/// The session after the whole network is reset.
pub open spec fn network_reset(v: PvpNetView) -> PvpNetView {
    runtime_cleared(
        PvpNetView {
            peer: None,
            peers: seq![None, None],
            connected: false,
            my_id: None,
            last_heard_by_id: seq![0, 0],
            ..v
        },
    )
}

/// The player slot of a player id: id 1 is slot 0, id 2 is slot 1.
pub open spec fn slot_of_id(id: u8) -> Option<int> {
    if id == 1 {
        Some(0)
    } else if id == 2 {
        Some(1)
    } else {
        None
    }
}

/// The player id whose slot holds `addr`, the lower one first.
pub open spec fn id_of_addr(v: PvpNetView, addr: PeerAddr) -> Option<u8> {
    if v.peers[0] == Some(addr) {
        Some(1u8)
    } else if v.peers[1] == Some(addr) {
        Some(2u8)
    } else {
        None
    }
}

/// The session after a datagram from `addr` reached the dedicated server at
/// time `now`, and the player id of `addr`: a known player keeps its id and
/// is marked heard; a new one takes the lowest free slot; with no slot free
/// nothing changes and there is no id.
pub open spec fn peer_assigned(v: PvpNetView, addr: PeerAddr, now: u64) -> (PvpNetView, Option<u8>) {
    match id_of_addr(v, addr) {
        Some(id) => {
            let idx = (id - 1) as int;
            (PvpNetView { last_heard_by_id: v.last_heard_by_id.update(idx, now), ..v }, Some(id))
        },
        None => if v.peers[0] is None {
            (
                PvpNetView {
                    peers: v.peers.update(0, Some(addr)),
                    last_heard_by_id: v.last_heard_by_id.update(0, now),
                    ..v
                },
                Some(1u8),
            )
        } else if v.peers[1] is None {
            (
                PvpNetView {
                    peers: v.peers.update(1, Some(addr)),
                    last_heard_by_id: v.last_heard_by_id.update(1, now),
                    ..v
                },
                Some(2u8),
            )
        } else {
            (v, None)
        },
    }
}

/// Both player slots of a dedicated server are taken.
pub open spec fn peers_ready(v: PvpNetView) -> bool {
    v.peers[0] is Some && v.peers[1] is Some
}

/// The session after the player in slot `idx` is dropped.
pub open spec fn peer_cleared(v: PvpNetView, idx: int) -> PvpNetView {
    PvpNetView {
        peers: v.peers.update(idx, None),
        latest_inputs: v.latest_inputs.update(idx, neutral_input()),
        last_heard_by_id: v.last_heard_by_id.update(idx, 0),
        connected: false,
        ..v
    }
}

/// Where a broadcast goes: the occupied player slots, in order, when there
/// is any; else the single peer, if known.
pub open spec fn send_targets_of(v: PvpNetView) -> Seq<PeerAddr> {
    if v.peers[0] is Some || v.peers[1] is Some {
        (if v.peers[0] is Some {
            seq![v.peers[0].unwrap()]
        } else {
            Seq::empty()
        }) + (if v.peers[1] is Some {
            seq![v.peers[1].unwrap()]
        } else {
            Seq::empty()
        })
    } else {
        match v.peer {
            Some(p) => seq![p],
            None => Seq::empty(),
        }
    }
}

/// `msg` addressed to each of `targets`.
pub open spec fn addressed(targets: Seq<PeerAddr>, msg: PvpMsg) -> Seq<(PeerAddr, PvpMsg)> {
    Seq::new(targets.len(), |i: int| (targets[i], msg))
}

/// More than `limit` nanoseconds passed between `then` and `now`.
pub open spec fn elapsed_over(then: u64, now: u64, limit: u64) -> bool {
    now - then > limit
}

/// The state of the session before the received messages are handled at
/// time `now`, the datagrams to send, and the screen to switch to:
///
/// - a client in the lobby that is not connected greets its host again;
/// - a connected session sends a heartbeat to every target once
///   `HEARTBEAT_INTERVAL_NS` passed since the last one;
/// - a dedicated server drops each player it heard from but not for more
///   than `DISCONNECT_TIMEOUT_NS`; when one was dropped during a match the
///   whole session is reset and the game returns to the lobby;
/// - any other side that heard from its peer but not for that long counts
///   as disconnected (a host stays player 1) and leaves a running match for
///   the lobby.
pub open spec fn tick_prelude(v: PvpNetView, mode: NetMode, phase: PvpPhase, now: u64) -> (
    PvpNetView,
    Seq<(PeerAddr, PvpMsg)>,
    Option<PvpPhase>,
) {
    let hello = if phase == PvpPhase::Lobby && mode == NetMode::Client && !v.connected
        && v.peer is Some {
        seq![(v.peer.unwrap(), PvpMsg::Hello)]
    } else {
        Seq::empty()
    };
    let beat_due = v.connected && now - v.last_heartbeat_sent >= HEARTBEAT_INTERVAL_NS;
    let beats = if beat_due {
        addressed(send_targets_of(v), PvpMsg::Heartbeat)
    } else {
        Seq::empty()
    };
    let v1 = if beat_due {
        PvpNetView { last_heartbeat_sent: now, ..v }
    } else {
        v
    };
    let sends = hello + beats;
    if mode == NetMode::Server {
        let drop0 = v1.peers[0] is Some && v1.last_heard_by_id[0] > 0 && elapsed_over(
            v1.last_heard_by_id[0],
            now,
            DISCONNECT_TIMEOUT_NS,
        );
        let v2 = if drop0 {
            peer_cleared(v1, 0)
        } else {
            v1
        };
        let drop1 = v2.peers[1] is Some && v2.last_heard_by_id[1] > 0 && elapsed_over(
            v2.last_heard_by_id[1],
            now,
            DISCONNECT_TIMEOUT_NS,
        );
        let v3 = if drop1 {
            peer_cleared(v2, 1)
        } else {
            v2
        };
        if (drop0 || drop1) && phase == PvpPhase::Game {
            (server_session_reset(v3), sends, Some(PvpPhase::Lobby))
        } else {
            (v3, sends, None)
        }
    } else if v1.connected && v1.last_heard > 0 && elapsed_over(
        v1.last_heard,
        now,
        DISCONNECT_TIMEOUT_NS,
    ) {
        (
            PvpNetView {
                connected: false,
                my_id: if mode == NetMode::Host {
                    Some(1u8)
                } else {
                    None
                },
                last_input_from_client: None,
                ..v1
            },
            sends,
            if phase == PvpPhase::Game {
                Some(PvpPhase::Lobby)
            } else {
                None
            },
        )
    } else {
        (v1, sends, None)
    }
}

/// What a message `msg` from `from`, received at time `now`, does: the new
/// state, the reply to send, and the screen to switch to.
///
/// - `Hello` at a host makes `from` its peer, connected, and welcomes it as
///   player 2; at a dedicated server it assigns `from` a player slot and
///   welcomes it with that id; the session is connected once both slots are
///   taken. A session that becomes connected in the lobby starts the match.
/// - `Welcome` at a client records the host and our player id, connected.
/// - `Input` at a dedicated server is stored for the sender's slot; anywhere
///   else it is the remote player's input.
/// - `State` is kept by a client; `Fire` is queued; `Result` records the
///   winner and shows the result screen.
pub open spec fn message_handled(
    v0: PvpNetView,
    mode: NetMode,
    phase: PvpPhase,
    now: u64,
    from: PeerAddr,
    msg: PvpMsg,
) -> (PvpNetView, Option<(PeerAddr, PvpMsg)>, Option<PvpPhase>) {
    let v = PvpNetView { last_heard: now, ..v0 };
    if message_rejected(msg) {
        (v0, None, None)
    } else {
        match msg {
            PvpMsg::Hello => if mode == NetMode::Host {
                (
                    PvpNetView { peer: Some(from), connected: true, my_id: Some(1u8), ..v },
                    Some((from, PvpMsg::Welcome { your_id: 2 })),
                    if phase == PvpPhase::Lobby {
                        Some(PvpPhase::Game)
                    } else {
                        None
                    },
                )
            } else if mode == NetMode::Server && peer_assigned(v, from, now).1 is Some {
                let (v1, id) = peer_assigned(v, from, now);
                let ready = peers_ready(v1);
                (
                    PvpNetView { connected: ready, ..v1 },
                    Some((from, PvpMsg::Welcome { your_id: id.unwrap() })),
                    if ready && phase == PvpPhase::Lobby {
                        Some(PvpPhase::Game)
                    } else {
                        None
                    },
                )
            } else {
                (v, None, None)
            },
            PvpMsg::Welcome { your_id } => if mode == NetMode::Client {
                (
                    PvpNetView { peer: Some(from), connected: true, my_id: Some(your_id), ..v },
                    None,
                    if phase == PvpPhase::Lobby {
                        Some(PvpPhase::Game)
                    } else {
                        None
                    },
                )
            } else {
                (v, None, None)
            },
            PvpMsg::Input(input) => if mode == NetMode::Server {
                match id_of_addr(v, from) {
                    Some(id) => {
                        let idx = (id - 1) as int;
                        (
                            PvpNetView {
                                latest_inputs: v.latest_inputs.update(idx, input),
                                last_heard_by_id: v.last_heard_by_id.update(idx, now),
                                ..v
                            },
                            None,
                            None,
                        )
                    },
                    None => (v, None, None),
                }
            } else {
                (PvpNetView { last_input_from_client: Some(input), ..v }, None, None)
            },
            PvpMsg::State(st) => if mode == NetMode::Client {
                (PvpNetView { last_state: Some(st), ..v }, None, None)
            } else {
                (v, None, None)
            },
            PvpMsg::Fire(ev) => (PvpNetView { fire_events: v.fire_events.push(ev), ..v }, None, None),
            PvpMsg::Result { winner } => (
                PvpNetView { winner: Some(winner), ..v },
                None,
                if phase != PvpPhase::Result {
                    Some(PvpPhase::Result)
                } else {
                    None
                },
            ),
            PvpMsg::Heartbeat => (v, None, None),
        }
    }
}

/// The reply of a handled message, as a list of datagrams.
pub open spec fn reply_seq(r: Option<(PeerAddr, PvpMsg)>) -> Seq<(PeerAddr, PvpMsg)> {
    match r {
        Some(d) => seq![d],
        None => Seq::empty(),
    }
}

/// The later of two screen switches: a switch requested later replaces an
/// earlier one.
pub open spec fn later_phase(earlier: Option<PvpPhase>, later: Option<PvpPhase>) -> Option<
    PvpPhase,
> {
    match later {
        Some(p) => Some(p),
        None => earlier,
    }
}

/// The messages `msgs` handled in order: the final state, the replies in
/// order, and the last screen switch requested.
pub open spec fn messages_handled(
    v: PvpNetView,
    mode: NetMode,
    phase: PvpPhase,
    now: u64,
    msgs: Seq<(PeerAddr, PvpMsg)>,
) -> (PvpNetView, Seq<(PeerAddr, PvpMsg)>, Option<PvpPhase>)
    decreases msgs.len(),
{
    if msgs.len() == 0 {
        (v, Seq::empty(), None)
    } else {
        let (v1, s1, n1) = messages_handled(v, mode, phase, now, msgs.drop_last());
        let (from, msg) = msgs.last();
        let (v2, r, n2) = message_handled(v1, mode, phase, now, from, msg);
        (v2, s1 + reply_seq(r), later_phase(n1, n2))
    }
}

/// One network tick at time `now`: the prelude, then every received message
/// in order. The result is the new state, every datagram to send in order,
/// and the screen to switch to.
pub open spec fn tick_result(
    v: PvpNetView,
    mode: NetMode,
    phase: PvpPhase,
    now: u64,
    msgs: Seq<(PeerAddr, PvpMsg)>,
) -> (PvpNetView, Seq<(PeerAddr, PvpMsg)>, Option<PvpPhase>) {
    let (v1, s1, n1) = tick_prelude(v, mode, phase, now);
    let (v2, s2, n2) = messages_handled(v1, mode, phase, now, msgs);
    (v2, s1 + s2, later_phase(n1, n2))
}

/// What the caller does after a network tick.
#[derive(Debug, Clone)]
pub struct PvpTickOutput {
    /// Datagrams to send, in order.
    pub sends: Vec<(PeerAddr, PvpMsg)>,
    /// The screen to switch to, if any.
    pub next_phase: Option<PvpPhase>,
    /// Whether to close the socket: no mode is chosen.
    pub drop_socket: bool,
}

impl Default for PvpNetState {
    fn default() -> (r: Self)
        ensures
            r@ == fresh_session(None),
    {
        PvpNetState::new_session(None)
    }
}

/// The player slot of a player id: id 1 is slot 0, id 2 is slot 1.
pub fn peer_index_for_id(id: u8) -> (r: Option<usize>)
    ensures
        match slot_of_id(id) {
            Some(i) => r == Some(i as usize),
            None => r is None,
        },
{
    match id {
        1 => Some(0),
        2 => Some(1),
        _ => None,
    }
}

fn same_peer(slot: Option<PeerAddr>, addr: PeerAddr) -> (b: bool)
    ensures
        b == (slot == Some(addr)),
{
    match slot {
        Some(p) => p == addr,
        None => false,
    }
}

impl PvpNetState {
    /// A session that has just started with our player id `my_id`.
    pub fn new_session(my_id: Option<u8>) -> (r: Self)
        ensures
            r@ == fresh_session(my_id),
    {
        let r = PvpNetState {
            peer: None,
            peers: [None, None],
            connected: false,
            my_id,
            last_input_from_client: None,
            latest_inputs: [PvpInputMsg::neutral(), PvpInputMsg::neutral()],
            last_state: None,
            fire_events: Vec::new(),
            winner: None,
            last_heard_ns: 0,
            last_heard_by_id_ns: [0, 0],
            last_heartbeat_sent_ns: 0,
        };
        assert(r@ =~= fresh_session(my_id));
        r
    }

    /// Starts a fresh session with our player id `my_id`, as a new socket
    /// does: a host is player 1, a server and a client have no id yet.
    pub fn begin_session(&mut self, my_id: Option<u8>)
        ensures
            final(self)@ == fresh_session(my_id),
    {
        *self = PvpNetState::new_session(my_id);
    }

    /// Forgets every input, snapshot, attack and result received so far.
    pub fn clear_runtime(&mut self)
        ensures
            final(self)@ == runtime_cleared(old(self)@),
    {
        self.last_input_from_client = None;
        self.latest_inputs = [PvpInputMsg::neutral(), PvpInputMsg::neutral()];
        self.last_state = None;
        self.fire_events = Vec::new();
        self.winner = None;
        assert(self@ =~= runtime_cleared(old(self)@));
    }

    /// The player id whose slot holds `addr`.
    pub fn peer_id_for_addr(&self, addr: PeerAddr) -> (r: Option<u8>)
        ensures
            r == id_of_addr(self@, addr),
    {
        if same_peer(self.peers[0], addr) {
            Some(1)
        } else if same_peer(self.peers[1], addr) {
            Some(2)
        } else {
            None
        }
    }

    /// A dedicated server hears from `addr` at time `now`: returns its player
    /// id, assigning the lowest free slot to a new player.
    pub fn assign_server_peer(&mut self, addr: PeerAddr, now: u64) -> (r: Option<u8>)
        ensures
            (final(self)@, r) == peer_assigned(old(self)@, addr, now),
    {
        let ghost v = self@;
        if let Some(id) = self.peer_id_for_addr(addr) {
            let idx: usize = if id == 1 {
                0
            } else {
                1
            };
            self.last_heard_by_id_ns[idx] = now;
            assert(self@ =~= peer_assigned(v, addr, now).0);
            return Some(id);
        }
        if self.peers[0].is_none() {
            self.peers[0] = Some(addr);
            self.last_heard_by_id_ns[0] = now;
            assert(self@ =~= peer_assigned(v, addr, now).0);
            Some(1)
        } else if self.peers[1].is_none() {
            self.peers[1] = Some(addr);
            self.last_heard_by_id_ns[1] = now;
            assert(self@ =~= peer_assigned(v, addr, now).0);
            Some(2)
        } else {
            None
        }
    }

    /// Both player slots of a dedicated server are taken.
    pub fn server_peers_ready(&self) -> (b: bool)
        ensures
            b == peers_ready(self@),
    {
        self.peers[0].is_some() && self.peers[1].is_some()
    }

    /// Drops the player in slot `idx`.
    pub fn clear_server_peer(&mut self, idx: usize)
        requires
            idx < 2,
        ensures
            final(self)@ == peer_cleared(old(self)@, idx as int),
    {
        self.peers[idx] = None;
        self.latest_inputs[idx] = PvpInputMsg::neutral();
        self.last_heard_by_id_ns[idx] = 0;
        self.connected = false;
        assert(self@ =~= peer_cleared(old(self)@, idx as int));
    }

    /// Forgets both players of a dedicated server.
    pub fn reset_server_session(&mut self)
        ensures
            final(self)@ == server_session_reset(old(self)@),
    {
        self.peer = None;
        self.peers = [None, None];
        self.connected = false;
        self.my_id = None;
        self.latest_inputs = [PvpInputMsg::neutral(), PvpInputMsg::neutral()];
        self.last_heard_by_id_ns = [0, 0];
        self.clear_runtime();
        assert(self@ =~= server_session_reset(old(self)@));
    }

    /// Where a broadcast goes.
    pub fn send_targets(&self) -> (r: Vec<PeerAddr>)
        ensures
            r@ == send_targets_of(self@),
    {
        let mut r: Vec<PeerAddr> = Vec::new();
        if self.peers[0].is_some() || self.peers[1].is_some() {
            if let Some(p) = self.peers[0] {
                r.push(p);
            }
            if let Some(p) = self.peers[1] {
                r.push(p);
            }
        } else if let Some(p) = self.peer {
            r.push(p);
        }
        assert(r@ =~= send_targets_of(self@));
        r
    }

    /// The input a host received last from its client, or no input.
    pub fn client_input(&self) -> (r: PvpInputMsg)
        ensures
            r == (match self.last_input_from_client {
                Some(i) => i,
                None => neutral_input(),
            }),
    {
        match self.last_input_from_client {
            Some(i) => i,
            None => PvpInputMsg::neutral(),
        }
    }

    /// The input a dedicated server received last from player `player_id`,
    /// or no input for an id that names no player.
    pub fn input_for_player(&self, player_id: u8) -> (r: PvpInputMsg)
        ensures
            r == (match slot_of_id(player_id) {
                Some(i) => self.latest_inputs@[i],
                None => neutral_input(),
            }),
    {
        match peer_index_for_id(player_id) {
            Some(idx) => self.latest_inputs[idx],
            None => PvpInputMsg::neutral(),
        }
    }
}

fn push_to_all(sends: &mut Vec<(PeerAddr, PvpMsg)>, targets: &Vec<PeerAddr>, msg: PvpMsg)
    ensures
        final(sends)@ == old(sends)@ + addressed(targets@, msg),
{
    for i in 0..targets.len()
        invariant
            sends@ == old(sends)@ + addressed(targets@.take(i as int), msg),
    {
        sends.push((targets[i], msg));
        assert(addressed(targets@.take(i + 1), msg) =~= addressed(targets@.take(i as int), msg).push(
            (targets@[i as int], msg),
        ));
    }
    assert(targets@.take(targets@.len() as int) =~= targets@);
}

fn f32_bits_finite(b: u32) -> (r: bool)
    ensures
        r == finite_f32_bits(b),
{
    (b / 0x80_0000) % 0x100 != 0xff
}

fn over(then: u64, now: u64, limit: u64) -> (b: bool)
    ensures
        b == elapsed_over(then, now, limit),
{
    now > then && now - then > limit
}

impl PvpNetState {
    fn tick_begin(
        &mut self,
        mode: NetMode,
        phase: PvpPhase,
        now: u64,
        sends: &mut Vec<(PeerAddr, PvpMsg)>,
    ) -> (next: Option<PvpPhase>)
        requires
            old(sends)@.len() == 0,
        ensures
            (final(self)@, final(sends)@, next) == tick_prelude(old(self)@, mode, phase, now),
    {
        if phase == PvpPhase::Lobby && mode == NetMode::Client && !self.connected {
            if let Some(p) = self.peer {
                sends.push((p, PvpMsg::Hello));
            }
        }
        let beat_due = self.connected && now >= self.last_heartbeat_sent_ns && now
            - self.last_heartbeat_sent_ns >= HEARTBEAT_INTERVAL_NS;
        if beat_due {
            let targets = self.send_targets();
            push_to_all(sends, &targets, PvpMsg::Heartbeat);
            self.last_heartbeat_sent_ns = now;
        }
        if mode == NetMode::Server {
            let mut timed_out = false;
            if self.peers[0].is_some() && self.last_heard_by_id_ns[0] > 0 && over(
                self.last_heard_by_id_ns[0],
                now,
                DISCONNECT_TIMEOUT_NS,
            ) {
                self.clear_server_peer(0);
                timed_out = true;
            }
            if self.peers[1].is_some() && self.last_heard_by_id_ns[1] > 0 && over(
                self.last_heard_by_id_ns[1],
                now,
                DISCONNECT_TIMEOUT_NS,
            ) {
                self.clear_server_peer(1);
                timed_out = true;
            }
            if timed_out && phase == PvpPhase::Game {
                self.reset_server_session();
                return Some(PvpPhase::Lobby);
            }
            None
        } else if self.connected && self.last_heard_ns > 0 && over(
            self.last_heard_ns,
            now,
            DISCONNECT_TIMEOUT_NS,
        ) {
            self.connected = false;
            self.my_id = if mode == NetMode::Host {
                Some(1)
            } else {
                None
            };
            self.last_input_from_client = None;
            if phase == PvpPhase::Game {
                Some(PvpPhase::Lobby)
            } else {
                None
            }
        } else {
            None
        }
    }

    /// Handles one message `msg` from `from` received at time `now`; returns
    /// the reply to send and the screen to switch to.
    pub fn handle_message(
        &mut self,
        mode: NetMode,
        phase: PvpPhase,
        now: u64,
        from: PeerAddr,
        msg: PvpMsg,
    ) -> (r: (Option<(PeerAddr, PvpMsg)>, Option<PvpPhase>))
        ensures
            (final(self)@, r.0, r.1) == message_handled(old(self)@, mode, phase, now, from, msg),
    {
        if let PvpMsg::Input(input) = msg {
            if !(f32_bits_finite(input.move_axis.x) && f32_bits_finite(input.move_axis.y)
                && f32_bits_finite(input.aim.x) && f32_bits_finite(input.aim.y)) {
                return (None, None);
            }
        }
        self.last_heard_ns = now;
        match msg {
            PvpMsg::Hello => {
                if mode == NetMode::Host {
                    self.peer = Some(from);
                    self.connected = true;
                    self.my_id = Some(1);
                    (
                        Some((from, PvpMsg::Welcome { your_id: 2 })),
                        if phase == PvpPhase::Lobby {
                            Some(PvpPhase::Game)
                        } else {
                            None
                        },
                    )
                } else if mode == NetMode::Server {
                    match self.assign_server_peer(from, now) {
                        Some(your_id) => {
                            self.connected = self.server_peers_ready();
                            (
                                Some((from, PvpMsg::Welcome { your_id })),
                                if self.connected && phase == PvpPhase::Lobby {
                                    Some(PvpPhase::Game)
                                } else {
                                    None
                                },
                            )
                        },
                        None => (None, None),
                    }
                } else {
                    (None, None)
                }
            },
            PvpMsg::Welcome { your_id } => {
                if mode == NetMode::Client {
                    self.peer = Some(from);
                    self.connected = true;
                    self.my_id = Some(your_id);
                    (
                        None,
                        if phase == PvpPhase::Lobby {
                            Some(PvpPhase::Game)
                        } else {
                            None
                        },
                    )
                } else {
                    (None, None)
                }
            },
            PvpMsg::Input(input) => {
                if mode == NetMode::Server {
                    let ghost v = self@;
                    if let Some(id) = self.peer_id_for_addr(from) {
                        let idx: usize = if id == 1 {
                            0
                        } else {
                            1
                        };
                        self.latest_inputs[idx] = input;
                        self.last_heard_by_id_ns[idx] = now;
                        assert(self@ =~= PvpNetView {
                            latest_inputs: v.latest_inputs.update(idx as int, input),
                            last_heard_by_id: v.last_heard_by_id.update(idx as int, now),
                            ..v
                        });
                    }
                } else {
                    self.last_input_from_client = Some(input);
                }
                (None, None)
            },
            PvpMsg::State(st) => {
                if mode == NetMode::Client {
                    self.last_state = Some(st);
                }
                (None, None)
            },
            PvpMsg::Fire(ev) => {
                self.fire_events.push(ev);
                (None, None)
            },
            PvpMsg::Result { winner } => {
                self.winner = Some(winner);
                (
                    None,
                    if phase != PvpPhase::Result {
                        Some(PvpPhase::Result)
                    } else {
                        None
                    },
                )
            },
            PvpMsg::Heartbeat => (None, None),
        }
    }

    /// One network tick at time `now`, with the messages received since the
    /// last one (undecodable datagrams left out) in arrival order; `mode` is
    /// the configured mode and `phase` the current screen.
    pub fn tick(
        &mut self,
        mode: NetMode,
        phase: PvpPhase,
        now: u64,
        received: &Vec<(PeerAddr, PvpMsg)>,
    ) -> (out: PvpTickOutput)
        ensures
            (final(self)@, out.sends@, out.next_phase) == tick_result(
                old(self)@,
                mode,
                phase,
                now,
                received@,
            ),
            out.drop_socket == (mode == NetMode::Unset),
    {
        let mut sends: Vec<(PeerAddr, PvpMsg)> = Vec::new();
        let mut next = self.tick_begin(mode, phase, now, &mut sends);
        let ghost v1 = self@;
        let ghost s1 = sends@;
        let ghost n1 = next;
        for k in 0..received.len()
            invariant
                (self@, sends@.skip(s1.len() as int), next) == ({
                    let (v2, s2, n2) = messages_handled(
                        v1,
                        mode,
                        phase,
                        now,
                        received@.take(k as int),
                    );
                    (v2, s2, later_phase(n1, n2))
                }),
                sends@.take(s1.len() as int) == s1,
                s1.len() <= sends@.len(),
        {
            let (from, msg) = received[k];
            let ghost before = sends@;
            let (reply, n) = self.handle_message(mode, phase, now, from, msg);
            if let Some(d) = reply {
                sends.push(d);
            }
            if n.is_some() {
                next = n;
            }
            proof {
                let t = received@.take(k + 1);
                assert(t.drop_last() =~= received@.take(k as int));
                assert(t.last() == (from, msg));
                assert(sends@.skip(s1.len() as int) =~= before.skip(s1.len() as int) + reply_seq(
                    reply,
                ));
                assert(sends@.take(s1.len() as int) =~= s1);
            }
        }
        proof {
            assert(received@.take(received@.len() as int) =~= received@);
            assert(sends@ =~= s1 + sends@.skip(s1.len() as int));
        }
        PvpTickOutput { sends, next_phase: next, drop_socket: mode == NetMode::Unset }
    }
}

/// Resets a PVP session completely: no mode, default choices, nobody known
/// and nothing received. The caller closes the socket.
pub fn reset_pvp_network(config: &mut PvpNetConfig, net: &mut PvpNetState)
    ensures
        final(config)@ == pvp_config_default(),
        final(net)@ == network_reset(old(net)@),
{
    config.mode = NetMode::Unset;
    config.host_ip = String::new();
    config.port = PVP_PORT;
    config.nickname = string_from("Player");
    config.room_id = string_from("main");
    net.peer = None;
    net.peers = [None, None];
    net.connected = false;
    net.my_id = None;
    net.last_heard_by_id_ns = [0, 0];
    net.clear_runtime();
    assert(net@ =~= network_reset(old(net)@));
}

} // verus!
