//! The PVP screens around a match: the quick-join menu, the lobby's status
//! line and the result title.
use vstd::prelude::*;
use crate::pvp_net::{
    network_reset, pvp_config_default, reset_pvp_network, NetMode, PvpNetConfig, PvpNetConfigView,
    PvpNetState, PvpNetView,
};
use crate::room_form::{byte_len, popped, FIELD_BYTE_LIMIT};
use crate::text::{
    char_is_ascii_digit, decimal_chars, is_ascii_digit, pop_char, push_char, push_decimal,
    push_str, string_from, string_of, trim_str, trimmed,
};

verus! {

/// The host address typed into the quick-join menu.
#[derive(Debug, Default, Clone)]
pub struct PvpJoinIp {
    pub ip: String,
}

/// The address after `c` is typed: digits, `.` and `:` go in while it is
/// shorter than [`FIELD_BYTE_LIMIT`] bytes.
pub open spec fn ip_char_pushed(ip: Seq<char>, c: char) -> Seq<char> {
    if (is_ascii_digit(c) || c == '.' || c == ':') && byte_len(ip) < FIELD_BYTE_LIMIT {
        ip.push(c)
    } else {
        ip
    }
}

/// The address after the characters `cs` are typed in order.
pub open spec fn ip_chars_typed(ip: Seq<char>, cs: Seq<char>) -> Seq<char>
    decreases cs.len(),
{
    if cs.len() == 0 {
        ip
    } else {
        ip_char_pushed(ip_chars_typed(ip, cs.drop_last()), cs.last())
    }
}

/// The keys of a frame in the quick-join menu.
#[derive(Debug, Clone, Copy, PartialEq, Eq, Structural)]
pub struct PvpMenuKeys {
    /// Escape: back to the multiplayer menu.
    pub escape: bool,
    /// H: host a match.
    pub host: bool,
    /// J or Enter: join the typed address.
    pub join: bool,
    /// Backspace: delete the last character.
    pub backspace: bool,
}

/// What the quick-join menu does this frame.
#[derive(Debug, Clone, Copy, PartialEq, Eq, Structural)]
pub enum PvpMenuAction {
    /// The network was reset: close the socket and return to the multiplayer menu.
    Leave,
    /// Open a host socket on the config's port and go to the lobby.
    StartHost,
    /// Open a client socket towards the config's host and port and go to the lobby.
    Join,
    /// Stay in the menu.
    Stay,
}

/// The typed address after this frame's characters and backspace.
pub open spec fn ip_edited(ip: Seq<char>, typed: Seq<char>, backspace: bool) -> Seq<char> {
    let t = ip_chars_typed(ip, typed);
    if backspace {
        popped(t)
    } else {
        t
    }
}

/// The quick-join menu's frame: Escape resets the network and leaves; H
/// chooses hosting; otherwise the typed characters and backspace edit the
/// address, and J or Enter with a non-blank address chooses joining it.
pub open spec fn pvp_menu_stepped(
    ip: Seq<char>,
    c: PvpNetConfigView,
    n: PvpNetView,
    keys: PvpMenuKeys,
    typed: Seq<char>,
) -> (Seq<char>, PvpNetConfigView, PvpNetView, PvpMenuAction) {
    if keys.escape {
        (ip, pvp_config_default(), network_reset(n), PvpMenuAction::Leave)
    } else if keys.host {
        (ip, PvpNetConfigView { mode: NetMode::Host, ..c }, n, PvpMenuAction::StartHost)
    } else {
        let e = ip_edited(ip, typed, keys.backspace);
        let host = trimmed(e);
        if keys.join && host.len() > 0 {
            (
                e,
                PvpNetConfigView { mode: NetMode::Client, host_ip: host, ..c },
                n,
                PvpMenuAction::Join,
            )
        } else {
            (e, c, n, PvpMenuAction::Stay)
        }
    }
}

impl PvpJoinIp {
    /// Types `c`.
    pub fn push_ip_char(&mut self, c: char)
        ensures
            final(self).ip@ == ip_char_pushed(old(self).ip@, c),
    {
        if (char_is_ascii_digit(c) || c == '.' || c == ':') && self.ip.as_str().len()
            < FIELD_BYTE_LIMIT {
            push_char(&mut self.ip, c);
        }
    }

    /// The line that shows the typed address.
    pub fn label(&self) -> (r: String)
        ensures
            r@ == "房主IP："@ + self.ip@,
    {
        let mut r = string_from("房主IP：");
        push_str(&mut r, self.ip.as_str());
        r
    }
}

/// One frame of the quick-join menu.
pub fn pvp_menu_step(
    join_ip: &mut PvpJoinIp,
    config: &mut PvpNetConfig,
    net: &mut PvpNetState,
    keys: PvpMenuKeys,
    typed: &Vec<char>,
) -> (r: PvpMenuAction)
    ensures
        (final(join_ip).ip@, final(config)@, final(net)@, r) == pvp_menu_stepped(
            old(join_ip).ip@,
            old(config)@,
            old(net)@,
            keys,
            typed@,
        ),
{
    if keys.escape {
        reset_pvp_network(config, net);
        return PvpMenuAction::Leave;
    }
    if keys.host {
        config.mode = NetMode::Host;
        return PvpMenuAction::StartHost;
    }
    for k in 0..typed.len()
        invariant
            join_ip.ip@ == ip_chars_typed(old(join_ip).ip@, typed@.take(k as int)),
    {
        join_ip.push_ip_char(typed[k]);
        assert(typed@.take(k + 1).drop_last() =~= typed@.take(k as int));
    }
    assert(typed@.take(typed@.len() as int) =~= typed@);
    if keys.backspace {
        pop_char(&mut join_ip.ip);
    }
    if keys.join {
        let host = trim_str(join_ip.ip.as_str());
        if host.len() > 0 {
            config.mode = NetMode::Client;
            config.host_ip = string_of(host.as_slice());
            return PvpMenuAction::Join;
        }
    }
    PvpMenuAction::Stay
}

/// The lobby's status line. `peer` is the connected client's address as
/// text (empty when unknown).
pub open spec fn lobby_status_of(c: PvpNetConfigView, connected: bool, peer: Seq<char>) -> Seq<
    char,
> {
    let port = decimal_chars(c.port as nat);
    match c.mode {
        NetMode::Host => if connected {
            "已连接：客户端 "@ + peer
        } else {
            "房主已启动，等待客户端连接（端口 "@ + port + "，房间 "@ + c.room_id + "）"@
        },
        NetMode::Client => if connected {
            "已连接到服务器："@ + c.host_ip + ":"@ + port
        } else {
            "正在连接："@ + c.host_ip + ":"@ + port + "，如断开会自动重试"@
        },
        NetMode::Server => if connected {
            "PVP 服务器已开始对战（端口 "@ + port + "）"@
        } else {
            "PVP 服务器等待两个客户端连接（端口 "@ + port + "）"@
        },
        NetMode::Unset => "尚未选择模式"@,
    }
}

/// The lobby's status line for `config`, `connected` and the client address
/// text `peer`.
pub fn lobby_status(config: &PvpNetConfig, connected: bool, peer: &str) -> (r: String)
    ensures
        r@ == lobby_status_of(config@, connected, peer@),
{
    let mut r = String::new();
    match config.mode {
        NetMode::Host => {
            if connected {
                push_str(&mut r, "已连接：客户端 ");
                push_str(&mut r, peer);
            } else {
                push_str(&mut r, "房主已启动，等待客户端连接（端口 ");
                push_decimal(&mut r, config.port as u64);
                push_str(&mut r, "，房间 ");
                push_str(&mut r, config.room_id.as_str());
                push_str(&mut r, "）");
            }
        },
        NetMode::Client => {
            if connected {
                push_str(&mut r, "已连接到服务器：");
            } else {
                push_str(&mut r, "正在连接：");
            }
            push_str(&mut r, config.host_ip.as_str());
            push_str(&mut r, ":");
            push_decimal(&mut r, config.port as u64);
            if !connected {
                push_str(&mut r, "，如断开会自动重试");
            }
        },
        NetMode::Server => {
            if connected {
                push_str(&mut r, "PVP 服务器已开始对战（端口 ");
            } else {
                push_str(&mut r, "PVP 服务器等待两个客户端连接（端口 ");
            }
            push_decimal(&mut r, config.port as u64);
            push_str(&mut r, "）");
        },
        NetMode::Unset => {
            push_str(&mut r, "尚未选择模式");
        },
    }
    assert(r@ =~= lobby_status_of(config@, connected, peer@));
    r
}

/// The title of the result screen: the winning player, or the end of the
/// match when no player 1 or 2 won.
pub open spec fn result_title_of(winner: Option<u8>) -> Seq<char> {
    match winner {
        Some(w) => if w == 1 || w == 2 {
            "P"@ + decimal_chars(w as nat) + " 获胜！"@
        } else {
            "对局结束"@
        },
        None => "对局结束"@,
    }
}

/// The title of the result screen.
pub fn result_title(winner: Option<u8>) -> (r: String)
    ensures
        r@ == result_title_of(winner),
{
    let w = match winner {
        Some(w) => w,
        None => 0,
    };
    if w == 1 || w == 2 {
        let mut r = string_from("P");
        push_decimal(&mut r, w as u64);
        push_str(&mut r, " 获胜！");
        r
    } else {
        string_from("对局结束")
    }
}

} // verus!
