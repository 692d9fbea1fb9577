//! The multiplayer room menu: its pages, the connection form's fields and
//! what typing, the buttons and the connect request do to them.
use vstd::prelude::*;
use vstd::utf8::encode_utf8;
use crate::pvp_net::{NetMode, PvpNetConfig, PvpNetConfigView, PVP_PORT};
use crate::text::{
    char_is_ascii_digit, char_is_control, chars_of, decimal_chars, is_ascii_digit, is_control,
    lemma_decimal_chars_are_digits,
    pop_char, push_char, push_decimal, push_str, string_from, string_of, take_chars, trim_str,
    trimmed, trimmed_u16, parse_trimmed_u16,
};

verus! {

/// The UDP port of a coop room.
pub const COOP_PORT: u16 = 3457;

/// The pages of the multiplayer menu.
#[derive(Debug, Clone, Copy, PartialEq, Eq, Structural)]
pub enum MultiplayerMenuPage {
    Entry,
    CreateMode,
    ConnectionForm,
}

/// Whether the player creates a room or joins one.
#[derive(Debug, Clone, Copy, PartialEq, Eq, Structural)]
pub enum RoomIntent {
    Create,
    Join,
}

/// The kind of network game a room plays.
#[derive(Debug, Clone, Copy, PartialEq, Eq, Structural)]
pub enum MultiplayerTargetMode {
    Coop,
    Pvp,
}

/// The fields of the connection form.
#[derive(Debug, Clone, Copy, PartialEq, Eq, Structural)]
pub enum RoomFormField {
    Ip,
    Port,
    Nickname,
    RoomId,
}

/// The buttons of the multiplayer menu.
#[derive(Debug, Clone, Copy, PartialEq, Eq, Structural)]
pub enum MultiplayerMenuButton {
    CreateRoom,
    JoinRoom,
    SelectMode(MultiplayerTargetMode),
    SelectField(RoomFormField),
    Connect,
    Back,
}

/// The state of the multiplayer menu and its connection form.
#[derive(Debug, Clone)]
pub struct MultiplayerRoomForm {
    pub page: MultiplayerMenuPage,
    pub intent: RoomIntent,
    pub target_mode: Option<MultiplayerTargetMode>,
    pub active_field: RoomFormField,
    pub ip: String,
    pub port: String,
    pub nickname: String,
    pub room_id: String,
    pub notice: String,
}

/// The value of a [`MultiplayerRoomForm`].
#[verifier::ext_equal]
pub struct RoomFormView {
    pub page: MultiplayerMenuPage,
    pub intent: RoomIntent,
    pub target_mode: Option<MultiplayerTargetMode>,
    pub active_field: RoomFormField,
    pub ip: Seq<char>,
    pub port: Seq<char>,
    pub nickname: Seq<char>,
    pub room_id: Seq<char>,
    pub notice: Seq<char>,
}

impl View for MultiplayerRoomForm {
    type V = RoomFormView;

    open spec fn view(&self) -> RoomFormView {
        RoomFormView {
            page: self.page,
            intent: self.intent,
            target_mode: self.target_mode,
            active_field: self.active_field,
            ip: self.ip@,
            port: self.port@,
            nickname: self.nickname@,
            room_id: self.room_id@,
            notice: self.notice@,
        }
    }
}

/// The menu as it opens: the entry page, joining, the IP field active, the
/// loopback address, the coop port, player `Player` in room `main`.
pub open spec fn room_form_default() -> RoomFormView {
    RoomFormView {
        page: MultiplayerMenuPage::Entry,
        intent: RoomIntent::Join,
        target_mode: None,
        active_field: RoomFormField::Ip,
        ip: "127.0.0.1"@,
        port: decimal_chars(COOP_PORT as nat),
        nickname: "Player"@,
        room_id: "main"@,
        notice: Seq::empty(),
    }
}

fn port_string(port: u16) -> (s: String)
    ensures
        s@ == decimal_chars(port as nat),
{
    let mut s = String::new();
    push_decimal(&mut s, port as u64);
    assert(s@ =~= decimal_chars(port as nat));
    s
}

impl Default for MultiplayerRoomForm {
    fn default() -> (r: Self)
        ensures
            r@ == room_form_default(),
    {
        MultiplayerRoomForm {
            page: MultiplayerMenuPage::Entry,
            intent: RoomIntent::Join,
            target_mode: None,
            active_field: RoomFormField::Ip,
            ip: string_from("127.0.0.1"),
            port: port_string(COOP_PORT),
            nickname: string_from("Player"),
            room_id: string_from("main"),
            notice: String::new(),
        }
    }
}

/// The text of a field.
pub open spec fn field_value(f: RoomFormView, field: RoomFormField) -> Seq<char> {
    match field {
        RoomFormField::Ip => f.ip,
        RoomFormField::Port => f.port,
        RoomFormField::Nickname => f.nickname,
        RoomFormField::RoomId => f.room_id,
    }
}

/// `f` with the text of `field` replaced by `v`.
pub open spec fn with_field_value(f: RoomFormView, field: RoomFormField, v: Seq<char>) -> RoomFormView {
    match field {
        RoomFormField::Ip => RoomFormView { ip: v, ..f },
        RoomFormField::Port => RoomFormView { port: v, ..f },
        RoomFormField::Nickname => RoomFormView { nickname: v, ..f },
        RoomFormField::RoomId => RoomFormView { room_id: v, ..f },
    }
}

/// The characters a field accepts: digits and dots for the IP, digits for
/// the port, and for names anything but control characters, `:`, `/` and `\`.
pub open spec fn char_allowed(field: RoomFormField, c: char) -> bool {
    match field {
        RoomFormField::Ip => is_ascii_digit(c) || c == '.',
        RoomFormField::Port => is_ascii_digit(c),
        _ => !is_control(c) && c != ':' && c != '/' && c != '\\',
    }
}

/// `str::len`: the length of the UTF-8 encoding of `v`, in bytes.
pub open spec fn byte_len(v: Seq<char>) -> usize {
    encode_utf8(v).len() as usize
}

/// A field holds at most this many bytes of UTF-8 before typing stops.
pub const FIELD_BYTE_LIMIT: usize = 64;

/// The form after `c` is typed: it goes into the active field when the field
/// accepts it and is shorter than [`FIELD_BYTE_LIMIT`] bytes.
pub open spec fn form_char_pushed(f: RoomFormView, c: char) -> RoomFormView {
    let v = field_value(f, f.active_field);
    if byte_len(v) >= FIELD_BYTE_LIMIT || !char_allowed(f.active_field, c) {
        f
    } else {
        with_field_value(f, f.active_field, v.push(c))
    }
}

/// The form after the characters `cs` are typed in order.
pub open spec fn form_chars_typed(f: RoomFormView, cs: Seq<char>) -> RoomFormView
    decreases cs.len(),
{
    if cs.len() == 0 {
        f
    } else {
        form_char_pushed(form_chars_typed(f, cs.drop_last()), cs.last())
    }
}

/// `v` without its last character, if it has one.
pub open spec fn popped(v: Seq<char>) -> Seq<char> {
    if v.len() == 0 {
        v
    } else {
        v.drop_last()
    }
}

/// The field after `field` in tab order; the last wraps to the first.
pub open spec fn next_field(field: RoomFormField) -> RoomFormField {
    match field {
        RoomFormField::Ip => RoomFormField::Port,
        RoomFormField::Port => RoomFormField::Nickname,
        RoomFormField::Nickname => RoomFormField::RoomId,
        RoomFormField::RoomId => RoomFormField::Ip,
    }
}

/// The form after one frame of editing: the typed characters, then a
/// backspace in the active field, then a tab to the next field.
pub open spec fn form_edited(f: RoomFormView, typed: Seq<char>, backspace: bool, tab: bool) -> RoomFormView {
    let g = form_chars_typed(f, typed);
    let h = if backspace {
        with_field_value(g, g.active_field, popped(field_value(g, g.active_field)))
    } else {
        g
    };
    if tab {
        RoomFormView { active_field: next_field(h.active_field), ..h }
    } else {
        h
    }
}

impl RoomFormField {
    /// The field after this one in tab order.
    pub fn next(self) -> (r: RoomFormField)
        ensures
            r == next_field(self),
    {
        match self {
            RoomFormField::Ip => RoomFormField::Port,
            RoomFormField::Port => RoomFormField::Nickname,
            RoomFormField::Nickname => RoomFormField::RoomId,
            RoomFormField::RoomId => RoomFormField::Ip,
        }
    }
}

/// The label of a field.
pub open spec fn field_label(field: RoomFormField) -> Seq<char> {
    match field {
        RoomFormField::Ip => "IP"@,
        RoomFormField::Port => "端口"@,
        RoomFormField::Nickname => "昵称"@,
        RoomFormField::RoomId => "房间"@,
    }
}

/// The label of a field.
pub fn room_field_label(field: RoomFormField) -> (r: &'static str)
    ensures
        r@ == field_label(field),
{
    match field {
        RoomFormField::Ip => "IP",
        RoomFormField::Port => "端口",
        RoomFormField::Nickname => "昵称",
        RoomFormField::RoomId => "房间",
    }
}

/// Whether `c` may go into `field`.
pub fn room_char_allowed(field: RoomFormField, c: char) -> (b: bool)
    ensures
        b == char_allowed(field, c),
{
    match field {
        RoomFormField::Ip => char_is_ascii_digit(c) || c == '.',
        RoomFormField::Port => char_is_ascii_digit(c),
        _ => !char_is_control(c) && c != ':' && c != '/' && c != '\\',
    }
}

/// Appends `c` to `s` when `s` is shorter than [`FIELD_BYTE_LIMIT`] bytes and
/// `allowed` holds.
fn push_limited(s: &mut String, c: char, allowed: bool)
    ensures
        final(s)@ == (if byte_len(old(s)@) >= FIELD_BYTE_LIMIT || !allowed {
            old(s)@
        } else {
            old(s)@.push(c)
        }),
{
    let n = s.as_str().len();
    if n >= FIELD_BYTE_LIMIT || !allowed {
        return;
    }
    push_char(s, c);
}

/// The line shown for a field: a `> ` marker on the active field, the label,
/// four spaces and the text.
pub open spec fn field_line(f: RoomFormView, field: RoomFormField) -> Seq<char> {
    (if f.active_field == field {
        "> "@
    } else {
        "  "@
    }) + field_label(field) + "    "@ + field_value(f, field)
}

/// The subtitle of the connection form.
pub open spec fn form_subtitle(f: RoomFormView) -> Seq<char> {
    match f.intent {
        RoomIntent::Join => "加入房间：输入服务器信息后连接，端口决定协同或对抗。"@,
        RoomIntent::Create => match f.target_mode {
            Some(MultiplayerTargetMode::Pvp) => "创建对抗房间：本机作为对抗主机等待连接。"@,
            _ => "创建协同房间：请先运行 server，再以 1 号客户端连接。"@,
        },
    }
}

/// The notice under the form: the current notice, or the editing help.
pub open spec fn form_notice(f: RoomFormView) -> Seq<char> {
    if f.notice.len() > 0 {
        f.notice
    } else {
        "点击字段后输入；Tab 切换字段；Enter 连接；Esc 返回。"@
    }
}

/// What the menu does after a button: redraw the page, leave for the main
/// menu, or try to connect.
#[derive(Debug, Clone, Copy, PartialEq, Eq, Structural)]
pub struct MenuOutcome {
    pub rerender: bool,
    pub to_main_menu: bool,
    pub connect: bool,
}

/// Nothing to do.
pub open spec fn no_outcome() -> MenuOutcome {
    MenuOutcome { rerender: false, to_main_menu: false, connect: false }
}

/// The notice shown when joining a room.
pub open spec fn join_notice() -> Seq<char> {
    "加入房间：端口 3457 连接协同，端口 3456 连接对抗。"@
}

/// The port a new room of `mode` uses.
pub open spec fn mode_port(mode: MultiplayerTargetMode) -> u16 {
    match mode {
        MultiplayerTargetMode::Coop => COOP_PORT,
        MultiplayerTargetMode::Pvp => PVP_PORT,
    }
}

/// The menu after `action`, and what to do next:
///
/// - *Create room* goes to the mode choice;
/// - *Join room* opens the form for joining, on the coop port, with a hint
///   on which port plays what;
/// - choosing a mode opens the form for creating a room of that mode, on
///   that mode's port;
/// - choosing a field makes it active;
/// - *Connect* asks to connect;
/// - *Back* leaves the entry page for the main menu, and otherwise returns
///   to the previous page.
pub open spec fn action_applied(f: RoomFormView, action: MultiplayerMenuButton) -> (
    RoomFormView,
    MenuOutcome,
) {
    let redraw = MenuOutcome { rerender: true, ..no_outcome() };
    match action {
        MultiplayerMenuButton::CreateRoom => (
            RoomFormView {
                page: MultiplayerMenuPage::CreateMode,
                intent: RoomIntent::Create,
                target_mode: None,
                notice: Seq::empty(),
                ..f
            },
            redraw,
        ),
        MultiplayerMenuButton::JoinRoom => (
            RoomFormView {
                page: MultiplayerMenuPage::ConnectionForm,
                intent: RoomIntent::Join,
                target_mode: None,
                port: decimal_chars(COOP_PORT as nat),
                notice: join_notice(),
                ..f
            },
            redraw,
        ),
        MultiplayerMenuButton::SelectMode(mode) => (
            RoomFormView {
                page: MultiplayerMenuPage::ConnectionForm,
                intent: RoomIntent::Create,
                target_mode: Some(mode),
                port: decimal_chars(mode_port(mode) as nat),
                notice: Seq::empty(),
                ..f
            },
            redraw,
        ),
        MultiplayerMenuButton::SelectField(field) => (
            RoomFormView { active_field: field, ..f },
            redraw,
        ),
        MultiplayerMenuButton::Connect => (f, MenuOutcome { connect: true, ..no_outcome() }),
        MultiplayerMenuButton::Back => match f.page {
            MultiplayerMenuPage::Entry => (f, MenuOutcome { to_main_menu: true, ..no_outcome() }),
            MultiplayerMenuPage::CreateMode => (
                RoomFormView { page: MultiplayerMenuPage::Entry, notice: Seq::empty(), ..f },
                redraw,
            ),
            MultiplayerMenuPage::ConnectionForm => (
                RoomFormView {
                    page: if f.intent == RoomIntent::Create {
                        MultiplayerMenuPage::CreateMode
                    } else {
                        MultiplayerMenuPage::Entry
                    },
                    notice: Seq::empty(),
                    ..f
                },
                redraw,
            ),
        },
    }
}

/// The action of a frame: the pressed button, replaced by *Back* on Escape,
/// and by *Connect* on Enter while the form is shown.
pub open spec fn chosen_action(
    pressed: Option<MultiplayerMenuButton>,
    escape: bool,
    enter: bool,
    page: MultiplayerMenuPage,
) -> Option<MultiplayerMenuButton> {
    if enter && page == MultiplayerMenuPage::ConnectionForm {
        Some(MultiplayerMenuButton::Connect)
    } else if escape {
        Some(MultiplayerMenuButton::Back)
    } else {
        pressed
    }
}

/// The action of a frame, from the pressed button and the keys.
pub fn choose_menu_action(
    pressed: Option<MultiplayerMenuButton>,
    escape: bool,
    enter: bool,
    page: MultiplayerMenuPage,
) -> (r: Option<MultiplayerMenuButton>)
    ensures
        r == chosen_action(pressed, escape, enter, page),
{
    let mut selected = pressed;
    if escape {
        selected = Some(MultiplayerMenuButton::Back);
    }
    if enter && page == MultiplayerMenuPage::ConnectionForm {
        selected = Some(MultiplayerMenuButton::Connect);
    }
    selected
}

/// `v` with surrounding whitespace removed and cut to 32 characters, or
/// `fallback` when nothing is left.
pub open spec fn cleaned(v: Seq<char>, fallback: Seq<char>) -> Seq<char> {
    let t = trimmed(v);
    if t.len() == 0 {
        fallback
    } else {
        take_chars(t, 32)
    }
}

/// A name as typed, cleaned: trimmed and cut to 32 characters, or `fallback`
/// when blank.
pub fn clean_or_default(value: &str, fallback: &str) -> (r: String)
    ensures
        r@ == cleaned(value@, fallback@),
{
    let t = trim_str(value);
    if t.len() == 0 {
        return string_from(fallback);
    }
    let n = if t.len() <= 32 {
        t.len()
    } else {
        32
    };
    let mut r = String::new();
    for k in 0..n
        invariant
            n == (if t@.len() <= 32 {
                t@.len()
            } else {
                32
            }),
            n <= t@.len(),
            r@ == t@.take(k as int),
    {
        push_char(&mut r, t[k]);
        assert(t@.take(k + 1) == t@.take(k as int).push(t@[k as int]));
    }
    assert(t@.len() <= 32 ==> t@.take(n as int) == t@);
    r
}

/// What connecting with the form starts.
#[derive(Debug, Clone, Copy, PartialEq, Eq, Structural)]
pub enum ConnectPlan {
    /// The form's values were refused; its notice says why.
    Rejected,
    /// Join a coop room on `port` with the form's IP, nickname and room, as
    /// the first player of a room we create (`as_host_slot`) or as the
    /// remote player.
    Coop { as_host_slot: bool, port: u16 },
    /// Start a PVP host on the PVP config's port.
    PvpHost,
    /// Join the PVP host at the PVP config's host address and port.
    PvpClient,
}

/// The notice for a port that is not a number.
pub open spec fn port_not_number_notice() -> Seq<char> {
    "端口必须是 1-65535 之间的数字。"@
}

/// The notice for port zero.
pub open spec fn port_zero_notice() -> Seq<char> {
    "端口必须大于 0。"@
}

/// The notice for a coop host address that is not a plain IPv4 address.
pub open spec fn bad_coop_ip_notice() -> Seq<char> {
    "IP 必须是纯 IPv4 地址，例如 127.0.0.1。"@
}

/// The kind of game to connect to: the chosen mode, else PVP on the PVP port
/// and coop on any other.
pub open spec fn connect_mode(f: RoomFormView, port: u16) -> MultiplayerTargetMode {
    match f.target_mode {
        Some(m) => m,
        None => if port == PVP_PORT {
            MultiplayerTargetMode::Pvp
        } else {
            MultiplayerTargetMode::Coop
        },
    }
}

/// The PVP config for connecting with form `f` on `port`: the port, the
/// cleaned nickname and room; a creator hosts, a joiner is a client of the
/// trimmed IP.
pub open spec fn pvp_connect_config(c: PvpNetConfigView, f: RoomFormView, port: u16) -> PvpNetConfigView {
    PvpNetConfigView {
        port,
        nickname: cleaned(f.nickname, "Player"@),
        room_id: cleaned(f.room_id, "main"@),
        mode: if f.intent == RoomIntent::Create {
            NetMode::Host
        } else {
            NetMode::Client
        },
        host_ip: if f.intent == RoomIntent::Create {
            c.host_ip
        } else {
            trimmed(f.ip)
        },
    }
}

impl MultiplayerRoomForm {
    /// The text of a field.
    pub fn room_form_value(&self, field: RoomFormField) -> (r: &str)
        ensures
            r@ == field_value(self@, field),
    {
        match field {
            RoomFormField::Ip => self.ip.as_str(),
            RoomFormField::Port => self.port.as_str(),
            RoomFormField::Nickname => self.nickname.as_str(),
            RoomFormField::RoomId => self.room_id.as_str(),
        }
    }

    /// Types `c` into the active field.
    pub fn push_room_form_char(&mut self, c: char)
        ensures
            final(self)@ == form_char_pushed(old(self)@, c),
    {
        let field = self.active_field;
        let allowed = room_char_allowed(field, c);
        match field {
            RoomFormField::Ip => push_limited(&mut self.ip, c, allowed),
            RoomFormField::Port => push_limited(&mut self.port, c, allowed),
            RoomFormField::Nickname => push_limited(&mut self.nickname, c, allowed),
            RoomFormField::RoomId => push_limited(&mut self.room_id, c, allowed),
        }
        assert(self@ =~= form_char_pushed(old(self)@, c));
    }

    /// Removes the last character of the active field.
    pub fn pop_room_form_char(&mut self)
        ensures
            final(self)@ == with_field_value(
                old(self)@,
                old(self)@.active_field,
                popped(field_value(old(self)@, old(self)@.active_field)),
            ),
    {
        match self.active_field {
            RoomFormField::Ip => {
                pop_char(&mut self.ip);
            },
            RoomFormField::Port => {
                pop_char(&mut self.port);
            },
            RoomFormField::Nickname => {
                pop_char(&mut self.nickname);
            },
            RoomFormField::RoomId => {
                pop_char(&mut self.room_id);
            },
        }
        assert(self@ =~= with_field_value(
            old(self)@,
            old(self)@.active_field,
            popped(field_value(old(self)@, old(self)@.active_field)),
        ));
    }

    /// One frame of editing: the typed characters, then a backspace, then a tab.
    pub fn edit_room_form(&mut self, typed: &Vec<char>, backspace: bool, tab: bool)
        ensures
            final(self)@ == form_edited(old(self)@, typed@, backspace, tab),
    {
        for k in 0..typed.len()
            invariant
                self@ == form_chars_typed(old(self)@, typed@.take(k as int)),
        {
            self.push_room_form_char(typed[k]);
            assert(typed@.take(k + 1).drop_last() =~= typed@.take(k as int));
        }
        assert(typed@.take(typed@.len() as int) =~= typed@);
        if backspace {
            self.pop_room_form_char();
        }
        if tab {
            self.active_field = self.active_field.next();
        }
    }

    /// Applies a menu button; returns what to do next.
    pub fn apply_action(&mut self, action: MultiplayerMenuButton) -> (r: MenuOutcome)
        ensures
            (final(self)@, r) == action_applied(old(self)@, action),
    {
        let redraw = MenuOutcome { rerender: true, to_main_menu: false, connect: false };
        match action {
            MultiplayerMenuButton::CreateRoom => {
                self.page = MultiplayerMenuPage::CreateMode;
                self.intent = RoomIntent::Create;
                self.target_mode = None;
                self.notice = String::new();
                redraw
            },
            MultiplayerMenuButton::JoinRoom => {
                self.page = MultiplayerMenuPage::ConnectionForm;
                self.intent = RoomIntent::Join;
                self.target_mode = None;
                self.port = port_string(COOP_PORT);
                self.notice = string_from("加入房间：端口 3457 连接协同，端口 3456 连接对抗。");
                redraw
            },
            MultiplayerMenuButton::SelectMode(mode) => {
                self.page = MultiplayerMenuPage::ConnectionForm;
                self.intent = RoomIntent::Create;
                self.target_mode = Some(mode);
                self.port = port_string(
                    match mode {
                        MultiplayerTargetMode::Coop => COOP_PORT,
                        MultiplayerTargetMode::Pvp => PVP_PORT,
                    },
                );
                self.notice = String::new();
                redraw
            },
            MultiplayerMenuButton::SelectField(field) => {
                self.active_field = field;
                redraw
            },
            MultiplayerMenuButton::Connect => MenuOutcome {
                rerender: false,
                to_main_menu: false,
                connect: true,
            },
            MultiplayerMenuButton::Back => match self.page {
                MultiplayerMenuPage::Entry => MenuOutcome {
                    rerender: false,
                    to_main_menu: true,
                    connect: false,
                },
                MultiplayerMenuPage::CreateMode => {
                    self.page = MultiplayerMenuPage::Entry;
                    self.notice = String::new();
                    redraw
                },
                MultiplayerMenuPage::ConnectionForm => {
                    self.page = if self.intent == RoomIntent::Create {
                        MultiplayerMenuPage::CreateMode
                    } else {
                        MultiplayerMenuPage::Entry
                    };
                    self.notice = String::new();
                    redraw
                },
            },
        }
    }

    /// Checks the form for a connect request and prepares it: a bad port is
    /// refused with a notice; a PVP connect writes its choices into `pvp`;
    /// a coop connect is left to the caller, which still has to check the
    /// IP address.
    pub fn plan_connect(&mut self, pvp: &mut PvpNetConfig) -> (r: ConnectPlan)
        ensures
            match trimmed_u16(old(self)@.port) {
                None => r == ConnectPlan::Rejected && final(self)@ == RoomFormView {
                    notice: port_not_number_notice(),
                    ..old(self)@
                } && final(pvp)@ == old(pvp)@,
                Some(port) => if port == 0 {
                    r == ConnectPlan::Rejected && final(self)@ == RoomFormView {
                        notice: port_zero_notice(),
                        ..old(self)@
                    } && final(pvp)@ == old(pvp)@
                } else {
                    final(self)@ == old(self)@ && match connect_mode(old(self)@, port) {
                        MultiplayerTargetMode::Coop => r == (ConnectPlan::Coop {
                            as_host_slot: old(self)@.intent == RoomIntent::Create,
                            port,
                        }) && final(pvp)@ == old(pvp)@,
                        MultiplayerTargetMode::Pvp => final(pvp)@ == pvp_connect_config(
                            old(pvp)@,
                            old(self)@,
                            port,
                        ) && r == (if old(self)@.intent == RoomIntent::Create {
                            ConnectPlan::PvpHost
                        } else {
                            ConnectPlan::PvpClient
                        }),
                    }
                },
            },
    {
        let pv = chars_of(self.port.as_str());
        let port = match parse_trimmed_u16(pv.as_slice()) {
            Some(p) => p,
            None => {
                self.notice = string_from("端口必须是 1-65535 之间的数字。");
                return ConnectPlan::Rejected;
            },
        };
        if port == 0 {
            self.notice = string_from("端口必须大于 0。");
            return ConnectPlan::Rejected;
        }
        let mode = match self.target_mode {
            Some(m) => m,
            None => if port == PVP_PORT {
                MultiplayerTargetMode::Pvp
            } else {
                MultiplayerTargetMode::Coop
            },
        };
        match mode {
            MultiplayerTargetMode::Coop => ConnectPlan::Coop {
                as_host_slot: self.intent == RoomIntent::Create,
                port,
            },
            MultiplayerTargetMode::Pvp => {
                pvp.port = port;
                pvp.nickname = clean_or_default(self.nickname.as_str(), "Player");
                pvp.room_id = clean_or_default(self.room_id.as_str(), "main");
                if self.intent == RoomIntent::Create {
                    pvp.mode = NetMode::Host;
                    ConnectPlan::PvpHost
                } else {
                    pvp.mode = NetMode::Client;
                    let t = trim_str(self.ip.as_str());
                    pvp.host_ip = string_of(t.as_slice());
                    ConnectPlan::PvpClient
                }
            },
        }
    }

    /// Refuses a coop host address that is not a plain IPv4 address.
    pub fn reject_coop_ip(&mut self)
        ensures
            final(self)@ == (RoomFormView { notice: bad_coop_ip_notice(), ..old(self)@ }),
    {
        self.notice = string_from("IP 必须是纯 IPv4 地址，例如 127.0.0.1。");
    }

    /// The line shown for a field.
    pub fn room_field_line(&self, field: RoomFormField) -> (r: String)
        ensures
            r@ == field_line(self@, field),
    {
        let mut r = if self.active_field == field {
            string_from("> ")
        } else {
            string_from("  ")
        };
        push_str(&mut r, room_field_label(field));
        push_str(&mut r, "    ");
        push_str(&mut r, self.room_form_value(field));
        r
    }

    /// The subtitle of the connection form.
    pub fn room_form_subtitle(&self) -> (r: &'static str)
        ensures
            r@ == form_subtitle(self@),
    {
        match self.intent {
            RoomIntent::Join => "加入房间：输入服务器信息后连接，端口决定协同或对抗。",
            RoomIntent::Create => match self.target_mode {
                Some(MultiplayerTargetMode::Pvp) => "创建对抗房间：本机作为对抗主机等待连接。",
                _ => "创建协同房间：请先运行 server，再以 1 号客户端连接。",
            },
        }
    }

    /// The notice under the form.
    pub fn room_form_notice(&self) -> (r: String)
        ensures
            r@ == form_notice(self@),
    {
        if self.notice.as_str().unicode_len() > 0 {
            return self.notice.clone();
        }
        string_from("点击字段后输入；Tab 切换字段；Enter 连接；Esc 返回。")
    }
}

/// Every character of every field is one that the field accepts.
pub open spec fn fields_well_typed(f: RoomFormView) -> bool {
    &&& forall|i: int| 0 <= i < f.ip.len() ==> char_allowed(RoomFormField::Ip, #[trigger] f.ip[i])
    &&& forall|i: int|
        0 <= i < f.port.len() ==> char_allowed(RoomFormField::Port, #[trigger] f.port[i])
    &&& forall|i: int|
        0 <= i < f.nickname.len() ==> char_allowed(RoomFormField::Nickname, #[trigger] f.nickname[i])
    &&& forall|i: int|
        0 <= i < f.room_id.len() ==> char_allowed(RoomFormField::RoomId, #[trigger] f.room_id[i])
}

proof fn lemma_typed_keeps_fields(f: RoomFormView, cs: Seq<char>)
    requires
        fields_well_typed(f),
    ensures
        fields_well_typed(form_chars_typed(f, cs)),
    decreases cs.len(),
{
    if cs.len() > 0 {
        lemma_typed_keeps_fields(f, cs.drop_last());
        let g = form_chars_typed(f, cs.drop_last());
        let h = form_char_pushed(g, cs.last());
        assert(fields_well_typed(h));
    }
}

/// Editing keeps every field to the characters it accepts: whatever is
/// typed, a field holds only what it allows (digits and dots for the IP,
/// digits for the port, no control characters, `:`, `/` or `\` in names).
pub proof fn law_editing_keeps_fields_well_typed(
    f: RoomFormView,
    typed: Seq<char>,
    backspace: bool,
    tab: bool,
)
    requires
        fields_well_typed(f),
    ensures
        fields_well_typed(form_edited(f, typed, backspace, tab)),
{
    lemma_typed_keeps_fields(f, typed);
    let g = form_chars_typed(f, typed);
    let v = field_value(g, g.active_field);
    assert forall|i: int| 0 <= i < popped(v).len() implies popped(v)[i] == v[i] by {}
}

/// The menu opens with well-typed fields, and no button breaks that.
pub proof fn law_menu_keeps_fields_well_typed(f: RoomFormView, action: MultiplayerMenuButton)
    requires
        fields_well_typed(f),
    ensures
        fields_well_typed(room_form_default()),
        fields_well_typed(action_applied(f, action).0),
{
    lemma_decimal_chars_are_digits(COOP_PORT as nat);
    lemma_decimal_chars_are_digits(PVP_PORT as nat);
    reveal_strlit("127.0.0.1");
    reveal_strlit("Player");
    reveal_strlit("main");
    let d = room_form_default();
    assert forall|i: int| 0 <= i < d.port.len() implies char_allowed(
        RoomFormField::Port,
        #[trigger] d.port[i],
    ) by {}
    assert(fields_well_typed(d));
}

/// Tab visits the four fields in turn and comes back to where it started.
pub proof fn law_tab_cycles_through_fields(field: RoomFormField)
    ensures
        next_field(next_field(next_field(next_field(field)))) == field,
        next_field(field) != field,
        next_field(next_field(field)) != field,
        next_field(next_field(next_field(field))) != field,
{
}

/// A cleaned name is never blank when its fallback is not, and holds at
/// most 32 characters when its fallback does; a name that is already clean
/// is kept as it is.
pub proof fn law_cleaned_names(v: Seq<char>, fallback: Seq<char>)
    ensures
        fallback.len() > 0 ==> cleaned(v, fallback).len() > 0,
        fallback.len() <= 32 ==> cleaned(v, fallback).len() <= 32,
        trimmed(v) == v && 0 < v.len() <= 32 ==> cleaned(v, fallback) == v,
{
}

/// Choosing a kind of room points the form at that kind's own server port:
/// coop at 3457, PVP at 3456, whatever the form held before; the chosen mode
/// is kept for the connection, and the connection form opens. Joining a
/// room starts from the coop port, with no mode chosen.
pub proof fn law_choosing_a_mode_sets_its_port(f: RoomFormView)
    ensures
        action_applied(f, MultiplayerMenuButton::JoinRoom).0.port == decimal_chars(3457nat),
        action_applied(f, MultiplayerMenuButton::JoinRoom).0.target_mode is None,
        action_applied(f, MultiplayerMenuButton::SelectMode(MultiplayerTargetMode::Coop)).0.port
            == decimal_chars(3457nat),
        action_applied(f, MultiplayerMenuButton::SelectMode(MultiplayerTargetMode::Pvp)).0.port
            == decimal_chars(3456nat),
        forall|m: MultiplayerTargetMode|
            #![trigger action_applied(f, MultiplayerMenuButton::SelectMode(m))]
            action_applied(f, MultiplayerMenuButton::SelectMode(m)).0.target_mode == Some(m)
                && action_applied(f, MultiplayerMenuButton::SelectMode(m)).0.page
                == MultiplayerMenuPage::ConnectionForm,
{
}

} // verus!
