use block_city_adventure::pvp_net::{NetMode, PvpNetConfig};
use block_city_adventure::room_form::{
    choose_menu_action, clean_or_default, room_field_label, ConnectPlan, MenuOutcome,
    MultiplayerMenuButton, MultiplayerMenuPage, MultiplayerRoomForm, MultiplayerTargetMode,
    RoomFormField, RoomIntent, COOP_PORT,
};

fn chars(s: &str) -> Vec<char> {
    s.chars().collect()
}

#[test]
fn menu_opens_on_the_entry_page() {
    let f = MultiplayerRoomForm::default();
    assert_eq!(f.page, MultiplayerMenuPage::Entry);
    assert_eq!(f.intent, RoomIntent::Join);
    assert_eq!(f.target_mode, None);
    assert_eq!(f.active_field, RoomFormField::Ip);
    assert_eq!(f.ip, "127.0.0.1");
    assert_eq!(f.port, "3457");
    assert_eq!(f.nickname, "Player");
    assert_eq!(f.room_id, "main");
    assert_eq!(f.notice, "");
    assert_eq!(COOP_PORT, 3457);
}

#[test]
fn fields_accept_only_their_characters() {
    let mut f = MultiplayerRoomForm::default();
    f.edit_room_form(&chars(".2a:"), false, false);
    assert_eq!(f.ip, "127.0.0.1.2");
    f.active_field = RoomFormField::Port;
    f.edit_room_form(&chars("x9."), false, false);
    assert_eq!(f.port, "34579");
    f.active_field = RoomFormField::Nickname;
    f.edit_room_form(&chars("小明:/\\\n!"), false, false);
    assert_eq!(f.nickname, "Player小明!");
    f.active_field = RoomFormField::RoomId;
    f.edit_room_form(&chars("\u{7f}2"), false, false);
    assert_eq!(f.room_id, "main2");
}

#[test]
fn fields_stop_at_sixty_four_bytes() {
    let mut f = MultiplayerRoomForm::default();
    f.active_field = RoomFormField::Nickname;
    f.nickname = "a".repeat(63);
    f.edit_room_form(&chars("字b"), false, false);
    assert_eq!(f.nickname, format!("{}字", "a".repeat(63)));
    assert_eq!(f.nickname.len(), 66);
}

#[test]
fn backspace_and_tab() {
    let mut f = MultiplayerRoomForm::default();
    f.edit_room_form(&chars("5"), true, true);
    assert_eq!(f.ip, "127.0.0.1");
    assert_eq!(f.active_field, RoomFormField::Port);
    f.edit_room_form(&vec![], false, true);
    assert_eq!(f.active_field, RoomFormField::Nickname);
    f.edit_room_form(&vec![], false, true);
    assert_eq!(f.active_field, RoomFormField::RoomId);
    f.edit_room_form(&vec![], false, true);
    assert_eq!(f.active_field, RoomFormField::Ip);
    f.ip.clear();
    f.edit_room_form(&vec![], true, false);
    assert_eq!(f.ip, "");
    assert_eq!(RoomFormField::RoomId.next(), RoomFormField::Ip);
}

#[test]
fn buttons_move_between_pages() {
    let mut f = MultiplayerRoomForm::default();
    let redraw = MenuOutcome { rerender: true, to_main_menu: false, connect: false };
    assert_eq!(f.apply_action(MultiplayerMenuButton::CreateRoom), redraw);
    assert_eq!(f.page, MultiplayerMenuPage::CreateMode);
    assert_eq!(f.intent, RoomIntent::Create);
    assert_eq!(f.apply_action(MultiplayerMenuButton::SelectMode(MultiplayerTargetMode::Pvp)), redraw);
    assert_eq!(f.page, MultiplayerMenuPage::ConnectionForm);
    assert_eq!(f.target_mode, Some(MultiplayerTargetMode::Pvp));
    assert_eq!(f.port, "3456");
    assert_eq!(f.apply_action(MultiplayerMenuButton::SelectField(RoomFormField::RoomId)), redraw);
    assert_eq!(f.active_field, RoomFormField::RoomId);
    assert_eq!(
        f.apply_action(MultiplayerMenuButton::Connect),
        MenuOutcome { rerender: false, to_main_menu: false, connect: true }
    );
    assert_eq!(f.apply_action(MultiplayerMenuButton::Back), redraw);
    assert_eq!(f.page, MultiplayerMenuPage::CreateMode);
    assert_eq!(f.apply_action(MultiplayerMenuButton::Back), redraw);
    assert_eq!(f.page, MultiplayerMenuPage::Entry);
    assert_eq!(
        f.apply_action(MultiplayerMenuButton::Back),
        MenuOutcome { rerender: false, to_main_menu: true, connect: false }
    );
    assert_eq!(f.apply_action(MultiplayerMenuButton::JoinRoom), redraw);
    assert_eq!(f.page, MultiplayerMenuPage::ConnectionForm);
    assert_eq!(f.port, "3457");
    assert_eq!(f.notice, "加入房间：端口 3457 连接协同，端口 3456 连接对抗。");
    assert_eq!(f.apply_action(MultiplayerMenuButton::Back), redraw);
    assert_eq!(f.page, MultiplayerMenuPage::Entry);
    assert_eq!(f.notice, "");
}

#[test]
fn keys_choose_back_and_connect() {
    let pressed = Some(MultiplayerMenuButton::CreateRoom);
    assert_eq!(choose_menu_action(pressed, false, false, MultiplayerMenuPage::Entry), pressed);
    assert_eq!(
        choose_menu_action(pressed, true, false, MultiplayerMenuPage::Entry),
        Some(MultiplayerMenuButton::Back)
    );
    assert_eq!(choose_menu_action(None, false, true, MultiplayerMenuPage::Entry), None);
    assert_eq!(
        choose_menu_action(None, true, true, MultiplayerMenuPage::ConnectionForm),
        Some(MultiplayerMenuButton::Connect)
    );
}

#[test]
fn connect_refuses_bad_ports() {
    let mut f = MultiplayerRoomForm::default();
    let mut pvp = PvpNetConfig::default();
    f.port = "abc".to_string();
    assert_eq!(f.plan_connect(&mut pvp), ConnectPlan::Rejected);
    assert_eq!(f.notice, "端口必须是 1-65535 之间的数字。");
    f.port = "65536".to_string();
    assert_eq!(f.plan_connect(&mut pvp), ConnectPlan::Rejected);
    f.port = " 0 ".to_string();
    assert_eq!(f.plan_connect(&mut pvp), ConnectPlan::Rejected);
    assert_eq!(f.notice, "端口必须大于 0。");
    assert_eq!(pvp.mode, NetMode::Unset);
}

#[test]
fn connect_picks_the_game_by_mode_or_port() {
    let mut pvp = PvpNetConfig::default();
    let mut join = MultiplayerRoomForm::default();
    assert_eq!(join.plan_connect(&mut pvp), ConnectPlan::Coop { as_host_slot: false, port: 3457 });
    assert_eq!(pvp.mode, NetMode::Unset);

    join.port = "3456".to_string();
    join.ip = "  10.0.0.8 ".to_string();
    join.nickname = "   ".to_string();
    join.room_id = " r".repeat(20);
    assert_eq!(join.plan_connect(&mut pvp), ConnectPlan::PvpClient);
    assert_eq!(pvp.mode, NetMode::Client);
    assert_eq!(pvp.host_ip, "10.0.0.8");
    assert_eq!(pvp.port, 3456);
    assert_eq!(pvp.nickname, "Player");
    assert_eq!(pvp.room_id, "r r r r r r r r r r r r r r r r ");
    assert_eq!(pvp.room_id.chars().count(), 32);

    let mut create = MultiplayerRoomForm::default();
    create.apply_action(MultiplayerMenuButton::CreateRoom);
    create.apply_action(MultiplayerMenuButton::SelectMode(MultiplayerTargetMode::Pvp));
    create.port = "4000".to_string();
    let mut p2 = PvpNetConfig::default();
    assert_eq!(create.plan_connect(&mut p2), ConnectPlan::PvpHost);
    assert_eq!(p2.mode, NetMode::Host);
    assert_eq!(p2.port, 4000);
    assert_eq!(p2.host_ip, "");

    let mut coop = MultiplayerRoomForm::default();
    coop.apply_action(MultiplayerMenuButton::CreateRoom);
    coop.apply_action(MultiplayerMenuButton::SelectMode(MultiplayerTargetMode::Coop));
    coop.port = "3456".to_string();
    assert_eq!(coop.plan_connect(&mut p2), ConnectPlan::Coop { as_host_slot: true, port: 3456 });
    coop.reject_coop_ip();
    assert_eq!(coop.notice, "IP 必须是纯 IPv4 地址，例如 127.0.0.1。");
}

#[test]
fn names_are_cleaned() {
    assert_eq!(clean_or_default("  Alice  ", "Player"), "Alice");
    assert_eq!(clean_or_default(" \t ", "Player"), "Player");
    assert_eq!(clean_or_default(&"长".repeat(40), "Player"), "长".repeat(32));
}

#[test]
fn field_lines_labels_and_texts() {
    let mut f = MultiplayerRoomForm::default();
    assert_eq!(f.room_field_line(RoomFormField::Ip), "> IP    127.0.0.1");
    assert_eq!(f.room_field_line(RoomFormField::Port), "  端口    3457");
    assert_eq!(room_field_label(RoomFormField::Nickname), "昵称");
    assert_eq!(room_field_label(RoomFormField::RoomId), "房间");
    assert_eq!(f.room_form_value(RoomFormField::RoomId), "main");
    assert_eq!(f.room_form_subtitle(), "加入房间：输入服务器信息后连接，端口决定协同或对抗。");
    assert_eq!(f.room_form_notice(), "点击字段后输入；Tab 切换字段；Enter 连接；Esc 返回。");
    f.intent = RoomIntent::Create;
    assert_eq!(f.room_form_subtitle(), "创建协同房间：请先运行 server，再以 1 号客户端连接。");
    f.target_mode = Some(MultiplayerTargetMode::Pvp);
    assert_eq!(f.room_form_subtitle(), "创建对抗房间：本机作为对抗主机等待连接。");
    f.notice = "x".to_string();
    assert_eq!(f.room_form_notice(), "x");
}
