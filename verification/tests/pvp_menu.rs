use block_city_adventure::pvp_menu::{
    lobby_status, pvp_menu_step, result_title, PvpJoinIp, PvpMenuAction, PvpMenuKeys,
};
use block_city_adventure::pvp_net::{NetMode, PeerAddr, PvpMsg, PvpNetConfig, PvpNetState, PvpPhase};

fn keys(escape: bool, host: bool, join: bool, backspace: bool) -> PvpMenuKeys {
    PvpMenuKeys { escape, host, join, backspace }
}

fn chars(s: &str) -> Vec<char> {
    s.chars().collect()
}

#[test]
fn quick_join_types_an_address_and_joins() {
    let mut ip = PvpJoinIp::default();
    let mut config = PvpNetConfig::default();
    let mut net = PvpNetState::new_session(None);
    let a = pvp_menu_step(&mut ip, &mut config, &mut net, keys(false, false, false, false), &chars("10.a0:1 "));
    assert_eq!(a, PvpMenuAction::Stay);
    assert_eq!(ip.ip, "10.0:1");
    assert_eq!(ip.label(), "房主IP：10.0:1");
    let b = pvp_menu_step(&mut ip, &mut config, &mut net, keys(false, false, true, true), &vec![]);
    assert_eq!(b, PvpMenuAction::Join);
    assert_eq!(ip.ip, "10.0:");
    assert_eq!(config.mode, NetMode::Client);
    assert_eq!(config.host_ip, "10.0:");
}

#[test]
fn quick_join_needs_an_address() {
    let mut ip = PvpJoinIp::default();
    let mut config = PvpNetConfig::default();
    let mut net = PvpNetState::new_session(None);
    assert_eq!(pvp_menu_step(&mut ip, &mut config, &mut net, keys(false, false, true, false), &vec![]), PvpMenuAction::Stay);
    assert_eq!(config.mode, NetMode::Unset);
}

#[test]
fn quick_join_limits_the_address_to_sixty_four_bytes() {
    let mut ip = PvpJoinIp { ip: "1".repeat(63) };
    let mut config = PvpNetConfig::default();
    let mut net = PvpNetState::new_session(None);
    pvp_menu_step(&mut ip, &mut config, &mut net, keys(false, false, false, false), &chars("234"));
    assert_eq!(ip.ip, format!("{}2", "1".repeat(63)));
}

#[test]
fn quick_join_host_and_escape() {
    let mut ip = PvpJoinIp::default();
    let mut config = PvpNetConfig::default();
    let mut net = PvpNetState::new_session(None);
    assert_eq!(pvp_menu_step(&mut ip, &mut config, &mut net, keys(false, true, true, false), &chars("1")), PvpMenuAction::StartHost);
    assert_eq!(config.mode, NetMode::Host);
    assert_eq!(ip.ip, "");
    net.begin_session(Some(1));
    net.tick(NetMode::Host, PvpPhase::Lobby, 1, &vec![(PeerAddr::V4 { ip4: 1, port: 2 }, PvpMsg::Hello)]);
    assert!(net.connected);
    assert_eq!(pvp_menu_step(&mut ip, &mut config, &mut net, keys(true, true, true, false), &chars("1")), PvpMenuAction::Leave);
    assert_eq!(config.mode, NetMode::Unset);
    assert!(!net.connected);
    assert_eq!(net.peer, None);
}

#[test]
fn lobby_status_lines() {
    let mut c = PvpNetConfig::default();
    assert_eq!(lobby_status(&c, false, ""), "尚未选择模式");
    c.mode = NetMode::Host;
    assert_eq!(lobby_status(&c, false, ""), "房主已启动，等待客户端连接（端口 3456，房间 main）");
    assert_eq!(lobby_status(&c, true, "10.0.0.2:5000"), "已连接：客户端 10.0.0.2:5000");
    c.mode = NetMode::Client;
    c.host_ip = "10.0.0.1".to_string();
    c.port = 80;
    assert_eq!(lobby_status(&c, false, ""), "正在连接：10.0.0.1:80，如断开会自动重试");
    assert_eq!(lobby_status(&c, true, ""), "已连接到服务器：10.0.0.1:80");
    c.mode = NetMode::Server;
    c.port = 0;
    assert_eq!(lobby_status(&c, false, ""), "PVP 服务器等待两个客户端连接（端口 0）");
    assert_eq!(lobby_status(&c, true, ""), "PVP 服务器已开始对战（端口 0）");
}

#[test]
fn result_titles() {
    assert_eq!(result_title(Some(1)), "P1 获胜！");
    assert_eq!(result_title(Some(2)), "P2 获胜！");
    assert_eq!(result_title(Some(3)), "对局结束");
    assert_eq!(result_title(None), "对局结束");
}
