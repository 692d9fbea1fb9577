use block_city_adventure::local_debug::{
    apply_net_mode_token, apply_server_binary_name_default, apply_server_stem_default,
    cli_from_args, cli_from_stem_and_args, configure_pvp_boot, flag_value_on, is_named_binary,
    next_arg_value, parse_net_mode, parse_net_role, parse_window_pos, plan_auto_boot,
    plan_debug_window, stem_is, AutoBootPlan, CliNetBootConfig, LocalBootAction,
    LocalNetDebugConfig, LocalNetDebugEnv, LocalNetDebugMode, LocalNetDebugRole,
    LocalNetDebugRuntime,
};
use block_city_adventure::pvp_net::{NetMode, PvpNetConfig};

fn args(list: &[&str]) -> Vec<String> {
    list.iter().map(|s| s.to_string()).collect()
}

#[test]
fn server_host_and_client_roles_are_distinct() {
    assert_eq!(parse_net_role("server"), Some(LocalNetDebugRole::Server));
    assert_eq!(parse_net_role("host"), Some(LocalNetDebugRole::Host));
    assert_eq!(parse_net_role("client"), Some(LocalNetDebugRole::Client));
}

#[test]
fn generic_net_mode_token_sets_mode_and_role() {
    let mut config = CliNetBootConfig::default();

    apply_net_mode_token(&mut config, "coop-server");

    assert_eq!(config.mode, Some(LocalNetDebugMode::Coop));
    assert_eq!(config.role, Some(LocalNetDebugRole::Server));
}

#[test]
fn server_binary_boots_dedicated_server() {
    let mut server = CliNetBootConfig::default();
    apply_server_binary_name_default(&mut server, "target/debug/server.exe");
    assert_eq!(server.mode, Some(LocalNetDebugMode::Coop));
    assert_eq!(server.role, Some(LocalNetDebugRole::Server));
}

#[test]
fn client_binary_does_not_auto_join_without_address() {
    let mut client = CliNetBootConfig::default();
    apply_server_binary_name_default(&mut client, "target/debug/client.exe");
    assert_eq!(client.mode, None);
    assert_eq!(client.role, None);
    assert!(!client.enabled);
}

#[test]
fn window_position_uses_comma_separated_coordinates() {
    assert_eq!(parse_window_pos("40,980"), Some((40, 980)));
    assert_eq!(parse_window_pos("bad"), None);
}

#[test]
fn window_position_trims_and_accepts_signs() {
    assert_eq!(parse_window_pos(" -40 , +980 "), Some((-40, 980)));
    assert_eq!(parse_window_pos("1,2,3"), None);
    assert_eq!(parse_window_pos("1,"), None);
    assert_eq!(parse_window_pos("-2147483648,2147483647"), Some((i32::MIN, i32::MAX)));
    assert_eq!(parse_window_pos("2147483648,0"), None);
}

#[test]
fn net_mode_tokens_ignore_case_and_spaces() {
    assert_eq!(parse_net_mode(" Co-Op "), Some(LocalNetDebugMode::Coop));
    assert_eq!(parse_net_mode("COOP"), Some(LocalNetDebugMode::Coop));
    assert_eq!(parse_net_mode("pvp\t"), Some(LocalNetDebugMode::Pvp));
    assert_eq!(parse_net_mode("versus"), None);
    assert_eq!(parse_net_role("\u{3000}HOST"), Some(LocalNetDebugRole::Host));
    assert_eq!(parse_net_role("guest"), None);
}

#[test]
fn combined_tokens_split_at_colon_dash_or_slash() {
    let mut config = CliNetBootConfig::default();
    apply_net_mode_token(&mut config, " PVP:Client ");
    assert_eq!(config.mode, Some(LocalNetDebugMode::Pvp));
    assert_eq!(config.role, Some(LocalNetDebugRole::Client));

    apply_net_mode_token(&mut config, "coop/host");
    assert_eq!(config.mode, Some(LocalNetDebugMode::Coop));
    assert_eq!(config.role, Some(LocalNetDebugRole::Host));

    // "co-op" splits at its dash: "co" names no mode and "op" no role.
    apply_net_mode_token(&mut config, "co-op");
    assert_eq!(config.mode, Some(LocalNetDebugMode::Coop));
    assert_eq!(config.role, Some(LocalNetDebugRole::Host));

    let mut fresh = CliNetBootConfig::default();
    apply_net_mode_token(&mut fresh, "pvp");
    assert_eq!(fresh.mode, Some(LocalNetDebugMode::Pvp));
    assert_eq!(fresh.role, None);
}

#[test]
fn binary_names_are_matched_by_stem_ignoring_case() {
    assert!(stem_is("Server", "server"));
    assert!(!stem_is("server2", "server"));
    assert!(is_named_binary("target/release/SERVER.exe", "server"));
    assert!(is_named_binary("client", "client"));
    assert!(!is_named_binary("target/release/block-city", "client"));
    let mut c = CliNetBootConfig::default();
    apply_server_stem_default(&mut c, "sErVeR");
    assert!(c.enabled);
    assert_eq!(c.mode, Some(LocalNetDebugMode::Coop));
}

#[test]
fn next_arg_value_skips_options() {
    let a = args(&["--host", "10.0.0.2", "--port"]);
    let mut i = 0;
    assert_eq!(next_arg_value(&a, &mut i), Some("10.0.0.2".to_string()));
    assert_eq!(i, 1);
    let b = args(&["--host", "--port", "1"]);
    let mut j = 0;
    assert_eq!(next_arg_value(&b, &mut j), None);
    assert_eq!(j, 0);
    let mut k = 2;
    assert_eq!(next_arg_value(&a, &mut k), None);
    assert_eq!(k, 2);
}

#[test]
fn client_binary_takes_a_bare_address_and_client_id() {
    let c = cli_from_stem_and_args("client", &args(&["127.0.0.1", "--client-id", "2"]));
    assert!(c.enabled);
    assert_eq!(c.mode, Some(LocalNetDebugMode::Coop));
    assert_eq!(c.role, Some(LocalNetDebugRole::Client));
    assert_eq!(c.host_ip.as_deref(), Some("127.0.0.1"));
    assert_eq!(c.client_id, Some(2));

    let real = cli_from_args("target/debug/client.exe", &args(&["10.1.2.3"]));
    assert_eq!(real.host_ip.as_deref(), Some("10.1.2.3"));
    assert_eq!(real.role, Some(LocalNetDebugRole::Client));
}

#[test]
fn client_binary_without_address_stays_off() {
    let c = cli_from_stem_and_args("client", &args(&[]));
    assert!(!c.enabled);
    assert_eq!(c.mode, None);
    let other = cli_from_stem_and_args("game", &args(&["127.0.0.1"]));
    assert!(!other.enabled);
    assert_eq!(other.host_ip, None);
}

#[test]
fn server_binary_accepts_port_and_window() {
    let c = cli_from_stem_and_args("server", &args(&["--port", " 4000 ", "--window-pos", "40,40"]));
    assert!(c.enabled);
    assert_eq!(c.mode, Some(LocalNetDebugMode::Coop));
    assert_eq!(c.role, Some(LocalNetDebugRole::Server));
    assert_eq!(c.port, Some(4000));
    assert_eq!(c.window_pos, Some((40, 40)));
}

#[test]
fn generic_form_with_separate_role_and_host() {
    let c = cli_from_stem_and_args(
        "game",
        &args(&["--net", "coop", "--role", "client", "--host", "192.168.0.9", "--client-id", "1"]),
    );
    assert!(c.enabled);
    assert_eq!(c.mode, Some(LocalNetDebugMode::Coop));
    assert_eq!(c.role, Some(LocalNetDebugRole::Client));
    assert_eq!(c.host_ip.as_deref(), Some("192.168.0.9"));
    assert_eq!(c.client_id, Some(1));
}

#[test]
fn later_arguments_override_earlier_ones() {
    let c = cli_from_stem_and_args("game", &args(&["--pvp-server", "--coop-client", "1.2.3.4"]));
    assert_eq!(c.mode, Some(LocalNetDebugMode::Coop));
    assert_eq!(c.role, Some(LocalNetDebugRole::Client));
    assert_eq!(c.host_ip.as_deref(), Some("1.2.3.4"));
}

#[test]
fn bad_values_clear_or_are_consumed() {
    let c = cli_from_stem_and_args(
        "game",
        &args(&["--port", "70000", "--client-id", "x", "--role", "boss", "--save-suffix", "  "]),
    );
    assert!(c.enabled);
    assert_eq!(c.port, None);
    assert_eq!(c.client_id, None);
    assert_eq!(c.role, None);
    assert_eq!(c.save_suffix, None);
    let missing = cli_from_stem_and_args("game", &args(&["--host", "--pvp-host"]));
    assert!(missing.enabled);
    assert_eq!(missing.host_ip, None);
    assert_eq!(missing.mode, Some(LocalNetDebugMode::Pvp));
    assert_eq!(missing.role, Some(LocalNetDebugRole::Host));
}

#[test]
fn save_suffix_and_window_pos_flags_do_not_enable() {
    let c = cli_from_stem_and_args("game", &args(&["--save-suffix", "a", "--window-pos", "1,2"]));
    assert!(!c.enabled);
    assert_eq!(c.save_suffix.as_deref(), Some("a"));
    assert_eq!(c.window_pos, Some((1, 2)));
}

#[test]
fn flags_are_on_unless_blank_zero_or_false() {
    assert!(!flag_value_on(&None));
    assert!(!flag_value_on(&Some("".to_string())));
    assert!(!flag_value_on(&Some("  ".to_string())));
    assert!(!flag_value_on(&Some("0".to_string())));
    assert!(!flag_value_on(&Some(" FaLsE ".to_string())));
    assert!(flag_value_on(&Some("1".to_string())));
    assert!(flag_value_on(&Some("yes".to_string())));
    assert!(flag_value_on(&Some("00".to_string())));
}

#[test]
fn default_config_is_off_on_loopback() {
    let d = LocalNetDebugConfig::default();
    assert!(!d.enabled);
    assert_eq!(d.host_ip, "127.0.0.1");
    assert_eq!(d.client_id, 0);
    assert_eq!(d.save_filename(), None);
}

#[test]
fn resolve_fills_defaults_from_mode_and_role() {
    let cli = cli_from_stem_and_args("game", &args(&["--pvp-client", "10.0.0.5"]));
    let env = LocalNetDebugEnv::default();
    let c = LocalNetDebugConfig::resolve(&cli, &env);
    assert!(c.enabled);
    assert_eq!(c.mode, Some(LocalNetDebugMode::Pvp));
    assert_eq!(c.role, Some(LocalNetDebugRole::Client));
    assert_eq!(c.host_ip, "10.0.0.5");
    assert_eq!(c.client_id, 0);
    assert_eq!(c.port, None);
    assert_eq!(c.save_suffix.as_deref(), Some("pvp_client"));
    assert_eq!(c.title_suffix.as_deref(), Some("[PVP Client]"));
    assert_eq!(c.window_pos, None);
    assert_eq!(c.save_filename().as_deref(), Some("run_save_debug_pvp_client.ron"));
}

#[test]
fn resolve_uses_environment_when_command_line_is_silent() {
    let cli = CliNetBootConfig::default();
    let env = LocalNetDebugEnv {
        debug: Some("1".to_string()),
        mode: Some("coop".to_string()),
        role: Some("client".to_string()),
        host: Some("10.9.8.7".to_string()),
        client_id: Some(" 2 ".to_string()),
        port: Some("3457".to_string()),
        save_suffix: Some("p2".to_string()),
    };
    let c = LocalNetDebugConfig::resolve(&cli, &env);
    assert!(c.enabled);
    assert_eq!(c.mode, Some(LocalNetDebugMode::Coop));
    assert_eq!(c.role, Some(LocalNetDebugRole::Client));
    assert_eq!(c.host_ip, "10.9.8.7");
    assert_eq!(c.client_id, 2);
    assert_eq!(c.port, Some(3457));
    assert_eq!(c.save_suffix.as_deref(), Some("p2"));
    assert_eq!(c.title_suffix.as_deref(), Some("[Coop Client]"));
    assert_eq!(c.window_pos, Some((980, 40)));
}

#[test]
fn resolve_prefers_the_command_line() {
    let cli = cli_from_stem_and_args(
        "game",
        &args(&["--coop-host", "--save-suffix", "cli", "--window-pos", "5,6"]),
    );
    let env = LocalNetDebugEnv {
        debug: Some("true".to_string()),
        mode: Some("pvp".to_string()),
        role: Some("client".to_string()),
        save_suffix: Some("   ".to_string()),
        ..LocalNetDebugEnv::default()
    };
    let c = LocalNetDebugConfig::resolve(&cli, &env);
    assert_eq!(c.mode, Some(LocalNetDebugMode::Coop));
    assert_eq!(c.role, Some(LocalNetDebugRole::Host));
    assert_eq!(c.save_suffix.as_deref(), Some("cli"));
    assert_eq!(c.window_pos, Some((5, 6)));
    assert_eq!(c.title_suffix.as_deref(), Some("[Coop Host]"));
}

#[test]
fn resolve_without_role_boots_nothing() {
    let cli = cli_from_stem_and_args("game", &args(&["--net", "pvp"]));
    let c = LocalNetDebugConfig::resolve(&cli, &LocalNetDebugEnv::default());
    assert!(!c.enabled);
    assert_eq!(c.mode, None);
    assert_eq!(c.host_ip, "127.0.0.1");
    let server = cli_from_stem_and_args("server", &args(&[]));
    let d = LocalNetDebugConfig::resolve(
        &server,
        &LocalNetDebugEnv { debug: Some("1".to_string()), ..LocalNetDebugEnv::default() },
    );
    assert_eq!(d.save_suffix.as_deref(), Some("coop_server"));
    assert_eq!(d.window_pos, Some((40, 40)));
}

#[test]
fn debug_window_is_placed_once() {
    let cli = cli_from_stem_and_args("game", &args(&["--pvp-server", "--window-pos", "980,560"]));
    let config = LocalNetDebugConfig::resolve(&cli, &LocalNetDebugEnv::default());
    let mut runtime = LocalNetDebugRuntime::default();
    assert!(plan_debug_window(&config, &mut runtime, None).is_none());
    assert!(!runtime.window_applied);
    let plan = plan_debug_window(&config, &mut runtime, Some("勇闯方块城")).unwrap();
    assert_eq!(plan.title.as_deref(), Some("勇闯方块城 [PVP Server]"));
    assert_eq!(plan.position, Some((980, 560)));
    assert!(runtime.window_applied);
    assert!(plan_debug_window(&config, &mut runtime, Some("勇闯方块城")).is_none());

    let mut fresh = LocalNetDebugRuntime::default();
    let same = plan_debug_window(&config, &mut fresh, Some("x [PVP Server] y")).unwrap();
    assert_eq!(same.title, None);

    let off = LocalNetDebugConfig::default();
    let mut r = LocalNetDebugRuntime::default();
    assert!(plan_debug_window(&off, &mut r, Some("t")).is_none());
}

#[test]
fn auto_boot_plans_follow_mode_and_role() {
    let mut runtime = LocalNetDebugRuntime::default();
    let coop_client = LocalNetDebugConfig::resolve(
        &cli_from_stem_and_args("client", &args(&["127.0.0.1"])),
        &LocalNetDebugEnv::default(),
    );
    assert_eq!(plan_auto_boot(&coop_client, &runtime, false), AutoBootPlan::Idle);
    assert_eq!(
        plan_auto_boot(&coop_client, &runtime, true),
        AutoBootPlan::Boot(LocalBootAction::CoopClient { client_id: None })
    );
    let with_id = LocalNetDebugConfig::resolve(
        &cli_from_stem_and_args("client", &args(&["127.0.0.1", "--client-id", "2"])),
        &LocalNetDebugEnv::default(),
    );
    assert_eq!(
        plan_auto_boot(&with_id, &runtime, true),
        AutoBootPlan::Boot(LocalBootAction::CoopClient { client_id: Some(2) })
    );
    let server = LocalNetDebugConfig::resolve(
        &cli_from_stem_and_args("server", &args(&[])),
        &LocalNetDebugEnv::default(),
    );
    assert_eq!(plan_auto_boot(&server, &runtime, true), AutoBootPlan::Boot(LocalBootAction::CoopServer));
    runtime.record_boot(false);
    assert!(!runtime.bootstrapped);
    runtime.record_boot(true);
    assert!(runtime.bootstrapped);
    assert_eq!(plan_auto_boot(&server, &runtime, true), AutoBootPlan::Idle);

    let mut broken = server.clone();
    broken.role = None;
    assert_eq!(plan_auto_boot(&broken, &LocalNetDebugRuntime::default(), true), AutoBootPlan::ResetOnly);
    assert_eq!(plan_auto_boot(&LocalNetDebugConfig::default(), &LocalNetDebugRuntime::default(), true), AutoBootPlan::Idle);
}

#[test]
fn pvp_boot_writes_mode_port_and_host() {
    let config = LocalNetDebugConfig::resolve(
        &cli_from_stem_and_args("game", &args(&["--pvp-client", "10.0.0.7", "--port", "4000"])),
        &LocalNetDebugEnv::default(),
    );
    let mut pvp = PvpNetConfig::default();
    configure_pvp_boot(&mut pvp, &config, LocalBootAction::PvpClient);
    assert_eq!(pvp.mode, NetMode::Client);
    assert_eq!(pvp.host_ip, "10.0.0.7");
    assert_eq!(pvp.port, 4000);

    let server = LocalNetDebugConfig::resolve(
        &cli_from_stem_and_args("game", &args(&["--pvp-server"])),
        &LocalNetDebugEnv::default(),
    );
    let mut p2 = PvpNetConfig::default();
    configure_pvp_boot(&mut p2, &server, LocalBootAction::PvpServer);
    assert_eq!(p2.mode, NetMode::Server);
    assert_eq!(p2.port, 3456);
    assert_eq!(p2.host_ip, "");

    let mut p3 = PvpNetConfig::default();
    configure_pvp_boot(&mut p3, &server, LocalBootAction::CoopHost);
    assert_eq!(p3.mode, NetMode::Unset);
}

#[test]
fn role_and_mode_labels() {
    assert_eq!(LocalNetDebugRole::Server.label(), "Server");
    assert_eq!(LocalNetDebugRole::Host.label(), "Host");
    assert_eq!(LocalNetDebugRole::Client.label(), "Client");
    assert_eq!(LocalNetDebugMode::Coop.label(), "Coop");
    assert_eq!(LocalNetDebugMode::Pvp.label(), "PVP");
}

#[test]
fn documented_command_lines() {
    let s = cli_from_stem_and_args("game", &args(&["--coop-server", "--window-pos", "40,40"]));
    assert_eq!((s.mode, s.role, s.window_pos), (Some(LocalNetDebugMode::Coop), Some(LocalNetDebugRole::Server), Some((40, 40))));

    let c = cli_from_stem_and_args(
        "game",
        &args(&["--coop-client", "127.0.0.1", "--client-id", "2", "--window-pos", "980,560"]),
    );
    assert_eq!(c.role, Some(LocalNetDebugRole::Client));
    assert_eq!(c.host_ip.as_deref(), Some("127.0.0.1"));
    assert_eq!(c.client_id, Some(2));
    assert_eq!(c.window_pos, Some((980, 560)));

    let p = cli_from_stem_and_args("game", &args(&["--pvp-client", "127.0.0.1"]));
    assert_eq!((p.mode, p.role), (Some(LocalNetDebugMode::Pvp), Some(LocalNetDebugRole::Client)));

    let n = cli_from_stem_and_args("game", &args(&["--net", "pvp-client", "--host", "127.0.0.1"]));
    assert_eq!((n.mode, n.role), (Some(LocalNetDebugMode::Pvp), Some(LocalNetDebugRole::Client)));
    assert_eq!(n.host_ip.as_deref(), Some("127.0.0.1"));

    let h = cli_from_stem_and_args("game", &args(&["--net", "coop", "--role", "host"]));
    assert_eq!((h.mode, h.role), (Some(LocalNetDebugMode::Coop), Some(LocalNetDebugRole::Host)));

    let d = cli_from_stem_and_args("server", &args(&["--coop-server", "--port", "3457"]));
    assert_eq!((d.mode, d.role, d.port), (Some(LocalNetDebugMode::Coop), Some(LocalNetDebugRole::Server), Some(3457)));
}

#[test]
fn documented_environment_workflow() {
    let env = LocalNetDebugEnv {
        debug: Some("1".to_string()),
        mode: Some("coop".to_string()),
        role: Some("server".to_string()),
        ..LocalNetDebugEnv::default()
    };
    let c = LocalNetDebugConfig::resolve(&CliNetBootConfig::default(), &env);
    assert!(c.enabled);
    assert_eq!(c.mode, Some(LocalNetDebugMode::Coop));
    assert_eq!(c.role, Some(LocalNetDebugRole::Server));
    assert_eq!(c.save_filename().as_deref(), Some("run_save_debug_coop_server.ron"));
    assert_eq!(plan_auto_boot(&c, &LocalNetDebugRuntime::default(), true), AutoBootPlan::Boot(LocalBootAction::CoopServer));
}

#[test]
fn incomplete_boot_requests_are_flagged() {
    let env = LocalNetDebugEnv::default();
    let role_only = cli_from_stem_and_args("game", &args(&["--role", "host"]));
    assert!(LocalNetDebugConfig::boot_incomplete(&role_only, &env));
    assert!(!LocalNetDebugConfig::resolve(&role_only, &env).enabled);
    let nothing = cli_from_stem_and_args("game", &args(&[]));
    assert!(!LocalNetDebugConfig::boot_incomplete(&nothing, &env));
    let full = cli_from_stem_and_args("game", &args(&["--pvp-host"]));
    assert!(!LocalNetDebugConfig::boot_incomplete(&full, &env));
    let debug_only = LocalNetDebugEnv { debug: Some("1".to_string()), ..LocalNetDebugEnv::default() };
    assert!(LocalNetDebugConfig::boot_incomplete(&nothing, &debug_only));
}
