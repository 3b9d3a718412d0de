use zapret_rust::actions::{Effect, HostFacts, Key};
use zapret_rust::config::{validate_config, format_config, load_active_fakes, parse_config, save_active_fakes, save_tui_state, RunConfig};
use zapret_rust::ipset::{apply_ipset_mode, determine_current_mode, get_available_modes, IpsetFiles, IpsetMode};
use zapret_rust::menus::{ActiveScreen, MainMenuState, VersionTarget};
use zapret_rust::state::AppState;

fn strings(v: &[&str]) -> Vec<String> {
    v.iter().map(|s| s.to_string()).collect()
}

#[test]
fn config_written_reads_back() {
    let cfg = RunConfig {
        interface: "eth0".into(),
        strategy: "general (ALT).bat".into(),
        gamefilter_tcp: true,
        gamefilter_udp: false,
        backend: "iptables".into(),
        active_discord_fake: "a.bin".into(),
        active_gamefilter_fake: "b.bin".into(),
    };
    let text = format_config(&cfg);
    assert_eq!(
        text,
        "interface=eth0\nstrategy=general (ALT).bat\ngamefiltertcp=true\ngamefilterudp=false\nbackend=iptables\nactive_discord_fake=a.bin\nactive_gamefilter_fake=b.bin\n"
    );
    let back = parse_config(&text);
    assert_eq!(back.interface, cfg.interface);
    assert_eq!(back.strategy, cfg.strategy);
    assert_eq!(back.gamefilter_tcp, cfg.gamefilter_tcp);
    assert_eq!(back.gamefilter_udp, cfg.gamefilter_udp);
    assert_eq!(back.backend, cfg.backend);
    assert_eq!(back.active_discord_fake, cfg.active_discord_fake);
    assert_eq!(back.active_gamefilter_fake, cfg.active_gamefilter_fake);
}

#[test]
fn config_defaults_and_trimming() {
    let d = parse_config("");
    assert_eq!(d.interface, "any");
    assert_eq!(d.backend, "nftables");
    let c = parse_config("  interface=  wlan0  \r\ngamefilterudp=true\nbogus\n");
    assert_eq!(c.interface, "wlan0");
    assert!(c.gamefilter_udp);
    assert!(!c.gamefilter_tcp);
}

#[test]
fn saved_selections_read_back() {
    let saved = save_tui_state(Some("active_discord_fake=x.bin\n"), "eth1", "discord.bat", false, true, "iptables");
    let c = parse_config(&saved);
    assert_eq!(c.interface, "eth1");
    assert_eq!(c.strategy, "discord.bat");
    assert!(c.gamefilter_udp);
    assert_eq!(c.backend, "iptables");
    assert_eq!(c.active_discord_fake, "x.bin");
    let fakes = save_active_fakes(Some(&saved), "d.bin", "g.bin");
    assert_eq!(load_active_fakes(Some(&fakes)), ("d.bin".to_string(), "g.bin".to_string()));
    assert_eq!(parse_config(&fakes).interface, "eth1");
}

#[test]
fn ipset_modes() {
    assert_eq!(determine_current_mode(None, None), IpsetMode::Any);
    assert_eq!(IpsetMode::Custom.to_string(), "custom");
    let modes = get_available_modes(false, IpsetMode::Loaded);
    assert!(modes.contains(&IpsetMode::Loaded));
    let mut files = IpsetFiles { all: Some("1.2.3.4\n".into()), backup: Some("9.9.9.9\n".into()), custom: None };
    apply_ipset_mode(IpsetMode::Custom, IpsetMode::Nothing, &mut files);
    assert_eq!(files.all, Some("203.0.113.113/32\n".to_string()));
    assert_eq!(files.custom, Some("1.2.3.4\n".to_string()));
    apply_ipset_mode(IpsetMode::Nothing, IpsetMode::Loaded, &mut files);
    assert_eq!(files.all, Some("9.9.9.9\n".to_string()));
    apply_ipset_mode(IpsetMode::Loaded, IpsetMode::Custom, &mut files);
    assert_eq!(files.all, Some("1.2.3.4\n".to_string()));
    apply_ipset_mode(IpsetMode::Custom, IpsetMode::Any, &mut files);
    assert_eq!(files.all, Some(String::new()));
    assert_eq!(files.backup, Some("9.9.9.9\n".to_string()));
}

#[test]
fn menu_round_trips() {
    let all = [
        MainMenuState::DownloadDeps,
        MainMenuState::Interface,
        MainMenuState::Strategy,
        MainMenuState::GamefilterSettings,
        MainMenuState::BackendSettings,
        MainMenuState::IpsetMode,
        MainMenuState::ListsEditor,
        MainMenuState::Autotune,
        MainMenuState::ServiceSettings,
        MainMenuState::Run,
        MainMenuState::Quit,
    ];
    for m in all {
        assert_eq!(m.next().prev(), m);
        let mut x = m;
        for _ in 0..11 {
            x = x.next();
        }
        assert_eq!(x, m);
    }
    assert_eq!(VersionTarget::Recommended.cycle(true), VersionTarget::Latest);
    assert_eq!(VersionTarget::Latest.cycle(true), VersionTarget::Recommended);
    assert_eq!(VersionTarget::Tag("v1".into()).cycle(true), VersionTarget::Recommended);
    assert_eq!(VersionTarget::Tag("v1".into()).cycle(false), VersionTarget::Latest);
}

fn app(saved: Option<RunConfig>) -> AppState {
    AppState::new(
        strings(&["eth0", "wlan0"]),
        strings(&["discord.bat", "general.bat"]),
        saved,
        vec![IpsetMode::Nothing, IpsetMode::Any],
        IpsetMode::Any,
        true,
        true,
        false,
        false,
        None,
    )
}

fn facts() -> HostFacts {
    HostFacts {
        nfqws_installed: true,
        strategies_installed: true,
        nfqws_running: false,
        init_system_found: true,
        custom_domains_path: "/c/custom.txt".into(),
    }
}

#[test]
fn new_state_uses_saved_config() {
    let mut cfg = parse_config("");
    cfg.interface = "wlan0".into();
    cfg.strategy = "general.bat".into();
    cfg.backend = "iptables".into();
    cfg.gamefilter_tcp = true;
    let a = app(Some(cfg));
    assert_eq!(a.selected_interface, 1);
    assert_eq!(a.selected_strategy, 1);
    assert!(a.tcp_gamefilter);
    assert_eq!(a.selected_ipset_mode, 1);
    assert_eq!(a.nav.active_screen, ActiveScreen::Main);
    let b = app(None);
    assert_eq!(b.selected_interface, 0);
}

#[test]
fn stepping_down_then_up_returns() {
    let mut a = app(None);
    let f = facts();
    for _ in 0..3 {
        a.handle_key(Key::Down, &f);
    }
    assert_eq!(a.nav.main_menu, MainMenuState::GamefilterSettings);
    a.next_menu();
    a.prev_menu();
    assert_eq!(a.nav.main_menu, MainMenuState::GamefilterSettings);
    a.prev_menu();
    a.next_menu();
    assert_eq!(a.nav.main_menu, MainMenuState::GamefilterSettings);
    assert_eq!(a.status_message, None);
}

#[test]
fn escape_quits_from_main_and_goes_back_elsewhere() {
    let f = facts();
    let mut a = app(None);
    assert_eq!(a.handle_key(Key::Escape, &f), Effect::Nothing);
    assert!(a.should_quit);
    let mut b = app(None);
    for _ in 0..8 {
        b.handle_key(Key::Down, &f);
    }
    assert_eq!(b.nav.main_menu, MainMenuState::ServiceSettings);
    b.handle_key(Key::Enter, &f);
    assert_ne!(b.nav.active_screen, ActiveScreen::Main);
    assert_eq!(b.handle_key(Key::Escape, &f), Effect::Nothing);
    assert_eq!(b.nav.active_screen, ActiveScreen::Main);
    assert!(!b.should_quit);
}

#[test]
fn cycling_the_interface_saves() {
    let f = facts();
    let mut a = app(None);
    a.handle_key(Key::Down, &f);
    assert_eq!(a.handle_key(Key::Right, &f), Effect::SaveConfig);
    assert_eq!(a.selected_interface, 1);
    let (iface, _, _, _, _) = a.current_settings();
    assert_eq!(iface, "wlan0");
}

#[test]
fn validation_adds_missing_keys_and_fakes() {
    let (t, changed) = validate_config("interface=eth0\nactive_discord_fake=\nbackend = x");
    assert!(changed);
    assert_eq!(
        t,
        "interface=eth0\nactive_discord_fake=quic_initial_steamcommunity_com.bin\nbackend = x\nstrategy=\ngamefiltertcp=false\ngamefilterudp=false\nbackend=nftables\nactive_gamefilter_fake=quic_initial_4pda.to.bin\n"
    );
    let full = "interface=any\nstrategy=\ngamefiltertcp=false\ngamefilterudp=false\nbackend=nftables\nactive_discord_fake=a.bin\nactive_gamefilter_fake=b.bin\n";
    assert_eq!(validate_config(full), (full.to_string(), false));
    let (t, changed) = validate_config("");
    assert!(changed);
    assert!(t.starts_with("\ninterface=any\nstrategy=\n"));
}

#[test]
fn validation_leaves_every_key_in_place() {
    let input = "  active_gamefilter_fake=\r\nxactive_discord_fake=1\nactive_discord_fake=\n";
    let (t, changed) = validate_config(input);
    assert!(changed);
    let keys: Vec<String> = t
        .lines()
        .filter_map(|l| l.trim().split_once('=').map(|(k, _)| k.to_string()))
        .collect();
    for k in [
        "interface",
        "strategy",
        "gamefiltertcp",
        "gamefilterudp",
        "backend",
        "active_discord_fake",
        "active_gamefilter_fake",
    ] {
        assert!(keys.iter().any(|x| x == k), "{} missing in {:?}", k, t);
    }
    assert!(keys.iter().any(|x| x == "xactive_discord_fake"));
}
