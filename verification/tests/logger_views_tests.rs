use zapret_rust::logger::{collect_system_info, launch_log_text, log_stop_text, SystemFacts};
use zapret_rust::views::{
    autotune_menu_view, autotune_strategies_view, block_checks_view, deps_menu_view, download_menu_view,
    gamefilter_menu_view, lists_menu_view, main_menu_view, presets_view, protocols_view, results_view,
    service_menu_view, strategy_menu_view, tag_menu_view, Tone,
};
use zapret_rust::views::{deps_status_line, footer_line, service_status_line, status_shown};
use zapret_rust::services::InitType;
use zapret_rust::actions::{HostFacts, Key};
use zapret_rust::ipset::IpsetMode;
use zapret_rust::state::AppState;

fn strings(v: &[&str]) -> Vec<String> {
    v.iter().map(|s| s.to_string()).collect()
}

fn facts() -> SystemFacts {
    SystemFacts {
        os: "linux".into(),
        arch: "x86_64".into(),
        kernel: Some("6.8.0".into()),
        long_os_version: None,
        os_name: Some("Arch Linux".into()),
        modules: "nf_tables 1 0 - Live\nxt_mark 2 0 - Live\niptable_filter 3 0\n\nebtables 1\n".into(),
        nft_ok: true,
        iptables_ok: false,
        iptables_nft_ok: false,
        interfaces: Some(strings(&["wlan0", "eth0", "lo"])),
        nfqws_installed: true,
        version_out: Some("".into()),
        version_err: Some("  github version v72.9\nmore\n".into()),
        strategies_dir: true,
        strategy_names: strings(&["general.bat", "discord.bat", "list.txt", "mine.bat"]),
        strategies_version: " 1.9.1\n".into(),
        user: "alice".into(),
        cache_dir: "/home/alice/.cache/zapret".into(),
    }
}

#[test]
fn system_report() {
    assert_eq!(
        collect_system_info(&facts()),
        strings(&[
            "OS: linux",
            "Arch: x86_64",
            "Kernel: 6.8.0",
            "Distro: Arch Linux",
            "Netfilter modules: nf_tables, iptable_filter, ebtables",
            "nft: available",
            "iptables: not found",
            "iptables-nft: not found",
            "Interfaces: eth0, lo, wlan0",
            "nfqws: installed",
            "nfqws version: github version v72.9",
            "Strategies: 3 .bat files (version 1.9.1)",
            "User: alice",
            "Cache dir: /home/alice/.cache/zapret",
        ])
    );
}

#[test]
fn system_report_sparse() {
    let mut f = facts();
    f.kernel = None;
    f.os_name = None;
    f.modules = String::new();
    f.interfaces = Some(vec![]);
    f.nfqws_installed = false;
    f.strategies_dir = false;
    let r = collect_system_info(&f);
    assert_eq!(r[2], "Netfilter modules: none loaded");
    assert_eq!(r[6], "Interfaces: none");
    assert_eq!(r[7], "nfqws: not installed");
    assert_eq!(r[8], "Strategies: not installed");
    f.interfaces = None;
    f.strategies_dir = true;
    f.strategies_version = "  ".into();
    let r = collect_system_info(&f);
    assert_eq!(r[6], "nfqws: not installed");
    assert_eq!(r[7], "Strategies: 3 .bat files");
}

#[test]
fn log_entries() {
    let t = launch_log_text(
        "2024-01-02 03:04:05",
        &strings(&["OS: linux"]),
        "interface=any\n",
        &strings(&["Starting nfqws"]),
        "/c/bin/nfqws",
        &strings(&["--a --b"]),
    );
    assert_eq!(
        t,
        "===== nfqws | 2024-01-02 03:04:05 =====\n\n--- System Info ---\nOS: linux\n\n--- Config ---\ninterface=any\n\n--- Terminal ---\nStarting nfqws\n\n--- Strategy params ---\nbinary: /c/bin/nfqws\n--a --b\n"
    );
    let t = launch_log_text("T", &vec![], "", &vec![], "b", &vec![]);
    assert_eq!(t, "===== nfqws | T =====\n\n--- System Info ---\n\n--- Config ---\n\n--- Strategy params ---\nbinary: b\n");
    assert_eq!(log_stop_text("T", &strings(&["stopped"])), "\n===== stop | T =====\nstopped\n");
}

fn app() -> AppState {
    AppState::new(
        strings(&["eth0", "wlan0"]),
        strings(&["discord.bat", "general.bat"]),
        None,
        vec![IpsetMode::Nothing, IpsetMode::Any, IpsetMode::Loaded],
        IpsetMode::Loaded,
        true,
        true,
        true,
        false,
        None,
    )
}

fn host_facts() -> HostFacts {
    HostFacts {
        nfqws_installed: true,
        strategies_installed: true,
        nfqws_running: false,
        init_system_found: true,
        custom_domains_path: "/c/custom.txt".into(),
    }
}

fn texts(row: &[zapret_rust::views::Cell]) -> Vec<String> {
    row.iter().map(|c| c.text.clone()).collect()
}

#[test]
fn main_menu_rows() {
    let mut a = app();
    let v = main_menu_view(&a);
    assert_eq!(v.title, "Main Menu");
    assert_eq!(v.rows.len(), 7);
    assert_eq!(v.selected, 0);
    assert_eq!(texts(&v.rows[0]), strings(&[" Download dependencies"]));
    assert_eq!(texts(&v.rows[1]), strings(&[" Interface: ", "< eth0 >"]));
    assert_eq!(v.rows[1][1].tone, Tone::Value);
    assert_eq!(texts(&v.rows[2]), strings(&[" Strategy: ", "< discord.bat >"]));
    assert_eq!(texts(&v.rows[3]), strings(&[" Game filter: ", "< OFF >"]));
    assert_eq!(texts(&v.rows[4]), strings(&[" Service settings"]));
    assert_eq!(texts(&v.rows[6]), strings(&[" Quit"]));
    a.handle_key(Key::Down, &host_facts());
    assert_eq!(main_menu_view(&a).selected, 1);
    for _ in 0..3 {
        a.handle_key(Key::Down, &host_facts());
    }
    // The firewall backend item has no row of its own: the cursor is drawn on the first row.
    assert_eq!(main_menu_view(&a).selected, 0);
}

#[test]
fn other_menus() {
    let a = app();
    let s = service_menu_view(&a);
    assert_eq!(s.rows.len(), 3);
    assert_eq!(texts(&s.rows[0]), strings(&[" Start the service"]));
    let p = protocols_view(&a);
    assert_eq!(p.rows.len(), 6);
    assert_eq!(texts(&p.rows[0]), strings(&[" HTTP: ", "[ ON ]"]));
    assert_eq!(p.rows[0][1].tone, Tone::Active);
    let t = autotune_menu_view(&a);
    assert_eq!(t.rows.len(), 9);
    assert_eq!(texts(&t.rows[1]), strings(&[" Requests per check: ", "< 3 >"]));
    assert_eq!(texts(&t.rows[3]), strings(&[" Protocols: ", "< HTTP:ON HTTPS:ON TLS1.2:ON TLS1.3:ON QUIC:ON >"]));
    assert_eq!(texts(&t.rows[6]), strings(&[" Results: none yet"]));
}

#[test]
fn list_menus() {
    let mut a = app();
    a.selected_strategy = 1;
    let v = strategy_menu_view(&a);
    assert_eq!(v.title, "Select Strategy");
    assert_eq!(texts(&v.rows[0]), strings(&["    discord.bat"]));
    assert_eq!(texts(&v.rows[1]), strings(&[" \u{F00C} general.bat"]));
    assert_eq!(texts(&v.rows[2]), strings(&[" \u{F04A} Back to Main Menu"]));
    a.nav.strategy_menu_index = 7;
    assert_eq!(strategy_menu_view(&a).selected, 0);

    a.available_nfqws_tags = strings(&["v72.9", "v72.8"]);
    a.nav.nfqws_tag_index = 1;
    let t = tag_menu_view(&a, true);
    assert_eq!(t.title, "Select a zapret tag");
    assert_eq!(texts(&t.rows[1]), strings(&[" \u{F061} v72.8"]));
    assert_eq!(texts(&t.rows[2]), strings(&[" \u{F04A} Back to Download Menu"]));
    assert_eq!(t.selected, 1);

    a.lists_files = strings(&["/opt/zapret/lists/list-general.txt", "list-google.txt"]);
    let l = lists_menu_view(&a);
    assert_eq!(texts(&l.rows[0]), strings(&[" list-general.txt"]));
    assert_eq!(texts(&l.rows[1]), strings(&[" list-google.txt"]));
    assert_eq!(texts(&l.rows[2]), strings(&[" Back"]));
}

#[test]
fn switch_menus() {
    let mut a = app();
    a.tcp_gamefilter = true;
    let g = gamefilter_menu_view(&a);
    assert_eq!(g.title, "Game Filter Settings");
    assert_eq!(texts(&g.rows[0]), strings(&[" 🎮 TCP Gamefilter:      ", " [● ON] ", " [ OFF ] "]));
    assert_eq!(g.rows[0][2].tone, Tone::Dim);
    assert_eq!(texts(&g.rows[1]), strings(&[" 🕹️  UDP Gamefilter:      ", " [ ON ] ", " [● OFF] "]));
    assert_eq!(g.rows[1][2].tone, Tone::Inactive);

    a.autotune_config.strategy_indices = vec![1];
    let s = autotune_strategies_view(&a);
    assert_eq!(texts(&s.rows[0]), strings(&[" discord.bat: ", "[ OFF ]"]));
    assert_eq!(texts(&s.rows[1]), strings(&[" general.bat: ", "[ ON ]"]));
    a.nav.autotune_strat_index = 9;
    assert_eq!(autotune_strategies_view(&a).selected, 2);

    let b = block_checks_view(&a);
    assert_eq!(b.rows.len(), 7);
    assert_eq!(texts(&b.rows[1]), strings(&[" TCP RST: ", "[ ON ]"]));

    let p = presets_view(&a);
    assert_eq!(p.rows.len(), 5);
    assert_eq!(texts(&p.rows[0]), strings(&[" Discord: ", "[ ON ]"]));
    assert_eq!(texts(&p.rows[1])[1], "[ OFF ]");
}

#[test]
fn download_menus() {
    let a = app();
    let d = deps_menu_view(&a);
    assert_eq!(d.rows.len(), 4);
    assert_eq!(d.selected, 0);
    let z = download_menu_view(&a, true);
    assert_eq!(z.title, "Download zapret");
    assert_eq!(texts(&z.rows[0]), strings(&[" Version:", " [● Recommended (v72.9)] ", " [ Latest ] ", " [ Tag ] "]));
    assert_eq!(z.rows[0][1].tone, Tone::Value);
    assert_eq!(z.rows[0][2].tone, Tone::Dim);
    let s = download_menu_view(&a, false);
    assert_eq!(texts(&s.rows[0])[1], " [● Recommended (ef19845)] ");
    assert_eq!(texts(&s.rows[1]), strings(&["   Choose a tag"]));
}

#[test]
fn results_screen() {
    let mut a = app();
    let none = results_view(&a, None);
    assert_eq!(texts(&none.rows[0]), strings(&[" No results yet"]));
    assert_eq!(none.rows.len(), 2);
    a.nav.autotune_results_index = 10;
    let some = results_view(&a, Some("line one\r\nline two\n"));
    assert_eq!(texts(&some.rows[0]), strings(&[" line one"]));
    assert_eq!(texts(&some.rows[1]), strings(&[" line two"]));
    assert_eq!(some.rows.len(), 3);
    assert_eq!(some.selected, 2);
}

#[test]
fn status_lines_and_footer() {
    let mut a = app();
    assert!(status_shown(&a));
    let line = service_status_line(&a, Some(InitType::Systemd));
    assert_eq!(texts(&line), strings(&["Service (", "systemd", "): ", "stopped", " ", "🟡"]));
    assert_eq!(line[3].tone, Tone::Warn);
    a.service_installed = false;
    let line = service_status_line(&a, None);
    assert_eq!(texts(&line), strings(&["Service (", "unknown", "): ", "not installed", " ", "❌"]));
    a.strategies_installed = false;
    assert_eq!(texts(&deps_status_line(&a)), strings(&["Dependencies: ", "nfqws ", "✅", " | strategies ", "❌"]));
    assert_eq!(footer_line(&a), ("Enter: download nfqws and the strategies".to_string(), false));
    a.handle_key(Key::Down, &host_facts());
    assert_eq!(footer_line(&a).0, "Enter/Left/Right: choose the network interface");
    a.show_error("boom");
    assert!(footer_line(&a).1);
}

#[test]
fn test_sysinfo_output() {
    println!("SysInfo: {:#?}", collect_system_info(&facts()));
    println!("Timestamp: {}", chrono::Local::now().format("%Y-%m-%d %H:%M:%S"));
}
