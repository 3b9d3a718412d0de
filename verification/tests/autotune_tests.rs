use zapret_rust::autotune::{
    check_cidr_whitelist, check_dns_spoof, check_siberian_block, check_sni_block, check_tcp_rst, DnsAnswer, get_domains_for_preset, get_strategy_name, is_sinkhole, parse_domain_list,
    CheckStatus, IpAddress, PresetResult, StrategyCheckResult, TcpProbe,
};
use zapret_rust::tuning::{
    common_strategies, count_tested, domain_file_missing, domain_file_text, preset_file_text, Progress,
};
use zapret_rust::autotune::{parse_domain_list as read_domains, preset_display_name_of, strategy_outcome, ProtocolProbe};
use zapret_rust::config::get_cache_dir;
use zapret_rust::discovery::get_interfaces;

fn strings(v: &[&str]) -> Vec<String> {
    v.iter().map(|s| s.to_string()).collect()
}

fn strategy(name: &str, works: bool) -> StrategyCheckResult {
    StrategyCheckResult {
        strategy_name: name.to_string(),
        domains_pass: vec![],
        domains_fail: vec![],
        works,
        protocols_working: vec![],
        domain_checks: vec![],
    }
}

fn preset(results: Vec<StrategyCheckResult>) -> PresetResult {
    PresetResult { preset_name: "p".to_string(), domain_checks: vec![], strategy_results: results }
}

fn errs(v: &[&str]) -> Vec<String> {
    v.iter().map(|s| s.to_string()).collect()
}

#[test]
fn tcp_rst_verdicts() {
    let e = errs(&["", "", ""]);
    let skip = check_tcp_rst(&vec![TcpProbe::Replied; 3], &e, false);
    assert_eq!(skip.status, CheckStatus::Skip);
    assert_eq!(skip.detail, "Internet connectivity issue (google.com unreachable)");
    let pass = check_tcp_rst(&vec![TcpProbe::Replied, TcpProbe::Idle, TcpProbe::Replied], &e, true);
    assert_eq!(pass.status, CheckStatus::Pass);
    assert_eq!(pass.detail, "TCP connections successful, no RST detected");
}

#[test]
fn tcp_rst_lists_every_domain() {
    let r = check_tcp_rst(
        &vec![TcpProbe::Replied, TcpProbe::ConnectReset, TcpProbe::ReadFailed],
        &errs(&["", "", "early eof"]),
        true,
    );
    assert_eq!(r.status, CheckStatus::Fail);
    assert_eq!(
        r.detail,
        "TCP RST/blocking detected (1/3 domains affected): discord.com: connected; youtube.com: RST on connect; cdn.discordapp.com: early eof after connect"
    );
    let mixed = check_tcp_rst(
        &vec![TcpProbe::ConnectFailed, TcpProbe::ReadFailed, TcpProbe::AddrNotAvailable],
        &errs(&["no route", "eof", "no addr"]),
        true,
    );
    assert_eq!(mixed.status, CheckStatus::Skip);
    assert_eq!(
        mixed.detail,
        "Mixed results: discord.com: no route; youtube.com: eof after connect; cdn.discordapp.com: no addr"
    );
    let t = check_tcp_rst(&vec![TcpProbe::ConnectTimeout, TcpProbe::ReadReset, TcpProbe::Idle], &errs(&["", "", ""]), true);
    assert_eq!(
        t.detail,
        "TCP RST/blocking detected (2/3 domains affected): discord.com: timeout (possible DPI drop); youtube.com: RST after connect; cdn.discordapp.com: connected (idle)"
    );
}

#[test]
fn cidr_verdicts() {
    let all_blocked = check_cidr_whitelist(&vec![TcpProbe::ConnectTimeout, TcpProbe::ConnectReset, TcpProbe::ConnectReset, TcpProbe::ConnectTimeout, TcpProbe::ConnectReset], true);
    assert_eq!(all_blocked.status, CheckStatus::Fail);
    assert_eq!(all_blocked.detail, "All tested IPs blocked: possible whitelist-only policy");
    let open = check_cidr_whitelist(&vec![TcpProbe::Replied; 5], true);
    assert_eq!(open.status, CheckStatus::Pass);
    assert_eq!(open.detail, "No CIDR-based blocking detected across tested subnets");
}

#[test]
fn cidr_selective_block_lists_blocked() {
    let r = check_cidr_whitelist(
        &vec![TcpProbe::Replied, TcpProbe::ConnectTimeout, TcpProbe::ConnectFailed, TcpProbe::ConnectReset, TcpProbe::Replied],
        true,
    );
    assert_eq!(r.status, CheckStatus::Fail);
    assert_eq!(
        r.detail,
        "Possible selective CIDR blocking (2/5 blocked): 8.8.8.8 (Google DNS) timeout; 185.178.208.97 (discord CDN (MCF)) RST"
    );
}

#[test]
fn sni_verdicts() {
    let probes = vec![
        TcpProbe::Replied,
        TcpProbe::ConnectReset,
        TcpProbe::Idle,
        TcpProbe::Replied,
        TcpProbe::ReadReset,
        TcpProbe::ReadFailed,
    ];
    let r = check_sni_block(&vec![false, true], &probes, true);
    assert_eq!(r.status, CheckStatus::Fail);
    assert_eq!(
        r.detail,
        "SNI blocking detected (domains fail but IPs work): discord.com (IP 162.159.128.233) works, domain fails -> SNI block; discord.com (IP 162.159.135.232): RST on connect; discord.com (IP 162.159.136.232) works, domain fails -> SNI block; youtube.com (IP 216.58.209.46): RST"
    );
    let ok = check_sni_block(&vec![true, true], &vec![TcpProbe::Replied; 6], true);
    assert_eq!(ok.status, CheckStatus::Pass);
    assert_eq!(ok.detail, "No SNI blocking detected");
    let inc = check_sni_block(&vec![false, true], &vec![TcpProbe::ConnectReset; 6], true);
    assert_eq!(inc.status, CheckStatus::Skip);
    assert!(inc.detail.starts_with("Inconclusive: discord.com (IP 162.159.128.233): RST on connect; "));
}

#[test]
fn siberian_verdicts() {
    let pass = check_siberian_block(true, 45, 0, &vec![true; 10]);
    assert_eq!(pass.status, CheckStatus::Pass);
    assert_eq!(pass.detail, "No Siberian block detected (100% success after 15+ concurrent)");
    let mut extra = vec![true; 10];
    extra[3] = false;
    extra[7] = false;
    let blocked = check_siberian_block(true, 45, 0, &extra);
    assert_eq!(blocked.status, CheckStatus::Fail);
    assert_eq!(blocked.detail, "Possible Siberian block: 2 of 10 extra connections failed");
    let high = check_siberian_block(true, 30, 15, &vec![true; 10]);
    assert_eq!(high.status, CheckStatus::Fail);
    assert_eq!(high.detail, "High failure rate: 15/55 connections failed");
    let mixed = check_siberian_block(true, 40, 5, &vec![true; 10]);
    assert_eq!(mixed.status, CheckStatus::Skip);
    assert_eq!(mixed.detail, "Mixed results: 50/55 alive, 0/10 extra failed");
    assert_eq!(check_siberian_block(false, 0, 0, &vec![]).detail, "Internet connectivity issue");
}

fn answer(a: u8, b: u8, c: u8, d: u8) -> DnsAnswer {
    DnsAnswer { addr: IpAddress::V4(a, b, c, d), shown: format!("{}.{}.{}.{}", a, b, c, d) }
}

#[test]
fn dns_verdicts() {
    let good = || {
        vec![vec![answer(162, 159, 128, 233)], vec![answer(142, 250, 150, 46)], vec![answer(104, 16, 0, 1)]]
    };
    let r = check_dns_spoof(&good(), true);
    assert_eq!(r.status, CheckStatus::Pass);
    assert_eq!(r.detail, "DNS responses look legitimate");

    let r = check_dns_spoof(&good(), false);
    assert_eq!(r.status, CheckStatus::Skip);
    assert_eq!(r.detail, "google.com: not resolved (possible Internet issue)");

    let mut sink = good();
    sink[1] = vec![answer(8, 8, 8, 8), answer(127, 0, 0, 1), answer(10, 0, 0, 2)];
    let r = check_dns_spoof(&sink, false);
    assert_eq!(r.status, CheckStatus::Fail);
    assert_eq!(r.detail, "youtube.com resolved to sinkhole IPs: [127.0.0.1, 10.0.0.2]");

    let mut odd = good();
    odd[0] = vec![answer(1, 2, 3, 4), answer(5, 6, 7, 8)];
    odd[2] = vec![];
    let r = check_dns_spoof(&odd, true);
    assert_eq!(r.status, CheckStatus::Fail);
    assert_eq!(
        r.detail,
        "Possible DNS spoofing: discord.com resolved to [1.2.3.4, 5.6.7.8] (unexpected vs known \
         [\"162.159.128.233\", \"162.159.135.232\", \"162.159.136.232\"]); cdn.discordapp.com: not resolved"
    );
}

#[test]
fn sinkholes() {
    assert!(is_sinkhole(IpAddress::V4(127, 0, 0, 1)));
    assert!(is_sinkhole(IpAddress::V4(172, 20, 1, 1)));
    assert!(!is_sinkhole(IpAddress::V4(172, 32, 1, 1)));
    assert!(is_sinkhole(IpAddress::V4(0, 0, 0, 0)));
    assert!(!is_sinkhole(IpAddress::V4(8, 8, 8, 8)));
    assert!(!is_sinkhole(IpAddress::V6));
}

#[test]
fn names_and_lists() {
    assert_eq!(get_strategy_name("general (ALT).bat"), "general (ALT)");
    assert_eq!(get_strategy_name("x.bat.bat"), "x");
    assert_eq!(get_strategy_name("plain"), "plain");
    assert_eq!(parse_domain_list("# comment\n discord.com \n\n  #x\ngg.gg\r\n"), strings(&["discord.com", "gg.gg"]));
    assert_eq!(get_domains_for_preset(9, strings(&["a.com"])), Vec::<String>::new());
    assert_eq!(get_domains_for_preset(0, strings(&["a.com"])), strings(&["a.com"]));
    assert!(get_domains_for_preset(0, vec![]).contains(&"discord.com".to_string()));
}

#[test]
fn common_strategies_across_presets() {
    let a = preset(vec![strategy("b", true), strategy("a", true), strategy("c", false)]);
    let b = preset(vec![strategy("a", true), strategy("b", false), strategy("c", true)]);
    assert_eq!(common_strategies(&vec![a, b], true), strings(&["a"]));
    let one = preset(vec![strategy("z", true), strategy("y", true), strategy("x", false)]);
    assert_eq!(common_strategies(&vec![one], false), strings(&["y", "z"]));
    assert_eq!(common_strategies(&vec![], true), Vec::<String>::new());
}

#[test]
fn progress_ends_at_its_total() {
    // Two network checks, two presets of 3 and 2 domains, 2 protocol steps,
    // 2 strategies; the first preset has one blocked domain, the second none.
    let mut p = Progress { done: 0, total: 2 + 3 * 3 + 2 * 3 };
    p.advance(2);
    for (domains, blocked) in [(3usize, 1usize), (2, 0)] {
        for _ in 0..domains {
            p.domain_checked(2);
        }
        let tested = count_tested(2, blocked, domains);
        p.strategies_planned(2, tested);
        for _ in 0..2 * (1 + tested) {
            p.advance(1);
        }
    }
    assert_eq!(p.done, p.total);
    assert_eq!(p.total, 17 + 2 * 2 + 2 * 3);
    assert_eq!(count_tested(0, 4, 9), 0);
}

fn probe(tls13: bool) -> ProtocolProbe {
    ProtocolProbe { http: false, tls12: false, tls13, quic: false }
}

#[test]
fn strategy_outcomes() {
    let domains = strings(&["a.com", "b.com"]);
    let blocked = strings(&["b.com"]);
    let all = strategy_outcome("s.bat", &domains, &vec![], false, false, &vec![]);
    assert!(all.works);
    assert_eq!(all.domains_pass, domains);
    let not_started = strategy_outcome("s.bat", &domains, &blocked, false, false, &vec![]);
    assert!(!not_started.works);
    assert_eq!(not_started.domains_fail, blocked);
    let died = strategy_outcome("s.bat", &domains, &blocked, true, false, &vec![]);
    assert_eq!(died.domains_fail, blocked);
    let tested = strategy_outcome("s.bat", &domains, &blocked, true, true, &vec![probe(true)]);
    assert!(tested.works);
    assert_eq!(tested.domains_pass, blocked);
    assert_eq!(tested.domain_checks.len(), 1);
}

#[test]
fn preset_names_and_files() {
    assert_eq!(preset_display_name_of(0), "Discord");
    assert_eq!(preset_display_name_of(9), "Custom");
    let text = preset_file_text(0);
    assert!(text.starts_with("# Domain list for the Discord preset: one domain per line, lines starting with # are ignored\n"));
    assert_eq!(read_domains(&text), get_domains_for_preset(0, vec![]));
}

#[test]
fn domain_files_read_back() {
    let domains = strings(&["discord.com", "gateway.discord.gg"]);
    let text = domain_file_text("Discord preset", &domains);
    assert_eq!(text, "# Discord preset\ndiscord.com\ngateway.discord.gg\n");
    assert_eq!(parse_domain_list(&text), domains);
    assert!(!domain_file_missing(true, &text));
    assert!(domain_file_missing(false, &text));
    assert!(domain_file_missing(true, "# only a comment\n\n"));
}

#[test]
fn interfaces_and_cache_dir() {
    assert_eq!(get_interfaces(strings(&["lo", "eth0"])), strings(&["any", "lo", "eth0"]));
    assert_eq!(get_interfaces(vec![]), strings(&["any"]));
    assert_eq!(get_cache_dir(Some("/c"), Some("/opt/z")), "/c");
    assert_eq!(get_cache_dir(None, Some("/opt/z")), "/opt/z");
    assert_eq!(get_cache_dir(None, None), ".");
}
