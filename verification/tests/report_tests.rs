use zapret_rust::autotune::{
    AutotuneResults, CheckResult, CheckStatus, DomainCheckResult, DomainProtocolCheck, PresetResult,
    StrategyCheckResult,
};
use zapret_rust::report::{report_fits, results_file_text, summary_text};
use zapret_rust::state::results_fit;

fn strings(v: &[&str]) -> Vec<String> {
    v.iter().map(|s| s.to_string()).collect()
}

fn check(status: CheckStatus) -> CheckResult {
    CheckResult { status, detail: "d".to_string() }
}

fn sample() -> AutotuneResults {
    let domain = DomainCheckResult {
        domain: "discord.com".to_string(),
        alive: CheckStatus::Pass,
        http: CheckStatus::Fail,
        tls12: CheckStatus::Pass,
        tls13: CheckStatus::Fail,
        quic: CheckStatus::Skip,
        baseline_pass: false,
        detail: String::new(),
        http_count: 1,
        quic_count: 0,
    };
    let works = StrategyCheckResult {
        strategy_name: "general.bat".to_string(),
        domains_pass: strings(&["discord.com"]),
        domains_fail: vec![],
        works: true,
        protocols_working: strings(&["HTTP", "TLS1.2"]),
        domain_checks: vec![DomainProtocolCheck {
            domain: "discord.com".to_string(),
            http: true,
            tls12: true,
            tls13: false,
            quic: false,
        }],
    };
    let fails = StrategyCheckResult {
        strategy_name: "alt.bat".to_string(),
        domains_pass: vec![],
        domains_fail: strings(&["discord.com"]),
        works: false,
        protocols_working: vec![],
        domain_checks: vec![],
    };
    AutotuneResults {
        block_results: vec![
            check(CheckStatus::Pass),
            check(CheckStatus::Fail),
            check(CheckStatus::Skip),
            check(CheckStatus::Error),
            check(CheckStatus::Pass),
            check(CheckStatus::Pass),
        ],
        preset_results: vec![PresetResult {
            preset_name: "Discord".to_string(),
            domain_checks: vec![domain],
            strategy_results: vec![works, fails],
        }],
        common_strategies: strings(&["general.bat"]),
        elapsed_secs: 125,
    }
}

fn text_of(lines: &[&str]) -> String {
    lines.iter().map(|l| format!("{}\n", l)).collect()
}

#[test]
fn results_file_lines() {
    let text = results_file_text(&sample());
    let expected = text_of(&[
        "--- Network checks ---",
        "  DNS: OK",
        "  TCP RST: BLOCKED",
        "  SNI: SKIP",
        "  SIBERIAN: ERROR",
        "  QUIC: OK",
        "  CIDR: OK",
        "",
        "--- Domain results [Discord] ---",
        "  discord.com: alive=OK HTTP:BLOCKED(1) TLS1.2:OK TLS1.3:BLOCKED QUIC:SKIP(0) baseline=BLOCKED",
        "",
        "--- Strategy results ---",
        "  [Discord]",
        "    general.bat: WORKS (1/1) [HTTP, TLS1.2]",
        "      discord.com HTTP:✅ T12:✅ T13:❌ Q:❌",
        "    alt.bat: FAILS (0/1)",
        "",
        "--- Common strategies (1) ---",
        "  ✅ general.bat",
        "",
        "Total time: 2m 5s",
    ]);
    assert_eq!(text, expected);
}

#[test]
fn run_summary_lines() {
    let text = summary_text(&sample(), 3);
    let expected = text_of(&[
        "",
        "",
        "Autotune finished",
        "",
        "Legend: ✅ passed, ❌ blocked, ⏩ skipped, 🚨 error",
        "",
        "--- Network checks ---",
        "  DNS: ✅ - No blocking detected",
        "  TCP RST: ❌ - Blocking detected",
        "  SNI: ⏩ - Skipped",
        "  SIBERIAN: 🚨 - Error during check",
        "  QUIC: ✅ - No blocking detected",
        "  CIDR: ✅ - No blocking detected",
        "",
        "--- Domain results [Discord] ---",
        "  discord.com: alive=✅ HTTP:❌(1/3) TLS1.2=✅ TLS1.3=❌ QUIC:⏩(0/3) baseline=❌",
        "",
        "  --- Strategy results ---",
        "    general.bat: ✅ WORKS (1/1 blocked domains unblocked) [HTTP, TLS1.2]",
        "      discord.com HTTP:✅ T12:✅ T13:❌ Q:❌",
        "    alt.bat: ❌ FAILS (0/1 blocked domains unblocked)",
        "    Working strategies: 1 of 2",
        "      ✅ general.bat (1/1)",
        "",
        "--- Common strategies (1) ---",
        "  ✅ general.bat",
        "",
        "Total time: 2m 5s",
    ]);
    assert_eq!(text, expected);
}

#[test]
fn summary_without_working_strategies() {
    let mut r = sample();
    r.preset_results[0].strategy_results.remove(0);
    r.common_strategies.clear();
    let text = summary_text(&r, 2);
    assert!(text.contains("    alt.bat: ❌ FAILS (0/1 blocked domains unblocked)\n    No strategy works\n\n"));
    assert!(!text.contains("Common strategies"));
    assert!(text.ends_with("    No strategy works\n\nTotal time: 2m 5s\n"));
}

#[test]
fn report_states_run_time() {
    let mut r = sample();
    r.elapsed_secs = 59;
    assert!(results_file_text(&r).ends_with("\nTotal time: 0m 59s\n"));
    r.elapsed_secs = 3600;
    assert!(summary_text(&r, 3).ends_with("\nTotal time: 60m 0s\n"));
}

#[test]
fn check_accessors_read_their_entry() {
    let mut r = sample();
    assert_eq!(r.dns_spoof().status, CheckStatus::Pass);
    assert_eq!(r.siberian_block().status, CheckStatus::Error);
    assert_eq!(r.cidr_whitelist().status, CheckStatus::Pass);
    r.block_results.truncate(2);
    assert_eq!(r.tcp_rst().status, CheckStatus::Fail);
}

#[test]
fn fit_checks_accept_ordinary_results() {
    let r = sample();
    assert!(report_fits(&r));
    assert!(results_fit(&r));
}
