use zapret_rust::autorun::{AutotuneRun, Stage, TuneAction, TuneEvent};
use zapret_rust::autotune::{AutotuneConfig, CheckResult, CheckStatus, DomainCheckResult, ProtocolProbe};

fn strings(v: &[&str]) -> Vec<String> {
    v.iter().map(|s| s.to_string()).collect()
}

fn checked(domain: &str, baseline_pass: bool) -> DomainCheckResult {
    DomainCheckResult {
        domain: domain.to_string(),
        alive: CheckStatus::Pass,
        http: CheckStatus::Pass,
        tls12: CheckStatus::Pass,
        tls13: if baseline_pass { CheckStatus::Pass } else { CheckStatus::Fail },
        quic: CheckStatus::Pass,
        baseline_pass,
        detail: String::new(),
        http_count: 3,
        quic_count: 3,
    }
}

fn two_strategies() -> Vec<(String, String)> {
    vec![("s1".to_string(), "/p/s1.bat".to_string()), ("s2".to_string(), "/p/s2.bat".to_string())]
}

fn network() -> Vec<CheckResult> {
    vec![CheckResult::pass("ok")]
}

fn started(presets: Vec<(usize, Vec<String>)>) -> AutotuneRun {
    let config = AutotuneConfig::default_config();
    let (run, action) = AutotuneRun::start(&config, two_strategies(), presets, network()).unwrap();
    assert_eq!(action, TuneAction::SaveIpset);
    run
}

#[test]
fn run_tests_strategies_on_blocked_domains() {
    let mut run = started(vec![(0, strings(&["a.com", "b.com"]))]);
    // Six network checks done; two domains of one plus four protocol steps planned.
    assert_eq!((run.progress.done, run.progress.total), (6, 16));
    assert_eq!(run.step(TuneEvent::IpsetSaved), TuneAction::CheckDomains(strings(&["a.com", "b.com"])));
    assert_eq!(run.step(TuneEvent::DomainDone(checked("a.com", true))), TuneAction::Wait);
    assert_eq!(run.step(TuneEvent::DomainDone(checked("b.com", false))), TuneAction::Launch("/p/s1.bat".to_string()));
    // Two strategies of one start step and one blocked domain each.
    assert_eq!((run.progress.done, run.progress.total), (16, 20));
    assert_eq!(run.step(TuneEvent::Launched(true)), TuneAction::WaitNfqws);
    assert_eq!(run.step(TuneEvent::StayedUp(true)), TuneAction::Probe(strings(&["b.com"])));
    let probe = ProtocolProbe { http: false, tls12: false, tls13: true, quic: false };
    assert_eq!(run.step(TuneEvent::Probed(vec![probe])), TuneAction::StopNfqws);
    assert_eq!(run.step(TuneEvent::Stopped), TuneAction::Launch("/p/s2.bat".to_string()));
    assert_eq!(run.step(TuneEvent::Launched(false)), TuneAction::RestoreIpset);
    assert_eq!(run.step(TuneEvent::IpsetRestored), TuneAction::Finish);
    assert_eq!(run.progress.done, run.progress.total);
    assert_eq!(run.progress.total, 20);
    assert!(!run.cancelled);
    let results = run.finish(65);
    assert_eq!(results.elapsed_secs, 65);
    assert_eq!(results.preset_results.len(), 1);
    let preset = &results.preset_results[0];
    assert_eq!(preset.preset_name, "Discord");
    assert_eq!(preset.domain_checks.len(), 2);
    assert_eq!(preset.strategy_results.len(), 2);
    assert!(preset.strategy_results[0].works);
    assert_eq!(preset.strategy_results[0].domains_pass, strings(&["b.com"]));
    assert!(!preset.strategy_results[1].works);
    assert_eq!(preset.strategy_results[1].domains_fail, strings(&["b.com"]));
    assert_eq!(results.common_strategies, strings(&["s1"]));
}

#[test]
fn nfqws_that_exits_is_stopped_and_fails() {
    let mut run = started(vec![(1, strings(&["x.com"]))]);
    run.step(TuneEvent::IpsetSaved);
    assert_eq!(run.step(TuneEvent::DomainDone(checked("x.com", false))), TuneAction::Launch("/p/s1.bat".to_string()));
    assert_eq!(run.step(TuneEvent::Launched(true)), TuneAction::WaitNfqws);
    assert_eq!(run.step(TuneEvent::StayedUp(false)), TuneAction::StopNfqws);
    assert!(!run.results[0].works);
    assert_eq!(run.results[0].domains_fail, strings(&["x.com"]));
    assert_eq!(run.step(TuneEvent::Stopped), TuneAction::Launch("/p/s2.bat".to_string()));
}

#[test]
fn nothing_blocked_means_no_strategy_is_started() {
    let mut run = started(vec![(0, strings(&["a.com"])), (9, strings(&["c.com"]))]);
    assert_eq!(run.step(TuneEvent::IpsetSaved), TuneAction::CheckDomains(strings(&["a.com"])));
    assert_eq!(run.step(TuneEvent::DomainDone(checked("a.com", true))), TuneAction::CheckDomains(strings(&["c.com"])));
    assert_eq!(run.step(TuneEvent::DomainDone(checked("c.com", true))), TuneAction::RestoreIpset);
    assert_eq!(run.step(TuneEvent::IpsetRestored), TuneAction::Finish);
    assert_eq!(run.progress.done, run.progress.total);
    // 6 + 2 * (1 + 4) for the domains, 2 * 2 * (1 + 1) for the untested strategies.
    assert_eq!(run.progress.total, 6 + 10 + 8);
    let results = run.finish(0);
    assert_eq!(results.preset_results[1].preset_name, "Custom");
    assert!(results.preset_results.iter().all(|p| p.strategy_results.iter().all(|s| s.works)));
    assert_eq!(results.common_strategies, strings(&["s1", "s2"]));
}

#[test]
fn presets_without_domains_pass_at_once() {
    let mut run = started(vec![(0, vec![])]);
    assert_eq!((run.progress.done, run.progress.total), (6, 6));
    assert_eq!(run.step(TuneEvent::IpsetSaved), TuneAction::RestoreIpset);
    assert_eq!((run.progress.done, run.progress.total), (8, 8));
    assert_eq!(run.finished[0].strategy_results.len(), 2);
}

#[test]
fn quit_stops_nfqws_and_restores_the_ipset() {
    let mut run = started(vec![(0, strings(&["a.com", "b.com"]))]);
    run.step(TuneEvent::IpsetSaved);
    run.step(TuneEvent::DomainDone(checked("a.com", false)));
    run.step(TuneEvent::DomainDone(checked("b.com", false)));
    assert_eq!(run.step(TuneEvent::Launched(true)), TuneAction::WaitNfqws);
    assert_eq!(run.step(TuneEvent::Quit), TuneAction::StopNfqws);
    assert!(run.cancelled);
    assert_eq!(run.step(TuneEvent::Stopped), TuneAction::RestoreIpset);
    assert_eq!(run.step(TuneEvent::IpsetRestored), TuneAction::Finish);
    assert_eq!(run.stage, Stage::Done);
    assert!(run.progress.done < run.progress.total);
    assert_eq!(run.step(TuneEvent::Quit), TuneAction::Finish);
}

#[test]
fn quit_before_the_ipset_is_saved_ends_at_once() {
    let mut run = started(vec![(0, strings(&["a.com"]))]);
    assert_eq!(run.step(TuneEvent::Quit), TuneAction::Finish);
    let mut run = started(vec![(0, strings(&["a.com"]))]);
    run.step(TuneEvent::IpsetSaved);
    assert_eq!(run.step(TuneEvent::Quit), TuneAction::RestoreIpset);
    // An event that does not answer the last action changes nothing.
    assert_eq!(run.step(TuneEvent::Stopped), TuneAction::Wait);
    assert_eq!(run.stage, Stage::Restoring);
}
