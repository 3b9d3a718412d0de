use zapret_rust::firewalls::{FirewallBackend, FirewallJob, IptablesBackend, LinuxBackend};
use zapret_rust::nftables::{json_string, NftablesBackend};
use zapret_rust::runner::{is_nfqws_running, nfqws_process_running, run_zapret_silent, run_zapret_silent_ttl};

const STRATEGY: &str = "@echo off\r\nstart \"zapret\" /min \"%BIN%winws.exe\" --wf-tcp=80,443,%GameFilter% --wf-udp=443,%GameFilter% ^\r\n--filter-tcp=80 --dpi-desync=fake --dpi-desync-ttl=4 ^ --new ^\r\n--filter-udp=443 --hostlist=\"%LISTS%list-general.txt\" --dpi-desync=fake --dpi-desync-repeats=6\r\n";

fn strings(v: &[&str]) -> Vec<String> {
    v.iter().map(|s| s.to_string()).collect()
}

#[test]
fn json_strings_are_escaped() {
    let s: String = json_string("a\"b\\c\nd\u{1}").into_iter().collect();
    assert_eq!(s, "\"a\\\"b\\\\c\\nd\\u0001\"");
    let s: String = json_string("eth0").into_iter().collect();
    assert_eq!(s, "\"eth0\"");
}

#[test]
fn nft_setup_ruleset() {
    let r = NftablesBackend.setup_ruleset("80, 443", "", "eth0");
    assert!(r.starts_with("{\"nftables\":[{\"add\":{\"table\":{\"family\":\"ip\",\"name\":\"zapret\"}}},"));
    assert!(r.contains("\"right\":\"eth0\"}},"));
    assert!(r.contains("\"protocol\":\"tcp\",\"field\":\"dport\"}},\"right\":{\"set\":[80,443]}}}"));
    assert!(r.contains("\"comment\":\"zapret-rust-rule-tcp\""));
    assert!(!r.contains("udp"));
    assert!(r.ends_with("]}"));
    let parsed: serde_json::Value = serde_json::from_str(&r).unwrap();
    assert_eq!(parsed["nftables"].as_array().unwrap().len(), 3);
}

#[test]
fn nft_ports_that_do_not_parse_become_zero() {
    let r = NftablesBackend.setup_ruleset("", "50000-50100,x, +7", "any");
    assert!(r.contains("\"set\":[0,0,7]"));
    assert!(!r.contains("oifname"));
    let parsed: serde_json::Value = serde_json::from_str(&r).unwrap();
    assert_eq!(parsed["nftables"].as_array().unwrap().len(), 3);
}

#[test]
fn nft_clear_only_with_table() {
    let b = NftablesBackend;
    assert_eq!(b.clear("{\"nftables\":[{\"metainfo\":{}}]}"), FirewallJob::Nothing);
    match b.clear("{\"nftables\":[{\"table\":{\"family\":\"ip\",\"name\":\"zapret\"}}]}") {
        FirewallJob::Nft(r) => {
            let parsed: serde_json::Value = serde_json::from_str(&r).unwrap();
            assert_eq!(parsed["nftables"].as_array().unwrap().len(), 3);
            assert!(r.contains("\"delete\":{\"table\""));
        }
        other => panic!("unexpected {:?}", other),
    }
}

#[test]
fn iptables_jobs() {
    match IptablesBackend.setup("443, 1000-2000", "", "") {
        FirewallJob::Iptables(cmds) => {
            assert_eq!(cmds.len(), 3);
            assert_eq!(cmds[2][9], "443,1000:2000");
        }
        other => panic!("unexpected {:?}", other),
    }
    match IptablesBackend.clear("") {
        FirewallJob::Iptables(cmds) => assert_eq!(cmds[0], strings(&["-t", "filter", "-D", "OUTPUT", "-j", "zapret_chain"])),
        other => panic!("unexpected {:?}", other),
    }
    assert_eq!(LinuxBackend::from_config("iptables"), LinuxBackend::Iptables);
    assert_eq!(LinuxBackend::from_config("anything"), LinuxBackend::Nftables);
    for b in LinuxBackend::variants() {
        assert_eq!(LinuxBackend::from_config(b.to_config()), b);
    }
}

#[test]
fn silent_launch_without_game_filter() {
    let l = run_zapret_silent("/r/general.bat", STRATEGY, false, false, None).unwrap();
    assert_eq!(l.tcp_ports, "80,443");
    assert_eq!(l.udp_ports, "443");
    assert_eq!(
        l.args,
        strings(&[
            "--dpi-desync-fwmark=0x40000000",
            "--qnum=200",
            "--dpi-desync=fake",
            "--dpi-desync-ttl=4",
            "--new",
            "--hostlist=lists/list-general.txt",
            "--dpi-desync=fake",
            "--dpi-desync-repeats=6",
        ])
    );
}

#[test]
fn silent_launch_with_game_filter_and_ttl() {
    let l = run_zapret_silent_ttl("/r/general.bat", STRATEGY, true, false, 5).unwrap();
    assert_eq!(l.tcp_ports, "80,443,50000-50100");
    assert_eq!(l.udp_ports, "443,50000-50100");
    assert_eq!(
        l.args,
        strings(&[
            "--dpi-desync-fwmark=0x40000000",
            "--qnum=200",
            "--dpi-desync=fake",
            "--new",
            "--dpi-desync-ttl=5",
            "--dpi-desync-ttl6=5",
            "--dpi-desync-autottl=-",
            "--dpi-desync-autottl6=-",
            "--hostlist=lists/list-general.txt",
            "--dpi-desync=fake",
            "--dpi-desync-repeats=6",
            "--dpi-desync-ttl=5",
            "--dpi-desync-ttl6=5",
            "--dpi-desync-autottl=-",
            "--dpi-desync-autottl6=-",
        ])
    );
}

#[test]
fn silent_launch_parse_errors() {
    assert_eq!(
        run_zapret_silent("/r/x.bat", "--wf-tcp=80", false, false, None),
        Err("parse error: --wf-tcp or --wf-udp not found in '/r/x.bat'".to_string())
    );
    assert_eq!(
        run_zapret_silent("/r/x.bat", "--wf-tcp=80 --wf-udp=1 --wf-tcp=2", false, false, None),
        Err("parse error: Multiple --wf-tcp entries found in '/r/x.bat'".to_string())
    );
}

#[test]
fn processes() {
    assert!(!nfqws_process_running(&vec![]));
    assert!(nfqws_process_running(&vec![false, true]));
    assert!(is_nfqws_running(&strings(&["bash", "nfqws"])));
    assert!(!is_nfqws_running(&strings(&["nfqws2", "winws"])));
}

#[test]
fn fixed_ttl_overrides_strategy_ttl() {
    let parsed = zapret_rust::strategy::ParsedStrategy {
        tcp_ports: "443".to_string(),
        udp_ports: String::new(),
        nfqws_params: vec![
            "--filter-tcp=443 --dpi-desync=fake --dpi-desync-ttl=3 \"--dpi-desync-autottl=2\" ^".to_string(),
        ],
    };
    let fixed = zapret_rust::runner::build_args(&parsed, Some(6));
    assert_eq!(
        fixed,
        vec![
            "--dpi-desync-fwmark=0x40000000",
            "--qnum=200",
            "--filter-tcp=443",
            "--dpi-desync=fake",
            "--dpi-desync-ttl=6",
            "--dpi-desync-ttl6=6",
            "--dpi-desync-autottl=-",
            "--dpi-desync-autottl6=-",
        ]
    );
    let own = zapret_rust::runner::build_args(&parsed, None);
    assert_eq!(
        own,
        vec![
            "--dpi-desync-fwmark=0x40000000",
            "--qnum=200",
            "--filter-tcp=443",
            "--dpi-desync=fake",
            "--dpi-desync-ttl=3",
            "--dpi-desync-autottl=2",
        ]
    );
}
