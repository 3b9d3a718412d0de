use zapret_rust::discovery::{check_strategies_installed, get_lists_files, get_strategies, lists_dir, lists_source, ListsSource};
use zapret_rust::download::{
    detect_platform_dir, install_dependencies, latest_release_url, parse_repo_tags, release_archive_url, release_tag, latest_or_recommended, collect_present,
    strategies_zip_url, tags_url, unpacked_binaries_dir,
};
use zapret_rust::fakes::{bin_dir, load_fakes_state, replace_active_fake, scan_bin_dir, FakeTarget};

fn names(v: &[&str]) -> Vec<String> {
    v.iter().map(|s| s.to_string()).collect()
}

#[test]
fn strategies_found_sorted_and_unique() {
    let cache = names(&["b.bat", "notes.txt", "a.bat"]);
    let repo_custom = names(&["a.bat", "c.bat"]);
    let root = names(&["general (ALT).bat", "discord.bat", "other.bat", "general.cmd"]);
    assert_eq!(
        get_strategies(&cache, &repo_custom, &root),
        names(&["a.bat", "b.bat", "c.bat", "discord.bat", "general (ALT).bat"])
    );
}

#[test]
fn strategies_fallback() {
    assert_eq!(get_strategies(&vec![], &names(&["x.txt"]), &names(&["other.bat"])), names(&["discord.bat"]));
}

#[test]
fn strategies_installed() {
    assert!(check_strategies_installed(true, &names(&["general.bat"]), &vec![]));
    assert!(check_strategies_installed(true, &names(&["readme.md"]), &names(&["mine.bat"])));
    assert!(!check_strategies_installed(true, &names(&["readme.md"]), &vec![]));
    assert!(!check_strategies_installed(false, &names(&["general.bat"]), &vec![]));
}

#[test]
fn lists_files() {
    assert_eq!(lists_source(true, true, true, true), ListsSource::ExeLists);
    assert_eq!(lists_source(false, true, true, true), ListsSource::ExeRepo);
    assert_eq!(lists_source(false, false, true, true), ListsSource::LocalLists);
    assert_eq!(lists_source(false, false, false, true), ListsSource::LocalRepo);
    assert_eq!(lists_source(false, false, false, false), ListsSource::Nowhere);
    assert_eq!(lists_dir("/opt/z", ListsSource::ExeLists), "/opt/z/zapret-discord-youtube-linux/lists");
    assert_eq!(lists_dir("/opt/z", ListsSource::LocalRepo), "zapret-discord-youtube-linux");
    let entries = vec![
        ("list-general.txt".to_string(), true),
        ("b.txt".to_string(), true),
        ("sub".to_string(), false),
        ("ipset-all.txt".to_string(), true),
        ("script.bat".to_string(), true),
        (".txt".to_string(), true),
    ];
    assert_eq!(
        get_lists_files(ListsSource::ExeRepo, "/r", &entries),
        names(&["/r/b.txt", "/r/ipset-all.txt", "/r/list-general.txt"])
    );
    assert_eq!(
        get_lists_files(ListsSource::ExeLists, "/r/", &entries),
        names(&["/r/.txt", "/r/b.txt", "/r/ipset-all.txt", "/r/list-general.txt", "/r/script.bat"])
    );
}

#[test]
fn platform_dirs() {
    assert_eq!(detect_platform_dir("linux", "x86_64"), Ok("linux-x86_64"));
    assert_eq!(detect_platform_dir("linux", "aarch64"), Ok("linux-arm64"));
    assert_eq!(detect_platform_dir("linux", "mips"), Ok("linux-mips"));
    assert_eq!(detect_platform_dir("macos", "aarch64"), Ok("mac64"));
    assert_eq!(detect_platform_dir("windows", "x86"), Ok("windows-x86"));
    assert_eq!(
        detect_platform_dir("linux", "riscv64"),
        Err("Unsupported Linux architecture: riscv64".to_string())
    );
    assert_eq!(
        detect_platform_dir("windows", "aarch64"),
        Err("Unsupported Windows architecture: aarch64".to_string())
    );
    assert_eq!(detect_platform_dir("haiku", "x86_64"), Err("Unsupported OS: haiku".to_string()));
}

#[test]
fn release_addresses() {
    assert_eq!(latest_release_url(), "https://api.github.com/repos/bol-van/zapret/releases/latest");
    assert_eq!(
        release_archive_url("v70.1"),
        "https://github.com/bol-van/zapret/releases/download/v70.1/zapret-v70.1.tar.gz"
    );
    assert_eq!(unpacked_binaries_dir("/tmp/d", "v70.1", "linux-x86"), "/tmp/d/zapret-v70.1/binaries/linux-x86");
    assert_eq!(
        strategies_zip_url("latest"),
        "https://github.com/Flowseal/zapret-discord-youtube/archive/refs/heads/main.zip"
    );
    assert_eq!(
        strategies_zip_url("recommended"),
        "https://github.com/Flowseal/zapret-discord-youtube/archive/ef19845a801e4e743f7bdfdbd58f9745c6adbd60.zip"
    );
    assert_eq!(
        strategies_zip_url("1.2.3"),
        "https://github.com/Flowseal/zapret-discord-youtube/archive/1.2.3.zip"
    );
    assert_eq!(tags_url("bol-van/zapret"), "https://api.github.com/repos/bol-van/zapret/tags");
}

#[test]
fn release_tags_from_answers() {
    assert_eq!(release_tag("latest", r#"{"tag_name": "v71.4", "name": "x"}"#), "v71.4");
    assert_eq!(release_tag("latest", "not json"), "v72.9");
    assert_eq!(release_tag("latest", r#"{"tag_name": 5}"#), "v72.9");
    assert_eq!(release_tag("v69", r#"{"tag_name": "v71.4"}"#), "v69");
}

#[test]
fn repo_tags_from_answers() {
    assert_eq!(
        parse_repo_tags(r#"[{"name": "v72"}, {"zipball_url": "x"}, {"name": "v71"}]"#),
        Ok(names(&["v72", "v71"]))
    );
    assert_eq!(parse_repo_tags(r#"{"message": "rate limited"}"#), Ok(vec![]));
    let e = parse_repo_tags("[oops").unwrap_err();
    assert!(e.starts_with("Failed to parse tags: "));
    assert!(e.len() > "Failed to parse tags: ".len());
}

#[test]
fn dependency_outcomes() {
    assert_eq!(install_dependencies(Ok(()), Ok(())), Ok(()));
    assert_eq!(install_dependencies(Err("net".into()), Ok(())), Err("nfqws error: net".to_string()));
    assert_eq!(install_dependencies(Ok(()), Err("zip".into())), Err("strategies error: zip".to_string()));
    assert_eq!(
        install_dependencies(Err("a".into()), Err("b".into())),
        Err("nfqws error: a; strategies error: b".to_string())
    );
}

#[test]
fn fake_scan_and_state() {
    let dir = bin_dir("/repo");
    assert_eq!(dir, "/repo/bin");
    let entries = vec![
        ("tls_clienthello_www_google_com.bin".to_string(), true),
        ("ACTIVE_DISCORD_UDP.bin".to_string(), true),
        ("quic_initial_www_google_com.bin".to_string(), true),
        ("stun.bin.bin".to_string(), true),
        ("folder.bin".to_string(), false),
        ("readme.txt".to_string(), true),
    ];
    let files = scan_bin_dir(&dir, &entries);
    let shown: Vec<&str> = files.iter().map(|f| f.display_name.as_str()).collect();
    assert_eq!(shown, vec!["quic_initial_www_google_com", "stun", "tls_clienthello_www_google_com"]);
    assert_eq!(files[1].filename, "stun.bin.bin");
    assert_eq!(files[1].path, "/repo/bin/stun.bin.bin");

    let state = load_fakes_state(dir.clone(), files.clone(), "stun.bin.bin", "");
    assert_eq!(state.discord_active, Some("stun".to_string()));
    assert_eq!(state.game_active, None);
    let missing = load_fakes_state(dir.clone(), files.clone(), "gone.bin", "quic_initial_www_google_com.bin");
    assert_eq!(missing.discord_active, None);
    assert_eq!(missing.game_active, Some("quic_initial_www_google_com".to_string()));
}

#[test]
fn replacing_a_fake_reads_back() {
    let dir = "/repo/bin".to_string();
    let entries = vec![("a.bin".to_string(), true), ("b.bin".to_string(), true)];
    let files = scan_bin_dir(&dir, &entries);
    let state = load_fakes_state(dir.clone(), files.clone(), "a.bin", "a.bin");
    assert_eq!(FakeTarget::GameUdp.active_filename(), "ACTIVE_GAME_UDP.bin");
    let r = replace_active_fake(&state, FakeTarget::GameUdp, &files[1], ("a.bin", "a.bin"));
    assert_eq!(r.from, "/repo/bin/b.bin");
    assert_eq!(r.to, "/repo/bin/ACTIVE_GAME_UDP.bin");
    assert_eq!(r.discord, "a.bin");
    assert_eq!(r.game, "b.bin");
    let again = load_fakes_state(dir, files, &r.discord, &r.game);
    assert_eq!(again.discord_active, Some("a".to_string()));
    assert_eq!(again.game_active, Some("b".to_string()));
}

#[test]
fn named_results_taken_apart() {
    assert_eq!(latest_or_recommended(Some("v70.1".to_string())), "v70.1");
    assert_eq!(latest_or_recommended(None), "v72.9");
    assert_eq!(
        collect_present(&vec![Some("v2".to_string()), None, Some("v1".to_string())]),
        vec!["v2".to_string(), "v1".to_string()]
    );
}
