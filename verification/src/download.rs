//! Getting zapret's nfqws and the strategies repository: the platform's
//! binary directory, the release and archive addresses, the tag to install,
//! and the answers of GitHub's API read with `serde_json`.
use vstd::prelude::*;
use crate::order::strings;
use crate::text;

verus! {

/// The GitHub repository zapret is released from.
pub const ZAPRET_REPO: &'static str = "bol-van/zapret";
/// The zapret release installed when the latest one cannot be named.
pub const ZAPRET_REC_VER: &'static str = "v72.9";
/// The strategies commit that is recommended.
pub const STRAT_REC_VER: &'static str = "ef19845a801e4e743f7bdfdbd58f9745c6adbd60";
/// The archive of the strategies repository's main branch.
pub const STRAT_REPO_ZIP: &'static str = "https://github.com/Flowseal/zapret-discord-youtube/archive/refs/heads/main.zip";
/// The address of a strategies archive up to its version.
pub const STRAT_ARCHIVE_BASE: &'static str = "https://github.com/Flowseal/zapret-discord-youtube/archive/";

/// The directory of zapret's binaries for an operating system and
/// architecture (as `std::env::consts` name them).
pub open spec fn platform_dir(os: Seq<char>, arch: Seq<char>) -> Result<Seq<char>, Seq<char>> {
    if os == "linux"@ {
        if arch == "x86_64"@ {
            Ok("linux-x86_64"@)
        } else if arch == "x86"@ {
            Ok("linux-x86"@)
        } else if arch == "aarch64"@ {
            Ok("linux-arm64"@)
        } else if arch == "arm"@ {
            Ok("linux-arm"@)
        } else if arch == "mips64"@ {
            Ok("linux-mips64"@)
        } else if arch == "mips"@ {
            Ok("linux-mips"@)
        } else {
            Err("Unsupported Linux architecture: "@ + arch)
        }
    } else if os == "macos"@ {
        Ok("mac64"@)
    } else if os == "freebsd"@ {
        Ok("freebsd-x86_64"@)
    } else if os == "windows"@ {
        if arch == "x86_64"@ {
            Ok("windows-x86_64"@)
        } else if arch == "x86"@ {
            Ok("windows-x86"@)
        } else {
            Err("Unsupported Windows architecture: "@ + arch)
        }
    } else {
        Err("Unsupported OS: "@ + os)
    }
}

fn linux_dir(arch: &str) -> (r: Result<&'static str, String>)
    ensures
        match platform_dir("linux"@, arch@) {
            Ok(d) => r matches Ok(s) && s@ == d,
            Err(e) => r matches Err(m) && m@ == e,
        },
{
    if text::eq_str(arch, "x86_64") {
        Ok("linux-x86_64")
    } else if text::eq_str(arch, "x86") {
        Ok("linux-x86")
    } else if text::eq_str(arch, "aarch64") {
        Ok("linux-arm64")
    } else if text::eq_str(arch, "arm") {
        Ok("linux-arm")
    } else if text::eq_str(arch, "mips64") {
        Ok("linux-mips64")
    } else if text::eq_str(arch, "mips") {
        Ok("linux-mips")
    } else {
        Err(String::from_str("Unsupported Linux architecture: ").concat(arch))
    }
}

/// The directory of zapret's binaries for the platform.
pub fn detect_platform_dir(os: &str, arch: &str) -> (r: Result<&'static str, String>)
    ensures
        match platform_dir(os@, arch@) {
            Ok(d) => r matches Ok(s) && s@ == d,
            Err(e) => r matches Err(m) && m@ == e,
        },
{
    if text::eq_str(os, "linux") {
        linux_dir(arch)
    } else if text::eq_str(os, "macos") {
        Ok("mac64")
    } else if text::eq_str(os, "freebsd") {
        Ok("freebsd-x86_64")
    } else if text::eq_str(os, "windows") {
        if text::eq_str(arch, "x86_64") {
            Ok("windows-x86_64")
        } else if text::eq_str(arch, "x86") {
            Ok("windows-x86")
        } else {
            Err(String::from_str("Unsupported Windows architecture: ").concat(arch))
        }
    } else {
        Err(String::from_str("Unsupported OS: ").concat(os))
    }
}

/// The API address that names zapret's latest release.
pub fn latest_release_url() -> (s: String)
    ensures
        s@ == "https://api.github.com/repos/"@ + ZAPRET_REPO@ + "/releases/latest"@,
{
    String::from_str("https://api.github.com/repos/").concat(ZAPRET_REPO).concat("/releases/latest")
}

/// The name a JSON text gives its top-level field `key` as a string: none
/// where the text is no JSON object, has no such field, or the field is no
/// string.
pub uninterp spec fn json_top_string(json: Seq<char>, key: Seq<char>) -> Option<Seq<char>>;

/// Reads the string field `key` of a JSON object with `serde_json`
/// (`from_str` into a `Value`, then `get` and `as_str`); a text that does not
/// parse counts as `null`. The contract names the result after the text and
/// the key alone.
#[verifier::external_body]
fn json_string_field(json: &str, key: &str) -> (r: Option<String>)
    ensures
        crate::ipset::owned_view(r) == json_top_string(json@, key@),
{
    let v: serde_json::Value = serde_json::from_str(json).unwrap_or_default();
    v.get(key).and_then(|t| t.as_str()).map(|t| t.to_string())
}

/// The release tag to install: for `latest`, the `tag_name` of the latest
/// release's API answer `latest_answer` (the recommended version where it
/// has none); any other version is the tag itself.
pub fn release_tag(version: &str, latest_answer: &str) -> (t: String)
    ensures
        version@ == "latest"@ ==> t@ == (match json_top_string(latest_answer@, "tag_name"@) {
            Some(n) => n,
            None => ZAPRET_REC_VER@,
        }),
        version@ != "latest"@ ==> t@ == version@,
{
    if text::eq_str(version, "latest") {
        latest_or_recommended(json_string_field(latest_answer, "tag_name"))
    } else {
        String::from_str(version)
    }
}

/// The tag the latest release's answer names, or the recommended version
/// where it names none.
pub fn latest_or_recommended(tag_name: Option<String>) -> (t: String)
    ensures
        t@ == (match crate::ipset::owned_view(tag_name) {
            Some(n) => n,
            None => ZAPRET_REC_VER@,
        }),
{
    match tag_name {
        Some(n) => n,
        None => String::from_str(ZAPRET_REC_VER),
    }
}

/// The file name of zapret's release archive for a tag.
pub open spec fn archive_name(tag: Seq<char>) -> Seq<char> {
    "zapret-"@ + tag + ".tar.gz"@
}

/// The download address of zapret's release archive for a tag.
pub fn release_archive_url(tag: &str) -> (s: String)
    ensures
        s@ == "https://github.com/"@ + ZAPRET_REPO@ + "/releases/download/"@ + tag@ + "/"@ + archive_name(tag@),
{
    String::from_str("https://github.com/").concat(ZAPRET_REPO).concat("/releases/download/").concat(tag).concat(
        "/",
    ).concat("zapret-").concat(tag).concat(".tar.gz")
}

/// Where the unpacked archive keeps the platform's binaries: under
/// `zapret-<tag>/binaries/<platform>` in the download directory.
pub fn unpacked_binaries_dir(tmp_dir: &str, tag: &str, platform: &str) -> (s: String)
    ensures
        s@ == text::path_join(
            text::path_join(text::path_join(tmp_dir@, "zapret-"@ + tag@), "binaries"@),
            platform@,
        ),
{
    let name = String::from_str("zapret-").concat(tag);
    let top = text::join_path(tmp_dir, name.as_str());
    let bins = text::join_path(top.as_str(), "binaries");
    text::join_path(bins.as_str(), platform)
}

/// The archive of the strategies for a version: the main branch for
/// `latest`, the recommended commit for `recommended`, else the version's own.
pub open spec fn strategies_url(version: Seq<char>) -> Seq<char> {
    if version == "latest"@ {
        STRAT_REPO_ZIP@
    } else if version == "recommended"@ {
        STRAT_ARCHIVE_BASE@ + STRAT_REC_VER@ + ".zip"@
    } else {
        STRAT_ARCHIVE_BASE@ + version + ".zip"@
    }
}

/// The archive of the strategies for a version.
pub fn strategies_zip_url(version: &str) -> (s: String)
    ensures
        s@ == strategies_url(version@),
{
    if text::eq_str(version, "latest") {
        String::from_str(STRAT_REPO_ZIP)
    } else if text::eq_str(version, "recommended") {
        String::from_str(STRAT_ARCHIVE_BASE).concat(STRAT_REC_VER).concat(".zip")
    } else {
        String::from_str(STRAT_ARCHIVE_BASE).concat(version).concat(".zip")
    }
}

/// The outcome of installing both dependencies: the failures, each named
/// after its part, joined by `; `.
pub open spec fn install_result(nfqws: Result<(), Seq<char>>, strategies: Result<(), Seq<char>>) -> Result<(), Seq<char>> {
    match (nfqws, strategies) {
        (Ok(_), Ok(_)) => Ok(()),
        (Err(a), Ok(_)) => Err("nfqws error: "@ + a),
        (Ok(_), Err(b)) => Err("strategies error: "@ + b),
        (Err(a), Err(b)) => Err("nfqws error: "@ + a + "; "@ + "strategies error: "@ + b),
    }
}

/// The view of a result with a string error.
pub open spec fn unit_result(r: Result<(), String>) -> Result<(), Seq<char>> {
    match r {
        Ok(_) => Ok(()),
        Err(e) => Err(e@),
    }
}

/// Combines the outcomes of downloading nfqws and the strategies (a skipped
/// part counts as done).
pub fn install_dependencies(nfqws: Result<(), String>, strategies: Result<(), String>) -> (r: Result<(), String>)
    ensures
        unit_result(r) == install_result(unit_result(nfqws), unit_result(strategies)),
{
    match (nfqws, strategies) {
        (Ok(_), Ok(_)) => Ok(()),
        (Err(a), Ok(_)) => Err(String::from_str("nfqws error: ").concat(a.as_str())),
        (Ok(_), Err(b)) => Err(String::from_str("strategies error: ").concat(b.as_str())),
        (Err(a), Err(b)) => Err(
            String::from_str("nfqws error: ").concat(a.as_str()).concat("; ").concat("strategies error: ").concat(
                b.as_str(),
            ),
        ),
    }
}

/// The API address of a repository's tags.
pub fn tags_url(repo: &str) -> (s: String)
    ensures
        s@ == "https://api.github.com/repos/"@ + repo@ + "/tags"@,
{
    String::from_str("https://api.github.com/repos/").concat(repo).concat("/tags")
}

/// What a JSON text holds as a list of objects' names: the parser's error
/// where it is no JSON; none where it is no array; else, for each element,
/// its `name` field where that is a string.
pub uninterp spec fn json_array_names(json: Seq<char>) -> Result<Option<Seq<Option<Seq<char>>>>, Seq<char>>;

/// The view of the names of an array.
pub open spec fn name_views(v: Seq<Option<String>>) -> Seq<Option<Seq<char>>> {
    v.map_values(|o: Option<String>| crate::ipset::owned_view(o))
}

/// Parses a JSON text with `serde_json` (`from_str` into a `Value`) and
/// reads, when it is an array, each element's `name` as a string (`get`,
/// `as_str`); the parser's error is its display text. The contract names the
/// result after the text alone.
#[verifier::external_body]
fn json_names(json: &str) -> (r: Result<Option<Vec<Option<String>>>, String>)
    ensures
        match json_array_names(json@) {
            Ok(None) => r matches Ok(None),
            Ok(Some(ns)) => r matches Ok(Some(v)) && name_views(v@) == ns,
            Err(e) => r matches Err(m) && m@ == e,
        },
{
    let v: serde_json::Value = serde_json::from_str(json).map_err(|e| e.to_string())?;
    Ok(v.as_array().map(|a| a.iter().map(|i| i.get("name").and_then(|n| n.as_str()).map(|n| n.to_string())).collect()))
}

/// The names present, in order.
pub open spec fn present_names(ns: Seq<Option<Seq<char>>>) -> Seq<Seq<char>>
    decreases ns.len(),
{
    if ns.len() == 0 {
        seq![]
    } else {
        let rest = present_names(ns.drop_last());
        match ns.last() {
            Some(n) => rest.push(n),
            None => rest,
        }
    }
}

/// The tags of a repository from the API's answer: the names of the listed
/// tags, in order (none where the answer is no list).
///
/// # Errors
/// `Failed to parse tags: ` and the parser's message when the answer is no JSON.
pub fn parse_repo_tags(answer: &str) -> (r: Result<Vec<String>, String>)
    ensures
        match json_array_names(answer@) {
            Ok(None) => r matches Ok(v) && v@.len() == 0,
            Ok(Some(ns)) => r matches Ok(v) && strings(v@) == present_names(ns),
            Err(e) => r matches Err(m) && m@ == "Failed to parse tags: "@ + e,
        },
{
    match json_names(answer) {
        Err(e) => Err(String::from_str("Failed to parse tags: ").concat(e.as_str())),
        Ok(None) => Ok(Vec::new()),
        Ok(Some(ns)) => Ok(collect_present(&ns)),
    }
}

/// The names present in a list of optional names, in order.
pub fn collect_present(ns: &Vec<Option<String>>) -> (v: Vec<String>)
    ensures
        strings(v@) == present_names(name_views(ns@)),
{
    let mut v: Vec<String> = Vec::new();
    let mut i: usize = 0;
    while i < ns.len()
        invariant
            i <= ns@.len(),
            strings(v@) == present_names(name_views(ns@.take(i as int))),
        decreases ns.len() - i,
    {
        let ghost before = strings(v@);
        proof {
            assert(ns@.take(i + 1) =~= ns@.take(i as int).push(ns@[i as int]));
            assert(name_views(ns@.take(i + 1)).drop_last() =~= name_views(ns@.take(i as int)));
        }
        match &ns[i] {
            Some(n) => {
                v.push(n.clone());
                proof {
                    assert(strings(v@) =~= before.push(n@));
                }
            },
            None => {},
        }
        i += 1;
    }
    proof {
        assert(ns@.take(ns@.len() as int) =~= ns@);
    }
    v
}

} // verus!
