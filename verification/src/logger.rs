//! The launch log: the system report written with each nfqws launch, and
//! the texts of the launch and stop entries.
use vstd::prelude::*;
use crate::order::{sort_strings, sorted, strings};
use crate::text;

verus! {

broadcast use vstd::seq_lib::group_to_multiset_ensures;

/// What the host tells about itself, as the report needs it.
#[derive(Debug, Clone)]
pub struct SystemFacts {
    /// The operating system (`std::env::consts::OS`).
    pub os: String,
    /// The architecture (`std::env::consts::ARCH`).
    pub arch: String,
    /// The kernel version, where known.
    pub kernel: Option<String>,
    /// The long name of the distribution, where known.
    pub long_os_version: Option<String>,
    /// The short name of the distribution, where known.
    pub os_name: Option<String>,
    /// The text of `/proc/modules` (empty where it cannot be read).
    pub modules: String,
    /// Whether `nft --version` succeeds.
    pub nft_ok: bool,
    /// Whether `iptables --version` succeeds.
    pub iptables_ok: bool,
    /// Whether `iptables-nft --version` succeeds.
    pub iptables_nft_ok: bool,
    /// The network interfaces, where `/sys/class/net` can be read.
    pub interfaces: Option<Vec<String>>,
    /// Whether the nfqws binary is installed.
    pub nfqws_installed: bool,
    /// The standard output of `nfqws --version`, where it ran and is UTF-8.
    pub version_out: Option<String>,
    /// The error output of `nfqws --version`, where it ran and is UTF-8.
    pub version_err: Option<String>,
    /// Whether the strategies repository exists.
    pub strategies_dir: bool,
    /// The file names at the repository root and in its `custom-strategies`.
    pub strategy_names: Vec<String>,
    /// The text of the repository's `.service/version.txt` (empty without one).
    pub strategies_version: String,
    /// The user name (`USER`, else `USERNAME`, else empty).
    pub user: String,
    /// The cache directory.
    pub cache_dir: String,
}

/// Whether a kernel module belongs to netfilter.
pub open spec fn is_nf_module(name: Seq<char>) -> bool {
    ||| text::starts_with(name, "nf_"@)
    ||| text::starts_with(name, "nft_"@)
    ||| text::starts_with(name, "ip_t"@)
    ||| text::starts_with(name, "ip6_t"@)
    ||| text::starts_with(name, "iptable"@)
    ||| text::starts_with(name, "ip6table"@)
    ||| name == "arptables"@
    ||| name == "ebtables"@
}

/// The netfilter modules among the lines of `/proc/modules` (the first word
/// of each line is the module's name).
pub open spec fn nf_modules(ls: Seq<Seq<char>>) -> Seq<Seq<char>>
    decreases ls.len(),
{
    if ls.len() == 0 {
        seq![]
    } else {
        let rest = nf_modules(ls.drop_last());
        let ws = text::split_ws(ls.last());
        if ws.len() > 0 && is_nf_module(ws[0]) {
            rest.push(ws[0])
        } else {
            rest
        }
    }
}

/// The report's line about netfilter modules.
pub open spec fn modules_line(modules: Seq<char>) -> Seq<char> {
    let m = nf_modules(text::lines(modules));
    if m.len() == 0 {
        "Netfilter modules: none loaded"@
    } else {
        "Netfilter modules: "@ + text::join(m, ", "@)
    }
}

/// The report's line about a tool.
pub open spec fn tool_line(tool: Seq<char>, ok: bool) -> Seq<char> {
    tool + ": "@ + if ok {
        "available"@
    } else {
        "not found"@
    }
}

/// The first line of a text, trimmed (empty for an empty text).
pub open spec fn first_line(s: Seq<char>) -> Seq<char> {
    let ls = text::lines(s);
    if ls.len() > 0 {
        text::trim(ls[0])
    } else {
        seq![]
    }
}

/// The view of an optional owned string.
pub open spec fn opt(o: Option<String>) -> Option<Seq<char>> {
    crate::ipset::owned_view(o)
}

/// The version of nfqws it reported: the first line of its standard output,
/// else of its error output; empty when neither has one.
pub open spec fn reported_version(out: Option<Seq<char>>, err: Option<Seq<char>>) -> Seq<char> {
    let o = match out {
        Some(s) => first_line(s),
        None => seq![],
    };
    let e = match err {
        Some(s) => first_line(s),
        None => seq![],
    };
    if o.len() > 0 {
        o
    } else {
        e
    }
}

/// The number of strategy scripts among file names.
pub open spec fn bat_count(names: Seq<Seq<char>>) -> nat
    decreases names.len(),
{
    if names.len() == 0 {
        0
    } else {
        bat_count(names.drop_last()) + if crate::discovery::is_bat(names.last()) {
            1nat
        } else {
            0nat
        }
    }
}

/// The report's lines about the host, the binary and the strategies, before
/// and after the interfaces (the interfaces line, when there is one, goes
/// between the two).
pub open spec fn info_head(f: SystemFacts) -> Seq<Seq<char>> {
    let kernel = match opt(f.kernel) {
        Some(v) => seq!["Kernel: "@ + v],
        None => seq![],
    };
    let distro = match opt(f.long_os_version) {
        Some(n) => seq!["Distro: "@ + n],
        None => match opt(f.os_name) {
            Some(n) => seq!["Distro: "@ + n],
            None => seq![],
        },
    };
    seq!["OS: "@ + f.os@, "Arch: "@ + f.arch@] + kernel + distro + seq![
        modules_line(f.modules@),
        tool_line("nft"@, f.nft_ok),
        tool_line("iptables"@, f.iptables_ok),
        tool_line("iptables-nft"@, f.iptables_nft_ok),
    ]
}

/// The lines after the interfaces.
pub open spec fn info_tail(f: SystemFacts) -> Seq<Seq<char>> {
    let v = reported_version(opt(f.version_out), opt(f.version_err));
    let bin = if f.nfqws_installed {
        seq!["nfqws: installed"@] + if v.len() > 0 {
            seq!["nfqws version: "@ + v]
        } else {
            seq![]
        }
    } else {
        seq!["nfqws: not installed"@]
    };
    let ver = text::trim(f.strategies_version@);
    let count = text::decimal(bat_count(strings(f.strategy_names@)));
    let strat = if !f.strategies_dir {
        "Strategies: not installed"@
    } else if ver.len() == 0 {
        "Strategies: "@ + count + " .bat files"@
    } else {
        "Strategies: "@ + count + " .bat files (version "@ + ver + ")"@
    };
    bin + seq![strat, "User: "@ + f.user@, "Cache dir: "@ + f.cache_dir@]
}

/// The interfaces line for the interfaces in the order they are listed.
pub open spec fn interfaces_line(ifs: Seq<Seq<char>>) -> Seq<char> {
    "Interfaces: "@ + if ifs.len() == 0 {
        "none"@
    } else {
        text::join(ifs, ", "@)
    }
}

fn prefixed(p: &str, s: &str) -> (r: String)
    ensures
        r@ == p@ + s@,
{
    String::from_str(p).concat(s)
}

fn modules_text(modules: &str) -> (r: String)
    ensures
        r@ == modules_line(modules@),
{
    let cs = text::to_chars(modules);
    let ls = text::split_lines(cs.as_slice());
    let ghost lv = ls.deep_view();
    let mut found: Vec<Vec<char>> = Vec::new();
    let mut i: usize = 0;
    while i < ls.len()
        invariant
            i <= ls@.len(),
            lv == ls.deep_view(),
            lv == text::lines(modules@),
            found.deep_view() == nf_modules(lv.take(i as int)),
        decreases ls.len() - i,
    {
        assert(ls[i as int].deep_view() =~= ls[i as int]@);
        proof {
            assert(lv.take(i + 1).drop_last() =~= lv.take(i as int));
        }
        let ws = text::split_whitespace_chars(ls[i].as_slice());
        if ws.len() > 0 {
            assert(ws[0].deep_view() =~= ws@[0]@);
            if is_nf_name(ws[0].as_slice()) {
                let ghost before = found.deep_view();
                let w = ws[0].clone();
                assert(w.deep_view() =~= w@);
                found.push(w);
                assert(found.deep_view() =~= before.push(w@));
            }
        }
        i += 1;
    }
    assert(lv.take(lv.len() as int) =~= lv);
    if found.len() == 0 {
        String::from_str("Netfilter modules: none loaded")
    } else {
        let sep = text::to_chars(", ");
        let joined = text::join_chars(&found, sep.as_slice());
        prefixed("Netfilter modules: ", text::from_chars(joined.as_slice()).as_str())
    }
}

fn is_nf_name(n: &[char]) -> (b: bool)
    ensures
        b == is_nf_module(n@),
{
    let p1 = text::to_chars("nf_");
    let p2 = text::to_chars("nft_");
    let p3 = text::to_chars("ip_t");
    let p4 = text::to_chars("ip6_t");
    let p5 = text::to_chars("iptable");
    let p6 = text::to_chars("ip6table");
    let a = text::to_chars("arptables");
    let e = text::to_chars("ebtables");
    text::has_prefix(n, p1.as_slice()) || text::has_prefix(n, p2.as_slice()) || text::has_prefix(
        n,
        p3.as_slice(),
    ) || text::has_prefix(n, p4.as_slice()) || text::has_prefix(n, p5.as_slice()) || text::has_prefix(
        n,
        p6.as_slice(),
    ) || text::eq_chars(n, a.as_slice()) || text::eq_chars(n, e.as_slice())
}

fn tool_text(tool: &str, ok: bool) -> (r: String)
    ensures
        r@ == tool_line(tool@, ok),
{
    String::from_str(tool).concat(": ").concat(if ok { "available" } else { "not found" })
}

fn first_line_of(s: &str) -> (r: Vec<char>)
    ensures
        r@ == first_line(s@),
{
    let cs = text::to_chars(s);
    let ls = text::split_lines(cs.as_slice());
    if ls.len() > 0 {
        assert(ls[0].deep_view() =~= ls@[0]@);
        text::trim_chars(ls[0].as_slice())
    } else {
        Vec::new()
    }
}

fn opt_first_line(o: &Option<String>) -> (r: Vec<char>)
    ensures
        r@ == (match opt(*o) {
            Some(s) => first_line(s),
            None => seq![],
        }),
{
    match o {
        Some(s) => first_line_of(s.as_str()),
        None => Vec::new(),
    }
}

fn count_bats(names: &Vec<String>) -> (n: usize)
    ensures
        n == bat_count(strings(names@)),
{
    let mut n: usize = 0;
    let mut i: usize = 0;
    while i < names.len()
        invariant
            i <= names@.len(),
            n == bat_count(strings(names@.take(i as int))),
            n <= i,
        decreases names.len() - i,
    {
        proof {
            assert(strings(names@.take(i + 1)).drop_last() =~= strings(names@.take(i as int)));
        }
        let c = text::to_chars(names[i].as_str());
        let bat = text::to_chars(".bat");
        if text::has_suffix(c.as_slice(), bat.as_slice()) {
            n += 1;
        }
        i += 1;
    }
    assert(names@.take(names@.len() as int) =~= names@);
    n
}

fn push_line(v: &mut Vec<String>, s: String)
    ensures
        strings(final(v)@) == strings(old(v)@).push(s@),
{
    let ghost before = strings(v@);
    v.push(s);
    assert(strings(v@) =~= before.push(s@));
}

fn head_lines(f: &SystemFacts) -> (v: Vec<String>)
    ensures
        strings(v@) == info_head(*f),
{
    let mut v: Vec<String> = Vec::new();
    push_line(&mut v, prefixed("OS: ", f.os.as_str()));
    push_line(&mut v, prefixed("Arch: ", f.arch.as_str()));
    let ghost base = strings(v@);
    match &f.kernel {
        Some(k) => push_line(&mut v, prefixed("Kernel: ", k.as_str())),
        None => {},
    }
    let ghost with_kernel = strings(v@);
    match &f.long_os_version {
        Some(n) => push_line(&mut v, prefixed("Distro: ", n.as_str())),
        None => match &f.os_name {
            Some(n) => push_line(&mut v, prefixed("Distro: ", n.as_str())),
            None => {},
        },
    }
    let ghost with_distro = strings(v@);
    push_line(&mut v, modules_text(f.modules.as_str()));
    push_line(&mut v, tool_text("nft", f.nft_ok));
    push_line(&mut v, tool_text("iptables", f.iptables_ok));
    push_line(&mut v, tool_text("iptables-nft", f.iptables_nft_ok));
    assert(strings(v@) =~= info_head(*f));
    v
}

fn tail_lines(f: &SystemFacts) -> (v: Vec<String>)
    ensures
        strings(v@) == info_tail(*f),
{
    let mut v: Vec<String> = Vec::new();
    if f.nfqws_installed {
        push_line(&mut v, String::from_str("nfqws: installed"));
        let o = opt_first_line(&f.version_out);
        let e = opt_first_line(&f.version_err);
        let ver = if o.len() > 0 {
            o
        } else {
            e
        };
        if ver.len() > 0 {
            push_line(&mut v, prefixed("nfqws version: ", text::from_chars(ver.as_slice()).as_str()));
        }
    } else {
        push_line(&mut v, String::from_str("nfqws: not installed"));
    }
    let count = count_bats(&f.strategy_names);
    let cs = text::decimal_chars(count);
    let c = text::from_chars(cs.as_slice());
    let ver = text::trim_str(f.strategies_version.as_str());
    let strat = if !f.strategies_dir {
        String::from_str("Strategies: not installed")
    } else if ver.as_str().is_empty() {
        String::from_str("Strategies: ").concat(c.as_str()).concat(" .bat files")
    } else {
        String::from_str("Strategies: ").concat(c.as_str()).concat(" .bat files (version ").concat(
            ver.as_str(),
        ).concat(")")
    };
    push_line(&mut v, strat);
    push_line(&mut v, prefixed("User: ", f.user.as_str()));
    push_line(&mut v, prefixed("Cache dir: ", f.cache_dir.as_str()));
    assert(strings(v@) =~= info_tail(*f));
    v
}

fn interfaces_text(ifs: &Vec<String>) -> (r: String)
    ensures
        r@ == interfaces_line(strings(ifs@)),
{
    if ifs.len() == 0 {
        return prefixed("Interfaces: ", "none");
    }
    let mut parts: Vec<Vec<char>> = Vec::new();
    let mut i: usize = 0;
    while i < ifs.len()
        invariant
            i <= ifs@.len(),
            parts.deep_view() == strings(ifs@.take(i as int)),
        decreases ifs.len() - i,
    {
        let ghost before = parts.deep_view();
        let c = text::to_chars(ifs[i].as_str());
        assert(c.deep_view() =~= c@);
        parts.push(c);
        proof {
            assert(parts.deep_view() =~= before.push(ifs@[i as int]@));
            assert(strings(ifs@.take(i + 1)) =~= strings(ifs@.take(i as int)).push(ifs@[i as int]@));
        }
        i += 1;
    }
    assert(ifs@.take(ifs@.len() as int) =~= ifs@);
    let sep = text::to_chars(", ");
    let joined = text::join_chars(&parts, sep.as_slice());
    prefixed("Interfaces: ", text::from_chars(joined.as_slice()).as_str())
}

/// The system report of a launch log: the host's OS, architecture, kernel,
/// distribution, netfilter modules and firewall tools, its interfaces in
/// ascending order (where they can be listed), the nfqws binary and its
/// version, the strategies, the user and the cache directory.
pub fn collect_system_info(f: &SystemFacts) -> (r: Vec<String>)
    ensures
        match f.interfaces {
            None => strings(r@) == info_head(*f) + info_tail(*f),
            Some(ifs) => exists|sorted_ifs: Seq<Seq<char>>|
                sorted(sorted_ifs) && sorted_ifs.to_multiset() == strings(ifs@).to_multiset()
                    && strings(r@) == info_head(*f) + seq![interfaces_line(sorted_ifs)] + info_tail(*f),
        },
{
    let mut v = head_lines(f);
    let ghost head = strings(v@);
    match &f.interfaces {
        Some(ifs) => {
            let mut copy: Vec<String> = Vec::new();
            let mut i: usize = 0;
            while i < ifs.len()
                invariant
                    i <= ifs@.len(),
                    strings(copy@) == strings(ifs@.take(i as int)),
                decreases ifs.len() - i,
            {
                let ghost before = strings(copy@);
                copy.push(ifs[i].clone());
                proof {
                    assert(strings(copy@) =~= before.push(ifs@[i as int]@));
                    assert(strings(ifs@.take(i + 1)) =~= strings(ifs@.take(i as int)).push(ifs@[i as int]@));
                }
                i += 1;
            }
            assert(ifs@.take(ifs@.len() as int) =~= ifs@);
            let s = sort_strings(copy);
            push_line(&mut v, interfaces_text(&s));
            let ghost mid = strings(v@);
            let mut t = tail_lines(f);
            v.append(&mut t);
            proof {
                assert(strings(v@) =~= mid + info_tail(*f));
                assert(strings(v@) =~= info_head(*f) + seq![interfaces_line(strings(s@))] + info_tail(*f));
            }
        },
        None => {
            let mut t = tail_lines(f);
            v.append(&mut t);
            assert(strings(v@) =~= info_head(*f) + info_tail(*f));
        },
    }
    v
}

/// Lines, each followed by a newline.
pub open spec fn block(ls: Seq<Seq<char>>) -> Seq<char> {
    text::terminated(ls)
}

/// The launch entry that replaces the log: a header with the time, the
/// system report, the config file's text, the terminal output (where there
/// is some), and the binary and the strategy's parameters.
pub open spec fn launch_log(
    ts: Seq<char>,
    info: Seq<Seq<char>>,
    config: Seq<char>,
    terminal: Seq<Seq<char>>,
    bin: Seq<char>,
    params: Seq<Seq<char>>,
) -> Seq<char> {
    let term = if terminal.len() > 0 {
        block(seq!["--- Terminal ---"@] + terminal + seq![seq![]])
    } else {
        seq![]
    };
    block(seq!["===== nfqws | "@ + ts + " ====="@, seq![], "--- System Info ---"@] + info + seq![seq![]])
        + block(seq!["--- Config ---"@]) + config + seq!['\n'] + term + block(
        seq!["--- Strategy params ---"@, "binary: "@ + bin] + params,
    )
}

fn add_lines(out: &mut Vec<char>, ls: &Vec<String>)
    ensures
        final(out)@ == old(out)@ + block(strings(ls@)),
{
    let mut parts: Vec<Vec<char>> = Vec::new();
    let mut i: usize = 0;
    while i < ls.len()
        invariant
            i <= ls@.len(),
            parts.deep_view() == strings(ls@.take(i as int)),
        decreases ls.len() - i,
    {
        let ghost before = parts.deep_view();
        let c = text::to_chars(ls[i].as_str());
        assert(c.deep_view() =~= c@);
        parts.push(c);
        proof {
            assert(parts.deep_view() =~= before.push(ls@[i as int]@));
            assert(strings(ls@.take(i + 1)) =~= strings(ls@.take(i as int)).push(ls@[i as int]@));
        }
        i += 1;
    }
    assert(ls@.take(ls@.len() as int) =~= ls@);
    let t = text::terminated_chars(&parts);
    text::push_all(out, t.as_slice());
}

fn add_line(out: &mut Vec<char>, l: &str)
    ensures
        final(out)@ == old(out)@ + block(seq![l@]),
{
    let ghost before = out@;
    text::push_str(out, l);
    out.push('\n');
    proof {
        let ls = seq![l@];
        assert(ls.drop_last() =~= Seq::<Seq<char>>::empty());
        text::lemma_terminated_push(Seq::<Seq<char>>::empty(), l@);
        assert(Seq::<Seq<char>>::empty().push(l@) =~= ls);
        assert(out@ =~= before + block(seq![l@]));
    }
}

/// The text of the launch entry.
pub fn launch_log_text(
    ts: &str,
    info: &Vec<String>,
    config: &str,
    terminal: &Vec<String>,
    bin: &str,
    params: &Vec<String>,
) -> (r: String)
    ensures
        r@ == launch_log(ts@, strings(info@), config@, strings(terminal@), bin@, strings(params@)),
{
    let mut out: Vec<char> = Vec::new();
    let head = String::from_str("===== nfqws | ").concat(ts).concat(" =====");
    let mut first: Vec<String> = Vec::new();
    assert(strings(first@) =~= Seq::<Seq<char>>::empty());
    push_line(&mut first, head);
    push_line(&mut first, String::new());
    push_line(&mut first, String::from_str("--- System Info ---"));
    let ghost f0 = strings(first@);
    assert(f0 =~= seq!["===== nfqws | "@ + ts@ + " ====="@, seq![], "--- System Info ---"@]);
    let mut i: usize = 0;
    while i < info.len()
        invariant
            i <= info@.len(),
            strings(first@) == f0 + strings(info@.take(i as int)),
        decreases info.len() - i,
    {
        push_line(&mut first, info[i].clone());
        proof {
            assert(strings(info@.take(i + 1)) =~= strings(info@.take(i as int)).push(info@[i as int]@));
        }
        i += 1;
    }
    assert(info@.take(info@.len() as int) =~= info@);
    push_line(&mut first, String::new());
    assert(strings(first@) =~= seq!["===== nfqws | "@ + ts@ + " ====="@, seq![], "--- System Info ---"@]
        + strings(info@) + seq![seq![]]);
    add_lines(&mut out, &first);
    let ghost after_first = out@;
    add_line(&mut out, "--- Config ---");
    text::push_str(&mut out, config);
    out.push('\n');
    let ghost before_term = out@;
    if terminal.len() > 0 {
        let mut t: Vec<String> = Vec::new();
        assert(strings(t@) =~= Seq::<Seq<char>>::empty());
        push_line(&mut t, String::from_str("--- Terminal ---"));
        let ghost t0 = strings(t@);
        assert(t0 =~= seq!["--- Terminal ---"@]);
        let mut j: usize = 0;
        while j < terminal.len()
            invariant
                j <= terminal@.len(),
                strings(t@) == t0 + strings(terminal@.take(j as int)),
            decreases terminal.len() - j,
        {
            push_line(&mut t, terminal[j].clone());
            proof {
                assert(strings(terminal@.take(j + 1)) =~= strings(terminal@.take(j as int)).push(
                    terminal@[j as int]@,
                ));
            }
            j += 1;
        }
        assert(terminal@.take(terminal@.len() as int) =~= terminal@);
        push_line(&mut t, String::new());
        assert(strings(t@) =~= seq!["--- Terminal ---"@] + strings(terminal@) + seq![seq![]]);
        add_lines(&mut out, &t);
    }
    let ghost after_term = out@;
    let mut last: Vec<String> = Vec::new();
    assert(strings(last@) =~= Seq::<Seq<char>>::empty());
    push_line(&mut last, String::from_str("--- Strategy params ---"));
    push_line(&mut last, String::from_str("binary: ").concat(bin));
    let ghost l0 = strings(last@);
    assert(l0 =~= seq!["--- Strategy params ---"@, "binary: "@ + bin@]);
    let mut k: usize = 0;
    while k < params.len()
        invariant
            k <= params@.len(),
            strings(last@) == l0 + strings(params@.take(k as int)),
        decreases params.len() - k,
    {
        push_line(&mut last, params[k].clone());
        proof {
            assert(strings(params@.take(k + 1)) =~= strings(params@.take(k as int)).push(params@[k as int]@));
        }
        k += 1;
    }
    assert(params@.take(params@.len() as int) =~= params@);
    assert(strings(last@) =~= seq!["--- Strategy params ---"@, "binary: "@ + bin@] + strings(params@));
    add_lines(&mut out, &last);
    assert(out@ =~= launch_log(ts@, strings(info@), config@, strings(terminal@), bin@, strings(params@)));
    text::from_chars(out.as_slice())
}

/// The stop entry appended to the log: an empty line, a header with the
/// time, and the stop's output.
pub open spec fn stop_log(ts: Seq<char>, output: Seq<Seq<char>>) -> Seq<char> {
    seq!['\n'] + block(seq!["===== stop | "@ + ts + " ====="@] + output)
}

/// The text of the stop entry.
pub fn log_stop_text(ts: &str, output: &Vec<String>) -> (r: String)
    ensures
        r@ == stop_log(ts@, strings(output@)),
{
    let mut out: Vec<char> = Vec::new();
    out.push('\n');
    let mut ls: Vec<String> = Vec::new();
    assert(strings(ls@) =~= Seq::<Seq<char>>::empty());
    push_line(&mut ls, String::from_str("===== stop | ").concat(ts).concat(" ====="));
    let ghost l0 = strings(ls@);
    assert(l0 =~= seq!["===== stop | "@ + ts@ + " ====="@]);
    let mut i: usize = 0;
    while i < output.len()
        invariant
            i <= output@.len(),
            strings(ls@) == l0 + strings(output@.take(i as int)),
        decreases output.len() - i,
    {
        push_line(&mut ls, output[i].clone());
        proof {
            assert(strings(output@.take(i + 1)) =~= strings(output@.take(i as int)).push(output@[i as int]@));
        }
        i += 1;
    }
    assert(output@.take(output@.len() as int) =~= output@);
    add_lines(&mut out, &ls);
    assert(strings(ls@) =~= seq!["===== stop | "@ + ts@ + " ====="@] + strings(output@));
    assert(out@ =~= stop_log(ts@, strings(output@)));
    text::from_chars(out.as_slice())
}

} // verus!
