//! What a zapret launch is made of: where its files are, the game-filter
//! ports, and the nfqws command line built from a parsed strategy.
use vstd::prelude::*;
use crate::strategy::{GameFilterPorts, ParsedStrategy};
use crate::text;
use crate::text::{
    decimal_chars, eq_chars, from_chars, has_prefix, join_path, push_str, replace_chars,
    split_whitespace_chars, to_chars,
};

verus! {

/// The port range that the game filter opens.
pub open spec fn game_ports() -> Seq<char> {
    "50000-50100"@
}

/// The game-filter ports to use: present when either game filter is enabled.
pub fn game_filter(use_tcp: bool, use_udp: bool) -> (g: Option<GameFilterPorts>)
    ensures
        g is Some <==> (use_tcp || use_udp),
        g matches Some(p) ==> p.ports@ == game_ports() && p.tcp_ports@ == game_ports()
            && p.udp_ports@ == game_ports(),
{
    if use_tcp || use_udp {
        Some(
            GameFilterPorts {
                ports: String::from_str("50000-50100"),
                tcp_ports: String::from_str("50000-50100"),
                udp_ports: String::from_str("50000-50100"),
            },
        )
    } else {
        None
    }
}

/// The directory of the strategies repository: `REPO_DIR` when it is set,
/// otherwise `zapret-discord-youtube-linux` inside the cache directory.
pub fn repo_path(repo_dir_env: Option<&str>, cache_dir: &str) -> (p: String)
    ensures
        p@ == match repo_dir_env {
            Some(d) => d@,
            None => text::path_join(cache_dir@, "zapret-discord-youtube-linux"@),
        },
{
    match repo_dir_env {
        Some(d) => String::from_str(d),
        None => join_path(cache_dir, "zapret-discord-youtube-linux"),
    }
}

/// Where a custom strategy of this name would be.
pub fn custom_strategy_path(repo: &str, strategy_file: &str) -> (p: String)
    ensures
        p@ == text::path_join(text::path_join(repo@, "custom-strategies"@), strategy_file@),
{
    let dir = join_path(repo, "custom-strategies");
    join_path(dir.as_str(), strategy_file)
}

/// The strategy file to run: the custom one when it exists, else the one in the
/// repository root.
pub fn strategy_file_path(repo: &str, strategy_file: &str, custom_exists: bool) -> (p: String)
    ensures
        p@ == (if custom_exists {
            text::path_join(text::path_join(repo@, "custom-strategies"@), strategy_file@)
        } else {
            text::path_join(repo@, strategy_file@)
        }),
{
    if custom_exists {
        custom_strategy_path(repo, strategy_file)
    } else {
        join_path(repo, strategy_file)
    }
}

/// The nfqws binary inside the cache directory.
pub fn bin_path(cache_dir: &str) -> (p: String)
    ensures
        p@ == text::path_join(text::path_join(cache_dir@, "bin"@), "nfqws"@),
{
    let dir = join_path(cache_dir, "bin");
    join_path(dir.as_str(), "nfqws")
}

/// The user list files that must exist (possibly empty) before nfqws starts.
pub fn user_list_paths(repo: &str) -> (v: Vec<String>)
    ensures
        v@.len() == 3,
        v@[0]@ == text::path_join(text::path_join(repo@, "lists"@), "list-general-user.txt"@),
        v@[1]@ == text::path_join(text::path_join(repo@, "lists"@), "list-exclude-user.txt"@),
        v@[2]@ == text::path_join(text::path_join(repo@, "lists"@), "ipset-exclude-user.txt"@),
{
    let dir = join_path(repo, "lists");
    let mut v: Vec<String> = Vec::new();
    v.push(join_path(dir.as_str(), "list-general-user.txt"));
    v.push(join_path(dir.as_str(), "list-exclude-user.txt"));
    v.push(join_path(dir.as_str(), "ipset-exclude-user.txt"));
    v
}

/// A token of a strategy argument group with its double quotes removed.
pub open spec fn unquote(t: Seq<char>) -> Seq<char> {
    text::replace_all(t, "\""@, Seq::empty())
}

/// Whether a token is passed on to nfqws: empty tokens and `^` never are, and
/// with a fixed TTL the strategy's own TTL settings are left out.
pub open spec fn keep_token(t: Seq<char>, fixed_ttl: bool) -> bool {
    &&& t.len() > 0
    &&& t != "^"@
    &&& !(fixed_ttl && (text::starts_with(t, "--dpi-desync-ttl"@) || text::starts_with(
        t,
        "--dpi-desync-autottl"@,
    )))
}

/// The unquoted, kept tokens among `ts`, in order.
pub open spec fn kept_tokens(ts: Seq<Seq<char>>, fixed_ttl: bool) -> Seq<Seq<char>>
    decreases ts.len(),
{
    if ts.len() == 0 {
        seq![]
    } else {
        let rest = kept_tokens(ts.drop_last(), fixed_ttl);
        let t = unquote(ts.last());
        if keep_token(t, fixed_ttl) {
            rest.push(t)
        } else {
            rest
        }
    }
}

/// The options that fix the DPI TTL, added at the end of each group.
pub open spec fn ttl_options(ttl: Option<u8>) -> Seq<Seq<char>> {
    match ttl {
        Some(t) => seq![
            "--dpi-desync-ttl="@ + text::decimal(t as nat),
            "--dpi-desync-ttl6="@ + text::decimal(t as nat),
            "--dpi-desync-autottl=-"@,
            "--dpi-desync-autottl6=-"@,
        ],
        None => seq![],
    }
}

/// The arguments one strategy group contributes.
pub open spec fn group_args(param: Seq<char>, ttl: Option<u8>) -> Seq<Seq<char>> {
    kept_tokens(text::split_ws(param), ttl is Some) + ttl_options(ttl)
}

/// The arguments of all groups, in order.
pub open spec fn groups_args(params: Seq<Seq<char>>, ttl: Option<u8>) -> Seq<Seq<char>>
    decreases params.len(),
{
    if params.len() == 0 {
        seq![]
    } else {
        groups_args(params.drop_last(), ttl) + group_args(params.last(), ttl)
    }
}

/// The full nfqws command line for a parsed strategy.
pub open spec fn nfqws_args(params: Seq<Seq<char>>, ttl: Option<u8>) -> Seq<Seq<char>> {
    seq!["--dpi-desync-fwmark=0x40000000"@, "--qnum=200"@] + groups_args(params, ttl)
}

/// Whether an argument sets the DPI TTL (plain or automatic).
pub open spec fn sets_ttl(a: Seq<char>) -> bool {
    text::starts_with(a, "--dpi-desync-ttl"@) || text::starts_with(a, "--dpi-desync-autottl"@)
}

proof fn lemma_kept_tokens_kept(ts: Seq<Seq<char>>, fixed_ttl: bool)
    ensures
        forall|k: int|
            0 <= k < kept_tokens(ts, fixed_ttl).len() ==> keep_token(
                #[trigger] kept_tokens(ts, fixed_ttl)[k],
                fixed_ttl,
            ),
    decreases ts.len(),
{
    if ts.len() > 0 {
        let rest = kept_tokens(ts.drop_last(), fixed_ttl);
        lemma_kept_tokens_kept(ts.drop_last(), fixed_ttl);
        let u = unquote(ts.last());
        if keep_token(u, fixed_ttl) {
            assert(kept_tokens(ts, fixed_ttl) == rest.push(u));
            assert forall|k: int| 0 <= k < rest.push(u).len() implies keep_token(
                #[trigger] rest.push(u)[k],
                fixed_ttl,
            ) by {
                if k < rest.len() {
                    assert(rest.push(u)[k] == rest[k]);
                }
            }
        }
    }
}

proof fn lemma_groups_fixed_ttl(params: Seq<Seq<char>>, t: u8)
    ensures
        forall|k: int|
            0 <= k < groups_args(params, Some(t)).len() && sets_ttl(
                #[trigger] groups_args(params, Some(t))[k],
            ) ==> ttl_options(Some(t)).contains(groups_args(params, Some(t))[k]),
    decreases params.len(),
{
    if params.len() > 0 {
        let front = groups_args(params.drop_last(), Some(t));
        let kept = kept_tokens(text::split_ws(params.last()), true);
        let opts = ttl_options(Some(t));
        lemma_groups_fixed_ttl(params.drop_last(), t);
        lemma_kept_tokens_kept(text::split_ws(params.last()), true);
        let all = groups_args(params, Some(t));
        assert(all =~= front + kept + opts);
        assert forall|k: int| 0 <= k < all.len() && sets_ttl(#[trigger] all[k]) implies opts.contains(all[k]) by {
            if k < front.len() {
                assert(all[k] == front[k]);
            } else if k < front.len() + kept.len() {
                assert(all[k] == kept[k - front.len()]);
                assert(keep_token(kept[k - front.len()], true));
            } else {
                assert(all[k] == opts[k - front.len() - kept.len()]);
            }
        }
    }
}

/// A fixed TTL overrides the strategy's own TTL settings: with a fixed TTL,
/// every argument of the nfqws command line that sets the TTL is one of the
/// fixed-TTL options, and every strategy group ends with all of them.
pub proof fn lemma_fixed_ttl_overrides(params: Seq<Seq<char>>, t: u8)
    ensures
        forall|k: int|
            0 <= k < nfqws_args(params, Some(t)).len() && sets_ttl(#[trigger] nfqws_args(params, Some(t))[k])
                ==> ttl_options(Some(t)).contains(nfqws_args(params, Some(t))[k]),
        forall|p: Seq<char>| #[trigger] group_args(p, Some(t)).subrange(
            group_args(p, Some(t)).len() - 4,
            group_args(p, Some(t)).len() as int,
        ) == ttl_options(Some(t)),
{
    lemma_groups_fixed_ttl(params, t);
    let a = nfqws_args(params, Some(t));
    let g = groups_args(params, Some(t));
    let mark = "--dpi-desync-fwmark=0x40000000"@;
    let qnum = "--qnum=200"@;
    reveal_strlit("--dpi-desync-fwmark=0x40000000");
    reveal_strlit("--qnum=200");
    reveal_strlit("--dpi-desync-ttl");
    reveal_strlit("--dpi-desync-autottl");
    assert(mark.take(16)[13] != "--dpi-desync-ttl"@[13]);
    assert(mark.take(20)[13] != "--dpi-desync-autottl"@[13]);
    assert(!sets_ttl(mark));
    assert(!sets_ttl(qnum));
    assert forall|k: int| 0 <= k < a.len() && sets_ttl(#[trigger] a[k]) implies ttl_options(Some(t)).contains(a[k]) by {
        if k >= 2 {
            assert(a[k] == g[k - 2]);
        }
    }
    assert forall|p: Seq<char>| #[trigger] group_args(p, Some(t)).subrange(
        group_args(p, Some(t)).len() - 4,
        group_args(p, Some(t)).len() as int,
    ) == ttl_options(Some(t)) by {
        let ga = group_args(p, Some(t));
        assert(ga.subrange(ga.len() - 4, ga.len() as int) =~= ttl_options(Some(t)));
    }
}

fn push_string(args: &mut Vec<String>, v: &[char])
    ensures
        final(args)@.map_values(|a: String| a@) == old(args)@.map_values(|a: String| a@).push(v@),
{
    let ghost before = args@.map_values(|a: String| a@);
    args.push(from_chars(v));
    proof {
        assert(args@.map_values(|a: String| a@) =~= before.push(v@));
    }
}

fn ttl_option(key: &str, t: u8) -> (v: Vec<char>)
    ensures
        v@ == key@ + text::decimal(t as nat),
{
    let mut v = to_chars(key);
    let d = decimal_chars(t as usize);
    text::push_all(&mut v, &d);
    v
}

/// Builds the nfqws command line: the fixed queue options, then every
/// strategy group's tokens (unquoted, without `^`), each group ended by the
/// fixed-TTL options when a TTL is given (which also drops the group's own TTL
/// settings).
pub fn build_args(parsed: &ParsedStrategy, ttl: Option<u8>) -> (args: Vec<String>)
    ensures
        args@.map_values(|a: String| a@) == nfqws_args(parsed.nfqws_params@.map_values(|p: String| p@), ttl),
{
    let mut args: Vec<String> = Vec::new();
    args.push(String::from_str("--dpi-desync-fwmark=0x40000000"));
    args.push(String::from_str("--qnum=200"));
    let quote = to_chars("\"");
    let empty: Vec<char> = Vec::new();
    let caret = to_chars("^");
    let k_ttl = to_chars("--dpi-desync-ttl");
    let k_auto = to_chars("--dpi-desync-autottl");
    proof {
        reveal_strlit("\"");
    }
    let ghost params = parsed.nfqws_params@.map_values(|p: String| p@);
    let ghost base = seq!["--dpi-desync-fwmark=0x40000000"@, "--qnum=200"@];
    proof {
        assert(args@.map_values(|a: String| a@) =~= base);
        assert(params.take(0) =~= Seq::<Seq<char>>::empty());
    }
    let mut i: usize = 0;
    while i < parsed.nfqws_params.len()
        invariant
            i <= parsed.nfqws_params@.len(),
            params == parsed.nfqws_params@.map_values(|p: String| p@),
            quote@ == "\""@,
            quote@.len() > 0,
            empty@ == Seq::<char>::empty(),
            caret@ == "^"@,
            k_ttl@ == "--dpi-desync-ttl"@,
            k_auto@ == "--dpi-desync-autottl"@,
            base == seq!["--dpi-desync-fwmark=0x40000000"@, "--qnum=200"@],
            args@.map_values(|a: String| a@) == base + groups_args(params.take(i as int), ttl),
        decreases parsed.nfqws_params.len() - i,
    {
        let pc = to_chars(parsed.nfqws_params[i].as_str());
        let toks = split_whitespace_chars(&pc);
        let ghost ts = toks.deep_view();
        let ghost start = args@.map_values(|a: String| a@);
        let mut k: usize = 0;
        proof {
            assert(ts.take(0) =~= Seq::<Seq<char>>::empty());
            assert(start =~= start + kept_tokens(ts.take(0), ttl is Some));
        }
        while k < toks.len()
            invariant
                k <= toks@.len(),
                ts == toks.deep_view(),
                quote@ == "\""@,
                quote@.len() > 0,
                empty@ == Seq::<char>::empty(),
                caret@ == "^"@,
                k_ttl@ == "--dpi-desync-ttl"@,
                k_auto@ == "--dpi-desync-autottl"@,
                args@.map_values(|a: String| a@) == start + kept_tokens(ts.take(k as int), ttl is Some),
            decreases toks.len() - k,
        {
            proof {
                assert(toks@[k as int].deep_view() =~= toks@[k as int]@);
                assert(ts.take(k + 1).drop_last() =~= ts.take(k as int));
                assert(ts.take(k + 1).last() == ts[k as int]);
            }
            let t = replace_chars(&toks[k], &quote, &empty);
            let skip = t.len() == 0 || eq_chars(&t, &caret) || (ttl.is_some() && (has_prefix(&t, &k_ttl)
                || has_prefix(&t, &k_auto)));
            if !skip {
                push_string(&mut args, &t);
            }
            proof {
                assert(t@ == unquote(ts[k as int]));
                assert(skip == !keep_token(t@, ttl is Some));
            }
            k += 1;
        }
        proof {
            assert(ts.take(toks@.len() as int) =~= ts);
        }
        if let Some(t) = ttl {
            let a1 = ttl_option("--dpi-desync-ttl=", t);
            push_string(&mut args, &a1);
            let a2 = ttl_option("--dpi-desync-ttl6=", t);
            push_string(&mut args, &a2);
            let a3 = to_chars("--dpi-desync-autottl=-");
            push_string(&mut args, &a3);
            let a4 = to_chars("--dpi-desync-autottl6=-");
            push_string(&mut args, &a4);
        }
        proof {
            assert(params.take(i + 1).drop_last() =~= params.take(i as int));
            assert(params.take(i + 1).last() == params[i as int]);
            assert(params[i as int] == parsed.nfqws_params@[i as int]@);
            assert(pc@ == params[i as int]);
            let g = group_args(params[i as int], ttl);
            assert(args@.map_values(|a: String| a@) =~= start + g);
        }
        i += 1;
    }
    proof {
        assert(params.take(parsed.nfqws_params@.len() as int) =~= params);
    }
    args
}

/// The game-filter ports as the strategy parser gets them.
pub open spec fn game_filter_model(use_tcp: bool, use_udp: bool) -> Option<(Seq<char>, Seq<char>, Seq<char>)> {
    if use_tcp || use_udp {
        Some((game_ports(), game_ports(), game_ports()))
    } else {
        None
    }
}

/// What starting nfqws for a strategy takes: the port lists the firewall
/// diverts to it and its command line.
#[derive(Debug, Clone, PartialEq, Eq)]
pub struct Launch {
    pub tcp_ports: String,
    pub udp_ports: String,
    pub args: Vec<String>,
}

/// Prepares a quiet launch of a strategy (as the autotune runs them): parses
/// the strategy file at `strategy_path`, whose text is `content`, with the
/// game filter when either protocol's filter is on, and builds the nfqws
/// command line with the TTL override, if any.
///
/// # Errors
/// `parse error: ` and the parser's error when the strategy does not parse.
pub fn run_zapret_silent(
    strategy_path: &str,
    content: &str,
    use_tcp: bool,
    use_udp: bool,
    ttl: Option<u8>,
) -> (r: Result<Launch, String>)
    ensures
        match crate::strategy::parse_result(
            strategy_path@,
            crate::strategy::expand_script(content@, game_filter_model(use_tcp, use_udp)),
        ) {
            Ok(m) => r matches Ok(l) && l.tcp_ports@ == m.0 && l.udp_ports@ == m.1
                && crate::order::strings(l.args@) == nfqws_args(m.2, ttl),
            Err(e) => r matches Err(msg) && msg@ == "parse error: "@ + e,
        },
{
    let gf = game_filter(use_tcp, use_udp);
    let gr = gf.as_ref();
    assert(crate::strategy::game_filter_view(gr) == game_filter_model(use_tcp, use_udp));
    let parsed = crate::strategy::parse_bat_file(strategy_path, content, gr);
    match parsed {
        Ok(p) => {
            let args = build_args(&p, ttl);
            proof {
                assert(crate::order::strings(args@) =~= args@.map_values(|a: String| a@));
            }
            Ok(Launch { tcp_ports: p.tcp_ports, udp_ports: p.udp_ports, args })
        },
        Err(e) => Err(String::from_str("parse error: ").concat(e.as_str())),
    }
}

/// [`run_zapret_silent`] with a fixed DPI TTL (as the TTL search uses it).
pub fn run_zapret_silent_ttl(
    strategy_path: &str,
    content: &str,
    use_tcp: bool,
    use_udp: bool,
    ttl: u8,
) -> (r: Result<Launch, String>)
    ensures
        match crate::strategy::parse_result(
            strategy_path@,
            crate::strategy::expand_script(content@, game_filter_model(use_tcp, use_udp)),
        ) {
            Ok(m) => r matches Ok(l) && l.tcp_ports@ == m.0 && l.udp_ports@ == m.1
                && crate::order::strings(l.args@) == nfqws_args(m.2, Some(ttl)),
            Err(e) => r matches Err(msg) && msg@ == "parse error: "@ + e,
        },
{
    run_zapret_silent(strategy_path, content, use_tcp, use_udp, Some(ttl))
}

/// Whether any nfqws started by this program still runs, given for each
/// started process whether it has not exited yet.
pub fn nfqws_process_running(still_running: &Vec<bool>) -> (b: bool)
    ensures
        b == exists|k: int| 0 <= k < still_running@.len() && #[trigger] still_running@[k],
{
    let mut i: usize = 0;
    while i < still_running.len()
        invariant
            i <= still_running@.len(),
            forall|k: int| 0 <= k < i ==> !#[trigger] still_running@[k],
        decreases still_running.len() - i,
    {
        if still_running[i] {
            return true;
        }
        i += 1;
    }
    false
}

/// Whether an nfqws process runs on the host, given the names of the
/// running processes: one is named exactly `nfqws`.
pub fn is_nfqws_running(process_names: &Vec<String>) -> (b: bool)
    ensures
        b == exists|k: int| 0 <= k < process_names@.len() && #[trigger] process_names@[k]@ == "nfqws"@,
{
    let mut i: usize = 0;
    while i < process_names.len()
        invariant
            i <= process_names@.len(),
            forall|k: int| 0 <= k < i ==> #[trigger] process_names@[k]@ != "nfqws"@,
        decreases process_names.len() - i,
    {
        if text::eq_str(process_names[i].as_str(), "nfqws") {
            return true;
        }
        i += 1;
    }
    false
}

} // verus!
