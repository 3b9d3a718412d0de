//! Strategy `.bat` scripts: placeholder expansion and extraction of the
//! firewall ports and the per-filter desync arguments.
use vstd::prelude::*;
use crate::text;
use crate::text::{
    from_chars, has_prefix, is_whitespace, join_chars, matches_at, push_str, replace_chars,
    slice_chars, split_whitespace_chars, to_chars,
};

verus! {

/// Parsed output from a strategy `.bat` script.
pub struct ParsedStrategy {
    /// TCP ports extracted from `--wf-tcp=<ports>`.
    pub tcp_ports: String,
    /// UDP ports extracted from `--wf-udp=<ports>`.
    pub udp_ports: String,
    /// Per-filter nfqws/winws argument strings.
    pub nfqws_params: Vec<String>,
}

/// Options controlling how game-filter port placeholders are resolved.
pub struct GameFilterPorts {
    pub ports: String,
    pub tcp_ports: String,
    pub udp_ports: String,
}

/// A character allowed in a port list: a digit, `,` or `-`.
pub open spec fn is_port_char(c: char) -> bool {
    ('0' <= c && c <= '9') || c == ',' || c == '-'
}

/// The end of the run of port characters that starts at `j`.
pub open spec fn port_run_end(s: Seq<char>, j: int) -> int
    decreases s.len() - j,
{
    if j >= s.len() || !is_port_char(s[j]) {
        j
    } else {
        port_run_end(s, j + 1)
    }
}

/// The end of the run of whitespace that starts at `j`.
pub open spec fn ws_run_end(s: Seq<char>, j: int) -> int
    decreases s.len() - j,
{
    if j >= s.len() || !text::is_ws(s[j]) {
        j
    } else {
        ws_run_end(s, j + 1)
    }
}

/// The first position at or after `j` where `p` occurs, or `s.len()`.
pub open spec fn find_seq_from(s: Seq<char>, p: Seq<char>, j: int) -> int
    decreases s.len() - j,
{
    if j >= s.len() {
        s.len() as int
    } else if text::starts_with(s.skip(j), p) {
        j
    } else {
        find_seq_from(s, p, j + 1)
    }
}

/// A run of port characters ends inside the text, on a non-port character.
pub proof fn lemma_port_run_end(s: Seq<char>, j: int)
    requires
        0 <= j <= s.len(),
    ensures
        j <= port_run_end(s, j) <= s.len(),
        forall|m: int| j <= m < port_run_end(s, j) ==> is_port_char(s[m]),
        port_run_end(s, j) < s.len() ==> !is_port_char(s[port_run_end(s, j)]),
    decreases s.len() - j,
{
    if j < s.len() && is_port_char(s[j]) {
        lemma_port_run_end(s, j + 1);
    }
}

/// A run of whitespace ends inside the text, on a non-whitespace character.
pub proof fn lemma_ws_run_end(s: Seq<char>, j: int)
    requires
        0 <= j <= s.len(),
    ensures
        j <= ws_run_end(s, j) <= s.len(),
        forall|m: int| j <= m < ws_run_end(s, j) ==> text::is_ws(s[m]),
        ws_run_end(s, j) < s.len() ==> !text::is_ws(s[ws_run_end(s, j)]),
    decreases s.len() - j,
{
    if j < s.len() && text::is_ws(s[j]) {
        lemma_ws_run_end(s, j + 1);
    }
}

/// The search for a pattern lands inside the text, on an occurrence when it
/// finds one.
pub proof fn lemma_find_seq_from(s: Seq<char>, p: Seq<char>, j: int)
    requires
        0 <= j <= s.len(),
    ensures
        j <= find_seq_from(s, p, j) <= s.len(),
        find_seq_from(s, p, j) < s.len() ==> text::starts_with(s.skip(find_seq_from(s, p, j)), p),
    decreases s.len() - j,
{
    if j < s.len() && !text::starts_with(s.skip(j), p) {
        lemma_find_seq_from(s, p, j + 1);
    }
}

/// The port lists captured by `<key>([0-9,-]+)`, leftmost first and not
/// overlapping, searching from position `i`.
pub open spec fn port_captures(s: Seq<char>, key: Seq<char>, i: int) -> Seq<Seq<char>>
    decreases s.len() - i,
{
    if i < 0 || i >= s.len() {
        seq![]
    } else if text::starts_with(s.skip(i), key) && port_run_end(s, i + key.len()) > i
        + key.len() {
        let e = port_run_end(s, i + key.len());
        proof {
            lemma_port_run_end(s, i + key.len());
        }
        seq![s.subrange(i + key.len(), e)] + port_captures(s, key, e)
    } else {
        port_captures(s, key, i + 1)
    }
}

/// Where a `--filter-(tcp|udp)=<ports>\s+` prefix starting at `i` ends, if one does.
pub open spec fn filter_head_end(s: Seq<char>, i: int) -> Option<int> {
    if (text::starts_with(s.skip(i), "--filter-tcp="@) || text::starts_with(
        s.skip(i),
        "--filter-udp="@,
    )) && port_run_end(s, i + 13) > i + 13 && port_run_end(s, i + 13) < s.len()
        && text::is_ws(s[port_run_end(s, i + 13)]) {
        Some(ws_run_end(s, port_run_end(s, i + 13)))
    } else {
        None
    }
}

/// The end of the argument group that starts at `a`: just past the first
/// `--new` at or after `a`, or else the end of the line.
pub open spec fn group_end(s: Seq<char>, a: int) -> int {
    let p = find_seq_from(s, "--new"@, a);
    if p < s.len() {
        p + 5
    } else {
        text::find_from(s, '\n', a)
    }
}

/// The argument groups captured by
/// `--filter-(tcp|udp)=([0-9,-]+)\s+([\s\S]*?--new|.*)`, leftmost first and not
/// overlapping, searching from position `i`: the third capture of each match.
pub open spec fn filter_groups(s: Seq<char>, i: int) -> Seq<Seq<char>>
    decreases s.len() - i,
{
    if i < 0 || i >= s.len() {
        seq![]
    } else {
        match filter_head_end(s, i) {
            Some(a) => {
                let e = group_end(s, a);
                proof {
                    lemma_filter_head_end(s, i);
                    lemma_group_end(s, a);
                }
                seq![s.subrange(a, e)] + filter_groups(s, e)
            },
            None => filter_groups(s, i + 1),
        }
    }
}

/// A filter head that is found ends past its `--filter-...=` prefix.
pub proof fn lemma_filter_head_end(s: Seq<char>, i: int)
    requires
        0 <= i < s.len(),
    ensures
        filter_head_end(s, i) matches Some(a) ==> i + 14 < a <= s.len(),
{
    if filter_head_end(s, i) is Some {
        reveal_strlit("--filter-tcp=");
        reveal_strlit("--filter-udp=");
        lemma_port_run_end(s, i + 13);
        lemma_ws_run_end(s, port_run_end(s, i + 13));
    }
}

/// An argument group ends inside the text.
pub proof fn lemma_group_end(s: Seq<char>, a: int)
    requires
        0 <= a <= s.len(),
    ensures
        a <= group_end(s, a) <= s.len(),
{
    reveal_strlit("--new");
    lemma_find_seq_from(s, "--new"@, a);
    text::lemma_find_from(s, '\n', a);
    let p = find_seq_from(s, "--new"@, a);
    if p < s.len() {
        assert(text::starts_with(s.skip(p), "--new"@));
        assert(s.skip(p).len() >= 5);
    }
}

/// An argument group with its whitespace collapsed to single spaces and `=^!`
/// turned into `=!`.
pub open spec fn normalize_group(g: Seq<char>) -> Seq<char> {
    text::replace_all(text::join(text::split_ws(g), " "@), "=^!"@, "=!"@)
}

/// Whether the batch escape `=^!` starts at `i` in `r`.
spec fn escape_at(r: Seq<char>, i: int) -> bool {
    0 <= i && i + 2 < r.len() && r[i] == '=' && r[i + 1] == '^' && r[i + 2] == '!'
}

proof fn lemma_no_escape_left(s: Seq<char>)
    ensures
        forall|i: int| !#[trigger] escape_at(text::replace_all(s, "=^!"@, "=!"@), i),
    decreases s.len(),
{
    reveal_strlit("=^!");
    reveal_strlit("=!");
    let e = "=^!"@;
    let u = "=!"@;
    let r = text::replace_all(s, e, u);
    if s.len() == 0 {
    } else if text::starts_with(s, e) {
        let t = s.skip(3);
        lemma_no_escape_left(t);
        let rt = text::replace_all(t, e, u);
        assert(r == u + rt);
        assert forall|i: int| !#[trigger] escape_at(r, i) by {
            if i >= 2 && escape_at(r, i) {
                assert(escape_at(rt, i - 2));
            }
        }
    } else {
        let t = s.drop_first();
        lemma_no_escape_left(t);
        let rt = text::replace_all(t, e, u);
        assert(r == seq![s[0]] + rt);
        assert forall|i: int| !#[trigger] escape_at(r, i) by {
            if i >= 1 && escape_at(r, i) {
                assert(escape_at(rt, i - 1));
            }
            if i == 0 && escape_at(r, 0) {
                assert(rt.len() >= 2);
                assert(t.len() > 0);
                if text::starts_with(t, e) {
                    assert(t.take(3)[0] == '=');
                    assert(rt[0] == '=');
                } else {
                    assert(rt[0] == t[0]);
                    let w = t.drop_first();
                    let rw = text::replace_all(w, e, u);
                    assert(rt == seq![t[0]] + rw);
                    assert(rw.len() >= 1);
                    assert(w.len() > 0);
                    if text::starts_with(w, e) {
                        assert(w.take(3)[0] == '=');
                        assert(rw[0] == '=');
                    } else {
                        assert(rw[0] == w[0]);
                        assert(s[1] == t[0]);
                        assert(s[2] == w[0]);
                        assert(s.take(3) =~= e);
                    }
                }
            }
        }
    }
}

/// A text without the batch escape `=^!` passes through the escape's
/// replacement unchanged.
proof fn lemma_unescaped_unchanged(s: Seq<char>)
    requires
        !text::contains_seq(s, "=^!"@),
    ensures
        text::replace_all(s, "=^!"@, "=!"@) == s,
    decreases s.len(),
{
    if s.len() > 0 {
        assert(s.skip(0) =~= s);
        assert(!text::starts_with(s.skip(0), "=^!"@));
        let t = s.drop_first();
        assert forall|i: int| 0 <= i <= t.len() implies !#[trigger] text::starts_with(t.skip(i), "=^!"@) by {
            assert(t.skip(i) =~= s.skip(i + 1));
            assert(!text::starts_with(s.skip(i + 1), "=^!"@));
        }
        lemma_unescaped_unchanged(t);
        assert(seq![s[0]] + t =~= s);
    }
}

/// The argument groups handed to nfqws never hold the batch escape `=^!`:
/// every group a script parses into has each `=^!` turned into `=!`, and a
/// group with no escape (once its whitespace is collapsed) is left as it is.
pub proof fn lemma_groups_unescaped(path: Seq<char>, content: Seq<char>)
    ensures
        parse_result(path, content) matches Ok(m) ==> forall|k: int|
            0 <= k < m.2.len() ==> !text::contains_seq(#[trigger] m.2[k], "=^!"@),
        forall|g: Seq<char>| !text::contains_seq(#[trigger] normalize_group(g), "=^!"@),
        forall|g: Seq<char>|
            !text::contains_seq(text::join(text::split_ws(g), " "@), "=^!"@) ==> #[trigger] normalize_group(g)
                == text::join(text::split_ws(g), " "@),
{
    reveal_strlit("=^!");
    assert forall|g: Seq<char>| !text::contains_seq(#[trigger] normalize_group(g), "=^!"@) by {
        let r = normalize_group(g);
        lemma_no_escape_left(text::join(text::split_ws(g), " "@));
        assert forall|i: int| 0 <= i <= r.len() implies !#[trigger] text::starts_with(r.skip(i), "=^!"@) by {
            if text::starts_with(r.skip(i), "=^!"@) {
                assert(r.skip(i).take(3)[0] == r[i]);
                assert(r.skip(i).take(3)[1] == r[i + 1]);
                assert(r.skip(i).take(3)[2] == r[i + 2]);
                assert(escape_at(r, i));
            }
        }
    }
    assert forall|g: Seq<char>|
        !text::contains_seq(text::join(text::split_ws(g), " "@), "=^!"@) implies #[trigger] normalize_group(g)
            == text::join(text::split_ws(g), " "@) by {
        lemma_unescaped_unchanged(text::join(text::split_ws(g), " "@));
    }
}

/// The game-filter placeholders expanded, or removed together with their comma.
pub open spec fn expand_game_filter(c: Seq<char>, gf: Option<(Seq<char>, Seq<char>, Seq<char>)>) -> Seq<char> {
    match gf {
        Some((p, t, u)) => text::replace_all(
            text::replace_all(text::replace_all(c, "%GameFilter%"@, p), "%GameFilterTCP%"@, t),
            "%GameFilterUDP%"@,
            u,
        ),
        None => text::replace_all(
            text::replace_all(
                text::replace_all(
                    text::replace_all(
                        text::replace_all(
                            text::replace_all(c, ",%GameFilter%"@, Seq::empty()),
                            "%GameFilter%,"@,
                            Seq::empty(),
                        ),
                        ",%GameFilterTCP%"@,
                        Seq::empty(),
                    ),
                    "%GameFilterTCP%,"@,
                    Seq::empty(),
                ),
                ",%GameFilterUDP%"@,
                Seq::empty(),
            ),
            "%GameFilterUDP%,"@,
            Seq::empty(),
        ),
    }
}

/// The script text after carriage returns are dropped and every placeholder is
/// resolved.
pub open spec fn expand_script(raw: Seq<char>, gf: Option<(Seq<char>, Seq<char>, Seq<char>)>) -> Seq<char> {
    let c = text::replace_all(raw, "\r"@, Seq::empty());
    let c = text::replace_all(c, "%BIN%"@, "bin/"@);
    let c = text::replace_all(c, "%LISTS%"@, "lists/"@);
    expand_game_filter(c, gf)
}

/// The three game-filter port lists, as values.
pub open spec fn game_filter_view(gf: Option<&GameFilterPorts>) -> Option<(Seq<char>, Seq<char>, Seq<char>)> {
    match gf {
        Some(g) => Some((g.ports@, g.tcp_ports@, g.udp_ports@)),
        None => None,
    }
}

/// What parsing a script yields: the error text, or the two port lists and the
/// normalized argument groups.
pub open spec fn parse_result(path: Seq<char>, content: Seq<char>) -> Result<(Seq<char>, Seq<char>, Seq<Seq<char>>), Seq<char>> {
    let tcp = port_captures(content, "--wf-tcp="@, 0);
    let udp = port_captures(content, "--wf-udp="@, 0);
    if tcp.len() == 0 || udp.len() == 0 {
        Err("--wf-tcp or --wf-udp not found in '"@ + path + "'"@)
    } else if tcp.len() > 1 {
        Err("Multiple --wf-tcp entries found in '"@ + path + "'"@)
    } else if udp.len() > 1 {
        Err("Multiple --wf-udp entries found in '"@ + path + "'"@)
    } else {
        Ok((tcp[0], udp[0], filter_groups(content, 0).map_values(|g: Seq<char>| normalize_group(g))))
    }
}

impl ParsedStrategy {
    /// The parsed values: port lists and argument groups.
    pub open spec fn model(&self) -> (Seq<char>, Seq<char>, Seq<Seq<char>>) {
        (self.tcp_ports@, self.udp_ports@, self.nfqws_params@.map_values(|p: String| p@))
    }
}

fn replace_in(c: Vec<char>, pat: &str, rep: &str) -> (v: Vec<char>)
    requires
        pat@.len() > 0,
    ensures
        v@ == text::replace_all(c@, pat@, rep@),
{
    let p = to_chars(pat);
    let r = to_chars(rep);
    replace_chars(&c, &p, &r)
}

/// Resolves the placeholders of a strategy script.
pub fn expand_placeholders(raw: &str, game_filter: Option<&GameFilterPorts>) -> (v: Vec<char>)
    ensures
        v@ == expand_script(raw@, game_filter_view(game_filter)),
{
    proof {
        reveal_strlit("\r");
        reveal_strlit("%BIN%");
        reveal_strlit("%LISTS%");
        reveal_strlit("%GameFilter%");
        reveal_strlit("%GameFilterTCP%");
        reveal_strlit("%GameFilterUDP%");
        reveal_strlit(",%GameFilter%");
        reveal_strlit("%GameFilter%,");
        reveal_strlit(",%GameFilterTCP%");
        reveal_strlit("%GameFilterTCP%,");
        reveal_strlit(",%GameFilterUDP%");
        reveal_strlit("%GameFilterUDP%,");
    }
    let c = to_chars(raw);
    let c = replace_in(c, "\r", "");
    proof {
        reveal_strlit("");
        assert(""@ =~= Seq::<char>::empty());
    }
    let c = replace_in(c, "%BIN%", "bin/");
    let c = replace_in(c, "%LISTS%", "lists/");
    match game_filter {
        Some(gf) => {
            let c = replace_in(c, "%GameFilter%", gf.ports.as_str());
            let c = replace_in(c, "%GameFilterTCP%", gf.tcp_ports.as_str());
            replace_in(c, "%GameFilterUDP%", gf.udp_ports.as_str())
        },
        None => {
            let c = replace_in(c, ",%GameFilter%", "");
            let c = replace_in(c, "%GameFilter%,", "");
            let c = replace_in(c, ",%GameFilterTCP%", "");
            let c = replace_in(c, "%GameFilterTCP%,", "");
            let c = replace_in(c, ",%GameFilterUDP%", "");
            replace_in(c, "%GameFilterUDP%,", "")
        },
    }
}

fn is_port_character(c: char) -> (b: bool)
    ensures
        b == is_port_char(c),
{
    ('0' <= c && c <= '9') || c == ',' || c == '-'
}

fn port_run(s: &[char], j: usize) -> (e: usize)
    requires
        j <= s@.len(),
    ensures
        e == port_run_end(s@, j as int),
        j <= e <= s@.len(),
{
    let mut e = j;
    while e < s.len() && is_port_character(s[e])
        invariant
            j <= e <= s@.len(),
            port_run_end(s@, j as int) == port_run_end(s@, e as int),
        decreases s.len() - e,
    {
        e += 1;
    }
    e
}

fn ws_run(s: &[char], j: usize) -> (e: usize)
    requires
        j <= s@.len(),
    ensures
        e == ws_run_end(s@, j as int),
        j <= e <= s@.len(),
{
    let mut e = j;
    while e < s.len() && is_whitespace(s[e])
        invariant
            j <= e <= s@.len(),
            ws_run_end(s@, j as int) == ws_run_end(s@, e as int),
        decreases s.len() - e,
    {
        e += 1;
    }
    e
}

/// All port lists that follow `key`, as the regex `<key>([0-9,-]+)` finds them.
pub fn find_port_captures(s: &[char], key: &[char]) -> (v: Vec<Vec<char>>)
    ensures
        v.deep_view() == port_captures(s@, key@, 0),
{
    let mut out: Vec<Vec<char>> = Vec::new();
    let mut i: usize = 0;
    while i < s.len()
        invariant
            i <= s@.len(),
            port_captures(s@, key@, 0) =~= out.deep_view() + port_captures(s@, key@, i as int),
        decreases s.len() - i,
    {
        let hit = matches_at(s, i, key);
        if hit {
            let j = i + key.len();
            let e = port_run(s, j);
            if e > j {
                let cap = slice_chars(s, j, e);
                proof {
                    lemma_port_run_end(s@, j as int);
                    assert(cap.deep_view() =~= cap@);
                }
                let ghost before = out.deep_view();
                out.push(cap);
                proof {
                    assert(out.deep_view() =~= before.push(cap@));
                }
                i = e;
                continue;
            }
        }
        i += 1;
    }
    proof {
        assert(port_captures(s@, key@, i as int) =~= Seq::<Seq<char>>::empty());
    }
    out
}

fn find_seq(s: &[char], p: &[char], j: usize) -> (r: usize)
    requires
        j <= s@.len(),
    ensures
        r == find_seq_from(s@, p@, j as int),
{
    let mut k = j;
    while k < s.len() && !matches_at(s, k, p)
        invariant
            j <= k <= s@.len(),
            find_seq_from(s@, p@, j as int) == find_seq_from(s@, p@, k as int),
        decreases s.len() - k,
    {
        k += 1;
    }
    k
}

fn find_char(s: &[char], c: char, j: usize) -> (r: usize)
    requires
        j <= s@.len(),
    ensures
        r == text::find_from(s@, c, j as int),
{
    let mut k = j;
    while k < s.len() && s[k] != c
        invariant
            j <= k <= s@.len(),
            text::find_from(s@, c, j as int) == text::find_from(s@, c, k as int),
        decreases s.len() - k,
    {
        k += 1;
    }
    k
}

/// The raw argument groups of every `--filter-tcp=`/`--filter-udp=` entry.
pub fn find_filter_groups(s: &[char]) -> (v: Vec<Vec<char>>)
    ensures
        v.deep_view() == filter_groups(s@, 0),
{
    let k_tcp = to_chars("--filter-tcp=");
    let k_udp = to_chars("--filter-udp=");
    let k_new = to_chars("--new");
    proof {
        reveal_strlit("--filter-tcp=");
        reveal_strlit("--filter-udp=");
    }
    let mut out: Vec<Vec<char>> = Vec::new();
    let mut i: usize = 0;
    while i < s.len()
        invariant
            i <= s@.len(),
            k_tcp@ == "--filter-tcp="@,
            k_udp@ == "--filter-udp="@,
            k_new@ == "--new"@,
            k_tcp@.len() == 13,
            k_udp@.len() == 13,
            filter_groups(s@, 0) =~= out.deep_view() + filter_groups(s@, i as int),
        decreases s.len() - i,
    {
        let head = matches_at(s, i, &k_tcp) || matches_at(s, i, &k_udp);
        if head && s.len() - i >= 13 {
            let j = i + 13;
            let r = port_run(s, j);
            if r > j && r < s.len() && is_whitespace(s[r]) {
                let a = ws_run(s, r);
                let p = find_seq(s, &k_new, a);
                let e = if p < s.len() {
                    proof {
                        lemma_find_seq_from(s@, "--new"@, a as int);
                        reveal_strlit("--new");
                        assert(s@.skip(p as int).len() >= 5);
                    }
                    p + 5
                } else {
                    find_char(s, '\n', a)
                };
                proof {
                    lemma_ws_run_end(s@, r as int);
                    lemma_port_run_end(s@, j as int);
                    lemma_group_end(s@, a as int);
                    assert(filter_head_end(s@, i as int) == Some(a as int));
                    assert(e == group_end(s@, a as int));
                }
                let g = slice_chars(s, a, e);
                proof {
                    assert(g.deep_view() =~= g@);
                }
                let ghost before = out.deep_view();
                out.push(g);
                proof {
                    assert(out.deep_view() =~= before.push(g@));
                }
                i = e;
                continue;
            }
        }
        proof {
            if s.len() - i < 13 {
                assert(!text::starts_with(s@.skip(i as int), "--filter-tcp="@));
                assert(!text::starts_with(s@.skip(i as int), "--filter-udp="@));
            }
            assert(filter_head_end(s@, i as int) is None);
        }
        i += 1;
    }
    proof {
        assert(filter_groups(s@, i as int) =~= Seq::<Seq<char>>::empty());
    }
    out
}

/// Collapses whitespace to single spaces and turns `=^!` into `=!`.
pub fn normalize_args(g: &[char]) -> (v: Vec<char>)
    ensures
        v@ == normalize_group(g@),
{
    let words = split_whitespace_chars(g);
    let sp = to_chars(" ");
    let joined = join_chars(&words, &sp);
    let from = to_chars("=^!");
    let to = to_chars("=!");
    proof {
        reveal_strlit("=^!");
    }
    replace_chars(&joined, &from, &to)
}

fn error_text(prefix: &str, path: &str) -> (s: String)
    ensures
        s@ == prefix@ + path@ + "'"@,
{
    let mut v = to_chars(prefix);
    push_str(&mut v, path);
    push_str(&mut v, "'");
    from_chars(&v)
}

/// Parse a strategy `.bat` script (the text `content` of the file at `file_path`)
/// into its ports and per-filter argument groups.
///
/// # Errors
/// When `--wf-tcp` or `--wf-udp` are missing or appear more than once.
pub fn parse_bat_file(
    file_path: &str,
    content: &str,
    game_filter: Option<&GameFilterPorts>,
) -> (r: Result<ParsedStrategy, String>)
    ensures
        match parse_result(file_path@, expand_script(content@, game_filter_view(game_filter))) {
            Ok(m) => r matches Ok(p) && p.model() == m,
            Err(e) => r matches Err(msg) && msg@ == e,
        },
{
    let c = expand_placeholders(content, game_filter);
    let k_tcp = to_chars("--wf-tcp=");
    let k_udp = to_chars("--wf-udp=");
    let tcp = find_port_captures(&c, &k_tcp);
    let udp = find_port_captures(&c, &k_udp);
    if tcp.len() == 0 || udp.len() == 0 {
        return Err(error_text("--wf-tcp or --wf-udp not found in '", file_path));
    }
    if tcp.len() > 1 {
        return Err(error_text("Multiple --wf-tcp entries found in '", file_path));
    }
    if udp.len() > 1 {
        return Err(error_text("Multiple --wf-udp entries found in '", file_path));
    }
    let groups = find_filter_groups(&c);
    let mut params: Vec<String> = Vec::new();
    let mut i: usize = 0;
    while i < groups.len()
        invariant
            i <= groups@.len(),
            params@.len() == i,
            forall|j: int|
                0 <= j < i ==> #[trigger] params@[j]@ == normalize_group(groups.deep_view()[j]),
        decreases groups.len() - i,
    {
        proof {
            assert(groups.deep_view()[i as int] =~= groups@[i as int]@);
        }
        let n = normalize_args(&groups[i]);
        params.push(from_chars(&n));
        i += 1;
    }
    proof {
        assert(tcp.deep_view()[0] =~= tcp@[0]@);
        assert(udp.deep_view()[0] =~= udp@[0]@);
    }
    let p = ParsedStrategy {
        tcp_ports: from_chars(&tcp[0]),
        udp_ports: from_chars(&udp[0]),
        nfqws_params: params,
    };
    proof {
        let gs = filter_groups(c@, 0).map_values(|g: Seq<char>| normalize_group(g));
        assert(p.nfqws_params@.map_values(|q: String| q@) =~= gs);
    }
    Ok(p)
}

} // verus!
