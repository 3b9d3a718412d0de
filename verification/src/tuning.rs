//! The decisions of an autotune run: which strategy files take part, which
//! network checks ran, how many steps the progress counts, and which
//! strategies work for every preset.
use vstd::prelude::*;
use crate::autotune;
use crate::autotune::{BlockChecks, CheckResult, PresetResult, StrategyCheckResult, get_strategy_name};
use crate::order;
use crate::order::{clone_strings, dedup_sorted, sort_strings};
use crate::text;

verus! {

/// The names of the strategies that work, in the order they were tested.
pub open spec fn working_names(ss: Seq<StrategyCheckResult>) -> Seq<Seq<char>>
    decreases ss.len(),
{
    if ss.len() == 0 {
        seq![]
    } else {
        let rest = working_names(ss.drop_last());
        if ss.last().works {
            rest.push(ss.last().strategy_name@)
        } else {
            rest
        }
    }
}

/// Whether strategy `x` works for every preset.
pub open spec fn works_everywhere(ps: Seq<PresetResult>, x: Seq<char>) -> bool {
    forall|i: int| 0 <= i < ps.len() ==> working_names(#[trigger] ps[i].strategy_results@).contains(x)
}

fn working_of(ss: &Vec<StrategyCheckResult>) -> (v: Vec<String>)
    ensures
        order::strings(v@) == working_names(ss@),
{
    let mut v: Vec<String> = Vec::new();
    let mut i: usize = 0;
    while i < ss.len()
        invariant
            i <= ss@.len(),
            order::strings(v@) == working_names(ss@.take(i as int)),
        decreases ss.len() - i,
    {
        proof {
            assert(ss@.take(i + 1).drop_last() =~= ss@.take(i as int));
            assert(ss@.take(i + 1).last() == ss@[i as int]);
        }
        if ss[i].works {
            let ghost before = v@;
            v.push(ss[i].strategy_name.clone());
            assert(order::strings(v@) =~= order::strings(before).push(ss@[i as int].strategy_name@));
        }
        i += 1;
    }
    assert(ss@.take(ss@.len() as int) =~= ss@);
    v
}

fn contains_string(v: &Vec<String>, x: &String) -> (b: bool)
    ensures
        b == order::strings(v@).contains(x@),
{
    let mut i: usize = 0;
    while i < v.len()
        invariant
            i <= v@.len(),
            forall|k: int| 0 <= k < i ==> order::strings(v@)[k] != x@,
        decreases v.len() - i,
    {
        if v[i] == *x {
            assert(order::strings(v@)[i as int] == x@);
            return true;
        }
        i += 1;
    }
    false
}

fn works_in_all(ps: &Vec<PresetResult>, x: &String) -> (b: bool)
    ensures
        b == works_everywhere(ps@, x@),
{
    let mut i: usize = 0;
    while i < ps.len()
        invariant
            i <= ps@.len(),
            forall|k: int| 0 <= k < i ==> working_names(#[trigger] ps@[k].strategy_results@).contains(x@),
        decreases ps.len() - i,
    {
        let w = working_of(&ps[i].strategy_results);
        if !contains_string(&w, x) {
            return false;
        }
        i += 1;
    }
    true
}

/// The strategies reported as common. With more than one preset: those that
/// work for every preset, in ascending order, each once. With one preset:
/// the working strategies of the (first) preset, in ascending order.
pub fn common_strategies(preset_results: &Vec<PresetResult>, several_presets: bool) -> (r: Vec<String>)
    ensures
        several_presets && preset_results@.len() > 0 ==> order::strictly_sorted(order::strings(r@)) && (forall|
            x: Seq<char>,
        | order::strings(r@).contains(x) <==> works_everywhere(preset_results@, x)),
        !several_presets && preset_results@.len() > 0 ==> order::sorted(order::strings(r@))
            && order::strings(r@).to_multiset() == working_names(preset_results@[0].strategy_results@).to_multiset(),
        preset_results@.len() == 0 ==> r@.len() == 0,
{
    if preset_results.len() == 0 {
        let r: Vec<String> = Vec::new();
        assert(order::strings(r@) =~= Seq::<Seq<char>>::empty());
        return r;
    }
    let first = working_of(&preset_results[0].strategy_results);
    if !several_presets {
        return sort_strings(first);
    }
    let ghost fw = order::strings(first@);
    let mut kept: Vec<String> = Vec::new();
    let mut i: usize = 0;
    while i < first.len()
        invariant
            i <= first@.len(),
            fw == order::strings(first@),
            fw == working_names(preset_results@[0].strategy_results@),
            preset_results@.len() > 0,
            forall|x: Seq<char>| #[trigger] order::strings(kept@).contains(x) <==> (fw.take(i as int).contains(x)
                && works_everywhere(preset_results@, x)),
        decreases first.len() - i,
    {
        let ghost before = order::strings(kept@);
        assert(forall|x: Seq<char>| #[trigger] before.contains(x) <==> (fw.take(i as int).contains(x)
            && works_everywhere(preset_results@, x)));
        let everywhere = works_in_all(preset_results, &first[i]);
        if everywhere {
            kept.push(first[i].clone());
        }
        proof {
            assert(fw.take(i + 1) =~= fw.take(i as int).push(fw[i as int]));
            if everywhere {
                assert(order::strings(kept@) =~= before.push(fw[i as int]));
            } else {
                assert(order::strings(kept@) =~= before);
            }
            let after = order::strings(kept@);
            assert(everywhere == works_everywhere(preset_results@, fw[i as int]));
            assert forall|x: Seq<char>| after.contains(x) implies (fw.take(i + 1).contains(x)
                && works_everywhere(preset_results@, x)) by {
                let k = choose|k: int| 0 <= k < after.len() && #[trigger] after[k] == x;
                if k < before.len() {
                    assert(before[k] == x);
                    assert(before.contains(x));
                    assert(fw.take(i as int).contains(x) && works_everywhere(preset_results@, x));
                    let m = choose|m: int| 0 <= m < i && #[trigger] fw.take(i as int)[m] == x;
                    assert(fw.take(i + 1)[m] == x);
                } else {
                    assert(x == fw[i as int]);
                    assert(fw.take(i + 1)[i as int] == x);
                }
            }
            assert forall|x: Seq<char>| fw.take(i + 1).contains(x) && works_everywhere(preset_results@, x)
                implies after.contains(x) by {
                let k = choose|k: int| 0 <= k < i + 1 && #[trigger] fw.take(i + 1)[k] == x;
                if k < i {
                    assert(fw.take(i as int)[k] == x);
                    assert(fw.take(i as int).contains(x));
                    assert(before.contains(x));
                    let m = choose|m: int| 0 <= m < before.len() && #[trigger] before[m] == x;
                    assert(after[m] == x);
                } else {
                    assert(x == fw[i as int]);
                    assert(after[after.len() - 1] == x);
                }
            }
        }
        i += 1;
    }
    proof {
        assert(fw.take(fw.len() as int) =~= fw);
        assert forall|x: Seq<char>| works_everywhere(preset_results@, x) implies fw.contains(x) by {
            assert(working_names(preset_results@[0].strategy_results@).contains(x));
        }
    }
    let sorted = sort_strings(kept);
    proof {
        assert forall|x: Seq<char>| order::strings(sorted@).contains(x) <==> order::strings(kept@).contains(x) by {
            broadcast use vstd::seq_lib::group_to_multiset_ensures;
            assert(order::strings(sorted@).to_multiset().count(x) == order::strings(kept@).to_multiset().count(x));
        }
    }
    dedup_sorted(sorted)
}

/// The strategy files of an autotune run: for each selected index within
/// the strategy list (in the order selected), the name without `.bat` and
/// the file under `custom-strategies/` where it exists, else the one at the
/// root of the repository where that exists; strategies with neither are left out.
pub open spec fn strategy_files(
    indices: Seq<usize>,
    names: Seq<Seq<char>>,
    repo: Seq<char>,
    custom_exists: Seq<bool>,
    root_exists: Seq<bool>,
) -> Seq<(Seq<char>, Seq<char>)>
    decreases indices.len(),
{
    if indices.len() == 0 {
        seq![]
    } else {
        let rest = strategy_files(indices.drop_last(), names, repo, custom_exists, root_exists);
        let i = indices.last() as int;
        if i >= names.len() {
            rest
        } else if custom_exists[i] {
            rest.push((
                text::trim_end_matches(names[i], ".bat"@),
                text::path_join(text::path_join(repo, "custom-strategies"@), names[i]),
            ))
        } else if root_exists[i] {
            rest.push((text::trim_end_matches(names[i], ".bat"@), text::path_join(repo, names[i])))
        } else {
            rest
        }
    }
}

/// The views of a list of name/path pairs.
pub open spec fn pairs(v: Seq<(String, String)>) -> Seq<(Seq<char>, Seq<char>)> {
    v.map_values(|p: (String, String)| (p.0@, p.1@))
}

/// The strategy files of an autotune run (see [`strategy_files`]); which
/// files exist is given per strategy of `all_strategies`.
pub fn load_strategy_files(
    indices: &Vec<usize>,
    all_strategies: &Vec<String>,
    repo: &str,
    custom_exists: &Vec<bool>,
    root_exists: &Vec<bool>,
) -> (r: Vec<(String, String)>)
    requires
        custom_exists@.len() == all_strategies@.len(),
        root_exists@.len() == all_strategies@.len(),
    ensures
        pairs(r@) == strategy_files(indices@, order::strings(all_strategies@), repo@, custom_exists@, root_exists@),
{
    let ghost names = order::strings(all_strategies@);
    let mut r: Vec<(String, String)> = Vec::new();
    let mut k: usize = 0;
    let custom_dir = text::join_path(repo, "custom-strategies");
    while k < indices.len()
        invariant
            k <= indices@.len(),
            names == order::strings(all_strategies@),
            custom_exists@.len() == all_strategies@.len(),
            root_exists@.len() == all_strategies@.len(),
            custom_dir@ == text::path_join(repo@, "custom-strategies"@),
            pairs(r@) == strategy_files(indices@.take(k as int), names, repo@, custom_exists@, root_exists@),
        decreases indices.len() - k,
    {
        proof {
            assert(indices@.take(k + 1).drop_last() =~= indices@.take(k as int));
            assert(indices@.take(k + 1).last() == indices@[k as int]);
        }
        let idx = indices[k];
        if idx < all_strategies.len() {
            let name = all_strategies[idx].as_str();
            let ghost before = pairs(r@);
            if custom_exists[idx] {
                let path = text::join_path(custom_dir.as_str(), name);
                r.push((get_strategy_name(name), path));
                assert(pairs(r@) =~= before.push((text::trim_end_matches(names[idx as int], ".bat"@), path@)));
            } else if root_exists[idx] {
                let path = text::join_path(repo, name);
                r.push((get_strategy_name(name), path));
                assert(pairs(r@) =~= before.push((text::trim_end_matches(names[idx as int], ".bat"@), path@)));
            }
        }
        k += 1;
    }
    assert(indices@.take(indices@.len() as int) =~= indices@);
    r
}

/// The results of the network checks, in the order of
/// [`autotune::BlockCheckType::all`]: a selected check gives its outcome, or
/// a skip saying the check crashed where it has none; the others are skipped
/// as not selected.
pub open spec fn network_results(enabled: Seq<bool>, outcomes: Seq<Option<CheckResult>>, r: Seq<CheckResult>) -> bool {
    &&& r.len() == 6
    &&& forall|i: int|
        0 <= i < 6 ==> {
            let selected = i < enabled.len() && enabled[i];
            let o = if i < outcomes.len() { outcomes[i] } else { Option::None };
            &&& selected && o is Some ==> #[trigger] r[i] == o->0
            &&& selected && o is None ==> r[i].status == autotune::CheckStatus::Skip && r[i].detail@
                == "Thread panic"@
            &&& !selected ==> r[i].status == autotune::CheckStatus::Skip && r[i].detail@ == "Not selected"@
        }
}

/// Assembles the results of the network checks from the outcome of each
/// selected check (`None` where its thread panicked).
pub fn run_network_checks(block_checks: &BlockChecks, outcomes: Vec<Option<CheckResult>>) -> (r: Vec<CheckResult>)
    ensures
        network_results(block_checks.enabled@, outcomes@, r@),
{
    let mut r: Vec<CheckResult> = Vec::new();
    let mut outcomes = outcomes;
    let ghost all = outcomes@;
    let mut i: usize = 0;
    while i < 6
        invariant
            i <= 6,
            r@.len() == i,
            outcomes@.len() == all.len(),
            forall|k: int| i <= k < all.len() ==> outcomes@[k] == all[k],
            forall|k: int|
                0 <= k < i ==> {
                    let selected = k < block_checks.enabled@.len() && block_checks.enabled@[k];
                    let o = if k < all.len() { all[k] } else { Option::None };
                    &&& selected && o is Some ==> #[trigger] r@[k] == o->0
                    &&& selected && o is None ==> r@[k].status == autotune::CheckStatus::Skip && r@[k].detail@
                        == "Thread panic"@
                    &&& !selected ==> r@[k].status == autotune::CheckStatus::Skip && r@[k].detail@
                        == "Not selected"@
                },
        decreases 6 - i,
    {
        let o = if i < outcomes.len() {
            let mut slot: Option<CheckResult> = None;
            std::mem::swap(&mut slot, &mut outcomes[i]);
            slot
        } else {
            None
        };
        let item = if block_checks.get(i) {
            match o {
                Some(res) => res,
                None => CheckResult::skip("Thread panic"),
            }
        } else {
            CheckResult::skip("Not selected")
        };
        r.push(item);
        i += 1;
    }
    r
}

/// How many domains each strategy of a preset is tested on: the blocked
/// domains where there are some, all the preset's domains where none is
/// blocked, none without strategies.
pub open spec fn tested_count(strategies: nat, blocked: nat, domains: nat) -> nat {
    if strategies > 0 && blocked > 0 {
        blocked
    } else if strategies > 0 {
        domains
    } else {
        0
    }
}

/// Executable [`tested_count`].
pub fn count_tested(strategies: usize, blocked: usize, domains: usize) -> (n: usize)
    ensures
        n == tested_count(strategies as nat, blocked as nat, domains as nat),
{
    if strategies > 0 && blocked > 0 {
        blocked
    } else if strategies > 0 {
        domains
    } else {
        0
    }
}

/// The progress of a run: the steps done and the steps planned.
#[derive(Debug, Clone, Copy, PartialEq, Eq, Structural)]
pub struct Progress {
    pub done: usize,
    pub total: usize,
}

/// `n` more steps done.
pub open spec fn advanced(p: (nat, nat), n: nat) -> (nat, nat) {
    (p.0 + n, p.1)
}

/// `n` more steps planned.
pub open spec fn planned(p: (nat, nat), n: nat) -> (nat, nat) {
    (p.0, p.1 + n)
}

impl Progress {
    /// Steps done and planned, as numbers.
    pub open spec fn view_pair(self) -> (nat, nat) {
        (self.done as nat, self.total as nat)
    }

    /// `n` more steps done (never past the total).
    pub fn advance(&mut self, n: usize)
        requires
            old(self).done + n <= old(self).total,
        ensures
            final(self).view_pair() == advanced(old(self).view_pair(), n as nat),
    {
        self.done = self.done + n;
    }

    /// One domain checked, with its protocol steps.
    pub fn domain_checked(&mut self, proto_steps: usize)
        requires
            old(self).done + 1 + proto_steps <= old(self).total,
        ensures
            final(self).view_pair() == advanced(old(self).view_pair(), (1 + proto_steps) as nat),
    {
        self.done = self.done + 1 + proto_steps;
    }

    /// The strategy tests of a preset planned: `strategies` tests of one
    /// step to start and one per tested domain.
    pub fn strategies_planned(&mut self, strategies: usize, tested: usize)
        requires
            tested < usize::MAX,
            old(self).total + strategies * (1 + tested) <= usize::MAX,
        ensures
            final(self).view_pair() == planned(old(self).view_pair(), (strategies * (1 + tested)) as nat),
    {
        proof {
            assert(strategies * (1 + tested) >= 0) by (nonlinear_arith)
                requires
                    strategies >= 0,
                    tested >= 0,
            ;
        }
        self.total = self.total + strategies * (1 + tested);
    }
}

/// The text of a preset's domain list file as it is first written: a
/// comment line with the header, then one domain per line.
pub open spec fn domain_file(header: Seq<char>, domains: Seq<Seq<char>>) -> Seq<char> {
    text::terminated(seq!["# "@ + header] + domains)
}

/// Whether a domain list file is to be (re)written: it is missing, or it
/// names no domain.
pub open spec fn domain_file_needed(present: bool, content: Seq<char>) -> bool {
    !present || autotune::domain_list(text::lines(content)).len() == 0
}

/// Whether a domain list file is to be written with the defaults.
pub fn domain_file_missing(present: bool, content: &str) -> (b: bool)
    ensures
        b == domain_file_needed(present, content@),
{
    if !present {
        return true;
    }
    autotune::parse_domain_list(content).len() == 0
}

/// The text of a domain list file with a header comment and the domains.
pub fn domain_file_text(header: &str, domains: &Vec<String>) -> (r: String)
    ensures
        r@ == domain_file(header@, order::strings(domains@)),
{
    let mut lines: Vec<Vec<char>> = Vec::new();
    let first = String::from_str("# ").concat(header);
    let f = text::to_chars(first.as_str());
    assert(f.deep_view() =~= f@);
    lines.push(f);
    let mut i: usize = 0;
    while i < domains.len()
        invariant
            i <= domains@.len(),
            lines.deep_view() == seq!["# "@ + header@] + order::strings(domains@.take(i as int)),
        decreases domains.len() - i,
    {
        let ghost before = lines.deep_view();
        let c = text::to_chars(domains[i].as_str());
        assert(c.deep_view() =~= c@);
        lines.push(c);
        proof {
            assert(order::strings(domains@.take(i + 1)) =~= order::strings(domains@.take(i as int)).push(domains@[i as int]@));
            assert(lines.deep_view() =~= before.push(c@));
        }
        i += 1;
    }
    assert(domains@.take(domains@.len() as int) =~= domains@);
    let t = text::terminated_chars(&lines);
    text::from_chars(t.as_slice())
}

/// A domain as a list file holds it: one trimmed, non-empty line that is no
/// comment.
pub open spec fn clean_domain(d: Seq<char>) -> bool {
    &&& d.len() > 0
    &&& text::is_trimmed(d)
    &&& !text::has_char(d, '\n')
    &&& d[0] != '#'
}

proof fn lemma_trim_end_keeps_first(s: Seq<char>)
    requires
        s.len() > 0,
        !text::is_ws(s[0]),
    ensures
        text::trim_end(s).len() > 0,
        text::trim_end(s)[0] == s[0],
    decreases s.len(),
{
    if text::is_ws(s.last()) {
        lemma_trim_end_keeps_first(s.drop_last());
    }
}

proof fn lemma_comment_list(h: Seq<char>, ds: Seq<Seq<char>>)
    requires
        h.len() > 0,
        h[0] == '#',
        forall|i: int| 0 <= i < ds.len() ==> clean_domain(#[trigger] ds[i]),
    ensures
        autotune::domain_list(seq![h] + ds) == ds,
    decreases ds.len(),
{
    let l = seq![h] + ds;
    if ds.len() == 0 {
        assert(l =~= seq![h]);
        assert(l.drop_last() =~= Seq::<Seq<char>>::empty());
        assert(text::trim_start(h) == h);
        lemma_trim_end_keeps_first(h);
        assert(!autotune::is_domain_line(text::trim(h)));
        assert(l.last() == h);
        assert(autotune::domain_list(l.drop_last()) =~= Seq::<Seq<char>>::empty());
        assert(ds =~= Seq::<Seq<char>>::empty());
    } else {
        assert(l.drop_last() =~= seq![h] + ds.drop_last());
        assert forall|i: int| 0 <= i < ds.drop_last().len() implies clean_domain(#[trigger] ds.drop_last()[i]) by {
            assert(ds.drop_last()[i] == ds[i]);
        }
        lemma_comment_list(h, ds.drop_last());
        assert(clean_domain(ds[ds.len() - 1]));
        text::lemma_trim_trimmed(ds.last());
        assert(l.last() == ds.last());
        assert(autotune::domain_list(l) =~= ds.drop_last().push(ds.last()));
        assert(ds.drop_last().push(ds.last()) =~= ds);
    }
}

/// A domain list file reads back as what was written: for the text that
/// [`domain_file_text`] writes (`domain_file`), [`autotune::parse_domain_list`]
/// returns (`domain_list` of its lines) the same domains, in order, when the
/// header is one line and every domain is a trimmed, non-empty line that is
/// no comment.
pub proof fn lemma_domain_file_round_trip(header: Seq<char>, domains: Seq<Seq<char>>)
    requires
        !text::has_char(header, '\n'),
        !text::has_char(header, '\r'),
        forall|i: int| 0 <= i < domains.len() ==> clean_domain(#[trigger] domains[i]),
    ensures
        autotune::domain_list(text::lines(domain_file(header, domains))) == domains,
{
    let h = "# "@ + header;
    reveal_strlit("# ");
    assert(h[0] == '#');
    let ls = seq![h] + domains;
    assert forall|i: int| 0 <= i < ls.len() implies !text::has_char(#[trigger] ls[i], '\n') by {
        if i == 0 {
            assert forall|j: int| 0 <= j < h.len() implies h[j] != '\n' by {
                if j >= 2 {
                    assert(h[j] == header[j - 2]);
                }
            }
        } else {
            assert(ls[i] == domains[i - 1]);
            assert(clean_domain(domains[i - 1]));
        }
    }
    assert forall|i: int| 0 <= i < ls.len() implies text::strip_cr(#[trigger] ls[i]) == ls[i] by {
        if i == 0 {
            if header.len() > 0 {
                assert(h.last() == header.last());
                assert(header.last() != '\r');
            }
        } else {
            let d = domains[i - 1];
            assert(ls[i] == d);
            assert(clean_domain(d));
            assert(!text::is_ws(d.last()));
        }
    }
    text::lemma_lines_terminated(ls);
    lemma_comment_list(h, domains);
}


/// The header of a preset's domain list file.
pub open spec fn preset_file_header(name: Seq<char>) -> Seq<char> {
    "Domain list for the "@ + name + " preset: one domain per line, lines starting with # are ignored"@
}

/// The text a preset's domain list file is first written with: the header
/// naming the preset, then its built-in domains.
pub fn preset_file_text(i: usize) -> (r: String)
    ensures
        r@ == domain_file(preset_file_header(autotune::preset_name(i as int)), autotune::preset_domains(i as int)),
{
    let name = autotune::preset_name_of(i);
    let header = String::from_str("Domain list for the ").concat(name.as_str()).concat(
        " preset: one domain per line, lines starting with # are ignored",
    );
    let domains = autotune::builtin_domains(i);
    domain_file_text(header.as_str(), &domains)
}

} // verus!
