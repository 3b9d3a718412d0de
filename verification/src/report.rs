//! The texts of the autotune's results: the results file, and the summary
//! shown when a run ends.
use vstd::prelude::*;
use crate::autotune;
use crate::autotune::{
    AutotuneResults, CheckResult, CheckStatus, DomainCheckResult, DomainProtocolCheck, PresetResult,
    StrategyCheckResult, status_str_file,
};
use crate::text;
use crate::text::{decimal_chars, from_chars, push_all, push_str, terminated_chars, to_chars};

verus! {

/// The word for a status in the file.
pub open spec fn word(s: CheckStatus) -> Seq<char> {
    autotune::status_file_word(s)
}

/// The label of the `i`-th network check.
pub open spec fn check_label(i: int) -> Seq<char> {
    if i == 0 {
        "DNS"@
    } else if i == 1 {
        "TCP RST"@
    } else if i == 2 {
        "SNI"@
    } else if i == 3 {
        "SIBERIAN"@
    } else if i == 4 {
        "QUIC"@
    } else {
        "CIDR"@
    }
}

/// The lines of the first `k` network checks.
pub open spec fn check_lines(rs: Seq<CheckResult>, k: nat) -> Seq<Seq<char>>
    decreases k,
{
    if k == 0 {
        seq![]
    } else {
        check_lines(rs, (k - 1) as nat).push("  "@ + check_label(k - 1) + ": "@ + word(rs[k - 1].status))
    }
}

/// The line of one domain of a preset.
pub open spec fn domain_line(dc: DomainCheckResult) -> Seq<char> {
    "  "@ + dc.domain@ + ": alive="@ + word(dc.alive) + " HTTP:"@ + word(dc.http) + "("@ + text::decimal(
        dc.http_count as nat,
    ) + ") TLS1.2:"@ + word(dc.tls12) + " TLS1.3:"@ + word(dc.tls13) + " QUIC:"@ + word(dc.quic) + "("@
        + text::decimal(dc.quic_count as nat) + ") baseline="@ + word(
        if dc.baseline_pass {
            CheckStatus::Pass
        } else {
            CheckStatus::Fail
        },
    )
}

/// The lines of a sequence of items, each giving a list of lines.
pub open spec fn flat(parts: Seq<Seq<Seq<char>>>) -> Seq<Seq<char>>
    decreases parts.len(),
{
    if parts.len() == 0 {
        seq![]
    } else {
        flat(parts.drop_last()) + parts.last()
    }
}

/// The domain block of a preset: a header, a line per domain, a blank line.
pub open spec fn domain_block(pr: PresetResult) -> Seq<Seq<char>> {
    seq!["--- Domain results ["@ + pr.preset_name@ + "] ---"@] + pr.domain_checks@.map_values(
        |dc: DomainCheckResult| domain_line(dc),
    ) + seq![Seq::<char>::empty()]
}

/// A check mark for a protocol that got through, a cross otherwise.
pub open spec fn mark(b: bool) -> Seq<char> {
    if b {
        "✅"@
    } else {
        "❌"@
    }
}

/// The line of one domain tested under a strategy.
pub open spec fn protocol_line(dc: DomainProtocolCheck) -> Seq<char> {
    "      "@ + dc.domain@ + " HTTP:"@ + mark(dc.http) + " T12:"@ + mark(dc.tls12) + " T13:"@ + mark(dc.tls13)
        + " Q:"@ + mark(dc.quic)
}

/// The line of one strategy: its verdict, how many of the blocked domains it
/// unblocked, and the protocols that got through.
pub open spec fn strategy_line(sr: StrategyCheckResult) -> Seq<char> {
    let protos = crate::order::strings(sr.protocols_working@);
    "    "@ + sr.strategy_name@ + ": "@ + (if sr.works {
        "WORKS"@
    } else {
        "FAILS"@
    }) + " ("@ + text::decimal(sr.domains_pass@.len()) + "/"@ + text::decimal(
        sr.domains_pass@.len() + sr.domains_fail@.len(),
    ) + ")"@ + if protos.len() == 0 {
        Seq::<char>::empty()
    } else {
        " ["@ + text::join(protos, ", "@) + "]"@
    }
}

/// The lines of one strategy: its line and a line per tested domain.
pub open spec fn strategy_block(sr: StrategyCheckResult) -> Seq<Seq<char>> {
    seq![strategy_line(sr)] + sr.domain_checks@.map_values(|dc: DomainProtocolCheck| protocol_line(dc))
}

/// The strategy block of a preset: its name, the strategies, a blank line.
pub open spec fn preset_strategies(pr: PresetResult) -> Seq<Seq<char>> {
    seq!["  ["@ + pr.preset_name@ + "]"@] + flat(
        pr.strategy_results@.map_values(|sr: StrategyCheckResult| strategy_block(sr)),
    ) + seq![Seq::<char>::empty()]
}

/// The lines of the results file: the network checks, the domains of each
/// preset, (with presets) the strategies of each preset and the strategies
/// common to all, and last how long the run took.
pub open spec fn report_lines(r: AutotuneResults) -> Seq<Seq<char>> {
    let rs = r.block_results@;
    let ps = r.preset_results@;
    let common = crate::order::strings(r.common_strategies@);
    let k = if rs.len() < 6 { rs.len() } else { 6 };
    seq!["--- Network checks ---"@] + check_lines(rs, k) + seq![Seq::<char>::empty()] + flat(
        ps.map_values(|pr: PresetResult| domain_block(pr)),
    ) + (if ps.len() > 0 {
        seq!["--- Strategy results ---"@] + flat(ps.map_values(|pr: PresetResult| preset_strategies(pr))) + if common.len()
            > 0 {
            seq!["--- Common strategies ("@ + text::decimal(common.len()) + ") ---"@] + common.map_values(
                |n: Seq<char>| "  ✅ "@ + n,
            ) + seq![Seq::<char>::empty()]
        } else {
            Seq::<Seq<char>>::empty()
        }
    } else {
        Seq::<Seq<char>>::empty()
    }) + seq![time_line(r.elapsed_secs as nat)]
}

/// The line that gives how long a run took: whole minutes and the
/// remaining seconds.
pub open spec fn time_line(secs: nat) -> Seq<char> {
    "Total time: "@ + text::decimal(secs / 60) + "m "@ + text::decimal(secs % 60) + "s"@
}

fn time_line_chars(secs: usize) -> (v: Vec<char>)
    ensures
        v@ == time_line(secs as nat),
{
    let mut v: Vec<char> = Vec::new();
    push_str(&mut v, "Total time: ");
    push_number(&mut v, secs / 60);
    push_str(&mut v, "m ");
    push_number(&mut v, secs % 60);
    push_str(&mut v, "s");
    v
}

/// The text of the results file: its lines, each ended by a newline.
pub open spec fn results_text(r: AutotuneResults) -> Seq<char> {
    text::terminated(report_lines(r))
}

fn put(lines: &mut Vec<Vec<char>>, l: Vec<char>)
    ensures
        final(lines).deep_view() == old(lines).deep_view().push(l@),
{
    let ghost before = lines.deep_view();
    assert(l.deep_view() =~= l@);
    lines.push(l);
    assert(lines.deep_view() =~= before.push(l@));
}

fn put_all(lines: &mut Vec<Vec<char>>, more: Vec<Vec<char>>)
    ensures
        final(lines).deep_view() == old(lines).deep_view() + more.deep_view(),
{
    let mut i: usize = 0;
    let ghost before = lines.deep_view();
    while i < more.len()
        invariant
            i <= more@.len(),
            lines.deep_view() == before + more.deep_view().take(i as int),
        decreases more.len() - i,
    {
        let l = more[i].clone();
        assert(l@ == more.deep_view()[i as int]);
        put(lines, l);
        assert(more.deep_view().take(i + 1) =~= more.deep_view().take(i as int).push(more.deep_view()[i as int]));
        i += 1;
    }
    assert(more.deep_view().take(more.deep_view().len() as int) =~= more.deep_view());
}

fn push_word(v: &mut Vec<char>, s: &CheckStatus)
    ensures
        final(v)@ == old(v)@ + word(*s),
{
    push_str(v, status_str_file(s));
}

fn push_number(v: &mut Vec<char>, n: usize)
    ensures
        final(v)@ == old(v)@ + text::decimal(n as nat),
{
    let d = decimal_chars(n);
    push_all(v, d.as_slice());
}

fn domain_line_chars(dc: &DomainCheckResult) -> (v: Vec<char>)
    ensures
        v@ == domain_line(*dc),
{
    let mut v: Vec<char> = Vec::new();
    push_str(&mut v, "  ");
    push_str(&mut v, dc.domain.as_str());
    push_str(&mut v, ": alive=");
    push_word(&mut v, &dc.alive);
    push_str(&mut v, " HTTP:");
    push_word(&mut v, &dc.http);
    push_str(&mut v, "(");
    push_number(&mut v, dc.http_count);
    push_str(&mut v, ") TLS1.2:");
    push_word(&mut v, &dc.tls12);
    push_str(&mut v, " TLS1.3:");
    push_word(&mut v, &dc.tls13);
    push_str(&mut v, " QUIC:");
    push_word(&mut v, &dc.quic);
    push_str(&mut v, "(");
    push_number(&mut v, dc.quic_count);
    push_str(&mut v, ") baseline=");
    let b = if dc.baseline_pass {
        CheckStatus::Pass
    } else {
        CheckStatus::Fail
    };
    push_word(&mut v, &b);
    v
}

fn domain_block_lines(pr: &PresetResult) -> (v: Vec<Vec<char>>)
    ensures
        v.deep_view() == domain_block(*pr),
{
    let mut v: Vec<Vec<char>> = Vec::new();
    let mut h: Vec<char> = Vec::new();
    push_str(&mut h, "--- Domain results [");
    push_str(&mut h, pr.preset_name.as_str());
    push_str(&mut h, "] ---");
    put(&mut v, h);
    let ds = &pr.domain_checks;
    let mut i: usize = 0;
    while i < ds.len()
        invariant
            i <= ds@.len(),
            ds@ == pr.domain_checks@,
            v.deep_view() == seq!["--- Domain results ["@ + pr.preset_name@ + "] ---"@] + ds@.take(i as int).map_values(
                |dc: DomainCheckResult| domain_line(dc),
            ),
        decreases ds.len() - i,
    {
        let l = domain_line_chars(&ds[i]);
        put(&mut v, l);
        proof {
            assert(ds@.take(i + 1).map_values(|dc: DomainCheckResult| domain_line(dc)) =~= ds@.take(
                i as int,
            ).map_values(|dc: DomainCheckResult| domain_line(dc)).push(domain_line(ds@[i as int])));
        }
        i += 1;
    }
    assert(ds@.take(ds@.len() as int) =~= ds@);
    put(&mut v, Vec::new());
    v
}

fn push_mark(v: &mut Vec<char>, b: bool)
    ensures
        final(v)@ == old(v)@ + mark(b),
{
    if b {
        push_str(v, "✅");
    } else {
        push_str(v, "❌");
    }
}

fn protocol_line_chars(dc: &DomainProtocolCheck) -> (v: Vec<char>)
    ensures
        v@ == protocol_line(*dc),
{
    let mut v: Vec<char> = Vec::new();
    push_str(&mut v, "      ");
    push_str(&mut v, dc.domain.as_str());
    push_str(&mut v, " HTTP:");
    push_mark(&mut v, dc.http);
    push_str(&mut v, " T12:");
    push_mark(&mut v, dc.tls12);
    push_str(&mut v, " T13:");
    push_mark(&mut v, dc.tls13);
    push_str(&mut v, " Q:");
    push_mark(&mut v, dc.quic);
    v
}

fn strategy_line_chars(sr: &StrategyCheckResult) -> (v: Vec<char>)
    requires
        sr.domains_pass@.len() + sr.domains_fail@.len() <= usize::MAX,
    ensures
        v@ == strategy_line(*sr),
{
    let mut v: Vec<char> = Vec::new();
    push_str(&mut v, "    ");
    push_str(&mut v, sr.strategy_name.as_str());
    push_str(&mut v, ": ");
    if sr.works {
        push_str(&mut v, "WORKS");
    } else {
        push_str(&mut v, "FAILS");
    }
    push_str(&mut v, " (");
    push_number(&mut v, sr.score());
    push_str(&mut v, "/");
    push_number(&mut v, sr.total());
    push_str(&mut v, ")");
    if sr.protocols_working.len() > 0 {
        let mut protos: Vec<Vec<char>> = Vec::new();
        let mut i: usize = 0;
        while i < sr.protocols_working.len()
            invariant
                i <= sr.protocols_working@.len(),
                protos.deep_view() == crate::order::strings(sr.protocols_working@).take(i as int),
            decreases sr.protocols_working.len() - i,
        {
            let p = to_chars(sr.protocols_working[i].as_str());
            put(&mut protos, p);
            assert(crate::order::strings(sr.protocols_working@).take(i + 1) =~= crate::order::strings(
                sr.protocols_working@,
            ).take(i as int).push(sr.protocols_working@[i as int]@));
            i += 1;
        }
        assert(crate::order::strings(sr.protocols_working@).take(sr.protocols_working@.len() as int)
            =~= crate::order::strings(sr.protocols_working@));
        let sep = to_chars(", ");
        let joined = text::join_chars(&protos, sep.as_slice());
        push_str(&mut v, " [");
        push_all(&mut v, joined.as_slice());
        push_str(&mut v, "]");
    }
    v
}

/// Whether every strategy's domain counts add up within `usize`.
pub open spec fn counts_fit(ps: Seq<PresetResult>) -> bool {
    forall|i: int, j: int|
        0 <= i < ps.len() && 0 <= j < ps[i].strategy_results@.len() ==> #[trigger] ps[i].strategy_results@[j].domains_pass@.len()
            + ps[i].strategy_results@[j].domains_fail@.len() <= usize::MAX
}

/// Whether every strategy's domain counts add up within `usize`: the test
/// that the report texts can be written.
pub fn report_fits(results: &AutotuneResults) -> (b: bool)
    ensures
        b == counts_fit(results.preset_results@),
{
    let ps = &results.preset_results;
    let mut i: usize = 0;
    while i < ps.len()
        invariant
            i <= ps@.len(),
            ps@ == results.preset_results@,
            forall|a: int, j: int|
                0 <= a < i && 0 <= j < ps@[a].strategy_results@.len() ==> #[trigger] ps@[a].strategy_results@[j].domains_pass@.len()
                    + ps@[a].strategy_results@[j].domains_fail@.len() <= usize::MAX,
        decreases ps.len() - i,
    {
        let ss = &ps[i].strategy_results;
        let mut j: usize = 0;
        while j < ss.len()
            invariant
                i < ps@.len(),
                ps@ == results.preset_results@,
                j <= ss@.len(),
                ss@ == ps@[i as int].strategy_results@,
                forall|m: int|
                    0 <= m < j ==> #[trigger] ss@[m].domains_pass@.len() + ss@[m].domains_fail@.len() <= usize::MAX,
            decreases ss.len() - j,
        {
            if ss[j].domains_pass.len() as u128 + ss[j].domains_fail.len() as u128 > usize::MAX as u128 {
                assert(!counts_fit(ps@)) by {
                    assert(ps@[i as int].strategy_results@[j as int] == ss@[j as int]);
                }
                return false;
            }
            j += 1;
        }
        assert forall|a: int, m: int|
            0 <= a < i + 1 && 0 <= m < ps@[a].strategy_results@.len() implies #[trigger] ps@[a].strategy_results@[m].domains_pass@.len()
                + ps@[a].strategy_results@[m].domains_fail@.len() <= usize::MAX by {
            if a == i {
                assert(ps@[a].strategy_results@[m] == ss@[m]);
            }
        }
        i += 1;
    }
    true
}

fn strategy_block_lines(sr: &StrategyCheckResult) -> (v: Vec<Vec<char>>)
    requires
        sr.domains_pass@.len() + sr.domains_fail@.len() <= usize::MAX,
    ensures
        v.deep_view() == strategy_block(*sr),
{
    let mut v: Vec<Vec<char>> = Vec::new();
    put(&mut v, strategy_line_chars(sr));
    let ds = &sr.domain_checks;
    let mut i: usize = 0;
    while i < ds.len()
        invariant
            i <= ds@.len(),
            ds@ == sr.domain_checks@,
            v.deep_view() == seq![strategy_line(*sr)] + ds@.take(i as int).map_values(
                |dc: DomainProtocolCheck| protocol_line(dc),
            ),
        decreases ds.len() - i,
    {
        put(&mut v, protocol_line_chars(&ds[i]));
        proof {
            assert(ds@.take(i + 1).map_values(|dc: DomainProtocolCheck| protocol_line(dc)) =~= ds@.take(
                i as int,
            ).map_values(|dc: DomainProtocolCheck| protocol_line(dc)).push(protocol_line(ds@[i as int])));
        }
        i += 1;
    }
    assert(ds@.take(ds@.len() as int) =~= ds@);
    v
}

proof fn lemma_flat_push(parts: Seq<Seq<Seq<char>>>, x: Seq<Seq<char>>)
    ensures
        flat(parts.push(x)) == flat(parts) + x,
{
    assert(parts.push(x).drop_last() =~= parts);
}

fn preset_strategy_lines(pr: &PresetResult) -> (v: Vec<Vec<char>>)
    requires
        forall|j: int|
            0 <= j < pr.strategy_results@.len() ==> #[trigger] pr.strategy_results@[j].domains_pass@.len()
                + pr.strategy_results@[j].domains_fail@.len() <= usize::MAX,
    ensures
        v.deep_view() == preset_strategies(*pr),
{
    let mut v: Vec<Vec<char>> = Vec::new();
    let mut h: Vec<char> = Vec::new();
    push_str(&mut h, "  [");
    push_str(&mut h, pr.preset_name.as_str());
    push_str(&mut h, "]");
    put(&mut v, h);
    let ghost head = v.deep_view();
    let ss = &pr.strategy_results;
    let mut i: usize = 0;
    while i < ss.len()
        invariant
            i <= ss@.len(),
            ss@ == pr.strategy_results@,
            forall|j: int|
                0 <= j < ss@.len() ==> #[trigger] ss@[j].domains_pass@.len() + ss@[j].domains_fail@.len()
                    <= usize::MAX,
            v.deep_view() == head + flat(
                ss@.take(i as int).map_values(|sr: StrategyCheckResult| strategy_block(sr)),
            ),
        decreases ss.len() - i,
    {
        let block = strategy_block_lines(&ss[i]);
        put_all(&mut v, block);
        proof {
            let f = |sr: StrategyCheckResult| strategy_block(sr);
            assert(ss@.take(i + 1).map_values(f) =~= ss@.take(i as int).map_values(f).push(strategy_block(
                ss@[i as int],
            )));
            lemma_flat_push(ss@.take(i as int).map_values(f), strategy_block(ss@[i as int]));
        }
        i += 1;
    }
    assert(ss@.take(ss@.len() as int) =~= ss@);
    put(&mut v, Vec::new());
    v
}

/// The text of the results file.
#[verifier::spinoff_prover]
#[verifier::rlimit(40)]
pub fn results_file_text(results: &AutotuneResults) -> (t: String)
    requires
        counts_fit(results.preset_results@),
    ensures
        t@ == results_text(*results),
{
    let mut lines: Vec<Vec<char>> = Vec::new();
    put(&mut lines, to_chars("--- Network checks ---"));
    let rs = &results.block_results;
    let k: usize = if rs.len() < 6 { rs.len() } else { 6 };
    let mut i: usize = 0;
    while i < k
        invariant
            i <= k,
            k <= rs@.len(),
            k <= 6,
            rs@ == results.block_results@,
            lines.deep_view() == seq!["--- Network checks ---"@] + check_lines(rs@, i as nat),
        decreases k - i,
    {
        let mut l: Vec<char> = Vec::new();
        push_str(&mut l, "  ");
        let label = if i == 0 {
            "DNS"
        } else if i == 1 {
            "TCP RST"
        } else if i == 2 {
            "SNI"
        } else if i == 3 {
            "SIBERIAN"
        } else if i == 4 {
            "QUIC"
        } else {
            "CIDR"
        };
        push_str(&mut l, label);
        push_str(&mut l, ": ");
        push_word(&mut l, &rs[i].status);
        put(&mut lines, l);
        i += 1;
    }
    put(&mut lines, Vec::new());
    let ghost after_checks = lines.deep_view();
    let ps = &results.preset_results;
    let mut j: usize = 0;
    while j < ps.len()
        invariant
            j <= ps@.len(),
            ps@ == results.preset_results@,
            lines.deep_view() == after_checks + flat(ps@.take(j as int).map_values(|pr: PresetResult| domain_block(pr))),
        decreases ps.len() - j,
    {
        let block = domain_block_lines(&ps[j]);
        put_all(&mut lines, block);
        proof {
            let f = |pr: PresetResult| domain_block(pr);
            assert(ps@.take(j + 1).map_values(f) =~= ps@.take(j as int).map_values(f).push(domain_block(ps@[j as int])));
            lemma_flat_push(ps@.take(j as int).map_values(f), domain_block(ps@[j as int]));
        }
        j += 1;
    }
    assert(ps@.take(ps@.len() as int) =~= ps@);
    let ghost after_domains = lines.deep_view();
    if ps.len() > 0 {
        put(&mut lines, to_chars("--- Strategy results ---"));
        let ghost head = lines.deep_view();
        let mut j: usize = 0;
        while j < ps.len()
            invariant
                j <= ps@.len(),
                ps@ == results.preset_results@,
                counts_fit(ps@),
                lines.deep_view() == head + flat(
                    ps@.take(j as int).map_values(|pr: PresetResult| preset_strategies(pr)),
                ),
            decreases ps.len() - j,
        {
            proof {
                assert forall|m: int|
                    0 <= m < ps@[j as int].strategy_results@.len() implies #[trigger] ps@[j as int].strategy_results@[m].domains_pass@.len()
                    + ps@[j as int].strategy_results@[m].domains_fail@.len() <= usize::MAX by {
                    assert(ps@[j as int].strategy_results@[m].domains_pass@.len()
                        + ps@[j as int].strategy_results@[m].domains_fail@.len() <= usize::MAX);
                }
            }
            let block = preset_strategy_lines(&ps[j]);
            put_all(&mut lines, block);
            proof {
                let f = |pr: PresetResult| preset_strategies(pr);
                assert(ps@.take(j + 1).map_values(f) =~= ps@.take(j as int).map_values(f).push(preset_strategies(
                    ps@[j as int],
                )));
                lemma_flat_push(ps@.take(j as int).map_values(f), preset_strategies(ps@[j as int]));
            }
            j += 1;
        }
        let cs = &results.common_strategies;
        if cs.len() > 0 {
            let mut h: Vec<char> = Vec::new();
            push_str(&mut h, "--- Common strategies (");
            push_number(&mut h, cs.len());
            push_str(&mut h, ") ---");
            put(&mut lines, h);
            let ghost head2 = lines.deep_view();
            let mut m: usize = 0;
            while m < cs.len()
                invariant
                    m <= cs@.len(),
                    cs@ == results.common_strategies@,
                    lines.deep_view() == head2 + crate::order::strings(cs@).take(m as int).map_values(
                        |n: Seq<char>| "  ✅ "@ + n,
                    ),
                decreases cs.len() - m,
            {
                let mut l: Vec<char> = Vec::new();
                push_str(&mut l, "  ✅ ");
                push_str(&mut l, cs[m].as_str());
                put(&mut lines, l);
                proof {
                    let f = |n: Seq<char>| "  ✅ "@ + n;
                    let sv = crate::order::strings(cs@);
                    assert(sv.take(m + 1).map_values(f) =~= sv.take(m as int).map_values(f).push(f(sv[m as int])));
                }
                m += 1;
            }
            assert(crate::order::strings(cs@).take(cs@.len() as int) =~= crate::order::strings(cs@));
            put(&mut lines, Vec::new());
        }
    }
    put(&mut lines, time_line_chars(results.elapsed_secs));
    let all = terminated_chars(&lines);
    proof {
        assert(lines.deep_view() =~= report_lines(*results));
    }
    from_chars(&all)
}


/// The sign a status is shown with in the summary.
pub open spec fn sign(s: CheckStatus) -> Seq<char> {
    match s {
        CheckStatus::Pass => "✅"@,
        CheckStatus::Fail => "❌"@,
        CheckStatus::Skip => "⏩"@,
        CheckStatus::Error => "🚨"@,
    }
}

/// What a network check's status means, in the summary.
pub open spec fn meaning(s: CheckStatus) -> Seq<char> {
    match s {
        CheckStatus::Pass => "No blocking detected"@,
        CheckStatus::Fail => "Blocking detected"@,
        CheckStatus::Skip => "Skipped"@,
        CheckStatus::Error => "Error during check"@,
    }
}

/// The summary lines of the first `k` network checks.
pub open spec fn summary_check_lines(rs: Seq<CheckResult>, k: nat) -> Seq<Seq<char>>
    decreases k,
{
    if k == 0 {
        seq![]
    } else {
        summary_check_lines(rs, (k - 1) as nat).push(
            "  "@ + check_label(k - 1) + ": "@ + sign(rs[k - 1].status) + " - "@ + meaning(rs[k - 1].status),
        )
    }
}

/// The summary line of one domain, with `n` requests per protocol.
pub open spec fn summary_domain_line(dc: DomainCheckResult, n: nat) -> Seq<char> {
    "  "@ + dc.domain@ + ": alive="@ + sign(dc.alive) + " HTTP:"@ + sign(dc.http) + "("@ + text::decimal(
        dc.http_count as nat,
    ) + "/"@ + text::decimal(n) + ") TLS1.2="@ + sign(dc.tls12) + " TLS1.3="@ + sign(dc.tls13) + " QUIC:"@
        + sign(dc.quic) + "("@ + text::decimal(dc.quic_count as nat) + "/"@ + text::decimal(n)
        + ") baseline="@ + sign(
        if dc.baseline_pass {
            CheckStatus::Pass
        } else {
            CheckStatus::Fail
        },
    )
}

/// The protocols that got through, as a bracketed list after a space (none:
/// nothing).
pub open spec fn protocols_part(sr: StrategyCheckResult) -> Seq<char> {
    let protos = crate::order::strings(sr.protocols_working@);
    if protos.len() == 0 {
        Seq::<char>::empty()
    } else {
        " ["@ + text::join(protos, ", "@) + "]"@
    }
}

/// The summary line of one strategy.
pub open spec fn summary_strategy_line(sr: StrategyCheckResult) -> Seq<char> {
    "    "@ + sr.strategy_name@ + ": "@ + (if sr.works {
        "✅ WORKS"@
    } else {
        "❌ FAILS"@
    }) + " ("@ + text::decimal(sr.domains_pass@.len()) + "/"@ + text::decimal(
        sr.domains_pass@.len() + sr.domains_fail@.len(),
    ) + " blocked domains unblocked)"@ + protocols_part(sr)
}

/// The summary lines of one strategy: its line and a line per tested domain.
pub open spec fn summary_strategy_block(sr: StrategyCheckResult) -> Seq<Seq<char>> {
    seq![summary_strategy_line(sr)] + sr.domain_checks@.map_values(|dc: DomainProtocolCheck| protocol_line(dc))
}

/// A line per working strategy, in order.
pub open spec fn working_lines(ss: Seq<StrategyCheckResult>) -> Seq<Seq<char>>
    decreases ss.len(),
{
    if ss.len() == 0 {
        seq![]
    } else {
        let rest = working_lines(ss.drop_last());
        let sr = ss.last();
        if sr.works {
            rest.push(
                "      ✅ "@ + sr.strategy_name@ + " ("@ + text::decimal(sr.domains_pass@.len()) + "/"@
                    + text::decimal(sr.domains_pass@.len() + sr.domains_fail@.len()) + ")"@,
            )
        } else {
            rest
        }
    }
}

/// The summary of a preset's strategies: each strategy, then the working ones.
pub open spec fn summary_strategies(ss: Seq<StrategyCheckResult>) -> Seq<Seq<char>> {
    let w = working_lines(ss);
    seq![Seq::<char>::empty(), "  --- Strategy results ---"@] + flat(
        ss.map_values(|sr: StrategyCheckResult| summary_strategy_block(sr)),
    ) + if w.len() == 0 {
        seq!["    No strategy works"@]
    } else {
        seq!["    Working strategies: "@ + text::decimal(w.len()) + " of "@ + text::decimal(ss.len())] + w
    }
}

/// The summary of a preset: its domains, its strategies (where any were
/// tested) and a blank line.
pub open spec fn preset_summary(pr: PresetResult, n: nat) -> Seq<Seq<char>> {
    seq!["--- Domain results ["@ + pr.preset_name@ + "] ---"@] + pr.domain_checks@.map_values(
        |dc: DomainCheckResult| summary_domain_line(dc, n),
    ) + (if pr.strategy_results@.len() > 0 {
        summary_strategies(pr.strategy_results@)
    } else {
        Seq::<Seq<char>>::empty()
    }) + seq![Seq::<char>::empty()]
}

/// The lines of the summary shown when a run ends, with `n` requests per
/// protocol: the network checks with what they mean, each preset's domains
/// and strategies, the strategies common to all presets, and how long the
/// run took.
pub open spec fn summary_lines(r: AutotuneResults, n: nat) -> Seq<Seq<char>> {
    let rs = r.block_results@;
    let common = crate::order::strings(r.common_strategies@);
    let k = if rs.len() < 6 { rs.len() } else { 6 };
    seq![
        Seq::<char>::empty(),
        Seq::<char>::empty(),
        "Autotune finished"@,
        Seq::<char>::empty(),
        "Legend: ✅ passed, ❌ blocked, ⏩ skipped, 🚨 error"@,
        Seq::<char>::empty(),
        "--- Network checks ---"@,
    ] + summary_check_lines(rs, k) + seq![Seq::<char>::empty()] + flat(
        r.preset_results@.map_values(|pr: PresetResult| preset_summary(pr, n)),
    ) + (if common.len() > 0 {
        seq!["--- Common strategies ("@ + text::decimal(common.len()) + ") ---"@] + common.map_values(
            |c: Seq<char>| "  ✅ "@ + c,
        ) + seq![Seq::<char>::empty()]
    } else {
        Seq::<Seq<char>>::empty()
    }) + seq![time_line(r.elapsed_secs as nat)]
}

fn push_sign(v: &mut Vec<char>, s: &CheckStatus)
    ensures
        final(v)@ == old(v)@ + sign(*s),
{
    match s {
        CheckStatus::Pass => push_str(v, "✅"),
        CheckStatus::Fail => push_str(v, "❌"),
        CheckStatus::Skip => push_str(v, "⏩"),
        CheckStatus::Error => push_str(v, "🚨"),
    }
}

fn push_meaning(v: &mut Vec<char>, s: &CheckStatus)
    ensures
        final(v)@ == old(v)@ + meaning(*s),
{
    match s {
        CheckStatus::Pass => push_str(v, "No blocking detected"),
        CheckStatus::Fail => push_str(v, "Blocking detected"),
        CheckStatus::Skip => push_str(v, "Skipped"),
        CheckStatus::Error => push_str(v, "Error during check"),
    }
}

fn summary_domain_chars(dc: &DomainCheckResult, n: usize) -> (v: Vec<char>)
    ensures
        v@ == summary_domain_line(*dc, n as nat),
{
    let mut v: Vec<char> = Vec::new();
    push_str(&mut v, "  ");
    push_str(&mut v, dc.domain.as_str());
    push_str(&mut v, ": alive=");
    push_sign(&mut v, &dc.alive);
    push_str(&mut v, " HTTP:");
    push_sign(&mut v, &dc.http);
    push_str(&mut v, "(");
    push_number(&mut v, dc.http_count);
    push_str(&mut v, "/");
    push_number(&mut v, n);
    push_str(&mut v, ") TLS1.2=");
    push_sign(&mut v, &dc.tls12);
    push_str(&mut v, " TLS1.3=");
    push_sign(&mut v, &dc.tls13);
    push_str(&mut v, " QUIC:");
    push_sign(&mut v, &dc.quic);
    push_str(&mut v, "(");
    push_number(&mut v, dc.quic_count);
    push_str(&mut v, "/");
    push_number(&mut v, n);
    push_str(&mut v, ") baseline=");
    let b = if dc.baseline_pass {
        CheckStatus::Pass
    } else {
        CheckStatus::Fail
    };
    push_sign(&mut v, &b);
    v
}

fn push_protocols(v: &mut Vec<char>, sr: &StrategyCheckResult)
    ensures
        final(v)@ == old(v)@ + protocols_part(*sr),
{
    if sr.protocols_working.len() > 0 {
        let mut protos: Vec<Vec<char>> = Vec::new();
        let mut i: usize = 0;
        while i < sr.protocols_working.len()
            invariant
                i <= sr.protocols_working@.len(),
                protos.deep_view() == crate::order::strings(sr.protocols_working@).take(i as int),
            decreases sr.protocols_working.len() - i,
        {
            let p = to_chars(sr.protocols_working[i].as_str());
            put(&mut protos, p);
            assert(crate::order::strings(sr.protocols_working@).take(i + 1) =~= crate::order::strings(
                sr.protocols_working@,
            ).take(i as int).push(sr.protocols_working@[i as int]@));
            i += 1;
        }
        assert(crate::order::strings(sr.protocols_working@).take(sr.protocols_working@.len() as int)
            =~= crate::order::strings(sr.protocols_working@));
        let sep = to_chars(", ");
        let joined = text::join_chars(&protos, sep.as_slice());
        push_str(v, " [");
        push_all(v, joined.as_slice());
        push_str(v, "]");
    } else {
        assert(old(v)@ + protocols_part(*sr) =~= old(v)@);
    }
}

fn summary_strategy_chars(sr: &StrategyCheckResult) -> (v: Vec<char>)
    requires
        sr.domains_pass@.len() + sr.domains_fail@.len() <= usize::MAX,
    ensures
        v@ == summary_strategy_line(*sr),
{
    let mut v: Vec<char> = Vec::new();
    push_str(&mut v, "    ");
    push_str(&mut v, sr.strategy_name.as_str());
    push_str(&mut v, ": ");
    if sr.works {
        push_str(&mut v, "✅ WORKS");
    } else {
        push_str(&mut v, "❌ FAILS");
    }
    push_str(&mut v, " (");
    push_number(&mut v, sr.score());
    push_str(&mut v, "/");
    push_number(&mut v, sr.total());
    push_str(&mut v, " blocked domains unblocked)");
    push_protocols(&mut v, sr);
    v
}

fn summary_strategy_lines(ss: &Vec<StrategyCheckResult>) -> (v: Vec<Vec<char>>)
    requires
        forall|j: int|
            0 <= j < ss@.len() ==> #[trigger] ss@[j].domains_pass@.len() + ss@[j].domains_fail@.len()
                <= usize::MAX,
    ensures
        v.deep_view() == summary_strategies(ss@),
{
    let mut v: Vec<Vec<char>> = Vec::new();
    put(&mut v, Vec::new());
    put(&mut v, to_chars("  --- Strategy results ---"));
    let ghost head = v.deep_view();
    let mut work: Vec<Vec<char>> = Vec::new();
    let mut i: usize = 0;
    while i < ss.len()
        invariant
            i <= ss@.len(),
            forall|j: int|
                0 <= j < ss@.len() ==> #[trigger] ss@[j].domains_pass@.len() + ss@[j].domains_fail@.len()
                    <= usize::MAX,
            v.deep_view() == head + flat(
                ss@.take(i as int).map_values(|sr: StrategyCheckResult| summary_strategy_block(sr)),
            ),
            work.deep_view() == working_lines(ss@.take(i as int)),
            work.deep_view().len() <= i,
        decreases ss.len() - i,
    {
        let sr = &ss[i];
        assert(sr.domains_pass@.len() + sr.domains_fail@.len() <= usize::MAX);
        let mut block: Vec<Vec<char>> = Vec::new();
        put(&mut block, summary_strategy_chars(sr));
        let ds = &sr.domain_checks;
        let mut m: usize = 0;
        while m < ds.len()
            invariant
                m <= ds@.len(),
                ds@ == sr.domain_checks@,
                block.deep_view() == seq![summary_strategy_line(*sr)] + ds@.take(m as int).map_values(
                    |dc: DomainProtocolCheck| protocol_line(dc),
                ),
            decreases ds.len() - m,
        {
            put(&mut block, protocol_line_chars(&ds[m]));
            proof {
                assert(ds@.take(m + 1).map_values(|dc: DomainProtocolCheck| protocol_line(dc)) =~= ds@.take(
                    m as int,
                ).map_values(|dc: DomainProtocolCheck| protocol_line(dc)).push(protocol_line(ds@[m as int])));
            }
            m += 1;
        }
        assert(ds@.take(ds@.len() as int) =~= ds@);
        assert(block.deep_view() == summary_strategy_block(*sr));
        put_all(&mut v, block);
        proof {
            let f = |sr: StrategyCheckResult| summary_strategy_block(sr);
            assert(ss@.take(i + 1).map_values(f) =~= ss@.take(i as int).map_values(f).push(
                summary_strategy_block(ss@[i as int]),
            ));
            lemma_flat_push(ss@.take(i as int).map_values(f), summary_strategy_block(ss@[i as int]));
            assert(ss@.take(i + 1).drop_last() =~= ss@.take(i as int));
            assert(ss@.take(i + 1).last() == ss@[i as int]);
        }
        if sr.works {
            let mut l: Vec<char> = Vec::new();
            push_str(&mut l, "      ✅ ");
            push_str(&mut l, sr.strategy_name.as_str());
            push_str(&mut l, " (");
            push_number(&mut l, sr.score());
            push_str(&mut l, "/");
            push_number(&mut l, sr.total());
            push_str(&mut l, ")");
            put(&mut work, l);
        }
        i += 1;
    }
    assert(ss@.take(ss@.len() as int) =~= ss@);
    if work.len() == 0 {
        put(&mut v, to_chars("    No strategy works"));
    } else {
        let mut h: Vec<char> = Vec::new();
        push_str(&mut h, "    Working strategies: ");
        push_number(&mut h, work.len());
        push_str(&mut h, " of ");
        push_number(&mut h, ss.len());
        put(&mut v, h);
        put_all(&mut v, work);
    }
    v
}

fn preset_summary_lines(pr: &PresetResult, n: usize) -> (v: Vec<Vec<char>>)
    requires
        forall|j: int|
            0 <= j < pr.strategy_results@.len() ==> #[trigger] pr.strategy_results@[j].domains_pass@.len()
                + pr.strategy_results@[j].domains_fail@.len() <= usize::MAX,
    ensures
        v.deep_view() == preset_summary(*pr, n as nat),
{
    let mut v: Vec<Vec<char>> = Vec::new();
    let mut h: Vec<char> = Vec::new();
    push_str(&mut h, "--- Domain results [");
    push_str(&mut h, pr.preset_name.as_str());
    push_str(&mut h, "] ---");
    put(&mut v, h);
    let ds = &pr.domain_checks;
    let mut i: usize = 0;
    while i < ds.len()
        invariant
            i <= ds@.len(),
            ds@ == pr.domain_checks@,
            v.deep_view() == seq!["--- Domain results ["@ + pr.preset_name@ + "] ---"@] + ds@.take(i as int).map_values(
                |dc: DomainCheckResult| summary_domain_line(dc, n as nat),
            ),
        decreases ds.len() - i,
    {
        put(&mut v, summary_domain_chars(&ds[i], n));
        proof {
            let f = |dc: DomainCheckResult| summary_domain_line(dc, n as nat);
            assert(ds@.take(i + 1).map_values(f) =~= ds@.take(i as int).map_values(f).push(f(ds@[i as int])));
        }
        i += 1;
    }
    assert(ds@.take(ds@.len() as int) =~= ds@);
    if pr.strategy_results.len() > 0 {
        let block = summary_strategy_lines(&pr.strategy_results);
        put_all(&mut v, block);
    }
    put(&mut v, Vec::new());
    v
}

/// The summary shown when a run ends, with `num_requests` requests per
/// protocol: its lines, each ended by a newline.
#[verifier::spinoff_prover]
#[verifier::rlimit(40)]
pub fn summary_text(results: &AutotuneResults, num_requests: usize) -> (t: String)
    requires
        counts_fit(results.preset_results@),
    ensures
        t@ == text::terminated(summary_lines(*results, num_requests as nat)),
{
    let mut lines: Vec<Vec<char>> = Vec::new();
    put(&mut lines, Vec::new());
    put(&mut lines, Vec::new());
    put(&mut lines, to_chars("Autotune finished"));
    put(&mut lines, Vec::new());
    put(&mut lines, to_chars("Legend: ✅ passed, ❌ blocked, ⏩ skipped, 🚨 error"));
    put(&mut lines, Vec::new());
    put(&mut lines, to_chars("--- Network checks ---"));
    let ghost head = lines.deep_view();
    let rs = &results.block_results;
    let k: usize = if rs.len() < 6 { rs.len() } else { 6 };
    let mut i: usize = 0;
    while i < k
        invariant
            i <= k,
            k <= rs@.len(),
            k <= 6,
            rs@ == results.block_results@,
            lines.deep_view() == head + summary_check_lines(rs@, i as nat),
        decreases k - i,
    {
        let mut l: Vec<char> = Vec::new();
        push_str(&mut l, "  ");
        let label = if i == 0 {
            "DNS"
        } else if i == 1 {
            "TCP RST"
        } else if i == 2 {
            "SNI"
        } else if i == 3 {
            "SIBERIAN"
        } else if i == 4 {
            "QUIC"
        } else {
            "CIDR"
        };
        push_str(&mut l, label);
        push_str(&mut l, ": ");
        push_sign(&mut l, &rs[i].status);
        push_str(&mut l, " - ");
        push_meaning(&mut l, &rs[i].status);
        put(&mut lines, l);
        i += 1;
    }
    put(&mut lines, Vec::new());
    let ghost after_checks = lines.deep_view();
    let ps = &results.preset_results;
    let mut j: usize = 0;
    while j < ps.len()
        invariant
            j <= ps@.len(),
            ps@ == results.preset_results@,
            counts_fit(ps@),
            lines.deep_view() == after_checks + flat(
                ps@.take(j as int).map_values(|pr: PresetResult| preset_summary(pr, num_requests as nat)),
            ),
        decreases ps.len() - j,
    {
        proof {
            assert forall|m: int|
                0 <= m < ps@[j as int].strategy_results@.len() implies #[trigger] ps@[j as int].strategy_results@[m].domains_pass@.len()
                + ps@[j as int].strategy_results@[m].domains_fail@.len() <= usize::MAX by {
                assert(ps@[j as int].strategy_results@[m].domains_pass@.len()
                    + ps@[j as int].strategy_results@[m].domains_fail@.len() <= usize::MAX);
            }
        }
        let block = preset_summary_lines(&ps[j], num_requests);
        put_all(&mut lines, block);
        proof {
            let f = |pr: PresetResult| preset_summary(pr, num_requests as nat);
            assert(ps@.take(j + 1).map_values(f) =~= ps@.take(j as int).map_values(f).push(f(ps@[j as int])));
            lemma_flat_push(ps@.take(j as int).map_values(f), f(ps@[j as int]));
        }
        j += 1;
    }
    assert(ps@.take(ps@.len() as int) =~= ps@);
    let cs = &results.common_strategies;
    if cs.len() > 0 {
        let mut h: Vec<char> = Vec::new();
        push_str(&mut h, "--- Common strategies (");
        push_number(&mut h, cs.len());
        push_str(&mut h, ") ---");
        put(&mut lines, h);
        let ghost head2 = lines.deep_view();
        let mut m: usize = 0;
        while m < cs.len()
            invariant
                m <= cs@.len(),
                cs@ == results.common_strategies@,
                lines.deep_view() == head2 + crate::order::strings(cs@).take(m as int).map_values(
                    |c: Seq<char>| "  ✅ "@ + c,
                ),
            decreases cs.len() - m,
        {
            let mut l: Vec<char> = Vec::new();
            push_str(&mut l, "  ✅ ");
            push_str(&mut l, cs[m].as_str());
            put(&mut lines, l);
            proof {
                let f = |c: Seq<char>| "  ✅ "@ + c;
                let sv = crate::order::strings(cs@);
                assert(sv.take(m + 1).map_values(f) =~= sv.take(m as int).map_values(f).push(f(sv[m as int])));
            }
            m += 1;
        }
        assert(crate::order::strings(cs@).take(cs@.len() as int) =~= crate::order::strings(cs@));
        put(&mut lines, Vec::new());
    }
    put(&mut lines, time_line_chars(results.elapsed_secs));
    assert(lines.deep_view() =~= summary_lines(*results, num_requests as nat));
    let all = terminated_chars(&lines);
    from_chars(all.as_slice())
}

} // verus!
