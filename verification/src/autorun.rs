//! The course of an autotune run as a state machine. The caller does the
//! outside work that each action names (saving and restoring the ipset
//! list, checking domains, starting, watching and stopping nfqws, probing
//! the blocked domains) and hands back what came of it as an event; the
//! machine decides what comes next, records the results and counts the
//! progress.
use vstd::prelude::*;
use crate::autotune;
use crate::autotune::{
    AutotuneConfig, AutotuneResults, CheckResult, DomainCheckResult, PresetResult, ProtocolProbe,
    StrategyCheckResult,
};
use crate::order;
use crate::order::clone_strings;
use crate::tuning;
use crate::tuning::Progress;

verus! {

/// Where a run stands: what it waits for.
#[derive(Debug, Clone, Copy, PartialEq, Eq, Structural)]
pub enum Stage {
    /// The ipset list is being saved.
    SavingIpset,
    /// The domains of the current preset are being checked.
    Domains,
    /// nfqws is being started with the current strategy.
    Launching,
    /// nfqws was started; the run waits to see it stay up.
    Waiting,
    /// The blocked domains are being probed through nfqws.
    Probing,
    /// nfqws is being stopped.
    Stopping,
    /// The saved ipset list is being restored.
    Restoring,
    /// The run is over.
    Done,
}

/// What came of the outside work that the last action named.
pub enum TuneEvent {
    /// The ipset list was saved and opened to every address.
    IpsetSaved,
    /// One more domain of the current preset was checked, in order.
    DomainDone(DomainCheckResult),
    /// Whether nfqws could be started.
    Launched(bool),
    /// Whether nfqws stayed up after it was started.
    StayedUp(bool),
    /// What each blocked domain showed through nfqws, in order.
    Probed(Vec<ProtocolProbe>),
    /// nfqws was stopped.
    Stopped,
    /// The saved ipset list was restored.
    IpsetRestored,
    /// The user asked to stop the run.
    Quit,
}

/// The outside work to do next.
#[derive(Debug, PartialEq, Eq)]
pub enum TuneAction {
    /// Save the ipset list and open it to every address.
    SaveIpset,
    /// Check these domains without any strategy, and report each in order.
    CheckDomains(Vec<String>),
    /// Start nfqws with the strategy file at this path.
    Launch(String),
    /// Wait to see whether nfqws stays up.
    WaitNfqws,
    /// Probe these domains through nfqws.
    Probe(Vec<String>),
    /// Stop nfqws.
    StopNfqws,
    /// Restore the saved ipset list.
    RestoreIpset,
    /// Nothing new: keep waiting for the work under way.
    Wait,
    /// The run is over.
    Finish,
}

/// An autotune run in progress.
pub struct AutotuneRun {
    /// Each preset to check: its index and its domains.
    pub presets: Vec<(usize, Vec<String>)>,
    /// Each strategy to test: its name and the path of its file.
    pub strategies: Vec<(String, String)>,
    /// The protocol checks that run per domain.
    pub proto_steps: usize,
    /// The results of the network checks, made before the run.
    pub block_results: Vec<CheckResult>,
    pub progress: Progress,
    pub stage: Stage,
    /// The preset under way (the number of presets finished).
    pub current: usize,
    /// The domain checks of the current preset so far.
    pub checks: Vec<DomainCheckResult>,
    /// The blocked domains of the current preset, once its domains are checked.
    pub blocked: Vec<String>,
    /// How many domains each strategy of the current preset is tested on.
    pub tested: usize,
    /// The strategy under way.
    pub strategy: usize,
    /// The strategy results of the current preset so far.
    pub results: Vec<StrategyCheckResult>,
    /// The results of the presets finished.
    pub finished: Vec<PresetResult>,
    /// Whether the user stopped the run.
    pub cancelled: bool,
}

/// How many protocol checks run per domain.
pub open spec fn protocol_steps(c: &AutotuneConfig) -> nat {
    (if c.check_http { 1nat } else { 0nat }) + (if c.check_tls12 { 1nat } else { 0nat }) + (if c.check_tls13 {
        1nat
    } else {
        0nat
    }) + (if c.check_quic { 1nat } else { 0nat })
}

/// The progress steps of checking the domains of the presets from `from` on:
/// one plus the protocol steps per domain.
pub open spec fn domain_steps(ps: Seq<(usize, Vec<String>)>, from: int, proto: nat) -> nat
    decreases ps.len() - from,
{
    if 0 <= from < ps.len() {
        ps[from].1@.len() * (1 + proto) + domain_steps(ps, from + 1, proto)
    } else {
        0
    }
}

/// The most progress steps that the strategy tests of the presets from
/// `from` on can plan: for each of `s` strategies, one step to start it and
/// one per domain of the preset.
pub open spec fn strategy_steps_bound(ps: Seq<(usize, Vec<String>)>, from: int, s: nat) -> nat
    decreases ps.len() - from,
{
    if 0 <= from < ps.len() {
        s * (1 + ps[from].1@.len()) + strategy_steps_bound(ps, from + 1, s)
    } else {
        0
    }
}

/// Whether every progress count a run can reach fits in a `usize`.
pub open spec fn plan_fits(net: nat, proto: nat, s: nat, ps: Seq<(usize, Vec<String>)>) -> bool {
    net + domain_steps(ps, 0, proto) + strategy_steps_bound(ps, 0, s) <= usize::MAX
}

proof fn lemma_mul_succ(x: nat, m: nat)
    ensures
        (x + 1) * m == x * m + m,
{
    assert((x + 1) * m == x * m + m) by (nonlinear_arith);
}

proof fn lemma_mul_le(s: nat, a: nat, b: nat)
    requires
        a <= b,
    ensures
        s * a <= s * b,
        s > 0 ==> a <= s * a,
{
    assert(s * a <= s * b) by (nonlinear_arith)
        requires
            a <= b,
    ;
    assert(s > 0 ==> a <= s * a) by (nonlinear_arith);
}

proof fn lemma_steps_mono(ps: Seq<(usize, Vec<String>)>, a: int, b: int, proto: nat, s: nat)
    requires
        0 <= a <= b,
    ensures
        domain_steps(ps, a, proto) >= domain_steps(ps, b, proto),
        strategy_steps_bound(ps, a, s) >= strategy_steps_bound(ps, b, s),
    decreases b - a,
{
    if a < b {
        lemma_steps_mono(ps, a + 1, b, proto, s);
    }
}

proof fn lemma_blocked_len(checks: Seq<DomainCheckResult>)
    ensures
        autotune::blocked_of(checks).len() <= checks.len(),
    decreases checks.len(),
{
    if checks.len() > 0 {
        lemma_blocked_len(checks.drop_last());
    }
}

/// The results of the current strategies when nothing is blocked: each
/// passes every domain untested.
fn untested_results(strategies: &Vec<(String, String)>, domains: &Vec<String>) -> (r: Vec<StrategyCheckResult>)
    ensures
        r@.len() == strategies@.len(),
        forall|j: int|
            0 <= j < strategies@.len() ==> autotune::passes_all(#[trigger] r@[j], strategies@[j].0@, domains@),
{
    let mut r: Vec<StrategyCheckResult> = Vec::new();
    let mut j: usize = 0;
    while j < strategies.len()
        invariant
            j <= strategies@.len(),
            r@.len() == j,
            forall|k: int| 0 <= k < j ==> autotune::passes_all(#[trigger] r@[k], strategies@[k].0@, domains@),
        decreases strategies.len() - j,
    {
        r.push(autotune::all_domains_pass(strategies[j].0.as_str(), domains));
        j += 1;
    }
    r
}

/// The running sums of [`AutotuneRun::start`] with one more preset of `d`
/// domains in front: `None` when the total passes `usize::MAX`.
fn add_preset_steps(net: usize, dom: usize, worst: usize, d: usize, proto: usize, s: usize) -> (r: Option<(usize, usize)>)
    requires
        proto <= 4,
    ensures
        r matches Some((x, y)) ==> {
            &&& x == dom + (d as nat) * (1 + proto as nat)
            &&& y == worst + (s as nat) * (1 + d as nat)
            &&& net + x + y <= usize::MAX
        },
        r is None ==> net + dom + (d as nat) * (1 + proto as nat) + worst + (s as nat) * (1 + d as nat) > usize::MAX,
{
    proof {
        lemma_mul_le(s as nat, (1 + d) as nat, (1 + d) as nat);
    }
    let a = match d.checked_mul(1 + proto) {
        Some(a) => a,
        None => return None,
    };
    let b = if s == 0 {
        0
    } else {
        match d.checked_add(1) {
            Some(x) => match s.checked_mul(x) {
                Some(b) => b,
                None => return None,
            },
            None => return None,
        }
    };
    let u = match net.checked_add(dom) {
        Some(u) => u,
        None => return None,
    };
    let v = match u.checked_add(a) {
        Some(v) => v,
        None => return None,
    };
    let w = match v.checked_add(worst) {
        Some(w) => w,
        None => return None,
    };
    match w.checked_add(b) {
        Some(_) => Some((dom + a, worst + b)),
        None => None,
    }
}

impl AutotuneRun {
    /// The number of domains of preset `i`.
    pub open spec fn domain_count(self, i: int) -> nat {
        self.presets@[i].1@.len()
    }

    /// The progress steps still ahead when the run is not stopped.
    pub open spec fn left(self) -> nat {
        let p = self.proto_steps as nat;
        let c = self.current as int;
        let rest = domain_steps(self.presets@, c + 1, p);
        let ahead = ((self.strategies@.len() - self.strategy) as nat) * (1 + self.tested as nat);
        match self.stage {
            Stage::SavingIpset => domain_steps(self.presets@, 0, p),
            Stage::Domains => ((self.domain_count(c) - self.checks@.len()) as nat) * (1 + p) + rest,
            Stage::Launching | Stage::Stopping => ahead + rest,
            Stage::Waiting | Stage::Probing => (ahead - 1) as nat + rest,
            Stage::Restoring | Stage::Done => 0,
        }
    }

    /// The first preset whose strategy tests are not planned yet.
    pub open spec fn unplanned(self) -> int {
        match self.stage {
            Stage::Launching | Stage::Waiting | Stage::Probing | Stage::Stopping => self.current + 1,
            Stage::Restoring | Stage::Done => self.presets@.len() as int,
            _ => self.current as int,
        }
    }

    /// The domain checks recorded for preset `c`.
    pub open spec fn checks_of(self, c: int) -> Seq<DomainCheckResult> {
        if c < self.finished@.len() {
            self.finished@[c].domain_checks@
        } else {
            self.checks@
        }
    }

    /// The strategy results recorded for preset `c`.
    pub open spec fn results_of(self, c: int) -> Seq<StrategyCheckResult> {
        if c < self.finished@.len() {
            self.finished@[c].strategy_results@
        } else {
            self.results@
        }
    }

    /// Whether the run is in a consistent state: the presets before the
    /// current one are finished under their names, progress never passes its
    /// total and, unless the run was stopped, the steps done and the steps
    /// still ahead make up the total; every total the run can still plan
    /// fits in a `usize`.
    pub open spec fn wf(self) -> bool {
        let n = self.presets@.len();
        let c = self.current as int;
        let s = self.strategies@.len();
        &&& self.proto_steps <= 4
        &&& c <= n
        &&& self.finished@.len() == c
        &&& forall|i: int|
            0 <= i < c ==> (#[trigger] self.finished@[i]).preset_name@ == autotune::preset_display_name(
                self.presets@[i].0 as int,
            )
        &&& self.progress.done <= self.progress.total
        &&& self.progress.total + strategy_steps_bound(self.presets@, self.unplanned(), s) <= usize::MAX
        &&& !self.cancelled ==> self.progress.done + self.left() == self.progress.total
        &&& self.cancelled ==> (self.stage is Stopping || self.stage is Restoring || self.stage is Done)
        &&& match self.stage {
            Stage::SavingIpset => c == 0 && self.checks@.len() == 0 && self.results@.len() == 0,
            Stage::Domains => c < n && self.checks@.len() < self.domain_count(c) && self.results@.len() == 0,
            Stage::Launching | Stage::Waiting | Stage::Probing | Stage::Stopping => {
                &&& c < n
                &&& self.checks@.len() == self.domain_count(c)
                &&& order::strings(self.blocked@) == autotune::blocked_of(self.checks@)
                &&& 0 < self.blocked@.len() <= self.domain_count(c)
                &&& self.tested == self.blocked@.len()
                &&& self.strategy <= s
                &&& self.results@.len() == self.strategy
                &&& !(self.stage is Stopping) ==> self.strategy < s
            },
            Stage::Restoring | Stage::Done => !self.cancelled ==> c == n,
        }
    }

    /// The presets, strategies, protocol steps and network results of the
    /// run are those of `other`.
    pub open spec fn same_plan(self, other: Self) -> bool {
        &&& self.presets@ == other.presets@
        &&& self.strategies@ == other.strategies@
        &&& self.proto_steps == other.proto_steps
        &&& self.block_results@ == other.block_results@
    }

    /// The presets finished before are still there, unchanged.
    pub open spec fn keeps_finished(self, before: Self) -> bool {
        &&& self.finished@.len() >= before.finished@.len()
        &&& self.finished@.take(before.finished@.len() as int) == before.finished@
        &&& self.current >= before.current
    }

    /// The presets before the current one are finished, under their names.
    spec fn finished_ok(self) -> bool {
        &&& self.proto_steps <= 4
        &&& self.current <= self.presets@.len()
        &&& self.finished@.len() == self.current
        &&& forall|i: int|
            0 <= i < self.current ==> (#[trigger] self.finished@[i]).preset_name@
                == autotune::preset_display_name(self.presets@[i].0 as int)
    }

    /// Between two presets: the next one (if any) not opened yet.
    spec fn between(self) -> bool {
        let c = self.current as int;
        &&& self.finished_ok()
        &&& self.checks@.len() == 0
        &&& self.results@.len() == 0
        &&& !self.cancelled
        &&& self.progress.done + domain_steps(self.presets@, c, self.proto_steps as nat) == self.progress.total
        &&& self.progress.total + strategy_steps_bound(self.presets@, c, self.strategies@.len()) <= usize::MAX
    }

    /// Testing the strategies of the current preset on its blocked domains.
    spec fn testing(self) -> bool {
        let c = self.current as int;
        let s = self.strategies@.len();
        let ahead = ((s - self.strategy) as nat) * (1 + self.tested as nat);
        &&& self.finished_ok()
        &&& c < self.presets@.len()
        &&& self.checks@.len() == self.domain_count(c)
        &&& order::strings(self.blocked@) == autotune::blocked_of(self.checks@)
        &&& 0 < self.blocked@.len() <= self.domain_count(c)
        &&& self.tested == self.blocked@.len()
        &&& self.strategy <= s
        &&& self.results@.len() == self.strategy
        &&& !self.cancelled
        &&& self.progress.done + ahead + domain_steps(self.presets@, c + 1, self.proto_steps as nat)
            == self.progress.total
        &&& self.progress.total + strategy_steps_bound(self.presets@, c + 1, s) <= usize::MAX
    }

    /// Moves the domain checks and strategy results of the current preset
    /// into the finished presets.
    fn finish_preset(&mut self)
        requires
            old(self).current < old(self).presets@.len(),
            old(self).finished@.len() == old(self).current,
        ensures
            final(self).same_plan(*old(self)),
            final(self).current == old(self).current + 1,
            final(self).finished@.len() == old(self).finished@.len() + 1,
            final(self).finished@.take(old(self).finished@.len() as int) == old(self).finished@,
            final(self).finished@.last().preset_name@ == autotune::preset_display_name(
                old(self).presets@[old(self).current as int].0 as int,
            ),
            final(self).finished@.last().domain_checks@ == old(self).checks@,
            final(self).finished@.last().strategy_results@ == old(self).results@,
            final(self).checks@.len() == 0,
            final(self).results@.len() == 0,
            final(self).progress == old(self).progress,
            final(self).cancelled == old(self).cancelled,
    {
        let c = self.current;
        let n = self.presets.len();
        assert(c < n);
        let mut checks: Vec<DomainCheckResult> = Vec::new();
        std::mem::swap(&mut checks, &mut self.checks);
        let mut results: Vec<StrategyCheckResult> = Vec::new();
        std::mem::swap(&mut results, &mut self.results);
        let name = autotune::preset_display_name_of(self.presets[c].0);
        self.finished.push(PresetResult { preset_name: name, domain_checks: checks, strategy_results: results });
        self.current = c + 1;
        assert(self.finished@.take(old(self).finished@.len() as int) =~= old(self).finished@);
    }

    /// Finishes at once every preset without domains (each strategy passes
    /// it untested), then opens the next preset, or ends the run.
    fn settle(&mut self) -> (a: TuneAction)
        requires
            old(self).between(),
        ensures
            final(self).wf(),
            final(self).same_plan(*old(self)),
            final(self).keeps_finished(*old(self)),
            !final(self).cancelled,
            old(self).progress.done <= final(self).progress.done,
            old(self).progress.total <= final(self).progress.total,
            a is CheckDomains || a is RestoreIpset,
            a matches TuneAction::CheckDomains(ds) ==> final(self).stage is Domains && order::strings(ds@)
                == order::strings(final(self).presets@[final(self).current as int].1@),
            a is RestoreIpset ==> final(self).stage is Restoring,
    {
        assert(self.finished@.take(self.finished@.len() as int) =~= self.finished@);
        while self.current < self.presets.len() && self.presets[self.current].1.len() == 0
            invariant
                self.between(),
                self.same_plan(*old(self)),
                self.keeps_finished(*old(self)),
                old(self).progress.done <= self.progress.done,
                old(self).progress.total <= self.progress.total,
            decreases self.presets@.len() - self.current,
        {
            let c = self.current;
            let s = self.strategies.len();
            let ghost before = *self;
            proof {
                assert(domain_steps(self.presets@, c as int, self.proto_steps as nat) == domain_steps(
                    self.presets@,
                    c + 1,
                    self.proto_steps as nat,
                ));
            }
            self.progress.strategies_planned(s, 0);
            assert(s * (1 + 0usize) == s) by (nonlinear_arith);
            let r = untested_results(&self.strategies, &self.presets[c].1);
            self.results = r;
            self.progress.advance(s);
            self.finish_preset();
            proof {
                assert forall|i: int| 0 <= i < self.current implies (#[trigger] self.finished@[i]).preset_name@
                    == autotune::preset_display_name(self.presets@[i].0 as int) by {
                    if i < c {
                        assert(self.finished@[i] == self.finished@.take(c as int)[i]);
                    }
                }
                assert(self.finished@.take(old(self).finished@.len() as int) =~= before.finished@.take(
                    old(self).finished@.len() as int,
                ));
            }
        }
        if self.current < self.presets.len() {
            self.stage = Stage::Domains;
            TuneAction::CheckDomains(clone_strings(&self.presets[self.current].1))
        } else {
            self.stage = Stage::Restoring;
            TuneAction::RestoreIpset
        }
    }

    /// The domains of the current preset are all checked: plans its strategy
    /// tests and starts the first on the blocked domains; with nothing
    /// blocked (or no strategy) every strategy passes untested and the run
    /// moves on.
    fn domains_complete(&mut self) -> (a: TuneAction)
        requires
            old(self).finished_ok(),
            old(self).current < old(self).presets@.len(),
            old(self).checks@.len() == old(self).domain_count(old(self).current as int),
            old(self).results@.len() == 0,
            !old(self).cancelled,
            old(self).progress.done + domain_steps(old(self).presets@, old(self).current + 1, old(self).proto_steps as nat)
                == old(self).progress.total,
            old(self).progress.total + strategy_steps_bound(
                old(self).presets@,
                old(self).current as int,
                old(self).strategies@.len(),
            ) <= usize::MAX,
        ensures
            final(self).wf(),
            final(self).same_plan(*old(self)),
            final(self).keeps_finished(*old(self)),
            !final(self).cancelled,
            old(self).progress.done <= final(self).progress.done,
            old(self).progress.total <= final(self).progress.total,
            final(self).checks_of(old(self).current as int) == old(self).checks@,
            a is Launch || a is CheckDomains || a is RestoreIpset,
            a matches TuneAction::Launch(path) ==> {
                &&& final(self).stage is Launching
                &&& final(self).current == old(self).current
                &&& final(self).strategy == 0
                &&& path@ == final(self).strategies@[0].1@
            },
            a matches TuneAction::CheckDomains(ds) ==> final(self).stage is Domains && order::strings(ds@)
                == order::strings(final(self).presets@[final(self).current as int].1@),
            a is RestoreIpset ==> final(self).stage is Restoring,
            !(a is Launch) ==> {
                &&& final(self).results_of(old(self).current as int).len() == old(self).strategies@.len()
                &&& forall|j: int|
                    0 <= j < old(self).strategies@.len() ==> autotune::passes_all(
                        #[trigger] final(self).results_of(old(self).current as int)[j],
                        old(self).strategies@[j].0@,
                        old(self).presets@[old(self).current as int].1@,
                    )
            },
    {
        let c = self.current;
        let blocked = autotune::blocked_domains(&self.checks);
        let s = self.strategies.len();
        let d = self.presets[c].1.len();
        proof {
            lemma_blocked_len(self.checks@);
        }
        let t = tuning::count_tested(s, blocked.len(), d);
        proof {
            lemma_mul_le(s as nat, (1 + t) as nat, (1 + d) as nat);
            lemma_mul_le(s as nat, (1 + t) as nat, (1 + t) as nat);
        }
        self.progress.strategies_planned(s, t);
        self.blocked = blocked;
        self.tested = t;
        if s > 0 && self.blocked.len() > 0 {
            self.stage = Stage::Launching;
            self.strategy = 0;
            proof {
                assert(self.finished@.take(self.finished@.len() as int) =~= self.finished@);
            }
            TuneAction::Launch(self.strategies[0].1.clone())
        } else {
            let r = untested_results(&self.strategies, &self.presets[c].1);
            self.results = r;
            self.progress.advance(s * (1 + t));
            self.finish_preset();
            let ghost mid = *self;
            proof {
                assert forall|i: int| 0 <= i < self.current implies (#[trigger] self.finished@[i]).preset_name@
                    == autotune::preset_display_name(self.presets@[i].0 as int) by {
                    if i < c {
                        assert(self.finished@[i] == self.finished@.take(c as int)[i]);
                    }
                }
            }
            let a = self.settle();
            proof {
                assert(self.finished@[c as int] == self.finished@.take(mid.finished@.len() as int)[c as int]);
                assert(self.finished@.take(old(self).finished@.len() as int) =~= mid.finished@.take(
                    old(self).finished@.len() as int,
                ));
            }
            a
        }
    }

    /// The next strategy of the current preset, or, after the last, the
    /// next preset.
    fn next_strategy(&mut self) -> (a: TuneAction)
        requires
            old(self).testing(),
        ensures
            final(self).wf(),
            final(self).same_plan(*old(self)),
            final(self).keeps_finished(*old(self)),
            !final(self).cancelled,
            old(self).progress.done <= final(self).progress.done,
            old(self).progress.total <= final(self).progress.total,
            final(self).checks_of(old(self).current as int) == old(self).checks@,
            final(self).results_of(old(self).current as int) == old(self).results@,
            a is Launch || a is CheckDomains || a is RestoreIpset,
            a matches TuneAction::Launch(path) ==> {
                &&& final(self).stage is Launching
                &&& path@ == final(self).strategies@[final(self).strategy as int].1@
            },
            a matches TuneAction::CheckDomains(ds) ==> final(self).stage is Domains && order::strings(ds@)
                == order::strings(final(self).presets@[final(self).current as int].1@),
            a is RestoreIpset ==> final(self).stage is Restoring,
    {
        if self.strategy < self.strategies.len() {
            self.stage = Stage::Launching;
            proof {
                assert(self.finished@.take(self.finished@.len() as int) =~= self.finished@);
            }
            TuneAction::Launch(self.strategies[self.strategy].1.clone())
        } else {
            let c = self.current;
            proof {
                let t = self.tested as nat;
                assert(((self.strategies@.len() - self.strategy) as nat) == 0);
                assert(0nat * (1 + t) == 0) by (nonlinear_arith);
            }
            self.finish_preset();
            let ghost mid = *self;
            proof {
                assert forall|i: int| 0 <= i < self.current implies (#[trigger] self.finished@[i]).preset_name@
                    == autotune::preset_display_name(self.presets@[i].0 as int) by {
                    if i < c {
                        assert(self.finished@[i] == self.finished@.take(c as int)[i]);
                    }
                }
            }
            let a = self.settle();
            proof {
                assert(self.finished@[c as int] == self.finished@.take(mid.finished@.len() as int)[c as int]);
                assert(self.finished@.take(old(self).finished@.len() as int) =~= mid.finished@.take(
                    old(self).finished@.len() as int,
                ));
            }
            a
        }
    }

    /// Whether `self` extends the strategy results that `before` had for
    /// its current preset by exactly one result.
    pub open spec fn records_one_more(self, before: Self) -> bool {
        let c = before.current as int;
        &&& self.results_of(c).len() == before.results@.len() + 1
        &&& self.results_of(c).take(before.results@.len() as int) == before.results@
    }

    /// The strategy result recorded last for the current preset of `before`.
    pub open spec fn recorded(self, before: Self) -> StrategyCheckResult {
        self.results_of(before.current as int)[before.results@.len() as int]
    }

    /// Takes what came of the last action and returns the next one. The
    /// ipset list is saved before the first preset and restored at the end;
    /// each preset's domains are checked first; only where some are blocked
    /// is each strategy started, watched (and probed only while nfqws stays
    /// up) and stopped again; a strategy that fails to start, or whose nfqws
    /// exits, fails on every blocked domain. Progress never passes its total
    /// and, unless the user stops the run, reaches it exactly when the run
    /// finishes. A stop ends the run at once: nfqws is stopped if it may be
    /// running, the ipset list restored if it was saved, and nothing new is
    /// started.
    #[verifier::spinoff_prover]
    #[verifier::rlimit(50)]
    pub fn step(&mut self, ev: TuneEvent) -> (a: TuneAction)
        requires
            old(self).wf(),
            old(self).stage is Probing ==> (ev matches TuneEvent::Probed(pr) ==> pr@.len()
                == old(self).blocked@.len()),
        ensures
            final(self).wf(),
            final(self).same_plan(*old(self)),
            final(self).keeps_finished(*old(self)),
            old(self).progress.done <= final(self).progress.done,
            old(self).progress.total <= final(self).progress.total,
            final(self).progress.done <= final(self).progress.total,
            old(self).cancelled ==> final(self).cancelled,
            ev is Quit ==> final(self).cancelled && (a is StopNfqws || a is RestoreIpset || a is Finish),
            final(self).cancelled ==> (a is StopNfqws || a is RestoreIpset || a is Finish || a is Wait),
            a is Finish ==> final(self).stage is Done,
            a is Finish && !final(self).cancelled ==> final(self).progress.done == final(self).progress.total
                && final(self).current == final(self).presets@.len(),
            a matches TuneAction::Launch(path) ==> {
                &&& final(self).stage is Launching
                &&& final(self).blocked@.len() > 0
                &&& path@ == final(self).strategies@[final(self).strategy as int].1@
            },
            a matches TuneAction::Probe(ds) ==> final(self).stage is Probing && order::strings(ds@)
                == order::strings(final(self).blocked@),
            a matches TuneAction::CheckDomains(ds) ==> final(self).stage is Domains && order::strings(ds@)
                == order::strings(final(self).presets@[final(self).current as int].1@),
            a is WaitNfqws ==> final(self).stage is Waiting,
            a is StopNfqws ==> final(self).stage is Stopping,
            a is RestoreIpset ==> final(self).stage is Restoring,
            old(self).stage is Domains ==> (ev matches TuneEvent::DomainDone(check) ==> final(self).checks_of(
                old(self).current as int,
            ) == old(self).checks@.push(check)),
            old(self).stage is Launching && ev == TuneEvent::Launched(false) ==> final(self).records_one_more(
                *old(self),
            ) && autotune::failed_on(
                final(self).recorded(*old(self)),
                old(self).strategies@[old(self).strategy as int].0@,
                old(self).blocked@,
            ),
            old(self).stage is Waiting && ev == TuneEvent::StayedUp(false) ==> a is StopNfqws
                && final(self).records_one_more(*old(self)) && autotune::failed_on(
                final(self).recorded(*old(self)),
                old(self).strategies@[old(self).strategy as int].0@,
                old(self).blocked@,
            ),
            old(self).stage is Waiting && ev == TuneEvent::StayedUp(true) ==> a is Probe,
            old(self).stage is Launching && ev == TuneEvent::Launched(true) ==> a is WaitNfqws,
            old(self).stage is Probing ==> (ev matches TuneEvent::Probed(pr) ==> a is StopNfqws
                && final(self).records_one_more(*old(self)) && autotune::evaluated(
                final(self).recorded(*old(self)),
                old(self).strategies@[old(self).strategy as int].0@,
                old(self).blocked@,
                pr@,
            )),
            old(self).stage is Restoring && ev is IpsetRestored ==> a is Finish,
            !(a is SaveIpset),
            a is RestoreIpset ==> !(old(self).stage is SavingIpset) || ev is IpsetSaved,
            a is Finish ==> old(self).stage is Restoring || old(self).stage is Done || (old(self).stage is SavingIpset
                && ev is Quit),
            old(self).stage is Domains && ev is DomainDone && (a is CheckDomains || a is RestoreIpset) ==> {
                &&& final(self).results_of(old(self).current as int).len() == old(self).strategies@.len()
                &&& forall|j: int|
                    0 <= j < old(self).strategies@.len() ==> autotune::passes_all(
                        #[trigger] final(self).results_of(old(self).current as int)[j],
                        old(self).strategies@[j].0@,
                        old(self).presets@[old(self).current as int].1@,
                    )
            },
    {
        let ghost first = *self;
        proof {
            assert(self.finished@.take(self.finished@.len() as int) =~= self.finished@);
        }
        match ev {
            TuneEvent::Quit => {
                self.cancelled = true;
                match self.stage {
                    Stage::SavingIpset | Stage::Done => {
                        self.stage = Stage::Done;
                        TuneAction::Finish
                    },
                    Stage::Domains | Stage::Restoring => {
                        self.stage = Stage::Restoring;
                        TuneAction::RestoreIpset
                    },
                    _ => {
                        self.stage = Stage::Stopping;
                        TuneAction::StopNfqws
                    },
                }
            },
            TuneEvent::IpsetSaved => {
                if self.stage == Stage::SavingIpset {
                    self.settle()
                } else if self.stage == Stage::Done {
                    TuneAction::Finish
                } else {
                    TuneAction::Wait
                }
            },
            TuneEvent::DomainDone(check) => {
                if self.stage == Stage::Domains {
                    let c = self.current;
                    let ghost x = (self.domain_count(c as int) - self.checks@.len() - 1) as nat;
                    proof {
                        lemma_mul_succ(x, 1 + self.proto_steps as nat);
                    }
                    self.checks.push(check);
                    self.progress.domain_checked(self.proto_steps);
                    if self.checks.len() == self.presets[c].1.len() {
                        proof {
                            let m = 1 + self.proto_steps as nat;
                            assert(x * m == 0) by (nonlinear_arith)
                                requires
                                    x == 0,
                            ;
                        }
                        let ghost mid = *self;
                        let a = self.domains_complete();
                        proof {
                            assert(self.finished@.take(first.finished@.len() as int) =~= mid.finished@);
                        }
                        a
                    } else {
                        TuneAction::Wait
                    }
                } else if self.stage == Stage::Done {
                    TuneAction::Finish
                } else {
                    TuneAction::Wait
                }
            },
            TuneEvent::Launched(ok) => {
                if self.stage == Stage::Launching {
                    let k = self.strategy;
                    let count = self.strategies.len();
                    proof {
                        let n = (self.strategies@.len() - k - 1) as nat;
                        lemma_mul_succ(n, 1 + self.tested as nat);
                    }
                    if ok {
                        self.progress.advance(1);
                        self.stage = Stage::Waiting;
                        TuneAction::WaitNfqws
                    } else {
                        let r = StrategyCheckResult::failed(self.strategies[k].0.as_str(), &self.blocked);
                        self.results.push(r);
                        self.progress.advance(1 + self.tested);
                        self.strategy = k + 1;
                        let ghost mid = *self;
                        let a = self.next_strategy();
                        proof {
                            assert(mid.results@.take(first.results@.len() as int) =~= first.results@);
                            assert(self.finished@.take(first.finished@.len() as int) =~= mid.finished@);
                        }
                        a
                    }
                } else if self.stage == Stage::Done {
                    TuneAction::Finish
                } else {
                    TuneAction::Wait
                }
            },
            TuneEvent::StayedUp(ok) => {
                if self.stage == Stage::Waiting {
                    if ok {
                        self.stage = Stage::Probing;
                        TuneAction::Probe(clone_strings(&self.blocked))
                    } else {
                        let k = self.strategy;
                        let count = self.strategies.len();
                        proof {
                            let n = (self.strategies@.len() - k - 1) as nat;
                            lemma_mul_succ(n, 1 + self.tested as nat);
                        }
                        let r = StrategyCheckResult::failed(self.strategies[k].0.as_str(), &self.blocked);
                        self.results.push(r);
                        self.progress.advance(self.tested);
                        self.strategy = k + 1;
                        self.stage = Stage::Stopping;
                        proof {
                            assert(self.results@.take(first.results@.len() as int) =~= first.results@);
                        }
                        TuneAction::StopNfqws
                    }
                } else if self.stage == Stage::Done {
                    TuneAction::Finish
                } else {
                    TuneAction::Wait
                }
            },
            TuneEvent::Probed(probes) => {
                if self.stage == Stage::Probing {
                    let k = self.strategy;
                    let count = self.strategies.len();
                    proof {
                        let n = (self.strategies@.len() - k - 1) as nat;
                        lemma_mul_succ(n, 1 + self.tested as nat);
                    }
                    let r = autotune::evaluate_strategy(self.strategies[k].0.as_str(), &self.blocked, &probes);
                    self.results.push(r);
                    self.progress.advance(self.tested);
                    self.strategy = k + 1;
                    self.stage = Stage::Stopping;
                    proof {
                        assert(self.results@.take(first.results@.len() as int) =~= first.results@);
                    }
                    TuneAction::StopNfqws
                } else if self.stage == Stage::Done {
                    TuneAction::Finish
                } else {
                    TuneAction::Wait
                }
            },
            TuneEvent::Stopped => {
                if self.stage == Stage::Stopping {
                    if self.cancelled {
                        self.stage = Stage::Restoring;
                        TuneAction::RestoreIpset
                    } else {
                        self.next_strategy()
                    }
                } else if self.stage == Stage::Done {
                    TuneAction::Finish
                } else {
                    TuneAction::Wait
                }
            },
            TuneEvent::IpsetRestored => {
                if self.stage == Stage::Restoring || self.stage == Stage::Done {
                    self.stage = Stage::Done;
                    TuneAction::Finish
                } else {
                    TuneAction::Wait
                }
            },
        }
    }

    /// The results of the run, with how long it took: the network checks,
    /// every finished preset, and the strategies common to them (see
    /// [`tuning::common_strategies`]; several presets were asked for when
    /// the run has more than one).
    pub fn finish(self, elapsed_secs: usize) -> (r: AutotuneResults)
        ensures
            r.block_results@ == self.block_results@,
            r.preset_results@ == self.finished@,
            r.elapsed_secs == elapsed_secs,
            self.presets@.len() > 1 && self.finished@.len() > 0 ==> order::strictly_sorted(
                order::strings(r.common_strategies@),
            ) && (forall|x: Seq<char>|
                order::strings(r.common_strategies@).contains(x) <==> tuning::works_everywhere(self.finished@, x)),
            self.presets@.len() <= 1 && self.finished@.len() > 0 ==> order::sorted(
                order::strings(r.common_strategies@),
            ) && order::strings(r.common_strategies@).to_multiset() == tuning::working_names(
                self.finished@[0].strategy_results@,
            ).to_multiset(),
            self.finished@.len() == 0 ==> r.common_strategies@.len() == 0,
    {
        let several = self.presets.len() > 1;
        let common = tuning::common_strategies(&self.finished, several);
        AutotuneResults {
            block_results: self.block_results,
            preset_results: self.finished,
            common_strategies: common,
            elapsed_secs,
        }
    }

    /// Starts a run over the presets (each with its domains) and the
    /// strategies (each with its name and file), after the network checks:
    /// their steps are done, the domain checks of every preset planned; the
    /// first action is to save the ipset list. `None` when a progress count
    /// the run could reach does not fit in a `usize`.
    pub fn start(
        config: &AutotuneConfig,
        strategies: Vec<(String, String)>,
        presets: Vec<(usize, Vec<String>)>,
        block_results: Vec<CheckResult>,
    ) -> (r: Option<(AutotuneRun, TuneAction)>)
        ensures
            r is None <==> !plan_fits(
                autotune::count_true(config.block_checks.enabled@),
                protocol_steps(config),
                strategies@.len(),
                presets@,
            ),
            r matches Some((run, a)) ==> {
                &&& run.wf()
                &&& run.stage is SavingIpset
                &&& a is SaveIpset
                &&& !run.cancelled
                &&& run.presets@ == presets@
                &&& run.strategies@ == strategies@
                &&& run.block_results@ == block_results@
                &&& run.proto_steps == protocol_steps(config)
                &&& run.progress.done == autotune::count_true(config.block_checks.enabled@)
                &&& run.progress.total == run.progress.done + domain_steps(presets@, 0, protocol_steps(config))
            },
    {
        let net = config.block_checks.count_enabled();
        let proto = autotune::count_protocol_steps(config);
        let s = strategies.len();
        assert(proto == protocol_steps(config));
        let ghost ps = presets@;
        let mut i: usize = presets.len();
        let mut dom: usize = 0;
        let mut worst: usize = 0;
        while i > 0
            invariant
                i <= ps.len(),
                ps == presets@,
                proto <= 4,
                proto == protocol_steps(config),
                net == autotune::count_true(config.block_checks.enabled@),
                s == strategies@.len(),
                dom == domain_steps(ps, i as int, proto as nat),
                worst == strategy_steps_bound(ps, i as int, s as nat),
                net + dom + worst <= usize::MAX,
            decreases i,
        {
            i -= 1;
            proof {
                lemma_steps_mono(ps, 0, i as int, proto as nat, s as nat);
            }
            let d = presets[i].1.len();
            match add_preset_steps(net, dom, worst, d, proto, s) {
                Some((x, y)) => {
                    dom = x;
                    worst = y;
                },
                None => {
                    proof {
                        assert(net + domain_steps(ps, 0, proto as nat) + strategy_steps_bound(ps, 0, s as nat)
                            > usize::MAX);
                    }
                    return None;
                },
            }
        }
        let progress = Progress { done: net, total: net + dom };
        let run = AutotuneRun {
            presets,
            strategies,
            proto_steps: proto,
            block_results,
            progress,
            stage: Stage::SavingIpset,
            current: 0,
            checks: Vec::new(),
            blocked: Vec::new(),
            tested: 0,
            strategy: 0,
            results: Vec::new(),
            finished: Vec::new(),
            cancelled: false,
        };
        Some((run, TuneAction::SaveIpset))
    }
}

} // verus!
