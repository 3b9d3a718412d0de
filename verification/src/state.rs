//! The state of the interactive interface and how key presses change it.
//!
//! The state machine decides; the caller performs what it asks for. Each
//! operation that needs the outside world either takes what the caller
//! observed (in [`HostFacts`] or as arguments) or returns an [`Effect`] for the
//! caller to carry out, after which the caller reports back through one of
//! the `*_done`/`refresh_*` methods.
use vstd::prelude::*;
use crate::autotune;
use crate::autotune::{AutotuneConfig, AutotuneResults, presets_len};
use crate::config::RunConfig;
use crate::firewalls::LinuxBackend;
use crate::ipset::IpsetMode;
use crate::menus;
use crate::menus::{
    ActiveScreen, AutotuneBlockChecksState, AutotuneMenuState, AutotuneProtocolsState,
    DownloadDepsMenuState, DownloadSubmenuState, GamefilterMenuState, MainMenuState,
    VersionTarget, autotune_item_at, checks_next_item, checks_prev_item, protocols_next_item,
    protocols_prev_item,
};
use crate::order;

verus! {

/// Where the user is: the screen on display and the selection in each menu.
#[derive(Debug, Clone, Copy, PartialEq, Eq, Structural)]
pub struct Navigation {
    pub active_screen: ActiveScreen,
    pub main_menu: MainMenuState,
    pub strategy_menu_index: usize,
    pub download_deps_menu: DownloadDepsMenuState,
    pub download_zapret_menu: DownloadSubmenuState,
    pub download_strategies_menu: DownloadSubmenuState,
    pub gamefilter_menu: GamefilterMenuState,
    pub nfqws_tag_index: usize,
    pub strat_tag_index: usize,
    pub service_menu_index: usize,
    pub lists_menu_index: usize,
    pub autotune_menu: AutotuneMenuState,
    pub autotune_menu_index: usize,
    pub autotune_protocols_menu: AutotuneProtocolsState,
    pub autotune_block_checks_menu: AutotuneBlockChecksState,
    pub autotune_preset_index: usize,
    pub autotune_strat_index: usize,
    pub autotune_results_index: usize,
}

/// Everything the interface shows and remembers.
pub struct AppState {
    pub interfaces: Vec<String>,
    pub selected_interface: usize,
    pub selected_backend: LinuxBackend,
    pub available_ipset_modes: Vec<IpsetMode>,
    pub selected_ipset_mode: usize,
    pub strategies: Vec<String>,
    pub selected_strategy: usize,
    pub tcp_gamefilter: bool,
    pub udp_gamefilter: bool,
    pub nav: Navigation,
    pub nfqws_target: VersionTarget,
    pub strat_target: VersionTarget,
    pub available_nfqws_tags: Vec<String>,
    pub available_strat_tags: Vec<String>,
    pub should_run: bool,
    pub should_quit: bool,
    pub should_download_zapret: bool,
    pub should_download_strategies: bool,
    pub should_download_defaults: bool,
    pub status_message: Option<String>,
    pub nfqws_installed: bool,
    pub strategies_installed: bool,
    pub service_installed: bool,
    pub service_active: bool,
    pub lists_files: Vec<String>,
    pub should_open_editor: Option<String>,
    pub autotune_config: AutotuneConfig,
    pub autotune_results: Option<AutotuneResults>,
    /// The number of lines of the saved results file, `None` without one
    /// (shown when no run happened in this session).
    pub saved_results_lines: Option<usize>,
    pub should_run_autotune: bool,
    pub autotune_running: bool,
    pub autotune_request_editing: bool,
    pub autotune_request_buf: String,
}

/// The number of items of the service menu: install and back without a
/// service; start, remove and back for a stopped one; stop, restart, remove
/// and back for a running one.
pub open spec fn service_count(installed: bool, active: bool) -> nat {
    if !installed {
        2
    } else if active {
        4
    } else {
        3
    }
}

/// The lines the results screen shows for the strategies of one preset: a
/// line per strategy and per domain check of it.
pub open spec fn strategy_lines(ss: Seq<autotune::StrategyCheckResult>) -> nat
    decreases ss.len(),
{
    if ss.len() == 0 {
        0
    } else {
        strategy_lines(ss.drop_last()) + 1 + ss.last().domain_checks@.len()
    }
}

/// How many of the strategies work.
pub open spec fn working_count(ss: Seq<autotune::StrategyCheckResult>) -> nat
    decreases ss.len(),
{
    if ss.len() == 0 {
        0
    } else {
        working_count(ss.drop_last()) + if ss.last().works { 1nat } else { 0nat }
    }
}

/// The lines of one preset on the results screen: its header, a line per
/// domain, the strategies (with their header and, where some work, a summary
/// of the working ones), and a blank line.
pub open spec fn preset_lines(p: autotune::PresetResult) -> nat {
    let ss = p.strategy_results@;
    let strategies = if ss.len() > 0 {
        let w = working_count(ss);
        1 + strategy_lines(ss) + if w > 0 { 1 + w } else { 0 }
    } else {
        0
    };
    1 + p.domain_checks@.len() + strategies + 1
}

/// The lines of all presets.
pub open spec fn presets_lines(ps: Seq<autotune::PresetResult>) -> nat
    decreases ps.len(),
{
    if ps.len() == 0 {
        0
    } else {
        presets_lines(ps.drop_last()) + preset_lines(ps.last())
    }
}

/// The number of selectable lines on the results screen, the closing "back"
/// line included: the network checks block (ten lines), the presets, the
/// common strategies (with header and blank line) where there are some; or,
/// without results, the saved file's lines, or a "no data" line.
pub open spec fn results_items(results: Option<AutotuneResults>, saved_lines: Option<usize>) -> nat {
    match results {
        Option::Some(r) => {
            let c = r.common_strategies@.len();
            10 + presets_lines(r.preset_results@) + (if c > 0 { c + 2 } else { 0 }) + 1
        },
        Option::None => match saved_lines {
            Option::Some(n) => (n + 1) as nat,
            Option::None => 2,
        },
    }
}

/// The invariant of the state: every selection lies within what it selects
/// from (one past the end standing for "back"), and every count fits.
pub open spec fn wf(s: AppState) -> bool {
    &&& s.interfaces@.len() <= isize::MAX
    &&& s.strategies@.len() <= isize::MAX
    &&& s.available_nfqws_tags@.len() <= isize::MAX
    &&& s.available_strat_tags@.len() <= isize::MAX
    &&& s.lists_files@.len() <= isize::MAX
    &&& s.available_ipset_modes@.len() <= isize::MAX
    &&& (s.interfaces@.len() == 0 || s.selected_interface < s.interfaces@.len())
    &&& (s.available_ipset_modes@.len() == 0 || s.selected_ipset_mode < s.available_ipset_modes@.len())
    &&& s.selected_strategy <= s.strategies@.len()
    &&& results_items(s.autotune_results, s.saved_results_lines) < usize::MAX
    &&& nav_fits(s.nav, sizes(s))
}

impl AppState {
    /// The state invariant.
    pub open spec fn wf(&self) -> bool {
        wf(*self)
    }
}

proof fn lemma_strategy_prefix(ss: Seq<autotune::StrategyCheckResult>, i: int)
    requires
        0 <= i <= ss.len(),
    ensures
        strategy_lines(ss.take(i)) <= strategy_lines(ss),
        working_count(ss.take(i)) <= working_count(ss),
    decreases ss.len(),
{
    if i < ss.len() {
        assert(ss.drop_last().take(i) =~= ss.take(i));
        lemma_strategy_prefix(ss.drop_last(), i);
    } else {
        assert(ss.take(i) =~= ss);
    }
}

proof fn lemma_presets_prefix(ps: Seq<autotune::PresetResult>, i: int)
    requires
        0 <= i <= ps.len(),
    ensures
        presets_lines(ps.take(i)) <= presets_lines(ps),
    decreases ps.len(),
{
    if i < ps.len() {
        assert(ps.drop_last().take(i) =~= ps.take(i));
        lemma_presets_prefix(ps.drop_last(), i);
    } else {
        assert(ps.take(i) =~= ps);
    }
}

fn preset_line_count(p: &autotune::PresetResult) -> (n: usize)
    requires
        preset_lines(*p) < usize::MAX,
    ensures
        n == preset_lines(*p),
{
    let ss = &p.strategy_results;
    let mut lines: usize = 0;
    let mut working: usize = 0;
    let mut i: usize = 0;
    while i < ss.len()
        invariant
            i <= ss@.len(),
            ss@ == p.strategy_results@,
            preset_lines(*p) < usize::MAX,
            lines == strategy_lines(ss@.take(i as int)),
            working == working_count(ss@.take(i as int)),
        decreases ss.len() - i,
    {
        proof {
            assert(ss@.take(i + 1).drop_last() =~= ss@.take(i as int));
            lemma_strategy_prefix(ss@, i + 1);
        }
        lines = lines + 1 + ss[i].domain_checks.len();
        if ss[i].works {
            working = working + 1;
        }
        i += 1;
    }
    assert(ss@.take(ss@.len() as int) =~= ss@);
    let mut n: usize = 1 + p.domain_checks.len();
    if ss.len() > 0 {
        n = n + 1 + lines;
        if working > 0 {
            n = n + 1 + working;
        }
    }
    n + 1
}

fn preset_lines_checked(p: &autotune::PresetResult) -> (r: Option<usize>)
    ensures
        match r {
            Some(n) => n == preset_lines(*p) && n < usize::MAX,
            None => preset_lines(*p) >= usize::MAX,
        },
{
    let ss = &p.strategy_results;
    let mut lines: usize = 0;
    let mut working: usize = 0;
    let mut i: usize = 0;
    while i < ss.len()
        invariant
            i <= ss@.len(),
            ss@ == p.strategy_results@,
            lines == strategy_lines(ss@.take(i as int)),
            working == working_count(ss@.take(i as int)),
            working <= i,
        decreases ss.len() - i,
    {
        proof {
            assert(ss@.take(i + 1).drop_last() =~= ss@.take(i as int));
            lemma_strategy_prefix(ss@, i + 1);
        }
        let step = ss[i].domain_checks.len();
        if lines as u128 + 1 + step as u128 >= usize::MAX as u128 {
            return None;
        }
        lines = lines + 1 + step;
        if ss[i].works {
            working = working + 1;
        }
        i += 1;
    }
    assert(ss@.take(ss@.len() as int) =~= ss@);
    let mut n: u128 = 1 + p.domain_checks.len() as u128;
    if ss.len() > 0 {
        n = n + 1 + lines as u128;
        if working > 0 {
            n = n + 1 + working as u128;
        }
    }
    n = n + 1;
    if n >= usize::MAX as u128 {
        None
    } else {
        Some(n as usize)
    }
}

/// Whether the results screen of a run's results can be counted: the test
/// that a state can take the results in.
pub fn results_fit(results: &AutotuneResults) -> (b: bool)
    ensures
        b == (results_items(Some(*results), None) < usize::MAX),
{
    let ps = &results.preset_results;
    let mut n: usize = 10;
    let mut i: usize = 0;
    while i < ps.len()
        invariant
            i <= ps@.len(),
            ps@ == results.preset_results@,
            n == 10 + presets_lines(ps@.take(i as int)),
        decreases ps.len() - i,
    {
        proof {
            assert(ps@.take(i + 1).drop_last() =~= ps@.take(i as int));
            lemma_presets_prefix(ps@, i + 1);
        }
        match preset_lines_checked(&ps[i]) {
            None => {
                return false;
            },
            Some(k) => {
                if n as u128 + k as u128 >= usize::MAX as u128 {
                    return false;
                }
                n = n + k;
            },
        }
        i += 1;
    }
    assert(ps@.take(ps@.len() as int) =~= ps@);
    let c = results.common_strategies.len();
    let total: u128 = n as u128 + (if c > 0 { c as u128 + 2 } else { 0 }) + 1;
    total < usize::MAX as u128
}

impl AppState {
    /// The number of selectable lines of the results screen.
    pub fn count_results_items(&self) -> (n: usize)
        requires
            results_items(self.autotune_results, self.saved_results_lines) < usize::MAX,
        ensures
            n == results_items(self.autotune_results, self.saved_results_lines),
    {
        match &self.autotune_results {
            Option::Some(results) => {
                let ps = &results.preset_results;
                let mut n: usize = 10;
                let mut i: usize = 0;
                while i < ps.len()
                    invariant
                        i <= ps@.len(),
                        ps@ == results.preset_results@,
                        results_items(self.autotune_results, self.saved_results_lines) < usize::MAX,
                        self.autotune_results == Option::Some(*results),
                        n == 10 + presets_lines(ps@.take(i as int)),
                    decreases ps.len() - i,
                {
                    proof {
                        assert(ps@.take(i + 1).drop_last() =~= ps@.take(i as int));
                        lemma_presets_prefix(ps@, i + 1);
                    }
                    let k = preset_line_count(&ps[i]);
                    n = n + k;
                    i += 1;
                }
                assert(ps@.take(ps@.len() as int) =~= ps@);
                let c = results.common_strategies.len();
                if c > 0 {
                    n = n + c + 2;
                }
                n + 1
            },
            Option::None => match self.saved_results_lines {
                Option::Some(lines) => lines + 1,
                Option::None => 2,
            },
        }
    }
}

/// The position after `i` in a cyclic menu of `m` items.
pub open spec fn wrap_next(i: int, m: int) -> int {
    if i + 1 < m {
        i + 1
    } else {
        0
    }
}

/// The position before `i` in a cyclic menu of `m` items.
pub open spec fn wrap_prev(i: int, m: int) -> int {
    if i == 0 {
        m - 1
    } else {
        i - 1
    }
}

/// The next and previous positions in a menu of `m` items are the
/// neighbours modulo `m`.
pub proof fn lemma_wrap(i: int, m: int)
    requires
        0 <= i < m,
    ensures
        (i + 1) % m == wrap_next(i, m),
        (i + m - 1) % m == wrap_prev(i, m),
{
    if i + 1 < m {
        vstd::arithmetic::div_mod::lemma_small_mod((i + 1) as nat, m as nat);
    } else {
        vstd::arithmetic::div_mod::lemma_mod_self_0(m);
    }
    if i == 0 {
        vstd::arithmetic::div_mod::lemma_small_mod((m - 1) as nat, m as nat);
    } else {
        vstd::arithmetic::div_mod::lemma_small_mod((i - 1) as nat, m as nat);
        vstd::arithmetic::div_mod::lemma_mod_add_multiples_vanish(i - 1, m);
    }
}

/// The position `i` of a cyclic menu of `m` items moves one step (down when
/// `forward`), where `on`; else it stays.
pub open spec fn step_index(on: bool, i: usize, m: int, forward: bool) -> usize {
    if !on {
        i
    } else if forward {
        wrap_next(i as int, m) as usize
    } else {
        wrap_prev(i as int, m) as usize
    }
}

fn step_index_exec(on: bool, i: usize, m: usize, forward: bool) -> (r: usize)
    requires
        on ==> i < m,
        m <= usize::MAX / 2 + 1,
    ensures
        r == step_index(on, i, m as int, forward),
{
    if !on {
        i
    } else if forward {
        proof {
            lemma_wrap(i as int, m as int);
        }
        (i + 1) % m
    } else {
        proof {
            lemma_wrap(i as int, m as int);
        }
        (i + m - 1) % m
    }
}

/// The main menu item after a step, where `on`.
pub open spec fn step_main(on: bool, m: MainMenuState, forward: bool) -> MainMenuState {
    if !on {
        m
    } else if forward {
        menus::main_next(m)
    } else {
        menus::main_prev(m)
    }
}

fn step_main_exec(on: bool, m: MainMenuState, forward: bool) -> (r: MainMenuState)
    ensures
        r == step_main(on, m, forward),
{
    if !on {
        m
    } else if forward {
        m.next()
    } else {
        m.prev()
    }
}

pub open spec fn step_deps(on: bool, m: DownloadDepsMenuState, forward: bool) -> DownloadDepsMenuState {
    if !on {
        m
    } else if forward {
        menus::deps_next(m)
    } else {
        menus::deps_prev(m)
    }
}

fn step_deps_exec(on: bool, m: DownloadDepsMenuState, forward: bool) -> (r: DownloadDepsMenuState)
    ensures
        r == step_deps(on, m, forward),
{
    if !on {
        m
    } else if forward {
        m.next()
    } else {
        m.prev()
    }
}

pub open spec fn step_download(on: bool, m: DownloadSubmenuState, forward: bool) -> DownloadSubmenuState {
    if !on {
        m
    } else if forward {
        menus::download_next(m)
    } else {
        menus::download_prev(m)
    }
}

fn step_download_exec(on: bool, m: DownloadSubmenuState, forward: bool) -> (r: DownloadSubmenuState)
    ensures
        r == step_download(on, m, forward),
{
    if !on {
        m
    } else if forward {
        m.next()
    } else {
        m.prev()
    }
}

pub open spec fn step_gamefilter(on: bool, m: GamefilterMenuState, forward: bool) -> GamefilterMenuState {
    if !on {
        m
    } else if forward {
        menus::gamefilter_next(m)
    } else {
        menus::gamefilter_prev(m)
    }
}

fn step_gamefilter_exec(on: bool, m: GamefilterMenuState, forward: bool) -> (r: GamefilterMenuState)
    ensures
        r == step_gamefilter(on, m, forward),
{
    if !on {
        m
    } else if forward {
        m.next()
    } else {
        m.prev()
    }
}

pub open spec fn step_protocols(on: bool, m: AutotuneProtocolsState, forward: bool) -> AutotuneProtocolsState {
    if !on {
        m
    } else if forward {
        menus::protocols_next(m)
    } else {
        menus::protocols_prev(m)
    }
}

fn step_protocols_exec(on: bool, m: AutotuneProtocolsState, forward: bool) -> (r: AutotuneProtocolsState)
    ensures
        r == step_protocols(on, m, forward),
{
    if !on {
        m
    } else if forward {
        protocols_next_item(m)
    } else {
        protocols_prev_item(m)
    }
}

pub open spec fn step_checks(on: bool, m: AutotuneBlockChecksState, forward: bool) -> AutotuneBlockChecksState {
    if !on {
        m
    } else if forward {
        menus::checks_next(m)
    } else {
        menus::checks_prev(m)
    }
}

fn step_checks_exec(on: bool, m: AutotuneBlockChecksState, forward: bool) -> (r: AutotuneBlockChecksState)
    ensures
        r == step_checks(on, m, forward),
{
    if !on {
        m
    } else if forward {
        checks_next_item(m)
    } else {
        checks_prev_item(m)
    }
}

fn step_autotune_menu(on: bool, i: usize, m: AutotuneMenuState) -> (r: AutotuneMenuState)
    ensures
        r == (if on { menus::autotune_item(i as int) } else { m }),
{
    if on {
        autotune_item_at(i)
    } else {
        m
    }
}

/// The results line after a step, where `on`: one down while a line follows,
/// one up while one precedes.
pub open spec fn step_results(on: bool, i: usize, total: nat, forward: bool) -> usize {
    if on && total > 0 && forward && i + 1 < total {
        (i + 1) as usize
    } else if on && total > 0 && !forward && i > 0 {
        (i - 1) as usize
    } else {
        i
    }
}

fn step_results_exec(on: bool, i: usize, total: usize, forward: bool) -> (r: usize)
    requires
        i < usize::MAX,
    ensures
        r == step_results(on, i, total as nat, forward),
{
    if on && total > 0 && forward && i + 1 < total {
        i + 1
    } else if on && total > 0 && !forward && i > 0 {
        i - 1
    } else {
        i
    }
}

/// The lengths of the lists the menus select from.
#[derive(Debug, Clone, Copy, PartialEq, Eq, Structural)]
pub struct MenuSizes {
    pub strategies: usize,
    pub nfqws_tags: usize,
    pub strat_tags: usize,
    pub service_items: usize,
    pub lists_files: usize,
    pub results_lines: usize,
}

/// The selection after one step, down when `forward`, up otherwise: only the
/// selection of the screen on display moves. Fixed menus and lists wrap around
/// (a list has one more item, "back", than entries; empty strategy and tag
/// lists do not move); the results screen stops at its first and last lines.
pub open spec fn stepped_nav(n: Navigation, z: MenuSizes, forward: bool) -> Navigation {
    let sc = n.active_screen;
    let autotune_i = step_index(sc == ActiveScreen::AutotuneSubmenu, n.autotune_menu_index, 9, forward);
    Navigation {
        main_menu: step_main(sc == ActiveScreen::Main, n.main_menu, forward),
        strategy_menu_index: step_index(
            sc == ActiveScreen::StrategySubmenu && z.strategies > 0,
            n.strategy_menu_index,
            z.strategies + 1,
            forward,
        ),
        download_deps_menu: step_deps(sc == ActiveScreen::DownloadDepsSubmenu, n.download_deps_menu, forward),
        download_zapret_menu: step_download(sc == ActiveScreen::DownloadZapretSubmenu, n.download_zapret_menu, forward),
        download_strategies_menu: step_download(
            sc == ActiveScreen::DownloadStrategiesSubmenu,
            n.download_strategies_menu,
            forward,
        ),
        gamefilter_menu: step_gamefilter(sc == ActiveScreen::GamefilterSubmenu, n.gamefilter_menu, forward),
        nfqws_tag_index: step_index(
            sc == ActiveScreen::ZapretTagSelect && z.nfqws_tags > 0,
            n.nfqws_tag_index,
            z.nfqws_tags + 1,
            forward,
        ),
        strat_tag_index: step_index(
            sc == ActiveScreen::StrategyTagSelect && z.strat_tags > 0,
            n.strat_tag_index,
            z.strat_tags + 1,
            forward,
        ),
        service_menu_index: step_index(sc == ActiveScreen::ServiceSubmenu, n.service_menu_index, z.service_items as int, forward),
        lists_menu_index: step_index(sc == ActiveScreen::ListsEditorSubmenu, n.lists_menu_index, z.lists_files + 1, forward),
        autotune_menu_index: autotune_i,
        autotune_menu: if sc == ActiveScreen::AutotuneSubmenu {
            menus::autotune_item(autotune_i as int)
        } else {
            n.autotune_menu
        },
        autotune_protocols_menu: step_protocols(
            sc == ActiveScreen::AutotuneProtocolsSubmenu,
            n.autotune_protocols_menu,
            forward,
        ),
        autotune_preset_index: step_index(
            sc == ActiveScreen::AutotunePresetSelectionSubmenu,
            n.autotune_preset_index,
            (autotune::preset_count() + 1) as int,
            forward,
        ),
        autotune_block_checks_menu: step_checks(
            sc == ActiveScreen::AutotuneBlockChecksSubmenu,
            n.autotune_block_checks_menu,
            forward,
        ),
        autotune_strat_index: step_index(
            sc == ActiveScreen::AutotuneStrategiesSubmenu,
            n.autotune_strat_index,
            z.strategies + 1,
            forward,
        ),
        autotune_results_index: step_results(
            sc == ActiveScreen::AutotuneResultsSubmenu,
            n.autotune_results_index,
            z.results_lines as nat,
            forward,
        ),
        ..n
    }
}

/// The sizes of the lists of a state.
pub open spec fn sizes(s: AppState) -> MenuSizes {
    MenuSizes {
        strategies: s.strategies@.len() as usize,
        nfqws_tags: s.available_nfqws_tags@.len() as usize,
        strat_tags: s.available_strat_tags@.len() as usize,
        service_items: service_count(s.service_installed, s.service_active) as usize,
        lists_files: s.lists_files@.len() as usize,
        results_lines: results_items(s.autotune_results, s.saved_results_lines) as usize,
    }
}

/// Whether a selection lies within the lists of the given sizes.
pub open spec fn nav_fits(n: Navigation, z: MenuSizes) -> bool {
    &&& z.strategies <= isize::MAX
    &&& z.nfqws_tags <= isize::MAX
    &&& z.strat_tags <= isize::MAX
    &&& z.lists_files <= isize::MAX
    &&& 2 <= z.service_items <= 4
    &&& n.strategy_menu_index <= z.strategies
    &&& n.nfqws_tag_index <= z.nfqws_tags
    &&& n.strat_tag_index <= z.strat_tags
    &&& n.service_menu_index < z.service_items
    &&& n.lists_menu_index <= z.lists_files
    &&& n.autotune_menu_index < 9
    &&& n.autotune_menu == menus::autotune_item(n.autotune_menu_index as int)
    &&& n.autotune_preset_index <= autotune::preset_count()
    &&& n.autotune_strat_index <= z.strategies
    &&& n.autotune_results_index < usize::MAX
}

/// The selection after one step (see [`stepped_nav`]).
pub fn step_nav(n: Navigation, z: MenuSizes, forward: bool) -> (r: Navigation)
    requires
        nav_fits(n, z),
    ensures
        r == stepped_nav(n, z, forward),
{
    let sc = n.active_screen;
    let on_autotune = sc == ActiveScreen::AutotuneSubmenu;
    let autotune_menu_index = step_index_exec(on_autotune, n.autotune_menu_index, 9, forward);
    Navigation {
        main_menu: step_main_exec(sc == ActiveScreen::Main, n.main_menu, forward),
        strategy_menu_index: step_index_exec(
            sc == ActiveScreen::StrategySubmenu && z.strategies > 0,
            n.strategy_menu_index,
            z.strategies + 1,
            forward,
        ),
        download_deps_menu: step_deps_exec(sc == ActiveScreen::DownloadDepsSubmenu, n.download_deps_menu, forward),
        download_zapret_menu: step_download_exec(
            sc == ActiveScreen::DownloadZapretSubmenu,
            n.download_zapret_menu,
            forward,
        ),
        download_strategies_menu: step_download_exec(
            sc == ActiveScreen::DownloadStrategiesSubmenu,
            n.download_strategies_menu,
            forward,
        ),
        gamefilter_menu: step_gamefilter_exec(sc == ActiveScreen::GamefilterSubmenu, n.gamefilter_menu, forward),
        nfqws_tag_index: step_index_exec(
            sc == ActiveScreen::ZapretTagSelect && z.nfqws_tags > 0,
            n.nfqws_tag_index,
            z.nfqws_tags + 1,
            forward,
        ),
        strat_tag_index: step_index_exec(
            sc == ActiveScreen::StrategyTagSelect && z.strat_tags > 0,
            n.strat_tag_index,
            z.strat_tags + 1,
            forward,
        ),
        service_menu_index: step_index_exec(
            sc == ActiveScreen::ServiceSubmenu,
            n.service_menu_index,
            z.service_items,
            forward,
        ),
        lists_menu_index: step_index_exec(
            sc == ActiveScreen::ListsEditorSubmenu,
            n.lists_menu_index,
            z.lists_files + 1,
            forward,
        ),
        autotune_menu_index,
        autotune_menu: step_autotune_menu(on_autotune, autotune_menu_index, n.autotune_menu),
        autotune_protocols_menu: step_protocols_exec(
            sc == ActiveScreen::AutotuneProtocolsSubmenu,
            n.autotune_protocols_menu,
            forward,
        ),
        autotune_preset_index: step_index_exec(
            sc == ActiveScreen::AutotunePresetSelectionSubmenu,
            n.autotune_preset_index,
            presets_len() + 1,
            forward,
        ),
        autotune_block_checks_menu: step_checks_exec(
            sc == ActiveScreen::AutotuneBlockChecksSubmenu,
            n.autotune_block_checks_menu,
            forward,
        ),
        autotune_strat_index: step_index_exec(
            sc == ActiveScreen::AutotuneStrategiesSubmenu,
            n.autotune_strat_index,
            z.strategies + 1,
            forward,
        ),
        autotune_results_index: step_results_exec(
            sc == ActiveScreen::AutotuneResultsSubmenu,
            n.autotune_results_index,
            z.results_lines,
            forward,
        ),
        ..n
    }
}

/// The state after one step of the selection: the status line is cleared and
/// the selection moves as [`stepped_nav`] says.
pub open spec fn stepped(s: AppState, forward: bool) -> AppState {
    AppState { status_message: Option::None, nav: stepped_nav(s.nav, sizes(s), forward), ..s }
}

impl AppState {
    /// The sizes of the lists of the state.
    pub fn menu_sizes(&self) -> (z: MenuSizes)
        requires
            self.wf(),
        ensures
            z == sizes(*self),
    {
        MenuSizes {
            strategies: self.strategies.len(),
            nfqws_tags: self.available_nfqws_tags.len(),
            strat_tags: self.available_strat_tags.len(),
            service_items: self.get_service_menu_count(),
            lists_files: self.lists_files.len(),
            results_lines: self.count_results_items(),
        }
    }

    fn step(&mut self, forward: bool)
        requires
            old(self).wf(),
        ensures
            *final(self) == stepped(*old(self), forward),
    {
        let z = self.menu_sizes();
        let nav = step_nav(self.nav, z, forward);
        self.status_message = None;
        self.nav = nav;
    }

    /// Moves the selection down on the current screen.
    pub fn next_menu(&mut self)
        requires
            old(self).wf(),
        ensures
            *final(self) == stepped(*old(self), true),
    {
        self.step(true);
    }

    /// Moves the selection up on the current screen.
    pub fn prev_menu(&mut self)
        requires
            old(self).wf(),
        ensures
            *final(self) == stepped(*old(self), false),
    {
        self.step(false);
    }

    /// The number of items of the service menu.
    pub fn get_service_menu_count(&self) -> (n: usize)
        ensures
            n == service_count(self.service_installed, self.service_active),
    {
        if !self.service_installed {
            2
        } else if self.service_active {
            4
        } else {
            3
        }
    }
}

/// A step of the selection keeps the state invariant.
pub proof fn lemma_step_keeps_wf(s: AppState, forward: bool)
    requires
        wf(s),
    ensures
        wf(stepped(s, forward)),
{
    let r = stepped(s, forward);
    let z = sizes(s);
    assert(sizes(r) == z);
    let n = s.nav;
    let m = r.nav;
    assert(n.strategy_menu_index <= z.strategies);
    lemma_wrap(n.strategy_menu_index as int, z.strategies + 1);
    lemma_wrap(n.nfqws_tag_index as int, z.nfqws_tags + 1);
    lemma_wrap(n.strat_tag_index as int, z.strat_tags + 1);
    lemma_wrap(n.service_menu_index as int, z.service_items as int);
    lemma_wrap(n.lists_menu_index as int, z.lists_files + 1);
    lemma_wrap(n.autotune_menu_index as int, 9);
    lemma_wrap(n.autotune_preset_index as int, (autotune::preset_count() + 1) as int);
    lemma_wrap(n.autotune_strat_index as int, z.strategies + 1);
}

proof fn lemma_nav_round_trip(n: Navigation, z: MenuSizes, first: bool)
    requires
        nav_fits(n, z),
        first && n.active_screen == ActiveScreen::AutotuneResultsSubmenu ==> n.autotune_results_index + 1
            < z.results_lines,
        !first && n.active_screen == ActiveScreen::AutotuneResultsSubmenu ==> 0 < n.autotune_results_index
            < z.results_lines,
    ensures
        stepped_nav(stepped_nav(n, z, first), z, !first) == n,
{
    lemma_wrap(n.strategy_menu_index as int, z.strategies + 1);
    lemma_wrap(n.nfqws_tag_index as int, z.nfqws_tags + 1);
    lemma_wrap(n.strat_tag_index as int, z.strat_tags + 1);
    lemma_wrap(n.service_menu_index as int, z.service_items as int);
    lemma_wrap(n.lists_menu_index as int, z.lists_files + 1);
    lemma_wrap(n.autotune_menu_index as int, 9);
    lemma_wrap(n.autotune_preset_index as int, (autotune::preset_count() + 1) as int);
    lemma_wrap(n.autotune_strat_index as int, z.strategies + 1);
    menus::lemma_main_menu_round_trip(n.main_menu);
    menus::lemma_submenus_round_trip(
        n.gamefilter_menu,
        menus::DefenderMenuState::Add,
        n.autotune_protocols_menu,
        n.autotune_block_checks_menu,
        n.download_deps_menu,
        n.download_zapret_menu,
    );
    menus::lemma_submenus_round_trip(
        n.gamefilter_menu,
        menus::DefenderMenuState::Add,
        n.autotune_protocols_menu,
        n.autotune_block_checks_menu,
        n.download_deps_menu,
        n.download_strategies_menu,
    );
}

/// A step down followed by a step up (or up, then down) returns the
/// selection to where it was, the status line cleared; on the results screen
/// this needs a line below (above) the current one.
pub proof fn lemma_step_round_trip(s: AppState, first: bool)
    requires
        wf(s),
        first && s.nav.active_screen == ActiveScreen::AutotuneResultsSubmenu ==> s.nav.autotune_results_index + 1
            < results_items(s.autotune_results, s.saved_results_lines),
        !first && s.nav.active_screen == ActiveScreen::AutotuneResultsSubmenu ==> 0 < s.nav.autotune_results_index
            < results_items(s.autotune_results, s.saved_results_lines),
    ensures
        stepped(stepped(s, first), !first) == (AppState { status_message: Option::None, ..s }),
{
    let z = sizes(s);
    assert(sizes(stepped(s, first)) == z);
    lemma_nav_round_trip(s.nav, z, first);
}

} // verus!
