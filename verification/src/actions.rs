//! What the Enter key (and the left/right keys) do on each screen.
//!
//! [`AppState::toggle_current`] decides; what needs the outside world comes
//! back as an [`Effect`] for the caller to perform, and the caller reports the
//! outcome through the methods at the end of this file.
use vstd::prelude::*;
use crate::autotune;
use crate::firewalls;
use crate::firewalls::LinuxBackend;
use crate::ipset::IpsetMode;
use crate::menus;
use crate::menus::{
    ActiveScreen, AutotuneBlockChecksState, AutotuneMenuState, AutotuneProtocolsState,
    DownloadDepsMenuState, DownloadSubmenuState, GamefilterMenuState, MainMenuState,
    VersionTarget,
};
use crate::state;
use crate::state::{AppState, Navigation};

verus! {

/// What the caller observed of the machine just before the key press.
pub struct HostFacts {
    /// The nfqws binary is present.
    pub nfqws_installed: bool,
    /// The strategies repository is present.
    pub strategies_installed: bool,
    /// An nfqws process is running.
    pub nfqws_running: bool,
    /// A supported init system was detected.
    pub init_system_found: bool,
    /// The path of the custom autotune domain list.
    pub custom_domains_path: String,
}

/// Which repository's tags to fetch.
#[derive(Debug, Clone, Copy, PartialEq, Eq, Structural)]
pub enum TagSource {
    Zapret,
    Strategies,
}

/// An operation on the system service.
#[derive(Debug, Clone, Copy, PartialEq, Eq, Structural)]
pub enum ServiceAction {
    InstallAndStart,
    Start,
    Stop,
    Restart,
    Uninstall,
}

/// Outside work the caller performs after a key press.
#[derive(Debug, Clone, Copy, PartialEq, Eq, Structural)]
pub enum Effect {
    Nothing,
    /// Save interface, strategy, game filter and backend ([`AppState::current_settings`]).
    SaveConfig,
    /// Switch the ipset files from the first mode to the second, then report
    /// the modes on offer through [`AppState::refresh_ipset_status`].
    ApplyIpset(IpsetMode, IpsetMode),
    /// Query the service and report through [`AppState::refresh_service_status`].
    RefreshService,
    /// List the editable list files and report through [`AppState::lists_loaded`].
    LoadListsFiles,
    /// Fetch the release tags and report through [`AppState::tags_fetched`].
    FetchTags(TagSource),
    /// Run the service operation and report through [`AppState::service_op_done`].
    Service(ServiceAction),
}

/// The status line that reports an error.
pub open spec fn error_line(msg: Seq<char>) -> Option<Seq<char>> {
    Option::Some("Error: "@ + msg)
}

/// The view of an optional string.
pub open spec fn opt_text(o: Option<String>) -> Option<Seq<char>> {
    match o {
        Option::Some(s) => Option::Some(s@),
        Option::None => Option::None,
    }
}

/// The message for missing dependencies.
pub open spec fn missing_deps_msg(nfqws: bool, strategies: bool) -> Seq<char> {
    if !nfqws && !strategies {
        "nfqws and the strategies are not installed"@
    } else if !nfqws {
        "nfqws is not installed"@
    } else {
        "the strategies are not installed"@
    }
}

fn error_message(msg: &str) -> (r: Option<String>)
    ensures
        opt_text(r) == error_line(msg@),
{
    Option::Some(String::from_str("Error: ").concat(msg))
}

fn text(msg: &str) -> (r: Option<String>)
    ensures
        opt_text(r) == Option::Some(msg@),
{
    Option::Some(String::from_str(msg))
}

/// A state with only the status line changed.
pub open spec fn with_status(s: AppState, msg: Option<Seq<char>>, r: AppState) -> bool {
    &&& opt_text(r.status_message) == msg
    &&& r == AppState { status_message: r.status_message, ..s }
}

impl AppState {
    /// Shows an error in the status line.
    pub fn show_error(&mut self, msg: &str)
        ensures
            with_status(*old(self), error_line(msg@), *final(self)),
    {
        self.status_message = error_message(msg);
    }

    /// Records which dependencies are installed.
    pub fn refresh_dep_status(&mut self, nfqws_installed: bool, strategies_installed: bool)
        ensures
            *final(self) == (AppState { nfqws_installed, strategies_installed, ..*old(self) }),
    {
        self.nfqws_installed = nfqws_installed;
        self.strategies_installed = strategies_installed;
    }

    /// Records which dependencies are installed and whether both are; where
    /// one is missing, says which in the status line.
    pub fn check_dependencies(&mut self, nfqws_installed: bool, strategies_installed: bool) -> (ok: bool)
        ensures
            ok == (nfqws_installed && strategies_installed),
            final(self).nfqws_installed == nfqws_installed,
            final(self).strategies_installed == strategies_installed,
            opt_text(final(self).status_message) == if ok {
                opt_text(old(self).status_message)
            } else {
                error_line(missing_deps_msg(nfqws_installed, strategies_installed))
            },
            *final(self) == (AppState {
                nfqws_installed,
                strategies_installed,
                status_message: final(self).status_message,
                ..*old(self)
            }),
    {
        self.nfqws_installed = nfqws_installed;
        self.strategies_installed = strategies_installed;
        if !nfqws_installed && !strategies_installed {
            self.status_message = error_message("nfqws and the strategies are not installed");
            false
        } else if !nfqws_installed {
            self.status_message = error_message("nfqws is not installed");
            false
        } else if !strategies_installed {
            self.status_message = error_message("the strategies are not installed");
            false
        } else {
            true
        }
    }
}

/// `r` is `s` with only the status line (reading `msg`) and the fields of
/// `base` other than the status line changed.
pub open spec fn becomes(base: AppState, msg: Option<Seq<char>>, r: AppState) -> bool {
    &&& opt_text(r.status_message) == msg
    &&& r == AppState { status_message: r.status_message, ..base }
}

/// The other backend.
pub open spec fn other_backend(b: LinuxBackend) -> LinuxBackend {
    match b {
        LinuxBackend::Nftables => LinuxBackend::Iptables,
        LinuxBackend::Iptables => LinuxBackend::Nftables,
    }
}

/// Enter on a main menu item that opens a submenu: the submenu opens with its
/// first item selected (the strategy list at the strategy in use, the service
/// menu after a refresh of the service status).
#[verifier::opaque]
pub open spec fn main_open_case(s: AppState, r: AppState, e: Effect) -> bool {
    &&& r == AppState { nav: main_opened(s.nav, s.selected_strategy), status_message: Option::None, ..s }
    &&& e == if s.nav.main_menu == MainMenuState::ServiceSettings { Effect::RefreshService } else { Effect::Nothing }
}

/// Enter on the interface: the next interface, saved (nothing without interfaces).
#[verifier::opaque]
pub open spec fn interface_case(s: AppState, r: AppState, e: Effect) -> bool {
    if s.interfaces@.len() > 0 {
        &&& r == AppState {
            selected_interface: state::wrap_next(s.selected_interface as int, s.interfaces@.len() as int) as usize,
            ..s
        }
        &&& e == Effect::SaveConfig
    } else {
        r == s && e == Effect::Nothing
    }
}

/// Enter on the backend: the other backend, saved.
#[verifier::opaque]
pub open spec fn backend_case(s: AppState, r: AppState, e: Effect) -> bool {
    r == AppState { selected_backend: other_backend(s.selected_backend), ..s } && e == Effect::SaveConfig
}

/// Enter on the ipset mode: the next mode on offer, and the files switched to it.
#[verifier::opaque]
pub open spec fn ipset_case(s: AppState, r: AppState, e: Effect) -> bool {
    let modes = s.available_ipset_modes@;
    if modes.len() > 0 {
        let k = state::wrap_next(s.selected_ipset_mode as int, modes.len() as int);
        &&& r == AppState { selected_ipset_mode: k as usize, ..s }
        &&& e == Effect::ApplyIpset(modes[s.selected_ipset_mode as int], modes[k])
    } else {
        r == s && e == Effect::Nothing
    }
}

/// Enter on the lists editor: list the files where the strategies are
/// installed, else say they are missing.
#[verifier::opaque]
pub open spec fn lists_case(s: AppState, f: HostFacts, r: AppState, e: Effect) -> bool {
    if f.strategies_installed {
        r == s && e == Effect::LoadListsFiles
    } else {
        becomes(s, error_line("no strategies found"@), r) && e == Effect::Nothing
    }
}

/// Enter on Run: record the dependencies; run where both are installed, else
/// say which are missing.
#[verifier::opaque]
pub open spec fn run_case(s: AppState, f: HostFacts, r: AppState, e: Effect) -> bool {
    let ok = f.nfqws_installed && f.strategies_installed;
    let base = AppState {
        nfqws_installed: f.nfqws_installed,
        strategies_installed: f.strategies_installed,
        should_run: s.should_run || ok,
        ..s
    };
    &&& becomes(
        base,
        if ok { opt_text(s.status_message) } else { error_line(missing_deps_msg(f.nfqws_installed, f.strategies_installed)) },
        r,
    )
    &&& e == Effect::Nothing
}

/// Enter on Quit.
#[verifier::opaque]
pub open spec fn quit_case(s: AppState, r: AppState, e: Effect) -> bool {
    r == AppState { should_quit: true, ..s } && e == Effect::Nothing
}

/// Enter on the main menu.
pub open spec fn toggle_main(s: AppState, f: HostFacts, r: AppState, e: Effect) -> bool {
    match s.nav.main_menu {
        MainMenuState::Interface => interface_case(s, r, e),
        MainMenuState::BackendSettings => backend_case(s, r, e),
        MainMenuState::IpsetMode => ipset_case(s, r, e),
        MainMenuState::ListsEditor => lists_case(s, f, r, e),
        MainMenuState::Run => run_case(s, f, r, e),
        MainMenuState::Quit => quit_case(s, r, e),
        _ => main_open_case(s, r, e),
    }
}

fn next_backend(b: LinuxBackend) -> (r: LinuxBackend)
    ensures
        r == other_backend(b),
{
    let backends = LinuxBackend::variants();
    let mut current_idx: usize = 0;
    while current_idx < backends.len() && backends[current_idx] != b
        invariant
            backends@ == seq![LinuxBackend::Nftables, LinuxBackend::Iptables],
            current_idx <= 2,
            forall|k: int| 0 <= k < current_idx ==> backends@[k] != b,
        decreases 2 - current_idx,
    {
        current_idx += 1;
    }
    proof {
        if current_idx == 2 {
            assert(backends@[0] != b && backends@[1] != b);
            assert(false);
        }
        assert(backends@[current_idx as int] == b);
    }
    let new_idx = (current_idx + 1) % backends.len();
    backends[new_idx]
}

/// The screen and selection that Enter on a main menu item that only opens a
/// submenu leads to.
pub open spec fn main_opened(n: Navigation, selected_strategy: usize) -> Navigation {
    match n.main_menu {
        MainMenuState::DownloadDeps => Navigation { active_screen: ActiveScreen::DownloadDepsSubmenu, ..n },
        MainMenuState::Strategy => Navigation {
            active_screen: ActiveScreen::StrategySubmenu,
            strategy_menu_index: selected_strategy,
            ..n
        },
        MainMenuState::GamefilterSettings => Navigation {
            active_screen: ActiveScreen::GamefilterSubmenu,
            gamefilter_menu: GamefilterMenuState::Tcp,
            ..n
        },
        MainMenuState::Autotune => Navigation {
            active_screen: ActiveScreen::AutotuneSubmenu,
            autotune_menu_index: 0,
            autotune_menu: AutotuneMenuState::PresetSelection,
            ..n
        },
        _ => Navigation { active_screen: ActiveScreen::ServiceSubmenu, service_menu_index: 0, ..n },
    }
}

fn main_open_nav(n: Navigation, selected_strategy: usize) -> (r: Navigation)
    ensures
        r == main_opened(n, selected_strategy),
{
    match n.main_menu {
        MainMenuState::DownloadDeps => Navigation { active_screen: ActiveScreen::DownloadDepsSubmenu, ..n },
        MainMenuState::Strategy => Navigation {
            active_screen: ActiveScreen::StrategySubmenu,
            strategy_menu_index: selected_strategy,
            ..n
        },
        MainMenuState::GamefilterSettings => Navigation {
            active_screen: ActiveScreen::GamefilterSubmenu,
            gamefilter_menu: GamefilterMenuState::Tcp,
            ..n
        },
        MainMenuState::Autotune => Navigation {
            active_screen: ActiveScreen::AutotuneSubmenu,
            autotune_menu_index: 0,
            autotune_menu: AutotuneMenuState::PresetSelection,
            ..n
        },
        _ => Navigation { active_screen: ActiveScreen::ServiceSubmenu, service_menu_index: 0, ..n },
    }
}

/// Whether a main menu item only opens a submenu.
pub open spec fn opens_submenu(m: MainMenuState) -> bool {
    m == MainMenuState::DownloadDeps || m == MainMenuState::Strategy || m == MainMenuState::GamefilterSettings
        || m == MainMenuState::Autotune || m == MainMenuState::ServiceSettings
}

impl AppState {
    fn toggle_main_open(&mut self, facts: &HostFacts) -> (e: Effect)
        requires
            old(self).nav.active_screen == ActiveScreen::Main,
            opens_submenu(old(self).nav.main_menu),
        ensures
            toggle_main(*old(self), *facts, *final(self), e),
    {
        proof {
            reveal(main_open_case);
        }
        let item = self.nav.main_menu;
        let nav = main_open_nav(self.nav, self.selected_strategy);
        self.nav = nav;
        self.status_message = None;
        if item == MainMenuState::ServiceSettings {
            Effect::RefreshService
        } else {
            Effect::Nothing
        }
    }

    fn toggle_interface(&mut self) -> (e: Effect)
        requires
            old(self).wf(),
        ensures
            interface_case(*old(self), *final(self), e),
    {
        proof {
            reveal(interface_case);
        }
        if self.interfaces.len() > 0 {
            proof {
                state::lemma_wrap(self.selected_interface as int, self.interfaces@.len() as int);
            }
            self.selected_interface = (self.selected_interface + 1) % self.interfaces.len();
            Effect::SaveConfig
        } else {
            Effect::Nothing
        }
    }

    fn toggle_backend(&mut self) -> (e: Effect)
        ensures
            backend_case(*old(self), *final(self), e),
    {
        proof {
            reveal(backend_case);
        }
        self.selected_backend = next_backend(self.selected_backend);
        Effect::SaveConfig
    }

    fn toggle_ipset(&mut self) -> (e: Effect)
        requires
            old(self).wf(),
        ensures
            ipset_case(*old(self), *final(self), e),
    {
        proof {
            reveal(ipset_case);
        }
        if self.available_ipset_modes.len() > 0 {
            self.step_ipset(true)
        } else {
            Effect::Nothing
        }
    }

    fn toggle_lists(&mut self, facts: &HostFacts) -> (e: Effect)
        ensures
            lists_case(*old(self), *facts, *final(self), e),
    {
        proof {
            reveal(lists_case);
        }
        if facts.strategies_installed {
            Effect::LoadListsFiles
        } else {
            self.show_error("no strategies found");
            Effect::Nothing
        }
    }

    fn toggle_run(&mut self, facts: &HostFacts) -> (e: Effect)
        ensures
            run_case(*old(self), *facts, *final(self), e),
    {
        proof {
            reveal(run_case);
        }
        if self.check_dependencies(facts.nfqws_installed, facts.strategies_installed) {
            self.should_run = true;
        }
        Effect::Nothing
    }

    fn toggle_quit(&mut self) -> (e: Effect)
        ensures
            quit_case(*old(self), *final(self), e),
    {
        proof {
            reveal(quit_case);
        }
        self.should_quit = true;
        Effect::Nothing
    }

    fn toggle_main_menu(&mut self, facts: &HostFacts) -> (e: Effect)
        requires
            old(self).wf(),
            old(self).nav.active_screen == ActiveScreen::Main,
        ensures
            toggle_main(*old(self), *facts, *final(self), e),
    {
        match self.nav.main_menu {
            MainMenuState::Interface => self.toggle_interface(),
            MainMenuState::BackendSettings => self.toggle_backend(),
            MainMenuState::IpsetMode => self.toggle_ipset(),
            MainMenuState::ListsEditor => self.toggle_lists(facts),
            MainMenuState::Run => self.toggle_run(facts),
            MainMenuState::Quit => self.toggle_quit(),
            _ => self.toggle_main_open(facts),
        }
    }
}

/// `r` is `s` on another screen or selection, with the status line cleared.
#[verifier::opaque]
pub open spec fn moved(s: AppState, n: Navigation, r: AppState) -> bool {
    r == AppState { nav: n, status_message: Option::None, ..s }
}

/// `r` is `s` with only the status line changed, to `msg`.
#[verifier::opaque]
pub open spec fn says(s: AppState, msg: Option<Seq<char>>, r: AppState) -> bool {
    becomes(s, msg, r)
}

/// `s` on another screen.
pub open spec fn screen(s: AppState, sc: ActiveScreen) -> Navigation {
    Navigation { active_screen: sc, ..s.nav }
}

impl AppState {
    fn move_to(&mut self, n: Navigation)
        ensures
            moved(*old(self), n, *final(self)),
    {
        proof {
            reveal(moved);
        }
        self.nav = n;
        self.status_message = None;
    }

    fn say(&mut self, msg: &str)
        ensures
            says(*old(self), Option::Some(msg@), *final(self)),
    {
        proof {
            reveal(says);
        }
        self.status_message = text(msg);
    }

    fn say_error(&mut self, msg: &str)
        ensures
            says(*old(self), error_line(msg@), *final(self)),
    {
        proof {
            reveal(says);
        }
        self.status_message = error_message(msg);
    }
}

/// Enter on the strategy list: the strategy under the cursor becomes the one
/// in use and is saved, and the main menu returns saying so; on "back" the
/// main menu returns.
#[verifier::opaque]
pub open spec fn strategy_pick_case(s: AppState, r: AppState, e: Effect) -> bool {
    let i = s.nav.strategy_menu_index;
    if i < s.strategies@.len() {
        &&& becomes(
            AppState { selected_strategy: i, nav: screen(s, ActiveScreen::Main), ..s },
            Option::Some("Strategy selected: "@ + s.strategies@[i as int]@),
            r,
        )
        &&& e == Effect::SaveConfig
    } else {
        moved(s, screen(s, ActiveScreen::Main), r) && e == Effect::Nothing
    }
}

/// A request flag raised.
#[verifier::opaque]
pub open spec fn requested(s: AppState, flag: Request, r: AppState) -> bool {
    match flag {
        Request::DownloadDefaults => r == AppState { should_download_defaults: true, ..s },
        Request::DownloadZapret => r == AppState { should_download_zapret: true, ..s },
        Request::DownloadStrategies => r == AppState { should_download_strategies: true, ..s },
        Request::RunAutotune => r == AppState { should_run_autotune: true, ..s },
    }
}

/// The requests the main loop acts on after a key press.
#[derive(Debug, Clone, Copy, PartialEq, Eq, Structural)]
pub enum Request {
    DownloadDefaults,
    DownloadZapret,
    DownloadStrategies,
    RunAutotune,
}

impl AppState {
    fn raise(&mut self, flag: Request)
        ensures
            requested(*old(self), flag, *final(self)),
    {
        proof {
            reveal(requested);
        }
        match flag {
            Request::DownloadDefaults => self.should_download_defaults = true,
            Request::DownloadZapret => self.should_download_zapret = true,
            Request::DownloadStrategies => self.should_download_strategies = true,
            Request::RunAutotune => self.should_run_autotune = true,
        }
    }

    fn toggle_strategy_pick(&mut self) -> (e: Effect)
        requires
            old(self).wf(),
        ensures
            strategy_pick_case(*old(self), *final(self), e),
    {
        proof {
            reveal(strategy_pick_case);
        }
        let i = self.nav.strategy_menu_index;
        if i < self.strategies.len() {
            let msg = String::from_str("Strategy selected: ").concat(self.strategies[i].as_str());
            let nav = Navigation { active_screen: ActiveScreen::Main, ..self.nav };
            self.selected_strategy = i;
            self.nav = nav;
            self.status_message = Some(msg);
            Effect::SaveConfig
        } else {
            let nav = Navigation { active_screen: ActiveScreen::Main, ..self.nav };
            self.move_to(nav);
            Effect::Nothing
        }
    }
}

/// Enter on the download menu: the zapret and strategies menus open at their
/// first item; the defaults are requested; "back" returns to the main menu.
pub open spec fn toggle_deps(s: AppState, r: AppState, e: Effect) -> bool {
    &&& e == Effect::Nothing
    &&& match s.nav.download_deps_menu {
        DownloadDepsMenuState::ZapretDownloader => moved(
            s,
            Navigation {
                active_screen: ActiveScreen::DownloadZapretSubmenu,
                download_zapret_menu: DownloadSubmenuState::Version,
                ..s.nav
            },
            r,
        ),
        DownloadDepsMenuState::StrategiesDownloader => moved(
            s,
            Navigation {
                active_screen: ActiveScreen::DownloadStrategiesSubmenu,
                download_strategies_menu: DownloadSubmenuState::Version,
                ..s.nav
            },
            r,
        ),
        DownloadDepsMenuState::DownloadDefaults => requested(s, Request::DownloadDefaults, r),
        DownloadDepsMenuState::Back => moved(s, screen(s, ActiveScreen::Main), r),
    }
}

/// The version target of a download menu after a cycle.
#[verifier::opaque]
pub open spec fn retargeted(s: AppState, src: TagSource, forward: bool, r: AppState) -> bool {
    match src {
        TagSource::Zapret => r == AppState { nfqws_target: menus::cycled(s.nfqws_target, forward), ..s },
        TagSource::Strategies => r == AppState { strat_target: menus::cycled(s.strat_target, forward), ..s },
    }
}

/// Enter on the zapret or strategies download menu: the version cycles; the
/// tags are fetched (saying so meanwhile); the download is requested; "back"
/// returns to the download menu.
pub open spec fn toggle_download(s: AppState, src: TagSource, r: AppState, e: Effect) -> bool {
    let item = match src {
        TagSource::Zapret => s.nav.download_zapret_menu,
        TagSource::Strategies => s.nav.download_strategies_menu,
    };
    match item {
        DownloadSubmenuState::Version => retargeted(s, src, true, r) && e == Effect::Nothing,
        DownloadSubmenuState::SelectTag => says(s, Option::Some(fetching_msg(src)), r) && e == Effect::FetchTags(src),
        DownloadSubmenuState::Start => requested(
            s,
            if src == TagSource::Zapret { Request::DownloadZapret } else { Request::DownloadStrategies },
            r,
        ) && e == Effect::Nothing,
        DownloadSubmenuState::Back => moved(s, screen(s, ActiveScreen::DownloadDepsSubmenu), r) && e == Effect::Nothing,
    }
}

/// The status line while tags are fetched.
pub open spec fn fetching_msg(src: TagSource) -> Seq<char> {
    match src {
        TagSource::Zapret => "Fetching zapret tags..."@,
        TagSource::Strategies => "Fetching strategies tags..."@,
    }
}

/// The status line after a tag was chosen.
pub open spec fn tag_chosen_msg(src: TagSource) -> Seq<char> {
    match src {
        TagSource::Zapret => "zapret version selected"@,
        TagSource::Strategies => "strategies version selected"@,
    }
}

fn tag_at(tags: &Vec<String>, i: usize) -> (t: VersionTarget)
    requires
        i < tags@.len(),
    ensures
        t == VersionTarget::Tag(tags@[i as int]),
{
    VersionTarget::Tag(tags[i].clone())
}

/// Enter on the zapret tag list: the tag under the cursor becomes the
/// version to download and the zapret download menu returns, saying so; on
/// "back" the menu returns.
#[verifier::opaque]
pub open spec fn zapret_tag_pick(s: AppState, r: AppState) -> bool {
    let nav = screen(s, ActiveScreen::DownloadZapretSubmenu);
    let i = s.nav.nfqws_tag_index;
    if i < s.available_nfqws_tags@.len() {
        becomes(
            AppState { nfqws_target: VersionTarget::Tag(s.available_nfqws_tags@[i as int]), nav, ..s },
            Option::Some(tag_chosen_msg(TagSource::Zapret)),
            r,
        )
    } else {
        r == AppState { nav, status_message: Option::None, ..s }
    }
}

/// Enter on the strategies tag list, as [`zapret_tag_pick`].
#[verifier::opaque]
pub open spec fn strat_tag_pick(s: AppState, r: AppState) -> bool {
    let nav = screen(s, ActiveScreen::DownloadStrategiesSubmenu);
    let i = s.nav.strat_tag_index;
    if i < s.available_strat_tags@.len() {
        becomes(
            AppState { strat_target: VersionTarget::Tag(s.available_strat_tags@[i as int]), nav, ..s },
            Option::Some(tag_chosen_msg(TagSource::Strategies)),
            r,
        )
    } else {
        r == AppState { nav, status_message: Option::None, ..s }
    }
}

impl AppState {
    fn toggle_deps_menu(&mut self) -> (e: Effect)
        requires
            old(self).nav.active_screen == ActiveScreen::DownloadDepsSubmenu,
        ensures
            toggle_deps(*old(self), *final(self), e),
    {
        match self.nav.download_deps_menu {
            DownloadDepsMenuState::ZapretDownloader => {
                let nav = Navigation {
                    active_screen: ActiveScreen::DownloadZapretSubmenu,
                    download_zapret_menu: DownloadSubmenuState::Version,
                    ..self.nav
                };
                self.move_to(nav);
            },
            DownloadDepsMenuState::StrategiesDownloader => {
                let nav = Navigation {
                    active_screen: ActiveScreen::DownloadStrategiesSubmenu,
                    download_strategies_menu: DownloadSubmenuState::Version,
                    ..self.nav
                };
                self.move_to(nav);
            },
            DownloadDepsMenuState::DownloadDefaults => self.raise(Request::DownloadDefaults),
            DownloadDepsMenuState::Back => {
                let nav = Navigation { active_screen: ActiveScreen::Main, ..self.nav };
                self.move_to(nav);
            },
        }
        Effect::Nothing
    }

    fn retarget(&mut self, src: TagSource, forward: bool)
        ensures
            retargeted(*old(self), src, forward, *final(self)),
    {
        proof {
            reveal(retargeted);
        }
        match src {
            TagSource::Zapret => self.nfqws_target = self.nfqws_target.cycle(forward),
            TagSource::Strategies => self.strat_target = self.strat_target.cycle(forward),
        }
    }

    fn toggle_download_menu(&mut self, src: TagSource) -> (e: Effect)
        ensures
            toggle_download(*old(self), src, *final(self), e),
    {
        let item = match src {
            TagSource::Zapret => self.nav.download_zapret_menu,
            TagSource::Strategies => self.nav.download_strategies_menu,
        };
        match item {
            DownloadSubmenuState::Version => {
                self.retarget(src, true);
                Effect::Nothing
            },
            DownloadSubmenuState::SelectTag => {
                match src {
                    TagSource::Zapret => self.say("Fetching zapret tags..."),
                    TagSource::Strategies => self.say("Fetching strategies tags..."),
                }
                Effect::FetchTags(src)
            },
            DownloadSubmenuState::Start => {
                match src {
                    TagSource::Zapret => self.raise(Request::DownloadZapret),
                    TagSource::Strategies => self.raise(Request::DownloadStrategies),
                }
                Effect::Nothing
            },
            DownloadSubmenuState::Back => {
                let nav = Navigation { active_screen: ActiveScreen::DownloadDepsSubmenu, ..self.nav };
                self.move_to(nav);
                Effect::Nothing
            },
        }
    }

    fn set_zapret_tag(&mut self)
        requires
            old(self).nav.nfqws_tag_index < old(self).available_nfqws_tags@.len(),
        ensures
            becomes(
                AppState {
                    nfqws_target: VersionTarget::Tag(old(self).available_nfqws_tags@[old(self).nav.nfqws_tag_index as int]),
                    nav: screen(*old(self), ActiveScreen::DownloadZapretSubmenu),
                    ..*old(self)
                },
                Option::Some("zapret version selected"@),
                *final(self),
            ),
    {
        let t = tag_at(&self.available_nfqws_tags, self.nav.nfqws_tag_index);
        let nav = Navigation { active_screen: ActiveScreen::DownloadZapretSubmenu, ..self.nav };
        self.nfqws_target = t;
        self.nav = nav;
        self.status_message = text("zapret version selected");
    }

    fn set_strat_tag(&mut self)
        requires
            old(self).nav.strat_tag_index < old(self).available_strat_tags@.len(),
        ensures
            becomes(
                AppState {
                    strat_target: VersionTarget::Tag(old(self).available_strat_tags@[old(self).nav.strat_tag_index as int]),
                    nav: screen(*old(self), ActiveScreen::DownloadStrategiesSubmenu),
                    ..*old(self)
                },
                Option::Some("strategies version selected"@),
                *final(self),
            ),
    {
        let t = tag_at(&self.available_strat_tags, self.nav.strat_tag_index);
        let nav = Navigation { active_screen: ActiveScreen::DownloadStrategiesSubmenu, ..self.nav };
        self.strat_target = t;
        self.nav = nav;
        self.status_message = text("strategies version selected");
    }

    fn toggle_zapret_tag(&mut self)
        ensures
            zapret_tag_pick(*old(self), *final(self)),
    {
        proof {
            reveal(zapret_tag_pick);
            reveal(moved);
        }
        if self.nav.nfqws_tag_index < self.available_nfqws_tags.len() {
            self.set_zapret_tag();
        } else {
            let nav = Navigation { active_screen: ActiveScreen::DownloadZapretSubmenu, ..self.nav };
            self.move_to(nav);
        }
    }

    fn toggle_strat_tag(&mut self)
        ensures
            strat_tag_pick(*old(self), *final(self)),
    {
        proof {
            reveal(strat_tag_pick);
            reveal(moved);
        }
        if self.nav.strat_tag_index < self.available_strat_tags.len() {
            self.set_strat_tag();
        } else {
            let nav = Navigation { active_screen: ActiveScreen::DownloadStrategiesSubmenu, ..self.nav };
            self.move_to(nav);
        }
    }
}

/// One of the game filters flipped.
#[verifier::opaque]
pub open spec fn gamefilter_flipped(s: AppState, tcp: bool, r: AppState) -> bool {
    if tcp {
        r == AppState { tcp_gamefilter: !s.tcp_gamefilter, ..s }
    } else {
        r == AppState { udp_gamefilter: !s.udp_gamefilter, ..s }
    }
}

/// Enter on the game-filter menu: the filter under the cursor flips and is
/// saved; "back" returns to the main menu.
pub open spec fn toggle_gamefilter(s: AppState, r: AppState, e: Effect) -> bool {
    match s.nav.gamefilter_menu {
        GamefilterMenuState::Tcp => gamefilter_flipped(s, true, r) && e == Effect::SaveConfig,
        GamefilterMenuState::Udp => gamefilter_flipped(s, false, r) && e == Effect::SaveConfig,
        GamefilterMenuState::Back => moved(s, screen(s, ActiveScreen::Main), r) && e == Effect::Nothing,
    }
}

/// A service operation that needs the dependencies: they are recorded; with
/// both installed the operation is asked for, else the status line says
/// which are missing.
#[verifier::opaque]
pub open spec fn service_with_deps(s: AppState, f: HostFacts, a: ServiceAction, r: AppState, e: Effect) -> bool {
    let ok = f.nfqws_installed && f.strategies_installed;
    &&& becomes(
        AppState { nfqws_installed: f.nfqws_installed, strategies_installed: f.strategies_installed, ..s },
        if ok { opt_text(s.status_message) } else { error_line(missing_deps_msg(f.nfqws_installed, f.strategies_installed)) },
        r,
    )
    &&& e == if ok { Effect::Service(a) } else { Effect::Nothing }
}

/// Enter on the service menu. Without a detected init system the status line
/// says so. Without a service: install (and start), back. With a running
/// service: stop, restart, remove, back. With a stopped one: start, remove,
/// back. Installing and restarting need the dependencies.
pub open spec fn toggle_service(s: AppState, f: HostFacts, r: AppState, e: Effect) -> bool {
    let i = s.nav.service_menu_index;
    let back = moved(s, screen(s, ActiveScreen::Main), r) && e == Effect::Nothing;
    let ask = |a: ServiceAction| r == s && e == Effect::Service(a);
    let idle = r == s && e == Effect::Nothing;
    if !f.init_system_found {
        says(s, Option::Some("no supported init system found"@), r) && e == Effect::Nothing
    } else if !s.service_installed {
        if i == 0 {
            service_with_deps(s, f, ServiceAction::InstallAndStart, r, e)
        } else if i == 1 {
            back
        } else {
            idle
        }
    } else if s.service_active {
        if i == 0 {
            ask(ServiceAction::Stop)
        } else if i == 1 {
            service_with_deps(s, f, ServiceAction::Restart, r, e)
        } else if i == 2 {
            ask(ServiceAction::Uninstall)
        } else if i == 3 {
            back
        } else {
            idle
        }
    } else {
        if i == 0 {
            ask(ServiceAction::Start)
        } else if i == 1 {
            ask(ServiceAction::Uninstall)
        } else if i == 2 {
            back
        } else {
            idle
        }
    }
}

/// The file opened in the editor.
#[verifier::opaque]
pub open spec fn editor_opened(s: AppState, file: String, r: AppState) -> bool {
    r == AppState { should_open_editor: Option::Some(file), ..s }
}

/// Enter on the lists editor: the file under the cursor is to be opened;
/// "back" returns to the main menu.
pub open spec fn lists_pick(s: AppState, r: AppState) -> bool {
    let i = s.nav.lists_menu_index;
    if i < s.lists_files@.len() {
        editor_opened(s, s.lists_files@[i as int], r)
    } else {
        moved(s, screen(s, ActiveScreen::Main), r)
    }
}

impl AppState {
    fn flip_gamefilter(&mut self, tcp: bool)
        ensures
            gamefilter_flipped(*old(self), tcp, *final(self)),
    {
        proof {
            reveal(gamefilter_flipped);
        }
        if tcp {
            self.tcp_gamefilter = !self.tcp_gamefilter;
        } else {
            self.udp_gamefilter = !self.udp_gamefilter;
        }
    }

    fn toggle_gamefilter_menu(&mut self) -> (e: Effect)
        ensures
            toggle_gamefilter(*old(self), *final(self), e),
    {
        match self.nav.gamefilter_menu {
            GamefilterMenuState::Tcp => {
                self.flip_gamefilter(true);
                Effect::SaveConfig
            },
            GamefilterMenuState::Udp => {
                self.flip_gamefilter(false);
                Effect::SaveConfig
            },
            GamefilterMenuState::Back => {
                let nav = Navigation { active_screen: ActiveScreen::Main, ..self.nav };
                self.move_to(nav);
                Effect::Nothing
            },
        }
    }

    fn service_after_deps(&mut self, facts: &HostFacts, a: ServiceAction) -> (e: Effect)
        ensures
            service_with_deps(*old(self), *facts, a, *final(self), e),
    {
        proof {
            reveal(service_with_deps);
        }
        if self.check_dependencies(facts.nfqws_installed, facts.strategies_installed) {
            Effect::Service(a)
        } else {
            Effect::Nothing
        }
    }

    fn toggle_service_menu(&mut self, facts: &HostFacts) -> (e: Effect)
        ensures
            toggle_service(*old(self), *facts, *final(self), e),
    {
        let i = self.nav.service_menu_index;
        let back = Navigation { active_screen: ActiveScreen::Main, ..self.nav };
        if !facts.init_system_found {
            self.say("no supported init system found");
            Effect::Nothing
        } else if !self.service_installed {
            if i == 0 {
                self.service_after_deps(facts, ServiceAction::InstallAndStart)
            } else if i == 1 {
                self.move_to(back);
                Effect::Nothing
            } else {
                Effect::Nothing
            }
        } else if self.service_active {
            if i == 0 {
                Effect::Service(ServiceAction::Stop)
            } else if i == 1 {
                self.service_after_deps(facts, ServiceAction::Restart)
            } else if i == 2 {
                Effect::Service(ServiceAction::Uninstall)
            } else if i == 3 {
                self.move_to(back);
                Effect::Nothing
            } else {
                Effect::Nothing
            }
        } else {
            if i == 0 {
                Effect::Service(ServiceAction::Start)
            } else if i == 1 {
                Effect::Service(ServiceAction::Uninstall)
            } else if i == 2 {
                self.move_to(back);
                Effect::Nothing
            } else {
                Effect::Nothing
            }
        }
    }

    fn open_in_editor(&mut self, file: &String)
        ensures
            editor_opened(*old(self), *file, *final(self)),
    {
        proof {
            reveal(editor_opened);
        }
        self.should_open_editor = Some(file.clone());
    }

    fn toggle_lists_menu(&mut self) -> (e: Effect)
        ensures
            lists_pick(*old(self), *final(self)),
            e == Effect::Nothing,
    {
        let i = self.nav.lists_menu_index;
        if i < self.lists_files.len() {
            let file = self.lists_files[i].clone();
            self.open_in_editor(&file);
        } else {
            let nav = Navigation { active_screen: ActiveScreen::Main, ..self.nav };
            self.move_to(nav);
        }
        Effect::Nothing
    }
}

/// Enter on the autotune menu: the strategy, protocol, block-check and
/// results screens open at their first item (the strategy screen needs
/// strategies); "edit custom" opens the custom domain list in the editor;
/// "run" is asked for unless nfqws is already running; "back" returns to the
/// main menu; the preset and request-count items do nothing on Enter.
pub open spec fn toggle_autotune(s: AppState, f: HostFacts, r: AppState, e: Effect) -> bool {
    let n = s.nav;
    &&& e == Effect::Nothing
    &&& match n.autotune_menu {
        AutotuneMenuState::PresetSelection => r == s,
        AutotuneMenuState::NumRequests => r == s,
        AutotuneMenuState::Strategies => if s.strategies@.len() > 0 {
            moved(
                s,
                Navigation { active_screen: ActiveScreen::AutotuneStrategiesSubmenu, autotune_strat_index: 0, ..n },
                r,
            )
        } else {
            says(s, error_line("no strategies found"@), r)
        },
        AutotuneMenuState::Protocols => moved(
            s,
            Navigation {
                active_screen: ActiveScreen::AutotuneProtocolsSubmenu,
                autotune_protocols_menu: AutotuneProtocolsState::Http,
                ..n
            },
            r,
        ),
        AutotuneMenuState::BlockChecks => moved(
            s,
            Navigation {
                active_screen: ActiveScreen::AutotuneBlockChecksSubmenu,
                autotune_block_checks_menu: AutotuneBlockChecksState::DnsSpoof,
                ..n
            },
            r,
        ),
        AutotuneMenuState::EditCustom => editor_opened(s, f.custom_domains_path, r),
        AutotuneMenuState::Results => moved(
            s,
            Navigation { active_screen: ActiveScreen::AutotuneResultsSubmenu, autotune_results_index: 0, ..n },
            r,
        ),
        AutotuneMenuState::Run => if f.nfqws_running {
            says(s, Option::Some("nfqws is already running; stop it before the autotune"@), r)
        } else {
            requested(s, Request::RunAutotune, r)
        },
        AutotuneMenuState::Back => moved(s, screen(s, ActiveScreen::Main), r),
    }
}

/// The configuration with one protocol check flipped.
pub open spec fn protocol_flipped(c: autotune::AutotuneConfig, p: AutotuneProtocolsState) -> autotune::AutotuneConfig {
    match p {
        AutotuneProtocolsState::Http => autotune::AutotuneConfig { check_http: !c.check_http, ..c },
        AutotuneProtocolsState::Https => autotune::AutotuneConfig { check_https: !c.check_https, ..c },
        AutotuneProtocolsState::Tls12 => autotune::AutotuneConfig { check_tls12: !c.check_tls12, ..c },
        AutotuneProtocolsState::Tls13 => autotune::AutotuneConfig { check_tls13: !c.check_tls13, ..c },
        AutotuneProtocolsState::Quic => autotune::AutotuneConfig { check_quic: !c.check_quic, ..c },
        AutotuneProtocolsState::Back => c,
    }
}

fn flip_protocol(c: &mut autotune::AutotuneConfig, p: AutotuneProtocolsState)
    ensures
        *final(c) == protocol_flipped(*old(c), p),
{
    match p {
        AutotuneProtocolsState::Http => c.check_http = !c.check_http,
        AutotuneProtocolsState::Https => c.check_https = !c.check_https,
        AutotuneProtocolsState::Tls12 => c.check_tls12 = !c.check_tls12,
        AutotuneProtocolsState::Tls13 => c.check_tls13 = !c.check_tls13,
        AutotuneProtocolsState::Quic => c.check_quic = !c.check_quic,
        AutotuneProtocolsState::Back => {},
    }
}

/// The configuration changed.
#[verifier::opaque]
pub open spec fn configured(s: AppState, c: autotune::AutotuneConfig, r: AppState) -> bool {
    r == AppState { autotune_config: c, ..s }
}

/// Enter on the protocol menu: the protocol check under the cursor flips;
/// "back" returns to the autotune menu.
pub open spec fn toggle_protocols(s: AppState, r: AppState, e: Effect) -> bool {
    &&& e == Effect::Nothing
    &&& if s.nav.autotune_protocols_menu == AutotuneProtocolsState::Back {
        moved(s, screen(s, ActiveScreen::AutotuneSubmenu), r)
    } else {
        configured(s, protocol_flipped(s.autotune_config, s.nav.autotune_protocols_menu), r)
    }
}

/// The position of a block check in [`autotune::BlockCheckType::all`].
pub open spec fn check_index(m: AutotuneBlockChecksState) -> int {
    match m {
        AutotuneBlockChecksState::DnsSpoof => 0,
        AutotuneBlockChecksState::TcpRst => 1,
        AutotuneBlockChecksState::SniBlock => 2,
        AutotuneBlockChecksState::SiberianBlock => 3,
        AutotuneBlockChecksState::QuicBlock => 4,
        AutotuneBlockChecksState::CidrWhitelist => 5,
        AutotuneBlockChecksState::Back => 6,
    }
}

/// Block check `k` flipped (where there is one).
#[verifier::opaque]
pub open spec fn check_flipped(s: AppState, k: int, r: AppState) -> bool {
    let before = s.autotune_config.block_checks.enabled@;
    &&& r.autotune_config.block_checks.enabled@ == if 0 <= k < before.len() {
        before.update(k, !before[k])
    } else {
        before
    }
    &&& r == AppState {
        autotune_config: autotune::AutotuneConfig { block_checks: r.autotune_config.block_checks, ..s.autotune_config },
        ..s
    }
}

/// Enter on the block-check menu: the check under the cursor flips; "back"
/// returns to the autotune menu.
pub open spec fn toggle_checks(s: AppState, r: AppState, e: Effect) -> bool {
    &&& e == Effect::Nothing
    &&& if s.nav.autotune_block_checks_menu == AutotuneBlockChecksState::Back {
        moved(s, screen(s, ActiveScreen::AutotuneSubmenu), r)
    } else {
        check_flipped(s, check_index(s.nav.autotune_block_checks_menu), r)
    }
}

impl AppState {
    fn toggle_autotune_menu(&mut self, facts: &HostFacts) -> (e: Effect)
        ensures
            toggle_autotune(*old(self), *facts, *final(self), e),
    {
        let n = self.nav;
        match n.autotune_menu {
            AutotuneMenuState::PresetSelection => {},
            AutotuneMenuState::NumRequests => {},
            AutotuneMenuState::Strategies => {
                if self.strategies.len() > 0 {
                    self.move_to(
                        Navigation {
                            active_screen: ActiveScreen::AutotuneStrategiesSubmenu,
                            autotune_strat_index: 0,
                            ..n
                        },
                    );
                } else {
                    self.say_error("no strategies found");
                }
            },
            AutotuneMenuState::Protocols => {
                self.move_to(
                    Navigation {
                        active_screen: ActiveScreen::AutotuneProtocolsSubmenu,
                        autotune_protocols_menu: AutotuneProtocolsState::Http,
                        ..n
                    },
                );
            },
            AutotuneMenuState::BlockChecks => {
                self.move_to(
                    Navigation {
                        active_screen: ActiveScreen::AutotuneBlockChecksSubmenu,
                        autotune_block_checks_menu: AutotuneBlockChecksState::DnsSpoof,
                        ..n
                    },
                );
            },
            AutotuneMenuState::EditCustom => {
                self.open_in_editor(&facts.custom_domains_path);
            },
            AutotuneMenuState::Results => {
                self.move_to(
                    Navigation {
                        active_screen: ActiveScreen::AutotuneResultsSubmenu,
                        autotune_results_index: 0,
                        ..n
                    },
                );
            },
            AutotuneMenuState::Run => {
                if facts.nfqws_running {
                    self.say("nfqws is already running; stop it before the autotune");
                } else {
                    self.raise(Request::RunAutotune);
                }
            },
            AutotuneMenuState::Back => {
                self.move_to(Navigation { active_screen: ActiveScreen::Main, ..n });
            },
        }
        Effect::Nothing
    }

    fn set_protocols(&mut self, p: AutotuneProtocolsState)
        ensures
            configured(*old(self), protocol_flipped(old(self).autotune_config, p), *final(self)),
    {
        proof {
            reveal(configured);
        }
        flip_protocol(&mut self.autotune_config, p);
    }

    fn toggle_protocols_menu(&mut self) -> (e: Effect)
        ensures
            toggle_protocols(*old(self), *final(self), e),
    {
        let p = self.nav.autotune_protocols_menu;
        if p == AutotuneProtocolsState::Back {
            let nav = Navigation { active_screen: ActiveScreen::AutotuneSubmenu, ..self.nav };
            self.move_to(nav);
        } else {
            self.set_protocols(p);
        }
        Effect::Nothing
    }

    fn flip_check(&mut self, k: usize)
        ensures
            check_flipped(*old(self), k as int, *final(self)),
    {
        proof {
            reveal(check_flipped);
        }
        let v = self.autotune_config.block_checks.get(k);
        self.autotune_config.block_checks.set(k, !v);
    }

    fn toggle_checks_menu(&mut self) -> (e: Effect)
        ensures
            toggle_checks(*old(self), *final(self), e),
    {
        let m = self.nav.autotune_block_checks_menu;
        let k: usize = match m {
            AutotuneBlockChecksState::DnsSpoof => 0,
            AutotuneBlockChecksState::TcpRst => 1,
            AutotuneBlockChecksState::SniBlock => 2,
            AutotuneBlockChecksState::SiberianBlock => 3,
            AutotuneBlockChecksState::QuicBlock => 4,
            AutotuneBlockChecksState::CidrWhitelist => 5,
            AutotuneBlockChecksState::Back => 6,
        };
        if m == AutotuneBlockChecksState::Back {
            let nav = Navigation { active_screen: ActiveScreen::AutotuneSubmenu, ..self.nav };
            self.move_to(nav);
        } else {
            self.flip_check(k);
        }
        Effect::Nothing
    }
}

/// Every element is smaller than the ones after it.
pub open spec fn strictly_increasing(s: Seq<usize>) -> bool {
    forall|i: int, j: int| 0 <= i < j < s.len() ==> s[i] < s[j]
}

/// Whether `x` is selected after selecting `idx`, or deselecting it where it
/// was selected.
pub open spec fn selected_after(before: Seq<usize>, idx: usize, x: usize) -> bool {
    if before.contains(idx) {
        before.contains(x) && x != idx
    } else {
        before.contains(x) || x == idx
    }
}

/// The names of the built-in presets among the given indices, in order.
pub open spec fn known_names(ixs: Seq<usize>) -> Seq<Seq<char>>
    decreases ixs.len(),
{
    if ixs.len() == 0 {
        seq![]
    } else {
        let rest = known_names(ixs.drop_last());
        if ixs.last() < autotune::preset_count() {
            rest.push(autotune::preset_name(ixs.last() as int))
        } else {
            rest
        }
    }
}

/// The list of selected presets shown in the status line.
pub open spec fn preset_label(ixs: Seq<usize>) -> Seq<char> {
    let names = known_names(ixs);
    if names.len() == 0 {
        "none"@
    } else {
        crate::text::join(names, ", "@)
    }
}

/// The preset `idx` selected or deselected: the selection stays in ascending
/// order without repeats, and the status line lists the selected presets.
#[verifier::opaque]
pub open spec fn preset_toggled(s: AppState, idx: usize, r: AppState) -> bool {
    let before = s.autotune_config.preset_indices@;
    let after = r.autotune_config.preset_indices@;
    &&& strictly_increasing(after)
    &&& forall|x: usize| after.contains(x) <==> selected_after(before, idx, x)
    &&& opt_text(r.status_message) == Option::Some("Presets: "@ + preset_label(after))
    &&& r == AppState {
        autotune_config: autotune::AutotuneConfig { preset_indices: r.autotune_config.preset_indices, ..s.autotune_config },
        status_message: r.status_message,
        ..s
    }
}

/// Enter on the preset list: the preset under the cursor is selected or
/// deselected; "back" returns to the autotune menu.
pub open spec fn toggle_presets(s: AppState, r: AppState, e: Effect) -> bool {
    let i = s.nav.autotune_preset_index;
    &&& e == Effect::Nothing
    &&& if i >= autotune::preset_count() {
        moved(s, screen(s, ActiveScreen::AutotuneSubmenu), r)
    } else {
        preset_toggled(s, i, r)
    }
}

/// The position of the first `x` in `s` (its length where there is none).
pub open spec fn position_of(s: Seq<usize>, x: usize) -> int
    decreases s.len(),
{
    if s.len() == 0 {
        0
    } else if s[0] == x {
        0
    } else {
        1 + position_of(s.drop_first(), x)
    }
}

/// The strategy `idx` selected (appended) or deselected (its first
/// occurrence removed).
#[verifier::opaque]
pub open spec fn strategy_toggled(s: AppState, idx: usize, r: AppState) -> bool {
    let before = s.autotune_config.strategy_indices@;
    let p = position_of(before, idx);
    &&& r.autotune_config.strategy_indices@ == if p < before.len() {
        before.remove(p)
    } else {
        before.push(idx)
    }
    &&& r == AppState {
        autotune_config: autotune::AutotuneConfig { strategy_indices: r.autotune_config.strategy_indices, ..s.autotune_config },
        ..s
    }
}

/// Enter on the strategy list of the autotune: the strategy under the cursor
/// is selected or deselected; "back" returns to the autotune menu.
pub open spec fn toggle_strats(s: AppState, r: AppState, e: Effect) -> bool {
    let i = s.nav.autotune_strat_index;
    &&& e == Effect::Nothing
    &&& if i < s.strategies@.len() {
        strategy_toggled(s, i, r)
    } else {
        moved(s, screen(s, ActiveScreen::AutotuneSubmenu), r)
    }
}

pub(crate) fn contains_index(v: &Vec<usize>, x: usize) -> (b: bool)
    ensures
        b == v@.contains(x),
{
    let mut i: usize = 0;
    while i < v.len()
        invariant
            i <= v@.len(),
            forall|k: int| 0 <= k < i ==> v@[k] != x,
        decreases v.len() - i,
    {
        if v[i] == x {
            assert(v@[i as int] == x);
            return true;
        }
        i += 1;
    }
    false
}

fn insert_sorted_unique(r: &mut Vec<usize>, x: usize)
    requires
        strictly_increasing(old(r)@),
    ensures
        strictly_increasing(final(r)@),
        forall|y: usize| final(r)@.contains(y) <==> (old(r)@.contains(y) || y == x),
{
    let mut p: usize = 0;
    while p < r.len() && r[p] < x
        invariant
            r@ == old(r)@,
            strictly_increasing(r@),
            p <= r@.len(),
            forall|k: int| 0 <= k < p ==> r@[k] < x,
        decreases r.len() - p,
    {
        p += 1;
    }
    if p < r.len() && r[p] == x {
        assert(r@[p as int] == x);
        assert(r@.contains(x));
        return;
    }
    let ghost before = r@;
    assert(before == old(r)@);
    r.insert(p, x);
    proof {
        lemma_insert_contains(before, p as int, x);
        assert forall|i: int, j: int| 0 <= i < j < r@.len() implies r@[i] < r@[j] by {
            if j < p {
            } else if i < p && j == p {
            } else if i < p {
                assert(r@[j] == before[j - 1]);
                assert(before[p as int] > x);
            } else if i == p {
                assert(r@[j] == before[j - 1]);
                if j - 1 > p {
                    assert(before[p as int] < before[j - 1]);
                }
            } else {
                assert(r@[i] == before[i - 1] && r@[j] == before[j - 1]);
            }
        }
    }
}

proof fn lemma_insert_contains(s: Seq<usize>, p: int, x: usize)
    requires
        0 <= p <= s.len(),
    ensures
        forall|y: usize| s.insert(p, x).contains(y) <==> (s.contains(y) || y == x),
{
    broadcast use vstd::seq_lib::group_to_multiset_ensures;
    assert forall|y: usize| s.insert(p, x).contains(y) <==> (s.contains(y) || y == x) by {
        assert(s.insert(p, x).to_multiset() =~= s.to_multiset().insert(x));
        assert(s.insert(p, x).contains(y) <==> s.insert(p, x).to_multiset().count(y) > 0);
        assert(s.contains(y) <==> s.to_multiset().count(y) > 0);
    }
}

fn toggled_indices(v: &Vec<usize>, idx: usize) -> (r: Vec<usize>)
    ensures
        strictly_increasing(r@),
        forall|x: usize| r@.contains(x) <==> selected_after(v@, idx, x),
{
    let was = contains_index(v, idx);
    let mut r: Vec<usize> = Vec::new();
    let mut i: usize = 0;
    while i < v.len()
        invariant
            i <= v@.len(),
            was == v@.contains(idx),
            strictly_increasing(r@),
            forall|x: usize| r@.contains(x) <==> (v@.take(i as int).contains(x) && !(was && x == idx)),
        decreases v.len() - i,
    {
        let y = v[i];
        let ghost before = r@;
        if !(was && y == idx) {
            insert_sorted_unique(&mut r, y);
        }
        proof {
            assert(v@.take(i + 1) =~= v@.take(i as int).push(y));
            assert forall|x: usize| r@.contains(x) <==> (v@.take(i + 1).contains(x) && !(was && x == idx)) by {
                if v@.take(i + 1).contains(x) && !v@.take(i as int).contains(x) {
                    let k = choose|k: int| 0 <= k < i + 1 && #[trigger] v@.take(i + 1)[k] == x;
                    if k < i {
                        assert(v@.take(i as int)[k] == x);
                    }
                }
                if v@.take(i as int).contains(x) {
                    let k = choose|k: int| 0 <= k < i && #[trigger] v@.take(i as int)[k] == x;
                    assert(v@.take(i + 1)[k] == x);
                }
                if x == y {
                    assert(v@.take(i + 1)[i as int] == y);
                }
            }
        }
        i += 1;
    }
    assert(v@.take(v@.len() as int) =~= v@);
    if !was {
        insert_sorted_unique(&mut r, idx);
    }
    r
}

pub(crate) fn preset_label_text(ixs: &Vec<usize>) -> (t: String)
    ensures
        t@ == preset_label(ixs@),
{
    let mut names: Vec<Vec<char>> = Vec::new();
    let mut i: usize = 0;
    while i < ixs.len()
        invariant
            i <= ixs@.len(),
            names.deep_view() == known_names(ixs@.take(i as int)),
        decreases ixs.len() - i,
    {
        proof {
            assert(ixs@.take(i + 1).drop_last() =~= ixs@.take(i as int));
            assert(ixs@.take(i + 1).last() == ixs@[i as int]);
        }
        if ixs[i] < presets_len_exec() {
            let name = autotune::preset_name_of(ixs[i]);
            let chars = crate::text::to_chars(name.as_str());
            let ghost before = names.deep_view();
            assert(chars.deep_view() =~= chars@);
            names.push(chars);
            assert(names.deep_view() =~= before.push(chars@));
        }
        i += 1;
    }
    assert(ixs@.take(ixs@.len() as int) =~= ixs@);
    if names.len() == 0 {
        String::from_str("none")
    } else {
        let sep = crate::text::to_chars(", ");
        let joined = crate::text::join_chars(&names, sep.as_slice());
        crate::text::from_chars(&joined)
    }
}

fn presets_len_exec() -> (n: usize)
    ensures
        n == autotune::preset_count(),
{
    autotune::presets_len()
}

impl AppState {
    fn toggle_preset(&mut self, idx: usize)
        ensures
            preset_toggled(*old(self), idx, *final(self)),
    {
        proof {
            reveal(preset_toggled);
        }
        let v = toggled_indices(&self.autotune_config.preset_indices, idx);
        let label = preset_label_text(&v);
        let msg = String::from_str("Presets: ").concat(label.as_str());
        self.autotune_config.preset_indices = v;
        self.status_message = Some(msg);
    }

    fn toggle_presets_menu(&mut self) -> (e: Effect)
        ensures
            toggle_presets(*old(self), *final(self), e),
    {
        let idx = self.nav.autotune_preset_index;
        if idx >= presets_len_exec() {
            let nav = Navigation { active_screen: ActiveScreen::AutotuneSubmenu, ..self.nav };
            self.move_to(nav);
        } else {
            self.toggle_preset(idx);
        }
        Effect::Nothing
    }

    fn toggle_strategy(&mut self, idx: usize)
        ensures
            strategy_toggled(*old(self), idx, *final(self)),
    {
        proof {
            reveal(strategy_toggled);
        }
        let v = toggled_strategy_indices(&self.autotune_config.strategy_indices, idx);
        self.autotune_config.strategy_indices = v;
    }

    fn toggle_strats_menu(&mut self) -> (e: Effect)
        ensures
            toggle_strats(*old(self), *final(self), e),
    {
        let idx = self.nav.autotune_strat_index;
        if idx < self.strategies.len() {
            self.toggle_strategy(idx);
        } else {
            let nav = Navigation { active_screen: ActiveScreen::AutotuneSubmenu, ..self.nav };
            self.move_to(nav);
        }
        Effect::Nothing
    }
}

fn toggled_strategy_indices(v: &Vec<usize>, idx: usize) -> (r: Vec<usize>)
    ensures
        r@ == (if position_of(v@, idx) < v@.len() {
            v@.remove(position_of(v@, idx))
        } else {
            v@.push(idx)
        }),
{
    let mut r: Vec<usize> = Vec::new();
    let mut i: usize = 0;
    while i < v.len()
        invariant
            i <= v@.len(),
            r@ == v@.take(i as int),
        decreases v.len() - i,
    {
        r.push(v[i]);
        proof {
            assert(v@.take(i + 1) =~= v@.take(i as int).push(v@[i as int]));
        }
        i += 1;
    }
    assert(v@.take(v@.len() as int) =~= v@);
    let mut p: usize = 0;
    while p < r.len() && r[p] != idx
        invariant
            r@ == v@,
            p <= v@.len(),
            forall|k: int| 0 <= k < p ==> v@[k] != idx,
        decreases v@.len() - p,
    {
        p += 1;
    }
    proof {
        lemma_position_of(v@, idx, p as int);
    }
    if p < r.len() {
        r.remove(p);
    } else {
        r.push(idx);
    }
    r
}

proof fn lemma_position_of(s: Seq<usize>, x: usize, p: int)
    requires
        0 <= p <= s.len(),
        forall|k: int| 0 <= k < p ==> s[k] != x,
        p < s.len() ==> s[p] == x,
    ensures
        position_of(s, x) == p,
    decreases s.len(),
{
    if s.len() > 0 && p > 0 {
        lemma_position_of(s.drop_first(), x, p - 1);
    }
}

/// What Enter does on the screen on display (see the cases above).
pub open spec fn toggled(s: AppState, f: HostFacts, r: AppState, e: Effect) -> bool {
    match s.nav.active_screen {
        ActiveScreen::Main => toggle_main(s, f, r, e),
        ActiveScreen::StrategySubmenu => strategy_pick_case(s, r, e),
        ActiveScreen::DownloadDepsSubmenu => toggle_deps(s, r, e),
        ActiveScreen::DownloadZapretSubmenu => toggle_download(s, TagSource::Zapret, r, e),
        ActiveScreen::DownloadStrategiesSubmenu => toggle_download(s, TagSource::Strategies, r, e),
        ActiveScreen::ZapretTagSelect => zapret_tag_pick(s, r) && e == Effect::Nothing,
        ActiveScreen::StrategyTagSelect => strat_tag_pick(s, r) && e == Effect::Nothing,
        ActiveScreen::GamefilterSubmenu => toggle_gamefilter(s, r, e),
        ActiveScreen::ServiceSubmenu => toggle_service(s, f, r, e),
        ActiveScreen::ListsEditorSubmenu => lists_pick(s, r) && e == Effect::Nothing,
        ActiveScreen::AutotuneSubmenu => toggle_autotune(s, f, r, e),
        ActiveScreen::AutotuneProtocolsSubmenu => toggle_protocols(s, r, e),
        ActiveScreen::AutotuneBlockChecksSubmenu => toggle_checks(s, r, e),
        ActiveScreen::AutotunePresetSelectionSubmenu => toggle_presets(s, r, e),
        ActiveScreen::AutotuneStrategiesSubmenu => toggle_strats(s, r, e),
        ActiveScreen::AutotuneResultsSubmenu => moved(s, screen(s, ActiveScreen::AutotuneSubmenu), r)
            && e == Effect::Nothing,
    }
}

impl AppState {
    /// Enter on the current screen: decides, and returns the outside work
    /// that goes with it.
    pub fn toggle_current(&mut self, facts: &HostFacts) -> (e: Effect)
        requires
            old(self).wf(),
        ensures
            toggled(*old(self), *facts, *final(self), e),
    {
        match self.nav.active_screen {
            ActiveScreen::Main => self.toggle_main_menu(facts),
            ActiveScreen::StrategySubmenu => self.toggle_strategy_pick(),
            ActiveScreen::DownloadDepsSubmenu => self.toggle_deps_menu(),
            ActiveScreen::DownloadZapretSubmenu => self.toggle_download_menu(TagSource::Zapret),
            ActiveScreen::DownloadStrategiesSubmenu => self.toggle_download_menu(TagSource::Strategies),
            ActiveScreen::ZapretTagSelect => {
                self.toggle_zapret_tag();
                Effect::Nothing
            },
            ActiveScreen::StrategyTagSelect => {
                self.toggle_strat_tag();
                Effect::Nothing
            },
            ActiveScreen::GamefilterSubmenu => self.toggle_gamefilter_menu(),
            ActiveScreen::ServiceSubmenu => self.toggle_service_menu(facts),
            ActiveScreen::ListsEditorSubmenu => self.toggle_lists_menu(),
            ActiveScreen::AutotuneSubmenu => self.toggle_autotune_menu(facts),
            ActiveScreen::AutotuneProtocolsSubmenu => self.toggle_protocols_menu(),
            ActiveScreen::AutotuneBlockChecksSubmenu => self.toggle_checks_menu(),
            ActiveScreen::AutotunePresetSelectionSubmenu => self.toggle_presets_menu(),
            ActiveScreen::AutotuneStrategiesSubmenu => self.toggle_strats_menu(),
            ActiveScreen::AutotuneResultsSubmenu => {
                let nav = Navigation { active_screen: ActiveScreen::AutotuneSubmenu, ..self.nav };
                self.move_to(nav);
                Effect::Nothing
            },
        }
    }
}

/// Left/right on the interface: the previous or next interface, saved.
#[verifier::opaque]
pub open spec fn interface_cycled(s: AppState, forward: bool, r: AppState, e: Effect) -> bool {
    let len = s.interfaces@.len() as int;
    if len > 0 {
        &&& r == AppState {
            selected_interface: (if forward {
                state::wrap_next(s.selected_interface as int, len)
            } else {
                state::wrap_prev(s.selected_interface as int, len)
            }) as usize,
            ..s
        }
        &&& e == Effect::SaveConfig
    } else {
        r == s && e == Effect::Nothing
    }
}

/// Left/right on the ipset mode: the previous or next mode, and the files
/// switched to it.
#[verifier::opaque]
pub open spec fn ipset_cycled(s: AppState, forward: bool, r: AppState, e: Effect) -> bool {
    let modes = s.available_ipset_modes@;
    let len = modes.len() as int;
    if len > 0 {
        let k = if forward {
            state::wrap_next(s.selected_ipset_mode as int, len)
        } else {
            state::wrap_prev(s.selected_ipset_mode as int, len)
        };
        &&& r == AppState { selected_ipset_mode: k as usize, ..s }
        &&& e == Effect::ApplyIpset(modes[s.selected_ipset_mode as int], modes[k])
    } else {
        r == s && e == Effect::Nothing
    }
}

fn cycle_position(i: usize, len: usize, forward: bool) -> (k: usize)
    requires
        i < len <= isize::MAX,
    ensures
        k == (if forward { state::wrap_next(i as int, len as int) } else { state::wrap_prev(i as int, len as int) }),
        k < len,
{
    proof {
        state::lemma_wrap(i as int, len as int);
    }
    if forward {
        (i + 1) % len
    } else {
        (i + len - 1) % len
    }
}

/// The request count opened for editing, with its current value.
#[verifier::opaque]
pub open spec fn editing_started(s: AppState, r: AppState) -> bool {
    &&& r.autotune_request_buf@ == crate::text::decimal(s.autotune_config.num_requests as nat)
    &&& r == AppState { autotune_request_buf: r.autotune_request_buf, autotune_request_editing: true, ..s }
}

/// The preset list opened (the cursor kept on a preset).
pub open spec fn presets_opened(n: Navigation) -> Navigation {
    Navigation {
        active_screen: ActiveScreen::AutotunePresetSelectionSubmenu,
        autotune_preset_index: if n.autotune_preset_index >= autotune::preset_count() {
            (autotune::preset_count() - 1) as usize
        } else {
            n.autotune_preset_index
        },
        ..n
    }
}

/// What left (`forward` false) and right (`forward` true) do: they cycle the
/// values of the interface, backend, ipset mode and download version, flip
/// switches, open the preset list and start editing the request count; on
/// other items right is Enter and left does nothing.
pub open spec fn cycled_current(s: AppState, f: HostFacts, forward: bool, r: AppState, e: Effect) -> bool {
    let n = s.nav;
    let enter = if forward { toggled(s, f, r, e) } else { r == s && e == Effect::Nothing };
    match n.active_screen {
        ActiveScreen::Main => match n.main_menu {
            MainMenuState::Interface => interface_cycled(s, forward, r, e),
            MainMenuState::BackendSettings => backend_case(s, r, e),
            MainMenuState::IpsetMode => ipset_cycled(s, forward, r, e),
            _ => enter,
        },
        ActiveScreen::DownloadZapretSubmenu => if n.download_zapret_menu == DownloadSubmenuState::Version {
            retargeted(s, TagSource::Zapret, forward, r) && e == Effect::Nothing
        } else {
            enter
        },
        ActiveScreen::DownloadStrategiesSubmenu => if n.download_strategies_menu == DownloadSubmenuState::Version {
            retargeted(s, TagSource::Strategies, forward, r) && e == Effect::Nothing
        } else {
            enter
        },
        ActiveScreen::GamefilterSubmenu => match n.gamefilter_menu {
            GamefilterMenuState::Back => enter,
            _ => toggle_gamefilter(s, r, e),
        },
        ActiveScreen::AutotuneSubmenu => match n.autotune_menu {
            AutotuneMenuState::PresetSelection => moved(s, presets_opened(n), r) && e == Effect::Nothing,
            AutotuneMenuState::NumRequests => if forward {
                editing_started(s, r) && e == Effect::Nothing
            } else {
                r == s && e == Effect::Nothing
            },
            _ => enter,
        },
        ActiveScreen::AutotuneProtocolsSubmenu => if n.autotune_protocols_menu == AutotuneProtocolsState::Back {
            enter
        } else {
            toggle_protocols(s, r, e)
        },
        ActiveScreen::AutotuneBlockChecksSubmenu => toggle_checks(s, r, e),
        ActiveScreen::AutotunePresetSelectionSubmenu => toggled(s, f, r, e),
        ActiveScreen::AutotuneStrategiesSubmenu => toggled(s, f, r, e),
        ActiveScreen::AutotuneResultsSubmenu => moved(s, screen(s, ActiveScreen::AutotuneSubmenu), r)
            && e == Effect::Nothing,
        _ => enter,
    }
}

impl AppState {
    fn cycle_interface(&mut self, forward: bool) -> (e: Effect)
        requires
            old(self).wf(),
        ensures
            interface_cycled(*old(self), forward, *final(self), e),
    {
        proof {
            reveal(interface_cycled);
        }
        let len = self.interfaces.len();
        if len > 0 {
            self.selected_interface = cycle_position(self.selected_interface, len, forward);
            Effect::SaveConfig
        } else {
            Effect::Nothing
        }
    }

    fn step_ipset(&mut self, forward: bool) -> (e: Effect)
        requires
            old(self).wf(),
            old(self).available_ipset_modes@.len() > 0,
        ensures
            ({
                let modes = old(self).available_ipset_modes@;
                let k = if forward {
                    state::wrap_next(old(self).selected_ipset_mode as int, modes.len() as int)
                } else {
                    state::wrap_prev(old(self).selected_ipset_mode as int, modes.len() as int)
                };
                &&& *final(self) == (AppState { selected_ipset_mode: k as usize, ..*old(self) })
                &&& e == Effect::ApplyIpset(modes[old(self).selected_ipset_mode as int], modes[k])
            }),
    {
        let len = self.available_ipset_modes.len();
        let old_mode = self.available_ipset_modes[self.selected_ipset_mode];
        let k = cycle_position(self.selected_ipset_mode, len, forward);
        let new_mode = self.available_ipset_modes[k];
        self.selected_ipset_mode = k;
        Effect::ApplyIpset(old_mode, new_mode)
    }

    fn cycle_ipset(&mut self, forward: bool) -> (e: Effect)
        requires
            old(self).wf(),
        ensures
            ipset_cycled(*old(self), forward, *final(self), e),
    {
        proof {
            reveal(ipset_cycled);
        }
        if self.available_ipset_modes.len() > 0 {
            self.step_ipset(forward)
        } else {
            Effect::Nothing
        }
    }

    fn start_editing(&mut self)
        ensures
            editing_started(*old(self), *final(self)),
    {
        proof {
            reveal(editing_started);
        }
        let digits = crate::text::decimal_chars(self.autotune_config.num_requests);
        self.autotune_request_buf = crate::text::from_chars(&digits);
        self.autotune_request_editing = true;
    }

    fn open_presets(&mut self)
        ensures
            moved(*old(self), presets_opened(old(self).nav), *final(self)),
    {
        let count = presets_len_exec();
        let mut nav = Navigation { active_screen: ActiveScreen::AutotunePresetSelectionSubmenu, ..self.nav };
        if nav.autotune_preset_index >= count {
            nav.autotune_preset_index = count - 1;
        }
        self.move_to(nav);
    }

    /// Left (`forward` false) or right (`forward` true) on the current screen.
    pub fn cycle_current(&mut self, forward: bool, facts: &HostFacts) -> (e: Effect)
        requires
            old(self).wf(),
        ensures
            cycled_current(*old(self), *facts, forward, *final(self), e),
    {
        let n = self.nav;
        match n.active_screen {
            ActiveScreen::Main => match n.main_menu {
                MainMenuState::Interface => self.cycle_interface(forward),
                MainMenuState::BackendSettings => self.toggle_backend(),
                MainMenuState::IpsetMode => self.cycle_ipset(forward),
                _ => if forward {
                    self.toggle_current(facts)
                } else {
                    Effect::Nothing
                },
            },
            ActiveScreen::DownloadZapretSubmenu => if n.download_zapret_menu == DownloadSubmenuState::Version {
                self.retarget(TagSource::Zapret, forward);
                Effect::Nothing
            } else if forward {
                self.toggle_current(facts)
            } else {
                Effect::Nothing
            },
            ActiveScreen::DownloadStrategiesSubmenu => if n.download_strategies_menu
                == DownloadSubmenuState::Version {
                self.retarget(TagSource::Strategies, forward);
                Effect::Nothing
            } else if forward {
                self.toggle_current(facts)
            } else {
                Effect::Nothing
            },
            ActiveScreen::GamefilterSubmenu => match n.gamefilter_menu {
                GamefilterMenuState::Back => if forward {
                    self.toggle_current(facts)
                } else {
                    Effect::Nothing
                },
                _ => self.toggle_gamefilter_menu(),
            },
            ActiveScreen::AutotuneSubmenu => match n.autotune_menu {
                AutotuneMenuState::PresetSelection => {
                    self.open_presets();
                    Effect::Nothing
                },
                AutotuneMenuState::NumRequests => {
                    if forward {
                        self.start_editing();
                    }
                    Effect::Nothing
                },
                _ => if forward {
                    self.toggle_current(facts)
                } else {
                    Effect::Nothing
                },
            },
            ActiveScreen::AutotuneProtocolsSubmenu => if n.autotune_protocols_menu == AutotuneProtocolsState::Back {
                if forward {
                    self.toggle_current(facts)
                } else {
                    Effect::Nothing
                }
            } else {
                self.toggle_protocols_menu()
            },
            ActiveScreen::AutotuneBlockChecksSubmenu => self.toggle_checks_menu(),
            ActiveScreen::AutotunePresetSelectionSubmenu => self.toggle_current(facts),
            ActiveScreen::AutotuneStrategiesSubmenu => self.toggle_current(facts),
            ActiveScreen::AutotuneResultsSubmenu => {
                let nav = Navigation { active_screen: ActiveScreen::AutotuneSubmenu, ..self.nav };
                self.move_to(nav);
                Effect::Nothing
            },
            _ => if forward {
                self.toggle_current(facts)
            } else {
                Effect::Nothing
            },
        }
    }
}

/// A key the interface reacts to.
#[derive(Debug, Clone, Copy, PartialEq, Eq, Structural)]
pub enum Key {
    Up,
    Down,
    Left,
    Right,
    Enter,
    Backspace,
    Escape,
    Char(char),
}

/// The value of a decimal number as `usize::from_str` reads it: an optional
/// `+`, then one or more digits; `None` for anything else or a value past
/// `usize::MAX`.
pub open spec fn parse_usize(s: Seq<char>) -> Option<usize> {
    let d = if s.len() > 0 && s[0] == '+' { s.drop_first() } else { s };
    if d.len() > 0 && all_digits(d) && digits_value(d) <= usize::MAX {
        Option::Some(digits_value(d) as usize)
    } else {
        Option::None
    }
}

/// Whether every character is an ASCII digit.
pub open spec fn all_digits(s: Seq<char>) -> bool {
    forall|i: int| 0 <= i < s.len() ==> '0' <= #[trigger] s[i] <= '9'
}

/// The value of a string of digits.
pub open spec fn digits_value(s: Seq<char>) -> nat
    decreases s.len(),
{
    if s.len() == 0 {
        0
    } else {
        digits_value(s.drop_last()) * 10 + ((s.last() as nat) - ('0' as nat)) as nat
    }
}

/// Reads a decimal number as `usize::from_str` does.
pub fn parse_usize_chars(s: &[char]) -> (r: Option<usize>)
    ensures
        r == parse_usize(s@),
{
    let start: usize = if s.len() > 0 && s[0] == '+' { 1 } else { 0 };
    let ghost d = if s@.len() > 0 && s@[0] == '+' { s@.drop_first() } else { s@ };
    assert(d =~= s@.skip(start as int));
    if start >= s.len() {
        return None;
    }
    let mut value: usize = 0;
    let mut i: usize = start;
    while i < s.len()
        invariant
            start <= i <= s@.len(),
            d == s@.skip(start as int),
            d == (if s@.len() > 0 && s@[0] == '+' { s@.drop_first() } else { s@ }),
            all_digits(d.take(i - start)),
            value == digits_value(d.take(i - start)),
        decreases s.len() - i,
    {
        let c = s[i];
        proof {
            assert(d.take(i - start + 1).drop_last() =~= d.take(i - start));
            assert(d.take(i - start + 1).last() == c);
        }
        if c < '0' || c > '9' {
            proof {
                assert(d[i - start] == c);
                assert(!('0' <= d[i - start] <= '9'));
                assert(!all_digits(d));
            }
            return None;
        }
        let digit = (c as u32 - '0' as u32) as usize;
        if value > (usize::MAX - digit) / 10 {
            proof {
                assert(digits_value(d.take(i - start + 1)) > usize::MAX) by (nonlinear_arith)
                    requires
                        digits_value(d.take(i - start + 1)) == value * 10 + digit,
                        value > (usize::MAX - digit) / 10,
                        digit <= 9,
                ;
                if all_digits(d) {
                    lemma_digits_value_prefix(d, i - start + 1);
                }
            }
            return None;
        }
        proof {
            assert(value * 10 + digit <= usize::MAX) by (nonlinear_arith)
                requires
                    value <= (usize::MAX - digit) / 10,
                    digit <= 9,
            ;
        }
        value = value * 10 + digit;
        i += 1;
        proof {
            assert forall|k: int| 0 <= k < i - start implies '0' <= #[trigger] d.take(i - start)[k] <= '9' by {
                if k < i - start - 1 {
                    assert(d.take(i - start)[k] == d.take(i - start - 1)[k]);
                }
            }
        }
    }
    assert(d.take(i - start) =~= d);
    Some(value)
}

proof fn lemma_digits_value_prefix(d: Seq<char>, k: int)
    requires
        0 <= k <= d.len(),
        all_digits(d),
    ensures
        digits_value(d.take(k)) <= digits_value(d),
    decreases d.len(),
{
    if k < d.len() {
        assert(d.drop_last().take(k) =~= d.take(k));
        assert(all_digits(d.drop_last()));
        lemma_digits_value_prefix(d.drop_last(), k);
    } else {
        assert(d.take(k) =~= d);
    }
}

fn entered_count(parsed: Option<usize>, old_count: usize) -> (n: usize)
    ensures
        n == (match parsed {
            Option::Some(k) => if k < 1 { 1 } else { k },
            Option::None => old_count,
        }),
{
    match parsed {
        Some(k) => if k < 1 { 1 } else { k },
        None => old_count,
    }
}

/// The request count after Enter in its editor: the number typed (at least
/// one), or the count as it was where nothing valid was typed.
pub open spec fn requests_entered(old_count: usize, buf: Seq<char>) -> usize {
    match parse_usize(buf) {
        Option::Some(n) => if n < 1 { 1 } else { n },
        Option::None => old_count,
    }
}

/// A key while the request count is being edited: digits are typed,
/// Backspace removes the last character, Enter takes the number and Escape
/// drops it (both close the editor); other keys do nothing.
#[verifier::opaque]
pub open spec fn request_edited(s: AppState, key: Key, r: AppState) -> bool {
    let buf = s.autotune_request_buf@;
    match key {
        Key::Char(c) => if '0' <= c <= '9' {
            r.autotune_request_buf@ == buf.push(c) && r == AppState { autotune_request_buf: r.autotune_request_buf, ..s }
        } else {
            r == s
        },
        Key::Backspace => {
            &&& r.autotune_request_buf@ == if buf.len() > 0 { buf.drop_last() } else { buf }
            &&& r == AppState { autotune_request_buf: r.autotune_request_buf, ..s }
        },
        Key::Enter => {
            &&& r.autotune_request_buf@ == Seq::<char>::empty()
            &&& r == AppState {
                autotune_config: autotune::AutotuneConfig {
                    num_requests: requests_entered(s.autotune_config.num_requests, buf),
                    ..s.autotune_config
                },
                autotune_request_editing: false,
                autotune_request_buf: r.autotune_request_buf,
                ..s
            }
        },
        Key::Escape => {
            &&& r.autotune_request_buf@ == Seq::<char>::empty()
            &&& r == AppState { autotune_request_editing: false, autotune_request_buf: r.autotune_request_buf, ..s }
        },
        _ => r == s,
    }
}

/// The screen Escape (or `q`) leads back to: the autotune screens return to
/// the autotune menu, the autotune menu and the other screens to the main
/// menu; on the main menu it quits.
#[verifier::opaque]
pub open spec fn escaped(s: AppState, r: AppState) -> bool {
    match s.nav.active_screen {
        ActiveScreen::Main => r == AppState { should_quit: true, ..s },
        ActiveScreen::AutotuneProtocolsSubmenu | ActiveScreen::AutotuneBlockChecksSubmenu
        | ActiveScreen::AutotunePresetSelectionSubmenu | ActiveScreen::AutotuneStrategiesSubmenu
        | ActiveScreen::AutotuneResultsSubmenu => r == AppState { nav: screen(s, ActiveScreen::AutotuneSubmenu), ..s },
        _ => r == AppState { nav: screen(s, ActiveScreen::Main), ..s },
    }
}

/// What a key press does: while the request count is edited the key goes to
/// the editor; else Up/`k` and Down/`j` move the selection, Left/`h` cycles
/// back, Right/`l`, Enter and Space cycle forward (Enter on most items),
/// Escape/`q` goes back; other keys do nothing.
pub open spec fn key_handled(s: AppState, f: HostFacts, key: Key, r: AppState, e: Effect) -> bool {
    if s.autotune_request_editing {
        request_edited(s, key, r) && e == Effect::Nothing
    } else {
        match key {
            Key::Up | Key::Char('k') => r == state::stepped(s, false) && e == Effect::Nothing,
            Key::Down | Key::Char('j') => r == state::stepped(s, true) && e == Effect::Nothing,
            Key::Left | Key::Char('h') => cycled_current(s, f, false, r, e),
            Key::Right | Key::Char('l') | Key::Enter | Key::Char(' ') => cycled_current(s, f, true, r, e),
            Key::Escape | Key::Char('q') => escaped(s, r) && e == Effect::Nothing,
            _ => r == s && e == Effect::Nothing,
        }
    }
}

impl AppState {
    fn type_digit(&mut self, c: char)
        requires
            '0' <= c <= '9',
        ensures
            final(self).autotune_request_buf@ == old(self).autotune_request_buf@.push(c),
            *final(self) == (AppState { autotune_request_buf: final(self).autotune_request_buf, ..*old(self) }),
    {
        let mut v = crate::text::to_chars(self.autotune_request_buf.as_str());
        v.push(c);
        self.autotune_request_buf = crate::text::from_chars(&v);
    }

    fn erase_digit(&mut self)
        ensures
            final(self).autotune_request_buf@ == if old(self).autotune_request_buf@.len() > 0 {
                old(self).autotune_request_buf@.drop_last()
            } else {
                old(self).autotune_request_buf@
            },
            *final(self) == (AppState { autotune_request_buf: final(self).autotune_request_buf, ..*old(self) }),
    {
        let mut v = crate::text::to_chars(self.autotune_request_buf.as_str());
        if v.len() > 0 {
            v.pop();
        }
        self.autotune_request_buf = crate::text::from_chars(&v);
    }

    fn enter_requests(&mut self)
        ensures
            final(self).autotune_request_buf@ == Seq::<char>::empty(),
            *final(self) == (AppState {
                autotune_config: autotune::AutotuneConfig {
                    num_requests: requests_entered(old(self).autotune_config.num_requests, old(self).autotune_request_buf@),
                    ..old(self).autotune_config
                },
                autotune_request_editing: false,
                autotune_request_buf: final(self).autotune_request_buf,
                ..*old(self)
            }),
    {
        let v = crate::text::to_chars(self.autotune_request_buf.as_str());
        let parsed = parse_usize_chars(v.as_slice());
        let count = entered_count(parsed, self.autotune_config.num_requests);
        self.autotune_config.num_requests = count;
        self.autotune_request_editing = false;
        self.autotune_request_buf = String::new();
    }

    fn cancel_requests(&mut self)
        ensures
            final(self).autotune_request_buf@ == Seq::<char>::empty(),
            *final(self) == (AppState {
                autotune_request_editing: false,
                autotune_request_buf: final(self).autotune_request_buf,
                ..*old(self)
            }),
    {
        self.autotune_request_editing = false;
        self.autotune_request_buf = String::new();
    }

    fn edit_request(&mut self, key: Key)
        ensures
            request_edited(*old(self), key, *final(self)),
    {
        proof {
            reveal(request_edited);
        }
        match key {
            Key::Char(c) => {
                if '0' <= c && c <= '9' {
                    self.type_digit(c);
                }
            },
            Key::Backspace => self.erase_digit(),
            Key::Enter => self.enter_requests(),
            Key::Escape => self.cancel_requests(),
            _ => {},
        }
    }

    fn escape(&mut self)
        ensures
            escaped(*old(self), *final(self)),
    {
        proof {
            reveal(escaped);
        }
        match self.nav.active_screen {
            ActiveScreen::Main => self.should_quit = true,
            ActiveScreen::AutotuneProtocolsSubmenu | ActiveScreen::AutotuneBlockChecksSubmenu
            | ActiveScreen::AutotunePresetSelectionSubmenu | ActiveScreen::AutotuneStrategiesSubmenu
            | ActiveScreen::AutotuneResultsSubmenu => {
                let nav = Navigation { active_screen: ActiveScreen::AutotuneSubmenu, ..self.nav };
                self.nav = nav;
            },
            _ => {
                let nav = Navigation { active_screen: ActiveScreen::Main, ..self.nav };
                self.nav = nav;
            },
        }
    }

    /// Reacts to a key press.
    pub fn handle_key(&mut self, key: Key, facts: &HostFacts) -> (e: Effect)
        requires
            old(self).wf(),
        ensures
            key_handled(*old(self), *facts, key, *final(self), e),
    {
        if self.autotune_request_editing {
            self.edit_request(key);
            return Effect::Nothing;
        }
        match key {
            Key::Up | Key::Char('k') => {
                self.prev_menu();
                Effect::Nothing
            },
            Key::Down | Key::Char('j') => {
                self.next_menu();
                Effect::Nothing
            },
            Key::Left | Key::Char('h') => self.cycle_current(false, facts),
            Key::Right | Key::Char('l') | Key::Enter | Key::Char(' ') => self.cycle_current(true, facts),
            Key::Escape | Key::Char('q') => {
                self.escape();
                Effect::Nothing
            },
            _ => Effect::Nothing,
        }
    }
}

proof fn lemma_main_wf(s: AppState, f: HostFacts, r: AppState, e: Effect)
    requires
        state::wf(s),
        s.nav.active_screen == ActiveScreen::Main,
        toggle_main(s, f, r, e),
    ensures
        state::wf(r),
{
    reveal(main_open_case);
    reveal(interface_case);
    reveal(backend_case);
    reveal(ipset_case);
    reveal(lists_case);
    reveal(run_case);
    reveal(quit_case);
    assert(state::sizes(r) == state::sizes(s));
    let len = s.interfaces@.len() as int;
    if s.nav.main_menu == MainMenuState::Interface && len > 0 {
        state::lemma_wrap(s.selected_interface as int, len);
    }
    let ml = s.available_ipset_modes@.len() as int;
    if s.nav.main_menu == MainMenuState::IpsetMode && ml > 0 {
        state::lemma_wrap(s.selected_ipset_mode as int, ml);
    }
}

proof fn lemma_screens_wf(s: AppState, f: HostFacts, r: AppState, e: Effect)
    requires
        state::wf(s),
        s.nav.active_screen != ActiveScreen::Main,
        s.nav.active_screen != ActiveScreen::AutotuneSubmenu,
        s.nav.active_screen != ActiveScreen::AutotunePresetSelectionSubmenu,
        s.nav.active_screen != ActiveScreen::AutotuneStrategiesSubmenu,
        s.nav.active_screen != ActiveScreen::AutotuneBlockChecksSubmenu,
        s.nav.active_screen != ActiveScreen::AutotuneProtocolsSubmenu,
        toggled(s, f, r, e),
    ensures
        state::wf(r),
{
    reveal(moved);
    reveal(says);
    reveal(requested);
    reveal(strategy_pick_case);
    reveal(retargeted);
    reveal(zapret_tag_pick);
    reveal(strat_tag_pick);
    reveal(gamefilter_flipped);
    reveal(service_with_deps);
    reveal(editor_opened);
    assert(state::sizes(r) == state::sizes(s));
}

proof fn lemma_autotune_screens_wf(s: AppState, f: HostFacts, r: AppState, e: Effect)
    requires
        state::wf(s),
        s.nav.active_screen == ActiveScreen::AutotuneSubmenu || s.nav.active_screen
            == ActiveScreen::AutotunePresetSelectionSubmenu || s.nav.active_screen
            == ActiveScreen::AutotuneStrategiesSubmenu || s.nav.active_screen
            == ActiveScreen::AutotuneBlockChecksSubmenu || s.nav.active_screen
            == ActiveScreen::AutotuneProtocolsSubmenu,
        toggled(s, f, r, e),
    ensures
        state::wf(r),
{
    reveal(moved);
    reveal(says);
    reveal(requested);
    reveal(editor_opened);
    reveal(configured);
    reveal(check_flipped);
    reveal(preset_toggled);
    reveal(strategy_toggled);
    assert(state::sizes(r) == state::sizes(s));
}

/// Enter keeps the state invariant.
pub proof fn lemma_toggle_keeps_wf(s: AppState, f: HostFacts, r: AppState, e: Effect)
    requires
        state::wf(s),
        toggled(s, f, r, e),
    ensures
        state::wf(r),
{
    let sc = s.nav.active_screen;
    if sc == ActiveScreen::Main {
        lemma_main_wf(s, f, r, e);
    } else if sc == ActiveScreen::AutotuneSubmenu || sc == ActiveScreen::AutotunePresetSelectionSubmenu || sc
        == ActiveScreen::AutotuneStrategiesSubmenu || sc == ActiveScreen::AutotuneBlockChecksSubmenu || sc
        == ActiveScreen::AutotuneProtocolsSubmenu {
        lemma_autotune_screens_wf(s, f, r, e);
    } else {
        lemma_screens_wf(s, f, r, e);
    }
}

/// Left and right keep the state invariant.
pub proof fn lemma_cycle_keeps_wf(s: AppState, f: HostFacts, forward: bool, r: AppState, e: Effect)
    requires
        state::wf(s),
        cycled_current(s, f, forward, r, e),
    ensures
        state::wf(r),
{
    let n = s.nav;
    if forward && toggled(s, f, r, e) {
        lemma_toggle_keeps_wf(s, f, r, e);
    } else if n.active_screen == ActiveScreen::Main {
        reveal(interface_cycled);
        reveal(backend_case);
        reveal(ipset_cycled);
        assert(state::sizes(r) == state::sizes(s));
        let len = s.interfaces@.len() as int;
        if len > 0 {
            state::lemma_wrap(s.selected_interface as int, len);
        }
        let ml = s.available_ipset_modes@.len() as int;
        if ml > 0 {
            state::lemma_wrap(s.selected_ipset_mode as int, ml);
        }
    } else if n.active_screen == ActiveScreen::AutotunePresetSelectionSubmenu || n.active_screen
        == ActiveScreen::AutotuneStrategiesSubmenu {
        lemma_toggle_keeps_wf(s, f, r, e);
    } else {
        reveal(retargeted);
        reveal(gamefilter_flipped);
        reveal(moved);
        reveal(editing_started);
        reveal(configured);
        reveal(check_flipped);
        assert(state::sizes(r) == state::sizes(s));
    }
}

/// A key press keeps the state invariant.
pub proof fn lemma_key_keeps_wf(s: AppState, f: HostFacts, key: Key, r: AppState, e: Effect)
    requires
        state::wf(s),
        key_handled(s, f, key, r, e),
    ensures
        state::wf(r),
{
    if s.autotune_request_editing {
        reveal(request_edited);
        assert(state::sizes(r) == state::sizes(s));
    } else {
        match key {
            Key::Up | Key::Char('k') => state::lemma_step_keeps_wf(s, false),
            Key::Down | Key::Char('j') => state::lemma_step_keeps_wf(s, true),
            Key::Left | Key::Char('h') => lemma_cycle_keeps_wf(s, f, false, r, e),
            Key::Right | Key::Char('l') | Key::Enter | Key::Char(' ') => lemma_cycle_keeps_wf(s, f, true, r, e),
            Key::Escape | Key::Char('q') => {
                reveal(escaped);
                assert(state::sizes(r) == state::sizes(s));
            },
            _ => {},
        }
    }
}

/// Escape on the main menu quits; elsewhere it goes back one level and
/// leaves everything else as it was.
pub proof fn lemma_escape_goes_back(s: AppState, f: HostFacts, r: AppState, e: Effect)
    requires
        !s.autotune_request_editing,
        key_handled(s, f, Key::Escape, r, e),
    ensures
        e == Effect::Nothing,
        s.nav.active_screen == ActiveScreen::Main ==> r.should_quit && r.nav == s.nav,
        s.nav.active_screen != ActiveScreen::Main ==> !r.should_quit || s.should_quit,
        s.nav.active_screen != ActiveScreen::Main ==> r.nav.active_screen == ActiveScreen::Main
            || r.nav.active_screen == ActiveScreen::AutotuneSubmenu,
        r.status_message == s.status_message,
{
    reveal(escaped);
}

} // verus!
