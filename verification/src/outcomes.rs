//! Building the interface state, and taking in the outcome of the outside
//! work that a key press asked for.
use vstd::prelude::*;
use crate::actions::{Effect, TagSource, opt_text, error_line};
use crate::autotune;
use crate::autotune::AutotuneConfig;
use crate::config::RunConfig;
use crate::firewalls::LinuxBackend;
use crate::ipset::IpsetMode;
use crate::menus::{
    ActiveScreen, AutotuneBlockChecksState, AutotuneMenuState, AutotuneProtocolsState,
    DownloadDepsMenuState, DownloadSubmenuState, GamefilterMenuState, MainMenuState, VersionTarget,
};
use crate::order;
use crate::state;
use crate::state::{AppState, Navigation};

verus! {

/// The position of the first `x` in `v` (its length where there is none).
pub open spec fn first_position<T>(v: Seq<T>, x: T) -> int
    decreases v.len(),
{
    if v.len() == 0 {
        0
    } else if v[0] == x {
        0
    } else {
        1 + first_position(v.drop_first(), x)
    }
}

proof fn lemma_first_position<T>(v: Seq<T>, x: T, p: int)
    requires
        0 <= p <= v.len(),
        forall|k: int| 0 <= k < p ==> v[k] != x,
        p < v.len() ==> v[p] == x,
    ensures
        first_position(v, x) == p,
    decreases v.len(),
{
    if v.len() > 0 && p > 0 {
        lemma_first_position(v.drop_first(), x, p - 1);
    }
}

/// Where `x` stands first in `v`, or 0 where it does not (`position(..).unwrap_or(0)`).
pub open spec fn position_or_first<T>(v: Seq<T>, x: T) -> usize {
    let p = first_position(v, x);
    if p < v.len() { p as usize } else { 0 }
}

fn find_string(v: &Vec<String>, x: &String) -> (i: usize)
    requires
        v@.len() <= usize::MAX,
    ensures
        i == position_or_first(order::strings(v@), x@),
        v@.len() == 0 || i < v@.len(),
{
    let ghost sv = order::strings(v@);
    let mut i: usize = 0;
    while i < v.len()
        invariant
            i <= v@.len(),
            sv == order::strings(v@),
            forall|k: int| 0 <= k < i ==> sv[k] != x@,
        decreases v.len() - i,
    {
        if v[i] == *x {
            proof {
                lemma_first_position(sv, x@, i as int);
            }
            return i;
        }
        i += 1;
    }
    proof {
        lemma_first_position(sv, x@, i as int);
    }
    0
}

fn find_mode(v: &Vec<IpsetMode>, x: IpsetMode) -> (i: usize)
    ensures
        i == position_or_first(v@, x),
        v@.len() == 0 || i < v@.len(),
{
    let mut i: usize = 0;
    while i < v.len()
        invariant
            i <= v@.len(),
            forall|k: int| 0 <= k < i ==> v@[k] != x,
        decreases v.len() - i,
    {
        if v[i] == x {
            proof {
                lemma_first_position(v@, x, i as int);
            }
            return i;
        }
        i += 1;
    }
    proof {
        lemma_first_position(v@, x, i as int);
    }
    0
}

/// The selection when the interface opens: the main menu at its first item,
/// every other menu at its first item, the strategy list at the strategy in use.
pub open spec fn start_nav(selected_strategy: usize) -> Navigation {
    Navigation {
        active_screen: ActiveScreen::Main,
        main_menu: MainMenuState::DownloadDeps,
        strategy_menu_index: selected_strategy,
        download_deps_menu: DownloadDepsMenuState::ZapretDownloader,
        download_zapret_menu: DownloadSubmenuState::Version,
        download_strategies_menu: DownloadSubmenuState::Version,
        gamefilter_menu: GamefilterMenuState::Tcp,
        nfqws_tag_index: 0,
        strat_tag_index: 0,
        service_menu_index: 0,
        lists_menu_index: 0,
        autotune_menu: AutotuneMenuState::PresetSelection,
        autotune_menu_index: 0,
        autotune_protocols_menu: AutotuneProtocolsState::Http,
        autotune_block_checks_menu: AutotuneBlockChecksState::DnsSpoof,
        autotune_preset_index: 0,
        autotune_strat_index: 0,
        autotune_results_index: 0,
    }
}

impl AppState {
    /// The state the interface opens with, from the interfaces and strategies
    /// found, the saved configuration (where there is one), the ipset modes on
    /// offer and the current one, which dependencies are installed, the state
    /// of the service, and the line count of the saved autotune results.
    pub fn new(
        interfaces: Vec<String>,
        strategies: Vec<String>,
        saved: Option<RunConfig>,
        ipset_modes: Vec<IpsetMode>,
        current_ipset_mode: IpsetMode,
        nfqws_installed: bool,
        strategies_installed: bool,
        service_installed: bool,
        service_active: bool,
        saved_results_lines: Option<usize>,
    ) -> (app: AppState)
        requires
            interfaces@.len() <= isize::MAX,
            strategies@.len() <= isize::MAX,
            ipset_modes@.len() <= isize::MAX,
            saved_results_lines is Some ==> saved_results_lines->0 < usize::MAX - 1,
        ensures
            app.wf(),
            order::strings(app.interfaces@) == order::strings(interfaces@),
            order::strings(app.strategies@) == order::strings(strategies@),
            app.available_ipset_modes@ == ipset_modes@,
            app.selected_interface == match saved {
                Option::Some(c) => position_or_first(order::strings(interfaces@), c.interface@),
                Option::None => 0,
            },
            app.selected_strategy == match saved {
                Option::Some(c) => position_or_first(order::strings(strategies@), c.strategy@),
                Option::None => 0,
            },
            app.tcp_gamefilter == (saved is Some && saved->0.gamefilter_tcp),
            app.udp_gamefilter == (saved is Some && saved->0.gamefilter_udp),
            app.selected_backend == match saved {
                Option::Some(c) => if c.backend@ == "iptables"@ { LinuxBackend::Iptables } else { LinuxBackend::Nftables },
                Option::None => LinuxBackend::Nftables,
            },
            app.selected_ipset_mode == position_or_first(ipset_modes@, current_ipset_mode),
            app.nav == start_nav(app.selected_strategy),
            app.nfqws_target == VersionTarget::Recommended,
            app.strat_target == VersionTarget::Recommended,
            app.available_nfqws_tags@.len() == 0,
            app.available_strat_tags@.len() == 0,
            !app.should_run && !app.should_quit && !app.should_download_zapret,
            !app.should_download_strategies && !app.should_download_defaults && !app.should_run_autotune,
            app.status_message is None,
            app.nfqws_installed == nfqws_installed,
            app.strategies_installed == strategies_installed,
            app.service_installed == service_installed,
            app.service_active == service_active,
            app.lists_files@.len() == 0,
            app.should_open_editor is None,
            app.autotune_config.preset_indices@ == seq![0usize],
            app.autotune_config.num_requests == 3,
            app.autotune_config.check_http && app.autotune_config.check_https && app.autotune_config.check_tls12,
            app.autotune_config.check_tls13 && app.autotune_config.check_quic,
            app.autotune_config.strategy_indices@.len() == 0,
            app.autotune_config.block_checks.enabled@ == seq![true, true, true, true, true, true],
            app.autotune_results is None,
            app.saved_results_lines == saved_results_lines,
            !app.autotune_running && !app.autotune_request_editing,
            app.autotune_request_buf@.len() == 0,
    {
        let (selected_interface, selected_strategy, tcp, udp, backend) = match &saved {
            Some(cfg) => (
                find_string(&interfaces, &cfg.interface),
                find_string(&strategies, &cfg.strategy),
                cfg.gamefilter_tcp,
                cfg.gamefilter_udp,
                LinuxBackend::from_config(cfg.backend.as_str()),
            ),
            None => (0, 0, false, false, LinuxBackend::from_config("nftables")),
        };
        proof {
            reveal_strlit("nftables");
            reveal_strlit("iptables");
            assert("nftables"@ != "iptables"@) by {
                assert("nftables"@[0] != "iptables"@[0]);
            }
        }
        let selected_ipset_mode = find_mode(&ipset_modes, current_ipset_mode);
        let nav = Navigation {
            active_screen: ActiveScreen::Main,
            main_menu: MainMenuState::DownloadDeps,
            strategy_menu_index: selected_strategy,
            download_deps_menu: DownloadDepsMenuState::ZapretDownloader,
            download_zapret_menu: DownloadSubmenuState::Version,
            download_strategies_menu: DownloadSubmenuState::Version,
            gamefilter_menu: GamefilterMenuState::Tcp,
            nfqws_tag_index: 0,
            strat_tag_index: 0,
            service_menu_index: 0,
            lists_menu_index: 0,
            autotune_menu: AutotuneMenuState::PresetSelection,
            autotune_menu_index: 0,
            autotune_protocols_menu: AutotuneProtocolsState::Http,
            autotune_block_checks_menu: AutotuneBlockChecksState::DnsSpoof,
            autotune_preset_index: 0,
            autotune_strat_index: 0,
            autotune_results_index: 0,
        };
        let app = AppState {
            interfaces,
            selected_interface,
            selected_backend: backend,
            available_ipset_modes: ipset_modes,
            selected_ipset_mode,
            strategies,
            selected_strategy,
            tcp_gamefilter: tcp,
            udp_gamefilter: udp,
            nav,
            nfqws_target: VersionTarget::Recommended,
            strat_target: VersionTarget::Recommended,
            available_nfqws_tags: Vec::new(),
            available_strat_tags: Vec::new(),
            should_run: false,
            should_quit: false,
            should_download_zapret: false,
            should_download_strategies: false,
            should_download_defaults: false,
            status_message: None,
            nfqws_installed,
            strategies_installed,
            service_installed,
            service_active,
            lists_files: Vec::new(),
            should_open_editor: None,
            autotune_config: AutotuneConfig::default_config(),
            autotune_results: None,
            saved_results_lines,
            should_run_autotune: false,
            autotune_running: false,
            autotune_request_editing: false,
            autotune_request_buf: String::new(),
        };
        app
    }
}

/// The outcome of a download started from the interface.
#[derive(Debug, Clone, Copy, PartialEq, Eq, Structural)]
pub enum DownloadKind {
    Zapret,
    Strategies,
    Defaults,
}

/// What the main loop refreshes after a key press.
#[derive(Debug, Clone, Copy, PartialEq, Eq, Structural)]
pub enum Refresh {
    Nothing,
    Dependencies,
    Service,
}

/// The refresh due on a screen: the dependency status on the download screens,
/// the service status on the service screen.
pub open spec fn refresh_for(sc: ActiveScreen) -> Refresh {
    match sc {
        ActiveScreen::DownloadDepsSubmenu | ActiveScreen::DownloadZapretSubmenu
        | ActiveScreen::DownloadStrategiesSubmenu | ActiveScreen::ZapretTagSelect
        | ActiveScreen::StrategyTagSelect => Refresh::Dependencies,
        ActiveScreen::ServiceSubmenu => Refresh::Service,
        _ => Refresh::Nothing,
    }
}

/// The message after a successful download.
pub open spec fn downloaded_msg(k: DownloadKind) -> Seq<char> {
    match k {
        DownloadKind::Zapret => "zapret downloaded"@,
        DownloadKind::Strategies => "strategies downloaded"@,
        DownloadKind::Defaults => "zapret and the strategies downloaded"@,
    }
}

/// The screen that shows after a successful download.
pub open spec fn downloaded_screen(k: DownloadKind) -> ActiveScreen {
    match k {
        DownloadKind::Zapret => ActiveScreen::DownloadZapretSubmenu,
        DownloadKind::Strategies => ActiveScreen::DownloadStrategiesSubmenu,
        DownloadKind::Defaults => ActiveScreen::DownloadDepsSubmenu,
    }
}

/// The file name at the end of a path (everything after the last `/`).
pub open spec fn file_name(path: Seq<char>) -> Seq<char>
    decreases path.len(),
{
    if path.len() == 0 {
        path
    } else if path.last() == '/' {
        seq![]
    } else {
        file_name(path.drop_last()).push(path.last())
    }
}

/// The state with the service state recorded; the selection of the service
/// menu moves up to its last item where the menu shrank below it.
#[verifier::opaque]
pub open spec fn service_refreshed(s: AppState, installed: bool, active: bool) -> AppState {
    let count = state::service_count(installed, active);
    AppState {
        service_installed: installed,
        service_active: active,
        nav: Navigation {
            service_menu_index: if s.nav.service_menu_index >= count {
                (count - 1) as usize
            } else {
                s.nav.service_menu_index
            },
            ..s.nav
        },
        ..s
    }
}

/// A selection clamped into `0..=len` (the strategy lists after a reload).
pub open spec fn clamp(i: usize, len: nat) -> usize {
    if i > len { len as usize } else { i }
}

impl AppState {
    /// The settings to save: the selected interface (`any` without one), the
    /// selected strategy (empty without one), the game filters and the backend.
    pub fn current_settings(&self) -> (r: (String, String, bool, bool, &'static str))
        ensures
            r.0@ == if self.selected_interface < self.interfaces@.len() {
                self.interfaces@[self.selected_interface as int]@
            } else {
                "any"@
            },
            r.1@ == if self.selected_strategy < self.strategies@.len() {
                self.strategies@[self.selected_strategy as int]@
            } else {
                ""@
            },
            r.2 == self.tcp_gamefilter,
            r.3 == self.udp_gamefilter,
            r.4@ == crate::firewalls::backend_name(self.selected_backend),
    {
        let interface = if self.selected_interface < self.interfaces.len() {
            self.interfaces[self.selected_interface].clone()
        } else {
            String::from_str("any")
        };
        let strategy = if self.selected_strategy < self.strategies.len() {
            self.strategies[self.selected_strategy].clone()
        } else {
            String::from_str("")
        };
        (interface, strategy, self.tcp_gamefilter, self.udp_gamefilter, self.selected_backend.to_config())
    }

    /// The refresh due after a key press on the current screen.
    pub fn refresh_due(&self) -> (r: Refresh)
        ensures
            r == refresh_for(self.nav.active_screen),
    {
        match self.nav.active_screen {
            ActiveScreen::DownloadDepsSubmenu | ActiveScreen::DownloadZapretSubmenu
            | ActiveScreen::DownloadStrategiesSubmenu | ActiveScreen::ZapretTagSelect
            | ActiveScreen::StrategyTagSelect => Refresh::Dependencies,
            ActiveScreen::ServiceSubmenu => Refresh::Service,
            _ => Refresh::Nothing,
        }
    }

    /// Records the state of the service; the selection of the service menu
    /// moves up to its last item where the menu shrank below it.
    pub fn refresh_service_status(&mut self, installed: bool, active: bool)
        requires
            old(self).wf(),
        ensures
            *final(self) == service_refreshed(*old(self), installed, active),
    {
        proof {
            reveal(service_refreshed);
        }
        let nav = Navigation {
            service_menu_index: clamp_service_index(self.nav.service_menu_index, installed, active),
            ..self.nav
        };
        self.service_installed = installed;
        self.service_active = active;
        self.nav = nav;
    }

    /// Records the ipset modes on offer and selects `current` among them (the
    /// first mode where it is not on offer).
    pub fn refresh_ipset_status(&mut self, modes: Vec<IpsetMode>, current: IpsetMode)
        requires
            old(self).wf(),
            modes@.len() <= isize::MAX,
        ensures
            final(self).available_ipset_modes@ == modes@,
            *final(self) == (AppState {
                available_ipset_modes: final(self).available_ipset_modes,
                selected_ipset_mode: position_or_first(modes@, current),
                ..*old(self)
            }),
    {
        let k = find_mode(&modes, current);
        self.available_ipset_modes = modes;
        self.selected_ipset_mode = k;
    }

    /// Opens the lists editor on the files found.
    pub fn lists_loaded(&mut self, files: Vec<String>)
        requires
            old(self).wf(),
            files@.len() <= isize::MAX,
        ensures
            final(self).lists_files@ == files@,
            *final(self) == (AppState {
                lists_files: final(self).lists_files,
                nav: Navigation {
                    active_screen: ActiveScreen::ListsEditorSubmenu,
                    lists_menu_index: 0,
                    ..old(self).nav
                },
                status_message: Option::None,
                ..*old(self)
            }),
    {
        let nav = Navigation { active_screen: ActiveScreen::ListsEditorSubmenu, lists_menu_index: 0, ..self.nav };
        self.lists_files = files;
        self.nav = nav;
        self.status_message = None;
    }

    /// Takes in the tags fetched for a download menu: the tag list opens at
    /// its first tag; a failure is shown.
    pub fn tags_fetched(&mut self, src: TagSource, result: Result<Vec<String>, String>)
        requires
            old(self).wf(),
            result is Ok ==> result->Ok_0@.len() <= isize::MAX,
        ensures
            match result {
                Result::Ok(tags) => {
                    &&& final(self).status_message is None
                    &&& *final(self) == match src {
                        TagSource::Zapret => AppState {
                            available_nfqws_tags: tags,
                            nav: Navigation {
                                active_screen: ActiveScreen::ZapretTagSelect,
                                nfqws_tag_index: 0,
                                ..old(self).nav
                            },
                            status_message: Option::None,
                            ..*old(self)
                        },
                        TagSource::Strategies => AppState {
                            available_strat_tags: tags,
                            nav: Navigation {
                                active_screen: ActiveScreen::StrategyTagSelect,
                                strat_tag_index: 0,
                                ..old(self).nav
                            },
                            status_message: Option::None,
                            ..*old(self)
                        },
                    }
                },
                Result::Err(e) => {
                    &&& opt_text(final(self).status_message) == error_line("failed to fetch tags: "@ + e@)
                    &&& *final(self) == (AppState { status_message: final(self).status_message, ..*old(self) })
                },
            },
    {
        match result {
            Ok(tags) => match src {
                TagSource::Zapret => self.set_nfqws_tags(tags),
                TagSource::Strategies => self.set_strat_tags(tags),
            },
            Err(e) => self.tags_failed(e),
        }
    }

    fn set_nfqws_tags(&mut self, tags: Vec<String>)
        ensures
            *final(self) == (AppState {
                available_nfqws_tags: tags,
                nav: Navigation { active_screen: ActiveScreen::ZapretTagSelect, nfqws_tag_index: 0, ..old(self).nav },
                status_message: Option::None,
                ..*old(self)
            }),
    {
        let nav = Navigation { active_screen: ActiveScreen::ZapretTagSelect, nfqws_tag_index: 0, ..self.nav };
        self.available_nfqws_tags = tags;
        self.nav = nav;
        self.status_message = None;
    }

    fn set_strat_tags(&mut self, tags: Vec<String>)
        ensures
            *final(self) == (AppState {
                available_strat_tags: tags,
                nav: Navigation { active_screen: ActiveScreen::StrategyTagSelect, strat_tag_index: 0, ..old(self).nav },
                status_message: Option::None,
                ..*old(self)
            }),
    {
        let nav = Navigation { active_screen: ActiveScreen::StrategyTagSelect, strat_tag_index: 0, ..self.nav };
        self.available_strat_tags = tags;
        self.nav = nav;
        self.status_message = None;
    }

    fn tags_failed(&mut self, e: String)
        ensures
            opt_text(final(self).status_message) == error_line("failed to fetch tags: "@ + e@),
            *final(self) == (AppState { status_message: final(self).status_message, ..*old(self) }),
    {
        let msg = String::from_str("failed to fetch tags: ").concat(e.as_str());
        self.show_error(msg.as_str());
    }

    fn service_op_ok(&mut self, installed: bool, active: bool)
        requires
            old(self).wf(),
        ensures
            ({
                let mid = service_refreshed(*old(self), installed, active);
                &&& opt_text(final(self).status_message) == Option::Some("Done"@)
                &&& *final(self) == (AppState {
                    nav: Navigation { service_menu_index: 0, ..mid.nav },
                    status_message: final(self).status_message,
                    ..mid
                })
            }),
    {
        self.refresh_service_status(installed, active);
        self.service_ok();
    }

    fn service_op_err(&mut self, e: String, installed: bool, active: bool)
        requires
            old(self).wf(),
        ensures
            ({
                let mid = service_refreshed(*old(self), installed, active);
                &&& opt_text(final(self).status_message) == error_line(e@)
                &&& *final(self) == (AppState { status_message: final(self).status_message, ..mid })
            }),
    {
        self.refresh_service_status(installed, active);
        self.show_error(e.as_str());
    }

    fn service_ok(&mut self)
        ensures
            opt_text(final(self).status_message) == Option::Some("Done"@),
            *final(self) == (AppState {
                nav: Navigation { service_menu_index: 0, ..old(self).nav },
                status_message: final(self).status_message,
                ..*old(self)
            }),
    {
        let nav = Navigation { service_menu_index: 0, ..self.nav };
        self.nav = nav;
        self.status_message = Some(String::from_str("Done"));
    }

    /// Takes in the outcome of a service operation: the service state is
    /// refreshed; on success the menu returns to its first item saying so,
    /// else the error is shown.
    pub fn service_op_done(&mut self, result: Result<(), String>, installed: bool, active: bool)
        requires
            old(self).wf(),
        ensures
            result is Ok ==> opt_text(final(self).status_message) == Option::Some("Done"@),
            result is Ok ==> *final(self) == (AppState {
                nav: Navigation {
                    service_menu_index: 0,
                    ..service_refreshed(*old(self), installed, active).nav
                },
                status_message: final(self).status_message,
                ..service_refreshed(*old(self), installed, active)
            }),
            result is Err ==> opt_text(final(self).status_message) == error_line(result->Err_0@),
            result is Err ==> *final(self) == (AppState {
                status_message: final(self).status_message,
                ..service_refreshed(*old(self), installed, active)
            }),
    {
        match result {
            Ok(_) => self.service_op_ok(installed, active),
            Err(e) => self.service_op_err(e, installed, active),
        }
    }

    /// Takes in the outcome of a download: on success the download's menu
    /// shows saying so, with the dependency status and (after a strategies
    /// download) the reloaded strategies, the strategy selections clamped into
    /// the new list; a failure is shown.
    pub fn download_done(
        &mut self,
        kind: DownloadKind,
        result: Result<(), String>,
        nfqws_installed: bool,
        strategies_installed: bool,
        strategies: Vec<String>,
    )
        requires
            old(self).wf(),
            strategies@.len() <= isize::MAX,
        ensures
            match result {
                Result::Err(e) => {
                    &&& opt_text(final(self).status_message) == error_line(e@)
                    &&& *final(self) == (AppState { status_message: final(self).status_message, ..*old(self) })
                },
                Result::Ok(_) => {
                    let reload = kind != DownloadKind::Zapret;
                    let len = strategies@.len();
                    &&& opt_text(final(self).status_message) == Option::Some(downloaded_msg(kind))
                    &&& order::strings(final(self).strategies@) == if reload {
                        order::strings(strategies@)
                    } else {
                        order::strings(old(self).strategies@)
                    }
                    &&& *final(self) == (AppState {
                        strategies: final(self).strategies,
                        selected_strategy: if reload {
                            clamp(old(self).selected_strategy, len)
                        } else {
                            old(self).selected_strategy
                        },
                        nav: Navigation {
                            active_screen: downloaded_screen(kind),
                            strategy_menu_index: if reload {
                                clamp(old(self).nav.strategy_menu_index, len)
                            } else {
                                old(self).nav.strategy_menu_index
                            },
                            autotune_strat_index: if reload {
                                clamp(old(self).nav.autotune_strat_index, len)
                            } else {
                                old(self).nav.autotune_strat_index
                            },
                            ..old(self).nav
                        },
                        nfqws_installed,
                        strategies_installed,
                        status_message: final(self).status_message,
                        ..*old(self)
                    })
                },
            },
    {
        match result {
            Err(e) => {
                self.show_error(e.as_str());
            },
            Ok(_) => {
                let reload = kind != DownloadKind::Zapret;
                let mut nav = self.nav;
                let (msg, sc) = match kind {
                    DownloadKind::Zapret => ("zapret downloaded", ActiveScreen::DownloadZapretSubmenu),
                    DownloadKind::Strategies => ("strategies downloaded", ActiveScreen::DownloadStrategiesSubmenu),
                    DownloadKind::Defaults => (
                        "zapret and the strategies downloaded",
                        ActiveScreen::DownloadDepsSubmenu,
                    ),
                };
                nav.active_screen = sc;
                if reload {
                    let len = strategies.len();
                    if self.selected_strategy > len {
                        self.selected_strategy = len;
                    }
                    if nav.strategy_menu_index > len {
                        nav.strategy_menu_index = len;
                    }
                    if nav.autotune_strat_index > len {
                        nav.autotune_strat_index = len;
                    }
                    self.strategies = strategies;
                }
                self.nav = nav;
                self.nfqws_installed = nfqws_installed;
                self.strategies_installed = strategies_installed;
                self.status_message = Some(String::from_str(msg));
            },
        }
    }

    /// Takes in the return from the editor: the status line names the file;
    /// returns whether the ipset status is to be refreshed (after editing a
    /// list).
    pub fn editor_closed(&mut self, path: &str) -> (refresh_ipset: bool)
        requires
            old(self).wf(),
        ensures
            refresh_ipset == (old(self).nav.active_screen == ActiveScreen::ListsEditorSubmenu),
            opt_text(final(self).status_message) == Option::Some("Closed the editor: "@ + file_name(path@)),
            *final(self) == (AppState {
                should_open_editor: Option::None,
                status_message: final(self).status_message,
                ..*old(self)
            }),
    {
        let chars = crate::text::to_chars(path);
        let name = file_name_chars(&chars);
        let msg = String::from_str("Closed the editor: ").concat(name.as_str());
        self.should_open_editor = None;
        self.status_message = Some(msg);
        self.nav.active_screen == ActiveScreen::ListsEditorSubmenu
    }

    /// Marks the start of an autotune run.
    pub fn autotune_started(&mut self)
        requires
            old(self).wf(),
            old(self).saved_results_lines is Some ==> old(self).saved_results_lines->0 < usize::MAX - 1,
        ensures
            *final(self) == (AppState {
                should_run_autotune: false,
                autotune_running: true,
                autotune_results: Option::None,
                ..*old(self)
            }),
    {
        self.should_run_autotune = false;
        self.autotune_running = true;
        self.autotune_results = None;
    }

    /// Takes in the results of an autotune run.
    pub fn autotune_finished(&mut self, results: autotune::AutotuneResults)
        requires
            old(self).wf(),
            state::results_items(Option::Some(results), old(self).saved_results_lines) < usize::MAX,
        ensures
            opt_text(final(self).status_message) == Option::Some("Autotune finished"@),
            *final(self) == (AppState {
                autotune_results: Option::Some(results),
                autotune_running: false,
                status_message: final(self).status_message,
                ..*old(self)
            }),
    {
        self.autotune_results = Some(results);
        self.autotune_running = false;
        self.status_message = Some(String::from_str("Autotune finished"));
    }
}

fn clamp_service_index(i: usize, installed: bool, active: bool) -> (r: usize)
    ensures
        r == (if i >= state::service_count(installed, active) {
            (state::service_count(installed, active) - 1) as usize
        } else {
            i
        }),
{
    let count: usize = if !installed {
        2
    } else if active {
        4
    } else {
        3
    };
    if i >= count {
        count - 1
    } else {
        i
    }
}

pub(crate) fn file_name_chars(path: &Vec<char>) -> (name: String)
    ensures
        name@ == file_name(path@),
{
    let mut start: usize = path.len();
    assert(path@.take(path@.len() as int) =~= path@);
    assert(path@.skip(path@.len() as int) =~= Seq::<char>::empty());
    while start > 0 && path[start - 1] != '/'
        invariant
            start <= path@.len(),
            file_name(path@) == file_name(path@.take(start as int)) + path@.skip(start as int),
        decreases start,
    {
        proof {
            let t = path@.take(start as int);
            assert(t.drop_last() =~= path@.take(start - 1));
            assert(t.last() == path@[start - 1]);
            assert(path@.skip(start - 1) =~= seq![path@[start - 1]] + path@.skip(start as int));
            assert(file_name(t) == file_name(t.drop_last()).push(t.last()));
            assert(file_name(t.drop_last()).push(t.last()) + path@.skip(start as int) =~= file_name(
                path@.take(start - 1),
            ) + path@.skip(start - 1));
        }
        start -= 1;
    }
    proof {
        if start == 0 {
            assert(path@.take(0) =~= Seq::<char>::empty());
            assert(file_name(path@.take(0)) =~= Seq::<char>::empty());
        } else {
            assert(path@.take(start as int).last() == '/');
        }
        assert(file_name(path@) =~= path@.skip(start as int));
    }
    let v = crate::text::slice_chars(path.as_slice(), start, path.len());
    assert(v@ =~= path@.skip(start as int));
    crate::text::from_chars(&v)
}

proof fn lemma_first_position_bound<T>(v: Seq<T>, x: T)
    ensures
        0 <= first_position(v, x) <= v.len(),
    decreases v.len(),
{
    if v.len() > 0 {
        lemma_first_position_bound(v.drop_first(), x);
    }
}

/// Recording the service state keeps the state invariant.
pub proof fn lemma_service_refresh_keeps_wf(s: AppState, installed: bool, active: bool)
    requires
        state::wf(s),
    ensures
        state::wf(service_refreshed(s, installed, active)),
{
    reveal(service_refreshed);
}

/// Recording the ipset modes keeps the state invariant.
pub proof fn lemma_ipset_refresh_keeps_wf(s: AppState, r: AppState, current: IpsetMode)
    requires
        state::wf(s),
        r.available_ipset_modes@.len() <= isize::MAX,
        r == (AppState {
            available_ipset_modes: r.available_ipset_modes,
            selected_ipset_mode: position_or_first(r.available_ipset_modes@, current),
            ..s
        }),
    ensures
        state::wf(r),
{
    lemma_first_position_bound(r.available_ipset_modes@, current);
    assert(state::sizes(r) == state::sizes(s));
}

/// Opening the lists editor keeps the state invariant.
pub proof fn lemma_lists_loaded_keeps_wf(s: AppState, r: AppState)
    requires
        state::wf(s),
        r.lists_files@.len() <= isize::MAX,
        r == (AppState {
            lists_files: r.lists_files,
            nav: Navigation { active_screen: ActiveScreen::ListsEditorSubmenu, lists_menu_index: 0, ..s.nav },
            status_message: Option::None,
            ..s
        }),
    ensures
        state::wf(r),
{
}

/// Taking in fetched tags keeps the state invariant.
pub proof fn lemma_tags_keep_wf(s: AppState, r: AppState)
    requires
        state::wf(s),
        r.available_nfqws_tags@.len() <= isize::MAX,
        r.available_strat_tags@.len() <= isize::MAX,
        r == (AppState {
            available_nfqws_tags: r.available_nfqws_tags,
            available_strat_tags: r.available_strat_tags,
            nav: r.nav,
            status_message: r.status_message,
            ..s
        }),
        r.nav == s.nav || r.nav == (Navigation {
            active_screen: ActiveScreen::ZapretTagSelect,
            nfqws_tag_index: 0,
            ..s.nav
        }) || r.nav == (Navigation { active_screen: ActiveScreen::StrategyTagSelect, strat_tag_index: 0, ..s.nav }),
        r.nav == s.nav ==> r.available_nfqws_tags == s.available_nfqws_tags && r.available_strat_tags
            == s.available_strat_tags,
        r.nav.nfqws_tag_index != 0 ==> r.available_nfqws_tags == s.available_nfqws_tags,
        r.nav.strat_tag_index != 0 ==> r.available_strat_tags == s.available_strat_tags,
    ensures
        state::wf(r),
{
}

/// Taking in a download keeps the state invariant.
pub proof fn lemma_download_keeps_wf(s: AppState, r: AppState, len: nat)
    requires
        state::wf(s),
        len <= isize::MAX,
        r.strategies@.len() == len,
        r == (AppState {
            strategies: r.strategies,
            selected_strategy: clamp(s.selected_strategy, len),
            nav: Navigation {
                active_screen: r.nav.active_screen,
                strategy_menu_index: clamp(s.nav.strategy_menu_index, len),
                autotune_strat_index: clamp(s.nav.autotune_strat_index, len),
                ..s.nav
            },
            nfqws_installed: r.nfqws_installed,
            strategies_installed: r.strategies_installed,
            status_message: r.status_message,
            ..s
        }),
    ensures
        state::wf(r),
{
}

/// Starting and finishing an autotune run keep the state invariant.
pub proof fn lemma_autotune_keeps_wf(s: AppState, r: AppState)
    requires
        state::wf(s),
        state::results_items(r.autotune_results, s.saved_results_lines) < usize::MAX,
        r == (AppState {
            autotune_results: r.autotune_results,
            autotune_running: r.autotune_running,
            should_run_autotune: r.should_run_autotune,
            status_message: r.status_message,
            ..s
        }),
    ensures
        state::wf(r),
{
}

} // verus!
