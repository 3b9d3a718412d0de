//! The menus of the interface: the screens, the items of each menu, and how
//! the selection moves up and down in them.
use vstd::prelude::*;

verus! {

/// The screen on display.
#[derive(Debug, Clone, Copy, PartialEq, Eq, Structural)]
pub enum ActiveScreen {
    Main,
    StrategySubmenu,
    DownloadDepsSubmenu,
    DownloadZapretSubmenu,
    DownloadStrategiesSubmenu,
    GamefilterSubmenu,
    ZapretTagSelect,
    StrategyTagSelect,
    ServiceSubmenu,
    ListsEditorSubmenu,
    AutotuneSubmenu,
    AutotuneProtocolsSubmenu,
    AutotuneBlockChecksSubmenu,
    AutotunePresetSelectionSubmenu,
    AutotuneStrategiesSubmenu,
    AutotuneResultsSubmenu,
}

/// The items of the main menu, top to bottom.
#[derive(Debug, Clone, Copy, PartialEq, Eq, Structural)]
pub enum MainMenuState {
    DownloadDeps,
    Interface,
    Strategy,
    GamefilterSettings,
    BackendSettings,
    IpsetMode,
    ListsEditor,
    Autotune,
    ServiceSettings,
    Run,
    Quit,
}

/// The item below in the main menu; from the last item, the first.
pub open spec fn main_next(m: MainMenuState) -> MainMenuState {
    match m {
        MainMenuState::DownloadDeps => MainMenuState::Interface,
        MainMenuState::Interface => MainMenuState::Strategy,
        MainMenuState::Strategy => MainMenuState::GamefilterSettings,
        MainMenuState::GamefilterSettings => MainMenuState::BackendSettings,
        MainMenuState::BackendSettings => MainMenuState::IpsetMode,
        MainMenuState::IpsetMode => MainMenuState::ListsEditor,
        MainMenuState::ListsEditor => MainMenuState::Autotune,
        MainMenuState::Autotune => MainMenuState::ServiceSettings,
        MainMenuState::ServiceSettings => MainMenuState::Run,
        MainMenuState::Run => MainMenuState::Quit,
        MainMenuState::Quit => MainMenuState::DownloadDeps,
    }
}

/// The item above in the main menu; from the first item, the last.
pub open spec fn main_prev(m: MainMenuState) -> MainMenuState {
    match m {
        MainMenuState::DownloadDeps => MainMenuState::Quit,
        MainMenuState::Interface => MainMenuState::DownloadDeps,
        MainMenuState::Strategy => MainMenuState::Interface,
        MainMenuState::GamefilterSettings => MainMenuState::Strategy,
        MainMenuState::BackendSettings => MainMenuState::GamefilterSettings,
        MainMenuState::IpsetMode => MainMenuState::BackendSettings,
        MainMenuState::ListsEditor => MainMenuState::IpsetMode,
        MainMenuState::Autotune => MainMenuState::ListsEditor,
        MainMenuState::ServiceSettings => MainMenuState::Autotune,
        MainMenuState::Run => MainMenuState::ServiceSettings,
        MainMenuState::Quit => MainMenuState::Run,
    }
}

impl MainMenuState {
    /// The item below.
    pub fn next(self) -> (r: Self)
        ensures
            r == main_next(self),
    {
        match self {
            MainMenuState::DownloadDeps => MainMenuState::Interface,
            MainMenuState::Interface => MainMenuState::Strategy,
            MainMenuState::Strategy => MainMenuState::GamefilterSettings,
            MainMenuState::GamefilterSettings => MainMenuState::BackendSettings,
            MainMenuState::BackendSettings => MainMenuState::IpsetMode,
            MainMenuState::IpsetMode => MainMenuState::ListsEditor,
            MainMenuState::ListsEditor => MainMenuState::Autotune,
            MainMenuState::Autotune => MainMenuState::ServiceSettings,
            MainMenuState::ServiceSettings => MainMenuState::Run,
            MainMenuState::Run => MainMenuState::Quit,
            MainMenuState::Quit => MainMenuState::DownloadDeps,
        }
    }

    /// The item above.
    pub fn prev(self) -> (r: Self)
        ensures
            r == main_prev(self),
    {
        match self {
            MainMenuState::DownloadDeps => MainMenuState::Quit,
            MainMenuState::Interface => MainMenuState::DownloadDeps,
            MainMenuState::Strategy => MainMenuState::Interface,
            MainMenuState::GamefilterSettings => MainMenuState::Strategy,
            MainMenuState::BackendSettings => MainMenuState::GamefilterSettings,
            MainMenuState::IpsetMode => MainMenuState::BackendSettings,
            MainMenuState::ListsEditor => MainMenuState::IpsetMode,
            MainMenuState::Autotune => MainMenuState::ListsEditor,
            MainMenuState::ServiceSettings => MainMenuState::Autotune,
            MainMenuState::Run => MainMenuState::ServiceSettings,
            MainMenuState::Quit => MainMenuState::Run,
        }
    }
}

/// Moving down and then up, or up and then down, in the main menu returns to
/// the item one started from.
pub proof fn lemma_main_menu_round_trip(m: MainMenuState)
    ensures
        main_prev(main_next(m)) == m,
        main_next(main_prev(m)) == m,
{
}

/// The item reached from `m` after `n` steps down the main menu.
pub open spec fn main_steps(m: MainMenuState, n: nat) -> MainMenuState
    decreases n,
{
    if n == 0 {
        m
    } else {
        main_next(main_steps(m, (n - 1) as nat))
    }
}

/// Moving down through the main menu is back at the start after as many
/// steps as there are items.
pub proof fn lemma_main_menu_cycle_length(m: MainMenuState)
    ensures
        main_steps(m, 11) == m,
{
    reveal_with_fuel(main_steps, 12);
}

/// The place of an item in the main menu, from the top.
pub open spec fn main_position(m: MainMenuState) -> nat {
    match m {
        MainMenuState::DownloadDeps => 0,
        MainMenuState::Interface => 1,
        MainMenuState::Strategy => 2,
        MainMenuState::GamefilterSettings => 3,
        MainMenuState::BackendSettings => 4,
        MainMenuState::IpsetMode => 5,
        MainMenuState::ListsEditor => 6,
        MainMenuState::Autotune => 7,
        MainMenuState::ServiceSettings => 8,
        MainMenuState::Run => 9,
        MainMenuState::Quit => 10,
    }
}

proof fn lemma_main_steps_position(m: MainMenuState, n: nat)
    ensures
        main_position(main_steps(m, n)) == (main_position(m) + n) % 11,
    decreases n,
{
    if n > 0 {
        lemma_main_steps_position(m, (n - 1) as nat);
        let x = main_steps(m, (n - 1) as nat);
        assert(main_position(main_next(x)) == (main_position(x) + 1) % 11);
    }
}

proof fn lemma_main_position_injective(a: MainMenuState, b: MainMenuState)
    requires
        main_position(a) == main_position(b),
    ensures
        a == b,
{
}

/// Moving down through the main menu comes back to the item one started
/// from exactly when the number of steps is a multiple of its eleven items,
/// and within one pass every item is reached: one cycle visits each item
/// once.
pub proof fn lemma_main_menu_cycle_exact(m: MainMenuState, n: nat, t: MainMenuState)
    ensures
        (main_steps(m, n) == m) <==> (n % 11 == 0),
        main_steps(m, ((main_position(t) + 11 - main_position(m)) % 11) as nat) == t,
{
    lemma_main_steps_position(m, n);
    if main_steps(m, n) == m {
        assert((main_position(m) + n) % 11 == main_position(m));
    }
    if n % 11 == 0 {
        lemma_main_position_injective(main_steps(m, n), m);
    }
    let k = ((main_position(t) + 11 - main_position(m)) % 11) as nat;
    lemma_main_steps_position(m, k);
    lemma_main_position_injective(main_steps(m, k), t);
}

/// The items of the game-filter menu.
#[derive(Debug, Clone, Copy, PartialEq, Eq, Structural)]
pub enum GamefilterMenuState {
    Tcp,
    Udp,
    Back,
}

pub open spec fn gamefilter_next(m: GamefilterMenuState) -> GamefilterMenuState {
    match m {
        GamefilterMenuState::Tcp => GamefilterMenuState::Udp,
        GamefilterMenuState::Udp => GamefilterMenuState::Back,
        GamefilterMenuState::Back => GamefilterMenuState::Tcp,
    }
}

pub open spec fn gamefilter_prev(m: GamefilterMenuState) -> GamefilterMenuState {
    match m {
        GamefilterMenuState::Tcp => GamefilterMenuState::Back,
        GamefilterMenuState::Udp => GamefilterMenuState::Tcp,
        GamefilterMenuState::Back => GamefilterMenuState::Udp,
    }
}

impl GamefilterMenuState {
    /// The item below; from the last, the first.
    pub fn next(self) -> (r: Self)
        ensures
            r == gamefilter_next(self),
    {
        match self {
            GamefilterMenuState::Tcp => GamefilterMenuState::Udp,
            GamefilterMenuState::Udp => GamefilterMenuState::Back,
            GamefilterMenuState::Back => GamefilterMenuState::Tcp,
        }
    }

    /// The item above; from the first, the last.
    pub fn prev(self) -> (r: Self)
        ensures
            r == gamefilter_prev(self),
    {
        match self {
            GamefilterMenuState::Tcp => GamefilterMenuState::Back,
            GamefilterMenuState::Udp => GamefilterMenuState::Tcp,
            GamefilterMenuState::Back => GamefilterMenuState::Udp,
        }
    }
}

/// The items of the Windows Defender menu.
#[derive(Debug, Clone, Copy, PartialEq, Eq, Structural)]
pub enum DefenderMenuState {
    Add,
    Remove,
    Back,
}

pub open spec fn defender_next(m: DefenderMenuState) -> DefenderMenuState {
    match m {
        DefenderMenuState::Add => DefenderMenuState::Remove,
        DefenderMenuState::Remove => DefenderMenuState::Back,
        DefenderMenuState::Back => DefenderMenuState::Add,
    }
}

pub open spec fn defender_prev(m: DefenderMenuState) -> DefenderMenuState {
    match m {
        DefenderMenuState::Add => DefenderMenuState::Back,
        DefenderMenuState::Remove => DefenderMenuState::Add,
        DefenderMenuState::Back => DefenderMenuState::Remove,
    }
}

impl DefenderMenuState {
    /// The item below; from the last, the first.
    pub fn next(self) -> (r: Self)
        ensures
            r == defender_next(self),
    {
        match self {
            DefenderMenuState::Add => DefenderMenuState::Remove,
            DefenderMenuState::Remove => DefenderMenuState::Back,
            DefenderMenuState::Back => DefenderMenuState::Add,
        }
    }

    /// The item above; from the first, the last.
    pub fn prev(self) -> (r: Self)
        ensures
            r == defender_prev(self),
    {
        match self {
            DefenderMenuState::Add => DefenderMenuState::Back,
            DefenderMenuState::Remove => DefenderMenuState::Add,
            DefenderMenuState::Back => DefenderMenuState::Remove,
        }
    }
}

/// The items of the autotune menu, in menu order.
#[derive(Debug, Clone, Copy, PartialEq, Eq, Structural)]
pub enum AutotuneMenuState {
    PresetSelection,
    NumRequests,
    Strategies,
    Protocols,
    BlockChecks,
    EditCustom,
    Results,
    Run,
    Back,
}

/// The autotune menu item at a position (the last item for positions past it).
pub open spec fn autotune_item(i: int) -> AutotuneMenuState {
    if i == 0 {
        AutotuneMenuState::PresetSelection
    } else if i == 1 {
        AutotuneMenuState::NumRequests
    } else if i == 2 {
        AutotuneMenuState::Strategies
    } else if i == 3 {
        AutotuneMenuState::Protocols
    } else if i == 4 {
        AutotuneMenuState::BlockChecks
    } else if i == 5 {
        AutotuneMenuState::EditCustom
    } else if i == 6 {
        AutotuneMenuState::Results
    } else if i == 7 {
        AutotuneMenuState::Run
    } else {
        AutotuneMenuState::Back
    }
}

/// The autotune menu item at a position.
pub fn autotune_item_at(i: usize) -> (m: AutotuneMenuState)
    ensures
        m == autotune_item(i as int),
{
    if i == 0 {
        AutotuneMenuState::PresetSelection
    } else if i == 1 {
        AutotuneMenuState::NumRequests
    } else if i == 2 {
        AutotuneMenuState::Strategies
    } else if i == 3 {
        AutotuneMenuState::Protocols
    } else if i == 4 {
        AutotuneMenuState::BlockChecks
    } else if i == 5 {
        AutotuneMenuState::EditCustom
    } else if i == 6 {
        AutotuneMenuState::Results
    } else if i == 7 {
        AutotuneMenuState::Run
    } else {
        AutotuneMenuState::Back
    }
}

/// The items of the autotune protocol menu.
#[derive(Debug, Clone, Copy, PartialEq, Eq, Structural)]
pub enum AutotuneProtocolsState {
    Http,
    Https,
    Tls12,
    Tls13,
    Quic,
    Back,
}

pub open spec fn protocols_next(m: AutotuneProtocolsState) -> AutotuneProtocolsState {
    match m {
        AutotuneProtocolsState::Http => AutotuneProtocolsState::Https,
        AutotuneProtocolsState::Https => AutotuneProtocolsState::Tls12,
        AutotuneProtocolsState::Tls12 => AutotuneProtocolsState::Tls13,
        AutotuneProtocolsState::Tls13 => AutotuneProtocolsState::Quic,
        AutotuneProtocolsState::Quic => AutotuneProtocolsState::Back,
        AutotuneProtocolsState::Back => AutotuneProtocolsState::Http,
    }
}

pub open spec fn protocols_prev(m: AutotuneProtocolsState) -> AutotuneProtocolsState {
    match m {
        AutotuneProtocolsState::Http => AutotuneProtocolsState::Back,
        AutotuneProtocolsState::Https => AutotuneProtocolsState::Http,
        AutotuneProtocolsState::Tls12 => AutotuneProtocolsState::Https,
        AutotuneProtocolsState::Tls13 => AutotuneProtocolsState::Tls12,
        AutotuneProtocolsState::Quic => AutotuneProtocolsState::Tls13,
        AutotuneProtocolsState::Back => AutotuneProtocolsState::Quic,
    }
}

/// The item below in the protocol menu.
pub fn protocols_next_item(m: AutotuneProtocolsState) -> (r: AutotuneProtocolsState)
    ensures
        r == protocols_next(m),
{
    match m {
        AutotuneProtocolsState::Http => AutotuneProtocolsState::Https,
        AutotuneProtocolsState::Https => AutotuneProtocolsState::Tls12,
        AutotuneProtocolsState::Tls12 => AutotuneProtocolsState::Tls13,
        AutotuneProtocolsState::Tls13 => AutotuneProtocolsState::Quic,
        AutotuneProtocolsState::Quic => AutotuneProtocolsState::Back,
        AutotuneProtocolsState::Back => AutotuneProtocolsState::Http,
    }
}

/// The item above in the protocol menu.
pub fn protocols_prev_item(m: AutotuneProtocolsState) -> (r: AutotuneProtocolsState)
    ensures
        r == protocols_prev(m),
{
    match m {
        AutotuneProtocolsState::Http => AutotuneProtocolsState::Back,
        AutotuneProtocolsState::Https => AutotuneProtocolsState::Http,
        AutotuneProtocolsState::Tls12 => AutotuneProtocolsState::Https,
        AutotuneProtocolsState::Tls13 => AutotuneProtocolsState::Tls12,
        AutotuneProtocolsState::Quic => AutotuneProtocolsState::Tls13,
        AutotuneProtocolsState::Back => AutotuneProtocolsState::Quic,
    }
}

/// The items of the autotune block-check menu.
#[derive(Debug, Clone, Copy, PartialEq, Eq, Structural)]
pub enum AutotuneBlockChecksState {
    DnsSpoof,
    TcpRst,
    SniBlock,
    SiberianBlock,
    QuicBlock,
    CidrWhitelist,
    Back,
}

pub open spec fn checks_next(m: AutotuneBlockChecksState) -> AutotuneBlockChecksState {
    match m {
        AutotuneBlockChecksState::DnsSpoof => AutotuneBlockChecksState::TcpRst,
        AutotuneBlockChecksState::TcpRst => AutotuneBlockChecksState::SniBlock,
        AutotuneBlockChecksState::SniBlock => AutotuneBlockChecksState::SiberianBlock,
        AutotuneBlockChecksState::SiberianBlock => AutotuneBlockChecksState::QuicBlock,
        AutotuneBlockChecksState::QuicBlock => AutotuneBlockChecksState::CidrWhitelist,
        AutotuneBlockChecksState::CidrWhitelist => AutotuneBlockChecksState::Back,
        AutotuneBlockChecksState::Back => AutotuneBlockChecksState::DnsSpoof,
    }
}

pub open spec fn checks_prev(m: AutotuneBlockChecksState) -> AutotuneBlockChecksState {
    match m {
        AutotuneBlockChecksState::DnsSpoof => AutotuneBlockChecksState::Back,
        AutotuneBlockChecksState::TcpRst => AutotuneBlockChecksState::DnsSpoof,
        AutotuneBlockChecksState::SniBlock => AutotuneBlockChecksState::TcpRst,
        AutotuneBlockChecksState::SiberianBlock => AutotuneBlockChecksState::SniBlock,
        AutotuneBlockChecksState::QuicBlock => AutotuneBlockChecksState::SiberianBlock,
        AutotuneBlockChecksState::CidrWhitelist => AutotuneBlockChecksState::QuicBlock,
        AutotuneBlockChecksState::Back => AutotuneBlockChecksState::CidrWhitelist,
    }
}

/// The item below in the block-check menu.
pub fn checks_next_item(m: AutotuneBlockChecksState) -> (r: AutotuneBlockChecksState)
    ensures
        r == checks_next(m),
{
    match m {
        AutotuneBlockChecksState::DnsSpoof => AutotuneBlockChecksState::TcpRst,
        AutotuneBlockChecksState::TcpRst => AutotuneBlockChecksState::SniBlock,
        AutotuneBlockChecksState::SniBlock => AutotuneBlockChecksState::SiberianBlock,
        AutotuneBlockChecksState::SiberianBlock => AutotuneBlockChecksState::QuicBlock,
        AutotuneBlockChecksState::QuicBlock => AutotuneBlockChecksState::CidrWhitelist,
        AutotuneBlockChecksState::CidrWhitelist => AutotuneBlockChecksState::Back,
        AutotuneBlockChecksState::Back => AutotuneBlockChecksState::DnsSpoof,
    }
}

/// The item above in the block-check menu.
pub fn checks_prev_item(m: AutotuneBlockChecksState) -> (r: AutotuneBlockChecksState)
    ensures
        r == checks_prev(m),
{
    match m {
        AutotuneBlockChecksState::DnsSpoof => AutotuneBlockChecksState::Back,
        AutotuneBlockChecksState::TcpRst => AutotuneBlockChecksState::DnsSpoof,
        AutotuneBlockChecksState::SniBlock => AutotuneBlockChecksState::TcpRst,
        AutotuneBlockChecksState::SiberianBlock => AutotuneBlockChecksState::SniBlock,
        AutotuneBlockChecksState::QuicBlock => AutotuneBlockChecksState::SiberianBlock,
        AutotuneBlockChecksState::CidrWhitelist => AutotuneBlockChecksState::QuicBlock,
        AutotuneBlockChecksState::Back => AutotuneBlockChecksState::CidrWhitelist,
    }
}

/// The items of the dependency download menu.
#[derive(Debug, Clone, Copy, PartialEq, Eq, Structural)]
pub enum DownloadDepsMenuState {
    ZapretDownloader,
    StrategiesDownloader,
    DownloadDefaults,
    Back,
}

pub open spec fn deps_next(m: DownloadDepsMenuState) -> DownloadDepsMenuState {
    match m {
        DownloadDepsMenuState::ZapretDownloader => DownloadDepsMenuState::StrategiesDownloader,
        DownloadDepsMenuState::StrategiesDownloader => DownloadDepsMenuState::DownloadDefaults,
        DownloadDepsMenuState::DownloadDefaults => DownloadDepsMenuState::Back,
        DownloadDepsMenuState::Back => DownloadDepsMenuState::ZapretDownloader,
    }
}

pub open spec fn deps_prev(m: DownloadDepsMenuState) -> DownloadDepsMenuState {
    match m {
        DownloadDepsMenuState::ZapretDownloader => DownloadDepsMenuState::Back,
        DownloadDepsMenuState::StrategiesDownloader => DownloadDepsMenuState::ZapretDownloader,
        DownloadDepsMenuState::DownloadDefaults => DownloadDepsMenuState::StrategiesDownloader,
        DownloadDepsMenuState::Back => DownloadDepsMenuState::DownloadDefaults,
    }
}

impl DownloadDepsMenuState {
    /// The item below; from the last, the first.
    pub fn next(self) -> (r: Self)
        ensures
            r == deps_next(self),
    {
        match self {
            DownloadDepsMenuState::ZapretDownloader => DownloadDepsMenuState::StrategiesDownloader,
            DownloadDepsMenuState::StrategiesDownloader => DownloadDepsMenuState::DownloadDefaults,
            DownloadDepsMenuState::DownloadDefaults => DownloadDepsMenuState::Back,
            DownloadDepsMenuState::Back => DownloadDepsMenuState::ZapretDownloader,
        }
    }

    /// The item above; from the first, the last.
    pub fn prev(self) -> (r: Self)
        ensures
            r == deps_prev(self),
    {
        match self {
            DownloadDepsMenuState::ZapretDownloader => DownloadDepsMenuState::Back,
            DownloadDepsMenuState::StrategiesDownloader => DownloadDepsMenuState::ZapretDownloader,
            DownloadDepsMenuState::DownloadDefaults => DownloadDepsMenuState::StrategiesDownloader,
            DownloadDepsMenuState::Back => DownloadDepsMenuState::DownloadDefaults,
        }
    }
}

/// The items of the zapret and strategies download menus.
#[derive(Debug, Clone, Copy, PartialEq, Eq, Structural)]
pub enum DownloadSubmenuState {
    Version,
    SelectTag,
    Start,
    Back,
}

pub open spec fn download_next(m: DownloadSubmenuState) -> DownloadSubmenuState {
    match m {
        DownloadSubmenuState::Version => DownloadSubmenuState::SelectTag,
        DownloadSubmenuState::SelectTag => DownloadSubmenuState::Start,
        DownloadSubmenuState::Start => DownloadSubmenuState::Back,
        DownloadSubmenuState::Back => DownloadSubmenuState::Version,
    }
}

pub open spec fn download_prev(m: DownloadSubmenuState) -> DownloadSubmenuState {
    match m {
        DownloadSubmenuState::Version => DownloadSubmenuState::Back,
        DownloadSubmenuState::SelectTag => DownloadSubmenuState::Version,
        DownloadSubmenuState::Start => DownloadSubmenuState::SelectTag,
        DownloadSubmenuState::Back => DownloadSubmenuState::Start,
    }
}

impl DownloadSubmenuState {
    /// The item below; from the last, the first.
    pub fn next(self) -> (r: Self)
        ensures
            r == download_next(self),
    {
        match self {
            DownloadSubmenuState::Version => DownloadSubmenuState::SelectTag,
            DownloadSubmenuState::SelectTag => DownloadSubmenuState::Start,
            DownloadSubmenuState::Start => DownloadSubmenuState::Back,
            DownloadSubmenuState::Back => DownloadSubmenuState::Version,
        }
    }

    /// The item above; from the first, the last.
    pub fn prev(self) -> (r: Self)
        ensures
            r == download_prev(self),
    {
        match self {
            DownloadSubmenuState::Version => DownloadSubmenuState::Back,
            DownloadSubmenuState::SelectTag => DownloadSubmenuState::Version,
            DownloadSubmenuState::Start => DownloadSubmenuState::SelectTag,
            DownloadSubmenuState::Back => DownloadSubmenuState::Start,
        }
    }
}

/// Moving down and then up, or up and then down, in any of the fixed
/// submenus returns to the item one started from.
pub proof fn lemma_submenus_round_trip(
    g: GamefilterMenuState,
    d: DefenderMenuState,
    p: AutotuneProtocolsState,
    c: AutotuneBlockChecksState,
    dd: DownloadDepsMenuState,
    ds: DownloadSubmenuState,
)
    ensures
        gamefilter_prev(gamefilter_next(g)) == g && gamefilter_next(gamefilter_prev(g)) == g,
        defender_prev(defender_next(d)) == d && defender_next(defender_prev(d)) == d,
        protocols_prev(protocols_next(p)) == p && protocols_next(protocols_prev(p)) == p,
        checks_prev(checks_next(c)) == c && checks_next(checks_prev(c)) == c,
        deps_prev(deps_next(dd)) == dd && deps_next(deps_prev(dd)) == dd,
        download_prev(download_next(ds)) == ds && download_next(download_prev(ds)) == ds,
{
}

/// Which version of a download to fetch.
#[derive(Debug, Clone, PartialEq, Eq)]
pub enum VersionTarget {
    Recommended,
    Latest,
    Tag(String),
}

/// The version target after a cycle: `Recommended` and `Latest` swap either
/// way; a tag goes to `Recommended` forward and to `Latest` backward.
pub open spec fn cycled(t: VersionTarget, forward: bool) -> VersionTarget {
    match t {
        VersionTarget::Recommended => VersionTarget::Latest,
        VersionTarget::Latest => VersionTarget::Recommended,
        VersionTarget::Tag(_) => if forward {
            VersionTarget::Recommended
        } else {
            VersionTarget::Latest
        },
    }
}

impl VersionTarget {
    /// The next version target in the given direction.
    pub fn cycle(&self, forward: bool) -> (r: Self)
        ensures
            r == cycled(*self, forward),
    {
        if forward {
            match self {
                VersionTarget::Recommended => VersionTarget::Latest,
                VersionTarget::Latest => VersionTarget::Recommended,
                VersionTarget::Tag(_) => VersionTarget::Recommended,
            }
        } else {
            match self {
                VersionTarget::Recommended => VersionTarget::Latest,
                VersionTarget::Latest => VersionTarget::Recommended,
                VersionTarget::Tag(_) => VersionTarget::Latest,
            }
        }
    }
}

/// Cycling twice, in either directions, returns to `Recommended` or `Latest`
/// where one started from one of them, and never leaves a tag selected.
pub proof fn lemma_version_cycle(t: VersionTarget, f1: bool, f2: bool)
    ensures
        !(t is Tag) ==> cycled(cycled(t, f1), f2) == t,
        !(cycled(t, f1) is Tag),
{
}

} // verus!
