//! What the menus show: for each screen its title, its rows of styled text
//! cells, and the row the cursor is on. Drawing them is the caller's part.
use vstd::prelude::*;
use crate::menus::{
    ActiveScreen, AutotuneBlockChecksState, AutotuneMenuState, AutotuneProtocolsState, DownloadDepsMenuState, DownloadSubmenuState,
    GamefilterMenuState, MainMenuState, VersionTarget,
};
use crate::services::InitType;
use crate::state::AppState;
use crate::text;

verus! {

/// How a cell is drawn; on the cursor's row every tone is drawn highlighted.
#[derive(Debug, Clone, Copy, PartialEq, Eq, Structural)]
pub enum Tone {
    /// A menu item's label.
    Item,
    /// A value shown beside a label.
    Value,
    /// A switch that is on.
    Active,
    /// A switch that is off.
    Inactive,
    /// An option that is not the current one.
    Dim,
    /// The caption of a status line.
    Label,
    /// A state that needs attention.
    Warn,
}

/// A piece of text with its tone.
#[derive(Debug, Clone)]
pub struct Cell {
    pub text: String,
    pub tone: Tone,
}

/// A cell as text and tone.
pub open spec fn cell_view(c: Cell) -> (Seq<char>, Tone) {
    (c.text@, c.tone)
}

/// A row as texts and tones.
pub open spec fn row_view(r: Vec<Cell>) -> Seq<(Seq<char>, Tone)> {
    r@.map_values(|c: Cell| cell_view(c))
}

/// Rows as texts and tones.
pub open spec fn rows_view(rs: Seq<Vec<Cell>>) -> Seq<Seq<(Seq<char>, Tone)>> {
    rs.map_values(|r: Vec<Cell>| row_view(r))
}

/// A screen of the menu.
#[derive(Debug, Clone)]
pub struct MenuView {
    pub title: String,
    pub rows: Vec<Vec<Cell>>,
    pub selected: usize,
}

/// A row that is only a label.
pub open spec fn plain(label: Seq<char>) -> Seq<(Seq<char>, Tone)> {
    seq![(" "@ + label, Tone::Item)]
}

/// A row with a label and a value to cycle through.
pub open spec fn labeled(label: Seq<char>, value: Seq<char>) -> Seq<(Seq<char>, Tone)> {
    seq![(" "@ + label + ": "@, Tone::Item), ("< "@ + value + " >"@, Tone::Value)]
}

/// A row with a label and an on/off switch.
pub open spec fn switch(label: Seq<char>, on: bool) -> Seq<(Seq<char>, Tone)> {
    seq![
        (" "@ + label + ": "@, Tone::Item),
        (if on { "[ ON ]"@ } else { "[ OFF ]"@ }, if on { Tone::Active } else { Tone::Inactive }),
    ]
}

fn plain_row(label: &str) -> (r: Vec<Cell>)
    ensures
        row_view(r) == plain(label@),
{
    let r = vec![Cell { text: String::from_str(" ").concat(label), tone: Tone::Item }];
    assert(row_view(r) =~= plain(label@));
    r
}

fn labeled_row(label: &str, value: &str) -> (r: Vec<Cell>)
    ensures
        row_view(r) == labeled(label@, value@),
{
    let r = vec![
        Cell { text: String::from_str(" ").concat(label).concat(": "), tone: Tone::Item },
        Cell { text: String::from_str("< ").concat(value).concat(" >"), tone: Tone::Value },
    ];
    assert(row_view(r) =~= labeled(label@, value@));
    r
}

fn switch_row(label: &str, on: bool) -> (r: Vec<Cell>)
    ensures
        row_view(r) == switch(label@, on),
{
    let r = vec![
        Cell { text: String::from_str(" ").concat(label).concat(": "), tone: Tone::Item },
        Cell {
            text: String::from_str(if on { "[ ON ]" } else { "[ OFF ]" }),
            tone: if on { Tone::Active } else { Tone::Inactive },
        },
    ];
    assert(row_view(r) =~= switch(label@, on));
    r
}

fn push_row(rows: &mut Vec<Vec<Cell>>, r: Vec<Cell>)
    ensures
        rows_view(final(rows)@) == rows_view(old(rows)@).push(row_view(r)),
{
    let ghost before = rows_view(rows@);
    rows.push(r);
    assert(rows_view(rows@) =~= before.push(row_view(r)));
}

/// The entry at `i`, or `none` past the end.
pub open spec fn entry_or_none(v: Seq<String>, i: int) -> Seq<char> {
    if 0 <= i < v.len() {
        v[i]@
    } else {
        "none"@
    }
}

fn entry_text(v: &Vec<String>, i: usize) -> (s: String)
    ensures
        s@ == entry_or_none(v@, i as int),
{
    if i < v.len() {
        v[i].clone()
    } else {
        String::from_str("none")
    }
}

/// The game filters that are on: `TCP+UDP`, `TCP`, `UDP` or `OFF`.
pub open spec fn gamefilter_text(tcp: bool, udp: bool) -> Seq<char> {
    if tcp && udp {
        "TCP+UDP"@
    } else if tcp {
        "TCP"@
    } else if udp {
        "UDP"@
    } else {
        "OFF"@
    }
}

/// The rows of the main menu: the items with a row of their own (the other
/// items of the menu have none).
pub open spec fn main_rows(s: AppState) -> Seq<Seq<(Seq<char>, Tone)>> {
    seq![
        plain("Download dependencies"@),
        labeled("Interface"@, entry_or_none(s.interfaces@, s.selected_interface as int)),
        labeled("Strategy"@, entry_or_none(s.strategies@, s.selected_strategy as int)),
        labeled("Game filter"@, gamefilter_text(s.tcp_gamefilter, s.udp_gamefilter)),
        plain("Service settings"@),
        plain("Run zapret"@),
        plain("Quit"@),
    ]
}

/// The row the cursor is drawn on for a main menu item: its own row, or the
/// first row for an item without one.
pub open spec fn main_row(m: MainMenuState) -> nat {
    match m {
        MainMenuState::DownloadDeps => 0,
        MainMenuState::Interface => 1,
        MainMenuState::Strategy => 2,
        MainMenuState::GamefilterSettings => 3,
        MainMenuState::ServiceSettings => 4,
        MainMenuState::Run => 5,
        MainMenuState::Quit => 6,
        _ => 0,
    }
}

fn main_row_of(m: MainMenuState) -> (i: usize)
    ensures
        i == main_row(m),
{
    match m {
        MainMenuState::DownloadDeps => 0,
        MainMenuState::Interface => 1,
        MainMenuState::Strategy => 2,
        MainMenuState::GamefilterSettings => 3,
        MainMenuState::ServiceSettings => 4,
        MainMenuState::Run => 5,
        MainMenuState::Quit => 6,
        _ => 0,
    }
}

fn gamefilter_str(tcp: bool, udp: bool) -> (s: &'static str)
    ensures
        s@ == gamefilter_text(tcp, udp),
{
    if tcp && udp {
        "TCP+UDP"
    } else if tcp {
        "TCP"
    } else if udp {
        "UDP"
    } else {
        "OFF"
    }
}

/// The main menu, with the cursor on the current item.
pub fn main_menu_view(s: &AppState) -> (v: MenuView)
    ensures
        v.title@ == "Main Menu"@,
        rows_view(v.rows@) == main_rows(*s),
        v.selected == main_row(s.nav.main_menu),
{
    let mut rows: Vec<Vec<Cell>> = Vec::new();
    push_row(&mut rows, plain_row("Download dependencies"));
    push_row(&mut rows, labeled_row("Interface", entry_text(&s.interfaces, s.selected_interface).as_str()));
    push_row(&mut rows, labeled_row("Strategy", entry_text(&s.strategies, s.selected_strategy).as_str()));
    push_row(&mut rows, labeled_row("Game filter", gamefilter_str(s.tcp_gamefilter, s.udp_gamefilter)));
    push_row(&mut rows, plain_row("Service settings"));
    push_row(&mut rows, plain_row("Run zapret"));
    push_row(&mut rows, plain_row("Quit"));
    assert(rows_view(rows@) =~= main_rows(*s));
    MenuView { title: String::from_str("Main Menu"), rows, selected: main_row_of(s.nav.main_menu) }
}

/// The items of the service menu for the service's state.
pub open spec fn service_rows(installed: bool, active: bool) -> Seq<Seq<(Seq<char>, Tone)>> {
    if !installed {
        seq![plain("Install and start the service"@), plain("Back"@)]
    } else if active {
        seq![plain("Stop the service"@), plain("Restart the service"@), plain("Remove the service"@), plain("Back"@)]
    } else {
        seq![plain("Start the service"@), plain("Remove the service"@), plain("Back"@)]
    }
}

/// The service menu, with the cursor on the current item.
pub fn service_menu_view(s: &AppState) -> (v: MenuView)
    ensures
        v.title@ == "Service"@,
        rows_view(v.rows@) == service_rows(s.service_installed, s.service_active),
        v.selected == s.nav.service_menu_index,
{
    let mut rows: Vec<Vec<Cell>> = Vec::new();
    if !s.service_installed {
        push_row(&mut rows, plain_row("Install and start the service"));
    } else if s.service_active {
        push_row(&mut rows, plain_row("Stop the service"));
        push_row(&mut rows, plain_row("Restart the service"));
        push_row(&mut rows, plain_row("Remove the service"));
    } else {
        push_row(&mut rows, plain_row("Start the service"));
        push_row(&mut rows, plain_row("Remove the service"));
    }
    push_row(&mut rows, plain_row("Back"));
    assert(rows_view(rows@) =~= service_rows(s.service_installed, s.service_active));
    MenuView { title: String::from_str("Service"), rows, selected: s.nav.service_menu_index }
}

/// The protocol switches of the autotune.
pub open spec fn protocol_rows(s: AppState) -> Seq<Seq<(Seq<char>, Tone)>> {
    let c = s.autotune_config;
    seq![
        switch("HTTP"@, c.check_http),
        switch("HTTPS"@, c.check_https),
        switch("TLS 1.2"@, c.check_tls12),
        switch("TLS 1.3"@, c.check_tls13),
        switch("QUIC"@, c.check_quic),
        plain("Back"@),
    ]
}

/// The row of a protocol menu item.
pub open spec fn protocol_row(m: AutotuneProtocolsState) -> nat {
    match m {
        AutotuneProtocolsState::Http => 0,
        AutotuneProtocolsState::Https => 1,
        AutotuneProtocolsState::Tls12 => 2,
        AutotuneProtocolsState::Tls13 => 3,
        AutotuneProtocolsState::Quic => 4,
        AutotuneProtocolsState::Back => 5,
    }
}

/// The autotune's protocol menu, with the cursor on the current item.
pub fn protocols_view(s: &AppState) -> (v: MenuView)
    ensures
        v.title@ == "Autotune protocols"@,
        rows_view(v.rows@) == protocol_rows(*s),
        v.selected == protocol_row(s.nav.autotune_protocols_menu),
{
    let c = &s.autotune_config;
    let mut rows: Vec<Vec<Cell>> = Vec::new();
    push_row(&mut rows, switch_row("HTTP", c.check_http));
    push_row(&mut rows, switch_row("HTTPS", c.check_https));
    push_row(&mut rows, switch_row("TLS 1.2", c.check_tls12));
    push_row(&mut rows, switch_row("TLS 1.3", c.check_tls13));
    push_row(&mut rows, switch_row("QUIC", c.check_quic));
    push_row(&mut rows, plain_row("Back"));
    assert(rows_view(rows@) =~= protocol_rows(*s));
    let selected: usize = match s.nav.autotune_protocols_menu {
        AutotuneProtocolsState::Http => 0,
        AutotuneProtocolsState::Https => 1,
        AutotuneProtocolsState::Tls12 => 2,
        AutotuneProtocolsState::Tls13 => 3,
        AutotuneProtocolsState::Quic => 4,
        AutotuneProtocolsState::Back => 5,
    };
    MenuView { title: String::from_str("Autotune protocols"), rows, selected }
}

/// The protocols switched on, as the autotune menu lists them.
pub open spec fn protocols_text(s: AppState) -> Seq<char> {
    let c = s.autotune_config;
    let on_off = |b: bool| if b { "ON"@ } else { "OFF"@ };
    "HTTP:"@ + on_off(c.check_http) + " HTTPS:"@ + on_off(c.check_https) + " TLS1.2:"@ + on_off(c.check_tls12)
        + " TLS1.3:"@ + on_off(c.check_tls13) + " QUIC:"@ + on_off(c.check_quic)
}

fn on_off(b: bool) -> (s: &'static str)
    ensures
        s@ == (if b { "ON"@ } else { "OFF"@ }),
{
    if b {
        "ON"
    } else {
        "OFF"
    }
}

/// The strategies to test: `none` when none is chosen among some, else
/// chosen / all.
pub open spec fn strategies_text(s: AppState) -> Seq<char> {
    let n = s.autotune_config.strategy_indices@.len();
    if n == 0 && s.strategies@.len() > 0 {
        "none"@
    } else {
        crate::text::decimal(n) + " / "@ + crate::text::decimal(s.strategies@.len())
    }
}

/// The number of requests shown: the number being typed with a blinking
/// cursor (`_` after an even number of characters) while editing, else the
/// setting.
pub open spec fn requests_text(s: AppState) -> Seq<char> {
    if s.autotune_request_editing {
        s.autotune_request_buf@ + if s.autotune_request_buf@.len() % 2 == 0 {
            "_"@
        } else {
            " "@
        }
    } else {
        crate::text::decimal(s.autotune_config.num_requests as nat)
    }
}

/// The number of block checks switched on.
pub open spec fn checks_text(s: AppState) -> Seq<char> {
    crate::text::decimal(crate::autotune::count_true(s.autotune_config.block_checks.enabled@)) + " / "@
        + crate::text::decimal(s.autotune_config.block_checks.enabled@.len())
}

/// The rows of the autotune menu.
pub open spec fn autotune_rows(s: AppState) -> Seq<Seq<(Seq<char>, Tone)>> {
    seq![
        labeled("Domains"@, crate::actions::preset_label(s.autotune_config.preset_indices@)),
        labeled("Requests per check"@, requests_text(s)),
        labeled("Strategies"@, strategies_text(s)),
        labeled("Protocols"@, protocols_text(s)),
        labeled("Block checks"@, checks_text(s)),
        plain("Edit custom domains"@),
        if s.saved_results_lines is Some || s.autotune_results is Some {
            labeled("Results"@, "view"@)
        } else {
            plain("Results: none yet"@)
        },
        plain("Run the autotune"@),
        plain("Back"@),
    ]
}

/// The row of an autotune menu item.
pub open spec fn autotune_row(m: AutotuneMenuState) -> nat {
    match m {
        AutotuneMenuState::PresetSelection => 0,
        AutotuneMenuState::NumRequests => 1,
        AutotuneMenuState::Strategies => 2,
        AutotuneMenuState::Protocols => 3,
        AutotuneMenuState::BlockChecks => 4,
        AutotuneMenuState::EditCustom => 5,
        AutotuneMenuState::Results => 6,
        AutotuneMenuState::Run => 7,
        AutotuneMenuState::Back => 8,
    }
}

fn decimal_string(n: usize) -> (s: String)
    ensures
        s@ == crate::text::decimal(n as nat),
{
    let d = crate::text::decimal_chars(n);
    crate::text::from_chars(d.as_slice())
}

fn count_on(v: &Vec<bool>) -> (n: usize)
    ensures
        n == crate::autotune::count_true(v@),
{
    let mut n: usize = 0;
    let mut i: usize = 0;
    while i < v.len()
        invariant
            i <= v@.len(),
            n == crate::autotune::count_true(v@.take(i as int)),
            n <= i,
        decreases v.len() - i,
    {
        assert(v@.take(i + 1).drop_last() =~= v@.take(i as int));
        if v[i] {
            n += 1;
        }
        i += 1;
    }
    assert(v@.take(v@.len() as int) =~= v@);
    n
}

fn requests_str(s: &AppState) -> (r: String)
    ensures
        r@ == requests_text(*s),
{
    if s.autotune_request_editing {
        let even = s.autotune_request_buf.as_str().unicode_len() % 2 == 0;
        s.autotune_request_buf.clone().concat(if even { "_" } else { " " })
    } else {
        decimal_string(s.autotune_config.num_requests)
    }
}

fn strategies_str(s: &AppState) -> (r: String)
    ensures
        r@ == strategies_text(*s),
{
    let n = s.autotune_config.strategy_indices.len();
    if n == 0 && s.strategies.len() > 0 {
        String::from_str("none")
    } else {
        decimal_string(n).concat(" / ").concat(decimal_string(s.strategies.len()).as_str())
    }
}

fn protocols_str(s: &AppState) -> (r: String)
    ensures
        r@ == protocols_text(*s),
{
    let c = &s.autotune_config;
    String::from_str("HTTP:").concat(on_off(c.check_http)).concat(" HTTPS:").concat(on_off(c.check_https)).concat(
        " TLS1.2:",
    ).concat(on_off(c.check_tls12)).concat(" TLS1.3:").concat(on_off(c.check_tls13)).concat(" QUIC:").concat(
        on_off(c.check_quic),
    )
}

fn checks_str(s: &AppState) -> (r: String)
    ensures
        r@ == checks_text(*s),
{
    let e = &s.autotune_config.block_checks.enabled;
    decimal_string(count_on(e)).concat(" / ").concat(decimal_string(e.len()).as_str())
}

/// The autotune menu, with the cursor on the current item.
pub fn autotune_menu_view(s: &AppState) -> (v: MenuView)
    ensures
        v.title@ == "Autotune"@,
        rows_view(v.rows@) == autotune_rows(*s),
        v.selected == autotune_row(s.nav.autotune_menu),
{
    let mut rows: Vec<Vec<Cell>> = Vec::new();
    let presets = crate::actions::preset_label_text(&s.autotune_config.preset_indices);
    push_row(&mut rows, labeled_row("Domains", presets.as_str()));
    push_row(&mut rows, labeled_row("Requests per check", requests_str(s).as_str()));
    push_row(&mut rows, labeled_row("Strategies", strategies_str(s).as_str()));
    push_row(&mut rows, labeled_row("Protocols", protocols_str(s).as_str()));
    push_row(&mut rows, labeled_row("Block checks", checks_str(s).as_str()));
    push_row(&mut rows, plain_row("Edit custom domains"));
    if s.saved_results_lines.is_some() || s.autotune_results.is_some() {
        push_row(&mut rows, labeled_row("Results", "view"));
    } else {
        push_row(&mut rows, plain_row("Results: none yet"));
    }
    push_row(&mut rows, plain_row("Run the autotune"));
    push_row(&mut rows, plain_row("Back"));
    assert(rows_view(rows@) =~= autotune_rows(*s));
    let selected: usize = match s.nav.autotune_menu {
        AutotuneMenuState::PresetSelection => 0,
        AutotuneMenuState::NumRequests => 1,
        AutotuneMenuState::Strategies => 2,
        AutotuneMenuState::Protocols => 3,
        AutotuneMenuState::BlockChecks => 4,
        AutotuneMenuState::EditCustom => 5,
        AutotuneMenuState::Results => 6,
        AutotuneMenuState::Run => 7,
        AutotuneMenuState::Back => 8,
    };
    MenuView { title: String::from_str("Autotune"), rows, selected }
}


/// Where the cursor of a list of `n` entries and a last `Back` row is drawn:
/// on its row, or on the first row when it is past the `Back` row.
pub open spec fn list_cursor(i: nat, n: nat) -> nat {
    if i <= n {
        i
    } else {
        0
    }
}

/// A list of names, each behind `mark` where it is the entry at `at` and
/// behind three spaces elsewhere.
pub open spec fn marked(mark: Seq<char>, names: Seq<String>, at: int) -> Seq<Seq<(Seq<char>, Tone)>> {
    Seq::new(names.len(), |i: int| plain((if i == at { mark } else { "   "@ }) + names[i]@))
}

fn marked_rows(mark: &str, names: &Vec<String>, at: usize) -> (rows: Vec<Vec<Cell>>)
    ensures
        rows_view(rows@) == marked(mark@, names@, at as int),
{
    let mut rows: Vec<Vec<Cell>> = Vec::new();
    let mut i: usize = 0;
    while i < names.len()
        invariant
            i <= names@.len(),
            rows_view(rows@) =~= marked(mark@, names@, at as int).take(i as int),
        decreases names.len() - i,
    {
        let prefix = if i == at {
            mark
        } else {
            "   "
        };
        let t = String::from_str(" ").concat(prefix).concat(names[i].as_str());
        assert(t@ =~= " "@ + (prefix@ + names@[i as int]@));
        let r = vec![Cell { text: t, tone: Tone::Item }];
        assert(row_view(r) =~= plain(prefix@ + names@[i as int]@));
        push_row(&mut rows, r);
        i += 1;
    }
    rows
}

/// The rows of the strategy menu: the strategies, the current one marked,
/// then the way back.
pub open spec fn strategy_rows(s: AppState) -> Seq<Seq<(Seq<char>, Tone)>> {
    marked("\u{F00C} "@, s.strategies@, s.selected_strategy as int).push(plain("\u{F04A} Back to Main Menu"@))
}

fn cursor_of(i: usize, n: usize) -> (c: usize)
    ensures
        c == list_cursor(i as nat, n as nat),
{
    if i <= n {
        i
    } else {
        0
    }
}

/// The strategy menu, with the cursor on the current item.
pub fn strategy_menu_view(s: &AppState) -> (v: MenuView)
    ensures
        v.title@ == "Select Strategy"@,
        rows_view(v.rows@) == strategy_rows(*s),
        v.selected == list_cursor(s.nav.strategy_menu_index as nat, s.strategies@.len()),
{
    let mut rows = marked_rows("\u{F00C} ", &s.strategies, s.selected_strategy);
    push_row(&mut rows, plain_row("\u{F04A} Back to Main Menu"));
    MenuView {
        title: String::from_str("Select Strategy"),
        rows,
        selected: cursor_of(s.nav.strategy_menu_index, s.strategies.len()),
    }
}

/// The tags of one download and the entry the cursor is on.
pub open spec fn tag_list(s: AppState, zapret: bool) -> (Seq<String>, usize) {
    if zapret {
        (s.available_nfqws_tags@, s.nav.nfqws_tag_index)
    } else {
        (s.available_strat_tags@, s.nav.strat_tag_index)
    }
}

/// The rows of a tag menu: the tags, the one under the cursor marked, then
/// the way back.
pub open spec fn tag_rows(s: AppState, zapret: bool) -> Seq<Seq<(Seq<char>, Tone)>> {
    let (tags, at) = tag_list(s, zapret);
    marked("\u{F061} "@, tags, at as int).push(plain("\u{F04A} Back to Download Menu"@))
}

/// The tag menu of the zapret download or of the strategies download.
pub fn tag_menu_view(s: &AppState, zapret: bool) -> (v: MenuView)
    ensures
        v.title@ == (if zapret {
            "Select a zapret tag"@
        } else {
            "Select a strategies tag"@
        }),
        rows_view(v.rows@) == tag_rows(*s, zapret),
        v.selected == list_cursor(tag_list(*s, zapret).1 as nat, tag_list(*s, zapret).0.len()),
{
    let (tags, at) = if zapret {
        (&s.available_nfqws_tags, s.nav.nfqws_tag_index)
    } else {
        (&s.available_strat_tags, s.nav.strat_tag_index)
    };
    let mut rows = marked_rows("\u{F061} ", tags, at);
    push_row(&mut rows, plain_row("\u{F04A} Back to Download Menu"));
    let title = if zapret {
        String::from_str("Select a zapret tag")
    } else {
        String::from_str("Select a strategies tag")
    };
    MenuView { title, rows, selected: cursor_of(at, tags.len()) }
}

/// A label followed by the two states of a switch, the current one marked.
pub open spec fn two_way(label: Seq<char>, on: bool) -> Seq<(Seq<char>, Tone)> {
    if on {
        seq![(label, Tone::Item), (" [● ON] "@, Tone::Active), (" [ OFF ] "@, Tone::Dim)]
    } else {
        seq![(label, Tone::Item), (" [ ON ] "@, Tone::Dim), (" [● OFF] "@, Tone::Inactive)]
    }
}

fn two_way_row(label: &str, on: bool) -> (r: Vec<Cell>)
    ensures
        row_view(r) == two_way(label@, on),
{
    let r = if on {
        vec![
            Cell { text: String::from_str(label), tone: Tone::Item },
            Cell { text: String::from_str(" [● ON] "), tone: Tone::Active },
            Cell { text: String::from_str(" [ OFF ] "), tone: Tone::Dim },
        ]
    } else {
        vec![
            Cell { text: String::from_str(label), tone: Tone::Item },
            Cell { text: String::from_str(" [ ON ] "), tone: Tone::Dim },
            Cell { text: String::from_str(" [● OFF] "), tone: Tone::Inactive },
        ]
    };
    assert(row_view(r) =~= two_way(label@, on));
    r
}

/// The rows of the game filter menu.
pub open spec fn gamefilter_rows(s: AppState) -> Seq<Seq<(Seq<char>, Tone)>> {
    seq![
        two_way(" 🎮 TCP Gamefilter:      "@, s.tcp_gamefilter),
        two_way(" 🕹️  UDP Gamefilter:      "@, s.udp_gamefilter),
        plain("🔙 Back to Main Menu"@),
    ]
}

/// The row of a game filter menu item.
pub open spec fn gamefilter_row(m: GamefilterMenuState) -> nat {
    match m {
        GamefilterMenuState::Tcp => 0,
        GamefilterMenuState::Udp => 1,
        GamefilterMenuState::Back => 2,
    }
}

/// The game filter menu, with the cursor on the current item.
pub fn gamefilter_menu_view(s: &AppState) -> (v: MenuView)
    ensures
        v.title@ == "Game Filter Settings"@,
        rows_view(v.rows@) == gamefilter_rows(*s),
        v.selected == gamefilter_row(s.nav.gamefilter_menu),
{
    let mut rows: Vec<Vec<Cell>> = Vec::new();
    push_row(&mut rows, two_way_row(" 🎮 TCP Gamefilter:      ", s.tcp_gamefilter));
    push_row(&mut rows, two_way_row(" 🕹️  UDP Gamefilter:      ", s.udp_gamefilter));
    push_row(&mut rows, plain_row("🔙 Back to Main Menu"));
    assert(rows_view(rows@) =~= gamefilter_rows(*s));
    let selected: usize = match s.nav.gamefilter_menu {
        GamefilterMenuState::Tcp => 0,
        GamefilterMenuState::Udp => 1,
        GamefilterMenuState::Back => 2,
    };
    MenuView { title: String::from_str("Game Filter Settings"), rows, selected }
}

/// The rows of the dependencies menu.
pub open spec fn deps_rows() -> Seq<Seq<(Seq<char>, Tone)>> {
    seq![
        plain("Download zapret (nfqws)"@),
        plain("Download strategies"@),
        plain("Download the recommended versions"@),
        plain("Back"@),
    ]
}

/// The row of a dependencies menu item.
pub open spec fn deps_row(m: DownloadDepsMenuState) -> nat {
    match m {
        DownloadDepsMenuState::ZapretDownloader => 0,
        DownloadDepsMenuState::StrategiesDownloader => 1,
        DownloadDepsMenuState::DownloadDefaults => 2,
        DownloadDepsMenuState::Back => 3,
    }
}

/// The dependencies menu, with the cursor on the current item.
pub fn deps_menu_view(s: &AppState) -> (v: MenuView)
    ensures
        v.title@ == "Download dependencies"@,
        rows_view(v.rows@) == deps_rows(),
        v.selected == deps_row(s.nav.download_deps_menu),
{
    let mut rows: Vec<Vec<Cell>> = Vec::new();
    push_row(&mut rows, plain_row("Download zapret (nfqws)"));
    push_row(&mut rows, plain_row("Download strategies"));
    push_row(&mut rows, plain_row("Download the recommended versions"));
    push_row(&mut rows, plain_row("Back"));
    assert(rows_view(rows@) =~= deps_rows());
    let selected: usize = match s.nav.download_deps_menu {
        DownloadDepsMenuState::ZapretDownloader => 0,
        DownloadDepsMenuState::StrategiesDownloader => 1,
        DownloadDepsMenuState::DownloadDefaults => 2,
        DownloadDepsMenuState::Back => 3,
    };
    MenuView { title: String::from_str("Download dependencies"), rows, selected }
}

/// One version choice: marked where it is the current one.
pub open spec fn version_option(current: bool, label: Seq<char>) -> (Seq<char>, Tone) {
    if current {
        (" [● "@ + label + "] "@, Tone::Value)
    } else {
        (" [ "@ + label + " ] "@, Tone::Dim)
    }
}

/// The recommended version of a download as it is shown: the zapret
/// release, or the strategies commit shortened to seven characters.
pub open spec fn recommended_text(zapret: bool) -> Seq<char> {
    if zapret {
        crate::download::ZAPRET_REC_VER@
    } else {
        crate::download::STRAT_REC_VER@.take(7)
    }
}

/// The version row of a download menu.
pub open spec fn version_row(zapret: bool, target: VersionTarget) -> Seq<(Seq<char>, Tone)> {
    seq![
        (" Version:"@, Tone::Item),
        version_option(target is Recommended, "Recommended ("@ + recommended_text(zapret) + ")"@),
        version_option(target is Latest, "Latest"@),
        version_option(
            target is Tag,
            match target {
                VersionTarget::Tag(t) => "Tag ("@ + t@ + ")"@,
                _ => "Tag"@,
            },
        ),
    ]
}

/// The version a download menu is set to.
pub open spec fn download_target(s: AppState, zapret: bool) -> VersionTarget {
    if zapret {
        s.nfqws_target
    } else {
        s.strat_target
    }
}

/// The rows of a download menu.
pub open spec fn download_rows(s: AppState, zapret: bool) -> Seq<Seq<(Seq<char>, Tone)>> {
    seq![
        version_row(zapret, download_target(s, zapret)),
        plain("  Choose a tag"@),
        plain("Start the download"@),
        plain("Back"@),
    ]
}

/// The row of a download menu item.
pub open spec fn download_row(m: DownloadSubmenuState) -> nat {
    match m {
        DownloadSubmenuState::Version => 0,
        DownloadSubmenuState::SelectTag => 1,
        DownloadSubmenuState::Start => 2,
        DownloadSubmenuState::Back => 3,
    }
}

fn version_cell(current: bool, label: &str) -> (c: Cell)
    ensures
        cell_view(c) == version_option(current, label@),
{
    if current {
        Cell { text: String::from_str(" [● ").concat(label).concat("] "), tone: Tone::Value }
    } else {
        Cell { text: String::from_str(" [ ").concat(label).concat(" ] "), tone: Tone::Dim }
    }
}

fn recommended_string(zapret: bool) -> (r: String)
    ensures
        r@ == recommended_text(zapret),
{
    if zapret {
        String::from_str(crate::download::ZAPRET_REC_VER)
    } else {
        let c = text::to_chars(crate::download::STRAT_REC_VER);
        proof {
            reveal_strlit("ef19845a801e4e743f7bdfdbd58f9745c6adbd60");
        }
        let short = text::slice_chars(c.as_slice(), 0, 7);
        assert(short@ =~= crate::download::STRAT_REC_VER@.take(7));
        text::from_chars(short.as_slice())
    }
}

/// The menu of the zapret download or of the strategies download, with the
/// cursor on the current item.
pub fn download_menu_view(s: &AppState, zapret: bool) -> (v: MenuView)
    ensures
        v.title@ == (if zapret {
            "Download zapret"@
        } else {
            "Download strategies"@
        }),
        rows_view(v.rows@) == download_rows(*s, zapret),
        v.selected == download_row(if zapret {
            s.nav.download_zapret_menu
        } else {
            s.nav.download_strategies_menu
        }),
{
    let target = if zapret {
        &s.nfqws_target
    } else {
        &s.strat_target
    };
    let rec = String::from_str("Recommended (").concat(recommended_string(zapret).as_str()).concat(")");
    let tag = match target {
        VersionTarget::Tag(t) => String::from_str("Tag (").concat(t.as_str()).concat(")"),
        _ => String::from_str("Tag"),
    };
    let is_rec = match target {
        VersionTarget::Recommended => true,
        _ => false,
    };
    let is_latest = match target {
        VersionTarget::Latest => true,
        _ => false,
    };
    let is_tag = match target {
        VersionTarget::Tag(_) => true,
        _ => false,
    };
    let version = vec![
        Cell { text: String::from_str(" Version:"), tone: Tone::Item },
        version_cell(is_rec, rec.as_str()),
        version_cell(is_latest, "Latest"),
        version_cell(is_tag, tag.as_str()),
    ];
    assert(row_view(version) =~= version_row(zapret, download_target(*s, zapret)));
    let mut rows: Vec<Vec<Cell>> = Vec::new();
    push_row(&mut rows, version);
    push_row(&mut rows, plain_row("  Choose a tag"));
    push_row(&mut rows, plain_row("Start the download"));
    push_row(&mut rows, plain_row("Back"));
    assert(rows_view(rows@) =~= download_rows(*s, zapret));
    let state = if zapret {
        s.nav.download_zapret_menu
    } else {
        s.nav.download_strategies_menu
    };
    let selected: usize = match state {
        DownloadSubmenuState::Version => 0,
        DownloadSubmenuState::SelectTag => 1,
        DownloadSubmenuState::Start => 2,
        DownloadSubmenuState::Back => 3,
    };
    let title = if zapret {
        String::from_str("Download zapret")
    } else {
        String::from_str("Download strategies")
    };
    MenuView { title, rows, selected }
}

/// The rows of the domain lists menu: each list by its file name, then the
/// way back.
pub open spec fn lists_rows(s: AppState) -> Seq<Seq<(Seq<char>, Tone)>> {
    Seq::new(
        s.lists_files@.len(),
        |i: int| plain(crate::outcomes::file_name(s.lists_files@[i]@)),
    ).push(plain("Back"@))
}

/// The domain lists menu, with the cursor where the menu's index is.
pub fn lists_menu_view(s: &AppState) -> (v: MenuView)
    ensures
        v.title@ == "Domain lists"@,
        rows_view(v.rows@) == lists_rows(*s),
        v.selected == s.nav.lists_menu_index,
{
    let files = &s.lists_files;
    let mut rows: Vec<Vec<Cell>> = Vec::new();
    let mut i: usize = 0;
    while i < files.len()
        invariant
            i <= files@.len(),
            rows_view(rows@) =~= Seq::new(
                files@.len(),
                |k: int| plain(crate::outcomes::file_name(files@[k]@)),
            ).take(i as int),
        decreases files.len() - i,
    {
        let path = text::to_chars(files[i].as_str());
        let name = crate::outcomes::file_name_chars(&path);
        push_row(&mut rows, plain_row(name.as_str()));
        i += 1;
    }
    push_row(&mut rows, plain_row("Back"));
    assert(rows_view(rows@) =~= lists_rows(*s));
    MenuView { title: String::from_str("Domain lists"), rows, selected: s.nav.lists_menu_index }
}

/// The rows of the autotune's strategy choice: each strategy with whether it
/// is tested, then the way back.
pub open spec fn autotune_strategy_rows(s: AppState) -> Seq<Seq<(Seq<char>, Tone)>> {
    Seq::new(
        s.strategies@.len(),
        |i: int| switch(s.strategies@[i]@, s.autotune_config.strategy_indices@.contains(i as usize)),
    ).push(plain("Back"@))
}

/// The autotune's strategy choice, with the cursor on the current item (on
/// the way back when the index is past it).
pub fn autotune_strategies_view(s: &AppState) -> (v: MenuView)
    ensures
        v.title@ == "Strategies to test"@,
        rows_view(v.rows@) == autotune_strategy_rows(*s),
        v.selected == (if s.nav.autotune_strat_index < s.strategies@.len() {
            s.nav.autotune_strat_index as nat
        } else {
            s.strategies@.len()
        }),
{
    let names = &s.strategies;
    let chosen = &s.autotune_config.strategy_indices;
    let mut rows: Vec<Vec<Cell>> = Vec::new();
    let mut i: usize = 0;
    while i < names.len()
        invariant
            i <= names@.len(),
            rows_view(rows@) =~= Seq::new(
                names@.len(),
                |k: int| switch(names@[k]@, chosen@.contains(k as usize)),
            ).take(i as int),
        decreases names.len() - i,
    {
        let on = crate::actions::contains_index(chosen, i);
        push_row(&mut rows, switch_row(names[i].as_str(), on));
        i += 1;
    }
    push_row(&mut rows, plain_row("Back"));
    assert(rows_view(rows@) =~= autotune_strategy_rows(*s));
    let selected = if s.nav.autotune_strat_index < names.len() {
        s.nav.autotune_strat_index
    } else {
        names.len()
    };
    MenuView { title: String::from_str("Strategies to test"), rows, selected }
}

/// Whether the check at `i` is on.
pub open spec fn check_on(s: AppState, i: int) -> bool {
    let e = s.autotune_config.block_checks.enabled@;
    i < e.len() && e[i]
}

/// The rows of the block check choice.
pub open spec fn block_check_rows(s: AppState) -> Seq<Seq<(Seq<char>, Tone)>> {
    seq![
        switch("DNS"@, check_on(s, 0)),
        switch("TCP RST"@, check_on(s, 1)),
        switch("SNI"@, check_on(s, 2)),
        switch("SIBERIAN"@, check_on(s, 3)),
        switch("QUIC"@, check_on(s, 4)),
        switch("CIDR"@, check_on(s, 5)),
        plain("Back"@),
    ]
}

/// The row of a block check menu item.
pub open spec fn block_check_row(m: AutotuneBlockChecksState) -> nat {
    match m {
        AutotuneBlockChecksState::DnsSpoof => 0,
        AutotuneBlockChecksState::TcpRst => 1,
        AutotuneBlockChecksState::SniBlock => 2,
        AutotuneBlockChecksState::SiberianBlock => 3,
        AutotuneBlockChecksState::QuicBlock => 4,
        AutotuneBlockChecksState::CidrWhitelist => 5,
        AutotuneBlockChecksState::Back => 6,
    }
}

/// The autotune's block check choice, with the cursor on the current item.
pub fn block_checks_view(s: &AppState) -> (v: MenuView)
    ensures
        v.title@ == "Block checks"@,
        rows_view(v.rows@) == block_check_rows(*s),
        v.selected == block_check_row(s.nav.autotune_block_checks_menu),
{
    let c = &s.autotune_config.block_checks;
    let mut rows: Vec<Vec<Cell>> = Vec::new();
    push_row(&mut rows, switch_row("DNS", c.get(0)));
    push_row(&mut rows, switch_row("TCP RST", c.get(1)));
    push_row(&mut rows, switch_row("SNI", c.get(2)));
    push_row(&mut rows, switch_row("SIBERIAN", c.get(3)));
    push_row(&mut rows, switch_row("QUIC", c.get(4)));
    push_row(&mut rows, switch_row("CIDR", c.get(5)));
    push_row(&mut rows, plain_row("Back"));
    assert(rows_view(rows@) =~= block_check_rows(*s));
    let selected: usize = match s.nav.autotune_block_checks_menu {
        AutotuneBlockChecksState::DnsSpoof => 0,
        AutotuneBlockChecksState::TcpRst => 1,
        AutotuneBlockChecksState::SniBlock => 2,
        AutotuneBlockChecksState::SiberianBlock => 3,
        AutotuneBlockChecksState::QuicBlock => 4,
        AutotuneBlockChecksState::CidrWhitelist => 5,
        AutotuneBlockChecksState::Back => 6,
    };
    MenuView { title: String::from_str("Block checks"), rows, selected }
}

/// The rows of the domain preset choice: each preset with whether it is
/// chosen, then the way back.
pub open spec fn preset_rows(s: AppState) -> Seq<Seq<(Seq<char>, Tone)>> {
    Seq::new(
        crate::autotune::preset_count(),
        |i: int| switch(crate::autotune::preset_name(i), s.autotune_config.preset_indices@.contains(i as usize)),
    ).push(plain("Back"@))
}

/// The autotune's domain preset choice, with the cursor where the menu's
/// index is.
pub fn presets_view(s: &AppState) -> (v: MenuView)
    ensures
        v.title@ == "Domain presets"@,
        rows_view(v.rows@) == preset_rows(*s),
        v.selected == s.nav.autotune_preset_index,
{
    let chosen = &s.autotune_config.preset_indices;
    let n = crate::autotune::presets_len();
    let mut rows: Vec<Vec<Cell>> = Vec::new();
    let mut i: usize = 0;
    while i < n
        invariant
            i <= n,
            n == crate::autotune::preset_count(),
            rows_view(rows@) =~= Seq::new(
                crate::autotune::preset_count(),
                |k: int| switch(crate::autotune::preset_name(k), chosen@.contains(k as usize)),
            ).take(i as int),
        decreases n - i,
    {
        let on = crate::actions::contains_index(chosen, i);
        let name = crate::autotune::preset_name_of(i);
        push_row(&mut rows, switch_row(name.as_str(), on));
        i += 1;
    }
    push_row(&mut rows, plain_row("Back"));
    assert(rows_view(rows@) =~= preset_rows(*s));
    MenuView { title: String::from_str("Domain presets"), rows, selected: s.nav.autotune_preset_index }
}

/// The rows of the results screen: each line of the saved report, or a note
/// that there is none, then the way back.
pub open spec fn results_rows(report: Option<Seq<char>>) -> Seq<Seq<(Seq<char>, Tone)>> {
    match report {
        Some(t) => Seq::new(text::lines(t).len(), |i: int| plain(text::lines(t)[i])),
        None => seq![plain("No results yet"@)],
    }.push(plain("Back"@))
}

/// The results screen for the saved report, if there is one; the cursor
/// stops at the way back.
pub fn results_view(s: &AppState, report: Option<&str>) -> (v: MenuView)
    ensures
        v.title@ == "Autotune results"@,
        rows_view(v.rows@) == results_rows(
            match report {
                Some(t) => Some(t@),
                None => None,
            },
        ),
        v.selected == (if s.nav.autotune_results_index < rows_view(v.rows@).len() {
            s.nav.autotune_results_index as int
        } else {
            rows_view(v.rows@).len() - 1
        }),
{
    let ghost r = match report {
        Some(t) => Some(t@),
        None => None,
    };
    let mut rows: Vec<Vec<Cell>> = Vec::new();
    match report {
        Some(t) => {
            let chars = text::to_chars(t);
            let ls = text::split_lines(chars.as_slice());
            let mut i: usize = 0;
            while i < ls.len()
                invariant
                    i <= ls@.len(),
                    ls.deep_view() == text::lines(t@),
                    rows_view(rows@) =~= Seq::new(
                        text::lines(t@).len(),
                        |k: int| plain(text::lines(t@)[k]),
                    ).take(i as int),
                decreases ls.len() - i,
            {
                let line = text::from_chars(ls[i].as_slice());
                proof {
                    assert(ls@[i as int]@ =~= ls.deep_view()[i as int]);
                }
                push_row(&mut rows, plain_row(line.as_str()));
                i += 1;
            }
        },
        None => {
            push_row(&mut rows, plain_row("No results yet"));
        },
    }
    push_row(&mut rows, plain_row("Back"));
    assert(rows_view(rows@) =~= results_rows(r));
    let last = rows.len() - 1;
    let selected = if s.nav.autotune_results_index < rows.len() {
        s.nav.autotune_results_index
    } else {
        last
    };
    MenuView { title: String::from_str("Autotune results"), rows, selected }
}


/// Whether a screen shows the service and dependency status under its list.
pub open spec fn shows_status(screen: ActiveScreen) -> bool {
    match screen {
        ActiveScreen::Main | ActiveScreen::ServiceSubmenu | ActiveScreen::DownloadDepsSubmenu
        | ActiveScreen::DownloadZapretSubmenu | ActiveScreen::DownloadStrategiesSubmenu
        | ActiveScreen::ZapretTagSelect | ActiveScreen::StrategyTagSelect => true,
        _ => false,
    }
}

/// Whether the current screen shows the status lines.
pub fn status_shown(s: &AppState) -> (b: bool)
    ensures
        b == shows_status(s.nav.active_screen),
{
    match s.nav.active_screen {
        ActiveScreen::Main | ActiveScreen::ServiceSubmenu | ActiveScreen::DownloadDepsSubmenu
        | ActiveScreen::DownloadZapretSubmenu | ActiveScreen::DownloadStrategiesSubmenu
        | ActiveScreen::ZapretTagSelect | ActiveScreen::StrategyTagSelect => true,
        _ => false,
    }
}

/// The service's state as a word, its tone and its sign.
pub open spec fn service_state(installed: bool, active: bool) -> (Seq<char>, Tone, Seq<char>) {
    if !installed {
        ("not installed"@, Tone::Inactive, "❌"@)
    } else if active {
        ("active"@, Tone::Active, "✅"@)
    } else {
        ("stopped"@, Tone::Warn, "🟡"@)
    }
}

/// The service status line: the init system running the host (if one was
/// found) and the service's state.
pub open spec fn service_line(s: AppState, init: Option<InitType>) -> Seq<(Seq<char>, Tone)> {
    let (word, tone, sign) = service_state(s.service_installed, s.service_active);
    seq![
        ("Service ("@, Tone::Label),
        (match init {
            Some(t) => crate::services::init_name(t),
            None => "unknown"@,
        }, Tone::Item),
        ("): "@, Tone::Label),
        (word, tone),
        (" "@, Tone::Item),
        (sign, Tone::Item),
    ]
}

/// A check mark for what is there, a cross otherwise.
pub open spec fn present_mark(b: bool) -> Seq<char> {
    if b {
        "✅"@
    } else {
        "❌"@
    }
}

/// The dependency status line.
pub open spec fn deps_line(s: AppState) -> Seq<(Seq<char>, Tone)> {
    seq![
        ("Dependencies: "@, Tone::Label),
        ("nfqws "@, Tone::Item),
        (present_mark(s.nfqws_installed), Tone::Item),
        (" | strategies "@, Tone::Item),
        (present_mark(s.strategies_installed), Tone::Item),
    ]
}

fn cell(text: &str, tone: Tone) -> (c: Cell)
    ensures
        cell_view(c) == (text@, tone),
{
    Cell { text: String::from_str(text), tone }
}

fn mark_str(b: bool) -> (r: &'static str)
    ensures
        r@ == present_mark(b),
{
    if b {
        "✅"
    } else {
        "❌"
    }
}

/// The service status line for the host's init system.
pub fn service_status_line(s: &AppState, init: Option<InitType>) -> (r: Vec<Cell>)
    ensures
        row_view(r) == service_line(*s, init),
{
    let (word, tone, sign) = if !s.service_installed {
        ("not installed", Tone::Inactive, "❌")
    } else if s.service_active {
        ("active", Tone::Active, "✅")
    } else {
        ("stopped", Tone::Warn, "🟡")
    };
    let name = match init {
        Some(t) => t.as_str(),
        None => "unknown",
    };
    let r = vec![
        cell("Service (", Tone::Label),
        cell(name, Tone::Item),
        cell("): ", Tone::Label),
        cell(word, tone),
        cell(" ", Tone::Item),
        cell(sign, Tone::Item),
    ];
    assert(row_view(r) =~= service_line(*s, init));
    r
}

/// The dependency status line.
pub fn deps_status_line(s: &AppState) -> (r: Vec<Cell>)
    ensures
        row_view(r) == deps_line(*s),
{
    let r = vec![
        cell("Dependencies: ", Tone::Label),
        cell("nfqws ", Tone::Item),
        cell(mark_str(s.nfqws_installed), Tone::Item),
        cell(" | strategies ", Tone::Item),
        cell(mark_str(s.strategies_installed), Tone::Item),
    ];
    assert(row_view(r) =~= deps_line(*s));
    r
}

/// What to do with the item under the cursor, for the help line.
pub open spec fn help(s: AppState) -> Seq<char> {
    let n = s.nav;
    match n.active_screen {
        ActiveScreen::Main => match n.main_menu {
            MainMenuState::DownloadDeps => "Enter: download nfqws and the strategies"@,
            MainMenuState::Interface => "Enter/Left/Right: choose the network interface"@,
            MainMenuState::Strategy => "Enter: choose the strategy"@,
            MainMenuState::GamefilterSettings => "Enter: set the game filter"@,
            MainMenuState::BackendSettings => "Enter/Left/Right: choose the firewall backend"@,
            MainMenuState::IpsetMode => "Enter/Left/Right: choose the ipset mode"@,
            MainMenuState::ListsEditor => "Enter: edit the domain lists"@,
            MainMenuState::Autotune => "Enter: search for working strategies"@,
            MainMenuState::ServiceSettings => "Enter: install or control the service"@,
            MainMenuState::Run => "Enter: run zapret with these settings"@,
            MainMenuState::Quit => "Enter: quit"@,
        },
        ActiveScreen::DownloadDepsSubmenu => match n.download_deps_menu {
            DownloadDepsMenuState::ZapretDownloader => "Enter: choose the zapret version to download"@,
            DownloadDepsMenuState::StrategiesDownloader => "Enter: choose the strategies version to download"@,
            DownloadDepsMenuState::DownloadDefaults => "Enter: download the recommended versions"@,
            DownloadDepsMenuState::Back => "Enter/Esc: go back"@,
        },
        ActiveScreen::DownloadZapretSubmenu | ActiveScreen::DownloadStrategiesSubmenu => match (if n.active_screen
            == ActiveScreen::DownloadZapretSubmenu {
            n.download_zapret_menu
        } else {
            n.download_strategies_menu
        }) {
            DownloadSubmenuState::Version => "Left/Right: recommended, latest or a tag"@,
            DownloadSubmenuState::SelectTag => "Enter: pick a tag from the list"@,
            DownloadSubmenuState::Start => "Enter: download now"@,
            DownloadSubmenuState::Back => "Enter/Esc: go back"@,
        },
        ActiveScreen::GamefilterSubmenu => match n.gamefilter_menu {
            GamefilterMenuState::Tcp => "Enter: switch the TCP game filter"@,
            GamefilterMenuState::Udp => "Enter: switch the UDP game filter"@,
            GamefilterMenuState::Back => "Enter/Esc: go back"@,
        },
        ActiveScreen::StrategySubmenu => "Enter: use the strategy"@,
        ActiveScreen::ZapretTagSelect | ActiveScreen::StrategyTagSelect => "Enter: use the tag"@,
        ActiveScreen::ServiceSubmenu => "Enter: carry out the action"@,
        ActiveScreen::ListsEditorSubmenu => "Enter: open the list in the editor"@,
        ActiveScreen::AutotuneSubmenu => match n.autotune_menu {
            AutotuneMenuState::PresetSelection => "Enter: choose the domain presets"@,
            AutotuneMenuState::NumRequests => "Enter: type the number of requests per check"@,
            AutotuneMenuState::Strategies => "Enter: choose the strategies to test"@,
            AutotuneMenuState::Protocols => "Enter: choose the protocols to check"@,
            AutotuneMenuState::BlockChecks => "Enter: choose the network checks"@,
            AutotuneMenuState::EditCustom => "Enter: edit the custom domains"@,
            AutotuneMenuState::Results => "Enter: show the last results"@,
            AutotuneMenuState::Run => "Enter: start the autotune"@,
            AutotuneMenuState::Back => "Enter/Esc: go back"@,
        },
        ActiveScreen::AutotuneProtocolsSubmenu => if n.autotune_protocols_menu == AutotuneProtocolsState::Back {
            "Enter/Esc: go back"@
        } else {
            "Enter: switch"@
        },
        ActiveScreen::AutotuneBlockChecksSubmenu => if n.autotune_block_checks_menu
            == AutotuneBlockChecksState::Back {
            "Enter/Esc: go back"@
        } else {
            "Enter: switch"@
        },
        ActiveScreen::AutotunePresetSelectionSubmenu => "Enter: switch the preset"@,
        ActiveScreen::AutotuneStrategiesSubmenu => "Enter: switch the strategy"@,
        ActiveScreen::AutotuneResultsSubmenu => "Up/Down: scroll"@,
    }
}

/// The line under the menu: the status message where there is one, the
/// help for the item under the cursor otherwise.
pub open spec fn footer(s: AppState) -> (Seq<char>, bool) {
    match s.status_message {
        Some(m) => (m@, true),
        None => (help(s), false),
    }
}

fn help_str(s: &AppState) -> (r: &'static str)
    ensures
        r@ == help(*s),
{
    let n = &s.nav;
    match n.active_screen {
        ActiveScreen::Main => match n.main_menu {
            MainMenuState::DownloadDeps => "Enter: download nfqws and the strategies",
            MainMenuState::Interface => "Enter/Left/Right: choose the network interface",
            MainMenuState::Strategy => "Enter: choose the strategy",
            MainMenuState::GamefilterSettings => "Enter: set the game filter",
            MainMenuState::BackendSettings => "Enter/Left/Right: choose the firewall backend",
            MainMenuState::IpsetMode => "Enter/Left/Right: choose the ipset mode",
            MainMenuState::ListsEditor => "Enter: edit the domain lists",
            MainMenuState::Autotune => "Enter: search for working strategies",
            MainMenuState::ServiceSettings => "Enter: install or control the service",
            MainMenuState::Run => "Enter: run zapret with these settings",
            MainMenuState::Quit => "Enter: quit",
        },
        ActiveScreen::DownloadDepsSubmenu => match n.download_deps_menu {
            DownloadDepsMenuState::ZapretDownloader => "Enter: choose the zapret version to download",
            DownloadDepsMenuState::StrategiesDownloader => "Enter: choose the strategies version to download",
            DownloadDepsMenuState::DownloadDefaults => "Enter: download the recommended versions",
            DownloadDepsMenuState::Back => "Enter/Esc: go back",
        },
        ActiveScreen::DownloadZapretSubmenu | ActiveScreen::DownloadStrategiesSubmenu => {
            let m = if n.active_screen == ActiveScreen::DownloadZapretSubmenu {
                n.download_zapret_menu
            } else {
                n.download_strategies_menu
            };
            match m {
                DownloadSubmenuState::Version => "Left/Right: recommended, latest or a tag",
                DownloadSubmenuState::SelectTag => "Enter: pick a tag from the list",
                DownloadSubmenuState::Start => "Enter: download now",
                DownloadSubmenuState::Back => "Enter/Esc: go back",
            }
        },
        ActiveScreen::GamefilterSubmenu => match n.gamefilter_menu {
            GamefilterMenuState::Tcp => "Enter: switch the TCP game filter",
            GamefilterMenuState::Udp => "Enter: switch the UDP game filter",
            GamefilterMenuState::Back => "Enter/Esc: go back",
        },
        ActiveScreen::StrategySubmenu => "Enter: use the strategy",
        ActiveScreen::ZapretTagSelect | ActiveScreen::StrategyTagSelect => "Enter: use the tag",
        ActiveScreen::ServiceSubmenu => "Enter: carry out the action",
        ActiveScreen::ListsEditorSubmenu => "Enter: open the list in the editor",
        ActiveScreen::AutotuneSubmenu => match n.autotune_menu {
            AutotuneMenuState::PresetSelection => "Enter: choose the domain presets",
            AutotuneMenuState::NumRequests => "Enter: type the number of requests per check",
            AutotuneMenuState::Strategies => "Enter: choose the strategies to test",
            AutotuneMenuState::Protocols => "Enter: choose the protocols to check",
            AutotuneMenuState::BlockChecks => "Enter: choose the network checks",
            AutotuneMenuState::EditCustom => "Enter: edit the custom domains",
            AutotuneMenuState::Results => "Enter: show the last results",
            AutotuneMenuState::Run => "Enter: start the autotune",
            AutotuneMenuState::Back => "Enter/Esc: go back",
        },
        ActiveScreen::AutotuneProtocolsSubmenu => match n.autotune_protocols_menu {
            AutotuneProtocolsState::Back => "Enter/Esc: go back",
            _ => "Enter: switch",
        },
        ActiveScreen::AutotuneBlockChecksSubmenu => match n.autotune_block_checks_menu {
            AutotuneBlockChecksState::Back => "Enter/Esc: go back",
            _ => "Enter: switch",
        },
        ActiveScreen::AutotunePresetSelectionSubmenu => "Enter: switch the preset",
        ActiveScreen::AutotuneStrategiesSubmenu => "Enter: switch the strategy",
        ActiveScreen::AutotuneResultsSubmenu => "Up/Down: scroll",
    }
}

/// The line under the menu and whether it is a status message (rather than
/// the help for the item under the cursor).
pub fn footer_line(s: &AppState) -> (r: (String, bool))
    ensures
        (r.0@, r.1) == footer(*s),
{
    match &s.status_message {
        Some(m) => (m.clone(), true),
        None => (String::from_str(help_str(s)), false),
    }
}

} // verus!
