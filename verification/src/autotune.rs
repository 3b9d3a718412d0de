//! Autotune: the result types, the built-in domain presets, the verdicts of
//! the network blocking checks, and the evaluation of strategies.
use vstd::prelude::*;
use crate::text;
use crate::order;
use crate::order::clone_strings;
use crate::text::{from_chars, join_path, split_lines, to_chars, trim_chars};

verus! {

/// Outcome of one check.
#[derive(Debug, Clone, Copy, PartialEq, Eq, Structural)]
pub enum CheckStatus {
    Pass,
    Fail,
    Skip,
    Error,
}

/// A check's outcome with a short explanation.
pub struct CheckResult {
    pub status: CheckStatus,
    pub detail: String,
}

impl CheckResult {
    /// A passed check.
    pub fn pass(detail: &str) -> (r: Self)
        ensures
            r.status == CheckStatus::Pass,
            r.detail@ == detail@,
    {
        CheckResult { status: CheckStatus::Pass, detail: String::from_str(detail) }
    }

    /// A failed check.
    pub fn fail(detail: &str) -> (r: Self)
        ensures
            r.status == CheckStatus::Fail,
            r.detail@ == detail@,
    {
        CheckResult { status: CheckStatus::Fail, detail: String::from_str(detail) }
    }

    /// A skipped check.
    pub fn skip(detail: &str) -> (r: Self)
        ensures
            r.status == CheckStatus::Skip,
            r.detail@ == detail@,
    {
        CheckResult { status: CheckStatus::Skip, detail: String::from_str(detail) }
    }
}

/// The network blocking checks, in the order of [`BlockChecks::enabled`].
#[derive(Debug, Clone, Copy, PartialEq, Eq, Structural)]
pub enum BlockCheckType {
    DnsSpoof,
    TcpRst,
    SniBlock,
    SiberianBlock,
    QuicBlock,
    CidrWhitelist,
}

impl BlockCheckType {
    /// All checks, in their fixed order.
    pub fn all() -> (v: Vec<BlockCheckType>)
        ensures
            v@ == seq![
                BlockCheckType::DnsSpoof,
                BlockCheckType::TcpRst,
                BlockCheckType::SniBlock,
                BlockCheckType::SiberianBlock,
                BlockCheckType::QuicBlock,
                BlockCheckType::CidrWhitelist,
            ],
    {
        let mut v: Vec<BlockCheckType> = Vec::new();
        v.push(BlockCheckType::DnsSpoof);
        v.push(BlockCheckType::TcpRst);
        v.push(BlockCheckType::SniBlock);
        v.push(BlockCheckType::SiberianBlock);
        v.push(BlockCheckType::QuicBlock);
        v.push(BlockCheckType::CidrWhitelist);
        v
    }

    /// The short label of a check.
    pub open spec fn label(self) -> Seq<char> {
        match self {
            BlockCheckType::DnsSpoof => "DNS"@,
            BlockCheckType::TcpRst => "TCP RST"@,
            BlockCheckType::SniBlock => "SNI"@,
            BlockCheckType::SiberianBlock => "SIBERIAN"@,
            BlockCheckType::QuicBlock => "QUIC"@,
            BlockCheckType::CidrWhitelist => "CIDR"@,
        }
    }

    /// The short label of a check.
    pub fn name(&self) -> (s: &'static str)
        ensures
            s@ == self.label(),
    {
        match self {
            BlockCheckType::DnsSpoof => "DNS",
            BlockCheckType::TcpRst => "TCP RST",
            BlockCheckType::SniBlock => "SNI",
            BlockCheckType::SiberianBlock => "SIBERIAN",
            BlockCheckType::QuicBlock => "QUIC",
            BlockCheckType::CidrWhitelist => "CIDR",
        }
    }
}

/// Which network checks run, in the order of [`BlockCheckType::all`].
pub struct BlockChecks {
    pub enabled: Vec<bool>,
}

/// How many entries of `s` are `true`.
pub open spec fn count_true(s: Seq<bool>) -> nat
    decreases s.len(),
{
    if s.len() == 0 {
        0
    } else {
        count_true(s.drop_last()) + if s.last() {
            1nat
        } else {
            0nat
        }
    }
}

/// Setting one entry changes the count by what the entry changed.
pub proof fn lemma_count_true_update(s: Seq<bool>, i: int, b: bool)
    requires
        0 <= i < s.len(),
    ensures
        count_true(s.update(i, b)) + (if s[i] { 1int } else { 0int }) == count_true(s) + (if b {
            1int
        } else {
            0int
        }),
    decreases s.len(),
{
    if i < s.len() - 1 {
        lemma_count_true_update(s.drop_last(), i, b);
        assert(s.update(i, b).drop_last() =~= s.drop_last().update(i, b));
    } else {
        assert(s.update(i, b).drop_last() =~= s.drop_last());
    }
}

/// At most the length.
pub proof fn lemma_count_true_le(s: Seq<bool>)
    ensures
        count_true(s) <= s.len(),
    decreases s.len(),
{
    if s.len() > 0 {
        lemma_count_true_le(s.drop_last());
    }
}

impl BlockChecks {
    /// All six checks enabled.
    pub fn all_enabled() -> (b: Self)
        ensures
            b.enabled@ == seq![true, true, true, true, true, true],
    {
        let mut v: Vec<bool> = Vec::new();
        let mut i: usize = 0;
        while i < 6
            invariant
                i <= 6,
                v@.len() == i,
                forall|j: int| 0 <= j < i ==> v@[j],
            decreases 6 - i,
        {
            v.push(true);
            i += 1;
        }
        assert(v@ =~= seq![true, true, true, true, true, true]);
        BlockChecks { enabled: v }
    }

    /// Whether check `idx` is enabled (`false` past the end).
    pub fn get(&self, idx: usize) -> (r: bool)
        ensures
            r == (idx < self.enabled@.len() && self.enabled@[idx as int]),
    {
        if idx < self.enabled.len() {
            self.enabled[idx]
        } else {
            false
        }
    }

    /// Enables or disables check `idx` (nothing happens past the end).
    pub fn set(&mut self, idx: usize, val: bool)
        ensures
            final(self).enabled@ == (if idx < old(self).enabled@.len() {
                old(self).enabled@.update(idx as int, val)
            } else {
                old(self).enabled@
            }),
    {
        if idx < self.enabled.len() {
            self.enabled.set(idx, val);
        }
    }

    /// How many checks are enabled.
    pub fn count_enabled(&self) -> (n: usize)
        ensures
            n == count_true(self.enabled@),
    {
        let mut n: usize = 0;
        let mut i: usize = 0;
        while i < self.enabled.len()
            invariant
                i <= self.enabled@.len(),
                n == count_true(self.enabled@.take(i as int)),
                n <= i,
            decreases self.enabled.len() - i,
        {
            proof {
                assert(self.enabled@.take(i + 1).drop_last() =~= self.enabled@.take(i as int));
            }
            if self.enabled[i] {
                n += 1;
            }
            i += 1;
        }
        assert(self.enabled@.take(self.enabled@.len() as int) =~= self.enabled@);
        n
    }
}

/// Reading back an entry that was just set gives the value set; the count
/// follows the change.
pub proof fn lemma_block_checks_set_get(before: Seq<bool>, idx: int, val: bool)
    requires
        0 <= idx < before.len(),
    ensures
        before.update(idx, val)[idx] == val,
        forall|j: int| 0 <= j < before.len() && j != idx ==> before.update(idx, val)[j] == before[j],
        count_true(before.update(idx, val)) + (if before[idx] { 1int } else { 0int }) == count_true(
            before,
        ) + (if val { 1int } else { 0int }),
{
    lemma_count_true_update(before, idx, val);
}

/// What an autotune run checks.
pub struct AutotuneConfig {
    pub preset_indices: Vec<usize>,
    pub num_requests: usize,
    pub check_http: bool,
    pub check_https: bool,
    pub check_tls12: bool,
    pub check_tls13: bool,
    pub check_quic: bool,
    pub strategy_indices: Vec<usize>,
    pub block_checks: BlockChecks,
}

impl AutotuneConfig {
    /// The first preset, three requests, every protocol and every check.
    pub fn default_config() -> (c: Self)
        ensures
            c.preset_indices@ == seq![0usize],
            c.num_requests == 3,
            c.check_http && c.check_https && c.check_tls12 && c.check_tls13 && c.check_quic,
            c.strategy_indices@.len() == 0,
            c.block_checks.enabled@ == seq![true, true, true, true, true, true],
    {
        let mut p: Vec<usize> = Vec::new();
        p.push(0);
        AutotuneConfig {
            preset_indices: p,
            num_requests: 3,
            check_http: true,
            check_https: true,
            check_tls12: true,
            check_tls13: true,
            check_quic: true,
            strategy_indices: Vec::new(),
            block_checks: BlockChecks::all_enabled(),
        }
    }

    /// A copy of the configuration.
    pub fn duplicate(&self) -> (c: Self)
        ensures
            c.preset_indices@ == self.preset_indices@,
            c.num_requests == self.num_requests,
            c.check_http == self.check_http,
            c.check_https == self.check_https,
            c.check_tls12 == self.check_tls12,
            c.check_tls13 == self.check_tls13,
            c.check_quic == self.check_quic,
            c.strategy_indices@ == self.strategy_indices@,
            c.block_checks.enabled@ == self.block_checks.enabled@,
    {
        AutotuneConfig {
            preset_indices: self.preset_indices.clone(),
            num_requests: self.num_requests,
            check_http: self.check_http,
            check_https: self.check_https,
            check_tls12: self.check_tls12,
            check_tls13: self.check_tls13,
            check_quic: self.check_quic,
            strategy_indices: self.strategy_indices.clone(),
            block_checks: BlockChecks { enabled: self.block_checks.enabled.clone() },
        }
    }
}

impl Default for AutotuneConfig {
    fn default() -> (c: Self)
        ensures
            c.preset_indices@ == seq![0usize],
            c.num_requests == 3,
            c.check_http && c.check_https && c.check_tls12 && c.check_tls13 && c.check_quic,
            c.strategy_indices@.len() == 0,
            c.block_checks.enabled@ == seq![true, true, true, true, true, true],
    {
        AutotuneConfig::default_config()
    }
}

/// What the per-domain checks found for one domain, without any strategy.
pub struct DomainCheckResult {
    pub domain: String,
    pub alive: CheckStatus,
    pub http: CheckStatus,
    pub tls12: CheckStatus,
    pub tls13: CheckStatus,
    pub quic: CheckStatus,
    pub baseline_pass: bool,
    pub detail: String,
    pub http_count: usize,
    pub quic_count: usize,
}

/// How one strategy did on the blocked domains.
pub struct StrategyCheckResult {
    pub strategy_name: String,
    pub domains_pass: Vec<String>,
    pub domains_fail: Vec<String>,
    pub works: bool,
    pub protocols_working: Vec<String>,
    pub domain_checks: Vec<DomainProtocolCheck>,
}

/// Which protocols worked for one domain with a strategy active.
pub struct DomainProtocolCheck {
    pub domain: String,
    pub http: bool,
    pub tls12: bool,
    pub tls13: bool,
    pub quic: bool,
}


impl StrategyCheckResult {
    /// How many blocked domains were tested.
    pub fn total(&self) -> (n: usize)
        requires
            self.domains_pass@.len() + self.domains_fail@.len() <= usize::MAX,
        ensures
            n == self.domains_pass@.len() + self.domains_fail@.len(),
    {
        self.domains_pass.len() + self.domains_fail.len()
    }

    /// How many blocked domains the strategy unblocked.
    pub fn score(&self) -> (n: usize)
        ensures
            n == self.domains_pass@.len(),
    {
        self.domains_pass.len()
    }

    /// The result of a strategy that could not be started: every blocked domain fails.
    pub fn failed(name: &str, blocked_domains: &Vec<String>) -> (r: Self)
        ensures
            r.strategy_name@ == name@,
            r.domains_pass@.len() == 0,
            order::strings(r.domains_fail@) == order::strings(blocked_domains@),
            !r.works,
            r.protocols_working@.len() == 0,
            r.domain_checks@.len() == 0,
    {
        StrategyCheckResult {
            strategy_name: String::from_str(name),
            domains_pass: Vec::new(),
            domains_fail: clone_strings(blocked_domains),
            works: false,
            protocols_working: Vec::new(),
            domain_checks: Vec::new(),
        }
    }
}

/// The results of one preset.
pub struct PresetResult {
    pub preset_name: String,
    pub domain_checks: Vec<DomainCheckResult>,
    pub strategy_results: Vec<StrategyCheckResult>,
}

/// Everything an autotune run found.
pub struct AutotuneResults {
    /// DNS, TCP RST, SNI, SIBERIAN, QUIC, CIDR.
    pub block_results: Vec<CheckResult>,
    pub preset_results: Vec<PresetResult>,
    /// Strategies that work across all selected presets.
    pub common_strategies: Vec<String>,
    /// How long the run took, in whole seconds.
    pub elapsed_secs: usize,
}

impl AutotuneResults {
    /// The DNS spoofing check.
    pub fn dns_spoof(&self) -> (r: &CheckResult)
        requires
            self.block_results@.len() > 0,
        ensures
            *r == self.block_results@[0],
    {
        &self.block_results[0]
    }

    /// The TCP reset check.
    pub fn tcp_rst(&self) -> (r: &CheckResult)
        requires
            self.block_results@.len() > 1,
        ensures
            *r == self.block_results@[1],
    {
        &self.block_results[1]
    }

    /// The SNI blocking check.
    pub fn sni_block(&self) -> (r: &CheckResult)
        requires
            self.block_results@.len() > 2,
        ensures
            *r == self.block_results@[2],
    {
        &self.block_results[2]
    }

    /// The connection-count ("Siberian") blocking check.
    pub fn siberian_block(&self) -> (r: &CheckResult)
        requires
            self.block_results@.len() > 3,
        ensures
            *r == self.block_results@[3],
    {
        &self.block_results[3]
    }

    /// The QUIC blocking check.
    pub fn quic_block(&self) -> (r: &CheckResult)
        requires
            self.block_results@.len() > 4,
        ensures
            *r == self.block_results@[4],
    {
        &self.block_results[4]
    }

    /// The CIDR whitelist check.
    pub fn cidr_whitelist(&self) -> (r: &CheckResult)
        requires
            self.block_results@.len() > 5,
        ensures
            *r == self.block_results@[5],
    {
        &self.block_results[5]
    }
}

/// The word a status is written as in the results file.
pub open spec fn status_file_word(s: CheckStatus) -> Seq<char> {
    match s {
        CheckStatus::Pass => "OK"@,
        CheckStatus::Fail => "BLOCKED"@,
        CheckStatus::Skip => "SKIP"@,
        CheckStatus::Error => "ERROR"@,
    }
}

/// The word a status is written as in the results file.
pub fn status_str_file(s: &CheckStatus) -> (r: &'static str)
    ensures
        r@ == status_file_word(*s),
{
    match s {
        CheckStatus::Pass => "OK",
        CheckStatus::Fail => "BLOCKED",
        CheckStatus::Skip => "SKIP",
        CheckStatus::Error => "ERROR",
    }
}

/// The short word a status is shown as in a domain's detail line.
pub open spec fn status_short_word(s: CheckStatus) -> Seq<char> {
    match s {
        CheckStatus::Pass => "OK"@,
        CheckStatus::Fail => "BLOCKED"@,
        CheckStatus::Skip => "-"@,
        CheckStatus::Error => "ERR"@,
    }
}

/// The short word a status is shown as in a domain's detail line.
pub fn status_char(s: &CheckStatus) -> (r: &'static str)
    ensures
        r@ == status_short_word(*s),
{
    match s {
        CheckStatus::Pass => "OK",
        CheckStatus::Fail => "BLOCKED",
        CheckStatus::Skip => "-",
        CheckStatus::Error => "ERR",
    }
}

/// How many protocol checks run per domain.
pub fn count_protocol_steps(config: &AutotuneConfig) -> (n: usize)
    ensures
        n == (if config.check_http { 1int } else { 0int }) + (if config.check_tls12 {
            1int
        } else {
            0int
        }) + (if config.check_tls13 { 1int } else { 0int }) + (if config.check_quic {
            1int
        } else {
            0int
        }),
{
    let mut n: usize = 0;
    if config.check_http {
        n += 1;
    }
    if config.check_tls12 {
        n += 1;
    }
    if config.check_tls13 {
        n += 1;
    }
    if config.check_quic {
        n += 1;
    }
    n
}

/// The strategy name shown for a file name: every trailing `.bat` removed.
pub fn get_strategy_name(name: &str) -> (r: String)
    ensures
        r@ == text::trim_end_matches(name@, ".bat"@),
{
    let mut v = to_chars(name);
    let suffix = to_chars(".bat");
    proof {
        reveal_strlit(".bat");
    }
    while text::has_suffix(&v, &suffix)
        invariant
            suffix@ == ".bat"@,
            suffix@.len() == 4,
            text::trim_end_matches(name@, ".bat"@) == text::trim_end_matches(v@, ".bat"@),
        decreases v@.len(),
    {
        let n = v.len() - 4;
        v = text::slice_chars(&v, 0, n);
    }
    from_chars(&v)
}

/// The name shown for a strategy file never ends in `.bat`.
pub proof fn lemma_strategy_name_has_no_bat(name: Seq<char>)
    ensures
        !text::ends_with(text::trim_end_matches(name, ".bat"@), ".bat"@),
    decreases name.len(),
{
    reveal_strlit(".bat");
    if text::ends_with(name, ".bat"@) {
        lemma_strategy_name_has_no_bat(name.take(name.len() - 4));
    }
}

/// A named list of domains to test.
pub struct DomainPreset {
    pub name: String,
    pub domains: Vec<String>,
}

/// How many presets there are (the last one, "Custom", has no built-in domains).
pub open spec fn preset_count() -> nat {
    4
}

/// The name of preset `i`.
pub open spec fn preset_name(i: int) -> Seq<char> {
    if i == 0 {
        "Discord"@
    } else if i == 1 {
        "YouTube"@
    } else if i == 2 {
        "Social"@
    } else {
        "Custom"@
    }
}

/// The built-in domains of preset `i`.
pub open spec fn preset_domains(i: int) -> Seq<Seq<char>> {
    if i == 0 {
        seq![
            "discord.com"@,
            "discordapp.com"@,
            "discordapp.net"@,
            "discord.gg"@,
            "discordstatus.com"@,
            "discord.media"@,
            "discord.gift"@,
            "discord.gifts"@,
            "discord.new"@,
            "discord.co"@,
            "discord.store"@,
            "discord.status"@,
            "discord.design"@,
            "discord.dev"@,
            "discord.app"@,
            "discordcdn.com"@,
            "discordmerch.com"@,
            "discord-activities.com"@,
            "discordactivities.com"@,
            "discordpartygames.com"@,
            "discordsays.com"@,
            "discordsez.com"@,
            "cdn.discordapp.com"@,
            "discord-attachments-uploads.s3.amazonaws.com"@,
            "discord-attachments-uploads-prd.storage.googleapis.com"@,
        ]
    } else if i == 1 {
        seq![
            "youtube.com"@,
            "ytimg.com"@,
            "googlevideo.com"@,
            "youtu.be"@,
            "ggpht.com"@,
            "googleusercontent.com"@,
            "withyoutube.com"@,
            "yt3.ggpht.com"@,
            "yt4.ggpht.com"@,
            "yt3.googleusercontent.com"@,
            "jnn-pa.googleapis.com"@,
            "stable.dl2.discordapp.net"@,
            "wide-youtube.l.google.com"@,
            "youtube-nocookie.com"@,
            "youtube-ui.l.google.com"@,
            "youtubeembeddedplayer.googleapis.com"@,
            "youtubekids.com"@,
            "youtubei.googleapis.com"@,
            "yt-video-upload.l.google.com"@,
            "ytimg.l.google.com"@,
            "play.google.com"@,
        ]
    } else if i == 2 {
        seq![
            "twitter.com"@,
            "twimg.com"@,
            "reddit.com"@,
            "redditmedia.com"@,
            "t.me"@,
            "telegram.org"@,
            "instagram.com"@,
            "facebook.com"@,
            "whatsapp.com"@,
        ]
    } else {
        seq![]
    }
}

/// The file a preset's editable domain list is kept in.
pub open spec fn preset_file_name(i: int) -> Seq<char> {
    if i == 0 {
        "autotune_discord.txt"@
    } else if i == 1 {
        "autotune_youtube.txt"@
    } else if i == 2 {
        "autotune_social.txt"@
    } else {
        "autotune_custom.txt"@
    }
}

/// The number of presets.
pub fn presets_len() -> (n: usize)
    ensures
        n == preset_count(),
{
    4
}

/// The name of preset `i` (`"Custom"` past the end).
pub fn preset_name_of(i: usize) -> (s: String)
    ensures
        s@ == preset_name(i as int),
{
    if i == 0 {
        String::from_str("Discord")
    } else if i == 1 {
        String::from_str("YouTube")
    } else if i == 2 {
        String::from_str("Social")
    } else {
        String::from_str("Custom")
    }
}

/// The built-in domains of preset `i` (none past the end).
pub fn builtin_domains(i: usize) -> (v: Vec<String>)
    ensures
        order::strings(v@) == preset_domains(i as int),
{
    let mut v: Vec<String> = Vec::new();
    if i == 0 {
            v.push(String::from_str("discord.com"));
            v.push(String::from_str("discordapp.com"));
            v.push(String::from_str("discordapp.net"));
            v.push(String::from_str("discord.gg"));
            v.push(String::from_str("discordstatus.com"));
            v.push(String::from_str("discord.media"));
            v.push(String::from_str("discord.gift"));
            v.push(String::from_str("discord.gifts"));
            v.push(String::from_str("discord.new"));
            v.push(String::from_str("discord.co"));
            v.push(String::from_str("discord.store"));
            v.push(String::from_str("discord.status"));
            v.push(String::from_str("discord.design"));
            v.push(String::from_str("discord.dev"));
            v.push(String::from_str("discord.app"));
            v.push(String::from_str("discordcdn.com"));
            v.push(String::from_str("discordmerch.com"));
            v.push(String::from_str("discord-activities.com"));
            v.push(String::from_str("discordactivities.com"));
            v.push(String::from_str("discordpartygames.com"));
            v.push(String::from_str("discordsays.com"));
            v.push(String::from_str("discordsez.com"));
            v.push(String::from_str("cdn.discordapp.com"));
            v.push(String::from_str("discord-attachments-uploads.s3.amazonaws.com"));
            v.push(String::from_str("discord-attachments-uploads-prd.storage.googleapis.com"));
    } else if i == 1 {
            v.push(String::from_str("youtube.com"));
            v.push(String::from_str("ytimg.com"));
            v.push(String::from_str("googlevideo.com"));
            v.push(String::from_str("youtu.be"));
            v.push(String::from_str("ggpht.com"));
            v.push(String::from_str("googleusercontent.com"));
            v.push(String::from_str("withyoutube.com"));
            v.push(String::from_str("yt3.ggpht.com"));
            v.push(String::from_str("yt4.ggpht.com"));
            v.push(String::from_str("yt3.googleusercontent.com"));
            v.push(String::from_str("jnn-pa.googleapis.com"));
            v.push(String::from_str("stable.dl2.discordapp.net"));
            v.push(String::from_str("wide-youtube.l.google.com"));
            v.push(String::from_str("youtube-nocookie.com"));
            v.push(String::from_str("youtube-ui.l.google.com"));
            v.push(String::from_str("youtubeembeddedplayer.googleapis.com"));
            v.push(String::from_str("youtubekids.com"));
            v.push(String::from_str("youtubei.googleapis.com"));
            v.push(String::from_str("yt-video-upload.l.google.com"));
            v.push(String::from_str("ytimg.l.google.com"));
            v.push(String::from_str("play.google.com"));
    } else if i == 2 {
            v.push(String::from_str("twitter.com"));
            v.push(String::from_str("twimg.com"));
            v.push(String::from_str("reddit.com"));
            v.push(String::from_str("redditmedia.com"));
            v.push(String::from_str("t.me"));
            v.push(String::from_str("telegram.org"));
            v.push(String::from_str("instagram.com"));
            v.push(String::from_str("facebook.com"));
            v.push(String::from_str("whatsapp.com"));
    }
    proof {
        assert(order::strings(v@) =~= preset_domains(i as int));
    }
    v
}

/// All presets with their built-in domains.
pub fn presets() -> (v: Vec<DomainPreset>)
    ensures
        v@.len() == preset_count(),
        forall|i: int|
            0 <= i < v@.len() ==> #[trigger] v@[i].name@ == preset_name(i) && order::strings(
                v@[i].domains@,
            ) == preset_domains(i),
{
    let mut v: Vec<DomainPreset> = Vec::new();
    let mut i: usize = 0;
    while i < 4
        invariant
            i <= 4,
            v@.len() == i,
            forall|j: int|
                0 <= j < i ==> #[trigger] v@[j].name@ == preset_name(j) && order::strings(v@[j].domains@)
                    == preset_domains(j),
        decreases 4 - i,
    {
        v.push(DomainPreset { name: preset_name_of(i), domains: builtin_domains(i) });
        i += 1;
    }
    v
}

/// The path of the custom domain list.
pub fn custom_domains_file_path(cache_dir: &str) -> (p: String)
    ensures
        p@ == text::path_join(cache_dir@, "autotune_custom.txt"@),
{
    join_path(cache_dir, "autotune_custom.txt")
}

/// The path of the editable domain list of preset `preset_idx` (the custom
/// list past the end).
pub fn preset_domains_file_path(cache_dir: &str, preset_idx: usize) -> (p: String)
    ensures
        p@ == text::path_join(cache_dir@, preset_file_name(preset_idx as int)),
{
    if preset_idx == 0 {
        join_path(cache_dir, "autotune_discord.txt")
    } else if preset_idx == 1 {
        join_path(cache_dir, "autotune_youtube.txt")
    } else if preset_idx == 2 {
        join_path(cache_dir, "autotune_social.txt")
    } else {
        join_path(cache_dir, "autotune_custom.txt")
    }
}

/// A domain list line that names a domain: not blank and not a `#` comment.
pub open spec fn is_domain_line(l: Seq<char>) -> bool {
    l.len() > 0 && l[0] != '#'
}

/// The domains a list file names: its lines trimmed, without blanks and comments.
pub open spec fn domain_list(ls: Seq<Seq<char>>) -> Seq<Seq<char>>
    decreases ls.len(),
{
    if ls.len() == 0 {
        seq![]
    } else {
        let rest = domain_list(ls.drop_last());
        let t = text::trim(ls.last());
        if is_domain_line(t) {
            rest.push(t)
        } else {
            rest
        }
    }
}

/// Reads the domains of a domain list file's text.
pub fn parse_domain_list(content: &str) -> (v: Vec<String>)
    ensures
        order::strings(v@) == domain_list(text::lines(content@)),
{
    let c = to_chars(content);
    let ls = split_lines(&c);
    let ghost all = ls.deep_view();
    let mut v: Vec<String> = Vec::new();
    let mut i: usize = 0;
    while i < ls.len()
        invariant
            i <= ls@.len(),
            all == ls.deep_view(),
            order::strings(v@) == domain_list(all.take(i as int)),
        decreases ls.len() - i,
    {
        proof {
            assert(ls@[i as int].deep_view() =~= ls@[i as int]@);
            assert(all.take(i + 1).drop_last() =~= all.take(i as int));
            assert(all.take(i + 1).last() == all[i as int]);
        }
        let t = trim_chars(&ls[i]);
        if t.len() > 0 && t[0] != '#' {
            let ghost before = v@;
            v.push(from_chars(&t));
            proof {
                assert(order::strings(v@) =~= order::strings(before).push(t@));
            }
        }
        i += 1;
    }
    proof {
        assert(all.take(ls@.len() as int) =~= all);
    }
    v
}

/// The domains of a preset: those of its list file when it names any, else the
/// built-in ones; none for an index past the presets.
pub fn get_domains_for_preset(preset_idx: usize, file_domains: Vec<String>) -> (v: Vec<String>)
    ensures
        order::strings(v@) == (if preset_idx >= preset_count() {
            Seq::<Seq<char>>::empty()
        } else if file_domains@.len() > 0 {
            order::strings(file_domains@)
        } else {
            preset_domains(preset_idx as int)
        }),
{
    if preset_idx >= 4 {
        let v: Vec<String> = Vec::new();
        assert(order::strings(v@) =~= Seq::<Seq<char>>::empty());
        return v;
    }
    if file_domains.len() > 0 {
        return file_domains;
    }
    builtin_domains(preset_idx)
}

/// What a TCP connection attempt, and the short read after it, showed.
#[derive(Debug, Clone, Copy, PartialEq, Eq, Structural)]
pub enum TcpProbe {
    /// Connected and the read returned.
    Replied,
    /// Connected; the read timed out or would block (the server waits for us).
    Idle,
    /// Connected; the read was reset.
    ReadReset,
    /// Connected; the read failed otherwise.
    ReadFailed,
    /// The connection was reset.
    ConnectReset,
    /// The connection attempt timed out.
    ConnectTimeout,
    /// No local address was available.
    AddrNotAvailable,
    /// The connection failed otherwise (e.g. the name did not resolve).
    ConnectFailed,
}

/// The probe got a connection.
pub open spec fn probe_connected(p: TcpProbe) -> bool {
    p is Replied || p is Idle || p is ReadReset || p is ReadFailed
}

/// The probe shows the connection working (a reply, or a quiet open connection).
pub open spec fn probe_alive(p: TcpProbe) -> bool {
    p is Replied || p is Idle
}

/// The probe shows active interference: a reset or a silent drop.
pub open spec fn probe_reset(p: TcpProbe) -> bool {
    p is ReadReset || p is ConnectReset || p is ConnectTimeout
}

/// The connection was stopped while connecting (reset or timeout).
pub open spec fn probe_connect_blocked(p: TcpProbe) -> bool {
    p is ConnectReset || p is ConnectTimeout
}

/// How many probes satisfy `f`.
pub open spec fn count_probes(s: Seq<TcpProbe>, f: spec_fn(TcpProbe) -> bool) -> nat
    decreases s.len(),
{
    if s.len() == 0 {
        0
    } else {
        count_probes(s.drop_last(), f) + if f(s.last()) {
            1nat
        } else {
            0nat
        }
    }
}

fn count_matching(s: &Vec<TcpProbe>, which: u8) -> (n: usize)
    requires
        which <= 4,
    ensures
        n == count_probes(
            s@,
            if which == 0 {
                |p: TcpProbe| probe_alive(p)
            } else if which == 1 {
                |p: TcpProbe| probe_reset(p)
            } else if which == 2 {
                |p: TcpProbe| probe_alive(p) || p is ReadFailed
            } else if which == 3 {
                |p: TcpProbe| probe_connected(p)
            } else {
                |p: TcpProbe| probe_connect_blocked(p)
            },
        ),
        n <= s@.len(),
{
    let ghost f = if which == 0 {
        |p: TcpProbe| probe_alive(p)
    } else if which == 1 {
        |p: TcpProbe| probe_reset(p)
    } else if which == 2 {
        |p: TcpProbe| probe_alive(p) || p is ReadFailed
    } else if which == 3 {
        |p: TcpProbe| probe_connected(p)
    } else {
        |p: TcpProbe| probe_connect_blocked(p)
    };
    let mut n: usize = 0;
    let mut i: usize = 0;
    while i < s.len()
        invariant
            which <= 4,
            f == (if which == 0 {
                |p: TcpProbe| probe_alive(p)
            } else if which == 1 {
                |p: TcpProbe| probe_reset(p)
            } else if which == 2 {
                |p: TcpProbe| probe_alive(p) || p is ReadFailed
            } else if which == 3 {
                |p: TcpProbe| probe_connected(p)
            } else {
                |p: TcpProbe| probe_connect_blocked(p)
            }),
            i <= s@.len(),
            n <= i,
            n == count_probes(s@.take(i as int), f),
        decreases s.len() - i,
    {
        proof {
            assert(s@.take(i + 1).drop_last() =~= s@.take(i as int));
            assert(s@.take(i + 1).last() == s@[i as int]);
        }
        let p = s[i];
        let hit = match which {
            0 => p == TcpProbe::Replied || p == TcpProbe::Idle,
            1 => p == TcpProbe::ReadReset || p == TcpProbe::ConnectReset || p == TcpProbe::ConnectTimeout,
            2 => p == TcpProbe::Replied || p == TcpProbe::Idle || p == TcpProbe::ReadFailed,
            3 => p == TcpProbe::Replied || p == TcpProbe::Idle || p == TcpProbe::ReadReset || p
                == TcpProbe::ReadFailed,
            _ => p == TcpProbe::ConnectReset || p == TcpProbe::ConnectTimeout,
        };
        if hit {
            n += 1;
        }
        i += 1;
    }
    assert(s@.take(s@.len() as int) =~= s@);
    n
}

/// The decimal text of a count.
fn count_text(n: usize) -> (s: String)
    ensures
        s@ == text::decimal(n as nat),
{
    let d = text::decimal_chars(n);
    text::from_chars(d.as_slice())
}

/// The verdict of the TCP reset check from the probes of the test domains and
/// whether the clean reference domain was reachable.
pub open spec fn tcp_rst_status(probes: Seq<TcpProbe>, clean_ok: bool) -> CheckStatus {
    let ok = count_probes(probes, |p: TcpProbe| probe_alive(p));
    let rst = count_probes(probes, |p: TcpProbe| probe_reset(p));
    if !clean_ok {
        CheckStatus::Skip
    } else if ok > 0 && rst == 0 {
        CheckStatus::Pass
    } else if rst > 0 {
        CheckStatus::Fail
    } else {
        CheckStatus::Skip
    }
}

/// What the TCP reset check reports of one test domain `d`, given the text
/// `e` of the error its probe ended with (used where it failed otherwise
/// than by a reset or a timeout).
pub open spec fn tcp_note(d: Seq<char>, p: TcpProbe, e: Seq<char>) -> Seq<char> {
    match p {
        TcpProbe::Replied => d + ": connected"@,
        TcpProbe::Idle => d + ": connected (idle)"@,
        TcpProbe::ReadReset => d + ": RST after connect"@,
        TcpProbe::ReadFailed => d + ": "@ + e + " after connect"@,
        TcpProbe::ConnectReset => d + ": RST on connect"@,
        TcpProbe::ConnectTimeout => d + ": timeout (possible DPI drop)"@,
        TcpProbe::AddrNotAvailable | TcpProbe::ConnectFailed => d + ": "@ + e,
    }
}

/// The notes of the TCP reset check, one per test domain, in order.
pub open spec fn tcp_notes(probes: Seq<TcpProbe>, errors: Seq<String>) -> Seq<Seq<char>> {
    Seq::new(probes.len(), |i: int| tcp_note(test_domain(i), probes[i], errors[i]@))
}

/// The explanation of the TCP reset check: on a failure, how many of the
/// test domains were affected, then the note of every domain.
pub open spec fn tcp_rst_detail(probes: Seq<TcpProbe>, errors: Seq<String>, clean_ok: bool) -> Seq<char> {
    let ok = count_probes(probes, |p: TcpProbe| probe_alive(p));
    let rst = count_probes(probes, |p: TcpProbe| probe_reset(p));
    let notes = text::join(tcp_notes(probes, errors), "; "@);
    if !clean_ok {
        "Internet connectivity issue (google.com unreachable)"@
    } else if ok > 0 && rst == 0 {
        "TCP connections successful, no RST detected"@
    } else if rst > 0 {
        "TCP RST/blocking detected ("@ + text::decimal(rst) + "/"@ + text::decimal(probes.len())
            + " domains affected): "@ + notes
    } else {
        "Mixed results: "@ + notes
    }
}

fn tcp_note_chars(i: usize, p: TcpProbe, e: &str) -> (v: Vec<char>)
    ensures
        v@ == tcp_note(test_domain(i as int), p, e@),
{
    let mut v = to_chars(test_domain_str(i));
    match p {
        TcpProbe::Replied => text::push_str(&mut v, ": connected"),
        TcpProbe::Idle => text::push_str(&mut v, ": connected (idle)"),
        TcpProbe::ReadReset => text::push_str(&mut v, ": RST after connect"),
        TcpProbe::ReadFailed => {
            text::push_str(&mut v, ": ");
            text::push_str(&mut v, e);
            text::push_str(&mut v, " after connect");
        },
        TcpProbe::ConnectReset => text::push_str(&mut v, ": RST on connect"),
        TcpProbe::ConnectTimeout => text::push_str(&mut v, ": timeout (possible DPI drop)"),
        TcpProbe::AddrNotAvailable | TcpProbe::ConnectFailed => {
            text::push_str(&mut v, ": ");
            text::push_str(&mut v, e);
        },
    }
    v
}

fn joined_notes(notes: &Vec<Vec<char>>) -> (v: Vec<char>)
    ensures
        v@ == text::join(notes.deep_view(), "; "@),
{
    let sep = to_chars("; ");
    text::join_chars(notes, sep.as_slice())
}

fn put_note(notes: &mut Vec<Vec<char>>, n: Vec<char>)
    ensures
        final(notes).deep_view() == old(notes).deep_view().push(n@),
{
    let ghost before = notes.deep_view();
    assert(n.deep_view() =~= n@);
    notes.push(n);
    assert(notes.deep_view() =~= before.push(n@));
}

/// Detects TCP resets and drops on the three test domains (port 443), given
/// each domain's probe and the text of the error it ended with; skipped when
/// the clean reference domain is unreachable too.
pub fn check_tcp_rst(probes: &Vec<TcpProbe>, errors: &Vec<String>, clean_ok: bool) -> (r: CheckResult)
    requires
        probes@.len() == 3,
        errors@.len() == 3,
    ensures
        r.status == tcp_rst_status(probes@, clean_ok),
        r.detail@ == tcp_rst_detail(probes@, errors@, clean_ok),
{
    let ok = count_matching(probes, 0);
    let rst = count_matching(probes, 1);
    if !clean_ok {
        return CheckResult::skip("Internet connectivity issue (google.com unreachable)");
    } else if ok > 0 && rst == 0 {
        return CheckResult::pass("TCP connections successful, no RST detected");
    }
    let mut notes: Vec<Vec<char>> = Vec::new();
    let mut i: usize = 0;
    while i < probes.len()
        invariant
            i <= probes@.len(),
            errors@.len() == probes@.len(),
            notes.deep_view() =~= tcp_notes(probes@, errors@).take(i as int),
        decreases probes.len() - i,
    {
        put_note(&mut notes, tcp_note_chars(i, probes[i], errors[i].as_str()));
        i += 1;
    }
    assert(notes.deep_view() =~= tcp_notes(probes@, errors@));
    let joined = joined_notes(&notes);
    let head = if rst > 0 {
        String::from_str("TCP RST/blocking detected (").concat(count_text(rst).as_str()).concat("/").concat(
            count_text(probes.len()).as_str(),
        ).concat(" domains affected): ")
    } else {
        String::from_str("Mixed results: ")
    };
    let d = head.concat(text::from_chars(joined.as_slice()).as_str());
    CheckResult { status: if rst > 0 { CheckStatus::Fail } else { CheckStatus::Skip }, detail: d }
}

/// The verdict of the SNI check: domains that fail while their IPs work.
pub open spec fn sni_status(domain_ok: Seq<bool>, ip_probes: Seq<TcpProbe>, clean_ok: bool) -> CheckStatus {
    let domain_fail = domain_ok.len() - count_true(domain_ok);
    let ip_ok = count_probes(ip_probes, |p: TcpProbe| probe_alive(p) || p is ReadFailed);
    let ip_fail = count_probes(ip_probes, |p: TcpProbe| probe_reset(p));
    if !clean_ok {
        CheckStatus::Skip
    } else if domain_fail > 0 && ip_ok > ip_fail {
        CheckStatus::Fail
    } else if domain_fail == 0 {
        CheckStatus::Pass
    } else {
        CheckStatus::Skip
    }
}

fn count_bools(s: &Vec<bool>) -> (n: usize)
    ensures
        n == count_true(s@),
        n <= s@.len(),
{
    let b = BlockChecks { enabled: s.clone() };
    proof {
        lemma_count_true_le(s@);
    }
    b.count_enabled()
}

/// The printed form of the known address `k` of the test domain at `i`.
pub open spec fn known_ip_text(i: int, k: int) -> Seq<char> {
    if i == 0 {
        if k == 0 {
            "162.159.128.233"@
        } else if k == 1 {
            "162.159.135.232"@
        } else {
            "162.159.136.232"@
        }
    } else {
        if k == 0 {
            "142.250.150.46"@
        } else if k == 1 {
            "216.58.209.46"@
        } else {
            "142.250.185.78"@
        }
    }
}

fn known_ip_str(i: usize, k: usize) -> (r: &'static str)
    ensures
        r@ == known_ip_text(i as int, k as int),
{
    if i == 0 {
        if k == 0 {
            "162.159.128.233"
        } else if k == 1 {
            "162.159.135.232"
        } else {
            "162.159.136.232"
        }
    } else {
        if k == 0 {
            "142.250.150.46"
        } else if k == 1 {
            "216.58.209.46"
        } else {
            "142.250.185.78"
        }
    }
}

/// What the SNI check reports of one probe of address `ip` of domain `d`
/// (nothing, or one note).
pub open spec fn sni_note(d: Seq<char>, ip: Seq<char>, p: TcpProbe, domain_ok: bool) -> Seq<Seq<char>> {
    match p {
        TcpProbe::Replied | TcpProbe::Idle => if domain_ok {
            seq![]
        } else {
            seq![d + " (IP "@ + ip + ") works, domain fails -> SNI block"@]
        },
        TcpProbe::ReadReset => seq![d + " (IP "@ + ip + "): RST"@],
        TcpProbe::ConnectReset => seq![d + " (IP "@ + ip + "): RST on connect"@],
        TcpProbe::ConnectTimeout => seq![d + " (IP "@ + ip + "): timeout"@],
        _ => seq![],
    }
}

/// The notes of the first `n` address probes (three per test domain).
pub open spec fn sni_notes(domain_ok: Seq<bool>, probes: Seq<TcpProbe>, n: nat) -> Seq<Seq<char>>
    decreases n,
{
    if n == 0 {
        seq![]
    } else {
        let k = n - 1;
        sni_notes(domain_ok, probes, k as nat) + sni_note(
            test_domain(k / 3),
            known_ip_text(k / 3, k % 3),
            probes[k],
            domain_ok[k / 3],
        )
    }
}

/// The explanation of the SNI check, with the notes of the address probes.
pub open spec fn sni_detail(domain_ok: Seq<bool>, ip_probes: Seq<TcpProbe>, clean_ok: bool) -> Seq<char> {
    let notes = text::join(sni_notes(domain_ok, ip_probes, ip_probes.len()), "; "@);
    match sni_status(domain_ok, ip_probes, clean_ok) {
        CheckStatus::Fail => "SNI blocking detected (domains fail but IPs work): "@ + notes,
        CheckStatus::Pass => "No SNI blocking detected"@,
        _ => if !clean_ok {
            "Internet connectivity issue"@
        } else {
            "Inconclusive: "@ + notes
        },
    }
}

fn push_sni_note(notes: &mut Vec<Vec<char>>, i: usize, k: usize, p: TcpProbe, domain_ok: bool)
    ensures
        final(notes).deep_view() == old(notes).deep_view() + sni_note(
            test_domain(i as int),
            known_ip_text(i as int, k as int),
            p,
            domain_ok,
        ),
{
    let ghost d = test_domain(i as int);
    let ghost ip = known_ip_text(i as int, k as int);
    let tail: &str = match p {
        TcpProbe::Replied | TcpProbe::Idle => if domain_ok {
            ""
        } else {
            ") works, domain fails -> SNI block"
        },
        TcpProbe::ReadReset => "): RST",
        TcpProbe::ConnectReset => "): RST on connect",
        TcpProbe::ConnectTimeout => "): timeout",
        _ => "",
    };
    let noted = match p {
        TcpProbe::Replied | TcpProbe::Idle => !domain_ok,
        TcpProbe::ReadReset | TcpProbe::ConnectReset | TcpProbe::ConnectTimeout => true,
        _ => false,
    };
    if noted {
        let mut v = to_chars(test_domain_str(i));
        text::push_str(&mut v, " (IP ");
        text::push_str(&mut v, known_ip_str(i, k));
        text::push_str(&mut v, tail);
        put_note(notes, v);
        assert(final(notes).deep_view() =~= old(notes).deep_view() + sni_note(d, ip, p, domain_ok));
    } else {
        assert(old(notes).deep_view() + sni_note(d, ip, p, domain_ok) =~= old(notes).deep_view());
    }
}

/// Detects SNI-based blocking: by name the two test domains with known
/// addresses fail, by address they connect. Takes whether each domain
/// connected by name and the probe of each of its three addresses.
pub fn check_sni_block(domain_ok: &Vec<bool>, ip_probes: &Vec<TcpProbe>, clean_ok: bool) -> (r: CheckResult)
    requires
        domain_ok@.len() == 2,
        ip_probes@.len() == 6,
    ensures
        r.status == sni_status(domain_ok@, ip_probes@, clean_ok),
        r.detail@ == sni_detail(domain_ok@, ip_probes@, clean_ok),
{
    let domain_fail = domain_ok.len() - count_bools(domain_ok);
    let ip_ok = count_matching(ip_probes, 2);
    let ip_fail = count_matching(ip_probes, 1);
    if !clean_ok {
        return CheckResult::skip("Internet connectivity issue");
    } else if domain_fail == 0 && !(domain_fail > 0 && ip_ok > ip_fail) {
        return CheckResult::pass("No SNI blocking detected");
    }
    let mut notes: Vec<Vec<char>> = Vec::new();
    let mut n: usize = 0;
    while n < 6
        invariant
            n <= 6,
            ip_probes@.len() == 6,
            domain_ok@.len() == 2,
            notes.deep_view() == sni_notes(domain_ok@, ip_probes@, n as nat),
        decreases 6 - n,
    {
        push_sni_note(&mut notes, n / 3, n % 3, ip_probes[n], domain_ok[n / 3]);
        n += 1;
    }
    let joined = text::from_chars(joined_notes(&notes).as_slice());
    if domain_fail > 0 && ip_ok > ip_fail {
        CheckResult {
            status: CheckStatus::Fail,
            detail: String::from_str("SNI blocking detected (domains fail but IPs work): ").concat(joined.as_str()),
        }
    } else {
        CheckResult { status: CheckStatus::Skip, detail: String::from_str("Inconclusive: ").concat(joined.as_str()) }
    }
}

/// The verdict of the CIDR check from the connections to well-known addresses.
pub open spec fn cidr_status(probes: Seq<TcpProbe>, clean_ok: bool) -> CheckStatus {
    let blocked = count_probes(probes, |p: TcpProbe| probe_connect_blocked(p));
    if !clean_ok {
        CheckStatus::Skip
    } else if blocked == 0 {
        CheckStatus::Pass
    } else {
        CheckStatus::Fail
    }
}

/// The address tested at `i` by the CIDR check, with what it is.
pub open spec fn cidr_target(i: int) -> Seq<char> {
    if i == 0 {
        "1.1.1.1 (Cloudflare DNS)"@
    } else if i == 1 {
        "8.8.8.8 (Google DNS)"@
    } else if i == 2 {
        "77.88.8.8 (Yandex DNS)"@
    } else if i == 3 {
        "185.178.208.97 (discord CDN (MCF))"@
    } else {
        "104.16.0.0 (Cloudflare edge)"@
    }
}

fn cidr_target_str(i: usize) -> (r: &'static str)
    ensures
        r@ == cidr_target(i as int),
{
    if i == 0 {
        "1.1.1.1 (Cloudflare DNS)"
    } else if i == 1 {
        "8.8.8.8 (Google DNS)"
    } else if i == 2 {
        "77.88.8.8 (Yandex DNS)"
    } else if i == 3 {
        "185.178.208.97 (discord CDN (MCF))"
    } else {
        "104.16.0.0 (Cloudflare edge)"
    }
}

/// What the CIDR check reports of the address at `i`: a note for a blocked
/// connection, nothing otherwise.
pub open spec fn cidr_note(i: int, p: TcpProbe) -> Seq<Seq<char>> {
    match p {
        TcpProbe::ConnectReset => seq![cidr_target(i) + " RST"@],
        TcpProbe::ConnectTimeout => seq![cidr_target(i) + " timeout"@],
        _ => seq![],
    }
}

/// The notes of the first `n` addresses.
pub open spec fn cidr_notes(probes: Seq<TcpProbe>, n: nat) -> Seq<Seq<char>>
    decreases n,
{
    if n == 0 {
        seq![]
    } else {
        cidr_notes(probes, (n - 1) as nat) + cidr_note(n - 1, probes[n - 1])
    }
}

/// The explanation of the CIDR check: a selective block says how many of
/// the addresses were blocked, and which.
pub open spec fn cidr_detail(probes: Seq<TcpProbe>, clean_ok: bool) -> Seq<char> {
    let reachable = count_probes(probes, |p: TcpProbe| probe_connected(p));
    let blocked = count_probes(probes, |p: TcpProbe| probe_connect_blocked(p));
    if !clean_ok {
        "Internet connectivity issue"@
    } else if blocked == 0 {
        "No CIDR-based blocking detected across tested subnets"@
    } else if reachable > 0 {
        "Possible selective CIDR blocking ("@ + text::decimal(blocked) + "/"@ + text::decimal(probes.len())
            + " blocked): "@ + text::join(cidr_notes(probes, probes.len()), "; "@)
    } else {
        "All tested IPs blocked: possible whitelist-only policy"@
    }
}

/// Detects address-range (CIDR) blocking and whitelist-only networks from
/// the connections to the five tested addresses.
pub fn check_cidr_whitelist(probes: &Vec<TcpProbe>, clean_ok: bool) -> (r: CheckResult)
    requires
        probes@.len() == 5,
    ensures
        r.status == cidr_status(probes@, clean_ok),
        r.detail@ == cidr_detail(probes@, clean_ok),
{
    let reachable = count_matching(probes, 3);
    let blocked = count_matching(probes, 4);
    if !clean_ok {
        CheckResult::skip("Internet connectivity issue")
    } else if blocked == 0 {
        CheckResult::pass("No CIDR-based blocking detected across tested subnets")
    } else if reachable > 0 {
        let mut notes: Vec<Vec<char>> = Vec::new();
        let mut i: usize = 0;
        while i < 5
            invariant
                i <= 5,
                probes@.len() == 5,
                notes.deep_view() == cidr_notes(probes@, i as nat),
            decreases 5 - i,
        {
            let ghost before = notes.deep_view();
            match probes[i] {
                TcpProbe::ConnectReset => {
                    let mut v = to_chars(cidr_target_str(i));
                    text::push_str(&mut v, " RST");
                    put_note(&mut notes, v);
                },
                TcpProbe::ConnectTimeout => {
                    let mut v = to_chars(cidr_target_str(i));
                    text::push_str(&mut v, " timeout");
                    put_note(&mut notes, v);
                },
                _ => {},
            }
            assert(notes.deep_view() =~= before + cidr_note(i as int, probes@[i as int]));
            i += 1;
        }
        let joined = text::from_chars(joined_notes(&notes).as_slice());
        let d = String::from_str("Possible selective CIDR blocking (").concat(count_text(blocked).as_str()).concat(
            "/",
        ).concat(count_text(probes.len()).as_str()).concat(" blocked): ").concat(joined.as_str());
        CheckResult { status: CheckStatus::Fail, detail: d }
    } else {
        CheckResult::fail("All tested IPs blocked: possible whitelist-only policy")
    }
}

/// The verdict of the connection-count ("Siberian") check: after many
/// concurrent connections, further ones must all still succeed and nearly all
/// connections overall. The ratios 0.95 and 0.8 are compared exactly, in
/// integers.
pub open spec fn siberian_status(clean_ok: bool, concurrent_alive: nat, concurrent_failed: nat, extra_ok: Seq<bool>) -> CheckStatus {
    let extra_failed = extra_ok.len() - count_true(extra_ok);
    let alive = concurrent_alive + count_true(extra_ok);
    let total = alive + concurrent_failed + extra_failed;
    if !clean_ok {
        CheckStatus::Skip
    } else if extra_failed == 0 && (total == 0 || 100 * alive > 95 * total) {
        CheckStatus::Pass
    } else if extra_failed > 0 {
        CheckStatus::Fail
    } else if total > 0 && 100 * alive < 80 * total {
        CheckStatus::Fail
    } else {
        CheckStatus::Skip
    }
}

/// The explanation of the connection-count check, with the counts behind the
/// verdict.
pub open spec fn siberian_detail(
    clean_ok: bool,
    concurrent_alive: nat,
    concurrent_failed: nat,
    extra_ok: Seq<bool>,
) -> Seq<char> {
    let extra_failed = (extra_ok.len() - count_true(extra_ok)) as nat;
    let alive = concurrent_alive + count_true(extra_ok);
    let failed = concurrent_failed + extra_failed;
    let total = alive + failed;
    if !clean_ok {
        "Internet connectivity issue"@
    } else if extra_failed == 0 && (total == 0 || 100 * alive > 95 * total) {
        "No Siberian block detected (100% success after 15+ concurrent)"@
    } else if extra_failed > 0 {
        "Possible Siberian block: "@ + text::decimal(extra_failed) + " of "@ + text::decimal(
            extra_ok.len(),
        ) + " extra connections failed"@
    } else if total > 0 && 100 * alive < 80 * total {
        "High failure rate: "@ + text::decimal(failed) + "/"@ + text::decimal(total)
            + " connections failed"@
    } else {
        "Mixed results: "@ + text::decimal(alive) + "/"@ + text::decimal(total) + " alive, "@
            + text::decimal(extra_failed) + "/"@ + text::decimal(extra_ok.len()) + " extra failed"@
    }
}

/// Detects blocking that starts after a number of connections: given how many
/// of the concurrent connections succeeded and failed and the outcome of each
/// extra connection made afterwards.
pub fn check_siberian_block(
    clean_ok: bool,
    concurrent_alive: usize,
    concurrent_failed: usize,
    extra_ok: &Vec<bool>,
) -> (r: CheckResult)
    requires
        concurrent_alive + concurrent_failed + extra_ok@.len() <= usize::MAX,
    ensures
        r.status == siberian_status(
            clean_ok,
            concurrent_alive as nat,
            concurrent_failed as nat,
            extra_ok@,
        ),
        r.detail@ == siberian_detail(
            clean_ok,
            concurrent_alive as nat,
            concurrent_failed as nat,
            extra_ok@,
        ),
{
    if !clean_ok {
        return CheckResult::skip("Internet connectivity issue");
    }
    let ok = count_bools(extra_ok);
    let extra_failed = extra_ok.len() - ok;
    let alive = concurrent_alive + ok;
    let failed = concurrent_failed + extra_failed;
    let total = alive + failed;
    let wide_alive = alive as u128;
    let wide_total = total as u128;
    if extra_failed == 0 && (total == 0 || 100 * wide_alive > 95 * wide_total) {
        CheckResult::pass("No Siberian block detected (100% success after 15+ concurrent)")
    } else if extra_failed > 0 {
        let d = String::from_str("Possible Siberian block: ").concat(count_text(extra_failed).as_str()).concat(
            " of ",
        ).concat(count_text(extra_ok.len()).as_str()).concat(" extra connections failed");
        CheckResult { status: CheckStatus::Fail, detail: d }
    } else if total > 0 && 100 * wide_alive < 80 * wide_total {
        let d = String::from_str("High failure rate: ").concat(count_text(failed).as_str()).concat("/").concat(
            count_text(total).as_str(),
        ).concat(" connections failed");
        CheckResult { status: CheckStatus::Fail, detail: d }
    } else {
        let d = String::from_str("Mixed results: ").concat(count_text(alive).as_str()).concat("/").concat(
            count_text(total).as_str(),
        ).concat(" alive, ").concat(count_text(extra_failed).as_str()).concat("/").concat(
            count_text(extra_ok.len()).as_str(),
        ).concat(" extra failed");
        CheckResult { status: CheckStatus::Skip, detail: d }
    }
}

/// Whether UDP to a public resolver could be set up at all.
#[derive(Debug, Clone, Copy, PartialEq, Eq, Structural)]
pub enum UdpReach {
    Reachable,
    Unreachable,
    NoSocket,
}

/// What one QUIC probe showed.
#[derive(Debug, Clone, Copy, PartialEq, Eq, Structural)]
pub enum QuicProbe {
    Reply,
    NoReply,
    ProbeError,
    ConnectFailed,
    BindError,
}

/// The verdict of the QUIC check.
pub open spec fn quic_status(udp: UdpReach, probes: Seq<QuicProbe>) -> CheckStatus {
    if udp != UdpReach::Reachable {
        CheckStatus::Skip
    } else if exists|i: int| 0 <= i < probes.len() && probes[i] == QuicProbe::Reply {
        CheckStatus::Pass
    } else {
        CheckStatus::Fail
    }
}

/// The explanation of the QUIC check.
pub open spec fn quic_detail(udp: UdpReach, probes: Seq<QuicProbe>) -> Seq<char> {
    match udp {
        UdpReach::NoSocket => "Cannot create UDP socket"@,
        UdpReach::Unreachable => "Internet connectivity issue (cannot reach 8.8.8.8:53 UDP)"@,
        UdpReach::Reachable => if quic_status(udp, probes) == CheckStatus::Pass {
            "QUIC/UDP traffic appears unblocked"@
        } else {
            "QUIC/UDP likely blocked"@
        },
    }
}

/// Detects QUIC blocking: no QUIC Initial to the test addresses is answered.
pub fn check_quic_block(udp: UdpReach, probes: &Vec<QuicProbe>) -> (r: CheckResult)
    ensures
        r.status == quic_status(udp, probes@),
        r.detail@ == quic_detail(udp, probes@),
{
    match udp {
        UdpReach::NoSocket => {
            return CheckResult::skip("Cannot create UDP socket");
        },
        UdpReach::Unreachable => {
            return CheckResult::skip("Internet connectivity issue (cannot reach 8.8.8.8:53 UDP)");
        },
        UdpReach::Reachable => {},
    }
    let mut i: usize = 0;
    while i < probes.len()
        invariant
            udp == UdpReach::Reachable,
            i <= probes@.len(),
            forall|j: int| 0 <= j < i ==> probes@[j] != QuicProbe::Reply,
        decreases probes.len() - i,
    {
        if probes[i] == QuicProbe::Reply {
            assert(0 <= i < probes@.len() && probes@[i as int] == QuicProbe::Reply);
            return CheckResult::pass("QUIC/UDP traffic appears unblocked");
        }
        i += 1;
    }
    CheckResult::fail("QUIC/UDP likely blocked")
}

/// An address a name resolved to.
#[derive(Debug, Clone, Copy, PartialEq, Eq, Structural)]
pub enum IpAddress {
    V4(u8, u8, u8, u8),
    V6,
}

/// An address that DNS answers point to instead of the real one: unspecified,
/// loopback or private IPv4.
pub open spec fn sinkhole(ip: IpAddress) -> bool {
    match ip {
        IpAddress::V4(a, b, _c, _d) => (a == 0 && b == 0 && _c == 0 && _d == 0) || a == 127 || a
            == 10 || (a == 172 && 16 <= b && b <= 31) || (a == 192 && b == 168),
        IpAddress::V6 => false,
    }
}

/// Executable [`sinkhole`].
pub fn is_sinkhole(ip: IpAddress) -> (b: bool)
    ensures
        b == sinkhole(ip),
{
    match ip {
        IpAddress::V4(a, b, c, d) => (a == 0 && b == 0 && c == 0 && d == 0) || a == 127 || a == 10
            || (a == 172 && 16 <= b && b <= 31) || (a == 192 && b == 168),
        IpAddress::V6 => false,
    }
}

/// The addresses known for the test domain at `i` (none for the CDN domain).
pub open spec fn known_ips(i: int) -> Seq<IpAddress> {
    if i == 0 {
        seq![
            IpAddress::V4(162, 159, 128, 233),
            IpAddress::V4(162, 159, 135, 232),
            IpAddress::V4(162, 159, 136, 232),
        ]
    } else if i == 1 {
        seq![
            IpAddress::V4(142, 250, 150, 46),
            IpAddress::V4(216, 58, 209, 46),
            IpAddress::V4(142, 250, 185, 78),
        ]
    } else {
        seq![]
    }
}

/// One address a test domain resolved to, with the text by which it is
/// printed.
pub struct DnsAnswer {
    pub addr: IpAddress,
    pub shown: String,
}

/// The test domain at `i`.
pub open spec fn test_domain(i: int) -> Seq<char> {
    if i == 0 {
        "discord.com"@
    } else if i == 1 {
        "youtube.com"@
    } else {
        "cdn.discordapp.com"@
    }
}

fn test_domain_str(i: usize) -> (r: &'static str)
    ensures
        r@ == test_domain(i as int),
{
    if i == 0 {
        "discord.com"
    } else if i == 1 {
        "youtube.com"
    } else {
        "cdn.discordapp.com"
    }
}

/// The known addresses of the test domain at `i` as they are listed in a
/// report.
pub open spec fn known_text(i: int) -> Seq<char> {
    if i == 0 {
        "[\"162.159.128.233\", \"162.159.135.232\", \"162.159.136.232\"]"@
    } else {
        "[\"142.250.150.46\", \"216.58.209.46\", \"142.250.185.78\"]"@
    }
}

fn known_text_str(i: usize) -> (r: &'static str)
    ensures
        r@ == known_text(i as int),
{
    if i == 0 {
        "[\"162.159.128.233\", \"162.159.135.232\", \"162.159.136.232\"]"
    } else {
        "[\"142.250.150.46\", \"216.58.209.46\", \"142.250.185.78\"]"
    }
}

/// A bracketed, comma-separated list.
pub open spec fn list_text(items: Seq<Seq<char>>) -> Seq<char> {
    "["@ + text::join(items, ", "@) + "]"@
}

/// The printed forms of all the answers, in order.
pub open spec fn shown_texts(a: Seq<DnsAnswer>) -> Seq<Seq<char>>
    decreases a.len(),
{
    if a.len() == 0 {
        seq![]
    } else {
        shown_texts(a.drop_last()).push(a.last().shown@)
    }
}

/// The printed forms of the answers that are sinkholes, in order.
pub open spec fn sinkhole_texts(a: Seq<DnsAnswer>) -> Seq<Seq<char>>
    decreases a.len(),
{
    if a.len() == 0 {
        seq![]
    } else if sinkhole(a.last().addr) {
        sinkhole_texts(a.drop_last()).push(a.last().shown@)
    } else {
        sinkhole_texts(a.drop_last())
    }
}

/// Whether some answer is a sinkhole address.
pub open spec fn has_sinkhole(a: Seq<DnsAnswer>) -> bool {
    exists|j: int| 0 <= j < a.len() && sinkhole(#[trigger] a[j].addr)
}

/// Whether a test domain's answers look right: it resolved, and for a domain
/// with known addresses one of them is among the answers.
pub open spec fn answer_good(i: int, a: Seq<DnsAnswer>) -> bool {
    &&& a.len() > 0
    &&& (i >= 2 || exists|j: int, k: int|
        0 <= j < a.len() && 0 <= k < known_ips(i).len() && a[j].addr == known_ips(i)[k])
}

/// The verdict of the DNS spoofing check from the answers for the three test
/// domains (discord.com, youtube.com, cdn.discordapp.com) and whether the
/// clean reference domain resolved.
pub open spec fn dns_status(a0: Seq<DnsAnswer>, a1: Seq<DnsAnswer>, a2: Seq<DnsAnswer>, clean_resolved: bool) -> CheckStatus {
    if has_sinkhole(a0) || has_sinkhole(a1) || has_sinkhole(a2) {
        CheckStatus::Fail
    } else if !clean_resolved {
        CheckStatus::Skip
    } else if answer_good(0, a0) && answer_good(1, a1) && answer_good(2, a2) {
        CheckStatus::Pass
    } else {
        CheckStatus::Fail
    }
}

/// What is reported of a test domain whose answers do not look right.
pub open spec fn dns_note(i: int, a: Seq<DnsAnswer>) -> Seq<char> {
    if a.len() == 0 {
        test_domain(i) + ": not resolved"@
    } else {
        test_domain(i) + " resolved to "@ + list_text(shown_texts(a)) + " (unexpected vs known "@
            + known_text(i) + ")"@
    }
}

/// The note of the domain at `i`, if its answers do not look right.
pub open spec fn note_if_bad(i: int, a: Seq<DnsAnswer>) -> Seq<Seq<char>> {
    if answer_good(i, a) {
        seq![]
    } else {
        seq![dns_note(i, a)]
    }
}

/// What is reported of a test domain that resolved to sinkhole addresses.
pub open spec fn sinkhole_note(i: int, a: Seq<DnsAnswer>) -> Seq<char> {
    test_domain(i) + " resolved to sinkhole IPs: "@ + list_text(sinkhole_texts(a))
}

/// The explanation of the DNS spoofing check: the first test domain with
/// sinkhole answers, or the notes of all the domains that look wrong.
pub open spec fn dns_detail(a0: Seq<DnsAnswer>, a1: Seq<DnsAnswer>, a2: Seq<DnsAnswer>, clean_resolved: bool) -> Seq<char> {
    let notes = note_if_bad(0, a0) + note_if_bad(1, a1) + note_if_bad(2, a2);
    if has_sinkhole(a0) {
        sinkhole_note(0, a0)
    } else if has_sinkhole(a1) {
        sinkhole_note(1, a1)
    } else if has_sinkhole(a2) {
        sinkhole_note(2, a2)
    } else if !clean_resolved {
        "google.com: not resolved (possible Internet issue)"@
    } else if notes.len() == 0 {
        "DNS responses look legitimate"@
    } else {
        "Possible DNS spoofing: "@ + text::join(notes, "; "@)
    }
}

fn known_addresses(i: usize) -> (v: Vec<IpAddress>)
    ensures
        v@ == known_ips(i as int),
{
    let mut v: Vec<IpAddress> = Vec::new();
    if i == 0 {
        v.push(IpAddress::V4(162, 159, 128, 233));
        v.push(IpAddress::V4(162, 159, 135, 232));
        v.push(IpAddress::V4(162, 159, 136, 232));
    } else if i == 1 {
        v.push(IpAddress::V4(142, 250, 150, 46));
        v.push(IpAddress::V4(216, 58, 209, 46));
        v.push(IpAddress::V4(142, 250, 185, 78));
    }
    proof {
        assert(v@ =~= known_ips(i as int));
    }
    v
}

fn answers_good(i: usize, a: &Vec<DnsAnswer>) -> (b: bool)
    ensures
        b == answer_good(i as int, a@),
{
    if a.len() == 0 {
        return false;
    }
    if i >= 2 {
        return true;
    }
    let known = known_addresses(i);
    let mut j: usize = 0;
    while j < a.len()
        invariant
            j <= a@.len(),
            known@ == known_ips(i as int),
            forall|x: int, y: int| 0 <= x < j && 0 <= y < known@.len() ==> a@[x].addr != known@[y],
        decreases a.len() - j,
    {
        let mut k: usize = 0;
        while k < known.len()
            invariant
                k <= known@.len(),
                j < a@.len(),
                known@ == known_ips(i as int),
                forall|y: int| 0 <= y < k ==> a@[j as int].addr != known@[y],
            decreases known.len() - k,
        {
            if a[j].addr == known[k] {
                assert(0 <= j < a@.len() && 0 <= k < known_ips(i as int).len() && a@[j as int].addr
                    == known_ips(i as int)[k as int]);
                return true;
            }
            k += 1;
        }
        j += 1;
    }
    false
}

fn any_sinkhole(a: &Vec<DnsAnswer>) -> (b: bool)
    ensures
        b == has_sinkhole(a@),
{
    let mut j: usize = 0;
    while j < a.len()
        invariant
            j <= a@.len(),
            forall|x: int| 0 <= x < j ==> !sinkhole(#[trigger] a@[x].addr),
        decreases a.len() - j,
    {
        if is_sinkhole(a[j].addr) {
            return true;
        }
        j += 1;
    }
    false
}

/// The printed forms of the answers, all of them or only the sinkholes.
fn answer_texts(a: &Vec<DnsAnswer>, only_sinkholes: bool) -> (v: Vec<Vec<char>>)
    ensures
        v.deep_view() == if only_sinkholes {
            sinkhole_texts(a@)
        } else {
            shown_texts(a@)
        },
{
    let mut v: Vec<Vec<char>> = Vec::new();
    let mut j: usize = 0;
    while j < a.len()
        invariant
            j <= a@.len(),
            v.deep_view() == if only_sinkholes {
                sinkhole_texts(a@.take(j as int))
            } else {
                shown_texts(a@.take(j as int))
            },
        decreases a.len() - j,
    {
        proof {
            assert(a@.take(j + 1).drop_last() =~= a@.take(j as int));
            assert(a@.take(j + 1).last() == a@[j as int]);
        }
        if !only_sinkholes || is_sinkhole(a[j].addr) {
            let c = text::to_chars(a[j].shown.as_str());
            let ghost before = v.deep_view();
            v.push(c);
            proof {
                assert(c.deep_view() =~= c@);
                assert(v.deep_view() =~= before.push(c@));
            }
        }
        j += 1;
    }
    proof {
        assert(a@.take(a@.len() as int) =~= a@);
    }
    v
}

fn list_chars(parts: &Vec<Vec<char>>) -> (v: Vec<char>)
    ensures
        v@ == list_text(parts.deep_view()),
{
    let mut v = text::to_chars("[");
    let sep = text::to_chars(", ");
    let inner = text::join_chars(parts, sep.as_slice());
    text::push_all(&mut v, inner.as_slice());
    text::push_str(&mut v, "]");
    v
}

fn sinkhole_note_chars(i: usize, a: &Vec<DnsAnswer>) -> (v: Vec<char>)
    ensures
        v@ == sinkhole_note(i as int, a@),
{
    let mut v = text::to_chars(test_domain_str(i));
    text::push_str(&mut v, " resolved to sinkhole IPs: ");
    let texts = answer_texts(a, true);
    let l = list_chars(&texts);
    text::push_all(&mut v, l.as_slice());
    v
}

fn dns_note_chars(i: usize, a: &Vec<DnsAnswer>) -> (v: Vec<char>)
    requires
        i < 2 || a@.len() == 0,
    ensures
        v@ == dns_note(i as int, a@),
{
    let mut v = text::to_chars(test_domain_str(i));
    if a.len() == 0 {
        text::push_str(&mut v, ": not resolved");
    } else {
        text::push_str(&mut v, " resolved to ");
        let texts = answer_texts(a, false);
        let l = list_chars(&texts);
        text::push_all(&mut v, l.as_slice());
        text::push_str(&mut v, " (unexpected vs known ");
        text::push_str(&mut v, known_text_str(i));
        text::push_str(&mut v, ")");
    }
    v
}

/// Adds the note of the domain at `i` when its answers do not look right.
fn push_note(notes: &mut Vec<Vec<char>>, i: usize, a: &Vec<DnsAnswer>)
    requires
        i <= 2,
    ensures
        final(notes).deep_view() == old(notes).deep_view() + note_if_bad(i as int, a@),
{
    if answers_good(i, a) {
        assert(old(notes).deep_view() + note_if_bad(i as int, a@) =~= old(notes).deep_view());
    } else {
        let n = dns_note_chars(i, a);
        let ghost before = notes.deep_view();
        notes.push(n);
        proof {
            assert(n.deep_view() =~= n@);
            assert(notes.deep_view() =~= before + note_if_bad(i as int, a@));
        }
    }
}

/// Detects DNS spoofing: test domains resolving to sinkhole addresses, not
/// resolving, or resolving away from their known addresses.
pub fn check_dns_spoof(answers: &Vec<Vec<DnsAnswer>>, clean_resolved: bool) -> (r: CheckResult)
    requires
        answers@.len() == 3,
    ensures
        r.status == dns_status(answers@[0]@, answers@[1]@, answers@[2]@, clean_resolved),
        r.detail@ == dns_detail(answers@[0]@, answers@[1]@, answers@[2]@, clean_resolved),
{
    let mut i: usize = 0;
    while i < 3
        invariant
            answers@.len() == 3,
            i <= 3,
            i > 0 ==> !has_sinkhole(answers@[0]@),
            i > 1 ==> !has_sinkhole(answers@[1]@),
            i > 2 ==> !has_sinkhole(answers@[2]@),
        decreases 3 - i,
    {
        if any_sinkhole(&answers[i]) {
            let d = sinkhole_note_chars(i, &answers[i]);
            return CheckResult { status: CheckStatus::Fail, detail: text::from_chars(d.as_slice()) };
        }
        i += 1;
    }
    if !clean_resolved {
        return CheckResult::skip("google.com: not resolved (possible Internet issue)");
    }
    let mut notes: Vec<Vec<char>> = Vec::new();
    push_note(&mut notes, 0, &answers[0]);
    push_note(&mut notes, 1, &answers[1]);
    push_note(&mut notes, 2, &answers[2]);
    proof {
        let a0 = answers@[0]@;
        let a1 = answers@[1]@;
        let a2 = answers@[2]@;
        assert(notes.deep_view() =~= note_if_bad(0, a0) + note_if_bad(1, a1) + note_if_bad(2, a2));
    }
    if notes.len() == 0 {
        CheckResult::pass("DNS responses look legitimate")
    } else {
        let mut d = text::to_chars("Possible DNS spoofing: ");
        let sep = text::to_chars("; ");
        let joined = text::join_chars(&notes, sep.as_slice());
        text::push_all(&mut d, joined.as_slice());
        CheckResult { status: CheckStatus::Fail, detail: text::from_chars(d.as_slice()) }
    }
}

/// The alive verdict for a domain from its connection probe.
pub open spec fn alive_status(p: TcpProbe) -> CheckStatus {
    match p {
        TcpProbe::Replied | TcpProbe::Idle | TcpProbe::ReadFailed => CheckStatus::Pass,
        TcpProbe::ReadReset | TcpProbe::ConnectReset | TcpProbe::ConnectTimeout => CheckStatus::Fail,
        TcpProbe::AddrNotAvailable => CheckStatus::Error,
        TcpProbe::ConnectFailed => CheckStatus::Skip,
    }
}

/// Whether a domain answers on port 443 at all.
pub fn check_domain_alive(probe: TcpProbe) -> (s: CheckStatus)
    ensures
        s == alive_status(probe),
{
    match probe {
        TcpProbe::Replied | TcpProbe::Idle | TcpProbe::ReadFailed => CheckStatus::Pass,
        TcpProbe::ReadReset | TcpProbe::ConnectReset | TcpProbe::ConnectTimeout => CheckStatus::Fail,
        TcpProbe::AddrNotAvailable => CheckStatus::Error,
        TcpProbe::ConnectFailed => CheckStatus::Skip,
    }
}

/// The alive check calls a domain blocked exactly when its probe shows
/// interference as the reset check reads it (a reset, or a connection
/// attempt that timed out); it calls it alive exactly when the probe got a
/// connection that was not reset.
pub proof fn lemma_alive_verdict(p: TcpProbe)
    ensures
        (alive_status(p) == CheckStatus::Fail) == probe_reset(p),
        (alive_status(p) == CheckStatus::Pass) == (probe_connected(p) && !probe_reset(p)),
        probe_connect_blocked(p) ==> alive_status(p) == CheckStatus::Fail,
{
}

/// How many attempts succeeded before the first failure.
pub open spec fn leading_true(s: Seq<bool>) -> nat
    decreases s.len(),
{
    if s.len() == 0 || !s[0] {
        0
    } else {
        1 + leading_true(s.drop_first())
    }
}

/// The plain-HTTP verdict for a domain from its request attempts, made in order
/// and stopped at the first failure: passed when every attempt got a reply
/// (and there was one), with the number of replies.
pub fn check_domain_http(attempts: &Vec<bool>) -> (r: (CheckStatus, usize))
    ensures
        r.1 == leading_true(attempts@),
        r.0 == (if leading_true(attempts@) == attempts@.len() && attempts@.len() > 0 {
            CheckStatus::Pass
        } else {
            CheckStatus::Fail
        }),
{
    let mut i: usize = 0;
    proof {
        assert(attempts@.skip(0) =~= attempts@);
    }
    while i < attempts.len()
        invariant
            i <= attempts@.len(),
            forall|j: int| 0 <= j < i ==> attempts@[j],
            leading_true(attempts@) == i + leading_true(attempts@.skip(i as int)),
        decreases attempts.len() - i,
    {
        if !attempts[i] {
            proof {
                assert(attempts@.skip(i as int)[0] == attempts@[i as int]);
            }
            return (CheckStatus::Fail, i);
        }
        proof {
            assert(attempts@.skip(i as int).drop_first() =~= attempts@.skip(i + 1));
        }
        i += 1;
    }
    proof {
        assert(attempts@.skip(i as int).len() == 0);
    }
    if i > 0 {
        (CheckStatus::Pass, i)
    } else {
        (CheckStatus::Fail, i)
    }
}

/// The TLS verdict for a domain from its connection attempts, stopped at the
/// first failure: passed when none failed.
pub fn check_domain_tls(attempts: &Vec<bool>) -> (s: CheckStatus)
    ensures
        s == (if forall|j: int| 0 <= j < attempts@.len() ==> attempts@[j] {
            CheckStatus::Pass
        } else {
            CheckStatus::Fail
        }),
{
    let mut i: usize = 0;
    while i < attempts.len()
        invariant
            i <= attempts@.len(),
            forall|j: int| 0 <= j < i ==> attempts@[j],
        decreases attempts.len() - i,
    {
        if !attempts[i] {
            return CheckStatus::Fail;
        }
        i += 1;
    }
    CheckStatus::Pass
}

/// The QUIC verdict for a domain: skipped when it did not resolve, otherwise
/// whether one of its first two addresses answered a QUIC Initial.
pub fn check_domain_quic(resolved: bool, answered: bool) -> (r: (CheckStatus, usize))
    ensures
        r == (if !resolved {
            (CheckStatus::Skip, 0usize)
        } else if answered {
            (CheckStatus::Pass, 1usize)
        } else {
            (CheckStatus::Fail, 0usize)
        }),
{
    if !resolved {
        (CheckStatus::Skip, 0)
    } else if answered {
        (CheckStatus::Pass, 1)
    } else {
        (CheckStatus::Fail, 0)
    }
}

/// The probe results gathered for one domain, before any strategy runs.
/// Results that a check needs only under some configuration may hold anything
/// when that check is off.
pub struct DomainProbes {
    pub alive: CheckStatus,
    pub http: (CheckStatus, usize),
    pub tls: CheckStatus,
    pub quic: (CheckStatus, usize),
    /// Whether the baseline TLS 1.3 request succeeded (probed only for a live domain).
    pub baseline: bool,
}

/// `<label><status> (<count>/<requests>)`.
pub open spec fn count_part(label: Seq<char>, s: CheckStatus, c: nat, n: nat) -> Seq<char> {
    label + status_short_word(s) + " ("@ + text::decimal(c) + "/"@ + text::decimal(n) + ")"@
}

/// The detail parts of a live domain's checks, in order.
pub open spec fn domain_parts(config_http: bool, config_tls12: bool, config_tls13: bool, config_quic: bool, n: nat, p: DomainProbes) -> Seq<Seq<char>> {
    (if config_http {
        seq![count_part("HTTP:"@, p.http.0, p.http.1 as nat, n)]
    } else {
        seq![]
    }) + (if config_tls12 {
        seq!["TLS1.2:"@ + status_short_word(p.tls)]
    } else {
        seq![]
    }) + (if config_tls13 {
        seq!["TLS1.3:"@ + status_short_word(p.tls)]
    } else {
        seq![]
    }) + (if config_quic {
        seq![count_part("QUIC:"@, p.quic.0, p.quic.1 as nat, n)]
    } else {
        seq![]
    })
}

fn count_part_chars(label: &str, s: CheckStatus, c: usize, n: usize) -> (v: Vec<char>)
    ensures
        v@ == count_part(label@, s, c as nat, n as nat),
{
    let mut v = to_chars(label);
    text::push_str(&mut v, status_char(&s));
    text::push_str(&mut v, " (");
    let cd = text::decimal_chars(c);
    text::push_all(&mut v, &cd);
    text::push_str(&mut v, "/");
    let nd = text::decimal_chars(n);
    text::push_all(&mut v, &nd);
    text::push_str(&mut v, ")");
    v
}

/// Combines a domain's probe results into its check result: a live domain gets
/// the enabled protocol checks; an unreachable or blocked one gets none; the
/// baseline passes for a live domain whose TLS 1.3 request worked, and for an
/// unreachable one.
pub fn check_domain(config: &AutotuneConfig, domain: &str, probes: &DomainProbes) -> (r: DomainCheckResult)
    ensures
        r.domain@ == domain@,
        r.alive == probes.alive,
        probes.alive == CheckStatus::Pass ==> {
            &&& r.http == (if config.check_http { probes.http.0 } else { CheckStatus::Skip })
            &&& r.http_count == (if config.check_http { probes.http.1 } else { 0 })
            &&& r.tls12 == (if config.check_tls12 { probes.tls } else { CheckStatus::Skip })
            &&& r.tls13 == (if config.check_tls13 { probes.tls } else { CheckStatus::Skip })
            &&& r.quic == (if config.check_quic { probes.quic.0 } else { CheckStatus::Skip })
            &&& r.quic_count == (if config.check_quic { probes.quic.1 } else { 0 })
            &&& r.baseline_pass == probes.baseline
            &&& r.detail@ == text::join(
                domain_parts(
                    config.check_http,
                    config.check_tls12,
                    config.check_tls13,
                    config.check_quic,
                    config.num_requests as nat,
                    *probes,
                ),
                " "@,
            )
        },
        probes.alive != CheckStatus::Pass ==> {
            &&& r.http == CheckStatus::Skip && r.tls12 == CheckStatus::Skip
            &&& r.tls13 == CheckStatus::Skip && r.quic == CheckStatus::Skip
            &&& r.http_count == 0 && r.quic_count == 0
            &&& r.baseline_pass == (probes.alive == CheckStatus::Skip)
            &&& r.detail@ == (if probes.alive == CheckStatus::Skip {
                "Domain unreachable (skipped)"@
            } else {
                "Domain appears blocked (alive check failed)"@
            })
        },
{
    let name = String::from_str(domain);
    if probes.alive == CheckStatus::Pass {
        let mut parts: Vec<Vec<char>> = Vec::new();
        let ghost n = config.num_requests as nat;
        let (http, hc) = if config.check_http {
            parts.push(count_part_chars("HTTP:", probes.http.0, probes.http.1, config.num_requests));
            probes.http
        } else {
            (CheckStatus::Skip, 0)
        };
        let ghost p1 = parts.deep_view();
        proof {
            if config.check_http {
                assert(parts@[0].deep_view() =~= parts@[0]@);
            }
            assert(p1 =~= (if config.check_http {
                seq![count_part("HTTP:"@, probes.http.0, probes.http.1 as nat, n)]
            } else {
                seq![]
            }));
        }
        let tls12 = if config.check_tls12 {
            let mut v = to_chars("TLS1.2:");
            text::push_str(&mut v, status_char(&probes.tls));
            proof {
                assert(v.deep_view() =~= v@);
            }
            parts.push(v);
            probes.tls
        } else {
            CheckStatus::Skip
        };
        let ghost p2 = parts.deep_view();
        let tls13 = if config.check_tls13 {
            let mut v = to_chars("TLS1.3:");
            text::push_str(&mut v, status_char(&probes.tls));
            proof {
                assert(v.deep_view() =~= v@);
            }
            parts.push(v);
            probes.tls
        } else {
            CheckStatus::Skip
        };
        let ghost p3 = parts.deep_view();
        let (quic, qc) = if config.check_quic {
            let v = count_part_chars("QUIC:", probes.quic.0, probes.quic.1, config.num_requests);
            proof {
                assert(v.deep_view() =~= v@);
            }
            parts.push(v);
            probes.quic
        } else {
            (CheckStatus::Skip, 0)
        };
        proof {
            assert(parts.deep_view() =~= domain_parts(
                config.check_http,
                config.check_tls12,
                config.check_tls13,
                config.check_quic,
                n,
                *probes,
            ));
        }
        let sp = to_chars(" ");
        let detail = text::join_chars(&parts, &sp);
        DomainCheckResult {
            domain: name,
            alive: probes.alive,
            http,
            tls12,
            tls13,
            quic,
            baseline_pass: probes.baseline,
            detail: from_chars(&detail),
            http_count: hc,
            quic_count: qc,
        }
    } else {
        let detail = if probes.alive == CheckStatus::Skip {
            String::from_str("Domain unreachable (skipped)")
        } else {
            String::from_str("Domain appears blocked (alive check failed)")
        };
        DomainCheckResult {
            domain: name,
            alive: probes.alive,
            http: CheckStatus::Skip,
            tls12: CheckStatus::Skip,
            tls13: CheckStatus::Skip,
            quic: CheckStatus::Skip,
            baseline_pass: probes.alive == CheckStatus::Skip,
            detail,
            http_count: 0,
            quic_count: 0,
        }
    }
}

/// The result recorded for a domain whose check could not finish.
pub fn domain_check_error() -> (r: DomainCheckResult)
    ensures
        r.domain@.len() == 0,
        r.alive == CheckStatus::Error && r.http == CheckStatus::Error,
        r.tls12 == CheckStatus::Error && r.tls13 == CheckStatus::Error,
        r.quic == CheckStatus::Error,
        !r.baseline_pass,
        r.detail@ == "check thread panicked"@,
        r.http_count == 0 && r.quic_count == 0,
{
    DomainCheckResult {
        domain: String::new(),
        alive: CheckStatus::Error,
        http: CheckStatus::Error,
        tls12: CheckStatus::Error,
        tls13: CheckStatus::Error,
        quic: CheckStatus::Error,
        baseline_pass: false,
        detail: String::from_str("check thread panicked"),
        http_count: 0,
        quic_count: 0,
    }
}

/// The domains whose baseline check failed: those a strategy has to unblock.
pub open spec fn blocked_of(checks: Seq<DomainCheckResult>) -> Seq<Seq<char>>
    decreases checks.len(),
{
    if checks.len() == 0 {
        seq![]
    } else {
        let rest = blocked_of(checks.drop_last());
        if checks.last().baseline_pass {
            rest
        } else {
            rest.push(checks.last().domain@)
        }
    }
}

/// The domains whose baseline check failed, in order.
pub fn blocked_domains(checks: &Vec<DomainCheckResult>) -> (v: Vec<String>)
    ensures
        order::strings(v@) == blocked_of(checks@),
{
    let mut v: Vec<String> = Vec::new();
    let mut i: usize = 0;
    while i < checks.len()
        invariant
            i <= checks@.len(),
            order::strings(v@) == blocked_of(checks@.take(i as int)),
        decreases checks.len() - i,
    {
        proof {
            assert(checks@.take(i + 1).drop_last() =~= checks@.take(i as int));
            assert(checks@.take(i + 1).last() == checks@[i as int]);
        }
        if !checks[i].baseline_pass {
            let ghost before = v@;
            v.push(checks[i].domain.clone());
            proof {
                assert(order::strings(v@) =~= order::strings(before).push(checks@[i as int].domain@));
            }
        }
        i += 1;
    }
    assert(checks@.take(checks@.len() as int) =~= checks@);
    v
}

/// Which protocols worked for one blocked domain with a strategy active.
pub struct ProtocolProbe {
    pub http: bool,
    pub tls12: bool,
    pub tls13: bool,
    pub quic: bool,
}

/// The domains unblocked by the strategy (over HTTPS: TLS 1.2 or TLS 1.3), in order.
pub open spec fn passing_domains(domains: Seq<Seq<char>>, probes: Seq<ProtocolProbe>) -> Seq<Seq<char>>
    decreases domains.len(),
{
    if domains.len() == 0 {
        seq![]
    } else {
        let rest = passing_domains(domains.drop_last(), probes);
        let i = domains.len() - 1;
        if probes[i].tls12 || probes[i].tls13 {
            rest.push(domains.last())
        } else {
            rest
        }
    }
}

/// The domains the strategy left blocked, in order.
pub open spec fn failing_domains(domains: Seq<Seq<char>>, probes: Seq<ProtocolProbe>) -> Seq<Seq<char>>
    decreases domains.len(),
{
    if domains.len() == 0 {
        seq![]
    } else {
        let rest = failing_domains(domains.drop_last(), probes);
        let i = domains.len() - 1;
        if probes[i].tls12 || probes[i].tls13 {
            rest
        } else {
            rest.push(domains.last())
        }
    }
}

/// A domain gets through over HTTPS: over TLS 1.2 or TLS 1.3.
pub open spec fn https_ok(p: ProtocolProbe) -> bool {
    p.tls12 || p.tls13
}

/// Over HTTPS and nothing else the probes sort the blocked domains: each
/// domain that got through over TLS 1.2 or over TLS 1.3 is among those
/// passing, each that got through over neither among those failing; every
/// domain listed as passing (failing) is a blocked domain whose probe did
/// (did not) get through; together they are as many as the blocked domains,
/// and with no domain blocked twice none is both passing and failing.
pub proof fn lemma_https_decides(blocked: Seq<Seq<char>>, probes: Seq<ProtocolProbe>)
    requires
        probes.len() == blocked.len(),
    ensures
        forall|i: int|
            0 <= i < blocked.len() && (probes[i].tls12 || probes[i].tls13) ==> #[trigger] passing_domains(
                blocked,
                probes,
            ).contains(blocked[i]),
        forall|i: int|
            0 <= i < blocked.len() && !probes[i].tls12 && !probes[i].tls13 ==> #[trigger] failing_domains(
                blocked,
                probes,
            ).contains(blocked[i]),
        forall|k: int|
            #![trigger passing_domains(blocked, probes)[k]]
            0 <= k < passing_domains(blocked, probes).len() ==> exists|j: int|
                #![trigger blocked[j]]
                0 <= j < blocked.len() && blocked[j] == passing_domains(blocked, probes)[k] && https_ok(
                    probes[j],
                ),
        forall|k: int|
            #![trigger failing_domains(blocked, probes)[k]]
            0 <= k < failing_domains(blocked, probes).len() ==> exists|j: int|
                #![trigger blocked[j]]
                0 <= j < blocked.len() && blocked[j] == failing_domains(blocked, probes)[k] && !https_ok(
                    probes[j],
                ),
        passing_domains(blocked, probes).len() + failing_domains(blocked, probes).len() == blocked.len(),
        blocked.no_duplicates() ==> forall|i: int|
            0 <= i < blocked.len() && probes[i].tls12 ==> !#[trigger] failing_domains(blocked, probes).contains(
                blocked[i],
            ),
{
    lemma_sorted_by_https(blocked, probes);
    if blocked.no_duplicates() {
        assert forall|i: int|
            0 <= i < blocked.len() && probes[i].tls12 implies !#[trigger] failing_domains(blocked, probes).contains(
            blocked[i],
        ) by {
            let f = failing_domains(blocked, probes);
            if f.contains(blocked[i]) {
                let k = choose|k: int| 0 <= k < f.len() && f[k] == blocked[i];
                let j = choose|j: int| #![trigger blocked[j]] 0 <= j < blocked.len() && blocked[j] == f[k] && !https_ok(probes[j]);
                assert(blocked[j] == blocked[i]);
            }
        }
    }
}

proof fn lemma_sorted_by_https(ds: Seq<Seq<char>>, probes: Seq<ProtocolProbe>)
    requires
        probes.len() >= ds.len(),
    ensures
        forall|i: int|
            0 <= i < ds.len() && https_ok(probes[i]) ==> #[trigger] passing_domains(ds, probes).contains(ds[i]),
        forall|i: int|
            0 <= i < ds.len() && !https_ok(probes[i]) ==> #[trigger] failing_domains(ds, probes).contains(ds[i]),
        forall|k: int|
            #![trigger passing_domains(ds, probes)[k]]
            0 <= k < passing_domains(ds, probes).len() ==> exists|j: int|
                #![trigger ds[j]]
                0 <= j < ds.len() && ds[j] == passing_domains(ds, probes)[k] && https_ok(probes[j]),
        forall|k: int|
            #![trigger failing_domains(ds, probes)[k]]
            0 <= k < failing_domains(ds, probes).len() ==> exists|j: int|
                #![trigger ds[j]]
                0 <= j < ds.len() && ds[j] == failing_domains(ds, probes)[k] && !https_ok(probes[j]),
        passing_domains(ds, probes).len() + failing_domains(ds, probes).len() == ds.len(),
    decreases ds.len(),
{
    if ds.len() > 0 {
        let d = ds.drop_last();
        lemma_sorted_by_https(d, probes);
        let n = ds.len() - 1;
        let pd = passing_domains(d, probes);
        let fd = failing_domains(d, probes);
        let p = passing_domains(ds, probes);
        let f = failing_domains(ds, probes);
        assert forall|i: int| 0 <= i < ds.len() && https_ok(probes[i]) implies #[trigger] p.contains(ds[i]) by {
            if i < n {
                assert(d[i] == ds[i]);
                assert(pd.contains(d[i]));
                let k = choose|k: int| 0 <= k < pd.len() && pd[k] == d[i];
                assert(p[k] == pd[k]);
            } else {
                assert(p[p.len() - 1] == ds[i]);
            }
        }
        assert forall|i: int| 0 <= i < ds.len() && !https_ok(probes[i]) implies #[trigger] f.contains(ds[i]) by {
            if i < n {
                assert(d[i] == ds[i]);
                assert(fd.contains(d[i]));
                let k = choose|k: int| 0 <= k < fd.len() && fd[k] == d[i];
                assert(f[k] == fd[k]);
            } else {
                assert(f[f.len() - 1] == ds[i]);
            }
        }
        assert forall|k: int| #![trigger p[k]] 0 <= k < p.len() implies exists|j: int|
            #![trigger ds[j]]
            0 <= j < ds.len() && ds[j] == p[k] && https_ok(probes[j]) by {
            if k < pd.len() {
                let j = choose|j: int| #![trigger d[j]] 0 <= j < d.len() && d[j] == pd[k] && https_ok(probes[j]);
                assert(ds[j] == d[j]);
                assert(p[k] == pd[k]);
            } else {
                assert(ds[n] == p[k]);
            }
        }
        assert forall|k: int| #![trigger f[k]] 0 <= k < f.len() implies exists|j: int|
            #![trigger ds[j]]
            0 <= j < ds.len() && ds[j] == f[k] && !https_ok(probes[j]) by {
            if k < fd.len() {
                let j = choose|j: int| #![trigger d[j]] 0 <= j < d.len() && d[j] == fd[k] && !https_ok(probes[j]);
                assert(ds[j] == d[j]);
                assert(f[k] == fd[k]);
            } else {
                assert(ds[n] == f[k]);
            }
        }
    }
}

/// The protocols that worked for at least one domain, named in the order
/// HTTP, TLS12, TLS13, QUIC.
pub open spec fn working_protocols(probes: Seq<ProtocolProbe>) -> Seq<Seq<char>> {
    (if exists|i: int| 0 <= i < probes.len() && probes[i].http {
        seq!["HTTP"@]
    } else {
        seq![]
    }) + (if exists|i: int| 0 <= i < probes.len() && probes[i].tls12 {
        seq!["TLS12"@]
    } else {
        seq![]
    }) + (if exists|i: int| 0 <= i < probes.len() && probes[i].tls13 {
        seq!["TLS13"@]
    } else {
        seq![]
    }) + (if exists|i: int| 0 <= i < probes.len() && probes[i].quic {
        seq!["QUIC"@]
    } else {
        seq![]
    })
}

/// The result of a strategy from what each blocked domain showed with it
/// running: a domain passes over HTTPS (TLS 1.2 or 1.3); the strategy works when
/// at least half of the blocked domains (rounded down) pass.
pub fn evaluate_strategy(name: &str, blocked: &Vec<String>, probes: &Vec<ProtocolProbe>) -> (r: StrategyCheckResult)
    requires
        probes@.len() == blocked@.len(),
    ensures
        r.strategy_name@ == name@,
        order::strings(r.domains_pass@) == passing_domains(order::strings(blocked@), probes@),
        order::strings(r.domains_fail@) == failing_domains(order::strings(blocked@), probes@),
        r.works == (passing_domains(order::strings(blocked@), probes@).len() >= blocked@.len() / 2),
        order::strings(r.protocols_working@) == working_protocols(probes@),
        r.domain_checks@.len() == blocked@.len(),
        forall|i: int|
            0 <= i < blocked@.len() ==> {
                &&& (#[trigger] r.domain_checks@[i]).domain@ == blocked@[i]@
                &&& r.domain_checks@[i].http == probes@[i].http
                &&& r.domain_checks@[i].tls12 == probes@[i].tls12
                &&& r.domain_checks@[i].tls13 == probes@[i].tls13
                &&& r.domain_checks@[i].quic == probes@[i].quic
            },
{
    let ghost bs = order::strings(blocked@);
    let mut pass: Vec<String> = Vec::new();
    let mut fail: Vec<String> = Vec::new();
    let mut checks: Vec<DomainProtocolCheck> = Vec::new();
    let mut http_works = false;
    let mut tls12_works = false;
    let mut tls13_works = false;
    let mut quic_works = false;
    let mut i: usize = 0;
    while i < blocked.len()
        invariant
            probes@.len() == blocked@.len(),
            bs == order::strings(blocked@),
            i <= blocked@.len(),
            order::strings(pass@) == passing_domains(bs.take(i as int), probes@),
            order::strings(fail@) == failing_domains(bs.take(i as int), probes@),
            pass@.len() <= i,
            http_works == (exists|j: int| 0 <= j < i && probes@[j].http),
            tls12_works == (exists|j: int| 0 <= j < i && probes@[j].tls12),
            tls13_works == (exists|j: int| 0 <= j < i && probes@[j].tls13),
            quic_works == (exists|j: int| 0 <= j < i && probes@[j].quic),
            checks@.len() == i,
            forall|j: int|
                0 <= j < i ==> {
                    &&& (#[trigger] checks@[j]).domain@ == blocked@[j]@
                    &&& checks@[j].http == probes@[j].http
                    &&& checks@[j].tls12 == probes@[j].tls12
                    &&& checks@[j].tls13 == probes@[j].tls13
                    &&& checks@[j].quic == probes@[j].quic
                },
        decreases blocked.len() - i,
    {
        let p = &probes[i];
        proof {
            assert(bs.take(i + 1).drop_last() =~= bs.take(i as int));
            assert(bs.take(i + 1).last() == blocked@[i as int]@);
            assert(bs.take(i + 1).len() - 1 == i);
        }
        if p.http {
            http_works = true;
        }
        if p.tls12 {
            tls12_works = true;
        }
        if p.tls13 {
            tls13_works = true;
        }
        if p.quic {
            quic_works = true;
        }
        if p.tls12 || p.tls13 {
            let ghost before = pass@;
            pass.push(blocked[i].clone());
            proof {
                assert(order::strings(pass@) =~= order::strings(before).push(blocked@[i as int]@));
            }
        } else {
            let ghost before = fail@;
            fail.push(blocked[i].clone());
            proof {
                assert(order::strings(fail@) =~= order::strings(before).push(blocked@[i as int]@));
            }
        }
        checks.push(
            DomainProtocolCheck {
                domain: blocked[i].clone(),
                http: p.http,
                tls12: p.tls12,
                tls13: p.tls13,
                quic: p.quic,
            },
        );
        i += 1;
    }
    proof {
        assert(bs.take(blocked@.len() as int) =~= bs);
    }
    let mut protocols: Vec<String> = Vec::new();
    if http_works {
        protocols.push(String::from_str("HTTP"));
    }
    let ghost q1 = order::strings(protocols@);
    if tls12_works {
        protocols.push(String::from_str("TLS12"));
    }
    let ghost q2 = order::strings(protocols@);
    if tls13_works {
        protocols.push(String::from_str("TLS13"));
    }
    let ghost q3 = order::strings(protocols@);
    if quic_works {
        protocols.push(String::from_str("QUIC"));
    }
    proof {
        assert(order::strings(protocols@) =~= working_protocols(probes@));
    }
    let works = pass.len() >= blocked.len() / 2;
    StrategyCheckResult {
        strategy_name: String::from_str(name),
        domains_pass: pass,
        domains_fail: fail,
        works,
        protocols_working: protocols,
        domain_checks: checks,
    }
}

/// The result of a strategy when no domain was blocked: it works trivially,
/// every domain passes with every protocol.
pub fn all_domains_pass(name: &str, domains: &Vec<String>) -> (r: StrategyCheckResult)
    ensures
        r.strategy_name@ == name@,
        order::strings(r.domains_pass@) == order::strings(domains@),
        r.domains_fail@.len() == 0,
        r.works,
        order::strings(r.protocols_working@) == seq!["HTTP"@, "TLS12"@, "TLS13"@, "QUIC"@],
        r.domain_checks@.len() == domains@.len(),
        forall|i: int|
            0 <= i < domains@.len() ==> {
                &&& (#[trigger] r.domain_checks@[i]).domain@ == domains@[i]@
                &&& r.domain_checks@[i].http && r.domain_checks@[i].tls12
                &&& r.domain_checks@[i].tls13 && r.domain_checks@[i].quic
            },
{
    let mut checks: Vec<DomainProtocolCheck> = Vec::new();
    let mut i: usize = 0;
    while i < domains.len()
        invariant
            i <= domains@.len(),
            checks@.len() == i,
            forall|j: int|
                0 <= j < i ==> {
                    &&& (#[trigger] checks@[j]).domain@ == domains@[j]@
                    &&& checks@[j].http && checks@[j].tls12
                    &&& checks@[j].tls13 && checks@[j].quic
                },
        decreases domains.len() - i,
    {
        checks.push(
            DomainProtocolCheck {
                domain: domains[i].clone(),
                http: true,
                tls12: true,
                tls13: true,
                quic: true,
            },
        );
        i += 1;
    }
    let mut protocols: Vec<String> = Vec::new();
    protocols.push(String::from_str("HTTP"));
    protocols.push(String::from_str("TLS12"));
    protocols.push(String::from_str("TLS13"));
    protocols.push(String::from_str("QUIC"));
    proof {
        assert(order::strings(protocols@) =~= seq!["HTTP"@, "TLS12"@, "TLS13"@, "QUIC"@]);
    }
    StrategyCheckResult {
        strategy_name: String::from_str(name),
        domains_pass: clone_strings(domains),
        domains_fail: Vec::new(),
        works: true,
        protocols_working: protocols,
        domain_checks: checks,
    }
}


/// Whether `r` records a strategy `name` under which every one of `domains`
/// got through (nothing was blocked to begin with).
pub open spec fn passes_all(r: StrategyCheckResult, name: Seq<char>, domains: Seq<String>) -> bool {
    &&& r.strategy_name@ == name
    &&& order::strings(r.domains_pass@) == order::strings(domains)
    &&& r.domains_fail@.len() == 0
    &&& r.works
    &&& order::strings(r.protocols_working@) == seq!["HTTP"@, "TLS12"@, "TLS13"@, "QUIC"@]
    &&& r.domain_checks@.len() == domains.len()
    &&& forall|i: int|
        0 <= i < domains.len() ==> {
            &&& (#[trigger] r.domain_checks@[i]).domain@ == domains[i]@
            &&& r.domain_checks@[i].http && r.domain_checks@[i].tls12
            &&& r.domain_checks@[i].tls13 && r.domain_checks@[i].quic
        }
}

/// Whether `r` records a strategy `name` that could not be tested: every
/// blocked domain fails.
pub open spec fn failed_on(r: StrategyCheckResult, name: Seq<char>, blocked: Seq<String>) -> bool {
    &&& r.strategy_name@ == name
    &&& r.domains_pass@.len() == 0
    &&& order::strings(r.domains_fail@) == order::strings(blocked)
    &&& !r.works
    &&& r.protocols_working@.len() == 0
    &&& r.domain_checks@.len() == 0
}

/// Whether `r` records the probes of the blocked domains under strategy
/// `name`.
pub open spec fn evaluated(r: StrategyCheckResult, name: Seq<char>, blocked: Seq<String>, probes: Seq<ProtocolProbe>) -> bool {
    &&& r.strategy_name@ == name
    &&& order::strings(r.domains_pass@) == passing_domains(order::strings(blocked), probes)
    &&& order::strings(r.domains_fail@) == failing_domains(order::strings(blocked), probes)
    &&& r.works == (passing_domains(order::strings(blocked), probes).len() >= blocked.len() / 2)
    &&& order::strings(r.protocols_working@) == working_protocols(probes)
    &&& r.domain_checks@.len() == blocked.len()
    &&& forall|i: int|
        0 <= i < blocked.len() ==> {
            &&& (#[trigger] r.domain_checks@[i]).domain@ == blocked[i]@
            &&& r.domain_checks@[i].http == probes[i].http
            &&& r.domain_checks@[i].tls12 == probes[i].tls12
            &&& r.domain_checks@[i].tls13 == probes[i].tls13
            &&& r.domain_checks@[i].quic == probes[i].quic
        }
}

/// The result of one strategy on a preset: with nothing blocked it passes
/// every domain untested; where nfqws did not start, or exited before the
/// probes, every blocked domain fails; otherwise the probes of the blocked
/// domains decide.
pub fn strategy_outcome(
    name: &str,
    domains: &Vec<String>,
    blocked: &Vec<String>,
    started: bool,
    stayed_up: bool,
    probes: &Vec<ProtocolProbe>,
) -> (r: StrategyCheckResult)
    requires
        blocked@.len() > 0 && started && stayed_up ==> probes@.len() == blocked@.len(),
    ensures
        blocked@.len() == 0 ==> passes_all(r, name@, domains@),
        blocked@.len() > 0 && !(started && stayed_up) ==> failed_on(r, name@, blocked@),
        blocked@.len() > 0 && started && stayed_up ==> evaluated(r, name@, blocked@, probes@),
{
    if blocked.len() == 0 {
        all_domains_pass(name, domains)
    } else if !(started && stayed_up) {
        StrategyCheckResult::failed(name, blocked)
    } else {
        evaluate_strategy(name, blocked, probes)
    }
}

/// The name a preset's results are shown under: its own, or `Custom` past
/// the built-in presets.
pub open spec fn preset_display_name(i: int) -> Seq<char> {
    if 0 <= i < preset_count() {
        preset_name(i)
    } else {
        "Custom"@
    }
}

/// Executable [`preset_display_name`].
pub fn preset_display_name_of(i: usize) -> (s: String)
    ensures
        s@ == preset_display_name(i as int),
{
    if i < presets_len() {
        preset_name_of(i)
    } else {
        String::from_str("Custom")
    }
}

} // verus!
