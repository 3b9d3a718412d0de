//! Fake payload files: the `.bin` files of the repository's `bin` directory
//! that can be chosen as the active Discord or game UDP fake.
use vstd::prelude::*;
use crate::order::{lex_le, lex_lt, less_chars};
use crate::text;

verus! {

/// The file the Discord UDP strategies read their fake payload from.
pub const ACTIVE_DISCORD_NAME: &'static str = "ACTIVE_DISCORD_UDP.bin";
/// The file the game UDP strategies read their fake payload from.
pub const ACTIVE_GAME_NAME: &'static str = "ACTIVE_GAME_UDP.bin";

/// A payload file that can be made active.
#[derive(Debug, Clone)]
pub struct FakeFile {
    /// The file name without its `.bin` suffix.
    pub display_name: String,
    /// The file name.
    pub filename: String,
    /// The path of the file.
    pub path: String,
}

/// A fake file as its display name, file name and path.
pub type FakeView = (Seq<char>, Seq<char>, Seq<char>);

/// The view of a fake file.
pub open spec fn fake_view(f: FakeFile) -> FakeView {
    (f.display_name@, f.filename@, f.path@)
}

/// The views of a list of fake files.
pub open spec fn fakes_view(v: Seq<FakeFile>) -> Seq<FakeView> {
    v.map_values(|f: FakeFile| fake_view(f))
}

/// Which active fake a payload replaces.
#[derive(Debug, Clone, Copy, PartialEq, Eq, Structural)]
pub enum FakeTarget {
    DiscordUdp,
    GameUdp,
}

/// The file name of the active fake of a target.
pub open spec fn active_name(t: FakeTarget) -> Seq<char> {
    match t {
        FakeTarget::DiscordUdp => ACTIVE_DISCORD_NAME@,
        FakeTarget::GameUdp => ACTIVE_GAME_NAME@,
    }
}

impl FakeTarget {
    /// The file name of the active fake this target replaces.
    pub fn active_filename(&self) -> (s: &'static str)
        ensures
            s@ == active_name(*self),
    {
        match self {
            FakeTarget::DiscordUdp => ACTIVE_DISCORD_NAME,
            FakeTarget::GameUdp => ACTIVE_GAME_NAME,
        }
    }
}

/// The fakes that can be chosen and which of them are active.
#[derive(Debug, Clone)]
pub struct FakesState {
    /// The display name of the payload the Discord fake was copied from.
    pub discord_active: Option<String>,
    /// The display name of the payload the game fake was copied from.
    pub game_active: Option<String>,
    /// The payload files, by display name.
    pub available: Vec<FakeFile>,
    /// The directory the payloads and active fakes live in.
    pub bin_dir: String,
}

/// The directory of the payload files: `bin` under the repository.
pub fn bin_dir(repo: &str) -> (p: String)
    ensures
        p@ == text::path_join(repo@, "bin"@),
{
    text::join_path(repo, "bin")
}

/// Whether a file name is that of a payload that can be chosen: it ends in
/// `.bin` and is not one of the active fakes (`ACTIVE_` prefix).
pub open spec fn is_payload_name(name: Seq<char>) -> bool {
    text::ends_with(name, ".bin"@) && !text::starts_with(name, "ACTIVE_"@)
}

/// The fake file for a payload name in `dir`.
pub open spec fn payload(dir: Seq<char>, name: Seq<char>) -> FakeView {
    (text::trim_end_matches(name, ".bin"@), name, text::path_join(dir, name))
}

/// The payloads among directory entries (name, is a regular file), in
/// directory order.
pub open spec fn payloads(dir: Seq<char>, entries: Seq<(Seq<char>, bool)>) -> Seq<FakeView>
    decreases entries.len(),
{
    if entries.len() == 0 {
        seq![]
    } else {
        let rest = payloads(dir, entries.drop_last());
        let e = entries.last();
        if e.1 && is_payload_name(e.0) {
            rest.push(payload(dir, e.0))
        } else {
            rest
        }
    }
}

/// The views of directory entries.
pub open spec fn entry_views(v: Seq<(String, bool)>) -> Seq<(Seq<char>, bool)> {
    v.map_values(|e: (String, bool)| (e.0@, e.1))
}

/// Fake files in ascending order of display name.
pub open spec fn by_display(s: Seq<FakeView>) -> bool {
    forall|a: int, b: int| 0 <= a < b < s.len() ==> lex_le(#[trigger] s[a].0, #[trigger] s[b].0)
}

fn strip_bin(name: &str) -> (r: String)
    ensures
        r@ == text::trim_end_matches(name@, ".bin"@),
{
    let mut v = text::to_chars(name);
    let suffix = text::to_chars(".bin");
    proof {
        reveal_strlit(".bin");
    }
    while text::has_suffix(&v, &suffix)
        invariant
            suffix@ == ".bin"@,
            suffix@.len() == 4,
            text::trim_end_matches(name@, ".bin"@) == text::trim_end_matches(v@, ".bin"@),
        decreases v@.len(),
    {
        let n = v.len() - 4;
        v = text::slice_chars(&v, 0, n);
    }
    text::from_chars(&v)
}

fn is_payload(name: &str) -> (b: bool)
    ensures
        b == is_payload_name(name@),
{
    let c = text::to_chars(name);
    let suffix = text::to_chars(".bin");
    let prefix = text::to_chars("ACTIVE_");
    text::has_suffix(c.as_slice(), suffix.as_slice()) && !text::has_prefix(c.as_slice(), prefix.as_slice())
}

fn collect_payloads(dir: &str, entries: &Vec<(String, bool)>) -> (r: Vec<FakeFile>)
    ensures
        fakes_view(r@) == payloads(dir@, entry_views(entries@)),
{
    let mut r: Vec<FakeFile> = Vec::new();
    let mut i: usize = 0;
    while i < entries.len()
        invariant
            i <= entries@.len(),
            fakes_view(r@) == payloads(dir@, entry_views(entries@.take(i as int))),
        decreases entries.len() - i,
    {
        let ghost before = fakes_view(r@);
        let name = &entries[i].0;
        proof {
            assert(entries@.take(i + 1) =~= entries@.take(i as int).push(entries@[i as int]));
            assert(entry_views(entries@.take(i + 1)).drop_last() =~= entry_views(entries@.take(i as int)));
        }
        if entries[i].1 && is_payload(name.as_str()) {
            let f = FakeFile {
                display_name: strip_bin(name.as_str()),
                filename: name.clone(),
                path: text::join_path(dir, name.as_str()),
            };
            r.push(f);
            proof {
                assert(fakes_view(r@) =~= before.push(fake_view(f)));
            }
        }
        i += 1;
    }
    proof {
        assert(entries@.take(entries@.len() as int) =~= entries@);
    }
    r
}

/// The payload files among the entries of the `bin` directory `dir` (each a
/// name and whether it is a regular file), in ascending order of display
/// name: every regular file whose name ends in `.bin` and does not start
/// with `ACTIVE_`, each once.
pub fn scan_bin_dir(dir: &str, entries: &Vec<(String, bool)>) -> (r: Vec<FakeFile>)
    ensures
        by_display(fakes_view(r@)),
        fakes_view(r@).to_multiset() == payloads(dir@, entry_views(entries@)).to_multiset(),
{
    let v = collect_payloads(dir, entries);
    sort_by_display(v)
}

fn copy_fake(f: &FakeFile) -> (g: FakeFile)
    ensures
        fake_view(g) == fake_view(*f),
{
    FakeFile { display_name: f.display_name.clone(), filename: f.filename.clone(), path: f.path.clone() }
}

fn sort_by_display(v: Vec<FakeFile>) -> (r: Vec<FakeFile>)
    ensures
        by_display(fakes_view(r@)),
        fakes_view(r@).to_multiset() == fakes_view(v@).to_multiset(),
{
    broadcast use vstd::seq_lib::group_to_multiset_ensures;

    let mut r: Vec<FakeFile> = Vec::new();
    let mut keys: Vec<Vec<char>> = Vec::new();
    let mut i: usize = 0;
    while i < v.len()
        invariant
            i <= v@.len(),
            keys@.len() == r@.len(),
            forall|k: int| 0 <= k < r@.len() ==> #[trigger] keys@[k]@ == r@[k].display_name@,
            by_display(fakes_view(r@)),
            fakes_view(r@).to_multiset() == fakes_view(v@.take(i as int)).to_multiset(),
        decreases v.len() - i,
    {
        let x = copy_fake(&v[i]);
        let kx = text::to_chars(x.display_name.as_str());
        let mut p: usize = 0;
        while p < r.len() && !less_chars(kx.as_slice(), keys[p].as_slice())
            invariant
                p <= r@.len(),
                keys@.len() == r@.len(),
                forall|k: int| 0 <= k < r@.len() ==> #[trigger] keys@[k]@ == r@[k].display_name@,
                forall|k: int| 0 <= k < p ==> !lex_lt(kx@, #[trigger] fakes_view(r@)[k].0),
            decreases r.len() - p,
        {
            p += 1;
        }
        let ghost s = fakes_view(r@);
        proof {
            assert forall|k: int| 0 <= k < p implies lex_le(#[trigger] s[k].0, kx@) by {
                crate::order::lemma_lex_total(s[k].0, kx@);
            }
            if p < r@.len() {
                assert(lex_lt(kx@, s[p as int].0));
            }
        }
        r.insert(p, x);
        keys.insert(p, kx);
        proof {
            let t = fakes_view(r@);
            assert(t =~= s.insert(p as int, fake_view(v@[i as int])));
            assert forall|a: int, b: int| 0 <= a < b < t.len() implies lex_le(#[trigger] t[a].0, #[trigger] t[b].0) by {
                if b < p {
                    assert(t[a] == s[a] && t[b] == s[b]);
                } else if b == p {
                    assert(t[a] == s[a]);
                } else if a < p {
                    assert(t[a] == s[a] && t[b] == s[b - 1]);
                    if b - 1 > p {
                        assert(lex_le(s[p as int].0, s[b - 1].0));
                    }
                    crate::order::lemma_lex_lt_le(kx@, s[p as int].0, s[b - 1].0);
                    crate::order::lemma_lex_le_lt(s[a].0, kx@, s[b - 1].0);
                } else if a == p {
                    assert(t[b] == s[b - 1]);
                    if b - 1 > p {
                        assert(lex_le(s[p as int].0, s[b - 1].0));
                    }
                    crate::order::lemma_lex_lt_le(kx@, s[p as int].0, s[b - 1].0);
                } else {
                    assert(t[a] == s[a - 1] && t[b] == s[b - 1]);
                }
            }
            assert(v@.take(i + 1) =~= v@.take(i as int).push(v@[i as int]));
            assert(fakes_view(v@.take(i + 1)) =~= fakes_view(v@.take(i as int)).push(fake_view(v@[i as int])));
            vstd::seq_lib::to_multiset_insert(s, p as int, fake_view(v@[i as int]));
            vstd::seq_lib::to_multiset_build(fakes_view(v@.take(i as int)), fake_view(v@[i as int]));
        }
        i += 1;
    }
    assert(v@.take(v@.len() as int) =~= v@);
    r
}

/// The display name of the first payload whose file name is `source`;
/// none where `source` is empty or no payload has that name.
pub open spec fn active_display(avail: Seq<FakeView>, source: Seq<char>) -> Option<Seq<char>>
    decreases avail.len(),
{
    if source.len() == 0 || avail.len() == 0 {
        None
    } else if avail[0].1 == source {
        Some(avail[0].0)
    } else {
        active_display(avail.drop_first(), source)
    }
}

fn find_active(avail: &Vec<FakeFile>, source: &str) -> (r: Option<String>)
    ensures
        crate::ipset::owned_view(r) == active_display(fakes_view(avail@), source@),
{
    if source.is_empty() {
        return None;
    }
    let mut i: usize = 0;
    assert(fakes_view(avail@).skip(0) =~= fakes_view(avail@));
    while i < avail.len()
        invariant
            i <= avail@.len(),
            source@.len() > 0,
            active_display(fakes_view(avail@), source@) == active_display(fakes_view(avail@).skip(i as int), source@),
        decreases avail.len() - i,
    {
        let ghost rest = fakes_view(avail@).skip(i as int);
        assert(rest[0] == fake_view(avail@[i as int]));
        if text::eq_str(avail[i].filename.as_str(), source) {
            return Some(avail[i].display_name.clone());
        }
        assert(rest.drop_first() =~= fakes_view(avail@).skip(i + 1));
        i += 1;
    }
    None
}

/// The fakes state of a `bin` directory: its payloads, and which of them the
/// active fakes were copied from (by the file names the config recorded).
pub fn load_fakes_state(
    bin_dir: String,
    available: Vec<FakeFile>,
    discord_source: &str,
    game_source: &str,
) -> (r: FakesState)
    ensures
        r.bin_dir@ == bin_dir@,
        fakes_view(r.available@) == fakes_view(available@),
        crate::ipset::owned_view(r.discord_active) == active_display(fakes_view(available@), discord_source@),
        crate::ipset::owned_view(r.game_active) == active_display(fakes_view(available@), game_source@),
{
    let discord_active = find_active(&available, discord_source);
    let game_active = find_active(&available, game_source);
    FakesState { discord_active, game_active, available, bin_dir }
}

/// What making a payload active takes: copy `from` over `to`, then record the
/// source file names of both active fakes in the config.
#[derive(Debug, Clone, PartialEq, Eq)]
pub struct FakeReplacement {
    /// The payload to copy.
    pub from: String,
    /// The active fake it replaces.
    pub to: String,
    /// The source file name to record for the Discord fake.
    pub discord: String,
    /// The source file name to record for the game fake.
    pub game: String,
}

/// Plans making `source` the active fake of `target`: the copy from the
/// payload's path to the target's active file in the `bin` directory, and
/// the recorded sources, where the target's changes to the payload's file
/// name and the other stays as recorded (`recorded` is Discord, then game).
pub fn replace_active_fake(
    state: &FakesState,
    target: FakeTarget,
    source: &FakeFile,
    recorded: (&str, &str),
) -> (r: FakeReplacement)
    ensures
        r.from@ == source.path@,
        r.to@ == text::path_join(state.bin_dir@, active_name(target)),
        r.discord@ == (if target == FakeTarget::DiscordUdp { source.filename@ } else { recorded.0@ }),
        r.game@ == (if target == FakeTarget::GameUdp { source.filename@ } else { recorded.1@ }),
{
    let to = text::join_path(state.bin_dir.as_str(), target.active_filename());
    let (discord, game) = match target {
        FakeTarget::DiscordUdp => (source.filename.clone(), recorded.1.to_string()),
        FakeTarget::GameUdp => (recorded.0.to_string(), source.filename.clone()),
    };
    FakeReplacement { from: source.path.clone(), to, discord, game }
}

/// An active fake read back is a payload with the recorded file name.
pub proof fn lemma_active_is_available(avail: Seq<FakeView>, source: Seq<char>)
    ensures
        active_display(avail, source) matches Some(d) ==> exists|k: int|
            0 <= k < avail.len() && #[trigger] avail[k] == (d, source, avail[k].2),
    decreases avail.len(),
{
    if source.len() > 0 && avail.len() > 0 {
        if avail[0].1 == source {
            assert(avail[0] == (avail[0].0, source, avail[0].2));
        } else {
            lemma_active_is_available(avail.drop_first(), source);
            if let Some(d) = active_display(avail, source) {
                let k = choose|k: int|
                    0 <= k < avail.drop_first().len() && #[trigger] avail.drop_first()[k] == (
                        d,
                        source,
                        avail.drop_first()[k].2,
                    );
                assert(avail[k + 1] == (d, source, avail[k + 1].2));
            }
        }
    }
}

/// Recording a payload's file name as a fake's source makes that payload
/// read back as the active one, as long as no earlier payload has the same
/// file name (file names in one directory differ).
pub proof fn lemma_recorded_payload_reads_back(avail: Seq<FakeView>, k: int)
    requires
        0 <= k < avail.len(),
        avail[k].1.len() > 0,
        forall|j: int| 0 <= j < k ==> #[trigger] avail[j].1 != avail[k].1,
    ensures
        active_display(avail, avail[k].1) == Some(avail[k].0),
    decreases k,
{
    if k > 0 {
        let rest = avail.drop_first();
        assert forall|j: int| 0 <= j < k - 1 implies #[trigger] rest[j].1 != rest[k - 1].1 by {
            assert(rest[j] == avail[j + 1]);
        }
        lemma_recorded_payload_reads_back(rest, k - 1);
        assert(avail[0].1 != avail[k].1);
    }
}

} // verus!
