//! The ipset list mode: which of the files next to the strategies decides
//! the address list nfqws filters on, how the current mode is recognised,
//! and how switching modes rewrites the files.
use vstd::prelude::*;
use crate::text;
use crate::text::{eq_str, join_path, trim_str};

verus! {

/// How the `ipset-all.txt` list is filled.
#[derive(Debug, Clone, Copy, PartialEq, Eq, Structural)]
pub enum IpsetMode {
    /// A single reserved address: nothing matches.
    Nothing,
    /// An empty list: everything matches.
    Any,
    /// The list shipped with the strategies (a copy of the backup file).
    Loaded,
    /// A list of the user's own.
    Custom,
}

/// The label shown for a mode.
pub open spec fn mode_label(m: IpsetMode) -> Seq<char> {
    match m {
        IpsetMode::Nothing => seq!['n', 'o', 'n', 'e'],
        IpsetMode::Any => seq!['a', 'n', 'y'],
        IpsetMode::Loaded => seq!['l', 'o', 'a', 'd', 'e', 'd'],
        IpsetMode::Custom => seq!['c', 'u', 's', 't', 'o', 'm'],
    }
}

impl IpsetMode {
    /// The label shown for the mode.
    pub fn to_string(&self) -> (s: String)
        ensures
            s@ == mode_label(*self),
    {
        let lit = match self {
            IpsetMode::Nothing => "none",
            IpsetMode::Any => "any",
            IpsetMode::Loaded => "loaded",
            IpsetMode::Custom => "custom",
        };
        proof {
            reveal_strlit("none");
            reveal_strlit("any");
            reveal_strlit("loaded");
            reveal_strlit("custom");
        }
        lit.to_string()
    }
}

/// The address that stands for "no address": the whole content of the list in
/// mode `None`.
pub open spec fn none_address() -> Seq<char> {
    seq!['2', '0', '3', '.', '0', '.', '1', '1', '3', '.', '1', '1', '3', '/', '3', '2']
}

/// The name of the directory of the strategies repository.
pub open spec fn repo_dir_name() -> Seq<char> {
    seq![
        'z', 'a', 'p', 'r', 'e', 't', '-', 'd', 'i', 's', 'c', 'o', 'r', 'd', '-', 'y', 'o', 'u',
        't', 'u', 'b', 'e', '-', 'l', 'i', 'n', 'u', 'x',
    ]
}

/// The directory that holds the ipset files: `lists/` of the repository next
/// to the executable, else that repository, else the same two relative to the
/// working directory (the first that is a directory, the last as fallback).
pub open spec fn ipset_dir(exe_dir: Seq<char>, exe_lists_is_dir: bool, exe_base_is_dir: bool, local_lists_is_dir: bool) -> Seq<char> {
    let base = text::path_join(exe_dir, repo_dir_name());
    if exe_lists_is_dir {
        text::path_join(base, seq!['l', 'i', 's', 't', 's'])
    } else if exe_base_is_dir {
        base
    } else if local_lists_is_dir {
        text::path_join(repo_dir_name(), seq!['l', 'i', 's', 't', 's'])
    } else {
        repo_dir_name()
    }
}

/// The ipset directory, given the executable's directory and which of the
/// candidate directories exist.
pub fn get_ipset_dir(exe_dir: &str, exe_lists_is_dir: bool, exe_base_is_dir: bool, local_lists_is_dir: bool) -> (d: String)
    ensures
        d@ == ipset_dir(exe_dir@, exe_lists_is_dir, exe_base_is_dir, local_lists_is_dir),
{
    let name = "zapret-discord-youtube-linux";
    let lists = "lists";
    proof {
        reveal_strlit("zapret-discord-youtube-linux");
        reveal_strlit("lists");
    }
    let base = join_path(exe_dir, name);
    if exe_lists_is_dir {
        join_path(base.as_str(), lists)
    } else if exe_base_is_dir {
        base
    } else if local_lists_is_dir {
        join_path(name, lists)
    } else {
        name.to_string()
    }
}

/// `ipset-all.txt`: the list nfqws reads.
pub open spec fn all_file_name() -> Seq<char> {
    seq!['i', 'p', 's', 'e', 't', '-', 'a', 'l', 'l', '.', 't', 'x', 't']
}

/// The path of the list nfqws reads.
pub fn get_ipset_all_path(dir: &str) -> (p: String)
    ensures
        p@ == text::path_join(dir@, all_file_name()),
{
    proof {
        reveal_strlit("ipset-all.txt");
    }
    join_path(dir, "ipset-all.txt")
}

/// The path of the shipped list (`ipset-all.txt.backup`).
pub fn get_ipset_backup_path(dir: &str) -> (p: String)
    ensures
        p@ == text::path_join(dir@, all_file_name() + seq!['.', 'b', 'a', 'c', 'k', 'u', 'p']),
{
    proof {
        reveal_strlit("ipset-all.txt.backup");
        assert("ipset-all.txt.backup"@ =~= all_file_name() + seq!['.', 'b', 'a', 'c', 'k', 'u', 'p']);
    }
    join_path(dir, "ipset-all.txt.backup")
}

/// The path where the user's own list is kept (`ipset-all.txt.custom`).
pub fn get_ipset_custom_path(dir: &str) -> (p: String)
    ensures
        p@ == text::path_join(dir@, all_file_name() + seq!['.', 'c', 'u', 's', 't', 'o', 'm']),
{
    proof {
        reveal_strlit("ipset-all.txt.custom");
        assert("ipset-all.txt.custom"@ =~= all_file_name() + seq!['.', 'c', 'u', 's', 't', 'o', 'm']);
    }
    join_path(dir, "ipset-all.txt.custom")
}

/// The mode the files are in: a missing or blank list is `Any`, the reserved
/// address alone is `None`, a list equal to the backup (both trimmed) is
/// `Loaded`, anything else is `Custom`.
pub open spec fn current_mode(all: Option<Seq<char>>, backup: Option<Seq<char>>) -> IpsetMode {
    match all {
        Option::None => IpsetMode::Any,
        Option::Some(c) => {
            let t = text::trim(c);
            if t == none_address() {
                IpsetMode::Nothing
            } else if t.len() == 0 {
                IpsetMode::Any
            } else if backup is Some && text::trim(backup->0) == t {
                IpsetMode::Loaded
            } else {
                IpsetMode::Custom
            }
        },
    }
}

/// The view of an optional string.
pub open spec fn opt_view(o: Option<&str>) -> Option<Seq<char>> {
    match o {
        Option::Some(s) => Option::Some(s@),
        Option::None => Option::None,
    }
}

/// The mode of the list, given the content of `ipset-all.txt` and of its
/// backup (`None` where the file does not exist; an unreadable file reads as
/// empty).
pub fn determine_current_mode(all: Option<&str>, backup: Option<&str>) -> (m: IpsetMode)
    ensures
        m == current_mode(opt_view(all), opt_view(backup)),
{
    match all {
        Option::None => IpsetMode::Any,
        Option::Some(c) => {
            let t = trim_str(c);
            let sentinel = "203.0.113.113/32";
            proof {
                reveal_strlit("203.0.113.113/32");
                assert(sentinel@ =~= none_address());
            }
            if eq_str(t.as_str(), sentinel) {
                IpsetMode::Nothing
            } else if t.as_str().is_empty() {
                IpsetMode::Any
            } else {
                match backup {
                    Option::Some(b) => {
                        let bt = trim_str(b);
                        if eq_str(t.as_str(), bt.as_str()) {
                            IpsetMode::Loaded
                        } else {
                            IpsetMode::Custom
                        }
                    },
                    Option::None => IpsetMode::Custom,
                }
            }
        },
    }
}

/// The modes offered: `None`, `Any`, `Loaded`, and `Custom` where a saved
/// custom list exists or the list is custom now.
pub open spec fn available_modes(custom_exists: bool, current: IpsetMode) -> Seq<IpsetMode> {
    if custom_exists || current == IpsetMode::Custom {
        seq![IpsetMode::Nothing, IpsetMode::Any, IpsetMode::Loaded, IpsetMode::Custom]
    } else {
        seq![IpsetMode::Nothing, IpsetMode::Any, IpsetMode::Loaded]
    }
}

/// The modes offered, given whether the custom file exists and the current mode.
pub fn get_available_modes(custom_exists: bool, current: IpsetMode) -> (v: Vec<IpsetMode>)
    ensures
        v@ == available_modes(custom_exists, current),
{
    let mut modes = vec![IpsetMode::Nothing, IpsetMode::Any, IpsetMode::Loaded];
    if custom_exists || current == IpsetMode::Custom {
        modes.push(IpsetMode::Custom);
    }
    proof {
        assert(modes@ =~= available_modes(custom_exists, current));
    }
    modes
}

/// The three ipset files: the content of each, `None` where it does not exist.
pub struct IpsetFiles {
    pub all: Option<String>,
    pub backup: Option<String>,
    pub custom: Option<String>,
}

/// The view of an optional owned string.
pub open spec fn owned_view(o: Option<String>) -> Option<Seq<char>> {
    match o {
        Option::Some(s) => Option::Some(s@),
        Option::None => Option::None,
    }
}

/// What the files hold after switching from `old` to `new`: leaving `Custom`
/// first saves the list as the custom file; then `None` writes the reserved
/// address and a newline, `Any` an empty list, `Loaded` the backup (or an
/// empty list without one), and `Custom` the saved custom list where there is
/// one. The backup is never written.
pub open spec fn switched(
    old: IpsetMode,
    new: IpsetMode,
    all: Option<Seq<char>>,
    backup: Option<Seq<char>>,
    custom: Option<Seq<char>>,
) -> (Option<Seq<char>>, Option<Seq<char>>) {
    let custom1 = if old == IpsetMode::Custom && new != IpsetMode::Custom && all is Some {
        all
    } else {
        custom
    };
    let all1 = match new {
        IpsetMode::Nothing => Option::Some(none_address().push('\n')),
        IpsetMode::Any => Option::Some(Seq::<char>::empty()),
        IpsetMode::Loaded => match backup {
            Option::Some(b) => Option::Some(b),
            Option::None => Option::Some(Seq::<char>::empty()),
        },
        IpsetMode::Custom => match custom1 {
            Option::Some(c) => Option::Some(c),
            Option::None => all,
        },
    };
    (all1, custom1)
}

fn clone_opt(o: &Option<String>) -> (r: Option<String>)
    ensures
        owned_view(r) == owned_view(*o),
{
    match o {
        Option::Some(s) => Option::Some(s.clone()),
        Option::None => Option::None,
    }
}

/// Switches the files from mode `old_mode` to `new_mode`, in memory: the
/// caller reads the files into `files` first and writes back what changed.
pub fn apply_ipset_mode(old_mode: IpsetMode, new_mode: IpsetMode, files: &mut IpsetFiles)
    ensures
        (owned_view(final(files).all), owned_view(final(files).custom)) == switched(
            old_mode,
            new_mode,
            owned_view(old(files).all),
            owned_view(old(files).backup),
            owned_view(old(files).custom),
        ),
        owned_view(final(files).backup) == owned_view(old(files).backup),
{
    if old_mode == IpsetMode::Custom && new_mode != IpsetMode::Custom && files.all.is_some() {
        files.custom = clone_opt(&files.all);
    }
    match new_mode {
        IpsetMode::Nothing => {
            let lit = "203.0.113.113/32\n";
            proof {
                reveal_strlit("203.0.113.113/32\n");
                assert(lit@ =~= none_address().push('\n'));
            }
            files.all = Option::Some(lit.to_string());
        },
        IpsetMode::Any => {
            files.all = Option::Some(String::new());
        },
        IpsetMode::Loaded => {
            match &files.backup {
                Option::Some(b) => {
                    files.all = Option::Some(b.clone());
                },
                Option::None => {
                    files.all = Option::Some(String::new());
                },
            }
        },
        IpsetMode::Custom => {
            if files.custom.is_some() {
                files.all = clone_opt(&files.custom);
            }
        },
    }
}

proof fn lemma_trim_none_line()
    ensures
        text::trim(none_address().push('\n')) == none_address(),
{
    let s = none_address().push('\n');
    reveal_with_fuel(text::trim_start, 2);
    reveal_with_fuel(text::trim_end, 3);
    assert(!text::is_ws(s[0]));
    assert(text::trim_start(s) == s);
    assert(text::is_ws(s.last()));
    assert(s.drop_last() =~= none_address());
    assert(!text::is_ws(none_address().last()));
    assert(text::trim_end(s) == text::trim_end(s.drop_last()));
}

/// After a switch to `None` or `Any` the files are recognised as being in
/// that mode.
pub proof fn lemma_switch_to_none_or_any(
    old: IpsetMode,
    new: IpsetMode,
    all: Option<Seq<char>>,
    backup: Option<Seq<char>>,
    custom: Option<Seq<char>>,
)
    requires
        new == IpsetMode::Nothing || new == IpsetMode::Any,
    ensures
        current_mode(switched(old, new, all, backup, custom).0, backup) == new,
{
    if new == IpsetMode::Nothing {
        lemma_trim_none_line();
    } else {
        assert(text::trim(Seq::<char>::empty()) =~= Seq::<char>::empty());
    }
}

/// After a switch to `Loaded` the files are recognised as `Loaded`, where a
/// backup exists whose trimmed content is neither empty nor the reserved
/// address, and as `Any` where no backup exists.
pub proof fn lemma_switch_to_loaded(
    old: IpsetMode,
    all: Option<Seq<char>>,
    backup: Option<Seq<char>>,
    custom: Option<Seq<char>>,
)
    ensures
        backup is Some && text::trim(backup->0).len() > 0 && text::trim(backup->0) != none_address()
            ==> current_mode(switched(old, IpsetMode::Loaded, all, backup, custom).0, backup)
            == IpsetMode::Loaded,
        backup is None ==> current_mode(switched(old, IpsetMode::Loaded, all, backup, custom).0, backup)
            == IpsetMode::Any,
{
    if backup is None {
        assert(text::trim(Seq::<char>::empty()) =~= Seq::<char>::empty());
    }
}

/// Leaving `Custom` and coming back restores the list: after a switch from
/// `Custom` to any other mode and a switch back to `Custom`, the list holds
/// what it held before.
pub proof fn lemma_custom_round_trip(
    other: IpsetMode,
    all: Option<Seq<char>>,
    backup: Option<Seq<char>>,
    custom: Option<Seq<char>>,
)
    requires
        other != IpsetMode::Custom,
        all is Some,
    ensures
        ({
            let (all1, custom1) = switched(IpsetMode::Custom, other, all, backup, custom);
            switched(other, IpsetMode::Custom, all1, backup, custom1).0 == all
        }),
{
}

} // verus!
