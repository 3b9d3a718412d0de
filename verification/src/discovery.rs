//! Finding the strategy scripts and the domain list files among the names
//! that the repository's directories hold.
use vstd::prelude::*;
use crate::order::{dedup_sorted, sort_strings, sorted, strictly_sorted, strings};
use crate::text;

verus! {

broadcast use vstd::seq_lib::group_to_multiset_ensures;

/// Whether a file name is that of a strategy script.
pub open spec fn is_bat(name: Seq<char>) -> bool {
    text::ends_with(name, ".bat"@)
}

/// Whether a script at the root of the repository is offered: only the
/// `general*` and `discord*` ones are.
pub open spec fn is_root_strategy(name: Seq<char>) -> bool {
    is_bat(name) && (text::starts_with(name, "general"@) || text::starts_with(name, "discord"@))
}

/// Whether `x` is a strategy found in the three places: a `.bat` in either
/// custom-strategies directory, or an offered script at the repository root.
pub open spec fn strategy_found(
    cache_custom: Seq<Seq<char>>,
    repo_custom: Seq<Seq<char>>,
    repo_root: Seq<Seq<char>>,
    x: Seq<char>,
) -> bool {
    ||| ((cache_custom.contains(x) || repo_custom.contains(x)) && is_bat(x))
    ||| (repo_root.contains(x) && is_root_strategy(x))
}

/// The strategy used when none is found.
pub const FALLBACK_STRATEGY: &'static str = "discord.bat";

fn matches_kind(name: &str, root: bool) -> (b: bool)
    ensures
        b == (if root { is_root_strategy(name@) } else { is_bat(name@) }),
{
    let c = text::to_chars(name);
    let bat = text::to_chars(".bat");
    let general = text::to_chars("general");
    let discord = text::to_chars("discord");
    let is_b = text::has_suffix(c.as_slice(), bat.as_slice());
    if root {
        is_b && (text::has_prefix(c.as_slice(), general.as_slice()) || text::has_prefix(
            c.as_slice(),
            discord.as_slice(),
        ))
    } else {
        is_b
    }
}

fn collect_names(src: &Vec<String>, root: bool, out: &mut Vec<String>)
    ensures
        forall|x: Seq<char>|
            #[trigger] strings(final(out)@).contains(x) <==> (strings(old(out)@).contains(x) || (strings(src@).contains(x)
                && (if root { is_root_strategy(x) } else { is_bat(x) }))),
{
    let ghost start = strings(out@);
    let mut i: usize = 0;
    while i < src.len()
        invariant
            i <= src@.len(),
            forall|x: Seq<char>|
                #[trigger] strings(out@).contains(x) <==> (start.contains(x) || (strings(src@.take(i as int)).contains(x)
                    && (if root { is_root_strategy(x) } else { is_bat(x) }))),
        decreases src.len() - i,
    {
        let ghost before = strings(out@);
        let ghost y = src@[i as int]@;
        let ghost s0 = strings(src@.take(i as int));
        let ghost s1 = strings(src@.take(i + 1));
        proof {
            assert(s1 =~= s0.push(y));
            assert forall|x: Seq<char>| s1.contains(x) <==> (s0.contains(x) || x == y) by {
                if s1.contains(x) && x != y {
                    let k = choose|k: int| 0 <= k < s1.len() && #[trigger] s1[k] == x;
                    assert(s0[k] == x);
                }
                if s0.contains(x) {
                    let k = choose|k: int| 0 <= k < s0.len() && #[trigger] s0[k] == x;
                    assert(s1[k] == x);
                }
                if x == y {
                    assert(s1[i as int] == x);
                }
            }
        }
        let keep = matches_kind(src[i].as_str(), root);
        if keep {
            out.push(src[i].clone());
            proof {
                let after = strings(out@);
                assert(after =~= before.push(y));
                assert forall|x: Seq<char>| after.contains(x) <==> (before.contains(x) || x == y) by {
                    if after.contains(x) && x != y {
                        let k = choose|k: int| 0 <= k < after.len() && #[trigger] after[k] == x;
                        assert(before[k] == x);
                    }
                    if before.contains(x) {
                        let k = choose|k: int| 0 <= k < before.len() && #[trigger] before[k] == x;
                        assert(after[k] == x);
                    }
                    if x == y {
                        assert(after[before.len() as int] == x);
                    }
                }
            }
        }
        proof {
            let after = strings(out@);
            assert forall|x: Seq<char>| after.contains(x) <==> (start.contains(x) || (s1.contains(x)
                && (if root { is_root_strategy(x) } else { is_bat(x) }))) by {
                assert(before.contains(x) <==> (start.contains(x) || (s0.contains(x)
                    && (if root { is_root_strategy(x) } else { is_bat(x) }))));
                assert(s1.contains(x) <==> (s0.contains(x) || x == y));
                if !keep {
                    assert(after == before);
                }
            }
        }
        i += 1;
    }
    assert(src@.take(src@.len() as int) =~= src@);
}

/// The strategies to offer, from the file names of the cache's and the
/// repository's `custom-strategies` directories and of the repository root:
/// every strategy found there (see [`strategy_found`]), sorted, each once;
/// `discord.bat` alone when none is found.
pub fn get_strategies(cache_custom: &Vec<String>, repo_custom: &Vec<String>, repo_root: &Vec<String>) -> (r:
    Vec<String>)
    ensures
        (exists|x: Seq<char>| strategy_found(strings(cache_custom@), strings(repo_custom@), strings(repo_root@), x))
            ==> strictly_sorted(strings(r@)) && forall|x: Seq<char>|
            strings(r@).contains(x) <==> strategy_found(
                strings(cache_custom@),
                strings(repo_custom@),
                strings(repo_root@),
                x,
            ),
        !(exists|x: Seq<char>| strategy_found(strings(cache_custom@), strings(repo_custom@), strings(repo_root@), x))
            ==> strings(r@) == seq![FALLBACK_STRATEGY@],
{
    let ghost cc = strings(cache_custom@);
    let ghost rc = strings(repo_custom@);
    let ghost rr = strings(repo_root@);
    let mut names: Vec<String> = Vec::new();
    assert(strings(names@) =~= Seq::<Seq<char>>::empty());
    collect_names(cache_custom, false, &mut names);
    let ghost n1 = strings(names@);
    collect_names(repo_custom, false, &mut names);
    let ghost n2 = strings(names@);
    collect_names(repo_root, true, &mut names);
    assert forall|x: Seq<char>| strings(names@).contains(x) <==> #[trigger] strategy_found(cc, rc, rr, x) by {
        assert(strings(names@).contains(x) <==> (n2.contains(x) || (rr.contains(x) && is_root_strategy(x))));
        assert(n2.contains(x) <==> (n1.contains(x) || (rc.contains(x) && is_bat(x))));
        assert(n1.contains(x) <==> (Seq::<Seq<char>>::empty().contains(x) || (cc.contains(x) && is_bat(x))));
    }
    let s = sort_strings(names);
    assert forall|x: Seq<char>| strings(s@).contains(x) <==> #[trigger] strategy_found(cc, rc, rr, x) by {
        assert(strings(s@).to_multiset().count(x) == strings(names@).to_multiset().count(x));
    }
    let mut r = dedup_sorted(s);
    if r.len() == 0 {
        proof {
            assert forall|x: Seq<char>| !#[trigger] strategy_found(cc, rc, rr, x) by {
                if strategy_found(cc, rc, rr, x) {
                    assert(strings(r@).contains(x));
                }
            }
        }
        r.push(String::from_str(FALLBACK_STRATEGY));
        assert(strings(r@) =~= seq![FALLBACK_STRATEGY@]);
    } else {
        proof {
            let x = strings(r@)[0];
            assert(strings(r@).contains(x));
            assert(strategy_found(cc, rc, rr, x));
        }
    }
    r
}

/// Whether the strategies are installed: the repository exists and holds a
/// `.bat` file at its root or in its `custom-strategies` directory.
pub fn check_strategies_installed(repo_exists: bool, root_names: &Vec<String>, custom_names: &Vec<String>) -> (b:
    bool)
    ensures
        b == (repo_exists && ((exists|k: int| 0 <= k < root_names@.len() && is_bat(#[trigger] root_names@[k]@))
            || (exists|k: int| 0 <= k < custom_names@.len() && is_bat(#[trigger] custom_names@[k]@)))),
{
    if !repo_exists {
        return false;
    }
    any_bat(root_names) || any_bat(custom_names)
}

fn any_bat(names: &Vec<String>) -> (b: bool)
    ensures
        b == exists|k: int| 0 <= k < names@.len() && is_bat(#[trigger] names@[k]@),
{
    let mut i: usize = 0;
    while i < names.len()
        invariant
            i <= names@.len(),
            forall|k: int| 0 <= k < i ==> !is_bat(#[trigger] names@[k]@),
        decreases names.len() - i,
    {
        if matches_kind(names[i].as_str(), false) {
            return true;
        }
        i += 1;
    }
    false
}

/// The name of the strategies repository's directory.
pub const REPO_DIR_NAME: &'static str = "zapret-discord-youtube-linux";

/// Where the domain lists are read from: the `lists` directory of the
/// repository next to the program, else that repository itself, else the
/// same two under the working directory.
#[derive(Debug, Clone, Copy, PartialEq, Eq, Structural)]
pub enum ListsSource {
    ExeLists,
    ExeRepo,
    LocalLists,
    LocalRepo,
    Nowhere,
}

/// The source chosen from which of the four directories exist, in order.
pub open spec fn lists_source_of(exe_lists: bool, exe_repo: bool, local_lists: bool, local_repo: bool) -> ListsSource {
    if exe_lists {
        ListsSource::ExeLists
    } else if exe_repo {
        ListsSource::ExeRepo
    } else if local_lists {
        ListsSource::LocalLists
    } else if local_repo {
        ListsSource::LocalRepo
    } else {
        ListsSource::Nowhere
    }
}

/// Chooses where to read the domain lists from, given which directories exist.
pub fn lists_source(exe_lists: bool, exe_repo: bool, local_lists: bool, local_repo: bool) -> (s: ListsSource)
    ensures
        s == lists_source_of(exe_lists, exe_repo, local_lists, local_repo),
{
    if exe_lists {
        ListsSource::ExeLists
    } else if exe_repo {
        ListsSource::ExeRepo
    } else if local_lists {
        ListsSource::LocalLists
    } else if local_repo {
        ListsSource::LocalRepo
    } else {
        ListsSource::Nowhere
    }
}

/// The directory a source reads, for the program's directory `exe_dir`.
pub open spec fn lists_dir_of(exe_dir: Seq<char>, s: ListsSource) -> Seq<char> {
    match s {
        ListsSource::ExeLists => text::path_join(text::path_join(exe_dir, REPO_DIR_NAME@), "lists"@),
        ListsSource::ExeRepo => text::path_join(exe_dir, REPO_DIR_NAME@),
        ListsSource::LocalLists => text::path_join(REPO_DIR_NAME@, "lists"@),
        ListsSource::LocalRepo => REPO_DIR_NAME@,
        ListsSource::Nowhere => seq![],
    }
}

/// The directory a source reads.
pub fn lists_dir(exe_dir: &str, s: ListsSource) -> (d: String)
    ensures
        d@ == lists_dir_of(exe_dir@, s),
{
    match s {
        ListsSource::ExeLists => {
            let repo = text::join_path(exe_dir, REPO_DIR_NAME);
            text::join_path(repo.as_str(), "lists")
        },
        ListsSource::ExeRepo => text::join_path(exe_dir, REPO_DIR_NAME),
        ListsSource::LocalLists => text::join_path(REPO_DIR_NAME, "lists"),
        ListsSource::LocalRepo => String::from_str(REPO_DIR_NAME),
        ListsSource::Nowhere => String::new(),
    }
}

/// Whether a file name has the extension `txt` (`Path::extension`): it ends
/// in `.txt` and has something before that dot.
pub open spec fn has_txt_extension(name: Seq<char>) -> bool {
    text::ends_with(name, ".txt"@) && name.len() > 4
}

/// Whether a directory entry (name, is a regular file) is a list file: any
/// regular file in a `lists` directory, only `.txt` ones in a repository.
pub open spec fn is_list_entry(s: ListsSource, name: Seq<char>, is_file: bool) -> bool {
    is_file && match s {
        ListsSource::ExeLists | ListsSource::LocalLists => true,
        _ => has_txt_extension(name),
    }
}

/// The paths of the list files among the entries of `dir`, in directory order.
pub open spec fn list_paths(s: ListsSource, dir: Seq<char>, entries: Seq<(Seq<char>, bool)>) -> Seq<Seq<char>>
    decreases entries.len(),
{
    if entries.len() == 0 {
        seq![]
    } else {
        let rest = list_paths(s, dir, entries.drop_last());
        let e = entries.last();
        if is_list_entry(s, e.0, e.1) {
            rest.push(text::path_join(dir, e.0))
        } else {
            rest
        }
    }
}

fn is_list(s: ListsSource, name: &str, is_file: bool) -> (b: bool)
    ensures
        b == is_list_entry(s, name@, is_file),
{
    if !is_file {
        return false;
    }
    match s {
        ListsSource::ExeLists | ListsSource::LocalLists => true,
        _ => {
            let c = text::to_chars(name);
            let txt = text::to_chars(".txt");
            proof {
                reveal_strlit(".txt");
            }
            c.len() > 4 && text::has_suffix(c.as_slice(), txt.as_slice())
        },
    }
}

/// The domain list files: the paths of the list entries (name, is a regular
/// file) of the source's directory `dir`, sorted.
pub fn get_lists_files(s: ListsSource, dir: &str, entries: &Vec<(String, bool)>) -> (r: Vec<String>)
    ensures
        sorted(strings(r@)),
        strings(r@).to_multiset() == list_paths(s, dir@, crate::fakes::entry_views(entries@)).to_multiset(),
{
    let mut v: Vec<String> = Vec::new();
    let mut i: usize = 0;
    while i < entries.len()
        invariant
            i <= entries@.len(),
            strings(v@) == list_paths(s, dir@, crate::fakes::entry_views(entries@.take(i as int))),
        decreases entries.len() - i,
    {
        let ghost before = strings(v@);
        proof {
            assert(entries@.take(i + 1) =~= entries@.take(i as int).push(entries@[i as int]));
            assert(crate::fakes::entry_views(entries@.take(i + 1)).drop_last() =~= crate::fakes::entry_views(
                entries@.take(i as int),
            ));
        }
        if is_list(s, entries[i].0.as_str(), entries[i].1) {
            let p = text::join_path(dir, entries[i].0.as_str());
            v.push(p);
            proof {
                assert(strings(v@) =~= before.push(p@));
            }
        }
        i += 1;
    }
    proof {
        assert(entries@.take(entries@.len() as int) =~= entries@);
    }
    sort_strings(v)
}

/// The interfaces to choose from: `any` first, then the host's (the names
/// under `/sys/class/net`, in the order listed).
pub fn get_interfaces(host_interfaces: Vec<String>) -> (v: Vec<String>)
    ensures
        strings(v@) == seq!["any"@] + strings(host_interfaces@),
{
    let mut v: Vec<String> = Vec::new();
    v.push(String::from_str("any"));
    let mut rest = host_interfaces;
    let ghost tail = strings(rest@);
    v.append(&mut rest);
    assert(strings(v@) =~= seq!["any"@] + tail);
    v
}

} // verus!
