//! Firewall rules that send the chosen ports to nfqws's queue: the choice of
//! backend, the port syntax each backend takes, and the commands that set up
//! and clear the rules.
use vstd::prelude::*;
use crate::text;
use crate::text::{from_chars, join_chars, replace_str, split_char_chars, to_chars, trim_chars};

verus! {

/// The Linux firewall used to divert traffic.
#[derive(Debug, Clone, Copy, PartialEq, Eq, Structural)]
pub enum LinuxBackend {
    Nftables,
    Iptables,
}

impl LinuxBackend {
    /// The backend named in the config: `iptables`, and `nftables` for any other name.
    pub fn from_config(name: &str) -> (b: LinuxBackend)
        ensures
            b == (if name@ == "iptables"@ { LinuxBackend::Iptables } else { LinuxBackend::Nftables }),
    {
        if text::eq_str(name, "iptables") {
            LinuxBackend::Iptables
        } else {
            LinuxBackend::Nftables
        }
    }

    /// The name written to the config.
    pub fn to_config(&self) -> (s: &'static str)
        ensures
            s@ == backend_name(*self),
    {
        proof {
            reveal_strlit("nftables");
            reveal_strlit("iptables");
        }
        match self {
            LinuxBackend::Nftables => "nftables",
            LinuxBackend::Iptables => "iptables",
        }
    }

    /// The backends, in the order the menu cycles through them.
    pub fn variants() -> (v: Vec<LinuxBackend>)
        ensures
            v@ == seq![LinuxBackend::Nftables, LinuxBackend::Iptables],
    {
        let v = vec![LinuxBackend::Nftables, LinuxBackend::Iptables];
        assert(v@ =~= seq![LinuxBackend::Nftables, LinuxBackend::Iptables]);
        v
    }
}

/// The config name of a backend.
pub open spec fn backend_name(b: LinuxBackend) -> Seq<char> {
    match b {
        LinuxBackend::Nftables => seq!['n', 'f', 't', 'a', 'b', 'l', 'e', 's'],
        LinuxBackend::Iptables => seq!['i', 'p', 't', 'a', 'b', 'l', 'e', 's'],
    }
}

/// Proof that a config name read back gives the backend that wrote it.
pub proof fn lemma_backend_name_round_trip(b: LinuxBackend)
    ensures
        (backend_name(b) == "iptables"@) == (b == LinuxBackend::Iptables),
{
    reveal_strlit("iptables");
    assert(backend_name(LinuxBackend::Iptables) =~= "iptables"@);
    assert(backend_name(LinuxBackend::Nftables)[0] != "iptables"@[0]);
}

/// One entry of a port list in iptables syntax: trimmed, with a range
/// `lo-hi` written `lo:hi` (each end trimmed).
pub open spec fn normalize_port(p: Seq<char>) -> Seq<char> {
    let t = text::trim(p);
    let k = text::find_from(t, '-', 0);
    if k < t.len() {
        text::trim(t.take(k)) + seq![':'] + text::trim(t.skip(k + 1))
    } else {
        t
    }
}

/// A comma separated port list in iptables syntax.
pub open spec fn normalized_ports(ports: Seq<char>) -> Seq<char> {
    text::join(text::split_char(ports, ',').map_values(|p: Seq<char>| normalize_port(p)), seq![','])
}

fn normalize_one(p: &[char]) -> (v: Vec<char>)
    ensures
        v@ == normalize_port(p@),
{
    let t = trim_chars(p);
    let mut k: usize = 0;
    while k < t.len() && t[k] != '-'
        invariant
            k <= t@.len(),
            forall|m: int| 0 <= m < k ==> t@[m] != '-',
        decreases t.len() - k,
    {
        k += 1;
    }
    proof {
        text::lemma_find_from_is(t@, '-', 0, k as int);
    }
    if k < t.len() {
        let lo = text::slice_chars(t.as_slice(), 0, k);
        let hi = text::slice_chars(t.as_slice(), k + 1, t.len());
        let mut out = trim_chars(lo.as_slice());
        out.push(':');
        let hi_t = trim_chars(hi.as_slice());
        text::push_all(&mut out, hi_t.as_slice());
        proof {
            assert(lo@ =~= t@.take(k as int));
            assert(hi@ =~= t@.skip(k + 1));
        }
        out
    } else {
        t
    }
}

/// Rewrites a port list for iptables's `multiport` match: ranges `a-b`
/// become `a:b` and spaces around entries go.
pub fn normalize_ports(ports: &str) -> (r: String)
    ensures
        r@ == normalized_ports(ports@),
{
    let cs = to_chars(ports);
    let parts = split_char_chars(cs.as_slice(), ',');
    let mut out: Vec<Vec<char>> = Vec::new();
    let mut i: usize = 0;
    let ghost ps = parts.deep_view();
    while i < parts.len()
        invariant
            i <= parts@.len(),
            ps == parts.deep_view(),
            ps == text::split_char(ports@, ','),
            out.deep_view() == ps.take(i as int).map_values(|p: Seq<char>| normalize_port(p)),
        decreases parts.len() - i,
    {
        assert(parts[i as int].deep_view() =~= parts[i as int]@);
        let n = normalize_one(parts[i].as_slice());
        let ghost before = out.deep_view();
        assert(n.deep_view() =~= n@);
        out.push(n);
        proof {
            assert(out.deep_view() =~= before.push(n@));
            assert(ps.take(i + 1) =~= ps.take(i as int).push(ps[i as int]));
            assert(ps.take(i + 1).map_values(|p: Seq<char>| normalize_port(p)) =~= ps.take(
                i as int,
            ).map_values(|p: Seq<char>| normalize_port(p)).push(normalize_port(ps[i as int])));
        }
        i += 1;
    }
    assert(ps.take(ps.len() as int) =~= ps);
    let sep = [','];
    let joined = join_chars(&out, &sep);
    assert(sep@ =~= seq![',']);
    from_chars(&joined)
}

/// The name of the chain the rules live in.
pub open spec fn chain_name() -> Seq<char> {
    seq!['z', 'a', 'p', 'r', 'e', 't', '_', 'c', 'h', 'a', 'i', 'n']
}

/// The views of a list of argument lists.
pub open spec fn arg_lists(v: Seq<Vec<String>>) -> Seq<Seq<Seq<char>>> {
    v.map_values(|a: Vec<String>| crate::order::strings(a@))
}

/// Whether an interface name restricts the rules (empty and `any` do not).
pub open spec fn restricts(interface: Seq<char>) -> bool {
    interface.len() > 0 && interface != "any"@
}

/// The arguments of the iptables rule that queues `proto` traffic to `ports`
/// (already normalized) on `interface`.
pub open spec fn iptables_rule(proto: Seq<char>, ports: Seq<char>, interface: Seq<char>) -> Seq<Seq<char>> {
    let head = seq!["-t"@, "filter"@, "-A"@, chain_name()];
    let iface = if restricts(interface) { seq!["-o"@, interface] } else { seq![] };
    head + iface + seq![
        "-p"@, proto, "-m"@, "multiport"@, "--dports"@, ports, "-m"@, "mark"@, "!"@, "--mark"@,
        "0x40000000/0x40000000"@, "-j"@, "NFQUEUE"@, "--queue-num"@, "200"@, "--queue-bypass"@,
    ]
}

fn put(v: &mut Vec<String>, s: &str)
    ensures
        crate::order::strings(final(v)@) == crate::order::strings(old(v)@).push(s@),
{
    v.push(s.to_string());
    assert(crate::order::strings(v@) =~= crate::order::strings(old(v)@).push(s@));
}

fn args(items: &[&str]) -> (v: Vec<String>)
    ensures
        v@.len() == items@.len(),
        forall|k: int| 0 <= k < items@.len() ==> #[trigger] v@[k]@ == items@[k]@,
{
    let mut v: Vec<String> = Vec::new();
    let mut i: usize = 0;
    while i < items.len()
        invariant
            i <= items@.len(),
            v@.len() == i,
            forall|k: int| 0 <= k < i ==> #[trigger] v@[k]@ == items@[k]@,
        decreases items.len() - i,
    {
        v.push(items[i].to_string());
        i += 1;
    }
    v
}

fn iptables_rule_args(proto: &str, ports: &str, interface: &str) -> (v: Vec<String>)
    ensures
        crate::order::strings(v@) == iptables_rule(proto@, ports@, interface@),
{
    let head = args(&["-t", "filter", "-A", "zapret_chain"]);
    let mut v = head;
    let restrict = !interface.is_empty() && !text::eq_str(interface, "any");
    if restrict {
        v.push("-o".to_string());
        v.push(interface.to_string());
    }
    let ghost mid = v@;
    let tail = args(
        &[
            "-p",
            proto,
            "-m",
            "multiport",
            "--dports",
            ports,
            "-m",
            "mark",
            "!",
            "--mark",
            "0x40000000/0x40000000",
            "-j",
            "NFQUEUE",
            "--queue-num",
            "200",
            "--queue-bypass",
        ],
    );
    let mut tail = tail;
    v.append(&mut tail);
    proof {
        reveal_strlit("zapret_chain");
        assert("zapret_chain"@ =~= chain_name());
        assert(crate::order::strings(v@) =~= iptables_rule(proto@, ports@, interface@));
    }
    v
}

/// The iptables backend.
pub struct IptablesBackend;

/// The commands (argument lists of `iptables`) that remove the chain.
pub open spec fn iptables_clear() -> Seq<Seq<Seq<char>>> {
    seq![
        seq!["-t"@, "filter"@, "-D"@, "OUTPUT"@, "-j"@, chain_name()],
        seq!["-t"@, "filter"@, "-F"@, chain_name()],
        seq!["-t"@, "filter"@, "-X"@, chain_name()],
    ]
}

/// The commands (argument lists of `iptables`) that create the chain, hook it
/// into `OUTPUT`, and add one rule per non-empty port list (spaces removed,
/// ranges normalized).
pub open spec fn iptables_setup(tcp: Seq<char>, udp: Seq<char>, interface: Seq<char>) -> Seq<Seq<Seq<char>>> {
    let base = seq![
        seq!["-t"@, "filter"@, "-N"@, chain_name()],
        seq!["-t"@, "filter"@, "-I"@, "OUTPUT"@, "-j"@, chain_name()],
    ];
    let t = if tcp.len() > 0 {
        seq![iptables_rule("tcp"@, normalized_ports(text::replace_all(tcp, " "@, ""@)), interface)]
    } else {
        seq![]
    };
    let u = if udp.len() > 0 {
        seq![iptables_rule("udp"@, normalized_ports(text::replace_all(udp, " "@, ""@)), interface)]
    } else {
        seq![]
    };
    base + t + u
}

/// The iptables setup queues each port list under its own protocol: there
/// is one rule per non-empty list, the TCP list's rule (right after the
/// chain is created and hooked) takes `-p tcp` and the TCP ports, and the
/// UDP list's rule, always the last command, takes `-p udp` and the UDP
/// ports. The protocol and the ports sit at the same places from the end of
/// a rule whether or not an output interface is named.
pub proof fn lemma_iptables_protocols(tcp: Seq<char>, udp: Seq<char>, interface: Seq<char>)
    ensures
        ({
            let cmds = iptables_setup(tcp, udp, interface);
            &&& cmds.len() == 2 + (if tcp.len() > 0 { 1int } else { 0 }) + (if udp.len() > 0 { 1int } else { 0 })
            &&& tcp.len() > 0 ==> {
                let r = cmds[2];
                &&& r.len() >= 20
                &&& r[r.len() - 16] == "-p"@
                &&& r[r.len() - 15] == "tcp"@
                &&& r[r.len() - 12] == "--dports"@
                &&& r[r.len() - 11] == normalized_ports(text::replace_all(tcp, " "@, ""@))
            }
            &&& udp.len() > 0 ==> {
                let r = cmds.last();
                &&& r.len() >= 20
                &&& r[r.len() - 16] == "-p"@
                &&& r[r.len() - 15] == "udp"@
                &&& r[r.len() - 12] == "--dports"@
                &&& r[r.len() - 11] == normalized_ports(text::replace_all(udp, " "@, ""@))
            }
        }),
{
    let cmds = iptables_setup(tcp, udp, interface);
    if tcp.len() > 0 {
        let r = iptables_rule("tcp"@, normalized_ports(text::replace_all(tcp, " "@, ""@)), interface);
        assert(cmds[2] == r);
    }
    if udp.len() > 0 {
        let r = iptables_rule("udp"@, normalized_ports(text::replace_all(udp, " "@, ""@)), interface);
        assert(cmds.last() == r);
    }
}

impl IptablesBackend {
    /// The commands that remove the rules (run before a setup, and on stop).
    pub fn clear_commands(&self) -> (v: Vec<Vec<String>>)
        ensures
            arg_lists(v@) == iptables_clear(),
    {
        let mut v: Vec<Vec<String>> = Vec::new();
        v.push(args(&["-t", "filter", "-D", "OUTPUT", "-j", "zapret_chain"]));
        v.push(args(&["-t", "filter", "-F", "zapret_chain"]));
        v.push(args(&["-t", "filter", "-X", "zapret_chain"]));
        proof {
            reveal_strlit("zapret_chain");
            assert("zapret_chain"@ =~= chain_name());
            assert(arg_lists(v@) =~~= iptables_clear());
        }
        v
    }

    /// The commands that set the rules up for the given port lists and interface.
    pub fn setup_commands(&self, tcp_ports: &str, udp_ports: &str, interface: &str) -> (v: Vec<Vec<String>>)
        ensures
            arg_lists(v@) == iptables_setup(tcp_ports@, udp_ports@, interface@),
    {
        let mut v: Vec<Vec<String>> = Vec::new();
        v.push(args(&["-t", "filter", "-N", "zapret_chain"]));
        v.push(args(&["-t", "filter", "-I", "OUTPUT", "-j", "zapret_chain"]));
        proof {
            reveal_strlit(" ");
        }
        if !tcp_ports.is_empty() {
            let p = normalize_ports(replace_str(tcp_ports, " ", "").as_str());
            v.push(iptables_rule_args("tcp", p.as_str(), interface));
        }
        if !udp_ports.is_empty() {
            let p = normalize_ports(replace_str(udp_ports, " ", "").as_str());
            v.push(iptables_rule_args("udp", p.as_str(), interface));
        }
        proof {
            reveal_strlit("zapret_chain");
            assert("zapret_chain"@ =~= chain_name());
            assert(arg_lists(v@) =~~= iptables_setup(tcp_ports@, udp_ports@, interface@));
        }
        v
    }
}

/// The outside work that sets the rules up or clears them.
#[derive(Debug, Clone, PartialEq, Eq)]
pub enum FirewallJob {
    /// Argument lists of `iptables`, run in order.
    Iptables(Vec<Vec<String>>),
    /// A JSON ruleset for `nft -j -f -`.
    Nft(String),
    /// Nothing to do.
    Nothing,
}

/// A firewall that can divert the chosen ports to nfqws. The caller clears
/// the rules before it sets them up.
pub trait FirewallBackend {
    /// The work that sets the rules up for the port lists and interface.
    fn setup(&self, tcp_ports: &str, udp_ports: &str, interface: &str) -> FirewallJob;

    /// The work that clears the rules, given the current ruleset where the
    /// backend can list one (empty otherwise).
    fn clear(&self, current_ruleset: &str) -> FirewallJob;
}

impl FirewallBackend for IptablesBackend {
    fn setup(&self, tcp_ports: &str, udp_ports: &str, interface: &str) -> (j: FirewallJob)
        ensures
            j matches FirewallJob::Iptables(v) && arg_lists(v@) == iptables_setup(tcp_ports@, udp_ports@, interface@),
    {
        FirewallJob::Iptables(self.setup_commands(tcp_ports, udp_ports, interface))
    }

    fn clear(&self, current_ruleset: &str) -> (j: FirewallJob)
        ensures
            j matches FirewallJob::Iptables(v) && arg_lists(v@) == iptables_clear(),
    {
        FirewallJob::Iptables(self.clear_commands())
    }
}

} // verus!
