//! The nftables backend: the JSON rulesets (as `nft -j -f -` reads them) that
//! create the `zapret` table, queue the chosen ports to nfqws, and remove
//! the table again.
use vstd::prelude::*;
use crate::text;
use crate::actions::{parse_usize, parse_usize_chars};
use crate::firewalls::FirewallJob;

verus! {

/// The table the rules live in.
pub const NFT_TABLE: &'static str = "zapret";

/// A lowercase hexadecimal digit.
pub open spec fn hex_digit(d: nat) -> char {
    if d < 10 {
        ((d + 48) as u8) as char
    } else {
        ((d + 87) as u8) as char
    }
}

/// How a JSON string writes one character: quote, backslash and control
/// characters escaped (the short forms where JSON has them, else `\u00XX`),
/// every other character as itself.
pub open spec fn json_escape_char(c: char) -> Seq<char> {
    if c == '"' {
        seq!['\\', '"']
    } else if c == '\\' {
        seq!['\\', '\\']
    } else if c == '\n' {
        seq!['\\', 'n']
    } else if c == '\r' {
        seq!['\\', 'r']
    } else if c == '\t' {
        seq!['\\', 't']
    } else if c == '\u{8}' {
        seq!['\\', 'b']
    } else if c == '\u{c}' {
        seq!['\\', 'f']
    } else if (c as u32) < 0x20 {
        seq!['\\', 'u', '0', '0', hex_digit((c as u32 / 16) as nat), hex_digit((c as u32 % 16) as nat)]
    } else {
        seq![c]
    }
}

/// The characters of a JSON string literal's body.
pub open spec fn json_escape(s: Seq<char>) -> Seq<char>
    decreases s.len(),
{
    if s.len() == 0 {
        seq![]
    } else {
        json_escape(s.drop_last()) + json_escape_char(s.last())
    }
}

/// A JSON string literal.
pub open spec fn json_str(s: Seq<char>) -> Seq<char> {
    seq!['"'] + json_escape(s) + seq!['"']
}

fn hex_char(d: u32) -> (c: char)
    requires
        d < 16,
    ensures
        c == hex_digit(d as nat),
{
    if d < 10 {
        ((d as u8) + 48) as char
    } else {
        ((d as u8) + 87) as char
    }
}

fn push_escaped(out: &mut Vec<char>, c: char)
    ensures
        final(out)@ == old(out)@ + json_escape_char(c),
{
    let ghost before = out@;
    if c == '"' {
        out.push('\\');
        out.push('"');
    } else if c == '\\' {
        out.push('\\');
        out.push('\\');
    } else if c == '\n' {
        out.push('\\');
        out.push('n');
    } else if c == '\r' {
        out.push('\\');
        out.push('r');
    } else if c == '\t' {
        out.push('\\');
        out.push('t');
    } else if c == '\u{8}' {
        out.push('\\');
        out.push('b');
    } else if c == '\u{c}' {
        out.push('\\');
        out.push('f');
    } else if (c as u32) < 0x20 {
        let n = c as u32;
        out.push('\\');
        out.push('u');
        out.push('0');
        out.push('0');
        out.push(hex_char(n / 16));
        out.push(hex_char(n % 16));
    } else {
        out.push(c);
    }
    assert(out@ =~= before + json_escape_char(c));
}

/// Writes `s` as a JSON string literal.
pub fn json_string(s: &str) -> (r: Vec<char>)
    ensures
        r@ == json_str(s@),
{
    let cs = text::to_chars(s);
    let mut out: Vec<char> = Vec::new();
    out.push('"');
    let mut i: usize = 0;
    while i < cs.len()
        invariant
            i <= cs@.len(),
            cs@ == s@,
            out@ == seq!['"'] + json_escape(cs@.take(i as int)),
        decreases cs.len() - i,
    {
        proof {
            assert(cs@.take(i + 1).drop_last() =~= cs@.take(i as int));
        }
        push_escaped(&mut out, cs[i]);
        i += 1;
        proof {
            assert(out@ =~= seq!['"'] + json_escape(cs@.take(i as int)));
        }
    }
    out.push('"');
    assert(cs@.take(cs@.len() as int) =~= cs@);
    out
}

/// A port of a list as nftables gets it: the trimmed entry read as a
/// `u32`, and 0 where it is not one.
pub open spec fn port_number(p: Seq<char>) -> nat {
    match parse_usize(text::trim(p)) {
        Some(n) => if n <= u32::MAX {
            n as nat
        } else {
            0
        },
        None => 0,
    }
}

/// The JSON array of the ports of a comma separated list.
pub open spec fn port_set(ports: Seq<char>) -> Seq<char> {
    seq!['['] + text::join(
        text::split_char(ports, ',').map_values(|p: Seq<char>| text::decimal(port_number(p))),
        seq![','],
    ) + seq![']']
}

fn port_value(p: &[char]) -> (n: u32)
    ensures
        n == port_number(p@),
{
    let t = text::trim_chars(p);
    match parse_usize_chars(t.as_slice()) {
        Some(n) => if n <= 0xffff_ffff {
            n as u32
        } else {
            0
        },
        None => 0,
    }
}

fn port_set_chars(ports: &str) -> (r: Vec<char>)
    ensures
        r@ == port_set(ports@),
{
    let cs = text::to_chars(ports);
    let parts = text::split_char_chars(cs.as_slice(), ',');
    let ghost ps = parts.deep_view();
    let mut nums: Vec<Vec<char>> = Vec::new();
    let mut i: usize = 0;
    while i < parts.len()
        invariant
            i <= parts@.len(),
            ps == parts.deep_view(),
            ps == text::split_char(ports@, ','),
            nums.deep_view() == ps.take(i as int).map_values(|p: Seq<char>| text::decimal(port_number(p))),
        decreases parts.len() - i,
    {
        assert(parts[i as int].deep_view() =~= parts[i as int]@);
        let n = port_value(parts[i].as_slice());
        let d = text::decimal_chars(n as usize);
        let ghost before = nums.deep_view();
        assert(d.deep_view() =~= d@);
        nums.push(d);
        proof {
            assert(nums.deep_view() =~= before.push(d@));
            assert(ps.take(i + 1) =~= ps.take(i as int).push(ps[i as int]));
            assert(ps.take(i + 1).map_values(|p: Seq<char>| text::decimal(port_number(p))) =~= ps.take(
                i as int,
            ).map_values(|p: Seq<char>| text::decimal(port_number(p))).push(text::decimal(port_number(ps[i as int]))));
        }
        i += 1;
    }
    assert(ps.take(ps.len() as int) =~= ps);
    let sep = [','];
    let joined = text::join_chars(&nums, &sep);
    assert(sep@ =~= seq![',']);
    let mut out: Vec<char> = Vec::new();
    out.push('[');
    text::push_all(&mut out, joined.as_slice());
    out.push(']');
    assert(out@ =~= port_set(ports@));
    out
}

/// The expression matching packets that nfqws has not marked yet.
pub const MARK_MATCH: &'static str = "{\"match\":{\"op\":\"!=\",\"left\":{\"meta\":{\"key\":\"mark\"}},\"right\":\"0x40000000\"}}";
/// The start of the expression matching the output interface.
pub const IFACE_MATCH: &'static str = "{\"match\":{\"op\":\"==\",\"left\":{\"meta\":{\"key\":\"oifname\"}},\"right\":";
/// The start of the expression matching the destination port.
pub const PORT_MATCH: &'static str = "{\"match\":{\"op\":\"==\",\"left\":{\"payload\":{\"protocol\":\"";
/// The middle of the expression matching the destination port.
pub const PORT_SET: &'static str = "\",\"field\":\"dport\"}},\"right\":{\"set\":";
/// The counter and the queue statement that hands packets to nfqws.
pub const QUEUE_EXPRS: &'static str = "{\"counter\":null},{\"queue\":{\"num\":200,\"bypass\":true}}";
/// The start of a rule in the chain.
pub const RULE_HEAD: &'static str = "{\"add\":{\"rule\":{\"family\":\"ip\",\"table\":\"zapret\",\"chain\":\"zapret_chain\",\"expr\":[";
/// The end of a rule, up to its protocol.
pub const RULE_TAIL: &'static str = "],\"comment\":\"zapret-rust-rule-";
/// The commands that add the table and the chain hooked into output.
pub const SETUP_HEAD: &'static str = "{\"nftables\":[{\"add\":{\"table\":{\"family\":\"ip\",\"name\":\"zapret\"}}},{\"add\":{\"chain\":{\"family\":\"ip\",\"table\":\"zapret\",\"name\":\"zapret_chain\",\"type\":\"filter\",\"hook\":\"output\",\"prio\":0}}}";
/// The ruleset that flushes and deletes the chain and deletes the table.
pub const CLEAR_RULESET: &'static str = "{\"nftables\":[{\"flush\":{\"chain\":{\"family\":\"ip\",\"table\":\"zapret\",\"name\":\"zapret_chain\"}}},{\"delete\":{\"chain\":{\"family\":\"ip\",\"table\":\"zapret\",\"name\":\"zapret_chain\"}}},{\"delete\":{\"table\":{\"family\":\"ip\",\"name\":\"zapret\"}}}]}";

/// The rule that queues `proto` packets to the listed ports (on the
/// interface, where it restricts) to nfqws.
pub open spec fn nft_rule(proto: Seq<char>, ports: Seq<char>, interface: Seq<char>) -> Seq<char> {
    let iface = if crate::firewalls::restricts(interface) {
        IFACE_MATCH@ + json_str(interface) + "}},"@
    } else {
        seq![]
    };
    RULE_HEAD@ + iface + MARK_MATCH@ + ","@ + PORT_MATCH@ + proto + PORT_SET@ + port_set(ports) + "}}},"@
        + QUEUE_EXPRS@ + RULE_TAIL@ + proto + "\"}}}"@
}

/// The ruleset that sets up the table, the chain and one rule per non-empty
/// port list.
pub open spec fn nft_setup(tcp: Seq<char>, udp: Seq<char>, interface: Seq<char>) -> Seq<char> {
    let t = if tcp.len() > 0 {
        ","@ + nft_rule("tcp"@, tcp, interface)
    } else {
        seq![]
    };
    let u = if udp.len() > 0 {
        ","@ + nft_rule("udp"@, udp, interface)
    } else {
        seq![]
    };
    SETUP_HEAD@ + t + u + "]}"@
}

fn rule_chars(out: &mut Vec<char>, proto: &str, ports: &str, interface: &str)
    ensures
        final(out)@ == old(out)@ + nft_rule(proto@, ports@, interface@),
{
    let ghost before = out@;
    text::push_str(out, RULE_HEAD);
    let restrict = !interface.is_empty() && !text::eq_str(interface, "any");
    if restrict {
        text::push_str(out, IFACE_MATCH);
        let js = json_string(interface);
        text::push_all(out, js.as_slice());
        text::push_str(out, "}},");
    }
    text::push_str(out, MARK_MATCH);
    text::push_str(out, ",");
    text::push_str(out, PORT_MATCH);
    text::push_str(out, proto);
    text::push_str(out, PORT_SET);
    let set = port_set_chars(ports);
    text::push_all(out, set.as_slice());
    text::push_str(out, "}}},");
    text::push_str(out, QUEUE_EXPRS);
    text::push_str(out, RULE_TAIL);
    text::push_str(out, proto);
    text::push_str(out, "\"}}}");
    assert(out@ =~= before + nft_rule(proto@, ports@, interface@));
}

/// The nftables backend.
#[derive(Debug, Clone, Copy, PartialEq, Eq, Structural)]
pub struct NftablesBackend;

impl NftablesBackend {
    /// The ruleset that sets the rules up for the given port lists and interface.
    pub fn setup_ruleset(&self, tcp_ports: &str, udp_ports: &str, interface: &str) -> (r: String)
        ensures
            r@ == nft_setup(tcp_ports@, udp_ports@, interface@),
    {
        let mut out: Vec<char> = Vec::new();
        text::push_str(&mut out, SETUP_HEAD);
        if !tcp_ports.is_empty() {
            text::push_str(&mut out, ",");
            rule_chars(&mut out, "tcp", tcp_ports, interface);
        }
        if !udp_ports.is_empty() {
            text::push_str(&mut out, ",");
            rule_chars(&mut out, "udp", udp_ports, interface);
        }
        text::push_str(&mut out, "]}");
        assert(out@ =~= nft_setup(tcp_ports@, udp_ports@, interface@));
        text::from_chars(out.as_slice())
    }

    /// The ruleset that removes the chain and the table.
    pub fn clear_ruleset(&self) -> (r: String)
        ensures
            r@ == CLEAR_RULESET@,
    {
        String::from_str(CLEAR_RULESET)
    }

    /// Whether the current ruleset (as `nft -j list ruleset` prints it) holds
    /// the table, so that there is something to clear.
    pub fn has_table(&self, ruleset: &str) -> (b: bool)
        ensures
            b == text::contains_seq(ruleset@, NFT_TABLE@),
    {
        text::contains_str(ruleset, NFT_TABLE)
    }
}

impl crate::firewalls::FirewallBackend for NftablesBackend {
    fn setup(&self, tcp_ports: &str, udp_ports: &str, interface: &str) -> (j: FirewallJob)
        ensures
            j matches FirewallJob::Nft(r) && r@ == nft_setup(tcp_ports@, udp_ports@, interface@),
    {
        FirewallJob::Nft(self.setup_ruleset(tcp_ports, udp_ports, interface))
    }

    /// Clearing is needed only where the current ruleset holds the table.
    fn clear(&self, current_ruleset: &str) -> (j: FirewallJob)
        ensures
            text::contains_seq(current_ruleset@, NFT_TABLE@) ==> (j matches FirewallJob::Nft(r) && r@
                == CLEAR_RULESET@),
            !text::contains_seq(current_ruleset@, NFT_TABLE@) ==> j is Nothing,
    {
        if self.has_table(current_ruleset) {
            FirewallJob::Nft(self.clear_ruleset())
        } else {
            FirewallJob::Nothing
        }
    }
}

} // verus!
