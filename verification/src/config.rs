//! The `key=value` configuration file (`conf.env`): its model, parser and writer.
use vstd::prelude::*;
use crate::text;
use crate::text::{eq_chars, join_path, from_chars, has_prefix, key_value, slice_chars, split_lines, terminated_chars, to_chars, trim_chars};

verus! {

/// Runtime configuration assembled from CLI flags or a config file.
pub struct RunConfig {
    pub interface: String,
    pub strategy: String,
    pub gamefilter_tcp: bool,
    pub gamefilter_udp: bool,
    pub backend: String,
    pub active_discord_fake: String,
    pub active_gamefilter_fake: String,
}

/// The mathematical value of a [`RunConfig`].
pub struct ConfigModel {
    pub interface: Seq<char>,
    pub strategy: Seq<char>,
    pub gamefilter_tcp: bool,
    pub gamefilter_udp: bool,
    pub backend: Seq<char>,
    pub active_discord_fake: Seq<char>,
    pub active_gamefilter_fake: Seq<char>,
}

impl View for RunConfig {
    type V = ConfigModel;

    open spec fn view(&self) -> ConfigModel {
        ConfigModel {
            interface: self.interface@,
            strategy: self.strategy@,
            gamefilter_tcp: self.gamefilter_tcp,
            gamefilter_udp: self.gamefilter_udp,
            backend: self.backend@,
            active_discord_fake: self.active_discord_fake@,
            active_gamefilter_fake: self.active_gamefilter_fake@,
        }
    }
}

/// The configuration used when nothing else is known.
pub open spec fn default_model() -> ConfigModel {
    ConfigModel {
        interface: "any"@,
        strategy: Seq::empty(),
        gamefilter_tcp: false,
        gamefilter_udp: false,
        backend: "nftables"@,
        active_discord_fake: "quic_initial_steamcommunity_com.bin"@,
        active_gamefilter_fake: "quic_initial_4pda.to.bin"@,
    }
}

impl Default for RunConfig {
    fn default() -> (c: Self)
        ensures
            c@ == default_model(),
    {
        RunConfig {
            interface: String::from_str("any"),
            strategy: String::new(),
            gamefilter_tcp: false,
            gamefilter_udp: false,
            backend: String::from_str("nftables"),
            active_discord_fake: String::from_str("quic_initial_steamcommunity_com.bin"),
            active_gamefilter_fake: String::from_str("quic_initial_4pda.to.bin"),
        }
    }
}

/// The effect of one line of a config file on the configuration read so far.
/// Lines are trimmed; values after `key=` are trimmed; unknown lines are ignored.
pub open spec fn apply_line(m: ConfigModel, raw: Seq<char>) -> ConfigModel {
    let line = text::trim(raw);
    if text::starts_with(line, "interface="@) {
        ConfigModel { interface: text::trim(line.skip("interface="@.len() as int)), ..m }
    } else if text::starts_with(line, "strategy="@) {
        ConfigModel { strategy: text::trim(line.skip("strategy="@.len() as int)), ..m }
    } else if line == "gamefiltertcp=true"@ {
        ConfigModel { gamefilter_tcp: true, ..m }
    } else if line == "gamefilterudp=true"@ {
        ConfigModel { gamefilter_udp: true, ..m }
    } else if text::starts_with(line, "backend="@) {
        ConfigModel { backend: text::trim(line.skip("backend="@.len() as int)), ..m }
    } else if text::starts_with(line, "active_discord_fake="@) {
        ConfigModel {
            active_discord_fake: text::trim(line.skip("active_discord_fake="@.len() as int)),
            ..m
        }
    } else if text::starts_with(line, "active_gamefilter_fake="@) {
        ConfigModel {
            active_gamefilter_fake: text::trim(line.skip("active_gamefilter_fake="@.len() as int)),
            ..m
        }
    } else {
        m
    }
}

/// The configuration a file with the given text describes: the defaults, then
/// each line applied in order.
pub open spec fn parse_model(content: Seq<char>) -> ConfigModel {
    text::lines(content).fold_left(default_model(), |m: ConfigModel, l: Seq<char>| apply_line(m, l))
}

/// `"true"` or `"false"`.
pub open spec fn bool_text(b: bool) -> Seq<char> {
    if b {
        "true"@
    } else {
        "false"@
    }
}

/// The seven lines that [`format_config`] writes, in order.
pub open spec fn format_lines(m: ConfigModel) -> Seq<Seq<char>> {
    seq![
        "interface="@ + m.interface,
        "strategy="@ + m.strategy,
        "gamefiltertcp="@ + bool_text(m.gamefilter_tcp),
        "gamefilterudp="@ + bool_text(m.gamefilter_udp),
        "backend="@ + m.backend,
        "active_discord_fake="@ + m.active_discord_fake,
        "active_gamefilter_fake="@ + m.active_gamefilter_fake,
    ]
}

/// The text that [`format_config`] writes for a configuration: the
/// [`format_lines`], each ended by a newline.
pub open spec fn format_model(m: ConfigModel) -> Seq<char> {
    text::terminated(format_lines(m))
}

/// A value that survives a write and a read unchanged: one line, already trimmed.
pub open spec fn clean_value(v: Seq<char>) -> bool {
    &&& !text::has_char(v, '\n')
    &&& text::is_trimmed(v)
}

/// Every text field of the configuration is a [`clean_value`].
pub open spec fn clean_model(m: ConfigModel) -> bool {
    &&& clean_value(m.interface)
    &&& clean_value(m.strategy)
    &&& clean_value(m.backend)
    &&& clean_value(m.active_discord_fake)
    &&& clean_value(m.active_gamefilter_fake)
}

proof fn lemma_key_value_line(key: Seq<char>, v: Seq<char>)
    requires
        key.len() > 0,
        !text::is_ws(key[0]),
        !text::is_ws(key.last()),
        !text::has_char(key, '\n'),
        key.last() != '\r',
        clean_value(v),
    ensures
        text::trim(key + v) == key + v,
        !text::has_char(key + v, '\n'),
        text::strip_cr(key + v) == key + v,
        text::starts_with(key + v, key),
        text::trim((key + v).skip(key.len() as int)) == v,
{
    let l = key + v;
    assert(l[0] == key[0]);
    if v.len() > 0 {
        assert(l.last() == v.last());
        assert(text::is_ws('\r'));
    } else {
        assert(l =~= key);
    }
    assert(text::is_trimmed(l));
    text::lemma_trim_trimmed(l);
    text::lemma_trim_trimmed(v);
    assert forall|i: int| 0 <= i < l.len() implies l[i] != '\n' by {
        if i < key.len() {
            assert(l[i] == key[i]);
        } else {
            assert(l[i] == v[i - key.len()]);
        }
    }
    assert(l.take(key.len() as int) =~= key);
    assert(l.skip(key.len() as int) =~= v);
}

proof fn lemma_bool_text_clean(b: bool)
    ensures
        clean_value(bool_text(b)),
{
    reveal_strlit("true");
    reveal_strlit("false");
    let t = bool_text(b);
    assert(!text::is_ws('t') && !text::is_ws('e') && !text::is_ws('f'));
    assert forall|i: int| 0 <= i < t.len() implies t[i] != '\n' by {}
}

proof fn lemma_format_lines(m: ConfigModel)
    requires
        clean_model(m),
    ensures
        text::lines(format_model(m)) == format_lines(m),
{
    lemma_bool_text_clean(m.gamefilter_tcp);
    lemma_bool_text_clean(m.gamefilter_udp);
    lemma_line_shape("interface="@, m.interface);
    lemma_line_shape("strategy="@, m.strategy);
    lemma_line_shape("gamefiltertcp="@, bool_text(m.gamefilter_tcp));
    lemma_line_shape("gamefilterudp="@, bool_text(m.gamefilter_udp));
    lemma_line_shape("backend="@, m.backend);
    lemma_line_shape("active_discord_fake="@, m.active_discord_fake);
    lemma_line_shape("active_gamefilter_fake="@, m.active_gamefilter_fake);
    let ls = format_lines(m);
    assert forall|i: int| 0 <= i < ls.len() implies !text::has_char(#[trigger] ls[i], '\n') by {}
    assert forall|i: int| 0 <= i < ls.len() implies text::strip_cr(#[trigger] ls[i]) == ls[i] by {}
    text::lemma_lines_terminated(ls);
}

/// The facts about one written line that reading it back relies on.
proof fn lemma_line_shape(key: Seq<char>, v: Seq<char>)
    requires
        key == "interface="@ || key == "strategy="@ || key == "gamefiltertcp="@ || key
            == "gamefilterudp="@ || key == "backend="@ || key == "active_discord_fake="@ || key
            == "active_gamefilter_fake="@,
        clean_value(v),
    ensures
        text::trim(key + v) == key + v,
        !text::has_char(key + v, '\n'),
        text::strip_cr(key + v) == key + v,
        text::starts_with(key + v, key),
        text::trim((key + v).skip(key.len() as int)) == v,
{
    reveal_strlit("interface=");
    reveal_strlit("strategy=");
    reveal_strlit("gamefiltertcp=");
    reveal_strlit("gamefilterudp=");
    reveal_strlit("backend=");
    reveal_strlit("active_discord_fake=");
    reveal_strlit("active_gamefilter_fake=");
    assert forall|i: int| 0 <= i < key.len() implies key[i] != '\n' by {}
    lemma_key_value_line(key, v);
}

proof fn lemma_apply_line1(x: ConfigModel, m: ConfigModel)
    requires
        clean_model(m),
    ensures
        apply_line(x, format_lines(m)[0]) == (ConfigModel { interface: m.interface, ..x }),
{
    reveal_strlit("interface=");
    lemma_line_shape("interface="@, m.interface);
    let l = format_lines(m)[0];
    assert(l.take(10) =~= "interface="@);
    assert(l.skip(10) =~= m.interface);
    text::lemma_trim_trimmed(m.interface);
}

proof fn lemma_apply_line2(x: ConfigModel, m: ConfigModel)
    requires
        clean_model(m),
    ensures
        apply_line(x, format_lines(m)[1]) == (ConfigModel { strategy: m.strategy, ..x }),
{
    reveal_strlit("interface=");
    reveal_strlit("strategy=");
    lemma_line_shape("strategy="@, m.strategy);
    let l = format_lines(m)[1];
    assert(l[0] != "interface="@[0]);
    assert(l.take(9) =~= "strategy="@);
    assert(l.skip(9) =~= m.strategy);
    text::lemma_trim_trimmed(m.strategy);
}

proof fn lemma_apply_line3(x: ConfigModel, m: ConfigModel)
    requires
        clean_model(m),
    ensures
        apply_line(x, format_lines(m)[2]) == (if m.gamefilter_tcp { (ConfigModel { gamefilter_tcp: true, ..x }) } else { x }),
{
    reveal_strlit("interface=");
    reveal_strlit("strategy=");
    reveal_strlit("gamefiltertcp=");
    reveal_strlit("gamefiltertcp=true");
    reveal_strlit("gamefilterudp=true");
    reveal_strlit("backend=");
    reveal_strlit("active_discord_fake=");
    reveal_strlit("active_gamefilter_fake=");
    reveal_strlit("true");
    reveal_strlit("false");
    lemma_bool_text_clean(m.gamefilter_tcp);
    lemma_line_shape("gamefiltertcp="@, bool_text(m.gamefilter_tcp));
    let l = format_lines(m)[2];
    assert(l[0] != "interface="@[0]);
    assert(l[0] != "strategy="@[0]);
    assert(l[0] != "backend="@[0]);
    assert(l[0] != "active_discord_fake="@[0]);
    assert(l[0] != "active_gamefilter_fake="@[0]);
    if m.gamefilter_tcp {
        assert(l =~= "gamefiltertcp=true"@);
    } else {
        assert(l.len() != "gamefiltertcp=true"@.len());
        assert(l[10] != "gamefilterudp=true"@[10]);
    }
}

proof fn lemma_apply_line4(x: ConfigModel, m: ConfigModel)
    requires
        clean_model(m),
    ensures
        apply_line(x, format_lines(m)[3]) == (if m.gamefilter_udp { (ConfigModel { gamefilter_udp: true, ..x }) } else { x }),
{
    reveal_strlit("interface=");
    reveal_strlit("strategy=");
    reveal_strlit("gamefilterudp=");
    reveal_strlit("gamefiltertcp=true");
    reveal_strlit("gamefilterudp=true");
    reveal_strlit("backend=");
    reveal_strlit("active_discord_fake=");
    reveal_strlit("active_gamefilter_fake=");
    reveal_strlit("true");
    reveal_strlit("false");
    lemma_bool_text_clean(m.gamefilter_udp);
    lemma_line_shape("gamefilterudp="@, bool_text(m.gamefilter_udp));
    let l = format_lines(m)[3];
    assert(l[0] != "interface="@[0]);
    assert(l[0] != "strategy="@[0]);
    assert(l[10] != "gamefiltertcp=true"@[10]);
    assert(l[0] != "backend="@[0]);
    assert(l[0] != "active_discord_fake="@[0]);
    assert(l[0] != "active_gamefilter_fake="@[0]);
    if m.gamefilter_udp {
        assert(l =~= "gamefilterudp=true"@);
    } else {
        assert(l.len() != "gamefilterudp=true"@.len());
    }
}

proof fn lemma_apply_line5(x: ConfigModel, m: ConfigModel)
    requires
        clean_model(m),
    ensures
        apply_line(x, format_lines(m)[4]) == (ConfigModel { backend: m.backend, ..x }),
{
    reveal_strlit("interface=");
    reveal_strlit("strategy=");
    reveal_strlit("gamefiltertcp=true");
    reveal_strlit("gamefilterudp=true");
    reveal_strlit("backend=");
    lemma_line_shape("backend="@, m.backend);
    let l = format_lines(m)[4];
    assert(l[0] != "interface="@[0]);
    assert(l[0] != "strategy="@[0]);
    assert(l[0] != "gamefiltertcp=true"@[0]);
    assert(l[0] != "gamefilterudp=true"@[0]);
    assert(l.take(8) =~= "backend="@);
    assert(l.skip(8) =~= m.backend);
    text::lemma_trim_trimmed(m.backend);
}

proof fn lemma_apply_line6(x: ConfigModel, m: ConfigModel)
    requires
        clean_model(m),
    ensures
        apply_line(x, format_lines(m)[5]) == (ConfigModel { active_discord_fake: m.active_discord_fake, ..x }),
{
    reveal_strlit("interface=");
    reveal_strlit("strategy=");
    reveal_strlit("gamefiltertcp=true");
    reveal_strlit("gamefilterudp=true");
    reveal_strlit("backend=");
    reveal_strlit("active_discord_fake=");
    lemma_line_shape("active_discord_fake="@, m.active_discord_fake);
    let l = format_lines(m)[5];
    assert(l[0] != "interface="@[0]);
    assert(l[0] != "strategy="@[0]);
    assert(l[0] != "gamefiltertcp=true"@[0]);
    assert(l[0] != "gamefilterudp=true"@[0]);
    assert(l[0] != "backend="@[0]);
    assert(l.take(20) =~= "active_discord_fake="@);
    assert(l.skip(20) =~= m.active_discord_fake);
    text::lemma_trim_trimmed(m.active_discord_fake);
}

proof fn lemma_apply_line7(x: ConfigModel, m: ConfigModel)
    requires
        clean_model(m),
    ensures
        apply_line(x, format_lines(m)[6]) == (ConfigModel { active_gamefilter_fake: m.active_gamefilter_fake, ..x }),
{
    reveal_strlit("interface=");
    reveal_strlit("strategy=");
    reveal_strlit("gamefiltertcp=true");
    reveal_strlit("gamefilterudp=true");
    reveal_strlit("backend=");
    reveal_strlit("active_discord_fake=");
    reveal_strlit("active_gamefilter_fake=");
    lemma_line_shape("active_gamefilter_fake="@, m.active_gamefilter_fake);
    let l = format_lines(m)[6];
    assert(l[0] != "interface="@[0]);
    assert(l[0] != "strategy="@[0]);
    assert(l[0] != "gamefiltertcp=true"@[0]);
    assert(l[0] != "gamefilterudp=true"@[0]);
    assert(l[0] != "backend="@[0]);
    assert(l[7] != "active_discord_fake="@[7]);
    assert(l.take(23) =~= "active_gamefilter_fake="@);
    assert(l.skip(23) =~= m.active_gamefilter_fake);
    text::lemma_trim_trimmed(m.active_gamefilter_fake);
}

/// Reading back what [`format_config`] wrote gives the same configuration,
/// provided every text value is one trimmed line.
pub proof fn lemma_format_parse_roundtrip(m: ConfigModel)
    requires
        clean_model(m),
    ensures
        parse_model(format_model(m)) == m,
{
    lemma_format_lines(m);
    let ls = format_lines(m);
    let f = |mm: ConfigModel, l: Seq<char>| apply_line(mm, l);
    let d = default_model();
    let m1 = apply_line(d, ls[0]);
    let m2 = apply_line(m1, ls[1]);
    let m3 = apply_line(m2, ls[2]);
    let m4 = apply_line(m3, ls[3]);
    let m5 = apply_line(m4, ls[4]);
    let m6 = apply_line(m5, ls[5]);
    let m7 = apply_line(m6, ls[6]);
    lemma_apply_line1(d, m);
    lemma_apply_line2(m1, m);
    lemma_apply_line3(m2, m);
    lemma_apply_line4(m3, m);
    lemma_apply_line5(m4, m);
    lemma_apply_line6(m5, m);
    lemma_apply_line7(m6, m);
    assert(ls.take(0).fold_left(d, f) == d);
    assert(ls.take(1).drop_last() =~= ls.take(0));
    assert(ls.take(2).drop_last() =~= ls.take(1));
    assert(ls.take(3).drop_last() =~= ls.take(2));
    assert(ls.take(4).drop_last() =~= ls.take(3));
    assert(ls.take(5).drop_last() =~= ls.take(4));
    assert(ls.take(6).drop_last() =~= ls.take(5));
    assert(ls.take(7).drop_last() =~= ls.take(6));
    assert(ls.take(1).fold_left(d, f) == m1);
    assert(ls.take(2).fold_left(d, f) == m2);
    assert(ls.take(3).fold_left(d, f) == m3);
    assert(ls.take(4).fold_left(d, f) == m4);
    assert(ls.take(5).fold_left(d, f) == m5);
    assert(ls.take(6).fold_left(d, f) == m6);
    assert(ls.take(7).fold_left(d, f) == m7);
    assert(ls.take(7) =~= ls);
    assert(m7 == m);
}

fn value_after(line: &[char], key: &[char]) -> (v: String)
    requires
        key@.len() <= line@.len(),
    ensures
        v@ == text::trim(line@.skip(key@.len() as int)),
{
    let rest = slice_chars(line, key.len(), line.len());
    assert(rest@ =~= line@.skip(key@.len() as int));
    let t = trim_chars(&rest);
    from_chars(&t)
}

/// Parses the text of a `key=value` config file (the reading half of `load_config`).
pub fn parse_config(content: &str) -> (cfg: RunConfig)
    ensures
        cfg@ == parse_model(content@),
{
    let chars = to_chars(content);
    let ls = split_lines(&chars);
    let k_iface = to_chars("interface=");
    let k_strat = to_chars("strategy=");
    let l_tcp = to_chars("gamefiltertcp=true");
    let l_udp = to_chars("gamefilterudp=true");
    let k_backend = to_chars("backend=");
    let k_discord = to_chars("active_discord_fake=");
    let k_game = to_chars("active_gamefilter_fake=");
    let mut cfg = RunConfig::default();
    let ghost all = ls.deep_view();
    let mut i: usize = 0;
    while i < ls.len()
        invariant
            i <= ls@.len(),
            all == ls.deep_view(),
            all == text::lines(content@),
            k_iface@ == "interface="@,
            k_strat@ == "strategy="@,
            l_tcp@ == "gamefiltertcp=true"@,
            l_udp@ == "gamefilterudp=true"@,
            k_backend@ == "backend="@,
            k_discord@ == "active_discord_fake="@,
            k_game@ == "active_gamefilter_fake="@,
            cfg@ == all.take(i as int).fold_left(
                default_model(),
                |m: ConfigModel, l: Seq<char>| apply_line(m, l),
            ),
        decreases ls.len() - i,
    {
        let ghost before = cfg@;
        proof {
            assert(ls[i as int].deep_view() =~= ls[i as int]@);
            assert(all[i as int] == ls[i as int]@);
        }
        let line = trim_chars(&ls[i]);
        if has_prefix(&line, &k_iface) {
            cfg.interface = value_after(&line, &k_iface);
        } else if has_prefix(&line, &k_strat) {
            cfg.strategy = value_after(&line, &k_strat);
        } else if eq_chars(&line, &l_tcp) {
            cfg.gamefilter_tcp = true;
        } else if eq_chars(&line, &l_udp) {
            cfg.gamefilter_udp = true;
        } else if has_prefix(&line, &k_backend) {
            cfg.backend = value_after(&line, &k_backend);
        } else if has_prefix(&line, &k_discord) {
            cfg.active_discord_fake = value_after(&line, &k_discord);
        } else if has_prefix(&line, &k_game) {
            cfg.active_gamefilter_fake = value_after(&line, &k_game);
        }
        proof {
            assert(cfg@ == apply_line(before, all[i as int]));
            assert(all.take(i + 1).drop_last() =~= all.take(i as int));
            assert(all.take(i + 1).last() == all[i as int]);
        }
        i += 1;
    }
    proof {
        assert(all.take(ls@.len() as int) =~= all);
    }
    cfg
}

/// The text of the config file for `cfg` (the writing half of `save_config`).
pub fn format_config(cfg: &RunConfig) -> (s: String)
    ensures
        s@ == format_model(cfg@),
{
    let mut ls: Vec<Vec<char>> = Vec::new();
    ls.push(key_value("interface=", cfg.interface.as_str()));
    ls.push(key_value("strategy=", cfg.strategy.as_str()));
    ls.push(key_value("gamefiltertcp=", if cfg.gamefilter_tcp { "true" } else { "false" }));
    ls.push(key_value("gamefilterudp=", if cfg.gamefilter_udp { "true" } else { "false" }));
    ls.push(key_value("backend=", cfg.backend.as_str()));
    ls.push(key_value("active_discord_fake=", cfg.active_discord_fake.as_str()));
    ls.push(key_value("active_gamefilter_fake=", cfg.active_gamefilter_fake.as_str()));
    proof {
        assert forall|i: int| 0 <= i < 7 implies ls@[i].deep_view() =~= ls@[i]@ by {}
        assert(ls.deep_view() =~= format_lines(cfg@));
    }
    let v = terminated_chars(&ls);
    from_chars(&v)
}

/// A config text is clean after being read: every value read from a file is a
/// trimmed single line, and so are the defaults.
pub proof fn lemma_parse_clean(content: Seq<char>)
    ensures
        clean_model(parse_model(content)),
{
    reveal_strlit("any");
    reveal_strlit("nftables");
    reveal_strlit("quic_initial_steamcommunity_com.bin");
    reveal_strlit("quic_initial_4pda.to.bin");
    let d = default_model();
    assert(clean_value(d.strategy));
    assert(clean_value(d.interface)) by {
        assert forall|i: int| 0 <= i < d.interface.len() implies d.interface[i] != '\n' by {}
    }
    assert(clean_value(d.backend)) by {
        assert forall|i: int| 0 <= i < d.backend.len() implies d.backend[i] != '\n' by {}
    }
    assert(clean_value(d.active_discord_fake)) by {
        let v = d.active_discord_fake;
        assert forall|i: int| 0 <= i < v.len() implies v[i] != '\n' by {}
    }
    assert(clean_value(d.active_gamefilter_fake)) by {
        let v = d.active_gamefilter_fake;
        assert forall|i: int| 0 <= i < v.len() implies v[i] != '\n' by {}
    }
    let ls = text::lines(content);
    text::lemma_lines_no_newline(content);
    lemma_fold_clean(ls, ls.len() as int);
    assert(ls.take(ls.len() as int) =~= ls);
}

proof fn lemma_skip_no_newline(l: Seq<char>, k: int)
    requires
        !text::has_char(l, '\n'),
        0 <= k <= l.len(),
    ensures
        !text::has_char(l.skip(k), '\n'),
{
    assert forall|j: int| 0 <= j < l.skip(k).len() implies l.skip(k)[j] != '\n' by {
        assert(l.skip(k)[j] == l[j + k]);
    }
}

proof fn lemma_apply_clean(m: ConfigModel, raw: Seq<char>)
    requires
        clean_model(m),
        !text::has_char(raw, '\n'),
    ensures
        clean_model(apply_line(m, raw)),
{
    let line = text::trim(raw);
    text::lemma_trim_clean(raw);
    if line.len() >= 8 {
        lemma_skip_no_newline(line, 8);
        text::lemma_trim_clean(line.skip(8));
    }
    if line.len() >= 9 {
        lemma_skip_no_newline(line, 9);
        text::lemma_trim_clean(line.skip(9));
    }
    if line.len() >= 10 {
        lemma_skip_no_newline(line, 10);
        text::lemma_trim_clean(line.skip(10));
    }
    if line.len() >= 20 {
        lemma_skip_no_newline(line, 20);
        text::lemma_trim_clean(line.skip(20));
    }
    if line.len() >= 23 {
        lemma_skip_no_newline(line, 23);
        text::lemma_trim_clean(line.skip(23));
    }
    reveal_strlit("interface=");
    reveal_strlit("strategy=");
    reveal_strlit("backend=");
    reveal_strlit("active_discord_fake=");
    reveal_strlit("active_gamefilter_fake=");
}

proof fn lemma_fold_clean(ls: Seq<Seq<char>>, n: int)
    requires
        0 <= n <= ls.len(),
        forall|i: int| 0 <= i < ls.len() ==> !text::has_char(#[trigger] ls[i], '\n'),
        clean_model(default_model()),
    ensures
        clean_model(
            ls.take(n).fold_left(default_model(), |m: ConfigModel, l: Seq<char>| apply_line(m, l)),
        ),
    decreases n,
{
    if n > 0 {
        lemma_fold_clean(ls, n - 1);
        assert(ls.take(n).drop_last() =~= ls.take(n - 1));
        assert(ls.take(n).last() == ls[n - 1]);
        lemma_apply_clean(
            ls.take(n - 1).fold_left(default_model(), |m: ConfigModel, l: Seq<char>| apply_line(m, l)),
            ls[n - 1],
        );
    }
}

/// The configuration a config file gives, or the defaults when it could not be read.
pub open spec fn existing_model(existing: Option<Seq<char>>) -> ConfigModel {
    match existing {
        Some(c) => parse_model(c),
        None => default_model(),
    }
}

fn existing_config(existing: Option<&str>) -> (cfg: RunConfig)
    ensures
        cfg@ == existing_model(
            match existing {
                Some(c) => Some(c@),
                None => None,
            },
        ),
{
    match existing {
        Some(c) => parse_config(c),
        None => RunConfig::default(),
    }
}

/// The path of the config file inside the cache directory.
pub fn config_path(cache_dir: &str) -> (p: String)
    ensures
        p@ == text::path_join(cache_dir@, "conf.env"@),
{
    join_path(cache_dir, "conf.env")
}

/// The new text of the config file after the TUI selections are saved into it;
/// `existing` is its current text (`None` when it could not be read).
pub fn save_tui_state(
    existing: Option<&str>,
    interface: &str,
    strategy: &str,
    tcp: bool,
    udp: bool,
    backend: &str,
) -> (s: String)
    ensures
        s@ == format_model(
            ConfigModel {
                interface: interface@,
                strategy: strategy@,
                gamefilter_tcp: tcp,
                gamefilter_udp: udp,
                backend: backend@,
                ..existing_model(
                    match existing {
                        Some(c) => Some(c@),
                        None => None,
                    },
                )
            },
        ),
{
    let mut cfg = existing_config(existing);
    cfg.interface = String::from_str(interface);
    cfg.strategy = String::from_str(strategy);
    cfg.gamefilter_tcp = tcp;
    cfg.gamefilter_udp = udp;
    cfg.backend = String::from_str(backend);
    format_config(&cfg)
}

/// The active fake files named by the config file text (the defaults when it
/// could not be read).
pub fn load_active_fakes(existing: Option<&str>) -> (r: (String, String))
    ensures
        r.0@ == existing_model(
            match existing {
                Some(c) => Some(c@),
                None => None,
            },
        ).active_discord_fake,
        r.1@ == existing_model(
            match existing {
                Some(c) => Some(c@),
                None => None,
            },
        ).active_gamefilter_fake,
{
    let cfg = existing_config(existing);
    (cfg.active_discord_fake, cfg.active_gamefilter_fake)
}

/// The new text of the config file with the active fake files replaced.
pub fn save_active_fakes(existing: Option<&str>, discord: &str, game: &str) -> (s: String)
    ensures
        s@ == format_model(
            ConfigModel {
                active_discord_fake: discord@,
                active_gamefilter_fake: game@,
                ..existing_model(
                    match existing {
                        Some(c) => Some(c@),
                        None => None,
                    },
                )
            },
        ),
{
    let mut cfg = existing_config(existing);
    cfg.active_discord_fake = String::from_str(discord);
    cfg.active_gamefilter_fake = String::from_str(game);
    format_config(&cfg)
}

/// What the TUI saves is what the next read of the config file finds, for
/// values that are trimmed single lines; the other settings are kept.
pub proof fn lemma_save_tui_state_then_load(
    existing: Option<Seq<char>>,
    interface: Seq<char>,
    strategy: Seq<char>,
    tcp: bool,
    udp: bool,
    backend: Seq<char>,
)
    requires
        clean_value(interface),
        clean_value(strategy),
        clean_value(backend),
    ensures
        parse_model(
            format_model(
                ConfigModel {
                    interface,
                    strategy,
                    gamefilter_tcp: tcp,
                    gamefilter_udp: udp,
                    backend,
                    ..existing_model(existing)
                },
            ),
        ) == (ConfigModel {
            interface,
            strategy,
            gamefilter_tcp: tcp,
            gamefilter_udp: udp,
            backend,
            ..existing_model(existing)
        }),
{
    match existing {
        Some(c) => lemma_parse_clean(c),
        None => lemma_parse_clean(Seq::empty()),
    }
    if existing is None {
        assert(text::lines(Seq::<char>::empty()) =~= Seq::<Seq<char>>::empty());
        assert(parse_model(Seq::empty()) == default_model());
    }
    lemma_format_parse_roundtrip(
        ConfigModel {
            interface,
            strategy,
            gamefilter_tcp: tcp,
            gamefilter_udp: udp,
            backend,
            ..existing_model(existing)
        },
    );
}

/// The fake files saved are the ones loaded next, for trimmed single-line names.
pub proof fn lemma_save_active_fakes_then_load(
    existing: Option<Seq<char>>,
    discord: Seq<char>,
    game: Seq<char>,
)
    requires
        clean_value(discord),
        clean_value(game),
    ensures
        parse_model(
            format_model(
                ConfigModel {
                    active_discord_fake: discord,
                    active_gamefilter_fake: game,
                    ..existing_model(existing)
                },
            ),
        ).active_discord_fake == discord,
        parse_model(
            format_model(
                ConfigModel {
                    active_discord_fake: discord,
                    active_gamefilter_fake: game,
                    ..existing_model(existing)
                },
            ),
        ).active_gamefilter_fake == game,
{
    match existing {
        Some(c) => lemma_parse_clean(c),
        None => lemma_parse_clean(Seq::empty()),
    }
    if existing is None {
        assert(text::lines(Seq::<char>::empty()) =~= Seq::<Seq<char>>::empty());
        assert(parse_model(Seq::empty()) == default_model());
    }
    lemma_format_parse_roundtrip(
        ConfigModel {
            active_discord_fake: discord,
            active_gamefilter_fake: game,
            ..existing_model(existing)
        },
    );
}

/// The key of a config line: the trimmed line up to its first `=`; none
/// for a line without one.
pub open spec fn line_key(l: Seq<char>) -> Option<Seq<char>> {
    let t = text::trim(l);
    let k = text::find_from(t, '=', 0);
    if k < t.len() {
        Some(t.take(k))
    } else {
        None
    }
}

/// Whether some line of a config text has the key.
pub open spec fn has_key(content: Seq<char>, key: Seq<char>) -> bool {
    exists|i: int| 0 <= i < text::lines(content).len() && #[trigger] line_key(text::lines(content)[i]) == Some(key)
}

/// The keys of the config, in the order of [`default_lines`].
pub open spec fn default_keys() -> Seq<Seq<char>> {
    seq![
        "interface"@,
        "strategy"@,
        "gamefiltertcp"@,
        "gamefilterudp"@,
        "backend"@,
        "active_discord_fake"@,
        "active_gamefilter_fake"@,
    ]
}

/// The line that stands for each key where a config lacks it.
pub open spec fn default_lines() -> Seq<Seq<char>> {
    seq![
        "interface=any"@,
        "strategy="@,
        "gamefiltertcp=false"@,
        "gamefilterudp=false"@,
        "backend=nftables"@,
        "active_discord_fake=quic_initial_steamcommunity_com.bin"@,
        "active_gamefilter_fake=quic_initial_4pda.to.bin"@,
    ]
}

/// The default lines, among the first `n`, whose key the text lacks.
pub open spec fn missing_lines(content: Seq<char>, n: nat) -> Seq<Seq<char>>
    decreases n,
{
    if n == 0 {
        seq![]
    } else {
        let rest = missing_lines(content, (n - 1) as nat);
        if has_key(content, default_keys()[n - 1]) {
            rest
        } else {
            rest.push(default_lines()[n - 1])
        }
    }
}

/// The text with the missing default lines added at its end (after a
/// newline, where it does not end with one).
pub open spec fn with_missing(content: Seq<char>) -> Seq<char> {
    let m = missing_lines(content, 7);
    if m.len() == 0 {
        content
    } else {
        (if text::ends_with(content, "\n"@) {
            content
        } else {
            content + "\n"@
        }) + text::terminated(m)
    }
}

proof fn lemma_default_line(n: int)
    requires
        0 <= n < 7,
    ensures
        line_key(default_lines()[n]) == Some(default_keys()[n]),
        !text::has_char(default_lines()[n], '\n'),
        text::strip_cr(default_lines()[n]) == default_lines()[n],
{
    reveal_strlit("interface");
    reveal_strlit("strategy");
    reveal_strlit("gamefiltertcp");
    reveal_strlit("gamefilterudp");
    reveal_strlit("backend");
    reveal_strlit("active_discord_fake");
    reveal_strlit("active_gamefilter_fake");
    reveal_strlit("interface=any");
    reveal_strlit("strategy=");
    reveal_strlit("gamefiltertcp=false");
    reveal_strlit("gamefilterudp=false");
    reveal_strlit("backend=nftables");
    reveal_strlit("active_discord_fake=quic_initial_steamcommunity_com.bin");
    reveal_strlit("active_gamefilter_fake=quic_initial_4pda.to.bin");
    let l = default_lines()[n];
    let k = default_keys()[n];
    assert(l.len() > 0 && !text::is_ws(l[0]) && !text::is_ws(l.last()));
    text::lemma_trim_trimmed(l);
    assert(k.len() < l.len() && l[k.len() as int] == '=');
    assert forall|m: int| 0 <= m < k.len() implies l[m] != '=' && l[m] == k[m] by {}
    text::lemma_find_from_is(l, '=', 0, k.len() as int);
    assert(l.take(k.len() as int) =~= k);
    assert forall|m: int| 0 <= m < l.len() implies l[m] != '\n' by {}
}

proof fn lemma_missing_lines(content: Seq<char>, n: nat)
    requires
        n <= 7,
    ensures
        forall|j: int|
            0 <= j < n && !has_key(content, default_keys()[j]) ==> missing_lines(content, n).contains(
                #[trigger] default_lines()[j],
            ),
        missing_lines(content, n).len() == 0 ==> forall|j: int|
            0 <= j < n ==> has_key(content, #[trigger] default_keys()[j]),
        forall|i: int|
            0 <= i < missing_lines(content, n).len() ==> !text::has_char(
                #[trigger] missing_lines(content, n)[i],
                '\n',
            ) && text::strip_cr(missing_lines(content, n)[i]) == missing_lines(content, n)[i],
    decreases n,
{
    if n > 0 {
        let rest = missing_lines(content, (n - 1) as nat);
        lemma_missing_lines(content, (n - 1) as nat);
        lemma_default_line(n - 1);
        let m = missing_lines(content, n);
        if !has_key(content, default_keys()[n - 1]) {
            assert(m == rest.push(default_lines()[n - 1]));
            assert(m[rest.len() as int] == default_lines()[n - 1]);
            assert forall|j: int|
                0 <= j < n && !has_key(content, default_keys()[j]) implies m.contains(
                #[trigger] default_lines()[j],
            ) by {
                if j < n - 1 {
                    let i = choose|i: int| 0 <= i < rest.len() && rest[i] == default_lines()[j];
                    assert(m[i] == rest[i]);
                }
            }
            assert forall|i: int| 0 <= i < m.len() implies !text::has_char(#[trigger] m[i], '\n')
                && text::strip_cr(m[i]) == m[i] by {
                if i < rest.len() {
                    assert(m[i] == rest[i]);
                }
            }
        }
    }
}

/// Adding the missing default lines leaves no key of the default
/// configuration missing: afterwards every one of them is in the text.
pub proof fn lemma_missing_keys_added(content: Seq<char>)
    ensures
        forall|n: int| 0 <= n < 7 ==> has_key(with_missing(content), #[trigger] default_keys()[n]),
{
    let m = missing_lines(content, 7);
    lemma_missing_lines(content, 7);
    if m.len() > 0 {
        reveal_strlit("\n");
        let base = if text::ends_with(content, "\n"@) {
            content
        } else {
            content + "\n"@
        };
        assert(with_missing(content) == base + text::terminated(m));
        assert(base.len() > 0 && base.last() == '\n') by {
            if text::ends_with(content, "\n"@) {
                assert(content.skip(content.len() - 1)[0] == content.last());
            }
        }
        text::lemma_lines_append(base, text::terminated(m));
        text::lemma_lines_terminated(m);
        let all = text::lines(with_missing(content));
        assert(all == text::lines(base) + m);
        assert forall|n: int| 0 <= n < 7 implies has_key(with_missing(content), #[trigger] default_keys()[n]) by {
            let k = default_keys()[n];
            if has_key(content, k) {
                let i = choose|i: int|
                    0 <= i < text::lines(content).len() && #[trigger] line_key(text::lines(content)[i]) == Some(k);
                if !text::ends_with(content, "\n"@) {
                    assert(content.len() > 0);
                    assert(content.last() != '\n') by {
                        if content.last() == '\n' {
                            assert(content.skip(content.len() - 1) =~= "\n"@);
                        }
                    }
                    assert(base =~= content + seq!['\n']);
                    text::lemma_lines_newline(content);
                    let l = text::lines(content)[i];
                    if l.len() > 0 && l.last() == '\r' {
                        assert(l.drop_last().push('\r') =~= l);
                        text::lemma_trim_push_ws(l.drop_last(), '\r');
                    }
                    assert(line_key(text::strip_cr(l)) == line_key(l));
                    assert(line_key(text::lines(base)[i]) == Some(k));
                }
                assert(all[i] == text::lines(base)[i]);
                assert(line_key(all[i]) == Some(k));
            } else {
                lemma_default_line(n);
                assert(m.contains(default_lines()[n]));
                let j = choose|j: int| 0 <= j < m.len() && m[j] == default_lines()[n];
                let at = text::lines(base).len() + j;
                assert(all[at] == m[j]);
                assert(line_key(all[at]) == Some(k));
            }
        }
    }
}

/// A setting's prefix as the fill step searches for it: a key without `=`
/// and then `=`, with no newline.
pub open spec fn setting_prefix(p: Seq<char>) -> bool {
    &&& p.len() > 0
    &&& p.last() == '='
    &&& !text::has_char(p.drop_last(), '=')
    &&& !text::has_char(p, '\n')
}

/// Replacing a setting prefix by itself and more keeps the position of the
/// first `=` and what stands before it.
proof fn lemma_replace_first_eq(l: Seq<char>, p: Seq<char>, r: Seq<char>)
    requires
        setting_prefix(p),
        text::starts_with(r, p),
    ensures
        text::find_from(l, '=', 0) < l.len() ==> {
            let e = text::find_from(l, '=', 0);
            &&& text::find_from(text::replace_all(l, p, r), '=', 0) == e
            &&& e < text::replace_all(l, p, r).len()
            &&& text::replace_all(l, p, r).take(e) == l.take(e)
        },
        text::find_from(l, '=', 0) >= l.len() ==> text::replace_all(l, p, r) == l,
    decreases l.len(),
{
    text::lemma_find_from(l, '=', 0);
    let q = text::replace_all(l, p, r);
    if l.len() == 0 {
    } else if text::starts_with(l, p) {
        let kl = p.len() - 1;
        assert(r.take(p.len() as int) == p);
        assert(l.take(p.len() as int) == p);
        assert forall|m: int| 0 <= m < kl implies l[m] != '=' by {
            assert(l[m] == l.take(p.len() as int)[m]);
            assert(p[m] == p.drop_last()[m]);
        }
        assert(l[kl] == l.take(p.len() as int)[kl]);
        text::lemma_find_from_is(l, '=', 0, kl);
        let rest = text::replace_all(l.skip(p.len() as int), p, r);
        assert(q == r + rest);
        assert forall|m: int| 0 <= m < kl implies q[m] != '=' by {
            assert(q[m] == r[m]);
            assert(r[m] == r.take(p.len() as int)[m]);
            assert(p[m] == p.drop_last()[m]);
        }
        assert(q[kl] == r[kl]);
        assert(r[kl] == r.take(p.len() as int)[kl]);
        text::lemma_find_from_is(q, '=', 0, kl);
        assert forall|m: int| 0 <= m < kl implies #[trigger] q.take(kl)[m] == l.take(kl)[m] by {
            assert(q[m] == r[m]);
            assert(r[m] == r.take(p.len() as int)[m]);
            assert(l[m] == l.take(p.len() as int)[m]);
        }
        assert(q.take(kl) =~= l.take(kl));
    } else if l[0] == '=' {
        assert(q == seq![l[0]] + text::replace_all(l.drop_first(), p, r));
        assert(q[0] == '=');
        text::lemma_find_from_is(q, '=', 0, 0);
        assert(q.take(0) =~= l.take(0));
    } else {
        let d = l.drop_first();
        let qd = text::replace_all(d, p, r);
        lemma_replace_first_eq(d, p, r);
        text::lemma_find_from(d, '=', 0);
        assert(q == seq![l[0]] + qd);
        let ed = text::find_from(d, '=', 0);
        assert forall|m: int| 0 <= m < ed + 1 && m < l.len() implies l[m] != '=' by {
            if m > 0 {
                assert(l[m] == d[m - 1]);
            }
        }
        if ed < d.len() {
            assert(l[ed + 1] == d[ed]);
            text::lemma_find_from_is(l, '=', 0, ed + 1);
            text::lemma_find_from(qd, '=', 0);
            assert forall|m: int| 0 <= m < ed + 1 implies q[m] != '=' by {
                if m > 0 {
                    assert(q[m] == qd[m - 1]);
                }
            }
            assert(q[ed + 1] == qd[ed]);
            text::lemma_find_from_is(q, '=', 0, ed + 1);
            assert forall|m: int| 0 <= m < ed + 1 implies #[trigger] q.take(ed + 1)[m] == l.take(ed + 1)[m] by {
                if m > 0 {
                    assert(q[m] == qd[m - 1]);
                    assert(qd[m - 1] == qd.take(ed)[m - 1]);
                    assert(l[m] == d[m - 1]);
                    assert(d[m - 1] == d.take(ed)[m - 1]);
                }
            }
            assert(q.take(ed + 1) =~= l.take(ed + 1));
        } else {
            text::lemma_find_from_is(l, '=', 0, l.len() as int);
            assert(q =~= l);
        }
    }
}

proof fn lemma_trim_start_upto(l: Seq<char>, e: int)
    requires
        0 <= e < l.len(),
        !text::is_ws(l[e]),
    ensures
        exists|s: int| 0 <= s <= e && text::trim_start(l) == l.skip(s) && text::trim_start(l.take(e)) == l.take(e).skip(s),
    decreases l.len(),
{
    if text::is_ws(l[0]) {
        let d = l.drop_first();
        lemma_trim_start_upto(d, e - 1);
        let s = choose|s: int| 0 <= s <= e - 1 && text::trim_start(d) == d.skip(s) && text::trim_start(d.take(e - 1)) == d.take(e - 1).skip(s);
        assert(d.skip(s) =~= l.skip(s + 1));
        assert(l.take(e).drop_first() =~= d.take(e - 1));
        assert(d.take(e - 1).skip(s) =~= l.take(e).skip(s + 1));
        assert(text::trim_start(l.take(e)) == text::trim_start(l.take(e).drop_first()));
    } else {
        assert(l.skip(0) =~= l);
        assert(l.take(e).skip(0) =~= l.take(e));
        if e > 0 {
            assert(l.take(e)[0] == l[0]);
        }
    }
}

proof fn lemma_trim_end_past(x: Seq<char>, i: int)
    requires
        0 <= i < x.len(),
        !text::is_ws(x[i]),
    ensures
        exists|t: int| i < t <= x.len() && text::trim_end(x) == x.take(t),
    decreases x.len(),
{
    if text::is_ws(x.last()) {
        lemma_trim_end_past(x.drop_last(), i);
        let t = choose|t: int| i < t <= x.drop_last().len() && text::trim_end(x.drop_last()) == x.drop_last().take(t);
        assert(x.drop_last().take(t) =~= x.take(t));
    } else {
        assert(x.take(x.len() as int) =~= x);
    }
}

/// The key of a line is what stands before its first `=`, less leading
/// whitespace.
proof fn lemma_line_key_untrimmed(l: Seq<char>)
    ensures
        line_key(l) == (if text::find_from(l, '=', 0) < l.len() {
            Some(text::trim_start(l.take(text::find_from(l, '=', 0))))
        } else {
            None
        }),
{
    let e = text::find_from(l, '=', 0);
    text::lemma_find_from(l, '=', 0);
    if e < l.len() {
        lemma_trim_start_upto(l, e);
        let s = choose|s: int| 0 <= s <= e && text::trim_start(l) == l.skip(s) && text::trim_start(l.take(e)) == l.take(e).skip(s);
        let x = l.skip(s);
        assert(x[e - s] == l[e]);
        lemma_trim_end_past(x, e - s);
        let t = choose|t: int| e - s < t <= x.len() && text::trim_end(x) == x.take(t);
        let tt = x.take(t);
        assert(text::trim(l) == tt);
        assert forall|m: int| 0 <= m < e - s implies tt[m] != '=' by {
            assert(tt[m] == l[s + m]);
        }
        assert(tt[e - s] == l[e]);
        text::lemma_find_from_is(tt, '=', 0, e - s);
        assert(tt.take(e - s) =~= l.take(e).skip(s));
    } else {
        text::lemma_trim_start_sub(l);
        let a = choose|k: int| 0 <= k <= l.len() && text::trim_start(l) == l.skip(k);
        text::lemma_trim_end_sub(l.skip(a));
        let b = choose|k: int| 0 <= k <= l.skip(a).len() && text::trim_end(l.skip(a)) == l.skip(a).take(k);
        let tt = l.skip(a).take(b);
        assert(text::trim(l) == tt);
        assert forall|m: int| 0 <= m < tt.len() implies tt[m] != '=' by {
            assert(tt[m] == l[a + m]);
        }
        text::lemma_find_from_is(tt, '=', 0, tt.len() as int);
    }
}

proof fn lemma_replace_line_key(l: Seq<char>, p: Seq<char>, r: Seq<char>)
    requires
        setting_prefix(p),
        text::starts_with(r, p),
    ensures
        line_key(text::replace_all(l, p, r)) == line_key(l),
{
    lemma_replace_first_eq(l, p, r);
    lemma_line_key_untrimmed(l);
    lemma_line_key_untrimmed(text::replace_all(l, p, r));
}

proof fn lemma_strip_cr_key(l: Seq<char>)
    ensures
        line_key(text::strip_cr(l)) == line_key(l),
{
    if l.len() > 0 && l.last() == '\r' {
        assert(l.drop_last().push('\r') =~= l);
        text::lemma_trim_push_ws(l.drop_last(), '\r');
    }
}

/// Replacing a setting prefix keeps the lines and the key of each.
proof fn lemma_replace_keys(c: Seq<char>, p: Seq<char>, r: Seq<char>)
    requires
        setting_prefix(p),
        text::starts_with(r, p),
        !text::has_char(r, '\n'),
    ensures
        text::lines(text::replace_all(c, p, r)).len() == text::lines(c).len(),
        forall|i: int|
            0 <= i < text::lines(c).len() ==> line_key(#[trigger] text::lines(text::replace_all(c, p, r))[i])
                == line_key(text::lines(c)[i]),
    decreases c.len(),
{
    let q = text::replace_all(c, p, r);
    assert(r.len() > 0) by {
        assert(r.take(p.len() as int) == p);
    }
    if c.len() > 0 {
        let k = text::find_from(c, '\n', 0);
        text::lemma_find_from(c, '\n', 0);
        if k >= c.len() {
            text::lemma_replace_no_char(c, p, r, '\n');
            text::lemma_find_from_is(q, '\n', 0, q.len() as int);
            assert(text::lines(q) == seq![q]);
            assert(text::lines(c) == seq![c]);
            lemma_replace_line_key(c, p, r);
        } else {
            let head = c.take(k);
            let tail = c.skip(k + 1);
            assert(c =~= head + seq!['\n'] + tail);
            text::lemma_replace_split(head, '\n', tail, p, r);
            text::lemma_replace_no_char(head, p, r, '\n');
            let rh = text::replace_all(head, p, r);
            let rt = text::replace_all(tail, p, r);
            text::lemma_lines_cons(rh, rt);
            text::lemma_lines_cons(head, tail);
            lemma_replace_keys(tail, p, r);
            lemma_replace_line_key(head, p, r);
            lemma_strip_cr_key(head);
            lemma_strip_cr_key(rh);
            assert(text::lines(q) == seq![text::strip_cr(rh)] + text::lines(rt));
            assert(text::lines(c) == seq![text::strip_cr(head)] + text::lines(tail));
            assert forall|i: int| 0 <= i < text::lines(c).len() implies line_key(
                #[trigger] text::lines(q)[i],
            ) == line_key(text::lines(c)[i]) by {
                if i > 0 {
                    assert(text::lines(q)[i] == text::lines(rt)[i - 1]);
                    assert(text::lines(c)[i] == text::lines(tail)[i - 1]);
                }
            }
        }
    }
}

/// Filling an empty setting keeps every key of the text.
proof fn lemma_filled_keeps_keys(c: Seq<char>, key: Seq<char>, value: Seq<char>, k: Seq<char>)
    requires
        setting_prefix(key),
        !text::has_char(value, '\n'),
        has_key(c, k),
    ensures
        has_key(filled(c, key, value), k),
{
    if has_empty(c, key) {
        let r = key + value;
        assert(r.take(key.len() as int) =~= key);
        assert forall|m: int| 0 <= m < r.len() implies r[m] != '\n' by {
            if m >= key.len() {
                assert(r[m] == value[m - key.len()]);
            }
        }
        lemma_replace_keys(c, key, r);
        let i = choose|i: int| 0 <= i < text::lines(c).len() && #[trigger] line_key(text::lines(c)[i]) == Some(k);
        assert(line_key(text::lines(filled(c, key, value))[i]) == Some(k));
    }
}

/// After validation every key of the default configuration is in the text:
/// the missing ones are added, and filling the empty fake settings removes
/// none.
pub proof fn lemma_validated_has_all_keys(content: Seq<char>)
    ensures
        forall|n: int| 0 <= n < 7 ==> has_key(validated(content), #[trigger] default_keys()[n]),
{
    lemma_missing_keys_added(content);
    let p1 = "active_discord_fake="@;
    let v1 = "quic_initial_steamcommunity_com.bin"@;
    let p2 = "active_gamefilter_fake="@;
    let v2 = "quic_initial_4pda.to.bin"@;
    reveal_strlit("active_discord_fake=");
    reveal_strlit("quic_initial_steamcommunity_com.bin");
    reveal_strlit("active_gamefilter_fake=");
    reveal_strlit("quic_initial_4pda.to.bin");
    assert forall|m: int| 0 <= m < p1.drop_last().len() implies p1.drop_last()[m] != '=' by {}
    assert forall|m: int| 0 <= m < p2.drop_last().len() implies p2.drop_last()[m] != '=' by {}
    assert forall|m: int| 0 <= m < p1.len() implies p1[m] != '\n' by {}
    assert forall|m: int| 0 <= m < p2.len() implies p2[m] != '\n' by {}
    assert forall|m: int| 0 <= m < v1.len() implies v1[m] != '\n' by {}
    assert forall|m: int| 0 <= m < v2.len() implies v2[m] != '\n' by {}
    assert(setting_prefix(p1));
    assert(setting_prefix(p2));
    let a = with_missing(content);
    let b = filled(a, p1, v1);
    assert forall|n: int| 0 <= n < 7 implies has_key(validated(content), #[trigger] default_keys()[n]) by {
        let k = default_keys()[n];
        lemma_filled_keeps_keys(a, p1, v1, k);
        lemma_filled_keeps_keys(b, p2, v2, k);
    }
}

/// Whether some line of the text, trimmed, is `key` with nothing after it.
pub open spec fn has_empty(content: Seq<char>, key: Seq<char>) -> bool {
    exists|i: int| 0 <= i < text::lines(content).len() && text::trim(#[trigger] text::lines(content)[i]) == key
}

/// The text with an empty setting `key` filled with `value`: every
/// occurrence of `key` in the text is replaced by `key` and `value`.
pub open spec fn filled(content: Seq<char>, key: Seq<char>, value: Seq<char>) -> Seq<char> {
    if has_empty(content, key) {
        text::replace_all(content, key, key + value)
    } else {
        content
    }
}

/// The config text after it is checked: missing keys added with their
/// defaults, then empty fake settings filled with the default fakes.
pub open spec fn validated(content: Seq<char>) -> Seq<char> {
    let a = with_missing(content);
    let b = filled(a, "active_discord_fake="@, "quic_initial_steamcommunity_com.bin"@);
    filled(b, "active_gamefilter_fake="@, "quic_initial_4pda.to.bin"@)
}

/// Whether checking the text changes anything that must be written back.
pub open spec fn validation_writes(content: Seq<char>) -> bool {
    let a = with_missing(content);
    let b = filled(a, "active_discord_fake="@, "quic_initial_steamcommunity_com.bin"@);
    missing_lines(content, 7).len() > 0 || has_empty(a, "active_discord_fake="@) || has_empty(
        b,
        "active_gamefilter_fake="@,
    )
}

fn key_of(l: &[char]) -> (r: Option<Vec<char>>)
    ensures
        match line_key(l@) {
            Some(k) => r matches Some(v) && v@ == k,
            None => r is None,
        },
{
    let t = trim_chars(l);
    let mut k: usize = 0;
    while k < t.len() && t[k] != '='
        invariant
            k <= t@.len(),
            forall|m: int| 0 <= m < k ==> t@[m] != '=',
        decreases t.len() - k,
    {
        k += 1;
    }
    proof {
        text::lemma_find_from_is(t@, '=', 0, k as int);
    }
    if k < t.len() {
        let v = slice_chars(t.as_slice(), 0, k);
        assert(v@ =~= t@.take(k as int));
        Some(v)
    } else {
        None
    }
}

fn text_has_key(ls: &Vec<Vec<char>>, key: &str) -> (b: bool)
    ensures
        b == exists|i: int| 0 <= i < ls.deep_view().len() && #[trigger] line_key(ls.deep_view()[i]) == Some(key@),
{
    let mut i: usize = 0;
    while i < ls.len()
        invariant
            i <= ls@.len(),
            forall|j: int| 0 <= j < i ==> #[trigger] line_key(ls.deep_view()[j]) != Some(key@),
        decreases ls.len() - i,
    {
        assert(ls[i as int]@ =~= ls.deep_view()[i as int]);
        match key_of(ls[i].as_slice()) {
            Some(k) => {
                let kc = to_chars(key);
                if eq_chars(k.as_slice(), kc.as_slice()) {
                    return true;
                }
            },
            None => {},
        }
        i += 1;
    }
    false
}

fn text_has_empty(content: &str, key: &str) -> (b: bool)
    ensures
        b == has_empty(content@, key@),
{
    let c = to_chars(content);
    let ls = split_lines(&c);
    let kc = to_chars(key);
    let mut i: usize = 0;
    while i < ls.len()
        invariant
            i <= ls@.len(),
            ls.deep_view() == text::lines(content@),
            kc@ == key@,
            forall|j: int| 0 <= j < i ==> text::trim(#[trigger] ls.deep_view()[j]) != key@,
        decreases ls.len() - i,
    {
        assert(ls[i as int]@ =~= ls.deep_view()[i as int]);
        let t = trim_chars(ls[i].as_slice());
        if eq_chars(t.as_slice(), kc.as_slice()) {
            return true;
        }
        i += 1;
    }
    false
}

fn fill_setting(content: String, key: &str, value: &str) -> (r: (String, bool))
    requires
        key@.len() > 0,
    ensures
        r.0@ == filled(content@, key@, value@),
        r.1 == has_empty(content@, key@),
{
    if text_has_empty(content.as_str(), key) {
        let rep = String::from_str(key).concat(value);
        (text::replace_str(content.as_str(), key, rep.as_str()), true)
    } else {
        (content, false)
    }
}

/// Checks a config file's text: adds the lines of missing keys with their
/// defaults and fills empty fake settings with the default fakes. Returns
/// the new text and whether it has to be written back.
pub fn validate_config(content: &str) -> (r: (String, bool))
    ensures
        r.0@ == validated(content@),
        r.1 == validation_writes(content@),
{
    let c = to_chars(content);
    let ls = split_lines(&c);
    let keys = ["interface", "strategy", "gamefiltertcp", "gamefilterudp", "backend", "active_discord_fake",
        "active_gamefilter_fake"];
    let defaults = ["interface=any", "strategy=", "gamefiltertcp=false", "gamefilterudp=false",
        "backend=nftables", "active_discord_fake=quic_initial_steamcommunity_com.bin",
        "active_gamefilter_fake=quic_initial_4pda.to.bin"];
    assert(keys@.map_values(|k: &str| k@) =~= default_keys());
    assert(defaults@.map_values(|k: &str| k@) =~= default_lines());
    let mut missing: Vec<Vec<char>> = Vec::new();
    let mut i: usize = 0;
    while i < 7
        invariant
            i <= 7,
            ls.deep_view() == text::lines(content@),
            keys@.map_values(|k: &str| k@) == default_keys(),
            defaults@.map_values(|k: &str| k@) == default_lines(),
            keys@.len() == 7,
            defaults@.len() == 7,
            missing.deep_view() == missing_lines(content@, i as nat),
        decreases 7 - i,
    {
        assert(keys@.map_values(|k: &str| k@)[i as int] == keys@[i as int]@);
        assert(defaults@.map_values(|k: &str| k@)[i as int] == defaults@[i as int]@);
        if !text_has_key(&ls, keys[i]) {
            let ghost before = missing.deep_view();
            let d = to_chars(defaults[i]);
            assert(d.deep_view() =~= d@);
            missing.push(d);
            assert(missing.deep_view() =~= before.push(default_lines()[i as int]));
        }
        i += 1;
    }
    let mut out = c;
    let added = missing.len() > 0;
    if added {
        let nl = to_chars("\n");
        if !text::has_suffix(out.as_slice(), nl.as_slice()) {
            out.push('\n');
            proof {
                reveal_strlit("\n");
            }
        }
        let t = terminated_chars(&missing);
        text::push_all(&mut out, t.as_slice());
    }
    let a = from_chars(out.as_slice());
    assert(a@ == with_missing(content@));
    proof {
        reveal_strlit("active_discord_fake=");
        reveal_strlit("active_gamefilter_fake=");
    }
    let (b, fb) = fill_setting(a, "active_discord_fake=", "quic_initial_steamcommunity_com.bin");
    let (r, fr) = fill_setting(b, "active_gamefilter_fake=", "quic_initial_4pda.to.bin");
    (r, added || fb || fr)
}

/// The cache directory: `ZAPRET_CACHE_DIR` where it is set, else the
/// directory of the program, else the working directory.
pub fn get_cache_dir(env_dir: Option<&str>, exe_parent: Option<&str>) -> (d: String)
    ensures
        d@ == match env_dir {
            Some(e) => e@,
            None => match exe_parent {
                Some(p) => p@,
                None => "."@,
            },
        },
{
    match env_dir {
        Some(e) => String::from_str(e),
        None => match exe_parent {
            Some(p) => String::from_str(p),
            None => String::from_str("."),
        },
    }
}

} // verus!
