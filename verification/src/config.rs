//! The kernel's settings, their defaults, and the layer that command-line
//! overrides add on top of the defaults, the settings file and the
//! environment (in rising order of priority).

use vstd::prelude::*;
use crate::json::{json_get, Json, JsonModel};
use vstd::string::StringExecFns;

verus! {

/// The sources of settings, from the lowest priority to the highest.
#[derive(Debug, Clone, Copy, PartialEq, Eq, PartialOrd, Ord, Structural)]
pub enum SourcePriority {
    /// Built-in defaults.
    Default,
    /// The settings file `.kernel/*.toml`.
    File,
    /// Environment variables `KERNEL_*`.
    Env,
    /// Command-line arguments.
    Cli,
}

/// The rank of a source: 0, 10, 20 and 30 from the lowest to the highest.
pub open spec fn source_rank(p: SourcePriority) -> u8 {
    match p {
        SourcePriority::Default => 0,
        SourcePriority::File => 10,
        SourcePriority::Env => 20,
        SourcePriority::Cli => 30,
    }
}

impl SourcePriority {
    /// The rank of the source; a higher rank overrides a lower one.
    pub fn rank(self) -> (r: u8)
        ensures
            r == source_rank(self),
    {
        match self {
            SourcePriority::Default => 0,
            SourcePriority::File => 10,
            SourcePriority::Env => 20,
            SourcePriority::Cli => 30,
        }
    }
}

/// The positions `0`, `1`, ..., `n - 1`.
pub open spec fn positions(n: nat) -> Seq<int> {
    Seq::new(n, |i: int| i)
}

/// Whether position `i` of `sources` holds source `p`.
pub open spec fn holds_source(sources: Seq<SourcePriority>, p: SourcePriority) -> spec_fn(int) -> bool {
    |i: int| sources[i] == p
}

/// The positions in `sources` that hold source `p`, in order.
pub open spec fn indices_with(sources: Seq<SourcePriority>, p: SourcePriority) -> Seq<int> {
    positions(sources.len()).filter(holds_source(sources, p))
}

/// The order in which sources added as `sources` are merged, each over the
/// ones before it: defaults first, then files, then the environment, then
/// the command line; sources of the same kind in the order they were added.
pub open spec fn merge_order(sources: Seq<SourcePriority>) -> Seq<int> {
    indices_with(sources, SourcePriority::Default) + indices_with(sources, SourcePriority::File)
        + indices_with(sources, SourcePriority::Env) + indices_with(sources, SourcePriority::Cli)
}

/// Appends the positions in `sources` that hold source `p`, in order.
fn append_indices_with(sources: &Vec<SourcePriority>, p: SourcePriority, out: &mut Vec<usize>)
    ensures
        final(out)@.map_values(|i: usize| i as int) == old(out)@.map_values(|i: usize| i as int)
            + indices_with(sources@, p),
{
    let ghost all = positions(sources@.len());
    let ghost pred = holds_source(sources@, p);
    let mut i: usize = 0;
    assert(all.take(0) =~= Seq::<int>::empty());
    assert(out@.map_values(|i: usize| i as int) =~= old(out)@.map_values(|i: usize| i as int) + all.take(
        0,
    ).filter(pred)) by {
        reveal(Seq::filter);
    }
    while i < sources.len()
        invariant
            i <= sources.len(),
            all == positions(sources@.len()),
            pred == holds_source(sources@, p),
            out@.map_values(|i: usize| i as int) == old(out)@.map_values(|i: usize| i as int)
                + all.take(i as int).filter(pred),
        decreases sources.len() - i,
    {
        assert(all.take(i + 1).drop_last() =~= all.take(i as int));
        assert(all.take(i + 1).last() == i as int);
        proof {
            reveal(Seq::filter);
        }
        let ghost before = out@;
        if sources[i] == p {
            out.push(i);
            assert(out@.map_values(|i: usize| i as int) =~= before.map_values(|i: usize| i as int).push(
                i as int,
            ));
        }
        i = i + 1;
    }
    assert(all.take(i as int) =~= all);
}

/// The order in which sources added as `sources` are merged (see
/// [`merge_order`]): by rising priority, and in the order of adding among
/// sources of the same kind, so that a source of higher priority overrides
/// one of lower priority whatever order they were added in.
pub fn layer_order(sources: &Vec<SourcePriority>) -> (r: Vec<usize>)
    ensures
        r@.map_values(|i: usize| i as int) == merge_order(sources@),
{
    let mut out: Vec<usize> = Vec::new();
    assert(out@.map_values(|i: usize| i as int) =~= Seq::<int>::empty());
    append_indices_with(sources, SourcePriority::Default, &mut out);
    append_indices_with(sources, SourcePriority::File, &mut out);
    append_indices_with(sources, SourcePriority::Env, &mut out);
    append_indices_with(sources, SourcePriority::Cli, &mut out);
    proof {
        let d = indices_with(sources@, SourcePriority::Default);
        let f = indices_with(sources@, SourcePriority::File);
        let e = indices_with(sources@, SourcePriority::Env);
        let c = indices_with(sources@, SourcePriority::Cli);
        assert(Seq::<int>::empty() + d + f + e + c =~= merge_order(sources@));
    }
    out
}

/// Every position in the merge order holds a source added, and a source
/// merged later never has a lower priority than one merged before it: the
/// command line overrides the environment, which overrides files, which
/// override the defaults.
pub proof fn lemma_merge_order_by_priority(sources: Seq<SourcePriority>, a: int, b: int)
    requires
        0 <= a < b < merge_order(sources).len(),
    ensures
        0 <= merge_order(sources)[a] < sources.len(),
        0 <= merge_order(sources)[b] < sources.len(),
        source_rank(sources[merge_order(sources)[a]]) <= source_rank(
            sources[merge_order(sources)[b]],
        ),
{
    let all = positions(sources.len());
    let o = merge_order(sources);
    let d = indices_with(sources, SourcePriority::Default);
    let f = indices_with(sources, SourcePriority::File);
    let e = indices_with(sources, SourcePriority::Env);
    let c = indices_with(sources, SourcePriority::Cli);
    assert forall|p: SourcePriority, k: int|
        #![trigger indices_with(sources, p)[k]]
        0 <= k < indices_with(sources, p).len() implies 0 <= indices_with(sources, p)[k]
        < sources.len() && sources[indices_with(sources, p)[k]] == p by {
        let pred = holds_source(sources, p);
        all.lemma_filter_pred(pred, k);
        assert(all.filter(pred).contains(all.filter(pred)[k]));
        lemma_filter_in_range(sources.len(), pred, k);
    }
    // rank of the block each position falls in
    let blk = |x: int|
        if x < d.len() {
            0int
        } else if x < d.len() + f.len() {
            10int
        } else if x < d.len() + f.len() + e.len() {
            20int
        } else {
            30int
        };
    assert forall|x: int| 0 <= x < o.len() implies 0 <= #[trigger] o[x] < sources.len()
        && source_rank(sources[o[x]]) == blk(x) by {
        if x < d.len() {
            assert(o[x] == d[x]);
            assert(d.len() == indices_with(sources, SourcePriority::Default).len());
        } else if x < d.len() + f.len() {
            assert(o[x] == f[x - d.len()]);
        } else if x < d.len() + f.len() + e.len() {
            assert(o[x] == e[x - d.len() - f.len()]);
        } else {
            assert(o[x] == c[x - d.len() - f.len() - e.len()]);
        }
    }
    assert(0 <= o[a] < sources.len());
    assert(0 <= o[b] < sources.len());
}

/// A position that a filter of `0..n` keeps lies in `0..n`.
proof fn lemma_filter_in_range(n: nat, pred: spec_fn(int) -> bool, k: int)
    requires
        0 <= k < positions(n).filter(pred).len(),
    ensures
        0 <= positions(n).filter(pred)[k] < n,
    decreases n,
{
    let all = positions(n);
    reveal(Seq::filter);
    if n > 0 {
        let prev = positions((n - 1) as nat);
        assert(all.drop_last() =~= prev);
        if pred(all.last()) && k == all.filter(pred).len() - 1 {
            assert(all.filter(pred)[k] == n - 1);
        } else {
            lemma_filter_in_range((n - 1) as nat, pred, k);
        }
    }
}

/// The settings of the AI providers.
#[derive(Debug)]
pub struct AiConfig {
    /// Whether remote AI providers may be used.
    pub remote_enabled: bool,
    /// The provider plugin used by default.
    pub default_provider: Option<String>,
}

impl Default for AiConfig {
    /// Remote providers off, no default provider.
    fn default() -> (r: Self)
        ensures
            !r.remote_enabled,
            r.default_provider is None,
    {
        AiConfig { remote_enabled: false, default_provider: None }
    }
}

/// The settings of logging.
#[derive(Debug)]
pub struct LogConfig {
    pub level: String,
    pub json: bool,
}

/// The log level when nothing else is said: `info`.
pub fn default_log_level() -> (r: String)
    ensures
        r@ == "info"@,
{
    String::from_str("info")
}

impl Default for LogConfig {
    /// Level `info`, plain text.
    fn default() -> (r: Self)
        ensures
            r.level@ == "info"@,
            !r.json,
    {
        LogConfig { level: default_log_level(), json: false }
    }
}

/// The settings of the kernel.
#[derive(Debug)]
pub struct KernelConfig {
    pub ai: AiConfig,
    pub log: LogConfig,
    pub data_dir: Option<String>,
}

impl Default for KernelConfig {
    /// The defaults of every part, and no data directory.
    fn default() -> (r: Self)
        ensures
            !r.ai.remote_enabled,
            r.ai.default_provider is None,
            r.log.level@ == "info"@,
            !r.log.json,
            r.data_dir is None,
    {
        KernelConfig { ai: AiConfig::default(), log: LogConfig::default(), data_dir: None }
    }
}

/// `true` or `false` as TOML writes it.
pub open spec fn bool_text(b: bool) -> Seq<char> {
    if b {
        "true"@
    } else {
        "false"@
    }
}

/// The boolean member `key` of `v`, if there is one.
pub open spec fn member_bool(v: JsonModel, key: Seq<char>) -> Option<bool> {
    match json_get(v, key) {
        Some(JsonModel::Bool(b)) => Some(b),
        _ => None,
    }
}

/// The string member `key` of `v`, if there is one.
pub open spec fn member_text(v: JsonModel, key: Seq<char>) -> Option<Seq<char>> {
    match json_get(v, key) {
        Some(JsonModel::String(s)) => Some(s),
        _ => None,
    }
}

/// How a character is written inside a TOML basic string: quote,
/// backslash, newline, carriage return and tab are escaped.
pub open spec fn escaped_char(c: char) -> Seq<char> {
    if c == '"' {
        seq!['\\', '"']
    } else if c == '\\' {
        seq!['\\', '\\']
    } else if c == '\n' {
        seq!['\\', 'n']
    } else if c == '\r' {
        seq!['\\', 'r']
    } else if c == '\t' {
        seq!['\\', 't']
    } else {
        seq![c]
    }
}

/// The text `s` with every character escaped for a TOML basic string.
pub open spec fn toml_escape(s: Seq<char>) -> Seq<char>
    decreases s.len(),
{
    if s.len() == 0 {
        Seq::empty()
    } else {
        toml_escape(s.drop_last()) + escaped_char(s.last())
    }
}

/// The line `key = true` or `key = false`, when a value is given.
pub open spec fn bool_line(key: Seq<char>, b: Option<bool>) -> Seq<char> {
    match b {
        Some(b) => key + " = "@ + bool_text(b) + "\n"@,
        None => Seq::empty(),
    }
}

/// The line `key = "value"`, the value escaped, when a value is given.
pub open spec fn string_line(key: Seq<char>, v: Option<Seq<char>>) -> Seq<char> {
    match v {
        Some(v) => key + " = \""@ + toml_escape(v) + "\"\n"@,
        None => Seq::empty(),
    }
}

/// The `[ai]` table of the overrides, present when the overrides have an
/// `ai` member: `remote_enabled` when it is given as a boolean and
/// `default_provider` when it is given as a string.
pub open spec fn ai_override_text(overrides: JsonModel) -> Seq<char> {
    match json_get(overrides, "ai"@) {
        Some(ai) => "[ai]\n"@ + bool_line("remote_enabled"@, member_bool(ai, "remote_enabled"@))
            + string_line("default_provider"@, member_text(ai, "default_provider"@)),
        None => Seq::empty(),
    }
}

/// The `[log]` table of the overrides, present when the overrides have a
/// `log` member: `level` when it is given as a string and `json` when it is
/// given as a boolean.
pub open spec fn log_override_text(overrides: JsonModel) -> Seq<char> {
    match json_get(overrides, "log"@) {
        Some(log) => "[log]\n"@ + string_line("level"@, member_text(log, "level"@)) + bool_line(
            "json"@,
            member_bool(log, "json"@),
        ),
        None => Seq::empty(),
    }
}

/// The `data_dir` line of the overrides: present when the overrides have a
/// string `data_dir` member.
pub open spec fn data_dir_override_text(overrides: JsonModel) -> Seq<char> {
    string_line("data_dir"@, member_text(overrides, "data_dir"@))
}

/// The TOML text that carries command-line overrides: the top-level
/// `data_dir` line, then the `[ai]` table, then the `[log]` table. Only the
/// members the overrides give are written, so every other setting keeps the
/// value of the lower sources.
pub open spec fn cli_overrides_text(overrides: JsonModel) -> Seq<char> {
    data_dir_override_text(overrides) + ai_override_text(overrides) + log_override_text(overrides)
}

/// Whether `needle` stands in `text` at position `i`.
pub open spec fn occurs_at(text: Seq<char>, needle: Seq<char>, i: int) -> bool {
    0 <= i && i + needle.len() <= text.len() && text.subrange(i, i + needle.len()) == needle
}

/// A boolean override is written as its own value: when the overrides give
/// `ai.remote_enabled` as `b`, the layer holds the `[ai]` table opening with
/// the line `remote_enabled = b`; when they give `log.json` as `b`, the layer
/// ends with the line `json = b`.
pub proof fn lemma_boolean_overrides_written(overrides: JsonModel)
    ensures
        (json_get(overrides, "ai"@) matches Some(ai) && json_get(ai, "remote_enabled"@) == Some(
            JsonModel::Bool(true),
        )) ==> exists|i: int|
            #[trigger] occurs_at(cli_overrides_text(overrides), "[ai]\nremote_enabled = true\n"@, i),
        (json_get(overrides, "log"@) matches Some(log) && json_get(log, "json"@) == Some(
            JsonModel::Bool(true),
        )) ==> occurs_at(
            cli_overrides_text(overrides),
            "json = true\n"@,
            cli_overrides_text(overrides).len() - "json = true\n"@.len(),
        ),
        (json_get(overrides, "ai"@) matches Some(ai) && json_get(ai, "remote_enabled"@) == Some(
            JsonModel::Bool(false),
        )) ==> exists|i: int|
            #[trigger] occurs_at(cli_overrides_text(overrides), "[ai]\nremote_enabled = false\n"@, i),
        (json_get(overrides, "log"@) matches Some(log) && json_get(log, "json"@) == Some(
            JsonModel::Bool(false),
        )) ==> occurs_at(
            cli_overrides_text(overrides),
            "json = false\n"@,
            cli_overrides_text(overrides).len() - "json = false\n"@.len(),
        ),
{
    lemma_boolean_override_line(overrides, true);
    lemma_boolean_override_line(overrides, false);
}

/// The line of a boolean override, for either value.
proof fn lemma_boolean_override_line(overrides: JsonModel, b: bool)
    ensures
        (json_get(overrides, "ai"@) matches Some(ai) && json_get(ai, "remote_enabled"@) == Some(
            JsonModel::Bool(b),
        )) ==> occurs_at(
            cli_overrides_text(overrides),
            if b {
                "[ai]\nremote_enabled = true\n"@
            } else {
                "[ai]\nremote_enabled = false\n"@
            },
            data_dir_override_text(overrides).len() as int,
        ),
        (json_get(overrides, "log"@) matches Some(log) && json_get(log, "json"@) == Some(
            JsonModel::Bool(b),
        )) ==> occurs_at(
            cli_overrides_text(overrides),
            if b {
                "json = true\n"@
            } else {
                "json = false\n"@
            },
            cli_overrides_text(overrides).len() - (if b {
                "json = true\n"@
            } else {
                "json = false\n"@
            }).len(),
        ),
{
    reveal_strlit("[ai]\nremote_enabled = true\n");
    reveal_strlit("[ai]\nremote_enabled = false\n");
    reveal_strlit("json = true\n");
    reveal_strlit("json = false\n");
    reveal_strlit("[ai]\n");
    reveal_strlit("remote_enabled");
    reveal_strlit("json");
    reveal_strlit(" = ");
    reveal_strlit("true");
    reveal_strlit("false");
    reveal_strlit("\n");
    let d = data_dir_override_text(overrides);
    let a = ai_override_text(overrides);
    let l = log_override_text(overrides);
    let all = cli_overrides_text(overrides);
    if let Some(ai) = json_get(overrides, "ai"@) {
        if json_get(ai, "remote_enabled"@) == Some(JsonModel::Bool(b)) {
            let line = if b {
                "[ai]\nremote_enabled = true\n"@
            } else {
                "[ai]\nremote_enabled = false\n"@
            };
            let rest = string_line("default_provider"@, member_text(ai, "default_provider"@));
            assert(a =~= line + rest);
            assert(all =~= d + line + (rest + l));
            assert(all.subrange(d.len() as int, (d.len() + line.len()) as int) =~= line);
            assert(occurs_at(all, line, d.len() as int));
        }
    }
    if let Some(log) = json_get(overrides, "log"@) {
        if json_get(log, "json"@) == Some(JsonModel::Bool(b)) {
            let line = if b {
                "json = true\n"@
            } else {
                "json = false\n"@
            };
            let level = string_line("level"@, member_text(log, "level"@));
            assert(l =~= "[log]\n"@ + level + line);
            let pre = d + a + "[log]\n"@ + level;
            assert(all =~= pre + line);
            assert(all.subrange(pre.len() as int, all.len() as int) =~= line);
        }
    }
}

/// The boolean member `key` of `v`, if there is one.
fn bool_of(v: &Json, key: &str) -> (r: Option<bool>)
    ensures
        r == member_bool(v@, key@),
{
    match v.get(key) {
        Some(m) => m.as_bool(),
        None => None,
    }
}

/// The string member `key` of `v`, if there is one.
fn text_of<'a>(v: &'a Json, key: &str) -> (r: Option<&'a str>)
    ensures
        match r {
            Some(s) => member_text(v@, key@) == Some(s@),
            None => member_text(v@, key@) is None,
        },
{
    match v.get(key) {
        Some(m) => m.as_str(),
        None => None,
    }
}

/// Appends `s` escaped for a TOML basic string.
fn append_escaped(buf: &mut String, s: &str)
    ensures
        final(buf)@ == old(buf)@ + toml_escape(s@),
{
    let n = s.unicode_len();
    let mut i: usize = 0;
    assert(s@.take(0) =~= Seq::<char>::empty());
    assert(buf@ =~= old(buf)@ + toml_escape(s@.take(0)));
    while i < n
        invariant
            n == s@.len(),
            i <= n,
            buf@ == old(buf)@ + toml_escape(s@.take(i as int)),
        decreases n - i,
    {
        let c = s.get_char(i);
        let ghost before = buf@;
        proof {
            reveal_strlit("\\");
            reveal_strlit("\\n");
            reveal_strlit("\\r");
            reveal_strlit("\\t");
        }
        if c == '"' || c == '\\' {
            let one = s.substring_char(i, i + 1);
            buf.append("\\");
            buf.append(one);
            assert("\\"@ =~= seq!['\\']);
            assert(one@ =~= seq![c]);
        } else if c == '\n' {
            buf.append("\\n");
            assert("\\n"@ =~= seq!['\\', 'n']);
        } else if c == '\r' {
            buf.append("\\r");
            assert("\\r"@ =~= seq!['\\', 'r']);
        } else if c == '\t' {
            buf.append("\\t");
            assert("\\t"@ =~= seq!['\\', 't']);
        } else {
            let one = s.substring_char(i, i + 1);
            buf.append(one);
            assert(one@ =~= seq![c]);
        }
        assert(s@.take(i + 1).drop_last() =~= s@.take(i as int));
        assert(s@.take(i + 1).last() == c);
        assert(buf@ =~= before + escaped_char(c));
        i = i + 1;
    }
    assert(s@.take(n as int) =~= s@);
}

/// Appends the line `key = true` or `key = false` when a value is given.
fn append_bool_line(buf: &mut String, key: &str, b: Option<bool>)
    ensures
        final(buf)@ == old(buf)@ + bool_line(key@, b),
{
    if let Some(b) = b {
        buf.append(key);
        buf.append(" = ");
        if b {
            buf.append("true");
        } else {
            buf.append("false");
        }
        buf.append("\n");
        assert(buf@ =~= old(buf)@ + bool_line(key@, Some(b)));
    } else {
        assert(buf@ =~= old(buf)@ + bool_line(key@, b));
    }
}

/// Appends the line `key = "value"` when a value is given.
fn append_string_line(buf: &mut String, key: &str, v: Option<&str>)
    ensures
        final(buf)@ == old(buf)@ + string_line(
            key@,
            match v {
                Some(s) => Some(s@),
                None => None,
            },
        ),
{
    if let Some(s) = v {
        buf.append(key);
        buf.append(" = \"");
        append_escaped(buf, s);
        buf.append("\"\n");
        assert(buf@ =~= old(buf)@ + string_line(key@, Some(s@)));
    } else {
        assert(buf@ =~= old(buf)@ + Seq::<char>::empty());
    }
}

/// Appends the `[ai]` table of the overrides.
fn append_ai_section(buf: &mut String, overrides: &Json)
    ensures
        final(buf)@ == old(buf)@ + ai_override_text(overrides@),
{
    if let Some(ai) = overrides.get("ai") {
        buf.append("[ai]\n");
        append_bool_line(buf, "remote_enabled", bool_of(ai, "remote_enabled"));
        append_string_line(buf, "default_provider", text_of(ai, "default_provider"));
        assert(buf@ =~= old(buf)@ + ai_override_text(overrides@));
    } else {
        assert(buf@ =~= old(buf)@ + ai_override_text(overrides@));
    }
}

/// Appends the `[log]` table of the overrides.
fn append_log_section(buf: &mut String, overrides: &Json)
    ensures
        final(buf)@ == old(buf)@ + log_override_text(overrides@),
{
    if let Some(log) = overrides.get("log") {
        buf.append("[log]\n");
        append_string_line(buf, "level", text_of(log, "level"));
        append_bool_line(buf, "json", bool_of(log, "json"));
        assert(buf@ =~= old(buf)@ + log_override_text(overrides@));
    } else {
        assert(buf@ =~= old(buf)@ + log_override_text(overrides@));
    }
}

/// Writes command-line overrides as a TOML layer: the `data_dir` line when
/// it is given, the `[ai]` table with `remote_enabled` and
/// `default_provider` as far as they are given, and the `[log]` table with
/// `level` and `json` as far as they are given. Nothing that the overrides
/// do not give is written, so the lower sources keep it.
pub fn cli_overrides_toml(overrides: &Json) -> (r: String)
    ensures
        r@ == cli_overrides_text(overrides@),
{
    let mut buf = String::from_str("");
    proof {
        reveal_strlit("");
    }
    append_string_line(&mut buf, "data_dir", text_of(overrides, "data_dir"));
    append_ai_section(&mut buf, overrides);
    append_log_section(&mut buf, overrides);
    assert(buf@ =~= cli_overrides_text(overrides@));
    buf
}

/// The value of a boolean setting as `str::parse::<bool>` reads it: `true`
/// and `false` exactly, nothing else.
pub open spec fn parse_bool_text(s: Seq<char>) -> Option<bool> {
    if s == "true"@ {
        Some(true)
    } else if s == "false"@ {
        Some(false)
    } else {
        None
    }
}

/// Reads a boolean setting: `true` or `false`, exactly.
pub fn parse_bool(s: &str) -> (r: Option<bool>)
    ensures
        r == parse_bool_text(s@),
{
    if crate::text::str_equal(s, "true") {
        Some(true)
    } else if crate::text::str_equal(s, "false") {
        Some(false)
    } else {
        None
    }
}

} // verus!
