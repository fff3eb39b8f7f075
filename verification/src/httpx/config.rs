//! Shared HTTP-server configuration and the environment overlay of YAML
//! configuration files.
use vstd::prelude::*;
use crate::text::strip_prefix;
use crate::strmap::StrMap;

verus! {

/// Shared HTTP-server configuration. Services load it from environment
/// variables under a per-service prefix (e.g. `PING_`):
///
/// | Variable                      | Default          | Meaning                    |
/// | ----------------------------- | ---------------- | -------------------------- |
/// | `PING_ADDR`                   | `0.0.0.0:8080`   | listen address             |
/// | `PING_SHUTDOWN_TIMEOUT_SECS`  | `10`             | graceful-shutdown budget   |
/// | `PING_LOG_LEVEL`              | `info`           | `debug`/`info`/`warn`/`error` |
/// | `PING_LOG_FORMAT`             | `json`           | `json` or `text`           |
#[derive(Debug, Clone)]
pub struct Config {
    pub addr: String,
    pub shutdown_timeout_secs: u64,
    pub log_level: String,
    pub log_format: String,
}

/// Default listen address: `0.0.0.0:8080`.
pub fn default_addr() -> (r: String)
    ensures
        r@ == "0.0.0.0:8080"@,
{
    String::from_str("0.0.0.0:8080")
}

/// Default graceful-shutdown budget: 10 seconds.
pub fn default_shutdown_secs() -> (r: u64)
    ensures
        r == 10,
{
    10
}

/// Default log level: `info`.
pub fn default_log_level() -> (r: String)
    ensures
        r@ == "info"@,
{
    String::from_str("info")
}

/// Default log format: `json`.
pub fn default_log_format() -> (r: String)
    ensures
        r@ == "json"@,
{
    String::from_str("json")
}

/// The Unicode lowercase mapping of a text (`str::to_lowercase`).
pub uninterp spec fn lowercase_of(s: Seq<char>) -> Seq<char>;

/// `str::to_lowercase`: the full Unicode lowercase mapping, named by
/// `lowercase_of`.
#[verifier::external_body]
fn to_lowercase(s: &str) -> (r: String)
    ensures
        r@ == lowercase_of(s@),
{
    s.to_lowercase()
}

/// The configuration keys that environment variables set: for each variable,
/// in order, whose name starts with `prefix`, the rest of its name in
/// lowercase, paired with its value. Later pairs win when merged.
pub open spec fn overrides_of(vars: Seq<(Seq<char>, Seq<char>)>, prefix: Seq<char>) -> Seq<
    (Seq<char>, Seq<char>),
>
    decreases vars.len(),
{
    if vars.len() == 0 {
        Seq::empty()
    } else {
        let rest = overrides_of(vars.drop_last(), prefix);
        let (name, value) = vars.last();
        if prefix.len() <= name.len() && name.take(prefix.len() as int) == prefix {
            rest.push((lowercase_of(name.skip(prefix.len() as int)), value))
        } else {
            rest
        }
    }
}

/// The view of a list of string pairs.
pub open spec fn pairs_view(v: Seq<(String, String)>) -> Seq<(Seq<char>, Seq<char>)> {
    v.map_values(|p: (String, String)| (p.0@, p.1@))
}

/// The keys that `PREFIX`-prefixed environment variables set in a
/// configuration document: the prefix is stripped and the rest lowercased.
pub fn env_overrides(vars: &Vec<(String, String)>, prefix: &str) -> (r: Vec<(String, String)>)
    ensures
        pairs_view(r@) == overrides_of(pairs_view(vars@), prefix@),
{
    let mut out: Vec<(String, String)> = Vec::new();
    let n = vars.len();
    let mut i: usize = 0;
    while i < n
        invariant
            n == vars@.len(),
            i <= n,
            pairs_view(out@) == overrides_of(pairs_view(vars@.take(i as int)), prefix@),
        decreases n - i,
    {
        let (name, value) = &vars[i];
        proof {
            assert(pairs_view(vars@.take(i + 1)).drop_last() =~= pairs_view(vars@.take(i as int)));
            assert(pairs_view(vars@.take(i + 1)).last() == (name@, value@));
        }
        match strip_prefix(name.as_str(), prefix) {
            Some(rest) => {
                let key = to_lowercase(rest);
                let ghost before = out@;
                out.push((key, value.clone()));
                proof {
                    assert(name@.skip(prefix@.len() as int) =~= rest@);
                    assert(pairs_view(out@) =~= pairs_view(before).push((lowercase_of(rest@), value@)));
                }
            },
            None => {},
        }
        i = i + 1;
    }
    assert(vars@.take(n as int) =~= vars@);
    out
}

/// `base` with each `(key, value)` pair of `pairs` set in turn, so that a later
/// pair for a key wins over an earlier one and over `base`.
pub open spec fn overlay_of<V>(base: Map<Seq<char>, V>, pairs: Seq<(Seq<char>, V)>) -> Map<
    Seq<char>,
    V,
>
    decreases pairs.len(),
{
    if pairs.len() == 0 {
        base
    } else {
        overlay_of(base, pairs.drop_last()).insert(pairs.last().0, pairs.last().1)
    }
}

/// The value the last pair for `k` in `pairs` sets, if any pair sets it.
pub open spec fn last_set<V>(pairs: Seq<(Seq<char>, V)>, k: Seq<char>) -> Option<V>
    decreases pairs.len(),
{
    if pairs.len() == 0 {
        None
    } else if pairs.last().0 == k {
        Some(pairs.last().1)
    } else {
        last_set(pairs.drop_last(), k)
    }
}

/// The view of a list of keyed values.
pub open spec fn keyed_view<V>(v: Seq<(String, V)>) -> Seq<(Seq<char>, V)> {
    v.map_values(|p: (String, V)| (p.0@, p.1))
}

/// Configuration precedence: in the overlay of a document with settings, a
/// key that some setting sets takes the value of the last such setting; any
/// other key keeps what the document holds (present or absent).
pub proof fn lemma_overlay_precedence<V>(base: Map<Seq<char>, V>, pairs: Seq<(Seq<char>, V)>, k: Seq<char>)
    ensures
        match last_set(pairs, k) {
            Some(v) => overlay_of(base, pairs).contains_key(k) && overlay_of(base, pairs)[k] == v,
            None => overlay_of(base, pairs).contains_key(k) == base.contains_key(k) && (
            base.contains_key(k) ==> overlay_of(base, pairs)[k] == base[k]),
        },
    decreases pairs.len(),
{
    if pairs.len() > 0 {
        lemma_overlay_precedence(base, pairs.drop_last(), k);
    }
}

/// Set each `(key, value)` of `pairs` in `doc`, in order: the environment
/// overlay of a configuration document, where a later setting wins.
pub fn overlay<V>(doc: StrMap<V>, pairs: Vec<(String, V)>) -> (r: StrMap<V>)
    requires
        doc.wf(),
    ensures
        r.wf(),
        r@ == overlay_of(doc@, keyed_view(pairs@)),
{
    let ghost base = doc@;
    let ghost all = pairs@;
    let mut out = doc;
    let mut rest = pairs;
    let n = rest.len();
    let mut i: usize = 0;
    proof {
        assert(keyed_view(all.take(0)) =~= Seq::<(Seq<char>, V)>::empty());
        assert(all.skip(0) =~= all);
    }
    while i < n
        invariant
            n == all.len(),
            i <= n,
            rest@ == all.skip(i as int),
            out.wf(),
            out@ == overlay_of(base, keyed_view(all.take(i as int))),
        decreases n - i,
    {
        let (k, v) = rest.remove(0);
        proof {
            assert(all[i as int] == (k, v));
            assert(rest@ =~= all.skip(i + 1));
            assert(keyed_view(all.take(i + 1)).drop_last() =~= keyed_view(all.take(i as int)));
            assert(keyed_view(all.take(i + 1)).last() == (k@, v));
        }
        out.insert(k, v);
        i = i + 1;
    }
    proof {
        assert(all.take(n as int) =~= all);
    }
    out
}

/// A character with ASCII upper case letters mapped to lower case.
pub open spec fn ascii_lower(c: char) -> char {
    if 'A' <= c && c <= 'Z' {
        ((c as u32) + 32) as char
    } else {
        c
    }
}

/// Whether two texts are equal up to ASCII case.
pub open spec fn eq_ignore_ascii_case(a: Seq<char>, b: Seq<char>) -> bool {
    a.len() == b.len() && forall|i: int| 0 <= i < a.len() ==> ascii_lower(#[trigger] a[i]) == ascii_lower(b[i])
}

/// Whether a log format asks for human-readable text (`text`, in any ASCII
/// case); any other format means JSON.
pub fn text_logs(format: &str) -> (r: bool)
    ensures
        r == eq_ignore_ascii_case(format@, "text"@),
{
    proof {
        reveal_strlit("text");
    }
    let want = "text";
    let n = format.unicode_len();
    if n != 4 {
        return false;
    }
    let mut i: usize = 0;
    while i < 4
        invariant
            n == 4,
            format@.len() == 4,
            want@ == "text"@,
            want@.len() == 4,
            i <= 4,
            forall|j: int| 0 <= j < i ==> ascii_lower(#[trigger] format@[j]) == ascii_lower(want@[j]),
        decreases 4 - i,
    {
        let c = format.get_char(i) as u32;
        let w = want.get_char(i) as u32;
        proof {
            reveal_strlit("text");
            assert(want@[i as int] == 't' || want@[i as int] == 'e' || want@[i as int] == 'x');
            assert(0x61 <= w <= 0x7A);
            assert(ascii_lower(want@[i as int]) == want@[i as int]);
        }
        if c != w && c + 32 != w {
            return false;
        }
        i = i + 1;
    }
    true
}

/// A YAML value, carried through unchanged.
#[verifier::external_type_specification]
#[verifier::external_body]
pub struct ExYamlValue(serde_yaml_ng::Value);

/// A YAML parse error.
#[verifier::external_type_specification]
#[verifier::external_body]
pub struct ExYamlError(serde_yaml_ng::Error);

/// The YAML value a text parses to, or `None` when it is not valid YAML.
pub uninterp spec fn yaml_parse_of(text: Seq<char>) -> Option<serde_yaml_ng::Value>;

/// The entries of a YAML mapping, in document order, or `None` when the value
/// is not a mapping.
pub uninterp spec fn yaml_mapping_of(v: serde_yaml_ng::Value) -> Option<
    Seq<(serde_yaml_ng::Value, serde_yaml_ng::Value)>,
>;

/// The text of a YAML string value, or `None` when the value is not a string.
pub uninterp spec fn yaml_str_of(v: serde_yaml_ng::Value) -> Option<Seq<char>>;

/// The YAML string value holding a text.
pub uninterp spec fn yaml_string_of(s: Seq<char>) -> serde_yaml_ng::Value;

/// `serde_yaml_ng::from_str::<serde_yaml_ng::Value>(text)`: the parsed value,
/// or the parse error; named by `yaml_parse_of`.
#[verifier::external_body]
fn parse_yaml(text: &str) -> (r: Result<serde_yaml_ng::Value, serde_yaml_ng::Error>)
    ensures
        r is Ok <==> yaml_parse_of(text@) is Some,
        r is Ok ==> r->Ok_0 == yaml_parse_of(text@)->0,
{
    serde_yaml_ng::from_str::<serde_yaml_ng::Value>(text)
}

/// The entries of a `serde_yaml_ng::Value::Mapping` (through the mapping's
/// `into_iter`, in its order), or `None` for any other variant.
#[verifier::external_body]
fn mapping_entries(v: serde_yaml_ng::Value) -> (r: Option<Vec<(serde_yaml_ng::Value, serde_yaml_ng::Value)>>)
    ensures
        r is Some <==> yaml_mapping_of(v) is Some,
        r is Some ==> r->0@ == yaml_mapping_of(v)->0,
{
    match v {
        serde_yaml_ng::Value::Mapping(m) => Some(m.into_iter().collect()),
        _ => None,
    }
}

/// The text of a `serde_yaml_ng::Value::String`, or the value itself back
/// for any other variant.
#[verifier::external_body]
fn yaml_key(k: serde_yaml_ng::Value) -> (r: Result<String, serde_yaml_ng::Value>)
    ensures
        yaml_str_of(k) is Some ==> r is Ok && r->Ok_0@ == yaml_str_of(k)->0,
        yaml_str_of(k) is None ==> r is Err && r->Err_0 == k,
{
    match k {
        serde_yaml_ng::Value::String(s) => Ok(s),
        other => Err(other),
    }
}

/// `serde_yaml_ng::Value::String(s)`: the YAML string `s`.
#[verifier::external_body]
fn yaml_text(s: String) -> (v: serde_yaml_ng::Value)
    ensures
        v == yaml_string_of(s@),
{
    serde_yaml_ng::Value::String(s)
}

/// Why a configuration document could not be merged.
#[derive(Debug)]
pub enum ConfigError {
    /// The file is not valid YAML.
    Parse(serde_yaml_ng::Error),
    /// The file's root is not a mapping.
    RootNotMapping,
}

/// The members of a YAML document's root that have string keys.
pub open spec fn string_entries(es: Seq<(serde_yaml_ng::Value, serde_yaml_ng::Value)>) -> Map<
    Seq<char>,
    serde_yaml_ng::Value,
>
    decreases es.len(),
{
    if es.len() == 0 {
        Map::empty()
    } else {
        let m = string_entries(es.drop_last());
        match yaml_str_of(es.last().0) {
            Some(k) => m.insert(k, es.last().1),
            None => m,
        }
    }
}

/// The members of a YAML document's root whose keys are not strings, in
/// order.
pub open spec fn other_entries(es: Seq<(serde_yaml_ng::Value, serde_yaml_ng::Value)>) -> Seq<
    (serde_yaml_ng::Value, serde_yaml_ng::Value),
>
    decreases es.len(),
{
    if es.len() == 0 {
        Seq::empty()
    } else {
        let o = other_entries(es.drop_last());
        match yaml_str_of(es.last().0) {
            Some(_) => o,
            None => o.push(es.last()),
        }
    }
}

/// The value an environment setting contributes: its text parsed as YAML (so
/// `4` is a number and `[a, b]` a sequence), or the text as a string when it
/// does not parse.
pub open spec fn env_value_of(raw: Seq<char>) -> serde_yaml_ng::Value {
    match yaml_parse_of(raw) {
        Some(v) => v,
        None => yaml_string_of(raw),
    }
}

/// The settings that `PREFIX`-prefixed variables make, each value typed.
pub open spec fn env_settings(vars: Seq<(Seq<char>, Seq<char>)>, prefix: Seq<char>) -> Seq<
    (Seq<char>, serde_yaml_ng::Value),
> {
    overrides_of(vars, prefix).map_values(|p: (Seq<char>, Seq<char>)| (p.0, env_value_of(p.1)))
}

/// The text of the last variable in `vars` that sets the configuration key
/// `k` under `prefix` (its name is `prefix` followed by a rest whose
/// lowercase is `k`), if any does.
pub open spec fn last_setting_for(vars: Seq<(Seq<char>, Seq<char>)>, prefix: Seq<char>, k: Seq<char>) -> Option<
    Seq<char>,
>
    decreases vars.len(),
{
    if vars.len() == 0 {
        None
    } else {
        let name = vars.last().0;
        if prefix.len() <= name.len() && name.take(prefix.len() as int) == prefix && lowercase_of(
            name.skip(prefix.len() as int),
        ) == k {
            Some(vars.last().1)
        } else {
            last_setting_for(vars.drop_last(), prefix, k)
        }
    }
}

proof fn lemma_last_env_setting(vars: Seq<(Seq<char>, Seq<char>)>, prefix: Seq<char>, k: Seq<char>)
    ensures
        last_set(env_settings(vars, prefix), k) == match last_setting_for(vars, prefix, k) {
            Some(t) => Some(env_value_of(t)),
            None => None,
        },
    decreases vars.len(),
{
    if vars.len() > 0 {
        lemma_last_env_setting(vars.drop_last(), prefix, k);
        let prev = overrides_of(vars.drop_last(), prefix);
        let f = |p: (Seq<char>, Seq<char>)| (p.0, env_value_of(p.1));
        let name = vars.last().0;
        if prefix.len() <= name.len() && name.take(prefix.len() as int) == prefix {
            let item = (lowercase_of(name.skip(prefix.len() as int)), vars.last().1);
            assert(overrides_of(vars, prefix) == prev.push(item));
            assert(prev.push(item).map_values(f) =~= prev.map_values(f).push(f(item)));
            assert(env_settings(vars, prefix) == env_settings(vars.drop_last(), prefix).push(f(item)));
            let es = env_settings(vars, prefix);
            assert(es.drop_last() =~= env_settings(vars.drop_last(), prefix));
        } else {
            assert(overrides_of(vars, prefix) == prev);
        }
    }
}

/// Every `PREFIX`-prefixed variable sets its key: in the overlay of a
/// document `base` with the environment settings, a key that some variable
/// sets takes the text of the last such variable parsed as YAML, or that
/// text as a YAML string when it does not parse; a key that no variable sets
/// keeps what the document holds.
pub proof fn lemma_every_prefixed_variable_is_set(
    base: Map<Seq<char>, serde_yaml_ng::Value>,
    vars: Seq<(Seq<char>, Seq<char>)>,
    prefix: Seq<char>,
    k: Seq<char>,
)
    ensures
        match last_setting_for(vars, prefix, k) {
            Some(t) => overlay_of(base, env_settings(vars, prefix)).contains_key(k) && overlay_of(
                base,
                env_settings(vars, prefix),
            )[k] == match yaml_parse_of(t) {
                Some(v) => v,
                None => yaml_string_of(t),
            },
            None => overlay_of(base, env_settings(vars, prefix)).contains_key(k) == base.contains_key(k)
                && (base.contains_key(k) ==> overlay_of(base, env_settings(vars, prefix))[k] == base[k]),
        },
{
    lemma_last_env_setting(vars, prefix, k);
    lemma_overlay_precedence(base, env_settings(vars, prefix), k);
}

/// Merge a configuration: the YAML document `file_text` (none when there is
/// no file, which is no error) overlaid with the `PREFIX`-prefixed variables
/// `vars`, so that an environment variable wins over the file. A file that
/// is not valid YAML, or whose root is not a mapping, is an error. The
/// result holds the string-keyed members, and apart the members of the file
/// whose keys are not strings, kept as they were.
pub fn merge_config(file_text: Option<&str>, vars: &Vec<(String, String)>, prefix: &str) -> (r: Result<
    (StrMap<serde_yaml_ng::Value>, Vec<(serde_yaml_ng::Value, serde_yaml_ng::Value)>),
    ConfigError,
>)
    ensures
        match file_text {
            None => r matches Ok((m, others)) && m.wf() && m@ == overlay_of(
                Map::empty(),
                env_settings(pairs_view(vars@), prefix@),
            ) && others@.len() == 0,
            Some(t) => match yaml_parse_of(t@) {
                None => r matches Err(ConfigError::Parse(_)),
                Some(root) => match yaml_mapping_of(root) {
                    None => r matches Err(ConfigError::RootNotMapping),
                    Some(es) => r matches Ok((m, others)) && m.wf() && m@ == overlay_of(
                        string_entries(es),
                        env_settings(pairs_view(vars@), prefix@),
                    ) && others@ == other_entries(es),
                },
            },
        },
        forall|k: Seq<char>|
            #![trigger last_setting_for(pairs_view(vars@), prefix@, k)]
            r is Ok && last_setting_for(pairs_view(vars@), prefix@, k) is Some ==> r->Ok_0.0@.contains_key(k)
                && r->Ok_0.0@[k] == match yaml_parse_of(last_setting_for(pairs_view(vars@), prefix@, k)->0) {
                Some(v) => v,
                None => yaml_string_of(last_setting_for(pairs_view(vars@), prefix@, k)->0),
            },
{
    let mut doc: StrMap<serde_yaml_ng::Value> = StrMap::new();
    let mut others: Vec<(serde_yaml_ng::Value, serde_yaml_ng::Value)> = Vec::new();
    let ghost mut es: Seq<(serde_yaml_ng::Value, serde_yaml_ng::Value)> = Seq::empty();
    match file_text {
        Some(t) => {
            let root = match parse_yaml(t) {
                Ok(v) => v,
                Err(e) => return Err(ConfigError::Parse(e)),
            };
            let entries = match mapping_entries(root) {
                Some(entries) => entries,
                None => return Err(ConfigError::RootNotMapping),
            };
            proof {
                es = entries@;
            }
            let ghost all = entries@;
            let mut rest = entries;
            let n = rest.len();
            let mut i: usize = 0;
            proof {
                assert(all.take(0) =~= Seq::<(serde_yaml_ng::Value, serde_yaml_ng::Value)>::empty());
                assert(all.skip(0) =~= all);
                assert(doc@ =~= string_entries(all.take(0)));
            }
            while i < n
                invariant
                    n == all.len(),
                    i <= n,
                    rest@ == all.skip(i as int),
                    doc.wf(),
                    doc@ == string_entries(all.take(i as int)),
                    others@ == other_entries(all.take(i as int)),
                decreases n - i,
            {
                let (k, v) = rest.remove(0);
                proof {
                    assert(all[i as int] == (k, v));
                    assert(rest@ =~= all.skip(i + 1));
                    assert(all.take(i + 1).drop_last() =~= all.take(i as int));
                    assert(all.take(i + 1).last() == (k, v));
                }
                match yaml_key(k) {
                    Ok(name) => doc.insert(name, v),
                    Err(key) => others.push((key, v)),
                }
                i = i + 1;
            }
            proof {
                assert(all.take(n as int) =~= all);
            }
        },
        None => {
            proof {
                assert(doc@ =~= Map::<Seq<char>, serde_yaml_ng::Value>::empty());
            }
        },
    }
    let raw = env_overrides(vars, prefix);
    let ghost raws = pairs_view(raw@);
    let mut settings: Vec<(String, serde_yaml_ng::Value)> = Vec::new();
    let mut rest = raw;
    let n = rest.len();
    let mut i: usize = 0;
    proof {
        assert(rest@.skip(0) =~= rest@);
        assert(keyed_view(settings@) =~= raws.take(0).map_values(
            |p: (Seq<char>, Seq<char>)| (p.0, env_value_of(p.1)),
        ));
    }
    let ghost all = rest@;
    while i < n
        invariant
            n == all.len(),
            i <= n,
            raws == pairs_view(all),
            rest@ == all.skip(i as int),
            keyed_view(settings@) == raws.take(i as int).map_values(
                |p: (Seq<char>, Seq<char>)| (p.0, env_value_of(p.1)),
            ),
        decreases n - i,
    {
        let (key, text) = rest.remove(0);
        proof {
            assert(all[i as int] == (key, text));
            assert(rest@ =~= all.skip(i + 1));
            assert(raws[i as int] == (key@, text@));
        }
        let value = match parse_yaml(text.as_str()) {
            Ok(v) => v,
            Err(_) => yaml_text(text),
        };
        let ghost before = settings@;
        settings.push((key, value));
        proof {
            assert(keyed_view(settings@) =~= keyed_view(before).push((key@, value)));
            assert(raws.take(i + 1) =~= raws.take(i as int).push(raws[i as int]));
            assert(raws.take(i + 1).map_values(|p: (Seq<char>, Seq<char>)| (p.0, env_value_of(p.1)))
                =~= raws.take(i as int).map_values(|p: (Seq<char>, Seq<char>)| (p.0, env_value_of(p.1))).push(
                (key@, env_value_of(text@)),
            ));
        }
        i = i + 1;
    }
    proof {
        assert(raws.take(n as int) =~= raws);
    }
    let ghost base = doc@;
    let merged = overlay(doc, settings);
    proof {
        assert forall|k: Seq<char>|
            #![trigger last_setting_for(pairs_view(vars@), prefix@, k)]
            last_setting_for(pairs_view(vars@), prefix@, k) is Some implies merged@.contains_key(k)
                && merged@[k] == match yaml_parse_of(last_setting_for(pairs_view(vars@), prefix@, k)->0) {
                Some(v) => v,
                None => yaml_string_of(last_setting_for(pairs_view(vars@), prefix@, k)->0),
            } by {
            lemma_every_prefixed_variable_is_set(base, pairs_view(vars@), prefix@, k);
        }
    }
    Ok((merged, others))
}

} // verus!
