//! The configuration document that tells the launched browser its automation
//! arguments and environment.
use vstd::prelude::*;
use vstd::string::*;

verus! {

#[verifier::external_type_specification]
#[verifier::external_body]
pub struct ExMapping(serde_yaml::Mapping);

/// An environment as ordered key/value pairs.
pub type Entries = Seq<(Seq<char>, Seq<char>)>;

/// The string pairs that a YAML mapping holds, in its order.
pub uninterp spec fn mapping_entries(m: serde_yaml::Mapping) -> Entries;

/// The YAML text of the two-field document
/// `{ <env_key>: <env>, <args_key>: [<args>...] }`.
pub uninterp spec fn yaml_config_text(
    env_key: Seq<char>,
    env: Entries,
    args_key: Seq<char>,
    args: Seq<Seq<char>>,
) -> Seq<char>;

/// Fixed banner that opens every configuration document.
pub const CONFIG_FILE_HEADING: &'static str = "## GeckoView configuration YAML\n##\n## Auto-generated by geckodriver.\n## See https://mozilla.github.io/geckoview/consumer/docs/automation.\n";

/// Field of the document that holds the environment mapping.
pub const ENV_FIELD: &'static str = "env";

/// Field of the document that holds the launch arguments.
pub const ARGS_FIELD: &'static str = "args";

/// Environment keys that the document always sets to `"1"`.
pub const CRASHREPORTER_KEY: &'static str = "MOZ_CRASHREPORTER";
pub const CRASHREPORTER_NO_REPORT_KEY: &'static str = "MOZ_CRASHREPORTER_NO_REPORT";
pub const CRASHREPORTER_SHUTDOWN_KEY: &'static str = "MOZ_CRASHREPORTER_SHUTDOWN";

/// `s` after setting `k` to `v`: an existing key keeps its place and takes the
/// new value, a new key goes last.
pub open spec fn with_entry(s: Entries, k: Seq<char>, v: Seq<char>) -> Entries
    decreases s.len(),
{
    if s.len() == 0 {
        seq![(k, v)]
    } else if s[0].0 == k {
        seq![(k, v)] + s.drop_first()
    } else {
        seq![s[0]] + with_entry(s.drop_first(), k, v)
    }
}

/// The value of the first entry for `k`.
pub open spec fn lookup(s: Entries, k: Seq<char>) -> Option<Seq<char>>
    decreases s.len(),
{
    if s.len() == 0 {
        None
    } else if s[0].0 == k {
        Some(s[0].1)
    } else {
        lookup(s.drop_first(), k)
    }
}

/// Every key occurs once.
pub open spec fn unique_keys(s: Entries) -> bool {
    forall|i: int, j: int| 0 <= i < j < s.len() ==> s[i].0 != s[j].0
}

/// The caller's pairs set one after another into an empty mapping.
pub open spec fn caller_env(envs: Entries) -> Entries
    decreases envs.len(),
{
    if envs.len() == 0 {
        seq![]
    } else {
        with_entry(caller_env(envs.drop_last()), envs.last().0, envs.last().1)
    }
}

/// The `env` mapping of the document: the caller's pairs, then the three
/// crash-reporter keys set to `"1"`.
pub open spec fn config_env(envs: Entries) -> Entries {
    with_entry(
        with_entry(
            with_entry(caller_env(envs), CRASHREPORTER_KEY@, "1"@),
            CRASHREPORTER_NO_REPORT_KEY@,
            "1"@,
        ),
        CRASHREPORTER_SHUTDOWN_KEY@,
        "1"@,
    )
}

/// The `args` sequence of the document.
pub open spec fn config_args(profile: Seq<char>) -> Seq<Seq<char>> {
    seq!["-marionette"@, "-profile"@, profile]
}

/// The whole document for a profile path and the caller's pairs.
pub open spec fn config_text(profile: Seq<char>, envs: Entries) -> Seq<char> {
    CONFIG_FILE_HEADING@ + yaml_config_text(
        ENV_FIELD@,
        config_env(envs),
        ARGS_FIELD@,
        config_args(profile),
    )
}

/// The value of the last pair for `k` among the caller's pairs.
pub open spec fn last_value(envs: Entries, k: Seq<char>) -> Option<Seq<char>>
    decreases envs.len(),
{
    if envs.len() == 0 {
        None
    } else if envs.last().0 == k {
        Some(envs.last().1)
    } else {
        last_value(envs.drop_last(), k)
    }
}

proof fn lemma_lookup_with_entry(s: Entries, k: Seq<char>, v: Seq<char>, k2: Seq<char>)
    ensures
        lookup(with_entry(s, k, v), k2) == if k2 == k {
            Some(v)
        } else {
            lookup(s, k2)
        },
    decreases s.len(),
{
    if s.len() == 0 {
        assert(seq![(k, v)].drop_first() =~= s);
    } else {
        if s[0].0 == k {
            let t = seq![(k, v)] + s.drop_first();
            assert(t[0] == (k, v));
            assert(t.drop_first() =~= s.drop_first());
        } else {
            lemma_lookup_with_entry(s.drop_first(), k, v, k2);
            assert((seq![s[0]] + with_entry(s.drop_first(), k, v))[0] == s[0]);
            assert((seq![s[0]] + with_entry(s.drop_first(), k, v)).drop_first() =~= with_entry(
                s.drop_first(),
                k,
                v,
            ));
        }
    }
}

proof fn lemma_caller_env_lookup(envs: Entries, k: Seq<char>)
    ensures
        lookup(caller_env(envs), k) == last_value(envs, k),
    decreases envs.len(),
{
    if envs.len() > 0 {
        lemma_caller_env_lookup(envs.drop_last(), k);
        lemma_lookup_with_entry(caller_env(envs.drop_last()), envs.last().0, envs.last().1, k);
    }
}

proof fn lemma_fixed_keys_distinct()
    ensures
        CRASHREPORTER_KEY@ != CRASHREPORTER_NO_REPORT_KEY@,
        CRASHREPORTER_KEY@ != CRASHREPORTER_SHUTDOWN_KEY@,
        CRASHREPORTER_NO_REPORT_KEY@ != CRASHREPORTER_SHUTDOWN_KEY@,
{
    reveal_strlit("MOZ_CRASHREPORTER");
    reveal_strlit("MOZ_CRASHREPORTER_NO_REPORT");
    reveal_strlit("MOZ_CRASHREPORTER_SHUTDOWN");
    assert(CRASHREPORTER_KEY@.len() != CRASHREPORTER_NO_REPORT_KEY@.len());
    assert(CRASHREPORTER_KEY@.len() != CRASHREPORTER_SHUTDOWN_KEY@.len());
    assert(CRASHREPORTER_NO_REPORT_KEY@.len() != CRASHREPORTER_SHUTDOWN_KEY@.len());
}

/// Whatever pairs the caller supplies, even ones that reuse a crash-reporter
/// key, each of the three crash-reporter keys of the document is `"1"`.
pub proof fn lemma_fixed_keys_win(envs: Entries)
    ensures
        lookup(config_env(envs), CRASHREPORTER_KEY@) == Some("1"@),
        lookup(config_env(envs), CRASHREPORTER_NO_REPORT_KEY@) == Some("1"@),
        lookup(config_env(envs), CRASHREPORTER_SHUTDOWN_KEY@) == Some("1"@),
{
    lemma_fixed_keys_distinct();
    let e0 = caller_env(envs);
    let e1 = with_entry(e0, CRASHREPORTER_KEY@, "1"@);
    let e2 = with_entry(e1, CRASHREPORTER_NO_REPORT_KEY@, "1"@);
    lemma_lookup_with_entry(e0, CRASHREPORTER_KEY@, "1"@, CRASHREPORTER_KEY@);
    lemma_lookup_with_entry(e1, CRASHREPORTER_NO_REPORT_KEY@, "1"@, CRASHREPORTER_KEY@);
    lemma_lookup_with_entry(e1, CRASHREPORTER_NO_REPORT_KEY@, "1"@, CRASHREPORTER_NO_REPORT_KEY@);
    lemma_lookup_with_entry(e2, CRASHREPORTER_SHUTDOWN_KEY@, "1"@, CRASHREPORTER_KEY@);
    lemma_lookup_with_entry(e2, CRASHREPORTER_SHUTDOWN_KEY@, "1"@, CRASHREPORTER_NO_REPORT_KEY@);
    lemma_lookup_with_entry(e2, CRASHREPORTER_SHUTDOWN_KEY@, "1"@, CRASHREPORTER_SHUTDOWN_KEY@);
}

/// Any other key of the document has the value of the caller's last pair
/// for it, and is absent where the caller gave none.
pub proof fn lemma_caller_values_kept(envs: Entries, k: Seq<char>)
    requires
        k != CRASHREPORTER_KEY@,
        k != CRASHREPORTER_NO_REPORT_KEY@,
        k != CRASHREPORTER_SHUTDOWN_KEY@,
    ensures
        lookup(config_env(envs), k) == last_value(envs, k),
{
    let e0 = caller_env(envs);
    let e1 = with_entry(e0, CRASHREPORTER_KEY@, "1"@);
    let e2 = with_entry(e1, CRASHREPORTER_NO_REPORT_KEY@, "1"@);
    lemma_caller_env_lookup(envs, k);
    lemma_lookup_with_entry(e0, CRASHREPORTER_KEY@, "1"@, k);
    lemma_lookup_with_entry(e1, CRASHREPORTER_NO_REPORT_KEY@, "1"@, k);
    lemma_lookup_with_entry(e2, CRASHREPORTER_SHUTDOWN_KEY@, "1"@, k);
}

proof fn lemma_with_entry_new(s: Entries, k: Seq<char>, v: Seq<char>)
    requires
        forall|j: int| 0 <= j < s.len() ==> s[j].0 != k,
    ensures
        with_entry(s, k, v) == s.push((k, v)),
    decreases s.len(),
{
    if s.len() == 0 {
        assert(seq![(k, v)] =~= s.push((k, v)));
    } else {
        let t = s.drop_first();
        assert forall|j: int| 0 <= j < t.len() implies t[j].0 != k by {
            assert(t[j] == s[j + 1]);
        }
        lemma_with_entry_new(t, k, v);
        assert(seq![s[0]] + t.push((k, v)) =~= s.push((k, v)));
    }
}

proof fn lemma_with_entry_existing(s: Entries, k: Seq<char>, v: Seq<char>, i: int)
    requires
        0 <= i < s.len(),
        s[i].0 == k,
        forall|j: int| 0 <= j < i ==> s[j].0 != k,
    ensures
        with_entry(s, k, v) == s.update(i, (k, v)),
    decreases s.len(),
{
    if i == 0 {
        assert(seq![(k, v)] + s.drop_first() =~= s.update(0, (k, v)));
    } else {
        let t = s.drop_first();
        assert(s[0].0 != k);
        assert(t[i - 1] == s[i]);
        assert forall|j: int| 0 <= j < i - 1 implies t[j].0 != k by {
            assert(t[j] == s[j + 1]);
        }
        lemma_with_entry_existing(t, k, v, i - 1);
        assert(seq![s[0]] + t.update(i - 1, (k, v)) =~= s.update(i, (k, v)));
    }
}

proof fn lemma_with_entry_unique(s: Entries, k: Seq<char>, v: Seq<char>)
    requires
        unique_keys(s),
    ensures
        unique_keys(with_entry(s, k, v)),
{
    if exists|i: int| 0 <= i < s.len() && s[i].0 == k {
        let i = choose|i: int| 0 <= i < s.len() && s[i].0 == k;
        assert forall|j: int| 0 <= j < i implies s[j].0 != k by {
            if s[j].0 == k {
                assert(s[j].0 == s[i].0);
            }
        }
        lemma_with_entry_existing(s, k, v, i);
        let w = s.update(i, (k, v));
        assert forall|a: int, b: int| 0 <= a < b < w.len() implies w[a].0 != w[b].0 by {
            assert(w[a].0 == s[a].0);
            assert(w[b].0 == s[b].0);
        }
    } else {
        lemma_with_entry_new(s, k, v);
        let w = s.push((k, v));
        assert forall|a: int, b: int| 0 <= a < b < w.len() implies w[a].0 != w[b].0 by {
            assert(w[a] == s[a]);
            if b < s.len() {
                assert(w[b] == s[b]);
            }
        }
    }
}

proof fn lemma_caller_env_unique(envs: Entries)
    ensures
        unique_keys(caller_env(envs)),
    decreases envs.len(),
{
    if envs.len() > 0 {
        lemma_caller_env_unique(envs.drop_last());
        lemma_with_entry_unique(caller_env(envs.drop_last()), envs.last().0, envs.last().1);
    }
}

/// Every key of the document's `env` mapping occurs once, whatever pairs the
/// caller supplies.
pub proof fn lemma_config_env_unique(envs: Entries)
    ensures
        unique_keys(config_env(envs)),
{
    let e0 = caller_env(envs);
    let e1 = with_entry(e0, CRASHREPORTER_KEY@, "1"@);
    let e2 = with_entry(e1, CRASHREPORTER_NO_REPORT_KEY@, "1"@);
    lemma_caller_env_unique(envs);
    lemma_with_entry_unique(e0, CRASHREPORTER_KEY@, "1"@);
    lemma_with_entry_unique(e1, CRASHREPORTER_NO_REPORT_KEY@, "1"@);
    lemma_with_entry_unique(e2, CRASHREPORTER_SHUTDOWN_KEY@, "1"@);
}

/// The view of a vector of string pairs.
pub open spec fn pairs_view(v: Seq<(String, String)>) -> Entries {
    v.map_values(|p: (String, String)| (p.0@, p.1@))
}

/// Relies on serde_yaml::Mapping::new: the mapping starts empty.
#[verifier::external_body]
fn mapping_new() -> (r: serde_yaml::Mapping)
    ensures
        mapping_entries(r) == Seq::<(Seq<char>, Seq<char>)>::empty(),
{
    serde_yaml::Mapping::new()
}

/// Relies on serde_yaml::Mapping::insert, an `IndexMap` insert: an existing
/// key keeps its position and takes the new value, a new key is appended.
#[verifier::external_body]
fn mapping_insert(m: &mut serde_yaml::Mapping, k: String, v: String)
    ensures
        mapping_entries(*final(m)) == with_entry(mapping_entries(*old(m)), k@, v@),
{
    m.insert(serde_yaml::Value::String(k), serde_yaml::Value::String(v));
}

/// Relies on serde_yaml::to_string, applied to the mapping whose field
/// `env_key` holds `env` and whose field `args_key` holds `args`. Strings,
/// sequences and mappings serialise without error, and the output goes to a
/// `Vec`, which never fails to take it, so the call succeeds.
#[verifier::external_body]
fn document_to_string(
    env_key: &str,
    env: serde_yaml::Mapping,
    args_key: &str,
    args: Vec<String>,
) -> (r: Result<String, serde_yaml::Error>)
    ensures
        r is Ok,
        r->Ok_0@ == yaml_config_text(
            env_key@,
            mapping_entries(env),
            args_key@,
            args@.map_values(|a: String| a@),
        ),
{
    let mut doc = serde_yaml::Mapping::new();
    doc.insert(serde_yaml::Value::String(env_key.to_owned()), serde_yaml::Value::Mapping(env));
    let seq = args.into_iter().map(serde_yaml::Value::String).collect();
    doc.insert(serde_yaml::Value::String(args_key.to_owned()), serde_yaml::Value::Sequence(seq));
    serde_yaml::to_string(&serde_yaml::Value::Mapping(doc))
}

/// The `env` mapping of the document built from the caller's pairs.
fn env_mapping(envs: &Vec<(String, String)>) -> (r: serde_yaml::Mapping)
    ensures
        mapping_entries(r) == config_env(pairs_view(envs@)),
{
    let mut m = mapping_new();
    let mut i: usize = 0;
    while i < envs.len()
        invariant
            i <= envs.len(),
            mapping_entries(m) == caller_env(pairs_view(envs@.subrange(0, i as int))),
        decreases envs.len() - i,
    {
        let k = envs[i].0.clone();
        let v = envs[i].1.clone();
        mapping_insert(&mut m, k, v);
        proof {
            let before = pairs_view(envs@.subrange(0, i as int));
            let after = pairs_view(envs@.subrange(0, i + 1));
            assert(after.drop_last() =~= before);
        }
        i += 1;
    }
    proof {
        assert(envs@.subrange(0, envs@.len() as int) =~= envs@);
    }
    mapping_insert(&mut m, String::from_str(CRASHREPORTER_KEY), String::from_str("1"));
    mapping_insert(&mut m, String::from_str(CRASHREPORTER_NO_REPORT_KEY), String::from_str("1"));
    mapping_insert(&mut m, String::from_str(CRASHREPORTER_SHUTDOWN_KEY), String::from_str("1"));
    m
}

/// Builds the configuration document for the profile at `profile` on the
/// device: the fixed banner, then the YAML of `env` and `args`.
pub fn generate_config(profile: &str, envs: &Vec<(String, String)>) -> (r: Result<String, serde_yaml::Error>)
    ensures
        r is Ok,
        r->Ok_0@ == config_text(profile@, pairs_view(envs@)),
{
    let env = env_mapping(envs);
    let args: Vec<String> = vec![String::from_str("-marionette"), String::from_str("-profile"), String::from_str(profile)];
    proof {
        assert(args@.map_values(|a: String| a@) =~= config_args(profile@));
    }
    match document_to_string(ENV_FIELD, env, ARGS_FIELD, args) {
        Ok(body) => {
            let mut text = String::from_str(CONFIG_FILE_HEADING);
            text.append(body.as_str());
            Ok(text)
        },
        Err(e) => Err(e),
    }
}

} // verus!
