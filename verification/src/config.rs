//! The stored configuration document as a tree, and the movement of API
//! keys between the document and the encrypted secrets map.
//!
//! Fields whose name ends in `_key` hold credentials. On save, their real
//! values move into the secrets map and a not-stored marker stays behind;
//! on load, markers are replaced by the stored values. The walk descends
//! through nested objects, building dotted paths.

use vstd::prelude::*;

verus! {

use vstd::string::{StrSliceExecFns, StringExecFns};
use crate::strings::str_eq;
use crate::strmap::StringMap;

/// One value of the configuration document. Numbers keep their textual
/// form: the walk never computes with them.
#[derive(Debug)]
pub enum ConfigValue {
    Null,
    Bool(bool),
    Number(String),
    Text(String),
    Array(Vec<ConfigValue>),
    Object(Vec<(String, ConfigValue)>),
}

/// The marker left in the document where a credential was moved out.
pub open spec fn spec_marker() -> Seq<char> {
    "__NOT_STORED_HERE__"@
}

/// The field name carries a credential: it ends in `_key`.
pub open spec fn ends_in_key(k: Seq<char>) -> bool {
    k.len() >= 4 && k.subrange(k.len() - 4, k.len() as int) == "_key"@
}

/// The dotted path of a child field.
pub open spec fn spec_child_path(prefix: Seq<char>, k: Seq<char>) -> Seq<char> {
    if prefix.len() == 0 {
        k
    } else {
        prefix + "."@ + k
    }
}

/// The text the secrets map yields for a path: the stored value, or empty.
pub open spec fn spec_secret_text(secrets: Map<Seq<char>, String>, path: Seq<char>) -> Seq<char> {
    if secrets.contains_key(path) {
        secrets[path]@
    } else {
        Seq::empty()
    }
}

/// How loading transforms one field value.
pub open spec fn pair_load_rel(
    k: Seq<char>,
    a: ConfigValue,
    b: ConfigValue,
    prefix: Seq<char>,
    secrets: Map<Seq<char>, String>,
) -> bool
    decreases a, 1int,
{
    if ends_in_key(k) {
        if a matches ConfigValue::Text(s) && s@ == spec_marker() {
            b matches ConfigValue::Text(t) && t@ == spec_secret_text(
                secrets,
                spec_child_path(prefix, k),
            )
        } else {
            b == a
        }
    } else {
        load_rel(a, b, spec_child_path(prefix, k), secrets)
    }
}

/// `b` is `a` with every not-stored marker under a `_key` field replaced by
/// the stored secret.
pub open spec fn load_rel(
    a: ConfigValue,
    b: ConfigValue,
    prefix: Seq<char>,
    secrets: Map<Seq<char>, String>,
) -> bool
    decreases a, 0int,
{
    match a {
        ConfigValue::Object(entries) => b matches ConfigValue::Object(out) && entries_load_rel(
            entries@,
            out@,
            prefix,
            secrets,
        ),
        _ => b == a,
    }
}

/// `eb` is `ea` field by field, each value transformed as loading demands.
pub open spec fn entries_load_rel(
    ea: Seq<(String, ConfigValue)>,
    eb: Seq<(String, ConfigValue)>,
    prefix: Seq<char>,
    secrets: Map<Seq<char>, String>,
) -> bool
    decreases ea, 0int,
{
    if ea.len() == 0 {
        eb.len() == 0
    } else {
        &&& eb.len() == ea.len()
        &&& eb.first().0 == ea.first().0
        &&& pair_load_rel(ea.first().0@, ea.first().1, eb.first().1, prefix, secrets)
        &&& entries_load_rel(ea.drop_first(), eb.drop_first(), prefix, secrets)
    }
}

proof fn lemma_entries_load_rel_push(
    ea: Seq<(String, ConfigValue)>,
    eb: Seq<(String, ConfigValue)>,
    e: (String, ConfigValue),
    f: (String, ConfigValue),
    prefix: Seq<char>,
    secrets: Map<Seq<char>, String>,
)
    requires
        entries_load_rel(ea, eb, prefix, secrets),
        f.0 == e.0,
        pair_load_rel(e.0@, e.1, f.1, prefix, secrets),
    ensures
        entries_load_rel(ea.push(e), eb.push(f), prefix, secrets),
    decreases ea.len(),
{
    if ea.len() == 0 {
        assert(ea.push(e).drop_first() =~= Seq::<(String, ConfigValue)>::empty());
        assert(eb.push(f).drop_first() =~= Seq::<(String, ConfigValue)>::empty());
        assert(ea.push(e).first() == e);
        assert(eb.push(f).first() == f);
        assert(entries_load_rel(
            Seq::<(String, ConfigValue)>::empty(),
            Seq::<(String, ConfigValue)>::empty(),
            prefix,
            secrets,
        ));
    } else {
        lemma_entries_load_rel_push(ea.drop_first(), eb.drop_first(), e, f, prefix, secrets);
        assert(ea.push(e).drop_first() =~= ea.drop_first().push(e));
        assert(eb.push(f).drop_first() =~= eb.drop_first().push(f));
        assert(ea.push(e).first() == ea.first());
        assert(eb.push(f).first() == eb.first());
    }
}

/// The field name ends in `_key`.
fn key_field(k: &str) -> (r: bool)
    ensures
        r == ends_in_key(k@),
{
    let n = k.unicode_len();
    if n < 4 {
        return false;
    }
    let tail = k.substring_char(n - 4, n);
    str_eq(tail, "_key")
}

/// The dotted path of a child field.
fn child_path(prefix: &str, k: &str) -> (r: String)
    ensures
        r@ == spec_child_path(prefix@, k@),
{
    if prefix.unicode_len() == 0 {
        k.to_owned()
    } else {
        prefix.to_owned().concat(".").concat(k)
    }
}

/// Replace every not-stored marker under a `_key` field with the secret
/// stored for its dotted path. Fields that do not end in `_key` are walked
/// recursively when they hold objects; everything else is kept as it is.
pub fn load_api_keys_from_encrypted(value: ConfigValue, prefix: &str, secrets: &StringMap<String>) -> (r:
    ConfigValue)
    requires
        secrets.wf(),
    ensures
        load_rel(value, r, prefix@, secrets@),
{
    let ghost g = value;
    load_keys_inner(value, Ghost(g), prefix, secrets)
}

fn load_keys_inner(
    value: ConfigValue,
    measure: Ghost<ConfigValue>,
    prefix: &str,
    secrets: &StringMap<String>,
) -> (r: ConfigValue)
    requires
        secrets.wf(),
        measure@ == value,
    ensures
        load_rel(measure@, r, prefix@, secrets@),
    decreases measure@,
{
    match value {
        ConfigValue::Object(entries) => {
            let ghost vec0 = entries;
            let mut rest = entries;
            let mut out: Vec<(String, ConfigValue)> = Vec::new();
            let ghost orig = vec0@;

            proof {
                broadcast use vstd::std_specs::vec::group_vec_axioms;

                assert(orig.take(0) =~= Seq::<(String, ConfigValue)>::empty());
            }

            while rest.len() > 0
                invariant
                    secrets.wf(),
                    out@.len() + rest@.len() == orig.len(),
                    rest@ =~= orig.skip(out@.len() as int),
                    entries_load_rel(orig.take(out@.len() as int), out@, prefix@, secrets@),
                    measure@ == ConfigValue::Object(vec0),
                    orig == vec0@,
                decreases rest@.len(),
            {
                let ghost out_pre = out@;
                let ghost i = out@.len() as int;
                let (k, v) = rest.remove(0);
                proof {
                    broadcast use vstd::std_specs::vec::group_vec_axioms;

                    assert(orig.skip(i)[0] == (k, v));
                    assert(rest@ =~= orig.skip(i + 1));
                    assert(measure@->Object_0 == vec0);
                    assert(decreases_to!(measure@ => measure@->Object_0));
                    assert(decreases_to!(vec0 => vec0@));
                    assert(decreases_to!(vec0@ => vec0@[i]));
                    assert(decreases_to!(vec0@[i] => v));
                    assert(decreases_to!(measure@ => v));
                }
                let new_v: ConfigValue = if key_field(k.as_str()) {
                    let path = child_path(prefix, k.as_str());
                    let replace = match &v {
                        ConfigValue::Text(s) => str_eq(s.as_str(), "__NOT_STORED_HERE__"),
                        _ => false,
                    };
                    if replace {
                        ConfigValue::Text(crate::secrets::get_api_key_from_encrypted(secrets, path.as_str()))
                    } else {
                        v
                    }
                } else {
                    let path = child_path(prefix, k.as_str());
                    let ghost gv = v;
                    load_keys_inner(v, Ghost(gv), path.as_str(), secrets)
                };
                proof {
                    assert(pair_load_rel(k@, orig[i].1, new_v, prefix@, secrets@));
                }
                let ghost e = orig[i];
                let ghost f = (k, new_v);
                out.push((k, new_v));
                proof {
                    lemma_entries_load_rel_push(orig.take(i), out_pre, e, f, prefix@, secrets@);
                    assert(orig.take(i).push(e) =~= orig.take(i + 1));
                    assert(out@ =~= out_pre.push(f));
                }
            }
            proof {
                assert(orig.take(orig.len() as int) =~= orig);
            }
            ConfigValue::Object(out)
        },
        other => other,
    }
}

/// How saving transforms one field value: a real credential moves out and
/// the not-stored marker stays behind.
pub open spec fn pair_save_rel(k: Seq<char>, a: ConfigValue, b: ConfigValue, prefix: Seq<char>) -> bool
    decreases a, 1int,
{
    if ends_in_key(k) {
        if a matches ConfigValue::Text(s) && s@.len() > 0 && s@ != spec_marker() {
            b matches ConfigValue::Text(t) && t@ == spec_marker()
        } else {
            b == a
        }
    } else {
        save_rel(a, b, spec_child_path(prefix, k))
    }
}

/// `b` is `a` with every real credential under a `_key` field replaced by
/// the not-stored marker.
pub open spec fn save_rel(a: ConfigValue, b: ConfigValue, prefix: Seq<char>) -> bool
    decreases a, 0int,
{
    match a {
        ConfigValue::Object(entries) => b matches ConfigValue::Object(out) && entries_save_rel(
            entries@,
            out@,
            prefix,
        ),
        _ => b == a,
    }
}

/// `eb` is `ea` field by field, each value transformed as saving demands.
pub open spec fn entries_save_rel(
    ea: Seq<(String, ConfigValue)>,
    eb: Seq<(String, ConfigValue)>,
    prefix: Seq<char>,
) -> bool
    decreases ea, 0int,
{
    if ea.len() == 0 {
        eb.len() == 0
    } else {
        &&& eb.len() == ea.len()
        &&& eb.first().0 == ea.first().0
        &&& pair_save_rel(ea.first().0@, ea.first().1, eb.first().1, prefix)
        &&& entries_save_rel(ea.drop_first(), eb.drop_first(), prefix)
    }
}

/// What one field contributes to the secrets map.
pub open spec fn pair_save_map(
    k: Seq<char>,
    v: ConfigValue,
    prefix: Seq<char>,
    m: Map<Seq<char>, String>,
) -> Map<Seq<char>, String>
    decreases v, 1int,
{
    if ends_in_key(k) {
        match v {
            ConfigValue::Text(s) => if s@.len() > 0 && s@ != spec_marker() {
                m.insert(spec_child_path(prefix, k), s)
            } else {
                m
            },
            _ => m,
        }
    } else {
        save_map(v, spec_child_path(prefix, k), m)
    }
}

/// The secrets map after saving a document: every real credential under a
/// `_key` field inserted under its dotted path, in document order.
pub open spec fn save_map(v: ConfigValue, prefix: Seq<char>, m: Map<Seq<char>, String>) -> Map<
    Seq<char>,
    String,
>
    decreases v, 0int,
{
    match v {
        ConfigValue::Object(entries) => entries_save_map(entries@, prefix, m),
        _ => m,
    }
}

pub open spec fn entries_save_map(
    es: Seq<(String, ConfigValue)>,
    prefix: Seq<char>,
    m: Map<Seq<char>, String>,
) -> Map<Seq<char>, String>
    decreases es, 0int,
{
    if es.len() == 0 {
        m
    } else {
        entries_save_map(
            es.drop_first(),
            prefix,
            pair_save_map(es.first().0@, es.first().1, prefix, m),
        )
    }
}

proof fn lemma_entries_save_rel_push(
    ea: Seq<(String, ConfigValue)>,
    eb: Seq<(String, ConfigValue)>,
    e: (String, ConfigValue),
    f: (String, ConfigValue),
    prefix: Seq<char>,
)
    requires
        entries_save_rel(ea, eb, prefix),
        f.0 == e.0,
        pair_save_rel(e.0@, e.1, f.1, prefix),
    ensures
        entries_save_rel(ea.push(e), eb.push(f), prefix),
    decreases ea.len(),
{
    if ea.len() == 0 {
        assert(ea.push(e).drop_first() =~= Seq::<(String, ConfigValue)>::empty());
        assert(eb.push(f).drop_first() =~= Seq::<(String, ConfigValue)>::empty());
        assert(ea.push(e).first() == e);
        assert(eb.push(f).first() == f);
        assert(entries_save_rel(
            Seq::<(String, ConfigValue)>::empty(),
            Seq::<(String, ConfigValue)>::empty(),
            prefix,
        ));
    } else {
        lemma_entries_save_rel_push(ea.drop_first(), eb.drop_first(), e, f, prefix);
        assert(ea.push(e).drop_first() =~= ea.drop_first().push(e));
        assert(eb.push(f).drop_first() =~= eb.drop_first().push(f));
        assert(ea.push(e).first() == ea.first());
        assert(eb.push(f).first() == eb.first());
    }
}

proof fn lemma_entries_save_map_push(
    es: Seq<(String, ConfigValue)>,
    e: (String, ConfigValue),
    prefix: Seq<char>,
    m: Map<Seq<char>, String>,
)
    ensures
        entries_save_map(es.push(e), prefix, m) == pair_save_map(
            e.0@,
            e.1,
            prefix,
            entries_save_map(es, prefix, m),
        ),
    decreases es.len(),
{
    if es.len() == 0 {
        assert(es.push(e).drop_first() =~= Seq::<(String, ConfigValue)>::empty());
        assert(es.push(e).first() == e);
        assert(entries_save_map(
            Seq::<(String, ConfigValue)>::empty(),
            prefix,
            pair_save_map(e.0@, e.1, prefix, m),
        ) == pair_save_map(e.0@, e.1, prefix, m));
    } else {
        lemma_entries_save_map_push(
            es.drop_first(),
            e,
            prefix,
            pair_save_map(es.first().0@, es.first().1, prefix, m),
        );
        assert(es.push(e).drop_first() =~= es.drop_first().push(e));
        assert(es.push(e).first() == es.first());
    }
}

/// Move every real credential under a `_key` field into the secrets map,
/// leaving the not-stored marker behind. One function serves both the save
/// path and the one-time migration of keys that still sit in the document.
pub fn save_api_keys_to_encrypted(value: ConfigValue, prefix: &str, secrets: &mut StringMap<String>) -> (r:
    ConfigValue)
    requires
        old(secrets).wf(),
    ensures
        final(secrets).wf(),
        save_rel(value, r, prefix@),
        final(secrets)@ == save_map(value, prefix@, old(secrets)@),
{
    let ghost g = value;
    save_keys_inner(value, Ghost(g), prefix, secrets)
}

fn save_keys_inner(
    value: ConfigValue,
    measure: Ghost<ConfigValue>,
    prefix: &str,
    secrets: &mut StringMap<String>,
) -> (r: ConfigValue)
    requires
        old(secrets).wf(),
        measure@ == value,
    ensures
        final(secrets).wf(),
        save_rel(measure@, r, prefix@),
        final(secrets)@ == save_map(measure@, prefix@, old(secrets)@),
    decreases measure@,
{
    match value {
        ConfigValue::Object(entries) => {
            let ghost vec0 = entries;
            let ghost m0 = secrets@;
            let mut rest = entries;
            let mut out: Vec<(String, ConfigValue)> = Vec::new();
            let ghost orig = vec0@;

            proof {
                broadcast use vstd::std_specs::vec::group_vec_axioms;

                assert(orig.take(0) =~= Seq::<(String, ConfigValue)>::empty());
            }

            while rest.len() > 0
                invariant
                    secrets.wf(),
                    out@.len() + rest@.len() == orig.len(),
                    rest@ =~= orig.skip(out@.len() as int),
                    entries_save_rel(orig.take(out@.len() as int), out@, prefix@),
                    secrets@ == entries_save_map(orig.take(out@.len() as int), prefix@, m0),
                    measure@ == ConfigValue::Object(vec0),
                    orig == vec0@,
                decreases rest@.len(),
            {
                let ghost out_pre = out@;
                let ghost m_pre = secrets@;
                let ghost i = out@.len() as int;
                let (k, v) = rest.remove(0);
                proof {
                    broadcast use vstd::std_specs::vec::group_vec_axioms;

                    assert(orig.skip(i)[0] == (k, v));
                    assert(rest@ =~= orig.skip(i + 1));
                    assert(measure@->Object_0 == vec0);
                    assert(decreases_to!(measure@ => measure@->Object_0));
                    assert(decreases_to!(vec0 => vec0@));
                    assert(decreases_to!(vec0@ => vec0@[i]));
                    assert(decreases_to!(vec0@[i] => v));
                    assert(decreases_to!(measure@ => v));
                }
                let new_v: ConfigValue = if key_field(k.as_str()) {
                    let path = child_path(prefix, k.as_str());
                    match v {
                        ConfigValue::Text(s) => {
                            let keep = s.as_str().unicode_len() == 0 || str_eq(
                                s.as_str(),
                                "__NOT_STORED_HERE__",
                            );
                            if keep {
                                ConfigValue::Text(s)
                            } else {
                                crate::secrets::store_api_key_in_encrypted(secrets, path.as_str(), s);
                                ConfigValue::Text(String::from_str("__NOT_STORED_HERE__"))
                            }
                        },
                        other_v => other_v,
                    }
                } else {
                    let path = child_path(prefix, k.as_str());
                    let ghost gv = v;
                    save_keys_inner(v, Ghost(gv), path.as_str(), secrets)
                };
                proof {
                    assert(pair_save_rel(k@, orig[i].1, new_v, prefix@));
                    assert(secrets@ == pair_save_map(k@, orig[i].1, prefix@, m_pre));
                }
                let ghost e = orig[i];
                let ghost f = (k, new_v);
                out.push((k, new_v));
                proof {
                    lemma_entries_save_rel_push(orig.take(i), out_pre, e, f, prefix@);
                    lemma_entries_save_map_push(orig.take(i), e, prefix@, m0);
                    assert(orig.take(i).push(e) =~= orig.take(i + 1));
                    assert(out@ =~= out_pre.push(f));
                }
            }
            proof {
                assert(orig.take(orig.len() as int) =~= orig);
            }
            ConfigValue::Object(out)
        },
        other => other,
    }
}

} // verus!
