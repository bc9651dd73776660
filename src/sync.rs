use vstd::prelude::*;

use crate::json::{
    deep_merge, lemma_object_well_named, members, merge_holds, remove_member, same_json,
    set_member, well_named, Json,
};
use crate::models::{
    ClaudeActiveConfig, CodexActiveConfig, GeminiActiveConfig, OpenCodeActiveConfig, OpenCodeConfig,
    OpenCodeModelInfo, OpenCodeModelLimit, OpenCodeProvider,
};
use crate::table::{has_name, lemma_map_at, lemma_map_remove, map_of, names_distinct, position_of};
use crate::table::Table;
use crate::text::{decimal, decimal_text, owned};

verus! {

// ---------------------------------------------------------------------------
// Anthropic: the shared settings document, merged
// ---------------------------------------------------------------------------

/// Keys that the settings synchronisation owns at the top of the document.
pub open spec fn claude_top_owned(k: Seq<char>) -> bool {
    ||| k == "ANTHROPIC_AUTH_TOKEN"@
    ||| k == "ANTHROPIC_BASE_URL"@
    ||| k == "ANTHROPIC_VERTEX_BASE_URL"@
    ||| k == "ANTHROPIC_VERTEX_PROJECT_ID"@
    ||| k == "CLAUDE_CODE_USE_VERTEX"@
    ||| k == "CLAUDE_CODE_SKIP_VERTEX_AUTH"@
}

/// Keys that the settings synchronisation owns inside the `env` object.
pub open spec fn claude_env_owned(k: Seq<char>) -> bool {
    ||| claude_top_owned(k)
    ||| k == "CLAUDE_CODE_DISABLE_NONESSENTIAL_TRAFFIC"@
}

/// Keys that only the Vertex mode writes.
pub open spec fn claude_vertex_only(k: Seq<char>) -> bool {
    ||| k == "ANTHROPIC_VERTEX_BASE_URL"@
    ||| k == "ANTHROPIC_VERTEX_PROJECT_ID"@
    ||| k == "CLAUDE_CODE_USE_VERTEX"@
    ||| k == "CLAUDE_CODE_SKIP_VERTEX_AUTH"@
    ||| k == "CLAUDE_CODE_DISABLE_NONESSENTIAL_TRAFFIC"@
}

/// Keys that only the direct mode writes.
pub open spec fn claude_direct_only(k: Seq<char>) -> bool {
    k == "ANTHROPIC_BASE_URL"@
}

/// The `env` entries that the active configuration calls for.
pub open spec fn claude_env_values(a: ClaudeActiveConfig) -> Map<Seq<char>, Seq<char>> {
    let base = Map::<Seq<char>, Seq<char>>::empty().insert("ANTHROPIC_AUTH_TOKEN"@, a.token@);
    if a.vertex.enabled {
        let m1 = base.insert("CLAUDE_CODE_USE_VERTEX"@, "1"@);
        let m2 = match a.vertex.project_id {
            Some(p) => m1.insert("ANTHROPIC_VERTEX_PROJECT_ID"@, p@),
            None => m1,
        };
        let m3 = match a.vertex.base_url {
            Some(u) => m2.insert("ANTHROPIC_VERTEX_BASE_URL"@, u@),
            None => m2,
        };
        let m4 = if a.vertex.skip_auth {
            m3.insert("CLAUDE_CODE_SKIP_VERTEX_AUTH"@, "1"@)
        } else {
            m3
        };
        m4.insert("CLAUDE_CODE_DISABLE_NONESSENTIAL_TRAFFIC"@, "1"@)
    } else {
        match a.base_url {
            Some(u) => base.insert("ANTHROPIC_BASE_URL"@, u@),
            None => base,
        }
    }
}

/// `j` is an object whose members are the texts of `m`.
pub open spec fn texts_object(j: Json, m: Map<Seq<char>, Seq<char>>) -> bool {
    &&& j is Object
    &&& members(j).dom() == m.dom()
    &&& forall|k: Seq<char>|
        #[trigger] m.contains_key(k) ==> members(j)[k] is Text && members(j)[k]->Text_0@ == m[k]
}

/// The members of a document read from disk; a document that is not an object counts as empty.
pub open spec fn base_members(existing: Option<Json>) -> Map<Seq<char>, Json> {
    match existing {
        Some(j) => members(j),
        None => Map::empty(),
    }
}

/// The `env` object after synchronisation, given the `env` value found before.
pub open spec fn claude_env_holds(found: Option<Json>, a: ClaudeActiveConfig, e: Json) -> bool {
    if found is Some && !(found->Some_0 is Object) {
        e == found->Some_0
    } else {
        let before = base_members(found);
        let vals = claude_env_values(a);
        &&& e is Object
        &&& forall|k: Seq<char>|
            !claude_env_owned(k) ==> (#[trigger] members(e).contains_key(k) <==> before.contains_key(k))
        &&& forall|k: Seq<char>|
            !claude_env_owned(k) && #[trigger] before.contains_key(k) ==> members(e)[k] == before[k]
        &&& forall|k: Seq<char>|
            claude_env_owned(k) ==> (#[trigger] members(e).contains_key(k) <==> vals.contains_key(k))
        &&& forall|k: Seq<char>|
            #[trigger] vals.contains_key(k) ==> members(e)[k] is Text && members(e)[k]->Text_0@
                == vals[k]
    }
}

/// The settings document after synchronisation, given the one found before.
pub open spec fn claude_settings_holds(existing: Option<Json>, a: ClaudeActiveConfig, r: Json) -> bool {
    let before = base_members(existing);
    let after = members(r);
    &&& r is Object
    &&& forall|k: Seq<char>|
        !claude_top_owned(k) && k != "env"@ ==> (#[trigger] after.contains_key(k)
            <==> before.contains_key(k))
    &&& forall|k: Seq<char>|
        !claude_top_owned(k) && k != "env"@ && #[trigger] before.contains_key(k) ==> after[k]
            == before[k]
    &&& forall|k: Seq<char>| claude_top_owned(k) ==> !#[trigger] after.contains_key(k)
    &&& after.contains_key("env"@)
    &&& claude_env_holds(
        if before.contains_key("env"@) {
            Some(before["env"@])
        } else {
            None
        },
        a,
        after["env"@],
    )
}

/// The `env` entries that the active configuration calls for, as an object.
pub fn claude_env(a: &ClaudeActiveConfig) -> (r: Json)
    ensures
        texts_object(r, claude_env_values(*a)),
        well_named(r),
{
    let mut f: Vec<(String, Json)> = Vec::new();
    let ghost m0 = Map::<Seq<char>, Seq<char>>::empty();
    set_member(&mut f, owned("ANTHROPIC_AUTH_TOKEN"), Json::Text(a.token.clone()));
    let ghost mut m = m0.insert("ANTHROPIC_AUTH_TOKEN"@, a.token@);
    if a.vertex.enabled {
        set_member(&mut f, owned("CLAUDE_CODE_USE_VERTEX"), Json::Text(owned("1")));
        proof {
            m = m.insert("CLAUDE_CODE_USE_VERTEX"@, "1"@);
        }
        if let Some(p) = &a.vertex.project_id {
            set_member(&mut f, owned("ANTHROPIC_VERTEX_PROJECT_ID"), Json::Text(p.clone()));
            proof {
                m = m.insert("ANTHROPIC_VERTEX_PROJECT_ID"@, p@);
            }
        }
        if let Some(u) = &a.vertex.base_url {
            set_member(&mut f, owned("ANTHROPIC_VERTEX_BASE_URL"), Json::Text(u.clone()));
            proof {
                m = m.insert("ANTHROPIC_VERTEX_BASE_URL"@, u@);
            }
        }
        if a.vertex.skip_auth {
            set_member(&mut f, owned("CLAUDE_CODE_SKIP_VERTEX_AUTH"), Json::Text(owned("1")));
            proof {
                m = m.insert("CLAUDE_CODE_SKIP_VERTEX_AUTH"@, "1"@);
            }
        }
        set_member(
            &mut f,
            owned("CLAUDE_CODE_DISABLE_NONESSENTIAL_TRAFFIC"),
            Json::Text(owned("1")),
        );
        proof {
            m = m.insert("CLAUDE_CODE_DISABLE_NONESSENTIAL_TRAFFIC"@, "1"@);
        }
    } else {
        if let Some(u) = &a.base_url {
            set_member(&mut f, owned("ANTHROPIC_BASE_URL"), Json::Text(u.clone()));
            proof {
                m = m.insert("ANTHROPIC_BASE_URL"@, u@);
            }
        }
    }
    proof {
        assert(m == claude_env_values(*a));
        assert(members(Json::Object(f)).dom() =~= m.dom());
        lemma_object_well_named(f);
    }
    Json::Object(f)
}

proof fn lemma_env_not_owned()
    ensures
        !claude_top_owned("env"@),
        !claude_env_owned("env"@),
{
    reveal_strlit("env");
    reveal_strlit("ANTHROPIC_AUTH_TOKEN");
    reveal_strlit("ANTHROPIC_BASE_URL");
    reveal_strlit("ANTHROPIC_VERTEX_BASE_URL");
    reveal_strlit("ANTHROPIC_VERTEX_PROJECT_ID");
    reveal_strlit("CLAUDE_CODE_USE_VERTEX");
    reveal_strlit("CLAUDE_CODE_SKIP_VERTEX_AUTH");
    reveal_strlit("CLAUDE_CODE_DISABLE_NONESSENTIAL_TRAFFIC");
    assert("env"@.len() == 3);
    assert("ANTHROPIC_AUTH_TOKEN"@.len() != 3);
    assert("ANTHROPIC_BASE_URL"@.len() != 3);
    assert("ANTHROPIC_VERTEX_BASE_URL"@.len() != 3);
    assert("ANTHROPIC_VERTEX_PROJECT_ID"@.len() != 3);
    assert("CLAUDE_CODE_USE_VERTEX"@.len() != 3);
    assert("CLAUDE_CODE_SKIP_VERTEX_AUTH"@.len() != 3);
    assert("CLAUDE_CODE_DISABLE_NONESSENTIAL_TRAFFIC"@.len() != 3);
}

proof fn lemma_env_values_owned(a: ClaudeActiveConfig)
    ensures
        forall|k: Seq<char>| #[trigger] claude_env_values(a).contains_key(k) ==> claude_env_owned(k),
{
}

/// Merging the owned entries into an `env` object stripped of owned keys.
proof fn lemma_env_merge(t: Json, s: Json, r: Json, a: ClaudeActiveConfig)
    requires
        t is Object,
        forall|k: Seq<char>| claude_env_owned(k) ==> !#[trigger] members(t).contains_key(k),
        texts_object(s, claude_env_values(a)),
        well_named(s),
        merge_holds(t, s, r),
    ensures
        r is Object,
        forall|k: Seq<char>|
            !claude_env_owned(k) ==> (#[trigger] members(r).contains_key(k) <==> members(t).contains_key(k)),
        forall|k: Seq<char>|
            !claude_env_owned(k) && #[trigger] members(t).contains_key(k) ==> members(r)[k] == members(t)[k],
        forall|k: Seq<char>|
            claude_env_owned(k) ==> (#[trigger] members(r).contains_key(k) <==> claude_env_values(a).contains_key(k)),
        forall|k: Seq<char>|
            #[trigger] claude_env_values(a).contains_key(k) ==> members(r)[k] is Text && members(r)[k]->Text_0@
                == claude_env_values(a)[k],
{
    let vals = claude_env_values(a);
    let sf = s->Object_0;
    lemma_env_values_owned(a);
    assert forall|k: Seq<char>| has_name(sf@, k) <==> #[trigger] vals.contains_key(k) by {
        assert(members(s).contains_key(k) == has_name(sf@, k));
    }
    assert forall|k: Seq<char>| #[trigger] vals.contains_key(k) implies members(r)[k] is Text && members(r)[k]->Text_0@
        == vals[k] by {
        assert(has_name(sf@, k));
        let i = choose|i: int| 0 <= i < sf@.len() && (#[trigger] sf@[i]).0@ == k;
        assert(sf@[i].0@ == k);
        assert(!members(t).contains_key(k));
        assert(same_json(sf@[i].1, members(r)[k]));
        assert(members(s)[k] == sf@[i].1) by {
            lemma_map_at(sf@, i);
        }
    }
    assert forall|k: Seq<char>| !claude_env_owned(k) implies (#[trigger] members(r).contains_key(k) <==> members(t).contains_key(k)) by {
        if has_name(sf@, k) {
            assert(vals.contains_key(k));
        }
    }
    assert forall|k: Seq<char>| !claude_env_owned(k) && #[trigger] members(t).contains_key(k) implies members(r)[k] == members(t)[k] by {
        if has_name(sf@, k) {
            assert(vals.contains_key(k));
        }
    }
    assert forall|k: Seq<char>| claude_env_owned(k) implies (#[trigger] members(r).contains_key(k) <==> vals.contains_key(k)) by {
        if has_name(sf@, k) {
            assert(vals.contains_key(k));
        }
        if vals.contains_key(k) {
            assert(has_name(sf@, k));
        }
    }
}

/// Removes the keys that the synchronisation owns inside `env`.
fn strip_env_owned(fields: &mut Vec<(String, Json)>)
    requires
        names_distinct(old(fields)@),
    ensures
        names_distinct(final(fields)@),
        forall|k: Seq<char>|
            !claude_env_owned(k) ==> (#[trigger] map_of(final(fields)@).contains_key(k) <==> map_of(old(fields)@).contains_key(k)),
        forall|k: Seq<char>|
            !claude_env_owned(k) && #[trigger] map_of(old(fields)@).contains_key(k) ==> map_of(final(fields)@)[k] == map_of(old(fields)@)[k],
        forall|k: Seq<char>| claude_env_owned(k) ==> !#[trigger] map_of(final(fields)@).contains_key(k),
{
    strip_top_owned(fields);
    remove_member(fields, "CLAUDE_CODE_DISABLE_NONESSENTIAL_TRAFFIC");
}

/// Removes the keys that the synchronisation owns at the top of the document.
fn strip_top_owned(fields: &mut Vec<(String, Json)>)
    requires
        names_distinct(old(fields)@),
    ensures
        names_distinct(final(fields)@),
        forall|k: Seq<char>|
            !claude_top_owned(k) ==> (#[trigger] map_of(final(fields)@).contains_key(k) <==> map_of(old(fields)@).contains_key(k)),
        forall|k: Seq<char>|
            !claude_top_owned(k) && #[trigger] map_of(old(fields)@).contains_key(k) ==> map_of(final(fields)@)[k] == map_of(old(fields)@)[k],
        forall|k: Seq<char>| claude_top_owned(k) ==> !#[trigger] map_of(final(fields)@).contains_key(k),
{
    remove_member(fields, "ANTHROPIC_AUTH_TOKEN");
    remove_member(fields, "ANTHROPIC_BASE_URL");
    remove_member(fields, "ANTHROPIC_VERTEX_BASE_URL");
    remove_member(fields, "ANTHROPIC_VERTEX_PROJECT_ID");
    remove_member(fields, "CLAUDE_CODE_USE_VERTEX");
    remove_member(fields, "CLAUDE_CODE_SKIP_VERTEX_AUTH");
}

/// The settings document to write, given the one found on disk (`None` when
/// it is missing or unreadable): the owned keys are stripped at the top and
/// inside `env`, and the entries of the active configuration are merged into
/// `env`; everything else is kept.
pub fn claude_settings(existing: Option<Json>, a: &ClaudeActiveConfig) -> (r: Json)
    requires
        existing matches Some(j) ==> well_named(j),
    ensures
        claude_settings_holds(existing, *a, r),
        well_named(r),
{
    let ghost before = base_members(existing);
    let mut fields: Vec<(String, Json)> = match existing {
        Some(Json::Object(f)) => f,
        _ => Vec::new(),
    };
    proof {
        if fields.len() == 0 {
            assert(map_of(fields@) =~= before);
        }
        assert forall|k: Seq<char>| #[trigger] map_of(fields@).contains_key(k) implies well_named(map_of(fields@)[k]) by {
            let j = choose|j: int| 0 <= j < fields.len() && (#[trigger] fields@[j]).0@ == k;
            lemma_map_at(fields@, j);
        }
    }
    strip_top_owned(&mut fields);
    let ghost stripped = map_of(fields@);
    proof {
        lemma_env_not_owned();
    }
    let ghost found: Option<Json> = if before.contains_key("env"@) {
        Some(before["env"@])
    } else {
        None
    };
    let env_value = match position_of(&fields, "env") {
        Some(p) => {
            proof {
                lemma_map_at(fields@, p as int);
                lemma_map_remove(fields@, p as int);
            }
            let (_n, v) = fields.remove(p);
            v
        },
        None => {
            proof {
                assert(map_of(fields@).remove("env"@) =~= map_of(fields@));
            }
            Json::Object(Vec::new())
        },
    };
    let ghost env_before = env_value;
    let mut env_value = match env_value {
        Json::Object(ef) => {
            let mut ef = ef;
            strip_env_owned(&mut ef);
            Json::Object(ef)
        },
        other => other,
    };
    let new_env = claude_env(a);
    let ghost env_stripped = env_value;
    proof {
        if env_stripped is Object {
            let ef = env_stripped->Object_0;
            assert forall|k: Seq<char>| #[trigger] map_of(ef@).contains_key(k) implies well_named(map_of(ef@)[k]) by {
                if env_before is Object {
                    let eb = env_before->Object_0;
                    assert(map_of(eb@).contains_key(k));
                    let j = choose|j: int| 0 <= j < eb.len() && (#[trigger] eb@[j]).0@ == k;
                    lemma_map_at(eb@, j);
                }
            }
            lemma_object_well_named(ef);
        }
    }
    deep_merge(&mut env_value, &new_env);
    proof {
        if env_stripped is Object {
            lemma_env_merge(env_stripped, new_env, env_value, *a);
        }
    }
    let ghost without_env = map_of(fields@);
    proof {
        assert(without_env == stripped.remove("env"@));
        if found is Some {
            assert(stripped.contains_key("env"@));
            assert(env_before == before["env"@]);
        }
        if found is Some && !(found->Some_0 is Object) {
            assert(env_value == found->Some_0);
        } else {
            let eb = base_members(found);
            assert forall|k: Seq<char>| !claude_env_owned(k) implies (members(env_stripped).contains_key(k) <==> #[trigger] eb.contains_key(k)) && (eb.contains_key(k) ==> members(env_stripped)[k] == eb[k]) by {
                if found is None {
                    assert(!members(env_stripped).contains_key(k));
                }
            }
            assert(claude_env_holds(found, *a, env_value));
        }
    }
    set_member(&mut fields, owned("env"), env_value);
    proof {
        assert(map_of(fields@) == without_env.insert("env"@, env_value));
        assert forall|k: Seq<char>| #[trigger] map_of(fields@).contains_key(k) implies well_named(map_of(fields@)[k]) by {
            if k != "env"@ {
                assert(stripped.contains_key(k));
            }
        }
        lemma_object_well_named(fields);
        let r = Json::Object(fields);
        assert(members(r)["env"@] == env_value);
        assert(claude_settings_holds(existing, *a, r));
    }
    Json::Object(fields)
}

// ---------------------------------------------------------------------------
// Line-oriented files, fully regenerated
// ---------------------------------------------------------------------------

/// One line of text with its line break.
pub open spec fn line(s: Seq<char>) -> Seq<char> {
    s + "\n"@
}

/// `key = "value"`.
pub open spec fn quoted_setting(key: Seq<char>, v: Seq<char>) -> Seq<char> {
    key + " = \""@ + v + "\""@
}

/// The line `key = "value"` when the value is set, nothing otherwise.
pub open spec fn optional_setting(key: Seq<char>, v: Option<String>) -> Seq<char> {
    match v {
        Some(x) => line(quoted_setting(key, x@)),
        None => Seq::empty(),
    }
}

/// The line `KEY=value` when the value is set, nothing otherwise.
pub open spec fn optional_env(key: Seq<char>, v: Option<String>) -> Seq<char> {
    match v {
        Some(x) => line(key + "="@ + x@),
        None => Seq::empty(),
    }
}

fn push_line(out: &mut String, parts: &[&str])
    ensures
        final(out)@ == old(out)@ + concat_parts(parts@) + "\n"@,
{
    let mut i: usize = 0;
    let ghost start = out@;
    while i < parts.len()
        invariant
            i <= parts.len(),
            out@ == start + concat_parts(parts@.take(i as int)),
        decreases parts.len() - i,
    {
        proof {
            assert(parts@.take(i + 1).drop_last() =~= parts@.take(i as int));
        }
        out.append(parts[i]);
        i = i + 1;
        proof {
            assert(out@ =~= start + concat_parts(parts@.take(i as int)));
        }
    }
    proof {
        assert(parts@.take(parts.len() as int) =~= parts@);
    }
    out.append("\n");
}

/// The pieces of text one after another.
pub open spec fn concat_parts(parts: Seq<&str>) -> Seq<char>
    decreases parts.len(),
{
    if parts.len() == 0 {
        Seq::empty()
    } else {
        concat_parts(parts.drop_last()) + parts.last()@
    }
}

/// The provider name that the Codex files use: the override, else the site name.
pub open spec fn codex_provider_name(a: CodexActiveConfig) -> Seq<char> {
    match a.model_provider {
        Some(p) => p@,
        None => a.site@,
    }
}

/// The Codex `config.toml` text for the active configuration.
pub open spec fn codex_toml(a: CodexActiveConfig) -> Seq<char> {
    let p = codex_provider_name(a);
    line(quoted_setting("model_provider"@, p))
        + optional_setting("model"@, a.model)
        + optional_setting("model_reasoning_effort"@, a.model_reasoning_effort)
        + optional_setting("network_access"@, a.network_access)
        + match a.disable_response_storage {
            Some(b) => line("disable_response_storage = "@ + (if b { "true"@ } else { "false"@ })),
            None => Seq::empty(),
        }
        + line(Seq::empty())
        + line("[model_providers."@ + p + "]"@)
        + line(quoted_setting("name"@, p))
        + optional_setting("base_url"@, a.base_url)
        + optional_setting("wire_api"@, a.wire_api)
        + line("requires_openai_auth = true"@)
}

fn push_optional_setting(out: &mut String, key: &str, v: &Option<String>)
    ensures
        final(out)@ == old(out)@ + optional_setting(key@, *v),
{
    match v {
        Some(x) => {
            push_line(out, &[key, " = \"", x.as_str(), "\""]);
            proof {
                reveal_with_fuel(concat_parts, 5);
                assert(final(out)@ =~= old(out)@ + optional_setting(key@, *v));
            }
        },
        None => {
            assert(out@ =~= out@ + Seq::<char>::empty());
        },
    }
}

/// The text of the Codex `config.toml` for the active configuration.
pub fn codex_config_toml(a: &CodexActiveConfig) -> (r: String)
    ensures
        r@ == codex_toml(*a),
{
    let provider: &String = match &a.model_provider {
        Some(p) => p,
        None => &a.site,
    };
    let mut out = String::new();
    proof {
        reveal_with_fuel(concat_parts, 5);
    }
    push_line(&mut out, &["model_provider", " = \"", provider.as_str(), "\""]);
    let ghost p = codex_provider_name(*a);
    assert(provider@ == p);
    assert(out@ =~= line(quoted_setting("model_provider"@, p)));
    push_optional_setting(&mut out, "model", &a.model);
    push_optional_setting(&mut out, "model_reasoning_effort", &a.model_reasoning_effort);
    push_optional_setting(&mut out, "network_access", &a.network_access);
    let ghost before_flag = out@;
    match a.disable_response_storage {
        Some(b) => {
            let word = if b { "true" } else { "false" };
            push_line(&mut out, &["disable_response_storage = ", word]);
            assert(out@ =~= before_flag + line("disable_response_storage = "@ + (if b { "true"@ } else { "false"@ })));
        },
        None => {
            assert(out@ =~= before_flag + Seq::<char>::empty());
        },
    }
    let ghost s2 = out@;
    push_line(&mut out, &[]);
    assert(out@ =~= s2 + line(Seq::empty()));
    let ghost s3 = out@;
    push_line(&mut out, &["[model_providers.", provider.as_str(), "]"]);
    assert(out@ =~= s3 + line("[model_providers."@ + p + "]"@));
    let ghost s4 = out@;
    push_line(&mut out, &["name", " = \"", provider.as_str(), "\""]);
    assert(out@ =~= s4 + line(quoted_setting("name"@, p)));
    push_optional_setting(&mut out, "base_url", &a.base_url);
    push_optional_setting(&mut out, "wire_api", &a.wire_api);
    let ghost s5 = out@;
    push_line(&mut out, &["requires_openai_auth = true"]);
    assert(out@ =~= s5 + line("requires_openai_auth = true"@));
    proof {
        assert(out@ =~= codex_toml(*a));
    }
    out
}

/// The Codex `auth.json` document: the API key alone.
pub fn codex_auth(a: &CodexActiveConfig) -> (r: Json)
    ensures
        texts_object(r, Map::<Seq<char>, Seq<char>>::empty().insert("OPENAI_API_KEY"@, a.api_key@)),
        well_named(r),
{
    let mut f: Vec<(String, Json)> = Vec::new();
    set_member(&mut f, owned("OPENAI_API_KEY"), Json::Text(a.api_key.clone()));
    proof {
        assert(members(Json::Object(f)).dom() =~= Map::<Seq<char>, Seq<char>>::empty().insert("OPENAI_API_KEY"@, a.api_key@).dom());
        lemma_object_well_named(f);
    }
    Json::Object(f)
}

/// The Gemini `.env` text for the active configuration.
pub open spec fn gemini_env_text(a: GeminiActiveConfig) -> Seq<char> {
    optional_env("GOOGLE_GEMINI_BASE_URL"@, a.base_url)
        + line("GEMINI_API_KEY="@ + a.api_key@)
        + optional_env("GEMINI_MODEL"@, a.model)
}

fn push_optional_env(out: &mut String, key: &str, v: &Option<String>)
    ensures
        final(out)@ == old(out)@ + optional_env(key@, *v),
{
    match v {
        Some(x) => {
            push_line(out, &[key, "=", x.as_str()]);
            proof {
                reveal_with_fuel(concat_parts, 4);
                assert(final(out)@ =~= old(out)@ + optional_env(key@, *v));
            }
        },
        None => {
            assert(out@ =~= out@ + Seq::<char>::empty());
        },
    }
}

/// The text of the Gemini `.env` file for the active configuration.
pub fn gemini_env(a: &GeminiActiveConfig) -> (r: String)
    ensures
        r@ == gemini_env_text(*a),
{
    let mut out = String::new();
    push_optional_env(&mut out, "GOOGLE_GEMINI_BASE_URL", &a.base_url);
    push_line(&mut out, &["GEMINI_API_KEY=", a.api_key.as_str()]);
    proof {
        reveal_with_fuel(concat_parts, 3);
    }
    push_optional_env(&mut out, "GEMINI_MODEL", &a.model);
    proof {
        assert(out@ =~= gemini_env_text(*a));
    }
    out
}

// ---------------------------------------------------------------------------
// OpenCode: the scoped document, fully regenerated
// ---------------------------------------------------------------------------

/// `j` has the member `k`, the text `v`.
pub open spec fn text_member(j: Json, k: Seq<char>, v: Seq<char>) -> bool {
    &&& members(j).contains_key(k)
    &&& members(j)[k] is Text
    &&& members(j)[k]->Text_0@ == v
}

/// `j` has the member `k`, the number `n`.
pub open spec fn number_member(j: Json, k: Seq<char>, n: u64) -> bool {
    &&& members(j).contains_key(k)
    &&& members(j)[k] is Number
    &&& members(j)[k]->Number_0@ == decimal(n as nat)
}

/// The names of the optional members that are set.
pub open spec fn names_if(set_a: bool, a: Seq<char>) -> Set<Seq<char>> {
    if set_a {
        set![a]
    } else {
        Set::empty()
    }
}

/// `j` is the document of the token limits `l`.
pub open spec fn limit_json_holds(l: OpenCodeModelLimit, j: Json) -> bool {
    &&& j is Object
    &&& members(j).dom() == names_if(l.context is Some, "context"@) + names_if(
        l.output is Some,
        "output"@,
    )
    &&& l.context matches Some(c) ==> number_member(j, "context"@, c)
    &&& l.output matches Some(o) ==> number_member(j, "output"@, o)
}

/// `j` is the document of the model entry `m`.
pub open spec fn model_json_holds(m: OpenCodeModelInfo, j: Json) -> bool {
    &&& j is Object
    &&& members(j).dom() == set!["name"@] + names_if(m.limit is Some, "limit"@)
    &&& text_member(j, "name"@, m.name@)
    &&& m.limit matches Some(l) ==> limit_json_holds(l, members(j)["limit"@])
}

/// `j` is the document of the provider definition `p`.
pub open spec fn provider_json_holds(p: OpenCodeProvider, j: Json) -> bool {
    &&& j is Object
    &&& members(j).dom() == set!["name"@, "options"@, "models"@] + names_if(p.npm is Some, "npm"@)
    &&& p.npm matches Some(n) ==> text_member(j, "npm"@, n@)
    &&& text_member(j, "name"@, p.name@)
    &&& texts_object(
        members(j)["options"@],
        Map::<Seq<char>, Seq<char>>::empty().insert("baseURL"@, p.options.base_url@).insert(
            "apiKey"@,
            p.options.api_key@,
        ),
    )
    &&& members(j)["models"@] is Object
    &&& members(members(j)["models"@]).dom() == p.models@.dom()
    &&& forall|id: Seq<char>|
        #[trigger] p.models@.contains_key(id) ==> model_json_holds(
            p.models@[id],
            members(members(j)["models"@])[id],
        )
}

/// The name of the light role's provider, where it is set apart.
pub open spec fn light_of(small_provider: Option<String>) -> Option<Seq<char>> {
    match small_provider {
        Some(p) => Some(p@),
        None => None,
    }
}

/// Whether the selection cites the provider `k`, in its main or its light role.
pub open spec fn opencode_cites(main: Seq<char>, light: Option<Seq<char>>, k: Seq<char>) -> bool {
    ||| k == main
    ||| (light is Some && k == light->Some_0)
}

/// The `provider` object of the document: exactly the stored providers that
/// the selection cites, each as its definition.
pub open spec fn providers_json_holds(store: OpenCodeConfig, main: Seq<char>, light: Option<Seq<char>>, j: Json) -> bool {
    &&& j is Object
    &&& forall|k: Seq<char>|
        #[trigger] members(j).contains_key(k) <==> store.providers@.contains_key(k) && opencode_cites(main, light, k)
    &&& forall|k: Seq<char>|
        #[trigger] members(j).contains_key(k) ==> provider_json_holds(store.providers@[k], members(j)[k])
}

/// The whole OpenCode document.
pub open spec fn opencode_document_holds(store: OpenCodeConfig, main: Seq<char>, light: Option<Seq<char>>, r: Json) -> bool {
    &&& r is Object
    &&& members(r).dom() == set!["$schema"@, "theme"@, "autoupdate"@, "provider"@, "tools"@, "agent"@, "mcp"@]
    &&& text_member(r, "$schema"@, "https://opencode.ai/config.json"@)
    &&& text_member(r, "theme"@, "tokyonight"@)
    &&& members(r)["autoupdate"@] == Json::Bool(false)
    &&& providers_json_holds(store, main, light, members(r)["provider"@])
    &&& members(r)["tools"@] is Object
    &&& members(members(r)["tools"@]) == Map::<Seq<char>, Json>::empty().insert(
        "get-current-session-id"@,
        Json::Bool(true),
    ).insert("webfetch"@, Json::Bool(true))
    &&& members(r)["agent"@] is Object
    &&& members(members(r)["agent"@]) == Map::<Seq<char>, Json>::empty()
    &&& members(r)["mcp"@] is Object
    &&& members(members(r)["mcp"@]) == Map::<Seq<char>, Json>::empty()
}

fn text_json(s: &str) -> (r: Json)
    ensures
        r is Text,
        r->Text_0@ == s@,
{
    Json::Text(owned(s))
}

fn empty_object() -> (r: Json)
    ensures
        r is Object,
        members(r) == Map::<Seq<char>, Json>::empty(),
        well_named(r),
{
    let f: Vec<(String, Json)> = Vec::new();
    proof {
        assert(map_of(f@) =~= Map::<Seq<char>, Json>::empty());
    }
    Json::Object(f)
}

/// The document of token limits.
pub fn limit_json(l: &OpenCodeModelLimit) -> (r: Json)
    ensures
        limit_json_holds(*l, r),
        well_named(r),
{
    let mut f: Vec<(String, Json)> = Vec::new();
    proof {
        assert(map_of(f@) =~= Map::<Seq<char>, Json>::empty());
    }
    if let Some(c) = l.context {
        set_member(&mut f, owned("context"), Json::Number(decimal_text(c)));
    }
    let ghost mid = map_of(f@);
    if let Some(o) = l.output {
        set_member(&mut f, owned("output"), Json::Number(decimal_text(o)));
    }
    proof {
        let r = Json::Object(f);
        assert(members(r).dom() =~= names_if(l.context is Some, "context"@) + names_if(
            l.output is Some,
            "output"@,
        ));
        if l.context is Some {
            if l.output is Some {
                lemma_keys_differ_context_output();
            }
        }
        lemma_object_well_named(f);
    }
    Json::Object(f)
}

proof fn lemma_keys_differ_context_output()
    ensures
        "context"@ != "output"@,
{
    reveal_strlit("context");
    reveal_strlit("output");
    assert("context"@.len() != "output"@.len());
}

/// The document of a model entry.
pub fn model_json(m: &OpenCodeModelInfo) -> (r: Json)
    ensures
        model_json_holds(*m, r),
        well_named(r),
{
    let mut f: Vec<(String, Json)> = Vec::new();
    set_member(&mut f, owned("name"), Json::Text(m.name.clone()));
    if let Some(l) = &m.limit {
        let lj = limit_json(l);
        proof {
            lemma_keys_differ_name_limit();
        }
        set_member(&mut f, owned("limit"), lj);
    }
    proof {
        let r = Json::Object(f);
        assert(members(r).dom() =~= set!["name"@] + names_if(m.limit is Some, "limit"@));
        lemma_object_well_named(f);
    }
    Json::Object(f)
}

proof fn lemma_keys_differ_name_limit()
    ensures
        "name"@ != "limit"@,
{
    reveal_strlit("name");
    reveal_strlit("limit");
    assert("name"@.len() != "limit"@.len());
}

/// The models of a provider, each as its document.
fn models_json(models: &Table<OpenCodeModelInfo>) -> (r: Json)
    ensures
        r is Object,
        members(r).dom() == models@.dom(),
        forall|id: Seq<char>|
            #[trigger] models@.contains_key(id) ==> model_json_holds(models@[id], members(r)[id]),
        well_named(r),
{
    let entries = models.entries();
    let mut f: Vec<(String, Json)> = Vec::new();
    let mut i: usize = 0;
    while i < entries.len()
        invariant
            i <= entries.len(),
            names_distinct(entries@),
            map_of(entries@) == models@,
            names_distinct(f@),
            forall|k: Seq<char>|
                #[trigger] map_of(f@).contains_key(k) <==> has_name(entries@.take(i as int), k),
            forall|k: Seq<char>|
                #[trigger] map_of(f@).contains_key(k) ==> models@.contains_key(k) && model_json_holds(
                    models@[k],
                    map_of(f@)[k],
                ) && well_named(map_of(f@)[k]),
        decreases entries.len() - i,
    {
        let mj = model_json(&entries[i].1);
        let ghost k = entries@[i as int].0@;
        proof {
            lemma_map_at(entries@, i as int);
        }
        let ghost fm = map_of(f@);
        let name = entries[i].0.clone();
        set_member(&mut f, name, mj);
        proof {
            assert(map_of(f@) == fm.insert(k, mj));
            assert forall|kk: Seq<char>|
                has_name(entries@.take(i + 1), kk) <==> has_name(entries@.take(i as int), kk)
                    || kk == k by {
                if has_name(entries@.take(i + 1), kk) {
                    let j = choose|j: int|
                        0 <= j < entries@.take(i + 1).len() && (#[trigger] entries@.take(i + 1)[j]).0@
                            == kk;
                    if j < i {
                        assert(entries@.take(i as int)[j] == entries@.take(i + 1)[j]);
                    }
                }
                if has_name(entries@.take(i as int), kk) {
                    let j = choose|j: int|
                        0 <= j < entries@.take(i as int).len() && (#[trigger] entries@.take(
                            i as int,
                        )[j]).0@ == kk;
                    assert(entries@.take(i + 1)[j] == entries@.take(i as int)[j]);
                }
                if kk == k {
                    assert(entries@.take(i + 1)[i as int] == entries@[i as int]);
                }
            }
            assert forall|kk: Seq<char>|
                #[trigger] map_of(f@).contains_key(kk) <==> has_name(entries@.take(i + 1), kk) by {
                assert(fm.contains_key(kk) <==> has_name(entries@.take(i as int), kk));
                if has_name(entries@.take(i + 1), kk) {
                    assert(has_name(entries@.take(i as int), kk) || kk == k);
                }
            }
        }
        i = i + 1;
    }
    proof {
        assert(entries@.take(entries.len() as int) =~= entries@);
        assert(map_of(f@).dom() =~= models@.dom());
        lemma_object_well_named(f);
    }
    Json::Object(f)
}

/// The document of a provider definition, as the tool reads it.
pub fn provider_json(p: &OpenCodeProvider) -> (r: Json)
    ensures
        provider_json_holds(*p, r),
        well_named(r),
{
    let mut options: Vec<(String, Json)> = Vec::new();
    set_member(&mut options, owned("baseURL"), Json::Text(p.options.base_url.clone()));
    set_member(&mut options, owned("apiKey"), Json::Text(p.options.api_key.clone()));
    proof {
        lemma_keys_differ_options();
        assert(members(Json::Object(options)).dom() =~= Map::<Seq<char>, Seq<char>>::empty().insert(
            "baseURL"@,
            p.options.base_url@,
        ).insert("apiKey"@, p.options.api_key@).dom());
        lemma_object_well_named(options);
    }
    let mut f: Vec<(String, Json)> = Vec::new();
    if let Some(n) = &p.npm {
        set_member(&mut f, owned("npm"), Json::Text(n.clone()));
    }
    set_member(&mut f, owned("name"), Json::Text(p.name.clone()));
    set_member(&mut f, owned("options"), Json::Object(options));
    let mj = models_json(&p.models);
    set_member(&mut f, owned("models"), mj);
    proof {
        lemma_keys_differ_provider();
        let r = Json::Object(f);
        assert(members(r).dom() =~= set!["name"@, "options"@, "models"@] + names_if(p.npm is Some, "npm"@));
        lemma_object_well_named(f);
    }
    Json::Object(f)
}

proof fn lemma_keys_differ_options()
    ensures
        "baseURL"@ != "apiKey"@,
{
    reveal_strlit("baseURL");
    reveal_strlit("apiKey");
    assert("baseURL"@.len() != "apiKey"@.len());
}

proof fn lemma_keys_differ_provider()
    ensures
        "npm"@ != "name"@,
        "npm"@ != "options"@,
        "npm"@ != "models"@,
        "name"@ != "options"@,
        "name"@ != "models"@,
        "options"@ != "models"@,
{
    reveal_strlit("npm");
    reveal_strlit("name");
    reveal_strlit("options");
    reveal_strlit("models");
    assert("npm"@.len() == 3);
    assert("name"@.len() == 4);
    assert("options"@.len() == 7);
    assert("models"@.len() == 6);
}

/// The providers that the selection cites, each as its definition; stored
/// providers that it does not cite are left out.
pub fn providers_json(store: &OpenCodeConfig, a: &OpenCodeActiveConfig) -> (r: Json)
    ensures
        providers_json_holds(*store, a.provider@, light_of(a.small_provider), r),
        well_named(r),
{
    let mut f: Vec<(String, Json)> = Vec::new();
    proof {
        assert(map_of(f@) =~= Map::<Seq<char>, Json>::empty());
    }
    if let Some(p) = store.get_provider(a.provider.as_str()) {
        let pj = provider_json(p);
        set_member(&mut f, a.provider.clone(), pj);
    }
    if let Some(sp) = &a.small_provider {
        if let Some(p) = store.get_provider(sp.as_str()) {
            let pj = provider_json(p);
            set_member(&mut f, sp.clone(), pj);
        }
    }
    proof {
        lemma_object_well_named(f);
    }
    Json::Object(f)
}

/// The whole OpenCode document for the selection.
pub fn opencode_document(store: &OpenCodeConfig, a: &OpenCodeActiveConfig) -> (r: Json)
    ensures
        opencode_document_holds(*store, a.provider@, light_of(a.small_provider), r),
        well_named(r),
{
    let mut tools: Vec<(String, Json)> = Vec::new();
    proof {
        assert(map_of(tools@) =~= Map::<Seq<char>, Json>::empty());
    }
    set_member(&mut tools, owned("get-current-session-id"), Json::Bool(true));
    set_member(&mut tools, owned("webfetch"), Json::Bool(true));
    proof {
        lemma_object_well_named(tools);
    }
    let mut f: Vec<(String, Json)> = Vec::new();
    proof {
        assert(map_of(f@) =~= Map::<Seq<char>, Json>::empty());
    }
    set_member(&mut f, owned("$schema"), text_json("https://opencode.ai/config.json"));
    set_member(&mut f, owned("theme"), text_json("tokyonight"));
    set_member(&mut f, owned("autoupdate"), Json::Bool(false));
    set_member(&mut f, owned("provider"), providers_json(store, a));
    set_member(&mut f, owned("tools"), Json::Object(tools));
    set_member(&mut f, owned("agent"), empty_object());
    set_member(&mut f, owned("mcp"), empty_object());
    proof {
        lemma_keys_differ_document();
        let r = Json::Object(f);
        assert(members(r).dom() =~= set!["$schema"@, "theme"@, "autoupdate"@, "provider"@, "tools"@, "agent"@, "mcp"@]);
        lemma_object_well_named(f);
    }
    Json::Object(f)
}

proof fn lemma_keys_differ_document()
    ensures
        "$schema"@ != "theme"@,
        "$schema"@ != "autoupdate"@,
        "$schema"@ != "provider"@,
        "$schema"@ != "tools"@,
        "$schema"@ != "agent"@,
        "$schema"@ != "mcp"@,
        "theme"@ != "autoupdate"@,
        "theme"@ != "provider"@,
        "theme"@ != "tools"@,
        "theme"@ != "agent"@,
        "theme"@ != "mcp"@,
        "autoupdate"@ != "provider"@,
        "autoupdate"@ != "tools"@,
        "autoupdate"@ != "agent"@,
        "autoupdate"@ != "mcp"@,
        "provider"@ != "tools"@,
        "provider"@ != "agent"@,
        "provider"@ != "mcp"@,
        "tools"@ != "agent"@,
        "tools"@ != "mcp"@,
        "agent"@ != "mcp"@,
{
    reveal_strlit("$schema");
    reveal_strlit("theme");
    reveal_strlit("autoupdate");
    reveal_strlit("provider");
    reveal_strlit("tools");
    reveal_strlit("agent");
    reveal_strlit("mcp");
    assert("$schema"@[0] == '$');
    assert("theme"@[0] == 't' && "theme"@[1] == 'h');
    assert("autoupdate"@[0] == 'a' && "autoupdate"@[1] == 'u');
    assert("provider"@[0] == 'p');
    assert("tools"@[0] == 't' && "tools"@[1] == 'o');
    assert("agent"@[0] == 'a' && "agent"@[1] == 'g');
    assert("mcp"@[0] == 'm');
}

} // verus!
