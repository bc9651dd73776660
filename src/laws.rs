use vstd::prelude::*;

use crate::json::{members, Json};
use crate::models::{
    claude_resolution, codex_resolution, gemini_resolution, opencode_cites_stored,
    opencode_resolution, ClaudeActiveConfig, ClaudeActiveReference, ClaudeConfig,
    CodexActiveConfig, CodexActiveReference, CodexConfig, GeminiActiveConfig,
    GeminiActiveReference, GeminiConfig, OpenCodeActiveConfig, OpenCodeActiveReference,
    OpenCodeConfig,
};
use crate::error::ConfigError;
use crate::sync::{
    base_members, claude_direct_only, claude_env_owned, claude_settings_holds, claude_top_owned,
    claude_vertex_only, codex_toml, gemini_env_text, opencode_document_holds,
};

verus! {

/// Resolving an Anthropic reference succeeds exactly when the store holds its
/// site and the site holds its token; otherwise the error names the missing
/// site, or the missing token of the site. A success carries the stored URL
/// and the stored token.
pub proof fn lemma_claude_resolution(reference: ClaudeActiveReference, store: ClaudeConfig)
    ensures
        ({
            let sites = store.sites@;
            let r = claude_resolution(reference, store);
            &&& r is Ok <==> sites.contains_key(reference.site@) && sites[reference.site@].tokens@.contains_key(reference.token_name@)
            &&& !sites.contains_key(reference.site@) ==> r is Err && r->Err_0.is_site_not_found(reference.site@)
            &&& sites.contains_key(reference.site@) && !sites[reference.site@].tokens@.contains_key(reference.token_name@)
                ==> r is Err && r->Err_0.is_secret_not_found(reference.site@, reference.token_name@)
            &&& r is Ok ==> r->Ok_0.site_url == sites[reference.site@].metadata.url
                && r->Ok_0.token == sites[reference.site@].tokens@[reference.token_name@]
        }),
{
}

/// Resolving a Codex reference succeeds exactly when the store holds its
/// site and the site holds its API key; otherwise the error names what is missing.
pub proof fn lemma_codex_resolution(reference: CodexActiveReference, store: CodexConfig)
    ensures
        ({
            let sites = store.sites@;
            let r = codex_resolution(reference, store);
            &&& r is Ok <==> sites.contains_key(reference.site@) && sites[reference.site@].api_keys@.contains_key(reference.api_key_name@)
            &&& !sites.contains_key(reference.site@) ==> r is Err && r->Err_0.is_site_not_found(reference.site@)
            &&& sites.contains_key(reference.site@) && !sites[reference.site@].api_keys@.contains_key(reference.api_key_name@)
                ==> r is Err && r->Err_0.is_secret_not_found(reference.site@, reference.api_key_name@)
            &&& r is Ok ==> r->Ok_0.api_key == sites[reference.site@].api_keys@[reference.api_key_name@]
        }),
{
}

/// Resolving a Gemini reference succeeds exactly when the store holds its
/// site and the site holds its API key; otherwise the error names what is missing.
pub proof fn lemma_gemini_resolution(reference: GeminiActiveReference, store: GeminiConfig)
    ensures
        ({
            let sites = store.sites@;
            let r = gemini_resolution(reference, store);
            &&& r is Ok <==> sites.contains_key(reference.site@) && sites[reference.site@].api_keys@.contains_key(reference.api_key_name@)
            &&& !sites.contains_key(reference.site@) ==> r is Err && r->Err_0.is_site_not_found(reference.site@)
            &&& sites.contains_key(reference.site@) && !sites[reference.site@].api_keys@.contains_key(reference.api_key_name@)
                ==> r is Err && r->Err_0.is_secret_not_found(reference.site@, reference.api_key_name@)
            &&& r is Ok ==> r->Ok_0.api_key == sites[reference.site@].api_keys@[reference.api_key_name@]
        }),
{
}

/// Resolving an OpenCode reference succeeds exactly when the store holds
/// every provider it cites; otherwise the error names a missing provider.
pub proof fn lemma_opencode_resolution(
    reference: OpenCodeActiveReference,
    store: OpenCodeConfig,
    r: Result<OpenCodeActiveConfig, ConfigError>,
)
    requires
        opencode_resolution(reference, store, r),
    ensures
        r is Ok <==> opencode_cites_stored(reference, store),
        !store.providers@.contains_key(reference.provider@) ==> r is Err && r->Err_0.is_provider_not_found(reference.provider@),
        store.providers@.contains_key(reference.provider@) && !opencode_cites_stored(reference, store) ==> r is Err
            && r->Err_0.is_provider_not_found(reference.small_provider->Some_0@),
{
}

/// A synchronisation of the shared settings document keeps every key that it
/// does not own, at the top and inside `env`, with its value.
pub proof fn lemma_settings_keep_unowned(existing: Json, a: ClaudeActiveConfig, r: Json, k: Seq<char>)
    requires
        claude_settings_holds(Some(existing), a, r),
    ensures
        !claude_top_owned(k) && k != "env"@ && members(existing).contains_key(k) ==> members(r).contains_key(k)
            && members(r)[k] == members(existing)[k],
        members(existing).contains_key("env"@) && !claude_env_owned(k) && members(members(existing)["env"@]).contains_key(k)
            ==> members(members(r)["env"@]).contains_key(k) && members(members(r)["env"@])[k] == members(members(existing)["env"@])[k],
{
    assert(base_members(Some(existing)) == members(existing));
}

proof fn lemma_mode_keys_differ()
    ensures
        forall|k: Seq<char>| claude_vertex_only(k) ==> k != "ANTHROPIC_AUTH_TOKEN"@ && !claude_direct_only(k),
        !claude_direct_only("ANTHROPIC_AUTH_TOKEN"@),
        forall|k: Seq<char>| claude_vertex_only(k) ==> claude_env_owned(k),
        forall|k: Seq<char>| claude_direct_only(k) ==> claude_env_owned(k) && claude_top_owned(k),
{
    reveal_strlit("ANTHROPIC_AUTH_TOKEN");
    reveal_strlit("ANTHROPIC_BASE_URL");
    reveal_strlit("ANTHROPIC_VERTEX_BASE_URL");
    reveal_strlit("ANTHROPIC_VERTEX_PROJECT_ID");
    reveal_strlit("CLAUDE_CODE_USE_VERTEX");
    reveal_strlit("CLAUDE_CODE_SKIP_VERTEX_AUTH");
    reveal_strlit("CLAUDE_CODE_DISABLE_NONESSENTIAL_TRAFFIC");
    assert("ANTHROPIC_AUTH_TOKEN"@.len() == 20);
    assert("ANTHROPIC_BASE_URL"@.len() == 18);
    assert("ANTHROPIC_VERTEX_BASE_URL"@.len() == 25);
    assert("ANTHROPIC_VERTEX_PROJECT_ID"@.len() == 27);
    assert("CLAUDE_CODE_USE_VERTEX"@.len() == 22);
    assert("CLAUDE_CODE_SKIP_VERTEX_AUTH"@.len() == 28);
    assert("CLAUDE_CODE_DISABLE_NONESSENTIAL_TRAFFIC"@.len() == 40);
}

/// After a synchronisation in the direct mode no key of the Vertex mode is
/// left in `env`; after one in the Vertex mode no key of the direct mode is
/// left in `env`. At the top of the document no key of either mode is left
/// that the synchronisation owns there.
pub proof fn lemma_mode_switch_clean(existing: Option<Json>, a: ClaudeActiveConfig, r: Json, k: Seq<char>)
    requires
        claude_settings_holds(existing, a, r),
    ensures
        !a.vertex.enabled && claude_vertex_only(k) ==> !members(members(r)["env"@]).contains_key(k),
        a.vertex.enabled && claude_direct_only(k) ==> !members(members(r)["env"@]).contains_key(k),
        claude_top_owned(k) ==> !members(r).contains_key(k),
{
    lemma_mode_keys_differ();
}

/// The Codex files depend on the active configuration alone: two
/// synchronisations of the same configuration give the same text.
pub proof fn lemma_codex_regeneration(a: CodexActiveConfig, first: Seq<char>, second: Seq<char>)
    requires
        first == codex_toml(a),
        second == codex_toml(a),
    ensures
        first == second,
{
}

/// The Gemini file depends on the active configuration alone: two
/// synchronisations of the same configuration give the same text.
pub proof fn lemma_gemini_regeneration(a: GeminiActiveConfig, first: Seq<char>, second: Seq<char>)
    requires
        first == gemini_env_text(a),
        second == gemini_env_text(a),
    ensures
        first == second,
{
}

/// The OpenCode document holds a provider definition only for a provider that
/// the main or the light role cites.
pub proof fn lemma_secret_minimization(
    store: OpenCodeConfig,
    main: Seq<char>,
    light: Option<Seq<char>>,
    r: Json,
    k: Seq<char>,
)
    requires
        opencode_document_holds(store, main, light, r),
    ensures
        members(members(r)["provider"@]).contains_key(k) ==> k == main || light == Some(k),
{
}

/// The OpenCode document depends on the store and the selection alone: two
/// synchronisations of the same selection give documents with the same
/// members, the same providers, the same members in each provider definition,
/// and the same fixed sections.
pub proof fn lemma_opencode_regeneration(
    store: OpenCodeConfig,
    main: Seq<char>,
    light: Option<Seq<char>>,
    first: Json,
    second: Json,
)
    requires
        opencode_document_holds(store, main, light, first),
        opencode_document_holds(store, main, light, second),
    ensures
        members(first).dom() == members(second).dom(),
        members(members(first)["provider"@]).dom() == members(members(second)["provider"@]).dom(),
        forall|k: Seq<char>|
            #[trigger] members(members(first)["provider"@]).contains_key(k) ==> members(
                members(members(first)["provider"@])[k],
            ).dom() == members(members(members(second)["provider"@])[k]).dom(),
        members(first)["autoupdate"@] == members(second)["autoupdate"@],
        members(members(first)["tools"@]) == members(members(second)["tools"@]),
        members(members(first)["agent"@]) == members(members(second)["agent"@]),
        members(members(first)["mcp"@]) == members(members(second)["mcp"@]),
{
    let p1 = members(members(first)["provider"@]);
    let p2 = members(members(second)["provider"@]);
    assert(p1.dom() =~= p2.dom());
}

} // verus!
