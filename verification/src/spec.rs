use vstd::prelude::*;

use crate::error::TypeError;
use crate::json::{
    clone_entries, clone_opt_json, entries_view, items_view, lemma_entries_view, lemma_items_view, lemma_obj_key_index_props,
    obj_key_index, opt_view, Json, JsonV,
};
use crate::text::{clone_opt_str, clone_strs, concat, decimal_text, join, join_spec, str_eq, trim, trim_spec, usize_text};
use crate::workflow::tasklist::sv;

verus! {

/// Whether a document is a portable spec: an object with a `prompts` or an
/// `agents` key.
pub open spec fn is_portable_spec(v: JsonV) -> bool {
    v matches JsonV::Object(e) && (obj_key_index(e, "prompts"@) != -1 || obj_key_index(e, "agents"@) != -1)
}

/// Whether the document is a portable spec rather than a single prompt or agent.
pub fn is_portable(value: &Json) -> (r: bool)
    ensures
        r == is_portable_spec(value.view()),
{
    match value {
        Json::Object(_) => value.get("prompts").is_some() || value.get("agents").is_some(),
        _ => false,
    }
}

/// A block of instructions of a prompt.
#[derive(Debug, Clone, PartialEq)]
pub struct InstructionBlock {
    pub role: String,
    pub content: String,
}

/// A variable of a prompt.
#[derive(Debug, PartialEq)]
pub struct VariableSpec {
    pub name: String,
    pub required: bool,
    pub default: Option<Json>,
    pub schema: Option<Json>,
}

/// A prompt as a portable spec describes it.
#[derive(Debug, PartialEq)]
pub struct PromptSpec {
    pub id: String,
    pub version: String,
    pub title: Option<String>,
    pub description: Option<String>,
    pub instructions: Vec<InstructionBlock>,
    pub variables: Vec<VariableSpec>,
    pub input_schema: Option<Json>,
    pub output_schema: Option<Json>,
    pub tags: Vec<String>,
    pub metadata: Vec<(String, Json)>,
    pub extensions: Vec<(String, Json)>,
}

/// An agent as a portable spec describes it.
#[derive(Debug, PartialEq)]
pub struct AgentSpec {
    pub id: String,
    pub version: String,
    pub name: Option<String>,
    pub description: Option<String>,
    pub primary_prompt: Option<String>,
    pub prompt_refs: Vec<String>,
    pub input_schema: Option<Json>,
    pub output_schema: Option<Json>,
    pub tool_refs: Vec<String>,
    pub agent_refs: Vec<String>,
    pub capabilities: Vec<String>,
    pub provider_hints: Vec<String>,
    pub framework_hints: Vec<String>,
    pub tags: Vec<String>,
    pub metadata: Vec<(String, Json)>,
    pub extensions: Vec<(String, Json)>,
}

/// Prompts and agents described independently of any framework.
#[derive(Debug, PartialEq)]
pub struct PortableSpec {
    pub version: String,
    pub prompts: Vec<PromptSpec>,
    pub agents: Vec<AgentSpec>,
    pub metadata: Vec<(String, Json)>,
    pub extensions: Vec<(String, Json)>,
}

/// The configuration of an agent for one framework, with what could not be carried over.
#[derive(Debug, PartialEq)]
pub struct FrameworkExport {
    pub framework: String,
    pub agent_id: String,
    pub config: Json,
    pub losses: Vec<String>,
}

/// The texts of a list of string slices.
pub open spec fn str_views(v: Seq<&str>) -> Seq<Seq<char>> {
    v.map_values(|s: &str| s@)
}

/// The fields that only a runtime may set, refused in a prompt.
pub open spec fn prompt_runtime_fields_spec() -> Seq<Seq<char>> {
    seq![
        "max_iterations"@, "retry_policy"@, "timeout"@, "memory"@, "session_store"@, "callbacks"@,
        "concurrency"@, "workflow"@, "run_config"@,
    ]
}

/// The fields that only a runtime may set, refused in an agent.
pub open spec fn agent_runtime_fields_spec() -> Seq<Seq<char>> {
    prompt_runtime_fields_spec() + seq!["max_retries"@, "merge_strategy"@, "pass_output"@]
}

/// The fields refused in a prompt.
pub fn prompt_runtime_fields() -> (r: Vec<&'static str>)
    ensures
        str_views(r@) == prompt_runtime_fields_spec(),
{
    let r = vec![
        "max_iterations", "retry_policy", "timeout", "memory", "session_store", "callbacks", "concurrency",
        "workflow", "run_config",
    ];
    assert(str_views(r@) =~= prompt_runtime_fields_spec());
    r
}

/// The fields refused in an agent.
pub fn agent_runtime_fields() -> (r: Vec<&'static str>)
    ensures
        str_views(r@) == agent_runtime_fields_spec(),
{
    let r = vec![
        "max_iterations", "retry_policy", "timeout", "memory", "session_store", "callbacks", "concurrency",
        "workflow", "run_config", "max_retries", "merge_strategy", "pass_output",
    ];
    assert(str_views(r@) =~= agent_runtime_fields_spec());
    r
}

/// The first of the banned fields, in their order, that the object holds.
pub open spec fn first_banned(entries: Seq<(Seq<char>, JsonV)>, banned: Seq<Seq<char>>) -> Option<Seq<char>>
    decreases banned.len(),
{
    if banned.len() == 0 {
        None
    } else if obj_key_index(entries, banned[0]) != -1 {
        Some(banned[0])
    } else {
        first_banned(entries, banned.drop_first())
    }
}

/// The first banned field that a JSON value holds, if it is an object.
pub open spec fn runtime_field_in(v: JsonV, banned: Seq<Seq<char>>) -> Option<Seq<char>> {
    match v {
        JsonV::Object(e) => first_banned(e, banned),
        _ => None,
    }
}

/// Whether an object holds `key`.
fn has_key(entries: &Vec<(String, Json)>, key: &str) -> (r: bool)
    ensures
        r == (obj_key_index(entries_view(entries@), key@) != -1),
{
    let ghost ev = entries_view(entries@);
    let mut i: usize = 0;
    while i < entries.len()
        invariant
            i <= entries@.len(),
            ev == entries_view(entries@),
            forall|j: int| 0 <= j < i ==> ev[j].0 != key@,
        decreases entries@.len() - i,
    {
        assert(ev[i as int].0 == entries@[i as int].0@);
        if str_eq(entries[i].0.as_str(), key) {
            proof {
                lemma_obj_key_index_props(ev, key@);
                if obj_key_index(ev, key@) == -1 {
                    assert(ev[i as int].0 != key@);
                }
            }
            return true;
        }
        i = i + 1;
    }
    proof {
        lemma_obj_key_index_props(ev, key@);
        if obj_key_index(ev, key@) != -1 {
            let k = obj_key_index(ev, key@);
            assert(ev[k].0 == key@);
        }
    }
    false
}

/// The first field of `banned` that `value` holds, if `value` is an object.
pub fn contains_runtime_fields(value: &Json, banned: &Vec<&str>) -> (r: Option<String>)
    ensures
        match runtime_field_in(value.view(), str_views(banned@)) {
            Some(f) => r matches Some(s) && s@ == f,
            None => r is None,
        },
{
    match value {
        Json::Object(entries) => {
            proof {
                crate::json::lemma_entries_view(*entries);
            }
            let ghost ev = entries_view(entries@);
            let ghost bv = str_views(banned@);
            let mut i: usize = 0;
            assert(bv.skip(0) =~= bv);
            while i < banned.len()
                invariant
                    i <= banned@.len(),
                    bv == str_views(banned@),
                    ev == entries_view(entries@),
                    value.view() == JsonV::Object(ev),
                    first_banned(ev, bv) == first_banned(ev, bv.skip(i as int)),
                decreases banned@.len() - i,
            {
                proof {
                    assert(bv.skip(i as int).drop_first() =~= bv.skip(i + 1));
                    assert(bv.skip(i as int)[0] == banned@[i as int]@);
                }
                if has_key(entries, banned[i]) {
                    return Some(banned[i].to_owned());
                }
                i = i + 1;
            }
            None
        },
        _ => None,
    }
}

/// The message for a runtime field in a prompt.
pub open spec fn prompt_field_message(f: Seq<char>) -> Seq<char> {
    "Prompt spec contains runtime-only field '"@ + f + "'. Move runtime behavior to framework/runtime configuration."@
}

/// The message for a runtime field in an agent.
pub open spec fn agent_field_message(f: Seq<char>) -> Seq<char> {
    "Agent spec contains runtime-only field '"@ + f + "'. Move runtime behavior to framework/runtime configuration."@
}

/// The error for a value checked as a prompt, if any.
pub open spec fn prompt_check(v: JsonV) -> Option<Seq<char>> {
    match runtime_field_in(v, prompt_runtime_fields_spec()) {
        Some(f) => Some(prompt_field_message(f)),
        None => None,
    }
}

/// The error for a value checked as an agent, if any.
pub open spec fn agent_check(v: JsonV) -> Option<Seq<char>> {
    match runtime_field_in(v, agent_runtime_fields_spec()) {
        Some(f) => Some(agent_field_message(f)),
        None => None,
    }
}

/// Checks a value described as a prompt.
pub fn validate_runtime_fields_in_prompt(value: &Json) -> (r: Result<(), TypeError>)
    ensures
        match prompt_check(value.view()) {
            Some(m) => r matches Err(TypeError::Error(e)) && e@ == m,
            None => r is Ok,
        },
{
    let banned = prompt_runtime_fields();
    match contains_runtime_fields(value, &banned) {
        Some(f) => {
            let a = concat("Prompt spec contains runtime-only field '", f.as_str());
            Err(TypeError::Error(concat(a.as_str(), "'. Move runtime behavior to framework/runtime configuration.")))
        },
        None => Ok(()),
    }
}

/// Checks a value described as an agent.
pub fn validate_runtime_fields_in_agent(value: &Json) -> (r: Result<(), TypeError>)
    ensures
        match agent_check(value.view()) {
            Some(m) => r matches Err(TypeError::Error(e)) && e@ == m,
            None => r is Ok,
        },
{
    let banned = agent_runtime_fields();
    match contains_runtime_fields(value, &banned) {
        Some(f) => {
            let a = concat("Agent spec contains runtime-only field '", f.as_str());
            Err(TypeError::Error(concat(a.as_str(), "'. Move runtime behavior to framework/runtime configuration.")))
        },
        None => Ok(()),
    }
}

/// The first error among values checked as prompts, or as agents.
pub open spec fn first_list_error(items: Seq<JsonV>, as_agent: bool) -> Option<Seq<char>>
    decreases items.len(),
{
    if items.len() == 0 {
        None
    } else {
        let e = if as_agent {
            agent_check(items[0])
        } else {
            prompt_check(items[0])
        };
        if e is Some {
            e
        } else {
            first_list_error(items.drop_first(), as_agent)
        }
    }
}

/// The value stored under `key` in a JSON object.
pub open spec fn jv_get(v: JsonV, key: Seq<char>) -> Option<JsonV> {
    match v {
        JsonV::Object(e) => if obj_key_index(e, key) == -1 {
            None
        } else {
            Some(e[obj_key_index(e, key)].1)
        },
        _ => None,
    }
}

/// The error of a list stored under `key`, checked item by item.
pub open spec fn list_error(v: JsonV, key: Seq<char>, as_agent: bool) -> Option<Seq<char>> {
    match jv_get(v, key) {
        Some(JsonV::Array(items)) => first_list_error(items, as_agent),
        _ => None,
    }
}

/// The error of a spec document: its prompts, then its agents, then the document
/// itself as a prompt and as an agent; a value that is no object passes.
pub open spec fn spec_value_error(v: JsonV) -> Option<Seq<char>> {
    if !(v is Object) {
        None
    } else if list_error(v, "prompts"@, false) is Some {
        list_error(v, "prompts"@, false)
    } else if list_error(v, "agents"@, true) is Some {
        list_error(v, "agents"@, true)
    } else if prompt_check(v) is Some {
        prompt_check(v)
    } else {
        agent_check(v)
    }
}

/// Checks each item of a list as a prompt or as an agent.
fn validate_list(items: &Vec<Json>, as_agent: bool) -> (r: Result<(), TypeError>)
    ensures
        match first_list_error(items@.map_values(|j: Json| j.view()), as_agent) {
            Some(m) => r matches Err(TypeError::Error(e)) && e@ == m,
            None => r is Ok,
        },
{
    let ghost iv = items@.map_values(|j: Json| j.view());
    let mut i: usize = 0;
    assert(iv.skip(0) =~= iv);
    while i < items.len()
        invariant
            i <= items@.len(),
            iv == items@.map_values(|j: Json| j.view()),
            first_list_error(iv, as_agent) == first_list_error(iv.skip(i as int), as_agent),
        decreases items@.len() - i,
    {
        proof {
            assert(iv.skip(i as int).drop_first() =~= iv.skip(i + 1));
            assert(iv.skip(i as int)[0] == items@[i as int].view());
        }
        if as_agent {
            validate_runtime_fields_in_agent(&items[i])?;
        } else {
            validate_runtime_fields_in_prompt(&items[i])?;
        }
        i = i + 1;
    }
    Ok(())
}

/// Checks a spec document for fields that only a runtime may set.
pub fn validate_runtime_fields_in_value(value: &Json) -> (r: Result<(), TypeError>)
    ensures
        match spec_value_error(value.view()) {
            Some(m) => r matches Err(TypeError::Error(e)) && e@ == m,
            None => r is Ok,
        },
{
    if !value.is_object() {
        return Ok(());
    }
    match value.get("prompts") {
        Some(Json::Array(list)) => {
            proof {
                let a = Json::Array(*list).view()->Array_0;
                assert(list@.map_values(|j: Json| j.view()) =~= a);
            }
            validate_list(list, false)?;
        },
        _ => {},
    }
    match value.get("agents") {
        Some(Json::Array(list)) => {
            proof {
                let a = Json::Array(*list).view()->Array_0;
                assert(list@.map_values(|j: Json| j.view()) =~= a);
            }
            validate_list(list, true)?;
        },
        _ => {},
    }
    validate_runtime_fields_in_prompt(value)?;
    validate_runtime_fields_in_agent(value)?;
    Ok(())
}

/// The fields of the extension stored under `key`, when it is an object.
pub open spec fn extension_fields(exts: Seq<(Seq<char>, JsonV)>, key: Seq<char>) -> Option<Seq<(Seq<char>, JsonV)>> {
    let i = obj_key_index(exts, key);
    if i == -1 {
        None
    } else {
        match exts[i].1 {
            JsonV::Object(f) => Some(f),
            _ => None,
        }
    }
}

/// The configuration with each field of `fields` added, in order, unless the
/// configuration already holds its key.
pub open spec fn merge_missing(config: Seq<(Seq<char>, JsonV)>, fields: Seq<(Seq<char>, JsonV)>) -> Seq<(Seq<char>, JsonV)>
    decreases fields.len(),
{
    if fields.len() == 0 {
        config
    } else {
        let next = if obj_key_index(config, fields[0].0) != -1 {
            config
        } else {
            config.push(fields[0])
        };
        merge_missing(next, fields.drop_first())
    }
}

/// The configuration after the extension stored under `key` is merged in.
pub open spec fn merged_config(config: Seq<(Seq<char>, JsonV)>, exts: Seq<(Seq<char>, JsonV)>, key: Seq<char>) -> Seq<(Seq<char>, JsonV)> {
    match extension_fields(exts, key) {
        Some(f) => merge_missing(config, f),
        None => config,
    }
}

/// Adds to `config` the fields of the extension stored under `extension_key`
/// that it does not hold yet; the fields it holds keep their values.
pub fn merge_extension_fields(config: &mut Vec<(String, Json)>, extensions: &Vec<(String, Json)>, extension_key: &str)
    ensures
        entries_view(final(config)@) == merged_config(entries_view(old(config)@), entries_view(extensions@), extension_key@),
{
    let ghost xv = entries_view(extensions@);
    let mut i: usize = 0;
    while i < extensions.len()
        invariant
            i <= extensions@.len(),
            xv == entries_view(extensions@),
            config@ == old(config)@,
            forall|j: int| 0 <= j < i ==> xv[j].0 != extension_key@,
        decreases extensions@.len() - i,
    {
        assert(xv[i as int].0 == extensions@[i as int].0@);
        if str_eq(extensions[i].0.as_str(), extension_key) {
            proof {
                crate::json::lemma_obj_key_index_found(xv, extension_key@, i as int);
            }
            match &extensions[i].1 {
                Json::Object(fields) => {
                    proof {
                        crate::json::lemma_entries_view(*fields);
                        assert(xv[i as int].1 == extensions@[i as int].1.view());
                    }
                    let ghost fv = entries_view(fields@);
                    let mut k: usize = 0;
                    assert(fv.skip(0) =~= fv);
                    while k < fields.len()
                        invariant
                            k <= fields@.len(),
                            fv == entries_view(fields@),
                            merge_missing(entries_view(old(config)@), fv) == merge_missing(entries_view(config@), fv.skip(k as int)),
                        decreases fields@.len() - k,
                    {
                        proof {
                            assert(fv.skip(k as int).drop_first() =~= fv.skip(k + 1));
                            assert(fv.skip(k as int)[0] == fv[k as int]);
                            assert(fv[k as int] == (fields@[k as int].0@, fields@[k as int].1.view()));
                        }
                        let present = has_key(config, fields[k].0.as_str());
                        if !present {
                            let ghost before = entries_view(config@);
                            let key = fields[k].0.clone();
                            let value = fields[k].1.cloned();
                            config.push((key, value));
                            proof {
                                assert(entries_view(config@) =~= before.push(fv[k as int]));
                            }
                        }
                        k = k + 1;
                    }
                    proof {
                        assert(fv.skip(k as int) =~= Seq::<(Seq<char>, JsonV)>::empty());
                    }
                },
                _ => {},
            }
            return;
        }
        i = i + 1;
    }
    proof {
        crate::json::lemma_obj_key_index_absent(xv, extension_key@);
    }
}

/// Merging fields only adds fields after those of the configuration.
pub proof fn lemma_merge_missing_prefix(config: Seq<(Seq<char>, JsonV)>, fields: Seq<(Seq<char>, JsonV)>)
    ensures
        merge_missing(config, fields).len() >= config.len(),
        merge_missing(config, fields).take(config.len() as int) == config,
    decreases fields.len(),
{
    if fields.len() > 0 {
        let next = if obj_key_index(config, fields[0].0) != -1 {
            config
        } else {
            config.push(fields[0])
        };
        lemma_merge_missing_prefix(next, fields.drop_first());
        assert(next.take(config.len() as int) =~= config);
        assert(merge_missing(config, fields).take(config.len() as int) =~= merge_missing(next, fields.drop_first()).take(
            next.len() as int,
        ).take(config.len() as int));
    } else {
        assert(config.take(config.len() as int) =~= config);
    }
}

/// Looking up a key in entries whose first part is `prefix` finds what the prefix holds.
proof fn lemma_lookup_prefix(prefix: Seq<(Seq<char>, JsonV)>, all: Seq<(Seq<char>, JsonV)>, key: Seq<char>)
    requires
        all.len() >= prefix.len(),
        all.take(prefix.len() as int) == prefix,
        obj_key_index(prefix, key) != -1,
    ensures
        obj_key_index(all, key) == obj_key_index(prefix, key),
{
    lemma_obj_key_index_props(prefix, key);
    let i = obj_key_index(prefix, key);
    assert(all[i] == prefix[i]);
    assert forall|j: int| 0 <= j < i implies all[j].0 != key by {
        assert(all[j] == prefix[j]);
    }
    crate::json::lemma_obj_key_index_found(all, key, i);
}

/// An extension never overrides a field that the configuration already holds:
/// after merging, every key of the configuration still gives its value.
pub proof fn lemma_extension_keeps_core_fields(
    config: Seq<(Seq<char>, JsonV)>,
    exts: Seq<(Seq<char>, JsonV)>,
    ext_key: Seq<char>,
    key: Seq<char>,
)
    requires
        obj_key_index(config, key) != -1,
    ensures
        obj_key_index(merged_config(config, exts, ext_key), key) == obj_key_index(config, key),
        merged_config(config, exts, ext_key)[obj_key_index(config, key)] == config[obj_key_index(config, key)],
{
    lemma_obj_key_index_props(config, key);
    match extension_fields(exts, ext_key) {
        Some(f) => {
            lemma_merge_missing_prefix(config, f);
            lemma_lookup_prefix(config, merge_missing(config, f), key);
            let i = obj_key_index(config, key);
            assert(merge_missing(config, f).take(config.len() as int)[i] == merge_missing(config, f)[i]);
        },
        None => {},
    }
}


/// The value of `key` in the configuration `core` is kept by every merge of
/// extension fields, when `core` holds the key at `i` and not before.
proof fn lemma_core_field(
    core: Seq<(Seq<char>, JsonV)>,
    exts: Seq<(Seq<char>, JsonV)>,
    ext_key: Seq<char>,
    key: Seq<char>,
    i: int,
)
    requires
        0 <= i < core.len(),
        core[i].0 == key,
        forall|j: int| 0 <= j < i ==> core[j].0 != key,
    ensures
        crate::json::obj_lookup(merged_config(core, exts, ext_key), key) == Some(core[i].1),
{
    crate::json::lemma_obj_key_index_found(core, key, i);
    lemma_extension_keeps_core_fields(core, exts, ext_key, key);
}

/// Every framework export of an agent gives it the same instructions: the
/// Google ADK `instruction`, the OpenAI Agents `instructions` and the CrewAI
/// `backstory` are one text, the merge of the selected prompt's instruction
/// blocks and the agent's description.
pub proof fn lemma_exports_share_instructions(spec: PortableSpec, agent: AgentSpec)
    ensures
        ({
            let p = selected_prompt(spec, agent);
            let exts = entries_view(agent.extensions@);
            let adk = crate::json::obj_lookup(merged_config(google_adk_core(agent, p), exts, "google_adk"@), "instruction"@);
            let oai = crate::json::obj_lookup(
                merged_config(openai_core(agent, p), exts, "openai_agents"@),
                "instructions"@,
            );
            let crew = crate::json::obj_lookup(merged_config(crewai_core(agent, p), exts, "crewai"@), "backstory"@);
            &&& adk == oai
            &&& oai == crew
            &&& oai == Some(JsonV::Str(merged_instructions(agent, p)))
        }),
{
    reveal_strlit("name");
    reveal_strlit("description");
    reveal_strlit("instruction");
    reveal_strlit("instructions");
    reveal_strlit("id");
    reveal_strlit("role");
    reveal_strlit("goal");
    reveal_strlit("backstory");
    let p = selected_prompt(spec, agent);
    let exts = entries_view(agent.extensions@);
    let g = google_adk_core(agent, p);
    let o = openai_core(agent, p);
    let c = crewai_core(agent, p);
    assert(g[2].0 == "instruction"@ && g[2].1 == JsonV::Str(merged_instructions(agent, p)));
    assert("name"@.len() != "instruction"@.len());
    assert(g[0].0 != "instruction"@);
    assert("description"@[0] != "instruction"@[0]);
    assert(g[1].0 != "instruction"@);
    lemma_core_field(g, exts, "google_adk"@, "instruction"@, 2);
    assert(o[1].0 == "instructions"@ && o[1].1 == JsonV::Str(merged_instructions(agent, p)));
    assert(o[0].0 != "instructions"@);
    lemma_core_field(o, exts, "openai_agents"@, "instructions"@, 1);
    assert(c[3].0 == "backstory"@ && c[3].1 == JsonV::Str(merged_instructions(agent, p)));
    assert("id"@.len() != "backstory"@.len());
    assert(c[0].0 != "backstory"@);
    assert(c[1].0 != "backstory"@);
    assert(c[2].0 != "backstory"@);
    lemma_core_field(c, exts, "crewai"@, "backstory"@, 3);
}

/// The Google ADK instruction carries the selected prompt's text: for an
/// agent without a description whose prompt has one instruction block, the
/// instruction is that block's (already trimmed, non-empty) content.
pub proof fn lemma_adk_instruction_is_prompt_text(spec: PortableSpec, agent: AgentSpec, p: PromptSpec)
    requires
        selected_prompt(spec, agent) == Some(p),
        agent.description is None,
        p.instructions@.len() == 1,
        trim_spec(p.instructions@[0].content@) == p.instructions@[0].content@,
        p.instructions@[0].content@.len() > 0,
    ensures
        crate::json::obj_lookup(
            merged_config(google_adk_core(agent, Some(p)), entries_view(agent.extensions@), "google_adk"@),
            "instruction"@,
        ) == Some(JsonV::Str(p.instructions@[0].content@)),
{
    lemma_exports_share_instructions(spec, agent);
    let b = p.instructions@;
    assert(b.drop_last() =~= Seq::<InstructionBlock>::empty());
    assert(instruction_texts(b.drop_last()) =~= Seq::<Seq<char>>::empty());
    assert(instruction_texts(b) =~= seq![b[0].content@]);
    assert(instruction_parts(agent, Some(p)) =~= seq![b[0].content@]);
}

/// Without a prompt to draw on, an export's instruction is the agent's own
/// description, trimmed.
pub proof fn lemma_adk_instruction_is_description(spec: PortableSpec, agent: AgentSpec, d: String)
    requires
        selected_prompt(spec, agent) is None,
        agent.description == Some(d),
        trim_spec(d@).len() > 0,
    ensures
        crate::json::obj_lookup(
            merged_config(google_adk_core(agent, None), entries_view(agent.extensions@), "google_adk"@),
            "instruction"@,
        ) == Some(JsonV::Str(trim_spec(d@))),
{
    lemma_exports_share_instructions(spec, agent);
    assert(instruction_parts(agent, None) =~= seq![trim_spec(d@)]);
}

impl InstructionBlock {
    /// A copy of the block.
    pub fn duplicate(&self) -> (r: InstructionBlock)
        ensures
            r == *self,
    {
        InstructionBlock { role: self.role.clone(), content: self.content.clone() }
    }
}

/// A copy of a list of instruction blocks.
fn clone_instructions(v: &Vec<InstructionBlock>) -> (r: Vec<InstructionBlock>)
    ensures
        r@ == v@,
{
    let mut out: Vec<InstructionBlock> = Vec::new();
    let mut i: usize = 0;
    while i < v.len()
        invariant
            i <= v@.len(),
            out@ == v@.take(i as int),
        decreases v@.len() - i,
    {
        out.push(v[i].duplicate());
        proof {
            assert(v@.take(i + 1) =~= v@.take(i as int).push(v@[i as int]));
        }
        i = i + 1;
    }
    proof {
        assert(v@.take(i as int) =~= v@);
    }
    out
}

/// What a variable of a prompt holds.
pub open spec fn variable_view(v: VariableSpec) -> (Seq<char>, bool, Option<JsonV>, Option<JsonV>) {
    (v.name@, v.required, opt_view(v.default), opt_view(v.schema))
}

/// What a list of variables holds.
pub open spec fn variables_view(v: Seq<VariableSpec>) -> Seq<(Seq<char>, bool, Option<JsonV>, Option<JsonV>)> {
    Seq::new(v.len(), |i: int| variable_view(v[i]))
}

/// A copy of a list of variables.
fn clone_variables(v: &Vec<VariableSpec>) -> (r: Vec<VariableSpec>)
    ensures
        variables_view(r@) == variables_view(v@),
{
    let mut out: Vec<VariableSpec> = Vec::new();
    let mut i: usize = 0;
    while i < v.len()
        invariant
            i <= v@.len(),
            variables_view(out@) == variables_view(v@).take(i as int),
        decreases v@.len() - i,
    {
        let ghost before = variables_view(out@);
        let x = VariableSpec {
            name: v[i].name.clone(),
            required: v[i].required,
            default: clone_opt_json(&v[i].default),
            schema: clone_opt_json(&v[i].schema),
        };
        out.push(x);
        proof {
            assert(variables_view(out@) =~= before.push(variables_view(v@)[i as int]));
            assert(variables_view(v@).take(i + 1) =~= variables_view(v@).take(i as int).push(variables_view(v@)[i as int]));
        }
        i = i + 1;
    }
    proof {
        assert(variables_view(v@).take(i as int) =~= variables_view(v@));
    }
    out
}

/// Whether two prompt specs hold the same values.
pub open spec fn same_prompt(a: PromptSpec, b: PromptSpec) -> bool {
    &&& a.id == b.id
    &&& a.version == b.version
    &&& a.title == b.title
    &&& a.description == b.description
    &&& a.instructions@ == b.instructions@
    &&& variables_view(a.variables@) == variables_view(b.variables@)
    &&& opt_view(a.input_schema) == opt_view(b.input_schema)
    &&& opt_view(a.output_schema) == opt_view(b.output_schema)
    &&& a.tags@ == b.tags@
    &&& entries_view(a.metadata@) == entries_view(b.metadata@)
    &&& entries_view(a.extensions@) == entries_view(b.extensions@)
}

/// Whether two agent specs hold the same values.
pub open spec fn same_agent(a: AgentSpec, b: AgentSpec) -> bool {
    &&& a.id == b.id
    &&& a.version == b.version
    &&& a.name == b.name
    &&& a.description == b.description
    &&& a.primary_prompt == b.primary_prompt
    &&& a.prompt_refs@ == b.prompt_refs@
    &&& opt_view(a.input_schema) == opt_view(b.input_schema)
    &&& opt_view(a.output_schema) == opt_view(b.output_schema)
    &&& a.tool_refs@ == b.tool_refs@
    &&& a.agent_refs@ == b.agent_refs@
    &&& a.capabilities@ == b.capabilities@
    &&& a.provider_hints@ == b.provider_hints@
    &&& a.framework_hints@ == b.framework_hints@
    &&& a.tags@ == b.tags@
    &&& entries_view(a.metadata@) == entries_view(b.metadata@)
    &&& entries_view(a.extensions@) == entries_view(b.extensions@)
}

impl PromptSpec {
    /// A copy of the prompt spec.
    pub fn duplicate(&self) -> (r: PromptSpec)
        ensures
            same_prompt(*self, r),
    {
        PromptSpec {
            id: self.id.clone(),
            version: self.version.clone(),
            title: clone_opt_str(&self.title),
            description: clone_opt_str(&self.description),
            instructions: clone_instructions(&self.instructions),
            variables: clone_variables(&self.variables),
            input_schema: clone_opt_json(&self.input_schema),
            output_schema: clone_opt_json(&self.output_schema),
            tags: clone_strs(&self.tags),
            metadata: clone_entries(&self.metadata),
            extensions: clone_entries(&self.extensions),
        }
    }
}

impl AgentSpec {
    /// A copy of the agent spec.
    pub fn duplicate(&self) -> (r: AgentSpec)
        ensures
            same_agent(*self, r),
    {
        AgentSpec {
            id: self.id.clone(),
            version: self.version.clone(),
            name: clone_opt_str(&self.name),
            description: clone_opt_str(&self.description),
            primary_prompt: clone_opt_str(&self.primary_prompt),
            prompt_refs: clone_strs(&self.prompt_refs),
            input_schema: clone_opt_json(&self.input_schema),
            output_schema: clone_opt_json(&self.output_schema),
            tool_refs: clone_strs(&self.tool_refs),
            agent_refs: clone_strs(&self.agent_refs),
            capabilities: clone_strs(&self.capabilities),
            provider_hints: clone_strs(&self.provider_hints),
            framework_hints: clone_strs(&self.framework_hints),
            tags: clone_strs(&self.tags),
            metadata: clone_entries(&self.metadata),
            extensions: clone_entries(&self.extensions),
        }
    }
}

/// The ids of the prompts, in order.
pub open spec fn prompt_ids(p: Seq<PromptSpec>) -> Seq<Seq<char>> {
    Seq::new(p.len(), |i: int| p[i].id@)
}

/// The ids of the agents, in order.
pub open spec fn agent_ids(a: Seq<AgentSpec>) -> Seq<Seq<char>> {
    Seq::new(a.len(), |i: int| a[i].id@)
}

/// What a search for the first `id` among `ids` gives, stated over `index_of_first`.
proof fn lemma_first_index(ids: Seq<Seq<char>>, id: Seq<char>, i: int)
    requires
        0 <= i < ids.len(),
        ids[i] == id,
        forall|j: int| 0 <= j < i ==> ids[j] != id,
    ensures
        ids.index_of_first(id) == Some(i),
{
    ids.index_of_first_ensures(id);
    assert(ids.contains(id)) by {
        assert(ids[i] == id);
    }
    match ids.index_of_first(id) {
        Some(k) => {
            if k < i {
                assert(ids[k] != id);
            } else if k > i {
                assert(ids[i] != id);
            }
        },
        None => {},
    }
}

/// A search that finds no `id` among `ids`.
proof fn lemma_no_index(ids: Seq<Seq<char>>, id: Seq<char>)
    requires
        forall|j: int| 0 <= j < ids.len() ==> ids[j] != id,
    ensures
        ids.index_of_first(id) is None,
{
    ids.index_of_first_ensures(id);
    if ids.index_of_first(id) is Some {
        let k = ids.index_of_first(id)->0;
        assert(ids[k] == id);
    }
}

/// The position of the first prompt whose id is `id`.
pub fn find_prompt_index(prompts: &Vec<PromptSpec>, id: &str) -> (r: Option<usize>)
    ensures
        match prompt_ids(prompts@).index_of_first(id@) {
            Some(i) => r matches Some(j) && j as int == i,
            None => r is None,
        },
        r matches Some(i) ==> i < prompts@.len() && prompts@[i as int].id@ == id@,
{
    let ghost ids = prompt_ids(prompts@);
    let mut i: usize = 0;
    while i < prompts.len()
        invariant
            i <= prompts@.len(),
            ids == prompt_ids(prompts@),
            forall|j: int| 0 <= j < i ==> ids[j] != id@,
        decreases prompts@.len() - i,
    {
        if str_eq(prompts[i].id.as_str(), id) {
            proof {
                lemma_first_index(ids, id@, i as int);
            }
            return Some(i);
        }
        i = i + 1;
    }
    proof {
        lemma_no_index(ids, id@);
    }
    None
}

/// The position of the first agent whose id is `id`.
pub fn find_agent_index(agents: &Vec<AgentSpec>, id: &str) -> (r: Option<usize>)
    ensures
        match agent_ids(agents@).index_of_first(id@) {
            Some(i) => r matches Some(j) && j as int == i,
            None => r is None,
        },
        r matches Some(i) ==> i < agents@.len() && agents@[i as int].id@ == id@,
{
    let ghost ids = agent_ids(agents@);
    let mut i: usize = 0;
    while i < agents.len()
        invariant
            i <= agents@.len(),
            ids == agent_ids(agents@),
            forall|j: int| 0 <= j < i ==> ids[j] != id@,
        decreases agents@.len() - i,
    {
        if str_eq(agents[i].id.as_str(), id) {
            proof {
                lemma_first_index(ids, id@, i as int);
            }
            return Some(i);
        }
        i = i + 1;
    }
    proof {
        lemma_no_index(ids, id@);
    }
    None
}

/// The message when no prompt has the requested id in a spec file.
pub open spec fn prompt_missing_in_file(id: Seq<char>) -> Seq<char> {
    "Prompt '"@ + id + "' not found in spec file"@
}

/// The message when no agent has the requested id in a spec file.
pub open spec fn agent_missing_in_file(id: Seq<char>) -> Seq<char> {
    "Agent '"@ + id + "' not found in spec file"@
}

/// The message when a spec file holds other than one prompt and no id was given.
pub open spec fn prompts_ambiguous(n: nat) -> Seq<char> {
    "Spec file contains "@ + decimal_text(n) + " prompts. Provide prompt_id to disambiguate."@
}

/// The message when a spec file holds other than one agent and no id was given.
pub open spec fn agents_ambiguous(n: nat) -> Seq<char> {
    "Spec file contains "@ + decimal_text(n) + " agents. Provide agent_id to disambiguate."@
}

/// Picks a prompt out of a spec file: the first with the requested id, or the
/// only one when no id is given.
pub fn choose_prompt_from_portable(portable: PortableSpec, prompt_id: Option<&str>) -> (r: Result<PromptSpec, TypeError>)
    ensures
        match prompt_id {
            Some(id) => match prompt_ids(portable.prompts@).index_of_first(id@) {
                Some(i) => r == Ok::<PromptSpec, TypeError>(portable.prompts@[i]),
                None => r matches Err(TypeError::Error(e)) && e@ == prompt_missing_in_file(id@),
            },
            None => if portable.prompts@.len() == 1 {
                r == Ok::<PromptSpec, TypeError>(portable.prompts@[0])
            } else {
                r matches Err(TypeError::Error(e)) && e@ == prompts_ambiguous(portable.prompts@.len())
            },
        },
{
    let mut prompts = portable.prompts;
    proof {
        if let Some(id) = prompt_id {
            prompt_ids(prompts@).index_of_first_ensures(id@);
        }
    }
    match prompt_id {
        Some(id) => match find_prompt_index(&prompts, id) {
            Some(i) => Ok(prompts.remove(i)),
            None => {
                let a = concat("Prompt '", id);
                Err(TypeError::Error(concat(a.as_str(), "' not found in spec file")))
            },
        },
        None => {
            if prompts.len() == 1 {
                Ok(prompts.remove(0))
            } else {
                let n = usize_text(prompts.len());
                let a = concat("Spec file contains ", n.as_str());
                Err(TypeError::Error(concat(a.as_str(), " prompts. Provide prompt_id to disambiguate.")))
            }
        },
    }
}

/// Picks an agent out of a spec file: the first with the requested id, or the
/// only one when no id is given.
pub fn choose_agent_from_portable(portable: PortableSpec, agent_id: Option<&str>) -> (r: Result<AgentSpec, TypeError>)
    ensures
        match agent_id {
            Some(id) => match agent_ids(portable.agents@).index_of_first(id@) {
                Some(i) => r == Ok::<AgentSpec, TypeError>(portable.agents@[i]),
                None => r matches Err(TypeError::Error(e)) && e@ == agent_missing_in_file(id@),
            },
            None => if portable.agents@.len() == 1 {
                r == Ok::<AgentSpec, TypeError>(portable.agents@[0])
            } else {
                r matches Err(TypeError::Error(e)) && e@ == agents_ambiguous(portable.agents@.len())
            },
        },
{
    let mut agents = portable.agents;
    proof {
        if let Some(id) = agent_id {
            agent_ids(agents@).index_of_first_ensures(id@);
        }
    }
    match agent_id {
        Some(id) => match find_agent_index(&agents, id) {
            Some(i) => Ok(agents.remove(i)),
            None => {
                let a = concat("Agent '", id);
                Err(TypeError::Error(concat(a.as_str(), "' not found in spec file")))
            },
        },
        None => {
            if agents.len() == 1 {
                Ok(agents.remove(0))
            } else {
                let n = usize_text(agents.len());
                let a = concat("Spec file contains ", n.as_str());
                Err(TypeError::Error(concat(a.as_str(), " agents. Provide agent_id to disambiguate.")))
            }
        },
    }
}

/// The text of an instruction block without the white space at its ends.
pub fn instruction_text(instruction: &InstructionBlock) -> (r: String)
    ensures
        r@ == trim_spec(instruction.content@),
{
    trim(instruction.content.as_str())
}

/// The trimmed texts of the blocks, leaving out those that trim to nothing.
pub open spec fn instruction_texts(blocks: Seq<InstructionBlock>) -> Seq<Seq<char>>
    decreases blocks.len(),
{
    if blocks.len() == 0 {
        Seq::empty()
    } else {
        let rest = instruction_texts(blocks.drop_last());
        let t = trim_spec(blocks.last().content@);
        if t.len() == 0 {
            rest
        } else {
            rest.push(t)
        }
    }
}

/// The blocks of text that make up the instructions of an agent: those of its
/// prompt, then its own description, each trimmed, none empty.
pub open spec fn instruction_parts(agent: AgentSpec, prompt: Option<PromptSpec>) -> Seq<Seq<char>> {
    let blocks = match prompt {
        Some(p) => instruction_texts(p.instructions@),
        None => Seq::empty(),
    };
    match agent.description {
        Some(d) => if trim_spec(d@).len() > 0 {
            blocks.push(trim_spec(d@))
        } else {
            blocks
        },
        None => blocks,
    }
}

/// The instructions of an agent, its blocks separated by a blank line.
pub open spec fn merged_instructions(agent: AgentSpec, prompt: Option<PromptSpec>) -> Seq<char> {
    join_spec(instruction_parts(agent, prompt), "\n\n"@)
}

/// Joins the instructions of the prompt and the description of the agent.
pub fn merge_prompt_and_agent_instructions(agent: &AgentSpec, prompt: Option<&PromptSpec>) -> (r: String)
    ensures
        r@ == merged_instructions(
            *agent,
            match prompt {
                Some(p) => Some(*p),
                None => None,
            },
        ),
{
    let ghost po: Option<PromptSpec> = match prompt {
        Some(p) => Some(*p),
        None => None,
    };
    let mut blocks: Vec<String> = Vec::new();
    match prompt {
        Some(p) => {
            let mut i: usize = 0;
            while i < p.instructions.len()
                invariant
                    i <= p.instructions@.len(),
                    sv(blocks@) == instruction_texts(p.instructions@.take(i as int)),
                decreases p.instructions@.len() - i,
            {
                proof {
                    assert(p.instructions@.take(i + 1).drop_last() =~= p.instructions@.take(i as int));
                    assert(p.instructions@.take(i + 1).last() == p.instructions@[i as int]);
                }
                let t = instruction_text(&p.instructions[i]);
                if !t.as_str().is_empty() {
                    let ghost before = blocks@;
                    blocks.push(t);
                    proof {
                        assert(sv(blocks@) =~= sv(before).push(t@));
                    }
                } else {
                    proof {
                        assert(t@.len() == 0);
                    }
                }
                i = i + 1;
            }
            proof {
                assert(p.instructions@.take(i as int) =~= p.instructions@);
            }
        },
        None => {
            proof {
                assert(sv(blocks@) =~= Seq::<Seq<char>>::empty());
            }
        },
    }
    match &agent.description {
        Some(d) => {
            let t = trim(d.as_str());
            if !t.as_str().is_empty() {
                let ghost before = blocks@;
                blocks.push(t);
                proof {
                    assert(sv(blocks@) =~= sv(before).push(t@));
                }
            } else {
                proof {
                    assert(t@.len() == 0);
                }
            }
        },
        None => {},
    }
    proof {
        assert(sv(blocks@) == instruction_parts(*agent, po));
    }
    join(&blocks, "\n\n")
}

/// The message when no agent has the requested id.
pub open spec fn agent_missing(id: Seq<char>) -> Seq<char> {
    "Agent '"@ + id + "' not found"@
}

/// The message when no prompt has the requested id.
pub open spec fn prompt_missing(id: Seq<char>) -> Seq<char> {
    "Prompt '"@ + id + "' not found"@
}

impl PortableSpec {
    /// The first prompt whose id is `prompt_id`.
    pub fn find_prompt(&self, prompt_id: &str) -> (r: Option<&PromptSpec>)
        ensures
            match prompt_ids(self.prompts@).index_of_first(prompt_id@) {
                Some(i) => r matches Some(p) && *p == self.prompts@[i],
                None => r is None,
            },
    {
        proof {
            prompt_ids(self.prompts@).index_of_first_ensures(prompt_id@);
        }
        match find_prompt_index(&self.prompts, prompt_id) {
            Some(i) => Some(&self.prompts[i]),
            None => None,
        }
    }

    /// The first agent whose id is `agent_id`.
    pub fn find_agent(&self, agent_id: &str) -> (r: Result<&AgentSpec, TypeError>)
        ensures
            match agent_ids(self.agents@).index_of_first(agent_id@) {
                Some(i) => r matches Ok(a) && *a == self.agents@[i],
                None => r matches Err(TypeError::Error(e)) && e@ == agent_missing(agent_id@),
            },
    {
        proof {
            agent_ids(self.agents@).index_of_first_ensures(agent_id@);
        }
        match find_agent_index(&self.agents, agent_id) {
            Some(i) => Ok(&self.agents[i]),
            None => {
                let a = concat("Agent '", agent_id);
                Err(TypeError::Error(concat(a.as_str(), "' not found")))
            },
        }
    }

    /// A copy of the first prompt whose id is `prompt_id`.
    pub fn prompt(&self, prompt_id: String) -> (r: Result<PromptSpec, TypeError>)
        ensures
            match prompt_ids(self.prompts@).index_of_first(prompt_id@) {
                Some(i) => r matches Ok(p) && same_prompt(self.prompts@[i], p),
                None => r matches Err(TypeError::Error(e)) && e@ == prompt_missing(prompt_id@),
            },
    {
        match self.find_prompt(prompt_id.as_str()) {
            Some(p) => Ok(p.duplicate()),
            None => {
                let a = concat("Prompt '", prompt_id.as_str());
                Err(TypeError::Error(concat(a.as_str(), "' not found")))
            },
        }
    }

    /// A copy of the first agent whose id is `agent_id`.
    pub fn agent(&self, agent_id: String) -> (r: Result<AgentSpec, TypeError>)
        ensures
            match agent_ids(self.agents@).index_of_first(agent_id@) {
                Some(i) => r matches Ok(a) && same_agent(self.agents@[i], a),
                None => r matches Err(TypeError::Error(e)) && e@ == agent_missing(agent_id@),
            },
    {
        match self.find_agent(agent_id.as_str()) {
            Ok(a) => Ok(a.duplicate()),
            Err(e) => Err(e),
        }
    }
}

/// The prompt that an agent names: its primary prompt, else its first prompt reference.
pub open spec fn prompt_ref(agent: AgentSpec) -> Option<Seq<char>> {
    match agent.primary_prompt {
        Some(p) => Some(p@),
        None => if agent.prompt_refs@.len() > 0 {
            Some(agent.prompt_refs@[0]@)
        } else {
            None
        },
    }
}

/// The loss noted when the prompt that an agent names is not in the spec.
pub open spec fn ref_missing(r: Seq<char>) -> Seq<char> {
    "Prompt reference '"@ + r + "' was not found; exported instructions may be incomplete."@
}

/// The loss noted when an agent names no prompt and the spec holds several.
pub open spec fn no_prompt_selected() -> Seq<char> {
    "Agent has no prompt reference and spec contains multiple prompts; no prompt body was selected."@
}

/// The position of the prompt that an export of `agent` uses, if any, and the
/// losses noted in choosing it.
pub open spec fn prompt_selection(spec: PortableSpec, agent: AgentSpec) -> (Option<int>, Seq<Seq<char>>) {
    match prompt_ref(agent) {
        Some(r) => match prompt_ids(spec.prompts@).index_of_first(r) {
            Some(i) => (Some(i), Seq::empty()),
            None => (None, seq![ref_missing(r)]),
        },
        None => if spec.prompts@.len() == 0 {
            (None, Seq::empty())
        } else if spec.prompts@.len() == 1 {
            (Some(0), Seq::empty())
        } else {
            (None, seq![no_prompt_selected()])
        },
    }
}

/// The prompt that an export of `agent` uses, if any.
pub open spec fn selected_prompt(spec: PortableSpec, agent: AgentSpec) -> Option<PromptSpec> {
    match prompt_selection(spec, agent).0 {
        Some(i) => Some(spec.prompts@[i]),
        None => None,
    }
}

/// The prompt behind an optional reference.
pub open spec fn deref_prompt(p: Option<&PromptSpec>) -> Option<PromptSpec> {
    match p {
        Some(q) => Some(*q),
        None => None,
    }
}

impl PortableSpec {
    /// The prompt whose instructions an export of `agent` carries, with the
    /// losses noted in choosing it; this never fails.
    pub fn selected_prompt_for_agent<'a>(&'a self, agent: &'a AgentSpec) -> (r: Result<
        (Option<&'a PromptSpec>, Vec<String>),
        TypeError,
    >)
        ensures
            r matches Ok(x) && deref_prompt(x.0) == selected_prompt(*self, *agent) && sv(x.1@) == prompt_selection(
                *self,
                *agent,
            ).1,
    {
        let mut losses: Vec<String> = Vec::new();
        let prompt_ref: Option<&String> = match &agent.primary_prompt {
            Some(p) => Some(p),
            None => if agent.prompt_refs.len() > 0 {
                Some(&agent.prompt_refs[0])
            } else {
                None
            },
        };
        match prompt_ref {
            Some(pr) => {
                proof {
                    prompt_ids(self.prompts@).index_of_first_ensures(pr@);
                }
                let prompt = self.find_prompt(pr.as_str());
                if prompt.is_none() {
                    let a = concat("Prompt reference '", pr.as_str());
                    losses.push(concat(a.as_str(), "' was not found; exported instructions may be incomplete."));
                    proof {
                        assert(sv(losses@) =~= seq![ref_missing(pr@)]);
                    }
                } else {
                    proof {
                        assert(sv(losses@) =~= Seq::<Seq<char>>::empty());
                    }
                }
                return Ok((prompt, losses));
            },
            None => {},
        }
        if self.prompts.len() == 0 {
            proof {
                assert(sv(losses@) =~= Seq::<Seq<char>>::empty());
            }
            Ok((None, losses))
        } else if self.prompts.len() == 1 {
            proof {
                assert(sv(losses@) =~= Seq::<Seq<char>>::empty());
            }
            Ok((Some(&self.prompts[0]), losses))
        } else {
            losses.push(
                "Agent has no prompt reference and spec contains multiple prompts; no prompt body was selected.".to_owned(),
            );
            proof {
                assert(sv(losses@) =~= seq![no_prompt_selected()]);
            }
            Ok((None, losses))
        }
    }
}

/// The name under which an agent is exported: its name, else its id.
pub open spec fn display_name(agent: AgentSpec) -> Seq<char> {
    match agent.name {
        Some(n) => n@,
        None => agent.id@,
    }
}

/// Tools as objects that hold their name.
pub open spec fn tool_objects(names: Seq<String>) -> Seq<JsonV> {
    Seq::new(names.len(), |i: int| JsonV::Object(seq![("name"@, JsonV::Str(names[i]@))]))
}

/// Names as JSON strings.
pub open spec fn string_values(names: Seq<String>) -> Seq<JsonV> {
    Seq::new(names.len(), |i: int| JsonV::Str(names[i]@))
}

/// The output schema of an export: the agent's, else its prompt's.
pub open spec fn export_schema(agent: AgentSpec, prompt: Option<PromptSpec>) -> Option<JsonV> {
    match agent.output_schema {
        Some(s) => Some(s.view()),
        None => match prompt {
            Some(p) => opt_view(p.output_schema),
            None => None,
        },
    }
}

/// Whether an export is for `framework` and `agent` and holds `config` and `losses`.
pub open spec fn export_is(
    x: FrameworkExport,
    framework: Seq<char>,
    agent: AgentSpec,
    config: Seq<(Seq<char>, JsonV)>,
    losses: Seq<Seq<char>>,
) -> bool {
    &&& x.framework@ == framework
    &&& x.agent_id@ == agent.id@
    &&& x.config.view() == JsonV::Object(config)
    &&& sv(x.losses@) == losses
}

/// The tools as a JSON array of objects that hold their name.
fn tool_list(names: &Vec<String>) -> (r: Json)
    ensures
        r.view() == JsonV::Array(tool_objects(names@)),
{
    let mut items: Vec<Json> = Vec::new();
    let mut i: usize = 0;
    while i < names.len()
        invariant
            i <= names@.len(),
            items_view(items@) == tool_objects(names@).take(i as int),
        decreases names@.len() - i,
    {
        let mut fields: Vec<(String, Json)> = Vec::new();
        fields.push(("name".to_owned(), Json::Str(names[i].clone())));
        let item = Json::Object(fields);
        proof {
            lemma_entries_view(fields);
            assert(entries_view(fields@) =~= seq![("name"@, JsonV::Str(names@[i as int]@))]);
        }
        let ghost before = items_view(items@);
        items.push(item);
        proof {
            assert(items_view(items@) =~= before.push(tool_objects(names@)[i as int]));
            assert(tool_objects(names@).take(i + 1) =~= tool_objects(names@).take(i as int).push(
                tool_objects(names@)[i as int],
            ));
        }
        i = i + 1;
    }
    proof {
        assert(tool_objects(names@).take(i as int) =~= tool_objects(names@));
        lemma_items_view(items);
    }
    Json::Array(items)
}

/// The names as a JSON array of strings.
fn string_list(names: &Vec<String>) -> (r: Json)
    ensures
        r.view() == JsonV::Array(string_values(names@)),
{
    let mut items: Vec<Json> = Vec::new();
    let mut i: usize = 0;
    while i < names.len()
        invariant
            i <= names@.len(),
            items_view(items@) == string_values(names@).take(i as int),
        decreases names@.len() - i,
    {
        let ghost before = items_view(items@);
        items.push(Json::Str(names[i].clone()));
        proof {
            assert(items_view(items@) =~= before.push(string_values(names@)[i as int]));
            assert(string_values(names@).take(i + 1) =~= string_values(names@).take(i as int).push(
                string_values(names@)[i as int],
            ));
        }
        i = i + 1;
    }
    proof {
        assert(string_values(names@).take(i as int) =~= string_values(names@));
        lemma_items_view(items);
    }
    Json::Array(items)
}

/// The output schema of an export: the agent's, else its prompt's.
fn export_schema_of(agent: &AgentSpec, prompt: Option<&PromptSpec>) -> (r: Option<Json>)
    ensures
        opt_view(r) == export_schema(*agent, deref_prompt(prompt)),
{
    match &agent.output_schema {
        Some(s) => Some(s.cloned()),
        None => match prompt {
            Some(p) => clone_opt_json(&p.output_schema),
            None => None,
        },
    }
}

/// The name under which an agent is exported.
fn display_name_of(agent: &AgentSpec) -> (r: String)
    ensures
        r@ == display_name(*agent),
{
    match &agent.name {
        Some(n) => n.clone(),
        None => agent.id.clone(),
    }
}

/// Appends one entry to a configuration.
fn put(config: &mut Vec<(String, Json)>, key: &str, value: Json)
    ensures
        entries_view(final(config)@) == entries_view(old(config)@).push((key@, value.view())),
{
    let ghost before = entries_view(config@);
    let ghost vv = value.view();
    config.push((key.to_owned(), value));
    proof {
        assert(entries_view(config@) =~= before.push((key@, vv)));
    }
}

/// The fields of an export for the OpenAI Agents SDK, before its extension is merged.
pub open spec fn openai_core(agent: AgentSpec, prompt: Option<PromptSpec>) -> Seq<(Seq<char>, JsonV)> {
    let base = seq![
        ("name"@, JsonV::Str(display_name(agent))),
        ("instructions"@, JsonV::Str(merged_instructions(agent, prompt))),
        ("tools"@, JsonV::Array(tool_objects(agent.tool_refs@))),
    ];
    let with_schema = match export_schema(agent, prompt) {
        Some(s) => base.push(("output_schema"@, s)),
        None => base,
    };
    if agent.agent_refs@.len() > 0 {
        with_schema.push(("handoffs"@, JsonV::Array(string_values(agent.agent_refs@))))
    } else {
        with_schema
    }
}

/// The losses of an export for the OpenAI Agents SDK.
pub open spec fn openai_losses(spec: PortableSpec, agent: AgentSpec) -> Seq<Seq<char>> {
    let l = prompt_selection(spec, agent).1;
    if export_schema(agent, selected_prompt(spec, agent)) is None {
        l.push("No output schema available for OpenAI export."@)
    } else {
        l
    }
}

impl PortableSpec {
    /// The configuration of an agent for the OpenAI Agents SDK.
    pub fn openai_export(&self, agent_id: &str) -> (r: Result<FrameworkExport, TypeError>)
        ensures
            match agent_ids(self.agents@).index_of_first(agent_id@) {
                Some(i) => r matches Ok(x) && export_is(
                    x,
                    "openai_agents"@,
                    self.agents@[i],
                    merged_config(
                        openai_core(self.agents@[i], selected_prompt(*self, self.agents@[i])),
                        entries_view(self.agents@[i].extensions@),
                        "openai_agents"@,
                    ),
                    openai_losses(*self, self.agents@[i]),
                ),
                None => r matches Err(TypeError::Error(e)) && e@ == agent_missing(agent_id@),
            },
    {
        let agent = self.find_agent(agent_id)?;
        let (prompt, mut losses) = self.selected_prompt_for_agent(agent)?;
        let ghost a = *agent;
        let ghost po = deref_prompt(prompt);
        let mut config: Vec<(String, Json)> = Vec::new();
        put(&mut config, "name", Json::Str(display_name_of(agent)));
        put(&mut config, "instructions", Json::Str(merge_prompt_and_agent_instructions(agent, prompt)));
        put(&mut config, "tools", tool_list(&agent.tool_refs));
        proof {
            assert(entries_view(config@) =~= seq![
                ("name"@, JsonV::Str(display_name(a))),
                ("instructions"@, JsonV::Str(merged_instructions(a, po))),
                ("tools"@, JsonV::Array(tool_objects(a.tool_refs@))),
            ]);
        }
        match export_schema_of(agent, prompt) {
            Some(schema) => put(&mut config, "output_schema", schema),
            None => {
                let ghost l0 = sv(losses@);
                losses.push("No output schema available for OpenAI export.".to_owned());
                proof {
                    assert(sv(losses@) =~= l0.push("No output schema available for OpenAI export."@));
                }
            },
        }
        if agent.agent_refs.len() > 0 {
            put(&mut config, "handoffs", string_list(&agent.agent_refs));
        }
        proof {
            assert(entries_view(config@) == openai_core(a, po));
        }
        merge_extension_fields(&mut config, &agent.extensions, "openai_agents");
        proof {
            lemma_entries_view(config);
        }
        Ok(FrameworkExport {
            framework: "openai_agents".to_owned(),
            agent_id: agent.id.clone(),
            config: Json::Object(config),
            losses,
        })
    }
}

/// The fields of an export for CrewAI, before its extension is merged.
pub open spec fn crewai_core(agent: AgentSpec, prompt: Option<PromptSpec>) -> Seq<(Seq<char>, JsonV)> {
    let base = seq![
        ("id"@, JsonV::Str(display_name(agent))),
        ("role"@, JsonV::Str(match agent.name {
            Some(n) => n@,
            None => "Agent"@,
        })),
        ("goal"@, JsonV::Str(match agent.description {
            Some(d) => d@,
            None => "Execute assigned tasks"@,
        })),
        ("backstory"@, JsonV::Str(merged_instructions(agent, prompt))),
        ("tools"@, JsonV::Array(string_values(agent.tool_refs@))),
    ];
    match export_schema(agent, prompt) {
        Some(s) => base.push(("expected_output_schema"@, s)),
        None => base,
    }
}

/// The losses of an export for CrewAI.
pub open spec fn crewai_losses(spec: PortableSpec, agent: AgentSpec) -> Seq<Seq<char>> {
    let l = prompt_selection(spec, agent).1;
    if export_schema(agent, selected_prompt(spec, agent)) is None {
        l.push("No output schema available for CrewAI export."@)
    } else {
        l
    }
}

/// The fields of an export for Google ADK, before its extension is merged.
pub open spec fn google_adk_core(agent: AgentSpec, prompt: Option<PromptSpec>) -> Seq<(Seq<char>, JsonV)> {
    let base = seq![
        ("name"@, JsonV::Str(display_name(agent))),
        ("description"@, JsonV::Str(match agent.description {
            Some(d) => d@,
            None => Seq::empty(),
        })),
        ("instruction"@, JsonV::Str(merged_instructions(agent, prompt))),
        ("tools"@, JsonV::Array(tool_objects(agent.tool_refs@))),
    ];
    let with_subs = if agent.agent_refs@.len() > 0 {
        base.push(("sub_agents"@, JsonV::Array(string_values(agent.agent_refs@))))
    } else {
        base
    };
    let with_model = if agent.provider_hints@.len() > 0 {
        with_subs.push(("model"@, JsonV::Str(agent.provider_hints@[0]@)))
    } else {
        with_subs
    };
    match export_schema(agent, prompt) {
        Some(s) => with_model.push(("output_schema"@, s)),
        None => with_model,
    }
}

/// The losses of an export for Google ADK.
pub open spec fn google_adk_losses(spec: PortableSpec, agent: AgentSpec) -> Seq<Seq<char>> {
    let l = prompt_selection(spec, agent).1;
    if agent.provider_hints@.len() == 0 {
        l.push("No provider_hints model set for Google ADK export."@)
    } else {
        l
    }
}

impl PortableSpec {
    /// The configuration of an agent for CrewAI.
    pub fn crewai_export(&self, agent_id: &str) -> (r: Result<FrameworkExport, TypeError>)
        ensures
            match agent_ids(self.agents@).index_of_first(agent_id@) {
                Some(i) => r matches Ok(x) && export_is(
                    x,
                    "crewai"@,
                    self.agents@[i],
                    merged_config(
                        crewai_core(self.agents@[i], selected_prompt(*self, self.agents@[i])),
                        entries_view(self.agents@[i].extensions@),
                        "crewai"@,
                    ),
                    crewai_losses(*self, self.agents@[i]),
                ),
                None => r matches Err(TypeError::Error(e)) && e@ == agent_missing(agent_id@),
            },
    {
        let agent = self.find_agent(agent_id)?;
        let (prompt, mut losses) = self.selected_prompt_for_agent(agent)?;
        let ghost a = *agent;
        let ghost po = deref_prompt(prompt);
        let merged = merge_prompt_and_agent_instructions(agent, prompt);
        let role = match &agent.name {
            Some(n) => n.clone(),
            None => "Agent".to_owned(),
        };
        let goal = match &agent.description {
            Some(d) => d.clone(),
            None => "Execute assigned tasks".to_owned(),
        };
        let mut config: Vec<(String, Json)> = Vec::new();
        put(&mut config, "id", Json::Str(display_name_of(agent)));
        put(&mut config, "role", Json::Str(role));
        put(&mut config, "goal", Json::Str(goal));
        put(&mut config, "backstory", Json::Str(merged));
        put(&mut config, "tools", string_list(&agent.tool_refs));
        match export_schema_of(agent, prompt) {
            Some(schema) => put(&mut config, "expected_output_schema", schema),
            None => {
                let ghost l0 = sv(losses@);
                losses.push("No output schema available for CrewAI export.".to_owned());
                proof {
                    assert(sv(losses@) =~= l0.push("No output schema available for CrewAI export."@));
                }
            },
        }
        proof {
            assert(entries_view(config@) =~= crewai_core(a, po));
        }
        merge_extension_fields(&mut config, &agent.extensions, "crewai");
        proof {
            lemma_entries_view(config);
        }
        Ok(FrameworkExport {
            framework: "crewai".to_owned(),
            agent_id: agent.id.clone(),
            config: Json::Object(config),
            losses,
        })
    }

    /// The configuration of an agent for Google ADK.
    pub fn google_adk_export(&self, agent_id: &str) -> (r: Result<FrameworkExport, TypeError>)
        ensures
            match agent_ids(self.agents@).index_of_first(agent_id@) {
                Some(i) => r matches Ok(x) && export_is(
                    x,
                    "google_adk"@,
                    self.agents@[i],
                    merged_config(
                        google_adk_core(self.agents@[i], selected_prompt(*self, self.agents@[i])),
                        entries_view(self.agents@[i].extensions@),
                        "google_adk"@,
                    ),
                    google_adk_losses(*self, self.agents@[i]),
                ),
                None => r matches Err(TypeError::Error(e)) && e@ == agent_missing(agent_id@),
            },
    {
        let agent = self.find_agent(agent_id)?;
        let (prompt, mut losses) = self.selected_prompt_for_agent(agent)?;
        let ghost a = *agent;
        let ghost po = deref_prompt(prompt);
        let description = match &agent.description {
            Some(d) => d.clone(),
            None => String::new(),
        };
        let mut config: Vec<(String, Json)> = Vec::new();
        put(&mut config, "name", Json::Str(display_name_of(agent)));
        put(&mut config, "description", Json::Str(description));
        put(&mut config, "instruction", Json::Str(merge_prompt_and_agent_instructions(agent, prompt)));
        put(&mut config, "tools", tool_list(&agent.tool_refs));
        if agent.agent_refs.len() > 0 {
            put(&mut config, "sub_agents", string_list(&agent.agent_refs));
        }
        if agent.provider_hints.len() > 0 {
            put(&mut config, "model", Json::Str(agent.provider_hints[0].clone()));
        } else {
            let ghost l0 = sv(losses@);
            losses.push("No provider_hints model set for Google ADK export.".to_owned());
            proof {
                assert(sv(losses@) =~= l0.push("No provider_hints model set for Google ADK export."@));
            }
        }
        match export_schema_of(agent, prompt) {
            Some(schema) => put(&mut config, "output_schema", schema),
            None => {},
        }
        proof {
            assert(entries_view(config@) =~= google_adk_core(a, po));
        }
        merge_extension_fields(&mut config, &agent.extensions, "google_adk");
        proof {
            lemma_entries_view(config);
        }
        Ok(FrameworkExport {
            framework: "google_adk".to_owned(),
            agent_id: agent.id.clone(),
            config: Json::Object(config),
            losses,
        })
    }
}

} // verus!
