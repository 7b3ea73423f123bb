use potatohead::anthropic::request::{
    AnthropicSettings, ContentBlock, MessageParam, SystemPrompt, SystemPromptInput, SystemPromptItem, TextBlockParam,
};
use potatohead::client::ClientURL;
use potatohead::error::{TypeError, UtilError};
use potatohead::google::embedding::{EmbeddingTaskType, GeminiEmbeddingConfig, GeminiEmbeddingRequest};
use potatohead::google::request::{DataNum, GeminiContent};
use potatohead::json::{parse_json, render_json, update_serde_map_with, update_serde_value, Json};
use potatohead::logprobs::{is_digit_token, parse_u64, score_probabilities, TokenLogProbs};
use potatohead::message::MessageNum;
use potatohead::openai::request::{ChatMessage, ContentPart, TextContentPart};
use potatohead::openai::settings::{
    AllowedTools, AllowedToolsMode, Content, CustomToolFormat, Grammar, Tool, ToolChoice, ToolChoiceMode,
};
use potatohead::prompt::{Prompt, ResponseType};
use potatohead::request::create_structured_output_schema;
use potatohead::template::{replace_placeholder, variables_of_texts};
use potatohead::text::trim;
use potatohead::tools::{AgentToolDefinition, ToolCall};
use potatohead::types::{is_primitive, Model, Provider, Role};
use potatohead::workflow::flow::create_uuid7;

fn s(v: &str) -> Json {
    Json::Str(v.to_string())
}

fn openai_text(role: &str, text: &str) -> ChatMessage {
    ChatMessage { role: role.to_string(), content: vec![ContentPart::Text(TextContentPart::new(text.to_string()))], name: None }
}

#[test]
fn json_parse_and_render() {
    let v = parse_json(r#"{"a":[1,true,null],"b":"x"}"#).unwrap();
    assert_eq!(v.get("b"), Some(&s("x")));
    assert_eq!(
        v.get("a"),
        Some(&Json::Array(vec![Json::Number("1".to_string()), Json::Bool(true), Json::Null]))
    );
    assert_eq!(render_json(&v), r#"{"a":[1,true,null],"b":"x"}"#);
    assert!(parse_json("not json").is_none());
    assert!(parse_json("").is_none());
}

#[test]
fn json_update_value_requires_an_object() {
    let mut v = Json::Object(vec![("a".to_string(), s("1"))]);
    update_serde_value(&mut v, "a", s("2")).unwrap();
    update_serde_value(&mut v, "b", s("3")).unwrap();
    assert_eq!(v, Json::Object(vec![("a".to_string(), s("2")), ("b".to_string(), s("3"))]));
    let mut arr = Json::Array(vec![]);
    assert_eq!(update_serde_value(&mut arr, "a", s("1")), Err(UtilError::RootMustBeObjectError));
}

#[test]
fn json_merge_replaces_and_adds() {
    let mut dest = Json::Object(vec![("a".to_string(), s("1")), ("b".to_string(), s("2"))]);
    let src = Json::Object(vec![("b".to_string(), s("9")), ("c".to_string(), s("3"))]);
    update_serde_map_with(&mut dest, &src).unwrap();
    assert_eq!(
        dest,
        Json::Object(vec![("a".to_string(), s("1")), ("b".to_string(), s("9")), ("c".to_string(), s("3"))])
    );
    let mut n = Json::Null;
    assert_eq!(update_serde_map_with(&mut n, &src), Err(UtilError::RootMustBeObjectError));
}

#[test]
fn placeholders_are_replaced_everywhere() {
    assert_eq!(replace_placeholder("${a} and ${a}", "a", "x"), "x and x");
    assert_eq!(replace_placeholder("${ab} ${a}", "a", "x"), "${ab} x");
    assert_eq!(replace_placeholder("no vars", "a", "x"), "no vars");
}

#[test]
fn variables_in_order_of_first_appearance() {
    let texts = vec!["${b} ${a}".to_string(), "${a} ${c} ${9x} ${_ok}".to_string()];
    assert_eq!(variables_of_texts(&texts), vec!["b".to_string(), "a".to_string(), "c".to_string(), "_ok".to_string()]);
}

#[test]
fn provider_names_round_trip() {
    for p in [Provider::OpenAI, Provider::Gemini, Provider::Google, Provider::Vertex, Provider::Anthropic, Provider::Undefined] {
        assert_eq!(Provider::from_string(p.as_str()).unwrap(), p);
    }
    assert_eq!(Provider::from_string("OpenAI").unwrap(), Provider::OpenAI);
    assert_eq!(Provider::from_string("nope"), Err(TypeError::UnknownProviderError("nope".to_string())));
    assert_eq!(Provider::OpenAI.url(), "https://api.openai.com/v1");
    assert_eq!(Provider::Anthropic.url(), "https://api.anthropic.com/v1");
}

#[test]
fn model_and_role_names() {
    assert_eq!(Model::from_string("undefined").unwrap().as_str(), "undefined");
    assert_eq!(Role::Developer.as_str(), "developer");
    assert_eq!(Role::User.to_string(), "user");
}

#[test]
fn primitive_type_names() {
    assert!(is_primitive("String"));
    assert!(is_primitive("u64"));
    assert!(!is_primitive("Vec"));
}

#[test]
fn client_urls() {
    assert_eq!(ClientURL::OpenAI.as_str(), "https://api.openai.com");
    assert_eq!(ClientURL::Anthropic.as_str(), "https://api.anthropic.com");
}

#[test]
fn trimming() {
    assert_eq!(trim("  a b \n\t"), "a b");
    assert_eq!(trim("   "), "");
}

#[test]
fn digit_tokens_and_scores() {
    assert!(is_digit_token("7"));
    assert!(!is_digit_token("77"));
    assert_eq!(parse_u64("+12"), Some(12));
    assert_eq!(parse_u64("x"), None);
    let probs = vec![
        TokenLogProbs { token: "1".to_string(), logprob_bits: 0.9f64.to_bits() },
        TokenLogProbs { token: "6".to_string(), logprob_bits: 0.5f64.to_bits() },
        TokenLogProbs { token: "hi".to_string(), logprob_bits: 0.1f64.to_bits() },
        TokenLogProbs { token: "3".to_string(), logprob_bits: 0.7f64.to_bits() },
    ];
    assert_eq!(score_probabilities(&probs), vec![(1, 0.9f64.to_bits()), (3, 0.7f64.to_bits())]);
}

#[test]
fn anthropic_output_format() {
    let schema = Json::Object(vec![("type".to_string(), s("object"))]);
    let f = create_structured_output_schema(schema.cloned());
    assert_eq!(f.get("schema"), Some(&schema));
    assert_eq!(f.get("type"), Some(&s("json_schema")));
}

#[test]
fn message_conversion_round_trip() {
    let m = MessageNum::OpenAIMessageV1(openai_text("user", "hello"));
    let g = m.convert_message_to_provider_type(&Provider::Gemini).unwrap();
    match &g {
        MessageNum::GeminiContentV1(c) => {
            assert_eq!(c.role, "user");
            assert!(matches!(&c.parts[0].data, DataNum::Text(t) if t == "hello"));
        },
        _ => panic!("expected a Gemini message"),
    }
    let back = g.convert_message_to_provider_type(&Provider::OpenAI).unwrap();
    assert_eq!(back, MessageNum::OpenAIMessageV1(openai_text("user", "hello")));
    assert_eq!(m.convert_message_to_provider_type(&Provider::OpenAI), Err(TypeError::CantConvertSelf));
    assert_eq!(m.convert_message_to_provider_type(&Provider::Undefined), Err(TypeError::UnsupportedProviderError));
}

#[test]
fn anthropic_to_gemini_keeps_texts() {
    let a = MessageParam {
        role: "user".to_string(),
        content: vec![
            potatohead::anthropic::request::ContentBlockParam {
                inner: ContentBlock::Text(TextBlockParam::new_rs("one".to_string(), None, None)),
            },
            potatohead::anthropic::request::ContentBlockParam {
                inner: ContentBlock::Text(TextBlockParam::new_rs("two".to_string(), None, None)),
            },
        ],
    };
    let g: GeminiContent = a.to_google_message().unwrap();
    assert_eq!(g.parts.len(), 2);
    assert!(matches!(&g.parts[1].data, DataNum::Text(t) if t == "two"));
}

#[test]
fn tool_results_go_back_in_the_provider_format() {
    let mut prompt = Prompt::new_rs(
        vec![MessageNum::OpenAIMessageV1(openai_text("user", "weather?"))],
        "gpt-4o",
        Provider::OpenAI,
        vec![],
        None,
        None,
        ResponseType::Null,
    )
    .unwrap();
    let call = ToolCall { tool_name: "get_weather".to_string(), call_id: Some("call_1".to_string()), arguments: Json::Null };
    prompt.request.add_tool_result(&call, &s("sunny")).unwrap();
    let msgs = prompt.request.messages();
    assert_eq!(msgs.len(), 2);
    match &msgs[1] {
        MessageNum::RawV1(j) => {
            assert_eq!(j.get("role"), Some(&s("tool")));
            assert_eq!(j.get("tool_call_id"), Some(&s("call_1")));
            assert_eq!(j.get("content"), Some(&s("\"sunny\"")));
        },
        _ => panic!("expected a raw tool message"),
    }
}

#[test]
fn embedding_config_parameters() {
    let e = GeminiEmbeddingConfig::new(None, Some(256), None);
    assert_eq!(
        e,
        Err(TypeError::GeminiEmbeddingConfigError("Either 'model' or 'task_type' must be provided.".to_string()))
    );
    let c = GeminiEmbeddingConfig::new(None, Some(-3), Some(EmbeddingTaskType::RetrievalQuery)).unwrap();
    assert!(c.is_configured);
    assert_eq!(c.get_model(), "embedding-001");
    let p = c.get_parameters_for_predict();
    assert_eq!(p.get("outputDimensionality"), Some(&Json::Number("-3".to_string())));
    assert_eq!(p.get("task_type"), Some(&s("RETRIEVAL_QUERY")));
    let bare = GeminiEmbeddingConfig::new(Some("text-embedding-004".to_string()), None, None).unwrap();
    assert!(!bare.is_configured);
    assert_eq!(bare.get_model(), "text-embedding-004");
    assert_eq!(bare.get_parameters_for_predict(), Json::Null);
    let req = GeminiEmbeddingRequest::new(vec!["a".to_string(), "b".to_string()], bare);
    assert_eq!(req.content.role, "user");
    assert_eq!(req.content.parts.len(), 2);
}

#[test]
fn openai_tool_settings() {
    let a = AllowedTools::from_function_names(AllowedToolsMode::Required, vec!["f".to_string(), "g".to_string()]);
    assert_eq!(a.kind, "allowed_tools");
    assert_eq!(a.allowed_tools.tools[1].function.name, "g");
    assert_eq!(a.allowed_tools.tools[1].kind, "function");
    assert_eq!(ToolChoice::default(), ToolChoice::Mode(ToolChoiceMode::Auto));
    assert_eq!(ToolChoiceMode::NA.as_str(), "none");
    assert!(matches!(ToolChoice::from_function("f".to_string()), ToolChoice::Function(f) if f.kind == "function"));
    assert!(Content::new(Some("x".to_string()), Some(vec![])).is_err());
    assert_eq!(Content::new(Some("x".to_string()), None).unwrap(), Content::Text("x".to_string()));
    assert_eq!(Tool::new(None, None), Err(TypeError::InvalidInput("Invalid tool definition".to_string())));
    let g = Grammar::new("start: x".to_string(), "lark".to_string());
    assert!(matches!(CustomToolFormat::new(None, Some(g)), CustomToolFormat::Grammar(f) if f.kind.is_empty()));
    assert!(matches!(CustomToolFormat::new(None, None), CustomToolFormat::Text(t) if t.kind.is_empty()));
}

#[test]
fn anthropic_tools_are_appended() {
    let mut settings = AnthropicSettings::default_settings();
    let schema = Json::Object(vec![("type".to_string(), s("object"))]);
    let defs = vec![
        AgentToolDefinition { name: "a".to_string(), description: "first".to_string(), parameters: schema.cloned() },
        AgentToolDefinition { name: "b".to_string(), description: "second".to_string(), parameters: schema.cloned() },
    ];
    settings.add_tools(defs).unwrap();
    let tools = settings.tools.as_ref().unwrap();
    assert_eq!(tools.len(), 2);
    assert_eq!(tools[1].name, "b");
    assert_eq!(tools[1].description, Some("second".to_string()));
    assert_eq!(tools[1].input_schema, schema);
    assert!(tools[1].cache_control.is_none());
    settings.add_tools(vec![]).unwrap();
    assert_eq!(settings.tools.as_ref().unwrap().len(), 2);
}

#[test]
fn anthropic_system_prompt_input() {
    let p = SystemPrompt::new(SystemPromptInput::Text("be kind".to_string())).unwrap();
    assert_eq!(p.content.len(), 1);
    assert_eq!(p.content[0].text, "be kind");
    let block = TextBlockParam::new_rs("x".to_string(), None, None);
    let p = SystemPrompt::new(SystemPromptInput::List(vec![SystemPromptItem::Block(block.duplicate())])).unwrap();
    assert_eq!(p.content, vec![block.duplicate()]);
    assert_eq!(
        SystemPrompt::new(SystemPromptInput::List(vec![SystemPromptItem::Block(block), SystemPromptItem::Other])),
        Err(TypeError::InvalidInput("All items in the list must be TextBlockParam".to_string()))
    );
    assert_eq!(
        SystemPrompt::new(SystemPromptInput::Other),
        Err(TypeError::InvalidInput("Content must be either a string or a list of TextBlockParam".to_string()))
    );
}

#[test]
fn uuid_text_form() {
    let id = create_uuid7();
    assert_eq!(id.len(), 36);
    for (i, c) in id.chars().enumerate() {
        if i == 8 || i == 13 || i == 18 || i == 23 {
            assert_eq!(c, '-');
        } else {
            assert!(c.is_ascii_hexdigit() && !c.is_ascii_uppercase());
        }
    }
    assert_eq!(id.chars().nth(14), Some('7'));
    assert!(matches!(id.chars().nth(19), Some('8' | '9' | 'a' | 'b')));
}

#[test]
fn provider_names_read_back() {
    for p in [Provider::OpenAI, Provider::Gemini, Provider::Google, Provider::Vertex, Provider::Anthropic, Provider::Undefined] {
        assert_eq!(Provider::from_string(p.as_str()), Ok(p));
    }
    assert_eq!(Provider::from_string("OpenAI"), Ok(Provider::OpenAI));
}
