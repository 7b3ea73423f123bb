use potatohead::anthropic::request::{
    Base64ImageSource, Base64PDFSource, ContentBlock, ContentBlockParam, DocumentBlockParam, DocumentSource,
    ImageBlockParam, ImageSource, MessageParam, PlainTextSource, TextBlockParam, UrlImageSource, UrlPDFSource,
};
use potatohead::error::TypeError;
use potatohead::google::request::{DataNum, GeminiContent, Part};
use potatohead::json::Json;
use potatohead::message::MessageNum;
use potatohead::openai::request::{ChatMessage, ContentPart, FileContentPart, ImageContentPart, TextContentPart};
use potatohead::prompt::{
    create_message_for_provider, extract_system_instructions, get_system_role, parse_messages, MessageItem,
    MessagesInput, Prompt, ResponseType,
};
use potatohead::types::Provider;

fn openai_text(role: &str, text: &str) -> ChatMessage {
    ChatMessage { role: role.to_string(), content: vec![ContentPart::Text(TextContentPart::new(text.to_string()))], name: None }
}

fn create_openai_chat_message() -> ChatMessage {
    openai_text("user", "What company is this logo from?")
}

fn create_system_openai_chat_message() -> ChatMessage {
    openai_text("developer", "system_prompt")
}

fn create_openai_image_message() -> ChatMessage {
    let image_part = ImageContentPart::new("https://iili.io/3Hs4FMg.png".to_string(), None);
    ChatMessage { role: "user".to_string(), content: vec![ContentPart::ImageUrl(image_part)], name: None }
}

fn create_openai_file_message() -> ChatMessage {
    let file_part =
        FileContentPart::new(Some("filedata".to_string()), Some("fileid".to_string()), Some("filename".to_string()));
    ChatMessage { role: "user".to_string(), content: vec![ContentPart::FileContent(file_part)], name: None }
}

fn anthropic_message(role: &str, inner: ContentBlock) -> MessageParam {
    MessageParam { role: role.to_string(), content: vec![ContentBlockParam { inner }] }
}

fn create_anthropic_text_message() -> MessageParam {
    anthropic_message(
        "user",
        ContentBlock::Text(TextBlockParam::new_rs("What company is this logo from?".to_string(), None, None)),
    )
}

fn create_anthropic_system_message() -> MessageParam {
    anthropic_message("assistant", ContentBlock::Text(TextBlockParam::new_rs("system_prompt".to_string(), None, None)))
}

fn create_anthropic_base64_image_message() -> MessageParam {
    let source = Base64ImageSource::new("image/png".to_string(), "base64data".to_string()).unwrap();
    anthropic_message(
        "user",
        ContentBlock::Image(ImageBlockParam { source: ImageSource::Base64(source), cache_control: None, kind: "image".to_string() }),
    )
}

fn create_anthropic_url_image_message() -> MessageParam {
    let source = UrlImageSource::new("https://iili.io/3Hs4FMg.png".to_string());
    anthropic_message(
        "user",
        ContentBlock::Image(ImageBlockParam { source: ImageSource::Url(source), cache_control: None, kind: "image".to_string() }),
    )
}

fn document(source: DocumentSource, title: &str, context: Option<&str>) -> MessageParam {
    anthropic_message(
        "user",
        ContentBlock::Document(DocumentBlockParam {
            source,
            cache_control: None,
            title: Some(title.to_string()),
            context: context.map(|c| c.to_string()),
            kind: "document".to_string(),
            citations: None,
        }),
    )
}

fn create_anthropic_base64_pdf_message() -> MessageParam {
    let source = Base64PDFSource::new("base64pdfdata".to_string()).unwrap();
    document(DocumentSource::Base64(source), "test_document.pdf", None)
}

fn create_anthropic_url_pdf_message() -> MessageParam {
    let source = UrlPDFSource::new("https://example.com/document.pdf".to_string());
    document(DocumentSource::Url(source), "test_document.pdf", None)
}

fn create_anthropic_plain_text_document_message() -> MessageParam {
    let source = PlainTextSource::new("Plain text document content".to_string());
    document(DocumentSource::Text(source), "text_document.txt", Some("Context for the document"))
}

fn sorted(mut v: Vec<String>) -> Vec<String> {
    v.sort();
    v
}

fn score_schema() -> Json {
    let int_prop = Json::Object(vec![
        ("format".to_string(), Json::Str("int64".to_string())),
        ("maximum".to_string(), Json::Number("5".to_string())),
        ("minimum".to_string(), Json::Number("1".to_string())),
        ("type".to_string(), Json::Str("integer".to_string())),
    ]);
    let str_prop = Json::Object(vec![("type".to_string(), Json::Str("string".to_string()))]);
    Json::Object(vec![
        ("$schema".to_string(), Json::Str("https://json-schema.org/draft/2020-12/schema".to_string())),
        ("additionalProperties".to_string(), Json::Bool(false)),
        (
            "properties".to_string(),
            Json::Object(vec![("reason".to_string(), str_prop), ("score".to_string(), int_prop)]),
        ),
        (
            "required".to_string(),
            Json::Array(vec![Json::Str("score".to_string()), Json::Str("reason".to_string())]),
        ),
        ("title".to_string(), Json::Str("Score".to_string())),
        ("type".to_string(), Json::Str("object".to_string())),
    ])
}

#[test]
fn interface_test_task_list_add_and_get() {
    let message = openai_text("user", "Test prompt. ${param1} ${param2}");
    let prompt = Prompt::new_rs(
        vec![MessageNum::OpenAIMessageV1(message)],
        "gpt-4o",
        Provider::OpenAI,
        vec![],
        None,
        None,
        ResponseType::Null,
    )
    .unwrap();

    assert_eq!(prompt.request.messages().len(), 1);
    assert!(prompt.parameters.len() == 2);
    let parameters = sorted(prompt.parameters.clone());
    assert_eq!(parameters[0], "param1");
    assert_eq!(parameters[1], "param2");

    let bound_msg = prompt.request.messages()[0].bind("param1", "Value1").unwrap();
    let bound_msg = bound_msg.bind("param2", "Value2").unwrap();
    match bound_msg {
        MessageNum::OpenAIMessageV1(msg) => {
            if let ContentPart::Text(text_part) = &msg.content[0] {
                assert_eq!(text_part.text, "Test prompt. Value1 Value2");
            } else {
                panic!("Expected TextContentPart");
            }
        },
        _ => panic!("Expected OpenAIMessageV1"),
    }
}

#[test]
fn test_image_prompt() {
    let system_message = openai_text("assistant", "system_prompt");
    let prompt = Prompt::new_rs(
        vec![
            MessageNum::OpenAIMessageV1(create_openai_chat_message()),
            MessageNum::OpenAIMessageV1(create_openai_image_message()),
        ],
        "gpt-4o",
        Provider::OpenAI,
        vec![MessageNum::OpenAIMessageV1(system_message)],
        None,
        None,
        ResponseType::Null,
    )
    .unwrap();

    if let MessageNum::OpenAIMessageV1(msg) = &prompt.request.messages()[1] {
        if let ContentPart::Text(text_part) = &msg.content[0] {
            assert_eq!(text_part.text, "What company is this logo from?");
        } else {
            panic!("Expected TextContentPart for the first user message");
        }
    } else {
        panic!("Expected OpenAIMessageV1 for the first user message");
    }

    if let MessageNum::OpenAIMessageV1(msg) = &prompt.request.messages()[2] {
        if let ContentPart::ImageUrl(image_url) = &msg.content[0] {
            assert_eq!(image_url.image_url.url, "https://iili.io/3Hs4FMg.png");
            assert_eq!(image_url.kind, "image_url");
        } else {
            panic!("Expected ContentPart::Image for the second user message");
        }
    } else {
        panic!("Expected OpenAIMessageV1 for the second user message");
    }
}

#[test]
fn test_document_prompt() {
    let prompt = Prompt::new_rs(
        vec![
            MessageNum::OpenAIMessageV1(create_openai_chat_message()),
            MessageNum::OpenAIMessageV1(create_openai_file_message()),
        ],
        "gpt-4o",
        Provider::OpenAI,
        vec![MessageNum::OpenAIMessageV1(create_system_openai_chat_message())],
        None,
        None,
        ResponseType::Null,
    )
    .unwrap();

    if let MessageNum::OpenAIMessageV1(msg) = &prompt.request.messages()[2] {
        if let ContentPart::FileContent(file_content) = &msg.content[0] {
            assert_eq!(file_content.file.file_id.as_ref().unwrap(), "fileid");
            assert_eq!(file_content.file.filename.as_ref().unwrap(), "filename");
        } else {
            panic!("Expected ContentPart::FileContent for the second user message");
        }
    } else {
        panic!("Expected OpenAIMessageV1 for the first user message");
    }
}

#[test]
fn test_response_format_score() {
    let prompt = Prompt::new_rs(
        vec![MessageNum::OpenAIMessageV1(create_openai_chat_message())],
        "gpt-4o",
        Provider::OpenAI,
        vec![],
        None,
        Some(score_schema()),
        ResponseType::Null,
    )
    .unwrap();
    assert!(prompt.request.response_json_schema().is_some());
}

#[test]
fn test_anthropic_text_message_binding() {
    let message = anthropic_message(
        "user",
        ContentBlock::Text(TextBlockParam::new_rs("Test prompt. ${param1} ${param2}".to_string(), None, None)),
    );
    let prompt = Prompt::new_rs(
        vec![MessageNum::AnthropicMessageV1(message)],
        "sonnet-3-5-20241022",
        Provider::Anthropic,
        vec![],
        None,
        None,
        ResponseType::Null,
    )
    .unwrap();

    assert_eq!(prompt.request.messages().len(), 1);
    assert_eq!(prompt.parameters.len(), 2);
    let parameters = sorted(prompt.parameters.clone());
    assert_eq!(parameters[0], "param1");
    assert_eq!(parameters[1], "param2");

    let bound_msg = prompt.request.messages()[0].bind("param1", "Value1").unwrap();
    let bound_msg = bound_msg.bind("param2", "Value2").unwrap();
    match bound_msg {
        MessageNum::AnthropicMessageV1(msg) => {
            if let ContentBlock::Text(text_block) = &msg.content[0].inner {
                assert_eq!(text_block.text, "Test prompt. Value1 Value2");
            } else {
                panic!("Expected TextBlockParam");
            }
        },
        _ => panic!("Expected AnthropicMessageV1"),
    }
}

#[test]
fn test_anthropic_url_image_prompt() {
    let prompt = Prompt::new_rs(
        vec![
            MessageNum::AnthropicMessageV1(create_anthropic_text_message()),
            MessageNum::AnthropicMessageV1(create_anthropic_url_image_message()),
        ],
        "sonnet-3-5-20241022",
        Provider::Anthropic,
        vec![MessageNum::AnthropicMessageV1(create_anthropic_system_message())],
        None,
        None,
        ResponseType::Null,
    )
    .unwrap();

    if let MessageNum::AnthropicMessageV1(msg) = &prompt.request.messages()[0] {
        if let ContentBlock::Text(text_block) = &msg.content[0].inner {
            assert_eq!(text_block.text, "What company is this logo from?");
        } else {
            panic!("Expected TextBlock for first message");
        }
    } else {
        panic!("Expected AnthropicMessageV1");
    }

    if let MessageNum::AnthropicMessageV1(msg) = &prompt.request.messages()[1] {
        if let ContentBlock::Image(image_block) = &msg.content[0].inner {
            match &image_block.source {
                ImageSource::Url(url_source) => {
                    assert_eq!(url_source.url, "https://iili.io/3Hs4FMg.png");
                    assert_eq!(url_source.kind, "url");
                },
                _ => panic!("Expected URL image source"),
            }
            assert_eq!(image_block.kind, "image");
        } else {
            panic!("Expected ImageBlock for second message");
        }
    } else {
        panic!("Expected AnthropicMessageV1");
    }
}

#[test]
fn test_anthropic_base64_image_prompt() {
    let prompt = Prompt::new_rs(
        vec![
            MessageNum::AnthropicMessageV1(create_anthropic_text_message()),
            MessageNum::AnthropicMessageV1(create_anthropic_base64_image_message()),
        ],
        "sonnet-3-5-20241022",
        Provider::Anthropic,
        vec![],
        None,
        None,
        ResponseType::Null,
    )
    .unwrap();

    if let MessageNum::AnthropicMessageV1(msg) = &prompt.request.messages()[1] {
        if let ContentBlock::Image(image_block) = &msg.content[0].inner {
            match &image_block.source {
                ImageSource::Base64(base64_source) => {
                    assert_eq!(base64_source.media_type, "image/png");
                    assert_eq!(base64_source.data, "base64data");
                    assert_eq!(base64_source.kind, "base64");
                },
                _ => panic!("Expected Base64 image source"),
            }
        } else {
            panic!("Expected ImageBlock");
        }
    } else {
        panic!("Expected AnthropicMessageV1");
    }
}

#[test]
fn test_anthropic_base64_pdf_document_prompt() {
    let prompt = Prompt::new_rs(
        vec![
            MessageNum::AnthropicMessageV1(create_anthropic_text_message()),
            MessageNum::AnthropicMessageV1(create_anthropic_base64_pdf_message()),
        ],
        "sonnet-3-5-20241022",
        Provider::Anthropic,
        vec![MessageNum::AnthropicMessageV1(create_anthropic_system_message())],
        None,
        None,
        ResponseType::Null,
    )
    .unwrap();

    if let MessageNum::AnthropicMessageV1(msg) = &prompt.request.messages()[1] {
        if let ContentBlock::Document(document_block) = &msg.content[0].inner {
            match &document_block.source {
                DocumentSource::Base64(pdf_source) => {
                    assert_eq!(pdf_source.media_type, "application/pdf");
                    assert_eq!(pdf_source.data, "base64pdfdata");
                    assert_eq!(pdf_source.kind, "base64");
                },
                _ => panic!("Expected Base64 PDF source"),
            }
            assert_eq!(document_block.kind, "document");
            assert_eq!(document_block.title.as_ref().unwrap(), "test_document.pdf");
        } else {
            panic!("Expected DocumentBlock");
        }
    } else {
        panic!("Expected AnthropicMessageV1");
    }
}

#[test]
fn test_anthropic_url_pdf_document_prompt() {
    let prompt = Prompt::new_rs(
        vec![
            MessageNum::AnthropicMessageV1(create_anthropic_text_message()),
            MessageNum::AnthropicMessageV1(create_anthropic_url_pdf_message()),
        ],
        "sonnet-3-5-20241022",
        Provider::Anthropic,
        vec![],
        None,
        None,
        ResponseType::Null,
    )
    .unwrap();

    if let MessageNum::AnthropicMessageV1(msg) = &prompt.request.messages()[1] {
        if let ContentBlock::Document(document_block) = &msg.content[0].inner {
            match &document_block.source {
                DocumentSource::Url(url_source) => {
                    assert_eq!(url_source.url, "https://example.com/document.pdf");
                    assert_eq!(url_source.kind, "url");
                },
                _ => panic!("Expected URL PDF source"),
            }
        } else {
            panic!("Expected DocumentBlock");
        }
    } else {
        panic!("Expected AnthropicMessageV1");
    }
}

#[test]
fn test_anthropic_plain_text_document_prompt() {
    let prompt = Prompt::new_rs(
        vec![
            MessageNum::AnthropicMessageV1(create_anthropic_text_message()),
            MessageNum::AnthropicMessageV1(create_anthropic_plain_text_document_message()),
        ],
        "sonnet-3-5-20241022",
        Provider::Anthropic,
        vec![],
        None,
        None,
        ResponseType::Null,
    )
    .unwrap();

    if let MessageNum::AnthropicMessageV1(msg) = &prompt.request.messages()[1] {
        if let ContentBlock::Document(document_block) = &msg.content[0].inner {
            match &document_block.source {
                DocumentSource::Text(text_source) => {
                    assert_eq!(text_source.media_type, "text/plain");
                    assert_eq!(text_source.data, "Plain text document content");
                    assert_eq!(text_source.kind, "text");
                },
                _ => panic!("Expected Text document source"),
            }
            assert_eq!(document_block.context.as_ref().unwrap(), "Context for the document");
        } else {
            panic!("Expected DocumentBlock");
        }
    } else {
        panic!("Expected AnthropicMessageV1");
    }
}

#[test]
fn test_anthropic_mixed_content_prompt() {
    let prompt = Prompt::new_rs(
        vec![
            MessageNum::AnthropicMessageV1(create_anthropic_text_message()),
            MessageNum::AnthropicMessageV1(create_anthropic_base64_pdf_message()),
            MessageNum::AnthropicMessageV1(create_anthropic_plain_text_document_message()),
        ],
        "sonnet-3-5-20241022",
        Provider::Anthropic,
        vec![MessageNum::AnthropicMessageV1(create_anthropic_system_message())],
        None,
        None,
        ResponseType::Null,
    )
    .unwrap();

    assert_eq!(prompt.request.messages().len(), 3);
    assert_eq!(prompt.request.system_instructions().len(), 1);
    assert_eq!(prompt.provider, Provider::Anthropic);
    assert_eq!(prompt.model, "sonnet-3-5-20241022");
}

#[test]
fn test_gemini_chat_message() {
    let message = GeminiContent {
        role: "user".to_string(),
        parts: vec![Part::from_text("Test prompt. ${param1} ${param2}".to_string())],
    };
    let prompt = Prompt::new_rs(
        vec![MessageNum::GeminiContentV1(message)],
        "gemini-1.5-pro",
        Provider::Google,
        vec![],
        None,
        None,
        ResponseType::Null,
    )
    .unwrap();

    assert_eq!(prompt.request.messages().len(), 1);
    assert_eq!(prompt.parameters.len(), 2);
    let parameters = sorted(prompt.parameters.clone());
    assert_eq!(parameters[0], "param1");
    assert_eq!(parameters[1], "param2");

    let bound_msg = prompt.request.messages()[0].bind("param1", "Value1").unwrap();
    let bound_msg = bound_msg.bind("param2", "Value2").unwrap();
    match bound_msg {
        MessageNum::GeminiContentV1(msg) => {
            if let DataNum::Text(text_part) = &msg.parts[0].data {
                assert_eq!(text_part, "Test prompt. Value1 Value2");
            } else {
                panic!("Expected Text Part");
            }
        },
        _ => panic!("Expected GeminiContentV1"),
    }
}

#[test]
fn prompt_without_messages_is_refused() {
    let r = Prompt::new_rs(vec![], "gpt-4o", Provider::OpenAI, vec![], None, None, ResponseType::Null);
    assert!(matches!(r, Err(TypeError::Error(m)) if m == "Prompt has no messages"));
}

#[test]
fn prompt_with_mixed_message_formats_is_refused() {
    let r = Prompt::new_rs(
        vec![
            MessageNum::OpenAIMessageV1(create_openai_chat_message()),
            MessageNum::AnthropicMessageV1(create_anthropic_text_message()),
        ],
        "gpt-4o",
        Provider::OpenAI,
        vec![],
        None,
        None,
        ResponseType::Null,
    );
    assert!(matches!(r, Err(TypeError::Error(m)) if m == "All messages must be of the same provider type"));
}

#[test]
fn prompt_model_identifier() {
    let prompt = Prompt::new_rs(
        vec![MessageNum::OpenAIMessageV1(create_openai_chat_message())],
        "gpt-4o",
        Provider::OpenAI,
        vec![],
        None,
        None,
        ResponseType::Null,
    )
    .unwrap();
    assert_eq!(prompt.model_identifier(), "openai:gpt-4o");
}

#[test]
fn prompt_bind_mut_without_arguments_fails() {
    let mut prompt = Prompt::new_rs(
        vec![MessageNum::OpenAIMessageV1(openai_text("user", "Hi ${name}"))],
        "gpt-4o",
        Provider::OpenAI,
        vec![],
        None,
        None,
        ResponseType::Null,
    )
    .unwrap();
    let r = prompt.bind_mut(None, None, None);
    assert!(matches!(r, Err(TypeError::Error(m)) if m == "Must provide either (name, value) or keyword arguments for binding"));
    prompt.bind_mut(Some("name"), Some("Ada"), None).unwrap();
    match &prompt.request.messages()[0] {
        MessageNum::OpenAIMessageV1(m) => match &m.content[0] {
            ContentPart::Text(t) => assert_eq!(t.text, "Hi Ada"),
            _ => panic!("expected text"),
        },
        _ => panic!("expected an OpenAI message"),
    }
}

#[test]
fn prompt_bind_mut_applies_name_then_pairs_in_order() {
    let mut prompt = Prompt::new_rs(
        vec![MessageNum::OpenAIMessageV1(openai_text("user", "${greeting} ${name}, from ${place}"))],
        "gpt-4o",
        Provider::OpenAI,
        vec![],
        None,
        None,
        ResponseType::Null,
    )
    .unwrap();
    let pairs = vec![
        ("name".to_string(), "${place}".to_string()),
        ("place".to_string(), "Paris".to_string()),
    ];
    prompt.bind_mut(Some("greeting"), Some("Hello"), Some(pairs)).unwrap();
    match &prompt.request.messages()[0] {
        MessageNum::OpenAIMessageV1(m) => match &m.content[0] {
            ContentPart::Text(t) => assert_eq!(t.text, "Hello Paris, from Paris"),
            _ => panic!("expected text"),
        },
        _ => panic!("expected an OpenAI message"),
    }
}

#[test]
fn system_role_per_provider() {
    assert_eq!(get_system_role(&Provider::OpenAI), "developer");
    assert_eq!(get_system_role(&Provider::Gemini), "developer");
    assert_eq!(get_system_role(&Provider::Anthropic), "assistant");
    assert_eq!(get_system_role(&Provider::Undefined), "system");
}

#[test]
fn text_becomes_a_message_of_the_provider() {
    let m = create_message_for_provider("hello".to_string(), &Provider::Google, "user").unwrap();
    match m {
        MessageNum::GeminiContentV1(c) => {
            assert_eq!(c.role, "user");
            assert!(matches!(&c.parts[0].data, DataNum::Text(t) if t == "hello"));
        },
        _ => panic!("expected a Gemini message"),
    }
    let e = create_message_for_provider("hello".to_string(), &Provider::Undefined, "user");
    assert!(matches!(e, Err(TypeError::Error(m)) if m == "Unsupported provider for message creation: Undefined"));
}

#[test]
fn parse_messages_reports_first_bad_item() {
    let input = MessagesInput::Many(vec![
        MessageItem::Text("a".to_string()),
        MessageItem::Other("int".to_string()),
        MessageItem::Other("float".to_string()),
    ]);
    let r = parse_messages(input, &Provider::OpenAI, "user");
    assert_eq!(r.unwrap_err(), TypeError::InvalidMessageTypeInList("int".to_string()));
}

#[test]
fn parse_messages_keeps_given_messages() {
    let input = MessagesInput::Many(vec![
        MessageItem::Text("a".to_string()),
        MessageItem::OpenAI(openai_text("user", "b")),
    ]);
    let r = parse_messages(input, &Provider::OpenAI, "user").unwrap();
    assert_eq!(r.len(), 2);
    assert_eq!(r[1], MessageNum::OpenAIMessageV1(openai_text("user", "b")));
}

#[test]
fn anthropic_system_instructions_become_system_messages() {
    let input = MessagesInput::One(MessageItem::Text("be brief".to_string()));
    let r = extract_system_instructions(Some(input), &Provider::Anthropic).unwrap().unwrap();
    assert_eq!(r.len(), 1);
    match &r[0] {
        MessageNum::AnthropicSystemMessageV1(b) => assert_eq!(b.text, "be brief"),
        _ => panic!("expected a system message"),
    }
    let bad = MessagesInput::One(MessageItem::OpenAI(openai_text("user", "x")));
    let e = extract_system_instructions(Some(bad), &Provider::Anthropic);
    assert!(matches!(e, Err(TypeError::Error(m)) if m == "Cannot convert non-AnthropicMessageV1 to system message"));
    assert!(extract_system_instructions(None, &Provider::Anthropic).unwrap().is_none());
}

#[test]
fn prompt_bind_mut_leaves_non_user_messages_alone() {
    let mut prompt = Prompt::new_rs(
        vec![
            MessageNum::OpenAIMessageV1(openai_text("user", "Hi ${name}")),
            MessageNum::OpenAIMessageV1(openai_text("assistant", "Who is ${name}?")),
        ],
        "gpt-4o",
        Provider::OpenAI,
        vec![MessageNum::OpenAIMessageV1(openai_text("developer", "Greet ${name}"))],
        None,
        None,
        ResponseType::Null,
    )
    .unwrap();
    prompt.bind_mut(Some("name"), Some("Ada"), None).unwrap();
    let texts: Vec<String> = prompt
        .request
        .messages()
        .iter()
        .map(|m| match m {
            MessageNum::OpenAIMessageV1(c) => match &c.content[0] {
                ContentPart::Text(t) => t.text.clone(),
                _ => panic!("expected text"),
            },
            _ => panic!("expected an OpenAI message"),
        })
        .collect();
    assert_eq!(texts, vec!["Greet ${name}".to_string(), "Hi Ada".to_string(), "Who is ${name}?".to_string()]);
}
