use md_chat::config::{default_models, get_completions_url, resolve_models, AppConfig};
use md_chat::messages::Role;
use md_chat::openai::{
    build_request_messages, extract_reply, ChatCompletionChoice, ChatCompletionMessageResponse,
    ChatCompletionResponse,
};
use md_chat::text::is_blank;

#[test]
fn completions_url_appends_the_path() {
    assert_eq!(
        get_completions_url("https://api.openai.com"),
        "https://api.openai.com/v1/chat/completions"
    );
    assert_eq!(get_completions_url(""), "/v1/chat/completions");
}

#[test]
fn default_models_lists_the_four_built_ins() {
    let m = default_models();
    assert_eq!(m, vec!["gemini-2.0-flash", "gpt-4.1", "gpt-4o-mini", "gpt-4o"]);
}

#[test]
fn fallback_config_points_at_the_public_endpoint() {
    let c = AppConfig::fallback();
    assert_eq!(c.openai_api_key, None);
    assert_eq!(c.api_url, "https://api.openai.com");
    assert!(c.models.is_none());
}

#[test]
fn resolve_models_prefers_the_configured_list() {
    let c = AppConfig {
        openai_api_key: None,
        api_url: "https://example.test".to_string(),
        models: Some(vec!["local-1".to_string()]),
    };
    assert_eq!(resolve_models(&c), vec!["local-1"]);
}

#[test]
fn resolve_models_falls_back_to_the_built_ins() {
    let c = AppConfig::fallback();
    assert_eq!(resolve_models(&c), default_models());
}

#[test]
fn request_messages_are_system_prompt_then_user_text() {
    let v = build_request_messages("what is a monad?");
    assert_eq!(v.len(), 2);
    assert_eq!(v[0].role, Role::System);
    assert_eq!(
        v[0].content,
        "You are a helpful assistant. You can use markdown formatting in your responses."
    );
    assert_eq!(v[1].role, Role::User);
    assert_eq!(v[1].content, "what is a monad?");
}

#[test]
fn extract_reply_takes_the_first_choice() {
    let resp = ChatCompletionResponse {
        choices: vec![
            ChatCompletionChoice {
                message: ChatCompletionMessageResponse { content: "first".to_string() },
            },
            ChatCompletionChoice {
                message: ChatCompletionMessageResponse { content: "second".to_string() },
            },
        ],
    };
    assert_eq!(extract_reply(resp), Ok("first".to_string()));
}

#[test]
fn extract_reply_reports_an_empty_response() {
    let resp = ChatCompletionResponse { choices: Vec::new() };
    assert_eq!(extract_reply(resp), Err("No response from OpenAI".to_string()));
}

#[test]
fn blank_detection_accepts_empty_and_whitespace_only() {
    assert!(is_blank(""));
    assert!(is_blank("   "));
    assert!(is_blank(" \t\r\n"));
    assert!(is_blank("\u{a0}\u{2003}\u{3000}"));
}

#[test]
fn blank_detection_rejects_any_visible_character() {
    assert!(!is_blank("a"));
    assert!(!is_blank("  a  "));
    assert!(!is_blank("\u{200b}"));
}
