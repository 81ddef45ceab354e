use paperflow::llm::{
    bearer, hex_id, json_slice, minimax_chat_url, openai_chat_url, strip_think, summary_from_fields, uuid_simple,
    LlmConfig,
};
use paperflow::paper::Paper;
use paperflow::prompt::PromptManager;
use paperflow::time::UtcTime;

fn config(base: Option<&str>) -> LlmConfig {
    LlmConfig {
        provider_type: "openai".to_string(),
        api_key: "k".to_string(),
        model: "m".to_string(),
        base_url: base.map(|b| b.to_string()),
    }
}

#[test]
fn openai_url_adds_v1_once() {
    assert_eq!(openai_chat_url(&config(None)), "https://api.openai.com/v1/chat/completions");
    assert_eq!(openai_chat_url(&config(Some("https://api.minimaxi.com/v1/"))), "https://api.minimaxi.com/v1/chat/completions");
    assert_eq!(openai_chat_url(&config(Some("http://localhost:8080//"))), "http://localhost:8080/v1/chat/completions");
}

#[test]
fn minimax_url_and_config() {
    let c = LlmConfig::minimax("secret");
    assert_eq!(c.provider_type, "minimax");
    assert_eq!(c.model, "MiniMax-01");
    assert_eq!(minimax_chat_url(&c), "https://api.minimax.chat/v1/text/chatcompletion_pro");
    assert_eq!(minimax_chat_url(&config(None)), "https://api.minimax.chat/v1/text/chatcompletion_pro");
    assert_eq!(bearer("secret"), "Bearer secret");
}

#[test]
fn json_slice_takes_the_braces() {
    assert_eq!(json_slice("Sure! {\"a\": 1} done"), "{\"a\": 1}");
    assert_eq!(json_slice("no json"), "no json");
    assert_eq!(json_slice("{ open only"), "{ open only");
    assert_eq!(json_slice("x {a} y {b} z"), "{a} y {b}");
}

#[test]
fn strip_think_keeps_the_answer() {
    assert_eq!(strip_think("<think>hmm</think>answer"), "answer");
    assert_eq!(strip_think("a</think>b</think> c"), " c");
    assert_eq!(strip_think("plain"), "plain");
}

#[test]
fn summary_fields_default_to_empty() {
    let at = UtcTime { secs: 1, nanos: 2 };
    let s = summary_from_fields(
        "id1".to_string(),
        "2401.1",
        Some("short".to_string()),
        None,
        None,
        at,
        "minimax",
    );
    assert_eq!(s.id, "id1");
    assert_eq!(s.paper_id, "2401.1");
    assert_eq!(s.short_summary, "short");
    assert_eq!(s.detailed_summary, "");
    assert!(s.key_points.is_empty());
    assert_eq!(s.generated_at, at);
    assert_eq!(s.provider, "minimax");
}

#[test]
fn identifiers_are_hexadecimal() {
    assert_eq!(hex_id(255), "ff");
    assert_eq!(hex_id(0), "0");
    assert_eq!(hex_id(4096), "1000");
    let id = uuid_simple();
    assert!(!id.is_empty());
    assert!(id.chars().all(|c| c.is_ascii_hexdigit() && !c.is_ascii_uppercase()));
}

#[test]
fn prompts_hold_their_inputs() {
    let mut p = Paper::new_at("1".to_string(), "Robots".to_string(), UtcTime { secs: 0, nanos: 0 });
    p.authors = vec!["A".to_string(), "B".to_string()];
    p.abstract_text = "About robots.".to_string();
    let s = PromptManager::summarize_prompt(&p);
    assert!(s.starts_with("You are an academic paper analyst. Analyze the following paper and provide:\n1. A one-sentence summary of the core contribution\n"));
    assert!(s.contains("\n\nTitle: Robots\nAuthors: A, B\nAbstract: About robots.\n\nRespond in JSON format:\n"));
    assert!(s.ends_with("{\"short_summary\": \"...\", \"detailed_summary\": \"...\", \"key_points\": [\"...\"]}"));
    assert_eq!(
        PromptManager::verbalize_prompt("S"),
        "Convert the following academic summary into natural spoken Chinese.\nKeep it concise, suitable for voice reading in 30 seconds.\n\nSummary: S"
    );
    let r = PromptManager::relevance_prompt(&p, &vec!["x".to_string(), "y".to_string()]);
    assert_eq!(
        r,
        "Rate the relevance of this paper to the user's interests on a scale of 0-10.\nUser interests: x, y\nPaper title: Robots\nPaper abstract: About robots.\nReturn ONLY a number between 0 and 10."
    );
    assert_eq!(
        PromptManager::chat_translation_prompt("机器人"),
        "Translate the following Chinese text to English. Only return the English translation, no explanations.\n\nChinese: 机器人\nEnglish:"
    );
    assert!(PromptManager::query_translation_prompt("抓取").ends_with("\n\nChinese: 抓取"));
    assert!(PromptManager::paper_translation_prompt("T", "A").ends_with("\n\nTitle: T\n\nAbstract: A"));
}

#[test]
fn excerpts_cut_on_character_boundaries() {
    assert_eq!(paperflow::llm::excerpt("hello", 3), "hel");
    assert_eq!(paperflow::llm::excerpt("hello", 300), "hello");
    // each of these characters takes three bytes
    assert_eq!(paperflow::llm::excerpt("机器人", 7), "机器");
    assert_eq!(paperflow::llm::excerpt("机器人", 2), "");
    assert_eq!(paperflow::llm::excerpt("", 0), "");
}

#[test]
fn api_error_messages() {
    assert_eq!(paperflow::llm::api_error_message(429, "slow down"), "OpenAI API error (429): slow down");
    let long = "x".repeat(400);
    assert_eq!(paperflow::llm::api_error_message(500, &long).len(), "OpenAI API error (500): ".len() + 300);
}
