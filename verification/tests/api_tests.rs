use paperflow::api::{
    clean_reply, create_llm, extract_json_field, get_preset, per_category, search_preferences, PaperResponse,
    ProviderKind, QuickSearchQuery, SearchQuery, SearchResponse, SummarizeRequest, SummarizeResponse,
    TranslatePaperResponse, TranslateResponse,
};
use paperflow::config::{ApiConfig, AppConfig};
use paperflow::paper::Paper;
use paperflow::time::UtcTime;

#[test]
fn json_field_with_quotes() {
    let text = "{\"title\": \"机器人抓取\", \"abstract\": \"我们研究抓取。\"}";
    assert_eq!(extract_json_field(text, "title"), "机器人抓取");
    assert_eq!(extract_json_field(text, "abstract"), "我们研究抓取。");
}

#[test]
fn json_field_without_quotes() {
    assert_eq!(extract_json_field("{\"title\": plain words }", "title"), "plain words");
    // a value that is not quoted ends at the next comma or brace
    assert_eq!(extract_json_field("{\"title\": plain, \"x\": 1}", "title"), "plain");
    assert_eq!(extract_json_field("{\"abstract\": 42, \"title\": \"T\"}", "abstract"), "42");
    assert_eq!(extract_json_field("{\"n\":  42}", "n"), "42");
    // an opening quote without its closing one: the bare value, quotes removed
    assert_eq!(extract_json_field("{\"abstract\": \"unfinished}", "abstract"), "unfinished");
}

#[test]
fn json_field_fallbacks() {
    // no key: the first line for the title, nothing for other fields
    assert_eq!(extract_json_field("  \"标题\"  \nsecond", "title"), "标题");
    assert_eq!(extract_json_field("no json here", "abstract"), "");
    assert_eq!(extract_json_field("", "title"), "");
    // a key without a colon after it
    assert_eq!(extract_json_field("\"title\" only", "title"), "title\" only");
    assert_eq!(extract_json_field("\"abstract\" only", "abstract"), "");
}

#[test]
fn presets() {
    let r = get_preset("robotics").unwrap();
    assert_eq!(r.categories, vec!["cs.RO", "cs.AI", "cs.CV", "cs.LG"]);
    assert_eq!(r.label, "机器人");
    let a = get_preset("ai").unwrap();
    assert_eq!(a.categories, vec!["cs.AI", "cs.LG", "cs.CL"]);
    assert_eq!(a.label, "AI/ML");
    let c = get_preset("cv").unwrap();
    assert_eq!(c.categories, vec!["cs.CV", "cs.AI"]);
    assert_eq!(c.label, "计算机视觉");
    assert!(get_preset("Robotics").is_none());
    assert!(get_preset("").is_none());
}

#[test]
fn limits() {
    assert_eq!(per_category(10), 2);
    assert_eq!(per_category(16), 4);
    assert_eq!(per_category(0), 2);
    assert_eq!(SearchQuery { q: "x".to_string(), max_results: None }.limit(), 5);
    assert_eq!(SearchQuery { q: "x".to_string(), max_results: Some(8) }.limit(), 8);
    assert_eq!(QuickSearchQuery { preset: "ai".to_string(), max_results: None }.limit(), 10);
}

fn paper(id: &str, title: &str, secs: i64) -> Paper {
    Paper::new_at(id.to_string(), title.to_string(), UtcTime { secs, nanos: 0 })
}

#[test]
fn paper_response_fields() {
    let mut p = paper("2401.1", "Robots", 1_704_067_200);
    p.abstract_text = "abs".to_string();
    p.venue = Some("ICRA".to_string());
    let r = PaperResponse::from_paper(&p);
    assert_eq!(r.id, "2401.1");
    assert_eq!(r.summary, "abs");
    assert_eq!(r.published, "2024-01-01");
    assert_eq!(r.source, "arxiv");
    assert_eq!(r.venue, Some("ICRA".to_string()));
}

#[test]
fn search_response_filters_and_keeps_all() {
    let ps = vec![paper("1", "robot arm", 0), paper("2", "other", 0), paper("3", "robot leg", 0)];
    let r = SearchResponse::of_search(ps, "robot", 1);
    let ids: Vec<&str> = r.papers.iter().map(|p| p.id.as_str()).collect();
    assert_eq!(ids, vec!["1", "3"]);
}

#[test]
fn quick_search_merges_and_truncates() {
    let arxiv = vec![paper("1", "ai one", 0), paper("2", "ai two", 0)];
    let scholar = vec![paper("2", "ai duplicate", 0), paper("4", "ai four", 0), paper("5", "none", 0)];
    let r = SearchResponse::of_quick_search(arxiv, scholar, "ai", 2);
    let ids: Vec<&str> = r.papers.iter().map(|p| p.id.as_str()).collect();
    assert_eq!(ids, vec!["1", "2"]);
    let r3 = SearchResponse::of_quick_search(
        vec![paper("1", "ai one", 0)],
        vec![paper("1", "ai dup", 0), paper("4", "ai four", 0)],
        "ai",
        10,
    );
    let ids3: Vec<&str> = r3.papers.iter().map(|p| p.title.as_str()).collect();
    assert_eq!(ids3, vec!["ai one", "ai four"]);
    assert!(SearchResponse::empty().papers.is_empty());
}

#[test]
fn search_preferences_are_the_defaults_with_one_keyword() {
    let p = search_preferences("robot", 7);
    assert_eq!(p.keywords, vec!["robot".to_string()]);
    assert_eq!(p.max_papers_per_fetch, 7);
    assert_eq!(p.fetch_interval_minutes, 60);
    assert!(p.categories.is_empty());
}

#[test]
fn summarize_paths() {
    let req = SummarizeRequest {
        paper_id: "p1".to_string(),
        title: "T".to_string(),
        authors: vec!["A".to_string()],
        summary: "S".to_string(),
    };
    let t = UtcTime { secs: 3, nanos: 0 };
    let p = req.into_paper(t, t);
    assert_eq!(p.id, "p1");
    assert_eq!(p.abstract_text, "S");
    assert!(p.categories.is_empty());
    assert_eq!(p.source, "arxiv");
    assert_eq!(SummarizeResponse::no_key().detailed_summary, "API key not configured");
    assert_eq!(SummarizeResponse::failed().detailed_summary, "Failed to generate summary");
}

#[test]
fn translation_paths() {
    assert_eq!(clean_reply("<think>x</think>  robot grasping \n"), "robot grasping");
    let ok = TranslateResponse::of_reply("<think>a</think> robots ", "机器人".to_string());
    assert_eq!(ok.translated, "robots");
    assert_eq!(ok.original, "机器人");
    assert!(ok.success);
    let no = TranslateResponse::untranslated("机器人".to_string());
    assert_eq!(no.translated, "机器人");
    assert!(!no.success);
    let tp = TranslatePaperResponse::of_reply("<think>..</think>{\"title\": \"标题\", \"abstract\": \"摘要\"}");
    assert_eq!(tp.title_cn, "标题");
    assert_eq!(tp.abstract_cn, "摘要");
    assert!(tp.success);
    let f = TranslatePaperResponse::failed();
    assert!(!f.success && f.title_cn.is_empty());
}

#[test]
fn provider_choice() {
    let mut api = ApiConfig::from_app_config(&AppConfig::parse_api_key_file(""));
    let (kind, cfg) = create_llm(&api);
    assert_eq!(kind, ProviderKind::OpenAi);
    assert_eq!(cfg.api_key, "");
    assert_eq!(cfg.base_url, Some("https://api.openai.com".to_string()));
    api.llm_provider = "minimax".to_string();
    api.api_key = Some("k".to_string());
    let (kind2, cfg2) = create_llm(&api);
    assert_eq!(kind2, ProviderKind::MiniMax);
    assert_eq!(cfg2.api_key, "k");
    assert_eq!(cfg2.provider_type, "minimax");
}

#[test]
fn outcomes_and_model_choice() {
    assert_eq!(SummarizeResponse::of_outcome(None).detailed_summary, "Failed to generate summary");
    let t = TranslateResponse::of_outcome(Some(" robots "), "机器人".to_string());
    assert_eq!(t.translated, "robots");
    assert!(t.success);
    let u = TranslateResponse::of_outcome(None, "机器人".to_string());
    assert_eq!(u.translated, "机器人");
    assert!(!u.success);
    let p = TranslatePaperResponse::of_outcome(Some("{\"title\": \"标题\"}"));
    assert_eq!(p.title_cn, "标题");
    assert_eq!(p.abstract_cn, "");
    assert!(!TranslatePaperResponse::of_outcome(None).success);
    let mut api = ApiConfig::from_app_config(&AppConfig::parse_api_key_file(""));
    assert!(paperflow::api::model_of(&api).is_none());
    api.api_key = Some("k".to_string());
    let (kind, cfg) = paperflow::api::model_of(&api).unwrap();
    assert_eq!(kind, ProviderKind::OpenAi);
    assert_eq!(cfg.api_key, "k");
}
