use paperflow::commands::{ChatCommand, ChatInput, ChatPlan, ChatResults, CliArgs, Commands, FetchCommand, ListCommand, Settings, SpeakCommand};
use paperflow::paper::{Paper, UserPreferences};
use paperflow::time::UtcTime;

#[test]
fn contains_chinese_detects_cjk() {
    assert!(ChatCommand::contains_chinese("机器人 grasping"));
    assert!(ChatCommand::contains_chinese("ｆｕｌｌ"));
    assert!(ChatCommand::contains_chinese("\u{3400}"));
    assert!(!ChatCommand::contains_chinese("robot grasping"));
    assert!(!ChatCommand::contains_chinese("こんにちは"));
    assert!(!ChatCommand::contains_chinese(""));
}

#[test]
fn classify_lines() {
    assert!(matches!(ChatCommand::classify("   \n"), ChatInput::Empty));
    assert!(matches!(ChatCommand::classify(" quit\n"), ChatInput::Quit));
    assert!(matches!(ChatCommand::classify("q"), ChatInput::Quit));
    assert!(matches!(ChatCommand::classify("退出"), ChatInput::Quit));
    match ChatCommand::classify("  diffusion model \n") {
        ChatInput::Topic(t) => assert_eq!(t, "diffusion model"),
        _ => panic!("expected a topic"),
    }
    assert!(matches!(ChatCommand::classify("Quit"), ChatInput::Topic(_)));
}

#[test]
fn chat_query_and_translation() {
    assert_eq!(ChatCommand::search_query("vision language model"), "all:vision AND language AND model");
    assert_eq!(ChatCommand::search_query("clip"), "all:clip");
    assert_eq!(ChatCommand::translation_of("  robot grasping\n"), "robot grasping");
}

#[test]
fn speech_answers() {
    assert!(ChatCommand::wants_speech("y\n"));
    assert!(ChatCommand::wants_speech(" YES "));
    assert!(!ChatCommand::wants_speech("n"));
    assert!(!ChatCommand::wants_speech("yeah"));
}

#[test]
fn chat_preferences_keep_the_stored_ones() {
    let mut stored = UserPreferences::default();
    stored.exclude_categories = vec!["cs.CL".to_string()];
    stored.max_papers_per_fetch = 20;
    let p = ChatCommand::search_preferences(&stored, "机器人");
    assert_eq!(p.keywords, vec!["机器人".to_string()]);
    assert_eq!(p.max_papers_per_fetch, 5);
    assert_eq!(p.exclude_categories, vec!["cs.CL".to_string()]);
}

#[test]
fn fetch_keywords_and_count() {
    assert_eq!(FetchCommand::parse_keywords(" robot , cs.RO,, vision "), vec!["robot", "cs.RO", "", "vision"]);
    assert_eq!(FetchCommand::parse_keywords(""), vec![""]);
    let stored = Some(vec!["stored".to_string()]);
    assert_eq!(FetchCommand::choose_keywords(&Some("a,b".to_string()), stored.clone()), vec!["a", "b"]);
    assert_eq!(FetchCommand::choose_keywords(&None, stored), vec!["stored"]);
    assert!(FetchCommand::choose_keywords(&None, None).is_empty());
    assert_eq!(FetchCommand::choose_max_papers(8, Some(3)), 8);
    assert_eq!(FetchCommand::choose_max_papers(5, Some(3)), 3);
    assert_eq!(FetchCommand::choose_max_papers(5, None), 5);
}

#[test]
fn fetch_query() {
    assert_eq!(FetchCommand::build_query(&vec![]), "all");
    let ks = vec!["robot".to_string(), "cat:cs.RO".to_string()];
    assert_eq!(FetchCommand::build_query(&ks), "all:robot OR cat:cs.RO");
    assert_eq!(FetchCommand::build_query(&vec!["x".to_string()]), "all:x");
}

#[test]
fn fetch_preferences_and_ranking() {
    let p = FetchCommand::cli_preferences(&Some("robot, arm".to_string()), 7);
    assert_eq!(p.keywords, vec!["robot", "arm"]);
    assert_eq!(p.max_papers_per_fetch, 7);
    let none = FetchCommand::cli_preferences(&None, 5);
    assert!(none.keywords.is_empty());
    let t = UtcTime { secs: 0, nanos: 0 };
    let a = Paper::new_at("a".to_string(), "robot".to_string(), t);
    let b = Paper::new_at("b".to_string(), "robot arm".to_string(), t);
    let c = Paper::new_at("c".to_string(), "other".to_string(), t);
    let r = FetchCommand::rank(vec![a, b, c], &p);
    let ids: Vec<&str> = r.iter().map(|x| x.id.as_str()).collect();
    assert_eq!(ids, vec!["b", "a"]);
    assert_eq!(r[0].relevance_score, Some(2));
}

#[test]
fn entry_lines() {
    let mut p = Paper::new_at("2401.1".to_string(), "Robots".to_string(), UtcTime { secs: 1_704_067_200, nanos: 0 });
    p.authors = vec!["A".to_string(), "B".to_string()];
    p.relevance_score = Some(3);
    assert_eq!(
        ChatCommand::entry_lines(0, &p),
        vec!["1. [评分: 3.0] Robots", "   👤 A, B", "   📅 2024-01-01"]
    );
    assert_eq!(ListCommand::entry_lines(1, &p), vec!["2. [未读] Robots [评分: 3.0]", "   ID: 2401.1", "   作者: A, B"]);
    assert_eq!(FetchCommand::entry_line(2, &p), "3. [3] Robots");
    p.relevance_score = None;
    p.is_read = true;
    assert_eq!(ListCommand::entry_lines(0, &p)[0], "1. [已读] Robots [评分: N/A]");
    assert_eq!(ChatCommand::entry_lines(0, &p)[0], "1. [评分: 0.0] Robots");
    assert_eq!(FetchCommand::entry_line(0, &p), "1. [0] Robots");
}

#[test]
fn chat_plans() {
    assert!(matches!(ChatCommand::plan("  ", true), ChatPlan::AskAgain));
    assert!(matches!(ChatCommand::plan("q\n", false), ChatPlan::Quit));
    match ChatCommand::plan(" 机器人 抓取 \n", true) {
        ChatPlan::Translate { topic, prompt } => {
            assert_eq!(topic, "机器人 抓取");
            assert!(prompt.ends_with("Chinese: 机器人 抓取\nEnglish:"));
        }
        _ => panic!("expected a translation"),
    }
    match ChatCommand::plan("机器人", false) {
        ChatPlan::Search { topic, query, untranslated } => {
            assert_eq!(topic, "机器人");
            assert_eq!(query, "all:机器人");
            assert!(untranslated);
        }
        _ => panic!("expected a search"),
    }
    match ChatCommand::plan("robot arm", true) {
        ChatPlan::Search { query, untranslated, .. } => {
            assert_eq!(query, "all:robot AND arm");
            assert!(!untranslated);
        }
        _ => panic!("expected a search"),
    }
}

#[test]
fn query_after_a_translation() {
    let (t, q) = ChatCommand::query_after_translation("机器人", Some(" robot grasping\n"));
    assert_eq!(t, "robot grasping");
    assert_eq!(q, "all:robot AND grasping");
    let (t2, q2) = ChatCommand::query_after_translation("机器人", None);
    assert_eq!(t2, "机器人");
    assert_eq!(q2, "all:机器人");
}

#[test]
fn settings_from_the_command_line() {
    let cli = CliArgs {
        config: "config.toml".to_string(),
        speak: false,
        interval: None,
        minimax_api_key: None,
        groq_api_key: None,
        llm_provider: "minimax".to_string(),
        speech_provider: "groq_whisper".to_string(),
        synthesizer_provider: "system_say".to_string(),
        keywords: Some("robot, vision".to_string()),
        max_papers: 8,
        command: Some(Commands::Fetch),
    };
    let s = Settings::load(cli);
    assert_eq!(s.preferences.keywords, vec!["robot", "vision"]);
    assert_eq!(s.preferences.max_papers_per_fetch, 8);
    assert!(matches!(s.cli.command, Some(Commands::Fetch)));
    assert_eq!(SpeakCommand::UNREAD_LIMIT, 10);
    assert_eq!(ListCommand::LIMIT, 50);
}

#[test]
fn chat_results_and_fetch_outcome() {
    let t = UtcTime { secs: 0, nanos: 0 };
    let stored = UserPreferences::default();
    assert!(matches!(ChatCommand::results(None, &stored, "robot"), ChatResults::Failed));
    assert!(matches!(ChatCommand::results(Some(vec![]), &stored, "robot"), ChatResults::NoneFound));
    let ps = vec![
        Paper::new_at("a".to_string(), "robot".to_string(), t),
        Paper::new_at("b".to_string(), "other".to_string(), t),
    ];
    match ChatCommand::results(Some(ps), &stored, "robot") {
        ChatResults::Found(found) => {
            assert_eq!(found.len(), 1);
            assert_eq!(found[0].id, "a");
        }
        _ => panic!("expected papers"),
    }
    let prefs = FetchCommand::preferences(&vec!["robot".to_string()], 5);
    assert!(FetchCommand::outcome(vec![], &prefs).is_none());
    let kept = FetchCommand::outcome(vec![Paper::new_at("b".to_string(), "other".to_string(), t)], &prefs).unwrap();
    assert!(kept.is_empty());
}
