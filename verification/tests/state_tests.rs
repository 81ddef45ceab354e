use paperflow::paper::{AudioData, Paper, UserPreferences};
use paperflow::scheduler::{FetchAction, FetchEvent, Scheduler};
use paperflow::speech::SystemSay;
use paperflow::storage::{PaperRow, PreferencesRow, SummaryRow};
use paperflow::llm::summary_from_fields;
use paperflow::time::UtcTime;
use paperflow::tui::{score_label, TuiApp};

#[test]
fn scheduler_defaults_and_minimum() {
    let s = Scheduler::new(10);
    assert_eq!(s.interval_minutes(), 30);
    assert_eq!(s.interval_secs(), 1800);
    assert_eq!(s.categories(), vec!["cs.RO", "cs.AI", "cs.CV"]);
    assert_eq!(s.keywords(), vec!["robotics"]);
    assert_eq!(Scheduler::new(60).interval_minutes(), 60);
    assert_eq!(s.arxiv_queries(), vec!["cat:cs.RO", "cat:cs.AI", "cat:cs.CV"]);
}

#[test]
fn scheduler_from_preferences() {
    let mut p = UserPreferences::default();
    assert_eq!(Scheduler::from_preferences(&p).interval_minutes(), 60);
    p.fetch_interval_minutes = 5;
    p.categories = vec!["cs.LG".to_string()];
    let s = Scheduler::from_preferences(&p);
    assert_eq!(s.interval_minutes(), 30);
    assert_eq!(s.categories(), vec!["cs.LG"]);
    assert_eq!(s.keywords(), vec!["robotics"]);
}

#[test]
fn say_arguments() {
    let s = SystemSay::new();
    assert_eq!(s.say_args("hello"), vec!["hello", "-r", "200"]);
    let v = SystemSay::new().with_voice("Ting-Ting").with_speed(180);
    assert_eq!(v.say_args("你好"), vec!["你好", "-v", "Ting-Ting", "-r", "180"]);
    assert_eq!(s.name(), "system_say");
}

fn paper(id: &str) -> Paper {
    Paper::new_at(id.to_string(), format!("Title {}", id), UtcTime { secs: 0, nanos: 0 })
}

#[test]
fn tui_selection_stays_in_range() {
    let mut app = TuiApp::new();
    assert!(app.selected_paper().is_none());
    app.select_next();
    app.select_prev();
    assert!(app.selected_paper().is_none());
    app.set_papers(vec![paper("a"), paper("b")]);
    assert_eq!(app.selected_paper().unwrap().id, "a");
    app.select_next();
    assert_eq!(app.selected_paper().unwrap().id, "b");
    app.select_next();
    assert_eq!(app.selected_paper().unwrap().id, "b");
    app.select_prev();
    app.select_prev();
    assert_eq!(app.selected_paper().unwrap().id, "a");
    assert!(app.selection_in_range());
}

#[test]
fn tui_lines() {
    let mut app = TuiApp::default();
    let mut b = paper("b");
    b.relevance_score = Some(4);
    app.set_papers(vec![paper("a"), b]);
    app.select_next();
    assert_eq!(app.list_lines(), vec!["  [N/A] Title a - a", "> [4.0] Title b - b"]);
    assert_eq!(score_label(Some(-2)), "-2.0");
}

#[test]
fn paper_rows_round_trip() {
    let mut p = Paper::new_at("2401.1".to_string(), "T".to_string(), UtcTime { secs: 1_704_067_200, nanos: 0 });
    p.authors = vec!["A \"q\"".to_string(), "B".to_string()];
    p.categories = vec!["cs.RO".to_string()];
    p.relevance_score = Some(7);
    let row = PaperRow::of_paper(&p);
    assert_eq!(row.authors, "[\"A \\\"q\\\"\",\"B\"]");
    assert_eq!(row.categories, "[\"cs.RO\"]");
    assert_eq!(row.published, 1_704_067_200);
    let back = row.into_paper();
    assert_eq!(back.authors, p.authors);
    assert_eq!(back.categories, p.categories);
    assert_eq!(back.published, p.published);
    assert_eq!(back.relevance_score, Some(7));
    assert_eq!(back.source, "arxiv");
}

#[test]
fn paper_row_with_bad_json() {
    let row = PaperRow {
        id: "x".to_string(),
        title: "t".to_string(),
        authors: "not json".to_string(),
        abstract_text: String::new(),
        categories: "[1, 2]".to_string(),
        published: i64::MAX,
        updated: 5,
        pdf_url: String::new(),
        relevance_score: None,
        is_read: true,
    };
    let p = row.into_paper();
    assert!(p.authors.is_empty());
    assert!(p.categories.is_empty());
    assert_eq!(p.published, UtcTime { secs: 0, nanos: 0 });
    assert_eq!(p.updated, UtcTime { secs: 5, nanos: 0 });
    assert!(p.is_read);
}

#[test]
fn summary_and_preference_rows() {
    let s = summary_from_fields(
        "id".to_string(),
        "p",
        Some("s".to_string()),
        Some("d".to_string()),
        Some(vec!["k1".to_string()]),
        UtcTime { secs: 9, nanos: 0 },
        "openai",
    );
    let row = SummaryRow::of_summary(&s);
    assert_eq!(row.key_points, "[\"k1\"]");
    let back = row.into_summary();
    assert_eq!(back.key_points, vec!["k1"]);
    assert_eq!(back.generated_at, UtcTime { secs: 9, nanos: 0 });
    let mut prefs = UserPreferences::default();
    prefs.keywords = vec!["robot".to_string()];
    let prow = PreferencesRow::of_preferences(&prefs);
    assert_eq!(prow.keywords, "[\"robot\"]");
    assert_eq!(prow.fetch_interval_minutes, 60);
    let p2 = prow.into_preferences();
    assert_eq!(p2.keywords, vec!["robot"]);
    assert_eq!(p2.max_papers_per_fetch, 5);
    assert_eq!(p2.llm_provider, "minimax");
}

#[test]
fn audio_buffer() {
    let a = AudioData::new(16000, 1);
    assert_eq!(a.sample_rate, 16000);
    assert_eq!(a.channels, 1);
    assert!(a.samples.is_empty());
}

fn titled(id: &str) -> Paper {
    Paper::new_at(id.to_string(), format!("T{}", id), UtcTime { secs: 0, nanos: 0 })
}

#[test]
fn background_fetch_steps() {
    let mut prefs = UserPreferences::default();
    prefs.categories = vec!["cs.RO".to_string(), "cs.AI".to_string()];
    prefs.keywords = vec!["robot".to_string()];
    let s = Scheduler::from_preferences(&prefs);
    let (st, a) = s.fetch_start();
    assert!(matches!(a, FetchAction::SearchArxiv { ref category, max: 3 } if category == "cs.RO"));
    // the first search finds two papers: one known, one new and saved
    let (st, a) = s.fetch_step(st, FetchEvent::Results(Some(vec![titled("a"), titled("b")])));
    assert!(matches!(a, FetchAction::Lookup(ref id) if id == "a"));
    let (st, a) = s.fetch_step(st, FetchEvent::Known(true));
    assert!(matches!(a, FetchAction::Lookup(ref id) if id == "b"));
    let (st, a) = s.fetch_step(st, FetchEvent::Known(false));
    assert!(matches!(a, FetchAction::Save(ref p) if p.id == "b"));
    let (st, a) = s.fetch_step(st, FetchEvent::Saved(true));
    assert!(matches!(a, FetchAction::Wait(2)));
    let (st, a) = s.fetch_step(st, FetchEvent::Waited);
    assert!(matches!(a, FetchAction::SearchArxiv { ref category, max: 3 } if category == "cs.AI"));
    // a failed search goes on to the next one
    let (st, a) = s.fetch_step(st, FetchEvent::Results(None));
    assert!(matches!(a, FetchAction::Wait(2)));
    let (st, a) = s.fetch_step(st, FetchEvent::Waited);
    assert!(matches!(a, FetchAction::SearchScholar { ref keyword, max: 3 } if keyword == "robot"));
    // an answer that is not awaited repeats the request
    let (st, a) = s.fetch_step(st, FetchEvent::Saved(true));
    assert!(matches!(a, FetchAction::SearchScholar { .. }));
    let (st, a) = s.fetch_step(st, FetchEvent::Results(Some(vec![titled("c")])));
    assert!(matches!(a, FetchAction::Lookup(ref id) if id == "c"));
    let (st, a) = s.fetch_step(st, FetchEvent::Known(false));
    assert!(matches!(a, FetchAction::Save(_)));
    let (st, a) = s.fetch_step(st, FetchEvent::Saved(false));
    assert!(matches!(a, FetchAction::Wait(2)));
    let (st, a) = s.fetch_step(st, FetchEvent::Waited);
    assert!(matches!(a, FetchAction::Done(1)));
    assert_eq!(st.count, 1);
}

fn row_at(published: i64) -> PaperRow {
    PaperRow {
        id: "x".to_string(),
        title: "t".to_string(),
        authors: "[]".to_string(),
        abstract_text: String::new(),
        categories: "[]".to_string(),
        published,
        updated: 0,
        pdf_url: String::new(),
        relevance_score: None,
        is_read: false,
    }
}

#[test]
fn stored_times_within_chronos_range() {
    let lo = -8_334_601_228_800i64;
    let hi = 8_210_266_876_799i64;
    assert_eq!(row_at(lo).into_paper().published, UtcTime { secs: lo, nanos: 0 });
    assert_eq!(row_at(hi).into_paper().published, UtcTime { secs: hi, nanos: 0 });
    assert_eq!(row_at(lo - 1).into_paper().published, UtcTime { secs: 0, nanos: 0 });
    assert_eq!(row_at(hi + 1).into_paper().published, UtcTime { secs: 0, nanos: 0 });
}

#[test]
fn preferences_round_trip() {
    let mut prefs = UserPreferences::default();
    prefs.keywords = vec!["a,\"b\"".to_string(), "机器人".to_string()];
    prefs.exclude_categories = vec!["cs.CL".to_string()];
    prefs.fetch_interval_minutes = u64::MAX;
    prefs.max_papers_per_fetch = usize::MAX;
    let back = PreferencesRow::of_preferences(&prefs).into_preferences();
    assert_eq!(back.keywords, prefs.keywords);
    assert_eq!(back.exclude_categories, prefs.exclude_categories);
    assert_eq!(back.fetch_interval_minutes, u64::MAX);
    assert_eq!(back.max_papers_per_fetch, usize::MAX);
}
