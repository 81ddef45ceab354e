use paperflow::filter::Filter;
use paperflow::order::{sort_papers, SortKey};
use paperflow::paper::{Paper, UserPreferences};
use paperflow::time::UtcTime;

fn at(secs: i64) -> UtcTime {
    UtcTime { secs, nanos: 0 }
}

fn paper(id: &str, title: &str, abstract_text: &str, categories: &[&str], authors: &[&str]) -> Paper {
    let mut p = Paper::new_at(id.to_string(), title.to_string(), at(1_700_000_000));
    p.abstract_text = abstract_text.to_string();
    p.categories = categories.iter().map(|c| c.to_string()).collect();
    p.authors = authors.iter().map(|a| a.to_string()).collect();
    p
}

fn prefs(keywords: &[&str], categories: &[&str], exclude: &[&str]) -> UserPreferences {
    let mut p = UserPreferences::default();
    p.keywords = keywords.iter().map(|k| k.to_string()).collect();
    p.categories = categories.iter().map(|c| c.to_string()).collect();
    p.exclude_categories = exclude.iter().map(|c| c.to_string()).collect();
    p
}

#[test]
fn default_preferences_values() {
    let p = UserPreferences::default();
    assert!(p.keywords.is_empty());
    assert_eq!(p.fetch_interval_minutes, 60);
    assert_eq!(p.max_papers_per_fetch, 5);
    assert_eq!(f64::from_bits(p.voice_speed_bits), 1.0);
    assert_eq!(f64::from_bits(p.voice_volume_bits), 1.0);
    assert_eq!(p.llm_provider, "minimax");
    assert_eq!(p.speech_provider, "groq_whisper");
    assert_eq!(p.synthesizer_provider, "system_say");
}

#[test]
fn excluded_category_is_dropped() {
    let p = paper("1", "Robot grasping", "", &["cs.RO", "cs.LG"], &[]);
    assert!(!Filter::matches_preferences(&p, &prefs(&[], &[], &["cs.LG"])));
    assert!(Filter::matches_preferences(&p, &prefs(&[], &[], &["cs.CV"])));
}

#[test]
fn followed_category_matches_case_insensitively_inside() {
    let p = paper("1", "Robot grasping", "", &["cs.RO"], &[]);
    assert!(Filter::matches_preferences(&p, &prefs(&[], &["CS.ro"], &[])));
    assert!(Filter::matches_preferences(&p, &prefs(&[], &["ro"], &[])));
    assert!(!Filter::matches_preferences(&p, &prefs(&[], &["cs.CV"], &[])));
}

#[test]
fn keyword_must_occur_in_title_or_abstract() {
    let p = paper("1", "Diffusion Policies", "We study robot grasping.", &[], &[]);
    assert!(Filter::matches_preferences(&p, &prefs(&["GRASPING"], &[], &[])));
    assert!(Filter::matches_preferences(&p, &prefs(&["nothing", "diffusion"], &[], &[])));
    assert!(!Filter::matches_preferences(&p, &prefs(&["transformer"], &[], &[])));
    // the title and the abstract are joined by a space
    assert!(Filter::matches_preferences(&p, &prefs(&["policies we"], &[], &[])));
}

#[test]
fn empty_preferences_keep_everything() {
    let ps = vec![paper("1", "A", "", &["cs.RO"], &[]), paper("2", "B", "", &[], &[])];
    let kept = Filter::filter_papers(ps, &UserPreferences::default());
    assert_eq!(kept.len(), 2);
    assert_eq!(kept[0].id, "1");
    assert_eq!(kept[1].id, "2");
}

#[test]
fn score_sums_the_weights() {
    let p = paper(
        "1",
        "A Survey of Robot Learning",
        "grasping and navigation",
        &["cs.RO", "cs.AI", "cs.CV"],
        &["Alice (Google DeepMind)", "Bob"],
    );
    let pr = prefs(&["grasping", "navigation", "vision"], &["cs.RO", "cs.AI"], &[]);
    // 2 categories * 2 + 2 keywords + 2 institution + 1 survey
    assert_eq!(Filter::score_paper(&p, &pr), 9);
}

#[test]
fn score_without_bonuses() {
    let p = paper("1", "Plain title", "nothing", &["cs.CL"], &["Carol"]);
    assert_eq!(Filter::score_paper(&p, &prefs(&[], &[], &[])), 0);
    let q = paper("2", "A Review", "", &[], &["MIT"]);
    assert_eq!(Filter::score_paper(&q, &prefs(&[], &[], &[])), 3);
}

#[test]
fn filter_and_score_keeps_order_and_sets_scores() {
    let ps = vec![
        paper("1", "robot arm", "", &[], &[]),
        paper("2", "language model", "", &[], &[]),
        paper("3", "robot survey", "", &[], &[]),
    ];
    let r = Filter::filter_and_score(ps, &prefs(&["robot"], &[], &[]));
    assert_eq!(r.len(), 2);
    assert_eq!(r[0].id, "1");
    assert_eq!(r[0].relevance_score, Some(1));
    assert_eq!(r[1].id, "3");
    assert_eq!(r[1].relevance_score, Some(2));
}

#[test]
fn filtering_twice_changes_nothing() {
    let pr = prefs(&["robot"], &[], &["cs.CL"]);
    let ps = vec![
        paper("1", "robot arm", "", &["cs.RO"], &[]),
        paper("2", "robot talk", "", &["cs.CL"], &[]),
        paper("3", "vision", "", &[], &[]),
    ];
    let once = Filter::filter_papers(ps, &pr);
    let ids: Vec<String> = once.iter().map(|p| p.id.clone()).collect();
    let twice = Filter::filter_papers(once, &pr);
    let ids2: Vec<String> = twice.iter().map(|p| p.id.clone()).collect();
    assert_eq!(ids, vec!["1".to_string()]);
    assert_eq!(ids, ids2);
}

#[test]
fn sort_by_relevance_is_stable_and_descending() {
    let mut a = paper("a", "A", "", &[], &[]);
    a.relevance_score = Some(1);
    let mut b = paper("b", "B", "", &[], &[]);
    b.relevance_score = Some(3);
    let mut c = paper("c", "C", "", &[], &[]);
    c.relevance_score = Some(1);
    let d = paper("d", "D", "", &[], &[]);
    let r = sort_papers(vec![a, b, c, d], SortKey::Relevance);
    let ids: Vec<&str> = r.iter().map(|p| p.id.as_str()).collect();
    assert_eq!(ids, vec!["b", "a", "c", "d"]);
}

#[test]
fn sort_by_published_newest_first() {
    let mut a = paper("a", "A", "", &[], &[]);
    a.published = at(10);
    let mut b = paper("b", "B", "", &[], &[]);
    b.published = at(30);
    let mut c = paper("c", "C", "", &[], &[]);
    c.published = UtcTime { secs: 10, nanos: 5 };
    let r = sort_papers(vec![a, b, c], SortKey::Published);
    let ids: Vec<&str> = r.iter().map(|p| p.id.as_str()).collect();
    assert_eq!(ids, vec!["b", "c", "a"]);
}

#[test]
fn one_more_keyword_adds_a_point_when_it_occurs() {
    let p = paper("1", "Robot arm", "grasping", &["cs.RO"], &[]);
    let base = prefs(&["robot"], &["cs.RO"], &[]);
    let hit = prefs(&["robot", "GRASPING"], &["cs.RO"], &[]);
    let miss = prefs(&["robot", "vision"], &["cs.RO"], &[]);
    assert_eq!(Filter::score_paper(&p, &hit), Filter::score_paper(&p, &base) + 1);
    assert_eq!(Filter::score_paper(&p, &miss), Filter::score_paper(&p, &base));
}
