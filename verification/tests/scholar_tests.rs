use paperflow::scholar::{AuthorData, ExternalIds, PaperData, SemanticScholarClient};
use paperflow::paper::Paper;
use paperflow::time::UtcTime;

fn record(title: Option<&str>) -> PaperData {
    PaperData {
        paper_id: "abc123".to_string(),
        title: title.map(|t| t.to_string()),
        authors: vec![AuthorData { name: "Ada".to_string() }],
        abstract_text: None,
        year: None,
        venue: Some("ICRA 2024".to_string()),
        external_ids: None,
        url: None,
        citation_count: Some(42),
        publication_date: None,
    }
}

fn now() -> UtcTime {
    UtcTime { secs: 5, nanos: 0 }
}

#[test]
fn convert_a_record() {
    let p = SemanticScholarClient::convert_at(record(Some("  Learning to Walk ")), now()).unwrap();
    assert_eq!(p.id, "abc123");
    assert_eq!(p.title, "Learning to Walk");
    assert_eq!(p.authors, vec!["Ada".to_string()]);
    assert_eq!(p.abstract_text, "");
    assert_eq!(p.published, now());
    assert_eq!(p.updated, now());
    assert_eq!(p.pdf_url, "https://api.semanticscholar.org/abc123");
    assert_eq!(p.relevance_score, Some(10));
    assert_eq!(p.source, "semantic_scholar");
    assert_eq!(p.venue, Some("ICRA 2024".to_string()));
}

#[test]
fn convert_prefers_the_arxiv_identifier() {
    let mut d = record(Some("T"));
    d.external_ids = Some(ExternalIds { arxiv: Some("2401.00001".to_string()), doi: None });
    d.citation_count = Some(3);
    d.year = Some(2020);
    let p = SemanticScholarClient::convert_at(d, now()).unwrap();
    assert_eq!(p.id, "2401.00001");
    assert_eq!(p.pdf_url, "https://arxiv.org/abs/2401.00001");
    assert_eq!(p.relevance_score, Some(3));
    assert_eq!(p.published, UtcTime { secs: 1_577_836_800, nanos: 0 });
}

#[test]
fn convert_uses_the_publication_date_and_url() {
    let mut d = record(Some("T"));
    d.publication_date = Some("2021-06-01T00:00:00Z".to_string());
    d.url = Some("https://example.org/p".to_string());
    d.citation_count = None;
    let p = SemanticScholarClient::convert_at(d, now()).unwrap();
    assert_eq!(p.published, UtcTime { secs: 1_622_505_600, nanos: 0 });
    assert_eq!(p.pdf_url, "https://example.org/p");
    assert_eq!(p.relevance_score, None);
}

#[test]
fn convert_skips_untitled_records() {
    assert!(SemanticScholarClient::convert_at(record(None), now()).is_none());
    assert!(SemanticScholarClient::convert_at(record(Some("   ")), now()).is_none());
}

#[test]
fn filter_by_venues_is_case_insensitive() {
    let mut a = Paper::new_at("a".to_string(), "A".to_string(), now());
    a.venue = Some("Proc. IEEE ICRA".to_string());
    let mut b = Paper::new_at("b".to_string(), "B".to_string(), now());
    b.venue = Some("NeurIPS".to_string());
    let c = Paper::new_at("c".to_string(), "C".to_string(), now());
    let venues = vec!["icra".to_string(), "IROS".to_string()];
    let r = SemanticScholarClient::filter_by_venues(vec![a, b, c], &venues);
    assert_eq!(r.len(), 1);
    assert_eq!(r[0].id, "a");
}

#[test]
fn search_url_caps_the_limit() {
    let c = SemanticScholarClient::new();
    assert_eq!(
        c.search_url("robotics", 3),
        "https://api.semanticscholar.org/graph/v1/paper/search?query=robotics&limit=3&fields=title,authors,abstract,year,venue,externalIds,url,citationCount,publicationDate"
    );
    assert!(c.search_url("x", 500).contains("&limit=100&"));
    assert_eq!(SemanticScholarClient::robotics_venues().len(), 9);
}

#[test]
fn convert_all_keeps_titled_records_in_order() {
    let mut second = record(Some("Second"));
    second.paper_id = "zzz".to_string();
    let r = SemanticScholarClient::convert_all_at(vec![record(Some("First")), record(None), second], now());
    let ids: Vec<&str> = r.iter().map(|p| p.id.as_str()).collect();
    assert_eq!(ids, vec!["abc123", "zzz"]);
}
