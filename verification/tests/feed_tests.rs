use paperflow::arxiv::ArxivClient;
use paperflow::paper::Paper;
use paperflow::time::UtcTime;

const FEED: &str = r#"<?xml version="1.0" encoding="UTF-8"?>
<feed xmlns="http://www.w3.org/2005/Atom">
  <title>ArXiv Query</title>
  <entry>
    <id>http://arxiv.org/abs/2401.00001v1</id>
    <updated>2024-01-02T00:00:00Z</updated>
    <published>2024-01-01T00:00:00Z</published>
    <title>  Robot Grasping at Scale </title>
    <summary> We study grasping. </summary>
    <author><name>Alice</name></author>
    <author><name>Bob</name></author>
    <link href="http://arxiv.org/abs/2401.00001v1" rel="alternate" type="text/html"/>
    <link title="pdf" href="http://arxiv.org/pdf/2401.00001v1" rel="related" type="application/pdf"/>
    <category term="cs.RO" scheme="http://arxiv.org/schemas/atom"/>
    <category term="cs.AI" scheme="http://arxiv.org/schemas/atom"/>
  </entry>
  <entry>
    <title>No identifier here</title>
  </entry>
  <entry>
    <id>http://arxiv.org/abs/2401.00003v2</id>
    <title>Second paper</title>
    <summary>first line
second line</summary>
    <link href="http://arxiv.org/abs/2401.00003v2" rel="alternate" type="text/html"/>
    <link href="http://arxiv.org/pdf/2401.00003v2.pdf" rel="related"/>
  </entry>
</feed>
"#;

fn now() -> UtcTime {
    UtcTime { secs: 42, nanos: 7 }
}

#[test]
fn parse_feed_reads_entries() {
    let client = ArxivClient::new();
    let papers = client.parse_feed_at(FEED, now());
    assert_eq!(papers.len(), 2);
    let p = &papers[0];
    assert_eq!(p.id, "2401.00001v1");
    assert_eq!(p.title, "Robot Grasping at Scale");
    assert_eq!(p.abstract_text, "We study grasping.");
    assert_eq!(p.authors, vec!["Alice".to_string(), "Bob".to_string()]);
    assert_eq!(p.categories, vec!["cs.RO".to_string(), "cs.AI".to_string()]);
    assert_eq!(p.published, UtcTime { secs: 1_704_067_200, nanos: 0 });
    assert_eq!(p.updated, UtcTime { secs: 1_704_153_600, nanos: 0 });
    assert_eq!(p.pdf_url, "http://arxiv.org/pdf/2401.00001v1");
    assert_eq!(p.source, "arxiv");
    assert_eq!(p.relevance_score, None);
    assert!(!p.is_read);
}

#[test]
fn parse_feed_fallbacks() {
    let client = ArxivClient::new();
    let papers = client.parse_feed_at(FEED, now());
    let q = &papers[1];
    assert_eq!(q.id, "2401.00003v2");
    assert_eq!(q.title, "Second paper");
    // a summary over several lines is captured, its line break made a space
    assert_eq!(q.abstract_text, "first line second line");
    // no dates: the current time, and the update time follows the publication time
    assert_eq!(q.published, now());
    assert_eq!(q.updated, now());
    assert_eq!(q.pdf_url, "http://arxiv.org/pdf/2401.00003v2.pdf");
    assert!(q.authors.is_empty());
}

#[test]
fn parse_feed_of_nothing() {
    let client = ArxivClient::new();
    assert!(client.parse_feed_at("", now()).is_empty());
    assert!(client.parse_feed_at("<feed><entry></entry></feed>", now()).is_empty());
}

#[test]
fn search_url_and_category_query() {
    let client = ArxivClient::new();
    assert_eq!(
        client.search_url("cat:cs.RO", 5),
        "https://export.arxiv.org/api/query?search_query=cat:cs.RO&start=0&max_results=5&sortBy=submittedDate&sortOrder=descending"
    );
    assert_eq!(ArxivClient::category_query("cs.CV"), "cat:cs.CV");
}

fn dated(id: &str, secs: i64) -> Paper {
    Paper::new_at(id.to_string(), format!("title {}", id), UtcTime { secs, nanos: 0 })
}

#[test]
fn combine_results_dedupes_and_sorts() {
    let batches = vec![
        vec![dated("a", 10), dated("b", 30)],
        vec![dated("b", 99), dated("c", 20)],
    ];
    let r = ArxivClient::combine_results(batches);
    let ids: Vec<&str> = r.iter().map(|p| p.id.as_str()).collect();
    assert_eq!(ids, vec!["b", "c", "a"]);
    // the first paper with an identifier is the one kept
    assert_eq!(r[0].published.secs, 30);
}

#[test]
fn titles_and_abstracts_may_span_lines() {
    let xml = "<entry><id>http://arxiv.org/abs/1.1</id><title>Deep\nLearning</title><summary>Line one\nline two</summary></entry>";
    let papers = ArxivClient::new().parse_feed_at(xml, now());
    assert_eq!(papers.len(), 1);
    assert_eq!(papers[0].id, "1.1");
    assert_eq!(papers[0].title, "Deep Learning");
    assert_eq!(papers[0].abstract_text, "Line one line two");
}
