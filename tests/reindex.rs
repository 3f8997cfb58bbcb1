use vna::alias::AliasAction;
use vna::article::{Article, NewsApiArticle};
use vna::batching::BULK_INDEX_HEADER;
use vna::index_version::IndexVersion;
use vna::mapping::FieldKind;
use vna::reindex::{ConfigError, Phase, Reindex, RunError, RunOpts};

fn opts(max_news: u64, ingest_batch: u32, leave_old_index: bool) -> RunOpts {
    RunOpts {
        scrape_interval: None,
        max_news,
        n_shards: 1,
        n_replicas: 0,
        ingest_batch,
        leave_old_index,
    }
}

fn add_target(a: &AliasAction) -> Option<&str> {
    match a {
        AliasAction::Add { index, alias } => {
            assert_eq!(alias, "articles");
            Some(index.as_str())
        }
        AliasAction::Remove { .. } => None,
    }
}

fn remove_target(a: &AliasAction) -> Option<&str> {
    match a {
        AliasAction::Remove { index, alias } => {
            assert_eq!(alias, "articles");
            Some(index.as_str())
        }
        AliasAction::Add { .. } => None,
    }
}

/// Drives a load over a source of `n_records`, returning the number of
/// records taken from each pulled batch.
fn load(run: &mut Reindex, n_records: usize) -> Vec<usize> {
    let batch = run.opts.ingest_batch as usize;
    let mut left = n_records;
    let mut takes = Vec::new();
    while run.wants_more() {
        if left == 0 {
            break;
        }
        let pulled = left.min(batch);
        left -= pulled;
        let take = run.batch_take(pulled);
        takes.push(take);
        let docs: Vec<String> = (0..take).map(|i| format!("{{\"n\":{}}}", i)).collect();
        if let Some(req) = run.bulk_request(&docs) {
            assert_eq!(req.lines.len(), 2 * take);
        }
        if !run.on_batch_done(take as u64, take as u64) {
            break;
        }
    }
    takes
}

#[test]
fn empty_source_creates_and_aliases_an_empty_index() {
    let mut run = Reindex::new(opts(300000, 100, false)).unwrap();
    let req = run.on_alias_lookup(None).unwrap();
    assert_eq!(req.index, "articles_1");
    assert_eq!(req.definition.number_of_shards, 1);
    assert_eq!(req.definition.number_of_replicas, 0);
    run.on_index_created();
    assert!(run.bulk_request(&Vec::new()).is_none());
    let takes = load(&mut run, 0);
    assert!(takes.is_empty());
    let actions = run.on_loading_done();
    assert_eq!(actions.len(), 1);
    assert_eq!(add_target(&actions[0]), Some("articles_1"));
    assert_eq!(run.on_alias_swapped(), None);
    assert_eq!(run.phase, Phase::Done);
    let stats = run.stats();
    assert_eq!(stats.total_indexed, 0);
    assert_eq!(stats.total_processed, 0);
    assert_eq!(stats.new_index_name, "articles_1");
}

#[test]
fn cap_cuts_the_third_batch_and_stops_pulling() {
    let mut run = Reindex::new(opts(220, 100, false)).unwrap();
    run.on_alias_lookup(None).unwrap();
    run.on_index_created();
    let takes = load(&mut run, 250);
    assert_eq!(takes, vec![100, 100, 20]);
    assert!(!run.wants_more());
    assert_eq!(run.total_indexed, 220);
    run.on_loading_done();
    run.on_alias_swapped();
    assert_eq!(run.stats().total_indexed, 220);
}

#[test]
fn batch_take_never_exceeds_room() {
    let mut run = Reindex::new(opts(5, 10, false)).unwrap();
    run.on_alias_lookup(None).unwrap();
    run.on_index_created();
    assert_eq!(run.batch_take(10), 5);
    assert_eq!(run.batch_take(3), 3);
    assert!(run.on_batch_done(3, 3));
    assert_eq!(run.batch_take(10), 2);
    assert!(!run.on_batch_done(2, 2));
    assert_eq!(run.batch_take(10), 0);
}

#[test]
fn zero_cap_pulls_nothing() {
    let mut run = Reindex::new(opts(0, 10, false)).unwrap();
    run.on_alias_lookup(None).unwrap();
    run.on_index_created();
    assert!(!run.wants_more());
    assert!(load(&mut run, 30).is_empty());
    assert_eq!(run.total_indexed, 0);
}

#[test]
fn second_run_moves_alias_and_deletes_old_index() {
    let mut run = Reindex::new(opts(1000, 100, false)).unwrap();
    let req = run.on_alias_lookup(Some(vec!["articles_1".to_string()])).unwrap();
    assert_eq!(req.index, "articles_2");
    assert_eq!(run.prev_version, Some(IndexVersion(1)));
    assert_eq!(run.new_version, IndexVersion(2));
    run.on_index_created();
    load(&mut run, 10);
    let actions = run.on_loading_done();
    assert_eq!(actions.len(), 2);
    assert_eq!(remove_target(&actions[0]), Some("articles_1"));
    assert_eq!(add_target(&actions[1]), Some("articles_2"));
    assert_eq!(run.on_alias_swapped(), Some("articles_1".to_string()));
    assert_eq!(run.phase, Phase::DeleteOldIndex);
    run.on_old_index_deleted();
    assert_eq!(run.phase, Phase::Done);
    assert_eq!(run.stats().new_index_name, "articles_2");
}

#[test]
fn old_index_is_kept_when_asked() {
    let mut run = Reindex::new(opts(1000, 100, true)).unwrap();
    run.on_alias_lookup(Some(vec!["articles_7".to_string()])).unwrap();
    run.on_index_created();
    run.on_loading_done();
    assert_eq!(run.on_alias_swapped(), None);
    assert_eq!(run.phase, Phase::Done);
    assert_eq!(run.stats().new_index_name, "articles_8");
}

#[test]
fn alias_on_two_indices_is_an_invariant_violation() {
    let mut run = Reindex::new(opts(10, 10, false)).unwrap();
    let r = run.on_alias_lookup(Some(vec!["articles_1".to_string(), "articles_2".to_string()]));
    assert!(matches!(r, Err(RunError::AliasInvariant { n_indices: 2 })));
    assert_eq!(run.phase, Phase::Failed);
}

#[test]
fn alias_on_unversioned_index_is_rejected() {
    let mut run = Reindex::new(opts(10, 10, false)).unwrap();
    match run.on_alias_lookup(Some(vec!["articles".to_string()])) {
        Err(RunError::InvalidIndexName { name }) => assert_eq!(name, "articles"),
        other => panic!("unexpected {:?}", other),
    }
}

#[test]
fn largest_version_cannot_be_followed() {
    let mut run = Reindex::new(opts(10, 10, false)).unwrap();
    let r = run.on_alias_lookup(Some(vec!["articles_4294967295".to_string()]));
    assert!(matches!(r, Err(RunError::VersionOverflow)));
}

#[test]
fn bad_configuration_is_rejected() {
    let mut o = opts(10, 10, false);
    o.n_shards = 0;
    assert!(matches!(Reindex::new(o), Err(ConfigError::ZeroShards)));
    assert_eq!(o.validate(), Err(ConfigError::ZeroShards));
    let mut o = opts(10, 0, false);
    assert!(matches!(Reindex::new(o), Err(ConfigError::ZeroBatch)));
    o.ingest_batch = 3;
    assert_eq!(o.validate(), Ok(()));
}

#[test]
fn failed_bulk_write_stops_the_run_in_its_phase() {
    let mut run = Reindex::new(opts(10, 10, false)).unwrap();
    run.on_alias_lookup(Some(vec!["articles_3".to_string()])).unwrap();
    run.on_index_created();
    match run.fail("bulk rejected".to_string()) {
        RunError::Store { phase, message } => {
            assert_eq!(phase, Phase::LoadBatches);
            assert_eq!(message, "bulk rejected");
        }
        other => panic!("unexpected {:?}", other),
    }
    assert_eq!(run.phase, Phase::Failed);
}

#[test]
fn bulk_request_targets_new_index() {
    let mut run = Reindex::new(opts(10, 10, false)).unwrap();
    run.on_alias_lookup(None).unwrap();
    run.on_index_created();
    let docs = vec!["{\"a\":1}".to_string(), "{\"b\":2}".to_string()];
    let req = run.bulk_request(&docs).unwrap();
    assert_eq!(req.index, "articles_1");
    assert!(req.wait_for_refresh);
    assert_eq!(
        req.lines,
        vec![BULK_INDEX_HEADER, "{\"a\":1}", BULK_INDEX_HEADER, "{\"b\":2}"]
    );
}

#[test]
fn create_request_declares_article_fields() {
    let mut o = opts(10, 10, false);
    o.n_shards = 3;
    o.n_replicas = 2;
    let mut run = Reindex::new(o).unwrap();
    let req = run.on_alias_lookup(None).unwrap();
    assert_eq!(req.definition.number_of_shards, 3);
    assert_eq!(req.definition.number_of_replicas, 2);
    let f = &req.definition.fields;
    assert_eq!(f.len(), 8);
    assert_eq!(f[0].name, "category");
    assert_eq!(f[0].kind, FieldKind::Keyword);
    assert_eq!(f[4].name, "short_description");
    assert_eq!(f[4].kind, FieldKind::Text);
    assert_eq!(f[6].name, "sentiment_score");
    assert!(!f[6].indexed);
    assert_eq!(f[7].name, "sentiment_polarity");
}

#[test]
fn next_run_only_after_success_with_interval() {
    let mut o = opts(10, 10, false);
    assert_eq!(o.next_run_delay(true), None);
    o.scrape_interval = Some(500);
    assert_eq!(o.next_run_delay(true), Some(500));
    assert_eq!(o.next_run_delay(false), None);
}

fn raw(description: Option<&str>) -> NewsApiArticle {
    NewsApiArticle {
        source_id: None,
        source_name: "Wired".to_string(),
        author: Some("A. Writer".to_string()),
        title: Some("Title".to_string()),
        description: description.map(str::to_string),
        url: "https://example.org/a".to_string(),
        url_to_image: Some("https://example.org/a.png".to_string()),
        published_at: "2020-05-01T00:00:00Z".to_string(),
        content: Some("Body".to_string()),
    }
}

#[test]
fn record_without_description_is_processed_but_not_indexed() {
    let page = vec![raw(Some("kept")), raw(None)];
    let processed = page.len() as u64;
    let docs: Vec<Article> = page.into_iter().filter_map(Article::from_news_api).collect();
    assert_eq!(docs.len(), 1);
    assert_eq!(docs[0].description, "kept");
    assert_eq!(docs[0].source_id, "");
    assert_eq!(docs[0].title, "Title");

    let mut run = Reindex::new(opts(100, 100, false)).unwrap();
    run.on_alias_lookup(None).unwrap();
    run.on_index_created();
    run.on_batch_done(processed, docs.len() as u64);
    run.on_loading_done();
    run.on_alias_swapped();
    let stats = run.stats();
    assert_eq!(stats.total_processed, 2);
    assert_eq!(stats.total_indexed, 1);
}

#[test]
fn record_missing_any_required_field_is_dropped() {
    let mut r = raw(Some("d"));
    r.author = None;
    assert!(Article::from_news_api(r).is_none());
    let mut r = raw(Some("d"));
    r.url_to_image = None;
    assert!(Article::from_news_api(r).is_none());
    let mut r = raw(Some("d"));
    r.content = None;
    assert!(Article::from_news_api(r).is_none());
    let mut r = raw(Some("d"));
    r.title = None;
    assert_eq!(Article::from_news_api(r).unwrap().title, "");
}
