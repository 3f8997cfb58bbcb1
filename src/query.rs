//! The query layer: what is asked of the store through the alias, and how
//! its answers become results.

use vstd::prelude::*;
use crate::text::NonHollowString;

verus! {

/// Name of the field whose terms count sentiment labels.
pub const SENTIMENT_FIELD: &'static str = "sentiment_polarity";

/// Name of the field whose terms count categories.
pub const CATEGORY_FIELD: &'static str = "category";

/// Free-text fields searched when no field is named, the headline weighted
/// twice.
pub const HEADLINE_FIELD: &'static str = "headline^2";
pub const AUTHORS_FIELD: &'static str = "authors";
pub const DESCRIPTION_FIELD: &'static str = "short_description";

/// Label that enrichment gives an article.
#[derive(Debug, Clone, Copy, PartialEq, Eq, Structural)]
pub enum SentimentPolarity {
    Positive,
    Negative,
}

/// A query of the store's query language.
#[derive(Debug)]
pub enum Query {
    /// Text matched against several fields at once.
    MultiMatch { query: String, fields: Vec<String> },
    /// Text matched against one field.
    Match { field: String, query: String },
    MatchAll,
}

pub open spec fn is_match(q: Query, field: Seq<char>, text: Seq<char>) -> bool {
    q matches Query::Match { field: f, query: t } && f@ == field && t@ == text
}

/// Request for the terms of `aggr_field` over the documents that `query`
/// matches, with their counts; no hits returned.
#[derive(Debug)]
pub struct TermsStatsRequest {
    pub query: Query,
    pub aggr_field: String,
}

/// Request for the terms of `field` that are over-represented among the
/// documents that `query` matches, at most `size` of them; no hits returned.
#[derive(Debug)]
pub struct SignificantWordsRequest {
    pub query: Query,
    pub field: String,
    pub size: u32,
}

/// A document with its id in the store.
#[derive(Debug)]
pub struct WithId<T> {
    pub id: String,
    pub doc: T,
}

/// Term counts: each term with the number of documents that hold it.
#[derive(Debug)]
pub struct Stats(pub Vec<(String, u64)>);

#[derive(Debug)]
pub struct Doc<Entity> {
    pub _id: String,
    pub _source: Entity,
}

#[derive(Debug)]
pub struct SearchHits<Entity> {
    pub hits: Vec<Doc<Entity>>,
}

/// Answer to a search.
#[derive(Debug)]
pub struct SearchResponse<Entity> {
    pub hits: SearchHits<Entity>,
}

/// Answer to a search that asked for aggregations only.
#[derive(Debug)]
pub struct AggrsResponse<Aggrs> {
    pub aggregations: Aggrs,
}

#[derive(Debug)]
pub struct TermsAggrBucket {
    pub key: String,
    pub doc_count: u64,
}

/// Result of a terms aggregation.
#[derive(Debug)]
pub struct TermsAggr {
    pub doc_count_error_upper_bound: u64,
    pub sum_other_doc_count: u64,
    pub buckets: Vec<TermsAggrBucket>,
}

fn text_match(field: &str, text: &NonHollowString) -> (r: Query)
    ensures
        is_match(r, field@, text@),
{
    Query::Match { field: String::from_str(field), query: String::from_str(text.as_str()) }
}

/// The query of a full-text search: with no field named, the free-text
/// fields together, the headline weighted higher; else that field alone.
pub fn fulltext_query(text: &NonHollowString, field_name: Option<&str>) -> (r: Query)
    ensures
        match field_name {
            Some(f) => is_match(r, f@, text@),
            None => r matches Query::MultiMatch { query, fields } && {
                &&& query@ == text@
                &&& fields@.len() == 3
                &&& fields@[0]@ == HEADLINE_FIELD@
                &&& fields@[1]@ == AUTHORS_FIELD@
                &&& fields@[2]@ == DESCRIPTION_FIELD@
            },
        },
{
    match field_name {
        Some(f) => text_match(f, text),
        None => {
            let mut fields: Vec<String> = Vec::new();
            fields.push(String::from_str(HEADLINE_FIELD));
            fields.push(String::from_str(AUTHORS_FIELD));
            fields.push(String::from_str(DESCRIPTION_FIELD));
            Query::MultiMatch { query: String::from_str(text.as_str()), fields }
        },
    }
}

/// Request for the term counts of `aggr_field`, over the documents whose
/// `field_name` matches `query`, or over all documents when there is no query.
pub fn terms_stats_request(query: &Option<NonHollowString>, field_name: &str, aggr_field: &str) -> (r: TermsStatsRequest)
    ensures
        r.aggr_field@ == aggr_field@,
        match query {
            Some(q) => is_match(r.query, field_name@, q@),
            None => r.query is MatchAll,
        },
{
    let q = match query {
        Some(text) => text_match(field_name, text),
        None => Query::MatchAll,
    };
    TermsStatsRequest { query: q, aggr_field: String::from_str(aggr_field) }
}

/// Term counts of sentiment labels.
pub fn sentiment_stats_request(query: &Option<NonHollowString>, field_name: &str) -> (r: TermsStatsRequest)
    ensures
        r.aggr_field@ == SENTIMENT_FIELD@,
        match query {
            Some(q) => is_match(r.query, field_name@, q@),
            None => r.query is MatchAll,
        },
{
    terms_stats_request(query, field_name, SENTIMENT_FIELD)
}

/// Term counts of categories.
pub fn category_stats_request(query: &Option<NonHollowString>, field_name: &str) -> (r: TermsStatsRequest)
    ensures
        r.aggr_field@ == CATEGORY_FIELD@,
        match query {
            Some(q) => is_match(r.query, field_name@, q@),
            None => r.query is MatchAll,
        },
{
    terms_stats_request(query, field_name, CATEGORY_FIELD)
}

/// Request for the significant words of `field_name` among the documents
/// where that field matches `query`.
pub fn significant_words_request(query: &NonHollowString, field_name: &str, max_words: u32) -> (r: SignificantWordsRequest)
    ensures
        is_match(r.query, field_name@, query@),
        r.field@ == field_name@,
        r.size == max_words,
{
    SignificantWordsRequest {
        query: text_match(field_name, query),
        field: String::from_str(field_name),
        size: max_words,
    }
}

/// Term counts from the buckets of a terms aggregation, in bucket order.
pub fn stats_from_terms(aggr: TermsAggr) -> (r: Stats)
    ensures
        r.0@.len() == aggr.buckets@.len(),
        forall|i: int| 0 <= i < aggr.buckets@.len() ==> {
            &&& (#[trigger] r.0@[i]).0 == aggr.buckets@[i].key
            &&& r.0@[i].1 == aggr.buckets@[i].doc_count
        },
{
    let ghost buckets = aggr.buckets@;
    let mut rest = aggr.buckets;
    let mut out: Vec<(String, u64)> = Vec::new();
    while rest.len() > 0
        invariant
            out@.len() + rest@.len() == buckets.len(),
            rest@ == buckets.skip(out@.len() as int),
            forall|i: int| 0 <= i < out@.len() ==> {
                &&& (#[trigger] out@[i]).0 == buckets[i].key
                &&& out@[i].1 == buckets[i].doc_count
            },
        decreases rest@.len(),
    {
        let b = rest.remove(0);
        let ghost k = out@.len() as int;
        assert(b == buckets[k]);
        out.push((b.key, b.doc_count));
        assert(rest@ =~= buckets.skip(out@.len() as int));
    }
    Stats(out)
}

/// Search hits as documents with their ids, in hit order.
pub fn hits_with_ids<T>(response: SearchResponse<T>) -> (r: Vec<WithId<T>>)
    ensures
        r@.len() == response.hits.hits@.len(),
        forall|i: int| 0 <= i < r@.len() ==> {
            &&& (#[trigger] r@[i]).id == response.hits.hits@[i]._id
            &&& r@[i].doc == response.hits.hits@[i]._source
        },
{
    let ghost hits = response.hits.hits@;
    let mut rest = response.hits.hits;
    let mut out: Vec<WithId<T>> = Vec::new();
    while rest.len() > 0
        invariant
            out@.len() + rest@.len() == hits.len(),
            rest@ == hits.skip(out@.len() as int),
            forall|i: int| 0 <= i < out@.len() ==> {
                &&& (#[trigger] out@[i]).id == hits[i]._id
                &&& out@[i].doc == hits[i]._source
            },
        decreases rest@.len(),
    {
        let d = rest.remove(0);
        let ghost k = out@.len() as int;
        assert(d == hits[k]);
        out.push(WithId { id: d._id, doc: d._source });
        assert(rest@ =~= hits.skip(out@.len() as int));
    }
    out
}

} // verus!
