//! Settings and field mappings of an article index.

use vstd::prelude::*;

verus! {

/// How the store treats a field.
#[derive(Debug, Clone, Copy, PartialEq, Eq, Structural)]
pub enum FieldKind {
    /// Matched as a whole: categories, links, labels.
    Keyword,
    /// Split into terms for full-text search.
    Text,
    Date,
    Float,
}

#[derive(Debug)]
pub struct FieldMapping {
    pub name: String,
    pub kind: FieldKind,
    /// Whether the field can be searched on.
    pub indexed: bool,
}

/// What an index is created with.
#[derive(Debug)]
pub struct IndexDefinition {
    pub number_of_shards: u32,
    pub number_of_replicas: u32,
    pub fields: Vec<FieldMapping>,
}

pub open spec fn field_is(f: FieldMapping, name: Seq<char>, kind: FieldKind, indexed: bool) -> bool {
    f.name@ == name && f.kind == kind && f.indexed == indexed
}

/// The fields of an article document: categorical ones exact-match, free
/// text tokenized, the sentiment score stored but not searchable.
pub open spec fn article_fields(fields: Seq<FieldMapping>) -> bool {
    &&& fields.len() == 8
    &&& field_is(fields[0], "category"@, FieldKind::Keyword, true)
    &&& field_is(fields[1], "headline"@, FieldKind::Text, true)
    &&& field_is(fields[2], "authors"@, FieldKind::Text, true)
    &&& field_is(fields[3], "link"@, FieldKind::Keyword, true)
    &&& field_is(fields[4], "short_description"@, FieldKind::Text, true)
    &&& field_is(fields[5], "date"@, FieldKind::Date, true)
    &&& field_is(fields[6], "sentiment_score"@, FieldKind::Float, false)
    &&& field_is(fields[7], "sentiment_polarity"@, FieldKind::Keyword, true)
}

fn field(name: &str, kind: FieldKind, indexed: bool) -> (r: FieldMapping)
    ensures
        field_is(r, name@, kind, indexed),
{
    FieldMapping { name: String::from_str(name), kind, indexed }
}

/// Definition of an article index with the given shard and replica counts.
pub fn article_index_definition(number_of_shards: u32, number_of_replicas: u32) -> (r: IndexDefinition)
    ensures
        r.number_of_shards == number_of_shards,
        r.number_of_replicas == number_of_replicas,
        article_fields(r.fields@),
{
    let mut fields: Vec<FieldMapping> = Vec::new();
    fields.push(field("category", FieldKind::Keyword, true));
    fields.push(field("headline", FieldKind::Text, true));
    fields.push(field("authors", FieldKind::Text, true));
    fields.push(field("link", FieldKind::Keyword, true));
    fields.push(field("short_description", FieldKind::Text, true));
    fields.push(field("date", FieldKind::Date, true));
    fields.push(field("sentiment_score", FieldKind::Float, false));
    fields.push(field("sentiment_polarity", FieldKind::Keyword, true));
    IndexDefinition { number_of_shards, number_of_replicas, fields }
}

} // verus!
