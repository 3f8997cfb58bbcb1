//! Blue-green reindexing of news articles into a search store: versioned
//! index naming, pagination of the news source, the batched loader and the
//! alias lifecycle, and the requests and results of the query layer.

pub mod decimal;
pub mod index_version;
pub mod alias;
pub mod batching;
pub mod mapping;
pub mod reindex;
pub mod text;
pub mod pagination;
pub mod article;
pub mod query;
