//! Articles of the news API, and which of them are fit to index.

use vstd::prelude::*;

verus! {

/// An article as the news API lists it: several fields may be missing.
#[derive(Debug)]
pub struct NewsApiArticle {
    pub source_id: Option<String>,
    pub source_name: String,
    pub author: Option<String>,
    pub title: Option<String>,
    pub description: Option<String>,
    pub url: String,
    pub url_to_image: Option<String>,
    pub published_at: String,
    pub content: Option<String>,
}

/// An article document from the news API, as stored.
#[derive(Debug)]
pub struct Article {
    pub source_id: String,
    pub source_name: String,
    pub author: String,
    pub title: String,
    pub description: String,
    pub url: String,
    pub url_to_image: String,
    pub published_at: String,
    pub content: String,
}

/// Author, description, image link and content are required.
pub open spec fn is_complete(raw: NewsApiArticle) -> bool {
    raw.author is Some && raw.description is Some && raw.url_to_image is Some && raw.content is Some
}

pub open spec fn text_or_empty(s: Option<String>) -> Seq<char> {
    match s {
        Some(t) => t@,
        None => Seq::empty(),
    }
}

/// The stored document carries each field of the listed article, an absent
/// source id or title as empty text.
pub open spec fn document_of(raw: NewsApiArticle, doc: Article) -> bool {
    &&& doc.source_id@ == text_or_empty(raw.source_id)
    &&& doc.source_name@ == raw.source_name@
    &&& doc.author@ == text_or_empty(raw.author)
    &&& doc.title@ == text_or_empty(raw.title)
    &&& doc.description@ == text_or_empty(raw.description)
    &&& doc.url@ == raw.url@
    &&& doc.url_to_image@ == text_or_empty(raw.url_to_image)
    &&& doc.published_at@ == raw.published_at@
    &&& doc.content@ == text_or_empty(raw.content)
}

fn or_empty(s: Option<String>) -> (r: String)
    ensures
        r@ == text_or_empty(s),
{
    match s {
        Some(t) => t,
        None => String::new(),
    }
}

impl Article {
    /// The document for a listed article, or `None` when a required field
    /// is missing: such an article is processed but not indexed.
    pub fn from_news_api(raw: NewsApiArticle) -> (r: Option<Article>)
        ensures
            r is Some <==> is_complete(raw),
            r matches Some(doc) ==> document_of(raw, doc),
    {
        let ghost raw0 = raw;
        let NewsApiArticle {
            source_id, source_name, author, title, description, url, url_to_image, published_at, content,
        } = raw;
        match (author, description, url_to_image, content) {
            (Some(author), Some(description), Some(url_to_image), Some(content)) => {
                let doc = Article {
                    source_id: or_empty(source_id),
                    source_name,
                    author,
                    title: or_empty(title),
                    description,
                    url,
                    url_to_image,
                    published_at,
                    content,
                };
                assert(document_of(raw0, doc));
                Some(doc)
            },
            _ => None,
        }
    }
}

} // verus!
