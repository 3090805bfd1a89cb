use vstd::prelude::*;

use crate::clips::ForwardPagination;

verus! {

/// The query of a category search.
#[derive(Debug, Clone, PartialEq, Eq)]
pub struct CategorySearchRequest {
    pub query: String,
    pub first: Option<u8>,
    pub pagination: ForwardPagination,
}

impl CategorySearchRequest {
    /// An empty search: no query text, no paging.
    pub fn new() -> (r: CategorySearchRequest)
        ensures
            r.query@.len() == 0,
            r.first is None,
            r.pagination.after is None,
    {
        CategorySearchRequest {
            query: String::new(),
            first: None,
            pagination: ForwardPagination { after: None },
        }
    }

    pub fn with_query(self, query: String) -> (r: CategorySearchRequest)
        ensures
            r.query == query,
            r.first == self.first,
            r.pagination == self.pagination,
    {
        CategorySearchRequest { query, ..self }
    }

    pub fn with_first(self, first: Option<u8>) -> (r: CategorySearchRequest)
        ensures
            r.first == first,
            r.query == self.query,
            r.pagination == self.pagination,
    {
        CategorySearchRequest { first, ..self }
    }

    pub fn with_after(self, after: Option<String>) -> (r: CategorySearchRequest)
        ensures
            r.pagination.after == after,
            r.query == self.query,
            r.first == self.first,
    {
        CategorySearchRequest { pagination: ForwardPagination { after }, ..self }
    }
}

/// One category of a category search's response.
#[derive(Debug, Clone, PartialEq, Eq)]
pub struct CategoryResponse {
    pub box_art_url: String,
    pub name: String,
    pub id: String,
}

/// The query of a channel search.
#[derive(Debug, Clone, PartialEq, Eq)]
pub struct ChannelSearchRequest {
    pub query: String,
    pub first: Option<u8>,
    pub pagination: ForwardPagination,
}

impl ChannelSearchRequest {
    /// An empty search: no query text, no paging.
    pub fn new() -> (r: ChannelSearchRequest)
        ensures
            r.query@.len() == 0,
            r.first is None,
            r.pagination.after is None,
    {
        ChannelSearchRequest {
            query: String::new(),
            first: None,
            pagination: ForwardPagination { after: None },
        }
    }

    pub fn with_query(self, query: String) -> (r: ChannelSearchRequest)
        ensures
            r.query == query,
            r.first == self.first,
            r.pagination == self.pagination,
    {
        ChannelSearchRequest { query, ..self }
    }

    pub fn with_first(self, first: Option<u8>) -> (r: ChannelSearchRequest)
        ensures
            r.first == first,
            r.query == self.query,
            r.pagination == self.pagination,
    {
        ChannelSearchRequest { first, ..self }
    }

    pub fn with_after(self, after: Option<String>) -> (r: ChannelSearchRequest)
        ensures
            r.pagination.after == after,
            r.query == self.query,
            r.first == self.first,
    {
        ChannelSearchRequest { pagination: ForwardPagination { after }, ..self }
    }
}

/// One channel of a channel search's response.
#[derive(Debug, Clone, PartialEq, Eq)]
pub struct ChannelResponse {
    pub game_id: String,
    pub id: String,
    pub display_name: String,
    pub broadcaster_language: String,
    pub title: String,
    pub thumbnail_url: String,
    pub is_live: bool,
    pub started_at: String,
    pub tag_ids: Vec<String>,
}

} // verus!
