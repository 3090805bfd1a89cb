use vstd::prelude::*;

verus! {

/// Forward paging of a request: the cursor after which the next page is
/// asked for.
#[derive(Debug, Clone, PartialEq, Eq)]
pub struct ForwardPagination {
    pub after: Option<String>,
}

/// Backward paging of a request: the cursor before which the page is asked
/// for.
#[derive(Debug, Clone, PartialEq, Eq)]
pub struct BackwardPagination {
    pub before: Option<String>,
}

/// A request's paging: forward or backward, at most one of the two.
#[derive(Debug, Clone, PartialEq, Eq)]
pub struct RequestPagination {
    pub forward: Option<ForwardPagination>,
    pub backward: Option<BackwardPagination>,
}

/// The query of a clips lookup. Exactly one of `broadcaster_id`, `game_id`
/// and `ids` is meant to be set: setting one clears the other two.
#[derive(Debug, Clone, PartialEq, Eq)]
pub struct GetClipsRequest {
    pub broadcaster_id: Option<String>,
    pub game_id: Option<String>,
    pub ids: Option<Vec<String>>,
    pub first: Option<u8>,
    pub started_at: Option<String>,
    pub ended_at: Option<String>,
    pub pagination: RequestPagination,
}

impl GetClipsRequest {
    /// An empty request: nothing asked for yet.
    pub fn new() -> (r: GetClipsRequest)
        ensures
            r.broadcaster_id is None,
            r.game_id is None,
            r.ids is None,
            r.first is None,
            r.started_at is None,
            r.ended_at is None,
            r.pagination.forward is None,
            r.pagination.backward is None,
    {
        GetClipsRequest {
            broadcaster_id: None,
            game_id: None,
            ids: None,
            first: None,
            started_at: None,
            ended_at: None,
            pagination: RequestPagination { forward: None, backward: None },
        }
    }

    pub fn with_broadcaster_id(self, broadcaster_id: String) -> (r: GetClipsRequest)
        ensures
            r.broadcaster_id == Some(broadcaster_id),
            r.game_id is None,
            r.ids is None,
            r.first == self.first,
            r.started_at == self.started_at,
            r.ended_at == self.ended_at,
            r.pagination == self.pagination,
    {
        GetClipsRequest {
            broadcaster_id: Some(broadcaster_id),
            game_id: None,
            ids: None,
            ..self
        }
    }

    pub fn with_game_id(self, game_id: String) -> (r: GetClipsRequest)
        ensures
            r.broadcaster_id is None,
            r.game_id == Some(game_id),
            r.ids is None,
            r.first == self.first,
            r.started_at == self.started_at,
            r.ended_at == self.ended_at,
            r.pagination == self.pagination,
    {
        GetClipsRequest { broadcaster_id: None, game_id: Some(game_id), ids: None, ..self }
    }

    pub fn with_ids(self, id: Vec<String>) -> (r: GetClipsRequest)
        ensures
            r.broadcaster_id is None,
            r.game_id is None,
            r.ids == Some(id),
            r.first == self.first,
            r.started_at == self.started_at,
            r.ended_at == self.ended_at,
            r.pagination == self.pagination,
    {
        GetClipsRequest { broadcaster_id: None, game_id: None, ids: Some(id), ..self }
    }

    pub fn with_first(self, first: Option<u8>) -> (r: GetClipsRequest)
        ensures
            r.first == first,
            r == (GetClipsRequest { first, ..self }),
    {
        GetClipsRequest { first, ..self }
    }

    pub fn with_started_at(self, started_at: Option<String>) -> (r: GetClipsRequest)
        ensures
            r.started_at == started_at,
            r == (GetClipsRequest { started_at, ..self }),
    {
        GetClipsRequest { started_at, ..self }
    }

    pub fn with_ended_at(self, ended_at: Option<String>) -> (r: GetClipsRequest)
        ensures
            r.ended_at == ended_at,
            r == (GetClipsRequest { ended_at, ..self }),
    {
        GetClipsRequest { ended_at, ..self }
    }

    /// Pages forward from `after`; any backward paging is cleared.
    pub fn with_after(self, after: Option<String>) -> (r: GetClipsRequest)
        ensures
            r.pagination.forward matches Some(f) && f.after == after,
            r.pagination.backward is None,
            r.broadcaster_id == self.broadcaster_id,
            r.game_id == self.game_id,
            r.ids == self.ids,
            r.first == self.first,
            r.started_at == self.started_at,
            r.ended_at == self.ended_at,
    {
        GetClipsRequest {
            pagination: RequestPagination {
                forward: Some(ForwardPagination { after }),
                backward: None,
            },
            ..self
        }
    }

    /// Pages backward from `before`; any forward paging is cleared.
    pub fn with_before(self, before: Option<String>) -> (r: GetClipsRequest)
        ensures
            r.pagination.forward is None,
            r.pagination.backward matches Some(b) && b.before == before,
            r.broadcaster_id == self.broadcaster_id,
            r.game_id == self.game_id,
            r.ids == self.ids,
            r.first == self.first,
            r.started_at == self.started_at,
            r.ended_at == self.ended_at,
    {
        GetClipsRequest {
            pagination: RequestPagination {
                forward: None,
                backward: Some(BackwardPagination { before }),
            },
            ..self
        }
    }
}

/// One clip of a clips lookup's response.
#[derive(Debug, Clone, PartialEq, Eq)]
pub struct GetClipsResponse {
    pub broadcaster_id: String,
    pub broadcaster_name: String,
    pub created_at: String,
    pub creator_id: String,
    pub creator_name: String,
    pub embed_url: String,
    pub game_id: String,
    pub id: String,
    pub language: String,
    pub thumbnail_url: String,
    pub title: String,
    pub url: String,
    pub video_id: String,
    pub view_count: u64,
}

} // verus!
