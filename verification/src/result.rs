use vstd::prelude::*;

verus! {

/// The pagination object of a paged response: an opaque cursor, fed back
/// verbatim into the next request's `after` parameter. No meaning is
/// assigned to its contents.
#[derive(Debug, Clone, PartialEq, Eq)]
pub struct Pagination {
    pub cursor: Option<String>,
}

/// One page of a paged result set: its items in order, and the cursor under
/// which the next page can be requested, where one remains.
#[derive(Debug)]
pub struct PageResult<T> {
    pub data: Vec<T>,
    pub cursor: Option<String>,
}

/// The mathematical shape of a page: its items and its cursor's characters.
pub ghost struct PageModel<T> {
    pub data: Seq<T>,
    pub cursor: Option<Seq<char>>,
}

impl<T> View for PageResult<T> {
    type V = PageModel<T>;

    open spec fn view(&self) -> PageModel<T> {
        PageModel { data: self.data@, cursor: self.cursor.deep_view() }
    }
}

impl<T> PageResult<T> {
    /// Reads a response's parts into a page: the next cursor is the one the
    /// response's pagination object carries, where both are present.
    pub fn from_parts(data: Vec<T>, pagination: Option<Pagination>) -> (p: PageResult<T>)
        ensures
            p@.data == data@,
            p@.cursor == (match pagination {
                Some(inner) => inner.cursor.deep_view(),
                None => None::<Seq<char>>,
            }),
    {
        let cursor = match pagination {
            Some(inner) => inner.cursor,
            None => None,
        };
        PageResult { data, cursor }
    }
}

} // verus!
