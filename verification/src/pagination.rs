//! Cursor pagination: a page of items and the cursor of the next page.

use vstd::prelude::*;
use crate::json::JsonValue;

verus! {

/// An item of a paginated listing, which names the cursor for the next page.
pub trait CursorPageItem {
    /// The item's server-side id.
    spec fn spec_id(&self) -> Option<Seq<char>>;

    /// The item's server-side id.
    fn id(&self) -> (r: Option<&str>)
        ensures
            match r {
                Some(s) => self.spec_id() == Some(s@),
                None => self.spec_id() is None,
            },
    ;
}

/// A page of a cursor-paginated listing.
#[derive(Debug)]
pub struct CursorPage<T> {
    /// The object type (usually `list`).
    pub object: Option<String>,
    /// The items of this page.
    pub data: Vec<T>,
    /// Whether the server says more items follow; `None` when it did not say.
    pub has_more: Option<bool>,
    /// Members of the API's answer that have no field here.
    pub extra: Vec<(String, JsonValue)>,
}

impl<T> CursorPage<T> {
    /// The items of this page.
    pub fn items(&self) -> (r: &[T])
        ensures
            r@ == self.data@,
    {
        self.data.as_slice()
    }

    /// Consumes the page, returning its items.
    pub fn into_items(self) -> (r: Vec<T>)
        ensures
            r == self.data,
    {
        self.data
    }
}

impl<T: CursorPageItem> CursorPage<T> {
    /// The cursor of the next page: the id of the last item.
    pub open spec fn spec_next_after(&self) -> Option<Seq<char>> {
        if self.data@.len() == 0 {
            None
        } else {
            self.data@.last().spec_id()
        }
    }

    /// Whether a next page exists: the server did not deny it and the last
    /// item has an id.
    pub open spec fn spec_has_next_page(&self) -> bool {
        self.has_more != Some(false) && self.spec_next_after() is Some
    }

    /// Whether there is a page after this one.
    pub fn has_next_page(&self) -> (r: bool)
        ensures
            r == self.spec_has_next_page(),
    {
        if self.has_more == Some(false) {
            return false;
        }
        self.next_after().is_some()
    }

    /// The cursor of the next page (the last item's id).
    pub fn next_after(&self) -> (r: Option<&str>)
        ensures
            match r {
                Some(s) => self.spec_next_after() == Some(s@),
                None => self.spec_next_after() is None,
            },
    {
        if self.data.len() == 0 {
            return None;
        }
        self.data[self.data.len() - 1].id()
    }
}

/// Only the server's explicit `has_more: false`, an empty page, or a last
/// item without an id ends a listing: when the server says `has_more: true`
/// or says nothing, a page whose last item has an id has a next page, whose
/// cursor is that id.
pub proof fn law_next_page_unless_denied<T: CursorPageItem>(page: CursorPage<T>)
    ensures
        page.has_more == Some(false) ==> !page.spec_has_next_page(),
        page.data@.len() == 0 ==> !page.spec_has_next_page(),
        page.data@.len() > 0 && page.data@[page.data@.len() - 1].spec_id() is None ==> !page.spec_has_next_page(),
        page.has_more != Some(false) && page.data@.len() > 0 && page.data@[page.data@.len() - 1].spec_id() is Some
            ==> page.spec_has_next_page() && page.spec_next_after() == page.data@[page.data@.len()
            - 1].spec_id(),
{
}

} // verus!
