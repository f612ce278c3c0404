//! The walk over the pages of a collection, one response at a time.

use crate::error::AppError;
use crate::header::{next_link, outcome, HeaderValue, Outcome};
use vstd::prelude::*;

verus! {

/// A collection under way: the items of the pages received so far, in page
/// order, and the URL of the page to fetch next.
///
/// The caller fetches `pending` and hands what came of it to `receive`,
/// which takes the collection and gives it back only where the page was
/// good; so a collection is all of its pages or an error, never a part. No
/// page count is kept and no URL is remembered: a server whose links run in
/// a circle is followed for ever.
pub struct Pagination<T> {
    items: Vec<T>,
    pending: Option<String>,
}

impl<T> Pagination<T> {
    /// The items collected so far.
    pub closed spec fn items(&self) -> Seq<T> {
        self.items@
    }

    /// The URL of the page to fetch next, if any.
    pub closed spec fn pending(&self) -> Option<Seq<char>> {
        match self.pending {
            Some(url) => Some(url@),
            None => None,
        }
    }

    /// A collection whose first page is at `url`.
    pub fn new(url: String) -> (start: Self)
        ensures
            start.items() == Seq::<T>::empty(),
            start.pending() == Some(url@),
    {
        Pagination { items: Vec::new(), pending: Some(url) }
    }

    /// The URL of the page to fetch next; `None` once the last page is in.
    pub fn next_url(&self) -> (url: Option<String>)
        ensures
            url is Some <==> self.pending() is Some,
            url is Some ==> self.pending() == Some(url->Some_0@),
    {
        match &self.pending {
            Some(url) => Some(url.clone()),
            None => None,
        }
    }

    /// Takes the page that was pending: the `Link` header of its response,
    /// and the items of its body or the error that came of reading them.
    ///
    /// A header that cannot be read fails the collection, whatever the body
    /// held; next, so does a body that could not be read. Else the items
    /// are appended in their order, and what the header names as the next
    /// page is pending; where it names none, or the response has no such
    /// header, nothing is.
    pub fn receive(self, header: Option<&HeaderValue>, page: Result<Vec<T>, AppError>) -> (received:
        Result<Pagination<T>, AppError>)
        ensures
            match outcome(
                match header {
                    Some(value) => Some(value@),
                    None => None,
                },
            ) {
                Outcome::NotText => received matches Err(AppError::ReqwestHeaderToStr(_)),
                Outcome::NotLinks => received matches Err(AppError::Hyper(_)),
                Outcome::NotUrl => received matches Err(AppError::UrlParse(_)),
                Outcome::Last => match page {
                    Err(error) => received matches Err(e) && e == error,
                    Ok(items) => {
                        &&& received matches Ok(next)
                        &&& next.items() == self.items() + items@
                        &&& next.pending() is None
                    },
                },
                Outcome::Next(url) => match page {
                    Err(error) => received matches Err(e) && e == error,
                    Ok(items) => {
                        &&& received matches Ok(next)
                        &&& next.items() == self.items() + items@
                        &&& next.pending() == Some(url)
                    },
                },
            },
    {
        let next = match next_link(header) {
            Ok(next) => next,
            Err(error) => { return Err(error); },
        };
        let mut items = match page {
            Ok(items) => items,
            Err(error) => { return Err(error); },
        };
        let mut collected = self.items;
        collected.append(&mut items);
        Ok(Pagination { items: collected, pending: next })
    }

    /// The items of all pages, in page order, once the last page is in.
    pub fn finish(self) -> (items: Vec<T>)
        requires
            self.pending() is None,
        ensures
            items@ == self.items(),
    {
        self.items
    }
}

} // verus!
