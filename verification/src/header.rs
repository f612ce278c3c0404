//! Header values, and the `Link` header that leads from one page to the next.

use crate::endpoint::{parse_url, url_text};
use crate::error::AppError;
use vstd::prelude::*;

verus! {

/// What a link value says of its target: that it is the next page, or
/// anything else.
#[derive(Clone, Copy, Debug, PartialEq, Eq, Structural)]
pub enum Relation {
    Next,
    Other,
}

/// The link values that `hyper::header::Link` parses out of `text`, in their
/// order: of each its target and, where it has a `rel` parameter, the
/// relation types of that parameter. `None` where `text` is no `Link` header.
pub uninterp spec fn link_values(text: Seq<char>) -> Option<Seq<(Seq<char>, Option<Seq<Relation>>)>>;

/// One value of a `Link` header.
#[derive(Debug)]
pub struct LinkValue {
    pub link: String,
    pub rel: Option<Vec<Relation>>,
}

impl View for LinkValue {
    type V = (Seq<char>, Option<Seq<Relation>>);

    open spec fn view(&self) -> Self::V {
        (
            self.link@,
            match self.rel {
                Some(rel) => Some(rel@),
                None => None,
            },
        )
    }
}

/// The views of `values`, in their order.
pub open spec fn views(values: Seq<LinkValue>) -> Seq<(Seq<char>, Option<Seq<Relation>>)> {
    values.map_values(|value: LinkValue| value@)
}

/// The link value names the next page among its relation types.
pub open spec fn leads_on(value: (Seq<char>, Option<Seq<Relation>>)) -> bool {
    value.1 is Some && value.1->Some_0.contains(Relation::Next)
}

/// The target of the first link value that names the next page.
pub open spec fn next_target(values: Seq<(Seq<char>, Option<Seq<Relation>>)>) -> Option<Seq<char>>
    decreases values.len(),
{
    if values.len() == 0 {
        None
    } else if leads_on(values[0]) {
        Some(values[0].0)
    } else {
        next_target(values.skip(1))
    }
}

/// The value of one header of a response: bytes without control characters
/// other than the tab.
#[derive(Debug)]
pub struct HeaderValue {
    bytes: Vec<u8>,
}

impl View for HeaderValue {
    type V = Seq<u8>;

    closed spec fn view(&self) -> Seq<u8> {
        self.bytes@
    }
}

/// A byte that a header value may hold.
pub open spec fn header_byte(byte: u8) -> bool {
    (byte >= 32 && byte != 127) || byte == 9
}

/// A byte of visible ASCII, the space and the tab among them.
pub open spec fn visible_byte(byte: u8) -> bool {
    (32 <= byte < 127) || byte == 9
}

/// Every byte can stand in a header value.
pub open spec fn header_bytes(bytes: Seq<u8>) -> bool {
    forall|i: int| 0 <= i < bytes.len() ==> header_byte(#[trigger] bytes[i])
}

/// Every byte is visible ASCII.
pub open spec fn visible_bytes(bytes: Seq<u8>) -> bool {
    forall|i: int| 0 <= i < bytes.len() ==> visible_byte(#[trigger] bytes[i])
}

/// The bytes as characters, one for one.
pub open spec fn ascii_text(bytes: Seq<u8>) -> Seq<char> {
    bytes.map_values(|byte: u8| byte as char)
}

impl HeaderValue {
    #[verifier::type_invariant]
    spec fn well_formed(self) -> bool {
        header_bytes(self.bytes@)
    }

    /// The header value with these bytes, where they can be one.
    pub fn from_bytes(bytes: Vec<u8>) -> (value: Option<HeaderValue>)
        ensures
            value is Some <==> header_bytes(bytes@),
            value is Some ==> value->Some_0@ == bytes@,
    {
        let mut i: usize = 0;
        while i < bytes.len()
            invariant
                i <= bytes.len(),
                forall|j: int| 0 <= j < i ==> header_byte(#[trigger] bytes@[j]),
            decreases bytes.len() - i,
        {
            let byte: u8 = bytes[i];
            if !((byte >= 32 && byte != 127) || byte == 9) {
                return None;
            }
            i += 1;
        }
        Some(HeaderValue { bytes })
    }

    /// The value as text, where all of it is visible ASCII.
    pub fn to_str(&self) -> (text: Result<String, reqwest::header::ToStrError>)
        ensures
            text is Ok <==> visible_bytes(self@),
            text is Ok ==> text->Ok_0@ == ascii_text(self@),
    {
        proof {
            use_type_invariant(self);
        }
        header_text(&self.bytes)
    }
}

/// Where a page leads, as far as its `Link` header says.
pub enum Outcome {
    /// There is no further page.
    Last,
    /// The next page is at this URL.
    Next(Seq<char>),
    /// The header holds a byte outside visible ASCII.
    NotText,
    /// The header is no list of link values.
    NotLinks,
    /// The target of the link to the next page is no URL.
    NotUrl,
}

/// Where the `Link` header `header` leads; `None` stands for a response
/// without that header.
///
/// Only the first link value that names the next page counts: where its
/// target is no URL the header is in error, whatever follows.
pub open spec fn outcome(header: Option<Seq<u8>>) -> Outcome {
    match header {
        None => Outcome::Last,
        Some(bytes) => if !visible_bytes(bytes) {
            Outcome::NotText
        } else {
            match link_values(ascii_text(bytes)) {
                None => Outcome::NotLinks,
                Some(values) => match next_target(values) {
                    None => Outcome::Last,
                    Some(target) => match url_text(target) {
                        None => Outcome::NotUrl,
                        Some(url) => Outcome::Next(url),
                    },
                },
            }
        },
    }
}

/// `found` is what a caller is handed for `outcome`.
pub open spec fn reports(found: Result<Option<String>, AppError>, outcome: Outcome) -> bool {
    match outcome {
        Outcome::Last => found == Ok::<Option<String>, AppError>(None),
        Outcome::Next(url) => found matches Ok(Some(next)) && next@ == url,
        Outcome::NotText => found matches Err(AppError::ReqwestHeaderToStr(_)),
        Outcome::NotLinks => found matches Err(AppError::Hyper(_)),
        Outcome::NotUrl => found matches Err(AppError::UrlParse(_)),
    }
}

/// The position of the first link value that names the next page.
pub fn find_next(values: &Vec<LinkValue>) -> (found: Option<usize>)
    ensures
        match found {
            Some(i) => {
                &&& i < values.len()
                &&& leads_on(values[i as int]@)
                &&& forall|j: int| 0 <= j < i ==> !leads_on(#[trigger] values[j]@)
                &&& next_target(views(values@)) == Some(values[i as int].link@)
            },
            None => {
                &&& forall|j: int| 0 <= j < values.len() ==> !leads_on(#[trigger] values[j]@)
                &&& next_target(views(values@)) is None
            },
        },
{
    let mut i: usize = 0;
    assert(views(values@).skip(0) =~= views(values@));
    while i < values.len()
        invariant
            i <= values.len(),
            forall|j: int| 0 <= j < i ==> !leads_on(#[trigger] values[j]@),
            next_target(views(values@)) == next_target(views(values@).skip(i as int)),
        decreases values.len() - i,
    {
        let ghost rest = views(values@).skip(i as int);
        assert(rest.len() > 0 && rest[0] == values[i as int]@);
        assert(rest.skip(1) =~= views(values@).skip(i + 1));
        if names_next(&values[i]) {
            return Some(i);
        }
        i += 1;
    }
    assert(views(values@).skip(i as int).len() == 0);
    None
}

/// Whether the link value names the next page among its relation types.
pub fn names_next(value: &LinkValue) -> (b: bool)
    ensures
        b == leads_on(value@),
{
    match &value.rel {
        None => false,
        Some(rel) => holds_next(rel),
    }
}

/// Whether `Relation::Next` is among the relation types.
pub fn holds_next(rel: &Vec<Relation>) -> (b: bool)
    ensures
        b == rel@.contains(Relation::Next),
{
    let mut i: usize = 0;
    while i < rel.len()
        invariant
            i <= rel.len(),
            forall|j: int| 0 <= j < i ==> rel@[j] != Relation::Next,
        decreases rel.len() - i,
    {
        if rel[i] == Relation::Next {
            assert(rel@[i as int] == Relation::Next);
            return true;
        }
        i += 1;
    }
    false
}

/// The URL of the next page, as the `Link` header of a response gives it.
/// A response without the header, or without a link to a next page in it, is
/// the last one. A header that cannot be read is an error, not an end.
pub fn next_link(header: Option<&HeaderValue>) -> (found: Result<Option<String>, AppError>)
    ensures
        reports(
            found,
            outcome(
                match header {
                    Some(value) => Some(value@),
                    None => None,
                },
            ),
        ),
{
    let value = match header {
        Some(value) => value,
        None => { return Ok(None); },
    };
    let text = match value.to_str() {
        Ok(text) => text,
        Err(error) => { return Err(AppError::ReqwestHeaderToStr(error)); },
    };
    let values = match parse_link(text.as_str()) {
        Ok(values) => values,
        Err(error) => { return Err(AppError::Hyper(error)); },
    };
    match find_next(&values) {
        None => Ok(None),
        Some(i) => match parse_url(values[i].link.as_str()) {
            Ok(url) => Ok(Some(url)),
            Err(error) => Err(AppError::UrlParse(error)),
        },
    }
}

/// Hands the bytes to `reqwest::header::HeaderValue::from_bytes`, which takes
/// every byte from 32 on but 127, and the tab, and returns what `to_str` makes
/// of the value: the same bytes as text where each is visible ASCII, an
/// error where one is not.
#[verifier::external_body]
fn header_text(bytes: &Vec<u8>) -> (text: Result<String, reqwest::header::ToStrError>)
    requires
        header_bytes(bytes@),
    ensures
        text is Ok <==> visible_bytes(bytes@),
        text is Ok ==> text->Ok_0@ == ascii_text(bytes@),
{
    let value = reqwest::header::HeaderValue::from_bytes(bytes).unwrap();
    value.to_str().map(str::to_owned)
}

/// Parses `text` as a `hyper::header::Link` and returns its link values in
/// their order, each with its target and with its relation types, of which
/// only `RelationType::Next` is told apart from the others.
#[verifier::external_body]
fn parse_link(text: &str) -> (values: Result<Vec<LinkValue>, hyper::Error>)
    ensures
        values is Ok <==> link_values(text@) is Some,
        values is Ok ==> link_values(text@) == Some(views(values->Ok_0@)),
{
    let link = text.parse::<hyper::header::Link>()?;
    Ok(link.values().iter().map(|value| LinkValue {
        link: value.link().to_owned(),
        rel: value.rel().map(|rel| rel.iter().map(|relation| match relation {
            hyper::header::RelationType::Next => Relation::Next,
            _ => Relation::Other,
        }).collect()),
    }).collect())
}

} // verus!
