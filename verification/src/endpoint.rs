//! URLs, held as text: the base URL of the API and what is appended to it.

use vstd::prelude::*;
use vstd::string::StrSliceExecFns;

verus! {

/// The most characters that the text of a base URL may have.
pub const MAX_ENDPOINT_CHARS: usize = 0x10_0000;

/// The most characters that one path segment may have.
pub const MAX_SEGMENT_CHARS: usize = 0x400_0000;

/// The most segments that are appended in one step.
pub const MAX_SEGMENTS: usize = 4;

/// What `url::Url::parse` makes of `text`: the serialization of the URL, or
/// `None` where `text` is no URL.
pub uninterp spec fn url_text(text: Seq<char>) -> Option<Seq<char>>;

/// The serialization of the URL that `url::Url::parse` makes of `base`, after
/// `PathSegmentsMut::extend` has appended `segments` to its path; `None` where
/// `base` is no URL, or is one that cannot be a base.
pub uninterp spec fn url_with_segments(base: Seq<char>, segments: Seq<Seq<char>>) -> Option<
    Seq<char>,
>;

/// The segments are few and short enough to be appended in one step.
///
/// The url crate keeps offsets into a serialization in 32 bits. Appended, a
/// character of a segment takes at most twelve bytes, three for each byte
/// it has, and a segment one more for its slash: four segments of 2^26
/// characters take less than 3 * 2^30 + 4 bytes. That leaves a base URL of
/// 2^20 characters more than a thousand bytes for each of them.
pub open spec fn appendable(segments: Seq<Seq<char>>) -> bool {
    &&& segments.len() <= MAX_SEGMENTS
    &&& forall|i: int|
        0 <= i < segments.len() ==> (#[trigger] segments[i]).len() <= MAX_SEGMENT_CHARS
}

/// The base URL of an API: a URL to whose path segments can be appended.
#[derive(Debug)]
pub struct Endpoint {
    text: String,
}

impl View for Endpoint {
    type V = Seq<char>;

    /// The text that the endpoint was made from.
    closed spec fn view(&self) -> Seq<char> {
        self.text@
    }
}

impl Endpoint {
    #[verifier::type_invariant]
    spec fn is_base(self) -> bool {
        Self::base(self.text@)
    }

    /// `text` is a URL that can be a base, of at most `MAX_ENDPOINT_CHARS`
    /// characters.
    pub open spec fn base(text: Seq<char>) -> bool {
        text.len() <= MAX_ENDPOINT_CHARS && url_with_segments(text, Seq::empty()) is Some
    }

    /// The endpoint at `text`, where `text` can be one.
    pub fn parse(text: &str) -> (endpoint: Option<Endpoint>)
        ensures
            endpoint is Some <==> Self::base(text@),
            endpoint is Some ==> endpoint->Some_0@ == text@,
    {
        if text.unicode_len() > MAX_ENDPOINT_CHARS {
            return None;
        }
        let none: Vec<String> = Vec::new();
        assert(none.deep_view() =~= Seq::<Seq<char>>::empty());
        match join_url(text, &none) {
            Some(_) => Some(Endpoint { text: text.to_owned() }),
            None => None,
        }
    }

    /// The URL of this endpoint with `segments` appended to its path. A
    /// segment that is `.` or `..` is left out; every other is appended
    /// behind a slash, percent-encoded as one segment of a path needs it.
    pub fn join(&self, segments: &Vec<String>) -> (url: String)
        requires
            appendable(segments.deep_view()),
        ensures
            url_with_segments(self@, segments.deep_view()) == Some(url@),
    {
        proof {
            use_type_invariant(self);
        }
        join_url(self.text.as_str(), segments).unwrap()
    }
}

/// Calls `url::Url::parse` on `text` and returns the serialization of the URL
/// it gives, or its error.
#[verifier::external_body]
pub(crate) fn parse_url(text: &str) -> (url: Result<String, url::ParseError>)
    ensures
        url is Ok <==> url_text(text@) is Some,
        url is Ok ==> url_text(text@) == Some(url->Ok_0@),
{
    url::Url::parse(text).map(String::from)
}

/// Parses `base` with `url::Url::parse`, appends `segments` with
/// `Url::path_segments_mut` and `PathSegmentsMut::extend`, and returns the
/// serialization of the result.
///
/// `None` comes back where `base` does not parse or `path_segments_mut`
/// refuses it; `extend` itself cannot fail, so the segments have no part in
/// that. `path_segments_mut` and the drop of what it returns panic on a
/// serialization that has outgrown 32-bit offsets: the bounds keep every
/// serialization below that, as is reckoned at `appendable`.
#[verifier::external_body]
fn join_url(base: &str, segments: &Vec<String>) -> (url: Option<String>)
    requires
        base@.len() <= MAX_ENDPOINT_CHARS,
        appendable(segments.deep_view()),
    ensures
        url is Some <==> url_with_segments(base@, segments.deep_view()) is Some,
        url is Some ==> url_with_segments(base@, segments.deep_view()) == Some(url->Some_0@),
        url is Some <==> url_with_segments(base@, Seq::empty()) is Some,
{
    let mut url = url::Url::parse(base).ok()?;
    url.path_segments_mut().ok()?.extend(segments);
    Some(url.into())
}

} // verus!
