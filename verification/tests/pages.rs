use github_apps::header::{find_next, holds_next, names_next, next_link, LinkValue, Relation};
use github_apps::{AppError, Endpoint, HeaderValue, Pagination, Timestamp};

fn header(text: &str) -> HeaderValue {
    HeaderValue::from_bytes(text.as_bytes().to_vec()).unwrap()
}

fn link_to(url: &str, rel: &str) -> HeaderValue {
    header(&format!("<{}>; rel=\"{}\"", url, rel))
}

/// Walks the pages as a client would: each response is looked up by the URL
/// that is pending, and handed over with its header and its items.
fn collect(first: &str, server: &[(&str, Option<HeaderValue>, Vec<u32>)]) -> Result<Vec<u32>, AppError> {
    let mut pagination: Pagination<u32> = Pagination::new(first.to_string());
    while let Some(url) = pagination.next_url() {
        let (_, link, items) = server.iter().find(|(at, _, _)| *at == url).unwrap();
        pagination = pagination.receive(link.as_ref(), Ok(items.clone()))?;
    }
    Ok(pagination.finish())
}

#[test]
fn header_values_hold_no_control_characters() {
    assert!(HeaderValue::from_bytes(b"plain text".to_vec()).is_some());
    assert!(HeaderValue::from_bytes(b"tab\tinside".to_vec()).is_some());
    assert!(HeaderValue::from_bytes(vec![0xe9, 0xff]).is_some());
    assert!(HeaderValue::from_bytes(Vec::new()).is_some());
    assert!(HeaderValue::from_bytes(b"line\nbreak".to_vec()).is_none());
    assert!(HeaderValue::from_bytes(vec![0]).is_none());
    assert!(HeaderValue::from_bytes(vec![31]).is_none());
    assert!(HeaderValue::from_bytes(vec![127]).is_none());
}

#[test]
fn header_values_are_those_of_reqwest() {
    for byte in 0..=u8::MAX {
        let bytes = vec![b'a', byte, b'z'];
        let theirs = reqwest::header::HeaderValue::from_bytes(&bytes);
        let ours = HeaderValue::from_bytes(bytes.clone());
        assert_eq!(ours.is_some(), theirs.is_ok());
        if let (Some(ours), Ok(theirs)) = (ours, theirs) {
            assert_eq!(ours.to_str().ok(), theirs.to_str().ok().map(str::to_string));
        }
    }
}

#[test]
fn header_value_of_visible_ascii_is_text() {
    assert_eq!(header("<https://x/>; rel=\"next\"").to_str().unwrap(), "<https://x/>; rel=\"next\"");
    assert_eq!(header("").to_str().unwrap(), "");
    assert_eq!(header("a\tb ~").to_str().unwrap(), "a\tb ~");
}

#[test]
fn header_value_beyond_ascii_is_no_text() {
    assert!(HeaderValue::from_bytes(vec![b'a', 0x80]).unwrap().to_str().is_err());
    assert!(header("caf\u{e9}").to_str().is_err());
}

#[test]
fn response_without_link_header_is_the_last() {
    assert!(matches!(next_link(None), Ok(None)));
}

#[test]
fn next_link_is_found_among_the_links() {
    let value = header(
        "<https://api.github.com/app/installations?page=2>; rel=\"next\", <https://api.github.com/app/installations?page=5>; rel=\"last\"",
    );
    assert_eq!(
        next_link(Some(&value)).unwrap().as_deref(),
        Some("https://api.github.com/app/installations?page=2")
    );
}

#[test]
fn next_link_may_come_last() {
    let value = header(
        "<https://api.github.com/x?page=1>; rel=\"prev\", <https://api.github.com/x?page=1>; rel=\"first\", <https://api.github.com/x?page=3>; rel=\"next\"",
    );
    assert_eq!(next_link(Some(&value)).unwrap().as_deref(), Some("https://api.github.com/x?page=3"));
}

#[test]
fn links_without_next_end_the_walk() {
    let value = header("<https://api.github.com/x?page=1>; rel=\"prev\", <https://api.github.com/x?page=1>; rel=\"first\"");
    assert!(matches!(next_link(Some(&value)), Ok(None)));
    let value = header("<https://api.github.com/x?page=1>");
    assert!(matches!(next_link(Some(&value)), Ok(None)));
    assert!(matches!(next_link(Some(&header(""))), Ok(None)));
}

#[test]
fn next_is_recognised_among_several_relation_types_and_in_any_case() {
    let value = header("<https://api.github.com/x?page=2>; rel=\"prev next\"");
    assert_eq!(next_link(Some(&value)).unwrap().as_deref(), Some("https://api.github.com/x?page=2"));
    let value = header("<https://api.github.com/x?page=2>; rel=NEXT");
    assert_eq!(next_link(Some(&value)).unwrap().as_deref(), Some("https://api.github.com/x?page=2"));
    let value = header("<https://api.github.com/x?page=2>; rel=\"next-archive\"");
    assert!(matches!(next_link(Some(&value)), Ok(None)));
}

#[test]
fn first_next_link_counts() {
    let value = header("<https://a.example/1>; rel=\"next\", <https://b.example/2>; rel=\"next\"");
    assert_eq!(next_link(Some(&value)).unwrap().as_deref(), Some("https://a.example/1"));
    let value = header("<no url>; rel=\"next\", <https://b.example/2>; rel=\"next\"");
    assert!(matches!(next_link(Some(&value)), Err(AppError::UrlParse(_))));
    let value = header("<no url>; rel=\"last\", <https://b.example/2>; rel=\"next\"");
    assert_eq!(next_link(Some(&value)).unwrap().as_deref(), Some("https://b.example/2"));
}

#[test]
fn next_link_is_handed_out_as_the_url_crate_writes_it() {
    let value = link_to("HTTPS://API.GitHub.com:443/a/../b?page=2", "next");
    assert_eq!(next_link(Some(&value)).unwrap().as_deref(), Some("https://api.github.com/b?page=2"));
}

#[test]
fn header_that_is_no_list_of_links_is_an_error() {
    assert!(matches!(next_link(Some(&header("https://api.github.com/x; rel=\"next\""))), Err(AppError::Hyper(_))));
    assert!(matches!(next_link(Some(&header("<https://api.github.com/x>; unheard=\"of\""))), Err(AppError::Hyper(_))));
    assert!(matches!(next_link(Some(&header("<https://api.github.com/x>; rel="))), Err(AppError::Hyper(_))));
    assert!(matches!(next_link(Some(&header("rel=\"next\""))), Err(AppError::Hyper(_))));
}

#[test]
fn header_beyond_ascii_is_an_error() {
    let value = HeaderValue::from_bytes("<https://api.github.com/caf\u{e9}>; rel=\"next\"".as_bytes().to_vec()).unwrap();
    assert!(matches!(next_link(Some(&value)), Err(AppError::ReqwestHeaderToStr(_))));
}

#[test]
fn next_link_without_a_url_is_an_error() {
    assert!(matches!(next_link(Some(&link_to("/app/installations?page=2", "next"))), Err(AppError::UrlParse(_))));
    assert!(matches!(next_link(Some(&link_to("https://", "next"))), Err(AppError::UrlParse(_))));
}

#[test]
fn link_agrees_with_hyper_and_url() {
    let texts = [
        "<https://api.github.com/x?page=2>; rel=\"next\"",
        "<https://api.github.com/x?page=2>; rel=\"last\", <https://api.github.com/x?page=9>; rel=\"next\"; title=\"a, b; c\"",
        "<https://api.github.com/x>; anchor=\"#a\"; rev=\"next\"",
        "<relative>; rel=\"next\"",
        "nothing",
    ];
    for text in texts {
        let expected = match text.parse::<hyper::header::Link>() {
            Err(_) => Err(()),
            Ok(link) => link
                .values()
                .iter()
                .find(|value| value.rel().map_or(false, |rel| rel.contains(&hyper::header::RelationType::Next)))
                .map(|value| url::Url::parse(value.link()).map(String::from).map_err(|_| ()))
                .transpose(),
        };
        assert_eq!(next_link(Some(&header(text))).map_err(|_| ()), expected);
    }
}

#[test]
fn search_for_next_among_link_values() {
    let values = vec![
        LinkValue { link: "a".to_string(), rel: None },
        LinkValue { link: "b".to_string(), rel: Some(vec![]) },
        LinkValue { link: "c".to_string(), rel: Some(vec![Relation::Other, Relation::Other]) },
        LinkValue { link: "d".to_string(), rel: Some(vec![Relation::Other, Relation::Next]) },
        LinkValue { link: "e".to_string(), rel: Some(vec![Relation::Next]) },
    ];
    assert_eq!(find_next(&values), Some(3));
    assert_eq!(find_next(&values[..3].iter().map(|v| LinkValue { link: v.link.clone(), rel: v.rel.clone() }).collect()), None);
    assert_eq!(find_next(&Vec::new()), None);
    assert!(!names_next(&values[0]));
    assert!(!names_next(&values[1]));
    assert!(!names_next(&values[2]));
    assert!(names_next(&values[3]));
    assert!(holds_next(&vec![Relation::Next]));
    assert!(!holds_next(&vec![Relation::Other]));
    assert!(!holds_next(&Vec::new()));
}

#[test]
fn three_pages_are_collected_in_page_order() {
    let server = [
        ("https://api.github.com/app/installations", Some(link_to("https://api.github.com/app/installations?page=2", "next")), vec![1, 2]),
        ("https://api.github.com/app/installations?page=2", Some(link_to("https://api.github.com/app/installations?page=3", "next")), vec![3, 4]),
        ("https://api.github.com/app/installations?page=3", Some(link_to("https://api.github.com/app/installations?page=1", "first")), vec![5]),
    ];
    assert_eq!(collect("https://api.github.com/app/installations", &server).unwrap(), vec![1, 2, 3, 4, 5]);
}

#[test]
fn first_page_without_next_is_all_there_is() {
    let server = [
        ("https://api.github.com/app/installations", None, vec![1, 2]),
        ("https://api.github.com/app/installations?page=2", Some(link_to("https://api.github.com/app/installations?page=3", "next")), vec![3, 4]),
        ("https://api.github.com/app/installations?page=3", None, vec![5]),
    ];
    assert_eq!(collect("https://api.github.com/app/installations", &server).unwrap(), vec![1, 2]);
}

#[test]
fn pages_may_be_empty() {
    let server = [
        ("https://x.example/a", Some(link_to("https://x.example/b", "next")), vec![]),
        ("https://x.example/b", Some(link_to("https://x.example/c", "next")), vec![7]),
        ("https://x.example/c", None, vec![]),
    ];
    assert_eq!(collect("https://x.example/a", &server).unwrap(), vec![7]);
}

#[test]
fn bad_header_fails_the_whole_collection() {
    let server = [
        ("https://x.example/a", Some(link_to("https://x.example/b", "next")), vec![1, 2]),
        ("https://x.example/b", Some(header("<https://x.example/c>; rel")), vec![3]),
        ("https://x.example/c", None, vec![4]),
    ];
    assert!(matches!(collect("https://x.example/a", &server), Err(AppError::Hyper(_))));
}

#[test]
fn pagination_starts_with_the_first_url_pending() {
    let pagination: Pagination<String> = Pagination::new("https://x.example/a".to_string());
    assert_eq!(pagination.next_url().as_deref(), Some("https://x.example/a"));
}

#[test]
fn received_page_is_appended_and_its_link_followed() {
    let pagination: Pagination<u8> = Pagination::new("https://x.example/a".to_string());
    let pagination = pagination.receive(Some(&link_to("https://x.example/b", "next")), Ok(vec![1, 2])).unwrap();
    assert_eq!(pagination.next_url().as_deref(), Some("https://x.example/b"));
    let pagination = pagination.receive(None, Ok(vec![3])).unwrap();
    assert!(pagination.next_url().is_none());
    assert_eq!(pagination.finish(), vec![1, 2, 3]);
}

#[test]
fn page_with_a_bad_header_fails_the_collection() {
    let pagination: Pagination<u8> = Pagination::new("https://x.example/a".to_string());
    let pagination = pagination.receive(Some(&link_to("https://x.example/b", "next")), Ok(vec![1, 2])).unwrap();
    assert!(matches!(pagination.receive(Some(&header("garbage")), Ok(vec![3])), Err(AppError::Hyper(_))));
}

#[test]
fn page_with_a_bad_body_fails_the_collection() {
    let pagination: Pagination<u8> = Pagination::new("https://x.example/a".to_string());
    let pagination = pagination.receive(Some(&link_to("https://x.example/b", "next")), Ok(vec![1, 2])).unwrap();
    let unreadable = Err(AppError::UrlParse(url::ParseError::EmptyHost));
    let received = pagination.receive(None, unreadable);
    assert!(matches!(received, Err(AppError::UrlParse(url::ParseError::EmptyHost))));
}

#[test]
fn bad_header_comes_before_a_bad_body() {
    let pagination: Pagination<u8> = Pagination::new("https://x.example/a".to_string());
    let unreadable = Err(AppError::UrlParse(url::ParseError::EmptyHost));
    let received = pagination.receive(Some(&link_to("/relative", "next")), unreadable);
    assert!(matches!(received, Err(AppError::UrlParse(url::ParseError::RelativeUrlWithoutBase))));
    let pagination: Pagination<u8> = Pagination::new("https://x.example/a".to_string());
    let unreadable = Err(AppError::UrlParse(url::ParseError::EmptyHost));
    let received = pagination.receive(Some(&header("caf\u{e9}")), unreadable);
    assert!(matches!(received, Err(AppError::ReqwestHeaderToStr(_))));
}

#[test]
fn items_keep_their_order_within_and_across_pages() {
    let next = link_to("https://x.example/b", "next");
    let pagination: Pagination<&str> = Pagination::new("https://x.example/a".to_string());
    let pagination = pagination.receive(Some(&next), Ok(vec!["c", "a"])).unwrap();
    let pagination = pagination.receive(Some(&next), Ok(vec![])).unwrap();
    let pagination = pagination.receive(None, Ok(vec!["b", "a"])).unwrap();
    assert_eq!(pagination.finish(), vec!["c", "a", "b", "a"]);
}

#[test]
fn endpoint_is_a_url_that_can_be_a_base() {
    assert!(Endpoint::parse("https://api.github.com").is_some());
    assert!(Endpoint::parse("https://ghe.example.com/api/v3/").is_some());
    assert!(Endpoint::parse("http://localhost:8080").is_some());
    assert!(Endpoint::parse("mailto:someone@example.com").is_none());
    assert!(Endpoint::parse("data:text/plain,hello").is_none());
    assert!(Endpoint::parse("api.github.com").is_none());
    assert!(Endpoint::parse("").is_none());
}

#[test]
fn endpoint_is_bounded_in_length() {
    let fits = format!("https://example.com/{}", "a".repeat(0x10_0000 - 20));
    assert_eq!(fits.chars().count(), 0x10_0000);
    assert!(Endpoint::parse(&fits).is_some());
    let too_long = format!("https://example.com/{}", "a".repeat(0x10_0000 - 19));
    assert!(Endpoint::parse(&too_long).is_none());
}

#[test]
fn long_segments_are_joined() {
    let endpoint = Endpoint::parse("https://api.github.com").unwrap();
    let long = "\u{1f600}".repeat(100_000);
    let joined = endpoint.join(&vec!["repos".to_string(), long.clone(), "r".to_string(), "installation".to_string()]);
    assert_eq!(joined.len(), "https://api.github.com/repos/".len() + 1_200_000 + "/r/installation".len());
    let mut expected = url::Url::parse("https://api.github.com").unwrap();
    expected.path_segments_mut().unwrap().push("repos").push(&long).push("r").push("installation");
    assert_eq!(joined, expected.as_str());
}

#[test]
fn endpoint_joins_segments() {
    let endpoint = Endpoint::parse("https://api.github.com").unwrap();
    assert_eq!(endpoint.join(&vec![]), "https://api.github.com/");
    assert_eq!(endpoint.join(&vec!["app".to_string()]), "https://api.github.com/app");
    assert_eq!(
        endpoint.join(&vec!["a b".to_string(), "c/d".to_string(), "..".to_string(), "e".to_string()]),
        "https://api.github.com/a%20b/c%2Fd/e"
    );
    let endpoint = Endpoint::parse("https://api.github.com/v3?x=1#top").unwrap();
    assert_eq!(endpoint.join(&vec!["app".to_string()]), "https://api.github.com/v3/app?x=1#top");
}

#[test]
fn instants_are_ordered_by_seconds_then_nanoseconds() {
    let early = Timestamp::new(10, 999_999_999);
    let late = Timestamp::new(11, 0);
    assert!(early.is_before(&late));
    assert!(!late.is_before(&early));
    assert!(!early.is_before(&early));
    assert!(Timestamp::new(-1, 5).is_before(&Timestamp::new(-1, 6)));
    assert!(Timestamp::new(i64::MIN, 0).is_before(&Timestamp::new(i64::MAX, 0)));
}

#[test]
fn expiring_means_less_than_a_minute_left() {
    let expiry = Timestamp::new(1_000_060, 0);
    assert!(!expiry.is_expiring(&Timestamp::new(1_000_000, 0)));
    assert!(expiry.is_expiring(&Timestamp::new(1_000_000, 1)));
    assert!(expiry.is_expiring(&Timestamp::new(1_000_001, 0)));
    assert!(!expiry.is_expiring(&Timestamp::new(999_999, 999_999_999)));
    assert!(expiry.is_expiring(&Timestamp::new(1_000_060, 0)));
    assert!(expiry.is_expiring(&Timestamp::new(2_000_000, 0)));
}

#[test]
fn instants_are_ordered_as_chrono_orders_them() {
    let readings = [(0i64, 0u32), (0, 1), (59, 999_999_999), (60, 0), (1_700_000_000, 5), (-1, 999_999_999)];
    for (a_secs, a_nanos) in readings {
        for (b_secs, b_nanos) in readings {
            let a = chrono::DateTime::from_timestamp(a_secs, a_nanos).unwrap();
            let b = chrono::DateTime::from_timestamp(b_secs, b_nanos).unwrap();
            assert_eq!(Timestamp::new(a_secs, a_nanos).is_before(&Timestamp::new(b_secs, b_nanos)), a < b);
            assert_eq!(
                Timestamp::new(a_secs, a_nanos).is_expiring(&Timestamp::new(b_secs, b_nanos)),
                a < b + chrono::Duration::seconds(60)
            );
        }
    }
}

/// What the walk over the link values gives when it is written out against
/// hyper and url directly.
fn expected_next(text: &str) -> Result<Option<String>, ()> {
    let link = text.parse::<hyper::header::Link>().map_err(|_| ())?;
    for value in link.values() {
        if value.rel().map_or(false, |rel| rel.contains(&hyper::header::RelationType::Next)) {
            return url::Url::parse(value.link()).map(|url| Some(String::from(url))).map_err(|_| ());
        }
    }
    Ok(None)
}

#[test]
fn made_up_headers_are_read_as_hyper_and_url_read_them() {
    let pieces = [
        "<", ">", ";", ",", "=", "\"", " ", "rel", "next", "prev", "last", "NEXT", "rev", "anchor",
        "title", "title*", "type", "media", "hreflang", "https://", "api.github.com", "/x?page=2",
        "text/html", "en", "screen", "UTF-8'de'a", "#", "%", "..", "a b",
    ];
    let mut state: u64 = 0x2545_f491_4f6c_dd1d;
    let mut parsed = 0;
    for _ in 0..3000 {
        let mut text = String::new();
        state = state.wrapping_mul(6364136223846793005).wrapping_add(1442695040888963407);
        let length = 1 + (state >> 59) as usize;
        for _ in 0..length {
            state = state.wrapping_mul(6364136223846793005).wrapping_add(1442695040888963407);
            text.push_str(pieces[(state >> 33) as usize % pieces.len()]);
        }
        let expected = expected_next(&text);
        if expected.is_ok() {
            parsed += 1;
        }
        assert_eq!(next_link(Some(&header(&text))).map_err(|_| ()), expected, "{}", text);
    }
    assert!(parsed > 0);
}

#[test]
fn made_up_segments_are_joined_as_url_joins_them() {
    let pieces = ["a", "/", "%", "..", ".", " ", "?", "#", "\u{e9}", "\u{1f600}", "%2F", "\\", ":", "@"];
    let bases = ["https://api.github.com", "https://h.example/a/b/", "http://h.example/a?q=1#f", "file:///tmp", "ssh://git@h.example"];
    let mut state: u64 = 0x9e37_79b9_7f4a_7c15;
    for round in 0..2000 {
        let mut segments: Vec<String> = Vec::new();
        state = state.wrapping_mul(6364136223846793005).wrapping_add(1442695040888963407);
        let count = (state >> 61) as usize % 5;
        for _ in 0..count {
            let mut segment = String::new();
            state = state.wrapping_mul(6364136223846793005).wrapping_add(1442695040888963407);
            let length = (state >> 61) as usize;
            for _ in 0..length {
                state = state.wrapping_mul(6364136223846793005).wrapping_add(1442695040888963407);
                segment.push_str(pieces[(state >> 33) as usize % pieces.len()]);
            }
            segments.push(segment);
        }
        let base = bases[round % bases.len()];
        let mut expected = url::Url::parse(base).unwrap();
        expected.path_segments_mut().unwrap().extend(&segments);
        assert_eq!(Endpoint::parse(base).unwrap().join(&segments), expected.as_str());
    }
}
