//! Building the address of a request.
//!
//! Parsing and percent-encoding are the `url` crate's work. The library
//! decides what is handed to it and in which order, and keeps every address
//! within the length that the crate can hold.

use url::Url;
use vstd::prelude::*;
use vstd::utf8::encode_utf8;

verus! {

/// `url::Url`, an address that was parsed. The library sees none of its
/// parts and speaks of its text only.
#[verifier::external_type_specification]
#[verifier::external_body]
pub struct ExUrl(Url);

/// Why an address could not be built. The variants are those of
/// `url::ParseError`; `Other` stands for any that a later version adds.
#[derive(Copy, Clone, Debug, PartialEq, Eq, Structural)]
pub enum ParseError {
    EmptyHost,
    IdnaError,
    InvalidPort,
    InvalidIpv4Address,
    InvalidIpv6Address,
    InvalidDomainCharacter,
    RelativeUrlWithoutBase,
    RelativeUrlWithCannotBeABaseBase,
    SetHostOnCannotBeABaseUrl,
    Overflow,
    Other,
}

/// The longest address, in bytes, that a `Url` can hold.
pub const URL_LIMIT: u64 = 4294967295;

/// The text of an address: what `Url::as_str` returns.
pub uninterp spec fn url_text(url: Url) -> Seq<char>;

/// What `Url::parse` makes of `input`: the text of the address, or the
/// reason why there is none.
pub uninterp spec fn parsed(input: Seq<char>) -> Result<Seq<char>, ParseError>;

/// The text of an address after `segments` were appended to its path with
/// `PathSegmentsMut::extend`; `None` where the address is one that cannot be
/// a base, which has no path to append to.
pub uninterp spec fn with_segments(text: Seq<char>, segments: Seq<Seq<char>>) -> Option<Seq<char>>;

/// The text of an address after `pairs` were appended to its query with
/// `Serializer::extend_pairs`.
pub uninterp spec fn with_pairs(text: Seq<char>, pairs: Seq<(Seq<char>, Seq<char>)>) -> Seq<char>;

/// `Url::as_str` hands out the address's text.
pub assume_specification[ Url::as_str ](url: &Url) -> (text: &str)
    ensures
        text@ == url_text(*url),
;

/// The number of bytes that `text` takes in UTF-8.
pub open spec fn bytes(text: Seq<char>) -> nat {
    encode_utf8(text).len()
}

/// The texts of a list of string slices.
pub open spec fn texts(items: Seq<&str>) -> Seq<Seq<char>> {
    items.map_values(|item: &str| item@)
}

/// The texts of a list of name and value pairs.
pub open spec fn pair_texts(items: Seq<(&str, &str)>) -> Seq<(Seq<char>, Seq<char>)> {
    items.map_values(|item: (&str, &str)| (item.0@, item.1@))
}

/// An upper bound on the bytes that appending `segments` adds to a path:
/// a slash before each, and at most three bytes for each byte of it.
pub open spec fn path_cost(segments: Seq<Seq<char>>) -> nat
    decreases segments.len(),
{
    if segments.len() == 0 {
        0
    } else {
        path_cost(segments.drop_last()) + 3 * bytes(segments.last()) + 1
    }
}

/// An upper bound on the bytes that appending `pairs` adds to a query: the
/// question mark, then for each pair two separators and at most three bytes
/// for each byte of the name and of the value.
pub open spec fn query_cost(pairs: Seq<(Seq<char>, Seq<char>)>) -> nat
    decreases pairs.len(),
{
    if pairs.len() == 0 {
        1
    } else {
        query_cost(pairs.drop_last()) + 3 * bytes(pairs.last().0) + 3 * bytes(pairs.last().1) + 2
    }
}

/// The address that `host`, `segments` and `pairs` make, as text.
///
/// The host is parsed first. An address that cannot be a base takes no path.
/// Where the path or the query could grow past `URL_LIMIT`, the address is
/// given up as an `Overflow`.
pub open spec fn constructed(
    host: Seq<char>,
    segments: Seq<Seq<char>>,
    pairs: Seq<(Seq<char>, Seq<char>)>,
) -> Result<Seq<char>, ParseError> {
    match parsed(host) {
        Err(error) => Err(error),
        Ok(base) => if bytes(base) + path_cost(segments) > URL_LIMIT {
            Err(ParseError::Overflow)
        } else {
            match with_segments(base, segments) {
                None => Err(ParseError::RelativeUrlWithCannotBeABaseBase),
                Some(path) => if bytes(path) + query_cost(pairs) > URL_LIMIT {
                    Err(ParseError::Overflow)
                } else {
                    Ok(with_pairs(path, pairs))
                },
            }
        },
    }
}

/// What a built address comes to as text.
pub open spec fn text_of_result(result: Result<Url, ParseError>) -> Result<Seq<char>, ParseError> {
    match result {
        Ok(url) => Ok(url_text(url)),
        Err(error) => Err(error),
    }
}

/// Calls `Url::parse`. The address that comes back has the text that
/// `parsed` names for `input`; a failure comes back as the variant of the
/// same name.
#[verifier::external_body]
fn parse(input: &str) -> (result: Result<Url, ParseError>)
    ensures
        text_of_result(result) == parsed(input@),
{
    Url::parse(input).map_err(|error| match error {
        url::ParseError::EmptyHost => ParseError::EmptyHost,
        url::ParseError::IdnaError => ParseError::IdnaError,
        url::ParseError::InvalidPort => ParseError::InvalidPort,
        url::ParseError::InvalidIpv4Address => ParseError::InvalidIpv4Address,
        url::ParseError::InvalidIpv6Address => ParseError::InvalidIpv6Address,
        url::ParseError::InvalidDomainCharacter => ParseError::InvalidDomainCharacter,
        url::ParseError::RelativeUrlWithoutBase => ParseError::RelativeUrlWithoutBase,
        url::ParseError::RelativeUrlWithCannotBeABaseBase => ParseError::RelativeUrlWithCannotBeABaseBase,
        url::ParseError::SetHostOnCannotBeABaseUrl => ParseError::SetHostOnCannotBeABaseUrl,
        url::ParseError::Overflow => ParseError::Overflow,
        _ => ParseError::Other,
    })
}

/// Calls `Url::path_segments_mut` and, where that gives a path,
/// `PathSegmentsMut::extend` with `segments`. The address then has the text
/// that `with_segments` names, and the result is `true`; an address that
/// cannot be a base is left as it was, and the result is `false`. The crate
/// panics on an address longer than `URL_LIMIT`, which the bound keeps out.
#[verifier::external_body]
fn extend_path(url: &mut Url, segments: &[&str]) -> (extended: bool)
    requires
        bytes(url_text(*old(url))) + path_cost(texts(segments@)) <= URL_LIMIT,
    ensures
        extended == (with_segments(url_text(*old(url)), texts(segments@)) is Some),
        url_text(*final(url)) == match with_segments(url_text(*old(url)), texts(segments@)) {
            Some(text) => text,
            None => url_text(*old(url)),
        },
{
    match url.path_segments_mut() {
        Ok(mut path) => {
            path.extend(segments);
            true
        },
        Err(()) => false,
    }
}

/// Calls `Url::query_pairs_mut` and `Serializer::extend_pairs` with `pairs`.
/// The address then has the text that `with_pairs` names. The crate panics on
/// an address longer than `URL_LIMIT`, which the bound keeps out.
#[verifier::external_body]
fn extend_query(url: &mut Url, pairs: &[(&str, &str)])
    requires
        bytes(url_text(*old(url))) + query_cost(pair_texts(pairs@)) <= URL_LIMIT,
    ensures
        url_text(*final(url)) == with_pairs(url_text(*old(url)), pair_texts(pairs@)),
{
    url.query_pairs_mut().extend_pairs(pairs);
}

/// The cost of a longer list is no less than that of its beginning.
proof fn lemma_path_cost_grows(segments: Seq<Seq<char>>, n: int)
    requires
        0 <= n <= segments.len(),
    ensures
        path_cost(segments.take(n)) <= path_cost(segments),
    decreases segments.len() - n,
{
    if n == segments.len() {
        assert(segments.take(n) =~= segments);
    } else {
        lemma_path_cost_grows(segments, n + 1);
        assert(segments.take(n + 1).drop_last() =~= segments.take(n));
    }
}

/// The cost of a longer list is no less than that of its beginning.
proof fn lemma_query_cost_grows(pairs: Seq<(Seq<char>, Seq<char>)>, n: int)
    requires
        0 <= n <= pairs.len(),
    ensures
        query_cost(pairs.take(n)) <= query_cost(pairs),
    decreases pairs.len() - n,
{
    if n == pairs.len() {
        assert(pairs.take(n) =~= pairs);
    } else {
        lemma_query_cost_grows(pairs, n + 1);
        assert(pairs.take(n + 1).drop_last() =~= pairs.take(n));
    }
}

/// The number of bytes in `text`.
fn byte_length(text: &str) -> (length: usize)
    ensures
        length == bytes(text@),
{
    text.as_bytes().len()
}

/// Tells whether appending `segments` fits into `room` bytes.
pub fn path_fits(segments: &[&str], room: u64) -> (fits: bool)
    ensures
        fits == (path_cost(texts(segments@)) <= room),
{
    let ghost all = texts(segments@);
    let mut used: u64 = 0;
    let mut i: usize = 0;
    assert(all.take(0) =~= Seq::<Seq<char>>::empty());
    while i < segments.len()
        invariant
            0 <= i <= segments.len(),
            all == texts(segments@),
            used == path_cost(all.take(i as int)),
            used <= room,
        decreases segments.len() - i,
    {
        let length: u64 = byte_length(segments[i]) as u64;
        proof {
            assert(all.take(i + 1).drop_last() =~= all.take(i as int));
            assert(all.take(i + 1).last() == segments@[i as int]@);
            lemma_path_cost_grows(all, i + 1);
        }
        let left: u64 = room - used;
        if left == 0 || length > (left - 1) / 3 {
            return false;
        }
        used = used + 3 * length + 1;
        i = i + 1;
    }
    assert(all.take(i as int) =~= all);
    true
}

/// Tells whether appending `pairs` fits into `room` bytes.
pub fn query_fits(pairs: &[(&str, &str)], room: u64) -> (fits: bool)
    ensures
        fits == (query_cost(pair_texts(pairs@)) <= room),
{
    let ghost all = pair_texts(pairs@);
    assert(all.take(0) =~= Seq::<(Seq<char>, Seq<char>)>::empty());
    if room == 0 {
        proof {
            lemma_query_cost_grows(all, 0);
        }
        return false;
    }
    let mut used: u64 = 1;
    let mut i: usize = 0;
    while i < pairs.len()
        invariant
            0 <= i <= pairs.len(),
            all == pair_texts(pairs@),
            used == query_cost(all.take(i as int)),
            used <= room,
        decreases pairs.len() - i,
    {
        let name: u64 = byte_length(pairs[i].0) as u64;
        let value: u64 = byte_length(pairs[i].1) as u64;
        proof {
            assert(all.take(i + 1).drop_last() =~= all.take(i as int));
            assert(all.take(i + 1).last() == (pairs@[i as int].0@, pairs@[i as int].1@));
            lemma_query_cost_grows(all, i + 1);
        }
        let left: u64 = room - used;
        if left < 2 || name > (left - 2) / 3 {
            return false;
        }
        let rest: u64 = left - 2 - 3 * name;
        if value > rest / 3 {
            return false;
        }
        used = used + 3 * name + 3 * value + 2;
        i = i + 1;
    }
    assert(all.take(i as int) =~= all);
    true
}

/// Builds an address from a host, the segments of its path and the pairs of
/// its query, each taken in the order given.
pub fn construct_url(host: &str, path_segments: &[&str], query_pairs: &[(&str, &str)]) -> (result:
    Result<Url, ParseError>)
    ensures
        text_of_result(result) == constructed(host@, texts(path_segments@), pair_texts(query_pairs@)),
{
    let mut url = match parse(host) {
        Ok(url) => url,
        Err(error) => {
            return Err(error);
        },
    };
    let length: usize = byte_length(url.as_str());
    if length as u64 > URL_LIMIT || !path_fits(path_segments, URL_LIMIT - length as u64) {
        return Err(ParseError::Overflow);
    }
    if !extend_path(&mut url, path_segments) {
        return Err(ParseError::RelativeUrlWithCannotBeABaseBase);
    }
    let length: usize = byte_length(url.as_str());
    if length as u64 > URL_LIMIT || !query_fits(query_pairs, URL_LIMIT - length as u64) {
        return Err(ParseError::Overflow);
    }
    extend_query(&mut url, query_pairs);
    Ok(url)
}

} // verus!
