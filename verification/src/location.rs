//! Joining URLs and appending query pairs, as the `url` crate does both.
//!
//! Between the clients and their callers a URL travels as its text. Inside
//! this module a URL is a `url::Url`, which the verifier cannot look into:
//! what stands for it in contracts is its text, which has the name
//! [`url_text`]. What the crate makes of a base and a path, and of a URL and
//! its query pairs, is not restated here but given a name each, so that the
//! callers' contracts can speak of it.

use crate::errors::{Error, ErrorKind, ErrorView};
use vstd::prelude::*;
use vstd::utf8::*;

verus! {

/// `url::Url`, a parsed URL. Nothing is claimed of the type itself; it is
/// declared so that a URL can be carried from the join to the query.
#[verifier::external_type_specification]
#[verifier::external_body]
pub struct ExUrl(url::Url);

/// The longest URL, counted in the UTF-8 bytes of its text together with
/// its query pairs, to which query pairs are appended: one gibibyte. The
/// `url` crate keeps 32-bit offsets into a URL's text and cannot hold a
/// text of four gibibytes. A byte of a pair becomes at most three bytes
/// when it is percent-encoded, so within this bound the text stays within
/// what the crate can hold; beyond it, it need not.
pub const MAX_URL_BYTES: usize = 1073741824;

/// The text of a URL: its serialization, as the `url` crate keeps it.
pub uninterp spec fn url_text(url: url::Url) -> Seq<char>;

/// The text of the URL that results when `reference` is resolved against the
/// URL with the text `base`, or the parser's complaint where `base` is no
/// absolute URL or the two cannot be joined.
pub uninterp spec fn url_joined(base: Seq<char>, reference: Seq<char>) -> Result<
    Seq<char>,
    Seq<char>,
>;

/// The text of the URL with the text `url` after `pairs` were appended to its
/// query in `application/x-www-form-urlencoded` syntax.
pub uninterp spec fn url_with_pairs(url: Seq<char>, pairs: Seq<(Seq<char>, Seq<char>)>) -> Seq<
    char,
>;

/// The character views of a list of name/value pairs.
pub open spec fn pairs_view(pairs: Seq<(String, String)>) -> Seq<(Seq<char>, Seq<char>)> {
    pairs.map_values(|p: (String, String)| (p.0@, p.1@))
}

/// The UTF-8 bytes that the names and values of `pairs` take together, with
/// two more for each pair: one for the `=` between name and value and one
/// for the `&` between pairs.
pub open spec fn pairs_bytes(pairs: Seq<(Seq<char>, Seq<char>)>) -> nat
    decreases pairs.len(),
{
    if pairs.len() == 0 {
        0
    } else {
        pairs_bytes(pairs.drop_last()) + encode_utf8(pairs.last().0).len() + encode_utf8(
            pairs.last().1,
        ).len() + 2
    }
}

/// `url::Url::parse` on `base`, then `url::Url::join` with `reference`. The
/// contract claims only that the outcome is the one named `url_joined` for
/// these two texts: a URL with that text, or the `Display` text of the
/// `url::ParseError` that either call returned. Neither call panics: an
/// over-long input is an `Overflow` error.
#[verifier::external_body]
pub(crate) fn join_url(base: &str, reference: &str) -> (r: Result<url::Url, String>)
    ensures
        match r {
            Ok(url) => url_joined(base@, reference@) == Ok::<Seq<char>, Seq<char>>(url_text(url)),
            Err(complaint) => url_joined(base@, reference@) == Err::<Seq<char>, Seq<char>>(
                complaint@,
            ),
        },
{
    let joined = match url::Url::parse(base) {
        Ok(parsed) => parsed.join(reference),
        Err(e) => Err(e),
    };
    match joined {
        Ok(url) => Ok(url),
        Err(e) => Err(e.to_string()),
    }
}

/// `url::Url::query_pairs_mut`, then
/// `url::form_urlencoded::Serializer::extend_pairs` with `pairs`. The
/// contract claims only that the text of the URL is afterwards the one
/// named `url_with_pairs`. `query_pairs_mut`, and the serializer when it is
/// dropped, panic where the text of the URL is longer than `u32::MAX`
/// bytes. Under the bound in `requires` the text is, with the pairs, at
/// most three times one gibibyte and one byte for the `?`, which is less.
#[verifier::external_body]
pub(crate) fn append_pairs(url: url::Url, pairs: &Vec<(String, String)>) -> (r: url::Url)
    requires
        encode_utf8(url_text(url)).len() + pairs_bytes(pairs_view(pairs@)) <= MAX_URL_BYTES,
    ensures
        url_text(r) == url_with_pairs(url_text(url), pairs_view(pairs@)),
{
    let mut url = url;
    url.query_pairs_mut().extend_pairs(pairs.iter());
    url
}

/// `url::Url::as_str`: the text of the URL.
#[verifier::external_body]
pub(crate) fn text_of(url: &url::Url) -> (text: &str)
    ensures
        text@ == url_text(*url),
{
    url.as_str()
}

/// The context that a failure to join a base URL and a path passes
/// through: `failed to join <base> and <path>`.
pub open spec fn joining(base: Seq<char>, path: Seq<char>) -> Seq<char> {
    "failed to join "@ + base + " and "@ + path
}

/// The context that a failure to append a query to a URL passes through:
/// `failed to add the query to <url>`.
pub open spec fn adding_query(url: Seq<char>) -> Seq<char> {
    "failed to add the query to "@ + url
}

/// What resolving `path` against `base` and appending `query` comes to:
/// the text of the URL, or a URL error with the parser's complaint and, as
/// its context, what was being joined. Where there is a query, the outcome
/// of appending it is that of [`with_query`].
pub open spec fn resolved(
    base: Seq<char>,
    path: Seq<char>,
    query: Option<Seq<(Seq<char>, Seq<char>)>>,
) -> Result<Seq<char>, ErrorView> {
    match url_joined(base, path) {
        Err(complaint) => Err(
            ErrorView::bare(ErrorKind::Url, complaint).within(joining(base, path)),
        ),
        Ok(url) => with_query(url, query),
    }
}

/// The second half of [`resolved`]: what appending `query` to the URL with
/// the text `url` comes to. Without a query it is the URL as it is. With a
/// query it is the URL with the pairs appended, wherever URL and pairs
/// together are within [`MAX_URL_BYTES`], which the `url` crate can hold,
/// and a URL error where they are not.
pub open spec fn with_query(url: Seq<char>, query: Option<Seq<(Seq<char>, Seq<char>)>>) -> Result<
    Seq<char>,
    ErrorView,
> {
    match query {
        None => Ok(url),
        Some(pairs) => if encode_utf8(url).len() + pairs_bytes(pairs) > MAX_URL_BYTES {
            Err(ErrorView::bare(ErrorKind::Url, too_long()).within(adding_query(url)))
        } else {
            Ok(url_with_pairs(url, pairs))
        },
    }
}

/// The message of the error for a URL that, with its query, is longer than
/// the `url` crate can be trusted to hold.
pub open spec fn too_long() -> Seq<char> {
    "URL and query are longer than a URL can be"@
}

/// Whether `r` is the outcome `expected`, value for value.
pub open spec fn text_outcome(r: Result<String, Error>, expected: Result<Seq<char>, ErrorView>) -> bool {
    match r {
        Ok(text) => expected == Ok::<Seq<char>, ErrorView>(text@),
        Err(e) => expected == Err::<Seq<char>, ErrorView>(e@),
    }
}

/// Counts the bytes of `pairs`, separators included, as long as the count
/// stays within `limit`.
fn pairs_within(pairs: &Vec<(String, String)>, limit: usize) -> (r: Option<usize>)
    ensures
        match r {
            Some(n) => n == pairs_bytes(pairs_view(pairs@)) && n <= limit,
            None => pairs_bytes(pairs_view(pairs@)) > limit,
        },
{
    let mut total: usize = 0;
    let mut i: usize = 0;
    while i < pairs.len()
        invariant
            i <= pairs.len(),
            total == pairs_bytes(pairs_view(pairs@).take(i as int)),
            total <= limit,
        decreases pairs.len() - i,
    {
        let name_len = pairs[i].0.as_str().as_bytes().len();
        let value_len = pairs[i].1.as_str().as_bytes().len();
        proof {
            let all = pairs_view(pairs@);
            assert(all.take(i + 1).drop_last() == all.take(i as int));
            lemma_pairs_bytes_prefix(all, i + 1);
        }
        if name_len > limit - total {
            return None;
        }
        total = total + name_len;
        if value_len > limit - total {
            return None;
        }
        total = total + value_len;
        if 2 > limit - total {
            return None;
        }
        total = total + 2;
        i = i + 1;
    }
    proof {
        assert(pairs_view(pairs@).take(pairs.len() as int) == pairs_view(pairs@));
    }
    Some(total)
}

/// A prefix of a list of pairs takes no more bytes than the list.
proof fn lemma_pairs_bytes_prefix(pairs: Seq<(Seq<char>, Seq<char>)>, n: int)
    requires
        0 <= n <= pairs.len(),
    ensures
        pairs_bytes(pairs.take(n)) <= pairs_bytes(pairs),
    decreases pairs.len(),
{
    if n == pairs.len() {
        assert(pairs.take(n) == pairs);
    } else {
        assert(pairs.drop_last().take(n) == pairs.take(n));
        lemma_pairs_bytes_prefix(pairs.drop_last(), n);
    }
}

/// Resolves `path` against the base URL and appends the query pairs, if
/// there are any. An empty list of pairs is still a query: it leaves the URL
/// with an empty query string.
pub fn resolve(base: &str, path: &str, query: &Option<Vec<(String, String)>>) -> (r: Result<
    String,
    Error,
>)
    ensures
        text_outcome(
            r,
            resolved(
                base@,
                path@,
                match query {
                    Some(pairs) => Some(pairs_view(pairs@)),
                    None => None,
                },
            ),
        ),
{
    match join_url(base, path) {
        Err(complaint) => {
            let mut context = String::from_str("failed to join ");
            context.append(base);
            context.append(" and ");
            context.append(path);
            Err(Error::url(complaint.as_str()).with_context(context.as_str()))
        },
        Ok(url) => finish_url(url, query),
    }
}

/// Appends the query pairs, if there are any, to a URL that came out of a
/// join, and gives the text of the result.
pub fn finish_url(url: url::Url, query: &Option<Vec<(String, String)>>) -> (r: Result<
    String,
    Error,
>)
    ensures
        text_outcome(
            r,
            with_query(
                url_text(url),
                match query {
                    Some(pairs) => Some(pairs_view(pairs@)),
                    None => None,
                },
            ),
        ),
{
    match query {
        None => Ok(String::from_str(text_of(&url))),
        Some(pairs) => {
            let url_len = text_of(&url).as_bytes().len();
            let fits = if url_len > MAX_URL_BYTES {
                false
            } else {
                pairs_within(pairs, MAX_URL_BYTES - url_len).is_some()
            };
            if fits {
                let with_pairs = append_pairs(url, pairs);
                Ok(String::from_str(text_of(&with_pairs)))
            } else {
                let mut context = String::from_str("failed to add the query to ");
                context.append(text_of(&url));
                Err(
                    Error::url("URL and query are longer than a URL can be").with_context(
                        context.as_str(),
                    ),
                )
            }
        },
    }
}

} // verus!
