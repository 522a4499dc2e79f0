//! Questions about URLs, each answered by the `url` crate from text to text.

use vstd::prelude::*;

use crate::text::ascii_lowercase;

verus! {

/// Characters of a text that may be taken apart and put together as a URL. The
/// `url` crate counts positions in 32 bits, and a character can take about twelve
/// bytes where it is encoded.
pub const URL_TEXT_LIMIT: usize = 300_000_000;

/// Characters of a text that may be read as a URL. The `url` crate counts those in
/// front of the host in 31 bits.
pub const URL_READ_LIMIT: usize = 2_000_000_000;

/// The texts of pairs of strings.
pub open spec fn pair_texts(pairs: Seq<(String, String)>) -> Seq<(Seq<char>, Seq<char>)> {
    pairs.map_values(|pair: (String, String)| (pair.0@, pair.1@))
}

/// The texts of pairs of strings, where there are any.
pub open spec fn optional_pairs(pairs: Option<Vec<(String, String)>>) -> Option<
    Seq<(Seq<char>, Seq<char>)>,
> {
    match pairs {
        Some(pairs) => Some(pair_texts(pairs@)),
        None => None,
    }
}

/// The texts of a string, or of what went wrong.
pub open spec fn result_text(result: Result<String, String>) -> Result<Seq<char>, Seq<char>> {
    match result {
        Ok(text) => Ok(text@),
        Err(error) => Err(error@),
    }
}

/// What stands in place of a text that is not to be shown.
pub open spec fn redacted_mark() -> Seq<char> {
    "[REDACTED]"@
}

/// `after` has the names of `before`, and each value is kept or not shown.
pub open spec fn keeps_or_redacts(
    before: Seq<(Seq<char>, Seq<char>)>,
    after: Seq<(Seq<char>, Seq<char>)>,
) -> bool {
    &&& after.len() == before.len()
    &&& forall|i: int|
        0 <= i < after.len() ==> {
            &&& (#[trigger] after[i]).0 == before[i].0
            &&& after[i].1 == before[i].1 || after[i].1 == redacted_mark()
        }
}

/// A segment of a path ends at `c`.
pub open spec fn ends_segment(c: char) -> bool {
    c == '/' || c == '?' || c == '#'
}

/// `text` is a `file` URL whose path begins at `path`, and the first segment of the
/// path is a drive letter.
pub open spec fn begins_with_drive(text: Seq<char>, path: int) -> bool {
    &&& "file://"@.is_prefix_of(text)
    &&& 7 <= path < text.len() - 2
    &&& text[path] == '/'
    &&& forall|i: int| 7 <= i < path ==> text[i] != '/'
    &&& 'a' <= text[path + 1] <= 'z' || 'A' <= text[path + 1] <= 'Z'
    &&& text[path + 2] == ':' || text[path + 2] == '|'
    &&& path + 3 < text.len() ==> ends_segment(text[path + 3])
}

/// A segment that stands for its directory or for the one above.
pub open spec fn is_dot_segment(segment: Seq<char>) -> bool {
    let lower = ascii_lowercase(segment);
    ||| lower == "."@
    ||| lower == "%2e"@
    ||| lower == ".."@
    ||| lower == ".%2e"@
    ||| lower == "%2e."@
    ||| lower == "%2e%2e"@
}

/// The path that begins at `path` has the dot segment from `from` up to `to`.
pub open spec fn has_dot_segment(text: Seq<char>, path: int, from: int, to: int) -> bool {
    &&& path < from <= to <= text.len()
    &&& text[from - 1] == '/'
    &&& to < text.len() ==> ends_segment(text[to])
    &&& forall|i: int| path <= i < to ==> text[i] != '?' && text[i] != '#'
    &&& is_dot_segment(text.subrange(from, to))
}

/// `text` is a `file` URL that the `url` crate writes and then reads otherwise: its
/// path begins with a drive letter, and it has a host or a dot segment as well.
pub open spec fn shifts_drive(text: Seq<char>) -> bool {
    exists|path: int| #[trigger]
        begins_with_drive(text, path) && (path > 7 || exists|from: int, to: int| #[trigger]
            has_dot_segment(text, path, from, to))
}

/// The scheme of the URL `text`, or why it is none.
pub uninterp spec fn url_scheme(text: Seq<char>) -> Result<Seq<char>, Seq<char>>;

/// The URL `text` with `scheme` and `path` for its own, where the scheme can be
/// changed so.
pub uninterp spec fn url_retargeted(
    text: Seq<char>,
    scheme: Seq<char>,
    path: Seq<char>,
) -> Option<Seq<char>>;

/// The URL that `reference` means where it stands under the URL `base`, or why
/// there is none.
pub uninterp spec fn url_joined(base: Seq<char>, reference: Seq<char>) -> Result<
    Seq<char>,
    Seq<char>,
>;

/// The names and values in the query of the URL `text`, where it is one.
pub uninterp spec fn url_query_pairs(text: Seq<char>) -> Option<Seq<(Seq<char>, Seq<char>)>>;

/// The URL `text` with a query of `pairs` for its own, where it is one.
pub uninterp spec fn url_with_query_pairs(
    text: Seq<char>,
    pairs: Seq<(Seq<char>, Seq<char>)>,
) -> Option<Seq<char>>;

/// The URL of the file at `path`, where there is one.
pub uninterp spec fn file_url(path: Seq<char>) -> Option<Seq<char>>;

/// Calls `url::Url::parse` and `Url::scheme`. The contract names the result: the
/// scheme, or in words why the text does not parse.
#[verifier::external_body]
pub(crate) fn scheme_of(text: &str) -> (scheme: Result<String, String>)
    requires
        text@.len() <= URL_READ_LIMIT,
    ensures
        result_text(scheme) == url_scheme(text@),
{
    match url::Url::parse(text) {
        Ok(url) => Ok(url.scheme().to_owned()),
        Err(error) => Err(error.to_string()),
    }
}

/// Calls `url::Url::parse`, `Url::set_scheme` and `Url::set_path` on one URL. The
/// contract names the result; there is none where the text does not parse or the
/// scheme is refused.
#[verifier::external_body]
pub(crate) fn retarget(text: &str, scheme: &str, path: &str) -> (retargeted: Option<String>)
    requires
        text@.len() <= URL_TEXT_LIMIT,
        scheme@.len() <= 1_000,
        path@.len() <= 1_000,
    ensures
        crate::protocol::optional_text(retargeted) == url_retargeted(text@, scheme@, path@),
{
    let mut url = url::Url::parse(text).ok()?;
    url.set_scheme(scheme).ok()?;
    url.set_path(path);
    Some(url.into())
}

/// Calls `url::Url::parse` and `Url::join`. The contract names the result: the
/// URL, or in words why one of the two texts does not parse.
#[verifier::external_body]
pub(crate) fn join_url(base: &str, reference: &str) -> (joined: Result<String, String>)
    requires
        base@.len() <= URL_READ_LIMIT,
        reference@.len() <= URL_READ_LIMIT,
    ensures
        result_text(joined) == url_joined(base@, reference@),
{
    match url::Url::parse(base).and_then(|url| url.join(reference)) {
        Ok(url) => Ok(url.into()),
        Err(error) => Err(error.to_string()),
    }
}

/// Calls `url::Url::parse` and `Url::query_pairs`. The contract names the result;
/// there is none where the text does not parse.
#[verifier::external_body]
pub(crate) fn query_pairs(text: &str) -> (pairs: Option<Vec<(String, String)>>)
    requires
        text@.len() <= URL_READ_LIMIT,
    ensures
        optional_pairs(pairs) == url_query_pairs(text@),
{
    let url = url::Url::parse(text).ok()?;
    Some(url.query_pairs().into_owned().collect())
}

/// Calls `url::Url::parse` and, on `Url::query_pairs_mut`, `clear` and
/// `extend_pairs`. The contract names the result; there is none where the text
/// does not parse. It says that the new query holds the pairs, where the new text
/// parses, and that the new text is then what the same pairs make of it again: a URL
/// is parsed back as it was written, and the pairs are written one way only. Of a
/// `file` URL whose path begins with a drive letter, and that has a host or a dot
/// segment as well, this last point is left unsaid: the crate drops the host or the
/// segment the next time.
#[verifier::external_body]
pub(crate) fn with_query_pairs(text: &str, pairs: &Vec<(String, String)>) -> (changed: Option<
    String,
>)
    requires
        text@.len() <= URL_TEXT_LIMIT,
        url_query_pairs(text@) matches Some(found) ==> keeps_or_redacts(
            found,
            pair_texts(pairs@),
        ),
    ensures
        crate::protocol::optional_text(changed) == url_with_query_pairs(text@, pair_texts(pairs@)),
        changed is Some <==> url_query_pairs(text@) is Some,
        changed matches Some(new_text) ==> (url_query_pairs(new_text@) is Some ==> url_query_pairs(
            new_text@,
        ) == Some(pair_texts(pairs@))),
        changed matches Some(new_text) ==> (url_query_pairs(new_text@) is Some && !shifts_drive(
            new_text@,
        ) ==> url_with_query_pairs(new_text@, pair_texts(pairs@)) == Some(new_text@)),
{
    let mut url = url::Url::parse(text).ok()?;
    url.query_pairs_mut().clear().extend_pairs(pairs);
    Some(url.into())
}

/// Calls `url::Url::from_file_path`. The contract names the result.
#[verifier::external_body]
pub(crate) fn url_of_file(path: &str) -> (uri: Option<String>)
    ensures
        crate::protocol::optional_text(uri) == file_url(path@),
{
    url::Url::from_file_path(path).ok().map(|url| url.into())
}

} // verus!
