//! Fetching a file: under which name a link is stored, where it goes, and
//! when the fetch has failed.

use crate::error::{Error, ErrorView};
use crate::plan::{Location, LocationView};
use crate::text::{join2, texts};
use url::Url;
use vstd::prelude::*;
use vstd::string::*;

verus! {

/// What the `url` crate makes of a link: the text of its parse error where it
/// does not parse as an absolute URL; else the segments of its path, or
/// `None` where the URL cannot be a base and so has no segments.
pub uninterp spec fn url_path_segments(link: Seq<char>) -> Result<Option<Seq<Seq<char>>>, Seq<char>>;

/// Parses `link` with `url::Url::parse` and splits the path of the URL with
/// `Url::path_segments`. Nothing is proved of either: the contract only names
/// what they return. A parse error comes back as the text that the crate
/// displays for it.
#[verifier::external_body]
fn parse_path_segments(link: &str) -> (r: Result<Option<Vec<String>>, String>)
    ensures
        match r {
            Ok(Some(segments)) => url_path_segments(link@) == Ok::<
                Option<Seq<Seq<char>>>,
                Seq<char>,
            >(Some(texts(segments@))),
            Ok(None) => url_path_segments(link@) == Ok::<Option<Seq<Seq<char>>>, Seq<char>>(None),
            Err(text) => url_path_segments(link@) == Err::<Option<Seq<Seq<char>>>, Seq<char>>(
                text@,
            ),
        },
{
    match Url::parse(link) {
        Ok(url) => Ok(url.path_segments().map(|segments| segments.map(String::from).collect())),
        Err(error) => Err(error.to_string()),
    }
}

/// The error for a link whose path has no segment to take a name from.
pub open spec fn no_segments(link: Seq<char>) -> ErrorView {
    ErrorView::MiscError { details: "There is such thing as cannot-be-a-base URL... "@ + link }
}

/// The name under which a link is stored, from the segments of its path: the
/// last segment, or "foo" where the last segment is empty. A link without
/// segments has no name.
pub open spec fn filename_of(link: Seq<char>, segments: Option<Seq<Seq<char>>>) -> Result<
    Seq<char>,
    ErrorView,
> {
    match segments {
        Some(list) => if list.len() == 0 {
            Err(no_segments(link))
        } else if list.last().len() == 0 {
            Ok("foo"@)
        } else {
            Ok(list.last())
        },
        None => Err(no_segments(link)),
    }
}

/// The name under which a link is stored: that of its path where it parses,
/// and an error with the text of the parse error where it does not.
pub open spec fn filename_from_url(link: Seq<char>) -> Result<Seq<char>, ErrorView> {
    match url_path_segments(link) {
        Ok(segments) => filename_of(link, segments),
        Err(text) => Err(
            ErrorView::URLError { details: "Could not parse URL "@ + link, source: text },
        ),
    }
}

/// Whether `r` is the outcome `expected`, value for value.
pub open spec fn is_text_result(
    r: Result<String, Error>,
    expected: Result<Seq<char>, ErrorView>,
) -> bool {
    match r {
        Ok(text) => expected == Ok::<Seq<char>, ErrorView>(text@),
        Err(error) => expected == Err::<Seq<char>, ErrorView>(error@),
    }
}

/// The name under which `link` is stored, given the segments of its path.
pub fn filename_from_segments(link: &str, segments: Option<Vec<String>>) -> (r: Result<
    String,
    Error,
>)
    ensures
        is_text_result(
            r,
            filename_of(
                link@,
                match segments {
                    Some(list) => Some(texts(list@)),
                    None => None,
                },
            ),
        ),
{
    match segments {
        Some(list) => {
            if list.len() == 0 {
                Err(
                    Error::MiscError {
                        details: join2("There is such thing as cannot-be-a-base URL... ", link),
                    },
                )
            } else {
                let last = &list[list.len() - 1];
                assert(texts(list@).last() == last@);
                if last.as_str().unicode_len() == 0 {
                    Ok(String::from_str("foo"))
                } else {
                    Ok(last.clone())
                }
            }
        },
        None => Err(
            Error::MiscError {
                details: join2("There is such thing as cannot-be-a-base URL... ", link),
            },
        ),
    }
}

/// The name under which `link` is stored.
pub fn get_filename_from_url(link: &str) -> (r: Result<String, Error>)
    ensures
        is_text_result(r, filename_from_url(link@)),
{
    match parse_path_segments(link) {
        Ok(segments) => filename_from_segments(link, segments),
        Err(text) => Err(
            Error::URLError { details: join2("Could not parse URL ", link), source: text },
        ),
    }
}

/// Where a download of `link` into a directory is stored: below the
/// directory, under the name of the link.
pub open spec fn destination(link: Seq<char>, download_path: LocationView) -> Result<
    LocationView,
    ErrorView,
> {
    match filename_from_url(link) {
        Ok(name) => Ok(download_path.child(name)),
        Err(error) => Err(error),
    }
}

/// Where the download of `link` into `download_path` is stored. A file
/// that is already there is not fetched again.
pub fn download(link: &str, download_path: Location) -> (r: Result<Location, Error>)
    ensures
        match r {
            Ok(place) => destination(link@, download_path@) == Ok::<LocationView, ErrorView>(
                place@,
            ),
            Err(error) => destination(link@, download_path@) == Err::<LocationView, ErrorView>(
                error@,
            ),
        },
{
    match get_filename_from_url(link) {
        Ok(name) => Ok(download_path.child(name.as_str())),
        Err(error) => Err(error),
    }
}

/// How the answer to a fetch reads: fine where the status reports success,
/// else an error that names the link.
pub open spec fn response_verdict(link: Seq<char>, success: bool) -> Result<(), ErrorView> {
    if success {
        Ok(())
    } else {
        Err(ErrorView::MiscError { details: "No response while trying to download "@ + link })
    }
}

/// Judges the answer to a fetch of `link` by its status.
pub fn check_response(link: &str, success: bool) -> (r: Result<(), Error>)
    ensures
        match r {
            Ok(()) => response_verdict(link@, success) == Ok::<(), ErrorView>(()),
            Err(error) => response_verdict(link@, success) == Err::<(), ErrorView>(error@),
        },
{
    if success {
        Ok(())
    } else {
        Err(Error::MiscError { details: join2("No response while trying to download ", link) })
    }
}

} // verus!
