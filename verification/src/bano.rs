//! The point-address source: what to download for a region, and how the
//! addresses are indexed.

use crate::plan::{at, ArgumentView, Fetch, FetchView, Invocation, InvocationView, Location};
use crate::text::join3;
use vstd::prelude::*;
use vstd::string::*;
use vstd::utf8::is_ascii_chars;

verus! {

/// The name of the address file of a region: a region whose identifier is
/// one byte long, that is a single ASCII character, is padded with a zero.
pub open spec fn bano_filename(region: Seq<char>) -> Seq<char> {
    if region.len() == 1 && is_ascii_chars(region) {
        "bano-0"@ + region + ".csv"@
    } else {
        "bano-"@ + region + ".csv"@
    }
}

/// The download of the address file of a region.
pub open spec fn bano_download(working_dir: Seq<char>, region: Seq<char>) -> FetchView {
    FetchView {
        url: "http://bano.openstreetmap.fr/data/"@ + bano_filename(region),
        directory: at(working_dir).child("bano"@),
    }
}

/// The run of the address importer on a file.
pub open spec fn bano_index(
    mimirs_dir: Seq<char>,
    es: Seq<char>,
    filepath: Seq<char>,
) -> InvocationView {
    InvocationView {
        program: at(mimirs_dir).child("target"@).child("release"@).child("bano2mimir"@),
        arguments: seq![
            ArgumentView::Text("--connection-string"@),
            ArgumentView::Text(es),
            ArgumentView::Text("--input"@),
            ArgumentView::Text(filepath),
        ],
    }
}

/// What indexes the address file `filepath` into the search engine at `es`:
/// the importer below `mimirs_dir`, with its arguments.
pub fn index_bano_region(mimirs_dir: &str, es: &str, filepath: &str) -> (r: Invocation)
    ensures
        r@ == bano_index(mimirs_dir@, es@, filepath@),
{
    let program = Location::new(mimirs_dir).child("target").child("release").child("bano2mimir");
    let r = Invocation::new(program).text("--connection-string").text(es).text("--input").text(
        filepath,
    );
    assert(r@.arguments =~= bano_index(mimirs_dir@, es@, filepath@).arguments);
    r
}

/// What downloads the addresses of `region`: the file to fetch, and the
/// directory below `working_dir` that receives it.
pub fn download_bano_region(working_dir: &str, region: &str) -> (r: Fetch)
    ensures
        r@ == bano_download(working_dir@, region@),
{
    let filename = if region.is_ascii() && region.unicode_len() == 1 {
        join3("bano-0", region, ".csv")
    } else {
        join3("bano-", region, ".csv")
    };
    let mut url = String::from_str("http://bano.openstreetmap.fr/data/");
    url.append(filename.as_str());
    Fetch { url, directory: Location::new(working_dir).child("bano") }
}

} // verus!
