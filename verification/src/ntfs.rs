//! The transit-feed source: what to download for a region, which dataset of
//! the catalogue holds the feed, and how the feed is unpacked and indexed.

use crate::error::{Error, ErrorView};
use crate::plan::{
    at, ArgumentView, Fetch, FetchView, Invocation, InvocationView, Location, LocationView,
};
use crate::text::{join2, join3, same_text};
use vstd::prelude::*;
use vstd::string::*;

verus! {

/// One dataset of the catalogue of a region, as far as the pipeline reads it.
#[derive(Clone, Debug, PartialEq, Eq)]
pub struct Dataset {
    /// The format of the dataset.
    pub format: String,
    /// The identifier of the file of the dataset.
    pub download_id: String,
}

/// The mathematical value of a [`Dataset`].
pub struct DatasetView {
    pub format: Seq<char>,
    pub download_id: Seq<char>,
}

impl View for Dataset {
    type V = DatasetView;

    open spec fn view(&self) -> DatasetView {
        DatasetView { format: self.format@, download_id: self.download_id@ }
    }
}

/// The values of the datasets of a catalogue, in order.
pub open spec fn datasets(list: Seq<Dataset>) -> Seq<DatasetView> {
    list.map_values(|dataset: Dataset| dataset@)
}

/// The download of the catalogue of a region.
pub open spec fn ntfs_download(working_dir: Seq<char>, region: Seq<char>) -> FetchView {
    FetchView {
        url: "https://navitia.opendatasoft.com/explore/dataset/"@ + region
            + "/download/?format=json"@,
        directory: at(working_dir).child("ntfs"@).child(region),
    }
}

/// The identifier of the file of the first dataset whose format is "NTFS".
pub open spec fn feed_id(catalogue: Seq<DatasetView>) -> Option<Seq<char>>
    decreases catalogue.len(),
{
    if catalogue.len() == 0 {
        None
    } else if catalogue[0].format == "NTFS"@ {
        Some(catalogue[0].download_id)
    } else {
        feed_id(catalogue.drop_first())
    }
}

/// The link to the feed of a catalogue: that of the file of its first "NTFS"
/// dataset, and an error where it has none.
pub open spec fn feed_url(catalogue: Seq<DatasetView>) -> Result<Seq<char>, ErrorView> {
    match feed_id(catalogue) {
        Some(id) => Ok(
            "https://navitia.opendatasoft.com/api/v2/catalog/datasets/fr-ne/files/"@ + id,
        ),
        None => Err(ErrorView::MiscError { details: "Could not find NTFS dataset"@ }),
    }
}

/// The run that unpacks an archive into a directory, overwriting what is
/// there.
pub open spec fn ntfs_unpack(directory: LocationView, archive: Seq<char>) -> InvocationView {
    InvocationView {
        program: at("unzip"@),
        arguments: seq![
            ArgumentView::Text("-d"@),
            ArgumentView::Path(directory),
            ArgumentView::Text("-o"@),
            ArgumentView::Text(archive),
        ],
    }
}

/// The run of the transit-feed importer on a directory.
pub open spec fn ntfs_index(
    mimirs_dir: Seq<char>,
    es: Seq<char>,
    filepath: Seq<char>,
) -> InvocationView {
    InvocationView {
        program: at(mimirs_dir).child("target"@).child("release"@).child("ntfs2mimir"@),
        arguments: seq![
            ArgumentView::Text("--connection-string"@),
            ArgumentView::Text(es),
            ArgumentView::Text("--input"@),
            ArgumentView::Text(filepath),
        ],
    }
}

/// What the download of the feed of `region` starts with: the catalogue to
/// fetch, and the directory below `working_dir` that receives the catalogue
/// and then the feed.
pub fn download_ntfs_region(working_dir: &str, region: &str) -> (r: Fetch)
    ensures
        r@ == ntfs_download(working_dir@, region@),
{
    let url = join3(
        "https://navitia.opendatasoft.com/explore/dataset/",
        region,
        "/download/?format=json",
    );
    Fetch { url, directory: Location::new(working_dir).child("ntfs").child(region) }
}

/// The link to the feed among the datasets of a catalogue.
pub fn find_feed(catalogue: &Vec<Dataset>) -> (r: Result<String, Error>)
    ensures
        match r {
            Ok(url) => feed_url(datasets(catalogue@)) == Ok::<Seq<char>, ErrorView>(url@),
            Err(error) => feed_url(datasets(catalogue@)) == Err::<Seq<char>, ErrorView>(error@),
        },
{
    let ghost all = datasets(catalogue@);
    let mut i: usize = 0;
    assert(all.skip(0) =~= all);
    while i < catalogue.len()
        invariant
            i <= catalogue.len(),
            all == datasets(catalogue@),
            feed_id(all) == feed_id(all.skip(i as int)),
        decreases catalogue.len() - i,
    {
        let dataset = &catalogue[i];
        assert(all.skip(i as int)[0] == dataset@);
        if same_text(dataset.format.as_str(), "NTFS") {
            return Ok(
                join2(
                    "https://navitia.opendatasoft.com/api/v2/catalog/datasets/fr-ne/files/",
                    dataset.download_id.as_str(),
                ),
            );
        }
        assert(all.skip(i as int).drop_first() =~= all.skip(i + 1));
        i = i + 1;
    }
    Err(Error::MiscError { details: String::from_str("Could not find NTFS dataset") })
}

/// What unpacks the downloaded `archive` into `directory`.
pub fn unpack_feed(directory: Location, archive: &str) -> (r: Invocation)
    ensures
        r@ == ntfs_unpack(directory@, archive@),
{
    let ghost place = directory@;
    let r = Invocation::new(Location::new("unzip")).text("-d").path(directory).text("-o").text(
        archive,
    );
    assert(r@.arguments =~= ntfs_unpack(place, archive@).arguments);
    r
}

/// What indexes the feed in `filepath` into the search engine at `es`: the
/// importer below `mimirs_dir`, with its arguments.
pub fn index_ntfs_region(mimirs_dir: &str, es: &str, filepath: &str) -> (r: Invocation)
    ensures
        r@ == ntfs_index(mimirs_dir@, es@, filepath@),
{
    let program = Location::new(mimirs_dir).child("target").child("release").child("ntfs2mimir");
    let r = Invocation::new(program).text("--connection-string").text(es).text("--input").text(
        filepath,
    );
    assert(r@.arguments =~= ntfs_index(mimirs_dir@, es@, filepath@).arguments);
    r
}

} // verus!
