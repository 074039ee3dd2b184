//! The map-extract source: what to download for a region, and how the
//! extract is imported.

use crate::plan::{
    at, ArgumentView, Fetch, FetchView, Invocation, InvocationView, Location,
};
use crate::text::{decimal, decimal_text, join2};
use vstd::prelude::*;
use vstd::string::*;

verus! {

/// The download of the map extract of a region.
pub open spec fn osm_download(working_dir: Seq<char>, region: Seq<char>) -> FetchView {
    FetchView {
        url: "https://download.geofabrik.de/europe/france/"@ + (region + "-latest.osm.pbf"@),
        directory: at(working_dir).child("osm"@),
    }
}

/// `list` with the flag `name` at its end if `wanted`, and as it is if not.
pub open spec fn with_flag(list: Seq<ArgumentView>, wanted: bool, name: Seq<char>) -> Seq<
    ArgumentView,
> {
    if wanted {
        list.push(ArgumentView::Text(name))
    } else {
        list
    }
}

/// The run of the map-extract importer on a file: the connection and the
/// input, then a flag for each kind of entity that is imported (ways, then
/// administrative boundaries, then points of interest), then the city level.
pub open spec fn osm_index(
    mimirs_dir: Seq<char>,
    es: Seq<char>,
    filepath: Seq<char>,
    admin: bool,
    way: bool,
    poi: bool,
    city_level: u32,
) -> InvocationView {
    let head = seq![
        ArgumentView::Text("--connection-string"@),
        ArgumentView::Text(es),
        ArgumentView::Text("--input"@),
        ArgumentView::Text(filepath),
    ];
    let flags = with_flag(
        with_flag(with_flag(head, way, "--import-way"@), admin, "--import-admin"@),
        poi,
        "--import-poi"@,
    );
    InvocationView {
        program: at(mimirs_dir).child("target"@).child("release"@).child("osm2mimir"@),
        arguments: flags.push(ArgumentView::Text("--city-level"@)).push(
            ArgumentView::Text(decimal(city_level as nat)),
        ),
    }
}

/// What downloads the map extract of `region`: the file to fetch, and the
/// directory below `working_dir` that receives it.
pub fn download_osm_region(working_dir: &str, region: &str) -> (r: Fetch)
    ensures
        r@ == osm_download(working_dir@, region@),
{
    let filename = join2(region, "-latest.osm.pbf");
    let url = join2("https://download.geofabrik.de/europe/france/", filename.as_str());
    Fetch { url, directory: Location::new(working_dir).child("osm") }
}

/// What imports the map extract `filepath` into the search engine at `es`:
/// the importer below `mimirs_dir`, with its arguments.
pub fn index_osm_region(
    mimirs_dir: &str,
    es: &str,
    filepath: &str,
    admin: bool,
    way: bool,
    poi: bool,
    city_level: u32,
) -> (r: Invocation)
    ensures
        r@ == osm_index(mimirs_dir@, es@, filepath@, admin, way, poi, city_level),
{
    let program = Location::new(mimirs_dir).child("target").child("release").child("osm2mimir");
    let mut command = Invocation::new(program).text("--connection-string").text(es).text(
        "--input",
    ).text(filepath);
    assert(command@.arguments =~= seq![
        ArgumentView::Text("--connection-string"@),
        ArgumentView::Text(es@),
        ArgumentView::Text("--input"@),
        ArgumentView::Text(filepath@),
    ]);
    if way {
        command = command.text("--import-way");
    }
    if admin {
        command = command.text("--import-admin");
    }
    if poi {
        command = command.text("--import-poi");
    }
    command.text("--city-level").text(decimal_text(city_level).as_str())
}

} // verus!
