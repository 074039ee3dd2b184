use geoingest::download::{
    check_response, download, filename_from_segments, get_filename_from_url,
};
use geoingest::error::Error;
use geoingest::plan::Location;

fn text(s: &str) -> String {
    String::from(s)
}

fn no_segments(link: &str) -> Error {
    Error::MiscError { details: format!("There is such thing as cannot-be-a-base URL... {}", link) }
}

#[test]
fn the_name_is_the_last_segment_of_the_path() {
    assert_eq!(
        get_filename_from_url("http://bano.openstreetmap.fr/data/bano-75.csv"),
        Ok(text("bano-75.csv"))
    );
    assert_eq!(
        get_filename_from_url("https://download.geofabrik.de/europe/france/corse-latest.osm.pbf"),
        Ok(text("corse-latest.osm.pbf"))
    );
    assert_eq!(get_filename_from_url("http://example.com/a"), Ok(text("a")));
}

#[test]
fn the_query_is_no_part_of_the_name() {
    assert_eq!(
        get_filename_from_url(
            "https://navitia.opendatasoft.com/explore/dataset/fr-ne/download/?format=json"
        ),
        Ok(text("foo"))
    );
    assert_eq!(get_filename_from_url("http://example.com/a/b.zip?x=1#top"), Ok(text("b.zip")));
}

#[test]
fn a_name_is_kept_as_the_url_encodes_it() {
    assert_eq!(get_filename_from_url("http://example.com/a b"), Ok(text("a%20b")));
}

#[test]
fn an_empty_last_segment_is_called_foo() {
    assert_eq!(get_filename_from_url("http://example.com"), Ok(text("foo")));
    assert_eq!(get_filename_from_url("http://example.com/"), Ok(text("foo")));
    assert_eq!(get_filename_from_url("http://example.com/data/"), Ok(text("foo")));
}

#[test]
fn a_link_that_cannot_be_a_base_has_no_name() {
    let link = "data:text/plain,HelloWorld";
    assert_eq!(get_filename_from_url(link), Err(no_segments(link)));
    let link = "mailto:someone@example.com";
    assert_eq!(get_filename_from_url(link), Err(no_segments(link)));
}

#[test]
fn a_link_that_does_not_parse_is_a_url_error() {
    assert_eq!(
        get_filename_from_url("bano-75.csv"),
        Err(Error::URLError {
            details: text("Could not parse URL bano-75.csv"),
            source: text("relative URL without a base"),
        })
    );
    assert_eq!(
        get_filename_from_url("http://"),
        Err(Error::URLError { details: text("Could not parse URL http://"), source: text("empty host") })
    );
    assert_eq!(
        get_filename_from_url("http://example.com:port/"),
        Err(Error::URLError {
            details: text("Could not parse URL http://example.com:port/"),
            source: text("invalid port number"),
        })
    );
}

#[test]
fn the_name_is_taken_from_given_segments() {
    assert_eq!(
        filename_from_segments("l", Some(vec![text("a"), text("b.csv")])),
        Ok(text("b.csv"))
    );
    assert_eq!(filename_from_segments("l", Some(vec![text("a"), text("")])), Ok(text("foo")));
    assert_eq!(filename_from_segments("l", Some(vec![text("")])), Ok(text("foo")));
    assert_eq!(filename_from_segments("l", Some(vec![text("only")])), Ok(text("only")));
    assert_eq!(filename_from_segments("l", Some(vec![])), Err(no_segments("l")));
    assert_eq!(filename_from_segments("l", None), Err(no_segments("l")));
}

#[test]
fn a_download_is_stored_below_its_directory_under_its_name() {
    let directory = Location::new("./work").child("bano");
    assert_eq!(
        download("http://bano.openstreetmap.fr/data/bano-75.csv", directory),
        Ok(Location {
            root: text("./work"),
            steps: vec![text("bano"), text("bano-75.csv")],
        })
    );
}

#[test]
fn the_same_link_and_directory_give_the_same_place() {
    let link = "http://example.com/data/file.zip";
    let first = download(link, Location::new("w").child("ntfs"));
    let second = download(link, Location::new("w").child("ntfs"));
    assert!(first.is_ok());
    assert_eq!(first, second);
}

#[test]
fn a_download_without_a_name_fails() {
    assert_eq!(
        download("nowhere", Location::new("w")),
        Err(Error::URLError {
            details: text("Could not parse URL nowhere"),
            source: text("relative URL without a base"),
        })
    );
    assert_eq!(download("data:,x", Location::new("w")), Err(no_segments("data:,x")));
}

#[test]
fn an_answer_without_success_is_an_error() {
    assert_eq!(check_response("http://example.com/a", true), Ok(()));
    assert_eq!(
        check_response("http://example.com/a", false),
        Err(Error::MiscError {
            details: text("No response while trying to download http://example.com/a")
        })
    );
}
