//! The boundary source: how boundaries are generated from a map extract, and
//! how they are indexed.

use crate::plan::{
    at, ArgumentView, Invocation, InvocationView, Location, LocationView,
};
use crate::text::join2;
use vstd::prelude::*;
use vstd::string::*;

verus! {

/// The run of the boundary importer on a file.
pub open spec fn cosmogony_index(
    mimirs_dir: Seq<char>,
    es: Seq<char>,
    filepath: Seq<char>,
) -> InvocationView {
    InvocationView {
        program: at(mimirs_dir).child("target"@).child("release"@).child("cosmogony2mimir"@),
        arguments: seq![
            ArgumentView::Text("--connection-string"@),
            ArgumentView::Text(es),
            ArgumentView::Text("--input"@),
            ArgumentView::Text(filepath),
        ],
    }
}

/// The generation of the boundaries of a region.
#[derive(Clone, Debug, PartialEq, Eq)]
pub struct Generation {
    /// The directory that receives the boundaries; it is created where it is
    /// missing.
    pub directory: Location,
    /// The file that the tool writes, and that the generation yields.
    pub output: Location,
    /// The run of the tool.
    pub command: Invocation,
}

/// The mathematical value of a [`Generation`].
pub struct GenerationView {
    pub directory: LocationView,
    pub output: LocationView,
    pub command: InvocationView,
}

impl View for Generation {
    type V = GenerationView;

    open spec fn view(&self) -> GenerationView {
        GenerationView {
            directory: self.directory@,
            output: self.output@,
            command: self.command@,
        }
    }
}

/// The generation of the boundaries of `region` from the map extract
/// `inputpath`: the output is named after the region, in the directory
/// "cosmogony" below the working directory.
pub open spec fn cosmogony_generation(
    cosmogony_dir: Seq<char>,
    working_dir: Seq<char>,
    inputpath: Seq<char>,
    region: Seq<char>,
) -> GenerationView {
    let directory = at(working_dir).child("cosmogony"@);
    let output = directory.child(region + ".json.gz"@);
    GenerationView {
        directory,
        output,
        command: InvocationView {
            program: at(cosmogony_dir).child("target"@).child("release"@).child("cosmogony"@),
            arguments: seq![
                ArgumentView::Text("--country-code"@),
                ArgumentView::Text("FR"@),
                ArgumentView::Text("--input"@),
                ArgumentView::Text(inputpath),
                ArgumentView::Text("--output"@),
                ArgumentView::Path(output),
            ],
        },
    }
}

/// What indexes the boundaries in `filepath` into the search engine at `es`:
/// the importer below `mimirs_dir`, with its arguments.
pub fn index_cosmogony_region(mimirs_dir: &str, es: &str, filepath: &str) -> (r: Invocation)
    ensures
        r@ == cosmogony_index(mimirs_dir@, es@, filepath@),
{
    let program = Location::new(mimirs_dir).child("target").child("release").child(
        "cosmogony2mimir",
    );
    let r = Invocation::new(program).text("--connection-string").text(es).text("--input").text(
        filepath,
    );
    assert(r@.arguments =~= cosmogony_index(mimirs_dir@, es@, filepath@).arguments);
    r
}

/// What generates the boundaries of `region` from the map extract
/// `inputpath`: where the output goes, and the run of the tool below
/// `cosmogony_dir`.
pub fn generate_cosmogony(
    cosmogony_dir: &str,
    working_dir: &str,
    inputpath: &str,
    region: &str,
) -> (r: Generation)
    ensures
        r@ == cosmogony_generation(cosmogony_dir@, working_dir@, inputpath@, region@),
{
    let filename = join2(region, ".json.gz");
    let directory = Location::new(working_dir).child("cosmogony");
    let output = directory.duplicate().child(filename.as_str());
    let program = Location::new(cosmogony_dir).child("target").child("release").child("cosmogony");
    let command = Invocation::new(program).text("--country-code").text("FR").text("--input").text(
        inputpath,
    ).text("--output").path(output.duplicate());
    assert(command@.arguments =~= cosmogony_generation(
        cosmogony_dir@,
        working_dir@,
        inputpath@,
        region@,
    ).command.arguments);
    Generation { directory, output, command }
}

} // verus!
