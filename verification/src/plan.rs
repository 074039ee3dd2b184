//! What a handler asks of the outside world, as plain values: where a file
//! lies, what is fetched, which program is run with which arguments.

use crate::error::{Error, ErrorView};
use crate::text::{join2, texts};
use vstd::prelude::*;
use vstd::string::*;

verus! {

/// A place in the file system: a path to start from, and the names that are
/// appended to it one after the other.
#[derive(Clone, Debug, PartialEq, Eq)]
pub struct Location {
    pub root: String,
    pub steps: Vec<String>,
}

/// The mathematical value of a [`Location`].
pub struct LocationView {
    pub root: Seq<char>,
    pub steps: Seq<Seq<char>>,
}

impl LocationView {
    /// The place that lies `step` below this one.
    pub open spec fn child(self, step: Seq<char>) -> LocationView {
        LocationView { root: self.root, steps: self.steps.push(step) }
    }
}

/// The place that `root` names by itself.
pub open spec fn at(root: Seq<char>) -> LocationView {
    LocationView { root, steps: Seq::empty() }
}

impl View for Location {
    type V = LocationView;

    open spec fn view(&self) -> LocationView {
        LocationView { root: self.root@, steps: texts(self.steps@) }
    }
}

impl Location {
    /// The place that `root` names by itself.
    pub fn new(root: &str) -> (r: Location)
        ensures
            r@ == at(root@),
    {
        let r = Location { root: String::from_str(root), steps: Vec::new() };
        assert(r@.steps =~= Seq::<Seq<char>>::empty());
        r
    }

    /// The place that lies `step` below this one.
    pub fn child(self, step: &str) -> (r: Location)
        ensures
            r@ == self@.child(step@),
    {
        let mut steps = self.steps;
        steps.push(String::from_str(step));
        let r = Location { root: self.root, steps };
        assert(r@.steps =~= self@.steps.push(step@));
        r
    }

    /// A copy of this place.
    pub fn duplicate(&self) -> (r: Location)
        ensures
            r@ == self@,
    {
        let mut steps: Vec<String> = Vec::new();
        let mut i: usize = 0;
        while i < self.steps.len()
            invariant
                i <= self.steps.len(),
                steps@.len() == i,
                texts(steps@) == texts(self.steps@).take(i as int),
            decreases self.steps.len() - i,
        {
            steps.push(self.steps[i].clone());
            i = i + 1;
            assert(texts(steps@) =~= texts(self.steps@).take(i as int));
        }
        assert(texts(self.steps@).take(i as int) =~= texts(self.steps@));
        Location { root: self.root.clone(), steps }
    }
}

/// One argument of a program: a text, or the path of a place.
#[derive(Clone, Debug, PartialEq, Eq)]
pub enum Argument {
    Text(String),
    Path(Location),
}

/// The mathematical value of an [`Argument`].
pub enum ArgumentView {
    Text(Seq<char>),
    Path(LocationView),
}

impl View for Argument {
    type V = ArgumentView;

    open spec fn view(&self) -> ArgumentView {
        match *self {
            Argument::Text(text) => ArgumentView::Text(text@),
            Argument::Path(place) => ArgumentView::Path(place@),
        }
    }
}

/// The values of the arguments of a list, in order.
pub open spec fn arguments(list: Seq<Argument>) -> Seq<ArgumentView> {
    list.map_values(|argument: Argument| argument@)
}

/// A run of a program.
#[derive(Clone, Debug, PartialEq, Eq)]
pub struct Invocation {
    pub program: Location,
    pub arguments: Vec<Argument>,
}

/// The mathematical value of an [`Invocation`].
pub struct InvocationView {
    pub program: LocationView,
    pub arguments: Seq<ArgumentView>,
}

impl View for Invocation {
    type V = InvocationView;

    open spec fn view(&self) -> InvocationView {
        InvocationView { program: self.program@, arguments: arguments(self.arguments@) }
    }
}

impl Invocation {
    /// A run of `program` without arguments.
    pub fn new(program: Location) -> (r: Invocation)
        ensures
            r@ == (InvocationView { program: program@, arguments: Seq::empty() }),
    {
        let r = Invocation { program, arguments: Vec::new() };
        assert(r@.arguments =~= Seq::<ArgumentView>::empty());
        r
    }

    /// The same run with the text `text` as one more argument.
    pub fn text(self, text: &str) -> (r: Invocation)
        ensures
            r@ == (InvocationView {
                program: self@.program,
                arguments: self@.arguments.push(ArgumentView::Text(text@)),
            }),
    {
        let mut arguments = self.arguments;
        arguments.push(Argument::Text(String::from_str(text)));
        let r = Invocation { program: self.program, arguments };
        assert(r@.arguments =~= self@.arguments.push(ArgumentView::Text(text@)));
        r
    }

    /// The same run with the path of `place` as one more argument.
    pub fn path(self, place: Location) -> (r: Invocation)
        ensures
            r@ == (InvocationView {
                program: self@.program,
                arguments: self@.arguments.push(ArgumentView::Path(place@)),
            }),
    {
        let ghost value = place@;
        let mut arguments = self.arguments;
        arguments.push(Argument::Path(place));
        let r = Invocation { program: self.program, arguments };
        assert(r@.arguments =~= self@.arguments.push(ArgumentView::Path(value)));
        r
    }
}

/// A download: what is fetched, and the directory that receives it. The
/// directory is created where it is missing.
#[derive(Clone, Debug, PartialEq, Eq)]
pub struct Fetch {
    pub url: String,
    pub directory: Location,
}

/// The mathematical value of a [`Fetch`].
pub struct FetchView {
    pub url: Seq<char>,
    pub directory: LocationView,
}

impl View for Fetch {
    type V = FetchView;

    open spec fn view(&self) -> FetchView {
        FetchView { url: self.url@, directory: self.directory@ }
    }
}

/// How the end of a program reads: fine where it reports success, else an
/// error that carries what the program wrote to its error stream.
pub open spec fn exit_verdict(success: bool, stderr: Seq<char>) -> Result<(), ErrorView> {
    if success {
        Ok(())
    } else {
        Err(ErrorView::MiscError { details: "=> "@ + stderr })
    }
}

/// Judges the end of a program by its exit status and its error stream.
pub fn check_exit(success: bool, stderr: &str) -> (r: Result<(), Error>)
    ensures
        match r {
            Ok(()) => exit_verdict(success, stderr@) == Ok::<(), ErrorView>(()),
            Err(error) => exit_verdict(success, stderr@) == Err::<(), ErrorView>(error@),
        },
{
    if success {
        Ok(())
    } else {
        Err(Error::MiscError { details: join2("=> ", stderr) })
    }
}

} // verus!
