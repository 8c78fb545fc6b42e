//! What a check asks of its surroundings, and what it is told in return.
//!
//! A check never touches the outside world itself. It hands out a [`Request`], and whoever
//! drives it carries the request out and comes back with the matching [`Reply`].

use crate::failure::{Failure, FailureView};
use vstd::prelude::*;
use vstd::string::StringExecFns;

verus! {

/// The two states of the checkout that are compared.
#[derive(Clone, Copy, PartialEq, Eq, Structural, Debug)]
pub enum Side {
    Base,
    Candidate,
}

impl Side {
    /// The name under which the operator knows this side.
    pub open spec fn label_text(self) -> Seq<char> {
        match self {
            Side::Base => "base"@,
            Side::Candidate => "to-check"@,
        }
    }

    /// The name under which the operator knows this side.
    pub fn label(self) -> (name: &'static str)
        ensures
            name@ == self.label_text(),
    {
        match self {
            Side::Base => "base",
            Side::Candidate => "to-check",
        }
    }
}

/// What is known of a command that ran to its end.
#[derive(Clone, Debug, PartialEq, Eq)]
pub struct Output {
    /// Whether the command reported success.
    pub success: bool,
    /// What the command wrote to its standard output, where that was captured.
    pub stdout: Vec<u8>,
}

/// What is known of a command that ran to its end, as a mathematical value.
pub struct OutputView {
    pub success: bool,
    pub stdout: Seq<u8>,
}

impl View for Output {
    type V = OutputView;

    open spec fn view(&self) -> OutputView {
        OutputView { success: self.success, stdout: self.stdout@ }
    }
}

impl DeepView for Output {
    type V = OutputView;

    open spec fn deep_view(&self) -> OutputView {
        self@
    }
}

/// How running an external command ended.
#[derive(Clone, Copy, PartialEq, Eq, Structural, Debug)]
pub enum StepOutcome {
    Success,
    Failure,
    /// The operator cancelled the command: there is no verdict.
    Interrupted,
}

impl DeepView for StepOutcome {
    type V = StepOutcome;

    open spec fn deep_view(&self) -> StepOutcome {
        *self
    }
}

impl StepOutcome {
    /// The outcome that a finished or interrupted run stands for.
    pub open spec fn of_run(run: Option<OutputView>) -> StepOutcome {
        match run {
            None => StepOutcome::Interrupted,
            Some(output) => if output.success {
                StepOutcome::Success
            } else {
                StepOutcome::Failure
            },
        }
    }

    /// The outcome that a finished or interrupted run stands for.
    pub fn of(run: &Option<Output>) -> (outcome: StepOutcome)
        ensures
            outcome == StepOutcome::of_run(run.deep_view()),
    {
        match run {
            None => StepOutcome::Interrupted,
            Some(output) => if output.success {
                StepOutcome::Success
            } else {
                StepOutcome::Failure
            },
        }
    }

    /// The verdict, if there is one: an interrupted command says nothing either way.
    pub fn verdict(self) -> (verdict: Option<bool>)
        ensures
            verdict == (match self {
                StepOutcome::Success => Some(true),
                StepOutcome::Failure => Some(false),
                StepOutcome::Interrupted => None::<bool>,
            }),
    {
        match self {
            StepOutcome::Success => Some(true),
            StepOutcome::Failure => Some(false),
            StepOutcome::Interrupted => None,
        }
    }
}

/// A place in the file system: `root`, then each of `parts` below it in turn.
#[derive(Clone, Debug, PartialEq, Eq)]
pub struct Location {
    pub root: String,
    pub parts: Vec<String>,
}

/// A place in the file system, as a mathematical value.
pub struct LocationView {
    pub root: Seq<char>,
    pub parts: Seq<Seq<char>>,
}

impl View for Location {
    type V = LocationView;

    open spec fn view(&self) -> LocationView {
        LocationView { root: self.root@, parts: self.parts.deep_view() }
    }
}

impl DeepView for Location {
    type V = LocationView;

    open spec fn deep_view(&self) -> LocationView {
        self@
    }
}

impl LocationView {
    /// The place `root` itself.
    pub open spec fn at(root: Seq<char>) -> LocationView {
        LocationView { root, parts: Seq::empty() }
    }

    /// The place `part` below this one.
    pub open spec fn below(self, part: Seq<char>) -> LocationView {
        LocationView { root: self.root, parts: self.parts.push(part) }
    }
}

impl Location {
    /// The place `root` itself.
    pub fn at(root: &str) -> (place: Location)
        ensures
            place@ == LocationView::at(root@),
    {
        let place = Location { root: String::from_str(root), parts: Vec::new() };
        assert(place.parts.deep_view() =~= Seq::<Seq<char>>::empty());
        place
    }

    /// The place `part` below this one.
    pub fn below(self, part: &str) -> (place: Location)
        ensures
            place@ == self@.below(part@),
    {
        let Location { root, parts } = self;
        let mut parts = parts;
        let ghost before = parts.deep_view();
        parts.push(String::from_str(part));
        assert(parts.deep_view() =~= before.push(part@));
        Location { root, parts }
    }
}

/// One argument of a command.
#[derive(Clone, Debug, PartialEq, Eq)]
pub enum Arg {
    Text(String),
    Path(Location),
}

/// One argument of a command, as a mathematical value.
pub enum ArgView {
    Text(Seq<char>),
    Path(LocationView),
}

impl View for Arg {
    type V = ArgView;

    open spec fn view(&self) -> ArgView {
        match self {
            Arg::Text(text) => ArgView::Text(text@),
            Arg::Path(place) => ArgView::Path(place@),
        }
    }
}

impl DeepView for Arg {
    type V = ArgView;

    open spec fn deep_view(&self) -> ArgView {
        self@
    }
}

/// How a line shown to the operator is set off.
#[derive(Clone, Copy, PartialEq, Eq, Structural, Debug)]
pub enum Tone {
    Plain,
    /// A heading.
    Strong,
    /// Text that is no longer there.
    Removed,
    /// Text that is new.
    Added,
}

/// What a check needs done before it can go on.
#[derive(Clone, Debug, PartialEq, Eq)]
pub enum Request {
    /// Make a fresh, empty directory to work in.
    Scratch,
    /// Run a command until it ends or the operator cancels it.
    Run { capture_stdout: bool, program: Location, args: Vec<Arg> },
    /// List the names of the entries of a directory. Where `optional` is set, a directory
    /// that does not exist is no failure: the reply says that there is none.
    List { dir: Location, optional: bool },
    /// Show a line to the operator.
    Say { line: String, tone: Tone },
    /// Let the operator tick any number of `items`, all of them ticked to begin with where
    /// `all_ticked` is set, and none otherwise.
    Choose { prompt: String, items: Vec<String>, all_ticked: bool },
    /// Let the operator answer yes or no.
    Confirm { prompt: String },
    /// Let the operator type a line, starting from `initial` where there is one.
    Ask { prompt: String, initial: Option<String> },
    /// Let the operator pick one of `items`, with `preselected` under the cursor.
    Pick { prompt: String, items: Vec<String>, preselected: usize },
}

/// A request, as a mathematical value.
pub enum RequestView {
    Scratch,
    Run { capture_stdout: bool, program: LocationView, args: Seq<ArgView> },
    List { dir: LocationView, optional: bool },
    Say { line: Seq<char>, tone: Tone },
    Choose { prompt: Seq<char>, items: Seq<Seq<char>>, all_ticked: bool },
    Confirm { prompt: Seq<char> },
    Ask { prompt: Seq<char>, initial: Option<Seq<char>> },
    Pick { prompt: Seq<char>, items: Seq<Seq<char>>, preselected: usize },
}

impl View for Request {
    type V = RequestView;

    open spec fn view(&self) -> RequestView {
        match self {
            Request::Scratch => RequestView::Scratch,
            Request::Run { capture_stdout, program, args } => RequestView::Run {
                capture_stdout: *capture_stdout,
                program: program@,
                args: args.deep_view(),
            },
            Request::List { dir, optional } => RequestView::List {
                dir: dir@,
                optional: *optional,
            },
            Request::Say { line, tone } => RequestView::Say { line: line@, tone: *tone },
            Request::Choose { prompt, items, all_ticked } => RequestView::Choose {
                prompt: prompt@,
                items: items.deep_view(),
                all_ticked: *all_ticked,
            },
            Request::Confirm { prompt } => RequestView::Confirm { prompt: prompt@ },
            Request::Ask { prompt, initial } => RequestView::Ask {
                prompt: prompt@,
                initial: initial.deep_view(),
            },
            Request::Pick { prompt, items, preselected } => RequestView::Pick {
                prompt: prompt@,
                items: items.deep_view(),
                preselected: *preselected,
            },
        }
    }
}

impl DeepView for Request {
    type V = RequestView;

    open spec fn deep_view(&self) -> RequestView {
        self@
    }
}

/// What came of the request that a check made last.
#[derive(Clone, Debug, PartialEq, Eq)]
pub enum Reply {
    /// Nothing was asked yet: the check is to begin.
    Start,
    /// The path of the directory made for `Request::Scratch`.
    Scratch(String),
    /// The end of a `Request::Run`; `None` when the operator cancelled the command.
    Ran(Option<Output>),
    /// The names of the entries found for `Request::List`, with `None` in place of a name
    /// that is no text; `None` for all when there is no such directory and the request
    /// allowed for that.
    Listed(Option<Vec<Option<String>>>),
    /// The line of `Request::Say` was shown.
    Said,
    /// The positions of the items that the operator ticked.
    Chosen(Vec<usize>),
    /// The line that the operator typed.
    Answered(String),
    /// The position of the item that the operator picked.
    Picked(usize),
    /// Whether the operator answered yes.
    Confirmed(bool),
    /// The request could not be carried out.
    Failed(Failure),
}

/// A reply, as a mathematical value.
pub enum ReplyView {
    Start,
    Scratch(Seq<char>),
    Ran(Option<OutputView>),
    Listed(Option<Seq<Option<Seq<char>>>>),
    Said,
    Chosen(Seq<usize>),
    Answered(Seq<char>),
    Picked(usize),
    Confirmed(bool),
    Failed(FailureView),
}

impl View for Reply {
    type V = ReplyView;

    open spec fn view(&self) -> ReplyView {
        match self {
            Reply::Start => ReplyView::Start,
            Reply::Scratch(path) => ReplyView::Scratch(path@),
            Reply::Ran(run) => ReplyView::Ran(run.deep_view()),
            Reply::Listed(names) => ReplyView::Listed(names.deep_view()),
            Reply::Said => ReplyView::Said,
            Reply::Chosen(ticked) => ReplyView::Chosen(ticked@),
            Reply::Answered(line) => ReplyView::Answered(line@),
            Reply::Picked(position) => ReplyView::Picked(*position),
            Reply::Confirmed(yes) => ReplyView::Confirmed(*yes),
            Reply::Failed(failure) => ReplyView::Failed(failure@),
        }
    }
}

/// How one step of a check ended: with a request, with nothing left to do, or fatally.
pub type Step = Result<Option<Request>, Failure>;

/// How one step of a check ended, as a mathematical value.
pub type StepView = Result<Option<RequestView>, FailureView>;

/// The model of a step.
pub open spec fn step_view(step: Step) -> StepView {
    match step {
        Ok(request) => Ok(request.deep_view()),
        Err(failure) => Err(failure@),
    }
}

/// The failure that answers a reply which does not fit the request made.
pub open spec fn out_of_turn_text() -> Seq<char> {
    "the reply does not answer the request that was made"@
}

/// The failure that answers a reply which does not fit the request made.
pub fn out_of_turn() -> (failure: Failure)
    ensures
        failure@ == FailureView::bare(out_of_turn_text()),
{
    Failure::because("the reply does not answer the request that was made")
}

} // verus!
