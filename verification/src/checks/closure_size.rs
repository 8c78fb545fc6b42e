//! Compares the size of the closure of a package between the two sides.

use crate::checks::{AnyCheck, AnyCheckView, Check};
use crate::exchange::{
    out_of_turn, out_of_turn_text, Arg, ArgView, Location, LocationView, Reply, ReplyView, Request,
    RequestView, Side, Step, StepView, step_view,
};
use crate::failure::{Failure, FailureView};
use crate::identity::{parameterised_identity, CheckId};
use crate::json::{as_u64, element, field_of, first_of, json_view, member, parse, read_output, Json};
use crate::nix_eval_for;
use crate::nix_eval_text;
use crate::text::decimal;
use vstd::prelude::*;
use vstd::string::StringExecFns;

verus! {

/// The kind of this check.
pub const KIND: u128 = 0x4949d1064292d3b9f7048307b0e9ce7;

/// Whether `text` can be what `bytesize::ByteSize` displays for `bytes`. A size below a
/// thousand bytes is displayed as the number, a space and the letter B. A larger size is
/// rounded to a larger unit by floating-point arithmetic, of which nothing is claimed.
pub open spec fn shows(text: Seq<char>, bytes: u64) -> bool {
    bytes < 1000 ==> text == decimal(bytes as nat) + " B"@
}

/// Calls `bytesize::ByteSize::b` and `ToString::to_string` on the result, which goes through
/// its `Display`. Trusted: below a thousand bytes the text is the number in decimal digits,
/// a space and the letter B. Nothing is claimed of the text for larger sizes.
#[verifier::external_body]
fn byte_size(bytes: u64) -> (text: String)
    ensures
        shows(text@, bytes),
{
    bytesize::ByteSize::b(bytes).to_string()
}

/// What is known of the size of a closure on one side.
#[derive(Clone, Copy, PartialEq, Eq, Structural, Debug)]
pub enum Measure {
    /// The measuring command was never run.
    NotAttempted,
    /// The operator cancelled the measuring command: there is no verdict.
    Interrupted,
    /// The measuring command ended by itself and reported failure.
    Failed,
    /// The measuring command succeeded and reported this many bytes.
    Size(u64),
}

impl Measure {
    /// Whether there is no measurement because none was made, or because the operator
    /// cancelled it.
    pub open spec fn missing(self) -> bool {
        self == Measure::NotAttempted || self == Measure::Interrupted
    }

    /// How the state of a measurement is put in words.
    pub open spec fn word(self) -> Seq<char> {
        match self {
            Measure::NotAttempted => "not attempted"@,
            Measure::Interrupted => "interrupted"@,
            Measure::Failed => "failed"@,
            Measure::Size(_) => "done"@,
        }
    }

    fn is_missing(self) -> (yes: bool)
        ensures
            yes == self.missing(),
    {
        match self {
            Measure::NotAttempted => true,
            Measure::Interrupted => true,
            _ => false,
        }
    }

    fn worded(self) -> (text: &'static str)
        ensures
            text@ == self.word(),
    {
        match self {
            Measure::NotAttempted => "not attempted",
            Measure::Interrupted => "interrupted",
            Measure::Failed => "failed",
            Measure::Size(_) => "done",
        }
    }
}

/// The size of the closure of one package on both sides.
pub struct Chk {
    pkg: String,
    closure_size_before: Measure,
    closure_size_after: Measure,
    waiting: bool,
}

/// The check as a mathematical value.
pub struct ChkView {
    pub pkg: Seq<char>,
    pub closure_size_before: Measure,
    pub closure_size_after: Measure,
    /// Whether the measuring command is under way.
    pub waiting: bool,
}

/// The closure size that a document printed by `nix path-info --json -S` reports.
pub open spec fn closure_size_in(document: Json) -> Result<u64, FailureView> {
    match first_of(document) {
        None => Err(FailureView::bare("output of nix path-info -S is not an array"@)),
        Some(path) => match field_of(path, "closureSize"@) {
            None => Err(
                FailureView::bare(
                    "output of nix path-info -S does not have closureSize element"@,
                ),
            ),
            Some(Json::Number(Some(size))) => Ok(size),
            Some(_) => Err(
                FailureView::bare("output of nix path-info -S has a non-integer closureSize"@),
            ),
        },
    }
}

/// Reads the closure size off a document printed by `nix path-info --json -S`.
pub fn closure_size_of(document: &serde_json::Value) -> (size: Result<u64, Failure>)
    ensures
        match size {
            Ok(n) => closure_size_in(json_view(*document)) == Ok::<u64, FailureView>(n),
            Err(failure) => closure_size_in(json_view(*document)) == Err::<u64, FailureView>(
                failure@,
            ),
        },
{
    match element(document, 0) {
        None => Err(Failure::because("output of nix path-info -S is not an array")),
        Some(path) => match member(path, "closureSize") {
            None => Err(
                Failure::because("output of nix path-info -S does not have closureSize element"),
            ),
            Some(field) => match as_u64(field) {
                None => Err(
                    Failure::because("output of nix path-info -S has a non-integer closureSize"),
                ),
                Some(size) => Ok(size),
            },
        },
    }
}

impl ChkView {
    /// The check as it is made, before anything was asked or run.
    pub open spec fn fresh(pkg: Seq<char>) -> ChkView {
        ChkView {
            pkg,
            closure_size_before: Measure::NotAttempted,
            closure_size_after: Measure::NotAttempted,
            waiting: false,
        }
    }

    /// The identity of the check.
    pub open spec fn identity(self) -> Seq<char> {
        parameterised_identity(KIND, self.pkg)
    }

    /// The name under which the operator knows the check.
    pub open spec fn title(self) -> Seq<char> {
        "closure-size("@ + self.pkg + ")"@
    }

    /// The command that measures the closure.
    pub open spec fn request(self) -> RequestView {
        RequestView::Run {
            capture_stdout: true,
            program: LocationView::at("nix"@),
            args: seq![
                ArgView::Text("path-info"@),
                ArgView::Text("--json"@),
                ArgView::Text("-S"@),
                ArgView::Text(nix_eval_text(self.pkg)),
            ],
        }
    }

    /// What was under way when measuring on `side` failed.
    pub open spec fn context(self, side: Side) -> Seq<char> {
        "getting closure size of the "@ + side.label_text() + " version of package "@ + self.pkg
    }

    /// The closure size that the output of the measuring command reports.
    pub open spec fn measured(self, side: Side, stdout: Seq<u8>) -> Result<u64, FailureView> {
        match read_output(stdout) {
            Ok(document) => closure_size_in(document),
            Err(failure) => Err(failure.within(self.context(side))),
        }
    }

    /// The check once the measurement on `side` ended with `size`.
    pub open spec fn with_size(self, side: Side, size: Measure) -> ChkView {
        match side {
            Side::Base => ChkView { closure_size_before: size, waiting: false, ..self },
            Side::Candidate => ChkView { closure_size_after: size, waiting: false, ..self },
        }
    }

    /// The check with no run under way.
    pub open spec fn idle(self) -> ChkView {
        ChkView { waiting: false, ..self }
    }

    /// One step of measuring on `side`. A measuring command that the operator cancels, or
    /// that ends by itself and reports failure, is no error: what happened is kept, and
    /// what the command printed is not looked at. Only the output of a command that
    /// succeeded is read, and it is fatal if that cannot be done.
    pub open spec fn run_on(self, side: Side, reply: ReplyView) -> (ChkView, StepView) {
        if !self.waiting {
            match reply {
                ReplyView::Start => (ChkView { waiting: true, ..self }, Ok(Some(self.request()))),
                _ => (self, Err(FailureView::bare(out_of_turn_text()))),
            }
        } else {
            match reply {
                ReplyView::Ran(None) => (self.with_size(side, Measure::Interrupted), Ok(None)),
                ReplyView::Ran(Some(output)) => if !output.success {
                    (self.with_size(side, Measure::Failed), Ok(None))
                } else {
                    match self.measured(side, output.stdout) {
                        Ok(size) => (self.with_size(side, Measure::Size(size)), Ok(None)),
                        Err(failure) => (self.idle(), Err(failure)),
                    }
                },
                ReplyView::Failed(failure) => (
                    self.idle(),
                    Err(failure.within(self.context(side))),
                ),
                _ => (self, Err(FailureView::bare(out_of_turn_text()))),
            }
        }
    }

    /// Measuring a closure never calls for further checks.
    pub open spec fn found(self) -> Seq<AnyCheckView> {
        Seq::empty()
    }

    /// The sign shown for a change from `before` to `after` bytes: all is well where the
    /// size changed by less than a tenth.
    pub open spec fn mark(before: u64, after: u64) -> Seq<char> {
        if distance(before, after) < before / 10 {
            "✔"@
        } else if after > before {
            "💚"@
        } else {
            "😢"@
        }
    }

    /// Which way the size went. A size that stayed as it was counts as decreased.
    pub open spec fn direction(before: u64, after: u64) -> Seq<char> {
        if after > before {
            "increased"@
        } else {
            "decreased"@
        }
    }

    /// The paragraph of the check in the report, where the sizes and their distance are
    /// shown as `before`, `after` and `gap`. Where a measurement is missing, because it was
    /// never made or was cancelled, the paragraph says that the check was interrupted; where
    /// a measurement failed, it says so. The three texts matter only where both sizes are
    /// known.
    pub open spec fn paragraph(self, gap: Seq<char>, before: Seq<char>, after: Seq<char>) -> Seq<
        char,
    > {
        match (self.closure_size_before, self.closure_size_after) {
            (Measure::Size(b), Measure::Size(a)) => "**closure size for "@ + self.pkg + ":** "@
                + Self::mark(b, a) + " "@ + Self::direction(b, a) + " by "@ + gap + ", from "@
                + before + " to "@ + after,
            (b, a) => if b.missing() || a.missing() {
                "**closure size for "@ + self.pkg + ":** 😢 check was interrupted"@
            } else {
                "**closure size for "@ + self.pkg + ":** 😢 size query failed: base measurement "@
                    + b.word() + ", to-check measurement "@ + a.word()
            },
        }
    }

    /// Whether `gap`, `before` and `after` can be what is displayed for the distance of
    /// the two sizes, for the size on the base side and for the size on the candidate side.
    pub open spec fn fits(self, gap: Seq<char>, before: Seq<char>, after: Seq<char>) -> bool {
        match (self.closure_size_before, self.closure_size_after) {
            (Measure::Size(b), Measure::Size(a)) => shows(gap, distance(b, a)) && shows(
                before,
                b,
            ) && shows(after, a),
            _ => true,
        }
    }

    /// Whether `text` can be the paragraph of the check in the report: it is the paragraph
    /// for some way of displaying the sizes. Where a size is missing or a measurement
    /// failed, and where all sizes are below a thousand bytes, there is one such text.
    pub open spec fn reports(self, text: Seq<char>) -> bool {
        exists|gap: Seq<char>, before: Seq<char>, after: Seq<char>|
            self.fits(gap, before, after) && text =~= #[trigger] self.paragraph(gap, before, after)
    }
}

/// How far apart two sizes are.
pub open spec fn distance(before: u64, after: u64) -> u64 {
    if after >= before {
        (after - before) as u64
    } else {
        (before - after) as u64
    }
}

/// A check that lacks a measurement, because it was never made or was cancelled, has one
/// paragraph: it says that the check was interrupted.
pub proof fn lemma_missing_measurement_reports_interruption(check: ChkView, text: Seq<char>)
    requires
        check.closure_size_before.missing() || check.closure_size_after.missing(),
    ensures
        check.reports(text) <==> text == "**closure size for "@ + check.pkg
            + ":** 😢 check was interrupted"@,
{
    let fixed = "**closure size for "@ + check.pkg + ":** 😢 check was interrupted"@;
    assert(check.fits(Seq::empty(), Seq::empty(), Seq::empty()));
    assert(check.paragraph(Seq::empty(), Seq::empty(), Seq::empty()) == fixed);
}

/// A check whose sizes and their distance are all below a thousand bytes has one paragraph,
/// in which each of them is shown as the number of bytes.
pub proof fn lemma_small_sizes_are_shown_in_bytes(check: ChkView, text: Seq<char>)
    requires
        check.closure_size_before matches Measure::Size(before) && before < 1000,
        check.closure_size_after matches Measure::Size(after) && after < 1000,
    ensures
        check.reports(text) <==> text == check.paragraph(
            decimal(
                distance(check.closure_size_before->Size_0, check.closure_size_after->Size_0) as nat,
            ) + " B"@,
            decimal(check.closure_size_before->Size_0 as nat) + " B"@,
            decimal(check.closure_size_after->Size_0 as nat) + " B"@,
        ),
{
    let before = check.closure_size_before->Size_0;
    let after = check.closure_size_after->Size_0;
    let gap = decimal(distance(before, after) as nat) + " B"@;
    let base = decimal(before as nat) + " B"@;
    let candidate = decimal(after as nat) + " B"@;
    assert(check.fits(gap, base, candidate));
    if text == check.paragraph(gap, base, candidate) {
        assert(check.reports(text));
    }
}

impl View for Chk {
    type V = ChkView;

    closed spec fn view(&self) -> ChkView {
        ChkView {
            pkg: self.pkg@,
            closure_size_before: self.closure_size_before,
            closure_size_after: self.closure_size_after,
            waiting: self.waiting,
        }
    }
}

impl Chk {
    /// A check that will measure the closure of `pkg`.
    pub fn new(pkg: String) -> (check: Chk)
        ensures
            check@ == ChkView::fresh(pkg@),
    {
        Chk {
            pkg,
            closure_size_before: Measure::NotAttempted,
            closure_size_after: Measure::NotAttempted,
            waiting: false,
        }
    }

    /// What is known of the size on `side`.
    pub fn measure(&self, side: Side) -> (measure: Measure)
        ensures
            measure == (match side {
                Side::Base => self@.closure_size_before,
                Side::Candidate => self@.closure_size_after,
            }),
    {
        match side {
            Side::Base => self.closure_size_before,
            Side::Candidate => self.closure_size_after,
        }
    }

    fn request(&self) -> (request: Request)
        ensures
            request@ == self@.request(),
    {
        let mut args: Vec<Arg> = Vec::new();
        args.push(Arg::Text(String::from_str("path-info")));
        args.push(Arg::Text(String::from_str("--json")));
        args.push(Arg::Text(String::from_str("-S")));
        args.push(Arg::Text(nix_eval_for(self.pkg.as_str())));
        assert(args.deep_view() =~= self@.request()->Run_args);
        Request::Run { capture_stdout: true, program: Location::at("nix"), args }
    }

    fn context(&self, side: Side) -> (text: String)
        ensures
            text@ == self@.context(side),
    {
        let mut text = String::from_str("getting closure size of the ");
        text.append(side.label());
        text.append(" version of package ");
        text.append(self.pkg.as_str());
        text
    }

    fn measured(&self, side: Side, stdout: &Vec<u8>) -> (size: Result<u64, Failure>)
        ensures
            match size {
                Ok(n) => self@.measured(side, stdout@) == Ok::<u64, FailureView>(n),
                Err(failure) => self@.measured(side, stdout@) == Err::<u64, FailureView>(
                    failure@,
                ),
            },
    {
        match parse(stdout.as_slice()) {
            Ok(document) => closure_size_of(&document),
            Err(failure) => Err(failure.context(self.context(side))),
        }
    }

    fn set_size(&mut self, side: Side, size: Measure)
        ensures
            final(self)@ == old(self)@.with_size(side, size),
    {
        match side {
            Side::Base => {
                self.closure_size_before = size;
            },
            Side::Candidate => {
                self.closure_size_after = size;
            },
        }
        self.waiting = false;
    }

    /// One step of measuring on `side`.
    pub fn run_on(&mut self, side: Side, reply: Reply) -> (step: Step)
        ensures
            final(self)@ == old(self)@.run_on(side, reply@).0,
            step_view(step) == old(self)@.run_on(side, reply@).1,
    {
        if !self.waiting {
            match reply {
                Reply::Start => {
                    let request = self.request();
                    self.waiting = true;
                    Ok(Some(request))
                },
                _ => Err(out_of_turn()),
            }
        } else {
            match reply {
                Reply::Ran(None) => {
                    self.set_size(side, Measure::Interrupted);
                    Ok(None)
                },
                Reply::Ran(Some(output)) => {
                    if !output.success {
                        self.set_size(side, Measure::Failed);
                        Ok(None)
                    } else {
                        match self.measured(side, &output.stdout) {
                            Ok(size) => {
                                self.set_size(side, Measure::Size(size));
                                Ok(None)
                            },
                            Err(failure) => {
                                self.waiting = false;
                                Err(failure)
                            },
                        }
                    }
                },
                Reply::Failed(failure) => {
                    let context = self.context(side);
                    self.waiting = false;
                    Err(failure.context(context))
                },
                _ => Err(out_of_turn()),
            }
        }
    }

    fn mark(before: u64, after: u64) -> (mark: &'static str)
        ensures
            mark@ == ChkView::mark(before, after),
    {
        let gap: u64 = if after >= before {
            after - before
        } else {
            before - after
        };
        if gap < before / 10 {
            "✔"
        } else if after > before {
            "💚"
        } else {
            "😢"
        }
    }
}

impl Check for Chk {
    open spec fn identity(&self) -> Seq<char> {
        self@.identity()
    }

    open spec fn title(&self) -> Seq<char> {
        self@.title()
    }

    open spec fn discoveries(&self) -> Seq<AnyCheckView> {
        self@.found()
    }

    open spec fn reports(&self, text: Seq<char>) -> bool {
        self@.reports(text)
    }

    fn uuid(&self) -> (id: CheckId) {
        CheckId::from_uuid_param(KIND, self.pkg.as_str())
    }

    fn name(&self) -> (name: String) {
        let mut name = String::from_str("closure-size(");
        name.append(self.pkg.as_str());
        name.append(")");
        name
    }

    fn run_before(&mut self, reply: Reply) -> (step: Step)
        ensures
            final(self)@ == old(self)@.run_on(Side::Base, reply@).0,
            step_view(step) == old(self)@.run_on(Side::Base, reply@).1,
    {
        self.run_on(Side::Base, reply)
    }

    fn run_after(&mut self, reply: Reply) -> (step: Step)
        ensures
            final(self)@ == old(self)@.run_on(Side::Candidate, reply@).0,
            step_view(step) == old(self)@.run_on(Side::Candidate, reply@).1,
    {
        self.run_on(Side::Candidate, reply)
    }

    fn additional_needed_tests(&self) -> (found: Result<Vec<AnyCheck>, Failure>)
        ensures
            found is Ok,
    {
        let found: Vec<AnyCheck> = Vec::new();
        assert(found.deep_view() =~= Seq::<AnyCheckView>::empty());
        Ok(found)
    }

    fn report(&self) -> (text: String)
        ensures
            !(self@.closure_size_before is Size && self@.closure_size_after is Size) ==> text@
                == self@.paragraph(Seq::empty(), Seq::empty(), Seq::empty()),
    {
        match (self.closure_size_before, self.closure_size_after) {
            (Measure::Size(before), Measure::Size(after)) => {
                let distance: u64 = if after >= before {
                    after - before
                } else {
                    before - after
                };
                let gap = byte_size(distance);
                let base = byte_size(before);
                let candidate = byte_size(after);
                let text = self.paragraph(gap.as_str(), base.as_str(), candidate.as_str());
                assert(self@.fits(gap@, base@, candidate@));
                text
            },
            _ => {
                let nothing = String::new();
                let text = self.paragraph(nothing.as_str(), nothing.as_str(), nothing.as_str());
                assert(self@.fits(nothing@, nothing@, nothing@));
                text
            },
        }
    }
}

impl Chk {
    /// The paragraph of the check in the report, where the sizes and their distance are
    /// shown as `before`, `after` and `gap`.
    pub fn paragraph(&self, gap: &str, before: &str, after: &str) -> (text: String)
        ensures
            text@ == self@.paragraph(gap@, before@, after@),
    {
        let mut text = String::from_str("**closure size for ");
        text.append(self.pkg.as_str());
        match (self.closure_size_before, self.closure_size_after) {
            (Measure::Size(b), Measure::Size(a)) => {
                text.append(":** ");
                text.append(Chk::mark(b, a));
                text.append(" ");
                text.append(
                    if a > b {
                        "increased"
                    } else {
                        "decreased"
                    },
                );
                text.append(" by ");
                text.append(gap);
                text.append(", from ");
                text.append(before);
                text.append(" to ");
                text.append(after);
                text
            },
            (b, a) => {
                if b.is_missing() || a.is_missing() {
                    text.append(":** 😢 check was interrupted");
                } else {
                    text.append(":** 😢 size query failed: base measurement ");
                    text.append(b.worded());
                    text.append(", to-check measurement ");
                    text.append(a.worded());
                }
                text
            },
        }
    }
}

} // verus!
