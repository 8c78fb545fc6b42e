//! Records the environment in which the checks run: the tool, the platform, and whether
//! nix builds in a sandbox.

use crate::checks::{AnyCheck, AnyCheckView, Check};
use crate::exchange::{
    out_of_turn, out_of_turn_text, Arg, ArgView, Location, LocationView, Reply, ReplyView, Request,
    RequestView, Side, Step, StepView, step_view,
};
use crate::failure::{Failure, FailureView};
use crate::identity::{plain_identity, CheckId};
use crate::json::{as_str, field_of, json_view, member, parse, read_output, Json};
use crate::text::{debug_text, quoted};
use vstd::prelude::*;
use vstd::string::StringExecFns;

verus! {

/// The kind of this check.
pub const KIND: u128 = 0xd203e52c069ece82dde3c43cf82723f8;

/// Where the probe of the configuration stands.
#[derive(Clone, Copy, PartialEq, Eq, Structural, Debug)]
pub enum Stage {
    /// Nothing was asked yet.
    Fresh,
    /// The configuration of nix was asked for.
    Probing,
    /// The configuration is known.
    Settled,
}

/// What is known of the sandbox setting of nix.
pub enum Sandbox {
    /// The configuration was never asked for.
    NotProbed,
    /// The operator cancelled the probe: there is no verdict.
    Interrupted,
    /// The probe ended by itself and reported failure.
    Failed,
    /// The probe succeeded and reported this setting.
    Known(String),
}

/// What is known of the sandbox setting, as a mathematical value.
pub enum SandboxView {
    NotProbed,
    Interrupted,
    Failed,
    Known(Seq<char>),
}

impl View for Sandbox {
    type V = SandboxView;

    open spec fn view(&self) -> SandboxView {
        match self {
            Sandbox::NotProbed => SandboxView::NotProbed,
            Sandbox::Interrupted => SandboxView::Interrupted,
            Sandbox::Failed => SandboxView::Failed,
            Sandbox::Known(setting) => SandboxView::Known(setting@),
        }
    }
}

impl SandboxView {
    /// How the setting is shown in the report: the setting as a quoted string where it is
    /// known, and else why it is not.
    pub open spec fn shown(self) -> Seq<char> {
        match self {
            SandboxView::NotProbed => "sandbox unknown (probe not attempted)"@,
            SandboxView::Interrupted => "sandbox unknown (probe interrupted)"@,
            SandboxView::Failed => "sandbox unknown (probe failed)"@,
            SandboxView::Known(setting) => "sandbox = "@ + debug_text(setting),
        }
    }
}

/// The environment in which the checks run.
pub struct Chk {
    tool: String,
    version: String,
    platform: String,
    sandboxing: Sandbox,
    stage: Stage,
}

/// The check as a mathematical value.
pub struct ChkView {
    /// The name of the tool that runs the checks.
    pub tool: Seq<char>,
    /// Its version.
    pub version: Seq<char>,
    /// The operating system, as detected.
    pub platform: Seq<char>,
    /// What is known of the sandbox setting of nix.
    pub sandboxing: SandboxView,
    pub stage: Stage,
}

/// The sandbox setting that a document printed by `nix show-config --json` reports.
pub open spec fn sandboxing_in(document: Json) -> Result<Seq<char>, FailureView> {
    match field_of(document, "sandbox"@) {
        None => Err(FailureView::bare("nix show-config does not list the sandboxing state"@)),
        Some(setting) => match field_of(setting, "value"@) {
            None => Err(
                FailureView::bare(
                    "nix show-config does not give the value of the sandboxing state"@,
                ),
            ),
            Some(Json::Text(value)) => Ok(value),
            Some(_) => Err(
                FailureView::bare("nix show-config's sandboxing state is not a string"@),
            ),
        },
    }
}

/// Reads the sandbox setting off a document printed by `nix show-config --json`.
pub fn sandboxing_of(document: &serde_json::Value) -> (setting: Result<String, Failure>)
    ensures
        match setting {
            Ok(value) => sandboxing_in(json_view(*document)) == Ok::<Seq<char>, FailureView>(
                value@,
            ),
            Err(failure) => sandboxing_in(json_view(*document)) == Err::<
                Seq<char>,
                FailureView,
            >(failure@),
        },
{
    match member(document, "sandbox") {
        None => Err(Failure::because("nix show-config does not list the sandboxing state")),
        Some(setting) => match member(setting, "value") {
            None => Err(
                Failure::because(
                    "nix show-config does not give the value of the sandboxing state",
                ),
            ),
            Some(value) => match as_str(value) {
                None => Err(
                    Failure::because("nix show-config's sandboxing state is not a string"),
                ),
                Some(text) => Ok(String::from_str(text)),
            },
        },
    }
}

/// How the platform is named: NixOS by its own version where the system is one, any other
/// system by its kind and version.
pub open spec fn platform_text(
    nixos_version: Option<Seq<char>>,
    os: Seq<char>,
    version: Seq<char>,
) -> Seq<char> {
    match nixos_version {
        Some(own) => "NixOS "@ + own,
        None => os + " "@ + version,
    }
}

/// Names the platform. `nixos_version` is what a NixOS system says of its version, and
/// `None` on any other system, which goes by its kind `os` and its version `version`.
pub fn platform(nixos_version: Option<String>, os: &str, version: &str) -> (text: String)
    ensures
        text@ == platform_text(nixos_version.deep_view(), os@, version@),
{
    match nixos_version {
        Some(own) => crate::text::cat2("NixOS ", own.as_str()),
        None => crate::text::cat3(os, " ", version),
    }
}

impl ChkView {
    /// The check as it is made, before anything was asked or run.
    pub open spec fn fresh(tool: Seq<char>, version: Seq<char>, platform: Seq<char>) -> ChkView {
        ChkView { tool, version, platform, sandboxing: SandboxView::NotProbed, stage: Stage::Fresh }
    }

    /// The identity of the check.
    pub open spec fn identity(self) -> Seq<char> {
        plain_identity(KIND)
    }

    /// The name under which the operator knows the check.
    pub open spec fn title(self) -> Seq<char> {
        "environment"@
    }

    /// The command that prints the configuration of nix.
    pub open spec fn probing() -> RequestView {
        RequestView::Run {
            capture_stdout: true,
            program: LocationView::at("nix"@),
            args: seq![ArgView::Text("show-config"@), ArgView::Text("--json"@)],
        }
    }

    /// The sandbox setting that the output of the probe reports.
    pub open spec fn probed(stdout: Seq<u8>) -> Result<Seq<char>, FailureView> {
        match read_output(stdout) {
            Err(failure) => Err(failure.within("reading nix's config"@)),
            Ok(document) => sandboxing_in(document),
        }
    }

    /// One step of the probe. A probe that the operator cancels, or that ends by itself
    /// and reports failure, is no error: the setting stays unknown, and the report says why.
    /// Only the output of a probe that succeeded is read, and it is fatal if that cannot
    /// be done. Every failure is one of checking the environment.
    pub open spec fn setup(self, reply: ReplyView) -> (ChkView, StepView) {
        match (self.stage, reply) {
            (Stage::Fresh, ReplyView::Start) => (
                ChkView { stage: Stage::Probing, ..self },
                Ok(Some(Self::probing())),
            ),
            (Stage::Probing, ReplyView::Ran(None)) => (
                ChkView { sandboxing: SandboxView::Interrupted, stage: Stage::Settled, ..self },
                Ok(None),
            ),
            (Stage::Probing, ReplyView::Ran(Some(output))) => if !output.success {
                (
                    ChkView { sandboxing: SandboxView::Failed, stage: Stage::Settled, ..self },
                    Ok(None),
                )
            } else {
                match Self::probed(output.stdout) {
                    Ok(value) => (
                        ChkView {
                            sandboxing: SandboxView::Known(value),
                            stage: Stage::Settled,
                            ..self
                        },
                        Ok(None),
                    ),
                    Err(failure) => (
                        ChkView { stage: Stage::Fresh, ..self },
                        Err(failure.within("checking the environment"@)),
                    ),
                }
            },
            (Stage::Probing, ReplyView::Failed(failure)) => (
                ChkView { stage: Stage::Fresh, ..self },
                Err(failure.within("reading nix's config"@).within("checking the environment"@)),
            ),
            _ => (self, Err(FailureView::bare(out_of_turn_text()))),
        }
    }

    /// There is nothing to do on either side.
    pub open spec fn run_on(self, side: Side, reply: ReplyView) -> (ChkView, StepView) {
        match reply {
            ReplyView::Start => (self, Ok(None)),
            _ => (self, Err(FailureView::bare(out_of_turn_text()))),
        }
    }

    /// This check never calls for further checks.
    pub open spec fn found(self) -> Seq<AnyCheckView> {
        Seq::empty()
    }

    /// The paragraph of the check in the report.
    pub open spec fn report(self) -> Seq<char> {
        "**version:** `"@ + self.tool + " v"@ + self.version + "` on "@ + self.platform + ", "@
            + self.sandboxing.shown()
    }
}

impl View for Chk {
    type V = ChkView;

    closed spec fn view(&self) -> ChkView {
        ChkView {
            tool: self.tool@,
            version: self.version@,
            platform: self.platform@,
            sandboxing: self.sandboxing@,
            stage: self.stage,
        }
    }
}

impl Chk {
    /// A check for the tool `tool` in version `version`, running on `platform`.
    pub fn new(tool: String, version: String, platform: String) -> (check: Chk)
        ensures
            check@ == ChkView::fresh(tool@, version@, platform@),
    {
        Chk { tool, version, platform, sandboxing: Sandbox::NotProbed, stage: Stage::Fresh }
    }

    /// The sandbox setting of nix, where it is known.
    pub fn sandboxing(&self) -> (setting: Option<String>)
        ensures
            setting.deep_view() == (match self@.sandboxing {
                SandboxView::Known(value) => Some(value),
                _ => None::<Seq<char>>,
            }),
    {
        match &self.sandboxing {
            Sandbox::Known(value) => Some(value.clone()),
            _ => None,
        }
    }

    fn probed(stdout: &Vec<u8>) -> (setting: Result<String, Failure>)
        ensures
            match setting {
                Ok(value) => ChkView::probed(stdout@) == Ok::<Seq<char>, FailureView>(value@),
                Err(failure) => ChkView::probed(stdout@) == Err::<Seq<char>, FailureView>(
                    failure@,
                ),
            },
    {
        match parse(stdout.as_slice()) {
            Err(failure) => Err(failure.context(String::from_str("reading nix's config"))),
            Ok(document) => sandboxing_of(&document),
        }
    }

    /// One step of the probe.
    pub fn setup(&mut self, reply: Reply) -> (step: Step)
        ensures
            final(self)@ == old(self)@.setup(reply@).0,
            step_view(step) == old(self)@.setup(reply@).1,
    {
        match (self.stage, reply) {
            (Stage::Fresh, Reply::Start) => {
                let mut args: Vec<Arg> = Vec::new();
                args.push(Arg::Text(String::from_str("show-config")));
                args.push(Arg::Text(String::from_str("--json")));
                assert(args.deep_view() =~= ChkView::probing()->Run_args);
                self.stage = Stage::Probing;
                Ok(Some(Request::Run { capture_stdout: true, program: Location::at("nix"), args }))
            },
            (Stage::Probing, Reply::Ran(None)) => {
                self.sandboxing = Sandbox::Interrupted;
                self.stage = Stage::Settled;
                Ok(None)
            },
            (Stage::Probing, Reply::Ran(Some(output))) => {
                if !output.success {
                    self.sandboxing = Sandbox::Failed;
                    self.stage = Stage::Settled;
                    Ok(None)
                } else {
                    match Chk::probed(&output.stdout) {
                        Ok(value) => {
                            self.sandboxing = Sandbox::Known(value);
                            self.stage = Stage::Settled;
                            Ok(None)
                        },
                        Err(failure) => {
                            self.stage = Stage::Fresh;
                            Err(failure.context(String::from_str("checking the environment")))
                        },
                    }
                }
            },
            (Stage::Probing, Reply::Failed(failure)) => {
                self.stage = Stage::Fresh;
                Err(
                    failure.context(String::from_str("reading nix's config")).context(
                        String::from_str("checking the environment"),
                    ),
                )
            },
            _ => Err(out_of_turn()),
        }
    }

    /// One step of the run on `side`.
    pub fn run_on(&mut self, side: Side, reply: Reply) -> (step: Step)
        ensures
            final(self)@ == old(self)@.run_on(side, reply@).0,
            step_view(step) == old(self)@.run_on(side, reply@).1,
    {
        match reply {
            Reply::Start => Ok(None),
            _ => Err(out_of_turn()),
        }
    }
}

impl Check for Chk {
    open spec fn identity(&self) -> Seq<char> {
        self@.identity()
    }

    open spec fn title(&self) -> Seq<char> {
        self@.title()
    }

    open spec fn discoveries(&self) -> Seq<AnyCheckView> {
        self@.found()
    }

    open spec fn reports(&self, text: Seq<char>) -> bool {
        text =~= self@.report()
    }

    fn uuid(&self) -> (id: CheckId) {
        CheckId::from_uuid(KIND)
    }

    fn name(&self) -> (name: String) {
        String::from_str("environment")
    }

    fn run_before(&mut self, reply: Reply) -> (step: Step)
        ensures
            final(self)@ == old(self)@.run_on(Side::Base, reply@).0,
            step_view(step) == old(self)@.run_on(Side::Base, reply@).1,
    {
        self.run_on(Side::Base, reply)
    }

    fn run_after(&mut self, reply: Reply) -> (step: Step)
        ensures
            final(self)@ == old(self)@.run_on(Side::Candidate, reply@).0,
            step_view(step) == old(self)@.run_on(Side::Candidate, reply@).1,
    {
        self.run_on(Side::Candidate, reply)
    }

    fn additional_needed_tests(&self) -> (found: Result<Vec<AnyCheck>, Failure>)
        ensures
            found is Ok,
    {
        let found: Vec<AnyCheck> = Vec::new();
        assert(found.deep_view() =~= Seq::<AnyCheckView>::empty());
        Ok(found)
    }

    fn report(&self) -> (text: String) {
        let mut text = String::from_str("**version:** `");
        text.append(self.tool.as_str());
        text.append(" v");
        text.append(self.version.as_str());
        text.append("` on ");
        text.append(self.platform.as_str());
        text.append(", ");
        match &self.sandboxing {
            Sandbox::NotProbed => {
                text.append("sandbox unknown (probe not attempted)");
            },
            Sandbox::Interrupted => {
                text.append("sandbox unknown (probe interrupted)");
            },
            Sandbox::Failed => {
                text.append("sandbox unknown (probe failed)");
            },
            Sandbox::Known(setting) => {
                text.append("sandbox = ");
                text.append(quoted(setting.as_str()).as_str());
            },
        }
        text
    }
}

} // verus!
