//! Asks the operator which packages the change touches; each of them is then built.

use crate::checks::{build_pkg, AnyCheck, AnyCheckView, Check};
use crate::exchange::{
    out_of_turn, out_of_turn_text, Reply, ReplyView, Request, RequestView, Side, Step, StepView,
    step_view,
};
use crate::failure::{Failure, FailureView};
use crate::identity::{plain_identity, CheckId};
use crate::text::{copy_all, debug_text, dedup, distinct, holds, join, joined, quoted};
use vstd::prelude::*;
use vstd::string::StringExecFns;

verus! {

/// The kind of this check.
pub const KIND: u128 = 0xd173872f19b0a1d30b96ed9929e23250;

/// Where the questions to the operator stand.
#[derive(Clone, Copy, PartialEq, Eq, Structural, Debug)]
pub enum Stage {
    /// Nothing was asked yet.
    Fresh,
    /// The operator is ticking the packages that were guessed.
    Choosing,
    /// The operator is naming further packages.
    Adding,
    /// All is answered.
    Settled,
}

/// The packages that the operator declares to be touched by the change.
pub struct Chk {
    guessed: Vec<String>,
    pkgs: Vec<String>,
    stage: Stage,
}

/// The check as a mathematical value.
pub struct ChkView {
    /// The packages guessed from the change, offered to the operator.
    pub guessed: Seq<Seq<char>>,
    /// The packages that the operator declared; none of them twice.
    pub pkgs: Seq<Seq<char>>,
    pub stage: Stage,
}

/// The items of `items` at the positions `ticked`, in the order of `ticked`. Positions
/// beyond the end are passed over.
pub open spec fn picked(items: Seq<Seq<char>>, ticked: Seq<usize>) -> Seq<Seq<char>>
    decreases ticked.len(),
{
    if ticked.len() == 0 {
        Seq::empty()
    } else if ticked.last() < items.len() {
        picked(items, ticked.drop_last()).push(items[ticked.last() as int])
    } else {
        picked(items, ticked.drop_last())
    }
}

/// `items` with `item` in it: at the end, unless it is there already.
pub open spec fn with_item(items: Seq<Seq<char>>, item: Seq<char>) -> Seq<Seq<char>> {
    if items.contains(item) {
        items
    } else {
        items.push(item)
    }
}

/// How a package is shown in the report.
pub open spec fn shown() -> spec_fn(Seq<char>) -> Seq<char> {
    |name: Seq<char>| debug_text(name)
}

/// The build of a package, not yet run.
pub open spec fn built() -> spec_fn(Seq<char>) -> AnyCheckView {
    |pkg: Seq<char>| AnyCheckView::Build(build_pkg::ChkView::fresh(pkg))
}

impl ChkView {
    /// The check as it is made, before anything was asked or run.
    pub open spec fn fresh(guessed: Seq<Seq<char>>) -> ChkView {
        ChkView { guessed: distinct(guessed), pkgs: Seq::empty(), stage: Stage::Fresh }
    }

    /// No package is offered twice, and none is declared twice.
    pub open spec fn unique(self) -> bool {
        self.guessed.no_duplicates() && self.pkgs.no_duplicates()
    }

    /// The identity of the check.
    pub open spec fn identity(self) -> Seq<char> {
        plain_identity(KIND)
    }

    /// The name under which the operator knows the check.
    pub open spec fn title(self) -> Seq<char> {
        "ask-package-names"@
    }

    /// The question which of the guessed packages are to be tested.
    pub open spec fn choosing(self) -> RequestView {
        RequestView::Choose {
            prompt: "which packages do you want to test? [space to select, enter to validate]"@,
            items: self.guessed,
            all_ticked: true,
        }
    }

    /// The question for one more package.
    pub open spec fn adding() -> RequestView {
        RequestView::Ask {
            prompt: "what other packages do you want to test? [empty to stop]"@,
            initial: None,
        }
    }

    /// What is under way while the operator is asked.
    pub open spec fn context() -> Seq<char> {
        "asking the user for package names"@
    }

    /// One step of the questions to the operator: the guessed packages are offered, then
    /// further ones are asked for until an empty line ends the list.
    pub open spec fn setup(self, reply: ReplyView) -> (ChkView, StepView) {
        match (self.stage, reply) {
            (Stage::Fresh, ReplyView::Start) => (
                ChkView { stage: Stage::Choosing, ..self },
                Ok(Some(self.choosing())),
            ),
            (Stage::Choosing, ReplyView::Chosen(ticked)) => (
                ChkView {
                    pkgs: distinct(picked(self.guessed, ticked)),
                    stage: Stage::Adding,
                    ..self
                },
                Ok(Some(Self::adding())),
            ),
            (Stage::Adding, ReplyView::Answered(line)) => if line.len() == 0 {
                (ChkView { stage: Stage::Settled, ..self }, Ok(None))
            } else {
                (ChkView { pkgs: with_item(self.pkgs, line), ..self }, Ok(Some(Self::adding())))
            },
            (Stage::Choosing, ReplyView::Failed(failure)) => (
                self,
                Err(failure.within(Self::context())),
            ),
            (Stage::Adding, ReplyView::Failed(failure)) => (
                self,
                Err(failure.within(Self::context())),
            ),
            _ => (self, Err(FailureView::bare(out_of_turn_text()))),
        }
    }

    /// There is nothing to do on either side.
    pub open spec fn run_on(self, side: Side, reply: ReplyView) -> (ChkView, StepView) {
        match reply {
            ReplyView::Start => (self, Ok(None)),
            _ => (self, Err(FailureView::bare(out_of_turn_text()))),
        }
    }

    /// Every declared package is to be built.
    pub open spec fn found(self) -> Seq<AnyCheckView> {
        self.pkgs.map_values(built())
    }

    /// The paragraph of the check in the report: the declared packages, as a set. As long
    /// as the operator has not answered, it says that they were not asked.
    pub open spec fn report(self) -> Seq<char> {
        if self.stage != Stage::Settled {
            "**packages declared changed:** 😢 the operator was not asked"@
        } else {
            "**packages declared changed:** {"@ + joined(self.pkgs.map_values(shown()), ", "@)
                + "}"@
        }
    }
}

/// A check starts without repetitions among its packages, whatever was guessed.
pub proof fn lemma_fresh_is_unique(guessed: Seq<Seq<char>>)
    ensures
        ChkView::fresh(guessed).unique(),
{
    crate::text::lemma_distinct(guessed);
}

/// Every answer of the operator keeps the packages without repetitions, whatever they tick
/// and whatever they type.
pub proof fn lemma_setup_keeps_unique(check: ChkView, reply: ReplyView)
    requires
        check.unique(),
    ensures
        check.setup(reply).0.unique(),
{
    if let ReplyView::Chosen(ticked) = reply {
        crate::text::lemma_distinct(picked(check.guessed, ticked));
    }
}

/// The builds that are called for differ in their identities: no package is built twice.
pub proof fn lemma_builds_differ(check: ChkView)
    requires
        check.unique(),
    ensures
        forall|i: int, j: int|
            0 <= i < check.found().len() && 0 <= j < check.found().len() && i != j ==> (
            #[trigger] check.found()[i]).identity() != (#[trigger] check.found()[j]).identity(),
{
    assert forall|i: int, j: int|
        0 <= i < check.found().len() && 0 <= j < check.found().len() && i != j implies (
    #[trigger] check.found()[i]).identity() != (#[trigger] check.found()[j]).identity() by {
        if check.found()[i].identity() == check.found()[j].identity() {
            crate::identity::lemma_identity_tells_parameters_apart(
                build_pkg::KIND,
                check.pkgs[i],
                build_pkg::KIND,
                check.pkgs[j],
            );
        }
    }
}

impl View for Chk {
    type V = ChkView;

    closed spec fn view(&self) -> ChkView {
        ChkView {
            guessed: self.guessed.deep_view(),
            pkgs: self.pkgs.deep_view(),
            stage: self.stage,
        }
    }
}

/// The items of `items` at the positions `ticked`.
fn pick(items: &Vec<String>, ticked: &Vec<usize>) -> (chosen: Vec<String>)
    ensures
        chosen.deep_view() == picked(items.deep_view(), ticked@),
{
    let mut chosen: Vec<String> = Vec::new();
    let mut i: usize = 0;
    assert(ticked@.take(0) =~= Seq::<usize>::empty());
    assert(chosen.deep_view() =~= Seq::<Seq<char>>::empty());
    while i < ticked.len()
        invariant
            i <= ticked.len(),
            chosen.deep_view() == picked(items.deep_view(), ticked@.take(i as int)),
        decreases ticked.len() - i,
    {
        proof {
            let next = ticked@.take(i + 1);
            assert(next.drop_last() =~= ticked@.take(i as int));
            assert(next.last() == ticked@[i as int]);
        }
        if ticked[i] < items.len() {
            let ghost before = chosen.deep_view();
            chosen.push(items[ticked[i]].clone());
            assert(chosen.deep_view() =~= before.push(items.deep_view()[ticked@[i as int] as int]));
        }
        i = i + 1;
    }
    assert(ticked@.take(ticked.len() as int) =~= ticked@);
    chosen
}

impl Chk {
    #[verifier::type_invariant]
    closed spec fn sound(&self) -> bool {
        self@.unique()
    }

    /// A check that will offer the packages `guessed` to the operator.
    pub fn new(guessed: Vec<String>) -> (check: Chk)
        ensures
            check@ == ChkView::fresh(guessed.deep_view()),
            check@.unique(),
    {
        proof {
            lemma_fresh_is_unique(guessed.deep_view());
        }
        let check = Chk { guessed: dedup(&guessed), pkgs: Vec::new(), stage: Stage::Fresh };
        assert(check.pkgs.deep_view() =~= Seq::<Seq<char>>::empty());
        check
    }

    /// The packages that the operator declared.
    pub fn packages(&self) -> (pkgs: Vec<String>)
        ensures
            pkgs.deep_view() == self@.pkgs,
    {
        copy_all(&self.pkgs)
    }

    fn adding() -> (request: Request)
        ensures
            request@ == ChkView::adding(),
    {
        Request::Ask {
            prompt: String::from_str("what other packages do you want to test? [empty to stop]"),
            initial: None,
        }
    }

    /// One step of the questions to the operator.
    pub fn setup(&mut self, reply: Reply) -> (step: Step)
        ensures
            final(self)@ == old(self)@.setup(reply@).0,
            step_view(step) == old(self)@.setup(reply@).1,
            final(self)@.unique(),
    {
        proof {
            use_type_invariant(&*self);
            lemma_setup_keeps_unique(self@, reply@);
        }
        match (self.stage, reply) {
            (Stage::Fresh, Reply::Start) => {
                self.stage = Stage::Choosing;
                Ok(
                    Some(
                        Request::Choose {
                            prompt: String::from_str(
                                "which packages do you want to test? [space to select, enter to validate]",
                            ),
                            items: copy_all(&self.guessed),
                            all_ticked: true,
                        },
                    ),
                )
            },
            (Stage::Choosing, Reply::Chosen(ticked)) => {
                let chosen = pick(&self.guessed, &ticked);
                proof {
                    crate::text::lemma_distinct(chosen.deep_view());
                }
                self.pkgs = dedup(&chosen);
                self.stage = Stage::Adding;
                Ok(Some(Chk::adding()))
            },
            (Stage::Adding, Reply::Answered(line)) => {
                if crate::text::char_count(line.as_str()) == 0 {
                    self.stage = Stage::Settled;
                    Ok(None)
                } else {
                    if !holds(&self.pkgs, line.as_str()) {
                        let mut pkgs: Vec<String> = Vec::new();
                        assert(pkgs.deep_view() =~= Seq::<Seq<char>>::empty());
                        std::mem::swap(&mut pkgs, &mut self.pkgs);
                        let ghost before = pkgs.deep_view();
                        pkgs.push(line);
                        assert(pkgs.deep_view() =~= before.push(line@));
                        self.pkgs = pkgs;
                    }
                    Ok(Some(Chk::adding()))
                }
            },
            (Stage::Choosing, Reply::Failed(failure)) => Err(
                failure.context(String::from_str("asking the user for package names")),
            ),
            (Stage::Adding, Reply::Failed(failure)) => Err(
                failure.context(String::from_str("asking the user for package names")),
            ),
            _ => Err(out_of_turn()),
        }
    }

    /// One step of the run on `side`.
    pub fn run_on(&mut self, side: Side, reply: Reply) -> (step: Step)
        ensures
            final(self)@ == old(self)@.run_on(side, reply@).0,
            step_view(step) == old(self)@.run_on(side, reply@).1,
    {
        match reply {
            Reply::Start => Ok(None),
            _ => Err(out_of_turn()),
        }
    }

    fn names_shown(&self) -> (texts: Vec<String>)
        ensures
            texts.deep_view() == self@.pkgs.map_values(shown()),
    {
        let mut texts: Vec<String> = Vec::new();
        let mut i: usize = 0;
        while i < self.pkgs.len()
            invariant
                i <= self.pkgs.len(),
                texts@.len() == i,
                forall|j: int| 0 <= j < i ==> texts@[j]@ == debug_text(self.pkgs.deep_view()[j]),
            decreases self.pkgs.len() - i,
        {
            texts.push(quoted(self.pkgs[i].as_str()));
            i = i + 1;
        }
        assert(texts.deep_view() =~= self@.pkgs.map_values(shown()));
        texts
    }
}

impl Check for Chk {
    open spec fn identity(&self) -> Seq<char> {
        self@.identity()
    }

    open spec fn title(&self) -> Seq<char> {
        self@.title()
    }

    open spec fn discoveries(&self) -> Seq<AnyCheckView> {
        self@.found()
    }

    open spec fn reports(&self, text: Seq<char>) -> bool {
        text =~= self@.report()
    }

    fn uuid(&self) -> (id: CheckId) {
        CheckId::from_uuid(KIND)
    }

    fn name(&self) -> (name: String) {
        String::from_str("ask-package-names")
    }

    fn run_before(&mut self, reply: Reply) -> (step: Step)
        ensures
            final(self)@ == old(self)@.run_on(Side::Base, reply@).0,
            step_view(step) == old(self)@.run_on(Side::Base, reply@).1,
    {
        self.run_on(Side::Base, reply)
    }

    fn run_after(&mut self, reply: Reply) -> (step: Step)
        ensures
            final(self)@ == old(self)@.run_on(Side::Candidate, reply@).0,
            step_view(step) == old(self)@.run_on(Side::Candidate, reply@).1,
    {
        self.run_on(Side::Candidate, reply)
    }

    fn additional_needed_tests(&self) -> (found: Result<Vec<AnyCheck>, Failure>)
        ensures
            found is Ok,
            found matches Ok(checks) ==> forall|i: int, j: int|
                0 <= i < checks.len() && 0 <= j < checks.len() && i != j ==> (
                #[trigger] checks@[i])@.identity() != (#[trigger] checks@[j])@.identity(),
    {
        proof {
            use_type_invariant(self);
            lemma_builds_differ(self@);
        }
        let mut found: Vec<AnyCheck> = Vec::new();
        let mut i: usize = 0;
        while i < self.pkgs.len()
            invariant
                i <= self.pkgs.len(),
                found@.len() == i,
                forall|j: int|
                    0 <= j < i ==> (#[trigger] found@[j])@ == built()(self.pkgs.deep_view()[j]),
            decreases self.pkgs.len() - i,
        {
            found.push(AnyCheck::Build(build_pkg::Chk::new(self.pkgs[i].clone())));
            i = i + 1;
        }
        assert(found.deep_view() =~= self@.found());
        assert forall|i: int, j: int|
            0 <= i < found.len() && 0 <= j < found.len() && i != j implies (
        #[trigger] found@[i])@.identity() != (#[trigger] found@[j])@.identity() by {
            assert(found.deep_view()[i] == found@[i]@);
            assert(found.deep_view()[j] == found@[j]@);
        }
        Ok(found)
    }

    fn report(&self) -> (text: String) {
        if self.stage != Stage::Settled {
            return String::from_str("**packages declared changed:** 😢 the operator was not asked");
        }
        let mut text = String::from_str("**packages declared changed:** {");
        text.append(join(&self.names_shown(), ", ").as_str());
        text.append("}");
        text
    }
}

} // verus!
