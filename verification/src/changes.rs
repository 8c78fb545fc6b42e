//! Guessing from the commits of a change which packages it touches.
//!
//! By convention the summary line of a commit begins with the name of the package that the
//! commit is about, followed by a colon. Commits that merge branches follow no such
//! convention and are passed over.

use crate::failure::{Failure, FailureView};
use crate::text::{before_char, holds, prefix_before};
use vstd::prelude::*;
use vstd::string::StringExecFns;

verus! {

/// What is needed of a commit to guess what it is about.
#[derive(Clone, Debug, PartialEq, Eq)]
pub struct Commit {
    /// The name of the commit.
    pub id: String,
    /// How many parents it has.
    pub parents: usize,
    /// Its summary line, where that is text.
    pub summary: Option<String>,
}

/// A commit, as a mathematical value.
pub struct CommitView {
    pub id: Seq<char>,
    pub parents: usize,
    pub summary: Option<Seq<char>>,
}

impl View for Commit {
    type V = CommitView;

    open spec fn view(&self) -> CommitView {
        CommitView { id: self.id@, parents: self.parents, summary: self.summary.deep_view() }
    }
}

impl DeepView for Commit {
    type V = CommitView;

    open spec fn deep_view(&self) -> CommitView {
        self@
    }
}

/// What a summary line names as its subject: what stands in front of its first colon, or
/// the whole line where it has no colon.
pub open spec fn subject(summary: Seq<char>) -> Seq<char> {
    before_char(summary, ':')
}

/// What is said of a commit whose summary line is no text.
pub open spec fn unreadable(commit: CommitView) -> FailureView {
    FailureView::bare("commit "@ + commit.id + " has a non-utf-8 summary"@)
}

/// The packages that `commits` are about, each once, in the order in which they first
/// occur. Only commits with exactly one parent count. The first of them whose summary line
/// is no text makes the guess fail.
pub open spec fn guessed(commits: Seq<CommitView>) -> Result<Seq<Seq<char>>, FailureView>
    decreases commits.len(),
{
    if commits.len() == 0 {
        Ok(Seq::empty())
    } else {
        match guessed(commits.drop_last()) {
            Err(failure) => Err(failure),
            Ok(pkgs) => {
                let commit = commits.last();
                if commit.parents != 1 {
                    Ok(pkgs)
                } else {
                    match commit.summary {
                        None => Err(unreadable(commit)),
                        Some(summary) => if pkgs.contains(subject(summary)) {
                            Ok(pkgs)
                        } else {
                            Ok(pkgs.push(subject(summary)))
                        },
                    }
                }
            },
        }
    }
}

/// The package that a commit with the summary line `summary` is about.
pub fn package_of(summary: &str) -> (pkg: String)
    ensures
        pkg@ == subject(summary@),
{
    prefix_before(summary, ':')
}

/// The packages that `commits` are about.
pub fn changed_packages(commits: &Vec<Commit>) -> (pkgs: Result<Vec<String>, Failure>)
    ensures
        match pkgs {
            Ok(found) => guessed(commits.deep_view()) == Ok::<Seq<Seq<char>>, FailureView>(
                found.deep_view(),
            ),
            Err(failure) => guessed(commits.deep_view()) == Err::<Seq<Seq<char>>, FailureView>(
                failure@,
            ),
        },
{
    let mut pkgs: Vec<String> = Vec::new();
    let mut i: usize = 0;
    assert(commits.deep_view().take(0) =~= Seq::<CommitView>::empty());
    assert(pkgs.deep_view() =~= Seq::<Seq<char>>::empty());
    while i < commits.len()
        invariant
            i <= commits.len(),
            guessed(commits.deep_view().take(i as int)) == Ok::<Seq<Seq<char>>, FailureView>(
                pkgs.deep_view(),
            ),
        decreases commits.len() - i,
    {
        proof {
            let next = commits.deep_view().take(i + 1);
            assert(next.drop_last() =~= commits.deep_view().take(i as int));
            assert(next.last() == commits.deep_view()[i as int]);
        }
        if commits[i].parents == 1 {
            match &commits[i].summary {
                None => {
                    let mut cause = String::from_str("commit ");
                    cause.append(commits[i].id.as_str());
                    cause.append(" has a non-utf-8 summary");
                    proof {
                        lemma_failure_stays(commits.deep_view(), i + 1);
                    }
                    return Err(Failure::new(cause));
                },
                Some(summary) => {
                    let pkg = package_of(summary.as_str());
                    if !holds(&pkgs, pkg.as_str()) {
                        let ghost before = pkgs.deep_view();
                        pkgs.push(pkg);
                        assert(pkgs.deep_view() =~= before.push(pkg@));
                    }
                },
            }
        }
        i = i + 1;
    }
    assert(commits.deep_view().take(commits.len() as int) =~= commits.deep_view());
    Ok(pkgs)
}

/// Once the guess has failed, further commits change nothing.
pub proof fn lemma_failure_stays(commits: Seq<CommitView>, n: int)
    requires
        0 <= n <= commits.len(),
        guessed(commits.take(n)) is Err,
    ensures
        guessed(commits) == guessed(commits.take(n)),
    decreases commits.len() - n,
{
    if n < commits.len() {
        let next = commits.take(n + 1);
        assert(next.drop_last() =~= commits.take(n));
        lemma_failure_stays(commits, n + 1);
    } else {
        assert(commits.take(n) =~= commits);
    }
}

} // verus!
