//! Checks on a change to nixpkgs, each run on the checkout before the change and on the
//! checkout after it, and the scheduling of these checks.
//!
//! Nothing here reads a file, starts a process or talks to the operator. The checks and the
//! [`scheduler`] say what is to be done and are told what came of it, see [`exchange`]; how
//! a command is run so that it can be cancelled is laid down in [`runner`].

use vstd::prelude::*;
use vstd::string::StringExecFns;

pub mod changes;
pub mod checks;
pub mod exchange;
pub mod failure;
pub mod identity;
pub mod json;
pub mod rounds;
pub mod runner;
pub mod scheduler;
pub mod state;
pub mod text;

pub use checks::Check;
pub use identity::CheckId;
pub use state::State;

verus! {

/// The nix expression that evaluates to the package set of the current checkout.
pub open spec fn nixpkgs_text() -> Seq<char> {
    "(import ./. { overlays = []; })"@
}

/// The nix expression that selects attribute `pkg` of the package set.
pub open spec fn nix_eval_text(pkg: Seq<char>) -> Seq<char> {
    "("@ + nixpkgs_text() + "."@ + pkg + ")"@
}

/// The nix expression that evaluates to the package set of the current checkout.
pub fn nixpkgs() -> (expr: &'static str)
    ensures
        expr@ == nixpkgs_text(),
{
    "(import ./. { overlays = []; })"
}

/// The nix expression that selects attribute `pkg` of the package set.
pub fn nix_eval_for(pkg: &str) -> (expr: String)
    ensures
        expr@ == nix_eval_text(pkg@),
{
    let mut expr = String::from_str("(");
    expr.append(nixpkgs());
    expr.append(".");
    expr.append(pkg);
    expr.append(")");
    expr
}

} // verus!
