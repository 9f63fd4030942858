//! The ways in which confinement can fail, and what the kernel reported of an
//! enforcement.

use vstd::prelude::*;
use landlock::RulesetError;
use crate::limit::Limit;
use crate::plan::{Direction, PathClass};

verus! {

/// Why a restriction could not be established.
///
/// Every failure ends the attempt: none is retried. A failure of the kernel
/// interface carries that interface's own error as `source`.
#[derive(Debug)]
pub enum Error {
    /// The kernel interface refused the declaration of the access classes to
    /// restrict.
    AccessDeclarationFailed { source: RulesetError },
    /// The ruleset could not be created from the declared classes.
    RulesetCreationFailed { source: RulesetError },
    /// A port rule could not be added.
    PortRuleFailed { direction: Direction, source: RulesetError },
    /// A path rule could not be added.
    PathRuleFailed { class: PathClass, source: RulesetError },
    /// The ruleset could not be enforced on the calling thread.
    EnforcementFailed { source: RulesetError },
    /// The kernel enforced nothing of the ruleset: no sandbox is active.
    KernelUnsupported,
    /// The operating system refused a resource ceiling; `errno` is its error
    /// number.
    ResourceLimitFailed { kind: Limit, errno: i32 },
}

/// What the kernel reported after a ruleset was enforced.
#[derive(Copy, Clone, Debug, PartialEq, Eq, Structural, Hash)]
pub enum EnforcementOutcome {
    /// Every requested restriction is in force.
    FullyEnforced,
    /// Some requested restrictions are in force; the running kernel does not
    /// know the others.
    PartiallyEnforced,
    /// No restriction is in force.
    NotEnforced,
}

impl EnforcementOutcome {
    /// Fails closed: an outcome under which nothing is enforced is the error
    /// `KernelUnsupported`; the two others are handed back for the caller to
    /// see.
    pub fn accept(self) -> (res: Result<EnforcementOutcome, Error>)
        ensures
            self == EnforcementOutcome::NotEnforced ==> res matches Err(Error::KernelUnsupported),
            self != EnforcementOutcome::NotEnforced ==> res == Ok::<EnforcementOutcome, Error>(
                self,
            ),
    {
        match self {
            EnforcementOutcome::NotEnforced => Err(Error::KernelUnsupported),
            EnforcementOutcome::FullyEnforced => Ok(EnforcementOutcome::FullyEnforced),
            EnforcementOutcome::PartiallyEnforced => Ok(EnforcementOutcome::PartiallyEnforced),
        }
    }
}

/// A step of the enforcement that asks something of the kernel, and so can
/// be refused by it.
#[derive(Copy, Clone, Debug, PartialEq, Eq, Structural, Hash)]
pub enum Stage {
    /// Declaring the access classes to restrict.
    Declaration,
    /// Creating the ruleset.
    Creation,
    /// Adding a port rule for `direction`.
    PortRule { direction: Direction },
    /// Adding a path rule for the zone `class`.
    PathRule { class: PathClass },
    /// Enforcing the ruleset on the calling thread.
    Enforcement,
}

impl Stage {
    /// The failure to report when the kernel refuses this step with `source`.
    pub open spec fn refusal(self, source: RulesetError) -> Error {
        match self {
            Stage::Declaration => Error::AccessDeclarationFailed { source },
            Stage::Creation => Error::RulesetCreationFailed { source },
            Stage::PortRule { direction } => Error::PortRuleFailed { direction, source },
            Stage::PathRule { class } => Error::PathRuleFailed { class, source },
            Stage::Enforcement => Error::EnforcementFailed { source },
        }
    }

    /// The failure to report when the kernel refuses this step with `source`:
    /// it names the step and carries the kernel interface's own error.
    pub fn refused(self, source: RulesetError) -> (error: Error)
        ensures
            error == self.refusal(source),
    {
        match self {
            Stage::Declaration => Error::AccessDeclarationFailed { source },
            Stage::Creation => Error::RulesetCreationFailed { source },
            Stage::PortRule { direction } => Error::PortRuleFailed { direction, source },
            Stage::PathRule { class } => Error::PathRuleFailed { class, source },
            Stage::Enforcement => Error::EnforcementFailed { source },
        }
    }
}

impl Error {
    /// The step that the kernel refused, where this is such a failure.
    pub open spec fn refused_stage(&self) -> Option<Stage> {
        match *self {
            Error::AccessDeclarationFailed { source } => Some(Stage::Declaration),
            Error::RulesetCreationFailed { source } => Some(Stage::Creation),
            Error::PortRuleFailed { direction, source } => Some(Stage::PortRule { direction }),
            Error::PathRuleFailed { class, source } => Some(Stage::PathRule { class }),
            Error::EnforcementFailed { source } => Some(Stage::Enforcement),
            Error::KernelUnsupported => None,
            Error::ResourceLimitFailed { kind, errno } => None,
        }
    }

    /// The step that the kernel refused, where this is such a failure.
    #[verifier::when_used_as_spec(refused_stage)]
    pub fn stage(&self) -> (stage: Option<Stage>)
        ensures
            stage == self.refused_stage(),
    {
        match self {
            Error::AccessDeclarationFailed { source } => Some(Stage::Declaration),
            Error::RulesetCreationFailed { source } => Some(Stage::Creation),
            Error::PortRuleFailed { direction, source } => Some(
                Stage::PortRule { direction: *direction },
            ),
            Error::PathRuleFailed { class, source } => Some(Stage::PathRule { class: *class }),
            Error::EnforcementFailed { source } => Some(Stage::Enforcement),
            Error::KernelUnsupported => None,
            Error::ResourceLimitFailed { kind, errno } => None,
        }
    }
}

/// A refusal names the step that was refused.
pub proof fn lemma_refusal_names_its_stage(stage: Stage, source: RulesetError)
    ensures
        stage.refusal(source).refused_stage() == Some(stage),
{
}

} // verus!
