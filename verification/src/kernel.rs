//! The calls into the kernel's access-control interface.
//!
//! Nothing in this file is proved. Each function makes one request of the
//! `landlock` crate and hands back what came of it. What comes back depends on
//! the running kernel, so no function here promises anything of its result.
//! Every request names the fourth revision of the kernel interface; the crate
//! drops what an older kernel does not know and reports that in the status of
//! the enforcement.

use vstd::prelude::*;
use landlock::{
    path_beneath_rules, Access, AccessFs, AccessNet, NetPort, Ruleset, RulesetAttr,
    RulesetCreated, RulesetCreatedAttr, RulesetError, RulesetStatus, ABI,
};
use crate::error::EnforcementOutcome;

verus! {

/// `landlock::Ruleset`: a ruleset that is being declared. Opaque here.
#[verifier::external_type_specification]
#[verifier::external_body]
pub struct ExRuleset(Ruleset);

/// `landlock::RulesetCreated`: the handle of a ruleset that the kernel holds.
/// Opaque here.
#[verifier::external_type_specification]
#[verifier::external_body]
pub struct ExRulesetCreated(RulesetCreated);

/// `landlock::RulesetError`: the error of any ruleset action. Opaque here.
#[verifier::external_type_specification]
#[verifier::external_body]
pub struct ExRulesetError(RulesetError);

/// `Ruleset::default`: a ruleset with no access class declared. The call
/// probes the running kernel; nothing is claimed of the result.
#[verifier::external_body]
pub(crate) fn new_ruleset() -> Ruleset {
    Ruleset::default()
}

/// `RulesetAttr::handle_access` with `AccessFs::from_all`: declares as
/// restricted every filesystem access right of the fourth revision, those of
/// reading and those of writing. Nothing is claimed of the result.
#[verifier::external_body]
pub(crate) fn declare_filesystem(ruleset: Ruleset) -> Result<Ruleset, RulesetError> {
    ruleset.handle_access(AccessFs::from_all(ABI::V4))
}

/// `RulesetAttr::handle_access` with `AccessNet::from_all`: declares binding
/// and connecting over TCP as restricted. Nothing is claimed of the result.
#[verifier::external_body]
pub(crate) fn declare_network(ruleset: Ruleset) -> Result<Ruleset, RulesetError> {
    ruleset.handle_access(AccessNet::from_all(ABI::V4))
}

/// `Ruleset::create`: asks the kernel for a ruleset with the declared
/// classes. Nothing is claimed of the result.
#[verifier::external_body]
pub(crate) fn create_ruleset(ruleset: Ruleset) -> Result<RulesetCreated, RulesetError> {
    ruleset.create()
}

/// `RulesetCreatedAttr::add_rule` with a `NetPort` for `AccessNet::BindTcp`:
/// asks for a rule that allows binding to `port`. Nothing is claimed of the
/// result.
#[verifier::external_body]
pub(crate) fn add_bind_rule(handle: RulesetCreated, port: u16) -> Result<
    RulesetCreated,
    RulesetError,
> {
    handle.add_rule(NetPort::new(port, AccessNet::BindTcp))
}

/// `RulesetCreatedAttr::add_rule` with a `NetPort` for
/// `AccessNet::ConnectTcp`: asks for a rule that allows connecting to `port`.
/// Nothing is claimed of the result.
#[verifier::external_body]
pub(crate) fn add_connect_rule(handle: RulesetCreated, port: u16) -> Result<
    RulesetCreated,
    RulesetError,
> {
    handle.add_rule(NetPort::new(port, AccessNet::ConnectTcp))
}

/// `RulesetCreatedAttr::add_rules` over `path_beneath_rules` with
/// `AccessFs::from_read`: opens `path` and asks for a rule that allows
/// beneath it the rights of reading (to execute, to read a file, to list a
/// directory). The crate passes over a path that cannot be opened, and asks
/// for a file only what applies to files. Nothing is claimed of the result.
#[verifier::external_body]
pub(crate) fn add_read_rule(handle: RulesetCreated, path: &str) -> Result<
    RulesetCreated,
    RulesetError,
> {
    handle.add_rules(path_beneath_rules([path], AccessFs::from_read(ABI::V4)))
}

/// `RulesetCreatedAttr::add_rules` over `path_beneath_rules` with
/// `AccessFs::from_write`: opens `path` and asks for a rule that allows
/// beneath it the rights of writing (to write and truncate a file, to create,
/// remove and move entries). The crate passes over a path that cannot be
/// opened, and asks for a file only what applies to files. Nothing is claimed
/// of the result.
#[verifier::external_body]
pub(crate) fn add_write_rule(handle: RulesetCreated, path: &str) -> Result<
    RulesetCreated,
    RulesetError,
> {
    handle.add_rules(path_beneath_rules([path], AccessFs::from_write(ABI::V4)))
}

/// `RulesetCreatedAttr::add_rules` over `path_beneath_rules` with
/// `AccessFs::from_all`: opens `path` and asks for a rule that allows beneath
/// it the rights of reading and those of writing. The crate passes over a
/// path that cannot be opened, and asks for a file only what applies to
/// files. Nothing is claimed of the result.
#[verifier::external_body]
pub(crate) fn add_read_write_rule(handle: RulesetCreated, path: &str) -> Result<
    RulesetCreated,
    RulesetError,
> {
    handle.add_rules(path_beneath_rules([path], AccessFs::from_all(ABI::V4)))
}

/// `RulesetCreated::restrict_self`: enforces the ruleset on the calling
/// thread, for good, and hands back the `ruleset` field of the status, variant
/// for variant. Nothing is claimed of the result.
#[verifier::external_body]
pub(crate) fn restrict_self(handle: RulesetCreated) -> Result<EnforcementOutcome, RulesetError> {
    match handle.restrict_self() {
        Ok(status) => Ok(
            match status.ruleset {
                RulesetStatus::FullyEnforced => EnforcementOutcome::FullyEnforced,
                RulesetStatus::PartiallyEnforced => EnforcementOutcome::PartiallyEnforced,
                RulesetStatus::NotEnforced => EnforcementOutcome::NotEnforced,
            },
        ),
        Err(error) => Err(error),
    }
}

} // verus!
