//! Submitting a policy to the kernel and enforcing it on the calling thread.
//!
//! The requests are made in the order of the policy's plan, and the ruleset
//! is enforced only once every request of the plan has been accepted. The
//! first refusal ends the attempt.

use vstd::prelude::*;
use landlock::{RulesetCreated, RulesetError};
use crate::error::{EnforcementOutcome, Error, Stage};
use crate::kernel;
use crate::plan::{
    path_requests, port_requests, Direction, PathClass, Request, RequestView, SENTINEL_PORT,
};
use crate::policy::{texts, Policy, Rules};

verus! {

impl RequestView {
    /// The step that makes this request.
    pub open spec fn stage(self) -> Stage {
        match self {
            RequestView::Port { port, direction } => Stage::PortRule { direction },
            RequestView::Path { path, class } => Stage::PathRule { class },
        }
    }
}

impl<'a> Request<'a> {
    /// The step that makes this request: it names the direction of a port
    /// rule and the zone of a path rule.
    pub fn stage(&self) -> (stage: Stage)
        ensures
            stage == self@.stage(),
    {
        match *self {
            Request::Port { port, direction } => Stage::PortRule { direction },
            Request::Path { path, class } => Stage::PathRule { class },
        }
    }
}

/// What an enforcement came to, given the kernel's answer to it.
///
/// A refusal is the failure of the enforcement step. An answer under which
/// nothing is enforced is the failure `KernelUnsupported`: no sandbox is
/// active, and the caller must not go on as if one were. Any other answer is
/// success and is handed on.
pub open spec fn conclusion(answer: Result<EnforcementOutcome, RulesetError>) -> Result<
    EnforcementOutcome,
    Error,
> {
    match answer {
        Err(source) => Err(Error::EnforcementFailed { source }),
        Ok(EnforcementOutcome::NotEnforced) => Err(Error::KernelUnsupported),
        Ok(outcome) => Ok(outcome),
    }
}

/// What an enforcement came to, given the kernel's answer to it.
pub fn conclude(answer: Result<EnforcementOutcome, RulesetError>) -> (res: Result<
    EnforcementOutcome,
    Error,
>)
    ensures
        res == conclusion(answer),
{
    match answer {
        Ok(outcome) => outcome.accept(),
        Err(source) => Err(Stage::Enforcement.refused(source)),
    }
}

/// A ruleset that the kernel holds, together with the requests that have been
/// made of it, oldest first. It lives from its creation to its enforcement
/// and is handed from one step to the next.
struct CompiledRuleset {
    handle: RulesetCreated,
    submitted: Ghost<Seq<RequestView>>,
}

impl CompiledRuleset {
    /// The requests made of this ruleset so far.
    closed spec fn submitted(&self) -> Seq<RequestView> {
        self.submitted@
    }

    /// Declares the filesystem and the network classes as restricted and
    /// creates the ruleset. No request has been made of it yet.
    fn create() -> (res: Result<CompiledRuleset, Error>)
        ensures
            res matches Ok(ruleset) ==> ruleset.submitted() == Seq::<RequestView>::empty(),
            res matches Err(error) ==> error.stage() == Some(Stage::Declaration) || error.stage()
                == Some(Stage::Creation),
    {
        let declared = match kernel::declare_filesystem(kernel::new_ruleset()) {
            Ok(ruleset) => ruleset,
            Err(source) => {
                return Err(Stage::Declaration.refused(source));
            },
        };
        let declared = match kernel::declare_network(declared) {
            Ok(ruleset) => ruleset,
            Err(source) => {
                return Err(Stage::Declaration.refused(source));
            },
        };
        match kernel::create_ruleset(declared) {
            Ok(handle) => Ok(CompiledRuleset { handle, submitted: Ghost(Seq::empty()) }),
            Err(source) => Err(Stage::Creation.refused(source)),
        }
    }

    /// Makes one request of the kernel.
    fn submit(self, request: Request<'_>) -> (res: Result<CompiledRuleset, Error>)
        ensures
            res matches Ok(ruleset) ==> ruleset.submitted() == self.submitted().push(request@),
            res matches Err(error) ==> error.stage() == Some(request@.stage()),
    {
        let answer = match request {
            Request::Port { port, direction: Direction::Bind } => kernel::add_bind_rule(
                self.handle,
                port,
            ),
            Request::Port { port, direction: Direction::Connect } => kernel::add_connect_rule(
                self.handle,
                port,
            ),
            Request::Path { path, class: PathClass::ReadOnly } => kernel::add_read_rule(
                self.handle,
                path,
            ),
            Request::Path { path, class: PathClass::WriteOnly } => kernel::add_write_rule(
                self.handle,
                path,
            ),
            Request::Path { path, class: PathClass::ReadWrite } => kernel::add_read_write_rule(
                self.handle,
                path,
            ),
        };
        match answer {
            Ok(handle) => Ok(
                CompiledRuleset { handle, submitted: Ghost(self.submitted@.push(request@)) },
            ),
            Err(source) => Err(request.stage().refused(source)),
        }
    }

    /// Makes the port requests of one direction: one for each listed port, or
    /// the one with the sentinel port where none is listed.
    fn submit_ports(self, ports: &Vec<u16>, direction: Direction) -> (res: Result<
        CompiledRuleset,
        Error,
    >)
        ensures
            res matches Ok(ruleset) ==> ruleset.submitted() == self.submitted() + port_requests(
                ports@,
                direction,
            ),
            res matches Err(error) ==> error.stage() == Some(Stage::PortRule { direction }),
    {
        if ports.len() == 0 {
            assert(self.submitted().push(RequestView::Port { port: SENTINEL_PORT, direction })
                =~= self.submitted() + port_requests(ports@, direction));
            return self.submit(Request::Port { port: SENTINEL_PORT, direction });
        }
        let mut ruleset = self;
        let mut i: usize = 0;
        while i < ports.len()
            invariant
                0 < ports.len(),
                i <= ports.len(),
                ruleset.submitted() == self.submitted() + port_requests(ports@, direction).take(
                    i as int,
                ),
            decreases ports.len() - i,
        {
            let ghost before = ruleset.submitted();
            ruleset =
            match ruleset.submit(Request::Port { port: ports[i], direction }) {
                Ok(next) => next,
                Err(error) => {
                    return Err(error);
                },
            };
            assert(ruleset.submitted() =~= self.submitted() + port_requests(
                ports@,
                direction,
            ).take(i + 1)) by {
                assert(port_requests(ports@, direction).take(i + 1) =~= port_requests(
                    ports@,
                    direction,
                ).take(i as int).push(port_requests(ports@, direction)[i as int]));
            }
            i += 1;
        }
        assert(port_requests(ports@, direction).take(i as int) =~= port_requests(
            ports@,
            direction,
        ));
        Ok(ruleset)
    }

    /// Makes the path requests of one zone: one for each listed path.
    fn submit_paths(self, paths: &Vec<String>, class: PathClass) -> (res: Result<
        CompiledRuleset,
        Error,
    >)
        ensures
            res matches Ok(ruleset) ==> ruleset.submitted() == self.submitted() + path_requests(
                texts(paths@),
                class,
            ),
            res matches Err(error) ==> paths.len() > 0 && error.stage() == Some(
                Stage::PathRule { class },
            ),
    {
        let mut ruleset = self;
        let mut i: usize = 0;
        while i < paths.len()
            invariant
                i <= paths.len(),
                ruleset.submitted() == self.submitted() + path_requests(
                    texts(paths@),
                    class,
                ).take(i as int),
            decreases paths.len() - i,
        {
            ruleset =
            match ruleset.submit(Request::Path { path: paths[i].as_str(), class }) {
                Ok(next) => next,
                Err(error) => {
                    return Err(error);
                },
            };
            assert(ruleset.submitted() =~= self.submitted() + path_requests(
                texts(paths@),
                class,
            ).take(i + 1)) by {
                assert(path_requests(texts(paths@), class).take(i + 1) =~= path_requests(
                    texts(paths@),
                    class,
                ).take(i as int).push(path_requests(texts(paths@), class)[i as int]));
            }
            i += 1;
        }
        assert(path_requests(texts(paths@), class).take(i as int) =~= path_requests(
            texts(paths@),
            class,
        ));
        Ok(ruleset)
    }

    /// Enforces the ruleset on the calling thread. This can be asked only of
    /// a ruleset of which exactly the requests of `policy`'s plan have been
    /// made, in the plan's order.
    fn enforce(self, Ghost(policy): Ghost<Policy>) -> (res: Result<EnforcementOutcome, Error>)
        requires
            self.submitted() == policy.plan(),
        ensures
            res matches Ok(outcome) ==> outcome != EnforcementOutcome::NotEnforced,
            res matches Err(error) ==> error.stage() == Some(Stage::Enforcement)
                || error == Error::KernelUnsupported,
    {
        conclude(kernel::restrict_self(self.handle))
    }
}

impl Rules {
    /// Restricts the calling thread to what these rules allow, for the rest
    /// of its life, and says how far the kernel enforced them.
    ///
    /// The steps are: declare the filesystem and the network classes as
    /// restricted; create the ruleset; make the requests of the plan, in its
    /// order; enforce; inspect the outcome. The first failure ends the
    /// attempt. Each step is decided by the running kernel, so what comes back
    /// cannot be told from the rules alone. Whatever comes back: success
    /// means that the kernel enforced the ruleset fully or in part, never that
    /// it enforced nothing; and a failure of a path rule names a zone that
    /// lists a path.
    pub fn enforce(&self) -> (res: Result<EnforcementOutcome, Error>)
        ensures
            res matches Ok(outcome) ==> outcome != EnforcementOutcome::NotEnforced,
            res matches Err(error) ==> error == Error::KernelUnsupported || error.stage() is Some,
            res matches Err(error) ==> (error.stage() matches Some(Stage::PathRule { class })
                ==> self@.paths(class).len() > 0),
    {
        let ruleset = match CompiledRuleset::create() {
            Ok(ruleset) => ruleset,
            Err(error) => {
                return Err(error);
            },
        };
        let ruleset = match ruleset.submit_ports(self.bind_ports(), Direction::Bind) {
            Ok(ruleset) => ruleset,
            Err(error) => {
                return Err(error);
            },
        };
        let ruleset = match ruleset.submit_ports(self.connect_ports(), Direction::Connect) {
            Ok(ruleset) => ruleset,
            Err(error) => {
                return Err(error);
            },
        };
        let ruleset = match ruleset.submit_paths(self.read_only(), PathClass::ReadOnly) {
            Ok(ruleset) => ruleset,
            Err(error) => {
                return Err(error);
            },
        };
        let ruleset = match ruleset.submit_paths(self.write_only(), PathClass::WriteOnly) {
            Ok(ruleset) => ruleset,
            Err(error) => {
                return Err(error);
            },
        };
        let ruleset = match ruleset.submit_paths(self.read_write(), PathClass::ReadWrite) {
            Ok(ruleset) => ruleset,
            Err(error) => {
                return Err(error);
            },
        };
        assert(ruleset.submitted() =~= self@.plan());
        ruleset.enforce(Ghost(self@))
    }

    /// Restricts the calling thread to what these rules allow, for the rest
    /// of its life.
    ///
    /// This is `enforce` without the report: success means that the kernel
    /// enforced the ruleset fully or in part.
    pub fn restrict(&self) -> (res: Result<(), Error>)
        ensures
            res matches Err(error) ==> error == Error::KernelUnsupported || error.stage() is Some,
            res matches Err(error) ==> (error.stage() matches Some(Stage::PathRule { class })
                ==> self@.paths(class).len() > 0),
    {
        match self.enforce() {
            Ok(_) => Ok(()),
            Err(error) => Err(error),
        }
    }
}

} // verus!
