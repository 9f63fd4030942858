//! The restrictions of one spawn, and the order in which they are applied in
//! the child before its program is loaded.
//!
//! Every resource ceiling is applied before the access policy is enforced, in
//! whatever order the two were asked for. The library decides which step
//! comes next and what a step's result means for the spawn; the caller
//! performs the steps.

use std::sync::Arc;
use vstd::prelude::*;
use crate::error::Error;
use crate::limit::Limit;
use crate::memory_size::MemorySize;
use crate::policy::{Policy, Rules};

verus! {

/// What has been asked of one spawn.
pub struct Requested {
    /// The resource ceilings, in the order in which they were asked for: the
    /// resource and the ceiling in bytes.
    pub limits: Seq<(Limit, nat)>,
    /// The access policy, if one was asked for.
    pub policy: Option<Policy>,
}

/// What one step of the hook does.
pub enum StepView {
    /// Bound the resource `kind` by `size` bytes.
    Limit { kind: Limit, size: nat },
    /// Enforce `policy` on the child.
    Enforce { policy: Policy },
}

impl Requested {
    /// Nothing asked.
    pub open spec fn nothing() -> Requested {
        Requested { limits: Seq::empty(), policy: None }
    }

    /// With one more resource ceiling, after those asked for before.
    pub open spec fn with_limit(self, kind: Limit, size: nat) -> Requested {
        Requested { limits: self.limits.push((kind, size)), ..self }
    }

    /// With `policy` as the access policy, in place of an earlier one.
    pub open spec fn with_policy(self, policy: Policy) -> Requested {
        Requested { policy: Some(policy), ..self }
    }

    /// The steps of the hook, in the order in which they are performed: every
    /// ceiling, in the order asked for, and then the policy.
    pub open spec fn steps(self) -> Seq<StepView> {
        let ceilings = self.limits.map_values(
            |limit: (Limit, nat)| StepView::Limit { kind: limit.0, size: limit.1 },
        );
        match self.policy {
            Some(policy) => ceilings.push(StepView::Enforce { policy }),
            None => ceilings,
        }
    }

    /// The ceilings can be counted by the machine. This holds of what any
    /// `Restrictions` value says.
    pub open spec fn fits(self) -> bool {
        self.limits.len() <= usize::MAX
    }

    /// The state in which the hook begins.
    pub open spec fn start(self) -> HookState {
        if self.steps().len() == 0 {
            HookState::Completed
        } else {
            HookState::Pending { next: 0 }
        }
    }

    /// The state that follows `state` once the step it waits for has come to
    /// `result`. Only a state that waits for a step changes.
    pub open spec fn advance(self, state: HookState, result: Result<(), Error>) -> HookState {
        match state {
            HookState::Pending { next } if next < self.steps().len() => match result {
                Err(error) => HookState::Failed { error },
                Ok(_) => if next + 1 < self.steps().len() {
                    HookState::Pending { next: (next + 1) as usize }
                } else {
                    HookState::Completed
                },
            },
            _ => state,
        }
    }

    /// The state of the hook after the steps performed so far have come to
    /// `results`, oldest first.
    pub open spec fn run(self, results: Seq<Result<(), Error>>) -> HookState
        decreases results.len(),
    {
        if results.len() == 0 {
            self.start()
        } else {
            self.advance(self.run(results.drop_last()), results.last())
        }
    }
}

/// Where the hook of one spawn stands.
#[derive(Debug)]
pub enum HookState {
    /// Every step before `next` succeeded, and step `next` is to be
    /// performed.
    Pending { next: usize },
    /// Every step succeeded: the program may be loaded.
    Completed,
    /// A step failed: the program must not be loaded.
    Failed { error: Error },
}

impl HookState {
    /// What the hook reports to the spawn once it waits for no step: success
    /// where every step succeeded, and the error of the failed step where one
    /// failed. While a step is still to be performed there is no verdict.
    pub fn verdict(self) -> (verdict: Option<Result<(), Error>>)
        ensures
            verdict == match self {
                HookState::Pending { next } => None::<Result<(), Error>>,
                HookState::Completed => Some(Ok(())),
                HookState::Failed { error } => Some(Err(error)),
            },
    {
        match self {
            HookState::Pending { next } => None,
            HookState::Completed => Some(Ok(())),
            HookState::Failed { error } => Some(Err(error)),
        }
    }
}

/// One step of the hook. A policy is borrowed from the restrictions.
#[derive(Debug)]
pub enum Step<'a> {
    /// Bound the resource `kind` by `size`.
    Limit { kind: Limit, size: MemorySize },
    /// Enforce `policy` on the child.
    Enforce { policy: &'a Rules },
}

impl<'a> View for Step<'a> {
    type V = StepView;

    open spec fn view(&self) -> StepView {
        match *self {
            Step::Limit { kind, size } => StepView::Limit { kind, size: size@ },
            Step::Enforce { policy } => StepView::Enforce { policy: policy@ },
        }
    }
}

/// The restrictions asked of one spawn: resource ceilings and, at most, one
/// access policy. The policy is shared, not copied.
#[derive(Debug)]
pub struct Restrictions {
    limits: Vec<(Limit, MemorySize)>,
    policy: Option<Arc<Rules>>,
}

impl View for Restrictions {
    type V = Requested;

    closed spec fn view(&self) -> Requested {
        Requested {
            limits: self.limits@.map_values(|limit: (Limit, MemorySize)| (limit.0, limit.1@)),
            policy: match self.policy {
                Some(rules) => Some(rules@),
                None => None,
            },
        }
    }
}

impl Restrictions {
    /// No restriction.
    pub fn new() -> (restrictions: Self)
        ensures
            restrictions@ == Requested::nothing(),
    {
        let restrictions = Restrictions { limits: Vec::new(), policy: None };
        assert(restrictions@.limits =~= Seq::empty());
        restrictions
    }

    /// What a value says fits the machine.
    pub proof fn lemma_fits(&self)
        ensures
            self@.fits(),
    {
        assert(self@.limits.len() == self.limits.len());
    }

    /// The step at `index` of the hook, if there is one.
    pub fn step(&self, index: usize) -> (step: Option<Step<'_>>)
        ensures
            index < self@.steps().len() ==> (step matches Some(s) && s@ == self@.steps().index(
                index as int,
            )),
            index >= self@.steps().len() ==> step is None,
    {
        if index < self.limits.len() {
            let (kind, size) = self.limits[index];
            Some(Step::Limit { kind, size })
        } else if index == self.limits.len() {
            match &self.policy {
                Some(rules) => Some(Step::Enforce { policy: &**rules }),
                None => None,
            }
        } else {
            None
        }
    }

    /// The state in which the hook begins: it waits for the first step, or is
    /// complete where nothing was asked.
    pub fn start(&self) -> (state: HookState)
        ensures
            state == self@.start(),
    {
        match self.step(0) {
            Some(_) => HookState::Pending { next: 0 },
            None => HookState::Completed,
        }
    }

    /// The step that `state` waits for; none once the hook is complete or
    /// has failed.
    pub fn action(&self, state: &HookState) -> (step: Option<Step<'_>>)
        ensures
            match *state {
                HookState::Pending { next } if next < self@.steps().len() => step matches Some(s)
                    && s@ == self@.steps()[next as int],
                _ => step is None,
            },
    {
        match state {
            HookState::Pending { next } => self.step(*next),
            _ => None,
        }
    }

    /// The state that follows `state` once the step it waits for has come to
    /// `result`: a failure is final and carries the step's error; after a
    /// success the hook waits for the next step, or is complete after the
    /// last.
    pub fn advance(&self, state: HookState, result: Result<(), Error>) -> (next: HookState)
        ensures
            next == self@.advance(state, result),
    {
        match state {
            HookState::Pending { next } => {
                if self.step(next).is_none() {
                    return HookState::Pending { next };
                }
                match result {
                    Err(error) => HookState::Failed { error },
                    Ok(_) => {
                        if next < self.limits.len() && self.step(next + 1).is_some() {
                            HookState::Pending { next: next + 1 }
                        } else {
                            HookState::Completed
                        }
                    },
                }
            },
            HookState::Completed => HookState::Completed,
            HookState::Failed { error } => HookState::Failed { error },
        }
    }
}

/// A spawn request that can be restricted before its program is loaded.
///
/// Ceilings add up: each one asked for is applied. A second policy replaces
/// the first: at most one policy is enforced for one spawn. Whatever the order
/// of the calls, the ceilings are applied before the policy is enforced.
pub trait CommandExt: Sized {
    /// What has been asked of this spawn request so far.
    spec fn requested(&self) -> Requested;

    /// Restricts filesystem and network access to what `rules` allow.
    fn restrict(&mut self, rules: Arc<Rules>) -> (ret: &mut Self)
        ensures
            ret.requested() == old(self).requested().with_policy(rules@),
            *final(self) == *final(ret),
    ;

    /// As `restrict` where `rules` is there; else nothing changes.
    fn restrict_if(&mut self, rules: Option<Arc<Rules>>) -> (ret: &mut Self)
        ensures
            ret.requested() == match rules {
                Some(rules) => old(self).requested().with_policy(rules@),
                None => old(self).requested(),
            },
            rules is None ==> *ret == *old(self),
            *final(self) == *final(ret),
    {
        match rules {
            Some(rules) => self.restrict(rules),
            None => self,
        }
    }

    /// Bounds the resource `kind` by `size`.
    fn max_resource(&mut self, kind: Limit, size: MemorySize) -> (ret: &mut Self)
        ensures
            ret.requested() == old(self).requested().with_limit(kind, size@),
            *final(self) == *final(ret),
    ;

    /// As `max_resource` where `size` is there; else nothing changes.
    fn max_resource_if(&mut self, kind: Limit, size: Option<MemorySize>) -> (ret: &mut Self)
        ensures
            ret.requested() == match size {
                Some(size) => old(self).requested().with_limit(kind, size@),
                None => old(self).requested(),
            },
            size is None ==> *ret == *old(self),
            *final(self) == *final(ret),
    {
        match size {
            Some(size) => self.max_resource(kind, size),
            None => self,
        }
    }

    /// Bounds the growth of the data segment, and so of the heap.
    fn max_memory(&mut self, max_memory: MemorySize) -> (ret: &mut Self)
        ensures
            ret.requested() == old(self).requested().with_limit(Limit::Data, max_memory@),
            *final(self) == *final(ret),
    {
        self.max_resource(Limit::Data, max_memory)
    }

    /// As `max_memory` where `max_memory` is there; else nothing changes.
    fn max_memory_if(&mut self, max_memory: Option<MemorySize>) -> (ret: &mut Self)
        ensures
            ret.requested() == match max_memory {
                Some(size) => old(self).requested().with_limit(Limit::Data, size@),
                None => old(self).requested(),
            },
            max_memory is None ==> *ret == *old(self),
            *final(self) == *final(ret),
    {
        match max_memory {
            Some(max_memory) => self.max_memory(max_memory),
            None => self,
        }
    }

    /// Bounds the size of a file that the program creates.
    fn max_file_size(&mut self, max_file_size: MemorySize) -> (ret: &mut Self)
        ensures
            ret.requested() == old(self).requested().with_limit(Limit::FileSize, max_file_size@),
            *final(self) == *final(ret),
    {
        self.max_resource(Limit::FileSize, max_file_size)
    }

    /// As `max_file_size` where `max_file_size` is there; else nothing
    /// changes.
    fn max_file_size_if(&mut self, max_file_size: Option<MemorySize>) -> (ret: &mut Self)
        ensures
            ret.requested() == match max_file_size {
                Some(size) => old(self).requested().with_limit(Limit::FileSize, size@),
                None => old(self).requested(),
            },
            max_file_size is None ==> *ret == *old(self),
            *final(self) == *final(ret),
    {
        match max_file_size {
            Some(max_file_size) => self.max_file_size(max_file_size),
            None => self,
        }
    }
}

impl Default for Restrictions {
    /// No restriction.
    fn default() -> (restrictions: Self)
        ensures
            restrictions@ == Requested::nothing(),
    {
        Restrictions::new()
    }
}

impl CommandExt for Restrictions {
    open spec fn requested(&self) -> Requested {
        self@
    }

    fn restrict(&mut self, rules: Arc<Rules>) -> (ret: &mut Self) {
        self.policy = Some(rules);
        self
    }

    fn max_resource(&mut self, kind: Limit, size: MemorySize) -> (ret: &mut Self) {
        self.limits.push((kind, size));
        assert(self@.limits =~= old(self)@.limits.push((kind, size@)));
        self
    }
}

/// A command of any kind together with the restrictions asked of it.
///
/// The command itself is only carried: asking for a restriction never changes
/// it. Whoever spawns it registers one hook that performs the steps of the
/// restrictions in the child.
#[derive(Debug)]
pub struct Sandboxed<C> {
    command: C,
    restrictions: Restrictions,
}

impl<C> Sandboxed<C> {
    /// The command that is carried.
    pub closed spec fn carried(&self) -> C {
        self.command
    }

    /// `command` with no restriction yet.
    pub fn new(command: C) -> (sandboxed: Self)
        ensures
            sandboxed.carried() == command,
            sandboxed.requested() == Requested::nothing(),
    {
        Sandboxed { command, restrictions: Restrictions::new() }
    }

    /// The command, to set what the restrictions do not cover: its arguments,
    /// its environment, its directory.
    pub fn command(&mut self) -> (command: &mut C)
        ensures
            *command == old(self).carried(),
            final(self).carried() == *final(command),
            final(self).requested() == old(self).requested(),
    {
        &mut self.command
    }

    /// The restrictions asked for so far.
    pub fn restrictions(&self) -> (restrictions: &Restrictions)
        ensures
            restrictions@ == self.requested(),
    {
        &self.restrictions
    }

    /// The command and the restrictions asked of it, for the spawn.
    pub fn into_parts(self) -> (parts: (C, Restrictions))
        ensures
            parts.0 == self.carried(),
            parts.1@ == self.requested(),
    {
        (self.command, self.restrictions)
    }
}

impl<C> CommandExt for Sandboxed<C> {
    closed spec fn requested(&self) -> Requested {
        self.restrictions@
    }

    fn restrict(&mut self, rules: Arc<Rules>) -> (ret: &mut Self)
        ensures
            ret.carried() == old(self).carried(),
    {
        self.restrictions.restrict(rules);
        self
    }

    fn max_resource(&mut self, kind: Limit, size: MemorySize) -> (ret: &mut Self)
        ensures
            ret.carried() == old(self).carried(),
    {
        self.restrictions.max_resource(kind, size);
        self
    }
}

/// The ceilings come first, in the order asked for, and the policy last: step
/// `i` of the hook is the `i`-th ceiling, for each ceiling, and only the last
/// step can be the enforcement of a policy.
pub proof fn lemma_limits_precede_enforcement(requested: Requested)
    ensures
        requested.steps().len() == requested.limits.len() + (if requested.policy is Some {
            1nat
        } else {
            0nat
        }),
        forall|i: int|
            0 <= i < requested.limits.len() ==> #[trigger] requested.steps()[i] == (
            StepView::Limit { kind: requested.limits[i].0, size: requested.limits[i].1 }),
        forall|i: int|
            0 <= i < requested.steps().len() && #[trigger] requested.steps()[i] is Enforce ==> i
                == requested.steps().len() - 1,
        forall|i: int, j: int|
            0 <= i < j < requested.steps().len() ==> !(#[trigger] requested.steps()[i] is Enforce
                && #[trigger] requested.steps()[j] is Limit),
{
}

/// The order of the calls does not matter between a ceiling and the policy:
/// asking for the policy first and the ceiling second gives the same steps as
/// the other way round.
pub proof fn lemma_policy_and_limit_commute(
    requested: Requested,
    policy: Policy,
    kind: Limit,
    size: nat,
)
    ensures
        requested.with_policy(policy).with_limit(kind, size) == requested.with_limit(
            kind,
            size,
        ).with_policy(policy),
{
}

/// The steps do not depend on the kind of spawn request: two requests of
/// which the same was asked, be they of one kind or of two, get the same
/// steps in the same order.
pub proof fn lemma_steps_follow_from_what_was_asked<A: CommandExt, B: CommandExt>(a: A, b: B)
    requires
        a.requested() == b.requested(),
    ensures
        a.requested().steps() == b.requested().steps(),
        a.requested().start() == b.requested().start(),
        forall|state: HookState, result: Result<(), Error>|
            a.requested().advance(state, result) == b.requested().advance(state, result),
{
}

/// A state that waits for no step is not changed by a result.
pub proof fn lemma_settled_states_stay(
    requested: Requested,
    state: HookState,
    result: Result<(), Error>,
)
    requires
        state is Completed || state is Failed,
    ensures
        requested.advance(state, result) == state,
{
}

/// A run in which every result is a success waits for the step after the last
/// one performed, or is complete once every step has been performed.
pub proof fn lemma_run_of_successes(requested: Requested, results: Seq<Result<(), Error>>)
    requires
        requested.fits(),
        results.len() <= requested.steps().len(),
        forall|i: int| 0 <= i < results.len() ==> (#[trigger] results[i]) is Ok,
    ensures
        requested.run(results) == if results.len() == requested.steps().len() {
            HookState::Completed
        } else {
            HookState::Pending { next: results.len() as usize }
        },
    decreases results.len(),
{
    if results.len() > 0 {
        let earlier = results.drop_last();
        assert forall|i: int| 0 <= i < earlier.len() implies (#[trigger] earlier[i]) is Ok by {
            assert(earlier[i] == results[i]);
        }
        lemma_run_of_successes(requested, earlier);
        assert(results.last() == results[results.len() - 1]);
        assert(requested.run(earlier) == HookState::Pending { next: earlier.len() as usize });
    }
}

/// While the hook waits for step `next`, exactly the `next` steps before it
/// have been performed, and each succeeded.
pub proof fn lemma_pending_counts_successes(requested: Requested, results: Seq<Result<(), Error>>)
    requires
        requested.fits(),
        requested.run(results) is Pending,
    ensures
        requested.run(results)->next == results.len(),
        results.len() < requested.steps().len(),
        forall|i: int| 0 <= i < results.len() ==> (#[trigger] results[i]) is Ok,
    decreases results.len(),
{
    if results.len() > 0 {
        let earlier = results.drop_last();
        let before = requested.run(earlier);
        assert(before is Pending);
        lemma_pending_counts_successes(requested, earlier);
        assert(results.last() is Ok);
        assert forall|i: int| 0 <= i < results.len() implies (#[trigger] results[i]) is Ok by {
            if i < earlier.len() {
                assert(earlier[i] == results[i]);
            }
        }
    }
}

/// Fails closed: once a step has failed, the hook has failed with that step's
/// error, whatever is reported afterwards. The program is never loaded after a
/// failed step.
pub proof fn lemma_first_failure_is_final(
    requested: Requested,
    results: Seq<Result<(), Error>>,
    first: int,
)
    requires
        requested.fits(),
        0 <= first < results.len(),
        first < requested.steps().len(),
        results[first] is Err,
        forall|i: int| 0 <= i < first ==> (#[trigger] results[i]) is Ok,
    ensures
        requested.run(results) == (HookState::Failed { error: results[first]->Err_0 }),
    decreases results.len(),
{
    let earlier = results.drop_last();
    if first == results.len() - 1 {
        assert forall|i: int| 0 <= i < earlier.len() implies (#[trigger] earlier[i]) is Ok by {
            assert(earlier[i] == results[i]);
        }
        lemma_run_of_successes(requested, earlier);
    } else {
        assert(earlier[first] == results[first]);
        assert forall|i: int| 0 <= i < first implies (#[trigger] earlier[i]) is Ok by {
            assert(earlier[i] == results[i]);
        }
        lemma_first_failure_is_final(requested, earlier, first);
    }
}

/// The hook completes only where every step was performed and succeeded.
pub proof fn lemma_completion_needs_every_step(
    requested: Requested,
    results: Seq<Result<(), Error>>,
)
    requires
        requested.fits(),
        requested.run(results) is Completed,
    ensures
        results.len() >= requested.steps().len(),
        forall|i: int| 0 <= i < requested.steps().len() ==> (#[trigger] results[i]) is Ok,
    decreases results.len(),
{
    if results.len() > 0 {
        let earlier = results.drop_last();
        let before = requested.run(earlier);
        if before is Completed {
            lemma_completion_needs_every_step(requested, earlier);
            assert forall|i: int| 0 <= i < requested.steps().len() implies (
            #[trigger] results[i]) is Ok by {
                assert(earlier[i] == results[i]);
            }
        } else {
            assert(before is Pending);
            lemma_pending_counts_successes(requested, earlier);
            assert(results.last() is Ok);
            assert forall|i: int| 0 <= i < requested.steps().len() implies (
            #[trigger] results[i]) is Ok by {
                if i < earlier.len() {
                    assert(earlier[i] == results[i]);
                }
            }
        }
    }
}

} // verus!
