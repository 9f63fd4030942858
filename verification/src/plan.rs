//! The kernel requests that a policy compiles to.
//!
//! A policy is compiled to one flat sequence of requests: the port rules for
//! binding, the port rules for connecting, then one path rule for each entry
//! of the read-only, the write-only and the read-write list, in that order.
//! The kernel grants on a path the union of what its rules grant.

use vstd::prelude::*;
use crate::policy::{texts, Policy, Rules};

verus! {

/// The direction of traffic that a port rule allows.
#[derive(Copy, Clone, Debug, PartialEq, Eq, Structural, Hash)]
pub enum Direction {
    /// Binding to a port: inbound.
    Bind,
    /// Connecting to a port: outbound.
    Connect,
}

/// The zone of a policy that a path was declared in.
#[derive(Copy, Clone, Debug, PartialEq, Eq, Structural, Hash)]
pub enum PathClass {
    /// Reading only.
    ReadOnly,
    /// Writing only.
    WriteOnly,
    /// Reading and writing.
    ReadWrite,
}

impl PathClass {
    /// Whether a rule of this class grants reading.
    pub open spec fn allows_read(self) -> bool {
        self == PathClass::ReadOnly || self == PathClass::ReadWrite
    }

    /// Whether a rule of this class grants writing.
    pub open spec fn allows_write(self) -> bool {
        self == PathClass::WriteOnly || self == PathClass::ReadWrite
    }

    /// Whether a rule of this class grants reading.
    #[verifier::when_used_as_spec(allows_read)]
    pub fn grants_read(self) -> (granted: bool)
        ensures
            granted == self.allows_read(),
    {
        match self {
            PathClass::ReadOnly => true,
            PathClass::WriteOnly => false,
            PathClass::ReadWrite => true,
        }
    }

    /// Whether a rule of this class grants writing.
    #[verifier::when_used_as_spec(allows_write)]
    pub fn grants_write(self) -> (granted: bool)
        ensures
            granted == self.allows_write(),
    {
        match self {
            PathClass::ReadOnly => false,
            PathClass::WriteOnly => true,
            PathClass::ReadWrite => true,
        }
    }
}

/// The port that stands in a rule when a policy lists no port for a
/// direction.
pub const SENTINEL_PORT: u16 = 0;

/// What one request to the kernel says.
pub enum RequestView {
    /// Allow traffic in `direction` on `port`.
    Port { port: u16, direction: Direction },
    /// Allow on `path`, and on what lies beneath it, what `class` grants.
    Path { path: Seq<char>, class: PathClass },
}

/// One request to the kernel. A path is borrowed from the policy.
#[derive(Copy, Clone, Debug, PartialEq, Eq)]
pub enum Request<'a> {
    /// Allow traffic in `direction` on `port`.
    Port { port: u16, direction: Direction },
    /// Allow on `path`, and on what lies beneath it, what `class` grants.
    Path { path: &'a str, class: PathClass },
}

impl<'a> View for Request<'a> {
    type V = RequestView;

    open spec fn view(&self) -> RequestView {
        match *self {
            Request::Port { port, direction } => RequestView::Port { port, direction },
            Request::Path { path, class } => RequestView::Path { path: path@, class },
        }
    }
}

/// What each request of a sequence says, in order.
pub open spec fn views(requests: Seq<Request<'_>>) -> Seq<RequestView> {
    requests.map_values(|request: Request<'_>| request@)
}

/// The port rules for one direction: one rule for each listed port, in order;
/// for an empty list the single rule with the sentinel port.
pub open spec fn port_requests(ports: Seq<u16>, direction: Direction) -> Seq<RequestView> {
    if ports.len() == 0 {
        seq![RequestView::Port { port: SENTINEL_PORT, direction }]
    } else {
        ports.map_values(|port: u16| RequestView::Port { port, direction })
    }
}

/// The path rules for one zone: one rule for each listed path, in order.
pub open spec fn path_requests(paths: Seq<Seq<char>>, class: PathClass) -> Seq<RequestView> {
    paths.map_values(|path: Seq<char>| RequestView::Path { path, class })
}

impl Policy {
    /// The ports listed for `direction`.
    pub open spec fn ports(self, direction: Direction) -> Seq<u16> {
        match direction {
            Direction::Bind => self.bind_ports,
            Direction::Connect => self.connect_ports,
        }
    }

    /// The paths listed in the zone `class`.
    pub open spec fn paths(self, class: PathClass) -> Seq<Seq<char>> {
        match class {
            PathClass::ReadOnly => self.read_only,
            PathClass::WriteOnly => self.write_only,
            PathClass::ReadWrite => self.read_write,
        }
    }

    /// The requests that the policy compiles to, in the order in which they
    /// are made.
    pub open spec fn plan(self) -> Seq<RequestView> {
        port_requests(self.bind_ports, Direction::Bind)
            + port_requests(self.connect_ports, Direction::Connect)
            + path_requests(self.read_only, PathClass::ReadOnly)
            + path_requests(self.write_only, PathClass::WriteOnly)
            + path_requests(self.read_write, PathClass::ReadWrite)
    }

    /// Whether the policy grants reading on `path`: the path is listed as
    /// read-only or as read-write.
    pub open spec fn may_read(self, path: Seq<char>) -> bool {
        self.read_only.contains(path) || self.read_write.contains(path)
    }

    /// Whether the policy grants writing on `path`: the path is listed as
    /// write-only or as read-write.
    pub open spec fn may_write(self, path: Seq<char>) -> bool {
        self.write_only.contains(path) || self.read_write.contains(path)
    }

    /// Whether some path rule of the plan names `path` and grants reading.
    pub open spec fn plan_grants_read(self, path: Seq<char>) -> bool {
        exists|i: int|
            0 <= i < self.plan().len() && (#[trigger] self.plan()[i] matches RequestView::Path {
                path: p,
                class,
            } && p == path && class.allows_read())
    }

    /// Whether some path rule of the plan names `path` and grants writing.
    pub open spec fn plan_grants_write(self, path: Seq<char>) -> bool {
        exists|i: int|
            0 <= i < self.plan().len() && (#[trigger] self.plan()[i] matches RequestView::Path {
                path: p,
                class,
            } && p == path && class.allows_write())
    }

    /// No path is listed in two zones.
    pub open spec fn zones_disjoint(self) -> bool {
        &&& disjoint(self.read_only, self.write_only)
        &&& disjoint(self.read_only, self.read_write)
        &&& disjoint(self.write_only, self.read_write)
    }
}

/// Appends to `plan` the port rules for one direction.
fn push_ports<'a>(plan: &mut Vec<Request<'a>>, ports: &Vec<u16>, direction: Direction)
    ensures
        views(final(plan)@) == views(old(plan)@) + port_requests(ports@, direction),
{
    if ports.len() == 0 {
        plan.push(Request::Port { port: SENTINEL_PORT, direction });
        assert(views(plan@) =~= views(old(plan)@) + port_requests(ports@, direction));
    } else {
        let mut i: usize = 0;
        while i < ports.len()
            invariant
                0 < ports.len(),
                i <= ports.len(),
                views(plan@) == views(old(plan)@) + port_requests(ports@, direction).take(i as int),
            decreases ports.len() - i,
        {
            let ghost before = plan@;
            plan.push(Request::Port { port: ports[i], direction });
            assert(views(plan@) =~= views(before).push(port_requests(ports@, direction)[i as int]));
            assert(port_requests(ports@, direction).take(i + 1) =~= port_requests(
                ports@,
                direction,
            ).take(i as int).push(port_requests(ports@, direction)[i as int]));
            i += 1;
        }
        assert(port_requests(ports@, direction).take(i as int) =~= port_requests(
            ports@,
            direction,
        ));
    }
}

/// Appends to `plan` the path rules for one zone.
fn push_paths<'a>(plan: &mut Vec<Request<'a>>, paths: &'a Vec<String>, class: PathClass)
    ensures
        views(final(plan)@) == views(old(plan)@) + path_requests(texts(paths@), class),
{
    let mut i: usize = 0;
    while i < paths.len()
        invariant
            i <= paths.len(),
            views(plan@) == views(old(plan)@) + path_requests(texts(paths@), class).take(
                i as int,
            ),
        decreases paths.len() - i,
    {
        let ghost before = plan@;
        plan.push(Request::Path { path: paths[i].as_str(), class });
        assert(views(plan@) =~= views(before).push(
            path_requests(texts(paths@), class)[i as int],
        ));
        assert(path_requests(texts(paths@), class).take(i + 1) =~= path_requests(
            texts(paths@),
            class,
        ).take(i as int).push(path_requests(texts(paths@), class)[i as int]));
        i += 1;
    }
    assert(path_requests(texts(paths@), class).take(i as int) =~= path_requests(
        texts(paths@),
        class,
    ));
}

/// Whether `paths` holds a path with the text of `path`.
fn lists(paths: &Vec<String>, path: &String) -> (found: bool)
    ensures
        found == texts(paths@).contains(path@),
{
    let mut i: usize = 0;
    while i < paths.len()
        invariant
            i <= paths.len(),
            forall|j: int| 0 <= j < i ==> texts(paths@)[j] != path@,
        decreases paths.len() - i,
    {
        if paths[i] == *path {
            assert(texts(paths@)[i as int] == path@);
            return true;
        }
        i += 1;
    }
    false
}

impl Rules {
    /// The requests that these rules compile to, in the order in which they
    /// are made.
    pub fn plan(&self) -> (plan: Vec<Request<'_>>)
        ensures
            views(plan@) == self@.plan(),
    {
        let mut plan: Vec<Request<'_>> = Vec::new();
        assert(views(plan@) =~= Seq::empty());
        push_ports(&mut plan, self.bind_ports(), Direction::Bind);
        push_ports(&mut plan, self.connect_ports(), Direction::Connect);
        push_paths(&mut plan, self.read_only(), PathClass::ReadOnly);
        push_paths(&mut plan, self.write_only(), PathClass::WriteOnly);
        push_paths(&mut plan, self.read_write(), PathClass::ReadWrite);
        assert(views(plan@) =~= self@.plan());
        plan
    }

    /// Whether these rules grant reading on `path`.
    pub fn grants_read(&self, path: &str) -> (granted: bool)
        ensures
            granted == self@.may_read(path@),
    {
        let path = path.to_owned();
        lists(self.read_only(), &path) || lists(self.read_write(), &path)
    }

    /// Whether these rules grant writing on `path`.
    pub fn grants_write(&self, path: &str) -> (granted: bool)
        ensures
            granted == self@.may_write(path@),
    {
        let path = path.to_owned();
        lists(self.write_only(), &path) || lists(self.read_write(), &path)
    }
}

/// No path stands in both lists.
pub open spec fn disjoint(a: Seq<Seq<char>>, b: Seq<Seq<char>>) -> bool {
    forall|path: Seq<char>|
        #![trigger a.contains(path)]
        #![trigger b.contains(path)]
        !(a.contains(path) && b.contains(path))
}

/// Where each part of a plan lies: the port rules for binding come first, then
/// those for connecting, then the path rules of the read-only, the write-only
/// and the read-write zone. Within a part the rules keep the order of the
/// policy's list.
pub proof fn lemma_plan_layout(policy: Policy)
    ensures
        ({
            let bind = port_requests(policy.bind_ports, Direction::Bind);
            let connect = port_requests(policy.connect_ports, Direction::Connect);
            let plan = policy.plan();
            let first_path = bind.len() + connect.len();
            let ro = policy.read_only;
            let wo = policy.write_only;
            let rw = policy.read_write;
            &&& plan.len() == first_path + ro.len() + wo.len() + rw.len()
            &&& bind.len() == if policy.bind_ports.len() == 0 {
                1
            } else {
                policy.bind_ports.len()
            }
            &&& connect.len() == if policy.connect_ports.len() == 0 {
                1
            } else {
                policy.connect_ports.len()
            }
            &&& forall|i: int| 0 <= i < bind.len() ==> #[trigger] plan[i] == bind[i]
            &&& forall|i: int|
                0 <= i < connect.len() ==> #[trigger] plan[bind.len() + i] == connect[i]
            &&& forall|i: int|
                0 <= i < ro.len() ==> #[trigger] plan[first_path + i] == (RequestView::Path {
                    path: ro[i],
                    class: PathClass::ReadOnly,
                })
            &&& forall|i: int|
                0 <= i < wo.len() ==> #[trigger] plan[first_path + ro.len() + i] == (
                RequestView::Path { path: wo[i], class: PathClass::WriteOnly })
            &&& forall|i: int|
                0 <= i < rw.len() ==> #[trigger] plan[first_path + ro.len() + wo.len() + i] == (
                RequestView::Path { path: rw[i], class: PathClass::ReadWrite })
        }),
{
}

/// A rule of the plan is a port rule exactly when it stands before the first
/// path rule.
proof fn lemma_port_rules_come_first(policy: Policy, i: int)
    requires
        0 <= i < policy.plan().len(),
    ensures
        ({
            let first_path = port_requests(policy.bind_ports, Direction::Bind).len()
                + port_requests(policy.connect_ports, Direction::Connect).len();
            policy.plan()[i] is Port <==> i < first_path
        }),
{
    lemma_plan_layout(policy);
    let bind = port_requests(policy.bind_ports, Direction::Bind);
    let connect = port_requests(policy.connect_ports, Direction::Connect);
    let first_path = bind.len() + connect.len();
    let plan = policy.plan();
    if i < bind.len() {
        assert(plan[i] == bind[i]);
    } else if i < first_path {
        assert(plan[bind.len() + (i - bind.len())] == connect[i - bind.len()]);
    } else if i < first_path + policy.read_only.len() {
        assert(plan[first_path + (i - first_path)] is Path);
    } else if i < first_path + policy.read_only.len() + policy.write_only.len() {
        let k = i - first_path - policy.read_only.len();
        assert(plan[first_path + policy.read_only.len() + k] is Path);
    } else {
        let k = i - first_path - policy.read_only.len() - policy.write_only.len();
        assert(plan[first_path + policy.read_only.len() + policy.write_only.len() + k] is Path);
    }
}

/// The path rules of a plan are those of the three zones: a rule for `path`
/// with class `class` stands in the plan exactly when the policy lists `path`
/// in the zone `class`.
pub proof fn lemma_path_rules_are_the_zones(policy: Policy, path: Seq<char>, class: PathClass)
    ensures
        policy.plan().contains(RequestView::Path { path, class }) <==> policy.paths(
            class,
        ).contains(path),
{
    lemma_plan_layout(policy);
    let plan = policy.plan();
    let rule = RequestView::Path { path, class };
    let first_path = port_requests(policy.bind_ports, Direction::Bind).len() + port_requests(
        policy.connect_ports,
        Direction::Connect,
    ).len();
    let ro = policy.read_only;
    let wo = policy.write_only;
    let rw = policy.read_write;
    if plan.contains(rule) {
        let i = choose|i: int| 0 <= i < plan.len() && plan[i] == rule;
        lemma_port_rules_come_first(policy, i);
        if i < first_path + ro.len() {
            let k = i - first_path;
            assert(plan[first_path + k] == rule);
            assert(ro[k] == path);
        } else if i < first_path + ro.len() + wo.len() {
            let k = i - first_path - ro.len();
            assert(plan[first_path + ro.len() + k] == rule);
            assert(wo[k] == path);
        } else {
            let k = i - first_path - ro.len() - wo.len();
            assert(plan[first_path + ro.len() + wo.len() + k] == rule);
            assert(rw[k] == path);
        }
    }
    if policy.paths(class).contains(path) {
        let k = choose|k: int| 0 <= k < policy.paths(class).len() && policy.paths(class)[k] == path;
        match class {
            PathClass::ReadOnly => {
                assert(plan[first_path + k] == rule);
            },
            PathClass::WriteOnly => {
                assert(plan[first_path + ro.len() + k] == rule);
            },
            PathClass::ReadWrite => {
                assert(plan[first_path + ro.len() + wo.len() + k] == rule);
            },
        }
    }
}

/// The port rules of a plan are those of the two lists, with the sentinel for
/// an empty list: a rule for `port` in `direction` stands in the plan exactly
/// when the policy lists `port` for `direction`, or lists no port for it and
/// `port` is the sentinel.
pub proof fn lemma_port_rules_are_the_lists(policy: Policy, port: u16, direction: Direction)
    ensures
        policy.plan().contains(RequestView::Port { port, direction }) <==> (policy.ports(
            direction,
        ).contains(port) || (policy.ports(direction).len() == 0 && port == SENTINEL_PORT)),
{
    lemma_plan_layout(policy);
    let plan = policy.plan();
    let rule = RequestView::Port { port, direction };
    let bind = port_requests(policy.bind_ports, Direction::Bind);
    let connect = port_requests(policy.connect_ports, Direction::Connect);
    if plan.contains(rule) {
        let i = choose|i: int| 0 <= i < plan.len() && plan[i] == rule;
        lemma_port_rules_come_first(policy, i);
        if i < bind.len() {
            assert(plan[i] == bind[i]);
            if policy.bind_ports.len() > 0 {
                assert(policy.bind_ports[i] == port);
            }
        } else {
            let k = i - bind.len();
            assert(plan[bind.len() + k] == connect[k]);
            if policy.connect_ports.len() > 0 {
                assert(policy.connect_ports[k] == port);
            }
        }
    }
    if policy.ports(direction).contains(port) {
        let k = choose|k: int|
            0 <= k < policy.ports(direction).len() && policy.ports(direction)[k] == port;
        match direction {
            Direction::Bind => {
                assert(plan[k] == bind[k]);
                assert(plan[k] == rule);
            },
            Direction::Connect => {
                assert(plan[bind.len() + k] == connect[k]);
                assert(plan[bind.len() + k] == rule);
            },
        }
    }
    if policy.ports(direction).len() == 0 && port == SENTINEL_PORT {
        match direction {
            Direction::Bind => {
                assert(plan[0] == bind[0]);
                assert(plan[0] == rule);
            },
            Direction::Connect => {
                assert(plan[bind.len() + 0int] == connect[0]);
                assert(plan[bind.len() + 0int] == rule);
            },
        }
    }
}

/// The plan realises the union of the zones: some rule of the plan grants
/// reading on a path exactly when the path is listed as read-only or as
/// read-write, and some rule grants writing on it exactly when it is listed as
/// write-only or as read-write.
pub proof fn lemma_plan_grants_the_union(policy: Policy, path: Seq<char>)
    ensures
        policy.plan_grants_read(path) <==> policy.may_read(path),
        policy.plan_grants_write(path) <==> policy.may_write(path),
{
    let plan = policy.plan();
    lemma_path_rules_are_the_zones(policy, path, PathClass::ReadOnly);
    lemma_path_rules_are_the_zones(policy, path, PathClass::WriteOnly);
    lemma_path_rules_are_the_zones(policy, path, PathClass::ReadWrite);
    if policy.plan_grants_read(path) {
        let i = choose|i: int|
            0 <= i < plan.len() && (#[trigger] plan[i] matches RequestView::Path { path: p, class }
                && p == path && class.allows_read());
        assert(plan.contains(plan[i]));
    }
    if policy.plan_grants_write(path) {
        let i = choose|i: int|
            0 <= i < plan.len() && (#[trigger] plan[i] matches RequestView::Path { path: p, class }
                && p == path && class.allows_write());
        assert(plan.contains(plan[i]));
    }
    if policy.read_only.contains(path) {
        let rule = RequestView::Path { path, class: PathClass::ReadOnly };
        let i = choose|i: int| 0 <= i < plan.len() && plan[i] == rule;
        assert(plan[i] == rule);
    }
    if policy.write_only.contains(path) {
        let rule = RequestView::Path { path, class: PathClass::WriteOnly };
        let i = choose|i: int| 0 <= i < plan.len() && plan[i] == rule;
        assert(plan[i] == rule);
    }
    if policy.read_write.contains(path) {
        let rule = RequestView::Path { path, class: PathClass::ReadWrite };
        let i = choose|i: int| 0 <= i < plan.len() && plan[i] == rule;
        assert(plan[i] == rule);
    }
}

/// Read-write wins over read-only: a path listed in both zones may be
/// written, and a rule of the plan grants writing on it.
pub proof fn lemma_read_write_wins_over_read_only(policy: Policy, path: Seq<char>)
    requires
        policy.read_only.contains(path),
        policy.read_write.contains(path),
    ensures
        policy.may_write(path),
        policy.plan_grants_write(path),
{
    lemma_plan_grants_the_union(policy, path);
}

/// Read-write wins over write-only: a path listed in both zones may be read,
/// and a rule of the plan grants reading on it.
pub proof fn lemma_read_write_wins_over_write_only(policy: Policy, path: Seq<char>)
    requires
        policy.write_only.contains(path),
        policy.read_write.contains(path),
    ensures
        policy.may_read(path),
        policy.plan_grants_read(path),
{
    lemma_plan_grants_the_union(policy, path);
}

/// With disjoint zones each path gets from the plan what its own zone grants
/// and nothing else: a path that no zone lists gets no rule at all, a
/// read-only path only rules that grant reading, a write-only path only rules
/// that grant writing, and a read-write path both.
pub proof fn lemma_disjoint_zones_grant_by_class(policy: Policy, path: Seq<char>)
    requires
        policy.zones_disjoint(),
    ensures
        !policy.read_only.contains(path) && !policy.write_only.contains(path)
            && !policy.read_write.contains(path) ==> !policy.plan_grants_read(path)
            && !policy.plan_grants_write(path),
        policy.read_only.contains(path) ==> policy.plan_grants_read(path)
            && !policy.plan_grants_write(path),
        policy.write_only.contains(path) ==> !policy.plan_grants_read(path)
            && policy.plan_grants_write(path),
        policy.read_write.contains(path) ==> policy.plan_grants_read(path)
            && policy.plan_grants_write(path),
{
    lemma_plan_grants_the_union(policy, path);
}

} // verus!
