//! The correlator and topology builder. Given a host controller's interface
//! path it opens the controller, asks it for its driver key, scans every
//! present device for the first one whose driver-key property equals that
//! key, reads that device's identity and descriptive properties, and finally
//! asks the controller for its root hub's name.
//!
//! Each step is a call that the caller makes; the resolution takes the
//! completed result of each call as an event and answers with the next call.

use vstd::prelude::*;
use crate::enumerate::{member_step, set_answer, walk_start, ClassFilter, DeviceEnumerator};
use crate::host_controller::DriverKey;
use crate::property::{property_view, PropertyKind};
use crate::query::{text_view, QueryError};

verus! {

/// Why a controller's topology could not be resolved.
#[derive(Clone, Copy, Debug, PartialEq, Eq, Structural)]
pub enum CoreError {
    /// The controller's channel could not be opened; the platform's status.
    OpenFailed(u32),
    /// The controller did not give its driver key.
    DriverKeyUnavailable(QueryError),
    /// No present device has the controller's driver key.
    DeviceNotFound,
    /// The walk over all devices failed; the platform's status.
    Enumeration(u32),
    /// A host controller's interface, or its detail record, could not be read.
    InterfaceUnavailable(QueryError),
    /// A property of a device could not be read (its absence is no error).
    PropertyUnavailable(PropertyKind, QueryError),
    /// The matched device did not give its instance identity.
    InstanceIdUnavailable(QueryError),
    /// The controller did not give its root hub's name.
    RootHubNameUnavailable(QueryError),
}

/// What is known of one host controller once it is resolved.
#[derive(Debug)]
pub struct ControllerTopology {
    pub path: Vec<u16>,
    pub identity: Vec<u16>,
    pub description: Option<Vec<u16>>,
    pub service: Option<Vec<u16>>,
    pub class: Option<Vec<u16>>,
    pub root_hub_name: Vec<u16>,
}

pub struct TopologyView {
    pub path: Seq<u16>,
    pub identity: Seq<u16>,
    pub description: Option<Seq<u16>>,
    pub service: Option<Seq<u16>>,
    pub class: Option<Seq<u16>>,
    pub root_hub_name: Seq<u16>,
}

pub open spec fn opt_view(o: Option<Vec<u16>>) -> Option<Seq<u16>> {
    match o {
        Some(t) => Some(t@),
        None => None,
    }
}

impl View for ControllerTopology {
    type V = TopologyView;

    open spec fn view(&self) -> TopologyView {
        TopologyView {
            path: self.path@,
            identity: self.identity@,
            description: opt_view(self.description),
            service: opt_view(self.service),
            class: opt_view(self.class),
            root_hub_name: self.root_hub_name@,
        }
    }
}

/// Which call a resolution waits for.
#[derive(Clone, Copy, Debug, PartialEq, Eq, Structural)]
pub enum Phase {
    Opening,
    DriverKey,
    Scanning,
    MemberKey,
    Identity,
    Description,
    Service,
    Class,
    RootHub,
    Done,
}

/// The resolution of one controller, from its interface path.
#[derive(Debug)]
pub struct Resolution {
    pub path: Vec<u16>,
    pub phase: Phase,
    /// The controller's driver key, once known.
    pub key: DriverKey,
    /// The walk over all present devices.
    pub members: DeviceEnumerator,
    /// The member under examination, then the matched member.
    pub current: u32,
    pub identity: Vec<u16>,
    pub description: Option<Vec<u16>>,
    pub service: Option<Vec<u16>>,
    pub class: Option<Vec<u16>>,
}

pub struct ResolutionView {
    pub path: Seq<u16>,
    pub phase: Phase,
    pub key: Seq<u16>,
    pub members: DeviceEnumerator,
    pub current: u32,
    pub identity: Seq<u16>,
    pub description: Option<Seq<u16>>,
    pub service: Option<Seq<u16>>,
    pub class: Option<Seq<u16>>,
}

impl View for Resolution {
    type V = ResolutionView;

    open spec fn view(&self) -> ResolutionView {
        ResolutionView {
            path: self.path@,
            phase: self.phase,
            key: self.key@,
            members: self.members,
            current: self.current,
            identity: self.identity@,
            description: opt_view(self.description),
            service: opt_view(self.service),
            class: opt_view(self.class),
        }
    }
}

/// The completed result of the call a resolution asked for.
#[derive(Debug)]
pub enum Event {
    Opened,
    OpenFailed(u32),
    DriverKey(Result<DriverKey, QueryError>),
    /// The device set's answer for the member asked for.
    Member { succeeded: bool, code: u32 },
    /// The driver-key property of the member under examination.
    MemberKey(Result<Option<Vec<u16>>, QueryError>),
    Identity(Result<Vec<u16>, QueryError>),
    /// The descriptive property asked for.
    Property(Result<Option<Vec<u16>>, QueryError>),
    RootHubName(Result<Vec<u16>, QueryError>),
}

pub enum EventView {
    Opened,
    OpenFailed(u32),
    DriverKey(Result<Seq<u16>, QueryError>),
    Member { succeeded: bool, code: u32 },
    MemberKey(Result<Option<Seq<u16>>, QueryError>),
    Identity(Result<Seq<u16>, QueryError>),
    Property(Result<Option<Seq<u16>>, QueryError>),
    RootHubName(Result<Seq<u16>, QueryError>),
}

impl View for Event {
    type V = EventView;

    open spec fn view(&self) -> EventView {
        match *self {
            Event::Opened => EventView::Opened,
            Event::OpenFailed(c) => EventView::OpenFailed(c),
            Event::DriverKey(r) => EventView::DriverKey(
                match r {
                    Ok(k) => Ok(k@),
                    Err(e) => Err(e),
                },
            ),
            Event::Member { succeeded, code } => EventView::Member { succeeded, code },
            Event::MemberKey(r) => EventView::MemberKey(property_view(r)),
            Event::Identity(r) => EventView::Identity(text_view(r)),
            Event::Property(r) => EventView::Property(property_view(r)),
            Event::RootHubName(r) => EventView::RootHubName(text_view(r)),
        }
    }
}

/// The call to make next, or the end of the resolution.
#[derive(Debug)]
pub enum Action {
    /// Open a channel to the controller at the resolution's path.
    Open,
    /// Ask the controller for its driver key.
    QueryDriverKey,
    /// Ask the set of all present devices for the member at this index.
    NextMember(u32),
    /// Fetch the driver-key property of this member.
    FetchMemberKey(u32),
    /// Fetch the instance identity of this member.
    FetchIdentity(u32),
    /// Fetch this property of this member.
    FetchProperty(u32, PropertyKind),
    /// Ask the controller for its root hub's name.
    QueryRootHubName,
    Finish(Result<ControllerTopology, CoreError>),
}

pub enum ActionView {
    Open,
    QueryDriverKey,
    NextMember(u32),
    FetchMemberKey(u32),
    FetchIdentity(u32),
    FetchProperty(u32, PropertyKind),
    QueryRootHubName,
    Finish(Result<TopologyView, CoreError>),
}

impl View for Action {
    type V = ActionView;

    open spec fn view(&self) -> ActionView {
        match *self {
            Action::Open => ActionView::Open,
            Action::QueryDriverKey => ActionView::QueryDriverKey,
            Action::NextMember(i) => ActionView::NextMember(i),
            Action::FetchMemberKey(i) => ActionView::FetchMemberKey(i),
            Action::FetchIdentity(i) => ActionView::FetchIdentity(i),
            Action::FetchProperty(i, k) => ActionView::FetchProperty(i, k),
            Action::QueryRootHubName => ActionView::QueryRootHubName,
            Action::Finish(r) => ActionView::Finish(
                match r {
                    Ok(t) => Ok(t@),
                    Err(e) => Err(e),
                },
            ),
        }
    }
}

/// The call a resolution in phase `s.phase` waits for.
pub open spec fn pending(s: ResolutionView) -> ActionView {
    match s.phase {
        Phase::Opening => ActionView::Open,
        Phase::DriverKey => ActionView::QueryDriverKey,
        Phase::Scanning => ActionView::NextMember(s.members.next_index),
        Phase::MemberKey => ActionView::FetchMemberKey(s.current),
        Phase::Identity => ActionView::FetchIdentity(s.current),
        Phase::Description => ActionView::FetchProperty(s.current, PropertyKind::Description),
        Phase::Service => ActionView::FetchProperty(s.current, PropertyKind::Service),
        Phase::Class => ActionView::FetchProperty(s.current, PropertyKind::Class),
        Phase::RootHub => ActionView::QueryRootHubName,
        // Nothing is pending once done; a finished resolution takes no events.
        Phase::Done => ActionView::Open,
    }
}

pub open spec fn fail(s: ResolutionView, e: CoreError) -> (ResolutionView, ActionView) {
    (ResolutionView { phase: Phase::Done, ..s }, ActionView::Finish(Err(e)))
}

/// One step of a resolution: the state after the event and the next call.
/// The scan stops at the first member whose driver key equals the
/// controller's, unit for unit; a member without a driver key is passed
/// over. A property that could not be read ends the resolution with an
/// error; one that the device lacks is kept as absent. An event that does not answer the pending call
/// changes nothing, and the pending call is asked for again.
pub open spec fn step(s: ResolutionView, e: EventView) -> (ResolutionView, ActionView) {
    let ignored = (s, pending(s));
    match s.phase {
        Phase::Opening => match e {
            EventView::Opened => (
                ResolutionView { phase: Phase::DriverKey, ..s },
                ActionView::QueryDriverKey,
            ),
            EventView::OpenFailed(c) => fail(s, CoreError::OpenFailed(c)),
            _ => ignored,
        },
        Phase::DriverKey => match e {
            EventView::DriverKey(Ok(k)) => (
                ResolutionView {
                    phase: Phase::Scanning,
                    key: k,
                    members: walk_start(ClassFilter::AllClasses),
                    ..s
                },
                ActionView::NextMember(0),
            ),
            EventView::DriverKey(Err(q)) => fail(s, CoreError::DriverKeyUnavailable(q)),
            _ => ignored,
        },
        Phase::Scanning => match e {
            EventView::Member { succeeded, code } => {
                let (m, item) = member_step(s.members, succeeded, code);
                match item {
                    Some(Ok(i)) => (
                        ResolutionView { phase: Phase::MemberKey, members: m, current: i, ..s },
                        ActionView::FetchMemberKey(i),
                    ),
                    Some(Err(c)) => fail(ResolutionView { members: m, ..s }, CoreError::Enumeration(c)),
                    None => fail(ResolutionView { members: m, ..s }, CoreError::DeviceNotFound),
                }
            },
            _ => ignored,
        },
        Phase::MemberKey => match e {
            EventView::MemberKey(Err(q)) => fail(s, CoreError::PropertyUnavailable(PropertyKind::DriverKey, q)),
            EventView::MemberKey(Ok(k)) => if k == Some(s.key) {
                (ResolutionView { phase: Phase::Identity, ..s }, ActionView::FetchIdentity(s.current))
            } else {
                (
                    ResolutionView { phase: Phase::Scanning, ..s },
                    ActionView::NextMember(s.members.next_index),
                )
            },
            _ => ignored,
        },
        Phase::Identity => match e {
            EventView::Identity(Ok(t)) => (
                ResolutionView { phase: Phase::Description, identity: t, ..s },
                ActionView::FetchProperty(s.current, PropertyKind::Description),
            ),
            EventView::Identity(Err(q)) => fail(s, CoreError::InstanceIdUnavailable(q)),
            _ => ignored,
        },
        Phase::Description => match e {
            EventView::Property(Ok(o)) => (
                ResolutionView { phase: Phase::Service, description: o, ..s },
                ActionView::FetchProperty(s.current, PropertyKind::Service),
            ),
            EventView::Property(Err(q)) => fail(s, CoreError::PropertyUnavailable(PropertyKind::Description, q)),
            _ => ignored,
        },
        Phase::Service => match e {
            EventView::Property(Ok(o)) => (
                ResolutionView { phase: Phase::Class, service: o, ..s },
                ActionView::FetchProperty(s.current, PropertyKind::Class),
            ),
            EventView::Property(Err(q)) => fail(s, CoreError::PropertyUnavailable(PropertyKind::Service, q)),
            _ => ignored,
        },
        Phase::Class => match e {
            EventView::Property(Ok(o)) => (
                ResolutionView { phase: Phase::RootHub, class: o, ..s },
                ActionView::QueryRootHubName,
            ),
            EventView::Property(Err(q)) => fail(s, CoreError::PropertyUnavailable(PropertyKind::Class, q)),
            _ => ignored,
        },
        Phase::RootHub => match e {
            EventView::RootHubName(Ok(t)) => (
                ResolutionView { phase: Phase::Done, ..s },
                ActionView::Finish(
                    Ok(
                        TopologyView {
                            path: s.path,
                            identity: s.identity,
                            description: s.description,
                            service: s.service,
                            class: s.class,
                            root_hub_name: t,
                        },
                    ),
                ),
            ),
            EventView::RootHubName(Err(q)) => fail(s, CoreError::RootHubNameUnavailable(q)),
            _ => ignored,
        },
        Phase::Done => ignored,
    }
}

fn take_text(v: &mut Vec<u16>) -> (r: Vec<u16>)
    ensures
        r@ == old(v)@,
        final(v)@ == Seq::<u16>::empty(),
{
    let mut r: Vec<u16> = Vec::new();
    core::mem::swap(v, &mut r);
    r
}

fn take_opt(v: &mut Option<Vec<u16>>) -> (r: Option<Vec<u16>>)
    ensures
        opt_view(r) == opt_view(*old(v)),
        *final(v) == None::<Vec<u16>>,
{
    let mut r: Option<Vec<u16>> = None;
    core::mem::swap(v, &mut r);
    r
}

/// Whether a fetched driver-key property is exactly `key`.
fn is_key(r: &Result<Option<Vec<u16>>, QueryError>, key: &Vec<u16>) -> (b: bool)
    ensures
        b == (property_view(*r) == Ok::<Option<Seq<u16>>, QueryError>(Some(key@))),
{
    match r {
        Ok(Some(t)) => {
            assert(property_view(*r) == Ok::<Option<Seq<u16>>, QueryError>(Some(t@)));
            if t.len() != key.len() {
                assert(t@ != key@);
                return false;
            }
            let mut i: usize = 0;
            while i < t.len()
                invariant
                    property_view(*r) == Ok::<Option<Seq<u16>>, QueryError>(Some(t@)),
                    t@.len() == key@.len(),
                    0 <= i <= t@.len(),
                    forall|j: int| 0 <= j < i ==> t@[j] == key@[j],
                decreases t@.len() - i,
            {
                if t[i] != key[i] {
                    assert(t@[i as int] != key@[i as int]);
                    return false;
                }
                i = i + 1;
            }
            assert(t@ =~= key@);
            true
        },
        _ => false,
    }
}

impl Resolution {
    /// A resolution of the controller at `path`; it first asks to open it.
    pub fn new(path: Vec<u16>) -> (r: Resolution)
        ensures
            r@.path == path@,
            r@.phase == Phase::Opening,
            r@.key.len() == 0,
            r@.identity.len() == 0,
            r@.description == None::<Seq<u16>>,
            r@.service == None::<Seq<u16>>,
            r@.class == None::<Seq<u16>>,
            r@.current == 0,
            r@.members == walk_start(ClassFilter::AllClasses),
    {
        Resolution {
            path,
            phase: Phase::Opening,
            key: DriverKey { name: Vec::new() },
            members: DeviceEnumerator::new(ClassFilter::AllClasses),
            current: 0,
            identity: Vec::new(),
            description: None,
            service: None,
            class: None,
        }
    }

    /// The call to make first (or next); a finished resolution asks for none.
    pub fn start(&self) -> (a: Action)
        requires
            self@.phase != Phase::Done,
        ensures
            a@ == pending(self@),
    {
        self.pending()
    }

    pub fn is_done(&self) -> (b: bool)
        ensures
            b == (self@.phase == Phase::Done),
    {
        self.phase == Phase::Done
    }

    fn pending(&self) -> (a: Action)
        ensures
            a@ == pending(self@),
    {
        match self.phase {
            Phase::Opening => Action::Open,
            Phase::DriverKey => Action::QueryDriverKey,
            Phase::Scanning => Action::NextMember(self.members.next_index),
            Phase::MemberKey => Action::FetchMemberKey(self.current),
            Phase::Identity => Action::FetchIdentity(self.current),
            Phase::Description => Action::FetchProperty(self.current, PropertyKind::Description),
            Phase::Service => Action::FetchProperty(self.current, PropertyKind::Service),
            Phase::Class => Action::FetchProperty(self.current, PropertyKind::Class),
            Phase::RootHub => Action::QueryRootHubName,
            Phase::Done => Action::Open,
        }
    }

    fn fail(&mut self, e: CoreError) -> (a: Action)
        ensures
            (final(self)@, a@) == fail(old(self)@, e),
    {
        self.phase = Phase::Done;
        Action::Finish(Err(e))
    }

    /// Takes the result of the call last asked for and says what to do next.
    pub fn on_event(&mut self, event: Event) -> (a: Action)
        requires
            old(self)@.phase != Phase::Done,
        ensures
            (final(self)@, a@) == step(old(self)@, event@),
    {
        match self.phase {
            Phase::Opening => match event {
                Event::Opened => {
                    self.phase = Phase::DriverKey;
                    Action::QueryDriverKey
                },
                Event::OpenFailed(c) => self.fail(CoreError::OpenFailed(c)),
                _ => self.pending(),
            },
            Phase::DriverKey => match event {
                Event::DriverKey(Ok(k)) => {
                    self.phase = Phase::Scanning;
                    self.key = k;
                    self.members = DeviceEnumerator::new(ClassFilter::AllClasses);
                    Action::NextMember(0)
                },
                Event::DriverKey(Err(q)) => self.fail(CoreError::DriverKeyUnavailable(q)),
                _ => self.pending(),
            },
            Phase::Scanning => match event {
                Event::Member { succeeded, code } => {
                    match self.members.on_member(succeeded, code) {
                        Some(Ok(i)) => {
                            self.phase = Phase::MemberKey;
                            self.current = i;
                            Action::FetchMemberKey(i)
                        },
                        Some(Err(c)) => self.fail(CoreError::Enumeration(c)),
                        None => self.fail(CoreError::DeviceNotFound),
                    }
                },
                _ => self.pending(),
            },
            Phase::MemberKey => match event {
                Event::MemberKey(Err(q)) => self.fail(
                    CoreError::PropertyUnavailable(PropertyKind::DriverKey, q),
                ),
                Event::MemberKey(r) => {
                    if is_key(&r, &self.key.name) {
                        self.phase = Phase::Identity;
                        Action::FetchIdentity(self.current)
                    } else {
                        self.phase = Phase::Scanning;
                        Action::NextMember(self.members.next_index)
                    }
                },
                _ => self.pending(),
            },
            Phase::Identity => match event {
                Event::Identity(Ok(t)) => {
                    self.phase = Phase::Description;
                    self.identity = t;
                    Action::FetchProperty(self.current, PropertyKind::Description)
                },
                Event::Identity(Err(q)) => self.fail(CoreError::InstanceIdUnavailable(q)),
                _ => self.pending(),
            },
            Phase::Description => match event {
                Event::Property(Ok(o)) => {
                    self.phase = Phase::Service;
                    self.description = o;
                    Action::FetchProperty(self.current, PropertyKind::Service)
                },
                Event::Property(Err(q)) => self.fail(
                    CoreError::PropertyUnavailable(PropertyKind::Description, q),
                ),
                _ => self.pending(),
            },
            Phase::Service => match event {
                Event::Property(Ok(o)) => {
                    self.phase = Phase::Class;
                    self.service = o;
                    Action::FetchProperty(self.current, PropertyKind::Class)
                },
                Event::Property(Err(q)) => self.fail(
                    CoreError::PropertyUnavailable(PropertyKind::Service, q),
                ),
                _ => self.pending(),
            },
            Phase::Class => match event {
                Event::Property(Ok(o)) => {
                    self.phase = Phase::RootHub;
                    self.class = o;
                    Action::QueryRootHubName
                },
                Event::Property(Err(q)) => self.fail(
                    CoreError::PropertyUnavailable(PropertyKind::Class, q),
                ),
                _ => self.pending(),
            },
            Phase::RootHub => match event {
                Event::RootHubName(Ok(t)) => {
                    self.phase = Phase::Done;
                    let topology = ControllerTopology {
                        path: self.path.clone(),
                        identity: self.identity.clone(),
                        description: self.description.clone(),
                        service: self.service.clone(),
                        class: self.class.clone(),
                        root_hub_name: t,
                    };
                    Action::Finish(Ok(topology))
                },
                Event::RootHubName(Err(q)) => self.fail(CoreError::RootHubNameUnavailable(q)),
                _ => self.pending(),
            },
            Phase::Done => self.pending(),
        }
    }
}

/// The index of the first device, from `from` on, at which the scan for
/// `key` stops: its driver-key result in `keys` is exactly `key`, or an
/// error.
pub open spec fn scan_stop(keys: Seq<Result<Option<Seq<u16>>, QueryError>>, key: Seq<u16>, from: nat) -> Option<nat>
    decreases keys.len() - from,
{
    if from >= keys.len() {
        None
    } else if keys[from as int] == Ok::<Option<Seq<u16>>, QueryError>(Some(key)) || keys[from as int] is Err {
        Some(from)
    } else {
        scan_stop(keys, key, from + 1)
    }
}

/// How a fixed snapshot of the registry answers the scan's pending call.
/// `keys` holds, for each present device in enumeration order, the result of
/// fetching its driver key.
pub open spec fn snapshot_event(keys: Seq<Result<Option<Seq<u16>>, QueryError>>, s: ResolutionView) -> EventView {
    if s.phase == Phase::MemberKey {
        EventView::MemberKey(keys[s.current as int])
    } else {
        let (succeeded, code) = set_answer(keys.len(), s.members.next_index);
        EventView::Member { succeeded, code }
    }
}

/// Up to `fuel` further steps of a scan answered by the snapshot `keys`: the
/// state and call at which the scan ends (or the fuel does).
pub open spec fn scan_run(keys: Seq<Result<Option<Seq<u16>>, QueryError>>, s: ResolutionView, fuel: nat) -> (
    ResolutionView,
    ActionView,
)
    decreases fuel,
{
    let (next, a) = step(s, snapshot_event(keys, s));
    if fuel == 0 || !(next.phase == Phase::Scanning || next.phase == Phase::MemberKey) {
        (next, a)
    } else {
        scan_run(keys, next, (fuel - 1) as nat)
    }
}

/// The members whose driver keys a scan answered by the snapshot `keys`
/// asks for in up to `fuel` further steps, in the order it asks.
pub open spec fn scan_fetches(keys: Seq<Result<Option<Seq<u16>>, QueryError>>, s: ResolutionView, fuel: nat) -> Seq<u32>
    decreases fuel,
{
    let (next, a) = step(s, snapshot_event(keys, s));
    let here = match a {
        ActionView::FetchMemberKey(i) => seq![i],
        _ => Seq::empty(),
    };
    if fuel == 0 || !(next.phase == Phase::Scanning || next.phase == Phase::MemberKey) {
        here
    } else {
        here + scan_fetches(keys, next, (fuel - 1) as nat)
    }
}

/// How many members a scan from `from` on examines: up to and including the
/// one it stops at (a match, or a driver key that could not be read), or all
/// the rest.
pub open spec fn examined_count(keys: Seq<Result<Option<Seq<u16>>, QueryError>>, key: Seq<u16>, from: nat) -> nat {
    match scan_stop(keys, key, from) {
        Some(i) => (i - from + 1) as nat,
        None => (keys.len() - from) as nat,
    }
}

/// What a scan from device `from` on comes to, by the snapshot alone.
pub open spec fn scan_ends_as(
    keys: Seq<Result<Option<Seq<u16>>, QueryError>>,
    key: Seq<u16>,
    from: nat,
    end: (ResolutionView, ActionView),
) -> bool {
    match scan_stop(keys, key, from) {
        Some(i) => match keys[i as int] {
            Ok(_) => {
                &&& end.0.phase == Phase::Identity
                &&& end.0.current == i
                &&& end.1 == ActionView::FetchIdentity(i as u32)
            },
            Err(q) => {
                &&& end.0.phase == Phase::Done
                &&& end.1 == ActionView::Finish(
                    Err(CoreError::PropertyUnavailable(PropertyKind::DriverKey, q)),
                )
            },
        },
        None => {
            &&& end.0.phase == Phase::Done
            &&& end.1 == ActionView::Finish(Err(CoreError::DeviceNotFound))
        },
    }
}

proof fn lemma_scan_from(keys: Seq<Result<Option<Seq<u16>>, QueryError>>, s: ResolutionView, fuel: nat)
    requires
        keys.len() <= u32::MAX,
        s.phase == Phase::Scanning,
        !s.members.finished,
        s.members.next_index <= keys.len(),
        fuel >= 2 * (keys.len() - s.members.next_index),
    ensures
        scan_ends_as(keys, s.key, s.members.next_index as nat, scan_run(keys, s, fuel)),
        scan_stop(keys, s.key, s.members.next_index as nat) matches Some(i) ==> s.members.next_index <= i < keys.len(),
        scan_fetches(keys, s, fuel) == Seq::new(
            examined_count(keys, s.key, s.members.next_index as nat),
            |i: int| (s.members.next_index + i) as u32,
        ),
    decreases keys.len() - s.members.next_index,
{
    let j = s.members.next_index;
    let (next, a) = step(s, snapshot_event(keys, s));
    if j < keys.len() {
        assert(next.phase == Phase::MemberKey && next.current == j);
        assert(next.members.next_index == j + 1 && !next.members.finished);
        let (after, b) = step(next, snapshot_event(keys, next));
        assert(scan_run(keys, s, fuel) == scan_run(keys, next, (fuel - 1) as nat));
        if keys[j as int] == Ok::<Option<Seq<u16>>, QueryError>(Some(s.key)) || keys[j as int] is Err {
            assert(!(after.phase == Phase::Scanning || after.phase == Phase::MemberKey));
            assert(scan_fetches(keys, next, (fuel - 1) as nat) =~= Seq::<u32>::empty());
            assert(scan_fetches(keys, s, fuel) =~= Seq::new(
                examined_count(keys, s.key, j as nat),
                |i: int| (j + i) as u32,
            ));
        } else {
            assert(after.phase == Phase::Scanning);
            assert(scan_run(keys, next, (fuel - 1) as nat) == scan_run(keys, after, (fuel - 2) as nat));
            lemma_scan_from(keys, after, (fuel - 2) as nat);
            assert(scan_fetches(keys, next, (fuel - 1) as nat) =~= scan_fetches(keys, after, (fuel - 2) as nat));
            assert(scan_stop(keys, s.key, j as nat) == scan_stop(keys, s.key, (j + 1) as nat));
            assert(examined_count(keys, s.key, j as nat) == examined_count(keys, s.key, (j + 1) as nat) + 1);
            assert(scan_fetches(keys, s, fuel) =~= Seq::new(
                examined_count(keys, s.key, j as nat),
                |i: int| (j + i) as u32,
            ));
        }
    } else {
        assert(scan_fetches(keys, s, fuel) =~= Seq::new(
            examined_count(keys, s.key, j as nat),
            |i: int| (j + i) as u32,
        ));
    }
}

/// The scan for `key` over a fixed snapshot fetches the driver keys of the
/// members 0, 1, 2, ... in index order, each once, up to and including the
/// first match (or the first driver key that cannot be read); where every
/// driver key is read and none matches, it fetches those of all members,
/// and only after the last one learns that there are no more.
pub proof fn lemma_scan_examines_in_order(keys: Seq<Result<Option<Seq<u16>>, QueryError>>, s: ResolutionView)
    requires
        keys.len() <= u32::MAX,
        s.phase == Phase::Scanning,
        s.members == walk_start(ClassFilter::AllClasses),
    ensures
        scan_fetches(keys, s, 2 * keys.len()) == Seq::new(
            examined_count(keys, s.key, 0),
            |i: int| i as u32,
        ),
        scan_stop(keys, s.key, 0) is None ==> scan_fetches(keys, s, 2 * keys.len()) == Seq::new(
            keys.len(),
            |i: int| i as u32,
        ),
{
    lemma_scan_from(keys, s, 2 * keys.len());
    assert(scan_fetches(keys, s, 2 * keys.len()) =~= Seq::new(
        examined_count(keys, s.key, 0),
        |i: int| i as u32,
    ));
}

/// Correlation over a fixed snapshot is deterministic: however many times a
/// scan for `key` is started over the same snapshot, it stops at the first
/// device whose driver key is exactly `key` and asks for that device's
/// identity, or ends with the error of the first driver key before it that
/// could not be read; with neither it ends in `DeviceNotFound`.
pub proof fn lemma_correlation_deterministic(
    keys: Seq<Result<Option<Seq<u16>>, QueryError>>,
    s1: ResolutionView,
    s2: ResolutionView,
)
    requires
        keys.len() <= u32::MAX,
        s1.phase == Phase::Scanning,
        s2.phase == Phase::Scanning,
        s1.members == walk_start(ClassFilter::AllClasses),
        s2.members == walk_start(ClassFilter::AllClasses),
        s1.key == s2.key,
    ensures
        scan_ends_as(keys, s1.key, 0, scan_run(keys, s1, 2 * keys.len())),
        scan_ends_as(keys, s2.key, 0, scan_run(keys, s2, 2 * keys.len())),
        scan_run(keys, s1, 2 * keys.len()).1 == scan_run(keys, s2, 2 * keys.len()).1,
{
    lemma_scan_from(keys, s1, 2 * keys.len());
    lemma_scan_from(keys, s2, 2 * keys.len());
}

} // verus!
