//! Host controllers: the walk over the host-controller device set, which
//! yields each controller's interface path once its channel is open, and the
//! control-channel requests a controller answers.

use vstd::prelude::*;
use crate::correlate::CoreError;
use crate::enumerate::{member_step, set_answer, walk_start, ClassFilter, DeviceEnumerator};
use crate::query::{text_view, QueryError, SizedQuery};

verus! {

/// Control code that asks a host controller for its driver key.
pub const IOCTL_GET_HCD_DRIVERKEY_NAME: u32 = 0x220424;

/// Control code that asks a host controller for its root hub's name.
pub const IOCTL_USB_GET_ROOT_HUB_NAME: u32 = 0x220408;

/// Units of the 32-bit length (or size) field that precedes the text in a
/// control-channel answer and in an interface detail record.
pub const HEADER_UNITS: usize = 2;

/// A host controller whose channel is open, known by its interface path.
#[derive(Debug)]
pub struct HostController {
    pub path: Vec<u16>,
}

impl View for HostController {
    type V = Seq<u16>;

    open spec fn view(&self) -> Seq<u16> {
        self.path@
    }
}

/// The name of the registry subkey of a controller's driver: a token that
/// correlates the controller with its device record.
#[derive(Debug)]
pub struct DriverKey {
    pub name: Vec<u16>,
}

impl View for DriverKey {
    type V = Seq<u16>;

    open spec fn view(&self) -> Seq<u16> {
        self.name@
    }
}

/// A control-channel request: the control code to send, and the two-phase
/// query that reads the answer after its length header.
#[derive(Clone, Copy, Debug, PartialEq, Eq, Structural)]
pub struct ControlRequest {
    pub code: u32,
    pub query: SizedQuery,
}

pub open spec fn control_request(code: u32) -> ControlRequest {
    ControlRequest {
        code,
        query: SizedQuery { stage: crate::query::QueryStage::Probing, offset: HEADER_UNITS },
    }
}

impl HostController {
    /// The request that reads this controller's driver key.
    pub fn driver_key(&self) -> (r: ControlRequest)
        ensures
            r == control_request(IOCTL_GET_HCD_DRIVERKEY_NAME),
    {
        ControlRequest {
            code: IOCTL_GET_HCD_DRIVERKEY_NAME,
            query: SizedQuery::with_header(HEADER_UNITS),
        }
    }

    /// The request that reads the name of this controller's root hub.
    pub fn root_hub_name(&self) -> (r: ControlRequest)
        ensures
            r == control_request(IOCTL_USB_GET_ROOT_HUB_NAME),
    {
        ControlRequest {
            code: IOCTL_USB_GET_ROOT_HUB_NAME,
            query: SizedQuery::with_header(HEADER_UNITS),
        }
    }
}

/// Which call the walk over host controllers waits for.
#[derive(Clone, Copy, Debug, PartialEq, Eq, Structural)]
pub enum ControllerPhase {
    Member,
    Interface,
    Detail,
    Opening,
    Finished,
}

/// The walk over the host-controller device set. For each member it asks
/// for the member's interface, then for the interface's detail record (read
/// with a sized query, the path after a size header), then to open the path.
#[derive(Debug)]
pub struct HostControllers {
    pub members: DeviceEnumerator,
    pub phase: ControllerPhase,
    pub current: u32,
    /// The path of the controller being opened.
    pub path: Vec<u16>,
}

pub struct HostControllersView {
    pub members: DeviceEnumerator,
    pub phase: ControllerPhase,
    pub current: u32,
    pub path: Seq<u16>,
}

impl View for HostControllers {
    type V = HostControllersView;

    open spec fn view(&self) -> HostControllersView {
        HostControllersView {
            members: self.members,
            phase: self.phase,
            current: self.current,
            path: self.path@,
        }
    }
}

/// The completed result of the call the walk asked for.
#[derive(Debug)]
pub enum ControllerEvent {
    Member { succeeded: bool, code: u32 },
    Interface { succeeded: bool, code: u32 },
    /// The interface path, read from the detail record.
    Detail(Result<Vec<u16>, QueryError>),
    Opened,
    OpenFailed(u32),
}

pub enum ControllerEventView {
    Member { succeeded: bool, code: u32 },
    Interface { succeeded: bool, code: u32 },
    Detail(Result<Seq<u16>, QueryError>),
    Opened,
    OpenFailed(u32),
}

impl View for ControllerEvent {
    type V = ControllerEventView;

    open spec fn view(&self) -> ControllerEventView {
        match *self {
            ControllerEvent::Member { succeeded, code } => ControllerEventView::Member { succeeded, code },
            ControllerEvent::Interface { succeeded, code } => ControllerEventView::Interface {
                succeeded,
                code,
            },
            ControllerEvent::Detail(r) => ControllerEventView::Detail(text_view(r)),
            ControllerEvent::Opened => ControllerEventView::Opened,
            ControllerEvent::OpenFailed(c) => ControllerEventView::OpenFailed(c),
        }
    }
}

/// The call to make next, a controller to hand out, or the end of the walk.
#[derive(Debug)]
pub enum ControllerAction {
    /// Ask the device set for the member at this index.
    NextMember(u32),
    /// Ask for the host-controller interface of this member.
    EnumInterface(u32),
    /// Read the interface detail record of this member.
    FetchDetail(u32),
    /// Open a channel to the walk's `path`.
    Open,
    /// One item of the walk: an open controller, or why this member failed.
    Yield(Result<HostController, CoreError>),
    End,
}

pub enum ControllerActionView {
    NextMember(u32),
    EnumInterface(u32),
    FetchDetail(u32),
    Open,
    Yield(Result<Seq<u16>, CoreError>),
    End,
}

impl View for ControllerAction {
    type V = ControllerActionView;

    open spec fn view(&self) -> ControllerActionView {
        match *self {
            ControllerAction::NextMember(i) => ControllerActionView::NextMember(i),
            ControllerAction::EnumInterface(i) => ControllerActionView::EnumInterface(i),
            ControllerAction::FetchDetail(i) => ControllerActionView::FetchDetail(i),
            ControllerAction::Open => ControllerActionView::Open,
            ControllerAction::Yield(r) => ControllerActionView::Yield(
                match r {
                    Ok(c) => Ok(c@),
                    Err(e) => Err(e),
                },
            ),
            ControllerAction::End => ControllerActionView::End,
        }
    }
}

/// The call the walk waits for.
pub open spec fn controller_pending(s: HostControllersView) -> ControllerActionView {
    match s.phase {
        ControllerPhase::Member => if s.members.finished {
            ControllerActionView::End
        } else {
            ControllerActionView::NextMember(s.members.next_index)
        },
        ControllerPhase::Interface => ControllerActionView::EnumInterface(s.current),
        ControllerPhase::Detail => ControllerActionView::FetchDetail(s.current),
        ControllerPhase::Opening => ControllerActionView::Open,
        ControllerPhase::Finished => ControllerActionView::End,
    }
}

/// Hands out an item and goes on with the next member.
pub open spec fn yield_item(s: HostControllersView, r: Result<Seq<u16>, CoreError>) -> (
    HostControllersView,
    ControllerActionView,
) {
    (
        HostControllersView { phase: ControllerPhase::Member, path: Seq::empty(), ..s },
        ControllerActionView::Yield(r),
    )
}

/// One step of the walk. A failure on one member is handed out as an item
/// and the walk goes on; a failure of the device set itself is the last item.
/// An event that does not answer the pending call changes nothing.
pub open spec fn controller_step(s: HostControllersView, e: ControllerEventView) -> (
    HostControllersView,
    ControllerActionView,
) {
    let ignored = (s, controller_pending(s));
    match s.phase {
        ControllerPhase::Member => match e {
            ControllerEventView::Member { succeeded, code } => {
                let (m, item) = member_step(s.members, succeeded, code);
                match item {
                    Some(Ok(i)) => (
                        HostControllersView {
                            phase: ControllerPhase::Interface,
                            members: m,
                            current: i,
                            ..s
                        },
                        ControllerActionView::EnumInterface(i),
                    ),
                    Some(Err(c)) => yield_item(
                        HostControllersView { members: m, ..s },
                        Err(CoreError::Enumeration(c)),
                    ),
                    None => (
                        HostControllersView { phase: ControllerPhase::Finished, members: m, ..s },
                        ControllerActionView::End,
                    ),
                }
            },
            _ => ignored,
        },
        ControllerPhase::Interface => match e {
            ControllerEventView::Interface { succeeded, code } => if succeeded {
                (
                    HostControllersView { phase: ControllerPhase::Detail, ..s },
                    ControllerActionView::FetchDetail(s.current),
                )
            } else {
                yield_item(s, Err(CoreError::InterfaceUnavailable(QueryError::Underlying(code))))
            },
            _ => ignored,
        },
        ControllerPhase::Detail => match e {
            ControllerEventView::Detail(Ok(p)) => (
                HostControllersView { phase: ControllerPhase::Opening, path: p, ..s },
                ControllerActionView::Open,
            ),
            ControllerEventView::Detail(Err(q)) => yield_item(
                s,
                Err(CoreError::InterfaceUnavailable(q)),
            ),
            _ => ignored,
        },
        ControllerPhase::Opening => match e {
            ControllerEventView::Opened => yield_item(s, Ok(s.path)),
            ControllerEventView::OpenFailed(c) => yield_item(s, Err(CoreError::OpenFailed(c))),
            _ => ignored,
        },
        ControllerPhase::Finished => ignored,
    }
}

/// A walk over the host controllers that are present.
pub fn host_controllers() -> (w: HostControllers)
    ensures
        w@.members == walk_start(ClassFilter::HostControllers),
        w@.phase == ControllerPhase::Member,
        w@.path.len() == 0,
{
    HostControllers {
        members: DeviceEnumerator::new(ClassFilter::HostControllers),
        phase: ControllerPhase::Member,
        current: 0,
        path: Vec::new(),
    }
}

impl HostControllers {
    /// The call to make next.
    pub fn pending(&self) -> (a: ControllerAction)
        ensures
            a@ == controller_pending(self@),
    {
        match self.phase {
            ControllerPhase::Member => if self.members.finished {
                ControllerAction::End
            } else {
                ControllerAction::NextMember(self.members.next_index)
            },
            ControllerPhase::Interface => ControllerAction::EnumInterface(self.current),
            ControllerPhase::Detail => ControllerAction::FetchDetail(self.current),
            ControllerPhase::Opening => ControllerAction::Open,
            ControllerPhase::Finished => ControllerAction::End,
        }
    }

    fn yield_item(&mut self, r: Result<HostController, CoreError>) -> (a: ControllerAction)
        ensures
            (final(self)@, a@) == yield_item(
                old(self)@,
                match r {
                    Ok(c) => Ok(c@),
                    Err(e) => Err(e),
                },
            ),
    {
        self.phase = ControllerPhase::Member;
        self.path = Vec::new();
        ControllerAction::Yield(r)
    }

    /// Takes the result of the call last asked for and says what to do next.
    pub fn on_event(&mut self, event: ControllerEvent) -> (a: ControllerAction)
        ensures
            (final(self)@, a@) == controller_step(old(self)@, event@),
    {
        match self.phase {
            ControllerPhase::Member => match event {
                ControllerEvent::Member { succeeded, code } => {
                    match self.members.on_member(succeeded, code) {
                        Some(Ok(i)) => {
                            self.phase = ControllerPhase::Interface;
                            self.current = i;
                            ControllerAction::EnumInterface(i)
                        },
                        Some(Err(c)) => self.yield_item(Err(CoreError::Enumeration(c))),
                        None => {
                            self.phase = ControllerPhase::Finished;
                            ControllerAction::End
                        },
                    }
                },
                _ => self.pending(),
            },
            ControllerPhase::Interface => match event {
                ControllerEvent::Interface { succeeded, code } => {
                    if succeeded {
                        self.phase = ControllerPhase::Detail;
                        ControllerAction::FetchDetail(self.current)
                    } else {
                        self.yield_item(
                            Err(CoreError::InterfaceUnavailable(QueryError::Underlying(code))),
                        )
                    }
                },
                _ => self.pending(),
            },
            ControllerPhase::Detail => match event {
                ControllerEvent::Detail(Ok(p)) => {
                    self.phase = ControllerPhase::Opening;
                    self.path = p;
                    ControllerAction::Open
                },
                ControllerEvent::Detail(Err(q)) => self.yield_item(
                    Err(CoreError::InterfaceUnavailable(q)),
                ),
                _ => self.pending(),
            },
            ControllerPhase::Opening => match event {
                ControllerEvent::Opened => {
                    let mut path: Vec<u16> = Vec::new();
                    core::mem::swap(&mut path, &mut self.path);
                    self.yield_item(Ok(HostController { path }))
                },
                ControllerEvent::OpenFailed(c) => self.yield_item(Err(CoreError::OpenFailed(c))),
                _ => self.pending(),
            },
            ControllerPhase::Finished => self.pending(),
        }
    }
}

/// How a fixed snapshot answers the walk's pending call: a host-controller
/// set whose members have the interface paths `paths`, in index order, each
/// with a readable interface and a channel that opens.
pub open spec fn walk_event(paths: Seq<Seq<u16>>, s: HostControllersView) -> ControllerEventView {
    match s.phase {
        ControllerPhase::Interface => ControllerEventView::Interface { succeeded: true, code: 0 },
        ControllerPhase::Detail => ControllerEventView::Detail(Ok(paths[s.current as int])),
        ControllerPhase::Opening => ControllerEventView::Opened,
        _ => {
            let (succeeded, code) = set_answer(paths.len(), s.members.next_index);
            ControllerEventView::Member { succeeded, code }
        },
    }
}

/// `fuel` steps of the walk `s` answered by that snapshot: the walk
/// afterwards and the items it handed out.
pub open spec fn walk_run(paths: Seq<Seq<u16>>, s: HostControllersView, fuel: nat) -> (
    HostControllersView,
    Seq<Result<Seq<u16>, CoreError>>,
)
    decreases fuel,
{
    if fuel == 0 {
        (s, Seq::empty())
    } else {
        let (next, a) = controller_step(s, walk_event(paths, s));
        let (last, rest) = walk_run(paths, next, (fuel - 1) as nat);
        (
            last,
            match a {
                ControllerActionView::Yield(r) => seq![r] + rest,
                _ => rest,
            },
        )
    }
}

proof fn lemma_walk_finished(paths: Seq<Seq<u16>>, s: HostControllersView, fuel: nat)
    requires
        s.phase == ControllerPhase::Finished,
    ensures
        walk_run(paths, s, fuel) == (s, Seq::<Result<Seq<u16>, CoreError>>::empty()),
        controller_pending(s) == ControllerActionView::End,
    decreases fuel,
{
    if fuel > 0 {
        lemma_walk_finished(paths, s, (fuel - 1) as nat);
    }
}

proof fn lemma_walk_from(paths: Seq<Seq<u16>>, s: HostControllersView, fuel: nat)
    requires
        paths.len() <= u32::MAX,
        s.phase == ControllerPhase::Member,
        !s.members.finished,
        s.members.next_index <= paths.len(),
        fuel > 4 * (paths.len() - s.members.next_index),
    ensures
        walk_run(paths, s, fuel).0.phase == ControllerPhase::Finished,
        walk_run(paths, s, fuel).1 == Seq::new(
            (paths.len() - s.members.next_index) as nat,
            |i: int| Ok::<Seq<u16>, CoreError>(paths[s.members.next_index + i]),
        ),
    decreases paths.len() - s.members.next_index,
{
    let j = s.members.next_index;
    let expected = Seq::new(
        (paths.len() - j) as nat,
        |i: int| Ok::<Seq<u16>, CoreError>(paths[j + i]),
    );
    let (s1, a1) = controller_step(s, walk_event(paths, s));
    if j < paths.len() {
        let (s2, a2) = controller_step(s1, walk_event(paths, s1));
        let (s3, a3) = controller_step(s2, walk_event(paths, s2));
        let (s4, a4) = controller_step(s3, walk_event(paths, s3));
        assert(s1.phase == ControllerPhase::Interface && s1.current == j);
        assert(s2.phase == ControllerPhase::Detail);
        assert(s3.phase == ControllerPhase::Opening && s3.path == paths[j as int]);
        assert(a4 == ControllerActionView::Yield(Ok::<Seq<u16>, CoreError>(paths[j as int])));
        assert(s4.phase == ControllerPhase::Member && s4.members.next_index == j + 1);
        lemma_walk_from(paths, s4, (fuel - 4) as nat);
        let rest = walk_run(paths, s4, (fuel - 4) as nat).1;
        assert(walk_run(paths, s3, (fuel - 3) as nat).1 =~= seq![Ok::<Seq<u16>, CoreError>(paths[j as int])] + rest);
        assert(walk_run(paths, s3, (fuel - 3) as nat).0 == walk_run(paths, s4, (fuel - 4) as nat).0);
        assert(walk_run(paths, s2, (fuel - 2) as nat) == walk_run(paths, s3, (fuel - 3) as nat));
        assert(walk_run(paths, s1, (fuel - 1) as nat) == walk_run(paths, s2, (fuel - 2) as nat));
        assert(walk_run(paths, s, fuel) == walk_run(paths, s1, (fuel - 1) as nat));
        assert(walk_run(paths, s, fuel).1 =~= expected);
    } else {
        assert(s1.phase == ControllerPhase::Finished);
        lemma_walk_finished(paths, s1, (fuel - 1) as nat);
        assert(walk_run(paths, s, fuel).1 =~= expected);
    }
}

/// A walk over a host-controller set of `k` members, each readable and
/// opening, hands out exactly the `k` controllers' paths in index order,
/// each as a success, and then ends: after `4 * k + 1` steps it is over, asks
/// for no further call and hands out nothing more.
pub proof fn lemma_walk_yields_controllers(paths: Seq<Seq<u16>>, fuel: nat)
    requires
        paths.len() <= u32::MAX,
        fuel > 4 * paths.len(),
    ensures
        ({
            let start = HostControllersView {
                members: walk_start(ClassFilter::HostControllers),
                phase: ControllerPhase::Member,
                current: 0,
                path: Seq::empty(),
            };
            let (last, items) = walk_run(paths, start, fuel);
            &&& items == Seq::new(paths.len(), |i: int| Ok::<Seq<u16>, CoreError>(paths[i]))
            &&& last.phase == ControllerPhase::Finished
            &&& controller_pending(last) == ControllerActionView::End
            &&& forall|more: nat| #[trigger] walk_run(paths, last, more).1.len() == 0
        }),
{
    let start = HostControllersView {
        members: walk_start(ClassFilter::HostControllers),
        phase: ControllerPhase::Member,
        current: 0,
        path: Seq::empty(),
    };
    lemma_walk_from(paths, start, fuel);
    let last = walk_run(paths, start, fuel).0;
    assert(walk_run(paths, start, fuel).1 =~= Seq::new(
        paths.len(),
        |i: int| Ok::<Seq<u16>, CoreError>(paths[i]),
    ));
    lemma_walk_finished(paths, last, 0);
    assert forall|more: nat| #[trigger] walk_run(paths, last, more).1.len() == 0 by {
        lemma_walk_finished(paths, last, more);
    }
}

} // verus!
