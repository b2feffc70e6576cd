//! The device registry enumerator: asks for the member at index 0, 1, 2, ...
//! of a device set until the registry reports that there are no more.

use vstd::prelude::*;

verus! {

/// Status code with which the registry reports that a device set has no
/// member at the index asked for.
pub const ERROR_NO_MORE_ITEMS: u32 = 259;

/// Which devices a device set holds.
#[derive(Clone, Copy, Debug, PartialEq, Eq, Structural)]
pub enum ClassFilter {
    /// Every present device of every class.
    AllClasses,
    HostControllers,
    Hubs,
    UsbDevices,
}

/// A single-pass walk over the members of one device set. It yields the index
/// of each member; the caller fetches what it needs of that member itself.
#[derive(Clone, Copy, Debug, PartialEq, Eq, Structural)]
pub struct DeviceEnumerator {
    pub filter: ClassFilter,
    /// The index the registry is asked for next.
    pub next_index: u32,
    pub finished: bool,
}

/// The walk after the registry's answer for `e.next_index`, and the item it
/// yields: the member's index, a failure's status code, or none.
pub open spec fn member_step(e: DeviceEnumerator, succeeded: bool, code: u32) -> (
    DeviceEnumerator,
    Option<Result<u32, u32>>,
) {
    if e.finished {
        (e, None)
    } else if succeeded {
        if e.next_index < u32::MAX {
            (DeviceEnumerator { next_index: (e.next_index + 1) as u32, ..e }, Some(Ok(e.next_index)))
        } else {
            (DeviceEnumerator { finished: true, ..e }, Some(Ok(e.next_index)))
        }
    } else if code == ERROR_NO_MORE_ITEMS {
        (DeviceEnumerator { finished: true, ..e }, None)
    } else {
        (DeviceEnumerator { finished: true, ..e }, Some(Err(code)))
    }
}

/// A walk that has not asked for any member yet.
pub open spec fn walk_start(filter: ClassFilter) -> DeviceEnumerator {
    DeviceEnumerator { filter, next_index: 0, finished: false }
}

impl DeviceEnumerator {
    pub fn new(filter: ClassFilter) -> (e: DeviceEnumerator)
        ensures
            e == walk_start(filter),
    {
        DeviceEnumerator { filter, next_index: 0, finished: false }
    }

    /// Takes the registry's answer for the member at `self.next_index`.
    pub fn on_member(&mut self, succeeded: bool, code: u32) -> (item: Option<Result<u32, u32>>)
        ensures
            (*final(self), item) == member_step(*old(self), succeeded, code),
    {
        if self.finished {
            None
        } else if succeeded {
            let index = self.next_index;
            if index < u32::MAX {
                self.next_index = index + 1;
            } else {
                self.finished = true;
            }
            Some(Ok(index))
        } else if code == ERROR_NO_MORE_ITEMS {
            self.finished = true;
            None
        } else {
            self.finished = true;
            Some(Err(code))
        }
    }
}

/// How a device set of `k` members answers for the member at `index`.
pub open spec fn set_answer(k: nat, index: u32) -> (bool, u32) {
    if index < k {
        (true, 0)
    } else {
        (false, ERROR_NO_MORE_ITEMS)
    }
}

/// `fuel` advances of the walk `e` over a set of `k` members: the walk
/// afterwards and the items yielded.
pub open spec fn run_members(k: nat, e: DeviceEnumerator, fuel: nat) -> (
    DeviceEnumerator,
    Seq<Result<u32, u32>>,
)
    decreases fuel,
{
    if fuel == 0 {
        (e, Seq::empty())
    } else {
        let (succeeded, code) = set_answer(k, e.next_index);
        let (next, item) = member_step(e, succeeded, code);
        let (last, rest) = run_members(k, next, (fuel - 1) as nat);
        (
            last,
            match item {
                Some(x) => seq![x] + rest,
                None => rest,
            },
        )
    }
}

proof fn lemma_run_from(k: nat, e: DeviceEnumerator, fuel: nat)
    requires
        k <= u32::MAX,
        !e.finished,
        e.next_index <= k,
    ensures
        run_members(k, e, fuel).1 == Seq::new(
            vstd::math::min(fuel as int, k - e.next_index) as nat,
            |i: int| Ok::<u32, u32>((e.next_index + i) as u32),
        ),
        fuel > k - e.next_index ==> run_members(k, e, fuel).0.finished,
    decreases fuel,
{
    if fuel > 0 {
        let (succeeded, code) = set_answer(k, e.next_index);
        let (next, item) = member_step(e, succeeded, code);
        if e.next_index < k {
            lemma_run_from(k, next, (fuel - 1) as nat);
            let rest = run_members(k, next, (fuel - 1) as nat).1;
            assert(run_members(k, e, fuel).1 =~= seq![Ok::<u32, u32>(e.next_index)] + rest);
            assert(run_members(k, e, fuel).1 =~= Seq::new(
                vstd::math::min(fuel as int, k - e.next_index) as nat,
                |i: int| Ok::<u32, u32>((e.next_index + i) as u32),
            ));
        } else {
            lemma_run_finished(k, next, (fuel - 1) as nat);
            assert(run_members(k, e, fuel).1 =~= Seq::new(
                vstd::math::min(fuel as int, k - e.next_index) as nat,
                |i: int| Ok::<u32, u32>((e.next_index + i) as u32),
            ));
        }
    } else {
        assert(run_members(k, e, fuel).1 =~= Seq::new(
            vstd::math::min(fuel as int, k - e.next_index) as nat,
            |i: int| Ok::<u32, u32>((e.next_index + i) as u32),
        ));
    }
}

proof fn lemma_run_finished(k: nat, e: DeviceEnumerator, fuel: nat)
    requires
        e.finished,
    ensures
        run_members(k, e, fuel) == (e, Seq::<Result<u32, u32>>::empty()),
    decreases fuel,
{
    if fuel > 0 {
        lemma_run_finished(k, e, (fuel - 1) as nat);
    }
}

/// A fresh walk over a set of `k` members yields the indices 0 to k - 1, in
/// order and nothing else: after any number of advances, as many of them as
/// there were advances (up to `k`); after more than `k` advances the walk is
/// over and stays over.
pub proof fn lemma_enumeration_yields_members(k: nat, filter: ClassFilter, fuel: nat)
    requires
        k <= u32::MAX,
    ensures
        ({
            let (last, items) = run_members(
                k,
                DeviceEnumerator { filter, next_index: 0, finished: false },
                fuel,
            );
            &&& items.len() == vstd::math::min(fuel as int, k as int)
            &&& forall|i: int| 0 <= i < items.len() ==> items[i] == Ok::<u32, u32>(i as u32)
            &&& fuel > k ==> last.finished && run_members(k, last, 1).1.len() == 0
        }),
{
    let e = DeviceEnumerator { filter, next_index: 0, finished: false };
    lemma_run_from(k, e, fuel);
    let last = run_members(k, e, fuel).0;
    if fuel > k {
        lemma_run_finished(k, last, 1);
    }
}

} // verus!
