//! A registry of timers under identifiers that it hands out.

use crate::model::TimerView;
use crate::timer::Timer;
use std::collections::hash_map::Entry;
use std::collections::HashMap;
use vstd::prelude::*;

verus! {

broadcast use vstd::std_specs::hash::group_hash_axioms;

/// A manager as the contracts see it.
pub struct ManagerView {
    /// The timers that were added, each under its identifier.
    pub timers: Map<u64, TimerView>,
    /// The identifier that the next timer will get.
    pub next_id: nat,
}

impl ManagerView {
    /// A manager that holds no timer.
    pub open spec fn empty() -> ManagerView {
        ManagerView { timers: Map::empty(), next_id: 0 }
    }

    /// Every identifier in use is below the next one, so that none is given
    /// out twice.
    pub open spec fn well_formed(self) -> bool {
        forall|id: u64| self.timers.contains_key(id) ==> id < self.next_id
    }

    /// Whether `id` is the identifier of a timer that is running or paused.
    pub open spec fn is_listed(self, id: u64) -> bool {
        self.timers.contains_key(id) && self.timers[id].is_active()
    }

    /// The manager after `timer` has been added.
    pub open spec fn added(self, timer: TimerView) -> ManagerView {
        ManagerView {
            timers: self.timers.insert(self.next_id as u64, timer),
            next_id: self.next_id + 1,
        }
    }

    /// The manager after every timer has been asked to stop: the active ones
    /// are stopped, the others are as they were.
    pub open spec fn all_stopped(self) -> ManagerView {
        ManagerView {
            timers: self.timers.map_values(|t: TimerView| t.stop_requested()),
            ..self
        }
    }
}

/// The timers of a manager keyed by identifier.
pub struct TimerManager {
    timers: HashMap<u64, Timer>,
    next_id: u64,
}

impl View for TimerManager {
    type V = ManagerView;

    closed spec fn view(&self) -> ManagerView {
        ManagerView {
            timers: Map::new(
                |id: u64| self.timers@.contains_key(id),
                |id: u64| self.timers@[id]@,
            ),
            next_id: self.next_id as nat,
        }
    }
}

impl Default for TimerManager {
    fn default() -> (manager: TimerManager)
        ensures
            manager@ == ManagerView::empty(),
            manager@.well_formed(),
    {
        TimerManager::new()
    }
}

impl TimerManager {
    /// The identifier that the next timer will get.
    pub fn next_id(&self) -> (id: u64)
        ensures
            id == self@.next_id,
    {
        self.next_id
    }

    /// A manager that holds no timer. The first identifier is 0.
    pub fn new() -> (manager: TimerManager)
        ensures
            manager@ == ManagerView::empty(),
            manager@.well_formed(),
    {
        let manager = TimerManager { timers: HashMap::new(), next_id: 0 };
        assert(manager@.timers =~= Map::empty());
        manager
    }

    /// The timer under `id`, to read it or to operate it, or `None` if no
    /// timer was added under `id`. Whatever the caller does to the timer is
    /// what the manager holds under `id` afterwards.
    pub fn get_timer(&mut self, id: u64) -> (found: Option<&mut Timer>)
        requires
            old(self)@.well_formed(),
        ensures
            final(self)@.well_formed(),
            final(self)@.next_id == old(self)@.next_id,
            match found {
                Some(timer) => {
                    &&& old(self)@.timers.contains_key(id)
                    &&& timer@ == old(self)@.timers[id]
                    &&& final(self)@.timers == old(self)@.timers.insert(id, final(timer)@)
                },
                None => !old(self)@.timers.contains_key(id) && final(self)@.timers == old(
                    self,
                )@.timers,
            },
    {
        assert forall|k: u64| self.timers@.contains_key(k) implies k < self.next_id by {
            assert(self@.timers.contains_key(k));
        }
        match self.timers.entry(id) {
            Entry::Occupied(occupied) => Some(occupied.into_mut()),
            Entry::Vacant(vacant) => None,
        }
    }

    /// Adds `timer` under the next identifier and returns it. An identifier
    /// is never given out twice.
    pub fn add_timer(&mut self, timer: Timer) -> (id: u64)
        requires
            old(self)@.well_formed(),
            old(self)@.next_id < u64::MAX,
        ensures
            final(self)@.well_formed(),
            id == old(self)@.next_id,
            !old(self)@.timers.contains_key(id),
            final(self)@ == old(self)@.added(timer@),
    {
        let id = self.next_id;
        self.next_id = id + 1;
        self.timers.insert(id, timer);
        assert(self@.timers =~= old(self)@.added(timer@).timers);
        id
    }

    /// The identifiers of the timers that are running or paused, each once,
    /// in ascending order.
    pub fn list_timers(&self) -> (ids: Vec<u64>)
        requires
            self@.well_formed(),
        ensures
            forall|id: u64| ids@.contains(id) <==> self@.is_listed(id),
            forall|i: int, j: int| 0 <= i < j < ids.len() ==> ids[i] < ids[j],
            ids@.no_duplicates(),
    {
        let mut ids: Vec<u64> = Vec::new();
        let mut id: u64 = 0;
        while id < self.next_id
            invariant
                id <= self.next_id,
                forall|k: u64| ids@.contains(k) <==> k < id && self@.is_listed(k),
                forall|i: int, j: int| 0 <= i < j < ids.len() ==> ids[i] < ids[j],
            decreases self.next_id - id,
        {
            let ghost before = ids@;
            if let Some(timer) = self.timers.get(&id) {
                if timer.get_state().is_active() {
                    ids.push(id);
                    assert forall|k: u64| ids@.contains(k) <==> k < id + 1 && self@.is_listed(
                        k,
                    ) by {
                        if ids@.contains(k) {
                            let i = choose|i: int| 0 <= i < ids.len() && ids[i] == k;
                            if i < before.len() {
                                assert(before.contains(k));
                            }
                        }
                        if k < id && self@.is_listed(k) {
                            assert(before.contains(k));
                            let i = choose|i: int| 0 <= i < before.len() && before[i] == k;
                            assert(ids[i] == k);
                        }
                        if k == id {
                            assert(ids[ids.len() - 1] == k);
                        }
                    }
                    assert forall|i: int, j: int| 0 <= i < j < ids.len() implies ids[i]
                        < ids[j] by {
                        if j == ids.len() - 1 {
                            assert(before.contains(before[i]));
                        }
                    }
                }
            }
            id += 1;
        }
        ids
    }

    /// Asks every timer to stop. A timer that is stopped already refuses, and
    /// that is passed over: afterwards no timer of the manager is active.
    pub fn stop_all(&mut self)
        requires
            old(self)@.well_formed(),
        ensures
            final(self)@.well_formed(),
            final(self)@ == old(self)@.all_stopped(),
            forall|id: u64| !final(self)@.is_listed(id),
    {
        let mut id: u64 = 0;
        while id < self.next_id
            invariant
                id <= self.next_id,
                self.next_id == old(self).next_id,
                self.timers@.dom() == old(self).timers@.dom(),
                forall|k: u64|
                    self.timers@.contains_key(k) ==> (#[trigger] self.timers@[k])@ == (if k < id {
                        old(self).timers@[k]@.stop_requested()
                    } else {
                        old(self).timers@[k]@
                    }),
            decreases self.next_id - id,
        {
            let ghost before = self.timers@;
            match self.timers.entry(id) {
                Entry::Occupied(mut occupied) => {
                    let timer = occupied.get_mut();
                    let _ = timer.stop();
                    assert(timer@ == before[id]@.stop_requested());
                },
                Entry::Vacant(vacant) => {},
            }
            assert(self.timers@.dom() =~= before.dom());
            assert forall|k: u64| self.timers@.contains_key(k) implies (
            #[trigger] self.timers@[k])@ == (if k < id + 1 {
                old(self).timers@[k]@.stop_requested()
            } else {
                old(self).timers@[k]@
            }) by {
                assert(before.contains_key(k));
                if k != id {
                    assert(self.timers@[k] == before[k]);
                }
            }
            id += 1;
        }
        assert forall|k: u64| self@.timers.contains_key(k) implies k < self@.next_id by {
            assert(old(self)@.timers.contains_key(k));
        }
        assert(self@.timers =~= old(self)@.all_stopped().timers);
    }
}

} // verus!
