//! Where each hotkey's presses go: one route for each hotkey id.

use vstd::prelude::*;

verus! {

/// The routes of the hotkey dispatcher: for each hotkey id, the channel
/// its presses go to; a later registration of an id replaces the earlier.
pub struct HotkeyRoutes<T> {
    routes: Vec<(u32, T)>,
}

impl<T> HotkeyRoutes<T> {
    /// The route of each registered hotkey id.
    pub closed spec fn routes(&self) -> Map<u32, T> {
        Map::new(
            |id: u32| exists|k: int| 0 <= k < self.routes@.len() && self.routes@[k].0 == id,
            |id: u32| self.routes@[choose|k: int| 0 <= k < self.routes@.len() && self.routes@[k].0 == id].1,
        )
    }

    /// No hotkey id occurs twice.
    pub closed spec fn wf(&self) -> bool {
        forall|i: int, j: int| 0 <= i < j < self.routes@.len() ==> self.routes@[i].0 != self.routes@[j].0
    }

    /// No route.
    pub fn new() -> (r: Self)
        ensures
            r.wf(),
            r.routes() == Map::<u32, T>::empty(),
    {
        let r = HotkeyRoutes { routes: Vec::new() };
        assert(r.routes() =~= Map::<u32, T>::empty());
        r
    }

    fn position(&self, hotkey_id: u32) -> (r: Option<usize>)
        ensures
            match r {
                Some(k) => k < self.routes@.len() && self.routes@[k as int].0 == hotkey_id,
                None => forall|k: int| 0 <= k < self.routes@.len() ==> self.routes@[k].0 != hotkey_id,
            },
    {
        let mut i: usize = 0;
        while i < self.routes.len()
            invariant
                i <= self.routes@.len(),
                forall|k: int| 0 <= k < i ==> self.routes@[k].0 != hotkey_id,
            decreases self.routes@.len() - i,
        {
            if self.routes[i].0 == hotkey_id {
                return Some(i);
            }
            i = i + 1;
        }
        None
    }

    /// Sends the presses of `hotkey_id` to `tx` from now on.
    pub fn register(&mut self, hotkey_id: u32, tx: T)
        requires
            old(self).wf(),
        ensures
            final(self).wf(),
            final(self).routes() == old(self).routes().insert(hotkey_id, tx),
    {
        let ghost before = self.routes@;
        let ghost m0 = self.routes();
        match self.position(hotkey_id) {
            Some(k) => {
                self.routes.set(k, (hotkey_id, tx));
                proof {
                    assert forall|id: u32| #[trigger] self.routes().dom().contains(id) == m0.insert(hotkey_id, tx).dom().contains(id) by {
                        if id != hotkey_id {
                            if m0.dom().contains(id) {
                                let j = choose|j: int| 0 <= j < before.len() && before[j].0 == id;
                                assert(self.routes@[j].0 == id);
                            }
                            if self.routes().dom().contains(id) {
                                let j = choose|j: int| 0 <= j < self.routes@.len() && self.routes@[j].0 == id;
                                assert(before[j].0 == id);
                            }
                        } else {
                            assert(self.routes@[k as int].0 == id);
                        }
                    }
                    assert forall|id: u32| #[trigger] self.routes().dom().contains(id) implies self.routes()[id] == m0.insert(hotkey_id, tx)[id] by {
                        let j = choose|j: int| 0 <= j < self.routes@.len() && self.routes@[j].0 == id;
                        if id == hotkey_id {
                            assert(j == k);
                        } else {
                            assert(before[j].0 == id);
                            let j0 = choose|j0: int| 0 <= j0 < before.len() && before[j0].0 == id;
                            assert(j0 == j);
                        }
                    }
                    assert(self.routes() =~= m0.insert(hotkey_id, tx));
                }
            },
            None => {
                self.routes.push((hotkey_id, tx));
                proof {
                    let n = before.len() as int;
                    assert(self.routes@[n].0 == hotkey_id);
                    assert forall|id: u32| #[trigger] self.routes().dom().contains(id) == m0.insert(hotkey_id, tx).dom().contains(id) by {
                        if id != hotkey_id {
                            if m0.dom().contains(id) {
                                let j = choose|j: int| 0 <= j < before.len() && before[j].0 == id;
                                assert(self.routes@[j].0 == id);
                            }
                            if self.routes().dom().contains(id) {
                                let j = choose|j: int| 0 <= j < self.routes@.len() && self.routes@[j].0 == id;
                                assert(j < n);
                                assert(before[j].0 == id);
                            }
                        }
                    }
                    assert forall|id: u32| #[trigger] self.routes().dom().contains(id) implies self.routes()[id] == m0.insert(hotkey_id, tx)[id] by {
                        let j = choose|j: int| 0 <= j < self.routes@.len() && self.routes@[j].0 == id;
                        if id == hotkey_id {
                            assert(j == n);
                        } else {
                            assert(j < n);
                            assert(before[j].0 == id);
                            let j0 = choose|j0: int| 0 <= j0 < before.len() && before[j0].0 == id;
                            assert(j0 == j);
                        }
                    }
                    assert(self.routes() =~= m0.insert(hotkey_id, tx));
                }
            },
        }
    }

    /// The route of `hotkey_id`, if it has one.
    pub fn route(&self, hotkey_id: u32) -> (r: Option<&T>)
        requires
            self.wf(),
        ensures
            match r {
                Some(t) => self.routes().dom().contains(hotkey_id) && *t == self.routes()[hotkey_id],
                None => !self.routes().dom().contains(hotkey_id),
            },
    {
        match self.position(hotkey_id) {
            Some(k) => {
                proof {
                    let j = choose|j: int| 0 <= j < self.routes@.len() && self.routes@[j].0 == hotkey_id;
                    assert(j == k);
                }
                Some(&self.routes[k].1)
            },
            None => None,
        }
    }
}

/// After a registration of `hotkey_id`, its presses go to the new route;
/// every other hotkey keeps the route it had, or still has none.
pub proof fn law_route_after_register<T>(routes: Map<u32, T>, hotkey_id: u32, tx: T, other: u32)
    requires
        other != hotkey_id,
    ensures
        routes.insert(hotkey_id, tx).dom().contains(hotkey_id),
        routes.insert(hotkey_id, tx)[hotkey_id] == tx,
        routes.insert(hotkey_id, tx).dom().contains(other) == routes.dom().contains(other),
        routes.dom().contains(other) ==> routes.insert(hotkey_id, tx)[other] == routes[other],
{
}

} // verus!
