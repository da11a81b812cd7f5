//! Gamepad connection tracking: the lobby holds the set of controllers that
//! are currently plugged in.

use vstd::prelude::*;

verus! {

/// A controller was plugged in or pulled out.
#[derive(Clone, Copy, PartialEq, Eq, Structural, Debug)]
pub enum GamepadEventKind {
    Connected,
    Disconnected,
}

/// One connection event, naming the controller it concerns.
#[derive(Clone, Copy, PartialEq, Eq, Structural, Debug)]
pub struct GamepadEvent {
    pub gamepad: u64,
    pub kind: GamepadEventKind,
}

/// The set of currently connected controller identifiers. Viewed as a
/// `Set<u64>`; the backing vector never holds an identifier twice.
pub struct GamepadLobby {
    gamepads: Vec<u64>,
}

/// One event's effect on a lobby: a connection puts the controller in, a
/// disconnection takes it out.
pub open spec fn apply_event(s: Set<u64>, e: GamepadEvent) -> Set<u64> {
    match e.kind {
        GamepadEventKind::Connected => s.insert(e.gamepad),
        GamepadEventKind::Disconnected => s.remove(e.gamepad),
    }
}

/// A whole batch of events applied in order.
pub open spec fn apply_events(s: Set<u64>, evs: Seq<GamepadEvent>) -> Set<u64>
    decreases evs.len(),
{
    if evs.len() == 0 {
        s
    } else {
        apply_events(apply_event(s, evs[0]), evs.drop_first())
    }
}

/// The kind of the last event in the batch that names this controller, if
/// any does.
pub open spec fn last_event_for(evs: Seq<GamepadEvent>, g: u64) -> Option<GamepadEventKind>
    decreases evs.len(),
{
    if evs.len() == 0 {
        None
    } else {
        let rest = last_event_for(evs.drop_first(), g);
        if rest is Some {
            rest
        } else if evs[0].gamepad == g {
            Some(evs[0].kind)
        } else {
            None
        }
    }
}

impl View for GamepadLobby {
    type V = Set<u64>;

    closed spec fn view(&self) -> Set<u64> {
        self.gamepads@.to_set()
    }
}

impl GamepadLobby {
    /// The backing vector holds each identifier at most once.
    pub closed spec fn wf(self) -> bool {
        forall|i: int, j: int|
            0 <= i < j < self.gamepads@.len() ==> self.gamepads@[i] != self.gamepads@[j]
    }

    /// An empty lobby: nothing is connected yet.
    pub fn new() -> (lobby: GamepadLobby)
        ensures
            lobby.wf(),
            lobby@ == Set::<u64>::empty(),
    {
        let lobby = GamepadLobby { gamepads: Vec::new() };
        proof {
            assert(lobby@ =~= Set::<u64>::empty());
        }
        lobby
    }

    /// Whether this controller is currently in the lobby.
    pub fn connected(&self, g: u64) -> (r: bool)
        ensures
            r == self@.contains(g),
    {
        let mut i: usize = 0;
        while i < self.gamepads.len()
            invariant
                i <= self.gamepads@.len(),
                forall|k: int| 0 <= k < i ==> self.gamepads@[k] != g,
            decreases self.gamepads@.len() - i,
        {
            if self.gamepads[i] == g {
                assert(self.gamepads@.contains(g));
                return true;
            }
            i = i + 1;
        }
        assert(!self.gamepads@.contains(g));
        false
    }

    /// Some connected controller, if the lobby is not empty: the one the
    /// movement and scene systems listen to.
    pub fn first(&self) -> (r: Option<u64>)
        ensures
            r matches Some(g) ==> self@.contains(g),
            r is None ==> self@ == Set::<u64>::empty(),
    {
        if self.gamepads.len() > 0 {
            let g = self.gamepads[0];
            assert(self.gamepads@.contains(g));
            Some(g)
        } else {
            proof {
                assert(self@ =~= Set::<u64>::empty());
            }
            None
        }
    }

    /// Puts a controller in the lobby.
    fn insert(&mut self, g: u64)
        requires
            old(self).wf(),
        ensures
            final(self).wf(),
            final(self)@ == old(self)@.insert(g),
    {
        let already = self.connected(g);
        if !already {
            self.gamepads.push(g);
            proof {
                assert forall|x: u64| self.gamepads@.contains(x) == (old(
                    self,
                ).gamepads@.contains(x) || x == g) by {
                    let s_old = old(self).gamepads@;
                    let s_new = self.gamepads@;
                    if s_new.contains(x) {
                        let k = choose|k: int| 0 <= k < s_new.len() && s_new[k] == x;
                        if k < s_old.len() {
                            assert(s_old.contains(x));
                        }
                    }
                    if s_old.contains(x) {
                        let k = choose|k: int| 0 <= k < s_old.len() && s_old[k] == x;
                        assert(s_new[k] == x);
                        assert(s_new.contains(x));
                    }
                    if x == g {
                        assert(s_new[s_new.len() - 1] == g);
                        assert(s_new.contains(g));
                    }
                }
                assert(self@ =~= old(self)@.insert(g));
            }
        } else {
            proof {
                assert(self@ =~= old(self)@.insert(g));
            }
        }
    }

    /// Takes a controller out of the lobby.
    fn remove(&mut self, g: u64)
        requires
            old(self).wf(),
        ensures
            final(self).wf(),
            final(self)@ == old(self)@.remove(g),
    {
        let ghost s_old = self.gamepads@;
        let mut i: usize = 0;
        while i < self.gamepads.len()
            invariant
                i <= self.gamepads@.len(),
                self.gamepads@ == s_old,
                old(self).wf(),
                old(self).gamepads@ == s_old,
                forall|k: int| 0 <= k < i ==> self.gamepads@[k] != g,
            decreases self.gamepads@.len() - i,
        {
            if self.gamepads[i] == g {
                self.gamepads.remove(i);
                proof {
                    let s_new = self.gamepads@;
                    s_old.remove_ensures(i as int);
                    assert(s_new == s_old.remove(i as int));
                    assert forall|a: int, b: int|
                        0 <= a < b < s_new.len() implies s_new[a] != s_new[b] by {
                        if b < i {
                            assert(s_new[a] == s_old[a] && s_new[b] == s_old[b]);
                        } else if a < i {
                            assert(s_new[a] == s_old[a] && s_new[b] == s_old[b + 1]);
                        } else {
                            assert(s_new[a] == s_old[a + 1] && s_new[b] == s_old[b + 1]);
                        }
                    }
                    assert forall|x: u64| s_new.contains(x) == (s_old.contains(x) && x != g) by {
                        if s_new.contains(x) {
                            let k = choose|k: int| 0 <= k < s_new.len() && s_new[k] == x;
                            if k < i {
                                assert(s_old[k] == x);
                            } else {
                                assert(s_old[k + 1] == x);
                            }
                            assert(s_old.contains(x));
                            assert(x != g) by {
                                if k < i {
                                    assert(s_old[k] != g);
                                } else {
                                    assert(s_old[k + 1] != g) by {
                                        assert(0 <= i < k + 1 < s_old.len());
                                        assert(s_old[i as int] == g);
                                    }
                                }
                            }
                        }
                        if s_old.contains(x) && x != g {
                            let k = choose|k: int| 0 <= k < s_old.len() && s_old[k] == x;
                            if k < i {
                                assert(s_new[k] == x);
                            } else {
                                assert(k > i);
                                assert(s_new[k - 1] == x);
                            }
                            assert(s_new.contains(x));
                        }
                    }
                    assert(self@ =~= old(self)@.remove(g));
                }
                return;
            }
            i = i + 1;
        }
        proof {
            assert(!s_old.contains(g));
            assert(self@ =~= old(self)@.remove(g));
        }
    }

    /// Folds a batch of connection events into the lobby, in order.
    pub fn connection_system(&mut self, events: &Vec<GamepadEvent>)
        requires
            old(self).wf(),
        ensures
            final(self).wf(),
            final(self)@ == apply_events(old(self)@, events@),
    {
        let mut i: usize = 0;
        while i < events.len()
            invariant
                self.wf(),
                i <= events@.len(),
                self@ == apply_events(old(self)@, events@.take(i as int)),
            decreases events@.len() - i,
        {
            let e = events[i];
            proof {
                lemma_apply_events_snoc(old(self)@, events@.take(i as int), e);
                assert(events@.take(i as int).push(e) =~= events@.take(i as int + 1));
            }
            match e.kind {
                GamepadEventKind::Connected => self.insert(e.gamepad),
                GamepadEventKind::Disconnected => self.remove(e.gamepad),
            }
            i = i + 1;
        }
        proof {
            assert(events@.take(events@.len() as int) =~= events@);
        }
    }
}

/// Applying a batch and then one more event is applying the batch grown by
/// that event.
proof fn lemma_apply_events_snoc(s: Set<u64>, evs: Seq<GamepadEvent>, e: GamepadEvent)
    ensures
        apply_events(s, evs.push(e)) == apply_event(apply_events(s, evs), e),
    decreases evs.len(),
{
    let snoc = evs.push(e);
    if evs.len() == 0 {
        assert(snoc[0] == e);
        assert(snoc.drop_first() =~= Seq::<GamepadEvent>::empty());
        assert(apply_events(s, snoc) == apply_events(apply_event(s, e), snoc.drop_first()));
        assert(apply_events(apply_event(s, e), snoc.drop_first()) == apply_event(s, e));
        assert(apply_events(s, evs) == s);
    } else {
        assert(snoc[0] == evs[0]);
        assert(snoc.drop_first() =~= evs.drop_first().push(e));
        lemma_apply_events_snoc(apply_event(s, evs[0]), evs.drop_first(), e);
        assert(apply_events(s, snoc) == apply_events(apply_event(s, evs[0]), snoc.drop_first()));
        assert(apply_events(s, evs) == apply_events(apply_event(s, evs[0]), evs.drop_first()));
    }
}

/// A controller is in the lobby after a batch of events exactly when its
/// last event in the batch is a connection, or it was in the lobby already
/// and no event names it.
pub proof fn lemma_lobby_membership(s: Set<u64>, evs: Seq<GamepadEvent>, g: u64)
    ensures
        apply_events(s, evs).contains(g) == match last_event_for(evs, g) {
            Some(k) => k is Connected,
            None => s.contains(g),
        },
    decreases evs.len(),
{
    if evs.len() > 0 {
        lemma_lobby_membership(apply_event(s, evs[0]), evs.drop_first(), g);
    }
}

} // verus!
