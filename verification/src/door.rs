use vstd::prelude::*;

verus! {

broadcast use vstd::seq_lib::lemma_seq_contains_after_push;

/// Edge-triggered door-proximity events: each fires exactly once, on
/// the frame where a door enters or leaves the player's sensor range.
#[derive(Clone, Copy, PartialEq, Eq, Structural, Debug)]
pub enum DoorEvents {
    EnteredDoorRange(usize),
    LeftDoorRange(usize),
}

/// A door's identity is a stable integer id.
#[derive(Clone, Copy, PartialEq, Eq, Structural, Debug)]
pub struct Door(pub usize);

/// The set of door ids the player currently overlaps, kept frame to
/// frame so that transitions can be detected.
pub struct DoorsInRange {
    ids: Vec<usize>,
}

/// Whether a sequence of ids holds `id`; the stored vector stands for a
/// set, so membership is all that matters.
pub open spec fn holds(s: Seq<usize>, id: usize) -> bool {
    s.contains(id)
}

proof fn lemma_push_keeps_no_dups(s: Seq<DoorEvents>, e: DoorEvents)
    requires
        s.no_duplicates(),
        !s.contains(e),
    ensures
        s.push(e).no_duplicates(),
{
    let t = s.push(e);
    assert forall|i: int, j: int| 0 <= i < j < t.len() implies t[i] != t[j] by {
        if j == s.len() as int {
            assert(t[i] == s[i]);
            if t[i] == e {
                assert(s.contains(e));
            }
        } else {
            assert(t[i] == s[i] && t[j] == s[j]);
        }
    }
}

fn vec_contains(v: &Vec<usize>, id: usize) -> (r: bool)
    ensures
        r == v@.contains(id),
{
    let mut i: usize = 0;
    while i < v.len()
        invariant
            0 <= i <= v@.len(),
            forall|j: int| 0 <= j < i ==> v@[j] != id,
        decreases v@.len() - i,
    {
        if v[i] == id {
            return true;
        }
        i += 1;
    }
    false
}

fn vec_copy(v: &Vec<usize>) -> (r: Vec<usize>)
    ensures
        r@ == v@,
{
    let mut r: Vec<usize> = Vec::new();
    let mut i: usize = 0;
    while i < v.len()
        invariant
            0 <= i <= v@.len(),
            r@ == v@.take(i as int),
        decreases v@.len() - i,
    {
        r.push(v[i]);
        proof {
            assert(r@ =~= v@.take(i + 1 as int));
        }
        i += 1;
    }
    proof {
        assert(r@ =~= v@);
    }
    r
}

impl DoorsInRange {
    /// The stored ids, for contracts.
    pub closed spec fn view(self) -> Seq<usize> {
        self.ids@
    }

    /// The set holds each id at most once.
    pub open spec fn inv(self) -> bool {
        self.view().no_duplicates()
    }

    /// No doors in range at startup.
    pub fn new() -> (r: DoorsInRange)
        ensures
            r.inv(),
            r.view().len() == 0,
    {
        DoorsInRange { ids: Vec::new() }
    }

    pub fn contains(&self, id: usize) -> (r: bool)
        ensures
            r == holds(self.view(), id),
    {
        vec_contains(&self.ids, id)
    }

    /// Diff this frame's intersection set against the recorded one:
    /// every id newly present yields one `EnteredDoorRange`, every id
    /// newly absent yields one `LeftDoorRange`, unchanged doors yield
    /// nothing, and the recorded set becomes this frame's set.
    pub fn update(&mut self, current: &Vec<usize>) -> (events: Vec<DoorEvents>)
        requires
            old(self).inv(),
            current@.no_duplicates(),
        ensures
            final(self).inv(),
            final(self).view() == current@,
            events@.no_duplicates(),
            forall|id: usize| #![trigger events@.contains(DoorEvents::EnteredDoorRange(id))]
                events@.contains(DoorEvents::EnteredDoorRange(id)) <==> holds(current@, id)
                    && !holds(old(self).view(), id),
            forall|id: usize| #![trigger events@.contains(DoorEvents::LeftDoorRange(id))]
                events@.contains(DoorEvents::LeftDoorRange(id)) <==> holds(old(self).view(), id)
                    && !holds(current@, id),
            // each door that left fired exactly once: its event sits at
            // one index of the log and at no other
            forall|id: usize| #![trigger events@.contains(DoorEvents::LeftDoorRange(id))]
                holds(old(self).view(), id) && !holds(current@, id) ==> exists|i: int|
                    0 <= i < events@.len() && events@[i] == DoorEvents::LeftDoorRange(id) && (
                    forall|j: int|
                        0 <= j < events@.len() && events@[j] == DoorEvents::LeftDoorRange(id)
                            ==> j == i),
    {
        let mut events: Vec<DoorEvents> = Vec::new();

        // doors that weren't in range last frame
        let mut i: usize = 0;
        while i < current.len()
            invariant
                0 <= i <= current@.len(),
                current@.no_duplicates(),
                self == old(self),
                events@.no_duplicates(),
                forall|id: usize| #![trigger events@.contains(DoorEvents::EnteredDoorRange(id))]
                    events@.contains(DoorEvents::EnteredDoorRange(id)) <==> current@.take(
                        i as int,
                    ).contains(id) && !holds(self.view(), id),
                forall|id: usize| #![trigger events@.contains(DoorEvents::LeftDoorRange(id))]
                    !events@.contains(DoorEvents::LeftDoorRange(id)),
            decreases current@.len() - i,
        {
            let id: usize = current[i];
            let ghost evs0 = events@;
            let in_range: bool = self.contains(id);
            if !in_range {
                proof {
                    // the id cannot already be among the entered ones:
                    // that would need it twice in this frame's set
                    assert(!current@.take(i as int).contains(id)) by {
                        if current@.take(i as int).contains(id) {
                            let j = choose|j: int|
                                0 <= j < i && current@.take(i as int)[j] == id;
                            assert(current@[j] == id && current@[i as int] == id);
                        }
                    }
                    lemma_push_keeps_no_dups(evs0, DoorEvents::EnteredDoorRange(id));
                }
                events.push(DoorEvents::EnteredDoorRange(id));
            }
            proof {
                assert(current@.take(i + 1 as int) =~= current@.take(i as int).push(
                    current@[i as int],
                ));
                assert forall|id2: usize|
                    #![trigger events@.contains(DoorEvents::EnteredDoorRange(id2))]
                    events@.contains(DoorEvents::EnteredDoorRange(id2)) <==> current@.take(
                        i + 1 as int,
                    ).contains(id2) && !holds(self.view(), id2) by {
                    vstd::seq_lib::lemma_seq_contains_after_push(
                        current@.take(i as int),
                        current@[i as int],
                        id2,
                    );
                    assert(evs0.contains(DoorEvents::EnteredDoorRange(id2)) <==> current@.take(
                        i as int,
                    ).contains(id2) && !holds(self.view(), id2));
                    if !in_range {
                        vstd::seq_lib::lemma_seq_contains_after_push(
                            evs0,
                            DoorEvents::EnteredDoorRange(id),
                            DoorEvents::EnteredDoorRange(id2),
                        );
                    }
                }
                assert forall|id2: usize|
                    #![trigger events@.contains(DoorEvents::LeftDoorRange(id2))]
                    !events@.contains(DoorEvents::LeftDoorRange(id2)) by {
                    if !in_range {
                        vstd::seq_lib::lemma_seq_contains_after_push(
                            evs0,
                            DoorEvents::EnteredDoorRange(id),
                            DoorEvents::LeftDoorRange(id2),
                        );
                    }
                }
            }
            i += 1;
        }
        proof {
            assert(current@.take(current@.len() as int) =~= current@);
        }

        // doors that were in range last frame and are gone now
        let mut k: usize = 0;
        while k < self.ids.len()
            invariant
                0 <= k <= self.view().len(),
                current@.no_duplicates(),
                self == old(self),
                self.inv(),
                events@.no_duplicates(),
                forall|id: usize| #![trigger events@.contains(DoorEvents::EnteredDoorRange(id))]
                    events@.contains(DoorEvents::EnteredDoorRange(id)) <==> holds(current@, id)
                        && !holds(self.view(), id),
                forall|id: usize| #![trigger events@.contains(DoorEvents::LeftDoorRange(id))]
                    events@.contains(DoorEvents::LeftDoorRange(id)) <==> self.view().take(
                        k as int,
                    ).contains(id) && !holds(current@, id),
            decreases self.view().len() - k,
        {
            let id: usize = self.ids[k];
            let ghost evs1 = events@;
            let gone: bool = !vec_contains(current, id);
            if gone {
                proof {
                    // a second Left event for this id would need the id
                    // twice among the recorded ones
                    assert(!self.view().take(k as int).contains(id)) by {
                        if self.view().take(k as int).contains(id) {
                            let j = choose|j: int|
                                0 <= j < k && self.view().take(k as int)[j] == id;
                            assert(self.view()[j] == id && self.view()[k as int] == id);
                        }
                    }
                    lemma_push_keeps_no_dups(evs1, DoorEvents::LeftDoorRange(id));
                }
                events.push(DoorEvents::LeftDoorRange(id));
            }
            proof {
                assert(self.view().take(k + 1 as int) =~= self.view().take(k as int).push(
                    self.view()[k as int],
                ));
                assert forall|id2: usize|
                    #![trigger events@.contains(DoorEvents::LeftDoorRange(id2))]
                    events@.contains(DoorEvents::LeftDoorRange(id2)) <==> self.view().take(
                        k + 1 as int,
                    ).contains(id2) && !holds(current@, id2) by {
                    vstd::seq_lib::lemma_seq_contains_after_push(
                        self.view().take(k as int),
                        self.view()[k as int],
                        id2,
                    );
                    assert(evs1.contains(DoorEvents::LeftDoorRange(id2)) <==> self.view().take(
                        k as int,
                    ).contains(id2) && !holds(current@, id2));
                    if gone {
                        vstd::seq_lib::lemma_seq_contains_after_push(
                            evs1,
                            DoorEvents::LeftDoorRange(id),
                            DoorEvents::LeftDoorRange(id2),
                        );
                    }
                }
                assert forall|id2: usize|
                    #![trigger events@.contains(DoorEvents::EnteredDoorRange(id2))]
                    events@.contains(DoorEvents::EnteredDoorRange(id2)) <==> holds(current@, id2)
                        && !holds(self.view(), id2) by {
                    assert(evs1.contains(DoorEvents::EnteredDoorRange(id2)) <==> holds(
                        current@,
                        id2,
                    ) && !holds(self.view(), id2));
                    if gone {
                        vstd::seq_lib::lemma_seq_contains_after_push(
                            evs1,
                            DoorEvents::LeftDoorRange(id),
                            DoorEvents::EnteredDoorRange(id2),
                        );
                    }
                }
            }
            k += 1;
        }
        proof {
            assert(self.view().take(self.view().len() as int) =~= self.view());
            assert forall|id: usize|
                holds(self.view(), id) && !holds(current@, id) implies (exists|i: int|
                0 <= i < events@.len() && events@[i] == DoorEvents::LeftDoorRange(id) && (
                forall|j: int|
                    0 <= j < events@.len() && events@[j] == DoorEvents::LeftDoorRange(id)
                        ==> j == i)) by {
                assert(events@.contains(DoorEvents::LeftDoorRange(id)));
                let i = choose|i: int|
                    0 <= i < events@.len() && events@[i] == DoorEvents::LeftDoorRange(id);
                assert(0 <= i < events@.len() && events@[i] == DoorEvents::LeftDoorRange(id) && (
                forall|j: int|
                    0 <= j < events@.len() && events@[j] == DoorEvents::LeftDoorRange(id)
                        ==> j == i));
            }
        }

        // the recorded set becomes this frame's set
        self.ids = vec_copy(current);
        events
    }
}

/// The transition law: when a door drops out of the intersection set,
/// the frame of the transition carries exactly one `LeftDoorRange` for
/// it, and the following frame, with the door still absent, carries no
/// event for it at all.
pub proof fn lemma_left_fires_exactly_once(
    s0: Seq<usize>,
    c1: Seq<usize>,
    e1: Seq<DoorEvents>,
    c2: Seq<usize>,
    e2: Seq<DoorEvents>,
    id: usize,
)
    requires
        // the event logs of two successive updates, as `update` ensures
        e1.no_duplicates(),
        forall|d: usize| #![trigger e1.contains(DoorEvents::LeftDoorRange(d))]
            e1.contains(DoorEvents::LeftDoorRange(d)) <==> holds(s0, d) && !holds(c1, d),
        forall|d: usize| #![trigger e2.contains(DoorEvents::LeftDoorRange(d))]
            e2.contains(DoorEvents::LeftDoorRange(d)) <==> holds(c1, d) && !holds(c2, d),
        forall|d: usize| #![trigger e2.contains(DoorEvents::EnteredDoorRange(d))]
            e2.contains(DoorEvents::EnteredDoorRange(d)) <==> holds(c2, d) && !holds(c1, d),
        // the door was in range, then out of range for both frames
        holds(s0, id),
        !holds(c1, id),
        !holds(c2, id),
    ensures
        exists|i: int|
            0 <= i < e1.len() && e1[i] == DoorEvents::LeftDoorRange(id) && (forall|j: int|
                0 <= j < e1.len() && e1[j] == DoorEvents::LeftDoorRange(id) ==> j == i),
        !e2.contains(DoorEvents::LeftDoorRange(id)),
        !e2.contains(DoorEvents::EnteredDoorRange(id)),
{
    assert(e1.contains(DoorEvents::LeftDoorRange(id)));
    let i = choose|i: int| 0 <= i < e1.len() && e1[i] == DoorEvents::LeftDoorRange(id);
    assert(0 <= i < e1.len() && e1[i] == DoorEvents::LeftDoorRange(id) && (forall|j: int|
        0 <= j < e1.len() && e1[j] == DoorEvents::LeftDoorRange(id) ==> j == i));
}

} // verus!
