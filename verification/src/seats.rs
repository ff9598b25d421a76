//! The seat registry and per-seat device selection.
//!
//! The compositor advertises input seats; each seat may later report a
//! human-readable name and may get exactly one bound transfer device. The
//! copy applies either to every seat with a device or, when the caller named
//! a seat, to exactly the seats of that name — all of them or none.

use vstd::prelude::*;

use crate::error::CopyError;

verus! {

/// One known seat: its optional reported name and whether a transfer device
/// is bound to it.
pub struct SeatEntry {
    pub name: Option<String>,
    pub has_device: bool,
}

/// A seat takes part in the copy: it has a device, and it carries the
/// requested name if one was requested.
pub open spec fn eligible(s: SeatEntry, desired: Option<String>) -> bool {
    s.has_device && match desired {
        None => true,
        Some(d) => s.name matches Some(n) && n@ == d@,
    }
}

/// The set of seat indices the selection will be set on.
pub open spec fn selected_indices(seats: Seq<SeatEntry>, desired: Option<String>) -> Set<int> {
    Set::new(|i: int| 0 <= i < seats.len() && eligible(seats[i], desired))
}

/// The registry of seats the compositor has advertised, in advertisement
/// order.
pub struct SeatRegistry {
    seats: Vec<SeatEntry>,
}

impl View for SeatRegistry {
    type V = Seq<SeatEntry>;

    closed spec fn view(&self) -> Seq<SeatEntry> {
        self.seats@
    }
}

impl SeatRegistry {
    /// An empty registry: nothing advertised yet.
    pub fn new() -> (r: SeatRegistry)
        ensures
            r@ == Seq::<SeatEntry>::empty(),
    {
        SeatRegistry { seats: Vec::new() }
    }

    /// The compositor advertised one more seat: nameless and deviceless
    /// until the matching events arrive.
    pub fn add_seat(&mut self)
        ensures
            final(self)@ == old(self)@.push(SeatEntry { name: None, has_device: false }),
    {
        self.seats.push(SeatEntry { name: None, has_device: false });
    }

    /// The seat reported its name.
    pub fn set_name(&mut self, index: usize, name: String)
        requires
            index < old(self)@.len(),
        ensures
            final(self)@ == old(self)@.update(
                index as int,
                SeatEntry { name: Some(name), has_device: old(self)@[index as int].has_device },
            ),
    {
        let has_device = self.seats[index].has_device;
        self.seats.set(index, SeatEntry { name: Some(name), has_device });
    }

    /// Bind the seat's transfer device. Binding is idempotent: a seat that
    /// already had a device simply carries the replacement.
    pub fn bind_device(&mut self, index: usize)
        requires
            index < old(self)@.len(),
        ensures
            final(self)@ == old(self)@.update(
                index as int,
                SeatEntry { name: old(self)@[index as int].name, has_device: true },
            ),
    {
        let entry = &self.seats[index];
        let name = match &entry.name {
            Some(n) => Some(n.clone()),
            None => None,
        };
        self.seats.set(index, SeatEntry { name, has_device: true });
    }

    /// How many seats are known.
    pub fn len(&self) -> (n: usize)
        ensures
            n == self@.len(),
    {
        self.seats.len()
    }

    /// Decide which seats' devices get the selection.
    ///
    /// The plan is all-or-nothing: if any seat is eligible, the plan lists
    /// exactly the eligible indices, in ascending order; if none is, the
    /// whole copy fails before a selection is set anywhere — with
    /// `NamedSeatNotFound` when a name was requested, and with `NoSeats`
    /// when no seat has a device at all.
    pub fn selection_plan(&self, desired: &Option<String>) -> (r: Result<Vec<usize>, CopyError>)
        ensures
            r is Ok <==> selected_indices(self@, *desired) != Set::<int>::empty(),
            r matches Ok(v) ==> {
                &&& v@.len() > 0
                &&& forall|k: int|
                    0 <= k < v@.len() ==> selected_indices(self@, *desired).contains(
                        #[trigger] v@[k] as int,
                    )
                &&& forall|k1: int, k2: int| 0 <= k1 < k2 < v@.len() ==> v@[k1] < v@[k2]
                &&& forall|i: int|
                    selected_indices(self@, *desired).contains(i) ==> exists|k: int|
                        0 <= k < v@.len() && #[trigger] v@[k] == i
            },
            r matches Err(e) ==> {
                &&& selected_indices(self@, *desired) =~= Set::<int>::empty()
                &&& desired is Some ==> e == CopyError::NamedSeatNotFound
                &&& desired is None ==> e == CopyError::NoSeats
            },
    {
        let mut picked: Vec<usize> = Vec::new();
        let mut i: usize = 0;
        while i < self.seats.len()
            invariant
                i <= self.seats.len(),
                forall|k: int|
                    0 <= k < picked@.len() ==> (#[trigger] picked@[k]) < i && eligible(
                        self.seats@[picked@[k] as int],
                        *desired,
                    ),
                forall|k1: int, k2: int| 0 <= k1 < k2 < picked@.len() ==> picked@[k1] < picked@[k2],
                forall|j: int|
                    0 <= j < i && eligible(self.seats@[j], *desired) ==> exists|k: int|
                        0 <= k < picked@.len() && #[trigger] picked@[k] == j,
            decreases self.seats.len() - i,
        {
            let entry = &self.seats[i];
            let take = entry.has_device && match desired {
                None => true,
                Some(d) => match &entry.name {
                    Some(n) => *n == *d,
                    None => false,
                },
            };
            proof {
                assert(take == eligible(self.seats@[i as int], *desired));
            }
            if take {
                let ghost pre = picked@;
                picked.push(i);
                proof {
                    assert(picked@[pre.len() as int] == i);
                    assert(forall|k: int| 0 <= k < pre.len() ==> picked@[k] == pre[k]);
                    assert forall|j: int|
                        0 <= j < i + 1 && eligible(self.seats@[j], *desired) implies exists|k: int|
                        0 <= k < picked@.len() && #[trigger] picked@[k] == j by {
                        if j == i {
                            assert(picked@[pre.len() as int] == j);
                        } else {
                            let k0 = choose|k: int| 0 <= k < pre.len() && #[trigger] pre[k] == j;
                            assert(picked@[k0] == j);
                        }
                    }
                }
            }
            i += 1;
        }
        if picked.len() == 0 {
            proof {
                assert forall|j: int| !selected_indices(self@, *desired).contains(j) by {
                    if 0 <= j < self@.len() && eligible(self@[j], *desired) {
                        assert(exists|k: int|
                            0 <= k < picked@.len() && #[trigger] picked@[k] == j);
                    }
                }
                assert(selected_indices(self@, *desired) =~= Set::<int>::empty());
            }
            match desired {
                Some(_) => Err(CopyError::NamedSeatNotFound),
                None => Err(CopyError::NoSeats),
            }
        } else {
            proof {
                let j = picked@[0] as int;
                assert(eligible(self@[j], *desired));
                assert(selected_indices(self@, *desired).contains(j));
            }
            Ok(picked)
        }
    }
}

/// All-or-nothing: a named-seat filter that matches nothing selects no
/// device at all; failure is declared before the selection is set anywhere.
pub proof fn lemma_named_seat_all_or_nothing(seats: Seq<SeatEntry>, desired: String)
    requires
        forall|i: int| 0 <= i < seats.len() ==> !eligible(#[trigger] seats[i], Some(desired)),
    ensures
        selected_indices(seats, Some(desired)) =~= Set::<int>::empty(),
{
}

} // verus!
