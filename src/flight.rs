//! Who has the disc: releasing it on a throw and catching it in flight.
use vstd::prelude::*;
use crate::roster::{Role, is_first_holder, someone_holds};

verus! {

/// The discrete state of the disc.
pub struct DiscControl {
    /// Id of the player that holds the disc, if any.
    pub holder_id: Option<String>,
    pub in_flight: bool,
}

/// Whether a throw can leave anybody's hands.
pub open spec fn can_release(roles: Seq<Role>, disc: DiscControl) -> bool {
    someone_holds(roles) || disc.holder_id is Some
}

/// Releases the disc for a throw: nobody holds it afterwards and it is in
/// flight. When nobody held it, nothing changes and `false` is returned.
pub fn release_disc(roles: &mut Vec<Role>, disc: &mut DiscControl) -> (thrown: bool)
    ensures
        thrown == can_release(old(roles)@, *old(disc)),
        !someone_holds(old(roles)@) && old(disc).holder_id is None ==> !thrown
            && final(roles)@ == old(roles)@ && *final(disc) == *old(disc),
        !thrown ==> final(roles)@ == old(roles)@ && *final(disc) == *old(disc),
        thrown ==> {
            &&& final(disc).in_flight
            &&& final(disc).holder_id is None
            &&& final(roles)@.len() == old(roles)@.len()
            &&& forall|i: int|
                0 <= i < old(roles)@.len() ==> (#[trigger] final(roles)@[i]) == if is_first_holder(
                    old(roles)@,
                    i,
                ) {
                    Role { has_disc: false, ..old(roles)@[i] }
                } else {
                    old(roles)@[i]
                }
        },
{
    let holder = crate::roster::find_thrower(roles);
    if holder.is_none() && disc.holder_id.is_none() {
        return false;
    }
    disc.in_flight = true;
    disc.holder_id = None;
    if let Some(i) = holder {
        roles[i].has_disc = false;
    }
    true
}

/// Index of the first player close enough to the disc to catch it.
pub open spec fn is_first_near(near: Seq<bool>, i: int) -> bool {
    &&& 0 <= i < near.len()
    &&& near[i]
    &&& forall|j: int| 0 <= j < i ==> !#[trigger] near[j]
}

fn first_near(near: &Vec<bool>) -> (c: Option<usize>)
    ensures
        c is None <==> forall|j: int| 0 <= j < near@.len() ==> !#[trigger] near@[j],
        c matches Some(i) ==> is_first_near(near@, i as int),
{
    let mut i: usize = 0;
    while i < near.len()
        invariant
            i <= near@.len(),
            forall|j: int| 0 <= j < i ==> !#[trigger] near@[j],
        decreases near@.len() - i,
    {
        if near[i] {
            return Some(i);
        }
        i += 1;
    }
    None
}

/// A disc in flight is caught by the first player in list order that is
/// within reach (`near`, one flag per player). The catcher's id becomes the
/// holder, the flight ends, and every player with that id holds the disc.
/// Without anyone in reach nothing changes.
pub fn catch_disc(roles: &mut Vec<Role>, disc: &mut DiscControl, near: &Vec<bool>) -> (c: Option<usize>)
    requires
        near@.len() == old(roles)@.len(),
    ensures
        c is None <==> forall|j: int| 0 <= j < near@.len() ==> !#[trigger] near@[j],
        c is None ==> final(roles)@ == old(roles)@ && *final(disc) == *old(disc),
        c matches Some(i) ==> {
            &&& is_first_near(near@, i as int)
            &&& !final(disc).in_flight
            &&& final(disc).holder_id matches Some(h) && h@ == old(roles)@[i as int].id@
            &&& final(roles)@.len() == old(roles)@.len()
            &&& forall|k: int|
                0 <= k < old(roles)@.len() ==> (#[trigger] final(roles)@[k]) == if old(
                    roles,
                )@[k].id@ == old(roles)@[i as int].id@ {
                    Role { has_disc: true, ..old(roles)@[k] }
                } else {
                    old(roles)@[k]
                }
        },
{
    let c = first_near(near);
    match c {
        None => None,
        Some(ci) => {
            let id = roles[ci].id.clone();
            disc.in_flight = false;
            disc.holder_id = Some(id.clone());
            let ghost before = roles@;
            let mut k: usize = 0;
            while k < roles.len()
                invariant
                    roles@.len() == before.len(),
                    ci < before.len(),
                    id@ == before[ci as int].id@,
                    k <= roles@.len(),
                    forall|m: int|
                        0 <= m < k ==> (#[trigger] roles@[m]) == if before[m].id@ == before[ci as int].id@ {
                            Role { has_disc: true, ..before[m] }
                        } else {
                            before[m]
                        },
                    forall|m: int| k <= m < roles@.len() ==> (#[trigger] roles@[m]) == before[m],
                decreases roles@.len() - k,
            {
                if roles[k].id.eq(&id) {
                    roles[k].has_disc = true;
                }
                k += 1;
            }
            Some(ci)
        },
    }
}

/// Index of the player that holds the disc by id: the first one whose id
/// equals the disc's holder id.
pub fn holder_index(roles: &Vec<Role>, disc: &DiscControl) -> (r: Option<usize>)
    ensures
        disc.holder_id is None ==> r is None,
        disc.holder_id matches Some(h) ==> {
            &&& r is None <==> forall|j: int| 0 <= j < roles@.len() ==> (#[trigger] roles@[j]).id@ != h@
            &&& r matches Some(i) ==> i < roles@.len() && roles@[i as int].id@ == h@ && forall|j: int|
                0 <= j < i ==> (#[trigger] roles@[j]).id@ != h@
        },
{
    match &disc.holder_id {
        None => None,
        Some(h) => find_by_id(roles, h),
    }
}

/// Index of the first player with the given id.
pub fn find_by_id(roles: &Vec<Role>, id: &String) -> (r: Option<usize>)
    ensures
        r is None <==> forall|j: int| 0 <= j < roles@.len() ==> (#[trigger] roles@[j]).id@ != id@,
        r matches Some(i) ==> i < roles@.len() && roles@[i as int].id@ == id@ && forall|j: int|
            0 <= j < i ==> (#[trigger] roles@[j]).id@ != id@,
{
    let mut i: usize = 0;
    while i < roles.len()
        invariant
            i <= roles@.len(),
            forall|j: int| 0 <= j < i ==> (#[trigger] roles@[j]).id@ != id@,
        decreases roles@.len() - i,
    {
        if roles[i].id.eq(id) {
            return Some(i);
        }
        i += 1;
    }
    None
}

} // verus!
