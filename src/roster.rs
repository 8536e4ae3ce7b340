//! The players of a game state, seen through the flags and labels that the
//! tactical rules read: who holds the disc, who plays defence, who marks.
use vstd::prelude::*;

verus! {

/// The discrete part of a player: identity, role flags and pairing label.
pub struct Role {
    pub id: String,
    pub has_disc: bool,
    pub is_defender: bool,
    pub is_mark: bool,
    /// Pairs a defender with the offender that carries the same label.
    pub label: Option<String>,
}

/// A player that may receive a pass: on offence and not holding the disc.
pub open spec fn is_receiver(r: Role) -> bool {
    !r.is_defender && !r.has_disc
}

/// A defender other than the mark: the one a defender placement may move.
pub open spec fn is_cover_defender(r: Role) -> bool {
    r.is_defender && !r.is_mark
}

/// A defender on the defence side of the coverage rule: neither the mark
/// nor the disc holder (a defender holds the disc after an interception).
pub open spec fn is_coverage_defender(r: Role) -> bool {
    r.is_defender && !r.is_mark && !r.has_disc
}

/// A requested label is met by a player carrying an equal label; no request
/// is met by every player.
pub open spec fn label_fits(r: Role, label: Option<Seq<char>>) -> bool {
    match label {
        None => true,
        Some(l) => r.label is Some && r.label->Some_0@ == l,
    }
}

/// The view of an optional label.
pub open spec fn label_view(label: Option<String>) -> Option<Seq<char>> {
    match label {
        None => None,
        Some(l) => Some(l@),
    }
}

/// Some player of the sequence holds the disc.
pub open spec fn someone_holds(roles: Seq<Role>) -> bool {
    exists|i: int| 0 <= i < roles.len() && #[trigger] roles[i].has_disc
}

/// `t` is the index of the first player that holds the disc.
pub open spec fn is_first_holder(roles: Seq<Role>, t: int) -> bool {
    &&& 0 <= t < roles.len()
    &&& roles[t].has_disc
    &&& forall|j: int| 0 <= j < t ==> !(#[trigger] roles[j]).has_disc
}

/// Index of the thrower: the first player that holds the disc.
pub fn find_thrower(roles: &Vec<Role>) -> (r: Option<usize>)
    ensures
        r is None <==> !someone_holds(roles@),
        r matches Some(i) ==> i < roles@.len() && roles@[i as int].has_disc && forall|j: int|
            0 <= j < i ==> !(#[trigger] roles@[j]).has_disc,
{
    let mut i: usize = 0;
    while i < roles.len()
        invariant
            i <= roles@.len(),
            forall|j: int| 0 <= j < i ==> !(#[trigger] roles@[j]).has_disc,
        decreases roles@.len() - i,
    {
        if roles[i].has_disc {
            return Some(i);
        }
        i += 1;
    }
    None
}

/// Whether the player meets the requested label.
pub fn fits_label(r: &Role, label: &Option<String>) -> (b: bool)
    ensures
        b == label_fits(*r, label_view(*label)),
{
    match label {
        None => true,
        Some(l) => match &r.label {
            None => false,
            Some(m) => m.eq(l),
        },
    }
}

/// Index of the first receiver that meets the requested label.
pub fn find_receiver(roles: &Vec<Role>, label: &Option<String>) -> (r: Option<usize>)
    ensures
        r is None <==> forall|j: int|
            0 <= j < roles@.len() ==> !(is_receiver(#[trigger] roles@[j]) && label_fits(
                roles@[j],
                label_view(*label),
            )),
        r matches Some(i) ==> i < roles@.len() && is_receiver(roles@[i as int]) && label_fits(
            roles@[i as int],
            label_view(*label),
        ) && forall|j: int|
            0 <= j < i ==> !(is_receiver(#[trigger] roles@[j]) && label_fits(
                roles@[j],
                label_view(*label),
            )),
{
    let mut i: usize = 0;
    while i < roles.len()
        invariant
            i <= roles@.len(),
            forall|j: int|
                0 <= j < i ==> !(is_receiver(#[trigger] roles@[j]) && label_fits(
                    roles@[j],
                    label_view(*label),
                )),
        decreases roles@.len() - i,
    {
        let r = &roles[i];
        if !r.is_defender && !r.has_disc && fits_label(r, label) {
            return Some(i);
        }
        i += 1;
    }
    None
}

/// Index of the first cover defender (not the mark) that meets the
/// requested label.
pub fn find_cover_defender(roles: &Vec<Role>, label: &Option<String>) -> (r: Option<usize>)
    ensures
        r is None <==> forall|j: int|
            0 <= j < roles@.len() ==> !(is_cover_defender(#[trigger] roles@[j]) && label_fits(
                roles@[j],
                label_view(*label),
            )),
        r matches Some(i) ==> i < roles@.len() && is_cover_defender(roles@[i as int])
            && label_fits(roles@[i as int], label_view(*label)) && forall|j: int|
            0 <= j < i ==> !(is_cover_defender(#[trigger] roles@[j]) && label_fits(
                roles@[j],
                label_view(*label),
            )),
{
    let mut i: usize = 0;
    while i < roles.len()
        invariant
            i <= roles@.len(),
            forall|j: int|
                0 <= j < i ==> !(is_cover_defender(#[trigger] roles@[j]) && label_fits(
                    roles@[j],
                    label_view(*label),
                )),
        decreases roles@.len() - i,
    {
        let r = &roles[i];
        if r.is_defender && !r.is_mark && fits_label(r, label) {
            return Some(i);
        }
        i += 1;
    }
    None
}

/// `ix` lists, in increasing order, exactly the indices of `roles` whose
/// player satisfies `p`.
pub open spec fn lists_exactly(ix: Seq<usize>, roles: Seq<Role>, p: spec_fn(Role) -> bool) -> bool {
    &&& forall|k: int| 0 <= k < ix.len() ==> (#[trigger] ix[k]) < roles.len() && p(roles[ix[k] as int])
    &&& forall|k: int, l: int| 0 <= k < l < ix.len() ==> (#[trigger] ix[k]) < (#[trigger] ix[l])
    &&& forall|j: int| 0 <= j < roles.len() && p(#[trigger] roles[j]) ==> ix.contains(j as usize)
}

/// The offence side of the coverage rule: every receiver, in list order.
pub fn receiver_indices(roles: &Vec<Role>) -> (ix: Vec<usize>)
    ensures
        lists_exactly(ix@, roles@, |r: Role| is_receiver(r)),
{
    let mut ix: Vec<usize> = Vec::new();
    let mut i: usize = 0;
    while i < roles.len()
        invariant
            i <= roles@.len(),
            forall|k: int| 0 <= k < ix@.len() ==> (#[trigger] ix@[k]) < i && is_receiver(roles@[ix@[k] as int]),
            forall|k: int, l: int| 0 <= k < l < ix@.len() ==> (#[trigger] ix@[k]) < (#[trigger] ix@[l]),
            forall|j: int| 0 <= j < i && is_receiver(#[trigger] roles@[j]) ==> ix@.contains(j as usize),
        decreases roles@.len() - i,
    {
        if !roles[i].is_defender && !roles[i].has_disc {
            let ghost before = ix@;
            ix.push(i);
            assert(ix@[ix@.len() - 1] == i);
            assert forall|j: int| 0 <= j < i && is_receiver(#[trigger] roles@[j]) implies ix@.contains(j as usize) by {
                let k = choose|k: int| 0 <= k < before.len() && before[k] == j as usize;
                assert(ix@[k] == before[k]);
            }
        }
        i += 1;
    }
    ix
}

/// The defence side of the coverage rule: every defender that is neither
/// the mark nor the disc holder, in list order.
pub fn cover_defender_indices(roles: &Vec<Role>) -> (ix: Vec<usize>)
    ensures
        lists_exactly(ix@, roles@, |r: Role| is_coverage_defender(r)),
{
    let mut ix: Vec<usize> = Vec::new();
    let mut i: usize = 0;
    while i < roles.len()
        invariant
            i <= roles@.len(),
            forall|k: int| 0 <= k < ix@.len() ==> (#[trigger] ix@[k]) < i && is_coverage_defender(roles@[ix@[k] as int]),
            forall|k: int, l: int| 0 <= k < l < ix@.len() ==> (#[trigger] ix@[k]) < (#[trigger] ix@[l]),
            forall|j: int| 0 <= j < i && is_coverage_defender(#[trigger] roles@[j]) ==> ix@.contains(j as usize),
        decreases roles@.len() - i,
    {
        if roles[i].is_defender && !roles[i].is_mark && !roles[i].has_disc {
            let ghost before = ix@;
            ix.push(i);
            assert(ix@[ix@.len() - 1] == i);
            assert forall|j: int| 0 <= j < i && is_coverage_defender(#[trigger] roles@[j]) implies ix@.contains(j as usize) by {
                let k = choose|k: int| 0 <= k < before.len() && before[k] == j as usize;
                assert(ix@[k] == before[k]);
            }
        }
        i += 1;
    }
    ix
}

/// The two players of a defender placement: the receiver to guard and the
/// cover defender to move, both meeting the requested label and each the
/// first such in list order. There is none when either is missing.
pub fn placement_pair(roles: &Vec<Role>, label: &Option<String>) -> (r: Option<(usize, usize)>)
    ensures
        r is None <==> (forall|j: int|
            0 <= j < roles@.len() ==> !(is_receiver(#[trigger] roles@[j]) && label_fits(
                roles@[j],
                label_view(*label),
            ))) || (forall|j: int|
            0 <= j < roles@.len() ==> !(is_cover_defender(#[trigger] roles@[j]) && label_fits(
                roles@[j],
                label_view(*label),
            ))),
        r matches Some((o, d)) ==> {
            &&& o < roles@.len() && is_receiver(roles@[o as int])
            &&& label_fits(roles@[o as int], label_view(*label))
            &&& forall|j: int|
                0 <= j < o ==> !(is_receiver(#[trigger] roles@[j]) && label_fits(
                    roles@[j],
                    label_view(*label),
                ))
            &&& d < roles@.len() && is_cover_defender(roles@[d as int])
            &&& label_fits(roles@[d as int], label_view(*label))
            &&& forall|j: int|
                0 <= j < d ==> !(is_cover_defender(#[trigger] roles@[j]) && label_fits(
                    roles@[j],
                    label_view(*label),
                ))
        },
{
    let o = find_receiver(roles, label);
    let d = find_cover_defender(roles, label);
    match (o, d) {
        (Some(o), Some(d)) => Some((o, d)),
        _ => None,
    }
}

} // verus!
