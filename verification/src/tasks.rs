//! Which joined rooms belong to a space.
use vstd::prelude::*;

use crate::text::opt_text;

verus! {

/// A parent space that a room names, as the client classified it.
#[derive(Debug, Clone)]
pub enum ParentSpace {
    /// The parent names the room as a child too.
    Reciprocal(String),
    /// The room's claim is backed by the power levels of the parent.
    WithPowerlevel(String),
    /// The claim could not be verified or was found false.
    Unverified,
}

/// The id of a parent space whose claim was verified.
pub open spec fn verified_parent(p: ParentSpace) -> Option<Seq<char>> {
    match p {
        ParentSpace::Reciprocal(id) => Some(id@),
        ParentSpace::WithPowerlevel(id) => Some(id@),
        ParentSpace::Unverified => None,
    }
}

/// Whether a room is listed under `space`: under a space, a room belongs
/// when one of its verified parents is that space; with no space chosen, a
/// room belongs when it has no verified parent and is not a space itself.
/// A room whose parents could not be read (`None`) belongs nowhere.
pub open spec fn in_space(space: Option<Seq<char>>, parents: Option<Seq<ParentSpace>>, is_space: bool) -> bool {
    match parents {
        None => false,
        Some(ps) => match space {
            Some(s) => exists|i: int| 0 <= i < ps.len() && verified_parent(#[trigger] ps[i]) == Some(s),
            None => (forall|i: int| 0 <= i < ps.len() ==> verified_parent(#[trigger] ps[i]) is None)
                && !is_space,
        },
    }
}

/// Decides whether a room is listed under `space`, given the parents it
/// names, read in order until the first one that failed to load (`None`
/// when they could not be read at all), and whether it is itself a space.
pub fn belongs_to_space(space: Option<&String>, parents: &Option<Vec<ParentSpace>>, is_space: bool) -> (r: bool)
    ensures
        r == in_space(
            match space {
                Some(s) => Some(s@),
                None => None,
            },
            match parents {
                Some(ps) => Some(ps@),
                None => None,
            },
            is_space,
        ),
{
    let ps = match parents {
        None => return false,
        Some(ps) => ps,
    };
    let ghost sp: Option<Seq<char>> = match space {
        Some(s) => Some(s@),
        None => None,
    };
    let mut i: usize = 0;
    while i < ps.len()
        invariant
            i <= ps.len(),
            parents matches Some(x) && x@ == ps@,
            sp == match space {
                Some(s) => Some(s@),
                None => None::<Seq<char>>,
            },
            sp is Some ==> forall|j: int| 0 <= j < i ==> verified_parent(#[trigger] ps@[j]) != sp,
            sp is None ==> forall|j: int| 0 <= j < i ==> verified_parent(#[trigger] ps@[j]) is None,
        decreases ps.len() - i,
    {
        let pid: Option<&String> = match &ps[i] {
            ParentSpace::Reciprocal(id) => Some(id),
            ParentSpace::WithPowerlevel(id) => Some(id),
            ParentSpace::Unverified => None,
        };
        if let Some(pid) = pid {
            match space {
                Some(s) => {
                    if s.eq(pid) {
                        assert(verified_parent(ps@[i as int]) == Some(s@));
                        return true;
                    }
                },
                None => {
                    assert(verified_parent(ps@[i as int]) is Some);
                    return false;
                },
            }
        }
        i = i + 1;
    }
    match space {
        Some(_) => false,
        None => !is_space,
    }
}

/// With no space chosen, a space is never listed as a room.
pub proof fn lemma_spaces_not_listed_as_rooms(parents: Option<Seq<ParentSpace>>)
    ensures
        !in_space(None, parents, true),
{
}

/// A room listed under a space names that space as a verified parent.
pub proof fn lemma_listed_room_has_parent(space: Seq<char>, parents: Seq<ParentSpace>, is_space: bool)
    requires
        in_space(Some(space), Some(parents), is_space),
    ensures
        exists|i: int| 0 <= i < parents.len() && #[trigger] verified_parent(parents[i]) == Some(space),
{
}

/// A room is listed under a space as soon as any of its verified parents, at
/// any position, is that space; parents before it, verified or not, do not
/// matter.
pub proof fn lemma_room_with_parent_is_listed(space: Seq<char>, parents: Seq<ParentSpace>, is_space: bool, i: int)
    requires
        0 <= i < parents.len(),
        (parents[i] matches ParentSpace::Reciprocal(id) && id@ == space) || (
        parents[i] matches ParentSpace::WithPowerlevel(id) && id@ == space),
    ensures
        in_space(Some(space), Some(parents), is_space),
{
    assert(verified_parent(parents[i]) == Some(space));
}

/// Whether a room belongs to a space does not depend on whether it is a
/// space itself, nor on parents that are not verified.
pub proof fn lemma_unverified_parents_ignored(space: Seq<char>, parents: Seq<ParentSpace>, a: bool, b: bool)
    ensures
        in_space(Some(space), Some(parents), a) == in_space(Some(space), Some(parents.push(ParentSpace::Unverified)), b),
{
    let ps = parents.push(ParentSpace::Unverified);
    if in_space(Some(space), Some(ps), b) {
        let i = choose|i: int| 0 <= i < ps.len() && verified_parent(#[trigger] ps[i]) == Some(space);
        assert(i < parents.len());
        assert(verified_parent(parents[i]) == Some(space));
    }
    if in_space(Some(space), Some(parents), a) {
        let i = choose|i: int| 0 <= i < parents.len() && verified_parent(#[trigger] parents[i]) == Some(space);
        assert(verified_parent(ps[i]) == Some(space));
    }
}

} // verus!
