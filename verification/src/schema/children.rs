//! Finding children of entries by tag.
use vstd::prelude::*;

use crate::dwarf::Unit;
use crate::err::{ErrorKind, ReflectError};
use crate::lookup::{fail, outcome};
use crate::schema::fields::{lemma_scan_tag_bound, scan_tag};

verus! {

/// The children of the entry at index `entry`.
pub open spec fn children_of(dwarf: Unit, entry: int) -> Seq<usize> {
    dwarf.entries[entry].children@
}

/// The index, in the unit, of the first child of the entry at `entry` that
/// has the tag `tag`: `Ok(None)` if there is none, `Err(())` if a child
/// before it lies outside the unit's entries.
pub open spec fn first_child(dwarf: Unit, entry: int, tag: u16) -> Result<Option<usize>, ()> {
    match scan_tag(dwarf, children_of(dwarf, entry), 0, tag) {
        Ok(Some(k)) => Ok(Some(children_of(dwarf, entry)[k])),
        Ok(None) => Ok(None),
        Err(()) => Err(()),
    }
}

/// The position of the last of `children`, from `pos` on, whose entry has the
/// tag `tag`, or `found` if none has: `Err(())` if any of them lies outside
/// the unit's entries.
pub open spec fn scan_last(
    dwarf: Unit,
    children: Seq<usize>,
    pos: int,
    tag: u16,
    found: Option<int>,
) -> Result<Option<int>, ()>
    decreases children.len() - pos,
{
    if pos < 0 || pos >= children.len() {
        Ok(found)
    } else if children[pos] >= dwarf.entries.len() {
        Err(())
    } else if dwarf.entries[children[pos] as int].tag == tag {
        scan_last(dwarf, children, pos + 1, tag, Some(pos))
    } else {
        scan_last(dwarf, children, pos + 1, tag, found)
    }
}

/// The index, in the unit, of the last child of the entry at `entry` that
/// has the tag `tag`.
pub open spec fn last_child(dwarf: Unit, entry: int, tag: u16) -> Result<Option<usize>, ()> {
    match scan_last(dwarf, children_of(dwarf, entry), 0, tag, None) {
        Ok(Some(k)) => Ok(Some(children_of(dwarf, entry)[k])),
        Ok(None) => Ok(None),
        Err(()) => Err(()),
    }
}

/// The indices, in the unit, of the first two children of the entry at
/// `entry` that are of tag `tag`, if it has two and none before them lies
/// outside the unit's entries.
pub open spec fn first_two(dwarf: Unit, entry: int, tag: u16) -> Option<(usize, usize)> {
    let children = children_of(dwarf, entry);
    match scan_tag(dwarf, children, 0, tag) {
        Ok(Some(k1)) => match scan_tag(dwarf, children, k1 + 1, tag) {
            Ok(Some(k2)) => Some((children[k1], children[k2])),
            _ => None,
        },
        _ => None,
    }
}

proof fn lemma_scan_last_bound(dwarf: Unit, children: Seq<usize>, pos: int, tag: u16, found: Option<int>)
    requires
        0 <= pos,
        found matches Some(f) ==> 0 <= f < children.len() && children[f] < dwarf.entries.len()
            && dwarf.entries[children[f] as int].tag == tag,
    ensures
        scan_last(dwarf, children, pos, tag, found) matches Ok(Some(k)) ==> 0 <= k < children.len()
            && children[k] < dwarf.entries.len() && dwarf.entries[children[k] as int].tag == tag,
    decreases children.len() - pos,
{
    if 0 <= pos < children.len() && children[pos] < dwarf.entries.len() {
        if dwarf.entries[children[pos] as int].tag == tag {
            lemma_scan_last_bound(dwarf, children, pos + 1, tag, Some(pos));
        } else {
            lemma_scan_last_bound(dwarf, children, pos + 1, tag, found);
        }
    }
}

/// The first child of the entry at index `entry` with the tag `tag`.
pub fn find_child(dwarf: &Unit, entry: usize, tag: u16) -> (r: Result<Option<usize>, ReflectError>)
    requires
        entry < dwarf.entries.len(),
    ensures
        match first_child(*dwarf, entry as int, tag) {
            Ok(found) => r == Ok::<Option<usize>, ReflectError>(found),
            Err(()) => outcome(r) == Err::<Option<usize>, ErrorKind>(ErrorKind::OutOfBounds),
        },
        r matches Ok(Some(c)) ==> c < dwarf.entries.len() && dwarf.entries[c as int].tag == tag,
{
    let children = &dwarf.entries[entry].children;
    let mut i: usize = 0;
    assert(children@ == children_of(*dwarf, entry as int));
    while i < children.len()
        invariant
            children@ == children_of(*dwarf, entry as int),
            i <= children.len(),
            scan_tag(*dwarf, children@, 0, tag) == scan_tag(*dwarf, children@, i as int, tag),
        decreases children.len() - i,
    {
        let c = children[i];
        if c >= dwarf.entries.len() {
            return fail(ErrorKind::OutOfBounds);
        }
        if dwarf.entries[c].tag == tag {
            return Ok(Some(c));
        }
        i = i + 1;
    }
    Ok(None)
}

/// The last child of the entry at index `entry` with the tag `tag`; every
/// child must lie within the unit's entries.
pub fn find_last_child(dwarf: &Unit, entry: usize, tag: u16) -> (r: Result<Option<usize>, ReflectError>)
    requires
        entry < dwarf.entries.len(),
    ensures
        match last_child(*dwarf, entry as int, tag) {
            Ok(found) => r == Ok::<Option<usize>, ReflectError>(found),
            Err(()) => outcome(r) == Err::<Option<usize>, ErrorKind>(ErrorKind::OutOfBounds),
        },
        r matches Ok(Some(c)) ==> c < dwarf.entries.len() && dwarf.entries[c as int].tag == tag,
{
    let children = &dwarf.entries[entry].children;
    let mut i: usize = 0;
    let mut found: Option<usize> = None;
    let ghost mut found_pos: Option<int> = None;
    while i < children.len()
        invariant
            children@ == children_of(*dwarf, entry as int),
            i <= children.len(),
            scan_last(*dwarf, children@, 0, tag, None) == scan_last(*dwarf, children@, i as int, tag, found_pos),
            found_pos matches Some(f) ==> 0 <= f < children.len() && children@[f] < dwarf.entries.len()
                && dwarf.entries[children@[f] as int].tag == tag,
            match found_pos {
                Some(f) => found == Some(children@[f]),
                None => found is None,
            },
        decreases children.len() - i,
    {
        let c = children[i];
        if c >= dwarf.entries.len() {
            return fail(ErrorKind::OutOfBounds);
        }
        if dwarf.entries[c].tag == tag {
            found = Some(c);
            proof {
                found_pos = Some(i as int);
            }
        }
        i = i + 1;
    }
    proof {
        lemma_scan_last_bound(*dwarf, children@, i as int, tag, found_pos);
    }
    Ok(found)
}

} // verus!
