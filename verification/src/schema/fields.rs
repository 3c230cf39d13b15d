//! The fields of structs and enum variants.
use vstd::prelude::*;

use crate::dwarf::{Unit, DW_TAG_member};
use crate::err::{ErrorKind, ReflectError};
use crate::lookup::{fail, outcome};
use crate::schema::field::Field;

verus! {

/// The position, at or after `pos`, of the first of `children` whose entry has
/// the tag `tag`: `Ok(None)` if there is none, `Err(())` if a child before it
/// lies outside the unit's entries.
pub open spec fn scan_tag(dwarf: Unit, children: Seq<usize>, pos: int, tag: u16) -> Result<Option<int>, ()>
    decreases children.len() - pos,
{
    if pos < 0 || pos >= children.len() {
        Ok(None)
    } else if children[pos] >= dwarf.entries.len() {
        Err(())
    } else if dwarf.entries[children[pos] as int].tag == tag {
        Ok(Some(pos))
    } else {
        scan_tag(dwarf, children, pos + 1, tag)
    }
}

/// A position that `scan_tag` finds lies in range, at or after `pos`.
pub proof fn lemma_scan_tag_bound(dwarf: Unit, children: Seq<usize>, pos: int, tag: u16)
    requires
        0 <= pos,
    ensures
        scan_tag(dwarf, children, pos, tag) matches Ok(Some(k)) ==> pos <= k < children.len()
            && children[k] < dwarf.entries.len() && dwarf.entries[children[k] as int].tag == tag,
    decreases children.len() - pos,
{
    if pos < children.len() && children[pos] < dwarf.entries.len() && dwarf.entries[children[pos] as int].tag != tag {
        lemma_scan_tag_bound(dwarf, children, pos + 1, tag);
    }
}

/// The member children among `children` from position `pos` on, each once,
/// in order; `Err` where one of those children is not an entry of the unit.
pub open spec fn members_from(dwarf: Unit, children: Seq<usize>, pos: int) -> Result<Seq<usize>, ()>
    decreases children.len() - pos,
{
    if pos < 0 || pos >= children.len() {
        Ok(Seq::empty())
    } else if children[pos] >= dwarf.entries.len() {
        Err(())
    } else {
        match members_from(dwarf, children, pos + 1) {
            Err(()) => Err(()),
            Ok(rest) => if dwarf.entries[children[pos] as int].tag == DW_TAG_member {
                Ok(seq![children[pos]] + rest)
            } else {
                Ok(rest)
            },
        }
    }
}

/// The members from `pos` on are the one that the search from `pos` finds,
/// then those after it.
proof fn lemma_members_scan(dwarf: Unit, children: Seq<usize>, pos: int)
    requires
        0 <= pos,
    ensures
        match scan_tag(dwarf, children, pos, DW_TAG_member) {
            Ok(None) => members_from(dwarf, children, pos) == Ok::<Seq<usize>, ()>(Seq::empty()),
            Err(()) => members_from(dwarf, children, pos) == Err::<Seq<usize>, ()>(()),
            Ok(Some(k)) => members_from(dwarf, children, pos) == match members_from(dwarf, children, k + 1) {
                Ok(rest) => Ok(seq![children[k]] + rest),
                Err(()) => Err::<Seq<usize>, ()>(()),
            },
        },
    decreases children.len() - pos,
{
    if pos < children.len() && children[pos] < dwarf.entries.len() && dwarf.entries[children[pos] as int].tag
        != DW_TAG_member {
        lemma_members_scan(dwarf, children, pos + 1);
    }
}

/// Fields of a struct or an enum variant: the members among the children of
/// an entry.
///
/// Call [`iter`][Self::iter] to iterate over fields.
#[derive(Clone, Copy)]
pub struct Fields<'d> {
    /// The unit that describes the fields.
    pub dwarf: &'d Unit,
    /// The index of the entry whose children are the fields.
    pub entry: usize,
}

impl<'d> Fields<'d> {
    /// Whether this designates an entry of its unit.
    pub open spec fn wf(&self) -> bool {
        self.entry < self.dwarf.entries.len()
    }

    /// The fields among the children of the entry at index `entry`.
    pub fn from_tree(dwarf: &'d Unit, entry: usize) -> (r: Self)
        ensures
            r.dwarf == dwarf,
            r.entry == entry,
    {
        Fields { dwarf, entry }
    }

    /// Produces an iterator over fields.
    pub fn iter(&self) -> (r: Result<FieldsIter<'d>, ReflectError>)
        requires
            self.wf(),
        ensures
            r matches Ok(it) && it.dwarf == self.dwarf && it.entry == self.entry && it.next == 0,
    {
        Ok(FieldsIter { dwarf: self.dwarf, entry: self.entry, next: 0 })
    }
}

/// An iterator over fields.
pub struct FieldsIter<'d> {
    /// The unit that describes the fields.
    pub dwarf: &'d Unit,
    /// The index of the entry whose children are the fields.
    pub entry: usize,
    /// The position, among the entry's children, where the search for the
    /// next field starts.
    pub next: usize,
}

impl<'d> FieldsIter<'d> {
    /// Whether this designates an entry of its unit and a position among its
    /// children.
    pub open spec fn wf(&self) -> bool {
        &&& self.entry < self.dwarf.entries.len()
        &&& self.next <= self.dwarf.entries[self.entry as int].children.len()
    }

    /// The children of the entry whose fields this iterates over.
    pub open spec fn children(&self) -> Seq<usize> {
        self.dwarf.entries[self.entry as int].children@
    }

    /// The fields that this iterator yields when drained: the member
    /// children from its position on; `Err` where it stops on an error.
    pub open spec fn drained(&self) -> Result<Seq<usize>, ()> {
        members_from(*self.dwarf, self.children(), self.next as int)
    }

    /// Produces the next field, if any: the next child that is a member.
    pub fn try_next(&mut self) -> (r: Result<Option<Field<'d>>, ReflectError>)
        requires
            old(self).wf(),
        ensures
            final(self).wf(),
            final(self).dwarf == old(self).dwarf,
            final(self).entry == old(self).entry,
            match scan_tag(*old(self).dwarf, old(self).children(), old(self).next as int, DW_TAG_member) {
                Ok(None) => r matches Ok(None) && final(self).next == old(self).children().len(),
                Ok(Some(k)) => r matches Ok(Some(f)) && f.dwarf == old(self).dwarf && f.entry
                    == old(self).children()[k] && final(self).next == k + 1,
                Err(()) => outcome(r) == Err::<Option<Field<'d>>, ErrorKind>(ErrorKind::OutOfBounds),
            },
            old(self).drained() == match r {
                Ok(Some(f)) => match final(self).drained() {
                    Ok(rest) => Ok(seq![f.entry] + rest),
                    Err(()) => Err(()),
                },
                Ok(None) => Ok(Seq::empty()),
                Err(_) => Err::<Seq<usize>, ()>(()),
            },
    {
        let children = &self.dwarf.entries[self.entry].children;
        let ghost start = self.next as int;
        while self.next < children.len()
            invariant
                children@ == self.children(),
                self.wf(),
                self.dwarf == old(self).dwarf,
                self.entry == old(self).entry,
                start <= self.next,
                start == old(self).next as int,
                scan_tag(*self.dwarf, children@, start, DW_TAG_member) == scan_tag(
                    *self.dwarf,
                    children@,
                    self.next as int,
                    DW_TAG_member,
                ),
            decreases children.len() - self.next,
        {
            let pos = self.next;
            let child = children[pos];
            if child >= self.dwarf.entries.len() {
                proof {
                    lemma_members_scan(*self.dwarf, children@, start);
                }
                return fail(ErrorKind::OutOfBounds);
            }
            self.next = pos + 1;
            if self.dwarf.entries[child].tag == DW_TAG_member {
                assert(scan_tag(*self.dwarf, children@, pos as int, DW_TAG_member) == Ok::<Option<int>, ()>(Some(pos as int)));
                proof {
                    lemma_members_scan(*self.dwarf, children@, start);
                }
                return Ok(Some(Field { dwarf: self.dwarf, entry: child }));
            }
        }
        proof {
            lemma_members_scan(*self.dwarf, children@, start);
        }
        Ok(None)
    }
}

} // verus!
