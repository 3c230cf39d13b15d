//! Iterating over the variants of enums.
use vstd::prelude::*;

use crate::dwarf::{spec_udata, Unit, DW_AT_const_value, DW_AT_discr_value, DW_TAG_enumerator, DW_TAG_member, DW_TAG_variant};
use crate::err::{ErrorKind, MissingChild, ReflectError};
use crate::lookup::{fail, get_type, outcome, spec_entry, spec_ref};
use crate::dwarf::DW_AT_type;
use crate::schema::atom::Primitive;
use crate::schema::types::{Type, TypeKind};
use crate::schema::variant::{Data, Variant};

verus! {

/// The discriminant value `v` as a value of the discriminant type of kind
/// `kind`, truncated to its width; `None` if that type is not an unsigned
/// integer type of at most eight bytes.
pub open spec fn spec_discriminant_value(kind: TypeKind, v: u64) -> Option<Data> {
    match kind {
        TypeKind::Atom(Primitive::U8) => Some(Data::u8(v as u8)),
        TypeKind::Atom(Primitive::U16) => Some(Data::u16(v as u16)),
        TypeKind::Atom(Primitive::U32) => Some(Data::u32(v as u32)),
        TypeKind::Atom(Primitive::U64) => Some(Data::u64(v)),
        _ => None,
    }
}

/// The discriminant value `v` as a value of the discriminant type `ty`.
pub fn discriminant_value(ty: &Type, v: u64) -> (r: Option<Data>)
    ensures
        r == spec_discriminant_value(ty.kind(), v),
{
    match ty {
        Type::Atom(a) => match a.kind {
            Primitive::U8 => Some(Data::u8(v as u8)),
            Primitive::U16 => Some(Data::u16(v as u16)),
            Primitive::U32 => Some(Data::u32(v as u32)),
            Primitive::U64 => Some(Data::u64(v)),
            _ => None,
        },
        _ => None,
    }
}

/// The position of the first of `children`, from `pos` on, that is not a
/// member: `Err(())` if one before it lies outside the unit's entries.
pub open spec fn scan_non_member(dwarf: Unit, children: Seq<usize>, pos: int) -> Result<Option<int>, ()>
    decreases children.len() - pos,
{
    if pos < 0 || pos >= children.len() {
        Ok(None)
    } else if children[pos] >= dwarf.entries.len() {
        Err(())
    } else if dwarf.entries[children[pos] as int].tag != DW_TAG_member {
        Ok(Some(pos))
    } else {
        scan_non_member(dwarf, children, pos + 1)
    }
}

/// The attribute that gives the discriminant value of an entry of tag
/// `tag`: an enumerator's constant value (`DW_AT_const_value`), a variant's
/// discriminant value (`DW_AT_discr_value`).
pub open spec fn discr_attr(tag: u16) -> u16 {
    if tag == DW_TAG_enumerator {
        DW_AT_const_value
    } else {
        DW_AT_discr_value
    }
}

/// The discriminant value that the entry at `entry` gives (for an
/// enumerator, its constant value; for a variant, its discriminant value),
/// cast to the discriminant type of kind `kind`.
pub open spec fn spec_discr_of(dwarf: Unit, entry: int, kind: TypeKind) -> Result<Option<Data>, ErrorKind> {
    match dwarf.entries[entry].attr(discr_attr(dwarf.entries[entry].tag)) {
        Some(v) => match spec_udata(v) {
            Some(n) => match spec_discriminant_value(kind, n) {
                Some(d) => Ok(Some(d)),
                None => Err(ErrorKind::UnsupportedDiscriminant),
            },
            None => Ok(None),
        },
        None => Ok(None),
    }
}

/// The variant that the child `child` of a variant part or enumeration
/// gives: for a variant, the type of its first child, for an enumerator,
/// itself; with the discriminant value that the child gives.
pub open spec fn spec_variant_at(dwarf: Unit, child: int, kind: TypeKind) -> Result<(usize, Option<Data>), ErrorKind> {
    let die = dwarf.entries[child];
    match spec_discr_of(dwarf, child, kind) {
        Err(e) => Err(e),
        Ok(d) => if die.tag == DW_TAG_variant {
            if die.children.len() == 0 {
                Err(ErrorKind::MissingChild(MissingChild { tag: DW_TAG_member }))
            } else if die.children@[0] >= dwarf.entries.len() {
                Err(ErrorKind::OutOfBounds)
            } else {
                match spec_ref(dwarf.entries[die.children@[0] as int], DW_AT_type) {
                    Err(e) => Err(e),
                    Ok(offset) => match spec_entry(dwarf, offset) {
                        Ok(i) => Ok((i, d)),
                        Err(e) => Err(e),
                    },
                }
            }
        } else if die.tag == DW_TAG_enumerator {
            Ok((child as usize, d))
        } else {
            Err(ErrorKind::Unhandled(die.tag))
        },
    }
}

/// Variants of an enum: the children of an enumeration type, or of a
/// variant part.
///
/// Call [`iter`][Self::iter] to iterate over variants.
#[derive(Clone, Copy)]
pub struct Variants<'d> {
    /// The unit that describes the variants.
    pub dwarf: &'d Unit,
    /// The index of the entry whose children are the variants.
    pub root: usize,
    /// The type of the enum's discriminant.
    pub discriminant_type: Type<'d>,
}

impl<'d> Variants<'d> {
    /// Whether this designates an entry of its unit.
    pub open spec fn wf(&self) -> bool {
        self.root < self.dwarf.entries.len()
    }

    /// The variants among the children of the entry at index `root`.
    pub fn from_tree(dwarf: &'d Unit, root: usize, discriminant_type: Type<'d>) -> (r: Self)
        ensures
            r.dwarf == dwarf,
            r.root == root,
            r.discriminant_type == discriminant_type,
    {
        Variants { dwarf, root, discriminant_type }
    }

    /// Produces an iterator over variants.
    pub fn iter(&self) -> (r: Result<VariantsIter<'d>, ReflectError>)
        requires
            self.wf(),
        ensures
            r matches Ok(it) && it.dwarf == self.dwarf && it.root == self.root && it.next == 0
                && it.index == 0 && it.discriminant_type == self.discriminant_type,
    {
        Ok(VariantsIter {
            dwarf: self.dwarf,
            root: self.root,
            next: 0,
            index: 0,
            discriminant_type: self.discriminant_type,
        })
    }
}

/// An iterator over variants.
pub struct VariantsIter<'d> {
    /// The unit that describes the variants.
    pub dwarf: &'d Unit,
    /// The index of the entry whose children are the variants.
    pub root: usize,
    /// The position, among the root's children, where the search for the
    /// next variant starts.
    pub next: usize,
    /// The position of the next variant among the variants.
    pub index: usize,
    /// The type of the enum's discriminant.
    pub discriminant_type: Type<'d>,
}

impl<'d> VariantsIter<'d> {
    /// Whether this designates an entry of its unit and a position among its
    /// children.
    pub open spec fn wf(&self) -> bool {
        &&& self.root < self.dwarf.entries.len()
        &&& self.next <= self.dwarf.entries[self.root as int].children.len()
        &&& self.index <= self.next
    }

    /// The children of the entry whose variants this iterates over.
    pub open spec fn children(&self) -> Seq<usize> {
        self.dwarf.entries[self.root as int].children@
    }

    /// The variants that this iterator yields when drained, each with its
    /// discriminant value and position among the variants; the error that
    /// stops it, if one does.
    pub open spec fn drained(&self) -> Result<Seq<(usize, Option<Data>, nat)>, ErrorKind> {
        crate::properties::variant_list(
            *self.dwarf,
            self.children(),
            self.discriminant_type.kind(),
            self.next as int,
            self.index as nat,
        )
    }

    /// Produces the next variant, if any: members among the children are
    /// skipped, and any child that is neither a variant nor an enumerator is
    /// an error.
    pub fn try_next(&mut self) -> (r: Result<Option<Variant<'d>>, ReflectError>)
        requires
            old(self).wf(),
        ensures
            final(self).wf(),
            final(self).dwarf == old(self).dwarf,
            final(self).root == old(self).root,
            final(self).discriminant_type == old(self).discriminant_type,
            r matches Ok(Some(v)) ==> v.wf(),
            r matches Ok(None) ==> final(self).next == old(self).children().len() && final(self).index == old(
                self,
            ).index && scan_non_member(*final(self).dwarf, final(self).children(), final(self).next as int)
                == Ok::<Option<int>, ()>(None),
            old(self).drained() == match r {
                Ok(Some(v)) => match final(self).drained() {
                    Ok(rest) => Ok(seq![(v.entry, v.discriminant_val, v.index as nat)] + rest),
                    Err(x) => Err(x),
                },
                Ok(None) => Ok(Seq::empty()),
                Err(e) => Err(e.error),
            },
            r is Err ==> final(self).index == old(self).index && scan_non_member(
                *final(self).dwarf,
                final(self).children(),
                final(self).next as int,
            ) == scan_non_member(*old(self).dwarf, old(self).children(), old(self).next as int),
            match scan_non_member(*old(self).dwarf, old(self).children(), old(self).next as int) {
                Err(()) => outcome(r) == Err::<Option<Variant<'d>>, ErrorKind>(ErrorKind::OutOfBounds),
                Ok(None) => r matches Ok(None),
                Ok(Some(k)) => match spec_variant_at(
                    *old(self).dwarf,
                    old(self).children()[k] as int,
                    old(self).discriminant_type.kind(),
                ) {
                    Ok((e, d)) => r matches Ok(Some(v)) && v.dwarf == old(self).dwarf && v.entry == e
                        && v.discriminant_val == d && v.index == old(self).index && final(self).next
                        == k + 1 && final(self).index == old(self).index + 1,
                    Err(err) => outcome(r) == Err::<Option<Variant<'d>>, ErrorKind>(err),
                },
            },
    {
        let children = &self.dwarf.entries[self.root].children;
        let ghost start = self.next as int;
        proof {
            crate::value::enums::lemma_scan_non_member_bound(*self.dwarf, children@, start);
        }
        while self.next < children.len()
            invariant
                children@ == self.children(),
                self.wf(),
                self.dwarf == old(self).dwarf,
                self.root == old(self).root,
                self.index == old(self).index,
                self.discriminant_type == old(self).discriminant_type,
                start == old(self).next as int,
                start <= self.next,
                scan_non_member(*self.dwarf, children@, start) == scan_non_member(
                    *self.dwarf,
                    children@,
                    self.next as int,
                ),
            decreases children.len() - self.next,
        {
            let pos = self.next;
            let child = children[pos];
            if child >= self.dwarf.entries.len() {
                return fail(ErrorKind::OutOfBounds);
            }
            let die = &self.dwarf.entries[child];
            if die.tag != DW_TAG_member {
                assert(scan_non_member(*self.dwarf, children@, pos as int) == Ok::<Option<int>, ()>(Some(pos as int)));
                let discr = self.discr_of(child)?;
                let entry = if die.tag == DW_TAG_variant {
                    if die.children.len() == 0 {
                        return fail(ErrorKind::missing_child(DW_TAG_member));
                    }
                    let first = die.children[0];
                    if first >= self.dwarf.entries.len() {
                        return fail(ErrorKind::OutOfBounds);
                    }
                    let offset = get_type(&self.dwarf.entries[first])?;
                    proof {
                        crate::lookup::lemma_index_at_bound(*self.dwarf, offset);
                    }
                    self.dwarf.entry(offset)?
                } else if die.tag == DW_TAG_enumerator {
                    child
                } else {
                    return fail(ErrorKind::Unhandled(die.tag));
                };
                let variant = Variant::new(self.dwarf, entry, discr, self.index);
                self.next = pos + 1;
                self.index = self.index + 1;
                return Ok(Some(variant));
            }
            self.next = pos + 1;
        }
        Ok(None)
    }

    /// The discriminant value that the child at index `child` gives.
    fn discr_of(&self, child: usize) -> (r: Result<Option<Data>, ReflectError>)
        requires
            child < self.dwarf.entries.len(),
        ensures
            outcome(r) == spec_discr_of(*self.dwarf, child as int, self.discriminant_type.kind()),
    {
        let die = &self.dwarf.entries[child];
        let name = if die.tag == DW_TAG_enumerator {
            DW_AT_const_value
        } else {
            DW_AT_discr_value
        };
        match die.attr_value(name) {
            Some(v) => match v.udata_value() {
                Some(n) => match discriminant_value(&self.discriminant_type, n) {
                    Some(d) => Ok(Some(d)),
                    None => fail(ErrorKind::UnsupportedDiscriminant),
                },
                None => Ok(None),
            },
            None => Ok(None),
        }
    }
}

} // verus!
