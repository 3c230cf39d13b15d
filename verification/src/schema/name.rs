//! The names of debugging information entries.
use vstd::prelude::*;
use vstd::utf8::{decode_utf8, valid_utf8};

use crate::dwarf::{AttrValue, Die, DW_AT_name};
use crate::err::{ErrorKind, InvalidAttr, MissingAttr, ReflectError};
use crate::lookup::{fail, outcome};
use crate::text::{utf8_lossy, utf8_lossy_chars, utf8_strict};

verus! {

/// The name associated with a debuginfo entry.
pub struct Name {
    /// The bytes of the name.
    pub name: Vec<u8>,
}

/// The string that the attribute `attr` of `entry` holds, which must be
/// present and be a string.
pub open spec fn spec_attr_string(entry: Die, attr: u16) -> Result<Seq<u8>, ErrorKind> {
    match entry.attr(attr) {
        None => Err(ErrorKind::MissingAttr(MissingAttr { attr })),
        Some(AttrValue::Str(s)) => Ok(s@),
        Some(_) => Err(ErrorKind::InvalidAttr(InvalidAttr { attr })),
    }
}

/// The string that the attribute `attr` of `entry` holds, if it is present;
/// it must be a string.
pub open spec fn spec_attr_string_opt(entry: Die, attr: u16) -> Result<Option<Seq<u8>>, ErrorKind> {
    match entry.attr(attr) {
        None => Ok(None),
        Some(AttrValue::Str(s)) => Ok(Some(s@)),
        Some(_) => Err(ErrorKind::InvalidAttr(InvalidAttr { attr })),
    }
}

/// The bytes of a string attribute value; an error names `attr` if the
/// value is not a string.
pub fn attr_string(value: &AttrValue, attr: u16) -> (r: Result<Vec<u8>, ReflectError>)
    ensures
        match value {
            AttrValue::Str(s) => r matches Ok(b) && b@ == s@,
            _ => outcome(r) == Err::<Vec<u8>, ErrorKind>(
                ErrorKind::InvalidAttr(InvalidAttr { attr }),
            ),
        },
{
    match value {
        AttrValue::Str(s) => Ok(s.clone()),
        _ => fail(ErrorKind::invalid_attr(attr)),
    }
}

impl Name {
    /// The name of `entry` (`DW_AT_name`), which must be present.
    pub fn from_die(entry: &Die) -> (r: Result<Name, ReflectError>)
        ensures
            match spec_attr_string(*entry, DW_AT_name) {
                Ok(s) => r matches Ok(n) && n.name@ == s,
                Err(e) => outcome(r) == Err::<Name, ErrorKind>(e),
            },
    {
        match entry.attr_value(DW_AT_name) {
            None => fail(ErrorKind::missing_attr(DW_AT_name)),
            Some(v) => {
                let name = attr_string(v, DW_AT_name)?;
                Ok(Name { name })
            },
        }
    }

    /// The name of `entry` (`DW_AT_name`), if it has one.
    pub fn from_die_opt(entry: &Die) -> (r: Result<Option<Name>, ReflectError>)
        ensures
            match spec_attr_string_opt(*entry, DW_AT_name) {
                Ok(Some(s)) => r matches Ok(Some(n)) && n.name@ == s,
                Ok(None) => r matches Ok(None),
                Err(e) => outcome(r) == Err::<Option<Name>, ErrorKind>(e),
            },
    {
        match entry.attr_value(DW_AT_name) {
            None => Ok(None),
            Some(v) => {
                let name = attr_string(v, DW_AT_name)?;
                Ok(Some(Name { name }))
            },
        }
    }

    /// The name as a string; an error if it is not valid UTF-8.
    pub fn to_string(&self) -> (r: Result<String, ReflectError>)
        ensures
            valid_utf8(self.name@) ==> (r matches Ok(s) && s@ == decode_utf8(self.name@)),
            !valid_utf8(self.name@) ==> outcome(r) == Err::<String, ErrorKind>(
                ErrorKind::InvalidUtf8,
            ),
    {
        match utf8_strict(self.name.as_slice()) {
            Some(s) => Ok(s),
            None => fail(ErrorKind::InvalidUtf8),
        }
    }

    /// The name as a string, with each invalid UTF-8 sequence replaced by
    /// U+FFFD.
    pub fn to_string_lossy(&self) -> (r: Result<String, ReflectError>)
        ensures
            r matches Ok(s) && s@ == utf8_lossy_chars(self.name@),
            valid_utf8(self.name@) ==> (r matches Ok(s) && s@ == decode_utf8(self.name@)),
    {
        Ok(utf8_lossy(self.name.as_slice()))
    }

    /// The bytes of the name.
    pub fn to_slice(&self) -> (r: Result<&[u8], ReflectError>)
        ensures
            r matches Ok(s) && s@ == self.name@,
    {
        Ok(self.name.as_slice())
    }
}

} // verus!
