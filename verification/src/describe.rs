//! Names of DWARF constants, for describing debug info.
use vstd::prelude::*;

use crate::text::{decimal, decimal_string};

verus! {

/// The name of the tag `tag` (such as `DW_TAG_base_type`), where the DWARF
/// parser knows one.
pub uninterp spec fn tag_name(tag: u16) -> Option<Seq<char>>;

/// The name of the attribute `at` (such as `DW_AT_name`), where the DWARF
/// parser knows one.
pub uninterp spec fn at_name(at: u16) -> Option<Seq<char>>;

/// The name of the base type encoding `ate` (such as `DW_ATE_unsigned`),
/// where the DWARF parser knows one.
pub uninterp spec fn ate_name(ate: u8) -> Option<Seq<char>>;

/// `gimli::DwTag::static_string`. Claimed: the named name of `tag`.
#[verifier::external_body]
fn tag_static_string(tag: u16) -> (r: Option<&'static str>)
    ensures
        match r {
            Some(s) => tag_name(tag) == Some(s@),
            None => tag_name(tag) is None,
        },
{
    gimli::DwTag(tag).static_string()
}

/// `gimli::DwAt::static_string`. Claimed: the named name of `at`.
#[verifier::external_body]
fn at_static_string(at: u16) -> (r: Option<&'static str>)
    ensures
        match r {
            Some(s) => at_name(at) == Some(s@),
            None => at_name(at) is None,
        },
{
    gimli::DwAt(at).static_string()
}

/// `gimli::DwAte::static_string`. Claimed: the named name of `ate`.
#[verifier::external_body]
fn ate_static_string(ate: u8) -> (r: Option<&'static str>)
    ensures
        match r {
            Some(s) => ate_name(ate) == Some(s@),
            None => ate_name(ate) is None,
        },
{
    gimli::DwAte(ate).static_string()
}

/// The text of a constant: its name where one is known, else its number in
/// decimal.
pub open spec fn constant_text(name: Option<Seq<char>>, n: nat) -> Seq<char> {
    match name {
        Some(s) => s,
        None => decimal(n),
    }
}

/// The name of the tag `tag`, or its number.
pub fn dw_tag_to_string(tag: u16) -> (r: String)
    ensures
        r@ == constant_text(tag_name(tag), tag as nat),
{
    match tag_static_string(tag) {
        Some(s) => s.to_owned(),
        None => decimal_string(tag as u64),
    }
}

/// The name of the attribute `at`, or its number.
pub fn dw_at_to_string(at: u16) -> (r: String)
    ensures
        r@ == constant_text(at_name(at), at as nat),
{
    match at_static_string(at) {
        Some(s) => s.to_owned(),
        None => decimal_string(at as u64),
    }
}

/// The name of the base type encoding `ate`, or its number.
pub fn dw_ate_to_string(ate: u8) -> (r: String)
    ensures
        r@ == constant_text(ate_name(ate), ate as nat),
{
    match ate_static_string(ate) {
        Some(s) => s.to_owned(),
        None => decimal_string(ate as u64),
    }
}

} // verus!
