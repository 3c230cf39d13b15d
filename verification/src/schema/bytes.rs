//! Byte strings that classify the names of types.
use vstd::prelude::*;

verus! {

/// Whether `s` starts with `prefix`.
pub open spec fn starts_with(s: Seq<u8>, prefix: Seq<u8>) -> bool {
    prefix.len() <= s.len() && s.subrange(0, prefix.len() as int) == prefix
}

/// Whether `s` ends with `suffix`.
pub open spec fn ends_with(s: Seq<u8>, suffix: Seq<u8>) -> bool {
    suffix.len() <= s.len() && s.subrange(s.len() - suffix.len(), s.len() as int) == suffix
}

/// Whether `s` starts with `prefix`.
pub fn bytes_start_with(s: &[u8], prefix: &[u8]) -> (r: bool)
    ensures
        r == starts_with(s@, prefix@),
{
    if prefix.len() > s.len() {
        return false;
    }
    let mut i: usize = 0;
    while i < prefix.len()
        invariant
            i <= prefix.len() <= s.len(),
            forall|j: int| 0 <= j < i ==> s@[j] == prefix@[j],
        decreases prefix.len() - i,
    {
        if s[i] != prefix[i] {
            return false;
        }
        i = i + 1;
    }
    assert(s@.subrange(0, prefix@.len() as int) =~= prefix@);
    true
}

/// Whether `s` ends with `suffix`.
pub fn bytes_end_with(s: &[u8], suffix: &[u8]) -> (r: bool)
    ensures
        r == ends_with(s@, suffix@),
{
    if suffix.len() > s.len() {
        return false;
    }
    let start = s.len() - suffix.len();
    let mut i: usize = 0;
    while i < suffix.len()
        invariant
            i <= suffix.len() <= s.len(),
            start == s.len() - suffix.len(),
            forall|j: int| 0 <= j < i ==> s@[start + j] == suffix@[j],
        decreases suffix.len() - i,
    {
        if s[start + i] != suffix[i] {
            assert(s@.subrange(start as int, s@.len() as int)[i as int] == s@[start + i]);
            return false;
        }
        i = i + 1;
    }
    assert(s@.subrange(start as int, s@.len() as int) =~= suffix@);
    true
}

/// `&[`, which starts the names of slice types.
pub open spec fn slice_prefix() -> Seq<u8> {
    seq![38u8, 91u8]
}

/// `]`.
pub open spec fn close_bracket() -> Seq<u8> {
    seq![93u8]
}

/// `&str`.
pub open spec fn str_name() -> Seq<u8> {
    seq![38u8, 115u8, 116u8, 114u8]
}

/// `alloc::boxed::Box<`, which starts the names of boxes.
pub open spec fn box_prefix() -> Seq<u8> {
    seq![97u8, 108u8, 108u8, 111u8, 99u8, 58u8, 58u8, 98u8, 111u8, 120u8, 101u8, 100u8, 58u8, 58u8, 66u8, 111u8, 120u8, 60u8]
}

/// `length`, the name of the metadata of boxed slices.
pub open spec fn length_name() -> Seq<u8> {
    seq![108u8, 101u8, 110u8, 103u8, 116u8, 104u8]
}

/// `vtable`, the name of the metadata of boxed trait objects.
pub open spec fn vtable_name() -> Seq<u8> {
    seq![118u8, 116u8, 97u8, 98u8, 108u8, 101u8]
}

/// `*mut `.
pub open spec fn mut_ptr_prefix() -> Seq<u8> {
    seq![42u8, 109u8, 117u8, 116u8, 32u8]
}

/// `*const `.
pub open spec fn const_ptr_prefix() -> Seq<u8> {
    seq![42u8, 99u8, 111u8, 110u8, 115u8, 116u8, 32u8]
}

/// `&mut `.
pub open spec fn unique_ref_prefix() -> Seq<u8> {
    seq![38u8, 109u8, 117u8, 116u8, 32u8]
}

/// `&`.
pub open spec fn shared_ref_prefix() -> Seq<u8> {
    seq![38u8]
}

/// `fn`.
pub open spec fn fn_prefix() -> Seq<u8> {
    seq![102u8, 110u8]
}

/// `&[`.
pub fn slice_prefix_bytes() -> (r: Vec<u8>)
    ensures r@ == slice_prefix(),
{
    vec![38u8, 91u8]
}

/// `]`.
pub fn close_bracket_bytes() -> (r: Vec<u8>)
    ensures r@ == close_bracket(),
{
    vec![93u8]
}

/// `&str`.
pub fn str_name_bytes() -> (r: Vec<u8>)
    ensures r@ == str_name(),
{
    vec![38u8, 115u8, 116u8, 114u8]
}

/// `alloc::boxed::Box<`.
pub fn box_prefix_bytes() -> (r: Vec<u8>)
    ensures r@ == box_prefix(),
{
    vec![97u8, 108u8, 108u8, 111u8, 99u8, 58u8, 58u8, 98u8, 111u8, 120u8, 101u8, 100u8, 58u8, 58u8, 66u8, 111u8, 120u8, 60u8]
}

/// `length`.
pub fn length_name_bytes() -> (r: Vec<u8>)
    ensures r@ == length_name(),
{
    vec![108u8, 101u8, 110u8, 103u8, 116u8, 104u8]
}

/// `vtable`.
pub fn vtable_name_bytes() -> (r: Vec<u8>)
    ensures r@ == vtable_name(),
{
    vec![118u8, 116u8, 97u8, 98u8, 108u8, 101u8]
}

/// `*mut `.
pub fn mut_ptr_prefix_bytes() -> (r: Vec<u8>)
    ensures r@ == mut_ptr_prefix(),
{
    vec![42u8, 109u8, 117u8, 116u8, 32u8]
}

/// `*const `.
pub fn const_ptr_prefix_bytes() -> (r: Vec<u8>)
    ensures r@ == const_ptr_prefix(),
{
    vec![42u8, 99u8, 111u8, 110u8, 115u8, 116u8, 32u8]
}

/// `&mut `.
pub fn unique_ref_prefix_bytes() -> (r: Vec<u8>)
    ensures r@ == unique_ref_prefix(),
{
    vec![38u8, 109u8, 117u8, 116u8, 32u8]
}

/// `&`.
pub fn shared_ref_prefix_bytes() -> (r: Vec<u8>)
    ensures r@ == shared_ref_prefix(),
{
    vec![38u8]
}

/// `fn`.
pub fn fn_prefix_bytes() -> (r: Vec<u8>)
    ensures r@ == fn_prefix(),
{
    vec![102u8, 110u8]
}

} // verus!
