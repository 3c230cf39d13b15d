//! The error types of the library.
use vstd::prelude::*;

verus! {

/// An error raised while interpreting debug info or reflected values.
#[derive(Debug)]
pub struct ReflectError {
    /// What went wrong.
    pub error: ErrorKind,
}

/// The kinds of error that the library reports.
#[derive(Debug)]
pub enum ErrorKind {
    /// A debugging information entry had an unexpected tag.
    TagMismatch(TagMismatch),
    /// A debugging information entry lacked a required attribute.
    MissingAttr(MissingAttr),
    /// An attribute had a value of an unexpected form.
    InvalidAttr(InvalidAttr),
    /// A debugging information entry lacked a required child.
    MissingChild(MissingChild),
    /// A unit had no entry at a referenced offset.
    MissingEntry(MissingEntry),
    /// A type's size differed from the size that was expected of it.
    SizeMismatch(SizeMismatch),
    /// A type's name differed from the name that was expected of it.
    NameMismatch(NameMismatch),
    /// An integer did not fit in the target integer type.
    TryFromInt(core::num::TryFromIntError),
    /// A value could not be downcast into the requested type.
    Downcast(Downcast),
    /// The DWARF reader reported an error.
    Gimli(gimli::Error),
    /// A file index could not be mapped to a file name.
    FileIndexing,
    /// An arithmetic operation overflowed.
    ArithmeticOverflow,
    /// No variant of an enum matched its discriminant.
    EnumDestructure,
    /// No debug info describes the requested item.
    MissingDebugInfo,
    /// A debugging information entry of this tag (or a base type of this
    /// name) is not handled.
    Unhandled(u16),
    /// An index lies outside the entries of a unit or the bytes of a value.
    OutOfBounds,
    /// A location expression did not evaluate to a single address.
    UnsupportedLocation,
    /// The bytes of a string value are not valid UTF-8.
    InvalidUtf8,
    /// Array types nest deeper than the unit has entries: their entries
    /// refer to one another in a cycle.
    NestingTooDeep,
    /// An enum's discriminant is not of an unsigned integer type of at most
    /// eight bytes.
    UnsupportedDiscriminant,
    /// A value lies at an address that is not a multiple of its type's
    /// alignment.
    Misaligned,
    /// The bytes of a value are not a valid value of its type (a `bool`
    /// other than 0 or 1, a `char` that is not a Unicode scalar value).
    InvalidValue,
}

impl ErrorKind {
    /// The kind of error that names a missing entry at `offset`.
    pub open spec fn missing_entry_spec(offset: usize) -> ErrorKind {
        ErrorKind::MissingEntry(MissingEntry { offset })
    }

    /// A tag mismatch.
    pub fn tag_mismatch(expected: u16, actual: u16) -> (r: Self)
        ensures
            r == ErrorKind::TagMismatch(TagMismatch { expected, actual }),
    {
        ErrorKind::TagMismatch(TagMismatch { expected, actual })
    }

    /// A missing attribute.
    pub fn missing_attr(attr: u16) -> (r: Self)
        ensures
            r == ErrorKind::MissingAttr(MissingAttr { attr }),
    {
        ErrorKind::MissingAttr(MissingAttr { attr })
    }

    /// An attribute of an invalid form.
    pub fn invalid_attr(attr: u16) -> (r: Self)
        ensures
            r == ErrorKind::InvalidAttr(InvalidAttr { attr }),
    {
        ErrorKind::InvalidAttr(InvalidAttr { attr })
    }

    /// A missing child.
    pub fn missing_child(tag: u16) -> (r: Self)
        ensures
            r == ErrorKind::MissingChild(MissingChild { tag }),
    {
        ErrorKind::MissingChild(MissingChild { tag })
    }

    /// A missing entry.
    pub fn missing_entry(offset: usize) -> (r: Self)
        ensures
            r == ErrorKind::MissingEntry(MissingEntry { offset }),
    {
        ErrorKind::MissingEntry(MissingEntry { offset })
    }

    /// A size mismatch.
    pub fn size_mismatch(expected: usize, actual: usize) -> (r: Self)
        ensures
            r == ErrorKind::SizeMismatch(SizeMismatch { expected, actual }),
    {
        ErrorKind::SizeMismatch(SizeMismatch { expected, actual })
    }

    /// A name mismatch.
    pub fn name_mismatch(expected: &'static str, actual: String) -> (r: Self)
        ensures
            r == ErrorKind::NameMismatch(NameMismatch { expected, actual }),
    {
        ErrorKind::NameMismatch(NameMismatch { expected, actual })
    }

    /// A failed integer conversion.
    pub fn try_from_int(err: core::num::TryFromIntError) -> (r: Self)
        ensures
            r == ErrorKind::TryFromInt(err),
    {
        ErrorKind::TryFromInt(err)
    }

    /// An error of the DWARF reader.
    pub fn gimli(err: gimli::Error) -> (r: Self)
        ensures
            r == ErrorKind::Gimli(err),
    {
        ErrorKind::Gimli(err)
    }
}

impl ReflectError {
    /// Wraps an error kind into an error.
    pub fn new(kind: ErrorKind) -> (r: Self)
        ensures
            r.error == kind,
    {
        ReflectError { error: kind }
    }
}

/// A value of type `V` could not be downcast into another type.
pub struct DowncastErr<V> {
    /// The value that could not be downcast.
    pub value: V,
}

impl<V> DowncastErr<V> {
    /// Records that `value` could not be downcast.
    pub fn new(value: V) -> (r: Self)
        ensures
            r.value == value,
    {
        DowncastErr { value }
    }

    /// Converts the value that could not be downcast with `convert`.
    pub fn into<V2, F: Fn(V) -> V2>(self, convert: F) -> (r: DowncastErr<V2>)
        requires
            call_requires(convert, (self.value,)),
        ensures
            call_ensures(convert, (self.value,), r.value),
    {
        DowncastErr::new(convert(self.value))
    }
}

/// A tag mismatch.
#[derive(Debug)]
pub struct TagMismatch {
    /// The tag that was expected.
    pub expected: u16,
    /// The tag that was found.
    pub actual: u16,
}

impl TagMismatch {
    /// Constructs a `TagMismatch`.
    pub fn new(expected: u16, actual: u16) -> (r: Self)
        ensures
            r.expected == expected,
            r.actual == actual,
    {
        TagMismatch { expected, actual }
    }
}

/// A missing attribute.
#[derive(Debug)]
pub struct MissingAttr {
    /// The attribute that is missing.
    pub attr: u16,
}

impl MissingAttr {
    /// Constructs a `MissingAttr`.
    pub fn new(attr: u16) -> (r: Self)
        ensures
            r.attr == attr,
    {
        MissingAttr { attr }
    }
}

/// An attribute with a value of an unexpected form.
#[derive(Debug)]
pub struct InvalidAttr {
    /// The attribute whose value is invalid.
    pub attr: u16,
}

impl InvalidAttr {
    /// Constructs an `InvalidAttr`.
    pub fn new(attr: u16) -> (r: Self)
        ensures
            r.attr == attr,
    {
        InvalidAttr { attr }
    }
}

/// A missing child.
#[derive(Debug)]
pub struct MissingChild {
    /// The tag of the child that is missing.
    pub tag: u16,
}

impl MissingChild {
    /// Constructs a `MissingChild`.
    pub fn new(tag: u16) -> (r: Self)
        ensures
            r.tag == tag,
    {
        MissingChild { tag }
    }
}

/// A missing entry.
#[derive(Debug)]
pub struct MissingEntry {
    /// The unit offset at which no entry stands.
    pub offset: usize,
}

impl MissingEntry {
    /// Constructs a `MissingEntry`.
    pub fn new(offset: usize) -> (r: Self)
        ensures
            r.offset == offset,
    {
        MissingEntry { offset }
    }
}

/// A size mismatch.
#[derive(Debug)]
pub struct SizeMismatch {
    /// The size that was expected.
    pub expected: usize,
    /// The size that was found.
    pub actual: usize,
}

/// A name mismatch.
#[derive(Debug)]
pub struct NameMismatch {
    /// The name that was expected.
    pub expected: &'static str,
    /// The name that was found.
    pub actual: String,
}

/// A failed downcast.
#[derive(Debug)]
pub struct Downcast {
    /// A description of the value.
    pub value: String,
    /// The name of the requested type.
    pub target: &'static str,
}

} // verus!
