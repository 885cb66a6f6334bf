//! Named sections of a bootable container image.
//!
//! Reading the container's headers is the work of the `object` crate; what it
//! reports is given a name here, and the rest of the library reasons over
//! those names.

use object::Object;
use object::ObjectSection;
use vstd::prelude::*;

verus! {

/// Whether `object::File::parse` accepts `data`.
pub uninterp spec fn container_parses(data: Seq<u8>) -> bool;

/// What `ObjectSection::file_range` reports for the first section of `data`
/// that is called `name`: its offset and length in the file, or `None` where
/// `data` does not parse, has no such section, or the section holds no bytes
/// in the file.
pub uninterp spec fn container_section_range(data: Seq<u8>, name: Seq<char>) -> Option<(u64, u64)>;

/// What `ObjectSection::data` reports for the first section of `data` that is
/// called `name`: its raw contents, or `None` where `data` does not parse, has
/// no such section, or the section's contents cannot be read.
pub uninterp spec fn container_section_data(data: Seq<u8>, name: Seq<char>) -> Option<Seq<u8>>;

/// Calls `object::File::parse` on `data` and tells whether it succeeded.
/// Nothing is proved of the answer: it is `container_parses` by definition.
#[verifier::external_body]
fn object_parses(data: &[u8]) -> (ok: bool)
    ensures
        ok == container_parses(data@),
{
    object::File::parse(data).is_ok()
}

/// Parses `data` with `object::File::parse`, looks `name` up with
/// `Object::section_by_name` and returns the section's
/// `ObjectSection::file_range`. The contract only names that result.
#[verifier::external_body]
fn object_section_range(data: &[u8], name: &str) -> (range: Option<(u64, u64)>)
    ensures
        range == container_section_range(data@, name@),
{
    let file = object::File::parse(data).ok()?;
    let section = file.section_by_name(name)?;
    section.file_range()
}

/// Parses `data` with `object::File::parse`, looks `name` up with
/// `Object::section_by_name` and returns a copy of the section's
/// `ObjectSection::data`. The contract only names that result.
#[verifier::external_body]
fn object_section_data(data: &[u8], name: &str) -> (bytes: Option<Vec<u8>>)
    ensures
        bytes is Some <==> container_section_data(data@, name@) is Some,
        bytes is Some ==> container_section_data(data@, name@) == Some(bytes->0@),
{
    let file = object::File::parse(data).ok()?;
    let section = file.section_by_name(name)?;
    section.data().ok().map(|b| b.to_vec())
}

/// The error of a source that is no container.
#[derive(Debug, Clone, Copy, PartialEq, Eq, Structural)]
pub struct InvalidObject;

/// A run of bytes in a source: `length` bytes from `start_offset` on.
#[derive(Debug, Clone, Copy, PartialEq, Eq, Structural)]
pub struct SectionRange {
    pub start_offset: u64,
    pub length: u64,
}

impl SectionRange {
    /// Whether the range lies inside a source of `source_len` bytes.
    pub open spec fn within(&self, source_len: int) -> bool {
        self.start_offset + self.length <= source_len
    }

    /// The bytes of `source` that the range covers.
    pub open spec fn bytes_of(&self, source: Seq<u8>) -> Seq<u8>
        recommends
            self.within(source.len() as int),
    {
        source.subrange(self.start_offset as int, self.start_offset + self.length)
    }

    /// Tells whether the range lies inside a source of `source_len` bytes.
    pub fn fits(&self, source_len: usize) -> (inside: bool)
        ensures
            inside == self.within(source_len as int),
    {
        let len: u64 = source_len as u64;
        self.start_offset <= len && self.length <= len - self.start_offset
    }

    /// The bytes of `source` that the range covers.
    pub fn slice<'a>(&self, source: &'a [u8]) -> (part: &'a [u8])
        requires
            self.within(source@.len() as int),
        ensures
            part@ == self.bytes_of(source@),
    {
        let size: usize = source.len();
        assert(self.start_offset + self.length <= size);
        let from: usize = self.start_offset as usize;
        let count: usize = self.length as usize;
        vstd::slice::slice_subrange(source, from, from + count)
    }
}

/// The range that the reader reports for the section `name` of `data`.
pub open spec fn section_of(data: Seq<u8>, name: Seq<char>) -> Option<SectionRange> {
    match container_section_range(data, name) {
        Some((start, length)) => Some(SectionRange { start_offset: start, length }),
        None => None,
    }
}

/// A source that was accepted as a container.
pub struct ContainerView<'a> {
    source: &'a [u8],
}

impl<'a> ContainerView<'a> {
    /// The bytes of the container.
    pub closed spec fn source(&self) -> Seq<u8> {
        self.source@
    }

    /// Accepts `source` as a container, or refuses it as malformed.
    pub fn parse(source: &'a [u8]) -> (parsed: Result<Self, InvalidObject>)
        ensures
            parsed is Ok <==> container_parses(source@),
            parsed is Ok ==> parsed->Ok_0.source() == source@,
    {
        if object_parses(source) {
            Ok(ContainerView { source })
        } else {
            Err(InvalidObject)
        }
    }

    /// Where the section `name` lies in the source. A section that the
    /// container does not have is `None`, not an error.
    pub fn section(&self, name: &str) -> (range: Option<SectionRange>)
        ensures
            range == section_of(self.source(), name@),
    {
        match object_section_range(self.source, name) {
            Some((start, length)) => Some(SectionRange { start_offset: start, length }),
            None => None,
        }
    }

    /// The contents of the section `name`, where the container has it.
    pub fn section_bytes(&self, name: &str) -> (bytes: Option<Vec<u8>>)
        ensures
            bytes is Some <==> container_section_data(self.source(), name@) is Some,
            bytes is Some ==> container_section_data(self.source(), name@) == Some(bytes->0@),
    {
        object_section_data(self.source, name)
    }

    /// The bytes that the view was parsed from.
    pub fn bytes(&self) -> (source: &'a [u8])
        ensures
            source@ == self.source(),
    {
        self.source
    }
}

} // verus!
