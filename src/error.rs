use vstd::prelude::*;
use dbase::Error as DbaseError;
use shapefile::Error as ShapefileError;

verus! {

#[verifier::external_type_specification]
#[verifier::external_body]
pub struct ExIoError(std::io::Error);

#[verifier::external_type_specification]
#[verifier::external_body]
pub struct ExZipError(zip::result::ZipError);

#[verifier::external_type_specification]
#[verifier::external_body]
pub struct ExShapefileError(ShapefileError);

#[verifier::external_type_specification]
#[verifier::external_body]
pub struct ExDbaseError(DbaseError);

/// Everything that can go wrong while opening or reading a zipped shapefile.
#[derive(Debug)]
pub enum Error {
    /// A read or seek on the underlying source failed.
    IOError(std::io::Error),
    /// The attribute table is malformed.
    DBase(DbaseError),
    /// The archive is malformed or a member cannot be looked up.
    Zip(zip::result::ZipError),
    /// The geometry (or its index) is malformed.
    Shapefile(ShapefileError),
    /// More than one member carries the given extension.
    MultipleFilesFound(&'static str),
    /// The archive holds no `.shp` member.
    NoShpFound,
    /// Reserved; never produced.
    Unknown,
    /// A member's declared uncompressed size does not fit in `usize`.
    MemberSizeTooLarge(u64),
    /// A combined reader was asked for, but the archive holds no `.dbf` member.
    NoDbfFound,
    /// Reading a member to its end gave another number of bytes (second
    /// field) than its declared uncompressed size (first field).
    MemberSizeMismatch(u64, u64),
}

impl Error {
    /// A failure met while reading a member into memory.
    pub open spec fn is_read_failure(&self) -> bool {
        self is Zip || self is IOError || self is MemberSizeTooLarge || self is MemberSizeMismatch
    }
}

} // verus!
