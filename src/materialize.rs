use crate::error::Error;
use std::io::{Read, Seek};
use vstd::prelude::*;
use zip::result::ZipError;
use zip::ZipArchive;

verus! {

#[verifier::external_type_specification]
#[verifier::external_body]
#[verifier::reject_recursive_types(R)]
pub struct ExZipArchive<R>(ZipArchive<R>);

/// Relies on `zip::ZipArchive::new`: reads the archive's central directory.
#[verifier::external_body]
pub(crate) fn open_archive<R: Read + Seek>(source: R) -> (r: Result<ZipArchive<R>, ZipError>) {
    ZipArchive::new(source)
}

/// Relies on `zip::ZipArchive::file_names`: the names of all members, in the
/// archive's own listing order.
#[verifier::external_body]
pub(crate) fn member_names<R: Read + Seek>(archive: &ZipArchive<R>) -> (r: Result<Vec<String>, ZipError>) {
    archive.file_names().map(|n| n.map(|c| c.into_owned())).collect()
}

/// Relies on `zip::ZipArchive::by_name` and `zip::read::ZipFile::size`: the
/// declared uncompressed size of the named member.
#[verifier::external_body]
pub(crate) fn declared_size<R: Read + Seek>(archive: &mut ZipArchive<R>, name: &str) -> (r: Result<u64, ZipError>) {
    archive.by_name(name).map(|f| f.size())
}

/// Relies on `zip::ZipArchive::by_name` and `Read::read_to_end` of the member:
/// the decompressed bytes are appended to `buf`, and their number returned.
#[verifier::external_body]
pub(crate) fn read_member_into<R: Read + Seek>(
    archive: &mut ZipArchive<R>,
    name: &str,
    buf: &mut Vec<u8>,
) -> (r: Result<usize, Error>)
    ensures
        r matches Ok(n) ==> final(buf)@.len() == old(buf)@.len() + n
            && final(buf)@.subrange(0, old(buf)@.len() as int) == old(buf)@,
        r matches Err(e) ==> (e is Zip || e is IOError),
{
    let mut member = archive.by_name(name).map_err(Error::Zip)?;
    member.read_to_end(buf).map_err(Error::IOError)
}

/// Relies on `zip::ZipArchive::by_name` and `Read::read_to_string` of the
/// member: its decompressed bytes decoded as UTF-8 text.
#[verifier::external_body]
pub(crate) fn read_member_text<R: Read + Seek>(archive: &mut ZipArchive<R>, name: &str) -> (r: Result<String, Error>)
    ensures
        r matches Err(e) ==> (e is Zip || e is IOError),
{
    let mut member = archive.by_name(name).map_err(Error::Zip)?;
    let mut text = String::new();
    member.read_to_string(&mut text).map_err(Error::IOError)?;
    Ok(text)
}

/// The buffer capacity for a member of the given declared size: the size
/// itself when it fits in `usize`.
pub fn member_capacity(declared: u64) -> (r: Result<usize, Error>)
    ensures
        declared <= usize::MAX ==> (r matches Ok(n) && n == declared),
        declared > usize::MAX ==> (r matches Err(Error::MemberSizeTooLarge(s)) && s == declared),
{
    if declared > usize::MAX as u64 {
        Err(Error::MemberSizeTooLarge(declared))
    } else {
        Ok(declared as usize)
    }
}

/// Accepts the bytes read from a member only if there are exactly as many as
/// the member declared.
pub fn check_member_length(declared: usize, bytes: Vec<u8>) -> (r: Result<Vec<u8>, Error>)
    ensures
        bytes@.len() == declared ==> (r matches Ok(b) && b@ == bytes@),
        bytes@.len() != declared ==> (r matches Err(Error::MemberSizeMismatch(d, n))
            && d == declared && n == bytes@.len()),
{
    if bytes.len() == declared {
        Ok(bytes)
    } else {
        let n = bytes.len();
        Err(Error::MemberSizeMismatch(declared as u64, n as u64))
    }
}

/// Reads the named member fully into memory; its declared size must fit in
/// `usize`, and reading must give exactly that many bytes.
pub(crate) fn read_member<R: Read + Seek>(archive: &mut ZipArchive<R>, name: &str) -> (r: Result<Vec<u8>, Error>)
    ensures
        r matches Err(e) ==> e.is_read_failure(),
{
    let declared = match declared_size(archive, name) {
        Ok(s) => s,
        Err(e) => return Err(Error::Zip(e)),
    };
    let capacity = member_capacity(declared)?;
    let mut buf: Vec<u8> = Vec::with_capacity(capacity);
    read_member_into(archive, name, &mut buf)?;
    check_member_length(capacity, buf)
}

} // verus!
