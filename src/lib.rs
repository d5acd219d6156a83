//! Read access to a shapefile dataset stored inside a zip archive: the
//! members are found by their extensions, read into memory, and handed to
//! geometry and attribute table readers.
pub mod error;
pub mod materialize;
pub mod members;
pub mod readers;

pub use crate::error::Error;
pub use crate::members::{resolve_members, MemberKind, ShapefileMembers};
pub use shapefile::{dbase::FieldValue, reader::ShapeRecordIterator, Reader, Shape, ShapeReader};

use crate::materialize::{member_names, open_archive, read_member, read_member_text};
use crate::members::{has_duplicate, kind_of, resolution_ok, slot_holds};
use crate::readers::{indexed_shape_reader, sequential_shape_reader, table_fields, table_reader};
use std::io::{Cursor, Read, Seek};
use vstd::prelude::*;
use zip::ZipArchive;

verus! {

/// A shapefile dataset inside a zip archive, with its members resolved.
#[verifier::reject_recursive_types(R)]
pub struct ZippedShapefile<R> {
    archive: ZipArchive<R>,
    projection: Option<String>,
    shp: String,
    shx: Option<String>,
    dbf: Option<String>,
    /// The members read into memory by the reader operations, in order.
    reads: Ghost<Seq<Seq<char>>>,
}

impl<R> ZippedShapefile<R> {
    /// The name of the geometry member.
    pub closed spec fn shp_member(&self) -> Seq<char> {
        self.shp@
    }

    /// The name of the spatial index member, if any.
    pub closed spec fn shx_member(&self) -> Option<Seq<char>> {
        members::opt_view(self.shx)
    }

    /// The name of the attribute table member, if any.
    pub closed spec fn dbf_member(&self) -> Option<Seq<char>> {
        members::opt_view(self.dbf)
    }

    /// The projection text, if the archive holds a projection member.
    pub closed spec fn projection_text(&self) -> Option<Seq<char>> {
        members::opt_view(self.projection)
    }

    /// The names of the members that the reader operations have read into
    /// memory so far, oldest first (the projection text read on opening is
    /// not among them).
    pub closed spec fn reads(&self) -> Seq<Seq<char>> {
        self.reads@
    }

    /// The members a geometry reader reads: the `.shp` member, then the
    /// `.shx` member if there is one.
    pub open spec fn shape_reads(&self) -> Seq<Seq<char>> {
        match self.shx_member() {
            Some(shx) => seq![self.shp_member(), shx],
            None => seq![self.shp_member()],
        }
    }

    /// Both datasets have the same members and projection.
    pub open spec fn same_members(&self, other: &Self) -> bool {
        &&& self.shp_member() == other.shp_member()
        &&& self.shx_member() == other.shx_member()
        &&& self.dbf_member() == other.dbf_member()
        &&& self.projection_text() == other.projection_text()
    }

    /// The dataset's members are what the listing `names` resolves to, and
    /// the projection text is there exactly when a projection member is.
    pub open spec fn resolved_from(&self, names: Seq<String>) -> bool {
        &&& !has_duplicate(names)
        &&& slot_holds(names, names.len() as int, MemberKind::Shp, Some(self.shp_member()))
        &&& slot_holds(names, names.len() as int, MemberKind::Shx, self.shx_member())
        &&& slot_holds(names, names.len() as int, MemberKind::Dbf, self.dbf_member())
        &&& (self.projection_text() is Some <==> exists|i: int|
            0 <= i < names.len() && kind_of(#[trigger] names[i]@) == Some(MemberKind::Prj))
    }

    /// The projection text, read when the dataset was opened.
    pub fn projection(&self) -> (r: Option<&str>)
        ensures
            match r {
                Some(s) => self.projection_text() == Some(s@),
                None => self.projection_text() is None,
            },
    {
        match &self.projection {
            Some(p) => Some(p.as_str()),
            None => None,
        }
    }
}

impl<R: Read + Seek> ZippedShapefile<R> {
    /// Opens a zipped shapefile: lists the archive's members once, resolves
    /// them by extension (failing on a repeated extension or a missing
    /// `.shp`), then reads the projection text if there is a `.prj` member.
    pub fn new(source: R) -> (r: Result<Self, Error>)
        ensures
            r matches Ok(z) ==> (exists|names: Seq<String>| z.resolved_from(names)) && z.reads() == Seq::<Seq<char>>::empty(),
            r matches Err(e) ==> (e is Zip || e is IOError || exists|names: Seq<String>|
                resolution_ok(names, Err(e))),
    {
        let mut archive = match open_archive(source) {
            Ok(a) => a,
            Err(e) => return Err(Error::Zip(e)),
        };
        let names = match member_names(&archive) {
            Ok(n) => n,
            Err(e) => return Err(Error::Zip(e)),
        };
        let members = match resolve_members(&names) {
            Ok(m) => m,
            Err(e) => return Err(e),
        };
        let projection = match &members.prj {
            Some(prj) => Some(read_member_text(&mut archive, prj.as_str())?),
            None => None,
        };
        let r = ZippedShapefile {
            archive,
            projection,
            shp: members.shp,
            shx: members.shx,
            dbf: members.dbf,
            reads: Ghost(Seq::empty()),
        };
        assert(r.resolved_from(names@));
        Ok(r)
    }

    /// Reads the named member into memory, and records that it was read.
    fn read(&mut self, name: &String) -> (r: Result<Vec<u8>, Error>)
        ensures
            final(self).same_members(old(self)),
            final(self).reads() == old(self).reads().push(name@),
            r matches Err(e) ==> e.is_read_failure(),
    {
        let r = read_member(&mut self.archive, name.as_str());
        self.reads = Ghost(self.reads@.push(name@));
        r
    }

    /// A geometry reader over the `.shp` member, indexed by the `.shx` member
    /// when there is one and sequential otherwise.
    pub fn shape_reader(&mut self) -> (r: Result<ShapeReader<Cursor<Vec<u8>>>, Error>)
        ensures
            final(self).same_members(old(self)),
            r is Ok ==> final(self).reads() == old(self).reads() + old(self).shape_reads(),
            r matches Err(e) ==> (e.is_read_failure() || e is Shapefile),
    {
        let shp = self.shp.clone();
        let shp_bytes = self.read(&shp)?;
        let built = match self.shx.clone() {
            Some(shx) => {
                let shx_bytes = self.read(&shx)?;
                indexed_shape_reader(shp_bytes, shx_bytes)
            },
            None => sequential_shape_reader(shp_bytes),
        };
        match built {
            Ok(reader) => Ok(reader),
            Err(e) => Err(Error::Shapefile(e)),
        }
    }

    /// An attribute table reader over the `.dbf` member; `None` when there is
    /// no such member.
    pub fn dbf_reader(&mut self) -> (r: Result<Option<dbase::Reader<Cursor<Vec<u8>>>>, Error>)
        ensures
            final(self).same_members(old(self)),
            old(self).dbf_member() is None ==> (r matches Ok(None)) && final(self).reads() == old(self).reads(),
            old(self).dbf_member() is Some ==> !(r matches Ok(None)),
            r is Ok && old(self).dbf_member() is Some ==> final(self).reads()
                == old(self).reads().push(old(self).dbf_member()->Some_0),
            r matches Err(e) ==> (e.is_read_failure() || e is DBase),
    {
        match self.dbf.clone() {
            Some(dbf) => {
                let bytes = self.read(&dbf)?;
                match table_reader(bytes) {
                    Ok(table) => Ok(Some(table)),
                    Err(e) => Err(Error::DBase(e)),
                }
            },
            None => Ok(None),
        }
    }

    /// The attribute table reader and the geometry reader that a combined
    /// reader pairs, read in that order; fails with `NoDbfFound` when there
    /// is no `.dbf` member.
    pub fn reader_parts(&mut self) -> (r: Result<(ShapeReader<Cursor<Vec<u8>>>, dbase::Reader<Cursor<Vec<u8>>>), Error>)
        ensures
            final(self).same_members(old(self)),
            old(self).dbf_member() is None ==> (r matches Err(Error::NoDbfFound)),
            old(self).dbf_member() is Some ==> !(r matches Err(Error::NoDbfFound)),
            r is Ok && old(self).dbf_member() is Some ==> final(self).reads()
                == old(self).reads().push(old(self).dbf_member()->Some_0) + old(self).shape_reads(),
            r matches Err(e) ==> (e.is_read_failure() || e is DBase || e is Shapefile || e is NoDbfFound),
    {
        let table = match self.dbf_reader()? {
            Some(table) => table,
            None => return Err(Error::NoDbfFound),
        };
        let shapes = self.shape_reader()?;
        Ok((shapes, table))
    }

    /// The attribute table's fields as (name, type label) pairs, in the
    /// table's declared order; `None` when there is no `.dbf` member.
    pub fn types(&mut self) -> (r: Result<Option<Vec<(String, String)>>, Error>)
        ensures
            final(self).same_members(old(self)),
            old(self).dbf_member() is None ==> (r matches Ok(None)) && final(self).reads() == old(self).reads(),
            old(self).dbf_member() is Some ==> !(r matches Ok(None)),
            r is Ok && old(self).dbf_member() is Some ==> final(self).reads()
                == old(self).reads().push(old(self).dbf_member()->Some_0),
            r matches Err(e) ==> (e.is_read_failure() || e is DBase),
    {
        match self.dbf_reader()? {
            Some(table) => Ok(Some(table_fields(&table))),
            None => Ok(None),
        }
    }
}

} // verus!
