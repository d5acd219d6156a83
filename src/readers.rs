use dbase::Error as DbaseError;
use shapefile::Error as ShapefileError;
use shapefile::ShapeReader;
use std::io::Cursor;
use vstd::prelude::*;

verus! {

#[verifier::external_type_specification]
#[verifier::external_body]
#[verifier::reject_recursive_types(T)]
pub struct ExCursor<T>(Cursor<T>);

#[verifier::external_type_specification]
#[verifier::external_body]
#[verifier::reject_recursive_types(T)]
pub struct ExShapeReader<T>(ShapeReader<T>);

#[verifier::external_type_specification]
#[verifier::external_body]
#[verifier::reject_recursive_types(T)]
pub struct ExTableReader<T>(dbase::Reader<T>);

/// Relies on `shapefile::ShapeReader::with_shx`: a geometry reader over the
/// `.shp` bytes that uses the `.shx` bytes for random access.
#[verifier::external_body]
pub(crate) fn indexed_shape_reader(shp: Vec<u8>, shx: Vec<u8>) -> (r: Result<ShapeReader<Cursor<Vec<u8>>>, ShapefileError>) {
    ShapeReader::with_shx(Cursor::new(shp), Cursor::new(shx))
}

/// Relies on `shapefile::ShapeReader::new`: a sequential geometry reader over
/// the `.shp` bytes.
#[verifier::external_body]
pub(crate) fn sequential_shape_reader(shp: Vec<u8>) -> (r: Result<ShapeReader<Cursor<Vec<u8>>>, ShapefileError>) {
    ShapeReader::new(Cursor::new(shp))
}

/// Relies on `dbase::Reader::new`: an attribute table reader over the `.dbf`
/// bytes.
#[verifier::external_body]
pub(crate) fn table_reader(dbf: Vec<u8>) -> (r: Result<dbase::Reader<Cursor<Vec<u8>>>, DbaseError>) {
    dbase::Reader::new(Cursor::new(dbf))
}

/// Relies on `dbase::Reader::fields` with `dbase::FieldInfo::name` and the
/// `Display` form of `dbase::FieldInfo::field_type`: each field's name and
/// type label, in the table's declared order.
#[verifier::external_body]
pub(crate) fn table_fields(table: &dbase::Reader<Cursor<Vec<u8>>>) -> (r: Vec<(String, String)>) {
    table.fields().iter().map(|f| (f.name().to_owned(), f.field_type().to_string())).collect()
}

} // verus!
