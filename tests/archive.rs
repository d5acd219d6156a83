use shapefile::dbase::{self, FieldValue};
use shapefile::{Point, ShapeWriter};
use std::io::{Cursor, Write};
use zip::write::SimpleFileOptions;
use zipped_shapefile::{Error, ZippedShapefile};

const WKT: &str = "GEOGCS[\"WGS 84\",DATUM[\"WGS_1984\",SPHEROID[\"WGS 84\",6378137,298.257223563]]]";

fn points() -> Vec<Point> {
    vec![Point::new(1.0, 2.0), Point::new(3.5, -4.0), Point::new(0.0, 10.0)]
}

fn geometry() -> (Vec<u8>, Vec<u8>) {
    let mut shp = Vec::new();
    let mut shx = Vec::new();
    {
        let mut w = ShapeWriter::with_shx(Cursor::new(&mut shp), Cursor::new(&mut shx));
        for p in points() {
            w.write_shape(&p).unwrap();
        }
        w.finalize().unwrap();
    }
    (shp, shx)
}

fn table() -> Vec<u8> {
    let mut dbf = Vec::new();
    {
        let mut w = dbase::TableWriterBuilder::new()
            .add_character_field("name".try_into().unwrap(), 20)
            .add_logical_field("open".try_into().unwrap())
            .add_numeric_field("lanes".try_into().unwrap(), 10, 0)
            .build_with_dest(Cursor::new(&mut dbf));
        for (i, n) in ["north", "south", "east"].iter().enumerate() {
            let mut r = dbase::Record::default();
            r.insert("name".to_string(), FieldValue::Character(Some(n.to_string())));
            r.insert("open".to_string(), FieldValue::Logical(Some(i % 2 == 0)));
            r.insert("lanes".to_string(), FieldValue::Numeric(Some(i as f64 + 1.0)));
            w.write_record(&r).unwrap();
        }
        w.finalize().unwrap();
    }
    dbf
}

fn archive(members: &[(&str, &[u8])]) -> Cursor<Vec<u8>> {
    let mut out = Cursor::new(Vec::new());
    {
        let mut z = zip::ZipWriter::new(&mut out);
        for (name, data) in members {
            z.start_file(*name, SimpleFileOptions::default()).unwrap();
            z.write_all(data).unwrap();
        }
        z.finish().unwrap();
    }
    out.set_position(0);
    out
}

fn full_archive() -> Cursor<Vec<u8>> {
    let (shp, shx) = geometry();
    let dbf = table();
    archive(&[
        ("data.shp", &shp),
        ("data.shx", &shx),
        ("data.dbf", &dbf),
        ("data.prj", WKT.as_bytes()),
    ])
}

#[test]
fn full_dataset_opens_and_pairs_records() {
    let mut z = ZippedShapefile::new(full_archive()).unwrap();
    assert_eq!(z.projection(), Some(WKT));
    let (shapes, table) = z.reader_parts().unwrap();
    let mut reader = shapefile::Reader::new(shapes, table);
    let pairs = reader.read_as::<Point, dbase::Record>().unwrap();
    assert_eq!(pairs.len(), 3);
    let shapes: Vec<Point> = pairs.iter().map(|(s, _)| *s).collect();
    assert_eq!(shapes, points());
    assert_eq!(
        pairs[1].1.get("name"),
        Some(&FieldValue::Character(Some("south".to_string())))
    );
}

#[test]
fn geometry_only_dataset() {
    let (shp, _) = geometry();
    let mut z = ZippedShapefile::new(archive(&[("data.shp", &shp)])).unwrap();
    assert_eq!(z.projection(), None);
    assert!(z.dbf_reader().unwrap().is_none());
    assert!(z.types().unwrap().is_none());
    let reader = z.shape_reader().unwrap();
    assert!(matches!(reader.shape_count(), Err(shapefile::Error::MissingIndexFile)));
    assert_eq!(reader.read_as::<Point>().unwrap(), points());
}

#[test]
fn combined_reader_needs_attributes() {
    let (shp, shx) = geometry();
    let mut z = ZippedShapefile::new(archive(&[("data.shp", &shp), ("data.shx", &shx)])).unwrap();
    assert!(matches!(z.reader_parts(), Err(Error::NoDbfFound)));
    assert!(z.dbf_reader().unwrap().is_none());
    assert!(matches!(z.reader_parts(), Err(Error::NoDbfFound)));
}

#[test]
fn indexed_and_sequential_agree() {
    let (shp, shx) = geometry();
    let mut indexed = ZippedShapefile::new(archive(&[("a/data.shp", &shp), ("a/data.shx", &shx)])).unwrap();
    let mut sequential = ZippedShapefile::new(archive(&[("a/data.shp", &shp)])).unwrap();
    let mut with_index = indexed.shape_reader().unwrap();
    assert_eq!(with_index.shape_count().unwrap(), 3);
    assert_eq!(with_index.read_nth_shape_as::<Point>(2).unwrap().unwrap(), Point::new(0.0, 10.0));
    let without_index = sequential.shape_reader().unwrap();
    assert_eq!(with_index.read_as::<Point>().unwrap(), without_index.read_as::<Point>().unwrap());
}

#[test]
fn field_schema_keeps_declared_order() {
    let mut z = ZippedShapefile::new(full_archive()).unwrap();
    let types = z.types().unwrap().unwrap();
    assert_eq!(
        types,
        vec![
            ("name".to_string(), "dbase::Character".to_string()),
            ("open".to_string(), "dbase::Logical".to_string()),
            ("lanes".to_string(), "dbase::Numeric".to_string()),
        ]
    );
}

#[test]
fn operations_repeat() {
    let mut z = ZippedShapefile::new(full_archive()).unwrap();
    let first = z.shape_reader().unwrap().read_as::<Point>().unwrap();
    let second = z.shape_reader().unwrap().read_as::<Point>().unwrap();
    assert_eq!(first, second);
    assert_eq!(z.types().unwrap(), z.types().unwrap());
    assert!(z.dbf_reader().unwrap().is_some());
    assert_eq!(z.projection(), Some(WKT));
}

#[test]
fn duplicate_members_are_refused() {
    let (shp, _) = geometry();
    let r = ZippedShapefile::new(archive(&[("a.shp", &shp), ("b.shp", &shp)]));
    assert!(matches!(r, Err(Error::MultipleFilesFound(".shp"))));
    let r = ZippedShapefile::new(archive(&[("a.shp", &shp), ("a.prj", b"x"), ("b.prj", b"y")]));
    assert!(matches!(r, Err(Error::MultipleFilesFound(".prj"))));
}

#[test]
fn missing_geometry_is_refused() {
    let dbf = table();
    let r = ZippedShapefile::new(archive(&[]));
    assert!(matches!(r, Err(Error::NoShpFound)));
    let r = ZippedShapefile::new(archive(&[("data.dbf", &dbf), ("data.prj", WKT.as_bytes()), ("DATA.SHP", b"")]));
    assert!(matches!(r, Err(Error::NoShpFound)));
}

#[test]
fn not_an_archive() {
    let r = ZippedShapefile::new(Cursor::new(b"definitely not a zip file".to_vec()));
    assert!(matches!(r, Err(Error::Zip(_))));
}

#[test]
fn malformed_members_are_reported() {
    let mut z = ZippedShapefile::new(archive(&[("data.shp", b"garbage"), ("data.dbf", b"garbage")])).unwrap();
    assert!(matches!(z.shape_reader(), Err(Error::Shapefile(_))));
    assert!(matches!(z.dbf_reader(), Err(Error::DBase(_))));
    assert!(matches!(z.types(), Err(Error::DBase(_))));
    assert!(matches!(z.reader_parts(), Err(Error::DBase(_))));
}

#[test]
fn projection_must_be_text() {
    let (shp, _) = geometry();
    let r = ZippedShapefile::new(archive(&[("data.shp", &shp), ("data.prj", &[0xff, 0xfe, 0x00])]));
    assert!(matches!(r, Err(Error::IOError(_))));
}

fn stored_archive(name: &str, data: &[u8]) -> Vec<u8> {
    let mut out = Cursor::new(Vec::new());
    {
        let mut z = zip::ZipWriter::new(&mut out);
        let options = SimpleFileOptions::default().compression_method(zip::CompressionMethod::Stored);
        z.start_file(name, options).unwrap();
        z.write_all(data).unwrap();
        z.finish().unwrap();
    }
    out.into_inner()
}

#[test]
fn declared_size_beyond_content_is_an_error() {
    let (shp, _) = geometry();
    let mut bytes = stored_archive("data.shp", &shp);
    let central = bytes
        .windows(4)
        .position(|w| w == [0x50, 0x4b, 0x01, 0x02])
        .unwrap();
    let declared = shp.len() as u32 + 16;
    bytes[central + 24..central + 28].copy_from_slice(&declared.to_le_bytes());
    let mut z = ZippedShapefile::new(Cursor::new(bytes)).unwrap();
    let r = z.shape_reader();
    assert!(matches!(
        r,
        Err(Error::MemberSizeMismatch(d, n)) if d == declared as u64 && n == shp.len() as u64
    ));
}
