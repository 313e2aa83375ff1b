use photag::exif::{
    decimal_string, exif_of_files, minimal_exif_from_fields, parse_exif_data, ExifDateTime,
    ExifError,
};
use photag::photodata::MinimalExif;

fn some(t: &str) -> Option<String> {
    Some(t.to_string())
}

/// One attribute of the Exif group: its number, the number of its type,
/// the count of its values and their bytes.
struct Attribute {
    tag: u16,
    kind: u16,
    count: u32,
    bytes: Vec<u8>,
}

fn ascii(tag: u16, text: &str) -> Attribute {
    let mut bytes = text.as_bytes().to_vec();
    bytes.push(0);
    Attribute { tag, kind: 2, count: bytes.len() as u32, bytes }
}

fn rational(tag: u16, num: u32, denom: u32) -> Attribute {
    let mut bytes = num.to_be_bytes().to_vec();
    bytes.extend_from_slice(&denom.to_be_bytes());
    Attribute { tag, kind: 5, count: 1, bytes }
}

fn srational(tag: u16, num: i32, denom: i32) -> Attribute {
    let mut bytes = num.to_be_bytes().to_vec();
    bytes.extend_from_slice(&denom.to_be_bytes());
    Attribute { tag, kind: 10, count: 1, bytes }
}

fn long(tag: u16, value: u32) -> Attribute {
    Attribute { tag, kind: 4, count: 1, bytes: value.to_be_bytes().to_vec() }
}

/// A big-endian TIFF file whose only content is an Exif group with the
/// given attributes.
fn tiff(attributes: &[Attribute]) -> Vec<u8> {
    let mut out = vec![0x4d, 0x4d, 0x00, 0x2a, 0, 0, 0, 8];
    out.extend_from_slice(&1u16.to_be_bytes());
    out.extend_from_slice(&0x8769u16.to_be_bytes());
    out.extend_from_slice(&4u16.to_be_bytes());
    out.extend_from_slice(&1u32.to_be_bytes());
    out.extend_from_slice(&26u32.to_be_bytes());
    out.extend_from_slice(&0u32.to_be_bytes());
    let table = 2 + 12 * attributes.len() + 4;
    let mut data: Vec<u8> = Vec::new();
    out.extend_from_slice(&(attributes.len() as u16).to_be_bytes());
    for a in attributes {
        out.extend_from_slice(&a.tag.to_be_bytes());
        out.extend_from_slice(&a.kind.to_be_bytes());
        out.extend_from_slice(&a.count.to_be_bytes());
        if a.bytes.len() <= 4 {
            let mut inline = a.bytes.clone();
            inline.resize(4, 0);
            out.extend_from_slice(&inline);
        } else {
            let offset = 26 + table + data.len();
            out.extend_from_slice(&(offset as u32).to_be_bytes());
            data.extend_from_slice(&a.bytes);
        }
    }
    out.extend_from_slice(&0u32.to_be_bytes());
    out.extend_from_slice(&data);
    out
}

#[test]
fn parse_exif_data_reads_all_facts() {
    let raw = tiff(&[
        rational(0x829d, 28, 10),
        long(0x8833, 400),
        ascii(0x9003, "2016:05:04 03:02:01"),
        srational(0x9201, 8, 1),
        rational(0x920a, 23, 1),
        ascii(0xa433, "FUJIFILM"),
        ascii(0xa434, "XF23mm"),
    ]);
    let facts = parse_exif_data(&raw).unwrap();
    assert_eq!(
        facts,
        MinimalExif {
            year: some("2016"),
            month: some("5"),
            day: some("4"),
            hour: some("3"),
            minutes: some("2"),
            body: None,
            lens: some("\"FUJIFILM\" \"XF23mm\""),
            time: some("8"),
            focal_length: some("23"),
            f_value: some("2.8"),
            iso: some("400"),
        }
    );
}

#[test]
fn parse_exif_data_without_attributes() {
    let raw = tiff(&[]);
    assert_eq!(parse_exif_data(&raw), Ok(MinimalExif::empty()));
}

#[test]
fn parse_exif_data_with_lens_model_only() {
    let raw = tiff(&[ascii(0xa434, "XF23mm")]);
    let facts = parse_exif_data(&raw).unwrap();
    assert_eq!(facts.lens, some("\"XF23mm\""));
    assert_eq!(facts.year, None);
}

#[test]
fn parse_exif_data_with_lens_maker_only() {
    let raw = tiff(&[ascii(0xa433, "FUJIFILM")]);
    let facts = parse_exif_data(&raw).unwrap();
    assert_eq!(facts.lens, some("\"FUJIFILM\""));
}

#[test]
fn parse_exif_data_refuses_bad_date() {
    let raw = tiff(&[ascii(0x9003, "yesterday at noon..")]);
    assert_eq!(parse_exif_data(&raw), Err(ExifError::BadDateTime));
    let blank = tiff(&[ascii(0x9003, "    :  :     :  :  ")]);
    assert_eq!(parse_exif_data(&blank), Err(ExifError::BadDateTime));
}

#[test]
fn parse_exif_data_ignores_date_of_another_kind() {
    let raw = tiff(&[long(0x9003, 7)]);
    assert_eq!(parse_exif_data(&raw), Ok(MinimalExif::empty()));
}

#[test]
fn parse_exif_data_refuses_what_is_no_image() {
    assert_eq!(parse_exif_data(b"no picture"), Err(ExifError::Unreadable));
    assert_eq!(parse_exif_data(&[]), Err(ExifError::Unreadable));
    let mut cut = tiff(&[ascii(0xa434, "XF23mm")]);
    cut.truncate(30);
    assert_eq!(parse_exif_data(&cut), Err(ExifError::Unreadable));
}

#[test]
fn minimal_exif_from_fields_joins_lens() {
    let date = ExifDateTime { year: 2024, month: 12, day: 31, hour: 23, minute: 59 };
    let facts = minimal_exif_from_fields(
        Some(date),
        some("Maker"),
        some("Model"),
        some("1/60"),
        some("50"),
        some("1.8"),
        some("100"),
    );
    assert_eq!(
        facts,
        MinimalExif {
            year: some("2024"),
            month: some("12"),
            day: some("31"),
            hour: some("23"),
            minutes: some("59"),
            body: None,
            lens: some("Maker Model"),
            time: some("1/60"),
            focal_length: some("50"),
            f_value: some("1.8"),
            iso: some("100"),
        }
    );
}

#[test]
fn minimal_exif_from_fields_takes_the_lens_value_that_is_there() {
    let a = minimal_exif_from_fields(None, some("Maker"), None, None, None, None, None);
    assert_eq!(a.lens, some("Maker"));
    let b = minimal_exif_from_fields(None, None, some("Model"), None, None, None, None);
    assert_eq!(b.lens, some("Model"));
    let c = minimal_exif_from_fields(None, None, None, None, None, None, None);
    assert_eq!(c, MinimalExif::empty());
}

#[test]
fn decimal_string_writes_digits() {
    assert_eq!(decimal_string(0), "0");
    assert_eq!(decimal_string(7), "7");
    assert_eq!(decimal_string(10), "10");
    assert_eq!(decimal_string(2016), "2016");
    assert_eq!(decimal_string(65535), "65535");
}

#[test]
fn parse_exif_data_reads_the_date_as_written() {
    let raw = tiff(&[ascii(0x9003, "0000:13:99 24:60:61 and more")]);
    let facts = parse_exif_data(&raw).unwrap();
    assert_eq!(facts.year, some("0"));
    assert_eq!(facts.month, some("13"));
    assert_eq!(facts.day, some("99"));
    assert_eq!(facts.hour, some("24"));
    assert_eq!(facts.minutes, some("60"));
}

#[test]
fn parse_exif_data_refuses_malformed_dates() {
    for text in [
        "2016:05:04 03:02:0",
        "2016-05-04 03:02:01",
        "2016:05:04T03:02:01",
        "2016:05:04 03:02:0x",
        "2016:5 :04 03:02:01",
        "                   ",
        "",
    ] {
        let raw = tiff(&[ascii(0x9003, text)]);
        assert_eq!(parse_exif_data(&raw), Err(ExifError::BadDateTime), "{:?}", text);
    }
}

#[test]
fn one_unreadable_file_leaves_the_others_alone() {
    let good = tiff(&[long(0x8833, 400)]);
    let bad_date = tiff(&[ascii(0x9003, "no date")]);
    let facts = exif_of_files(&[Some(b"broken".to_vec()), None, Some(good), Some(bad_date)]);
    assert_eq!(facts.len(), 4);
    assert_eq!(facts[0], None);
    assert_eq!(facts[1], None);
    assert_eq!(facts[2].as_ref().unwrap().iso, some("400"));
    assert_eq!(facts[3], None);
    assert_eq!(exif_of_files(&[]), vec![]);
}
