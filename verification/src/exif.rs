//! The capture facts of a photo, taken from the metadata embedded in its
//! file. Reading the metadata is the work of the `exif` library; which
//! attributes are taken, and what is made of them, is decided here.

use vstd::prelude::*;
use vstd::string::*;
use crate::photodata::{MinimalExif, MinimalExifView};
use crate::text::opt_text;

verus! {

/// Number of the attribute that holds when the picture was taken.
pub const TAG_DATE_TIME_ORIGINAL: u16 = 0x9003;

/// Number of the attribute that holds the maker of the lens.
pub const TAG_LENS_MAKE: u16 = 0xa433;

/// Number of the attribute that holds the model of the lens.
pub const TAG_LENS_MODEL: u16 = 0xa434;

/// Number of the attribute that holds the shutter speed.
pub const TAG_SHUTTER_SPEED_VALUE: u16 = 0x9201;

/// Number of the attribute that holds the focal length.
pub const TAG_FOCAL_LENGTH: u16 = 0x920a;

/// Number of the attribute that holds the F-number.
pub const TAG_F_NUMBER: u16 = 0x829d;

/// Number of the attribute that holds the ISO speed.
pub const TAG_ISO_SPEED: u16 = 0x8833;

/// Why no capture facts could be taken from a file.
#[derive(Debug, PartialEq, Eq, Clone, Copy)]
pub enum ExifError {
    /// The file holds no metadata that can be read.
    Unreadable,
    /// The time at which the picture was taken is not written as a date and
    /// a time.
    BadDateTime,
}

/// A date and a time of day as they are written in the metadata. The
/// numbers are not checked against the calendar.
#[derive(Debug, PartialEq, Eq, Clone, Copy)]
pub struct ExifDateTime {
    pub year: u16,
    pub month: u8,
    pub day: u8,
    pub hour: u8,
    pub minute: u8,
}

/// What the logic reads of the parsed metadata of a file: of the attributes
/// of the primary image that belong to the Exif group, by their numbers,
/// the text that each is displayed as, and the strings that each holds
/// where it holds strings.
pub struct ExifAttributes {
    pub display: Map<u16, Seq<char>>,
    pub ascii: Map<u16, Seq<Seq<u8>>>,
}

/// The parsed metadata of a file, as the `exif` library holds it.
#[verifier::external_type_specification]
#[verifier::external_body]
pub struct ExExif(::exif::Exif);

/// The error of the `exif` library.
#[verifier::external_type_specification]
#[verifier::external_body]
pub struct ExExifError(::exif::Error);

/// What parsed metadata holds as the display of its attributes: for the
/// number of each attribute of the Exif group of the primary image, the
/// text that its value is displayed as.
pub uninterp spec fn exif_display(e: ::exif::Exif) -> Map<u16, Seq<char>>;

/// What parsed metadata holds as strings: for the number of each attribute
/// of the Exif group of the primary image whose value is made of strings,
/// those strings.
pub uninterp spec fn exif_ascii(e: ::exif::Exif) -> Map<u16, Seq<Seq<u8>>>;

/// The attributes that parsed metadata holds.
pub open spec fn exif_contents(e: ::exif::Exif) -> ExifAttributes {
    ExifAttributes { display: exif_display(e), ascii: exif_ascii(e) }
}

/// The attributes that `exif::Reader::read_from_container` finds in the
/// bytes of a file; none where it fails.
pub uninterp spec fn exif_attributes(raw: Seq<u8>) -> Option<ExifAttributes>;

/// Whether a byte is a decimal digit.
pub open spec fn is_digit(b: u8) -> bool {
    0x30 <= b <= 0x39
}

/// The number that the two digits at `i` and `i + 1` write.
pub open spec fn two_digits(data: Seq<u8>, i: int) -> int {
    (data[i] - 0x30) * 10 + (data[i + 1] - 0x30)
}

/// Whether a string starts with a date and a time written as
/// `YYYY:MM:DD HH:MM:SS`, every `Y`, `M`, `D`, `H` and `S` a decimal digit.
pub open spec fn is_date_time(data: Seq<u8>) -> bool {
    &&& data.len() >= 19
    &&& data[4] == 0x3a && data[7] == 0x3a && data[10] == 0x20 && data[13] == 0x3a && data[16]
        == 0x3a
    &&& is_digit(data[0]) && is_digit(data[1]) && is_digit(data[2]) && is_digit(data[3])
    &&& is_digit(data[5]) && is_digit(data[6])
    &&& is_digit(data[8]) && is_digit(data[9])
    &&& is_digit(data[11]) && is_digit(data[12])
    &&& is_digit(data[14]) && is_digit(data[15])
    &&& is_digit(data[17]) && is_digit(data[18])
}

/// The date and time that a string of the metadata writes; none where it
/// is not written as [`is_date_time`] asks. The numbers are taken as they
/// are written, and what follows the seconds is not read.
pub open spec fn exif_date_time(data: Seq<u8>) -> Option<ExifDateTime> {
    if is_date_time(data) {
        Some(
            ExifDateTime {
                year: (two_digits(data, 0) * 100 + two_digits(data, 2)) as u16,
                month: two_digits(data, 5) as u8,
                day: two_digits(data, 8) as u8,
                hour: two_digits(data, 11) as u8,
                minute: two_digits(data, 14) as u8,
            },
        )
    } else {
        None
    }
}

/// Calls `exif::Reader::read_from_container` on the bytes of a file.
///
/// The contract claims only that the outcome is a function of the bytes:
/// it gives that outcome its name, [`exif_attributes`].
#[verifier::external_body]
fn read_exif(raw: &[u8]) -> (r: Result<::exif::Exif, ::exif::Error>)
    ensures
        match r {
            Ok(e) => exif_attributes(raw@) == Some(exif_contents(e)),
            Err(_) => exif_attributes(raw@) is None,
        },
{
    ::exif::Reader::new().read_from_container(&mut std::io::Cursor::new(raw))
}

/// Calls `exif::Exif::get_field` for an attribute of the Exif group of the
/// primary image, and displays its value with `exif::Value::display_as`.
///
/// The contract claims that the text is what [`exif_display`] holds for
/// that attribute, and that there is none where the metadata has no such
/// attribute.
#[verifier::external_body]
fn field_text(e: &::exif::Exif, tag: u16) -> (r: Option<String>)
    ensures
        opt_text(r) == if exif_display(*e).contains_key(tag) {
            Some(exif_display(*e)[tag])
        } else {
            None
        },
{
    e.get_field(::exif::Tag(::exif::Context::Exif, tag), ::exif::In::PRIMARY).map(
        |f| f.value.display_as(f.tag).to_string(),
    )
}

/// Calls `exif::Exif::get_field` for an attribute of the Exif group of the
/// primary image, and hands out its strings where its value is
/// `exif::Value::Ascii`.
///
/// The contract claims that the strings are what [`exif_ascii`] holds for
/// that attribute, and that there are none where the metadata has no such
/// attribute or its value is of another kind.
#[verifier::external_body]
fn field_ascii(e: &::exif::Exif, tag: u16) -> (r: Option<Vec<Vec<u8>>>)
    ensures
        match r {
            Some(v) => exif_ascii(*e).contains_key(tag) && exif_ascii(*e)[tag] == v@.map_values(
                |s: Vec<u8>| s@,
            ),
            None => !exif_ascii(*e).contains_key(tag),
        },
{
    match e.get_field(::exif::Tag(::exif::Context::Exif, tag), ::exif::In::PRIMARY) {
        Some(f) => match f.value {
            ::exif::Value::Ascii(ref v) => Some(v.clone()),
            _ => None,
        },
        None => None,
    }
}

/// Calls `exif::DateTime::from_ascii` on a string of the metadata.
///
/// The contract claims that the call succeeds exactly on a string that
/// starts with nineteen bytes of the form `YYYY:MM:DD HH:MM:SS`, which
/// leaves out the blank date that the Exif standard allows, and that the
/// numbers are those that the digits write: see [`exif_date_time`].
#[verifier::external_body]
fn parse_date_time(data: &[u8]) -> (r: Option<ExifDateTime>)
    ensures
        r == exif_date_time(data@),
{
    ::exif::DateTime::from_ascii(data).ok().map(
        |d| ExifDateTime { year: d.year, month: d.month, day: d.day, hour: d.hour, minute: d.minute },
    )
}

/// The text of one decimal digit.
pub open spec fn digit_text(d: nat) -> Seq<char> {
    if d == 0 {
        "0"@
    } else if d == 1 {
        "1"@
    } else if d == 2 {
        "2"@
    } else if d == 3 {
        "3"@
    } else if d == 4 {
        "4"@
    } else if d == 5 {
        "5"@
    } else if d == 6 {
        "6"@
    } else if d == 7 {
        "7"@
    } else if d == 8 {
        "8"@
    } else {
        "9"@
    }
}

/// A number written in decimal digits, without leading zeros.
pub open spec fn decimal_text(n: nat) -> Seq<char>
    decreases n,
{
    if n < 10 {
        digit_text(n)
    } else {
        decimal_text(n / 10) + digit_text(n % 10)
    }
}

/// The text of one decimal digit.
fn digit_str(d: u16) -> (r: &'static str)
    requires
        d < 10,
    ensures
        r@ == digit_text(d as nat),
{
    if d == 0 {
        "0"
    } else if d == 1 {
        "1"
    } else if d == 2 {
        "2"
    } else if d == 3 {
        "3"
    } else if d == 4 {
        "4"
    } else if d == 5 {
        "5"
    } else if d == 6 {
        "6"
    } else if d == 7 {
        "7"
    } else if d == 8 {
        "8"
    } else {
        "9"
    }
}

/// Writes a number in decimal digits, without leading zeros.
pub fn decimal_string(n: u16) -> (r: String)
    ensures
        r@ == decimal_text(n as nat),
    decreases n,
{
    if n < 10 {
        String::from_str(digit_str(n))
    } else {
        decimal_string(n / 10).concat(digit_str(n % 10))
    }
}

/// The lens as it is shown: maker and model with a space between them where
/// both are known, else the one that is known.
pub open spec fn lens_text(make: Option<Seq<char>>, model: Option<Seq<char>>) -> Option<Seq<char>> {
    match (make, model) {
        (Some(a), Some(b)) => Some(a + " "@ + b),
        (Some(a), None) => Some(a),
        (None, Some(b)) => Some(b),
        (None, None) => None,
    }
}

/// The capture facts that are made of the attributes of a photo: the parts
/// of the date and time in decimal digits, the lens as [`lens_text`], and
/// shutter time, focal length, F-number and ISO speed as they are
/// displayed. The camera body is never taken from the metadata.
pub open spec fn assembled_exif(
    date: Option<ExifDateTime>,
    lens_make: Option<Seq<char>>,
    lens_model: Option<Seq<char>>,
    time: Option<Seq<char>>,
    focal_length: Option<Seq<char>>,
    f_value: Option<Seq<char>>,
    iso: Option<Seq<char>>,
) -> MinimalExifView {
    MinimalExifView {
        year: match date {
            Some(d) => Some(decimal_text(d.year as nat)),
            None => None,
        },
        month: match date {
            Some(d) => Some(decimal_text(d.month as nat)),
            None => None,
        },
        day: match date {
            Some(d) => Some(decimal_text(d.day as nat)),
            None => None,
        },
        hour: match date {
            Some(d) => Some(decimal_text(d.hour as nat)),
            None => None,
        },
        minutes: match date {
            Some(d) => Some(decimal_text(d.minute as nat)),
            None => None,
        },
        body: None,
        lens: lens_text(lens_make, lens_model),
        time: time,
        focal_length: focal_length,
        f_value: f_value,
        iso: iso,
    }
}

/// Makes the capture facts of a photo of the attributes that were read from
/// its metadata: see [`assembled_exif`].
pub fn minimal_exif_from_fields(
    date: Option<ExifDateTime>,
    lens_make: Option<String>,
    lens_model: Option<String>,
    time: Option<String>,
    focal_length: Option<String>,
    f_value: Option<String>,
    iso: Option<String>,
) -> (r: MinimalExif)
    ensures
        r@ == assembled_exif(
            date,
            opt_text(lens_make),
            opt_text(lens_model),
            opt_text(time),
            opt_text(focal_length),
            opt_text(f_value),
            opt_text(iso),
        ),
{
    let lens = match (lens_make, lens_model) {
        (Some(a), Some(b)) => Some(a.concat(" ").concat(b.as_str())),
        (Some(a), None) => Some(a),
        (None, Some(b)) => Some(b),
        (None, None) => None,
    };
    match date {
        Some(d) => MinimalExif {
            year: Some(decimal_string(d.year)),
            month: Some(decimal_string(d.month as u16)),
            day: Some(decimal_string(d.day as u16)),
            hour: Some(decimal_string(d.hour as u16)),
            minutes: Some(decimal_string(d.minute as u16)),
            body: None,
            lens,
            time,
            focal_length,
            f_value,
            iso,
        },
        None => MinimalExif {
            year: None,
            month: None,
            day: None,
            hour: None,
            minutes: None,
            body: None,
            lens,
            time,
            focal_length,
            f_value,
            iso,
        },
    }
}

/// The text that the attributes hold as the display of `tag`, if any.
pub open spec fn display_of(a: ExifAttributes, tag: u16) -> Option<Seq<char>> {
    if a.display.contains_key(tag) {
        Some(a.display[tag])
    } else {
        None
    }
}

/// The string that tells when the picture was taken: the first string of
/// the attribute, where the attribute is there and holds strings.
pub open spec fn date_string_of(a: ExifAttributes) -> Option<Seq<u8>> {
    if a.ascii.contains_key(TAG_DATE_TIME_ORIGINAL) && a.ascii[TAG_DATE_TIME_ORIGINAL].len() > 0 {
        Some(a.ascii[TAG_DATE_TIME_ORIGINAL][0])
    } else {
        None
    }
}

/// The capture facts of a file whose attributes are `attributes`, or why
/// there are none: the metadata must be readable, and the time at which the
/// picture was taken, where it is given, must be a date and a time.
pub open spec fn minimal_exif_of(attributes: Option<ExifAttributes>) -> Result<
    MinimalExifView,
    ExifError,
> {
    match attributes {
        None => Err(ExifError::Unreadable),
        Some(a) => {
            let date = match date_string_of(a) {
                Some(s) => exif_date_time(s),
                None => None,
            };
            if date_string_of(a) is Some && date is None {
                Err(ExifError::BadDateTime)
            } else {
                Ok(
                    assembled_exif(
                        date,
                        display_of(a, TAG_LENS_MAKE),
                        display_of(a, TAG_LENS_MODEL),
                        display_of(a, TAG_SHUTTER_SPEED_VALUE),
                        display_of(a, TAG_FOCAL_LENGTH),
                        display_of(a, TAG_F_NUMBER),
                        display_of(a, TAG_ISO_SPEED),
                    ),
                )
            }
        },
    }
}

/// The model of the outcome of an extraction.
pub open spec fn exif_result_view(r: Result<MinimalExif, ExifError>) -> Result<
    MinimalExifView,
    ExifError,
> {
    match r {
        Ok(e) => Ok(e@),
        Err(e) => Err(e),
    }
}

/// Takes the capture facts of a photo from the bytes of its file: see
/// [`minimal_exif_of`].
pub fn parse_exif_data(raw: &[u8]) -> (r: Result<MinimalExif, ExifError>)
    ensures
        exif_result_view(r) == minimal_exif_of(exif_attributes(raw@)),
{
    match read_exif(raw) {
        Err(_) => Err(ExifError::Unreadable),
        Ok(e) => {
            let date = match field_ascii(&e, TAG_DATE_TIME_ORIGINAL) {
                Some(strings) => {
                    if strings.len() > 0 {
                        match parse_date_time(strings[0].as_slice()) {
                            Some(d) => Some(d),
                            None => {
                                return Err(ExifError::BadDateTime);
                            },
                        }
                    } else {
                        None
                    }
                },
                None => None,
            };
            let lens_make = field_text(&e, TAG_LENS_MAKE);
            let lens_model = field_text(&e, TAG_LENS_MODEL);
            let time = field_text(&e, TAG_SHUTTER_SPEED_VALUE);
            let focal_length = field_text(&e, TAG_FOCAL_LENGTH);
            let f_value = field_text(&e, TAG_F_NUMBER);
            let iso = field_text(&e, TAG_ISO_SPEED);
            Ok(
                minimal_exif_from_fields(
                    date,
                    lens_make,
                    lens_model,
                    time,
                    focal_length,
                    f_value,
                    iso,
                ),
            )
        },
    }
}

/// The capture facts that a reconciliation is given for one file: nothing
/// where the file was not read, could not be read, or yields no facts.
pub open spec fn facts_of_file(file: Option<Vec<u8>>) -> Option<MinimalExifView> {
    match file {
        Some(raw) => match minimal_exif_of(exif_attributes(raw@)) {
            Ok(e) => Some(e),
            Err(_) => None,
        },
        None => None,
    }
}

/// The model of capture facts that may be missing.
pub open spec fn facts_view(e: Option<MinimalExif>) -> Option<MinimalExifView> {
    match e {
        Some(e) => Some(e@),
        None => None,
    }
}

/// Takes the capture facts from the files of a manifest, one by one. A file
/// that is missing or that yields no facts gives nothing for its photo and
/// leaves the other photos alone.
pub fn exif_of_files(files: &[Option<Vec<u8>>]) -> (r: Vec<Option<MinimalExif>>)
    ensures
        r.len() == files@.len(),
        forall|i: int| 0 <= i < r.len() ==> facts_view(#[trigger] r[i]) == facts_of_file(files@[i]),
{
    let mut r: Vec<Option<MinimalExif>> = Vec::new();
    let mut i: usize = 0;
    while i < files.len()
        invariant
            i <= files@.len(),
            r.len() == i,
            forall|j: int| 0 <= j < i ==> facts_view(#[trigger] r[j]) == facts_of_file(files@[j]),
        decreases files@.len() - i,
    {
        let facts = match &files[i] {
            Some(raw) => match parse_exif_data(raw.as_slice()) {
                Ok(e) => Some(e),
                Err(_) => None,
            },
            None => None,
        };
        r.push(facts);
        i += 1;
    }
    r
}

} // verus!
