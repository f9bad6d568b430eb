//! The calls this library makes into other crates and into the parts of the
//! standard library that have no specification here. Each contract below is
//! believed, not proved; the doc comments say what it claims.
use vstd::prelude::*;
use chrono::{Datelike, Timelike};
use rand::Rng;
use crate::text::{decimal, pad2};

verus! {

// ---------------------------------------------------------------------------
// Random choice (rand)
// ---------------------------------------------------------------------------

/// Picks an index below `len` at random with `rand::rng().random_range(0..len)`.
/// Claimed: the index is below `len`. Nothing is claimed about which one.
/// `random_range` panics on an empty range, so `len` must be positive.
#[verifier::external_body]
pub(crate) fn random_index(len: usize) -> (r: usize)
    requires
        len > 0,
    ensures
        r < len,
{
    rand::rng().random_range(0..len)
}

// ---------------------------------------------------------------------------
// Templates (leon)
// ---------------------------------------------------------------------------

/// Whether `leon::Template::parse` accepts a template text.
pub uninterp spec fn leon_parses(template: Seq<char>) -> bool;

/// What `leon::Template::render` yields for a template text that parses,
/// given the key/value pairs: `None` when it reports an error.
pub uninterp spec fn leon_render(template: Seq<char>, values: Seq<(Seq<char>, Seq<char>)>) -> Option<
    Seq<char>,
>;

/// Which step of template rendering failed.
#[derive(Debug, Clone, Copy, PartialEq, Eq, Structural)]
pub enum TemplateFailure {
    Parse,
    Render,
}

pub open spec fn pairs_view(values: Seq<(String, String)>) -> Seq<(Seq<char>, Seq<char>)> {
    values.map_values(|p: (String, String)| (p.0@, p.1@))
}

/// Renders `template` with `leon::Template::parse` and then
/// `Template::render`, the values being looked up among the key/value pairs.
/// Claimed: a parse failure is reported as `Parse` exactly when
/// `leon_parses` is false; otherwise the result is `leon_render` of the
/// template and the pairs (`Render` when that is `None`).
#[verifier::external_body]
pub(crate) fn render_template(template: &str, values: &Vec<(String, String)>) -> (r: Result<
    String,
    TemplateFailure,
>)
    ensures
        (r == Err::<String, TemplateFailure>(TemplateFailure::Parse)) <==> !leon_parses(template@),
        leon_parses(template@) ==> match r {
            Ok(s) => leon_render(template@, pairs_view(values@)) == Some(s@),
            Err(_) => leon_render(template@, pairs_view(values@)) is None,
        },
{
    match leon::Template::parse(template) {
        Ok(t) => match t.render(values) {
            Ok(s) => Ok(s),
            Err(_) => Err(TemplateFailure::Render),
        },
        Err(_) => Err(TemplateFailure::Parse),
    }
}

// ---------------------------------------------------------------------------
// Date and time (chrono)
// ---------------------------------------------------------------------------

/// A calendar date and wall-clock time, field by field.
#[derive(Debug, Clone, Copy, PartialEq, Eq, Structural)]
pub struct DateTimeFields {
    pub year: i32,
    pub month: u32,
    pub day: u32,
    pub hour: u32,
    pub minute: u32,
    pub second: u32,
}

pub open spec fn fields_tuple(f: DateTimeFields) -> (int, int, int, int, int, int) {
    (f.year as int, f.month as int, f.day as int, f.hour as int, f.minute as int, f.second as int)
}

pub open spec fn is_leap_year(y: int) -> bool {
    y % 4 == 0 && (y % 100 != 0 || y % 400 == 0)
}

pub open spec fn days_in_month(y: int, m: int) -> int {
    if m == 2 {
        if is_leap_year(y) {
            29
        } else {
            28
        }
    } else if m == 4 || m == 6 || m == 9 || m == 11 {
        30
    } else {
        31
    }
}

/// A date and time that chrono's `NaiveDateTime` can hold (years from
/// -262143 to 262142 in the proleptic Gregorian calendar).
pub open spec fn valid_datetime_fields(f: DateTimeFields) -> bool {
    &&& -262143 <= f.year <= 262142
    &&& 1 <= f.month <= 12
    &&& 1 <= f.day <= days_in_month(f.year as int, f.month as int)
    &&& f.hour < 24
    &&& f.minute < 60
    &&& f.second < 60
}

/// The date and time that `chrono::NaiveDateTime::parse_from_str` reads
/// from a text with a format, field by field; `None` when it reports an error.
pub uninterp spec fn chrono_parse(text: Seq<char>, format: Seq<char>) -> Option<(int, int, int, int, int, int)>;

/// A number zero-padded to at least four digits.
pub open spec fn pad4(n: nat) -> Seq<char> {
    if n < 10 {
        "000"@ + decimal(n)
    } else if n < 100 {
        "00"@ + decimal(n)
    } else if n < 1000 {
        "0"@ + decimal(n)
    } else {
        decimal(n)
    }
}

/// How chrono writes a year for `%Y`: four digits with leading zeros for
/// years 0 to 9999, otherwise with a sign and at least four digits.
pub open spec fn year_text(y: int) -> Seq<char> {
    if 0 <= y <= 9999 {
        pad4(y as nat)
    } else if y < 0 {
        "-"@ + pad4((-y) as nat)
    } else {
        "+"@ + pad4(y as nat)
    }
}

/// The text chrono's `NaiveDateTime::format` writes for a date and time
/// given field by field, with `%Y-%m-%d` or with `%Y-%m-%d %H点%M分`: the
/// year as `%Y` writes it, then month, day, hour and minute with two digits.
pub open spec fn datetime_text(fields: (int, int, int, int, int, int), format: Seq<char>) -> Seq<char> {
    let date = year_text(fields.0) + "-"@ + pad2(fields.1 as nat) + "-"@ + pad2(fields.2 as nat);
    if format == "%Y-%m-%d"@ {
        date
    } else {
        date + " "@ + pad2(fields.3 as nat) + "点"@ + pad2(fields.4 as nat) + "分"@
    }
}

/// Reads a date and time with `chrono::NaiveDateTime::parse_from_str`.
/// Claimed: the fields are those of `chrono_parse`, and a read date and
/// time is one that chrono can hold.
#[verifier::external_body]
pub(crate) fn parse_datetime(text: &str, format: &str) -> (r: Option<DateTimeFields>)
    ensures
        match r {
            Some(f) => chrono_parse(text@, format@) == Some(fields_tuple(f)) && valid_datetime_fields(f),
            None => chrono_parse(text@, format@) is None,
        },
{
    match chrono::NaiveDateTime::parse_from_str(text, format) {
        Ok(dt) => Some(
            DateTimeFields {
                year: dt.year(),
                month: dt.month(),
                day: dt.day(),
                hour: dt.hour(),
                minute: dt.minute(),
                second: dt.second(),
            },
        ),
        Err(_) => None,
    }
}

/// The two formats this library writes dates in.
pub open spec fn known_datetime_format(format: Seq<char>) -> bool {
    format == "%Y-%m-%d %H点%M分"@ || format == "%Y-%m-%d"@
}

/// Writes a date and time with chrono's `NaiveDateTime::format`, after
/// building it with `NaiveDate::from_ymd_opt` and `and_hms_opt`.
/// Claimed: the text is `datetime_text` of the fields. The fields must be a
/// date and time chrono can hold, and the format one of the two this library
/// uses (formatting panics on malformed formats).
#[verifier::external_body]
pub(crate) fn format_datetime(fields: &DateTimeFields, format: &str) -> (r: String)
    requires
        valid_datetime_fields(*fields),
        known_datetime_format(format@),
    ensures
        r@ == datetime_text(fields_tuple(*fields), format@),
{
    let date = chrono::NaiveDate::from_ymd_opt(fields.year, fields.month, fields.day).unwrap();
    let datetime = date.and_hms_opt(fields.hour, fields.minute, fields.second).unwrap();
    datetime.format(format).to_string()
}

/// Whether `NaiveDateTime::and_local_timezone(chrono_tz::Asia::Shanghai)`
/// gives exactly one local time for a date and time given field by field
/// (it gives none or two around a daylight-saving change, such as those of
/// 1986 to 1991).
pub uninterp spec fn shanghai_single(fields: (int, int, int, int, int, int)) -> bool;

/// Places a date and time in the Asia/Shanghai time zone with chrono's
/// `NaiveDateTime::and_local_timezone` and chrono-tz, and tells whether that
/// gives a single time. Claimed: the answer is `shanghai_single` of the
/// fields, which must be a date and time chrono can hold.
#[verifier::external_body]
pub(crate) fn shanghai_local_time_is_single(fields: &DateTimeFields) -> (r: bool)
    requires
        valid_datetime_fields(*fields),
    ensures
        r == shanghai_single(fields_tuple(*fields)),
{
    let date = chrono::NaiveDate::from_ymd_opt(fields.year, fields.month, fields.day).unwrap();
    let datetime = date.and_hms_opt(fields.hour, fields.minute, fields.second).unwrap();
    match datetime.and_local_timezone(chrono_tz::Asia::Shanghai) {
        chrono::LocalResult::Single(_) => true,
        chrono::LocalResult::Ambiguous(_, _) => false,
        chrono::LocalResult::None => false,
    }
}

// ---------------------------------------------------------------------------
// Paths (std)
// ---------------------------------------------------------------------------

/// What `std::path::Path::file_stem` gives for a path text: the last
/// component's name without its final extension, `None` when the path has
/// no file name. It follows the path rules of the platform the library is
/// built for.
pub uninterp spec fn path_file_stem(path: Seq<char>) -> Option<Seq<char>>;

/// The stem of the file a path names, with `std::path::Path::file_stem`.
/// Claimed: the result is `path_file_stem` of the text.
#[verifier::external_body]
pub(crate) fn file_stem(path: &str) -> (r: Option<String>)
    ensures
        match r {
            Some(s) => path_file_stem(path@) == Some(s@),
            None => path_file_stem(path@) is None,
        },
{
    match std::path::Path::new(path).file_stem() {
        Some(s) => Some(s.to_string_lossy().to_string()),
        None => None,
    }
}

/// What `std::path::Path::file_name` gives for a path text: the last
/// component's name, `None` when the path ends in `..` or has no component.
/// It follows the path rules of the platform the library is built for.
pub uninterp spec fn path_file_name(path: Seq<char>) -> Option<Seq<char>>;

/// The name of the file a path names, with `std::path::Path::file_name`.
/// Claimed: the result is `path_file_name` of the text.
#[verifier::external_body]
pub(crate) fn file_name(path: &str) -> (r: Option<String>)
    ensures
        match r {
            Some(n) => path_file_name(path@) == Some(n@),
            None => path_file_name(path@) is None,
        },
{
    match std::path::Path::new(path).file_name() {
        Some(s) => Some(s.to_string_lossy().to_string()),
        None => None,
    }
}

// ---------------------------------------------------------------------------
// Clock (std)
// ---------------------------------------------------------------------------

#[verifier::external_type_specification]
#[verifier::external_body]
pub struct ExInstant(std::time::Instant);

/// The current moment, from `std::time::Instant::now`. Nothing is claimed
/// about it.
#[verifier::external_body]
pub(crate) fn now() -> std::time::Instant {
    std::time::Instant::now()
}

} // verus!
