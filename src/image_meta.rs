use vstd::prelude::*;
use vstd::string::*;

use crate::error::RainError;

verus! {

/// Directory holding the snapshot cache.
pub const IMG_DIR: &'static str = "./img";
/// Directory holding the finished animations.
pub const GIF_DIR: &'static str = "./gif";
/// Pattern of a cache directory name: the date.
pub const DIR_NAME: &'static str = "%Y%m%d";
/// Pattern of a cache file name: hour and minute.
pub const FILE_NAME: &'static str = "%H%M";
/// Pattern of a full snapshot name: date, hour and minute.
pub const IMAGE_NAME: &'static str = "%Y%m%d%H%M";

/// Snapshots are published every five minutes.
pub const STEP_MINUTES: i64 = 5;
/// The first minute of year 0, counted from 1970-01-01 00:00.
pub const MIN_MINUTES: i64 = -1036120320;
/// The first minute of year 10000, counted from 1970-01-01 00:00.
pub const END_MINUTES: i64 = 4223371680;

/// A timestamp (minutes since 1970-01-01 00:00, wall clock) that names a
/// snapshot: on the five-minute grid, with a four-digit year.
pub open spec fn valid_stamp(m: int) -> bool {
    MIN_MINUTES <= m < END_MINUTES && m % 5 == 0
}

/// The patterns that snapshot names are written with.
pub open spec fn stamp_pattern(f: Seq<char>) -> bool {
    f == DIR_NAME@ || f == FILE_NAME@ || f == IMAGE_NAME@
}

/// The text that `pattern` gives for the instant `secs` seconds after
/// 1970-01-01 00:00.
pub uninterp spec fn stamp_text(secs: int, pattern: Seq<char>) -> Seq<char>;

/// The seconds since 1970-01-01 00:00 that `pattern` reads from `s`, if it
/// reads any.
pub uninterp spec fn parsed_stamp(s: Seq<char>, pattern: Seq<char>) -> Option<int>;

/// Relies on chrono's `DateTime::from_timestamp` and `NaiveDateTime::format`:
/// the text depends on the instant and the pattern alone. The instant lies
/// in chrono's range of dates, and the pattern holds only valid specifiers.
#[verifier::external_body]
fn format_stamp(secs: i64, pattern: &str) -> (r: String)
    requires
        MIN_MINUTES * 60 <= secs < END_MINUTES * 60,
        stamp_pattern(pattern@),
    ensures
        r@ == stamp_text(secs as int, pattern@),
{
    chrono::DateTime::from_timestamp(secs, 0).expect("instant in range").naive_utc().format(
        pattern,
    ).to_string()
}

/// Relies on chrono's `NaiveDateTime::parse_from_str`, read back as seconds
/// since 1970-01-01 00:00: the result depends on the text and the pattern
/// alone.
#[verifier::external_body]
fn parse_stamp(s: &str, pattern: &str) -> (r: Option<i64>)
    ensures
        match r {
            Some(v) => parsed_stamp(s@, pattern@) == Some(v as int),
            None => parsed_stamp(s@, pattern@) == None::<int>,
        },
{
    chrono::NaiveDateTime::parse_from_str(s, pattern).ok().map(|d| d.and_utc().timestamp())
}

/// One time slot of the radar source. Two descriptors are equal exactly when
/// their timestamps are.
#[derive(Debug, Clone, Copy, PartialEq, Eq, Structural)]
pub struct ImageMeta {
    /// Minutes since 1970-01-01 00:00, wall clock.
    pub minutes: i64,
}

/// What the full snapshot pattern reads from `s`, as a descriptor's minutes,
/// when that is a valid timestamp.
pub open spec fn stamp_of_text(s: Seq<char>) -> Option<int> {
    match parsed_stamp(s, IMAGE_NAME@) {
        Some(v) => if v % 60 == 0 && valid_stamp(v / 60) {
            Some(v / 60)
        } else {
            None
        },
        None => None,
    }
}

/// `prefix + a + mid + b + suffix` as one string.
fn join5(prefix: &str, a: &str, mid: &str, b: &str, suffix: &str) -> (r: String)
    ensures
        r@ == prefix@ + a@ + mid@ + b@ + suffix@,
{
    let mut s = String::from_str(prefix);
    s.append(a);
    s.append(mid);
    s.append(b);
    s.append(suffix);
    s
}

impl ImageMeta {
    pub open spec fn wf(&self) -> bool {
        valid_stamp(self.minutes as int)
    }

    /// Seconds since 1970-01-01 00:00.
    pub open spec fn secs(&self) -> int {
        self.minutes as int * 60
    }

    pub open spec fn spec_file_name(&self) -> Seq<char> {
        stamp_text(self.secs(), FILE_NAME@)
    }

    pub open spec fn spec_dir_name(&self) -> Seq<char> {
        stamp_text(self.secs(), DIR_NAME@)
    }

    pub open spec fn spec_image_name(&self) -> Seq<char> {
        stamp_text(self.secs(), IMAGE_NAME@)
    }

    /// `<cache-root>/<date>/<time>.png`
    pub open spec fn spec_image_path(&self) -> Seq<char> {
        IMG_DIR@ + "/"@ + self.spec_dir_name() + "/"@ + self.spec_file_name() + ".png"@
    }

    pub open spec fn spec_url_name(&self) -> Seq<char> {
        URL_PREFIX@ + self.spec_image_name() + URL_SUFFIX@
    }

    /// Reads a snapshot name written with the full pattern (`YYYYMMDDHHMM`).
    pub fn build_from_str(url: &str) -> (r: Result<ImageMeta, RainError>)
        ensures
            match stamp_of_text(url@) {
                Some(m) => r == Ok::<ImageMeta, RainError>(ImageMeta { minutes: m as i64 }),
                None => r == Err::<ImageMeta, RainError>(RainError::DescriptorParse),
            },
            r matches Ok(meta) ==> meta.wf(),
    {
        match parse_stamp(url, IMAGE_NAME) {
            Some(secs) => {
                let rem = secs.checked_rem_euclid(60);
                let q = secs.checked_div_euclid(60);
                match (rem, q) {
                    (Some(0), Some(m)) => ImageMeta::build_from_datetime(m),
                    _ => Err(RainError::DescriptorParse),
                }
            },
            None => Err(RainError::DescriptorParse),
        }
    }

    /// A descriptor for the slot `datetime` (minutes since 1970-01-01
    /// 00:00); refused when it is off the five-minute grid or out of range.
    pub fn build_from_datetime(datetime: i64) -> (r: Result<ImageMeta, RainError>)
        ensures
            valid_stamp(datetime as int) ==> r == Ok::<ImageMeta, RainError>(
                ImageMeta { minutes: datetime },
            ),
            !valid_stamp(datetime as int) ==> r == Err::<ImageMeta, RainError>(
                RainError::DescriptorParse,
            ),
    {
        if MIN_MINUTES <= datetime && datetime < END_MINUTES && datetime % STEP_MINUTES == 0 {
            Ok(ImageMeta { minutes: datetime })
        } else {
            Err(RainError::DescriptorParse)
        }
    }

    /// Cache file name: hour and minute.
    pub fn file_name(&self) -> (r: String)
        requires
            self.wf(),
        ensures
            r@ == self.spec_file_name(),
    {
        format_stamp(self.minutes * 60, FILE_NAME)
    }

    /// Cache directory name: the date.
    pub fn dir_name(&self) -> (r: String)
        requires
            self.wf(),
        ensures
            r@ == self.spec_dir_name(),
    {
        format_stamp(self.minutes * 60, DIR_NAME)
    }

    /// Full snapshot name: date, hour and minute.
    pub fn image_name(&self) -> (r: String)
        requires
            self.wf(),
        ensures
            r@ == self.spec_image_name(),
    {
        format_stamp(self.minutes * 60, IMAGE_NAME)
    }

    /// Where the snapshot is cached.
    pub fn image_path(&self) -> (r: String)
        requires
            self.wf(),
        ensures
            r@ == self.spec_image_path(),
    {
        let dir = self.dir_name();
        let file = self.file_name();
        join5(IMG_DIR, "/", dir.as_str(), "/", file.as_str()).concat(".png")
    }

    /// Where the snapshot is fetched from.
    pub fn url_name(&self) -> (r: String)
        requires
            self.wf(),
        ensures
            r@ == self.spec_url_name(),
    {
        let name = self.image_name();
        let mut url = String::from_str(URL_PREFIX);
        url.append(name.as_str());
        url.append(URL_SUFFIX);
        url
    }
}

/// The remote source's address, before the snapshot name.
pub const URL_PREFIX: &'static str = "http://www.weather.gov.sg/files/rainarea/50km/v2/dpsri_70km_";
/// The remote source's address, after the snapshot name.
pub const URL_SUFFIX: &'static str = "0000dBR.dpsri.png";

} // verus!
