use vstd::prelude::*;

verus! {

/// The fixed pattern of a timestamp on the wire: `YYYY-MM-DD HH:MM:SS ±ZZZZ`.
pub const STAMP_FORMAT: &'static str = "%Y-%m-%d %H:%M:%S %z";

/// The first instant that a chrono `DateTime` can hold: -262143-01-01 00:00:00 UTC,
/// in seconds since the Unix epoch.
pub const MIN_SECS: i64 = -8334601228800;

/// The last whole second that a chrono `DateTime` can hold: 262142-12-31 23:59:59
/// UTC, in seconds since the Unix epoch.
pub const MAX_SECS: i64 = 8210266876799;

/// What parsing `s` in the fixed pattern gives: the instant and the offset east of UTC.
pub uninterp spec fn parsed_stamp(s: Seq<char>) -> Option<(i64, i32)>;

/// The text of an instant rendered in the fixed pattern at a given offset.
pub uninterp spec fn rendered_stamp(secs: int, offset: int) -> Seq<char>;

/// An offset east of UTC, in seconds, that a time zone can have.
pub open spec fn offset_ok(offset: int) -> bool {
    -86400 < offset < 86400
}

/// An instant that a chrono `DateTime` can hold.
pub open spec fn instant_ok(secs: int) -> bool {
    MIN_SECS <= secs <= MAX_SECS
}

/// Relies on `chrono::DateTime::parse_from_str` and `DateTime::timestamp`: the parse
/// depends on the text alone, a `FixedOffset` always lies strictly within one day of
/// UTC, and the UTC time of a parsed `DateTime` lies between `NaiveDate::MIN` and
/// `NaiveDate::MAX` (`Parsed::to_datetime` fails otherwise).
#[verifier::external_body]
fn chrono_parse(text: &str, fmt: &str) -> (r: Option<(i64, i32)>)
    requires
        fmt@ == STAMP_FORMAT@,
    ensures
        r == parsed_stamp(text@),
        r matches Some(p) ==> offset_ok(p.1 as int) && instant_ok(p.0 as int),
{
    match chrono::DateTime::parse_from_str(text, fmt) {
        Ok(d) => Some((d.timestamp(), d.offset().local_minus_utc())),
        Err(_) => None,
    }
}

/// Relies on `chrono::DateTime::from_timestamp`, `FixedOffset::east_opt` and
/// `DateTime::format`: the text depends on the instant and the offset alone. Both
/// `unwrap`s succeed on the instants and offsets admitted here, and formatting takes
/// a local time past `NaiveDate::MAX` by the offset without failing.
#[verifier::external_body]
fn chrono_render(secs: i64, offset: i32, fmt: &str) -> (r: String)
    requires
        fmt@ == STAMP_FORMAT@,
        instant_ok(secs as int),
        offset_ok(offset as int),
    ensures
        r@ == rendered_stamp(secs as int, offset as int),
{
    let tz = chrono::FixedOffset::east_opt(offset).unwrap();
    chrono::DateTime::from_timestamp(secs, 0).unwrap().with_timezone(&tz).format(fmt).to_string()
}

/// Relies on `chrono::DateTime::with_timezone` to `chrono::Local`: the offset that the
/// machine's time zone has at the instant. It depends on the machine, so only the
/// range of a `FixedOffset` is known of it. Where the zone data cannot be read, chrono
/// falls back to UTC; it panics only where a zone it did read has no entry for the
/// instant or an offset of a day or more.
#[verifier::external_body]
fn chrono_local_offset(secs: i64) -> (r: i32)
    requires
        instant_ok(secs as int),
    ensures
        offset_ok(r as int),
{
    chrono::DateTime::from_timestamp(secs, 0).unwrap().with_timezone(&chrono::Local).offset().local_minus_utc()
}

/// Relies on `chrono`'s `From<SystemTime> for DateTime<Utc>` and `DateTime::timestamp`:
/// the current instant, which like every `DateTime` lies between `NaiveDate::MIN` and
/// `NaiveDate::MAX`. It also covers a clock set before 1970.
#[verifier::external_body]
fn chrono_now() -> (r: i64)
    ensures
        instant_ok(r as int),
{
    chrono::DateTime::<chrono::Utc>::from(std::time::SystemTime::now()).timestamp()
}

/// Why a timestamp text was refused.
#[derive(Debug, Clone, Copy, PartialEq, Eq, Structural)]
pub enum StampError {
    /// The text does not follow the fixed pattern.
    Malformed,
}

/// An instant, in seconds since the Unix epoch, seen at an offset east of UTC.
#[derive(Debug, Clone, Copy, PartialEq, Eq, Structural)]
pub struct Stamp {
    pub secs: i64,
    pub offset: i32,
}

impl Stamp {
    /// The instant is one that chrono can hold, and the offset lies within a day.
    pub open spec fn wf(self) -> bool {
        instant_ok(self.secs as int) && offset_ok(self.offset as int)
    }

    /// The same instant, seen at another offset.
    pub open spec fn at_offset(self, offset: i32) -> Stamp {
        Stamp { secs: self.secs, offset }
    }

    /// The text of this timestamp in the fixed pattern.
    pub open spec fn text(self) -> Seq<char> {
        rendered_stamp(self.secs as int, self.offset as int)
    }

    /// What parsing `s` gives: the stamp, or why it was refused.
    pub open spec fn parse_spec(s: Seq<char>) -> Result<Stamp, StampError> {
        match parsed_stamp(s) {
            None => Err(StampError::Malformed),
            Some(p) => Ok(Stamp { secs: p.0, offset: p.1 }),
        }
    }

    /// A stamp of the instant `secs` at `offset`, where both are in range.
    pub fn new(secs: i64, offset: i32) -> (r: Option<Stamp>)
        ensures
            r matches Some(st) <==> (instant_ok(secs as int) && offset_ok(offset as int)),
            r matches Some(st) ==> st == (Stamp { secs, offset }),
    {
        if MIN_SECS <= secs && secs <= MAX_SECS && -86400 < offset && offset < 86400 {
            Some(Stamp { secs, offset })
        } else {
            None
        }
    }

    /// Reads a timestamp written in the fixed pattern.
    pub fn parse(text: &str) -> (r: Result<Stamp, StampError>)
        ensures
            r == Stamp::parse_spec(text@),
            r matches Ok(st) ==> st.wf(),
    {
        match chrono_parse(text, STAMP_FORMAT) {
            None => Err(StampError::Malformed),
            Some(p) => Ok(Stamp { secs: p.0, offset: p.1 }),
        }
    }

    /// Writes this timestamp in the fixed pattern.
    pub fn render(&self) -> (r: String)
        requires
            self.wf(),
        ensures
            r@ == self.text(),
    {
        chrono_render(self.secs, self.offset, STAMP_FORMAT)
    }

    /// The same instant, seen at `offset`.
    pub fn with_offset(&self, offset: i32) -> (r: Stamp)
        requires
            self.wf(),
            offset_ok(offset as int),
        ensures
            r == self.at_offset(offset),
            r.wf(),
    {
        Stamp { secs: self.secs, offset }
    }

    /// The same instant, seen at the offset that the local time zone has then.
    pub fn to_local(&self) -> (r: Stamp)
        requires
            self.wf(),
        ensures
            r.secs == self.secs,
            r.wf(),
    {
        let offset = chrono_local_offset(self.secs);
        self.with_offset(offset)
    }

    /// The instant `secs`, read from a clock, at the offset that the local time zone
    /// has then; `None` where chrono cannot hold that instant.
    pub fn local_at(secs: i64) -> (r: Option<Stamp>)
        ensures
            r is Some <==> instant_ok(secs as int),
            r matches Some(st) ==> st.secs == secs && st.wf(),
    {
        if MIN_SECS <= secs && secs <= MAX_SECS {
            let offset = chrono_local_offset(secs);
            Some(Stamp { secs, offset })
        } else {
            None
        }
    }

    /// The current instant at the local offset.
    pub fn now_local() -> (r: Stamp)
        ensures
            r.wf(),
    {
        Stamp::local_at(chrono_now()).unwrap()
    }
}

/// Moving a stamp to another offset keeps its instant, and the text it renders to
/// is the text of that same instant at the new offset.
pub proof fn lemma_offset_change_keeps_instant(st: Stamp, offset: i32)
    requires
        st.wf(),
        offset_ok(offset as int),
    ensures
        st.at_offset(offset).secs == st.secs,
        st.at_offset(offset).wf(),
        st.at_offset(offset).text() == rendered_stamp(st.secs as int, offset as int),
        st.at_offset(offset).at_offset(st.offset) == st,
{
}

} // verus!
