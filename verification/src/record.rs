//! Current-conditions reports from the weather API and the header of the
//! record written for each: its id, time stamp, report time, day flag,
//! condition code and wind direction.

use crate::compass::{Compass16, ascii_fold, is_compass_text, unrecognized_direction_message};
use crate::error::RecordError;
use vstd::prelude::*;

verus! {

/// `std::time::SystemTime`, carried opaquely.
#[verifier::external_type_specification]
#[verifier::external_body]
pub struct ExSystemTime(std::time::SystemTime);

/// Calls `std::time::SystemTime::now`. Nothing is claimed: it reads the clock.
#[verifier::external_body]
fn system_now() -> std::time::SystemTime {
    std::time::SystemTime::now()
}

/// A lower-case hexadecimal digit.
pub open spec fn is_lower_hex(c: char) -> bool {
    (48 <= (c as u32) && (c as u32) <= 57) || (97 <= (c as u32) && (c as u32) <= 102)
}

/// The text of a random (version 4) UUID: 36 characters, hyphens at 8, 13, 18
/// and 23, lower-case hex digits elsewhere, version digit `4` and a variant
/// digit among `8`, `9`, `a`, `b`.
pub open spec fn is_v4_uuid_text(s: Seq<char>) -> bool {
    &&& s.len() == 36
    &&& forall|i: int|
        0 <= i < 36 ==> if i == 8 || i == 13 || i == 18 || i == 23 {
            #[trigger] s[i] == '-'
        } else {
            is_lower_hex(s[i])
        }
    &&& s[14] == '4'
    &&& (s[19] == '8' || s[19] == '9' || s[19] == 'a' || s[19] == 'b')
}

/// Calls `uuid::Uuid::new_v4` and renders it with `to_string`. The value is
/// random; claimed is only the shape of its text, which uuid's version mask and
/// hyphenated lower-case formatting give. uuid panics if the system's random
/// source fails.
#[verifier::external_body]
fn new_record_id() -> (id: String)
    ensures
        is_v4_uuid_text(id@),
{
    uuid::Uuid::new_v4().to_string()
}

/// The weather condition of a current report.
pub struct CurrentCondition {
    pub text: String,
    pub icon: String,
    pub code: i32,
}

/// The weather condition of a forecast day.
pub struct DayCondition {
    pub text: String,
}

/// The parts of a current-conditions report that are not measurements.
pub struct CurrentReport {
    /// Local time when the real time data was updated in unix time.
    pub last_updated_epoch: i32,
    /// Local time when the real time data was updated.
    pub last_updated: String,
    /// 1 = Yes 0 = No; whether to show day condition icon or night icon
    pub is_day: i32,
    pub condition: Option<CurrentCondition>,
    pub wind_dir: String,
}

/// The parts of a current-weather record that are not measurements.
pub struct CurrentWeatherHeader {
    /// ID of the record
    pub id: String,
    /// When the record was made
    pub time: std::time::SystemTime,
    /// Last updated epoch
    pub last_updated_epoch: i32,
    /// Last updated
    pub last_updated: String,
    /// Indicates whether it's a day or a night
    pub is_day: i32,
    /// Unique id of current weather condition
    pub condition_id: Option<i32>,
    /// 16 point compass value
    pub wind_dir: Compass16,
}

/// The condition code of a report, if it has a condition.
pub open spec fn condition_code(c: Option<CurrentCondition>) -> Option<i32> {
    match c {
        Some(c) => Some(c.code),
        None => None,
    }
}

impl CurrentWeatherHeader {
    /// The header carries the report's time, day flag and condition code, and
    /// the direction its wind text names.
    pub open spec fn describes(self, report: CurrentReport) -> bool {
        &&& self.last_updated_epoch == report.last_updated_epoch
        &&& self.last_updated@ == report.last_updated@
        &&& self.is_day == report.is_day
        &&& self.condition_id == condition_code(report.condition)
        &&& self.wind_dir.lower_name() == ascii_fold(report.wind_dir@)
    }

    /// The header of a report, with the given id and time stamp. Fails exactly
    /// when the report's wind direction is not a compass direction.
    pub fn from_parts(report: CurrentReport, id: String, time: std::time::SystemTime) -> (res:
        Result<CurrentWeatherHeader, RecordError>)
        ensures
            res is Ok <==> is_compass_text(report.wind_dir@),
            res matches Ok(h) ==> h.describes(report) && h.id@ == id@ && h.time == time,
            res matches Ok(h) ==> h.is_day == report.is_day && h.last_updated_epoch
                == report.last_updated_epoch && h.last_updated@ == report.last_updated@,
            res matches Ok(h) ==> (match report.condition {
                Some(c) => h.condition_id == Some(c.code),
                None => h.condition_id is None,
            }),
            res matches Err(e) ==> (e matches RecordError::CompassError(m) && m@
                == unrecognized_direction_message(report.wind_dir@)),
    {
        let wind_dir = Compass16::from_string_ref(report.wind_dir.as_str())?;
        let h = CurrentWeatherHeader::assemble(report, wind_dir, id, time);
        proof {
            lemma_header_copies_report(h, report);
        }
        Ok(h)
    }

    /// The header of a report, with a fresh random id and the current time.
    /// Fails exactly when the report's wind direction is not a compass
    /// direction; only then are no id and no time taken.
    pub fn stamp(report: CurrentReport) -> (res: Result<CurrentWeatherHeader, RecordError>)
        ensures
            res is Ok <==> is_compass_text(report.wind_dir@),
            res matches Ok(h) ==> h.describes(report) && is_v4_uuid_text(h.id@),
            res matches Ok(h) ==> h.is_day == report.is_day && h.last_updated_epoch
                == report.last_updated_epoch && h.last_updated@ == report.last_updated@,
            res matches Ok(h) ==> (match report.condition {
                Some(c) => h.condition_id == Some(c.code),
                None => h.condition_id is None,
            }),
            res matches Err(e) ==> (e matches RecordError::CompassError(m) && m@
                == unrecognized_direction_message(report.wind_dir@)),
    {
        let wind_dir = Compass16::from_string_ref(report.wind_dir.as_str())?;
        let id = new_record_id();
        let time = system_now();
        let h = CurrentWeatherHeader::assemble(report, wind_dir, id, time);
        proof {
            lemma_header_copies_report(h, report);
        }
        Ok(h)
    }

    fn assemble(
        report: CurrentReport,
        wind_dir: Compass16,
        id: String,
        time: std::time::SystemTime,
    ) -> (h: CurrentWeatherHeader)
        requires
            wind_dir.lower_name() == ascii_fold(report.wind_dir@),
        ensures
            h.describes(report),
            h.id@ == id@,
            h.time == time,
    {
        let condition_id = match &report.condition {
            Some(c) => Some(c.code),
            None => None,
        };
        CurrentWeatherHeader {
            id,
            time,
            last_updated_epoch: report.last_updated_epoch,
            last_updated: report.last_updated,
            is_day: report.is_day,
            condition_id,
            wind_dir,
        }
    }
}

/// A header that describes a report carries the report's own update time, day
/// flag (1 for day, 0 for night, as the report has it) and condition code (none
/// when the report has no condition), and a wind direction whose name is the
/// report's wind text up to letter case.
pub proof fn lemma_header_copies_report(h: CurrentWeatherHeader, report: CurrentReport)
    requires
        h.describes(report),
    ensures
        h.is_day == report.is_day,
        h.last_updated_epoch == report.last_updated_epoch,
        h.last_updated@ == report.last_updated@,
        match report.condition {
            Some(c) => h.condition_id == Some(c.code),
            None => h.condition_id is None,
        },
        ascii_fold(report.wind_dir@) == h.wind_dir.lower_name(),
{
}

} // verus!
