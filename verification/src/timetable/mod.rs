//! Timetable records as the service delivers them: lessons, the bell schedule
//! and the people and rooms a lesson refers to.

use vstd::prelude::*;
use vstd::string::StringExecFns;
use crate::text::{decimal, i32_to_string, same_text, signed_decimal, u64_to_string};

pub mod laws;
pub mod processing;

verus! {

/// Seconds in one day; timestamps split into a day and a time of day by it.
pub const SECONDS_PER_DAY: u64 = 86400;

/// Whether a bell-schedule entry is a lesson hour or a break.
#[derive(Debug, Clone, Copy, Hash, PartialEq, Eq, Structural, PartialOrd, Ord)]
pub enum TimeKind {
    BREAK,
    LESSON,
}

impl TimeKind {
    /// The name under which the service transmits this kind.
    pub open spec fn label(self) -> Seq<char> {
        match self {
            TimeKind::BREAK => "BREAK"@,
            TimeKind::LESSON => "LESSON"@,
        }
    }

    /// The kind that a transmitted name stands for, if it stands for one.
    pub open spec fn parse(name: Seq<char>) -> Option<TimeKind> {
        if name == "BREAK"@ {
            Some(TimeKind::BREAK)
        } else if name == "LESSON"@ {
            Some(TimeKind::LESSON)
        } else {
            None
        }
    }

    /// The name under which the service transmits this kind.
    pub fn name(&self) -> (name: &'static str)
        ensures
            name@ == self.label(),
    {
        match self {
            TimeKind::BREAK => "BREAK",
            TimeKind::LESSON => "LESSON",
        }
    }

    /// Reads a transmitted name; `None` for anything but `BREAK` and `LESSON`.
    pub fn from_name(name: &str) -> (kind: Option<TimeKind>)
        ensures
            kind == TimeKind::parse(name@),
    {
        if same_text(name, "BREAK") {
            Some(TimeKind::BREAK)
        } else if same_text(name, "LESSON") {
            Some(TimeKind::LESSON)
        } else {
            None
        }
    }

    /// Every kind is read back from its own name.
    pub proof fn lemma_name_round_trip(kind: TimeKind)
        ensures
            TimeKind::parse(kind.label()) == Some(kind),
    {
        reveal_strlit("BREAK");
        reveal_strlit("LESSON");
        assert("BREAK"@.len() != "LESSON"@.len());
    }
}

/// How a lesson deviates from the regular plan.
#[derive(Debug, Clone, Copy, Hash, PartialEq, Eq, Structural, PartialOrd, Ord)]
pub enum LessonKind {
    NORMAL,
    SUBSTITUTION,
    CANCLED,
    ADDITIONAL,
}

impl LessonKind {
    /// The name under which the service transmits this kind; a regular
    /// lesson is transmitted without one.
    pub open spec fn label(self) -> Option<Seq<char>> {
        match self {
            LessonKind::NORMAL => None,
            LessonKind::SUBSTITUTION => Some("SUBSTITUTION"@),
            LessonKind::CANCLED => Some("CANCLED"@),
            LessonKind::ADDITIONAL => Some("ADDITIONAL"@),
        }
    }

    /// The kind that a transmitted name, or its absence, stands for.
    pub open spec fn parse(name: Option<Seq<char>>) -> Option<LessonKind> {
        match name {
            None => Some(LessonKind::NORMAL),
            Some(text) => if text == "SUBSTITUTION"@ {
                Some(LessonKind::SUBSTITUTION)
            } else if text == "CANCLED"@ {
                Some(LessonKind::CANCLED)
            } else if text == "ADDITIONAL"@ {
                Some(LessonKind::ADDITIONAL)
            } else {
                None
            },
        }
    }

    /// The name under which the service transmits this kind, if it has one.
    pub fn name(&self) -> (name: Option<&'static str>)
        ensures
            name is Some == self.label() is Some,
            name matches Some(text) ==> text@ == self.label()->0,
    {
        match self {
            LessonKind::NORMAL => None,
            LessonKind::SUBSTITUTION => Some("SUBSTITUTION"),
            LessonKind::CANCLED => Some("CANCLED"),
            LessonKind::ADDITIONAL => Some("ADDITIONAL"),
        }
    }

    /// Reads a transmitted name: no name is a regular lesson, an unknown
    /// name is rejected.
    pub fn from_name(name: Option<&str>) -> (kind: Option<LessonKind>)
        ensures
            kind == LessonKind::parse(
                match name {
                    Some(text) => Some(text@),
                    None => None,
                },
            ),
    {
        match name {
            None => Some(LessonKind::NORMAL),
            Some(text) => {
                if same_text(text, "SUBSTITUTION") {
                    Some(LessonKind::SUBSTITUTION)
                } else if same_text(text, "CANCLED") {
                    Some(LessonKind::CANCLED)
                } else if same_text(text, "ADDITIONAL") {
                    Some(LessonKind::ADDITIONAL)
                } else {
                    None
                }
            },
        }
    }

    /// Every kind is read back from its own name.
    pub proof fn lemma_name_round_trip(kind: LessonKind)
        ensures
            LessonKind::parse(kind.label()) == Some(kind),
    {
        reveal_strlit("SUBSTITUTION");
        reveal_strlit("CANCLED");
        reveal_strlit("ADDITIONAL");
        assert("SUBSTITUTION"@.len() != "CANCLED"@.len());
        assert("SUBSTITUTION"@.len() != "ADDITIONAL"@.len());
        assert("CANCLED"@.len() != "ADDITIONAL"@.len());
    }
}

/// Display names of a bell-schedule entry.
#[derive(Debug, Hash, Eq, PartialEq, PartialOrd, Ord)]
pub struct TimeMeta {
    pub displayname: String,
}

impl Clone for TimeMeta {
    fn clone(&self) -> (copy: Self)
        ensures
            copy == *self,
    {
        TimeMeta { displayname: self.displayname.clone() }
    }
}

/// One entry of the school's bell schedule: a named slot of the day.
///
/// `begins_at` and `ends_at` are timestamps in seconds; only their time of
/// day matters, since the schedule is the same every day.
#[derive(Debug, Hash, Eq, PartialEq, PartialOrd, Ord)]
pub struct Time {
    pub begins_at: u64,
    pub description: Option<String>,
    pub ends_at: u64,
    pub hour: u8,
    pub id: u64,
    pub is_hidden: bool,
    pub meta: TimeMeta,
    pub name: String,
    pub kind: TimeKind,
}

impl Clone for Time {
    fn clone(&self) -> (copy: Self)
        ensures
            copy == *self,
    {
        Time {
            begins_at: self.begins_at,
            description: match &self.description {
                Some(text) => Some(text.clone()),
                None => None,
            },
            ends_at: self.ends_at,
            hour: self.hour,
            id: self.id,
            is_hidden: self.is_hidden,
            meta: self.meta.clone(),
            name: self.name.clone(),
            kind: self.kind,
        }
    }
}

impl Time {
    /// Seconds after midnight at which the slot begins.
    pub open spec fn offset(self) -> u64 {
        (self.begins_at % SECONDS_PER_DAY) as u64
    }

    /// Seconds after midnight at which the slot begins.
    pub fn start_offset(&self) -> (offset: u64)
        ensures
            offset == self.offset(),
    {
        self.begins_at % SECONDS_PER_DAY
    }
}

/// A calendar date, as the timetable query takes it.
#[derive(Debug, Clone, Copy, Hash, Eq, PartialEq, Structural, PartialOrd, Ord)]
pub struct Date {
    pub day: u8,
    pub month: u8,
    pub year: i32,
}

impl Date {
    /// The date of the given day, month and year.
    pub fn new(day: u8, month: u8, year: i32) -> (date: Self)
        ensures
            date == (Date { day, month, year }),
    {
        Date { day, month, year }
    }

    /// The date as a query writes it: year, month and day in decimal
    /// digits, without padding, with hyphens between them.
    pub open spec fn text(self) -> Seq<char> {
        signed_decimal(self.year as int) + "-"@ + decimal(self.month as nat) + "-"@ + decimal(
            self.day as nat,
        )
    }

    /// Writes the date as a query takes it.
    pub fn to_query(&self) -> (text: String)
        ensures
            text@ == self.text(),
    {
        let mut text = i32_to_string(self.year);
        text.append("-");
        text.append(u64_to_string(self.month as u64).as_str());
        text.append("-");
        text.append(u64_to_string(self.day as u64).as_str());
        text
    }
}

/// Address under which the bell schedule is fetched.
pub const TIMES_URL: &'static str = "https://api.sdui.app/v1/timetables/times";

/// Address of a user's timetable from `begin` to `end`.
pub open spec fn timetable_address(user_id: Seq<char>, begin: Date, end: Date) -> Seq<char> {
    "https://api.sdui.app/v1/timetables/users/"@ + user_id + "/timetable?begins_at="@
        + begin.text() + "&ends_at="@ + end.text()
}

/// Address under which a user's timetable from `begin` to `end` is fetched.
pub fn timetable_url(user_id: &str, begin: &Date, end: &Date) -> (url: String)
    ensures
        url@ == timetable_address(user_id@, *begin, *end),
{
    let mut url = "https://api.sdui.app/v1/timetables/users/".to_owned();
    url.append(user_id);
    url.append("/timetable?begins_at=");
    url.append(begin.to_query().as_str());
    url.append("&ends_at=");
    url.append(end.to_query().as_str());
    url
}

/// The lessons of one user over a range of dates, in the order received.
#[derive(Debug, Clone, Hash, Eq, PartialEq, PartialOrd, Ord)]
pub struct TimeTable {
    pub lessons: Vec<Lesson>,
    pub last_updated_at: String,
}

/// A scheduled teaching unit.
///
/// `begins_at` and `ends_at` are absolute timestamps in seconds. What a
/// lesson refers to (course, teachers, rooms, classes) is carried along
/// unchanged.
#[derive(Debug, Clone, Hash, Eq, PartialEq, PartialOrd, Ord)]
pub struct Lesson {
    pub bookables: Vec<Bookable>,
    pub grades: Vec<Grade>,
    pub teachers: Vec<Teacher>,
    pub id: u64,
    pub begins_at: u64,
    pub ends_at: u64,
    pub comment: String,
    pub course: Course,
    pub meta: LessonMeta,
    pub kind: LessonKind,
}

impl Lesson {
    /// The day on which the lesson begins, counted from the epoch.
    pub open spec fn day(self) -> u64 {
        (self.begins_at / SECONDS_PER_DAY) as u64
    }

    /// Seconds after midnight at which the lesson begins.
    pub open spec fn time_of_day(self) -> u64 {
        (self.begins_at % SECONDS_PER_DAY) as u64
    }

    /// Whether the lesson ends after it begins.
    pub open spec fn well_formed(self) -> bool {
        self.begins_at < self.ends_at
    }

    /// The day on which the lesson begins, counted from the epoch.
    pub fn day_key(&self) -> (day: u64)
        ensures
            day == self.day(),
    {
        self.begins_at / SECONDS_PER_DAY
    }

    /// Seconds after midnight at which the lesson begins.
    pub fn time_of_day_key(&self) -> (time: u64)
        ensures
            time == self.time_of_day(),
            time < SECONDS_PER_DAY,
    {
        self.begins_at % SECONDS_PER_DAY
    }

    /// Whether the lesson ends after it begins.
    pub fn is_well_formed(&self) -> (valid: bool)
        ensures
            valid == self.well_formed(),
    {
        self.begins_at < self.ends_at
    }
}

/// A teacher of a lesson.
#[derive(Debug, Clone, Hash, Eq, PartialEq, PartialOrd, Ord)]
pub struct Teacher {
    pub id: u64,
    pub name: String,
    pub shortcut: String,
}

/// A class that takes part in a lesson.
#[derive(Debug, Clone, Hash, Eq, PartialEq, PartialOrd, Ord)]
pub struct Grade {
    pub id: u64,
    pub name: String,
    pub shortcut: String,
}

/// A room or another resource booked for a lesson.
#[derive(Debug, Clone, Hash, Eq, PartialEq, PartialOrd, Ord)]
pub struct Bookable {
    pub id: u64,
    pub name: String,
    pub shortcut: String,
}

/// The course that a lesson belongs to.
#[derive(Debug, Clone, Hash, Eq, PartialEq, PartialOrd, Ord)]
pub struct Course {
    pub meta: CourseMeta,
    pub subject: Subject,
    pub id: u64,
    pub name: String,
    pub description: Option<String>,
    pub subject_id: u64,
}

/// Display names of a course.
#[derive(Debug, Clone, Hash, Eq, PartialEq, PartialOrd, Ord)]
pub struct CourseMeta {
    pub displayname: String,
    pub shortname: String,
    pub color: String,
    pub name: String,
    pub description: String,
}

/// Display names of a lesson; `displayname_hour` is the label of its period.
#[derive(Debug, Clone, Hash, Eq, PartialEq, PartialOrd, Ord)]
pub struct LessonMeta {
    pub displayname_hour: String,
    pub moved_comment: String,
    pub displayname: String,
    pub shortname: String,
    pub displayname_kind: String,
}

/// The subject of a course.
#[derive(Debug, Clone, Hash, Eq, PartialEq, PartialOrd, Ord)]
pub struct Subject {
    pub color: String,
    pub meta: SubjectMeta,
    pub id: u64,
    pub shortcut: String,
    pub name: String,
}

/// Display name of a subject.
#[derive(Debug, Clone, Hash, Eq, PartialEq, PartialOrd, Ord)]
pub struct SubjectMeta {
    pub displayname: String,
}

} // verus!
