//! Restructures a flat list of lessons into days and periods.

use vstd::prelude::*;
use std::collections::HashMap;
use crate::grouping::{group_by_key, has_group, has_key, is_grouping, values_with_key};
use crate::prelude::{RateLimit, SduiError, SduiResult};
use crate::timetable::{Lesson, Time, TimeTable};

verus! {

/// The lessons of one period on one day.
///
/// `period` is the entry of the bell schedule that begins at `time_of_day`;
/// it is `None` where the schedule has no such entry, so that the lessons
/// are kept under their bare time of day.
#[derive(Debug, Clone, PartialEq, Eq)]
pub struct PeriodLessons {
    pub time_of_day: u64,
    pub period: Option<Time>,
    pub lessons: Vec<Lesson>,
}

/// The lessons of one day, period by period.
#[derive(Debug, Clone, PartialEq, Eq)]
pub struct Day {
    pub day: u64,
    pub times: Vec<PeriodLessons>,
}

/// A timetable arranged by day and, within each day, by period.
#[derive(Debug, Clone, PartialEq, Eq)]
pub struct ProcessedTimeTable {
    pub days: Vec<Day>,
}

/// Position in the bell schedule of the entry that stands for a time of
/// day: the last entry that begins then, so that of two entries with one
/// beginning the later one counts.
pub open spec fn period_index(periods: Seq<Time>, time_of_day: u64) -> Option<int>
    decreases periods.len(),
{
    if periods.len() == 0 {
        None
    } else if periods.last().offset() == time_of_day {
        Some(periods.len() - 1)
    } else {
        period_index(periods.drop_last(), time_of_day)
    }
}

/// The entry of the bell schedule that stands for a time of day, if any
/// begins then.
pub open spec fn period_at(periods: Seq<Time>, time_of_day: u64) -> Option<Time> {
    match period_index(periods, time_of_day) {
        Some(index) => Some(periods[index]),
        None => None,
    }
}

/// The predicate "this lesson begins on `day` at `time_of_day`".
pub open spec fn begins_at(day: u64, time_of_day: u64) -> spec_fn(Lesson) -> bool {
    |lesson: Lesson| lesson.day() == day && lesson.time_of_day() == time_of_day
}

/// The predicate "this lesson begins on `day`".
pub open spec fn begins_on(day: u64) -> spec_fn(Lesson) -> bool {
    |lesson: Lesson| lesson.day() == day
}

/// The lessons that begin on `day` at `time_of_day`, in their order.
pub open spec fn lessons_at(lessons: Seq<Lesson>, day: u64, time_of_day: u64) -> Seq<Lesson> {
    lessons.filter(begins_at(day, time_of_day))
}

/// The lessons that begin on `day`, in their order.
pub open spec fn lessons_on(lessons: Seq<Lesson>, day: u64) -> Seq<Lesson> {
    lessons.filter(begins_on(day))
}

impl PeriodLessons {
    /// The period is the one that the bell schedule gives for the time of day.
    pub open spec fn resolved_by(self, periods: Seq<Time>) -> bool {
        self.period == period_at(periods, self.time_of_day)
    }
}

/// One of the periods begins at `time_of_day`.
pub open spec fn has_time(times: Seq<PeriodLessons>, time_of_day: u64) -> bool {
    exists|b: int| 0 <= b < times.len() && (#[trigger] times[b]).time_of_day == time_of_day
}

impl Day {
    /// One of the day's periods begins at `time_of_day`.
    pub open spec fn has_time(self, time_of_day: u64) -> bool {
        has_time(self.times@, time_of_day)
    }

    /// The day has a period, its periods stand in ascending order of their
    /// time of day, each at a time of its own, and none is without lessons.
    pub open spec fn well_formed(self) -> bool {
        &&& self.times@.len() > 0
        &&& forall|a: int, b: int|
            0 <= a < b < self.times@.len() ==> self.times@[a].time_of_day
                < self.times@[b].time_of_day
        &&& forall|b: int|
            0 <= b < self.times@.len() ==> (#[trigger] self.times@[b]).lessons@.len() > 0
    }

    /// The day's periods hold the lessons given under their times of day:
    /// each period the lessons of its time, in the order given, and every
    /// time that occurs has its period.
    pub open spec fn holds(self, slots: Seq<(u64, Lesson)>) -> bool {
        &&& forall|b: int|
            0 <= b < self.times@.len() ==> (#[trigger] self.times@[b]).lessons@ == values_with_key(
                slots,
                self.times@[b].time_of_day,
            )
        &&& forall|i: int| 0 <= i < slots.len() ==> self.has_time((#[trigger] slots[i]).0)
    }

    /// Every period of the day is the one that the bell schedule gives for
    /// its time of day.
    pub open spec fn resolved_by(self, periods: Seq<Time>) -> bool {
        forall|b: int|
            0 <= b < self.times@.len() ==> (#[trigger] self.times@[b]).resolved_by(periods)
    }

    /// The period of the day that begins at `time_of_day`: the first such
    /// one, which in a well-formed day is the only one.
    pub fn period_at(&self, time_of_day: u64) -> (found: Option<&PeriodLessons>)
        ensures
            found is Some == self.has_time(time_of_day),
            found matches Some(slot) ==> exists|b: int|
                0 <= b < self.times@.len() && #[trigger] self.times@[b] == *slot
                    && slot.time_of_day == time_of_day && forall|a: int|
                    0 <= a < b ==> (#[trigger] self.times@[a]).time_of_day != time_of_day,
    {
        let mut b: usize = 0;
        while b < self.times.len()
            invariant
                b <= self.times@.len(),
                forall|a: int|
                    0 <= a < b ==> (#[trigger] self.times@[a]).time_of_day != time_of_day,
            decreases self.times@.len() - b,
        {
            if self.times[b].time_of_day == time_of_day {
                return Some(&self.times[b]);
            }
            b = b + 1;
        }
        None
    }
}

impl ProcessedTimeTable {
    /// The table has a period for `time_of_day` on `day`.
    pub open spec fn has_period(self, day: u64, time_of_day: u64) -> bool {
        exists|d: int|
            0 <= d < self.days@.len() && (#[trigger] self.days@[d]).day == day
                && self.days@[d].has_time(time_of_day)
    }

    /// The days stand in strictly ascending order, and each is well formed.
    pub open spec fn well_formed(self) -> bool {
        &&& forall|d: int, e: int|
            0 <= d < e < self.days@.len() ==> self.days@[d].day < self.days@[e].day
        &&& forall|d: int| 0 <= d < self.days@.len() ==> (#[trigger] self.days@[d]).well_formed()
    }

    /// The table arranges exactly `lessons`: each period of each day holds
    /// the lessons that begin on that day at that time, in the order in
    /// which `lessons` has them, and every lesson has its period.
    pub open spec fn arranges(self, lessons: Seq<Lesson>) -> bool {
        &&& forall|d: int, b: int|
            0 <= d < self.days@.len() && 0 <= b < self.days@[d].times@.len() ==> (
            #[trigger] self.days@[d].times@[b]).lessons@ == lessons_at(
                lessons,
                self.days@[d].day,
                self.days@[d].times@[b].time_of_day,
            )
        &&& forall|i: int|
            0 <= i < lessons.len() ==> self.has_period(
                (#[trigger] lessons[i]).day(),
                lessons[i].time_of_day(),
            )
    }

    /// Every period of the table is the one that the bell schedule gives
    /// for its time of day.
    pub open spec fn resolved_by(self, periods: Seq<Time>) -> bool {
        forall|d: int| 0 <= d < self.days@.len() ==> (#[trigger] self.days@[d]).resolved_by(periods)
    }

    /// One of the days of the table is `day`.
    pub open spec fn has_day(self, day: u64) -> bool {
        exists|d: int| 0 <= d < self.days@.len() && (#[trigger] self.days@[d]).day == day
    }

    /// The entry of the table for `day`: the first such one, which in a
    /// well-formed table is the only one.
    pub fn day(&self, day: u64) -> (found: Option<&Day>)
        ensures
            found is Some == self.has_day(day),
            found matches Some(entry) ==> exists|d: int|
                0 <= d < self.days@.len() && #[trigger] self.days@[d] == *entry && entry.day == day
                    && forall|c: int| 0 <= c < d ==> (#[trigger] self.days@[c]).day != day,
    {
        let mut d: usize = 0;
        while d < self.days.len()
            invariant
                d <= self.days@.len(),
                forall|c: int| 0 <= c < d ==> (#[trigger] self.days@[c]).day != day,
            decreases self.days@.len() - d,
        {
            if self.days[d].day == day {
                return Some(&self.days[d]);
            }
            d = d + 1;
        }
        None
    }
}

/// What the lookup table says of one time of day is what the bell schedule
/// says.
spec fn lookup_agrees(lookup: Map<u64, usize>, periods: Seq<Time>, time_of_day: u64) -> bool {
    match period_index(periods, time_of_day) {
        Some(index) => lookup.contains_key(time_of_day) && lookup[time_of_day] == index,
        None => !lookup.contains_key(time_of_day),
    }
}

/// Builds the table from time of day to position in the bell schedule. Of
/// two entries that begin at the same time the later one stays.
fn index_periods(periods: &Vec<Time>) -> (lookup: HashMap<u64, usize>)
    ensures
        forall|time_of_day: u64| lookup_agrees(lookup@, periods@, time_of_day),
{
    broadcast use vstd::std_specs::hash::group_hash_axioms;

    let mut lookup: HashMap<u64, usize> = HashMap::new();
    let mut i: usize = 0;
    while i < periods.len()
        invariant
            i <= periods.len(),
            forall|time_of_day: u64| lookup_agrees(lookup@, periods@.take(i as int), time_of_day),
        decreases periods.len() - i,
    {
        let ghost seen = periods@.take(i as int);
        let ghost before = lookup@;
        let offset = periods[i].start_offset();
        lookup.insert(offset, i);
        i = i + 1;
        proof {
            let now = periods@.take(i as int);
            assert(now.drop_last() == seen);
            assert(now.last() == periods@[i - 1]);
            assert forall|time_of_day: u64| lookup_agrees(lookup@, now, time_of_day) by {
                assert(lookup_agrees(before, seen, time_of_day));
            }
        }
    }
    assert(periods@.take(i as int) == periods@);
    lookup
}

/// The entry of the bell schedule that stands for a time of day, found
/// through the lookup table.
fn find_period(periods: &Vec<Time>, lookup: &HashMap<u64, usize>, time_of_day: u64) -> (period:
    Option<Time>)
    requires
        forall|time: u64| lookup_agrees(lookup@, periods@, time),
    ensures
        period == period_at(periods@, time_of_day),
{
    broadcast use vstd::std_specs::hash::group_hash_axioms;

    assert(lookup_agrees(lookup@, periods@, time_of_day));
    proof {
        lemma_period_index_in_range(periods@, time_of_day);
    }
    match lookup.get(&time_of_day) {
        Some(index) => Some(periods[*index].clone()),
        None => None,
    }
}

/// A position that the bell schedule gives lies within it, and the entry
/// there begins at the time asked for.
pub proof fn lemma_period_index_in_range(periods: Seq<Time>, time_of_day: u64)
    ensures
        period_index(periods, time_of_day) matches Some(index) ==> 0 <= index < periods.len()
            && periods[index].offset() == time_of_day,
    decreases periods.len(),
{
    if periods.len() > 0 && periods.last().offset() != time_of_day {
        lemma_period_index_in_range(periods.drop_last(), time_of_day);
    }
}

/// Arranges the lessons of one day, given under their times of day, into
/// periods.
fn build_day(
    day: u64,
    slots: Vec<(u64, Lesson)>,
    periods: &Vec<Time>,
    lookup: &HashMap<u64, usize>,
) -> (built: Day)
    requires
        slots@.len() > 0,
        forall|time: u64| lookup_agrees(lookup@, periods@, time),
    ensures
        built.day == day,
        built.well_formed(),
        built.holds(slots@),
        built.resolved_by(periods@),
{
    let ghost given = slots@;
    let groups = group_by_key(slots);
    let ghost grouped = groups@;
    let mut times: Vec<PeriodLessons> = Vec::new();
    for group in it: groups
        invariant
            it.seq() == grouped,
            is_grouping(grouped, given),
            forall|time: u64| lookup_agrees(lookup@, periods@, time),
            times@.len() == it.index(),
            forall|b: int|
                0 <= b < times@.len() ==> {
                    &&& (#[trigger] times@[b]).time_of_day == grouped[b].0
                    &&& times@[b].lessons == grouped[b].1
                    &&& times@[b].resolved_by(periods@)
                },
    {
        let (time_of_day, lessons) = group;
        let period = find_period(periods, lookup, time_of_day);
        times.push(PeriodLessons { time_of_day, period, lessons });
    }
    let built = Day { day, times };
    proof {
        assert(has_group(grouped, given[0].0));
        assert forall|i: int| 0 <= i < given.len() implies built.has_time(
            (#[trigger] given[i]).0,
        ) by {
            assert(has_group(grouped, given[i].0));
            let g = choose|g: int|
                0 <= g < grouped.len() && (#[trigger] grouped[g]).0 == given[i].0;
            assert(built.times@[g].time_of_day == given[i].0);
        }
    }
    built
}

/// Each lesson under its time of day.
pub open spec fn by_time(lessons: Seq<Lesson>) -> Seq<(u64, Lesson)> {
    lessons.map_values(|lesson: Lesson| (lesson.time_of_day(), lesson))
}

/// Each lesson under its day and, below that, its time of day.
pub open spec fn by_day(lessons: Seq<Lesson>) -> Seq<(u64, (u64, Lesson))> {
    lessons.map_values(|lesson: Lesson| (lesson.day(), (lesson.time_of_day(), lesson)))
}

/// Pairs every lesson with the day and the time of day at which it begins.
fn key_lessons(lessons: Vec<Lesson>) -> (keyed: Vec<(u64, (u64, Lesson))>)
    ensures
        keyed@ == by_day(lessons@),
{
    let mut keyed: Vec<(u64, (u64, Lesson))> = Vec::new();
    for lesson in it: lessons
        invariant
            keyed@ == by_day(it.seq().take(it.index())),
    {
        let day = lesson.day_key();
        let time = lesson.time_of_day_key();
        keyed.push((day, (time, lesson)));
    }
    keyed
}

/// Grouped under `day`, the keyed lessons are the lessons of that day, each
/// under its time of day.
proof fn lemma_slots_of_day(lessons: Seq<Lesson>, day: u64)
    ensures
        values_with_key(by_day(lessons), day) == by_time(lessons_on(lessons, day)),
    decreases lessons.len(),
{
    reveal(Seq::filter);
    if lessons.len() > 0 {
        let front = lessons.drop_last();
        let last = lessons.last();
        lemma_slots_of_day(front, day);
        assert(by_day(lessons).drop_last() == by_day(front));
        assert(by_day(lessons).last() == (last.day(), (last.time_of_day(), last)));
        if last.day() == day {
            assert(has_key::<(u64, Lesson)>(day)(by_day(lessons).last()));
            assert(begins_on(day)(last));
            assert(values_with_key(by_day(lessons), day) == values_with_key(
                by_day(front),
                day,
            ).push((last.time_of_day(), last)));
            assert(by_time(lessons_on(lessons, day)) == by_time(lessons_on(front, day)).push(
                (last.time_of_day(), last),
            ));
        } else {
            assert(!has_key::<(u64, Lesson)>(day)(by_day(lessons).last()));
            assert(!begins_on(day)(last));
        }
    } else {
        assert(values_with_key(by_day(lessons), day) == by_time(lessons_on(lessons, day)));
    }
}

/// Grouped under `time_of_day`, the lessons of `day` are the lessons that
/// begin on that day at that time.
proof fn lemma_lessons_of_slot(lessons: Seq<Lesson>, day: u64, time_of_day: u64)
    ensures
        values_with_key(by_time(lessons_on(lessons, day)), time_of_day) == lessons_at(
            lessons,
            day,
            time_of_day,
        ),
    decreases lessons.len(),
{
    reveal(Seq::filter);
    if lessons.len() > 0 {
        let front = lessons.drop_last();
        let last = lessons.last();
        lemma_lessons_of_slot(front, day, time_of_day);
        if last.day() == day {
            assert(begins_on(day)(last));
            let slots = by_time(lessons_on(lessons, day));
            assert(lessons_on(lessons, day) == lessons_on(front, day).push(last));
            assert(slots.drop_last() == by_time(lessons_on(front, day)));
            assert(slots.last() == (last.time_of_day(), last));
            if last.time_of_day() == time_of_day {
                assert(has_key::<Lesson>(time_of_day)(slots.last()));
                assert(begins_at(day, time_of_day)(last));
                assert(values_with_key(slots, time_of_day) == values_with_key(
                    by_time(lessons_on(front, day)),
                    time_of_day,
                ).push(last));
            } else {
                assert(!has_key::<Lesson>(time_of_day)(slots.last()));
                assert(!begins_at(day, time_of_day)(last));
            }
        } else {
            assert(!begins_on(day)(last));
            assert(!begins_at(day, time_of_day)(last));
            assert(lessons_on(lessons, day) == lessons_on(front, day));
        }
    } else {
        assert(values_with_key(by_time(lessons_on(lessons, day)), time_of_day) == lessons_at(
            lessons,
            day,
            time_of_day,
        ));
    }
}

/// Arranges a flat list of lessons by day and, within each day, by period.
///
/// The days of the result ascend strictly, and so do the periods within a
/// day. A lesson belongs to the day `begins_at / 86400` and, on that day, to
/// the period that begins at `begins_at % 86400`; within a period the
/// lessons keep the order in which they were given. A period is resolved
/// through the bell schedule by its time of day; where the schedule has no
/// entry for a time of day, the lessons are kept under that bare time, with
/// no period attached. No day and no period is made without a lesson.
pub fn process_timetable(lessons: Vec<Lesson>, periods: &Vec<Time>) -> (table: ProcessedTimeTable)
    ensures
        table.well_formed(),
        table.arranges(lessons@),
        table.resolved_by(periods@),
        lessons@.len() == 0 ==> table.days@.len() == 0,
{
    let ghost given = lessons@;
    let lookup = index_periods(periods);
    let keyed = key_lessons(lessons);
    let groups = group_by_key(keyed);
    let ghost grouped = groups@;
    let mut days: Vec<Day> = Vec::new();
    for group in it: groups
        invariant
            it.seq() == grouped,
            is_grouping(grouped, by_day(given)),
            forall|time: u64| lookup_agrees(lookup@, periods@, time),
            days@.len() == it.index(),
            forall|d: int|
                0 <= d < days@.len() ==> {
                    &&& (#[trigger] days@[d]).day == grouped[d].0
                    &&& days@[d].well_formed()
                    &&& days@[d].holds(grouped[d].1@)
                    &&& days@[d].resolved_by(periods@)
                },
    {
        let (day, slots) = group;
        let built = build_day(day, slots, periods, &lookup);
        days.push(built);
    }
    let table = ProcessedTimeTable { days };
    proof {
        assert forall|d: int, b: int|
            0 <= d < table.days@.len() && 0 <= b < table.days@[d].times@.len() implies (
        #[trigger] table.days@[d].times@[b]).lessons@ == lessons_at(
            given,
            table.days@[d].day,
            table.days@[d].times@[b].time_of_day,
        ) by {
            let day = table.days@[d];
            assert(day.holds(grouped[d].1@));
            lemma_slots_of_day(given, day.day);
            lemma_lessons_of_slot(given, day.day, day.times@[b].time_of_day);
        }
        assert forall|i: int| 0 <= i < given.len() implies table.has_period(
            (#[trigger] given[i]).day(),
            given[i].time_of_day(),
        ) by {
            let lesson = given[i];
            assert(by_day(given)[i].0 == lesson.day());
            assert(has_group(grouped, lesson.day()));
            let d = choose|d: int|
                0 <= d < grouped.len() && (#[trigger] grouped[d]).0 == lesson.day();
            let day = table.days@[d];
            assert(day.holds(grouped[d].1@));
            lemma_slots_of_day(given, lesson.day());
            assert(begins_on(lesson.day())(lesson));
            given.lemma_filter_contains(begins_on(lesson.day()), i);
            let today = lessons_on(given, lesson.day());
            let j = choose|j: int| 0 <= j < today.len() && today[j] == lesson;
            assert(by_time(today)[j].0 == lesson.time_of_day());
            assert(day.has_time(grouped[d].1@[j].0));
        }
        if given.len() == 0 && table.days@.len() > 0 {
            let first = table.days@[0];
            assert(first.well_formed());
            assert(first.times@[0].lessons@.len() > 0);
            assert(first.times@[0].lessons@ == lessons_at(
                given,
                first.day,
                first.times@[0].time_of_day,
            ));
            given.lemma_filter_len(begins_at(first.day, first.times@[0].time_of_day));
        }
    }
    table
}

/// Which of the two fetches behind a processed timetable is meant.
#[derive(Debug, Clone, Copy, PartialEq, Eq, Structural)]
pub enum FetchOrigin {
    /// The fetch of the lessons.
    Timetable,
    /// The fetch of the bell schedule.
    Periods,
}

/// The failure of one of the two fetches, with the fetch it came from.
#[derive(Debug)]
pub struct FetchError {
    pub origin: FetchOrigin,
    pub error: SduiError,
}

/// What the two fetches brought, once both have succeeded.
#[derive(Debug)]
pub struct Fetched {
    pub timetable: TimeTable,
    pub periods: Vec<Time>,
    pub timetable_limit: RateLimit,
    pub periods_limit: RateLimit,
}

/// Joins the outcomes of the fetch of the lessons and of the fetch of the
/// bell schedule, once both are there.
///
/// If either failed, the whole fails with that fetch's error and its origin,
/// and what the other brought is dropped; if both failed, the error of the
/// fetch of the lessons is the one that is reported.
pub fn join_fetches(timetable: SduiResult<TimeTable>, periods: SduiResult<Vec<Time>>) -> (joined:
    Result<Fetched, FetchError>)
    ensures
        match (timetable, periods) {
            (Err(error), _) => joined == Err::<Fetched, FetchError>(
                FetchError { origin: FetchOrigin::Timetable, error },
            ),
            (Ok(_), Err(error)) => joined == Err::<Fetched, FetchError>(
                FetchError { origin: FetchOrigin::Periods, error },
            ),
            (Ok(lessons), Ok(schedule)) => joined == Ok::<Fetched, FetchError>(
                Fetched {
                    timetable: lessons.0,
                    periods: schedule.0,
                    timetable_limit: lessons.1,
                    periods_limit: schedule.1,
                },
            ),
        },
{
    match timetable {
        Err(error) => Err(FetchError { origin: FetchOrigin::Timetable, error }),
        Ok((timetable, timetable_limit)) => match periods {
            Err(error) => Err(FetchError { origin: FetchOrigin::Periods, error }),
            Ok((periods, periods_limit)) => Ok(
                Fetched { timetable, periods, timetable_limit, periods_limit },
            ),
        },
    }
}

/// Makes the processed timetable from the outcomes of its two fetches.
///
/// Fails as `join_fetches` does. Where both fetches succeeded, the lessons
/// are arranged by day and period as `process_timetable` does, and the quota
/// snapshot is the more restrictive of the two, field by field.
pub fn process_fetched(
    timetable: SduiResult<TimeTable>,
    periods: SduiResult<Vec<Time>>,
) -> (outcome: Result<(ProcessedTimeTable, RateLimit), FetchError>)
    ensures
        match (timetable, periods) {
            (Err(error), _) => outcome == Err::<(ProcessedTimeTable, RateLimit), FetchError>(
                FetchError { origin: FetchOrigin::Timetable, error },
            ),
            (Ok(_), Err(error)) => outcome == Err::<(ProcessedTimeTable, RateLimit), FetchError>(
                FetchError { origin: FetchOrigin::Periods, error },
            ),
            (Ok(lessons), Ok(schedule)) => {
                &&& outcome matches Ok(processed)
                &&& processed.0.well_formed()
                &&& processed.0.arranges(lessons.0.lessons@)
                &&& processed.0.resolved_by(schedule.0@)
                &&& processed.1 == lessons.1.merged(schedule.1)
            },
        },
{
    match join_fetches(timetable, periods) {
        Err(error) => Err(error),
        Ok(fetched) => {
            let table = process_timetable(fetched.timetable.lessons, &fetched.periods);
            let limit = fetched.timetable_limit.join(fetched.periods_limit);
            Ok((table, limit))
        },
    }
}

} // verus!
