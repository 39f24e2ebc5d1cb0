//! What holds of every arranged timetable: no lesson is lost or doubled,
//! each lies in exactly one period, and a period keeps the order in which
//! its lessons were given.

use vstd::prelude::*;
use vstd::seq_lib::{lemma_multiset_commutative, to_multiset_build};
use crate::timetable::Lesson;
use crate::timetable::processing::{
    begins_at, has_time, lessons_at, Day, PeriodLessons, ProcessedTimeTable,
};

verus! {

/// The lessons of the periods, period after period.
pub open spec fn lessons_of_periods(times: Seq<PeriodLessons>) -> Seq<Lesson>
    decreases times.len(),
{
    if times.len() == 0 {
        Seq::empty()
    } else {
        lessons_of_periods(times.drop_last()) + times.last().lessons@
    }
}

/// The lessons of the days, day after day and, within a day, period after
/// period.
pub open spec fn lessons_of_days(days: Seq<Day>) -> Seq<Lesson>
    decreases days.len(),
{
    if days.len() == 0 {
        Seq::empty()
    } else {
        lessons_of_days(days.drop_last()) + lessons_of_periods(days.last().times@)
    }
}

impl ProcessedTimeTable {
    /// All lessons of the table, in the order in which it holds them.
    pub open spec fn all_lessons(self) -> Seq<Lesson> {
        lessons_of_days(self.days@)
    }
}

/// How often `x` occurs in `s`.
spec fn occurrences<A>(s: Seq<A>, x: A) -> nat {
    s.to_multiset().count(x)
}

/// How many of the first `i` elements pass the filter: the place that the
/// element at `i` takes among those that pass.
pub open spec fn place<A>(s: Seq<A>, pred: spec_fn(A) -> bool, i: int) -> int {
    s.take(i).filter(pred).len() as int
}

/// A filter keeps every occurrence of a value that passes it and none of a
/// value that does not.
proof fn lemma_occurrences_in_filter<A>(s: Seq<A>, pred: spec_fn(A) -> bool, x: A)
    ensures
        occurrences(s.filter(pred), x) == if pred(x) {
            occurrences(s, x)
        } else {
            0
        },
    decreases s.len(),
{
    broadcast use vstd::multiset::group_multiset_axioms;

    reveal(Seq::filter);
    if s.len() == 0 {
        assert(s.to_multiset().count(x) == 0) by {
            s.to_multiset_ensures();
        }
    } else {
        let front = s.drop_last();
        let last = s.last();
        lemma_occurrences_in_filter(front, pred, x);
        assert(front.push(last) == s);
        to_multiset_build(front, last);
        if pred(last) {
            to_multiset_build(front.filter(pred), last);
        }
    }
}

/// The occurrences in two sequences laid end to end add up.
proof fn lemma_occurrences_add<A>(a: Seq<A>, b: Seq<A>, x: A)
    ensures
        occurrences(a + b, x) == occurrences(a, x) + occurrences(b, x),
{
    broadcast use vstd::multiset::group_multiset_axioms;

    lemma_multiset_commutative(a, b);
}

/// A filter keeps the head of a sequence in front when the head passes it.
proof fn lemma_filter_keeps_head<A>(s: Seq<A>, pred: spec_fn(A) -> bool)
    requires
        s.len() > 0,
        pred(s[0]),
    ensures
        s.filter(pred).len() > 0,
        s.filter(pred)[0] == s[0],
{
    let head = seq![s[0]];
    assert(s == head + s.drop_first());
    Seq::filter_distributes_over_add(head, s.drop_first(), pred);
    assert(head.filter(pred) == head) by {
        reveal(Seq::filter);
        assert(head.drop_last().filter(pred) == Seq::<A>::empty());
        assert(Seq::<A>::empty().push(s[0]) == head);
    }
}

/// The element at `i`, if it passes the filter, stands in the filtered
/// sequence at its place; a later element that passes stands behind it.
proof fn lemma_place_in_filter<A>(s: Seq<A>, pred: spec_fn(A) -> bool, i: int, j: int)
    requires
        0 <= i <= j < s.len(),
        pred(s[i]),
        pred(s[j]),
    ensures
        0 <= place(s, pred, i) < s.filter(pred).len(),
        s.filter(pred)[place(s, pred, i)] == s[i],
        i < j ==> place(s, pred, i) < place(s, pred, j),
        place(s, pred, j) < s.filter(pred).len(),
{
    let head = s.take(i);
    let mid = s.subrange(i, j);
    let tail = s.skip(j);
    assert(s.take(j) == head + mid);
    assert(s == s.take(j) + tail);
    Seq::filter_distributes_over_add(head, mid, pred);
    Seq::filter_distributes_over_add(s.take(j), tail, pred);
    lemma_filter_keeps_head(tail, pred);
    if i < j {
        lemma_filter_keeps_head(mid, pred);
    }
}

/// One of the days is `day` and has a period that begins at `time_of_day`.
spec fn has_period(days: Seq<Day>, day: u64, time_of_day: u64) -> bool {
    exists|d: int|
        0 <= d < days.len() && (#[trigger] days[d]).day == day && has_time(
            days[d].times@,
            time_of_day,
        )
}

/// The periods ascend strictly by their time of day, and each holds the
/// lessons of `lessons` that begin on `day` at its time.
spec fn periods_arrange(times: Seq<PeriodLessons>, lessons: Seq<Lesson>, day: u64) -> bool {
    &&& forall|a: int, b: int|
        0 <= a < b < times.len() ==> times[a].time_of_day < times[b].time_of_day
    &&& forall|b: int|
        0 <= b < times.len() ==> (#[trigger] times[b]).lessons@ == lessons_at(
            lessons,
            day,
            times[b].time_of_day,
        )
}

/// The days ascend strictly, and the periods of each arrange the lessons of
/// that day.
spec fn days_arrange(days: Seq<Day>, lessons: Seq<Lesson>) -> bool {
    &&& forall|d: int, e: int| 0 <= d < e < days.len() ==> days[d].day < days[e].day
    &&& forall|d: int|
        0 <= d < days.len() ==> periods_arrange((#[trigger] days[d]).times@, lessons, days[d].day)
}

/// Within a day a lesson occurs as often as it was given if the day is its
/// own and has a period at its time, and not at all otherwise.
proof fn lemma_occurrences_in_day(
    times: Seq<PeriodLessons>,
    lessons: Seq<Lesson>,
    day: u64,
    x: Lesson,
)
    requires
        periods_arrange(times, lessons, day),
    ensures
        occurrences(lessons_of_periods(times), x) == if x.day() == day && has_time(
            times,
            x.time_of_day(),
        ) {
            occurrences(lessons, x)
        } else {
            0
        },
    decreases times.len(),
{
    if times.len() == 0 {
        assert(occurrences(Seq::<Lesson>::empty(), x) == 0) by {
            Seq::<Lesson>::empty().to_multiset_ensures();
        }
    } else {
        let n = times.len() - 1;
        let front = times.drop_last();
        let last = times[n];
        assert(periods_arrange(front, lessons, day)) by {
            assert forall|b: int| 0 <= b < front.len() implies (#[trigger] front[b]).lessons@
                == lessons_at(lessons, day, front[b].time_of_day) by {
                assert(front[b] == times[b]);
            }
            assert forall|a: int, b: int| 0 <= a < b < front.len() implies front[a].time_of_day
                < front[b].time_of_day by {
                assert(front[a] == times[a] && front[b] == times[b]);
            }
        }
        lemma_occurrences_in_day(front, lessons, day, x);
        lemma_occurrences_add(lessons_of_periods(front), last.lessons@, x);
        lemma_occurrences_in_filter(lessons, begins_at(day, last.time_of_day), x);
        if x.day() == day && x.time_of_day() == last.time_of_day {
            assert(has_time(times, x.time_of_day()));
            assert(!has_time(front, x.time_of_day())) by {
                if has_time(front, x.time_of_day()) {
                    let b = choose|b: int|
                        0 <= b < front.len() && (#[trigger] front[b]).time_of_day
                            == x.time_of_day();
                    assert(front[b] == times[b]);
                    assert(times[b].time_of_day < times[n].time_of_day);
                }
            }
        } else if x.day() == day {
            assert(has_time(times, x.time_of_day()) == has_time(front, x.time_of_day())) by {
                if has_time(front, x.time_of_day()) {
                    let b = choose|b: int|
                        0 <= b < front.len() && (#[trigger] front[b]).time_of_day
                            == x.time_of_day();
                    assert(times[b] == front[b]);
                }
                if has_time(times, x.time_of_day()) {
                    let b = choose|b: int|
                        0 <= b < times.len() && (#[trigger] times[b]).time_of_day
                            == x.time_of_day();
                    assert(front[b] == times[b]);
                }
            }
        }
    }
}

/// Over all days a lesson occurs as often as it was given if its day has a
/// period at its time, and not at all otherwise.
proof fn lemma_occurrences_in_days(days: Seq<Day>, lessons: Seq<Lesson>, x: Lesson)
    requires
        days_arrange(days, lessons),
    ensures
        occurrences(lessons_of_days(days), x) == if has_period(days, x.day(), x.time_of_day()) {
            occurrences(lessons, x)
        } else {
            0
        },
    decreases days.len(),
{
    if days.len() == 0 {
        assert(occurrences(Seq::<Lesson>::empty(), x) == 0) by {
            Seq::<Lesson>::empty().to_multiset_ensures();
        }
    } else {
        let n = days.len() - 1;
        let front = days.drop_last();
        let last = days[n];
        assert(days_arrange(front, lessons)) by {
            assert forall|d: int| 0 <= d < front.len() implies periods_arrange(
                (#[trigger] front[d]).times@,
                lessons,
                front[d].day,
            ) by {
                assert(front[d] == days[d]);
            }
            assert forall|d: int, e: int| 0 <= d < e < front.len() implies front[d].day
                < front[e].day by {
                assert(front[d] == days[d] && front[e] == days[e]);
            }
        }
        lemma_occurrences_in_days(front, lessons, x);
        lemma_occurrences_add(lessons_of_days(front), lessons_of_periods(last.times@), x);
        lemma_occurrences_in_day(last.times@, lessons, last.day, x);
        if x.day() == last.day {
            assert(!has_period(front, x.day(), x.time_of_day())) by {
                if has_period(front, x.day(), x.time_of_day()) {
                    let d = choose|d: int|
                        0 <= d < front.len() && (#[trigger] front[d]).day == x.day() && has_time(
                            front[d].times@,
                            x.time_of_day(),
                        );
                    assert(front[d] == days[d]);
                    assert(days[d].day < days[n].day);
                }
            }
            if has_time(last.times@, x.time_of_day()) {
                assert(has_period(days, x.day(), x.time_of_day()));
            } else {
                if has_period(days, x.day(), x.time_of_day()) {
                    let d = choose|d: int|
                        0 <= d < days.len() && (#[trigger] days[d]).day == x.day() && has_time(
                            days[d].times@,
                            x.time_of_day(),
                        );
                    if d < n {
                        assert(days[d].day < days[n].day);
                    }
                }
            }
        } else {
            assert(has_period(days, x.day(), x.time_of_day()) == has_period(
                front,
                x.day(),
                x.time_of_day(),
            )) by {
                if has_period(front, x.day(), x.time_of_day()) {
                    let d = choose|d: int|
                        0 <= d < front.len() && (#[trigger] front[d]).day == x.day() && has_time(
                            front[d].times@,
                            x.time_of_day(),
                        );
                    assert(days[d] == front[d]);
                }
                if has_period(days, x.day(), x.time_of_day()) {
                    let d = choose|d: int|
                        0 <= d < days.len() && (#[trigger] days[d]).day == x.day() && has_time(
                            days[d].times@,
                            x.time_of_day(),
                        );
                    assert(front[d] == days[d]);
                }
            }
        }
    }
}

/// A well-formed table that arranges `lessons` has days and periods that
/// arrange them.
proof fn lemma_table_arranges(table: ProcessedTimeTable, lessons: Seq<Lesson>)
    requires
        table.well_formed(),
        table.arranges(lessons),
    ensures
        days_arrange(table.days@, lessons),
{
    assert forall|d: int| 0 <= d < table.days@.len() implies periods_arrange(
        (#[trigger] table.days@[d]).times@,
        lessons,
        table.days@[d].day,
    ) by {
        assert(table.days@[d].well_formed());
        assert forall|b: int| 0 <= b < table.days@[d].times@.len() implies (
        #[trigger] table.days@[d].times@[b]).lessons@ == lessons_at(
            lessons,
            table.days@[d].day,
            table.days@[d].times@[b].time_of_day,
        ) by {}
    }
}

/// No lesson is lost and none is doubled: the lessons that an arranged
/// table holds are, counted with their repetitions, the lessons that were
/// given.
pub proof fn lemma_lessons_kept(table: ProcessedTimeTable, lessons: Seq<Lesson>)
    requires
        table.well_formed(),
        table.arranges(lessons),
    ensures
        table.all_lessons().to_multiset() == lessons.to_multiset(),
        table.all_lessons().len() == lessons.len(),
{
    lemma_table_arranges(table, lessons);
    assert forall|x: Lesson|
        table.all_lessons().to_multiset().count(x) == lessons.to_multiset().count(x) by {
        lemma_occurrences_in_days(table.days@, lessons, x);
        if lessons.to_multiset().count(x) > 0 {
            lessons.to_multiset_ensures();
            assert(lessons.contains(x));
            let i = choose|i: int| 0 <= i < lessons.len() && lessons[i] == x;
            assert(table.has_period(lessons[i].day(), lessons[i].time_of_day()));
            let d = choose|d: int|
                0 <= d < table.days@.len() && (#[trigger] table.days@[d]).day == x.day()
                    && table.days@[d].has_time(x.time_of_day());
            assert(has_period(table.days@, x.day(), x.time_of_day()));
        }
    }
    assert(table.all_lessons().to_multiset() =~= lessons.to_multiset());
    table.all_lessons().to_multiset_ensures();
    lessons.to_multiset_ensures();
}

/// Every lesson lies in exactly one period: the table has a period on the
/// lesson's day at the lesson's time that holds it, and no other period of
/// the table holds it.
pub proof fn lemma_lesson_in_one_period(table: ProcessedTimeTable, lessons: Seq<Lesson>, i: int)
    requires
        table.well_formed(),
        table.arranges(lessons),
        0 <= i < lessons.len(),
    ensures
        exists|d: int, b: int|
            0 <= d < table.days@.len() && 0 <= b < table.days@[d].times@.len() && (
            #[trigger] table.days@[d].times@[b]).lessons@.contains(lessons[i]),
        forall|d: int, b: int, e: int, c: int|
            0 <= d < table.days@.len() && 0 <= b < table.days@[d].times@.len() && 0 <= e
                < table.days@.len() && 0 <= c < table.days@[e].times@.len() && (
            #[trigger] table.days@[d].times@[b]).lessons@.contains(lessons[i]) && (
            #[trigger] table.days@[e].times@[c]).lessons@.contains(lessons[i]) ==> d == e && b
                == c,
{
    let x = lessons[i];
    assert(table.has_period(x.day(), x.time_of_day()));
    let d0 = choose|d: int|
        0 <= d < table.days@.len() && (#[trigger] table.days@[d]).day == x.day()
            && table.days@[d].has_time(x.time_of_day());
    let b0 = choose|b: int|
        0 <= b < table.days@[d0].times@.len() && (
        #[trigger] table.days@[d0].times@[b]).time_of_day == x.time_of_day();
    assert(table.days@[d0].times@[b0].lessons@.contains(x)) by {
        assert(begins_at(x.day(), x.time_of_day())(x));
        lessons.lemma_filter_contains(begins_at(x.day(), x.time_of_day()), i);
    }
    assert forall|d: int, b: int|
        0 <= d < table.days@.len() && 0 <= b < table.days@[d].times@.len() && (
        #[trigger] table.days@[d].times@[b]).lessons@.contains(x) implies d == d0 && b == b0 by {
        let held = table.days@[d].times@[b].lessons@;
        let pred = begins_at(table.days@[d].day, table.days@[d].times@[b].time_of_day);
        let p = choose|p: int| 0 <= p < held.len() && held[p] == x;
        assert(held == lessons.filter(pred));
        lessons.lemma_filter_pred(pred, p);
        assert(pred(x));
        if d < d0 {
            assert(table.days@[d].day < table.days@[d0].day);
        }
        if d0 < d {
            assert(table.days@[d0].day < table.days@[d].day);
        }
        assert(table.days@[d].well_formed());
        if b < b0 {
            assert(table.days@[d].times@[b].time_of_day < table.days@[d].times@[b0].time_of_day);
        }
        if b0 < b {
            assert(table.days@[d].times@[b0].time_of_day < table.days@[d].times@[b].time_of_day);
        }
    }
}

/// A period keeps the order in which its lessons were given: of two given
/// lessons that begin on the same day at the same time, the earlier given
/// stands in their period before the later given, each at the place that
/// counts the lessons of that period given before it.
pub proof fn lemma_order_kept(
    table: ProcessedTimeTable,
    lessons: Seq<Lesson>,
    i: int,
    j: int,
    d: int,
    b: int,
)
    requires
        table.arranges(lessons),
        0 <= i < j < lessons.len(),
        lessons[i].day() == lessons[j].day(),
        lessons[i].time_of_day() == lessons[j].time_of_day(),
        0 <= d < table.days@.len(),
        0 <= b < table.days@[d].times@.len(),
        table.days@[d].day == lessons[i].day(),
        table.days@[d].times@[b].time_of_day == lessons[i].time_of_day(),
    ensures
        ({
            let held = table.days@[d].times@[b].lessons@;
            let slot = begins_at(lessons[i].day(), lessons[i].time_of_day());
            let first = place(lessons, slot, i);
            let second = place(lessons, slot, j);
            &&& 0 <= first < second < held.len()
            &&& held[first] == lessons[i]
            &&& held[second] == lessons[j]
        }),
{
    let slot = begins_at(lessons[i].day(), lessons[i].time_of_day());
    assert(table.days@[d].times@[b].lessons@ == lessons.filter(slot));
    assert(slot(lessons[i]) && slot(lessons[j]));
    lemma_place_in_filter(lessons, slot, i, j);
    lemma_place_in_filter(lessons, slot, j, j);
}

} // verus!
