use sdui::prelude::{RateLimit, SduiError};
use sdui::timetable::processing::{
    join_fetches, process_fetched, process_timetable, FetchOrigin, ProcessedTimeTable,
};
use sdui::timetable::{
    Course, CourseMeta, Lesson, LessonKind, LessonMeta, Subject, SubjectMeta, Time, TimeKind,
    TimeMeta, TimeTable,
};

fn lesson(id: u64, begins_at: u64) -> Lesson {
    Lesson {
        bookables: vec![],
        grades: vec![],
        teachers: vec![],
        id,
        begins_at,
        ends_at: begins_at + 2700,
        comment: format!("lesson {}", id),
        course: Course {
            meta: CourseMeta {
                displayname: "Mathematics".to_string(),
                shortname: "Ma".to_string(),
                color: "#ff0000".to_string(),
                name: "Mathematics".to_string(),
                description: String::new(),
            },
            subject: Subject {
                color: "#ff0000".to_string(),
                meta: SubjectMeta { displayname: "Mathematics".to_string() },
                id: 3,
                shortcut: "Ma".to_string(),
                name: "Mathematics".to_string(),
            },
            id: 11,
            name: "Ma 9b".to_string(),
            description: None,
            subject_id: 3,
        },
        meta: LessonMeta {
            displayname_hour: "1".to_string(),
            moved_comment: String::new(),
            displayname: "Ma".to_string(),
            shortname: "Ma".to_string(),
            displayname_kind: String::new(),
        },
        kind: LessonKind::NORMAL,
    }
}

fn period(id: u64, begins_at: u64, name: &str) -> Time {
    Time {
        begins_at,
        description: None,
        ends_at: begins_at + 2700,
        hour: id as u8,
        id,
        is_hidden: false,
        meta: TimeMeta { displayname: name.to_string() },
        name: name.to_string(),
        kind: TimeKind::LESSON,
    }
}

fn ids(table: &ProcessedTimeTable) -> Vec<(u64, Vec<(u64, Vec<u64>)>)> {
    table
        .days
        .iter()
        .map(|day| {
            (
                day.day,
                day.times
                    .iter()
                    .map(|slot| (slot.time_of_day, slot.lessons.iter().map(|l| l.id).collect()))
                    .collect(),
            )
        })
        .collect()
}

#[test]
fn two_periods_on_one_day() {
    let lessons = vec![lesson(1, 100000), lesson(2, 100000 + 3600)];
    let periods = vec![
        period(1, 100000 % 86400, "first"),
        period(2, 103600 % 86400, "second"),
    ];
    let table = process_timetable(lessons, &periods);
    assert_eq!(table.days.len(), 1);
    let day = &table.days[0];
    assert_eq!(day.day, 1);
    assert_eq!(day.times.len(), 2);
    assert_eq!(day.times[0].time_of_day, 13600);
    assert_eq!(day.times[0].period.as_ref().unwrap().name, "first");
    assert_eq!(day.times[0].lessons.len(), 1);
    assert_eq!(day.times[0].lessons[0].id, 1);
    assert_eq!(day.times[1].time_of_day, 17200);
    assert_eq!(day.times[1].period.as_ref().unwrap().name, "second");
    assert_eq!(day.times[1].lessons.len(), 1);
    assert_eq!(day.times[1].lessons[0].id, 2);
}

#[test]
fn no_lessons_give_no_days() {
    let periods = vec![period(1, 28800, "first"), period(2, 32400, "second")];
    let table = process_timetable(vec![], &periods);
    assert!(table.days.is_empty());
}

#[test]
fn same_time_on_two_days() {
    let lessons = vec![lesson(1, 86400 * 5 + 28800), lesson(2, 86400 * 9 + 28800)];
    let periods = vec![period(1, 28800, "first")];
    let table = process_timetable(lessons, &periods);
    assert_eq!(table.days.len(), 2);
    assert_eq!(table.days[0].day, 5);
    assert_eq!(table.days[1].day, 9);
    for day in &table.days {
        assert_eq!(day.times.len(), 1);
        assert_eq!(day.times[0].time_of_day, 28800);
        assert_eq!(day.times[0].period.as_ref().unwrap().name, "first");
        assert_eq!(day.times[0].lessons.len(), 1);
    }
    assert_eq!(table.days[0].times[0].lessons[0].id, 1);
    assert_eq!(table.days[1].times[0].lessons[0].id, 2);
}

#[test]
fn days_ascend_whatever_the_input_order() {
    let lessons = vec![
        lesson(1, 86400 * 30 + 100),
        lesson(2, 86400 * 10 + 100),
        lesson(3, 86400 * 20 + 100),
        lesson(4, 86400 * 10 + 50),
        lesson(5, 86400 * 30 + 100),
    ];
    let table = process_timetable(lessons, &vec![]);
    assert_eq!(
        ids(&table),
        vec![
            (10, vec![(50, vec![4]), (100, vec![2])]),
            (20, vec![(100, vec![3])]),
            (30, vec![(100, vec![1, 5])]),
        ]
    );
}

#[test]
fn lessons_of_one_period_keep_their_order() {
    let lessons = vec![
        lesson(7, 86400 + 600),
        lesson(3, 86400 + 60),
        lesson(9, 86400 + 600),
        lesson(1, 86400 + 600),
        lesson(4, 86400 + 60),
    ];
    let table = process_timetable(lessons, &vec![]);
    assert_eq!(ids(&table), vec![(1, vec![(60, vec![3, 4]), (600, vec![7, 9, 1])])]);
}

#[test]
fn every_lesson_lands_in_one_period() {
    let mut lessons = Vec::new();
    for i in 0..40u64 {
        lessons.push(lesson(i, (i * 7919 % 5) * 86400 + (i * 104729 % 3) * 3600));
    }
    let table = process_timetable(lessons.clone(), &vec![]);
    let mut seen: Vec<u64> = Vec::new();
    for day in &table.days {
        for slot in &day.times {
            assert!(!slot.lessons.is_empty());
            for l in &slot.lessons {
                assert_eq!(l.begins_at / 86400, day.day);
                assert_eq!(l.begins_at % 86400, slot.time_of_day);
                seen.push(l.id);
            }
        }
    }
    seen.sort();
    assert_eq!(seen, (0..40u64).collect::<Vec<u64>>());
    for l in &lessons {
        let holders = table
            .days
            .iter()
            .flat_map(|day| day.times.iter())
            .filter(|slot| slot.lessons.contains(l))
            .count();
        assert_eq!(holders, 1);
    }
}

#[test]
fn later_period_wins_a_shared_offset() {
    let lessons = vec![lesson(1, 86400 * 2 + 28800)];
    let periods = vec![
        period(1, 28800, "old first"),
        period(2, 32400, "second"),
        period(3, 86400 * 4 + 28800, "new first"),
    ];
    let table = process_timetable(lessons, &periods);
    let slot = &table.days[0].times[0];
    assert_eq!(slot.period.as_ref().unwrap().name, "new first");
    assert_eq!(slot.period.as_ref().unwrap().id, 3);
}

#[test]
fn unmatched_time_is_kept_without_a_period() {
    let lessons = vec![lesson(1, 86400 * 2 + 28800), lesson(2, 86400 * 2 + 30000)];
    let periods = vec![period(1, 28800, "first")];
    let table = process_timetable(lessons, &periods);
    assert_eq!(table.days.len(), 1);
    let day = &table.days[0];
    assert_eq!(day.times.len(), 2);
    assert!(day.times[0].period.is_some());
    assert_eq!(day.times[1].time_of_day, 30000);
    assert!(day.times[1].period.is_none());
    assert_eq!(day.times[1].lessons[0].id, 2);
}

fn timetable(lessons: Vec<Lesson>) -> TimeTable {
    TimeTable { lessons, last_updated_at: "2022-05-05T10:00:00".to_string() }
}

#[test]
fn unauthorized_timetable_fetch_is_reported_with_its_origin() {
    let periods = vec![period(1, 28800, "first")];
    let outcome = process_fetched(
        Err(SduiError::NotLoggedIn),
        Ok((periods, RateLimit { limit: 60, remaining: 59 })),
    );
    let error = outcome.unwrap_err();
    assert_eq!(error.origin, FetchOrigin::Timetable);
    assert!(matches!(error.error, SduiError::NotLoggedIn));
}

#[test]
fn failed_periods_fetch_is_reported_with_its_origin() {
    let outcome = process_fetched(
        Ok((timetable(vec![lesson(1, 100)]), RateLimit { limit: 60, remaining: 59 })),
        Err(SduiError::JSONError),
    );
    let error = outcome.unwrap_err();
    assert_eq!(error.origin, FetchOrigin::Periods);
    assert!(matches!(error.error, SduiError::JSONError));
}

#[test]
fn of_two_failures_the_timetable_one_is_reported() {
    let error = join_fetches(Err(SduiError::JSONError), Err(SduiError::NotLoggedIn)).unwrap_err();
    assert_eq!(error.origin, FetchOrigin::Timetable);
    assert!(matches!(error.error, SduiError::JSONError));
}

#[test]
fn transport_failure_is_carried_through() {
    let failure = reqwest::Client::new().get("no address").build().unwrap_err();
    let text = failure.to_string();
    let error = join_fetches(
        Ok((timetable(vec![]), RateLimit { limit: 1, remaining: 0 })),
        Err(SduiError::RequestError(failure)),
    )
    .unwrap_err();
    assert_eq!(error.origin, FetchOrigin::Periods);
    match error.error {
        SduiError::RequestError(inner) => assert_eq!(inner.to_string(), text),
        other => panic!("unexpected error {:?}", other),
    }
}

#[test]
fn both_fetches_join_into_one_result() {
    let fetched = join_fetches(
        Ok((timetable(vec![lesson(1, 100000)]), RateLimit { limit: 60, remaining: 12 })),
        Ok((vec![period(1, 13600, "first")], RateLimit { limit: 30, remaining: 29 })),
    )
    .unwrap();
    assert_eq!(fetched.timetable.lessons.len(), 1);
    assert_eq!(fetched.periods.len(), 1);
    assert_eq!(fetched.timetable_limit, RateLimit { limit: 60, remaining: 12 });
    assert_eq!(fetched.periods_limit, RateLimit { limit: 30, remaining: 29 });

    let (table, limit) = process_fetched(
        Ok((
            timetable(vec![lesson(1, 100000), lesson(2, 103600)]),
            RateLimit { limit: 60, remaining: 12 },
        )),
        Ok((
            vec![period(1, 13600, "first"), period(2, 17200, "second")],
            RateLimit { limit: 30, remaining: 29 },
        )),
    )
    .unwrap();
    assert_eq!(limit, RateLimit { limit: 30, remaining: 12 });
    assert_eq!(ids(&table), vec![(1, vec![(13600, vec![1]), (17200, vec![2])])]);
    assert_eq!(table.days[0].times[1].period.as_ref().unwrap().name, "second");
}

#[test]
fn lesson_keys_split_the_timestamp() {
    let l = lesson(1, 100000);
    assert_eq!(l.day_key(), 1);
    assert_eq!(l.time_of_day_key(), 13600);
    assert!(l.is_well_formed());
    let mut broken = lesson(2, 500);
    broken.ends_at = 500;
    assert!(!broken.is_well_formed());
    assert_eq!(lesson(3, 86399).day_key(), 0);
    assert_eq!(lesson(3, 86399).time_of_day_key(), 86399);
    assert_eq!(lesson(3, 86400).day_key(), 1);
    assert_eq!(lesson(3, 86400).time_of_day_key(), 0);
    assert_eq!(period(1, 86400 * 3 + 7, "x").start_offset(), 7);
}

#[test]
fn days_and_periods_are_found_by_their_keys() {
    let lessons = vec![
        lesson(1, 86400 * 3 + 100),
        lesson(2, 86400 * 3 + 200),
        lesson(3, 86400 * 7 + 100),
    ];
    let table = process_timetable(lessons, &vec![period(1, 200, "late")]);
    let third = table.day(3).unwrap();
    assert_eq!(third.day, 3);
    assert_eq!(third.times.len(), 2);
    assert_eq!(third.period_at(100).unwrap().lessons[0].id, 1);
    assert!(third.period_at(100).unwrap().period.is_none());
    assert_eq!(third.period_at(200).unwrap().lessons[0].id, 2);
    assert_eq!(third.period_at(200).unwrap().period.as_ref().unwrap().name, "late");
    assert!(third.period_at(300).is_none());
    assert_eq!(table.day(7).unwrap().period_at(100).unwrap().lessons[0].id, 3);
    assert!(table.day(7).unwrap().period_at(200).is_none());
    assert!(table.day(4).is_none());
    assert!(table.day(0).is_none());
}
