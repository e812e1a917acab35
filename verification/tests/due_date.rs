use taskmanager::due_date::{parse_due_date, timestamp_of_parse, DateError, ParseFailure};
use taskmanager::manager::EditError;
use taskmanager::time::{EARLIEST_SECOND, LATEST_SECOND};
use taskmanager::{Status, TaskManager, Timestamp};

fn at(secs: i64) -> Timestamp {
    Timestamp::new(secs, 0).expect("timestamp in range")
}

#[test]
fn due_date_is_five_in_the_afternoon() {
    assert_eq!(parse_due_date("24/12/2031"), Ok(at(1_955_898_000)));
    assert_eq!(parse_due_date("29/02/2024"), Ok(at(1_709_226_000)));
    assert_eq!(parse_due_date("1/1/1970"), Ok(at(17 * 3_600)));
}

#[test]
fn due_date_in_another_form_is_refused() {
    assert_eq!(parse_due_date("2031-12-24"), Err(DateError::Unparsed(ParseFailure::Invalid)));
    assert_eq!(parse_due_date("tomorrow"), Err(DateError::Unparsed(ParseFailure::Invalid)));
    assert_eq!(parse_due_date(""), Err(DateError::Unparsed(ParseFailure::Invalid)));
    assert_eq!(parse_due_date("24/12"), Err(DateError::Unparsed(ParseFailure::Invalid)));
}

#[test]
fn due_date_with_a_field_out_of_range_is_refused() {
    assert_eq!(parse_due_date("32/01/2031"), Err(DateError::Unparsed(ParseFailure::OutOfRange)));
    assert_eq!(parse_due_date("01/13/2031"), Err(DateError::Unparsed(ParseFailure::OutOfRange)));
    assert_eq!(parse_due_date("30/02/2031"), Err(DateError::Unparsed(ParseFailure::OutOfRange)));
    assert_eq!(parse_due_date("29/02/2023"), Err(DateError::Unparsed(ParseFailure::OutOfRange)));
}

#[test]
fn due_date_with_a_time_of_its_own_is_refused() {
    assert_eq!(parse_due_date("24/12/2031 09:30:00"), Err(DateError::Unparsed(ParseFailure::TooLong)));
}

#[test]
fn parse_outcome_becomes_a_timestamp() {
    assert_eq!(timestamp_of_parse(Ok((0, 0))), Ok(at(0)));
    assert_eq!(timestamp_of_parse(Ok((-5, 7))), Ok(Timestamp::new(-5, 7).unwrap()));
    assert_eq!(timestamp_of_parse(Ok((LATEST_SECOND, 999_999_999))), Ok(Timestamp::new(LATEST_SECOND, 999_999_999).unwrap()));
}

#[test]
fn parse_outcome_outside_the_range_is_unrepresentable() {
    assert_eq!(timestamp_of_parse(Ok((59, 1_500_000_000))), Err(DateError::Unrepresentable));
    assert_eq!(timestamp_of_parse(Ok((LATEST_SECOND + 1, 0))), Err(DateError::Unrepresentable));
    assert_eq!(timestamp_of_parse(Ok((EARLIEST_SECOND - 1, 0))), Err(DateError::Unrepresentable));
}

#[test]
fn parse_failure_is_handed_on() {
    let kinds = [
        ParseFailure::OutOfRange,
        ParseFailure::Impossible,
        ParseFailure::NotEnough,
        ParseFailure::Invalid,
        ParseFailure::TooShort,
        ParseFailure::TooLong,
        ParseFailure::BadFormat,
        ParseFailure::Unnamed,
    ];
    for kind in kinds {
        assert_eq!(timestamp_of_parse(Err(kind)), Err(DateError::Unparsed(kind)));
    }
}

#[test]
fn set_partial_due_date_sets_the_parsed_date() {
    let mut manager = TaskManager::new();
    manager.add_task_at("pay rent".to_string(), at(1_704_067_200));
    assert_eq!(manager.set_partial_due_date(0, "24/12/2031"), Ok(()));
    assert_eq!(manager.tasks[0].due_time, Some(at(1_955_898_000)));
    assert_eq!(manager.tasks[0].status, Status::Inactive);
    assert_eq!(manager.tasks[0].title, "pay rent");
}

#[test]
fn set_partial_due_date_refuses_a_bad_date_before_a_bad_id() {
    let mut manager = TaskManager::new();
    manager.add_task_at("pay rent".to_string(), at(1_704_067_200));
    let before = manager.clone();
    assert_eq!(
        manager.set_partial_due_date(0, "soon"),
        Err(EditError::BadDueDate(DateError::Unparsed(ParseFailure::Invalid)))
    );
    assert_eq!(
        manager.set_partial_due_date(7, "soon"),
        Err(EditError::BadDueDate(DateError::Unparsed(ParseFailure::Invalid)))
    );
    assert_eq!(manager.set_partial_due_date(7, "24/12/2031"), Err(EditError::InvalidId));
    assert_eq!(manager, before);
}
