use rustodo::{Field, Priority, Status, ValidationError};

#[test]
fn priority_parsing_ignores_case() {
    assert_eq!(Priority::from_str("HIGH"), Ok(Priority::High));
    assert_eq!(Priority::from_str("High"), Ok(Priority::High));
    assert_eq!(Priority::from_str("high"), Ok(Priority::High));
    assert_eq!(Priority::from_str("mEdIuM"), Ok(Priority::Medium));
    assert_eq!(Priority::from_str("LOW"), Ok(Priority::Low));
}

#[test]
fn status_accepts_both_forms_of_in_progress() {
    assert_eq!(Status::from_str("in progress"), Ok(Status::InProgress));
    assert_eq!(Status::from_str("InProgress"), Ok(Status::InProgress));
    assert_eq!(Status::from_str("IN PROGRESS"), Ok(Status::InProgress));
    assert_eq!(Status::from_str("pending"), Ok(Status::Pending));
    assert_eq!(Status::from_str("COMPLETED"), Ok(Status::Completed));
}

#[test]
fn canonical_text_is_fixed() {
    assert_eq!(Status::Pending.to_string(), "Pending");
    assert_eq!(Status::InProgress.to_string(), "InProgress");
    assert_eq!(Status::Completed.to_string(), "Completed");
    assert_eq!(Priority::Low.to_string(), "Low");
    assert_eq!(Priority::Medium.to_string(), "Medium");
    assert_eq!(Priority::High.to_string(), "High");
}

#[test]
fn canonical_text_reads_back() {
    for s in [Status::Pending, Status::InProgress, Status::Completed] {
        assert_eq!(Status::from_str(&s.to_string()), Ok(s));
    }
    for p in [Priority::Low, Priority::Medium, Priority::High] {
        assert_eq!(Priority::from_str(&p.to_string()), Ok(p));
    }
}

#[test]
fn unknown_text_is_refused_with_the_input() {
    let e = Status::from_str("done").unwrap_err();
    assert_eq!(e, ValidationError { field: Field::Status, input: "done".to_string() });
    assert_eq!(e.message(), "Invalid status: done. (Pending, InProgress, Completed)");
    let e = Priority::from_str("urgent").unwrap_err();
    assert_eq!(e, ValidationError { field: Field::Priority, input: "urgent".to_string() });
    assert_eq!(e.message(), "Invalid priority: urgent. (Low, Medium, High)");
    let e = ValidationError::new(Field::DueDate, "tomorrow");
    assert_eq!(e.message(), "Invalid due date: tomorrow. (YYYY/MM/DD HH:MM:SS)");
}

#[test]
fn near_misses_are_refused() {
    assert!(Status::from_str("").is_err());
    assert!(Status::from_str("pendin").is_err());
    assert!(Status::from_str("pending ").is_err());
    assert!(Status::from_str("in  progress").is_err());
    assert!(Status::from_str("in_progress").is_err());
    assert!(Priority::from_str("hi").is_err());
    assert!(Priority::from_str("lów").is_err());
    assert!(Priority::from_str("medium!").is_err());
}

#[test]
fn only_ascii_letters_fold() {
    assert!(rustodo::text::eq_ignore_case("Low", "lOW"));
    assert!(!rustodo::text::eq_ignore_case("low", "l0w"));
    assert!(!rustodo::text::eq_ignore_case("[", "{"));
    assert!(!rustodo::text::eq_ignore_case("@", "`"));
    assert!(rustodo::text::eq_ignore_case("É", "É"));
    assert!(!rustodo::text::eq_ignore_case("É", "é"));
    assert_eq!(rustodo::text::to_lower('A'), 'a');
    assert_eq!(rustodo::text::to_lower('Z'), 'z');
    assert_eq!(rustodo::text::to_lower('a'), 'a');
    assert_eq!(rustodo::text::to_lower('['), '[');
    assert_eq!(rustodo::text::to_lower('@'), '@');
}
