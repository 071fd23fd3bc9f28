use audit_parser::abbreviations::{NUPath, Status};
use audit_parser::audit::AuditParser;
use audit_parser::errors::AuditError;
use audit_parser::tree::{CourseFields, ListToken, NuToken};

fn course_item(subject: Option<&str>, number: &str) -> ListToken {
    ListToken::Course {
        subject: subject.map(|s| s.to_string()),
        number: number.to_string(),
    }
}

#[test]
fn nupath_extractor_captures_status_and_category() {
    let toks = vec![
        NuToken::Status("OK".to_string()),
        NuToken::Other("Natural and Designed World".to_string()),
        NuToken::Id("ND".to_string()),
    ];
    assert_eq!(
        AuditParser::extract_nupath(&toks),
        (Some(Status::OK), Some(NUPath::ND))
    );
}

#[test]
fn nupath_extractor_leaves_unrecognized_codes_empty() {
    let toks = vec![
        NuToken::Status("OK".to_string()),
        NuToken::Id("ZZ".to_string()),
    ];
    assert_eq!(AuditParser::extract_nupath(&toks), (Some(Status::OK), None));
    let toks2 = vec![NuToken::Id("EI".to_string())];
    assert_eq!(AuditParser::extract_nupath(&toks2), (None, Some(NUPath::EI)));
    let toks3: Vec<NuToken> = vec![];
    assert_eq!(AuditParser::extract_nupath(&toks3), (None, None));
}

#[test]
fn course_range_collapses_to_one_entry() {
    let toks = vec![
        course_item(Some("CS"), "2500"),
        ListToken::To,
        course_item(Some("CS"), "2510"),
    ];
    let entries = AuditParser::extract_course_list(&toks).unwrap();
    assert_eq!(entries.len(), 1);
    assert_eq!(entries[0].class_id, 2500);
    assert_eq!(entries[0].class_id_2, Some(2510));
    assert_eq!(entries[0].subject, Some("CS".to_string()));
}

#[test]
fn course_list_inherits_subject() {
    let toks = vec![course_item(Some("CS"), "1800"), course_item(None, "2500")];
    let entries = AuditParser::extract_course_list(&toks).unwrap();
    assert_eq!(entries.len(), 2);
    assert_eq!(entries[0].class_id, 1800);
    assert_eq!(entries[0].subject, Some("CS".to_string()));
    assert_eq!(entries[0].class_id_2, None);
    assert_eq!(entries[1].class_id, 2500);
    assert_eq!(entries[1].subject, Some("CS".to_string()));
    assert_eq!(entries[1].class_id_2, None);
}

#[test]
fn course_list_range_end_without_start_fails() {
    let toks = vec![ListToken::To, course_item(Some("CS"), "2510")];
    assert_eq!(
        AuditParser::extract_course_list(&toks),
        Err(AuditError::RangeWithoutStart)
    );
}

#[test]
fn course_list_bad_number_fails() {
    let toks = vec![course_item(Some("CS"), "25x0")];
    assert_eq!(
        AuditParser::extract_course_list(&toks),
        Err(AuditError::InvalidNumber)
    );
}

fn fields(
    year: Option<&str>,
    course: Option<&str>,
    credits: Option<&str>,
    name: Option<&str>,
    maybe_ip: Option<&str>,
) -> CourseFields {
    CourseFields {
        year: year.map(|s| s.to_string()),
        course: course.map(|s| s.to_string()),
        credits: credits.map(|s| s.to_string()),
        name: name.map(|s| s.to_string()),
        maybe_ip: maybe_ip.map(|s| s.to_string()),
    }
}

#[test]
fn course_extractor_decomposes_year_code() {
    let f = fields(
        Some("FL20"),
        Some("CS2500"),
        Some("4.00"),
        Some("Fundamentals of Computer Science"),
        Some("(HON)"),
    );
    let (c, ip) = AuditParser::extract_course(&f).unwrap();
    assert_eq!(c.year, 20);
    assert_eq!(c.term_id, 202110);
    assert_eq!(c.subject, "CS2500");
    assert_eq!(c.credit_hours.milli, 4000);
    assert_eq!(c.name, "Fundamentals of Computer Science");
    assert!(c.hon);
    assert!(!ip);
}

#[test]
fn course_extractor_in_progress_marker_never_sets_flag() {
    let f = fields(Some("SP21"), Some("MATH1341"), Some("4.0"), Some("Calculus"), Some("IP"));
    let (c, ip) = AuditParser::extract_course(&f).unwrap();
    assert!(!ip);
    assert!(!c.hon);
    assert_eq!(c.term_id, 202130);
}

#[test]
fn course_extractor_zero_pads_single_digit_year() {
    let f = fields(Some("SP05"), Some("CS1800"), Some("4.00"), Some("Discrete"), None);
    let (c, _) = AuditParser::extract_course(&f).unwrap();
    assert_eq!(c.year, 5);
    assert_eq!(c.term_id, 200530);
}

#[test]
fn course_extractor_rejects_bad_year_code() {
    let f = fields(Some("XX20"), None, None, None, None);
    assert_eq!(
        AuditParser::extract_course(&f),
        Err(AuditError::InvalidYearCode)
    );
    let f2 = fields(Some("FL"), None, None, None, None);
    assert_eq!(
        AuditParser::extract_course(&f2),
        Err(AuditError::InvalidYearCode)
    );
}

#[test]
fn course_extractor_rejects_bad_credits() {
    let f = fields(Some("FL20"), Some("CS2500"), Some("4.x"), None, None);
    assert_eq!(
        AuditParser::extract_course(&f),
        Err(AuditError::InvalidDecimal)
    );
}

#[test]
fn course_extractor_defaults_absent_fields() {
    let f = fields(None, None, None, None, None);
    let (c, ip) = AuditParser::extract_course(&f).unwrap();
    assert_eq!(c.year, 0);
    assert_eq!(c.term_id, 0);
    assert_eq!(c.class_id, 0);
    assert_eq!(c.subject, "");
    assert_eq!(c.credit_hours.milli, 0);
    assert!(!c.hon);
    assert!(!ip);
}
