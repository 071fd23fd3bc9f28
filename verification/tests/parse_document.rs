use audit_parser::abbreviations::{NUPath, Season};
use audit_parser::audit::AuditParser;
use audit_parser::dates::Date;
use audit_parser::errors::AuditError;
use audit_parser::parser_types::CompleteCourse;

const MINIMAL: &str = "GRAD|05/05/21\n\
COURSE|FL20|CS2500|4.00|Fundamentals of Computer Science|(HON)\n\
NUPATH|OK|ND|Natural and Designed World\n\
INFO|63.00|21|65.00|250.00|3.85";

#[test]
fn minimal_document_round_trip() {
    let out = AuditParser::parse_audit(MINIMAL).unwrap();
    assert_eq!(out.complete_courses.len(), 1);
    let c = &out.complete_courses[0];
    assert_eq!(c.subject, "CS2500");
    assert_eq!(c.season, Season::FL);
    assert_eq!(c.year, 20);
    assert_eq!(c.term_id, 202110);
    assert_eq!(c.credit_hours.milli, 4000);
    assert_eq!(c.name, "Fundamentals of Computer Science");
    assert!(c.hon);
    assert_eq!(out.ip_courses.len(), 0);
    assert_eq!(out.complete_nupaths, vec![NUPath::ND]);
    assert_eq!(out.ip_nupaths.len(), 0);
    assert_eq!(out.required_nupaths.len(), 0);
    assert_eq!(out.earned_hours.milli, 63000);
    assert_eq!(out.courses_taken, 21);
    assert_eq!(out.attempted_hours.milli, 65000);
    assert_eq!(out.points.milli, 250000);
    assert_eq!(out.gpa.milli, 3850);
    assert_eq!(out.grad_date, Date { year: 2021, month: 5, day: 5 });
}

#[test]
fn parsing_twice_is_field_wise_equal() {
    let a = AuditParser::parse_audit(MINIMAL).unwrap();
    let b = AuditParser::parse_audit(MINIMAL).unwrap();
    assert_eq!(a, b);
}

#[test]
fn missing_graduation_date_is_fatal() {
    let text = "CATALOG|2018\nMAJOR|Computer Science";
    assert_eq!(
        AuditParser::parse_audit(text),
        Err(AuditError::MissingGradDate)
    );
}

#[test]
fn unrecognized_nupath_category_is_skipped_not_fatal() {
    let text = "GRAD|05/05/21\nNUPATH|OK|ZZ|Mystery Requirement";
    let out = AuditParser::parse_audit(text).unwrap();
    assert_eq!(out.complete_nupaths.len(), 0);
    assert_eq!(out.ip_nupaths.len(), 0);
    assert_eq!(out.required_nupaths.len(), 0);
}

#[test]
fn nupath_lines_route_by_status() {
    let text = "GRAD|05/05/21\nNUPATH|OK|ND|a\nNUPATH|IP|EI|b\nNUPATH|NO|WI|c";
    let out = AuditParser::parse_audit(text).unwrap();
    assert_eq!(out.complete_nupaths, vec![NUPath::ND]);
    assert_eq!(out.ip_nupaths, vec![NUPath::EI]);
    assert_eq!(out.required_nupaths, vec![NUPath::WI]);
}

#[test]
fn course_list_lines_fill_required_courses() {
    let text = "GRAD|05/05/21\nLIST|CS 2500|TO|CS 2510\nLIST|CS 1800|2500";
    let out = AuditParser::parse_audit(text).unwrap();
    assert_eq!(out.required_courses.len(), 3);
    assert_eq!(out.required_courses[0].class_id, 2500);
    assert_eq!(out.required_courses[0].class_id_2, Some(2510));
    assert_eq!(out.required_courses[0].subject, Some("CS".to_string()));
    assert_eq!(out.required_courses[1].class_id, 1800);
    assert_eq!(out.required_courses[1].class_id_2, None);
    assert_eq!(out.required_courses[2].class_id, 2500);
    assert_eq!(out.required_courses[2].subject, Some("CS".to_string()));
}

#[test]
fn majors_and_catalog_year() {
    let text = "GRAD|05/05/21\nMAJOR|Computer Science\nMAJOR|Mathematics\nCATALOG|2018";
    let out = AuditParser::parse_audit(text).unwrap();
    assert_eq!(
        out.majors,
        vec!["Computer Science".to_string(), "Mathematics".to_string()]
    );
    assert_eq!(out.minors.len(), 0);
    assert_eq!(out.audit_year, 2018);
}

#[test]
fn unknown_lines_are_skipped() {
    let text = "GRAD|05/05/21\nsome stray text\nANOTHER|tag";
    let out = AuditParser::parse_audit(text).unwrap();
    assert_eq!(out.majors.len(), 0);
    assert_eq!(out.complete_courses.len(), 0);
    assert_eq!(out.audit_year, 2020);
}

#[test]
fn fresh_aggregate_defaults() {
    let out = audit_parser::audit::AuditToJson::new();
    assert_eq!(out.audit_year, 2020);
    assert_eq!(out.grad_date, Date { year: 2020, month: 1, day: 1 });
    assert_eq!(out.earned_hours.milli, 0);
    assert_eq!(out.courses_taken, 0);
}

#[test]
fn malformed_date_is_fatal() {
    let text = "GRAD|garbage";
    assert_eq!(AuditParser::parse_audit(text), Err(AuditError::InvalidDate));
    let text2 = "GRAD|13/45/21";
    assert_eq!(AuditParser::parse_audit(text2), Err(AuditError::InvalidDate));
}

#[test]
fn malformed_catalog_year_is_fatal() {
    let text = "GRAD|05/05/21\nCATALOG|20x8";
    assert_eq!(
        AuditParser::parse_audit(text),
        Err(AuditError::InvalidNumber)
    );
}

#[test]
fn malformed_summary_is_fatal() {
    let text = "GRAD|05/05/21\nINFO|sixty|21|65.00|250.00|3.85";
    assert_eq!(
        AuditParser::parse_audit(text),
        Err(AuditError::InvalidDecimal)
    );
    let text2 = "GRAD|05/05/21\nINFO|63.00|many|65.00|250.00|3.85";
    assert_eq!(
        AuditParser::parse_audit(text2),
        Err(AuditError::InvalidNumber)
    );
}

#[test]
fn in_progress_marker_still_lands_in_completed_bucket() {
    let text = "GRAD|05/05/21\nCOURSE|SP21|MATH1341|4.0|Calculus|IP";
    let out = AuditParser::parse_audit(text).unwrap();
    assert_eq!(out.complete_courses.len(), 1);
    assert_eq!(out.ip_courses.len(), 0);
}

#[test]
fn course_identity_ignores_honors_and_credits() {
    let make = |hon: bool, milli: isize| CompleteCourse {
        hon,
        subject: "CS2500".to_string(),
        class_id: 0,
        name: "Fundamentals".to_string(),
        credit_hours: audit_parser::fixed::FixedPoint { milli },
        season: Season::FL,
        year: 20,
        term_id: 202110,
    };
    assert_eq!(make(true, 4000), make(false, 3000));
    let mut other = make(true, 4000);
    other.name = "Different".to_string();
    assert!(make(true, 4000) != other);
}

#[test]
fn error_descriptions_are_nonempty() {
    let errs = [
        AuditError::MissingGradDate,
        AuditError::InvalidDate,
        AuditError::InvalidNumber,
        AuditError::InvalidDecimal,
        AuditError::InvalidYearCode,
        AuditError::RangeWithoutStart,
    ];
    for e in errs {
        assert!(!e.fmt().is_empty());
    }
}
