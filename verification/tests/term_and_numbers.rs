use audit_parser::abbreviations::Season;
use audit_parser::audit::AuditParser;
use audit_parser::errors::AuditError;
use audit_parser::fixed::parse_fixed;

#[test]
fn term_id_spring_two_digit_year() {
    assert_eq!(AuditParser::get_termid(Season::SP, 21), 202130);
}

#[test]
fn term_id_fall_increments_year() {
    assert_eq!(AuditParser::get_termid(Season::FL, 21), 202210);
}

#[test]
fn term_id_summer_suffixes() {
    assert_eq!(AuditParser::get_termid(Season::S1, 21), 202140);
    assert_eq!(AuditParser::get_termid(Season::S2, 21), 202160);
    assert_eq!(AuditParser::get_termid(Season::SM, 21), 202150);
}

#[test]
fn term_id_single_digit_year_is_zero_padded() {
    assert_eq!(AuditParser::get_termid(Season::SP, 5), 200530);
    assert_eq!(AuditParser::get_termid(Season::FL, 9), 201010);
    assert_eq!(AuditParser::get_termid(Season::S1, 0), 200040);
}

#[test]
fn term_id_fall_of_year_ninety_nine_concatenates() {
    assert_eq!(AuditParser::get_termid(Season::FL, 99), 2010010);
}

#[test]
fn term_id_every_season_two_digit() {
    assert_eq!(AuditParser::get_termid(Season::FL, 18), 201910);
    assert_eq!(AuditParser::get_termid(Season::SP, 18), 201830);
    assert_eq!(AuditParser::get_termid(Season::S1, 18), 201840);
    assert_eq!(AuditParser::get_termid(Season::SM, 18), 201850);
    assert_eq!(AuditParser::get_termid(Season::S2, 18), 201860);
}

#[test]
fn to_num_plain() {
    assert_eq!(AuditParser::to_num("123"), Ok(123));
    assert_eq!(AuditParser::to_num("0"), Ok(0));
}

#[test]
fn to_num_signed() {
    assert_eq!(AuditParser::to_num("-45"), Ok(-45));
    assert_eq!(AuditParser::to_num("+7"), Ok(7));
}

#[test]
fn to_num_leading_zeros() {
    assert_eq!(AuditParser::to_num("007"), Ok(7));
}

#[test]
fn to_num_rejects_empty_and_garbage() {
    assert_eq!(AuditParser::to_num(""), Err(AuditError::InvalidNumber));
    assert_eq!(AuditParser::to_num("12a"), Err(AuditError::InvalidNumber));
    assert_eq!(AuditParser::to_num("-"), Err(AuditError::InvalidNumber));
    assert_eq!(AuditParser::to_num("1.5"), Err(AuditError::InvalidNumber));
}

#[test]
fn to_num_rejects_out_of_range() {
    assert_eq!(
        AuditParser::to_num("99999999999999999999999999"),
        Err(AuditError::InvalidNumber)
    );
    assert_eq!(AuditParser::to_num("9223372036854775807"), Ok(isize::MAX));
    assert_eq!(
        AuditParser::to_num("9223372036854775808"),
        Err(AuditError::InvalidNumber)
    );
    assert_eq!(AuditParser::to_num("-9223372036854775808"), Ok(isize::MIN));
    assert_eq!(
        AuditParser::to_num("-9223372036854775809"),
        Err(AuditError::InvalidNumber)
    );
}

#[test]
fn parse_fixed_whole_and_fractions() {
    assert_eq!(parse_fixed("4.00").unwrap().milli, 4000);
    assert_eq!(parse_fixed("3.456").unwrap().milli, 3456);
    assert_eq!(parse_fixed("21").unwrap().milli, 21000);
    assert_eq!(parse_fixed("1.2").unwrap().milli, 1200);
    assert_eq!(parse_fixed("0.05").unwrap().milli, 50);
}

#[test]
fn parse_fixed_rejects_malformed() {
    assert_eq!(parse_fixed("1.2345"), Err(AuditError::InvalidDecimal));
    assert_eq!(parse_fixed("."), Err(AuditError::InvalidDecimal));
    assert_eq!(parse_fixed("1."), Err(AuditError::InvalidDecimal));
    assert_eq!(parse_fixed(".5"), Err(AuditError::InvalidDecimal));
    assert_eq!(parse_fixed("abc"), Err(AuditError::InvalidDecimal));
    assert_eq!(parse_fixed(""), Err(AuditError::InvalidDecimal));
    assert_eq!(parse_fixed("-1.0"), Err(AuditError::InvalidDecimal));
}
