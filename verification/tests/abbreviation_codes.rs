use audit_parser::abbreviations::{NUPath, Season, SeasonWord, Status};

#[test]
fn nupath_all_codes_roundtrip() {
    let all = [
        NUPath::ND,
        NUPath::EI,
        NUPath::IC,
        NUPath::FQ,
        NUPath::SI,
        NUPath::AD,
        NUPath::DD,
        NUPath::ER,
        NUPath::WF,
        NUPath::WD,
        NUPath::WI,
        NUPath::EX,
        NUPath::CE,
    ];
    for p in all {
        assert_eq!(NUPath::try_from(p.fmt()), Ok(p));
    }
}

#[test]
fn nupath_rejects_unknown_code() {
    assert!(NUPath::try_from("ZZ").is_err());
    assert!(NUPath::try_from("nd").is_err());
    assert!(NUPath::try_from("").is_err());
}

#[test]
fn season_codes_roundtrip() {
    let all = [Season::FL, Season::SP, Season::S1, Season::S2, Season::SM];
    for s in all {
        assert_eq!(Season::try_from(s.fmt()), Ok(s));
    }
    assert!(Season::try_from("XX").is_err());
}

#[test]
fn season_default_is_fall() {
    assert_eq!(Season::default(), Season::FL);
}

#[test]
fn status_codes_roundtrip() {
    let all = [Status::IP, Status::OK, Status::NO];
    for s in all {
        assert_eq!(Status::try_from(s.fmt()), Ok(s));
    }
    assert!(Status::try_from("KO").is_err());
}

#[test]
fn season_words() {
    assert_eq!(SeasonWord::Fall.fmt(), "fall");
    assert_eq!(SeasonWord::Spring.fmt(), "spring");
    assert_eq!(SeasonWord::Summer1.fmt(), "summer1");
    assert_eq!(SeasonWord::Summer2.fmt(), "summer2");
}
