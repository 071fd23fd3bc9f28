//! The audit transformation engine: the output aggregate, the node
//! extractors, and the tree-walking transformer that routes every parse-tree
//! node to the extractor for its construct.

use vstd::prelude::*;
use crate::abbreviations::{season_from_code, NUPath, Season, Status};
use crate::abbreviations::{nupath_from_code, status_from_code};
use crate::dates::{parse_mdy_date, parsed_mdy, Date};
use crate::errors::AuditError;
use crate::fixed::{parse_fixed, parse_fixed_spec, FixedPoint};
use crate::numbers::{all_digits, digits_val, parse_int_spec};
use crate::parser_types::default_requirement;
use crate::parser_types::{CompleteCourse, CompleteCourseV, Requirement, RequirementV};
use crate::text::{contains_seq, contains_str, split_on, split_spec, views_of};
use crate::tree::{
    list_views, node_views, nu_views, CourseFieldsV, InfoFieldsV, ListToken, ListTokenV, Node,
    NodeV, NuToken, NuTokenV,
};

verus! {

/// The output aggregate of one audit transformation: identifying facts,
/// the three-way partitions of courses and NUPath categories, and the
/// summary statistics.
#[derive(Debug, Clone, PartialEq)]
pub struct AuditToJson {
    pub majors: Vec<String>,
    pub minors: Vec<String>,
    pub audit_year: isize,
    pub grad_date: Date,
    pub complete_nupaths: Vec<NUPath>,
    pub complete_courses: Vec<CompleteCourse>,
    pub ip_nupaths: Vec<NUPath>,
    pub ip_courses: Vec<CompleteCourse>,
    pub required_nupaths: Vec<NUPath>,
    pub required_courses: Vec<Requirement>,
    pub earned_hours: FixedPoint,
    pub courses_taken: isize,
    pub attempted_hours: FixedPoint,
    pub points: FixedPoint,
    pub gpa: FixedPoint,
}

/// The view of the aggregate, over mathematical types; the fixed-point
/// statistics are carried as their counts of thousandths.
pub struct AuditV {
    pub majors: Seq<Seq<char>>,
    pub minors: Seq<Seq<char>>,
    pub audit_year: int,
    pub grad_date: Date,
    pub complete_nupaths: Seq<NUPath>,
    pub complete_courses: Seq<CompleteCourseV>,
    pub ip_nupaths: Seq<NUPath>,
    pub ip_courses: Seq<CompleteCourseV>,
    pub required_nupaths: Seq<NUPath>,
    pub required_courses: Seq<RequirementV>,
    pub earned_hours: int,
    pub courses_taken: int,
    pub attempted_hours: int,
    pub points: int,
    pub gpa: int,
}

/// The views of a sequence of completed courses.
pub open spec fn course_views(v: Seq<CompleteCourse>) -> Seq<CompleteCourseV> {
    v.map_values(|c: CompleteCourse| c@)
}

/// The views of a sequence of required-course entries.
pub open spec fn requirement_views(v: Seq<Requirement>) -> Seq<RequirementV> {
    v.map_values(|r: Requirement| r@)
}

impl View for AuditToJson {
    type V = AuditV;

    open spec fn view(&self) -> AuditV {
        AuditV {
            majors: views_of(self.majors@),
            minors: views_of(self.minors@),
            audit_year: self.audit_year as int,
            grad_date: self.grad_date,
            complete_nupaths: self.complete_nupaths@,
            complete_courses: course_views(self.complete_courses@),
            ip_nupaths: self.ip_nupaths@,
            ip_courses: course_views(self.ip_courses@),
            required_nupaths: self.required_nupaths@,
            required_courses: requirement_views(self.required_courses@),
            earned_hours: self.earned_hours.milli as int,
            courses_taken: self.courses_taken as int,
            attempted_hours: self.attempted_hours.milli as int,
            points: self.points.milli as int,
            gpa: self.gpa.milli as int,
        }
    }
}

/// The aggregate every transformation starts from: empty lists, catalog
/// year 2020, the first of January 2020 as the sentinel date, and zeroed
/// statistics.
pub open spec fn initial_audit() -> AuditV {
    AuditV {
        majors: Seq::empty(),
        minors: Seq::empty(),
        audit_year: 2020,
        grad_date: Date { year: 2020, month: 1, day: 1 },
        complete_nupaths: Seq::empty(),
        complete_courses: Seq::empty(),
        ip_nupaths: Seq::empty(),
        ip_courses: Seq::empty(),
        required_nupaths: Seq::empty(),
        required_courses: Seq::empty(),
        earned_hours: 0,
        courses_taken: 0,
        attempted_hours: 0,
        points: 0,
        gpa: 0,
    }
}

impl AuditToJson {
    /// A fresh aggregate, exactly the state `initial_audit` describes.
    pub fn new() -> (r: Self)
        ensures
            r@ == initial_audit(),
    {
        let r = AuditToJson {
            majors: Vec::new(),
            minors: Vec::new(),
            audit_year: 2020,
            grad_date: Date { year: 2020, month: 1, day: 1 },
            complete_nupaths: Vec::new(),
            complete_courses: Vec::new(),
            ip_nupaths: Vec::new(),
            ip_courses: Vec::new(),
            required_nupaths: Vec::new(),
            required_courses: Vec::new(),
            earned_hours: FixedPoint::zero(),
            courses_taken: 0,
            attempted_hours: FixedPoint::zero(),
            points: FixedPoint::zero(),
            gpa: FixedPoint::zero(),
        };
        proof {
            assert(r@.majors =~= Seq::<Seq<char>>::empty());
            assert(r@.minors =~= Seq::<Seq<char>>::empty());
            assert(r@.complete_courses =~= Seq::<CompleteCourseV>::empty());
            assert(r@.ip_courses =~= Seq::<CompleteCourseV>::empty());
            assert(r@.required_courses =~= Seq::<RequirementV>::empty());
        }
        r
    }
}

/// The numeric suffix that closes a term identifier for each season.
pub open spec fn season_suffix(s: Season) -> int {
    match s {
        Season::FL => 10,
        Season::SP => 30,
        Season::S1 => 40,
        Season::S2 => 60,
        Season::SM => 50,
    }
}

/// The integer formed by writing "20" in front of `y` written as a
/// zero-padded two-digit year ("20" + "05" reads as 2005); a year that has
/// outgrown two digits keeps its own digits ("20" + "100" reads as 20100).
pub open spec fn twenty_prefixed(y: int) -> int {
    if y < 100 {
        2000 + y
    } else if y < 1000 {
        20000 + y
    } else {
        200000 + y
    }
}

/// The institution's canonical term identifier of a (season, year) pair:
/// the 4-digit century-plus-year prefix ("20" followed by the zero-padded
/// two-digit year), then the season suffix, all run together and read as
/// one integer. Fall terms are labeled by the following calendar year, so
/// the year is incremented first; the one incremented year that no longer
/// fits two digits, 100, is read by literal concatenation, so fall of year
/// 99 yields 2010010.
pub open spec fn term_id_spec(season: Season, year: int) -> int {
    let y = if season is FL {
        year + 1
    } else {
        year
    };
    twenty_prefixed(y) * 100 + season_suffix(season)
}

/// For every season but fall, and every two-digit year (zero-padded when
/// under ten), the term identifier is the integer formed by "20", the
/// year, and the season suffix.
pub proof fn lemma_term_id_non_fall(season: Season, year: int)
    requires
        season !is FL,
        0 <= year <= 99,
    ensures
        term_id_spec(season, year) == 200000 + year * 100 + season_suffix(season),
{
}

/// For fall, the year is incremented before prefixing: while the
/// incremented year still fits two digits, the identifier is "20", the
/// incremented year, and the fall suffix.
pub proof fn lemma_term_id_fall(year: int)
    requires
        0 <= year <= 98,
    ensures
        term_id_spec(Season::FL, year) == 200000 + (year + 1) * 100 + 10,
{
}

/// The parser over an audit document's tree of grammar constructs.
#[derive(Debug, Clone)]
pub struct AuditParser;

impl AuditParser {
    /// The canonical term identifier of a (season, year) pair, exactly as
    /// `term_id_spec` describes.
    pub fn get_termid(season: Season, year: isize) -> (r: isize)
        requires
            0 <= year <= 9998,
        ensures
            r == term_id_spec(season, year as int),
    {
        let y: isize = match season {
            Season::FL => year + 1,
            _ => year,
        };
        let prefix: isize = if y < 100 {
            2000 + y
        } else if y < 1000 {
            20000 + y
        } else {
            200000 + y
        };
        let suffix: isize = match season {
            Season::FL => 10,
            Season::SP => 30,
            Season::S1 => 40,
            Season::S2 => 60,
            Season::SM => 50,
        };
        prefix * 100 + suffix
    }

    /// Reads signed integer text in base ten, as `parse_int_spec`
    /// describes: failure exactly when the text is malformed or the value
    /// does not fit.
    pub fn to_num(input: &str) -> (r: Result<isize, AuditError>)
        ensures
            r matches Ok(v) ==> parse_int_spec(input@) == Some(v as int),
            r is Err <==> parse_int_spec(input@) is None,
            r matches Err(e) ==> e == AuditError::InvalidNumber,
    {
        crate::numbers::parse_isize(input)
    }

    /// One step of the fold over an NUPath line's tokens: a status token
    /// sets the status slot to whatever its code denotes, a category token
    /// sets the category slot, and any other token changes nothing.
    pub open spec fn nupath_token_step(
        acc: (Option<Status>, Option<NUPath>),
        tok: NuTokenV,
    ) -> (Option<Status>, Option<NUPath>) {
        match tok {
            NuTokenV::Status(s) => (status_from_code(s), acc.1),
            NuTokenV::Id(s) => (acc.0, nupath_from_code(s)),
            NuTokenV::Other(_) => acc,
        }
    }

    /// The fold over an NUPath line's tokens, front to back.
    pub open spec fn nupath_fold(
        acc: (Option<Status>, Option<NUPath>),
        toks: Seq<NuTokenV>,
    ) -> (Option<Status>, Option<NUPath>)
        decreases toks.len(),
    {
        if toks.len() == 0 {
            acc
        } else {
            Self::nupath_fold(Self::nupath_token_step(acc, toks[0]), toks.skip(1))
        }
    }

    /// What an NUPath line classifies as: its last status token's status
    /// and its last category token's category, either absent when no token
    /// of its kind carries a recognized code.
    pub open spec fn extract_nupath_spec(toks: Seq<NuTokenV>) -> (Option<Status>, Option<
        NUPath,
    >) {
        Self::nupath_fold((None, None), toks)
    }

    /// Folds over the children of an NUPath node, capturing at most one
    /// status and one category; a missing or unrecognized code leaves its
    /// slot empty, for the caller to log and skip.
    pub fn extract_nupath(rules: &Vec<NuToken>) -> (r: (Option<Status>, Option<NUPath>))
        ensures
            r == Self::extract_nupath_spec(nu_views(rules@)),
    {
        let ghost toks = nu_views(rules@);
        let mut status: Option<Status> = None;
        let mut id: Option<NUPath> = None;
        let mut i: usize = 0;
        proof {
            assert(toks.skip(0) =~= toks);
        }
        while i < rules.len()
            invariant
                i <= rules.len(),
                toks == nu_views(rules@),
                toks.len() == rules@.len(),
                Self::extract_nupath_spec(toks) == Self::nupath_fold(
                    (status, id),
                    toks.skip(i as int),
                ),
            decreases rules.len() - i,
        {
            proof {
                assert(toks.skip(i as int)[0] == toks[i as int]);
                assert(toks.skip(i as int).skip(1) =~= toks.skip(i as int + 1));
            }
            match &rules[i] {
                NuToken::Status(s) => {
                    status = match Status::try_from(s.as_str()) {
                        Ok(st) => Some(st),
                        Err(_) => None,
                    };
                },
                NuToken::Id(s) => {
                    id = match NUPath::try_from(s.as_str()) {
                        Ok(p) => Some(p),
                        Err(_) => None,
                    };
                },
                NuToken::Other(_) => {},
            }
            i += 1;
        }
        proof {
            assert(toks.skip(rules@.len() as int) =~= Seq::<NuTokenV>::empty());
        }
        (status, id)
    }
}

/// The view of an optional owned string.
pub open spec fn opt_view(o: Option<String>) -> Option<Seq<char>> {
    match o {
        Some(s) => Some(s@),
        None => None,
    }
}

/// Clones an optional owned string.
fn clone_opt(o: &Option<String>) -> (r: Option<String>)
    ensures
        opt_view(r) == opt_view(*o),
{
    match o {
        Some(s) => Some(s.clone()),
        None => None,
    }
}

/// Whether a packed year code is well formed: a recognized 2-character
/// season prefix, then at least one digit, the digits reading to a year the
/// term-identifier codec accepts.
pub open spec fn year_code_ok(y: Seq<char>) -> bool {
    y.len() >= 3 && season_from_code(y.take(2)) is Some && all_digits(y.skip(2)) && digits_val(
        y.skip(2),
    ) <= 9998
}

impl AuditParser {
    /// What a course line's fields denote: the year code decomposed into
    /// season and year with the term identifier derived from the pair, the
    /// other fields carried over, defaults where a field is absent. The
    /// in-progress flag of the result is always false: the in-progress
    /// marker check is kept for compatibility with documents that carry the
    /// marker, but a match deliberately never sets the flag, so every course
    /// line lands in the completed bucket.
    pub open spec fn course_of_fields(f: CourseFieldsV) -> Result<
        (CompleteCourseV, bool),
        AuditError,
    > {
        if f.year matches Some(y) && !year_code_ok(y) {
            Err(AuditError::InvalidYearCode)
        } else if f.credits matches Some(t) && parse_fixed_spec(t) is None {
            Err(AuditError::InvalidDecimal)
        } else {
            let (season, year) = match f.year {
                Some(y) => (season_from_code(y.take(2)).unwrap(), digits_val(y.skip(2))),
                None => (Season::FL, 0int),
            };
            let term_id = match f.year {
                Some(y) => term_id_spec(season, year),
                None => 0int,
            };
            Ok(
                (
                    CompleteCourseV {
                        hon: match f.maybe_ip {
                            Some(m) => contains_seq(m, "(HON)"@),
                            None => false,
                        },
                        subject: match f.course {
                            Some(s) => s,
                            None => Seq::empty(),
                        },
                        class_id: 0,
                        name: match f.name {
                            Some(n) => n,
                            None => Seq::empty(),
                        },
                        credit_hours: match f.credits {
                            Some(t) => parse_fixed_spec(t).unwrap(),
                            None => 0int,
                        },
                        season: season,
                        year: year,
                        term_id: term_id,
                    },
                    false,
                ),
            )
        }
    }

    /// Decomposes a course line into a completed course and its in-progress
    /// flag, exactly as `course_of_fields` describes. The trailing modifier
    /// tag is searched for the honors and in-progress markers; matching the
    /// in-progress marker deliberately leaves the flag false rather than
    /// setting it, a compatibility choice `course_of_fields` documents.
    pub fn extract_course(rules: &crate::tree::CourseFields) -> (r: Result<
        (CompleteCourse, bool),
        AuditError,
    >)
        ensures
            r matches Ok(p) ==> Self::course_of_fields(rules@) == Ok::<
                (CompleteCourseV, bool),
                AuditError,
            >((p.0@, p.1)),
            r matches Err(e) ==> Self::course_of_fields(rules@) == Err::<
                (CompleteCourseV, bool),
                AuditError,
            >(e),
    {
        let mut course = CompleteCourse::default();
        let in_progress = false;
        match &rules.year {
            Some(y) => {
                let n = y.as_str().unicode_len();
                if n < 3 {
                    return Err(AuditError::InvalidYearCode);
                }
                let season_str = y.as_str().substring_char(0, 2);
                let season = match Season::try_from(season_str) {
                    Ok(s) => s,
                    Err(_) => {
                        return Err(AuditError::InvalidYearCode);
                    },
                };
                let digits = y.as_str().substring_char(2, n);
                proof {
                    assert(season_str@ =~= y@.take(2));
                    assert(digits@ =~= y@.skip(2));
                }
                let year = match crate::numbers::digits_value_upto(digits, 9998) {
                    Some(v) => v as usize as isize,
                    None => {
                        return Err(AuditError::InvalidYearCode);
                    },
                };
                course.season = season;
                course.year = year;
                course.term_id = Self::get_termid(season, year);
            },
            None => {},
        }
        match &rules.course {
            Some(s) => {
                course.subject = s.clone();
            },
            None => {},
        }
        match &rules.credits {
            Some(t) => {
                course.credit_hours = match parse_fixed(t.as_str()) {
                    Ok(f) => f,
                    Err(e) => {
                        return Err(e);
                    },
                };
            },
            None => {},
        }
        match &rules.name {
            Some(nm) => {
                course.name = nm.clone();
            },
            None => {},
        }
        match &rules.maybe_ip {
            Some(m) => {
                if contains_str(m.as_str(), "IP") {
                    // recognized for compatibility; a match never sets the flag
                }
                if contains_str(m.as_str(), "(HON)") {
                    course.hon = true;
                }
            },
            None => {},
        }
        Ok((course, in_progress))
    }
}

/// The state the course-list fold threads: the entries so far, whether the
/// previous token was the range word (awaiting the range's end), and the
/// last explicit subject seen in this list.
pub struct ListState {
    pub entries: Seq<RequirementV>,
    pub awaiting_range_end: bool,
    pub last_subject: Option<Seq<char>>,
}

impl AuditParser {
    /// The state a course-list fold starts from: no entries, awaiting an
    /// ordinary entry, no subject seen.
    pub open spec fn list_state_init() -> ListState {
        ListState { entries: Seq::empty(), awaiting_range_end: false, last_subject: None }
    }

    /// One transition of the course-list state machine. The range word
    /// moves to the awaiting-range-end state. A course token whose number
    /// does not read as an integer fails. Otherwise, awaiting an entry, the
    /// token becomes a new entry; awaiting a range end, it closes the most
    /// recently pushed entry by setting its secondary number instead. An
    /// entry with no explicit subject inherits the last explicit subject
    /// seen, this token's own included.
    pub open spec fn list_token_step(st: ListState, tok: ListTokenV) -> Result<
        ListState,
        AuditError,
    > {
        match tok {
            ListTokenV::To => Ok(
                ListState {
                    entries: st.entries,
                    awaiting_range_end: true,
                    last_subject: st.last_subject,
                },
            ),
            ListTokenV::Course { subject, number } => match parse_int_spec(number) {
                None => Err(AuditError::InvalidNumber),
                Some(num) => {
                    let last1 = if subject is Some {
                        subject
                    } else {
                        st.last_subject
                    };
                    if st.awaiting_range_end {
                        if st.entries.len() == 0 {
                            Err(AuditError::RangeWithoutStart)
                        } else {
                            let base = st.entries.last();
                            let withend = RequirementV {
                                class_id_2: Some(num),
                                ..base
                            };
                            let entry = if withend.subject is None {
                                RequirementV { subject: last1, ..withend }
                            } else {
                                withend
                            };
                            Ok(
                                ListState {
                                    entries: st.entries.drop_last().push(entry),
                                    awaiting_range_end: false,
                                    last_subject: last1,
                                },
                            )
                        }
                    } else {
                        let entry0 = RequirementV {
                            class_id: num,
                            subject: subject,
                            ..default_requirement()
                        };
                        let entry = if entry0.subject is None {
                            RequirementV { subject: last1, ..entry0 }
                        } else {
                            entry0
                        };
                        Ok(
                            ListState {
                                entries: st.entries.push(entry),
                                awaiting_range_end: false,
                                last_subject: last1,
                            },
                        )
                    }
                },
            },
        }
    }

    /// The course-list state machine run over a token sequence, front to
    /// back, stopping at the first failure.
    pub open spec fn list_fold(st: ListState, toks: Seq<ListTokenV>) -> Result<
        ListState,
        AuditError,
    >
        decreases toks.len(),
    {
        if toks.len() == 0 {
            Ok(st)
        } else {
            match Self::list_token_step(st, toks[0]) {
                Ok(st2) => Self::list_fold(st2, toks.skip(1)),
                Err(e) => Err(e),
            }
        }
    }

    /// The entries a course list denotes: the state machine's entries after
    /// all tokens, in order.
    pub open spec fn extract_course_list_spec(toks: Seq<ListTokenV>) -> Result<
        Seq<RequirementV>,
        AuditError,
    > {
        match Self::list_fold(Self::list_state_init(), toks) {
            Ok(st) => Ok(st.entries),
            Err(e) => Err(e),
        }
    }

    /// Walks a course list's tokens, maintaining the awaiting-range-end
    /// flag and the last explicit subject, exactly as
    /// `extract_course_list_spec` describes: a number after the range word
    /// closes the previous entry rather than opening a new one, and an
    /// entry without a subject inherits the last explicit one.
    pub fn extract_course_list(rules: &Vec<ListToken>) -> (r: Result<Vec<Requirement>, AuditError>)
        ensures
            r matches Ok(v) ==> Self::extract_course_list_spec(list_views(rules@)) == Ok::<
                Seq<RequirementV>,
                AuditError,
            >(requirement_views(v@)),
            r matches Err(e) ==> Self::extract_course_list_spec(list_views(rules@)) == Err::<
                Seq<RequirementV>,
                AuditError,
            >(e),
    {
        let ghost toks = list_views(rules@);
        let mut requirements: Vec<Requirement> = Vec::new();
        let mut prev_id: bool = false;
        let mut last_subject: Option<String> = None;
        let mut i: usize = 0;
        proof {
            assert(toks.skip(0) =~= toks);
            assert(requirement_views(requirements@) =~= Seq::<RequirementV>::empty());
        }
        while i < rules.len()
            invariant
                i <= rules.len(),
                toks == list_views(rules@),
                toks.len() == rules@.len(),
                Self::list_fold(Self::list_state_init(), toks) == Self::list_fold(
                    ListState {
                        entries: requirement_views(requirements@),
                        awaiting_range_end: prev_id,
                        last_subject: opt_view(last_subject),
                    },
                    toks.skip(i as int),
                ),
            decreases rules.len() - i,
        {
            proof {
                assert(toks.skip(i as int)[0] == toks[i as int]);
                assert(toks.skip(i as int).skip(1) =~= toks.skip(i as int + 1));
            }
            let ghost st = ListState {
                entries: requirement_views(requirements@),
                awaiting_range_end: prev_id,
                last_subject: opt_view(last_subject),
            };
            match &rules[i] {
                ListToken::To => {
                    prev_id = true;
                },
                ListToken::Course { subject, number } => {
                    let num = match Self::to_num(number.as_str()) {
                        Ok(v) => v,
                        Err(e) => {
                            return Err(e);
                        },
                    };
                    let mut requirement: Requirement;
                    if prev_id {
                        requirement = match requirements.pop() {
                            Some(rq) => rq,
                            None => {
                                return Err(AuditError::RangeWithoutStart);
                            },
                        };
                        proof {
                            assert(requirement_views(requirements@) =~= st.entries.drop_last());
                        }
                        requirement.class_id_2 = Some(num);
                    } else {
                        requirement = Requirement::default();
                        requirement.class_id = num;
                        match subject {
                            Some(sub) => {
                                requirement.subject = Some(sub.clone());
                            },
                            None => {},
                        }
                    }
                    match subject {
                        Some(sub) => {
                            last_subject = Some(sub.clone());
                        },
                        None => {},
                    }
                    if requirement.subject.is_none() {
                        requirement.subject = clone_opt(&last_subject);
                    }
                    let ghost before_push = requirement_views(requirements@);
                    let ghost pushed = requirement@;
                    requirements.push(requirement);
                    proof {
                        assert(requirement_views(requirements@) =~= before_push.push(pushed));
                    }
                    prev_id = false;
                },
            }
            i += 1;
        }
        proof {
            assert(toks.skip(rules@.len() as int) =~= Seq::<ListTokenV>::empty());
        }
        Ok(requirements)
    }
}

impl AuditParser {
    /// What the summary section does to the aggregate: each present field
    /// is converted and stored, in field order; the earned hours, attempted
    /// hours, quality points and GPA as decimals, the courses-taken count
    /// as an integer; the first conversion failure aborts.
    pub open spec fn info_apply(acc: AuditV, f: InfoFieldsV) -> Result<AuditV, AuditError> {
        if f.earned_hours matches Some(t) && parse_fixed_spec(t) is None {
            Err(AuditError::InvalidDecimal)
        } else if f.courses_taken matches Some(t) && parse_int_spec(t) is None {
            Err(AuditError::InvalidNumber)
        } else if f.attempted_hours matches Some(t) && parse_fixed_spec(t) is None {
            Err(AuditError::InvalidDecimal)
        } else if f.points matches Some(t) && parse_fixed_spec(t) is None {
            Err(AuditError::InvalidDecimal)
        } else if f.gpa matches Some(t) && parse_fixed_spec(t) is None {
            Err(AuditError::InvalidDecimal)
        } else {
            Ok(
                AuditV {
                    earned_hours: match f.earned_hours {
                        Some(t) => parse_fixed_spec(t).unwrap(),
                        None => acc.earned_hours,
                    },
                    courses_taken: match f.courses_taken {
                        Some(t) => parse_int_spec(t).unwrap(),
                        None => acc.courses_taken,
                    },
                    attempted_hours: match f.attempted_hours {
                        Some(t) => parse_fixed_spec(t).unwrap(),
                        None => acc.attempted_hours,
                    },
                    points: match f.points {
                        Some(t) => parse_fixed_spec(t).unwrap(),
                        None => acc.points,
                    },
                    gpa: match f.gpa {
                        Some(t) => parse_fixed_spec(t).unwrap(),
                        None => acc.gpa,
                    },
                    ..acc
                },
            )
        }
    }

    /// Extracts the summary statistics into the aggregate, exactly as
    /// `info_apply` describes; a conversion failure is fatal for the whole
    /// parse, and the aggregate is then discarded by the caller. On every
    /// path, failing included, only the five summary fields are touched.
    pub fn extract_info(audit: &mut AuditToJson, rule: &crate::tree::InfoFields) -> (r: Result<
        (),
        AuditError,
    >)
        ensures
            r matches Ok(p) ==> Self::info_apply(old(audit)@, rule@) == Ok::<AuditV, AuditError>(
                final(audit)@,
            ),
            r matches Err(e) ==> Self::info_apply(old(audit)@, rule@) == Err::<AuditV, AuditError>(
                e,
            ),
            final(audit)@.majors == old(audit)@.majors,
            final(audit)@.minors == old(audit)@.minors,
            final(audit)@.audit_year == old(audit)@.audit_year,
            final(audit)@.grad_date == old(audit)@.grad_date,
            final(audit)@.complete_nupaths == old(audit)@.complete_nupaths,
            final(audit)@.complete_courses == old(audit)@.complete_courses,
            final(audit)@.ip_nupaths == old(audit)@.ip_nupaths,
            final(audit)@.ip_courses == old(audit)@.ip_courses,
            final(audit)@.required_nupaths == old(audit)@.required_nupaths,
            final(audit)@.required_courses == old(audit)@.required_courses,
    {
        match &rule.earned_hours {
            Some(t) => {
                audit.earned_hours = match parse_fixed(t.as_str()) {
                    Ok(f) => f,
                    Err(e) => {
                        return Err(e);
                    },
                };
            },
            None => {},
        }
        match &rule.courses_taken {
            Some(t) => {
                audit.courses_taken = match Self::to_num(t.as_str()) {
                    Ok(v) => v,
                    Err(e) => {
                        return Err(e);
                    },
                };
            },
            None => {},
        }
        match &rule.attempted_hours {
            Some(t) => {
                audit.attempted_hours = match parse_fixed(t.as_str()) {
                    Ok(f) => f,
                    Err(e) => {
                        return Err(e);
                    },
                };
            },
            None => {},
        }
        match &rule.points {
            Some(t) => {
                audit.points = match parse_fixed(t.as_str()) {
                    Ok(f) => f,
                    Err(e) => {
                        return Err(e);
                    },
                };
            },
            None => {},
        }
        match &rule.gpa {
            Some(t) => {
                audit.gpa = match parse_fixed(t.as_str()) {
                    Ok(f) => f,
                    Err(e) => {
                        return Err(e);
                    },
                };
            },
            None => {},
        }
        Ok(())
    }
}

impl AuditParser {
    /// What one parse-tree node does to the aggregate. The wrapper
    /// constructs descend and re-dispatch; a major block appends its lines
    /// as major names; the date and catalog leaves set the graduation date
    /// and audit year, failing fatally when malformed; an NUPath line is
    /// routed into the bucket of its status, or skipped when its
    /// classification is incomplete; a course list appends to the required
    /// courses; a single course is routed by its in-progress flag; the
    /// summary section fills the statistics; an unknown construct changes
    /// nothing.
    pub open spec fn node_step(acc: AuditV, node: NodeV) -> Result<AuditV, AuditError>
        decreases node,
    {
        match node {
            NodeV::GradDateSection(b) => Self::node_step(acc, *b),
            NodeV::CatalogSection(b) => Self::node_step(acc, *b),
            NodeV::CourseOption(b) => Self::node_step(acc, *b),
            NodeV::MajorBlock(text) => Ok(
                AuditV { majors: acc.majors + split_spec(text, '\n'), ..acc },
            ),
            NodeV::DateLeaf(t) => match parsed_mdy(t) {
                Some(ymd) => Ok(
                    AuditV {
                        grad_date: Date {
                            year: ymd.0 as isize,
                            month: ymd.1 as isize,
                            day: ymd.2 as isize,
                        },
                        ..acc
                    },
                ),
                None => Err(AuditError::InvalidDate),
            },
            NodeV::CatalogNumLeaf(t) => match parse_int_spec(t) {
                Some(v) => Ok(AuditV { audit_year: v, ..acc }),
                None => Err(AuditError::InvalidNumber),
            },
            NodeV::NuPathNode(toks) => match Self::extract_nupath_spec(toks) {
                (Some(Status::OK), Some(p)) => Ok(
                    AuditV { complete_nupaths: acc.complete_nupaths.push(p), ..acc },
                ),
                (Some(Status::IP), Some(p)) => Ok(
                    AuditV { ip_nupaths: acc.ip_nupaths.push(p), ..acc },
                ),
                (Some(Status::NO), Some(p)) => Ok(
                    AuditV { required_nupaths: acc.required_nupaths.push(p), ..acc },
                ),
                _ => Ok(acc),
            },
            NodeV::CourseListNode(toks) => match Self::extract_course_list_spec(toks) {
                Ok(entries) => Ok(
                    AuditV { required_courses: acc.required_courses + entries, ..acc },
                ),
                Err(e) => Err(e),
            },
            NodeV::SingleCourseNode(f) => match Self::course_of_fields(f) {
                Ok(p) => if p.1 {
                    Ok(AuditV { ip_courses: acc.ip_courses.push(p.0), ..acc })
                } else {
                    Ok(AuditV { complete_courses: acc.complete_courses.push(p.0), ..acc })
                },
                Err(e) => Err(e),
            },
            NodeV::InfoNode(f) => Self::info_apply(acc, f),
            NodeV::Unknown(_) => Ok(acc),
        }
    }

    /// Routes one node to the extractor for its construct, exactly as
    /// `node_step` describes. On failure the aggregate is abandoned by the
    /// caller, so only the error is specified.
    pub fn parse_inner(out: &mut AuditToJson, rule: &Node) -> (r: Result<(), AuditError>)
        ensures
            r matches Ok(p) ==> Self::node_step(old(out)@, rule@) == Ok::<AuditV, AuditError>(
                final(out)@,
            ),
            r matches Err(e) ==> Self::node_step(old(out)@, rule@) == Err::<AuditV, AuditError>(e),
        decreases rule,
    {
        match rule {
            Node::GradDateSection(b) => Self::parse_inner(out, &**b),
            Node::CatalogSection(b) => Self::parse_inner(out, &**b),
            Node::CourseOption(b) => Self::parse_inner(out, &**b),
            Node::MajorBlock(text) => {
                let mut majors = split_on(text.as_str(), '\n');
                let ghost before = views_of(out.majors@);
                let ghost added = views_of(majors@);
                out.majors.append(&mut majors);
                proof {
                    assert(views_of(out.majors@) =~= before + added);
                }
                Ok(())
            },
            Node::DateLeaf(t) => {
                match parse_mdy_date(t.as_str()) {
                    Some(d) => {
                        out.grad_date = d;
                        Ok(())
                    },
                    None => Err(AuditError::InvalidDate),
                }
            },
            Node::CatalogNumLeaf(t) => {
                match Self::to_num(t.as_str()) {
                    Ok(v) => {
                        out.audit_year = v;
                        Ok(())
                    },
                    Err(e) => Err(e),
                }
            },
            Node::NuPathNode(toks) => {
                let info = Self::extract_nupath(toks);
                match info {
                    (Some(Status::OK), Some(val)) => {
                        out.complete_nupaths.push(val);
                    },
                    (Some(Status::IP), Some(val)) => {
                        out.ip_nupaths.push(val);
                    },
                    (Some(Status::NO), Some(val)) => {
                        out.required_nupaths.push(val);
                    },
                    _ => {
                        // an incomplete classification is skipped; the
                        // caller may report it as a diagnostic
                    },
                }
                Ok(())
            },
            Node::CourseListNode(toks) => {
                match Self::extract_course_list(toks) {
                    Ok(mut required_courses) => {
                        let ghost before = requirement_views(out.required_courses@);
                        let ghost added = requirement_views(required_courses@);
                        out.required_courses.append(&mut required_courses);
                        proof {
                            assert(requirement_views(out.required_courses@) =~= before + added);
                        }
                        Ok(())
                    },
                    Err(e) => Err(e),
                }
            },
            Node::SingleCourseNode(f) => {
                match Self::extract_course(f) {
                    Ok((course, is_in_progress)) => {
                        if is_in_progress {
                            let ghost before = course_views(out.ip_courses@);
                            let ghost cv = course@;
                            out.ip_courses.push(course);
                            proof {
                                assert(course_views(out.ip_courses@) =~= before.push(cv));
                            }
                        } else {
                            let ghost before = course_views(out.complete_courses@);
                            let ghost cv = course@;
                            out.complete_courses.push(course);
                            proof {
                                assert(course_views(out.complete_courses@) =~= before.push(cv));
                            }
                        }
                        Ok(())
                    },
                    Err(e) => Err(e),
                }
            },
            Node::InfoNode(f) => Self::extract_info(out, f),
            Node::Unknown(_) => Ok(()),
        }
    }
}

impl AuditParser {
    /// The transformer run over the root's children, in document order,
    /// stopping at the first fatal failure.
    pub open spec fn run_nodes(acc: AuditV, nodes: Seq<NodeV>) -> Result<AuditV, AuditError>
        decreases nodes.len(),
    {
        if nodes.len() == 0 {
            Ok(acc)
        } else {
            match Self::node_step(acc, nodes[0]) {
                Ok(a2) => Self::run_nodes(a2, nodes.skip(1)),
                Err(e) => Err(e),
            }
        }
    }

    /// Whether the tree holds the required graduation-date section.
    pub open spec fn has_grad_section(nodes: Seq<NodeV>) -> bool {
        exists|i: int| 0 <= i < nodes.len() && (#[trigger] nodes[i]) is GradDateSection
    }

    /// What a whole document transforms to: a fatal error when the
    /// graduation-date section is missing, otherwise the transformer run
    /// over its classified lines, starting from the initial aggregate.
    pub open spec fn parse_audit_spec(text: Seq<char>) -> Result<AuditV, AuditError> {
        let nodes = crate::tokenizer::tokenize_spec(text);
        if !Self::has_grad_section(nodes) {
            Err(AuditError::MissingGradDate)
        } else {
            Self::run_nodes(initial_audit(), nodes)
        }
    }

    /// Transforms a whole audit document, exactly as `parse_audit_spec`
    /// describes: a structurally deficient document or a malformed
    /// always-well-formed field is a fatal error and no aggregate is
    /// returned; individually malformed NUPath entries are dropped and the
    /// parse still succeeds.
    pub fn parse_audit(file: &str) -> (r: Result<AuditToJson, AuditError>)
        ensures
            r matches Ok(out) ==> Self::parse_audit_spec(file@) == Ok::<AuditV, AuditError>(out@),
            r matches Err(e) ==> Self::parse_audit_spec(file@) == Err::<AuditV, AuditError>(e),
    {
        let nodes = crate::tokenizer::tokenize(file);
        let ghost views = node_views(nodes@);
        let mut has_grad = false;
        let mut i: usize = 0;
        while i < nodes.len()
            invariant
                i <= nodes@.len(),
                views == node_views(nodes@),
                views.len() == nodes@.len(),
                has_grad == exists|k: int| 0 <= k < i && (#[trigger] views[k]) is GradDateSection,
            decreases nodes.len() - i,
        {
            match &nodes[i] {
                Node::GradDateSection(_) => {
                    proof {
                        assert((views[i as int]) is GradDateSection);
                    }
                    has_grad = true;
                },
                _ => {
                    proof {
                        assert(!((views[i as int]) is GradDateSection));
                    }
                },
            }
            i += 1;
        }
        if !has_grad {
            return Err(AuditError::MissingGradDate);
        }
        let mut out = AuditToJson::new();
        let mut j: usize = 0;
        proof {
            assert(views.skip(0) =~= views);
        }
        while j < nodes.len()
            invariant
                j <= nodes@.len(),
                views == node_views(nodes@),
                views == crate::tokenizer::tokenize_spec(file@),
                views.len() == nodes@.len(),
                Self::has_grad_section(views),
                Self::run_nodes(initial_audit(), views) == Self::run_nodes(
                    out@,
                    views.skip(j as int),
                ),
            decreases nodes.len() - j,
        {
            proof {
                assert(views.skip(j as int)[0] == views[j as int]);
                assert(views.skip(j as int).skip(1) =~= views.skip(j as int + 1));
            }
            match Self::parse_inner(&mut out, &nodes[j]) {
                Ok(_) => {},
                Err(e) => {
                    return Err(e);
                },
            }
            j += 1;
        }
        proof {
            assert(views.skip(nodes@.len() as int) =~= Seq::<NodeV>::empty());
        }
        Ok(out)
    }

    /// Idempotence: the transformation is a pure function of the document
    /// text, so parsing the same text twice yields field-wise equal
    /// aggregates. Together with `parse_audit`'s contract, any two calls on
    /// equal text return views that are equal.
    pub proof fn lemma_parse_audit_deterministic(text: Seq<char>, a1: AuditV, a2: AuditV)
        requires
            Self::parse_audit_spec(text) == Ok::<AuditV, AuditError>(a1),
            Self::parse_audit_spec(text) == Ok::<AuditV, AuditError>(a2),
        ensures
            a1 == a2,
    {
    }

    /// Whether an NUPath line's classification is incomplete: its tokens
    /// leave no recognized status or no recognized category.
    pub open spec fn nupath_line_incomplete(toks: Seq<NuTokenV>) -> bool {
        Self::extract_nupath_spec(toks).0 is None || Self::extract_nupath_spec(toks).1 is None
    }

    /// An NUPath line whose classification is incomplete contributes
    /// nothing: the transformer leaves every bucket of the aggregate
    /// unchanged and reports no error, whether the line stands bare or
    /// wrapped as a course option.
    pub proof fn lemma_incomplete_nupath_no_effect(acc: AuditV, toks: Seq<NuTokenV>)
        requires
            Self::nupath_line_incomplete(toks),
        ensures
            Self::node_step(acc, NodeV::NuPathNode(toks)) == Ok::<AuditV, AuditError>(acc),
            Self::node_step(acc, NodeV::CourseOption(Box::new(NodeV::NuPathNode(toks))))
                == Ok::<AuditV, AuditError>(acc),
    {
        assert(Self::node_step(acc, NodeV::NuPathNode(toks)) == Ok::<AuditV, AuditError>(acc));
    }

    /// An incomplete NUPath line is dropped and the parse still succeeds:
    /// the whole-document transformation, with the line among the root's
    /// children, equals the transformation without it — failing exactly
    /// when the rest fails, and filling every bucket as the rest alone
    /// does.
    pub proof fn lemma_document_drops_incomplete_nupath(
        acc: AuditV,
        nodes: Seq<NodeV>,
        i: int,
    )
        requires
            0 <= i < nodes.len(),
            nodes[i] is CourseOption,
            *nodes[i]->CourseOption_0 is NuPathNode,
            Self::nupath_line_incomplete((*nodes[i]->CourseOption_0)->NuPathNode_0),
        ensures
            Self::run_nodes(acc, nodes) == Self::run_nodes(acc, nodes.remove(i)),
        decreases nodes.len(),
    {
        if i == 0 {
            let toks = (*nodes[0]->CourseOption_0)->NuPathNode_0;
            Self::lemma_incomplete_nupath_no_effect(acc, toks);
            assert(Self::node_step(acc, nodes[0]) == Self::node_step(
                acc,
                *nodes[0]->CourseOption_0,
            ));
            assert(Self::node_step(acc, nodes[0]) == Ok::<AuditV, AuditError>(acc));
            assert(nodes.remove(0) =~= nodes.skip(1));
        } else {
            assert(nodes.remove(i)[0] == nodes[0]);
            match Self::node_step(acc, nodes[0]) {
                Ok(a2) => {
                    assert(nodes.skip(1)[i - 1] == nodes[i]);
                    Self::lemma_document_drops_incomplete_nupath(a2, nodes.skip(1), i - 1);
                    assert(nodes.remove(i).skip(1) =~= nodes.skip(1).remove(i - 1));
                },
                Err(_) => {},
            }
        }
    }
}

impl AuditParser {
    /// The four nodes of a minimal document: the graduation-date section,
    /// one course line, one NUPath line, and the summary block.
    pub open spec fn minimal_document(
        d: Seq<char>,
        f: CourseFieldsV,
        toks: Seq<NuTokenV>,
        g: InfoFieldsV,
    ) -> Seq<NodeV> {
        seq![
            NodeV::GradDateSection(Box::new(NodeV::DateLeaf(d))),
            NodeV::CourseOption(Box::new(NodeV::SingleCourseNode(f))),
            NodeV::CourseOption(Box::new(NodeV::NuPathNode(toks))),
            NodeV::InfoNode(g),
        ]
    }

    /// On a document whose tree holds a graduation-date section, the whole
    /// transformation is exactly the transformer run over the tree from the
    /// initial aggregate.
    pub proof fn lemma_parse_audit_unfolds(text: Seq<char>)
        requires
            Self::has_grad_section(crate::tokenizer::tokenize_spec(text)),
        ensures
            Self::parse_audit_spec(text) == Self::run_nodes(
                initial_audit(),
                crate::tokenizer::tokenize_spec(text),
            ),
    {
    }

    /// The round trip over a minimal document: a parseable date, one course
    /// line that extracts as completed, one NUPath line marked complete, and
    /// a summary block whose five fields all convert transform to exactly
    /// that course in the completed-courses bucket, exactly that category in
    /// the completed-NUPath bucket, that date, and those statistics, with
    /// every other bucket empty. Such a tree holds a graduation-date
    /// section, so by `lemma_parse_audit_unfolds` a document text that
    /// tokenizes to it parses to exactly this aggregate.
    pub proof fn lemma_minimal_document_round_trip(
        d: Seq<char>,
        f: CourseFieldsV,
        toks: Seq<NuTokenV>,
        g: InfoFieldsV,
        c: CompleteCourseV,
        p: NUPath,
    )
        requires
            parsed_mdy(d) is Some,
            Self::course_of_fields(f) == Ok::<(CompleteCourseV, bool), AuditError>((c, false)),
            Self::extract_nupath_spec(toks) == (Some(Status::OK), Some(p)),
            g.earned_hours matches Some(t) && parse_fixed_spec(t) is Some,
            g.courses_taken matches Some(t) && parse_int_spec(t) is Some,
            g.attempted_hours matches Some(t) && parse_fixed_spec(t) is Some,
            g.points matches Some(t) && parse_fixed_spec(t) is Some,
            g.gpa matches Some(t) && parse_fixed_spec(t) is Some,
        ensures
            Self::has_grad_section(Self::minimal_document(d, f, toks, g)),
            Self::run_nodes(initial_audit(), Self::minimal_document(d, f, toks, g)) matches Ok(a)
                && a.complete_courses == seq![c]
                && a.complete_nupaths == seq![p]
                && a.ip_courses.len() == 0
                && a.ip_nupaths.len() == 0
                && a.required_courses.len() == 0
                && a.required_nupaths.len() == 0
                && a.majors.len() == 0
                && a.grad_date == (Date {
                    year: parsed_mdy(d).unwrap().0 as isize,
                    month: parsed_mdy(d).unwrap().1 as isize,
                    day: parsed_mdy(d).unwrap().2 as isize,
                })
                && a.earned_hours == parse_fixed_spec(g.earned_hours.unwrap()).unwrap()
                && a.courses_taken == parse_int_spec(g.courses_taken.unwrap()).unwrap()
                && a.attempted_hours == parse_fixed_spec(g.attempted_hours.unwrap()).unwrap()
                && a.points == parse_fixed_spec(g.points.unwrap()).unwrap()
                && a.gpa == parse_fixed_spec(g.gpa.unwrap()).unwrap(),
    {
        let nodes = Self::minimal_document(d, f, toks, g);
        assert(nodes[0] is GradDateSection);
        let a0 = initial_audit();
        let ymd = parsed_mdy(d).unwrap();
        let a1 = AuditV {
            grad_date: Date {
                year: ymd.0 as isize,
                month: ymd.1 as isize,
                day: ymd.2 as isize,
            },
            ..a0
        };
        assert(Self::node_step(a0, NodeV::DateLeaf(d)) == Ok::<AuditV, AuditError>(a1));
        assert(Self::node_step(a0, nodes[0]) == Ok::<AuditV, AuditError>(a1));
        let a2 = AuditV { complete_courses: a1.complete_courses.push(c), ..a1 };
        assert(Self::node_step(a1, NodeV::SingleCourseNode(f)) == Ok::<AuditV, AuditError>(a2));
        assert(Self::node_step(a1, nodes[1]) == Ok::<AuditV, AuditError>(a2));
        let a3 = AuditV { complete_nupaths: a2.complete_nupaths.push(p), ..a2 };
        assert(Self::node_step(a2, NodeV::NuPathNode(toks)) == Ok::<AuditV, AuditError>(a3));
        assert(Self::node_step(a2, nodes[2]) == Ok::<AuditV, AuditError>(a3));
        let a4 = AuditV {
            earned_hours: parse_fixed_spec(g.earned_hours.unwrap()).unwrap(),
            courses_taken: parse_int_spec(g.courses_taken.unwrap()).unwrap(),
            attempted_hours: parse_fixed_spec(g.attempted_hours.unwrap()).unwrap(),
            points: parse_fixed_spec(g.points.unwrap()).unwrap(),
            gpa: parse_fixed_spec(g.gpa.unwrap()).unwrap(),
            ..a3
        };
        assert(Self::node_step(a3, nodes[3]) == Ok::<AuditV, AuditError>(a4));
        assert(nodes.skip(1)[0] == nodes[1]);
        assert(nodes.skip(2)[0] == nodes[2]);
        assert(nodes.skip(3)[0] == nodes[3]);
        assert(nodes.skip(1).skip(1) =~= nodes.skip(2));
        assert(nodes.skip(2).skip(1) =~= nodes.skip(3));
        assert(nodes.skip(3).skip(1) =~= Seq::<NodeV>::empty());
        assert(Self::run_nodes(a0, nodes) == Self::run_nodes(a1, nodes.skip(1)));
        assert(Self::run_nodes(a1, nodes.skip(1)) == Self::run_nodes(a2, nodes.skip(2)));
        assert(Self::run_nodes(a2, nodes.skip(2)) == Self::run_nodes(a3, nodes.skip(3)));
        assert(Self::run_nodes(a4, Seq::<NodeV>::empty()) == Ok::<AuditV, AuditError>(a4));
        assert(Self::run_nodes(a3, nodes.skip(3)) == Ok::<AuditV, AuditError>(a4));
        assert(a4.complete_courses =~= seq![c]);
        assert(a4.complete_nupaths =~= seq![p]);
    }
}

} // verus!
