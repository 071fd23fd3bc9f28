//! The typed records a parsed audit is made of: completed or in-progress
//! courses, still-required course entries, and the aggregates that group
//! them, together with the course-catalog records the planner layers share.

use vstd::prelude::*;
use crate::abbreviations::{NUPath, Season};
use crate::courses::Prereq;
use crate::dates::Date;
use crate::fixed::FixedPoint;
use crate::schedule::AllScheduleCourse;
use std::collections::HashMap;

verus! {

/// One completed or in-progress course taken from a single course line.
#[derive(Debug, Clone)]
pub struct CompleteCourse {
    /// True if course is Honors
    pub hon: bool,
    /// Subject i.e. "CS" or Psychology
    pub subject: String,
    pub class_id: isize,
    pub name: String,
    /// Credit hours, in thousandths
    pub credit_hours: FixedPoint,
    pub season: Season,
    pub year: isize,
    /// Northeastern unique identifier
    pub term_id: isize,
}

/// The view of a completed course: the same fields over mathematical types.
pub struct CompleteCourseV {
    pub hon: bool,
    pub subject: Seq<char>,
    pub class_id: int,
    pub name: Seq<char>,
    pub credit_hours: int,
    pub season: Season,
    pub year: int,
    pub term_id: int,
}

impl View for CompleteCourse {
    type V = CompleteCourseV;

    open spec fn view(&self) -> CompleteCourseV {
        CompleteCourseV {
            hon: self.hon,
            subject: self.subject@,
            class_id: self.class_id as int,
            name: self.name@,
            credit_hours: self.credit_hours.milli as int,
            season: self.season,
            year: self.year as int,
            term_id: self.term_id as int,
        }
    }
}

/// Identity of a completed course for deduplication: the course number,
/// subject, term identifier and name; the honors flag and the credit hours
/// take no part in it.
pub open spec fn same_course_identity(a: CompleteCourseV, b: CompleteCourseV) -> bool {
    a.class_id == b.class_id && a.subject == b.subject && a.term_id == b.term_id && a.name
        == b.name
}

impl Default for CompleteCourse {
    /// The record a course line starts from: every field empty or zero,
    /// the season fall.
    fn default() -> (r: Self)
        ensures
            r@ == default_course(),
    {
        CompleteCourse {
            hon: false,
            subject: String::new(),
            class_id: 0,
            name: String::new(),
            credit_hours: FixedPoint::zero(),
            season: Season::FL,
            year: 0,
            term_id: 0,
        }
    }
}

/// The view of the default course record.
pub open spec fn default_course() -> CompleteCourseV {
    CompleteCourseV {
        hon: false,
        subject: Seq::empty(),
        class_id: 0,
        name: Seq::empty(),
        credit_hours: 0,
        season: Season::FL,
        year: 0,
        term_id: 0,
    }
}

impl PartialEq for CompleteCourse {
    /// Equality is identity for deduplication purposes: honors flag and
    /// credit hours are not part of it.
    fn eq(&self, other: &CompleteCourse) -> (r: bool) {
        self.class_id == other.class_id && self.subject == other.subject && self.term_id
            == other.term_id && self.name == other.name
    }
}

impl vstd::std_specs::cmp::PartialEqSpecImpl for CompleteCourse {
    open spec fn obeys_eq_spec() -> bool {
        true
    }

    open spec fn eq_spec(&self, other: &CompleteCourse) -> bool {
        same_course_identity(self@, other@)
    }
}

/// One entry of a still-required course list: a course number, an optional
/// subject (inherited from the most recent explicit subject when omitted),
/// an optional range end, and a reserved list of alternatives.
#[derive(Debug, Clone, PartialEq)]
pub struct Requirement {
    pub class_id: isize,
    pub subject: Option<String>,
    pub num_required: Option<isize>,
    pub class_id_2: Option<isize>,
    pub list: Vec<isize>,
}

/// The view of a required-course entry.
pub struct RequirementV {
    pub class_id: int,
    pub subject: Option<Seq<char>>,
    pub num_required: Option<int>,
    pub class_id_2: Option<int>,
    pub list: Seq<int>,
}

impl View for Requirement {
    type V = RequirementV;

    open spec fn view(&self) -> RequirementV {
        RequirementV {
            class_id: self.class_id as int,
            subject: match self.subject {
                Some(s) => Some(s@),
                None => None,
            },
            num_required: match self.num_required {
                Some(n) => Some(n as int),
                None => None,
            },
            class_id_2: match self.class_id_2 {
                Some(n) => Some(n as int),
                None => None,
            },
            list: self.list@.map_values(|x: isize| x as int),
        }
    }
}

impl Default for Requirement {
    /// The entry a course-list token starts from: number zero and every
    /// optional field absent.
    fn default() -> (r: Self)
        ensures
            r@ == default_requirement(),
    {
        let r = Requirement {
            class_id: 0,
            subject: None,
            num_required: None,
            class_id_2: None,
            list: Vec::new(),
        };
        proof {
            assert(r@.list =~= Seq::<int>::empty());
        }
        r
    }
}

/// The view of the default required-course entry.
pub open spec fn default_requirement() -> RequirementV {
    RequirementV {
        class_id: 0,
        subject: None,
        num_required: None,
        class_id_2: None,
        list: Seq::empty(),
    }
}

/// NUPath categories and courses that are complete or in progress.
#[derive(Debug, Clone)]
pub struct Course {
    pub nupaths: Vec<NUPath>,
    pub courses: Vec<CompleteCourse>,
}

/// NUPath requirements and courses still to be taken.
#[derive(Debug, Clone)]
pub struct Requirements {
    pub nupaths: Vec<Requirement>,
    pub courses: Vec<CompleteCourse>,
}

/// The identifying facts of one audit: majors, minors, catalog year and
/// graduation date.
#[derive(Debug, Clone)]
pub struct Data {
    pub majors: Vec<String>,
    pub minors: Vec<String>,
    pub audit_year: isize,
    pub grad_date: Date,
}

/// A first schedule representation: what is done, what runs, what remains,
/// and the audit's identifying facts.
#[derive(Debug, Clone)]
pub struct InitialScheduleRep {
    pub completed: Requirement,
    pub in_progress: Requirement,
    pub requirements: Requirements,
    pub data: Data,
}

/// Course-catalog records per class, keyed by term.
#[derive(Debug, Clone)]
pub struct NEUParentMap {
    pub most_recent_semester: isize,
    pub all_term_ids: Vec<isize>,
    pub class_map: HashMap<String, NEUClassMap>,
}

/// The catalog records of one term, keyed by class.
#[derive(Debug, Clone)]
pub struct NEUClassMap {
    pub term_id: isize,
    pub class_map: HashMap<String, NEUCourse>,
}

/// One catalog course as the course API describes it.
#[derive(Debug, Clone)]
pub struct NEUCourse {
    pub crns: Vec<String>,
    pub pre_reqs: Option<Prereq>,
    pub co_reqs: Option<Prereq>,
    pub max_credits: isize,
    pub min_credits: isize,
    pub desc: String,
    pub class_id: isize,
    pub pretty_url: String,
    pub name: String,
    pub url: String,
    pub last_update_time: isize,
    pub term_id: isize,
    pub host: String,
    pub subject: String,
    pub opt_prereqs_for: Option<Vec<Prereq>>,
    pub prereqs_for: Option<Vec<Prereq>>,
}

/// What was completed and what is scheduled, term by term.
#[derive(Debug, Clone)]
pub struct Schedule {
    pub completed: Vec<CompleteCourse>,
    pub scheduled: Vec<Vec<String>>,
}

/// A course seen by either the parser or the planning model.
#[derive(Debug, Clone)]
pub enum AllCourses {
    Parser(NEUCourse),
    Model(AllScheduleCourse),
}

} // verus!
