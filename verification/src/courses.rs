//! Requirement descriptions over courses: single required courses, ranges
//! of course numbers within a subject, and boolean combinations of both.

use vstd::prelude::*;

verus! {

/// One course of a requirement description.
#[derive(Debug, Clone)]
pub struct Course {
    pub class_id: isize,
    pub subject: String,
    pub is_required: bool,
}

/// A contiguous range of course numbers within one subject.
#[derive(Debug, Clone)]
pub struct SubjectRange {
    pub subject: String,
    pub id_range_start: isize,
    pub id_range_end: isize,
}

/// Credits to be earned from any courses inside the listed ranges.
#[derive(Debug, Clone)]
pub struct CourseRange {
    pub credits_required: isize,
    pub ranges: Vec<SubjectRange>,
}

/// A requirement: a course, a range, or a boolean combination of either.
#[derive(Debug)]
pub enum Requirement {
    OrCourse(Vec<Requirement>),
    AndCourse(Vec<Requirement>),
    CourseRange(CourseRange),
    RequiredCourse(Course),
}

/// One prerequisite course, possibly marked missing.
#[derive(Debug, Clone)]
pub struct Prereq {
    pub class_id: String,
    pub subject: String,
    pub missing: Option<bool>,
}

/// Prerequisites combined conjunctively, disjunctively, or alone.
#[derive(Debug, Clone)]
pub enum NeuPreqs {
    And(Vec<Prereq>),
    Or(Vec<Prereq>),
    One(Prereq),
}

} // verus!
