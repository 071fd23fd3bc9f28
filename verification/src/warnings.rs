//! Warnings a planner attaches to terms, courses and requirement groups.

use vstd::prelude::*;

verus! {

/// A warning attached to one term.
#[derive(Debug, Clone)]
pub struct Warning {
    pub message: String,
    pub term_id: isize,
}

/// A warning attached to one course of a term.
#[derive(Debug, Clone)]
pub struct CourseWarning {
    pub subject: String,
    pub class_id: isize,
    pub warning: Warning,
}

/// All warnings of a plan, term-level and course-level.
#[derive(Debug, Clone)]
pub struct WarningContainer {
    pub normal_warnings: Vec<Warning>,
    pub course_warnings: Vec<CourseWarning>,
}

/// A warning attached to one requirement group.
#[derive(Debug, Clone)]
pub struct RequirementGroupWarning {
    pub message: String,
    pub requirement_group: isize,
}

} // verus!
