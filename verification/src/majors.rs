//! Descriptions of majors and their requirement groups.

use vstd::prelude::*;
use crate::abbreviations::NUPath;
use crate::courses::{CourseRange, Requirement};
use std::collections::HashMap;

verus! {

/// A named group of requirements satisfied together or alternatively.
#[derive(Debug)]
pub struct Section {
    pub requirements: Vec<Requirement>,
    pub num_credits_min: Option<isize>,
    pub num_credits_max: Option<isize>,
    pub name: String,
}

/// A named group of course ranges.
#[derive(Debug)]
pub struct SectionRange {
    pub requirements: Vec<CourseRange>,
    pub num_credits_min: Option<isize>,
    pub num_credits_max: Option<isize>,
    pub name: String,
}

/// One requirement group of a major.
#[derive(Debug)]
pub enum MajorRequirement {
    And(Section),
    Or(Section),
    Range(SectionRange),
}

/// One major: its requirement groups and overall demands.
#[derive(Debug)]
pub struct Major {
    pub name: String,
    pub requirement_groups: Vec<String>,
    pub requirement_group_map: HashMap<String, MajorRequirement>,
    pub year_version: isize,
    pub is_language_required: bool,
    pub total_credits_required: isize,
    pub nu_paths: Vec<NUPath>,
}

/// A concentration inside a major.
#[derive(Debug)]
pub struct Concentration {
    pub min_options: isize,
    pub max_options: isize,
    pub requirements_group_map: Vec<MajorRequirement>,
}

} // verus!
