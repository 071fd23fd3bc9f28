//! A student's plan: years, terms, and the courses placed in them.

use vstd::prelude::*;
use crate::abbreviations::Season;
use crate::courses::Prereq;
use std::collections::HashMap;

verus! {

/// What a term is used for, or how it is displayed.
#[derive(Debug, Clone)]
pub enum Status {
    COOP,
    CLASSES,
    INACTIVE,
    HOVERINACTIVE,
    HOVERCOOP,
}

impl Status {
    /// The display name of this status.
    pub fn fmt(&self) -> (r: &'static str)
        ensures
            r@.len() > 0,
    {
        let m = match self {
            Status::COOP => "COOP",
            Status::CLASSES => "CLASSES",
            Status::INACTIVE => "INACTIVE",
            Status::HOVERINACTIVE => "HOVERINACTIVE",
            Status::HOVERCOOP => "HOVERCOOP",
        };
        proof {
            reveal_strlit("COOP");
            reveal_strlit("CLASSES");
            reveal_strlit("INACTIVE");
            reveal_strlit("HOVERINACTIVE");
            reveal_strlit("HOVERCOOP");
        }
        m
    }
}

/// One course as placed in a schedule.
#[derive(Debug, Clone)]
pub struct ScheduleCourse {
    pub name: String,
    pub class_id: String,
    pub subject: String,
    pub pre_reqs: Option<Prereq>,
    pub co_reqs: Option<Prereq>,
    pub num_credits_min: isize,
    pub num_credits_max: isize,
}

/// A schedule slot: a placed course or a drag-and-drop placeholder.
#[derive(Debug, Clone)]
pub enum AllScheduleCourse {
    Course(ScheduleCourse),
    /// inner value is dnd id
    Dnd(String),
}

/// One term of a schedule year.
#[derive(Debug, Clone)]
pub struct Term {
    pub season: Season,
    pub year: isize,
    pub term_id: isize,
    pub id: isize,
    pub status: Status,
    pub classes: Vec<ScheduleCourse>,
}

/// A term slot: a term or a drag-and-drop placeholder.
#[derive(Debug, Clone)]
pub enum ScheduleTerm {
    Term(Term),
    /// Inner value is DndId
    Dnd(String),
}

/// The four terms of one schedule year.
#[derive(Debug, Clone)]
pub struct ScheduleYear {
    pub year: isize,
    pub fall: ScheduleTerm,
    pub spring: ScheduleTerm,
    pub summer1: ScheduleTerm,
    pub summer2: ScheduleTerm,
    pub is_summer_full: bool,
}

/// A whole plan: its years in order, and each year's terms.
#[derive(Debug, Clone)]
pub struct Schedule {
    pub years: Vec<isize>,
    pub year_map: HashMap<isize, ScheduleYear>,
    pub id: String,
}

} // verus!
