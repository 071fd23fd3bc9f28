//! Tracking which courses a student has taken, and the per-user record that
//! the planner keeps.

use vstd::prelude::*;
use crate::majors::Major;
use crate::parser_types::AllCourses;
use crate::schedule::Schedule;

verus! {

/// What a consumer must offer to keep track of taken courses. Implemented
/// by callers of the library, not by the library itself.
pub trait CourseTakenTracker {
    fn contains(&self, input: &str) -> bool;

    fn add_courses(&mut self, to_add: Vec<AllCourses>, term_id: isize);

    fn add_course(&mut self, to_add: AllCourses, term_id: isize);

    fn get_term_ids(&self, course: String) -> Vec<isize>;
}

/// Everything the planner keeps about one user.
#[derive(Debug)]
pub struct UserData {
    pub full_name: Option<String>,
    pub academic_year: Option<isize>,
    pub graduation_year: Option<isize>,
    pub major: Option<Major>,
    pub minors: Option<Vec<String>>,
    pub plan: Option<Schedule>,
}

} // verus!
