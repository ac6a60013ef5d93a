//! A toy roster of people and their jobs: a person may be employed, and
//! each job carries a printable title.

use vstd::prelude::*;

verus! {

/// A person, by name.
#[derive(Debug)]
pub struct Person {
    pub name: String,
}

/// The job an employed person holds.
#[derive(Clone, Copy, Debug, PartialEq, Eq, Structural)]
pub enum Job {
    Doctor,
    FireFighter,
    Lawyer,
}

/// Marks a person as employed, at their job.
#[derive(Clone, Copy, Debug)]
pub struct Employed {
    pub job: Job,
}

/// The printable title of a job.
pub fn job_title(job: &Job) -> (title: String)
    ensures
        job is Doctor ==> title@ == "Doctor"@,
        job is FireFighter ==> title@ == "Firefighter"@,
        job is Lawyer ==> title@ == "Lawyer"@,
{
    match job {
        Job::Doctor => String::from_str("Doctor"),
        Job::FireFighter => String::from_str("Firefighter"),
        Job::Lawyer => String::from_str("Lawyer"),
    }
}

} // verus!
