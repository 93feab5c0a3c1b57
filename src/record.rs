//! The personal-history record that a template lays out.

use vstd::prelude::*;

use crate::text::{glue, join, joined, views};

verus! {

/// One person's CV data. Dates and the like are opaque text: nothing is parsed,
/// validated or reordered.
#[derive(Clone, Debug, PartialEq, Eq)]
pub struct Person {
    pub name: String,
    pub address: String,
    pub contact: Contact,
    pub summary: String,
    pub work_experience: Option<Vec<Work>>,
    pub education: Vec<Edu>,
    pub skills: Skills,
    pub projects: Option<Vec<Project>>,
}

/// Skill lists by category; an absent category is left out of the output.
#[derive(Clone, Debug, PartialEq, Eq)]
pub struct Skills {
    pub languages: Option<Vec<String>>,
    pub version_control: Option<Vec<String>>,
    pub certifications: Option<Vec<String>>,
    pub technical: Option<Vec<String>>,
    pub tools: Option<Vec<String>>,
}

#[derive(Clone, Debug, PartialEq, Eq)]
pub struct Contact {
    pub email: String,
    pub phone: String,
    pub linkedin: String,
    pub github: String,
}

#[derive(Clone, Debug, PartialEq, Eq)]
pub struct Project {
    pub name: String,
    pub description: String,
    pub technologies: Vec<String>,
    pub url: String,
}

#[derive(Clone, Debug, PartialEq, Eq)]
pub struct Work {
    pub title: String,
    pub company: String,
    pub start_date: String,
    pub end_date: String,
    pub achievements: Vec<String>,
}

#[derive(Clone, Debug, PartialEq, Eq)]
pub struct Edu {
    pub degree: String,
    pub institution: String,
    pub start_date: String,
    pub end_date: String,
    pub gpa: String,
    pub courses: Vec<String>,
}

/// The entries of an optional list, where an absent list has none.
pub open spec fn entries<T>(list: Option<Vec<T>>) -> Seq<T> {
    match list {
        Some(v) => v@,
        None => Seq::empty(),
    }
}

/// The contact details on one line: ` email | phone | linkedin | github `.
pub open spec fn contact_line(c: Contact) -> Seq<char> {
    " "@ + c.email@ + " | "@ + c.phone@ + " | "@ + c.linkedin@ + " | "@ + c.github@ + " "@
}

/// An education entry on one line: institution, degree and dates.
pub open spec fn edu_line(e: Edu) -> Seq<char> {
    e.institution@ + ", "@ + e.degree@ + "             from "@ + e.start_date@ + " to  "@
        + e.end_date@
}

impl Contact {
    /// The contact details on one line, separated by ` | `.
    pub fn to_string(&self) -> (r: String)
        ensures
            r@ == contact_line(*self),
    {
        let mut out = String::from_str(" ");
        out.append(self.email.as_str());
        out.append(" | ");
        out.append(self.phone.as_str());
        out.append(" | ");
        out.append(self.linkedin.as_str());
        out.append(" | ");
        out.append(self.github.as_str());
        out.append(" ");
        out
    }
}

impl Edu {
    /// The entry on one line: institution, degree, then from when to when.
    pub fn to_string(&self) -> (r: String)
        ensures
            r@ == edu_line(*self),
    {
        let mut out = glue(self.institution.as_str(), ", ");
        out.append(self.degree.as_str());
        out.append("             from ");
        out.append(self.start_date.as_str());
        out.append(" to  ");
        out.append(self.end_date.as_str());
        out
    }
}

impl Person {
    /// The education entries, one line each, joined by commas.
    pub fn to_string(&self) -> (r: String)
        ensures
            r@ == joined(self.education@.map_values(|e: Edu| edu_line(e)), ","@),
    {
        let mut lines: Vec<String> = Vec::new();
        let mut i: usize = 0;
        while i < self.education.len()
            invariant
                i <= self.education@.len(),
                views(lines@) =~= self.education@.take(i as int).map_values(|e: Edu| edu_line(e)),
            decreases self.education@.len() - i,
        {
            let line = self.education[i].to_string();
            let ghost before = lines@;
            lines.push(line);
            proof {
                assert(self.education@.take(i as int + 1) =~= self.education@.take(i as int).push(
                    self.education@[i as int],
                ));
                assert(views(lines@) =~= views(before).push(line@));
            }
            i = i + 1;
        }
        assert(self.education@.take(i as int) =~= self.education@);
        join(&lines, ",")
    }
}

} // verus!
