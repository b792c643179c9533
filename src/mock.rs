use vstd::prelude::*;
use crate::entity::{BlogPost, Event, Issue, Project};
use crate::model::DifficultyLevel;

verus! {

// Immediate, empty answers for views that render before their data arrives;
// the data itself comes from the API.

/// No upcoming events until they are fetched.
pub fn get_upcoming_events() -> (r: Vec<Event>)
    ensures
        r@.len() == 0,
{
    Vec::new()
}

/// No issues of any difficulty until they are fetched.
pub fn get_issues_by_difficulty(difficulty: DifficultyLevel) -> (r: Vec<Issue>)
    ensures
        r@.len() == 0,
{
    Vec::new()
}

/// No projects until they are fetched.
pub fn get_club_projects() -> (r: Vec<Project>)
    ensures
        r@.len() == 0,
{
    Vec::new()
}

/// No issues until they are fetched.
pub fn get_issues() -> (r: Vec<Issue>)
    ensures
        r@.len() == 0,
{
    Vec::new()
}

/// No events until they are fetched.
pub fn get_events() -> (r: Vec<Event>)
    ensures
        r@.len() == 0,
{
    Vec::new()
}

/// No blog posts until they are fetched.
pub fn get_blog_posts() -> (r: Vec<BlogPost>)
    ensures
        r@.len() == 0,
{
    Vec::new()
}

/// No featured posts until they are fetched.
pub fn get_featured_blog_posts() -> (r: Vec<BlogPost>)
    ensures
        r@.len() == 0,
{
    Vec::new()
}

} // verus!
