use vstd::prelude::*;
use crate::model::{BlogCategory, BlogPostType, DifficultyLevel, EventType, ProjectStatus};

verus! {

/// An instant in UTC: whole seconds since 1970-01-01T00:00:00Z and the
/// nanoseconds past that second.
#[derive(Debug, Clone, Copy, PartialEq, Eq, Structural)]
pub struct Timestamp {
    pub secs: i64,
    pub nanos: u32,
}

impl Timestamp {
    /// The start of 1970 in UTC, used when a stored timestamp does not parse.
    pub open spec fn spec_epoch() -> Timestamp {
        Timestamp { secs: 0, nanos: 0 }
    }

    /// The start of 1970 in UTC.
    pub fn epoch() -> (r: Timestamp)
        ensures
            r == Timestamp::spec_epoch(),
    {
        Timestamp { secs: 0, nanos: 0 }
    }
}

/// The views of a list of strings.
pub open spec fn texts(v: Seq<String>) -> Seq<Seq<char>> {
    v.map_values(|s: String| s@)
}

/// A club member, as named on a project.
#[derive(Debug, Clone)]
pub struct Member {
    /// Member's name
    pub name: String,
    /// GitHub username
    pub github_username: Option<String>,
}

/// A blog post's place in a series.
#[derive(Debug, Clone)]
pub struct BlogSeries {
    /// Series title
    pub title: String,
    /// Current part number
    pub part: u32,
    /// Total parts in series
    pub total_parts: Option<u32>,
}

/// A link that a blog post points readers to.
#[derive(Debug, Clone)]
pub struct ExternalLink {
    /// Link title
    pub title: String,
    /// Link URL
    pub url: String,
}

/// The club's aggregate figures.
#[derive(Debug, Clone, Copy, PartialEq, Eq, Structural)]
pub struct Stats {
    /// Number of active club members
    pub active_members: u32,
    /// PRs merged this semester by club members
    pub prs_merged_this_semester: u32,
    /// Number of workshops held
    pub workshops_held: u32,
    /// Projects club members have contributed to
    pub projects_contributed_to: u32,
}

/// A club event.
#[derive(Debug, Clone)]
pub struct Event {
    /// Unique event identifier
    pub id: String,
    /// Event title
    pub title: String,
    /// Event description
    pub description: String,
    /// Event date, as free text
    pub date: String,
    /// Event time, as free text
    pub time: String,
    /// Event location
    pub location: String,
    /// Event type
    pub event_type: EventType,
    /// Whether this is a recurring event
    pub recurring: bool,
    /// Creation timestamp
    pub created_at: Timestamp,
}

/// An open-source issue suited to newcomers.
#[derive(Debug, Clone)]
pub struct Issue {
    /// Unique issue identifier
    pub id: String,
    /// Issue title
    pub title: String,
    /// Issue description
    pub description: String,
    /// Repository, as owner/name
    pub repo: String,
    /// GitHub issue URL
    pub github_url: String,
    /// Issue difficulty level
    pub difficulty: DifficultyLevel,
    /// Associated tags
    pub tags: Vec<String>,
    /// Creation timestamp
    pub created_at: Timestamp,
}

/// A student project.
#[derive(Debug, Clone)]
pub struct Project {
    /// Unique project identifier
    pub id: String,
    /// Project name
    pub name: String,
    /// Project description
    pub description: String,
    /// GitHub repository URL
    pub github_url: String,
    /// Project leader
    pub leader: Member,
    /// Project contributors
    pub contributors: Vec<Member>,
    /// Project status
    pub status: ProjectStatus,
    /// Technology stack
    pub tech_stack: Vec<String>,
    /// Whether contributors are needed
    pub contributors_needed: bool,
    /// Skills needed for contribution
    pub skills_needed: Vec<String>,
    /// Creation timestamp
    pub created_at: Timestamp,
}

/// A blog post; its body is hosted elsewhere, at `markdown_url`.
#[derive(Debug, Clone)]
pub struct BlogPost {
    /// Unique blog post identifier
    pub id: String,
    /// Post title
    pub title: String,
    /// URL-friendly slug
    pub slug: String,
    /// Short excerpt/summary
    pub excerpt: String,
    /// Post type
    pub post_type: BlogPostType,
    /// Post category
    pub category: BlogCategory,
    /// Associated tags
    pub tags: Vec<String>,
    /// Author name
    pub author_name: String,
    /// Author's GitHub username
    pub author_github: Option<String>,
    /// Difficulty level (optional)
    pub difficulty_level: Option<DifficultyLevel>,
    /// Estimated reading time in minutes
    pub estimated_read_time: u32,
    /// Publication date
    pub published_at: String,
    /// Last update date
    pub updated_at: Option<String>,
    /// View count
    pub views: u32,
    /// Like count
    pub likes: u32,
    /// URL of the markdown content
    pub markdown_url: String,
    /// Series information (optional)
    pub series: Option<BlogSeries>,
    /// External links
    pub external_links: Vec<ExternalLink>,
}

/// The service's answer to a health probe.
#[derive(Debug, Clone)]
pub struct HealthCheck {
    /// Service status
    pub status: String,
    /// Time of the probe
    pub timestamp: Timestamp,
    /// API version
    pub version: String,
}

} // verus!
