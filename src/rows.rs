use vstd::prelude::*;
use crate::codec::{decode_string_list, list_or_empty, parse_timestamp, timestamp_of};
use crate::entity::{texts, BlogPost, BlogSeries, Event, ExternalLink, Issue, Member, Project};
use crate::model::{
    blog_difficulty_of, category_of, difficulty_of, event_type_of, post_type_of,
    project_status_of, BlogCategory, BlogPostType, DifficultyLevel, EventType, ProjectStatus,
};

verus! {

/// A row of the `events` table.
pub struct EventRow {
    pub uuid: String,
    pub title: String,
    pub description: String,
    pub date: String,
    pub time: String,
    pub location: String,
    pub event_type: String,
    pub recurring: i32,
    pub created_at: String,
}

/// The event a row decodes to.
pub open spec fn event_of_row(row: EventRow) -> Event {
    Event {
        id: row.uuid,
        title: row.title,
        description: row.description,
        date: row.date,
        time: row.time,
        location: row.location,
        event_type: event_type_of(row.event_type@),
        recurring: row.recurring != 0,
        created_at: timestamp_of(row.created_at@),
    }
}

/// Decodes an event row; an unknown type or a bad timestamp takes its default.
pub fn event_from_row(row: EventRow) -> (r: Event)
    ensures
        r == event_of_row(row),
{
    let event_type = EventType::from_db_str(row.event_type.as_str());
    let created_at = parse_timestamp(row.created_at.as_str());
    Event {
        id: row.uuid,
        title: row.title,
        description: row.description,
        date: row.date,
        time: row.time,
        location: row.location,
        event_type,
        recurring: row.recurring != 0,
        created_at,
    }
}

/// Decodes every row, in order.
pub fn events_from_rows(rows: Vec<EventRow>) -> (r: Vec<Event>)
    ensures
        r@ == rows@.map_values(|row: EventRow| event_of_row(row)),
{
    let ghost src = rows@;
    let mut out: Vec<Event> = Vec::new();
    for row in it: rows
        invariant
            it.seq() == src,
            out@ == src.take(it.index() as int).map_values(|row: EventRow| event_of_row(row)),
    {
        out.push(event_from_row(row));
        assert(src.take(it.index() as int + 1) =~= src.take(it.index() as int).push(row));
    }
    assert(src.take(src.len() as int) =~= src);
    out
}


/// A row of the `issues` table; `tags` holds a JSON array of strings.
pub struct IssueRow {
    pub uuid: String,
    pub title: String,
    pub description: String,
    pub repo: String,
    pub github_url: String,
    pub difficulty: String,
    pub tags: String,
    pub created_at: String,
}

/// `i` is what `row` decodes to.
pub open spec fn issue_decodes(i: Issue, row: IssueRow) -> bool {
    &&& i.id == row.uuid
    &&& i.title == row.title
    &&& i.description == row.description
    &&& i.repo == row.repo
    &&& i.github_url == row.github_url
    &&& i.difficulty == difficulty_of(row.difficulty@)
    &&& texts(i.tags@) == list_or_empty(row.tags@)
    &&& i.created_at == timestamp_of(row.created_at@)
}

/// Decodes an issue row; malformed tags give an empty list, leaving the other
/// fields as they are.
pub fn issue_from_row(row: IssueRow) -> (r: Issue)
    ensures
        issue_decodes(r, row),
{
    let difficulty = DifficultyLevel::from_db_str(row.difficulty.as_str());
    let tags = decode_string_list(row.tags.as_str());
    let created_at = parse_timestamp(row.created_at.as_str());
    Issue {
        id: row.uuid,
        title: row.title,
        description: row.description,
        repo: row.repo,
        github_url: row.github_url,
        difficulty,
        tags,
        created_at,
    }
}

/// Decodes every row, in order.
pub fn issues_from_rows(rows: Vec<IssueRow>) -> (r: Vec<Issue>)
    ensures
        r@.len() == rows@.len(),
        forall|j: int| 0 <= j < rows@.len() ==> issue_decodes(#[trigger] r@[j], rows@[j]),
{
    let ghost src = rows@;
    let mut out: Vec<Issue> = Vec::new();
    for row in it: rows
        invariant
            it.seq() == src,
            out@.len() == it.index(),
            forall|j: int| 0 <= j < out@.len() ==> issue_decodes(#[trigger] out@[j], src[j]),
    {
        out.push(issue_from_row(row));
    }
    out
}

/// A row of `projects` joined with its leader's row of `members`;
/// `tech_stack` and `skills_needed` hold JSON arrays of strings.
pub struct ProjectRow {
    pub uuid: String,
    pub name: String,
    pub description: String,
    pub github_url: String,
    pub leader_name: String,
    pub leader_github: Option<String>,
    pub status: String,
    pub tech_stack: String,
    pub contributors_needed: i32,
    pub skills_needed: String,
    pub created_at: String,
}

/// `p` is what `row` decodes to; no contributors are loaded.
pub open spec fn project_decodes(p: Project, row: ProjectRow) -> bool {
    &&& p.id == row.uuid
    &&& p.name == row.name
    &&& p.description == row.description
    &&& p.github_url == row.github_url
    &&& p.leader.name == row.leader_name
    &&& p.leader.github_username == row.leader_github
    &&& p.contributors@.len() == 0
    &&& p.status == project_status_of(row.status@)
    &&& texts(p.tech_stack@) == list_or_empty(row.tech_stack@)
    &&& p.contributors_needed == (row.contributors_needed != 0)
    &&& texts(p.skills_needed@) == list_or_empty(row.skills_needed@)
    &&& p.created_at == timestamp_of(row.created_at@)
}

/// Decodes a project row; each JSON list column is read on its own.
pub fn project_from_row(row: ProjectRow) -> (r: Project)
    ensures
        project_decodes(r, row),
{
    let status = ProjectStatus::from_db_str(row.status.as_str());
    let tech_stack = decode_string_list(row.tech_stack.as_str());
    let skills_needed = decode_string_list(row.skills_needed.as_str());
    let created_at = parse_timestamp(row.created_at.as_str());
    Project {
        id: row.uuid,
        name: row.name,
        description: row.description,
        github_url: row.github_url,
        leader: Member { name: row.leader_name, github_username: row.leader_github },
        contributors: Vec::new(),
        status,
        tech_stack,
        contributors_needed: row.contributors_needed != 0,
        skills_needed,
        created_at,
    }
}

/// Decodes every row, in order.
pub fn projects_from_rows(rows: Vec<ProjectRow>) -> (r: Vec<Project>)
    ensures
        r@.len() == rows@.len(),
        forall|j: int| 0 <= j < rows@.len() ==> project_decodes(#[trigger] r@[j], rows@[j]),
{
    let ghost src = rows@;
    let mut out: Vec<Project> = Vec::new();
    for row in it: rows
        invariant
            it.seq() == src,
            out@.len() == it.index(),
            forall|j: int| 0 <= j < out@.len() ==> project_decodes(#[trigger] out@[j], src[j]),
    {
        out.push(project_from_row(row));
    }
    out
}

/// A row of the `blog_posts` table. `tags` holds a JSON array of strings;
/// `external_links` is the link list read from its JSON column, `None` when
/// that column is empty or malformed.
pub struct BlogPostRow {
    pub id: String,
    pub title: String,
    pub slug: String,
    pub excerpt: String,
    pub post_type: String,
    pub category: String,
    pub tags: String,
    pub author_name: String,
    pub author_github: Option<String>,
    pub difficulty_level: Option<String>,
    pub estimated_read_time: i32,
    pub published_at: String,
    pub updated_at: Option<String>,
    pub views: i32,
    pub likes: i32,
    pub markdown_url: String,
    pub series_title: Option<String>,
    pub series_part: Option<i32>,
    pub series_total_parts: Option<i32>,
    pub external_links: Option<Vec<ExternalLink>>,
}

/// The series a post belongs to: present exactly when the title column is set;
/// a missing part number counts as part 1.
pub open spec fn series_of(title: Option<String>, part: Option<i32>, total: Option<i32>) -> Option<
    BlogSeries,
> {
    match title {
        Some(t) => Some(
            BlogSeries {
                title: t,
                part: (match part {
                    Some(p) => p,
                    None => 1i32,
                }) as u32,
                total_parts: match total {
                    Some(n) => Some(n as u32),
                    None => None,
                },
            },
        ),
        None => None,
    }
}

/// The difficulty a post's optional column decodes to.
pub open spec fn post_difficulty_of(d: Option<String>) -> Option<DifficultyLevel> {
    match d {
        Some(s) => Some(blog_difficulty_of(s@)),
        None => None,
    }
}

/// `p` is what `row` decodes to.
pub open spec fn blog_post_decodes(p: BlogPost, row: BlogPostRow) -> bool {
    &&& p.id == row.id
    &&& p.title == row.title
    &&& p.slug == row.slug
    &&& p.excerpt == row.excerpt
    &&& p.post_type == post_type_of(row.post_type@)
    &&& p.category == category_of(row.category@)
    &&& texts(p.tags@) == list_or_empty(row.tags@)
    &&& p.author_name == row.author_name
    &&& p.author_github == row.author_github
    &&& p.difficulty_level == post_difficulty_of(row.difficulty_level)
    &&& p.estimated_read_time == row.estimated_read_time as u32
    &&& p.published_at == row.published_at
    &&& p.updated_at == row.updated_at
    &&& p.views == row.views as u32
    &&& p.likes == row.likes as u32
    &&& p.markdown_url == row.markdown_url
    &&& p.series == series_of(row.series_title, row.series_part, row.series_total_parts)
    &&& match row.external_links {
        Some(l) => p.external_links == l,
        None => p.external_links@.len() == 0,
    }
}

/// Reinterprets a stored 32-bit count as unsigned, bit for bit.
fn count_as_u32(n: i32) -> (r: u32)
    ensures
        r == n as u32,
{
    #[verifier::truncate]
    (n as u32)
}

/// Decodes the three series columns.
pub fn series_from_columns(title: Option<String>, part: Option<i32>, total: Option<i32>) -> (r:
    Option<BlogSeries>)
    ensures
        r == series_of(title, part, total),
{
    match title {
        Some(t) => {
            let p: i32 = match part {
                Some(p) => p,
                None => 1,
            };
            let total_parts = match total {
                Some(n) => Some(count_as_u32(n)),
                None => None,
            };
            Some(BlogSeries { title: t, part: count_as_u32(p), total_parts })
        },
        None => None,
    }
}

/// Decodes a blog post row; every enum, list and sub-structure falls back to
/// its default on its own.
pub fn blog_post_from_row(row: BlogPostRow) -> (r: BlogPost)
    ensures
        blog_post_decodes(r, row),
{
    let post_type = BlogPostType::from_db_str(row.post_type.as_str());
    let category = BlogCategory::from_db_str(row.category.as_str());
    let tags = decode_string_list(row.tags.as_str());
    let difficulty_level = match &row.difficulty_level {
        Some(d) => Some(DifficultyLevel::from_blog_str(d.as_str())),
        None => None,
    };
    let series = series_from_columns(row.series_title, row.series_part, row.series_total_parts);
    let external_links = match row.external_links {
        Some(l) => l,
        None => Vec::new(),
    };
    BlogPost {
        id: row.id,
        title: row.title,
        slug: row.slug,
        excerpt: row.excerpt,
        post_type,
        category,
        tags,
        author_name: row.author_name,
        author_github: row.author_github,
        difficulty_level,
        estimated_read_time: count_as_u32(row.estimated_read_time),
        published_at: row.published_at,
        updated_at: row.updated_at,
        views: count_as_u32(row.views),
        likes: count_as_u32(row.likes),
        markdown_url: row.markdown_url,
        series,
        external_links,
    }
}

/// Decodes every row, in order.
pub fn blog_posts_from_rows(rows: Vec<BlogPostRow>) -> (r: Vec<BlogPost>)
    ensures
        r@.len() == rows@.len(),
        forall|j: int| 0 <= j < rows@.len() ==> blog_post_decodes(#[trigger] r@[j], rows@[j]),
{
    let ghost src = rows@;
    let mut out: Vec<BlogPost> = Vec::new();
    for row in it: rows
        invariant
            it.seq() == src,
            out@.len() == it.index(),
            forall|j: int| 0 <= j < out@.len() ==> blog_post_decodes(#[trigger] out@[j], src[j]),
    {
        out.push(blog_post_from_row(row));
    }
    out
}

} // verus!
