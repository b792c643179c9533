use vstd::prelude::*;
use vstd::string::StringExecFns;
use crate::catalog::{
    is_sample_events, is_sample_issues, is_sample_projects, sample_events, sample_issues,
    sample_projects,
};
use crate::entity::{BlogPost, Event, Issue, Project, Timestamp};
use crate::rows::{
    blog_post_decodes, blog_posts_from_rows, event_of_row, events_from_rows, issue_decodes,
    issues_from_rows, project_decodes, projects_from_rows, BlogPostRow, EventRow, IssueRow,
    ProjectRow, blog_post_from_row,
};

verus! {

/// Events, most recent first.
pub const EVENTS_QUERY: &'static str = "SELECT uuid, title, description, date, time, location, event_type, recurring, created_at FROM events ORDER BY created_at DESC";

/// Issues, most recent first.
pub const ISSUES_QUERY: &'static str = "SELECT uuid, title, description, repo, github_url, difficulty, tags, created_at FROM issues ORDER BY created_at DESC";

/// Projects joined with their leader, most recent first; a project whose
/// leader has no member row is left out by the join.
pub const PROJECTS_QUERY: &'static str = "SELECT p.uuid, p.name, p.description, p.github_url, m.name as leader_name, m.github_username as leader_github, p.status, p.tech_stack, p.contributors_needed, p.skills_needed, p.created_at FROM projects p JOIN members m ON p.leader_id = m.id ORDER BY p.created_at DESC";

/// Blog posts, most recently published first.
pub const BLOG_POSTS_QUERY: &'static str = "SELECT id, title, slug, excerpt, post_type, category, tags, author_name, author_github, difficulty_level, estimated_read_time, published_at, updated_at, views, likes, markdown_url, series_title, series_part, series_total_parts, external_links FROM blog_posts ORDER BY published_at DESC";

/// The text before the placeholders of the query for posts by id.
pub const BLOG_POSTS_BY_IDS_HEAD: &'static str = "SELECT id, title, slug, excerpt, post_type, category, tags, author_name, author_github, difficulty_level, estimated_read_time, published_at, updated_at, views, likes, markdown_url, series_title, series_part, series_total_parts, external_links FROM blog_posts WHERE id IN (";

/// The text after the placeholders of the query for posts by id.
pub const BLOG_POSTS_BY_IDS_TAIL: &'static str = ") ORDER BY published_at DESC";

/// The post with a given slug; one parameter.
pub const BLOG_POST_BY_SLUG_QUERY: &'static str = "SELECT id, title, slug, excerpt, post_type, category, tags, author_name, author_github, difficulty_level, estimated_read_time, published_at, updated_at, views, likes, markdown_url, series_title, series_part, series_total_parts, external_links FROM blog_posts WHERE slug = ?";

/// The number of members, in a column named `count`.
pub const MEMBER_COUNT_QUERY: &'static str = "SELECT COUNT(*) as count FROM members";

/// Adds one to a post's view count; one parameter, the post id.
pub const INCREMENT_VIEWS_QUERY: &'static str = "UPDATE blog_posts SET views = views + 1 WHERE id = ?";


/// The resources served as lists.
#[derive(Debug, Clone, Copy, PartialEq, Eq, Structural)]
pub enum ResourceKind {
    Events,
    Issues,
    Projects,
    BlogPosts,
}

impl ResourceKind {
    /// Whether an empty read is answered with the sample catalog: events,
    /// issues and projects ship with examples, blog content starts empty.
    pub open spec fn spec_has_fallback(self) -> bool {
        match self {
            ResourceKind::BlogPosts => false,
            _ => true,
        }
    }

    /// Whether an empty read is answered with the sample catalog.
    pub fn has_fallback(&self) -> (r: bool)
        ensures
            r == self.spec_has_fallback(),
    {
        match self {
            ResourceKind::BlogPosts => false,
            _ => true,
        }
    }
}

/// `n` comma-separated `?` placeholders.
pub open spec fn placeholders(n: nat) -> Seq<char>
    decreases n,
{
    if n == 0 {
        Seq::empty()
    } else if n == 1 {
        seq!['?']
    } else {
        placeholders((n - 1) as nat) + seq![',', '?']
    }
}

/// Resolves the stored content into what the API serves.
pub struct DatabaseService;

impl DatabaseService {
    /// The events to serve: the decoded rows in store order, or the sample
    /// events when the store returned none.
    pub fn get_events(rows: Vec<EventRow>, now: Timestamp) -> (r: Vec<Event>)
        ensures
            rows@.len() == 0 ==> is_sample_events(r@, now),
            rows@.len() > 0 ==> r@ == rows@.map_values(|row: EventRow| event_of_row(row)),
    {
        if rows.len() == 0 && ResourceKind::Events.has_fallback() {
            sample_events(now)
        } else {
            events_from_rows(rows)
        }
    }

    /// The issues to serve: the decoded rows in store order, or the sample
    /// issues when the store returned none.
    pub fn get_issues(rows: Vec<IssueRow>, now: Timestamp) -> (r: Vec<Issue>)
        ensures
            rows@.len() == 0 ==> is_sample_issues(r@, now),
            rows@.len() > 0 ==> r@.len() == rows@.len(),
            rows@.len() > 0 ==> forall|j: int|
                0 <= j < rows@.len() ==> issue_decodes(#[trigger] r@[j], rows@[j]),
    {
        if rows.len() == 0 && ResourceKind::Issues.has_fallback() {
            sample_issues(now)
        } else {
            issues_from_rows(rows)
        }
    }

    /// The projects to serve: the decoded rows in store order, or the sample
    /// projects when the store returned none.
    pub fn get_projects(rows: Vec<ProjectRow>, now: Timestamp) -> (r: Vec<Project>)
        ensures
            rows@.len() == 0 ==> is_sample_projects(r@, now),
            rows@.len() > 0 ==> r@.len() == rows@.len(),
            rows@.len() > 0 ==> forall|j: int|
                0 <= j < rows@.len() ==> project_decodes(#[trigger] r@[j], rows@[j]),
    {
        if rows.len() == 0 && ResourceKind::Projects.has_fallback() {
            sample_projects(now)
        } else {
            projects_from_rows(rows)
        }
    }

    /// The blog posts to serve: the decoded rows in store order; no rows give
    /// no posts.
    pub fn get_blog_posts(rows: Vec<BlogPostRow>) -> (r: Vec<BlogPost>)
        ensures
            r@.len() == rows@.len(),
            forall|j: int| 0 <= j < rows@.len() ==> blog_post_decodes(#[trigger] r@[j], rows@[j]),
    {
        blog_posts_from_rows(rows)
    }

    /// The query for the posts with the given ids, with one placeholder per id;
    /// `None` when there are no ids, in which case nothing is to be queried.
    pub fn blog_posts_by_ids_query(ids: &Vec<String>) -> (r: Option<String>)
        ensures
            ids@.len() == 0 <==> r is None,
            r matches Some(q) ==> q@ == BLOG_POSTS_BY_IDS_HEAD@ + placeholders(ids@.len())
                + BLOG_POSTS_BY_IDS_TAIL@,
    {
        if ids.len() == 0 {
            return None;
        }
        let mut q = String::from_str(BLOG_POSTS_BY_IDS_HEAD);
        q.append("?");
        proof {
            reveal_strlit("?");
            assert(placeholders(1) =~= "?"@);
        }
        let mut i: usize = 1;
        while i < ids.len()
            invariant
                1 <= i <= ids@.len(),
                q@ == BLOG_POSTS_BY_IDS_HEAD@ + placeholders(i as nat),
            decreases ids@.len() - i,
        {
            q.append(",?");
            proof {
                reveal_strlit(",?");
                assert(placeholders((i + 1) as nat) =~= placeholders(i as nat) + ",?"@);
                assert(BLOG_POSTS_BY_IDS_HEAD@ + placeholders(i as nat) + ",?"@
                    =~= BLOG_POSTS_BY_IDS_HEAD@ + (placeholders(i as nat) + ",?"@));
            }
            i = i + 1;
        }
        q.append(BLOG_POSTS_BY_IDS_TAIL);
        Some(q)
    }

    /// The posts with the given ids: none when no ids were asked for, whatever
    /// `rows` holds; otherwise the decoded rows in store order.
    pub fn get_blog_posts_by_ids(ids: &Vec<String>, rows: Vec<BlogPostRow>) -> (r: Vec<BlogPost>)
        ensures
            ids@.len() == 0 ==> r@.len() == 0,
            ids@.len() > 0 ==> r@.len() == rows@.len(),
            ids@.len() > 0 ==> forall|j: int|
                0 <= j < rows@.len() ==> blog_post_decodes(#[trigger] r@[j], rows@[j]),
    {
        if ids.len() == 0 {
            Vec::new()
        } else {
            blog_posts_from_rows(rows)
        }
    }

    /// The post a slug lookup found, or `None` when no row matched.
    pub fn get_blog_post_by_slug(row: Option<BlogPostRow>) -> (r: Option<BlogPost>)
        ensures
            row is None <==> r is None,
            row matches Some(x) ==> blog_post_decodes(r->0, x),
    {
        match row {
            Some(x) => Some(blog_post_from_row(x)),
            None => None,
        }
    }

    /// The member count: the `count` column when the query gave one, read as
    /// a 32-bit count, and zero when it gave no count.
    pub fn get_member_count(count: Option<u64>) -> (r: u32)
        ensures
            count is None ==> r == 0,
            count matches Some(c) ==> r == c as u32,
    {
        match count {
            Some(c) => {
                #[verifier::truncate]
                (c as u32)
            },
            None => 0,
        }
    }
}

} // verus!
