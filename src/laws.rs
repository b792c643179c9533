use vstd::prelude::*;
use crate::codec::json_string_list;
use crate::entity::{texts, BlogPost, BlogSeries, Issue, Project, Stats};
use crate::resolve::{club_stats_of, stats_plan_of, StatsPlan, STATS_CACHE_KEY, STATS_TTL_SECONDS};
use crate::rows::{
    blog_post_decodes, issue_decodes, project_decodes, series_of, BlogPostRow, IssueRow, ProjectRow,
};
use crate::service::ResourceKind;

verus! {

/// Events, issues and projects fall back to the sample catalog on an empty
/// read; blog posts never do.
pub proof fn lemma_fallback_policy()
    ensures
        ResourceKind::Events.spec_has_fallback(),
        ResourceKind::Issues.spec_has_fallback(),
        ResourceKind::Projects.spec_has_fallback(),
        !ResourceKind::BlogPosts.spec_has_fallback(),
{
}

/// Issue rows that differ only in their `tags` column decode to issues that
/// differ only in their tags, malformed or not.
pub proof fn lemma_issue_tags_isolated(r1: IssueRow, r2: IssueRow, i1: Issue, i2: Issue)
    requires
        r1.uuid == r2.uuid,
        r1.title == r2.title,
        r1.description == r2.description,
        r1.repo == r2.repo,
        r1.github_url == r2.github_url,
        r1.difficulty@ == r2.difficulty@,
        r1.created_at@ == r2.created_at@,
        issue_decodes(i1, r1),
        issue_decodes(i2, r2),
    ensures
        i1.id == i2.id,
        i1.title == i2.title,
        i1.description == i2.description,
        i1.repo == i2.repo,
        i1.github_url == i2.github_url,
        i1.difficulty == i2.difficulty,
        i1.created_at == i2.created_at,
{
}

/// Project rows that differ only in their `tech_stack` column decode to
/// projects that differ only in their technology stack: the skills list and
/// every other field are decoded on their own.
pub proof fn lemma_project_tech_stack_isolated(
    r1: ProjectRow,
    r2: ProjectRow,
    p1: Project,
    p2: Project,
)
    requires
        r1.uuid == r2.uuid,
        r1.name == r2.name,
        r1.description == r2.description,
        r1.github_url == r2.github_url,
        r1.leader_name == r2.leader_name,
        r1.leader_github == r2.leader_github,
        r1.status@ == r2.status@,
        r1.contributors_needed == r2.contributors_needed,
        r1.skills_needed@ == r2.skills_needed@,
        r1.created_at@ == r2.created_at@,
        project_decodes(p1, r1),
        project_decodes(p2, r2),
    ensures
        p1.id == p2.id,
        p1.name == p2.name,
        p1.description == p2.description,
        p1.github_url == p2.github_url,
        p1.leader == p2.leader,
        p1.status == p2.status,
        p1.contributors_needed == p2.contributors_needed,
        texts(p1.skills_needed@) == texts(p2.skills_needed@),
        p1.created_at == p2.created_at,
{
}

/// Blog post rows that differ only in their `tags` column decode to posts
/// that differ only in their tags.
pub proof fn lemma_blog_post_tags_isolated(
    r1: BlogPostRow,
    r2: BlogPostRow,
    p1: BlogPost,
    p2: BlogPost,
)
    requires
        r1.id == r2.id,
        r1.title == r2.title,
        r1.slug == r2.slug,
        r1.excerpt == r2.excerpt,
        r1.post_type@ == r2.post_type@,
        r1.category@ == r2.category@,
        r1.author_name == r2.author_name,
        r1.author_github == r2.author_github,
        r1.difficulty_level == r2.difficulty_level,
        r1.estimated_read_time == r2.estimated_read_time,
        r1.published_at == r2.published_at,
        r1.updated_at == r2.updated_at,
        r1.views == r2.views,
        r1.likes == r2.likes,
        r1.markdown_url == r2.markdown_url,
        r1.series_title == r2.series_title,
        r1.series_part == r2.series_part,
        r1.series_total_parts == r2.series_total_parts,
        r1.external_links == r2.external_links,
        blog_post_decodes(p1, r1),
        blog_post_decodes(p2, r2),
    ensures
        p1.id == p2.id,
        p1.title == p2.title,
        p1.slug == p2.slug,
        p1.excerpt == p2.excerpt,
        p1.post_type == p2.post_type,
        p1.category == p2.category,
        p1.author_name == p2.author_name,
        p1.author_github == p2.author_github,
        p1.difficulty_level == p2.difficulty_level,
        p1.estimated_read_time == p2.estimated_read_time,
        p1.published_at == p2.published_at,
        p1.updated_at == p2.updated_at,
        p1.views == p2.views,
        p1.likes == p2.likes,
        p1.markdown_url == p2.markdown_url,
        p1.series == p2.series,
        p1.external_links@.len() == p2.external_links@.len(),
        r1.external_links is Some ==> p1.external_links == p2.external_links,
{
}

/// An issue row whose `tags` column holds the JSON encoding of a list of
/// strings decodes to an issue with exactly those tags.
pub proof fn lemma_issue_tags_round_trip(tags: Seq<String>, row: IssueRow, i: Issue)
    requires
        json_string_list(row.tags@) == Some(texts(tags)),
        issue_decodes(i, row),
    ensures
        texts(i.tags@) == texts(tags),
{
}

/// The columns a series is stored in: its title, its part number and its
/// total number of parts.
pub open spec fn series_columns(s: BlogSeries) -> (Option<String>, Option<i32>, Option<i32>) {
    (
        Some(s.title),
        Some(s.part as i32),
        match s.total_parts {
            Some(n) => Some(n as i32),
            None => None,
        },
    )
}

/// A series whose numbers fit the store's 32-bit signed columns decodes from
/// its columns to itself.
pub proof fn lemma_series_round_trip(s: BlogSeries)
    requires
        s.part <= i32::MAX,
        s.total_parts matches Some(n) ==> n <= i32::MAX,
    ensures
        series_of(series_columns(s).0, series_columns(s).1, series_columns(s).2) == Some(s),
{
    let p = s.part;
    assert(((p as i32) as u32) == p) by (bit_vector)
        requires
            p <= 0x7fff_ffffu32,
    ;
    if let Some(n) = s.total_parts {
        assert(((n as i32) as u32) == n) by (bit_vector)
            requires
                n <= 0x7fff_ffffu32,
        ;
    }
}

/// A model of the key-value cache: each key maps to its value and the instant,
/// in seconds, from which the entry is expired.
pub type CacheModel = Map<Seq<char>, (Stats, int)>;

/// What a read of `key` at instant `now` returns.
pub open spec fn cache_read(store: CacheModel, key: Seq<char>, now: int) -> Option<Stats> {
    if store.contains_key(key) && now < store[key].1 {
        Some(store[key].0)
    } else {
        None
    }
}

/// The cache after `value` is written under `key` at `now` for `ttl` seconds.
pub open spec fn cache_put(store: CacheModel, key: Seq<char>, value: Stats, ttl: int, now: int) -> CacheModel {
    store.insert(key, (value, now + ttl))
}

/// Cache-aside for the club statistics: a request that misses computes the
/// statistics; once they are written back, every request within their
/// lifetime is served those same statistics without computing again.
pub proof fn lemma_stats_cache_aside(
    store: CacheModel,
    member_count: u32,
    t0: int,
    t1: int,
)
    requires
        cache_read(store, STATS_CACHE_KEY@, t0) is None,
        t0 <= t1 < t0 + STATS_TTL_SECONDS,
    ensures
        stats_plan_of(cache_read(store, STATS_CACHE_KEY@, t0)) == StatsPlan::Compute,
        stats_plan_of(
            cache_read(
                cache_put(
                    store,
                    STATS_CACHE_KEY@,
                    club_stats_of(member_count),
                    STATS_TTL_SECONDS as int,
                    t0,
                ),
                STATS_CACHE_KEY@,
                t1,
            ),
        ) == StatsPlan::Serve(club_stats_of(member_count)),
{
}

} // verus!
