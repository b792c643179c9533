use vstd::prelude::*;
use vstd::string::StringExecFns;
use crate::codec::{decode_string_list, list_or_empty};
use crate::entity::{texts, BlogPost, HealthCheck, Stats, Timestamp};

verus! {

/// The cache key of the club statistics.
pub const STATS_CACHE_KEY: &'static str = "club_stats";

/// How long cached club statistics stay fresh, in seconds.
pub const STATS_TTL_SECONDS: u64 = 3600;

/// The cache key of the JSON list of featured post ids.
pub const FEATURED_POSTS_KEY: &'static str = "featured_blog_posts";

/// Pull requests merged this semester, kept by hand.
pub const PRS_MERGED_THIS_SEMESTER: u32 = 47;

/// Workshops held, kept by hand.
pub const WORKSHOPS_HELD: u32 = 12;

/// Projects contributed to, kept by hand.
pub const PROJECTS_CONTRIBUTED_TO: u32 = 8;

/// What to do after reading the statistics cache.
#[derive(Debug, Clone, Copy, PartialEq, Eq, Structural)]
pub enum StatsPlan {
    /// The cache held fresh statistics: serve them as they are.
    Serve(Stats),
    /// Count the members, serve the result and write it back.
    Compute,
}

/// The plan for what the cache held: `cached` is the decoded entry, `None` on
/// a miss or when the entry did not decode.
pub open spec fn stats_plan_of(cached: Option<Stats>) -> StatsPlan {
    match cached {
        Some(s) => StatsPlan::Serve(s),
        None => StatsPlan::Compute,
    }
}

/// The statistics computed from a member count that the store gave.
pub open spec fn club_stats_of(member_count: u32) -> Stats {
    Stats {
        active_members: member_count,
        prs_merged_this_semester: PRS_MERGED_THIS_SEMESTER,
        workshops_held: WORKSHOPS_HELD,
        projects_contributed_to: PROJECTS_CONTRIBUTED_TO,
    }
}

/// Decides, from the cache entry, whether the statistics must be computed.
pub fn plan_club_stats(cached: Option<Stats>) -> (r: StatsPlan)
    ensures
        r == stats_plan_of(cached),
{
    match cached {
        Some(s) => StatsPlan::Serve(s),
        None => StatsPlan::Compute,
    }
}

/// A best-effort write of the statistics to the cache; its outcome never
/// changes what is served.
#[derive(Debug, Clone)]
pub struct StatsCacheWrite {
    pub key: String,
    pub value: Stats,
    pub ttl_seconds: u64,
}

/// The statistics computed on a miss from the member count the store gave,
/// and the cache write that stores them under the statistics key for the
/// statistics lifetime. A count the store failed to give fails the request
/// instead: nothing is computed, served or cached.
pub fn compute_club_stats(member_count: u32) -> (r: (Stats, StatsCacheWrite))
    ensures
        r.0 == club_stats_of(member_count),
        r.1.key@ == STATS_CACHE_KEY@,
        r.1.value == r.0,
        r.1.ttl_seconds == STATS_TTL_SECONDS,
{
    let stats = Stats {
        active_members: member_count,
        prs_merged_this_semester: PRS_MERGED_THIS_SEMESTER,
        workshops_held: WORKSHOPS_HELD,
        projects_contributed_to: PROJECTS_CONTRIBUTED_TO,
    };
    let write = StatsCacheWrite {
        key: String::from_str(STATS_CACHE_KEY),
        value: stats,
        ttl_seconds: STATS_TTL_SECONDS,
    };
    (stats, write)
}

/// The featured post ids held in the cache, in order: none when the entry is
/// absent or is not a JSON list of strings.
pub fn featured_post_ids(cached: Option<String>) -> (r: Vec<String>)
    ensures
        texts(r@) == match cached {
            Some(t) => list_or_empty(t@),
            None => Seq::empty(),
        },
{
    match cached {
        Some(t) => decode_string_list(t.as_str()),
        None => {
            let v: Vec<String> = Vec::new();
            assert(texts(v@) =~= Seq::<Seq<char>>::empty());
            v
        },
    }
}

/// What follows a lookup by slug.
#[derive(Debug, Clone)]
pub enum SlugOutcome {
    /// No post has the slug: answer "not found", and count no view.
    NotFound,
    /// The post was found: count a view of `post_id`, then serve the post.
    Found { post_id: String, post: BlogPost },
}

/// Turns the result of a lookup by slug into the next step: a found post
/// brings a view increment of its own id.
pub fn slug_outcome(found: Option<BlogPost>) -> (r: SlugOutcome)
    ensures
        found is None <==> r is NotFound,
        found matches Some(p) ==> (r matches SlugOutcome::Found { post_id, post } && post == p
            && post_id@ == p.id@),
{
    match found {
        Some(p) => {
            let post_id = p.id.clone();
            SlugOutcome::Found { post_id, post: p }
        },
        None => SlugOutcome::NotFound,
    }
}

/// The post served after its view increment was attempted: the increment is
/// best-effort, so the post is served whether or not it succeeded.
pub fn serve_after_increment(post: BlogPost, increment_succeeded: bool) -> (r: BlogPost)
    ensures
        r == post,
{
    post
}

/// The answer to a health probe at `now`.
pub fn health_check(now: Timestamp) -> (r: HealthCheck)
    ensures
        r.status@ == "healthy"@,
        r.timestamp == now,
        r.version@ == "v1"@,
{
    HealthCheck { status: String::from_str("healthy"), timestamp: now, version: String::from_str("v1") }
}

} // verus!
