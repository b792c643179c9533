use chico_content::entity::{BlogPost, Stats, Timestamp};
use chico_content::mock;
use chico_content::resolve::{
    compute_club_stats, featured_post_ids, health_check, plan_club_stats, serve_after_increment,
    slug_outcome, SlugOutcome, StatsPlan, STATS_CACHE_KEY, STATS_TTL_SECONDS,
};
use chico_content::rows::{BlogPostRow, EventRow};
use chico_content::service::{DatabaseService, ResourceKind, BLOG_POSTS_BY_IDS_HEAD, BLOG_POSTS_BY_IDS_TAIL};
use chico_content::model::{DifficultyLevel, EventType, ProjectStatus};

fn s(x: &str) -> String {
    x.to_string()
}

fn now() -> Timestamp {
    Timestamp { secs: 1_700_000_000, nanos: 5 }
}

fn post_row(id: &str, slug: &str) -> BlogPostRow {
    BlogPostRow {
        id: s(id),
        title: s("Title"),
        slug: s(slug),
        excerpt: s("Excerpt"),
        post_type: s("guide"),
        category: s("testing"),
        tags: s("[]"),
        author_name: s("Ada"),
        author_github: None,
        difficulty_level: None,
        estimated_read_time: 4,
        published_at: s("2024-02-01"),
        updated_at: Some(s("2024-02-02")),
        views: 0,
        likes: 0,
        markdown_url: s("https://example.org/x.md"),
        series_title: None,
        series_part: None,
        series_total_parts: None,
        external_links: None,
    }
}

fn found_post(id: &str) -> BlogPost {
    DatabaseService::get_blog_post_by_slug(Some(post_row(id, "a-slug"))).expect("post")
}

#[test]
fn empty_events_read_gives_the_sample_events() {
    let events = DatabaseService::get_events(Vec::new(), now());
    let ids: Vec<&str> = events.iter().map(|e| e.id.as_str()).collect();
    assert_eq!(
        ids,
        vec![
            "550e8400-e29b-41d4-a716-446655440001",
            "550e8400-e29b-41d4-a716-446655440002",
            "550e8400-e29b-41d4-a716-446655440003",
        ]
    );
    assert_eq!(events[1].title, "Weekly Study Group");
    assert_eq!(events[1].event_type, EventType::StudyGroup);
    assert!(events[1].recurring);
    assert_eq!(events[2].event_type, EventType::Seminar);
    assert!(events.iter().all(|e| e.created_at == now()));
}

#[test]
fn empty_issues_read_gives_the_sample_issues() {
    let issues = DatabaseService::get_issues(Vec::new(), now());
    assert_eq!(issues.len(), 2);
    assert_eq!(issues[0].id, "550e8400-e29b-41d4-a716-446655440010");
    assert_eq!(issues[1].id, "550e8400-e29b-41d4-a716-446655440011");
    assert_eq!(issues[0].tags, vec![s("documentation"), s("async"), s("good-first-issue")]);
    assert_eq!(issues[1].difficulty, DifficultyLevel::Medium);
    assert_eq!(issues[1].repo, "rust-lang/rust");
}

#[test]
fn empty_projects_read_gives_the_sample_projects() {
    let projects = DatabaseService::get_projects(Vec::new(), now());
    assert_eq!(projects.len(), 2);
    assert_eq!(projects[0].id, "550e8400-e29b-41d4-a716-446655440020");
    assert_eq!(projects[1].id, "550e8400-e29b-41d4-a716-446655440021");
    assert_eq!(projects[0].leader.github_username, Some(s("alexcodes")));
    assert_eq!(projects[0].contributors.len(), 2);
    assert_eq!(projects[1].contributors[0].name, "Casey Johnson");
    assert_eq!(projects[0].tech_stack, vec![s("Leptos"), s("Trunk"), s("CSS"), s("Cloudflare")]);
    assert_eq!(projects[1].status, ProjectStatus::InDevelopment);
}

#[test]
fn stored_events_are_served_in_store_order() {
    let mk = |id: &str| EventRow {
        uuid: s(id),
        title: s("T"),
        description: s("D"),
        date: s("d"),
        time: s("t"),
        location: s("l"),
        event_type: s("Hackathon"),
        recurring: 0,
        created_at: s("2024-01-01T00:00:00Z"),
    };
    let events = DatabaseService::get_events(vec![mk("newer"), mk("older")], now());
    assert_eq!(events.len(), 2);
    assert_eq!(events[0].id, "newer");
    assert_eq!(events[1].id, "older");
    assert_eq!(events[0].event_type, EventType::Hackathon);
    assert!(!events[0].recurring);
}

#[test]
fn empty_blog_read_gives_no_posts() {
    assert!(DatabaseService::get_blog_posts(Vec::new()).is_empty());
    assert!(!ResourceKind::BlogPosts.has_fallback());
    assert!(ResourceKind::Events.has_fallback());
    let posts = DatabaseService::get_blog_posts(vec![post_row("a", "x"), post_row("b", "y")]);
    assert_eq!(posts.len(), 2);
    assert_eq!(posts[1].slug, "y");
}

#[test]
fn no_ids_means_no_query_and_no_posts() {
    assert!(DatabaseService::blog_posts_by_ids_query(&Vec::new()).is_none());
    let posts = DatabaseService::get_blog_posts_by_ids(&Vec::new(), vec![post_row("a", "x")]);
    assert!(posts.is_empty());
}

#[test]
fn ids_query_has_one_placeholder_per_id() {
    let q = DatabaseService::blog_posts_by_ids_query(&vec![s("a"), s("b"), s("c")]).expect("query");
    assert_eq!(q, format!("{}?,?,?{}", BLOG_POSTS_BY_IDS_HEAD, BLOG_POSTS_BY_IDS_TAIL));
    assert!(q.contains("WHERE id IN (?,?,?) ORDER BY published_at DESC"));
    let one = DatabaseService::blog_posts_by_ids_query(&vec![s("a")]).expect("query");
    assert!(one.contains("IN (?)"));
    let posts = DatabaseService::get_blog_posts_by_ids(&vec![s("a")], vec![post_row("a", "x")]);
    assert_eq!(posts.len(), 1);
}

#[test]
fn missing_slug_is_not_found_and_counts_no_view() {
    let found = DatabaseService::get_blog_post_by_slug(None);
    assert!(found.is_none());
    assert!(matches!(slug_outcome(found), SlugOutcome::NotFound));
}

#[test]
fn found_slug_counts_a_view_of_its_post() {
    match slug_outcome(Some(found_post("post-7"))) {
        SlugOutcome::Found { post_id, post } => {
            assert_eq!(post_id, "post-7");
            assert_eq!(post.slug, "a-slug");
        }
        SlugOutcome::NotFound => panic!("expected the post"),
    }
}

#[test]
fn failed_view_increment_still_serves_the_post() {
    let served = serve_after_increment(found_post("post-9"), false);
    assert_eq!(served.id, "post-9");
    let served = serve_after_increment(found_post("post-9"), true);
    assert_eq!(served.id, "post-9");
}

#[test]
fn member_count_defaults_and_truncates() {
    assert_eq!(DatabaseService::get_member_count(None), 0);
    assert_eq!(DatabaseService::get_member_count(Some(42)), 42);
    assert_eq!(DatabaseService::get_member_count(Some((1u64 << 32) + 5)), 5);
}

#[test]
fn stats_miss_computes_and_writes_back() {
    assert_eq!(plan_club_stats(None), StatsPlan::Compute);
    let (stats, write) = compute_club_stats(21);
    assert_eq!(
        stats,
        Stats { active_members: 21, prs_merged_this_semester: 47, workshops_held: 12, projects_contributed_to: 8 }
    );
    assert_eq!(write.key, STATS_CACHE_KEY);
    assert_eq!(write.key, "club_stats");
    assert_eq!(write.ttl_seconds, 3600);
    assert_eq!(write.value, stats);
}

struct FakeCache {
    entry: Option<(String, Stats, u64)>,
}

impl FakeCache {
    fn get(&self, key: &str, at: u64) -> Option<Stats> {
        match &self.entry {
            Some((k, v, expires)) if k == key && at < *expires => Some(*v),
            _ => None,
        }
    }
}

fn club_stats_counted(
    cache: &mut FakeCache,
    at: u64,
    computes: &mut u32,
    count: Result<u32, ()>,
) -> Result<Stats, ()> {
    match plan_club_stats(cache.get(STATS_CACHE_KEY, at)) {
        StatsPlan::Serve(s) => Ok(s),
        StatsPlan::Compute => {
            *computes += 1;
            let (stats, write) = compute_club_stats(count?);
            cache.entry = Some((write.key, write.value, at + write.ttl_seconds));
            Ok(stats)
        }
    }
}

fn club_stats(cache: &mut FakeCache, at: u64, computes: &mut u32) -> Stats {
    club_stats_counted(cache, at, computes, Ok(30)).expect("stats")
}

#[test]
fn second_stats_call_within_ttl_is_served_from_cache() {
    let mut cache = FakeCache { entry: None };
    let mut computes = 0;
    let first = club_stats(&mut cache, 1000, &mut computes);
    assert_eq!(computes, 1);
    let second = club_stats(&mut cache, 1000 + STATS_TTL_SECONDS - 1, &mut computes);
    assert_eq!(computes, 1);
    assert_eq!(first, second);
    assert_eq!(second.active_members, 30);
    club_stats(&mut cache, 1000 + STATS_TTL_SECONDS, &mut computes);
    assert_eq!(computes, 2);
}

#[test]
fn failed_member_count_fails_and_caches_nothing() {
    let mut cache = FakeCache { entry: None };
    let mut computes = 0;
    assert_eq!(club_stats_counted(&mut cache, 1000, &mut computes, Err(())), Err(()));
    assert!(cache.entry.is_none());
    let later = club_stats_counted(&mut cache, 1001, &mut computes, Ok(12)).expect("stats");
    assert_eq!(later.active_members, 12);
    assert_eq!(computes, 2);
}

#[test]
fn cache_hit_is_served_as_is() {
    let cached = Stats { active_members: 5, prs_merged_this_semester: 1, workshops_held: 2, projects_contributed_to: 3 };
    assert_eq!(plan_club_stats(Some(cached)), StatsPlan::Serve(cached));
}

#[test]
fn featured_ids_come_from_the_cached_list() {
    assert!(featured_post_ids(None).is_empty());
    assert!(featured_post_ids(Some(s("{broken"))).is_empty());
    assert_eq!(featured_post_ids(Some(s("[\"p-2\",\"p-1\"]"))), vec![s("p-2"), s("p-1")]);
}

#[test]
fn health_probe_reports_healthy() {
    let h = health_check(now());
    assert_eq!(h.status, "healthy");
    assert_eq!(h.version, "v1");
    assert_eq!(h.timestamp, now());
}

#[test]
fn placeholders_before_fetch_are_empty() {
    assert!(mock::get_upcoming_events().is_empty());
    assert!(mock::get_issues_by_difficulty(DifficultyLevel::Hard).is_empty());
    assert!(mock::get_club_projects().is_empty());
    assert!(mock::get_issues().is_empty());
    assert!(mock::get_events().is_empty());
    assert!(mock::get_blog_posts().is_empty());
    assert!(mock::get_featured_blog_posts().is_empty());
}
