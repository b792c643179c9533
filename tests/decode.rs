use chico_content::codec::{decode_string_list, encode_string_list, parse_timestamp};
use chico_content::entity::{ExternalLink, Timestamp};
use chico_content::model::{BlogCategory, BlogPostType, DifficultyLevel, EventType, ProjectStatus};
use chico_content::rows::{
    blog_post_from_row, event_from_row, issue_from_row, project_from_row, series_from_columns,
    BlogPostRow, EventRow, IssueRow, ProjectRow,
};

fn s(x: &str) -> String {
    x.to_string()
}

fn event_row(event_type: &str, recurring: i32, created_at: &str) -> EventRow {
    EventRow {
        uuid: s("e-1"),
        title: s("Intro"),
        description: s("An intro"),
        date: s("May 1"),
        time: s("1 PM"),
        location: s("Room 1"),
        event_type: s(event_type),
        recurring,
        created_at: s(created_at),
    }
}

fn issue_row(tags: &str) -> IssueRow {
    IssueRow {
        uuid: s("i-1"),
        title: s("Fix docs"),
        description: s("Docs are stale"),
        repo: s("owner/name"),
        github_url: s("https://github.com/owner/name/issues/1"),
        difficulty: s("Hard"),
        tags: s(tags),
        created_at: s("2024-03-01T12:00:00Z"),
    }
}

fn post_row() -> BlogPostRow {
    BlogPostRow {
        id: s("p-1"),
        title: s("Ownership"),
        slug: s("ownership"),
        excerpt: s("Borrowing explained"),
        post_type: s("show_and_tell"),
        category: s("systems_programming"),
        tags: s("[\"rust\",\"memory\"]"),
        author_name: s("Ada"),
        author_github: Some(s("ada")),
        difficulty_level: Some(s("medium")),
        estimated_read_time: 7,
        published_at: s("2024-02-01"),
        updated_at: None,
        views: 10,
        likes: 3,
        markdown_url: s("https://example.org/ownership.md"),
        series_title: None,
        series_part: None,
        series_total_parts: None,
        external_links: None,
    }
}

#[test]
fn event_type_decodes_every_known_spelling() {
    assert_eq!(EventType::from_db_str("Workshop"), EventType::Workshop);
    assert_eq!(EventType::from_db_str("StudyGroup"), EventType::StudyGroup);
    assert_eq!(EventType::from_db_str("Seminar"), EventType::Seminar);
    assert_eq!(EventType::from_db_str("Hackathon"), EventType::Hackathon);
    assert_eq!(EventType::from_db_str("Panel"), EventType::Panel);
    assert_eq!(EventType::from_db_str("Networking"), EventType::Networking);
}

#[test]
fn unknown_event_type_decodes_to_workshop() {
    assert_eq!(EventType::from_db_str("Xyzzy"), EventType::Workshop);
    assert_eq!(EventType::from_db_str(""), EventType::Workshop);
    assert_eq!(EventType::from_db_str("seminar"), EventType::Workshop);
    let e = event_from_row(event_row("Xyzzy", 0, "2024-01-02T03:04:05Z"));
    assert_eq!(e.event_type, EventType::Workshop);
    assert_eq!(e.id, "e-1");
}

#[test]
fn other_enums_decode_with_their_defaults() {
    assert_eq!(DifficultyLevel::from_db_str("Medium"), DifficultyLevel::Medium);
    assert_eq!(DifficultyLevel::from_db_str("medium"), DifficultyLevel::Easy);
    assert_eq!(DifficultyLevel::from_blog_str("hard"), DifficultyLevel::Hard);
    assert_eq!(DifficultyLevel::from_blog_str("Hard"), DifficultyLevel::Easy);
    assert_eq!(ProjectStatus::from_db_str("InDevelopment"), ProjectStatus::InDevelopment);
    assert_eq!(ProjectStatus::from_db_str("Archived"), ProjectStatus::Archived);
    assert_eq!(ProjectStatus::from_db_str("Paused"), ProjectStatus::Planning);
    assert_eq!(BlogPostType::from_db_str("tech_talk"), BlogPostType::TechTalk);
    assert_eq!(BlogPostType::from_db_str("TechTalk"), BlogPostType::Tutorial);
    assert_eq!(BlogCategory::from_db_str("cli"), BlogCategory::CLI);
    assert_eq!(BlogCategory::from_db_str("community"), BlogCategory::Community);
    assert_eq!(BlogCategory::from_db_str("poetry"), BlogCategory::Fundamentals);
}

#[test]
fn labels_read_as_words() {
    assert_eq!(EventType::StudyGroup.label(), "Study Group");
    assert_eq!(BlogPostType::ShowAndTell.label(), "Show & Tell");
    assert_eq!(BlogPostType::TechTalk.label(), "Tech Talk");
    assert_eq!(ProjectStatus::InDevelopment.label(), "In Development");
    assert_eq!(BlogCategory::WebDevelopment.label(), "Web Development");
    assert_eq!(BlogCategory::CLI.label(), "CLI");
    assert_eq!(DifficultyLevel::Hard.label(), "Hard");
}

#[test]
fn timestamps_parse_to_utc_instants() {
    let t = parse_timestamp("2024-01-02T03:04:05Z");
    assert_eq!(t, Timestamp { secs: 1_704_164_645, nanos: 0 });
    let shifted = parse_timestamp("2024-01-02T05:04:05.250+02:00");
    assert_eq!(shifted, Timestamp { secs: 1_704_164_645, nanos: 250_000_000 });
}

#[test]
fn bad_timestamp_gives_the_epoch() {
    assert_eq!(parse_timestamp("yesterday"), Timestamp::epoch());
    assert_eq!(parse_timestamp(""), Timestamp { secs: 0, nanos: 0 });
    let e = event_from_row(event_row("Panel", 1, "2024-13-45"));
    assert_eq!(e.created_at, Timestamp::epoch());
    assert_eq!(e.event_type, EventType::Panel);
    assert!(e.recurring);
}

#[test]
fn string_lists_decode_and_malformed_ones_are_empty() {
    assert_eq!(decode_string_list("[\"a\",\"b c\"]"), vec![s("a"), s("b c")]);
    assert_eq!(decode_string_list("[]"), Vec::<String>::new());
    assert_eq!(decode_string_list("not json"), Vec::<String>::new());
    assert_eq!(decode_string_list("[1,2]"), Vec::<String>::new());
    assert_eq!(decode_string_list("{\"a\":\"b\"}"), Vec::<String>::new());
}

#[test]
fn string_lists_round_trip() {
    let v = vec![s("plain"), s("with \"quotes\""), s("back\\slash"), s("ünïcödé"), s("")];
    let encoded = encode_string_list(&v);
    assert_eq!(decode_string_list(&encoded), v);
    assert_eq!(encode_string_list(&vec![s("a"), s("b")]), "[\"a\",\"b\"]");
}

#[test]
fn corrupted_tags_leave_the_rest_of_the_row() {
    let good = issue_from_row(issue_row("[\"docs\",\"easy-fix\"]"));
    let bad = issue_from_row(issue_row("[\"docs\","));
    assert_eq!(good.tags, vec![s("docs"), s("easy-fix")]);
    assert!(bad.tags.is_empty());
    assert_eq!(bad.id, good.id);
    assert_eq!(bad.title, good.title);
    assert_eq!(bad.repo, good.repo);
    assert_eq!(bad.difficulty, DifficultyLevel::Hard);
    assert_eq!(bad.created_at, good.created_at);
    assert_eq!(bad.created_at, Timestamp { secs: 1_709_294_400, nanos: 0 });
}

#[test]
fn project_row_decodes_each_list_on_its_own() {
    let row = ProjectRow {
        uuid: s("pr-1"),
        name: s("Site"),
        description: s("The site"),
        github_url: s("https://github.com/o/site"),
        leader_name: s("Lee"),
        leader_github: None,
        status: s("Beta"),
        tech_stack: s("oops"),
        contributors_needed: 2,
        skills_needed: s("[\"CSS\"]"),
        created_at: s("2024-01-02T03:04:05Z"),
    };
    let p = project_from_row(row);
    assert!(p.tech_stack.is_empty());
    assert_eq!(p.skills_needed, vec![s("CSS")]);
    assert_eq!(p.status, ProjectStatus::Beta);
    assert!(p.contributors_needed);
    assert!(p.contributors.is_empty());
    assert_eq!(p.leader.name, "Lee");
    assert_eq!(p.leader.github_username, None);
}

#[test]
fn blog_post_row_decodes() {
    let p = blog_post_from_row(post_row());
    assert_eq!(p.post_type, BlogPostType::ShowAndTell);
    assert_eq!(p.category, BlogCategory::SystemsProgramming);
    assert_eq!(p.tags, vec![s("rust"), s("memory")]);
    assert_eq!(p.difficulty_level, Some(DifficultyLevel::Medium));
    assert_eq!(p.estimated_read_time, 7);
    assert_eq!(p.views, 10);
    assert_eq!(p.likes, 3);
    assert!(p.series.is_none());
    assert!(p.external_links.is_empty());
}

#[test]
fn blog_post_optional_parts() {
    let mut row = post_row();
    row.difficulty_level = Some(s("expert"));
    row.series_title = Some(s("Rust in depth"));
    row.series_part = None;
    row.series_total_parts = Some(4);
    row.external_links = Some(vec![ExternalLink { title: s("Book"), url: s("https://doc.rust-lang.org/book") }]);
    row.views = -1;
    let p = blog_post_from_row(row);
    assert_eq!(p.difficulty_level, Some(DifficultyLevel::Easy));
    let series = p.series.expect("series");
    assert_eq!(series.title, "Rust in depth");
    assert_eq!(series.part, 1);
    assert_eq!(series.total_parts, Some(4));
    assert_eq!(p.external_links.len(), 1);
    assert_eq!(p.external_links[0].url, "https://doc.rust-lang.org/book");
    assert_eq!(p.views, u32::MAX);
}

#[test]
fn series_columns_round_trip() {
    let s1 = series_from_columns(Some(s("Intro")), Some(2), Some(5)).expect("series");
    assert_eq!((s1.title.as_str(), s1.part, s1.total_parts), ("Intro", 2, Some(5)));
    let s2 = series_from_columns(Some(s("Solo")), Some(1), None).expect("series");
    assert_eq!((s2.part, s2.total_parts), (1, None));
    assert!(series_from_columns(None, Some(3), Some(4)).is_none());
}
