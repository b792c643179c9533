use vstd::prelude::*;
use vstd::string::StringExecFns;
use crate::entity::{texts, Event, Issue, Member, Project, Timestamp};
use crate::model::{DifficultyLevel, EventType, ProjectStatus};

verus! {

/// `e` has exactly these field values.
pub open spec fn event_is(
    e: Event,
    id: Seq<char>,
    title: Seq<char>,
    description: Seq<char>,
    date: Seq<char>,
    time: Seq<char>,
    location: Seq<char>,
    event_type: EventType,
    recurring: bool,
    created_at: Timestamp,
) -> bool {
    &&& e.id@ == id
    &&& e.title@ == title
    &&& e.description@ == description
    &&& e.date@ == date
    &&& e.time@ == time
    &&& e.location@ == location
    &&& e.event_type == event_type
    &&& e.recurring == recurring
    &&& e.created_at == created_at
}

/// `i` has exactly these field values.
pub open spec fn issue_is(
    i: Issue,
    id: Seq<char>,
    title: Seq<char>,
    description: Seq<char>,
    repo: Seq<char>,
    github_url: Seq<char>,
    difficulty: DifficultyLevel,
    tags: Seq<Seq<char>>,
    created_at: Timestamp,
) -> bool {
    &&& i.id@ == id
    &&& i.title@ == title
    &&& i.description@ == description
    &&& i.repo@ == repo
    &&& i.github_url@ == github_url
    &&& i.difficulty == difficulty
    &&& texts(i.tags@) == tags
    &&& i.created_at == created_at
}

/// `m` is named `name` and has the GitHub handle `github`.
pub open spec fn member_is(m: Member, name: Seq<char>, github: Seq<char>) -> bool {
    &&& m.name@ == name
    &&& m.github_username is Some
    &&& m.github_username->0@ == github
}

/// `p` has exactly these field values; `contributors` lists name and handle.
pub open spec fn project_is(
    p: Project,
    id: Seq<char>,
    name: Seq<char>,
    description: Seq<char>,
    github_url: Seq<char>,
    leader: (Seq<char>, Seq<char>),
    contributors: Seq<(Seq<char>, Seq<char>)>,
    status: ProjectStatus,
    tech_stack: Seq<Seq<char>>,
    contributors_needed: bool,
    skills_needed: Seq<Seq<char>>,
    created_at: Timestamp,
) -> bool {
    &&& p.id@ == id
    &&& p.name@ == name
    &&& p.description@ == description
    &&& p.github_url@ == github_url
    &&& member_is(p.leader, leader.0, leader.1)
    &&& p.contributors@.len() == contributors.len()
    &&& forall|k: int|
        0 <= k < contributors.len() ==> member_is(
            #[trigger] p.contributors@[k],
            contributors[k].0,
            contributors[k].1,
        )
    &&& p.status == status
    &&& texts(p.tech_stack@) == tech_stack
    &&& p.contributors_needed == contributors_needed
    &&& texts(p.skills_needed@) == skills_needed
    &&& p.created_at == created_at
}

/// The sample events served while the store holds none, all stamped `now`.
pub open spec fn is_sample_events(r: Seq<Event>, now: Timestamp) -> bool {
    &&& r.len() == 3
    &&& event_is(r[0], "550e8400-e29b-41d4-a716-446655440001"@, "Spring 2025 Workshop #1: Rust Fundamentals"@, "Learn Rust fundamentals including ownership, borrowing, and building your first CLI tool. Perfect for beginners!"@, "February 15"@, "1:00 PM - 5:00 PM"@, "Engineering Building, Room 301"@, EventType::Workshop, false, now)
    &&& event_is(r[1], "550e8400-e29b-41d4-a716-446655440002"@, "Weekly Study Group"@, "Join us for collaborative learning and project work. Bring your Rust questions!"@, "Every Friday"@, "3:00 PM - 5:00 PM"@, "Library, Study Room B"@, EventType::StudyGroup, true, now)
    &&& event_is(r[2], "550e8400-e29b-41d4-a716-446655440003"@, "Industry Guest Speaker: WebAssembly in Production"@, "Learn how major companies are using Rust and WebAssembly in production environments."@, "March 8"@, "6:00 PM - 8:00 PM"@, "Auditorium A, Student Center"@, EventType::Seminar, false, now)
}

/// The sample issues served while the store holds none, all stamped `now`.
pub open spec fn is_sample_issues(r: Seq<Issue>, now: Timestamp) -> bool {
    &&& r.len() == 2
    &&& issue_is(r[0], "550e8400-e29b-41d4-a716-446655440010"@, "Add documentation for async patterns"@, "We need comprehensive documentation covering async/await patterns in Rust. This would help newcomers understand concurrent programming."@, "rust-lang/reference"@, "https://github.com/rust-lang/reference/issues/123"@, DifficultyLevel::Easy, seq!["documentation"@, "async"@, "good-first-issue"@], now)
    &&& issue_is(r[1], "550e8400-e29b-41d4-a716-446655440011"@, "Improve error message for trait bound errors"@, "Current error messages for complex trait bounds can be confusing. We need clearer, more actionable error messages."@, "rust-lang/rust"@, "https://github.com/rust-lang/rust/issues/456"@, DifficultyLevel::Medium, seq!["diagnostics"@, "error-messages"@, "good-first-issue"@], now)
}

/// The sample projects served while the store holds none, all stamped `now`.
pub open spec fn is_sample_projects(r: Seq<Project>, now: Timestamp) -> bool {
    &&& r.len() == 2
    &&& project_is(r[0], "550e8400-e29b-41d4-a716-446655440020"@, "The Rust Club Website"@, "Official website for The Rust Club built with Leptos and deployed on Cloudflare Pages."@, "https://github.com/rust-club/website"@, ("Alex Chen"@, "alexcodes"@), seq![("Jordan Smith"@, "jordandev"@), ("Sam Wilson"@, "samw"@)], ProjectStatus::Active, seq!["Leptos"@, "Trunk"@, "CSS"@, "Cloudflare"@], true, seq!["Frontend"@, "CSS"@, "Design"@], now)
    &&& project_is(r[1], "550e8400-e29b-41d4-a716-446655440021"@, "RustBot Discord Bot"@, "A Discord bot for The Rust Club server with moderation, event management, and learning resources."@, "https://github.com/rust-club/rustbot"@, ("Taylor Rodriguez"@, "taylorr"@), seq![("Casey Johnson"@, "caseyjay"@)], ProjectStatus::InDevelopment, seq!["Rust"@, "Serenity"@, "SQLite"@], true, seq!["Backend"@, "Discord API"@, "Database"@], now)
}

/// Owned copies of 3 strings, in order.
fn strings3(s0: &str, s1: &str, s2: &str) -> (r: Vec<String>)
    ensures
        texts(r@) == seq![s0@, s1@, s2@],
{
    let mut v: Vec<String> = Vec::new();
    v.push(String::from_str(s0));
    v.push(String::from_str(s1));
    v.push(String::from_str(s2));
    assert(texts(v@) =~= seq![s0@, s1@, s2@]);
    v
}

/// Owned copies of 4 strings, in order.
fn strings4(s0: &str, s1: &str, s2: &str, s3: &str) -> (r: Vec<String>)
    ensures
        texts(r@) == seq![s0@, s1@, s2@, s3@],
{
    let mut v: Vec<String> = Vec::new();
    v.push(String::from_str(s0));
    v.push(String::from_str(s1));
    v.push(String::from_str(s2));
    v.push(String::from_str(s3));
    assert(texts(v@) =~= seq![s0@, s1@, s2@, s3@]);
    v
}

/// A member with a GitHub handle.
fn member(name: &str, github: &str) -> (r: Member)
    ensures
        member_is(r, name@, github@),
{
    Member { name: String::from_str(name), github_username: Some(String::from_str(github)) }
}

/// The events served while the store holds none.
pub fn sample_events(now: Timestamp) -> (r: Vec<Event>)
    ensures
        is_sample_events(r@, now),
{
    let mut v: Vec<Event> = Vec::new();
    v.push(Event {
        id: String::from_str("550e8400-e29b-41d4-a716-446655440001"),
        title: String::from_str("Spring 2025 Workshop #1: Rust Fundamentals"),
        description: String::from_str("Learn Rust fundamentals including ownership, borrowing, and building your first CLI tool. Perfect for beginners!"),
        date: String::from_str("February 15"),
        time: String::from_str("1:00 PM - 5:00 PM"),
        location: String::from_str("Engineering Building, Room 301"),
        event_type: EventType::Workshop,
        recurring: false,
        created_at: now,
    });
    v.push(Event {
        id: String::from_str("550e8400-e29b-41d4-a716-446655440002"),
        title: String::from_str("Weekly Study Group"),
        description: String::from_str("Join us for collaborative learning and project work. Bring your Rust questions!"),
        date: String::from_str("Every Friday"),
        time: String::from_str("3:00 PM - 5:00 PM"),
        location: String::from_str("Library, Study Room B"),
        event_type: EventType::StudyGroup,
        recurring: true,
        created_at: now,
    });
    v.push(Event {
        id: String::from_str("550e8400-e29b-41d4-a716-446655440003"),
        title: String::from_str("Industry Guest Speaker: WebAssembly in Production"),
        description: String::from_str("Learn how major companies are using Rust and WebAssembly in production environments."),
        date: String::from_str("March 8"),
        time: String::from_str("6:00 PM - 8:00 PM"),
        location: String::from_str("Auditorium A, Student Center"),
        event_type: EventType::Seminar,
        recurring: false,
        created_at: now,
    });
    v
}

/// The issues served while the store holds none.
pub fn sample_issues(now: Timestamp) -> (r: Vec<Issue>)
    ensures
        is_sample_issues(r@, now),
{
    let mut v: Vec<Issue> = Vec::new();
    v.push(Issue {
        id: String::from_str("550e8400-e29b-41d4-a716-446655440010"),
        title: String::from_str("Add documentation for async patterns"),
        description: String::from_str("We need comprehensive documentation covering async/await patterns in Rust. This would help newcomers understand concurrent programming."),
        repo: String::from_str("rust-lang/reference"),
        github_url: String::from_str("https://github.com/rust-lang/reference/issues/123"),
        difficulty: DifficultyLevel::Easy,
        tags: strings3("documentation", "async", "good-first-issue"),
        created_at: now,
    });
    v.push(Issue {
        id: String::from_str("550e8400-e29b-41d4-a716-446655440011"),
        title: String::from_str("Improve error message for trait bound errors"),
        description: String::from_str("Current error messages for complex trait bounds can be confusing. We need clearer, more actionable error messages."),
        repo: String::from_str("rust-lang/rust"),
        github_url: String::from_str("https://github.com/rust-lang/rust/issues/456"),
        difficulty: DifficultyLevel::Medium,
        tags: strings3("diagnostics", "error-messages", "good-first-issue"),
        created_at: now,
    });
    v
}

/// The projects served while the store holds none.
pub fn sample_projects(now: Timestamp) -> (r: Vec<Project>)
    ensures
        is_sample_projects(r@, now),
{
    let mut v: Vec<Project> = Vec::new();
    let mut contributors0: Vec<Member> = Vec::new();
    contributors0.push(member("Jordan Smith", "jordandev"));
    contributors0.push(member("Sam Wilson", "samw"));
    v.push(Project {
        id: String::from_str("550e8400-e29b-41d4-a716-446655440020"),
        name: String::from_str("The Rust Club Website"),
        description: String::from_str("Official website for The Rust Club built with Leptos and deployed on Cloudflare Pages."),
        github_url: String::from_str("https://github.com/rust-club/website"),
        leader: member("Alex Chen", "alexcodes"),
        contributors: contributors0,
        status: ProjectStatus::Active,
        tech_stack: strings4("Leptos", "Trunk", "CSS", "Cloudflare"),
        contributors_needed: true,
        skills_needed: strings3("Frontend", "CSS", "Design"),
        created_at: now,
    });
    let mut contributors1: Vec<Member> = Vec::new();
    contributors1.push(member("Casey Johnson", "caseyjay"));
    v.push(Project {
        id: String::from_str("550e8400-e29b-41d4-a716-446655440021"),
        name: String::from_str("RustBot Discord Bot"),
        description: String::from_str("A Discord bot for The Rust Club server with moderation, event management, and learning resources."),
        github_url: String::from_str("https://github.com/rust-club/rustbot"),
        leader: member("Taylor Rodriguez", "taylorr"),
        contributors: contributors1,
        status: ProjectStatus::InDevelopment,
        tech_stack: strings3("Rust", "Serenity", "SQLite"),
        contributors_needed: true,
        skills_needed: strings3("Backend", "Discord API", "Database"),
        created_at: now,
    });
    v
}

} // verus!
