use vstd::prelude::*;
use vstd::string::StringExecFns;

verus! {

/// `true` when `s` holds exactly the characters of `lit`.
pub fn text_is(s: &str, lit: &str) -> (r: bool)
    ensures
        r == (s@ == lit@),
{
    let a = String::from_str(s);
    let b = String::from_str(lit);
    a == b
}

/// How hard a piece of work is.
#[derive(Debug, Clone, Copy, PartialEq, Eq, Structural)]
pub enum DifficultyLevel {
    Easy,
    Medium,
    Hard,
}

/// The human-readable name of a `DifficultyLevel`.
pub open spec fn difficulty_level_label(x: DifficultyLevel) -> Seq<char> {
    match x {
        DifficultyLevel::Easy => "Easy"@,
        DifficultyLevel::Medium => "Medium"@,
        DifficultyLevel::Hard => "Hard"@,
    }
}

/// The kind of a club event.
#[derive(Debug, Clone, Copy, PartialEq, Eq, Structural)]
pub enum EventType {
    Workshop,
    StudyGroup,
    Seminar,
    Hackathon,
    Panel,
    Networking,
}

/// The human-readable name of a `EventType`.
pub open spec fn event_type_label(x: EventType) -> Seq<char> {
    match x {
        EventType::Workshop => "Workshop"@,
        EventType::StudyGroup => "Study Group"@,
        EventType::Seminar => "Seminar"@,
        EventType::Hackathon => "Hackathon"@,
        EventType::Panel => "Panel"@,
        EventType::Networking => "Networking"@,
    }
}

/// Where a project stands.
#[derive(Debug, Clone, Copy, PartialEq, Eq, Structural)]
pub enum ProjectStatus {
    Planning,
    Active,
    InDevelopment,
    Beta,
    Completed,
    Archived,
}

/// The human-readable name of a `ProjectStatus`.
pub open spec fn project_status_label(x: ProjectStatus) -> Seq<char> {
    match x {
        ProjectStatus::Planning => "Planning"@,
        ProjectStatus::Active => "Active"@,
        ProjectStatus::InDevelopment => "In Development"@,
        ProjectStatus::Beta => "Beta"@,
        ProjectStatus::Completed => "Completed"@,
        ProjectStatus::Archived => "Archived"@,
    }
}

/// The form of a blog post.
#[derive(Debug, Clone, Copy, PartialEq, Eq, Structural)]
pub enum BlogPostType {
    Tutorial,
    Guide,
    ShowAndTell,
    TechTalk,
    News,
    Review,
}

/// The human-readable name of a `BlogPostType`.
pub open spec fn blog_post_type_label(x: BlogPostType) -> Seq<char> {
    match x {
        BlogPostType::Tutorial => "Tutorial"@,
        BlogPostType::Guide => "Guide"@,
        BlogPostType::ShowAndTell => "Show & Tell"@,
        BlogPostType::TechTalk => "Tech Talk"@,
        BlogPostType::News => "News"@,
        BlogPostType::Review => "Review"@,
    }
}

/// The subject area of a blog post.
#[derive(Debug, Clone, Copy, PartialEq, Eq, Structural)]
pub enum BlogCategory {
    Fundamentals,
    WebDevelopment,
    SystemsProgramming,
    GameDevelopment,
    CLI,
    DataScience,
    Blockchain,
    Performance,
    Testing,
    Deployment,
    Career,
    Community,
}

/// The human-readable name of a `BlogCategory`.
pub open spec fn blog_category_label(x: BlogCategory) -> Seq<char> {
    match x {
        BlogCategory::Fundamentals => "Fundamentals"@,
        BlogCategory::WebDevelopment => "Web Development"@,
        BlogCategory::SystemsProgramming => "Systems Programming"@,
        BlogCategory::GameDevelopment => "Game Development"@,
        BlogCategory::CLI => "CLI"@,
        BlogCategory::DataScience => "Data Science"@,
        BlogCategory::Blockchain => "Blockchain"@,
        BlogCategory::Performance => "Performance"@,
        BlogCategory::Testing => "Testing"@,
        BlogCategory::Deployment => "Deployment"@,
        BlogCategory::Career => "Career"@,
        BlogCategory::Community => "Community"@,
    }
}

/// What a stored `DifficultyLevel` spelling decodes to: `Easy` when it is none of the known ones.
pub open spec fn difficulty_of(s: Seq<char>) -> DifficultyLevel {
    if s == "Easy"@ {
        DifficultyLevel::Easy
    } else if s == "Medium"@ {
        DifficultyLevel::Medium
    } else if s == "Hard"@ {
        DifficultyLevel::Hard
    } else {
        DifficultyLevel::Easy
    }
}

/// What a stored `DifficultyLevel` spelling decodes to: `Easy` when it is none of the known ones.
pub open spec fn blog_difficulty_of(s: Seq<char>) -> DifficultyLevel {
    if s == "easy"@ {
        DifficultyLevel::Easy
    } else if s == "medium"@ {
        DifficultyLevel::Medium
    } else if s == "hard"@ {
        DifficultyLevel::Hard
    } else {
        DifficultyLevel::Easy
    }
}

/// What a stored `EventType` spelling decodes to: `Workshop` when it is none of the known ones.
pub open spec fn event_type_of(s: Seq<char>) -> EventType {
    if s == "Workshop"@ {
        EventType::Workshop
    } else if s == "StudyGroup"@ {
        EventType::StudyGroup
    } else if s == "Seminar"@ {
        EventType::Seminar
    } else if s == "Hackathon"@ {
        EventType::Hackathon
    } else if s == "Panel"@ {
        EventType::Panel
    } else if s == "Networking"@ {
        EventType::Networking
    } else {
        EventType::Workshop
    }
}

/// What a stored `ProjectStatus` spelling decodes to: `Planning` when it is none of the known ones.
pub open spec fn project_status_of(s: Seq<char>) -> ProjectStatus {
    if s == "Planning"@ {
        ProjectStatus::Planning
    } else if s == "Active"@ {
        ProjectStatus::Active
    } else if s == "InDevelopment"@ {
        ProjectStatus::InDevelopment
    } else if s == "Beta"@ {
        ProjectStatus::Beta
    } else if s == "Completed"@ {
        ProjectStatus::Completed
    } else if s == "Archived"@ {
        ProjectStatus::Archived
    } else {
        ProjectStatus::Planning
    }
}

/// What a stored `BlogPostType` spelling decodes to: `Tutorial` when it is none of the known ones.
pub open spec fn post_type_of(s: Seq<char>) -> BlogPostType {
    if s == "tutorial"@ {
        BlogPostType::Tutorial
    } else if s == "guide"@ {
        BlogPostType::Guide
    } else if s == "show_and_tell"@ {
        BlogPostType::ShowAndTell
    } else if s == "tech_talk"@ {
        BlogPostType::TechTalk
    } else if s == "news"@ {
        BlogPostType::News
    } else if s == "review"@ {
        BlogPostType::Review
    } else {
        BlogPostType::Tutorial
    }
}

/// What a stored `BlogCategory` spelling decodes to: `Fundamentals` when it is none of the known ones.
pub open spec fn category_of(s: Seq<char>) -> BlogCategory {
    if s == "fundamentals"@ {
        BlogCategory::Fundamentals
    } else if s == "web_development"@ {
        BlogCategory::WebDevelopment
    } else if s == "systems_programming"@ {
        BlogCategory::SystemsProgramming
    } else if s == "game_development"@ {
        BlogCategory::GameDevelopment
    } else if s == "cli"@ {
        BlogCategory::CLI
    } else if s == "data_science"@ {
        BlogCategory::DataScience
    } else if s == "blockchain"@ {
        BlogCategory::Blockchain
    } else if s == "performance"@ {
        BlogCategory::Performance
    } else if s == "testing"@ {
        BlogCategory::Testing
    } else if s == "deployment"@ {
        BlogCategory::Deployment
    } else if s == "career"@ {
        BlogCategory::Career
    } else if s == "community"@ {
        BlogCategory::Community
    } else {
        BlogCategory::Fundamentals
    }
}

impl DifficultyLevel {
    /// Decodes the spelling stored for issues; an unrecognised value gives `Easy`.
    pub fn from_db_str(s: &str) -> (r: DifficultyLevel)
        ensures
            r == difficulty_of(s@),
    {
        if text_is(s, "Easy") {
            DifficultyLevel::Easy
        } else if text_is(s, "Medium") {
            DifficultyLevel::Medium
        } else if text_is(s, "Hard") {
            DifficultyLevel::Hard
        } else {
            DifficultyLevel::Easy
        }
    }

    /// Decodes the lower-case spelling stored for blog posts; an unrecognised value gives `Easy`.
    pub fn from_blog_str(s: &str) -> (r: DifficultyLevel)
        ensures
            r == blog_difficulty_of(s@),
    {
        if text_is(s, "easy") {
            DifficultyLevel::Easy
        } else if text_is(s, "medium") {
            DifficultyLevel::Medium
        } else if text_is(s, "hard") {
            DifficultyLevel::Hard
        } else {
            DifficultyLevel::Easy
        }
    }

    /// The human-readable name, as shown to readers.
    pub fn label(&self) -> (r: String)
        ensures
            r@ == difficulty_level_label(*self),
    {
        match self {
            DifficultyLevel::Easy => String::from_str("Easy"),
            DifficultyLevel::Medium => String::from_str("Medium"),
            DifficultyLevel::Hard => String::from_str("Hard"),
        }
    }
}

impl EventType {
    /// Decodes the stored spelling; an unrecognised value gives `Workshop`.
    pub fn from_db_str(s: &str) -> (r: EventType)
        ensures
            r == event_type_of(s@),
    {
        if text_is(s, "Workshop") {
            EventType::Workshop
        } else if text_is(s, "StudyGroup") {
            EventType::StudyGroup
        } else if text_is(s, "Seminar") {
            EventType::Seminar
        } else if text_is(s, "Hackathon") {
            EventType::Hackathon
        } else if text_is(s, "Panel") {
            EventType::Panel
        } else if text_is(s, "Networking") {
            EventType::Networking
        } else {
            EventType::Workshop
        }
    }

    /// The human-readable name, as shown to readers.
    pub fn label(&self) -> (r: String)
        ensures
            r@ == event_type_label(*self),
    {
        match self {
            EventType::Workshop => String::from_str("Workshop"),
            EventType::StudyGroup => String::from_str("Study Group"),
            EventType::Seminar => String::from_str("Seminar"),
            EventType::Hackathon => String::from_str("Hackathon"),
            EventType::Panel => String::from_str("Panel"),
            EventType::Networking => String::from_str("Networking"),
        }
    }
}

impl ProjectStatus {
    /// Decodes the stored spelling; an unrecognised value gives `Planning`.
    pub fn from_db_str(s: &str) -> (r: ProjectStatus)
        ensures
            r == project_status_of(s@),
    {
        if text_is(s, "Planning") {
            ProjectStatus::Planning
        } else if text_is(s, "Active") {
            ProjectStatus::Active
        } else if text_is(s, "InDevelopment") {
            ProjectStatus::InDevelopment
        } else if text_is(s, "Beta") {
            ProjectStatus::Beta
        } else if text_is(s, "Completed") {
            ProjectStatus::Completed
        } else if text_is(s, "Archived") {
            ProjectStatus::Archived
        } else {
            ProjectStatus::Planning
        }
    }

    /// The human-readable name, as shown to readers.
    pub fn label(&self) -> (r: String)
        ensures
            r@ == project_status_label(*self),
    {
        match self {
            ProjectStatus::Planning => String::from_str("Planning"),
            ProjectStatus::Active => String::from_str("Active"),
            ProjectStatus::InDevelopment => String::from_str("In Development"),
            ProjectStatus::Beta => String::from_str("Beta"),
            ProjectStatus::Completed => String::from_str("Completed"),
            ProjectStatus::Archived => String::from_str("Archived"),
        }
    }
}

impl BlogPostType {
    /// Decodes the stored snake-case spelling; an unrecognised value gives `Tutorial`.
    pub fn from_db_str(s: &str) -> (r: BlogPostType)
        ensures
            r == post_type_of(s@),
    {
        if text_is(s, "tutorial") {
            BlogPostType::Tutorial
        } else if text_is(s, "guide") {
            BlogPostType::Guide
        } else if text_is(s, "show_and_tell") {
            BlogPostType::ShowAndTell
        } else if text_is(s, "tech_talk") {
            BlogPostType::TechTalk
        } else if text_is(s, "news") {
            BlogPostType::News
        } else if text_is(s, "review") {
            BlogPostType::Review
        } else {
            BlogPostType::Tutorial
        }
    }

    /// The human-readable name, as shown to readers.
    pub fn label(&self) -> (r: String)
        ensures
            r@ == blog_post_type_label(*self),
    {
        match self {
            BlogPostType::Tutorial => String::from_str("Tutorial"),
            BlogPostType::Guide => String::from_str("Guide"),
            BlogPostType::ShowAndTell => String::from_str("Show & Tell"),
            BlogPostType::TechTalk => String::from_str("Tech Talk"),
            BlogPostType::News => String::from_str("News"),
            BlogPostType::Review => String::from_str("Review"),
        }
    }
}

impl BlogCategory {
    /// Decodes the stored snake-case spelling; an unrecognised value gives `Fundamentals`.
    pub fn from_db_str(s: &str) -> (r: BlogCategory)
        ensures
            r == category_of(s@),
    {
        if text_is(s, "fundamentals") {
            BlogCategory::Fundamentals
        } else if text_is(s, "web_development") {
            BlogCategory::WebDevelopment
        } else if text_is(s, "systems_programming") {
            BlogCategory::SystemsProgramming
        } else if text_is(s, "game_development") {
            BlogCategory::GameDevelopment
        } else if text_is(s, "cli") {
            BlogCategory::CLI
        } else if text_is(s, "data_science") {
            BlogCategory::DataScience
        } else if text_is(s, "blockchain") {
            BlogCategory::Blockchain
        } else if text_is(s, "performance") {
            BlogCategory::Performance
        } else if text_is(s, "testing") {
            BlogCategory::Testing
        } else if text_is(s, "deployment") {
            BlogCategory::Deployment
        } else if text_is(s, "career") {
            BlogCategory::Career
        } else if text_is(s, "community") {
            BlogCategory::Community
        } else {
            BlogCategory::Fundamentals
        }
    }

    /// The human-readable name, as shown to readers.
    pub fn label(&self) -> (r: String)
        ensures
            r@ == blog_category_label(*self),
    {
        match self {
            BlogCategory::Fundamentals => String::from_str("Fundamentals"),
            BlogCategory::WebDevelopment => String::from_str("Web Development"),
            BlogCategory::SystemsProgramming => String::from_str("Systems Programming"),
            BlogCategory::GameDevelopment => String::from_str("Game Development"),
            BlogCategory::CLI => String::from_str("CLI"),
            BlogCategory::DataScience => String::from_str("Data Science"),
            BlogCategory::Blockchain => String::from_str("Blockchain"),
            BlogCategory::Performance => String::from_str("Performance"),
            BlogCategory::Testing => String::from_str("Testing"),
            BlogCategory::Deployment => String::from_str("Deployment"),
            BlogCategory::Career => String::from_str("Career"),
            BlogCategory::Community => String::from_str("Community"),
        }
    }
}

} // verus!
