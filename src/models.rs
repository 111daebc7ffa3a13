use vstd::prelude::*;

verus! {

/// The two searches that a report is made of.
#[derive(Debug, Clone, Copy, PartialEq, Eq, Structural)]
pub enum GuardianPullRequests {
    AuthoredByMe,
    ReviewedByMe,
}

/// One page of the GitHub issue search.
#[derive(Debug, PartialEq, Eq)]
pub struct GithubSearchResponse {
    pub total_count: u32,
    pub incomplete_results: bool,
    pub items: Vec<GithubSearchResponseItem>,
}

/// One pull request as the GitHub issue search returns it.
#[derive(Debug, PartialEq, Eq)]
pub struct GithubSearchResponseItem {
    pub url: String,
    pub repository_url: String,
    pub labels_url: String,
    pub comments_url: String,
    pub events_url: String,
    pub html_url: String,
    pub id: u64,
    pub node_id: String,
    pub number: u64,
    pub title: String,
    pub user: User,
    pub labels: Vec<Label>,
    pub state: String,
    pub assignee: Option<String>,
    pub milestone: Option<Milestone>,
    pub comments: u32,
    pub created_at: String,
    pub updated_at: String,
    pub closed_at: Option<String>,
    pub pull_request: PullRequest,
    pub body: Option<String>,
    pub locked: bool,
    pub author_association: String,
}

/// The pull-request part of a search item; `merged_at` is set once merged.
#[derive(Debug, PartialEq, Eq)]
pub struct PullRequest {
    pub url: String,
    pub html_url: String,
    pub diff_url: String,
    pub patch_url: String,
    pub merged_at: Option<String>,
}

#[derive(Debug, PartialEq, Eq)]
pub struct User {
    pub login: String,
    pub id: u64,
    pub node_id: String,
    pub avatar_url: String,
    pub gravatar_id: String,
    pub url: String,
    pub html_url: String,
    pub followers_url: String,
    pub gists_url: String,
    pub starred_url: String,
    pub subscriptions_url: String,
    pub organizations_url: String,
    pub repos_url: String,
    pub events_url: String,
    pub received_events_url: String,
    pub user_type: String,
    pub site_admin: bool,
}

/// A GitHub label; `color` is six hexadecimal digits.
#[derive(Debug, PartialEq, Eq)]
pub struct Label {
    pub id: u64,
    pub node_id: String,
    pub url: String,
    pub name: String,
    pub color: String,
}

#[derive(Debug, PartialEq, Eq)]
pub struct Milestone {
    pub url: String,
    pub html_url: String,
    pub labels_url: String,
    pub id: u64,
    pub node_id: String,
    pub number: u64,
    pub state: String,
    pub title: String,
    pub description: String,
    pub creator: User,
    pub open_issues: u32,
    pub closed_issues: u32,
    pub created_at: String,
    pub updated_at: String,
    pub closed_at: String,
    pub due_on: String,
}

#[derive(Debug, PartialEq, Eq)]
pub struct TrelloBoard {
    pub id: String,
    pub name: String,
}

/// A Trello card; `date_last_activity` is an RFC 3339 timestamp.
#[derive(Debug, PartialEq, Eq)]
pub struct TrelloCard {
    pub id: String,
    pub name: String,
    pub desc: String,
    pub id_members: Vec<String>,
    pub url: String,
    pub date_last_activity: String,
    pub labels: Vec<TrelloLabel>,
}

/// A card ready for the report.
#[derive(Debug, PartialEq, Eq)]
pub struct TemplateTrelloCard {
    pub name: String,
    pub url: String,
    pub labels: String,
}

/// A Trello label; `color` is one of Trello's colour names, if any.
#[derive(Debug, PartialEq, Eq)]
pub struct TrelloLabel {
    pub id: String,
    pub id_board: String,
    pub name: String,
    pub color: Option<String>,
}

#[derive(Debug, PartialEq, Eq)]
pub struct TrelloUser {
    pub id: String,
    pub full_name: String,
    pub avatar_url: String,
}

/// The cards of one board, ready for the report.
#[derive(Debug, PartialEq, Eq)]
pub struct BoardAndCards {
    pub board: String,
    pub cards: Vec<TemplateTrelloCard>,
}

/// A pull request ready for the report.
#[derive(Debug, PartialEq, Eq)]
pub struct TemplatePr {
    pub status: String,
    pub created_at: String,
    pub title: String,
    pub html_url: String,
    pub repo_name: String,
    pub comments: u32,
    pub comments_present: (bool, bool),
    pub body: String,
    pub labels: String,
    pub author: String,
    pub profile_pic: String,
}

/// What goes wrong in building a report.
#[derive(Debug, Clone, Copy, PartialEq, Eq, Structural)]
pub enum ReportError {
    /// No GitHub token is stored.
    AuthMissing,
    /// A label colour is not a hexadecimal colour.
    InvalidColor,
    /// A repository URL does not lie under the organisation's API root.
    InvalidRepositoryUrl,
}

} // verus!
