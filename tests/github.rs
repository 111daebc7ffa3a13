use self_assessment::github::{
    format_pr, format_prs, insert_parameter, prepare_parameters, Pager, CLOSED_PR, MERGED_PR,
    OPEN_PR,
};
use self_assessment::models::{
    GithubSearchResponse, GithubSearchResponseItem, GuardianPullRequests, Label, PullRequest,
    ReportError, User,
};

fn user(login: &str) -> User {
    User {
        login: login.to_string(),
        id: 1,
        node_id: "U_1".to_string(),
        avatar_url: format!("https://avatars.example/{}", login),
        gravatar_id: String::new(),
        url: String::new(),
        html_url: String::new(),
        followers_url: String::new(),
        gists_url: String::new(),
        starred_url: String::new(),
        subscriptions_url: String::new(),
        organizations_url: String::new(),
        repos_url: String::new(),
        events_url: String::new(),
        received_events_url: String::new(),
        user_type: "User".to_string(),
        site_admin: false,
    }
}

fn label(name: &str, color: &str) -> Label {
    Label {
        id: 7,
        node_id: "L_7".to_string(),
        url: String::new(),
        name: name.to_string(),
        color: color.to_string(),
    }
}

fn item(id: u64, state: &str, merged_at: Option<&str>, labels: Vec<Label>) -> GithubSearchResponseItem {
    GithubSearchResponseItem {
        url: String::new(),
        repository_url: "https://api.github.com/repos/guardian/frontend".to_string(),
        labels_url: String::new(),
        comments_url: String::new(),
        events_url: String::new(),
        html_url: format!("https://github.com/guardian/frontend/pull/{}", id),
        id,
        node_id: format!("PR_{}", id),
        number: id,
        title: format!("Change {}", id),
        user: user("octo"),
        labels,
        state: state.to_string(),
        assignee: None,
        milestone: None,
        comments: 0,
        created_at: "2024-03-15T10:20:30Z".to_string(),
        updated_at: "2024-03-16T10:20:30Z".to_string(),
        closed_at: None,
        pull_request: PullRequest {
            url: String::new(),
            html_url: String::new(),
            diff_url: String::new(),
            patch_url: String::new(),
            merged_at: merged_at.map(|m| m.to_string()),
        },
        body: None,
        locked: false,
        author_association: "MEMBER".to_string(),
    }
}

fn page(first_id: u64, n: u64, total: u32) -> GithubSearchResponse {
    GithubSearchResponse {
        total_count: total,
        incomplete_results: false,
        items: (first_id..first_id + n).map(|i| item(i, "open", None, vec![])).collect(),
    }
}

fn pairs(ps: &[(String, String)]) -> Vec<(&str, &str)> {
    ps.iter().map(|(k, v)| (k.as_str(), v.as_str())).collect()
}

#[test]
fn search_queries() {
    assert_eq!(
        GuardianPullRequests::AuthoredByMe.search_query("2024-01-01", "*"),
        "org:guardian author:@me is:pr created:2024-01-01..*"
    );
    assert_eq!(
        GuardianPullRequests::ReviewedByMe.search_query("*", "2024-12-31"),
        "org:guardian -author:@me reviewed-by:@me is:pr created:*..2024-12-31"
    );
}

#[test]
fn search_descriptions() {
    assert_eq!(GuardianPullRequests::AuthoredByMe.to_string(), "pull requests authored by you");
    assert_eq!(GuardianPullRequests::ReviewedByMe.to_string(), "pull requests reviewed by you");
}

#[test]
fn first_page_parameters() {
    let ps = prepare_parameters();
    assert_eq!(pairs(&ps), vec![("per_page", "100"), ("page", "1"), ("order", "desc")]);
}

#[test]
fn inserting_parameters_replaces_or_appends() {
    let mut ps = prepare_parameters();
    insert_parameter(&mut ps, "page", "3".to_string());
    insert_parameter(&mut ps, "q", "is:pr".to_string());
    assert_eq!(
        pairs(&ps),
        vec![("per_page", "100"), ("page", "3"), ("order", "desc"), ("q", "is:pr")]
    );
}

#[test]
fn pager_parameters_follow_pages() {
    let mut pager = Pager::new(GuardianPullRequests::AuthoredByMe, "*", "*");
    assert_eq!(
        pairs(&pager.parameters()),
        vec![
            ("per_page", "100"),
            ("page", "1"),
            ("order", "desc"),
            ("q", "org:guardian author:@me is:pr created:*..*"),
        ]
    );
    pager.receive(page(0, 100, 250));
    assert_eq!(pairs(&pager.parameters())[1], ("page", "2"));
}

#[test]
fn pager_collects_all_pages_up_to_total() {
    let mut pager = Pager::new(GuardianPullRequests::AuthoredByMe, "*", "*");
    let mut requests = 0;
    let pages = vec![page(0, 100, 237), page(100, 100, 237), page(200, 37, 237), page(237, 5, 237)];
    for p in pages {
        if pager.is_done() {
            break;
        }
        requests += 1;
        pager.receive(p);
    }
    assert!(pager.is_done());
    assert_eq!(requests, 3);
    let items = pager.into_items();
    assert_eq!(items.len(), 237);
    for (i, it) in items.iter().enumerate() {
        assert_eq!(it.id, i as u64);
    }
}

#[test]
fn pager_stops_on_empty_page_despite_wrong_total() {
    let mut pager = Pager::new(GuardianPullRequests::ReviewedByMe, "*", "*");
    pager.receive(page(0, 100, 1000));
    assert!(!pager.is_done());
    pager.receive(page(100, 50, 1000));
    assert!(!pager.is_done());
    pager.receive(page(150, 0, 1000));
    assert!(pager.is_done());
    let items = pager.into_items();
    assert_eq!(items.len(), 150);
    assert_eq!(items[149].id, 149);
}

#[test]
fn pager_ends_on_empty_first_page() {
    let mut pager = Pager::new(GuardianPullRequests::AuthoredByMe, "*", "*");
    pager.receive(page(0, 0, 0));
    assert!(pager.is_done());
    assert!(pager.into_items().is_empty());
}

#[test]
fn status_of_merged_closed_and_open_prs() {
    let merged = format_pr(&item(1, "closed", Some("2024-03-20T00:00:00Z"), vec![])).unwrap();
    assert_eq!(merged.status, MERGED_PR);
    let closed = format_pr(&item(2, "closed", None, vec![])).unwrap();
    assert_eq!(closed.status, CLOSED_PR);
    let open = format_pr(&item(3, "open", None, vec![])).unwrap();
    assert_eq!(open.status, OPEN_PR);
    let draft = format_pr(&item(4, "draft", None, vec![])).unwrap();
    assert_eq!(draft.status, "draft");
}

#[test]
fn normalized_pr_fields() {
    let mut it = item(5, "open", None, vec![label("bug", "d73a4a"), label("docs", "ffffff")]);
    it.comments = 1;
    it.body = Some("Fixes **everything**".to_string());
    let pr = format_pr(&it).unwrap();
    assert_eq!(pr.created_at, "2024-03-15");
    assert_eq!(pr.title, "Change 5");
    assert_eq!(pr.html_url, "https://github.com/guardian/frontend/pull/5");
    assert_eq!(pr.repo_name, "frontend");
    assert_eq!(pr.comments, 1);
    assert_eq!(pr.comments_present, (true, true));
    assert_eq!(pr.body, "<p>Fixes <strong>everything</strong></p>");
    assert_eq!(
        pr.labels,
        "<span class=\"label\" style=\"color:hsl(0,0%,100%); background-color: #d73a4a;\">bug</span> \
<span class=\"label\" style=\"color:hsl(0,0%,0%); background-color: #ffffff;\">docs</span>"
    );
    assert_eq!(pr.author, "octo");
    assert_eq!(pr.profile_pic, "https://avatars.example/octo");
}

#[test]
fn comment_flags() {
    let mut it = item(6, "open", None, vec![]);
    assert_eq!(format_pr(&it).unwrap().comments_present, (false, false));
    it.comments = 4;
    assert_eq!(format_pr(&it).unwrap().comments_present, (true, false));
}

#[test]
fn missing_body_renders_placeholder() {
    let pr = format_pr(&item(7, "open", None, vec![])).unwrap();
    assert_eq!(pr.body, "<p><em>No description provided.</em></p>");
    assert_eq!(pr.labels, "");
}

#[test]
fn invalid_label_colour_fails_the_pr() {
    let it = item(8, "open", None, vec![label("ok", "ffffff"), label("bad", "nothex")]);
    assert_eq!(format_pr(&it), Err(ReportError::InvalidColor));
}

#[test]
fn foreign_repository_url_fails_the_pr() {
    let mut it = item(9, "open", None, vec![]);
    it.repository_url = "https://example.com/repos/guardian/frontend".to_string();
    assert_eq!(format_pr(&it), Err(ReportError::InvalidRepositoryUrl));
}

#[test]
fn format_prs_keeps_order_and_reports_first_error() {
    let prs = format_prs(&[item(1, "open", None, vec![]), item(2, "closed", None, vec![])]).unwrap();
    assert_eq!(prs.len(), 2);
    assert_eq!(prs[0].title, "Change 1");
    assert_eq!(prs[1].status, CLOSED_PR);
    assert!(format_prs(&[]).unwrap().is_empty());
    let mut bad_url = item(3, "open", None, vec![]);
    bad_url.repository_url = "not a url".to_string();
    let bad_colour = item(4, "open", None, vec![label("x", "12")]);
    assert_eq!(format_prs(&[bad_colour, bad_url]), Err(ReportError::InvalidColor));
}
