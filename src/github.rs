use vstd::prelude::*;
use crate::colour::{calc_label_colour, grey_css_text, hex_colour, label_lightness_spec};
use crate::models::{
    GithubSearchResponse, GithubSearchResponseItem, GuardianPullRequests, Label, ReportError,
    TemplatePr,
};
use crate::text::{
    before_first, decimal, decimal_string, join_spaced, join_with_spaces, prefix_before, str_eq,
};

verus! {

/// The organisation whose pull requests are searched.
pub const GITHUB_ORG: &'static str = "guardian";

/// The API root of the organisation's repositories.
pub const GITHUB_REPOS_ROOT: &'static str = "https://api.github.com/repos/guardian/";

/// The markdown rendered for a pull request without a description.
pub const NO_DESCRIPTION: &'static str = "*No description provided.*";

pub const OPEN_PR: &'static str = "<svg style=\"color: #1a7f37; margin-left:10px;\" viewBox=\"0 0 16 16\" \
version=\"1.1\" width=\"16\" height=\"16\" aria-hidden=\"true\"><path fill=\"currentColor\" \
d=\"M7.177 3.073L9.573.677A.25.25 0 0110 .854v4.792a.25.25 0 01-.427.177L7.177 3.427a.25.25 0 \
010-.354zM3.75 2.5a.75.75 0 100 1.5.75.75 0 000-1.5zm-2.25.75a2.25 2.25 0 113 2.122v5.256a2.251 \
2.251 0 11-1.5 0V5.372A2.25 2.25 0 011.5 3.25zM11 2.5h-1V4h1a1 1 0 011 1v5.628a2.251 2.251 0 \
101.5 0V5A2.5 2.5 0 0011 2.5zm1 10.25a.75.75 0 111.5 0 .75.75 0 01-1.5 0zM3.75 12a.75.75 0 100 \
1.5.75.75 0 000-1.5z\"></path></svg>";

pub const MERGED_PR: &'static str = "<svg style=\"color: #8250df; margin-left:10px;\" viewBox=\"0 0 16 16\" \
version=\"1.1\" width=\"16\" height=\"16\" aria-hidden=\"true\"><path fill=\"currentColor\" \
d=\"M5 3.254V3.25v.005a.75.75 0 110-.005v.004zm.45 1.9a2.25 2.25 0 10-1.95.218v5.256a2.25 2.25 \
0 101.5 0V7.123A5.735 5.735 0 009.25 9h1.378a2.251 2.251 0 100-1.5H9.25a4.25 4.25 0 \
01-3.8-2.346zM12.75 9a.75.75 0 100-1.5.75.75 0 000 1.5zm-8.5 4.5a.75.75 0 100-1.5.75.75 0 000 \
1.5z\"></path></svg>";

pub const CLOSED_PR: &'static str = "<svg style=\"color: #d1242f; margin-left:10px;\" viewBox=\"0 0 16 16\" \
version=\"1.1\" width=\"16\" height=\"16\" aria-hidden=\"true\"><path fill=\"currentColor\" \
d=\"M1.5 3.25a2.25 2.25 0 1 1 3 2.122v5.256a2.251 2.251 0 1 1-1.5 0V5.372A2.25 2.25 0 0 1 1.5 \
3.25Zm5.677-.177L9.573.677A.25.25 0 0 1 10 .854V2.5h1A2.5 2.5 0 0 1 13.5 5v5.628a2.251 2.251 0 \
1 1-1.5 0V5a1 1 0 0 0-1-1h-1v1.646a.25.25 0 0 1-.427.177L7.177 3.427a.25.25 0 0 1 0-.354ZM3.75 \
2.5a.75.75 0 1 0 0 1.5.75.75 0 0 0 0-1.5Zm0 9.5a.75.75 0 1 0 0 1.5.75.75 0 0 0 0-1.5Zm8.25.75a.75.75 \
0 1 0 1.5 0 .75.75 0 0 0-1.5 0Z\"></path></svg>";

/// The role filter of a search: pull requests opened by me, or reviewed by me and opened by others.
pub open spec fn role_filter(t: GuardianPullRequests) -> Seq<char> {
    match t {
        GuardianPullRequests::AuthoredByMe => "author:@me"@,
        GuardianPullRequests::ReviewedByMe => "-author:@me reviewed-by:@me"@,
    }
}

/// The search query: the organisation, the role, pull requests only, and the
/// creation range, where either bound may be `*`.
pub open spec fn search_query_spec(t: GuardianPullRequests, from: Seq<char>, to: Seq<char>) -> Seq<
    char,
> {
    "org:"@ + GITHUB_ORG@ + " "@ + role_filter(t) + " is:pr created:"@ + from + ".."@ + to
}

pub open spec fn description_spec(t: GuardianPullRequests) -> Seq<char> {
    match t {
        GuardianPullRequests::AuthoredByMe => "pull requests authored by you"@,
        GuardianPullRequests::ReviewedByMe => "pull requests reviewed by you"@,
    }
}

impl GuardianPullRequests {
    /// What the search collects, in words.
    pub fn to_string(&self) -> (r: String)
        ensures
            r@ == description_spec(*self),
    {
        match self {
            GuardianPullRequests::AuthoredByMe => "pull requests authored by you".to_owned(),
            GuardianPullRequests::ReviewedByMe => "pull requests reviewed by you".to_owned(),
        }
    }

    /// The search query for pull requests created between `from` and `to`.
    pub fn search_query(&self, from: &str, to: &str) -> (r: String)
        ensures
            r@ == search_query_spec(*self, from@, to@),
    {
        let mut q = "org:".to_owned();
        q.append(GITHUB_ORG);
        q.append(" ");
        match self {
            GuardianPullRequests::AuthoredByMe => q.append("author:@me"),
            GuardianPullRequests::ReviewedByMe => q.append("-author:@me reviewed-by:@me"),
        }
        q.append(" is:pr created:");
        q.append(from);
        q.append("..");
        q.append(to);
        q
    }
}

/// Query parameters as key and value.
pub open spec fn params_view(ps: Seq<(String, String)>) -> Seq<(Seq<char>, Seq<char>)> {
    ps.map_values(|p: (String, String)| (p.0@, p.1@))
}

/// The parameters after setting `k` to `v`: in place where `k` is present,
/// else at the end.
pub open spec fn with_parameter(ps: Seq<(Seq<char>, Seq<char>)>, k: Seq<char>, v: Seq<char>) -> Seq<
    (Seq<char>, Seq<char>),
> {
    if exists|i: int| 0 <= i < ps.len() && (#[trigger] ps[i]).0 == k {
        ps.map_values(|p: (Seq<char>, Seq<char>)| if p.0 == k { (k, v) } else { p })
    } else {
        ps.push((k, v))
    }
}

pub open spec fn base_parameters() -> Seq<(Seq<char>, Seq<char>)> {
    seq![("per_page"@, "100"@), ("page"@, "1"@), ("order"@, "desc"@)]
}

/// The parameters of a search request for one page: a hundred items, newest first.
pub open spec fn search_parameters(query: Seq<char>, page: nat) -> Seq<(Seq<char>, Seq<char>)> {
    seq![("per_page"@, "100"@), ("page"@, decimal(page)), ("order"@, "desc"@), ("q"@, query)]
}

/// The parameters of the first page of a search, without its query.
pub fn prepare_parameters() -> (r: Vec<(String, String)>)
    ensures
        params_view(r@) == base_parameters(),
{
    let mut ps: Vec<(String, String)> = Vec::new();
    ps.push(("per_page".to_owned(), "100".to_owned()));
    ps.push(("page".to_owned(), "1".to_owned()));
    ps.push(("order".to_owned(), "desc".to_owned()));
    assert(params_view(ps@) =~= base_parameters());
    ps
}

/// Sets the parameter `key` to `value`.
pub fn insert_parameter(params: &mut Vec<(String, String)>, key: &str, value: String)
    ensures
        params_view(final(params)@) == with_parameter(params_view(old(params)@), key@, value@),
{
    let ghost old_view = params_view(params@);
    let mut i: usize = 0;
    let mut found = false;
    while i < params.len()
        invariant
            i <= params.len(),
            params@.len() == old_view.len(),
            found ==> exists|j: int| 0 <= j < old_view.len() && (#[trigger] old_view[j]).0 == key@,
            forall|j: int|
                #![trigger params@[j]]
                0 <= j < params@.len() ==> (params@[j].0@, params@[j].1@) == (if j < i
                    && old_view[j].0 == key@ {
                    (key@, value@)
                } else {
                    old_view[j]
                }),
            !found ==> forall|j: int| 0 <= j < i ==> (#[trigger] old_view[j]).0 != key@,
        decreases params.len() - i,
    {
        if str_eq(params[i].0.as_str(), key) {
            let _ = params.remove(i);
            params.insert(i, (key.to_owned(), value.clone()));
            found = true;
        }
        i = i + 1;
    }
    if !found {
        params.push((key.to_owned(), value));
        assert(params_view(params@) =~= with_parameter(old_view, key@, value@));
    } else {
        assert(params_view(params@) =~= with_parameter(old_view, key@, value@));
    }
}

proof fn lemma_search_parameters(query: Seq<char>, page: nat)
    ensures
        with_parameter(with_parameter(base_parameters(), "page"@, decimal(page)), "q"@, query)
            == search_parameters(query, page),
{
    reveal_strlit("per_page");
    reveal_strlit("page");
    reveal_strlit("order");
    reveal_strlit("q");
    let b = base_parameters();
    assert(b[1].0 == "page"@);
    let with_page = with_parameter(b, "page"@, decimal(page));
    assert(with_page =~= seq![("per_page"@, "100"@), ("page"@, decimal(page)), ("order"@, "desc"@)]);
    assert(!(exists|i: int| 0 <= i < with_page.len() && (#[trigger] with_page[i]).0 == "q"@)) by {
        assert forall|i: int| 0 <= i < with_page.len() implies (#[trigger] with_page[i]).0
            != "q"@ by {
            assert(with_page[i].0.len() != "q"@.len());
        }
    }
    assert(with_parameter(with_page, "q"@, query) =~= search_parameters(query, page));
}

/// Whether a page ends the search: it is empty, or the items gathered with it
/// reach the total that the search reported.
pub open spec fn page_finishes(
    collected: Seq<GithubSearchResponseItem>,
    page: Seq<GithubSearchResponseItem>,
    total: nat,
) -> bool {
    page.len() == 0 || (collected + page).len() == total
}

/// The state of one paged search: its query, the next page to ask for, and
/// the items received so far, in the order received.
pub struct Pager {
    query: String,
    page: u64,
    items: Vec<GithubSearchResponseItem>,
    done: bool,
}

impl Pager {
    pub closed spec fn query_spec(&self) -> Seq<char> {
        self.query@
    }

    pub closed spec fn page_number(&self) -> nat {
        self.page as nat
    }

    pub closed spec fn collected(&self) -> Seq<GithubSearchResponseItem> {
        self.items@
    }

    pub closed spec fn finished(&self) -> bool {
        self.done
    }

    /// A search of kind `pr_type` over pull requests created between `from`
    /// and `to`, before its first page.
    pub fn new(pr_type: GuardianPullRequests, from: &str, to: &str) -> (r: Pager)
        ensures
            r.query_spec() == search_query_spec(pr_type, from@, to@),
            r.page_number() == 1,
            r.collected() == Seq::<GithubSearchResponseItem>::empty(),
            !r.finished(),
    {
        Pager { query: pr_type.search_query(from, to), page: 1, items: Vec::new(), done: false }
    }

    /// The query parameters of the request for the next page.
    pub fn parameters(&self) -> (r: Vec<(String, String)>)
        ensures
            params_view(r@) == search_parameters(self.query_spec(), self.page_number()),
    {
        let mut ps = prepare_parameters();
        insert_parameter(&mut ps, "page", decimal_string(self.page));
        insert_parameter(&mut ps, "q", self.query.clone());
        proof {
            lemma_search_parameters(self.query@, self.page as nat);
        }
        ps
    }

    /// Takes in the response for the current page: its items follow those
    /// already received, and the search ends on an empty page or once the
    /// items reach the reported total.
    pub fn receive(&mut self, response: GithubSearchResponse)
        requires
            !old(self).finished(),
            old(self).page_number() < u64::MAX,
        ensures
            final(self).collected() == old(self).collected() + response.items@,
            final(self).finished() == page_finishes(
                old(self).collected(),
                response.items@,
                response.total_count as nat,
            ),
            final(self).page_number() == old(self).page_number() + 1,
            final(self).query_spec() == old(self).query_spec(),
    {
        let mut items = response.items;
        let empty = items.len() == 0;
        self.items.append(&mut items);
        self.page = self.page + 1;
        self.done = empty || self.items.len() == response.total_count as usize;
    }

    /// The number of the next page to ask for.
    pub fn page(&self) -> (r: u64)
        ensures
            r == self.page_number(),
    {
        self.page
    }

    /// Whether the search has ended.
    pub fn is_done(&self) -> (r: bool)
        ensures
            r == self.finished(),
    {
        self.done
    }

    /// The items received, in the order received.
    pub fn into_items(self) -> (r: Vec<GithubSearchResponseItem>)
        ensures
            r@ == self.collected(),
    {
        self.items
    }
}

/// The outcome of a search that receives `pages` in turn after `collected`:
/// the items gathered and whether the search ended. Pages after the one that
/// ends it are never asked for.
pub open spec fn collect_pages(
    collected: Seq<GithubSearchResponseItem>,
    pages: Seq<Seq<GithubSearchResponseItem>>,
    total: nat,
) -> (Seq<GithubSearchResponseItem>, bool)
    decreases pages.len(),
{
    if pages.len() == 0 {
        (collected, false)
    } else if page_finishes(collected, pages[0], total) {
        (collected + pages[0], true)
    } else {
        collect_pages(collected + pages[0], pages.drop_first(), total)
    }
}

/// Non-empty pages whose sizes add up to the reported total are all taken,
/// in order, each item once, and the search ends with the last of them.
pub proof fn lemma_pages_reaching_total(
    collected: Seq<GithubSearchResponseItem>,
    pages: Seq<Seq<GithubSearchResponseItem>>,
    total: nat,
)
    requires
        pages.len() > 0,
        forall|i: int| 0 <= i < pages.len() ==> (#[trigger] pages[i]).len() > 0,
        collected.len() + pages.flatten().len() == total,
    ensures
        collect_pages(collected, pages, total) == (collected + pages.flatten(), true),
    decreases pages.len(),
{
    let rest = pages.drop_first();
    assert(pages.flatten() == pages[0] + rest.flatten());
    assert(collected + pages.flatten() =~= collected + pages[0] + rest.flatten());
    if pages.len() == 1 {
        assert(rest.flatten() =~= Seq::<GithubSearchResponseItem>::empty());
        assert(collected + pages[0] + rest.flatten() =~= collected + pages[0]);
    } else {
        assert(rest[0] == pages[1]);
        lemma_flatten_nonempty(rest);
        lemma_pages_reaching_total(collected + pages[0], rest, total);
    }
}

proof fn lemma_flatten_nonempty(pages: Seq<Seq<GithubSearchResponseItem>>)
    requires
        pages.len() > 0,
        pages[0].len() > 0,
    ensures
        pages.flatten().len() > 0,
{
    assert(pages.flatten() == pages[0] + pages.drop_first().flatten());
}

/// Whatever totals are reported, a search ends at the latest on the first
/// empty page, with the items of the pages before it.
pub proof fn lemma_empty_page_ends_search(
    collected: Seq<GithubSearchResponseItem>,
    pages: Seq<Seq<GithubSearchResponseItem>>,
    total: nat,
    k: int,
)
    requires
        0 <= k < pages.len(),
        pages[k].len() == 0,
        forall|j: int| 0 <= j < k ==> (#[trigger] pages[j]).len() > 0,
        forall|j: int|
            0 <= j < k ==> (collected + (#[trigger] pages.subrange(0, j + 1)).flatten()).len()
                != total,
    ensures
        collect_pages(collected, pages, total) == (collected + pages.subrange(0, k).flatten(), true),
    decreases k,
{
    let rest = pages.drop_first();
    if k == 0 {
        assert(pages.subrange(0, 0) =~= Seq::<Seq<GithubSearchResponseItem>>::empty());
        assert(collected + pages.subrange(0, 0).flatten() =~= collected + pages[0]);
    } else {
        assert(pages.subrange(0, 1) =~= seq![pages[0]]);
        assert(pages.subrange(0, 1).flatten() == pages[0] + pages.subrange(0, 1).drop_first().flatten());
        assert(pages.subrange(0, 1).drop_first() =~= Seq::<Seq<GithubSearchResponseItem>>::empty());
        assert(pages.subrange(0, 1).flatten() =~= pages[0]);
        assert((collected + pages.subrange(0, 1).flatten()).len() != total);
        assert forall|j: int| 0 <= j < k - 1 implies ((collected + pages[0]) + (
        #[trigger] rest.subrange(0, j + 1)).flatten()).len() != total by {
            let ps = pages.subrange(0, j + 2);
            assert(ps.drop_first() =~= rest.subrange(0, j + 1));
            assert(ps.flatten() == ps[0] + ps.drop_first().flatten());
            assert(collected + ps.flatten() =~= (collected + pages[0]) + rest.subrange(
                0,
                j + 1,
            ).flatten());
            assert((collected + pages.subrange(0, (j + 1) + 1).flatten()).len() != total);
        }
        assert forall|j: int| 0 <= j < k - 1 implies (#[trigger] rest[j]).len() > 0 by {
            assert(rest[j] == pages[j + 1]);
        }
        lemma_empty_page_ends_search(collected + pages[0], rest, total, k - 1);
        let pk = pages.subrange(0, k);
        assert(pk.drop_first() =~= rest.subrange(0, k - 1));
        assert(pk.flatten() == pk[0] + pk.drop_first().flatten());
        assert(collected + pk.flatten() =~= (collected + pages[0]) + rest.subrange(
            0,
            k - 1,
        ).flatten());
    }
}

/// The HTML that the markdown `source` renders to.
pub uninterp spec fn markdown_html(source: Seq<char>) -> Seq<char>;

/// `target` relative to `base`, as URLs, where `base` can be a base of it.
pub uninterp spec fn relative_url(base: Seq<char>, target: Seq<char>) -> Option<Seq<char>>;

/// Relies on markdown::to_html, which renders CommonMark to HTML and cannot
/// fail under its default options.
#[verifier::external_body]
fn markdown_to_html(source: &str) -> (r: String)
    ensures
        r@ == markdown_html(source@),
{
    markdown::to_html(source)
}

/// Relies on url::Url::parse, to read both strings as URLs, and on
/// url::Url::make_relative, which gives `None` where `base` cannot be a base
/// of `target`.
#[verifier::external_body]
fn make_relative(base: &str, target: &str) -> (r: Option<String>)
    ensures
        match r {
            Some(s) => relative_url(base@, target@) == Some(s@),
            None => relative_url(base@, target@) is None,
        },
{
    let base = url::Url::parse(base).ok()?;
    let target = url::Url::parse(target).ok()?;
    base.make_relative(&target)
}

/// The status marker of a pull request: open, merged or closed, or its state
/// as given where the state is neither `open` nor `closed`.
pub open spec fn pr_status(state: Seq<char>, merged: bool) -> Seq<char> {
    if state == "open"@ {
        OPEN_PR@
    } else if state == "closed"@ {
        if merged {
            MERGED_PR@
        } else {
            CLOSED_PR@
        }
    } else {
        state
    }
}

/// The text colour of a label of colour `colour`, where it is one.
pub open spec fn label_text_colour(colour: Seq<char>) -> Seq<char> {
    let rgb = hex_colour(colour)->Some_0;
    grey_css_text(label_lightness_spec(rgb.0, rgb.1, rgb.2) as nat)
}

/// The markup of one GitHub label.
pub open spec fn github_label_span(label: Label) -> Seq<char> {
    "<span class=\"label\" style=\"color:"@ + label_text_colour(label.color@)
        + "; background-color: #"@ + label.color@ + ";\">"@ + label.name@ + "</span>"@
}

/// The markup of the labels of a pull request, one span each, joined by spaces.
pub open spec fn github_labels_markup(labels: Seq<Label>) -> Seq<char> {
    join_spaced(Seq::new(labels.len(), |i: int| github_label_span(labels[i])))
}

pub open spec fn labels_valid(labels: Seq<Label>) -> bool {
    forall|i: int| 0 <= i < labels.len() ==> (#[trigger] hex_colour(labels[i].color@)) is Some
}

/// The HTML of a pull request's description, or of a fixed note without one.
pub open spec fn pr_body(body: Option<String>) -> Seq<char> {
    match body {
        Some(b) => markdown_html(b@),
        None => markdown_html(NO_DESCRIPTION@),
    }
}

/// Whether a search item can be made into a report entry, and else why not.
pub open spec fn normalize_error(item: GithubSearchResponseItem) -> Option<ReportError> {
    if relative_url(GITHUB_REPOS_ROOT@, item.repository_url@) is None {
        Some(ReportError::InvalidRepositoryUrl)
    } else if !labels_valid(item.labels@) {
        Some(ReportError::InvalidColor)
    } else {
        None
    }
}

/// Whether `pr` is the report entry of the search item `item`.
pub open spec fn normalized(item: GithubSearchResponseItem, pr: TemplatePr) -> bool {
    &&& pr.status@ == pr_status(item.state@, item.pull_request.merged_at is Some)
    &&& pr.created_at@ == before_first(item.created_at@, 'T')
    &&& pr.title@ == item.title@
    &&& pr.html_url@ == item.html_url@
    &&& relative_url(GITHUB_REPOS_ROOT@, item.repository_url@) == Some(pr.repo_name@)
    &&& pr.comments == item.comments
    &&& pr.comments_present == (item.comments > 0, item.comments == 1)
    &&& pr.body@ == pr_body(item.body)
    &&& pr.labels@ == github_labels_markup(item.labels@)
    &&& pr.author@ == item.user.login@
    &&& pr.profile_pic@ == item.user.avatar_url@
}

fn pr_status_marker(state: &str, merged: bool) -> (r: String)
    ensures
        r@ == pr_status(state@, merged),
{
    if str_eq(state, "open") {
        OPEN_PR.to_owned()
    } else if str_eq(state, "closed") {
        if merged {
            MERGED_PR.to_owned()
        } else {
            CLOSED_PR.to_owned()
        }
    } else {
        state.to_owned()
    }
}

fn label_span(label: &Label) -> (r: Result<String, ReportError>)
    ensures
        match r {
            Ok(s) => hex_colour(label.color@) is Some && s@ == github_label_span(*label),
            Err(e) => hex_colour(label.color@) is None && e == ReportError::InvalidColor,
        },
{
    let fg = calc_label_colour(label.color.as_str());
    match fg {
        Ok(fg) => {
            let mut s = "<span class=\"label\" style=\"color:".to_owned();
            s.append(fg.as_str());
            s.append("; background-color: #");
            s.append(label.color.as_str());
            s.append(";\">");
            s.append(label.name.as_str());
            s.append("</span>");
            Ok(s)
        },
        Err(e) => Err(e),
    }
}

fn labels_markup(labels: &Vec<Label>) -> (r: Result<String, ReportError>)
    ensures
        match r {
            Ok(s) => labels_valid(labels@) && s@ == github_labels_markup(labels@),
            Err(e) => !labels_valid(labels@) && e == ReportError::InvalidColor,
        },
{
    let mut spans: Vec<String> = Vec::new();
    let mut i: usize = 0;
    while i < labels.len()
        invariant
            i <= labels.len(),
            spans@.len() == i,
            forall|j: int| 0 <= j < i ==> (#[trigger] hex_colour(labels@[j].color@)) is Some,
            forall|j: int| 0 <= j < i ==> (#[trigger] spans@[j])@ == github_label_span(labels@[j]),
        decreases labels.len() - i,
    {
        match label_span(&labels[i]) {
            Ok(s) => spans.push(s),
            Err(e) => return Err(e),
        }
        i = i + 1;
    }
    let joined = join_with_spaces(&spans);
    assert(spans@.map_values(|p: String| p@) =~= Seq::new(
        labels@.len(),
        |j: int| github_label_span(labels@[j]),
    ));
    Ok(joined)
}

/// The report entry of one search item.
pub fn format_pr(item: &GithubSearchResponseItem) -> (r: Result<TemplatePr, ReportError>)
    ensures
        match r {
            Ok(pr) => normalize_error(*item) is None && normalized(*item, pr),
            Err(e) => normalize_error(*item) == Some(e),
        },
{
    let repo_name = match make_relative(GITHUB_REPOS_ROOT, item.repository_url.as_str()) {
        Some(name) => name,
        None => return Err(ReportError::InvalidRepositoryUrl),
    };
    let labels = match labels_markup(&item.labels) {
        Ok(labels) => labels,
        Err(e) => return Err(e),
    };
    let body = match &item.body {
        Some(b) => markdown_to_html(b.as_str()),
        None => markdown_to_html(NO_DESCRIPTION),
    };
    let merged = match &item.pull_request.merged_at {
        Some(_) => true,
        None => false,
    };
    Ok(
        TemplatePr {
            status: pr_status_marker(item.state.as_str(), merged),
            created_at: prefix_before(item.created_at.as_str(), 'T'),
            title: item.title.clone(),
            html_url: item.html_url.clone(),
            repo_name,
            comments: item.comments,
            comments_present: (item.comments > 0, item.comments == 1),
            body,
            labels,
            author: item.user.login.clone(),
            profile_pic: item.user.avatar_url.clone(),
        },
    )
}

/// The report entries of the search items, in the same order; the error of
/// the first item that cannot be made into one, if any.
pub fn format_prs(results: &[GithubSearchResponseItem]) -> (r: Result<Vec<TemplatePr>, ReportError>)
    ensures
        match r {
            Ok(prs) => prs@.len() == results@.len() && forall|i: int|
                0 <= i < results@.len() ==> normalize_error(results@[i]) is None && normalized(
                    #[trigger] results@[i],
                    prs@[i],
                ),
            Err(e) => exists|k: int|
                0 <= k < results@.len() && (forall|j: int|
                    0 <= j < k ==> normalize_error(#[trigger] results@[j]) is None)
                    && normalize_error(#[trigger] results@[k]) == Some(e),
        },
{
    let mut prs: Vec<TemplatePr> = Vec::new();
    let mut i: usize = 0;
    while i < results.len()
        invariant
            i <= results@.len(),
            prs@.len() == i,
            forall|j: int|
                0 <= j < i ==> normalize_error(results@[j]) is None && normalized(
                    #[trigger] results@[j],
                    prs@[j],
                ),
        decreases results@.len() - i,
    {
        match format_pr(&results[i]) {
            Ok(pr) => prs.push(pr),
            Err(e) => {
                assert(forall|j: int| 0 <= j < i ==> normalize_error(#[trigger] results@[j]) is None);
                return Err(e);
            },
        }
        i = i + 1;
    }
    Ok(prs)
}

/// A closed pull request shows as merged when it has a merge time and as
/// closed without one; an open pull request shows as open.
pub proof fn lemma_pr_status_markers(item: GithubSearchResponseItem, pr: TemplatePr)
    requires
        normalized(item, pr),
    ensures
        item.state@ == "closed"@ && item.pull_request.merged_at is Some ==> pr.status@ == MERGED_PR@,
        item.state@ == "closed"@ && item.pull_request.merged_at is None ==> pr.status@ == CLOSED_PR@,
        item.state@ == "open"@ ==> pr.status@ == OPEN_PR@,
{
    reveal_strlit("open");
    reveal_strlit("closed");
    assert("open"@.len() != "closed"@.len());
}

} // verus!
