use vstd::prelude::*;
use crate::models::{BoardAndCards, ReportError, TemplatePr, TrelloUser};
use crate::text::{decimal, push_decimal, str_eq, two_digits};
use crate::trello::{total_cards, trello_board_and_cards_len};

verus! {

/// The Trello credentials of a report.
#[derive(Debug, PartialEq, Eq)]
pub struct TrelloCredentials {
    pub key: String,
    pub token: String,
}

/// What a report run will do: search GitHub with `github_token`, and Trello
/// with `trello` where present.
#[derive(Debug, PartialEq, Eq)]
pub struct ReportPlan {
    pub github_token: String,
    pub trello: Option<TrelloCredentials>,
}

/// Decides a report run from the stored credentials: without a GitHub token
/// there is none; Trello is searched only with both its key and its token,
/// and when not skipped.
pub fn plan_report(
    github_token: Option<String>,
    trello_key: Option<String>,
    trello_token: Option<String>,
    skip_trello: bool,
) -> (r: Result<ReportPlan, ReportError>)
    ensures
        match r {
            Err(e) => github_token is None && e == ReportError::AuthMissing,
            Ok(plan) => {
                &&& github_token == Some(plan.github_token)
                &&& plan.trello is Some <==> (trello_key is Some && trello_token is Some
                    && !skip_trello)
                &&& plan.trello is Some ==> trello_key == Some(plan.trello->Some_0.key)
                    && trello_token == Some(plan.trello->Some_0.token)
            },
        },
{
    let github_token = match github_token {
        Some(t) => t,
        None => return Err(ReportError::AuthMissing),
    };
    let trello = if skip_trello {
        None
    } else {
        match (trello_key, trello_token) {
            (Some(key), Some(token)) => Some(TrelloCredentials { key, token }),
            _ => None,
        }
    };
    Ok(ReportPlan { github_token, trello })
}

pub open spec fn start_date_spec(from: Seq<char>) -> Seq<char> {
    if from == "*"@ {
        "From the day you joined"@
    } else {
        "From "@ + from
    }
}

pub open spec fn end_date_spec(to: Seq<char>) -> Seq<char> {
    if to == "*"@ {
        "until today"@
    } else {
        "to "@ + to
    }
}

/// The words for the start of the range.
pub fn start_date_text(from: &str) -> (r: String)
    ensures
        r@ == start_date_spec(from@),
{
    if str_eq(from, "*") {
        "From the day you joined".to_owned()
    } else {
        let mut s = "From ".to_owned();
        s.append(from);
        s
    }
}

/// The words for the end of the range.
pub fn end_date_text(to: &str) -> (r: String)
    ensures
        r@ == end_date_spec(to@),
{
    if str_eq(to, "*") {
        "until today".to_owned()
    } else {
        let mut s = "to ".to_owned();
        s.append(to);
        s
    }
}

/// The Trello part of a report.
#[derive(Debug, PartialEq, Eq)]
pub struct TrelloSection {
    pub user: TrelloUser,
    pub boards: Vec<BoardAndCards>,
    pub boards_len: usize,
    pub cards_len: usize,
}

/// All that the report shows.
#[derive(Debug, PartialEq, Eq)]
pub struct ReportPayload {
    pub github_user: String,
    pub start_date: String,
    pub end_date: String,
    pub prs: Vec<TemplatePr>,
    pub reviews: Vec<TemplatePr>,
    pub prs_len: usize,
    pub reviews_len: usize,
    pub trello: Option<TrelloSection>,
}

/// Puts a report together: the GitHub user, the range in words, the authored
/// and reviewed pull requests with their numbers, and the Trello user with
/// the boards and the numbers of boards and cards, only where Trello was
/// searched.
pub fn assemble_report(
    github_user: String,
    from: &str,
    to: &str,
    prs: Vec<TemplatePr>,
    reviews: Vec<TemplatePr>,
    trello: Option<(TrelloUser, Vec<BoardAndCards>)>,
) -> (r: ReportPayload)
    requires
        trello is Some ==> total_cards(trello->Some_0.1@) <= usize::MAX,
    ensures
        r.github_user == github_user,
        r.start_date@ == start_date_spec(from@),
        r.end_date@ == end_date_spec(to@),
        r.prs == prs,
        r.reviews == reviews,
        r.prs_len == prs@.len(),
        r.reviews_len == reviews@.len(),
        r.trello is Some <==> trello is Some,
        trello is Some ==> ({
            let (user, boards) = trello->Some_0;
            let section = r.trello->Some_0;
            &&& section.user == user
            &&& section.boards == boards
            &&& section.boards_len == boards@.len()
            &&& section.cards_len == total_cards(boards@)
        }),
{
    let prs_len = prs.len();
    let reviews_len = reviews.len();
    let trello = match trello {
        Some((user, boards)) => {
            let (boards_len, cards_len) = trello_board_and_cards_len(boards.as_slice());
            Some(TrelloSection { user, boards, boards_len, cards_len })
        },
        None => None,
    };
    ReportPayload {
        github_user,
        start_date: start_date_text(from),
        end_date: end_date_text(to),
        prs,
        reviews,
        prs_len,
        reviews_len,
        trello,
    }
}

pub open spec fn report_file_name_spec(year: nat, month: nat, day: nat) -> Seq<char> {
    decimal(year) + "-"@ + two_digits(month) + "-"@ + two_digits(day) + "-self-assessment.html"@
}

fn push_two_digits(out: &mut String, n: u32)
    ensures
        final(out)@ == old(out)@ + two_digits(n as nat),
{
    proof {
        reveal_strlit("0");
    }
    if n < 10 {
        out.append("0");
    }
    push_decimal(out, n as u64);
    assert(final(out)@ =~= old(out)@ + two_digits(n as nat));
}

/// The file name of a report made on the given day: `YYYY-MM-DD-self-assessment.html`.
pub fn report_file_name(year: u32, month: u32, day: u32) -> (r: String)
    ensures
        r@ == report_file_name_spec(year as nat, month as nat, day as nat),
{
    let mut s = String::new();
    push_decimal(&mut s, year as u64);
    s.append("-");
    push_two_digits(&mut s, month);
    s.append("-");
    push_two_digits(&mut s, day);
    s.append("-self-assessment.html");
    assert(s@ =~= report_file_name_spec(year as nat, month as nat, day as nat));
    s
}

} // verus!
