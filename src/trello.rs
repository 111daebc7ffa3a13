use vstd::prelude::*;
use crate::models::{BoardAndCards, TemplateTrelloCard, TrelloBoard, TrelloCard, TrelloLabel};
use crate::text::{join_spaced, join_with_spaces, str_eq};

verus! {

/// The swatch of a Trello colour name; any other name, and no name, give
/// the swatch of `black`.
pub open spec fn trello_colour_hex(colour: Option<Seq<char>>) -> Seq<char> {
    match colour {
        Some(c) => if c == "green"@ {
            "#61bd4f"@
        } else if c == "yellow"@ {
            "#f2d600"@
        } else if c == "orange"@ {
            "#ff9f1a"@
        } else if c == "red"@ {
            "#eb5a46"@
        } else if c == "purple"@ {
            "#c377e0"@
        } else if c == "blue"@ {
            "#0079bf"@
        } else if c == "sky"@ {
            "#00c2e0"@
        } else if c == "lime"@ {
            "#51e898"@
        } else if c == "pink"@ {
            "#ff78cb"@
        } else {
            "#344563"@
        },
        None => "#344563"@,
    }
}

pub open spec fn option_view(o: Option<String>) -> Option<Seq<char>> {
    match o {
        Some(s) => Some(s@),
        None => None,
    }
}

/// The markup of one Trello label: its name on its colour's swatch.
pub open spec fn trello_label_span(label: TrelloLabel) -> Seq<char> {
    "<span class=\"card-label\" style=\"background-color:"@ + trello_colour_hex(
        option_view(label.color),
    ) + "\"><span>"@ + label.name@ + "</span></span>"@
}

/// The markup of a card's labels, one span each, joined by spaces.
pub open spec fn trello_labels_markup(labels: Seq<TrelloLabel>) -> Seq<char> {
    join_spaced(Seq::new(labels.len(), |i: int| trello_label_span(labels[i])))
}

/// Whether `t` is the report entry of `card`.
pub open spec fn card_templated(card: TrelloCard, t: TemplateTrelloCard) -> bool {
    &&& t.name@ == card.name@
    &&& t.url@ == card.url@
    &&& t.labels@ == trello_labels_markup(card.labels@)
}

fn colour_swatch(colour: &Option<String>) -> (r: &'static str)
    ensures
        r@ == trello_colour_hex(option_view(*colour)),
{
    match colour {
        Some(c) => {
            let c = c.as_str();
            if str_eq(c, "green") {
                "#61bd4f"
            } else if str_eq(c, "yellow") {
                "#f2d600"
            } else if str_eq(c, "orange") {
                "#ff9f1a"
            } else if str_eq(c, "red") {
                "#eb5a46"
            } else if str_eq(c, "purple") {
                "#c377e0"
            } else if str_eq(c, "blue") {
                "#0079bf"
            } else if str_eq(c, "sky") {
                "#00c2e0"
            } else if str_eq(c, "lime") {
                "#51e898"
            } else if str_eq(c, "pink") {
                "#ff78cb"
            } else {
                "#344563"
            }
        },
        None => "#344563",
    }
}

fn trello_label_markup(label: &TrelloLabel) -> (r: String)
    ensures
        r@ == trello_label_span(*label),
{
    let mut s = "<span class=\"card-label\" style=\"background-color:".to_owned();
    s.append(colour_swatch(&label.color));
    s.append("\"><span>");
    s.append(label.name.as_str());
    s.append("</span></span>");
    s
}

/// The report entry of a card: its name, its URL and its labels' markup.
pub fn template_card_from_unformatted_card(card: &TrelloCard) -> (r: TemplateTrelloCard)
    ensures
        card_templated(*card, r),
{
    let mut spans: Vec<String> = Vec::new();
    let mut i: usize = 0;
    while i < card.labels.len()
        invariant
            i <= card.labels.len(),
            spans@.len() == i,
            forall|j: int|
                0 <= j < i ==> (#[trigger] spans@[j])@ == trello_label_span(card.labels@[j]),
        decreases card.labels.len() - i,
    {
        spans.push(trello_label_markup(&card.labels[i]));
        i = i + 1;
    }
    let labels = join_with_spaces(&spans);
    assert(spans@.map_values(|p: String| p@) =~= Seq::new(
        card.labels@.len(),
        |j: int| trello_label_span(card.labels@[j]),
    ));
    TemplateTrelloCard { name: card.name.clone(), url: card.url.clone(), labels }
}

/// The instant that an RFC 3339 timestamp names: whole seconds since the
/// Unix epoch, and nanoseconds within the second.
pub uninterp spec fn rfc3339_instant(s: Seq<char>) -> Option<(i64, u32)>;

/// Relies on chrono::DateTime::parse_from_rfc3339, and on DateTime::timestamp
/// and DateTime::timestamp_subsec_nanos to read the instant parsed.
#[verifier::external_body]
fn parse_instant(s: &str) -> (r: Option<(i64, u32)>)
    ensures
        r == rfc3339_instant(s@),
{
    chrono::DateTime::parse_from_rfc3339(s).ok().map(|d| (d.timestamp(), d.timestamp_subsec_nanos()))
}

/// Whether instant `a` is not later than instant `b`.
pub open spec fn instant_le(a: (i64, u32), b: (i64, u32)) -> bool {
    a.0 < b.0 || (a.0 == b.0 && a.1 <= b.1)
}

/// The instant of a date bound: midnight UTC at the start of that day.
pub open spec fn bound_instant(bound: Seq<char>) -> Option<(i64, u32)> {
    rfc3339_instant(bound + "T00:00:00.00Z"@)
}

/// Whether timestamp `ts` is not before the bound `from`; `*` bounds nothing.
pub open spec fn after_from(ts: Seq<char>, from: Seq<char>) -> bool {
    from == "*"@ || match (rfc3339_instant(ts), bound_instant(from)) {
        (Some(t), Some(f)) => instant_le(f, t),
        _ => false,
    }
}

/// Whether timestamp `ts` is not after the bound `to`; `*` bounds nothing.
pub open spec fn before_to(ts: Seq<char>, to: Seq<char>) -> bool {
    to == "*"@ || match (rfc3339_instant(ts), bound_instant(to)) {
        (Some(t), Some(e)) => instant_le(t, e),
        _ => false,
    }
}

pub open spec fn within_range(ts: Seq<char>, from: Seq<char>, to: Seq<char>) -> bool {
    after_from(ts, from) && before_to(ts, to)
}

fn parse_bound(bound: &str) -> (r: Option<(i64, u32)>)
    ensures
        r == bound_instant(bound@),
{
    let mut s = bound.to_owned();
    s.append("T00:00:00.00Z");
    parse_instant(s.as_str())
}

fn instant_not_after(a: (i64, u32), b: (i64, u32)) -> (r: bool)
    ensures
        r == instant_le(a, b),
{
    a.0 < b.0 || (a.0 == b.0 && a.1 <= b.1)
}

/// Whether `bound` is `*` or a date that names a day.
pub fn is_date_bound(bound: &str) -> (r: bool)
    ensures
        r == (bound@ == "*"@ || bound_instant(bound@) is Some),
{
    str_eq(bound, "*") || parse_bound(bound).is_some()
}

/// Whether the card was last active within `[from, to]`.
pub fn trello_cards_date_range(card: &TrelloCard, from: &str, to: &str) -> (r: bool)
    ensures
        r == within_range(card.date_last_activity@, from@, to@),
{
    let ts = parse_instant(card.date_last_activity.as_str());
    let from_ok = if str_eq(from, "*") {
        true
    } else {
        match (ts, parse_bound(from)) {
            (Some(t), Some(f)) => instant_not_after(f, t),
            _ => false,
        }
    };
    let to_ok = if str_eq(to, "*") {
        true
    } else {
        match (ts, parse_bound(to)) {
            (Some(t), Some(e)) => instant_not_after(t, e),
            _ => false,
        }
    };
    from_ok && to_ok
}

/// Whether the user `user_id` is among the card's members.
pub open spec fn card_has_member(card: TrelloCard, user_id: Seq<char>) -> bool {
    exists|i: int| 0 <= i < card.id_members@.len() && (#[trigger] card.id_members@[i])@ == user_id
}

/// Whether a card belongs in the report of `user_id` over `[from, to]`.
pub open spec fn card_selected(card: TrelloCard, user_id: Seq<char>, from: Seq<char>, to: Seq<char>) -> bool {
    card_has_member(card, user_id) && within_range(card.date_last_activity@, from, to)
}

/// The cards of the report, in their order.
pub open spec fn selected_cards(
    cards: Seq<TrelloCard>,
    user_id: Seq<char>,
    from: Seq<char>,
    to: Seq<char>,
) -> Seq<TrelloCard> {
    cards.filter(|c: TrelloCard| card_selected(c, user_id, from, to))
}

/// Whether the user `user_id` is among the card's members.
pub fn has_member(card: &TrelloCard, user_id: &str) -> (r: bool)
    ensures
        r == card_has_member(*card, user_id@),
{
    let mut i: usize = 0;
    while i < card.id_members.len()
        invariant
            i <= card.id_members@.len(),
            forall|j: int| 0 <= j < i ==> (#[trigger] card.id_members@[j])@ != user_id@,
        decreases card.id_members@.len() - i,
    {
        if str_eq(card.id_members[i].as_str(), user_id) {
            return true;
        }
        i = i + 1;
    }
    false
}

/// The cards that the user `user_id` is a member of and that were last
/// active within `[from, to]`, in their order.
pub fn select_cards(cards: Vec<TrelloCard>, user_id: &str, from: &str, to: &str) -> (r: Vec<TrelloCard>)
    ensures
        r@ == selected_cards(cards@, user_id@, from@, to@),
{
    let n = cards.len();
    let ghost all = cards@;
    let ghost pred = |c: TrelloCard| card_selected(c, user_id@, from@, to@);
    let mut rest = cards;
    let mut out: Vec<TrelloCard> = Vec::new();
    let mut i: usize = 0;
    while rest.len() > 0
        invariant
            all.len() == n,
            i <= n,
            i + rest@.len() == n,
            rest@ == all.subrange(i as int, all.len() as int),
            out@ == all.subrange(0, i as int).filter(pred),
            pred == (|c: TrelloCard| card_selected(c, user_id@, from@, to@)),
        decreases rest.len(),
    {
        let card = rest.remove(0);
        proof {
            assert(all.subrange(0, i + 1) =~= all.subrange(0, i as int).push(card));
            all.subrange(0, i as int).lemma_filter_push(card, pred);
        }
        if has_member(&card, user_id) && trello_cards_date_range(&card, from, to) {
            out.push(card);
        }
        i = i + 1;
    }
    assert(all.subrange(0, all.len() as int) =~= all);
    out
}

/// Board names with their cards.
pub open spec fn groups_view(gs: Seq<(String, Vec<TrelloCard>)>) -> Seq<(Seq<char>, Seq<TrelloCard>)> {
    gs.map_values(|g: (String, Vec<TrelloCard>)| (g.0@, g.1@))
}

/// Whether the groups have distinct board names and none is empty.
pub open spec fn groups_wf(gs: Seq<(Seq<char>, Seq<TrelloCard>)>) -> bool {
    &&& forall|i: int| 0 <= i < gs.len() ==> (#[trigger] gs[i]).1.len() > 0
    &&& forall|i: int, j: int|
        0 <= i < gs.len() && 0 <= j < gs.len() && i != j ==> (#[trigger] gs[i]).0 != (
        #[trigger] gs[j]).0
}

pub open spec fn has_group(gs: Seq<(Seq<char>, Seq<TrelloCard>)>, name: Seq<char>) -> bool {
    exists|i: int| 0 <= i < gs.len() && (#[trigger] gs[i]).0 == name
}

/// The groups after the cards of a board named `name` are added: nothing
/// for no cards, else after the cards of the group of that name, or as a
/// new group at the end.
pub open spec fn add_group(
    gs: Seq<(Seq<char>, Seq<TrelloCard>)>,
    name: Seq<char>,
    cards: Seq<TrelloCard>,
) -> Seq<(Seq<char>, Seq<TrelloCard>)> {
    if cards.len() == 0 {
        gs
    } else if has_group(gs, name) {
        gs.map_values(
            |g: (Seq<char>, Seq<TrelloCard>)|
                if g.0 == name {
                    (name, g.1 + cards)
                } else {
                    g
                },
        )
    } else {
        gs.push((name, cards))
    }
}

/// The groups of the report over boards given as name and cards, in turn.
pub open spec fn collect_boards(
    boards: Seq<(Seq<char>, Seq<TrelloCard>)>,
    user_id: Seq<char>,
    from: Seq<char>,
    to: Seq<char>,
) -> Seq<(Seq<char>, Seq<TrelloCard>)>
    decreases boards.len(),
{
    if boards.len() == 0 {
        Seq::empty()
    } else {
        add_group(
            collect_boards(boards.drop_last(), user_id, from, to),
            boards.last().0,
            selected_cards(boards.last().1, user_id, from, to),
        )
    }
}

/// Adding a board keeps the groups well formed, and brings in its name only
/// where it has cards.
pub proof fn lemma_add_group(
    gs: Seq<(Seq<char>, Seq<TrelloCard>)>,
    name: Seq<char>,
    cards: Seq<TrelloCard>,
    n: Seq<char>,
)
    requires
        groups_wf(gs),
    ensures
        groups_wf(add_group(gs, name, cards)),
        has_group(add_group(gs, name, cards), n) <==> (has_group(gs, n) || (n == name
            && cards.len() > 0)),
{
    let r = add_group(gs, name, cards);
    if cards.len() > 0 {
        if has_group(gs, name) {
            if has_group(gs, n) {
                let i = choose|i: int| 0 <= i < gs.len() && (#[trigger] gs[i]).0 == n;
                assert(r[i].0 == n);
            }
            if has_group(r, n) {
                let i = choose|i: int| 0 <= i < r.len() && (#[trigger] r[i]).0 == n;
                assert(gs[i].0 == n);
            }
        } else {
            if has_group(gs, n) {
                let i = choose|i: int| 0 <= i < gs.len() && (#[trigger] gs[i]).0 == n;
                assert(r[i].0 == n);
            }
            if n == name {
                assert(r[gs.len() as int].0 == n);
            }
            if has_group(r, n) {
                let i = choose|i: int| 0 <= i < r.len() && (#[trigger] r[i]).0 == n;
                if i < gs.len() {
                    assert(gs[i].0 == n);
                }
            }
        }
    }
}

/// A board without a card of the user's in the range never appears among the
/// groups: the names of the groups are exactly those of the boards with such
/// cards, no two groups share a name, and no group is empty.
pub proof fn lemma_groups_are_boards_with_cards(
    boards: Seq<(Seq<char>, Seq<TrelloCard>)>,
    user_id: Seq<char>,
    from: Seq<char>,
    to: Seq<char>,
    n: Seq<char>,
)
    ensures
        groups_wf(collect_boards(boards, user_id, from, to)),
        has_group(collect_boards(boards, user_id, from, to), n) <==> exists|j: int|
            0 <= j < boards.len() && (#[trigger] boards[j]).0 == n && selected_cards(
                boards[j].1,
                user_id,
                from,
                to,
            ).len() > 0,
    decreases boards.len(),
{
    if boards.len() > 0 {
        let init = boards.drop_last();
        let last = boards.last();
        let sel = selected_cards(last.1, user_id, from, to);
        lemma_groups_are_boards_with_cards(init, user_id, from, to, n);
        lemma_add_group(collect_boards(init, user_id, from, to), last.0, sel, n);
        if exists|j: int|
            0 <= j < boards.len() && (#[trigger] boards[j]).0 == n && selected_cards(
                boards[j].1,
                user_id,
                from,
                to,
            ).len() > 0 {
            let j = choose|j: int|
                0 <= j < boards.len() && (#[trigger] boards[j]).0 == n && selected_cards(
                    boards[j].1,
                    user_id,
                    from,
                    to,
                ).len() > 0;
            if j < init.len() {
                assert(init[j] == boards[j]);
            }
        }
        if exists|j: int|
            0 <= j < init.len() && (#[trigger] init[j]).0 == n && selected_cards(
                init[j].1,
                user_id,
                from,
                to,
            ).len() > 0 {
            let j = choose|j: int|
                0 <= j < init.len() && (#[trigger] init[j]).0 == n && selected_cards(
                    init[j].1,
                    user_id,
                    from,
                    to,
                ).len() > 0;
            assert(boards[j] == init[j]);
        }
        if n == last.0 && sel.len() > 0 {
            assert(boards[boards.len() - 1] == last);
        }
    }
}

/// The Trello cards of one user over a date range, gathered board by board.
pub struct TrelloCollector {
    user_id: String,
    from: String,
    to: String,
    groups: Vec<(String, Vec<TrelloCard>)>,
}

impl TrelloCollector {
    pub closed spec fn user_spec(&self) -> Seq<char> {
        self.user_id@
    }

    pub closed spec fn from_spec(&self) -> Seq<char> {
        self.from@
    }

    pub closed spec fn to_spec(&self) -> Seq<char> {
        self.to@
    }

    /// The groups gathered so far.
    pub closed spec fn groups_spec(&self) -> Seq<(Seq<char>, Seq<TrelloCard>)> {
        groups_view(self.groups@)
    }

    /// A collection for the cards of user `user_id` last active within
    /// `[from, to]`, before any board.
    pub fn new(user_id: &str, from: &str, to: &str) -> (r: TrelloCollector)
        ensures
            r.user_spec() == user_id@,
            r.from_spec() == from@,
            r.to_spec() == to@,
            r.groups_spec() == Seq::<(Seq<char>, Seq<TrelloCard>)>::empty(),
    {
        let r = TrelloCollector {
            user_id: user_id.to_owned(),
            from: from.to_owned(),
            to: to.to_owned(),
            groups: Vec::new(),
        };
        assert(r.groups_spec() =~= Seq::<(Seq<char>, Seq<TrelloCard>)>::empty());
        r
    }

    /// Adds the cards of a board, as fetched: those of the user within the
    /// range join the group of the board's name.
    pub fn add_board(&mut self, board: &TrelloBoard, cards: Vec<TrelloCard>)
        requires
            groups_wf(old(self).groups_spec()),
        ensures
            final(self).groups_spec() == add_group(
                old(self).groups_spec(),
                board.name@,
                selected_cards(cards@, old(self).user_spec(), old(self).from_spec(), old(self).to_spec()),
            ),
            groups_wf(final(self).groups_spec()),
            final(self).user_spec() == old(self).user_spec(),
            final(self).from_spec() == old(self).from_spec(),
            final(self).to_spec() == old(self).to_spec(),
    {
        let ghost gs = self.groups_spec();
        let mut mine = select_cards(cards, self.user_id.as_str(), self.from.as_str(), self.to.as_str());
        proof {
            lemma_add_group(gs, board.name@, mine@, board.name@);
        }
        if mine.len() == 0 {
            return;
        }
        let name = board.name.as_str();
        let mut i: usize = 0;
        while i < self.groups.len() && !str_eq(self.groups[i].0.as_str(), name)
            invariant
                i <= self.groups@.len(),
                self.groups_spec() == gs,
                forall|j: int| 0 <= j < i ==> (#[trigger] gs[j]).0 != name@,
            decreases self.groups@.len() - i,
        {
            i = i + 1;
        }
        let ghost sel = mine@;
        if i < self.groups.len() {
            let ghost old_groups = self.groups@;
            assert(gs[i as int].0 == name@);
            assert(has_group(gs, name@));
            let (n, mut group) = self.groups.remove(i);
            group.append(&mut mine);
            self.groups.insert(i, (n, group));
            let ghost r = add_group(gs, name@, sel);
            assert forall|k: int| 0 <= k < gs.len() implies #[trigger] self.groups_spec()[k]
                == r[k] by {
                if k != i {
                    assert(self.groups@[k] == old_groups[k]);
                    assert(gs[k].0 != gs[i as int].0);
                }
            }
            assert(self.groups_spec() =~= r);
        } else {
            self.groups.push((board.name.clone(), mine));
            assert(!has_group(gs, name@));
            assert(self.groups_spec() =~= add_group(gs, name@, sel));
        }
    }

    /// The groups gathered: board name and cards, no two with one name, none empty.
    pub fn into_groups(self) -> (r: Vec<(String, Vec<TrelloCard>)>)
        ensures
            groups_view(r@) == self.groups_spec(),
    {
        self.groups
    }
}

/// Whether `out` is the report form of the groups `groups`, in their order.
pub open spec fn boards_templated(groups: Seq<(String, Vec<TrelloCard>)>, out: Seq<BoardAndCards>) -> bool {
    &&& out.len() == groups.len()
    &&& forall|i: int|
        #![trigger out[i]]
        0 <= i < out.len() ==> {
            &&& out[i].board@ == groups[i].0@
            &&& out[i].cards@.len() == groups[i].1@.len()
            &&& forall|j: int|
                0 <= j < out[i].cards@.len() ==> card_templated(
                    groups[i].1@[j],
                    #[trigger] out[i].cards@[j],
                )
        }
}

fn template_cards(cards: &Vec<TrelloCard>) -> (r: Vec<TemplateTrelloCard>)
    ensures
        r@.len() == cards@.len(),
        forall|j: int| 0 <= j < r@.len() ==> card_templated(cards@[j], #[trigger] r@[j]),
{
    let mut out: Vec<TemplateTrelloCard> = Vec::new();
    let mut i: usize = 0;
    while i < cards.len()
        invariant
            i <= cards@.len(),
            out@.len() == i,
            forall|j: int| 0 <= j < i ==> card_templated(cards@[j], #[trigger] out@[j]),
        decreases cards@.len() - i,
    {
        out.push(template_card_from_unformatted_card(&cards[i]));
        i = i + 1;
    }
    out
}

/// The report form of grouped cards: each board's name with its cards' entries.
pub fn format_trello_cards(cards: &[(String, Vec<TrelloCard>)]) -> (r: Vec<BoardAndCards>)
    ensures
        boards_templated(cards@, r@),
{
    let mut out: Vec<BoardAndCards> = Vec::new();
    let mut i: usize = 0;
    while i < cards.len()
        invariant
            i <= cards@.len(),
            boards_templated(cards@.subrange(0, i as int), out@),
        decreases cards@.len() - i,
    {
        let b = BoardAndCards { board: cards[i].0.clone(), cards: template_cards(&cards[i].1) };
        out.push(b);
        i = i + 1;
        assert(boards_templated(cards@.subrange(0, i as int), out@)) by {
            assert forall|k: int| 0 <= k < out@.len() implies out@[k].board@ == cards@.subrange(0, i as int)[k].0@ by {}
        }
    }
    assert(cards@.subrange(0, cards@.len() as int) =~= cards@);
    out
}

/// The number of cards over all boards.
pub open spec fn total_cards(boards: Seq<BoardAndCards>) -> nat
    decreases boards.len(),
{
    if boards.len() == 0 {
        0
    } else {
        total_cards(boards.drop_last()) + boards.last().cards@.len()
    }
}

/// The number of boards and the number of cards over all of them.
pub fn trello_board_and_cards_len(boards_with_cards: &[BoardAndCards]) -> (r: (usize, usize))
    requires
        total_cards(boards_with_cards@) <= usize::MAX,
    ensures
        r.0 == boards_with_cards@.len(),
        r.1 == total_cards(boards_with_cards@),
{
    let ghost bs = boards_with_cards@;
    let mut total: usize = 0;
    let mut i: usize = 0;
    while i < boards_with_cards.len()
        invariant
            bs == boards_with_cards@,
            i <= bs.len(),
            total == total_cards(bs.subrange(0, i as int)),
            total_cards(bs) <= usize::MAX,
        decreases bs.len() - i,
    {
        proof {
            assert(bs.subrange(0, i + 1).drop_last() =~= bs.subrange(0, i as int));
            lemma_total_cards_prefix(bs, i + 1);
        }
        total = total + boards_with_cards[i].cards.len();
        i = i + 1;
    }
    assert(bs.subrange(0, bs.len() as int) =~= bs);
    (boards_with_cards.len(), total)
}

proof fn lemma_total_cards_prefix(bs: Seq<BoardAndCards>, k: int)
    requires
        0 <= k <= bs.len(),
    ensures
        total_cards(bs.subrange(0, k)) <= total_cards(bs),
    decreases bs.len(),
{
    if k < bs.len() {
        assert(bs.drop_last().subrange(0, k) =~= bs.subrange(0, k));
        lemma_total_cards_prefix(bs.drop_last(), k);
    } else {
        assert(bs.subrange(0, k) =~= bs);
    }
}

pub open spec fn trello_member_url_spec(key: Seq<char>, token: Seq<char>) -> Seq<char> {
    "https://api.trello.com/1/members/me?key="@ + key + "&token="@ + token
        + "&fields=avatarUrl,id,fullName"@
}

pub open spec fn trello_boards_url_spec(key: Seq<char>, token: Seq<char>) -> Seq<char> {
    "https://api.trello.com/1/members/me/boards?key="@ + key + "&token="@ + token
        + "&fields=id,name"@
}

pub open spec fn trello_cards_url_spec(board_id: Seq<char>, key: Seq<char>, token: Seq<char>) -> Seq<
    char,
> {
    "https://api.trello.com/1/boards/"@ + board_id + "/cards?key="@ + key + "&token="@ + token
        + "&fields=url,idMembers,name,desc,dateLastActivity,labels"@
}

/// The request for the authenticated member: id, full name and avatar.
pub fn trello_member_url(key: &str, token: &str) -> (r: String)
    ensures
        r@ == trello_member_url_spec(key@, token@),
{
    let mut s = "https://api.trello.com/1/members/me?key=".to_owned();
    s.append(key);
    s.append("&token=");
    s.append(token);
    s.append("&fields=avatarUrl,id,fullName");
    s
}

/// The request for the authenticated member's boards: id and name.
pub fn trello_boards_url(key: &str, token: &str) -> (r: String)
    ensures
        r@ == trello_boards_url_spec(key@, token@),
{
    let mut s = "https://api.trello.com/1/members/me/boards?key=".to_owned();
    s.append(key);
    s.append("&token=");
    s.append(token);
    s.append("&fields=id,name");
    s
}

/// The request for the cards of a board.
pub fn trello_cards_url(board_id: &str, key: &str, token: &str) -> (r: String)
    ensures
        r@ == trello_cards_url_spec(board_id@, key@, token@),
{
    let mut s = "https://api.trello.com/1/boards/".to_owned();
    s.append(board_id);
    s.append("/cards?key=");
    s.append(key);
    s.append("&token=");
    s.append(token);
    s.append("&fields=url,idMembers,name,desc,dateLastActivity,labels");
    s
}

} // verus!
