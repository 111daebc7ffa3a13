use self_assessment::models::{BoardAndCards, TemplateTrelloCard, TrelloBoard, TrelloCard, TrelloLabel};
use self_assessment::trello::{
    format_trello_cards, is_date_bound, select_cards, template_card_from_unformatted_card, trello_board_and_cards_len,
    trello_boards_url, trello_cards_date_range, trello_cards_url, trello_member_url, TrelloCollector,
};

fn tlabel(name: &str, color: Option<&str>) -> TrelloLabel {
    TrelloLabel {
        id: "l1".to_string(),
        id_board: "b1".to_string(),
        name: name.to_string(),
        color: color.map(|c| c.to_string()),
    }
}

fn card(id: &str, members: &[&str], last_active: &str) -> TrelloCard {
    TrelloCard {
        id: id.to_string(),
        name: format!("Card {}", id),
        desc: String::new(),
        id_members: members.iter().map(|m| m.to_string()).collect(),
        url: format!("https://trello.com/c/{}", id),
        date_last_activity: last_active.to_string(),
        labels: vec![],
    }
}

fn board(id: &str, name: &str) -> TrelloBoard {
    TrelloBoard { id: id.to_string(), name: name.to_string() }
}

fn template(name: &str) -> TemplateTrelloCard {
    TemplateTrelloCard { name: name.to_string(), url: String::new(), labels: String::new() }
}

#[test]
fn date_range_filtering() {
    let c = card("a", &["me"], "2024-03-15T12:00:00.000Z");
    assert!(trello_cards_date_range(&c, "2024-01-01", "2024-12-31"));
    assert!(!trello_cards_date_range(&c, "2024-04-01", "*"));
    assert!(trello_cards_date_range(&c, "*", "*"));
    assert!(trello_cards_date_range(&c, "2024-03-15", "*"));
    assert!(!trello_cards_date_range(&c, "*", "2024-03-15"));
    assert!(trello_cards_date_range(&c, "*", "2024-03-16"));
}

#[test]
fn inverted_range_matches_nothing() {
    let c = card("a", &["me"], "2024-03-15T12:00:00.000Z");
    assert!(!trello_cards_date_range(&c, "2024-12-31", "2024-01-01"));
}

#[test]
fn unreadable_timestamps_fall_outside_bounded_ranges() {
    let c = card("a", &["me"], "yesterday");
    assert!(trello_cards_date_range(&c, "*", "*"));
    assert!(!trello_cards_date_range(&c, "2024-01-01", "*"));
    let d = card("b", &["me"], "2024-03-15T12:00:00.000Z");
    assert!(!trello_cards_date_range(&d, "March", "*"));
}

#[test]
fn offsets_compare_as_instants() {
    let c = card("a", &["me"], "2024-03-15T01:00:00+02:00");
    assert!(trello_cards_date_range(&c, "*", "2024-03-15"));
}

#[test]
fn selecting_my_cards_in_range() {
    let cards = vec![
        card("1", &["me", "you"], "2024-03-15T12:00:00.000Z"),
        card("2", &["you"], "2024-03-15T12:00:00.000Z"),
        card("3", &["me"], "2023-03-15T12:00:00.000Z"),
        card("4", &["me"], "2024-06-01T00:00:00.000Z"),
    ];
    let mine = select_cards(cards, "me", "2024-01-01", "*");
    let ids: Vec<&str> = mine.iter().map(|c| c.id.as_str()).collect();
    assert_eq!(ids, vec!["1", "4"]);
}

#[test]
fn boards_without_my_cards_are_dropped() {
    let mut collector = TrelloCollector::new("me", "*", "*");
    collector.add_board(&board("b1", "Roadmap"), vec![card("1", &["you"], "2024-03-15T12:00:00Z")]);
    collector.add_board(&board("b2", "Sprint"), vec![
        card("2", &["me"], "2024-03-15T12:00:00Z"),
        card("3", &["you"], "2024-03-15T12:00:00Z"),
    ]);
    collector.add_board(&board("b3", "Empty"), vec![]);
    let groups = collector.into_groups();
    assert_eq!(groups.len(), 1);
    assert_eq!(groups[0].0, "Sprint");
    assert_eq!(groups[0].1.len(), 1);
    assert_eq!(groups[0].1[0].id, "2");
}

#[test]
fn boards_sharing_a_name_are_grouped() {
    let mut collector = TrelloCollector::new("me", "*", "*");
    collector.add_board(&board("b1", "Team"), vec![card("1", &["me"], "2024-03-15T12:00:00Z")]);
    collector.add_board(&board("b2", "Other"), vec![card("2", &["me"], "2024-03-15T12:00:00Z")]);
    collector.add_board(&board("b3", "Team"), vec![card("3", &["me"], "2024-03-15T12:00:00Z")]);
    let groups = collector.into_groups();
    assert_eq!(groups.len(), 2);
    assert_eq!(groups[0].0, "Team");
    let ids: Vec<&str> = groups[0].1.iter().map(|c| c.id.as_str()).collect();
    assert_eq!(ids, vec!["1", "3"]);
    assert_eq!(groups[1].0, "Other");
}

#[test]
fn card_label_colours() {
    let mut c = card("x", &["me"], "2024-03-15T12:00:00Z");
    c.labels = vec![tlabel("Bug", Some("red")), tlabel("Odd", Some("teal")), tlabel("Plain", None)];
    let t = template_card_from_unformatted_card(&c);
    assert_eq!(t.name, "Card x");
    assert_eq!(t.url, "https://trello.com/c/x");
    assert_eq!(
        t.labels,
        "<span class=\"card-label\" style=\"background-color:#eb5a46\"><span>Bug</span></span> \
<span class=\"card-label\" style=\"background-color:#344563\"><span>Odd</span></span> \
<span class=\"card-label\" style=\"background-color:#344563\"><span>Plain</span></span>"
    );
}

#[test]
fn every_named_trello_colour() {
    let names = ["green", "yellow", "orange", "red", "purple", "blue", "sky", "lime", "pink", "black"];
    let hexes = ["#61bd4f", "#f2d600", "#ff9f1a", "#eb5a46", "#c377e0", "#0079bf", "#00c2e0", "#51e898", "#ff78cb", "#344563"];
    for (n, h) in names.iter().zip(hexes.iter()) {
        let mut c = card("x", &[], "");
        c.labels = vec![tlabel("L", Some(n))];
        let t = template_card_from_unformatted_card(&c);
        assert_eq!(t.labels, format!("<span class=\"card-label\" style=\"background-color:{}\"><span>L</span></span>", h));
    }
}

#[test]
fn formatting_grouped_cards() {
    let groups = vec![
        ("Sprint".to_string(), vec![card("1", &["me"], ""), card("2", &["me"], "")]),
        ("Roadmap".to_string(), vec![card("3", &["me"], "")]),
    ];
    let boards = format_trello_cards(&groups);
    assert_eq!(boards.len(), 2);
    assert_eq!(boards[0].board, "Sprint");
    assert_eq!(boards[0].cards.len(), 2);
    assert_eq!(boards[0].cards[1].name, "Card 2");
    assert_eq!(boards[1].board, "Roadmap");
    assert!(format_trello_cards(&[]).is_empty());
}

#[test]
fn counting_boards_and_cards() {
    let boards = vec![
        BoardAndCards { board: "A".to_string(), cards: vec![template("1"), template("2")] },
        BoardAndCards { board: "B".to_string(), cards: vec![template("3")] },
    ];
    assert_eq!(trello_board_and_cards_len(&boards), (2, 3));
    assert_eq!(trello_board_and_cards_len(&[]), (0, 0));
}

#[test]
fn trello_request_urls() {
    assert_eq!(
        trello_member_url("K", "T"),
        "https://api.trello.com/1/members/me?key=K&token=T&fields=avatarUrl,id,fullName"
    );
    assert_eq!(
        trello_boards_url("K", "T"),
        "https://api.trello.com/1/members/me/boards?key=K&token=T&fields=id,name"
    );
    assert_eq!(
        trello_cards_url("B1", "K", "T"),
        "https://api.trello.com/1/boards/B1/cards?key=K&token=T&fields=url,idMembers,name,desc,dateLastActivity,labels"
    );
}

#[test]
fn date_bounds() {
    assert!(is_date_bound("*"));
    assert!(is_date_bound("2024-03-15"));
    assert!(!is_date_bound("2024-3-15"));
    assert!(!is_date_bound("2024-02-30"));
    assert!(!is_date_bound(""));
}
