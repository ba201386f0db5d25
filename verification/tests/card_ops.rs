use token_card::card::{
    classify, is_action_card, is_number_card, is_wild_card, make_number_card, ActionKind, Card,
    WildKind,
};

#[test]
fn make_number_card_seven_is_number_seven() {
    let card = make_number_card(7);
    assert_eq!(card, Card::Number(7));
    assert_eq!(classify(&card), (true, false, false));
}

#[test]
fn out_of_range_values_clamp_to_the_default_card() {
    assert_eq!(make_number_card(0), make_number_card(1));
    assert_eq!(make_number_card(10), make_number_card(1));
    assert_eq!(make_number_card(0), Card::Number(1));
    assert_eq!(make_number_card(255), Card::Number(1));
}

#[test]
fn in_range_values_are_kept_as_they_are() {
    assert_eq!(make_number_card(1), Card::Number(1));
    assert_eq!(make_number_card(9), Card::Number(9));
}

#[test]
fn every_raw_value_yields_a_number_card() {
    for raw in 0..=255u8 {
        assert_eq!(classify(&make_number_card(raw)), (true, false, false));
    }
}

#[test]
fn exactly_one_predicate_holds_per_family() {
    let cards = vec![
        make_number_card(3),
        Card::Number(9),
        Card::Action(ActionKind::Skip),
        Card::Action(ActionKind::Reverse),
        Card::Action(ActionKind::DrawTwo),
        Card::Wild(WildKind::Wild),
        Card::Wild(WildKind::WildDrawFour),
    ];
    for card in &cards {
        let held = [is_number_card(card), is_action_card(card), is_wild_card(card)]
            .iter()
            .filter(|b| **b)
            .count();
        assert_eq!(held, 1);
    }
}

#[test]
fn action_and_wild_cards_classify_as_their_family() {
    assert_eq!(classify(&Card::Action(ActionKind::DrawTwo)), (false, true, false));
    assert_eq!(classify(&Card::Wild(WildKind::WildDrawFour)), (false, false, true));
    assert!(is_action_card(&Card::Action(ActionKind::Skip)));
    assert!(is_wild_card(&Card::Wild(WildKind::Wild)));
    assert!(!is_number_card(&Card::Action(ActionKind::Reverse)));
}
