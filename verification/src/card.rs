//! A closed, tagged card domain with validated construction and exhaustive
//! classification.
//!
//! A card is exactly one of three variants: a number card carrying a value in
//! `[1, 9]`, an action card, or a wild card. Construction clamps an
//! out-of-range numeric value to a default instead of rejecting it, so every
//! constructible card is valid. Every classification predicate matches on
//! every variant without a wildcard arm, so adding a variant forces each
//! predicate to be revisited.

use vstd::prelude::*;

verus! {

/// The kind of an action card.
#[derive(Clone, Copy, Debug, PartialEq, Eq, Structural)]
pub enum ActionKind {
    Skip,
    Reverse,
    DrawTwo,
}

/// The kind of a wild card.
#[derive(Clone, Copy, Debug, PartialEq, Eq, Structural)]
pub enum WildKind {
    Wild,
    WildDrawFour,
}

/// A card: exactly one variant tag is active per instance, and the payload's
/// shape is determined by the tag. Cards are immutable value objects.
#[derive(Clone, Copy, Debug, PartialEq, Eq, Structural)]
pub enum Card {
    Number(u8),
    Action(ActionKind),
    Wild(WildKind),
}

/// A card is valid when a numeric payload lies in `[1, 9]`; the other
/// variants are valid as they stand.
pub open spec fn valid_card(c: Card) -> bool {
    c matches Card::Number(v) ==> 1 <= v <= 9
}

/// The card that construction from the raw value `raw` yields: the number
/// card carrying `raw` when it lies in `[1, 9]`, else the number card
/// carrying 1 (out-of-range input is silently clamped to a default, never
/// rejected and never kept out of range).
pub open spec fn clamped_number_card(raw: u8) -> Card {
    if 1 <= raw <= 9 {
        Card::Number(raw)
    } else {
        Card::Number(1)
    }
}

/// The classification of a card: whether it is a number card, an action card,
/// and a wild card, in that order.
pub open spec fn classification(c: Card) -> (bool, bool, bool) {
    (c is Number, c is Action, c is Wild)
}

/// Validated constructor of a number card. Never fails: a raw value outside
/// `[1, 9]` is clamped to the default value 1, so the result is always a
/// valid number card.
pub fn make_number_card(raw: u8) -> (c: Card)
    ensures
        c == clamped_number_card(raw),
        valid_card(c),
        c is Number,
{
    if raw > 0 && raw < 10 {
        Card::Number(raw)
    } else {
        Card::Number(1)
    }
}

/// Whether the card is a number card. The match is exhaustive on purpose:
/// a future variant must be handled here, not absorbed by a wildcard arm.
pub fn is_number_card(card: &Card) -> (r: bool)
    ensures
        r == (*card is Number),
{
    match card {
        Card::Number(_) => true,
        Card::Action(_) => false,
        Card::Wild(_) => false,
    }
}

/// Whether the card is an action card. The match is exhaustive on purpose.
pub fn is_action_card(card: &Card) -> (r: bool)
    ensures
        r == (*card is Action),
{
    match card {
        Card::Number(_) => false,
        Card::Action(_) => true,
        Card::Wild(_) => false,
    }
}

/// Whether the card is a wild card. The match is exhaustive on purpose.
pub fn is_wild_card(card: &Card) -> (r: bool)
    ensures
        r == (*card is Wild),
{
    match card {
        Card::Number(_) => false,
        Card::Action(_) => false,
        Card::Wild(_) => true,
    }
}

/// Classifies a card with the three predicates at once.
pub fn classify(card: &Card) -> (r: (bool, bool, bool))
    ensures
        r == classification(*card),
{
    (is_number_card(card), is_action_card(card), is_wild_card(card))
}

/// Exactly one classification predicate holds of every constructible card:
/// each card is a number card, an action card or a wild card, and never two
/// of these at once.
pub proof fn lemma_classification_exclusive(c: Card)
    ensures
        (c is Number) || (c is Action) || (c is Wild),
        c is Number ==> !(c is Action) && !(c is Wild),
        c is Action ==> !(c is Number) && !(c is Wild),
        c is Wild ==> !(c is Number) && !(c is Action),
{
}

/// Construction from any raw value yields a card that classifies as a number
/// card and nothing else, whether the raw value was in range or was clamped.
pub proof fn lemma_clamped_number_card_is_number(raw: u8)
    ensures
        classification(clamped_number_card(raw)) == (true, false, false),
{
}

} // verus!
