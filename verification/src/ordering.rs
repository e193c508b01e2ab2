//! The order of dice: by the face showing, then by face count, then by
//! label. The random stream takes no part, so that two dice that look alike
//! are alike.

use crate::dice::{Die, DieView};
use crate::text::{lemma_text_order_same, order_texts, text_order, TextOrder};
use std::cmp::Ordering;
use vstd::prelude::*;
use vstd::std_specs::cmp::{PartialEqSpecImpl, PartialOrdSpecImpl};

verus! {
/// Two dice look alike: same face, same face count, same label.
pub open spec fn same_showing(a: DieView, b: DieView) -> bool {
    a.current_face == b.current_face && a.faces == b.faces && a.label == b.label
}

/// How one die stands to another: the lower face first, then the lower face
/// count, then the label that comes first in the dictionary.
pub open spec fn die_order(a: DieView, b: DieView) -> TextOrder {
    if a.current_face < b.current_face {
        TextOrder::Before
    } else if a.current_face > b.current_face {
        TextOrder::After
    } else if a.faces < b.faces {
        TextOrder::Before
    } else if a.faces > b.faces {
        TextOrder::After
    } else {
        text_order(a.label, b.label)
    }
}

/// The order as std names it.
pub open spec fn std_order(order: TextOrder) -> Ordering {
    match order {
        TextOrder::Before => Ordering::Less,
        TextOrder::Same => Ordering::Equal,
        TextOrder::After => Ordering::Greater,
    }
}

/// Dice are in the order `Same` just when they look alike.
pub proof fn lemma_same_order_is_same_showing(a: DieView, b: DieView)
    ensures
        die_order(a, b) == TextOrder::Same <==> same_showing(a, b),
{
    lemma_text_order_same(a.label, b.label);
}

/// Finds how one die stands to another.
pub fn compare_dice(a: &Die, b: &Die) -> (order: TextOrder)
    ensures
        order == die_order(a@, b@),
{
    if a.get_current_face() < b.get_current_face() {
        TextOrder::Before
    } else if a.get_current_face() > b.get_current_face() {
        TextOrder::After
    } else if a.get_face_count() < b.get_face_count() {
        TextOrder::Before
    } else if a.get_face_count() > b.get_face_count() {
        TextOrder::After
    } else {
        order_texts(a.get_label(), b.get_label())
    }
}

impl PartialEq for Die {
    fn eq(&self, other: &Self) -> (equal: bool) {
        proof {
            lemma_same_order_is_same_showing(self@, other@);
        }
        compare_dice(self, other) == TextOrder::Same
    }
}

impl PartialEqSpecImpl for Die {
    open spec fn obeys_eq_spec() -> bool {
        true
    }

    open spec fn eq_spec(&self, other: &Self) -> bool {
        same_showing(self@, other@)
    }
}

impl Eq for Die {
}

impl PartialOrd for Die {
    fn partial_cmp(&self, other: &Self) -> (order: Option<Ordering>) {
        match compare_dice(self, other) {
            TextOrder::Before => Some(Ordering::Less),
            TextOrder::Same => Some(Ordering::Equal),
            TextOrder::After => Some(Ordering::Greater),
        }
    }
}

impl PartialOrdSpecImpl for Die {
    open spec fn obeys_partial_cmp_spec() -> bool {
        true
    }

    open spec fn partial_cmp_spec(&self, other: &Self) -> Option<Ordering> {
        Some(std_order(die_order(self@, other@)))
    }
}

} // verus!
