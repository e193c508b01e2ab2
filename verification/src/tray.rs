//! A tray: an ordered collection of dice that it owns, with rolls and
//! removals aimed at an index, a label or an id, and one result for the lot.

use crate::dice::{Die, DieResultType, DieView};
use crate::tally::{greatest, least, lemma_total_prefix, total};
use crate::text::decimal_string;
use vstd::prelude::*;
use vstd::string::StringExecFns;

verus! {
/// How a tray makes one result out of the results of its dice.
#[derive(Debug, Clone, Copy, PartialEq, Eq, Structural)]
pub enum TrayResultType {
    Sum,
    Best,
    Worst,
}

impl TrayResultType {
    /// The caption under which the tray's result is shown.
    pub fn to_string(&self) -> (caption: String)
        ensures
            caption@ == (match *self {
                TrayResultType::Sum => "Tray sum"@,
                TrayResultType::Best => "High roll in tray"@,
                TrayResultType::Worst => "Worst roll in tray"@,
            }),
    {
        match self {
            TrayResultType::Sum => String::from_str("Tray sum"),
            TrayResultType::Best => String::from_str("High roll in tray"),
            TrayResultType::Worst => String::from_str("Worst roll in tray"),
        }
    }
}

/// The result of a whole tray.
#[derive(Debug, Clone, PartialEq, Eq)]
pub enum TrayResult {
    Number(u32),
    String(String),
    NoResult,
}

/// The mathematical content of a [`TrayResult`].
pub enum TrayResultView {
    Number(nat),
    Text(Seq<char>),
    Absent,
}

impl View for TrayResult {
    type V = TrayResultView;

    open spec fn view(&self) -> TrayResultView {
        match self {
            TrayResult::Number(n) => TrayResultView::Number(*n as nat),
            TrayResult::String(s) => TrayResultView::Text(s@),
            TrayResult::NoResult => TrayResultView::Absent,
        }
    }
}

impl TrayResultView {
    /// The text that shows the result: a number in decimal, a text as it
    /// is, and `None` where there is no result.
    pub open spec fn rendered(self) -> Seq<char> {
        match self {
            TrayResultView::Number(n) => crate::text::decimal(n),
            TrayResultView::Text(s) => s,
            TrayResultView::Absent => "None"@,
        }
    }
}

impl TrayResult {
    /// The text that shows the result.
    pub fn to_string(&self) -> (text: String)
        ensures
            text@ == self@.rendered(),
    {
        match self {
            TrayResult::Number(n) => decimal_string(*n as u64),
            TrayResult::String(s) => s.clone(),
            TrayResult::NoResult => String::from_str("None"),
        }
    }
}

/// The orders a tray can be put in.
#[derive(Debug, Clone, Copy, PartialEq, Eq, Structural)]
pub enum TraySortType {
    /// Ascending by the face now showing.
    Face,
}

impl TraySortType {
    /// A sentence that says how the tray was sorted.
    pub fn to_string(&self) -> (text: String)
        ensures
            text@ == "Sorting tray by die face."@,
    {
        match self {
            TraySortType::Face => String::from_str("Sorting tray by die face."),
        }
    }
}

/// Why a tray refused an operation. Each holds what the caller aimed at.
#[derive(Debug, Clone, PartialEq, Eq)]
pub enum TrayError {
    /// No die stands at `index`; the tray holds `len` dice.
    IndexOutOfBounds { index: usize, len: usize },
    /// No die of the tray has this id.
    UnknownId { id: usize },
    /// No die of the tray has this label.
    UnknownLabel { label: String },
    /// The tray holds no dice.
    EmptyTray,
}

/// The mathematical content of a [`TrayError`].
pub enum TrayErrorView {
    IndexOutOfBounds { index: usize, len: usize },
    UnknownId { id: usize },
    UnknownLabel { label: Seq<char> },
    EmptyTray,
}

impl View for TrayError {
    type V = TrayErrorView;

    open spec fn view(&self) -> TrayErrorView {
        match self {
            TrayError::IndexOutOfBounds { index, len } => TrayErrorView::IndexOutOfBounds {
                index: *index,
                len: *len,
            },
            TrayError::UnknownId { id } => TrayErrorView::UnknownId { id: *id },
            TrayError::UnknownLabel { label } => TrayErrorView::UnknownLabel { label: label@ },
            TrayError::EmptyTray => TrayErrorView::EmptyTray,
        }
    }
}

/// The views of a run of dice, in order.
pub open spec fn dice_views(dice: Seq<Die>) -> Seq<DieView> {
    dice.map_values(|d: Die| d@)
}

/// The visible state of a tray.
pub struct TrayView {
    pub label: Seq<char>,
    pub dice: Seq<DieView>,
    pub result_type: TrayResultType,
}

impl TrayView {
    /// Every die of the tray is well formed.
    pub open spec fn wf(self) -> bool {
        forall|i: int| 0 <= i < self.dice.len() ==> (#[trigger] self.dice[i]).wf()
    }

    /// Some die of the tray has this label.
    pub open spec fn has_label(self, label: Seq<char>) -> bool {
        exists|i: int| 0 <= i < self.dice.len() && (#[trigger] self.dice[i]).label == label
    }

    /// Some die of the tray has this id.
    pub open spec fn has_id(self, id: usize) -> bool {
        exists|i: int| 0 <= i < self.dice.len() && (#[trigger] self.dice[i]).id == id
    }

    /// Every die of the tray can take a roll that asks for `wanted`.
    pub open spec fn can_roll(self, wanted: Option<DieResultType>) -> bool {
        forall|i: int| 0 <= i < self.dice.len() ==> (#[trigger] self.dice[i]).can_roll(wanted)
    }

    /// `after` is this tray once each die picked by `aimed_at` has been
    /// rolled with a request for `wanted`, and no other die touched.
    pub open spec fn rolls_to(
        self,
        aimed_at: spec_fn(int) -> bool,
        wanted: Option<DieResultType>,
        after: TrayView,
    ) -> bool {
        &&& after.label == self.label
        &&& after.result_type == self.result_type
        &&& after.dice.len() == self.dice.len()
        &&& forall|i: int|
            0 <= i < self.dice.len() ==> if aimed_at(i) {
                self.dice[i].rolls_to(wanted, #[trigger] after.dice[i])
            } else {
                after.dice[i] == self.dice[i]
            }
    }

    /// The one result of the tray: the sum, the greatest or the least of the
    /// numbers its dice report. An empty tray sums to `0` and has no greatest
    /// and no least.
    pub open spec fn result(self) -> TrayResultView {
        let numbers = result_numbers(self.dice);
        match self.result_type {
            TrayResultType::Sum => TrayResultView::Number(total(numbers)),
            TrayResultType::Best => if numbers.len() == 0 {
                TrayResultView::Absent
            } else {
                TrayResultView::Number(greatest(numbers))
            },
            TrayResultType::Worst => if numbers.len() == 0 {
                TrayResultView::Absent
            } else {
                TrayResultView::Number(least(numbers))
            },
        }
    }

    /// The tray's result fits in 32 bits. Only a sum can fail to.
    pub open spec fn result_fits(self) -> bool {
        self.result_type == TrayResultType::Sum ==> total(result_numbers(self.dice)) <= u32::MAX
    }

    /// The summary of the first `n` dice: for each, `@`, its index, `:` and
    /// the die's own line, one after the other.
    pub open spec fn summary_of(self, n: nat) -> Seq<char>
        decreases n,
    {
        if n == 0 {
            Seq::<char>::empty()
        } else {
            self.summary_of((n - 1) as nat) + seq!['@'] + crate::text::decimal((n - 1) as nat)
                + seq![':'] + self.dice[n - 1].summary()
        }
    }

    /// The summary of the whole tray.
    pub open spec fn summary(self) -> Seq<char> {
        self.summary_of(self.dice.len())
    }

    /// `after` is this tray once each die picked by `aimed_at` has taken up
    /// `wanted`, and no other die touched.
    pub open spec fn switches_to(
        self,
        aimed_at: spec_fn(int) -> bool,
        wanted: DieResultType,
        after: TrayView,
    ) -> bool {
        &&& after.label == self.label
        &&& after.result_type == self.result_type
        &&& after.dice.len() == self.dice.len()
        &&& forall|i: int|
            0 <= i < self.dice.len() ==> #[trigger] after.dice[i] == if aimed_at(i) {
                self.dice[i].switched(wanted)
            } else {
                self.dice[i]
            }
    }

    /// The tray holds no dice.
    pub open spec fn is_empty(self) -> bool {
        self.dice.len() == 0
    }

    /// The tray with all its dice taken out.
    pub open spec fn emptied(self) -> TrayView {
        self.with_dice(Seq::<DieView>::empty())
    }

    /// The tray with other dice in it.
    pub open spec fn with_dice(self, dice: Seq<DieView>) -> TrayView {
        TrayView { dice, ..self }
    }
}

/// The number each die adds to the tray's result: its own result where that
/// is a number, else nothing.
pub open spec fn result_numbers(dice: Seq<DieView>) -> Seq<nat> {
    dice.map_values(|d: DieView| d.result().num_or(0))
}

/// `after` holds the dice of `before`, the die at `k` being the one that
/// stood at `from[k]`, in ascending order of face, and dice with equal
/// faces in the order they had.
pub open spec fn arranges_by_face(before: Seq<DieView>, after: Seq<DieView>, from: Seq<int>) -> bool {
    &&& after.len() == before.len()
    &&& from.len() == before.len()
    &&& forall|k: int|
        0 <= k < after.len() ==> 0 <= #[trigger] from[k] < before.len() && after[k]
            == before[from[k]]
    &&& forall|k1: int, k2: int|
        0 <= k1 < k2 < after.len() ==> comes_before(
            after[k1].current_face,
            #[trigger] from[k1],
            after[k2].current_face,
            #[trigger] from[k2],
        )
}

/// A die with face `face1` that stood at `place1` belongs before one with
/// `face2` that stood at `place2`: the lower face first, and of equal faces
/// the one that stood first.
pub open spec fn comes_before(face1: nat, place1: int, face2: nat, place2: int) -> bool {
    face1 < face2 || (face1 == face2 && place1 < place2)
}

/// `after` is `before` sorted by face, ascending and stable.
pub open spec fn is_stable_sort_by_face(before: Seq<DieView>, after: Seq<DieView>) -> bool {
    exists|from: Seq<int>| arranges_by_face(before, after, from)
}

/// The state of an insertion sort that has dealt with the first `done` dice:
/// they are the first `done` dice of `before` in sorted order, the others
/// stand where they stood.
spec fn sorted_up_to(before: Seq<DieView>, current: Seq<DieView>, from: Seq<int>, done: int) -> bool {
    &&& current.len() == before.len()
    &&& from.len() == before.len()
    &&& 0 <= done <= before.len()
    &&& forall|k: int|
        0 <= k < current.len() ==> 0 <= #[trigger] from[k] < before.len() && current[k]
            == before[from[k]]
    &&& forall|k: int| 0 <= k < done ==> #[trigger] from[k] < done
    &&& forall|k: int| done <= k < current.len() ==> #[trigger] from[k] == k
    &&& forall|k1: int, k2: int|
        0 <= k1 < k2 < done ==> comes_before(
            current[k1].current_face,
            #[trigger] from[k1],
            current[k2].current_face,
            #[trigger] from[k2],
        )
}

/// Moving the die at `done` down to `place`, behind the dice that may stay
/// before it and before those with a higher face, extends the sorted part
/// by one.
proof fn lemma_insertion_step(
    before: Seq<DieView>,
    current: Seq<DieView>,
    from: Seq<int>,
    done: int,
    place: int,
)
    requires
        sorted_up_to(before, current, from, done),
        done < before.len(),
        0 <= place <= done,
        forall|k: int| place <= k < done ==> (#[trigger] current[k]).current_face > current[done].current_face,
        place > 0 ==> current[place - 1].current_face <= current[done].current_face,
    ensures
        sorted_up_to(
            before,
            current.remove(done).insert(place, current[done]),
            from.remove(done).insert(place, from[done]),
            done + 1,
        ),
{
    let moved = current.remove(done).insert(place, current[done]);
    let origin = from.remove(done).insert(place, from[done]);
    assert forall|k1: int, k2: int| 0 <= k1 < k2 < done + 1 implies comes_before(
        moved[k1].current_face,
        #[trigger] origin[k1],
        moved[k2].current_face,
        #[trigger] origin[k2],
    ) by {
        let old1 = if k1 < place {
            k1
        } else if k1 == place {
            done
        } else {
            k1 - 1
        };
        let old2 = if k2 < place {
            k2
        } else if k2 == place {
            done
        } else {
            k2 - 1
        };
        if k2 == place {
            // The die before the moved one stays before it.
            if old1 < place - 1 {
                assert(comes_before(
                    current[old1].current_face,
                    from[old1],
                    current[place - 1].current_face,
                    from[place - 1],
                ));
            }
        } else if k1 != place {
            assert(comes_before(
                current[old1].current_face,
                from[old1],
                current[old2].current_face,
                from[old2],
            ));
        }
    }
}

/// The dice that have this label, in order.
pub open spec fn dice_with_label(dice: Seq<DieView>, label: Seq<char>) -> Seq<DieView> {
    dice.filter(|d: DieView| d.label == label)
}

/// The dice that have another label than this, in order.
pub open spec fn dice_without_label(dice: Seq<DieView>, label: Seq<char>) -> Seq<DieView> {
    dice.filter(|d: DieView| d.label != label)
}

/// Filtering a sequence that starts with `first` keeps or drops `first` and
/// filters the rest.
proof fn lemma_filter_first<A>(first: A, rest: Seq<A>, pred: spec_fn(A) -> bool)
    ensures
        (seq![first] + rest).filter(pred) == if pred(first) {
            seq![first] + rest.filter(pred)
        } else {
            rest.filter(pred)
        },
{
    let one = seq![first];
    Seq::filter_distributes_over_add(one, rest, pred);
    assert(one.filter(pred) == if pred(first) {
        one
    } else {
        Seq::<A>::empty()
    }) by {
        reveal_with_fuel(Seq::filter, 2);
    }
}

/// Splitting dice by a label, seen from the front: the first die goes to
/// one side, the rest is split in the same way.
pub proof fn lemma_split_by_label_first(first: DieView, rest: Seq<DieView>, label: Seq<char>)
    ensures
        dice_with_label(seq![first] + rest, label) == if first.label == label {
            seq![first] + dice_with_label(rest, label)
        } else {
            dice_with_label(rest, label)
        },
        dice_without_label(seq![first] + rest, label) == if first.label != label {
            seq![first] + dice_without_label(rest, label)
        } else {
            dice_without_label(rest, label)
        },
{
    lemma_filter_first(first, rest, |d: DieView| d.label == label);
    lemma_filter_first(first, rest, |d: DieView| d.label != label);
}

/// No dice split into no dice.
pub proof fn lemma_split_by_label_empty(label: Seq<char>)
    ensures
        dice_with_label(Seq::<DieView>::empty(), label) == Seq::<DieView>::empty(),
        dice_without_label(Seq::<DieView>::empty(), label) == Seq::<DieView>::empty(),
{
    reveal_with_fuel(Seq::filter, 1);
}

/// One step of taking labelled dice out from the end: what holds of the
/// dice from `i + 1` on is carried over to the dice from `i` on.
proof fn lemma_remove_by_label_step(
    before: Seq<DieView>,
    current: Seq<DieView>,
    taken: Seq<DieView>,
    i: int,
    label: Seq<char>,
)
    requires
        0 <= i < current.len() <= before.len(),
        current.take(i + 1) == before.take(i + 1),
        current.skip(i + 1) == dice_without_label(before.skip(i + 1), label),
        taken.reverse() == dice_with_label(before.skip(i + 1), label),
    ensures
        current[i] == before[i],
        before[i].label == label ==> {
            &&& current.remove(i).take(i) == before.take(i)
            &&& current.remove(i).skip(i) == dice_without_label(before.skip(i), label)
            &&& taken.push(before[i]).reverse() == dice_with_label(before.skip(i), label)
        },
        before[i].label != label ==> {
            &&& current.take(i) == before.take(i)
            &&& current.skip(i) == dice_without_label(before.skip(i), label)
            &&& taken.reverse() == dice_with_label(before.skip(i), label)
        },
{
    assert(current[i] == current.take(i + 1)[i]);
    assert(before.skip(i) =~= seq![before[i]] + before.skip(i + 1));
    lemma_split_by_label_first(before[i], before.skip(i + 1), label);
}

/// Once every die has been taken out of a tray, taking every die out is
/// refused: the emptied tray is empty, and stays as it is.
pub proof fn lemma_remove_all_twice(tray: TrayView)
    ensures
        tray.emptied().is_empty(),
        tray.emptied().emptied() == tray.emptied(),
{
}

/// A tray without a die of some label has nothing to separate by that
/// label: the dice without the label are all its dice.
pub proof fn lemma_no_label_nothing_removed(tray: TrayView, label: Seq<char>)
    requires
        !tray.has_label(label),
    ensures
        dice_with_label(tray.dice, label) == Seq::<DieView>::empty(),
        dice_without_label(tray.dice, label) == tray.dice,
    decreases tray.dice.len(),
{
    reveal(Seq::filter);
    if tray.dice.len() > 0 {
        let rest = tray.with_dice(tray.dice.drop_last());
        lemma_no_label_nothing_removed(rest, label);
    }
}

/// Whether `index` is among the indices.
fn holds_index(indices: &Vec<usize>, index: usize) -> (holds: bool)
    ensures
        holds == indices@.contains(index),
{
    let mut i: usize = 0;
    while i < indices.len()
        invariant
            0 <= i <= indices.len(),
            forall|k: int| 0 <= k < i ==> indices@[k] != index,
        decreases indices.len() - i,
    {
        if indices[i] == index {
            return true;
        }
        i = i + 1;
    }
    false
}

/// An ordered collection of dice. The tray owns its dice: one leaves it only
/// by being removed, and is then handed to the caller.
#[derive(Debug)]
pub struct Tray {
    label: String,
    dice: Vec<Die>,
    tray_result_type: TrayResultType,
}

impl View for Tray {
    type V = TrayView;

    closed spec fn view(&self) -> TrayView {
        TrayView {
            label: self.label@,
            dice: dice_views(self.dice@),
            result_type: self.tray_result_type,
        }
    }
}

impl Tray {
    /// An empty tray that sums the results of its dice.
    pub fn new(label: String) -> (tray: Tray)
        ensures
            tray@.wf(),
            tray@ == (TrayView {
                label: label@,
                dice: Seq::<DieView>::empty(),
                result_type: TrayResultType::Sum,
            }),
    {
        let tray = Tray { label, dice: Vec::new(), tray_result_type: TrayResultType::Sum };
        assert(tray@.dice =~= Seq::<DieView>::empty());
        tray
    }

    /// The tray's label.
    pub fn get_id(&self) -> (label: &str)
        ensures
            label@ == self@.label,
    {
        self.label.as_str()
    }

    /// The dice of the tray, in order.
    pub fn get_dice(&self) -> (dice: &Vec<Die>)
        ensures
            dice_views(dice@) == self@.dice,
    {
        &self.dice
    }

    /// The number of dice in the tray.
    pub fn len(&self) -> (n: usize)
        ensures
            n == self@.dice.len(),
    {
        self.dice.len()
    }

    /// How the tray makes its result.
    pub fn get_result_type(&self) -> (result_type: &TrayResultType)
        ensures
            *result_type == self@.result_type,
    {
        &self.tray_result_type
    }

    /// Chooses how the tray makes its result. The dice keep their own
    /// result types and results.
    pub fn set_result_type(&mut self, result_type: TrayResultType)
        ensures
            final(self)@ == (TrayView { result_type, ..old(self)@ }),
    {
        self.tray_result_type = result_type;
    }

    /// Puts a die at the end of the tray.
    pub fn add_die(&mut self, die: Die)
        ensures
            final(self)@ == old(self)@.with_dice(old(self)@.dice.push(die@)),
    {
        self.dice.push(die);
        assert(dice_views(self.dice@) =~= dice_views(old(self).dice@).push(die@));
    }

    /// Puts dice at the end of the tray, in the order given.
    pub fn add_dice(&mut self, dice: Vec<Die>)
        ensures
            final(self)@ == old(self)@.with_dice(old(self)@.dice + dice_views(dice@)),
    {
        let mut dice = dice;
        let ghost added = dice@;
        self.dice.append(&mut dice);
        assert(dice_views(self.dice@) =~= dice_views(old(self).dice@) + dice_views(added));
    }

    /// Takes the die at `index` out of the tray; the dice behind it move up
    /// by one. Fails, and changes nothing, where no die stands at `index`.
    pub fn remove_at(&mut self, index: usize) -> (removed: Result<Die, TrayError>)
        ensures
            match removed {
                Ok(die) => {
                    &&& index < old(self)@.dice.len()
                    &&& die@ == old(self)@.dice[index as int]
                    &&& final(self)@ == old(self)@.with_dice(
                        old(self)@.dice.remove(index as int),
                    )
                },
                Err(e) => {
                    &&& index >= old(self)@.dice.len()
                    &&& e == (TrayError::IndexOutOfBounds {
                        index,
                        len: old(self)@.dice.len() as usize,
                    })
                    &&& final(self)@ == old(self)@
                },
            },
    {
        if index < self.dice.len() {
            let die = self.dice.remove(index);
            assert(dice_views(self.dice@) =~= dice_views(old(self).dice@).remove(index as int));
            Ok(die)
        } else {
            Err(TrayError::IndexOutOfBounds { index, len: self.dice.len() })
        }
    }

    /// Takes every die out of the tray and hands them over in order. Fails
    /// where the tray is empty already.
    pub fn remove_all(&mut self) -> (removed: Result<Vec<Die>, TrayError>)
        ensures
            final(self)@ == old(self)@.emptied(),
            match removed {
                Ok(dice) => !old(self)@.is_empty() && dice_views(dice@) == old(self)@.dice,
                Err(e) => old(self)@.is_empty() && e == TrayError::EmptyTray,
            },
    {
        if self.dice.len() == 0 {
            assert(self@.dice =~= Seq::<DieView>::empty());
            return Err(TrayError::EmptyTray);
        }
        let mut dice: Vec<Die> = Vec::new();
        dice.append(&mut self.dice);
        assert(dice_views(self.dice@) =~= Seq::<DieView>::empty());
        Ok(dice)
    }

    /// Empties the tray. An empty tray stays empty: this never fails.
    pub fn clear(&mut self)
        ensures
            final(self)@ == old(self)@.emptied(),
    {
        self.dice.clear();
        assert(dice_views(self.dice@) =~= Seq::<DieView>::empty());
    }

    /// Whether every die of the tray can take a roll that asks for
    /// `result_type` without its result outgrowing 32 bits.
    pub fn can_roll(&self, result_type: Option<DieResultType>) -> (fits: bool)
        requires
            self@.wf(),
        ensures
            fits == self@.can_roll(result_type),
    {
        let mut i: usize = 0;
        while i < self.dice.len()
            invariant
                0 <= i <= self.dice.len(),
                self@.wf(),
                forall|k: int| 0 <= k < i ==> (#[trigger] self@.dice[k]).can_roll(result_type),
            decreases self.dice.len() - i,
        {
            assert(self@.dice[i as int].wf());
            if !self.dice[i].can_roll(result_type) {
                return false;
            }
            i = i + 1;
        }
        true
    }

    /// Rolls every die of the tray, each from its own stream, with the same
    /// request for a result type.
    pub fn roll_all(&mut self, result_type: Option<DieResultType>)
        requires
            old(self)@.wf(),
            old(self)@.can_roll(result_type),
        ensures
            final(self)@.wf(),
            old(self)@.rolls_to(|i: int| true, result_type, final(self)@),
    {
        let mut i: usize = 0;
        while i < self.dice.len()
            invariant
                0 <= i <= self.dice.len(),
                self.dice.len() == old(self).dice.len(),
                self.label == old(self).label,
                self.tray_result_type == old(self).tray_result_type,
                old(self)@.wf(),
                old(self)@.can_roll(result_type),
                forall|k: int|
                    0 <= k < i ==> {
                        &&& (#[trigger] self.dice@[k])@.wf()
                        &&& old(self).dice@[k]@.rolls_to(result_type, self.dice@[k]@)
                    },
                forall|k: int|
                    i <= k < self.dice.len() ==> (#[trigger] self.dice@[k])@ == old(self).dice@[k]@,
            decreases self.dice.len() - i,
        {
            assert(old(self)@.dice[i as int] == self.dice@[i as int]@);
            self.dice[i].roll(result_type);
            i = i + 1;
        }
        assert forall|k: int| 0 <= k < self@.dice.len() implies {
            &&& (#[trigger] self@.dice[k]).wf()
            &&& old(self)@.dice[k].rolls_to(result_type, self@.dice[k])
        } by {
        }
    }

    /// Rolls the die at `index` and no other. Fails, and changes nothing,
    /// where no die stands at `index`.
    pub fn roll_at(&mut self, index: usize, result_type: Option<DieResultType>) -> (rolled: Result<
        (),
        TrayError,
    >)
        requires
            old(self)@.wf(),
            index < old(self)@.dice.len() ==> old(self)@.dice[index as int].can_roll(result_type),
        ensures
            final(self)@.wf(),
            match rolled {
                Ok(_) => {
                    &&& index < old(self)@.dice.len()
                    &&& old(self)@.rolls_to(|i: int| i == index, result_type, final(self)@)
                },
                Err(e) => {
                    &&& index >= old(self)@.dice.len()
                    &&& e == (TrayError::IndexOutOfBounds {
                        index,
                        len: old(self)@.dice.len() as usize,
                    })
                    &&& final(self)@ == old(self)@
                },
            },
    {
        if index < self.dice.len() {
            self.dice[index].roll(result_type);
            assert forall|k: int| 0 <= k < self@.dice.len() implies {
                &&& (#[trigger] self@.dice[k]).wf()
                &&& if k == index {
                    old(self)@.dice[k].rolls_to(result_type, self@.dice[k])
                } else {
                    self@.dice[k] == old(self)@.dice[k]
                }
            } by {
                assert(old(self)@.dice[k] == old(self).dice@[k]@);
            }
            Ok(())
        } else {
            Err(TrayError::IndexOutOfBounds { index, len: self.dice.len() })
        }
    }

    /// Rolls every die that has this label, and no other. Fails, and changes
    /// nothing, where no die has it.
    pub fn roll_by_label(&mut self, label: &str, result_type: Option<DieResultType>) -> (rolled:
        Result<(), TrayError>)
        requires
            old(self)@.wf(),
            forall|i: int|
                0 <= i < old(self)@.dice.len() && (#[trigger] old(self)@.dice[i]).label == label@
                    ==> old(self)@.dice[i].can_roll(result_type),
        ensures
            final(self)@.wf(),
            match rolled {
                Ok(_) => {
                    &&& old(self)@.has_label(label@)
                    &&& old(self)@.rolls_to(
                        |i: int| old(self)@.dice[i].label == label@,
                        result_type,
                        final(self)@,
                    )
                },
                Err(e) => {
                    &&& !old(self)@.has_label(label@)
                    &&& e@ == (TrayErrorView::UnknownLabel { label: label@ })
                    &&& final(self)@ == old(self)@
                },
            },
    {
        let mut hit: bool = false;
        let mut i: usize = 0;
        while i < self.dice.len()
            invariant
                0 <= i <= self.dice.len(),
                self.dice.len() == old(self).dice.len(),
                self.label == old(self).label,
                self.tray_result_type == old(self).tray_result_type,
                old(self)@.wf(),
                forall|k: int|
                    0 <= k < old(self)@.dice.len() && (#[trigger] old(self)@.dice[k]).label
                        == label@ ==> old(self)@.dice[k].can_roll(result_type),
                hit <==> exists|k: int| 0 <= k < i && (#[trigger] old(self)@.dice[k]).label == label@,
                forall|k: int|
                    0 <= k < i ==> {
                        &&& (#[trigger] self.dice@[k])@.wf()
                        &&& if old(self).dice@[k]@.label == label@ {
                            old(self).dice@[k]@.rolls_to(result_type, self.dice@[k]@)
                        } else {
                            self.dice@[k]@ == old(self).dice@[k]@
                        }
                    },
                forall|k: int|
                    i <= k < self.dice.len() ==> (#[trigger] self.dice@[k])@ == old(self).dice@[k]@,
            decreases self.dice.len() - i,
        {
            assert(old(self)@.dice[i as int] == self.dice@[i as int]@);
            if self.dice[i].has_label(label) {
                self.dice[i].roll(result_type);
                hit = true;
            }
            i = i + 1;
        }
        if hit {
            assert forall|k: int| 0 <= k < self@.dice.len() implies {
                &&& (#[trigger] self@.dice[k]).wf()
                &&& if old(self)@.dice[k].label == label@ {
                    old(self)@.dice[k].rolls_to(result_type, self@.dice[k])
                } else {
                    self@.dice[k] == old(self)@.dice[k]
                }
            } by {
            }
            Ok(())
        } else {
            assert(self@.dice =~= old(self)@.dice);
            Err(TrayError::UnknownLabel { label: String::from_str(label) })
        }
    }

    /// Takes the die with this id out of the tray and hands it over. Ids are
    /// meant to be unique; should several dice have the id, the one nearest
    /// the end leaves. Fails, and changes nothing, where no die has the id.
    pub fn remove_by_id(&mut self, id: usize) -> (removed: Result<Die, TrayError>)
        ensures
            match removed {
                Ok(die) => exists|k: int|
                    {
                        &&& 0 <= k < old(self)@.dice.len()
                        &&& (#[trigger] old(self)@.dice[k]).id == id
                        &&& forall|j: int|
                            k < j < old(self)@.dice.len() ==> (#[trigger] old(self)@.dice[j]).id
                                != id
                        &&& die@ == old(self)@.dice[k]
                        &&& final(self)@ == old(self)@.with_dice(old(self)@.dice.remove(k))
                    },
                Err(e) => {
                    &&& !old(self)@.has_id(id)
                    &&& e == (TrayError::UnknownId { id })
                    &&& final(self)@ == old(self)@
                },
            },
    {
        let mut i: usize = self.dice.len();
        while i > 0
            invariant
                i <= self.dice.len(),
                *self == *old(self),
                forall|j: int| i <= j < self.dice.len() ==> (#[trigger] self@.dice[j]).id != id,
            decreases i,
        {
            i = i - 1;
            if self.dice[i].get_id() == id {
                let die = self.dice.remove(i);
                assert(dice_views(self.dice@) =~= dice_views(old(self).dice@).remove(i as int));
                assert(old(self)@.dice[i as int].id == id);
                return Ok(die);
            }
        }
        Err(TrayError::UnknownId { id })
    }

    /// Takes every die with this label out of the tray and hands them over,
    /// the one nearest the end first. The other dice keep their order. Fails,
    /// and changes nothing, where no die has the label.
    pub fn remove_by_label(&mut self, label: &str) -> (removed: Result<Vec<Die>, TrayError>)
        ensures
            match removed {
                Ok(dice) => {
                    &&& old(self)@.has_label(label@)
                    &&& dice_views(dice@).reverse() == dice_with_label(old(self)@.dice, label@)
                    &&& final(self)@ == old(self)@.with_dice(
                        dice_without_label(old(self)@.dice, label@),
                    )
                },
                Err(e) => {
                    &&& !old(self)@.has_label(label@)
                    &&& e@ == (TrayErrorView::UnknownLabel { label: label@ })
                    &&& final(self)@ == old(self)@
                },
            },
    {
        let ghost before = old(self)@.dice;
        let mut removed: Vec<Die> = Vec::new();
        let mut i: usize = self.dice.len();
        proof {
            lemma_split_by_label_empty(label@);
        }
        while i > 0
            invariant
                i <= self.dice.len() <= before.len(),
                before == old(self)@.dice,
                self.label == old(self).label,
                self.tray_result_type == old(self).tray_result_type,
                self@.dice.take(i as int) == before.take(i as int),
                self@.dice.skip(i as int) == dice_without_label(before.skip(i as int), label@),
                dice_views(removed@).reverse() == dice_with_label(before.skip(i as int), label@),
                removed@.len() == 0 ==> self.dice@ == old(self).dice@,
                removed@.len() > 0 <==> exists|k: int|
                    i <= k < before.len() && (#[trigger] before[k]).label == label@,
            decreases i,
        {
            let ghost current = self@.dice;
            let ghost taken = dice_views(removed@);
            i = i - 1;
            proof {
                lemma_remove_by_label_step(before, current, taken, i as int, label@);
            }
            if self.dice[i].has_label(label) {
                let die = self.dice.remove(i);
                removed.push(die);
            }
        }
        proof {
            assert(before.skip(0) =~= before);
            assert(self@.dice.skip(0) =~= self@.dice);
        }
        if removed.len() == 0 {
            Err(TrayError::UnknownLabel { label: String::from_str(label) })
        } else {
            Ok(removed)
        }
    }

    /// Whether the tray's result fits in 32 bits.
    pub fn result_fits(&self) -> (fits: bool)
        ensures
            fits == self@.result_fits(),
    {
        match self.tray_result_type {
            TrayResultType::Sum => {
                let ghost numbers = result_numbers(self@.dice);
                let mut sum: u32 = 0;
                let mut i: usize = 0;
                while i < self.dice.len()
                    invariant
                        0 <= i <= self.dice.len(),
                        self.tray_result_type == TrayResultType::Sum,
                        numbers == result_numbers(self@.dice),
                        sum == total(numbers.take(i as int)),
                    decreases self.dice.len() - i,
                {
                    let value = self.dice[i].get_result().is_num_or(0);
                    proof {
                        assert(numbers.take(i + 1).drop_last() =~= numbers.take(i as int));
                        lemma_total_prefix(numbers, i + 1);
                    }
                    if value > u32::MAX - sum {
                        return false;
                    }
                    sum = sum + value;
                    i = i + 1;
                }
                proof {
                    assert(numbers.take(i as int) =~= numbers);
                }
                true
            },
            _ => true,
        }
    }

    /// The one result of the tray, worked out afresh from the results of its
    /// dice. A die whose result is no number counts as `0`.
    pub fn get_result(&self) -> (result: TrayResult)
        requires
            self@.result_fits(),
        ensures
            result@ == self@.result(),
    {
        let ghost numbers = result_numbers(self@.dice);
        let n = self.dice.len();
        match self.tray_result_type {
            TrayResultType::Sum => {
                let mut sum: u32 = 0;
                let mut i: usize = 0;
                while i < n
                    invariant
                        0 <= i <= n,
                        n == self.dice.len(),
                        numbers == result_numbers(self@.dice),
                        total(numbers) <= u32::MAX,
                        sum == total(numbers.take(i as int)),
                    decreases n - i,
                {
                    let value = self.dice[i].get_result().is_num_or(0);
                    proof {
                        assert(numbers.take(i + 1).drop_last() =~= numbers.take(i as int));
                        lemma_total_prefix(numbers, i + 1);
                    }
                    sum = sum + value;
                    i = i + 1;
                }
                proof {
                    assert(numbers.take(i as int) =~= numbers);
                }
                TrayResult::Number(sum)
            },
            TrayResultType::Best => {
                if n == 0 {
                    return TrayResult::NoResult;
                }
                let mut best: u32 = self.dice[0].get_result().is_num_or(0);
                let mut i: usize = 1;
                while i < n
                    invariant
                        1 <= i <= n,
                        n == self.dice.len(),
                        numbers == result_numbers(self@.dice),
                        best == greatest(numbers.take(i as int)),
                    decreases n - i,
                {
                    let value = self.dice[i].get_result().is_num_or(0);
                    proof {
                        assert(numbers.take(i + 1).drop_last() =~= numbers.take(i as int));
                    }
                    if value > best {
                        best = value;
                    }
                    i = i + 1;
                }
                proof {
                    assert(numbers.take(i as int) =~= numbers);
                }
                TrayResult::Number(best)
            },
            TrayResultType::Worst => {
                if n == 0 {
                    return TrayResult::NoResult;
                }
                let mut worst: u32 = self.dice[0].get_result().is_num_or(0);
                let mut i: usize = 1;
                while i < n
                    invariant
                        1 <= i <= n,
                        n == self.dice.len(),
                        numbers == result_numbers(self@.dice),
                        worst == least(numbers.take(i as int)),
                    decreases n - i,
                {
                    let value = self.dice[i].get_result().is_num_or(0);
                    proof {
                        assert(numbers.take(i + 1).drop_last() =~= numbers.take(i as int));
                    }
                    if value < worst {
                        worst = value;
                    }
                    i = i + 1;
                }
                proof {
                    assert(numbers.take(i as int) =~= numbers);
                }
                TrayResult::Number(worst)
            },
        }
    }

    /// Puts the dice in the order that `sort_by` names: ascending by the face
    /// now showing, dice with equal faces keeping the order they had.
    pub fn sort(&mut self, sort_by: TraySortType)
        ensures
            final(self)@.label == old(self)@.label,
            final(self)@.result_type == old(self)@.result_type,
            is_stable_sort_by_face(old(self)@.dice, final(self)@.dice),
    {
        let ghost before = old(self)@.dice;
        let ghost mut from: Seq<int> = Seq::new(before.len(), |k: int| k);
        let n = self.dice.len();
        let mut done: usize = 0;
        while done < n
            invariant
                n == self.dice.len(),
                before == old(self)@.dice,
                self.label == old(self).label,
                self.tray_result_type == old(self).tray_result_type,
                sorted_up_to(before, self@.dice, from, done as int),
            decreases n - done,
        {
            let face = self.dice[done].get_current_face();
            let mut place: usize = done;
            while place > 0 && self.dice[place - 1].get_current_face() > face
                invariant
                    0 <= place <= done < n,
                    n == self.dice.len(),
                    face == self@.dice[done as int].current_face,
                    forall|k: int|
                        place <= k < done ==> (#[trigger] self@.dice[k]).current_face > face,
                decreases place,
            {
                place = place - 1;
            }
            let ghost current = self@.dice;
            proof {
                lemma_insertion_step(before, current, from, done as int, place as int);
                from = from.remove(done as int).insert(place as int, from[done as int]);
            }
            let die = self.dice.remove(done);
            self.dice.insert(place, die);
            done = done + 1;
        }
        assert(arranges_by_face(before, self@.dice, from));
    }

    /// A short listing of the tray: every die with its index, its label and
    /// its result.
    pub fn get_summary(&self) -> (summary: String)
        ensures
            summary@ == self@.summary(),
    {
        proof {
            reveal_strlit("@");
            reveal_strlit(":");
        }
        let mut summary = String::new();
        let mut i: usize = 0;
        while i < self.dice.len()
            invariant
                0 <= i <= self.dice.len(),
                summary@ == self@.summary_of(i as nat),
                "@"@ == seq!['@'],
                ":"@ == seq![':'],
            decreases self.dice.len() - i,
        {
            let ghost so_far = summary@;
            summary.append("@");
            summary.append(decimal_string(i as u64).as_str());
            summary.append(":");
            summary.append(self.dice[i].get_summary().as_str());
            assert(summary@ =~= so_far + seq!['@'] + crate::text::decimal(i as nat) + seq![':']
                + self@.dice[i as int].summary());
            i = i + 1;
        }
        summary
    }

    /// Gives the die at `index` another label, and hands back the label it
    /// had and the one it has. Fails, and changes nothing, where no die
    /// stands at `index`.
    pub fn set_identity_at(&mut self, index: usize, identity: String) -> (changed: Result<
        (String, String),
        TrayError,
    >)
        ensures
            match changed {
                Ok((was, is)) => {
                    &&& index < old(self)@.dice.len()
                    &&& was@ == old(self)@.dice[index as int].label
                    &&& is@ == identity@
                    &&& final(self)@ == old(self)@.with_dice(
                        old(self)@.dice.update(
                            index as int,
                            DieView { label: identity@, ..old(self)@.dice[index as int] },
                        ),
                    )
                },
                Err(e) => {
                    &&& index >= old(self)@.dice.len()
                    &&& e == (TrayError::IndexOutOfBounds {
                        index,
                        len: old(self)@.dice.len() as usize,
                    })
                    &&& final(self)@ == old(self)@
                },
            },
    {
        if index < self.dice.len() {
            let was = self.dice[index].get_label().to_string();
            let is = identity.clone();
            self.dice[index].set_identity(identity);
            assert(self@.dice =~= old(self)@.dice.update(
                index as int,
                DieView { label: identity@, ..old(self)@.dice[index as int] },
            )) by {
                assert forall|k: int| 0 <= k < self@.dice.len() implies self@.dice[k] == old(
                    self,
                )@.dice.update(
                    index as int,
                    DieView { label: identity@, ..old(self)@.dice[index as int] },
                )[k] by {
                }
            }
            Ok((was, is))
        } else {
            Err(TrayError::IndexOutOfBounds { index, len: self.dice.len() })
        }
    }

    /// Has the die at `index` take up `result_type`, without rolling it.
    /// Fails, and changes nothing, where no die stands at `index`.
    pub fn set_result_type_at(&mut self, index: usize, result_type: DieResultType) -> (changed:
        Result<(), TrayError>)
        requires
            old(self)@.wf(),
        ensures
            final(self)@.wf(),
            match changed {
                Ok(_) => {
                    &&& index < old(self)@.dice.len()
                    &&& old(self)@.switches_to(|i: int| i == index, result_type, final(self)@)
                },
                Err(e) => {
                    &&& index >= old(self)@.dice.len()
                    &&& e == (TrayError::IndexOutOfBounds {
                        index,
                        len: old(self)@.dice.len() as usize,
                    })
                    &&& final(self)@ == old(self)@
                },
            },
    {
        if index < self.dice.len() {
            assert(old(self)@.dice[index as int] == self.dice@[index as int]@);
            self.dice[index].set_result_type(result_type);
            assert forall|k: int| 0 <= k < self@.dice.len() implies {
                &&& (#[trigger] self@.dice[k]).wf()
                &&& self@.dice[k] == if k == index {
                    old(self)@.dice[k].switched(result_type)
                } else {
                    old(self)@.dice[k]
                }
            } by {
            }
            Ok(())
        } else {
            Err(TrayError::IndexOutOfBounds { index, len: self.dice.len() })
        }
    }

    /// Has every die with this label take up `result_type`, without rolling
    /// any. Fails, and changes nothing, where no die has the label.
    pub fn set_result_type_by_label(&mut self, label: &str, result_type: DieResultType) -> (changed:
        Result<(), TrayError>)
        requires
            old(self)@.wf(),
        ensures
            final(self)@.wf(),
            match changed {
                Ok(_) => {
                    &&& old(self)@.has_label(label@)
                    &&& old(self)@.switches_to(
                        |i: int| old(self)@.dice[i].label == label@,
                        result_type,
                        final(self)@,
                    )
                },
                Err(e) => {
                    &&& !old(self)@.has_label(label@)
                    &&& e@ == (TrayErrorView::UnknownLabel { label: label@ })
                    &&& final(self)@ == old(self)@
                },
            },
    {
        let mut hit: bool = false;
        let mut i: usize = 0;
        while i < self.dice.len()
            invariant
                0 <= i <= self.dice.len(),
                self.dice.len() == old(self).dice.len(),
                self.label == old(self).label,
                self.tray_result_type == old(self).tray_result_type,
                old(self)@.wf(),
                hit <==> exists|k: int| 0 <= k < i && (#[trigger] old(self)@.dice[k]).label == label@,
                forall|k: int|
                    0 <= k < i ==> {
                        &&& (#[trigger] self.dice@[k])@.wf()
                        &&& self.dice@[k]@ == if old(self).dice@[k]@.label == label@ {
                            old(self).dice@[k]@.switched(result_type)
                        } else {
                            old(self).dice@[k]@
                        }
                    },
                forall|k: int|
                    i <= k < self.dice.len() ==> (#[trigger] self.dice@[k])@ == old(self).dice@[k]@,
            decreases self.dice.len() - i,
        {
            assert(old(self)@.dice[i as int] == self.dice@[i as int]@);
            if self.dice[i].has_label(label) {
                self.dice[i].set_result_type(result_type);
                hit = true;
            }
            i = i + 1;
        }
        assert forall|k: int| 0 <= k < self@.dice.len() implies {
            &&& (#[trigger] self@.dice[k]).wf()
            &&& self@.dice[k] == if old(self)@.dice[k].label == label@ {
                old(self)@.dice[k].switched(result_type)
            } else {
                old(self)@.dice[k]
            }
        } by {
        }
        if hit {
            Ok(())
        } else {
            assert(self@.dice =~= old(self)@.dice);
            Err(TrayError::UnknownLabel { label: String::from_str(label) })
        }
    }

    /// Has every die of the tray take up `result_type`, without rolling any.
    pub fn set_all_result_type(&mut self, result_type: DieResultType)
        requires
            old(self)@.wf(),
        ensures
            final(self)@.wf(),
            old(self)@.switches_to(|i: int| true, result_type, final(self)@),
    {
        let mut i: usize = 0;
        while i < self.dice.len()
            invariant
                0 <= i <= self.dice.len(),
                self.dice.len() == old(self).dice.len(),
                self.label == old(self).label,
                self.tray_result_type == old(self).tray_result_type,
                old(self)@.wf(),
                forall|k: int|
                    0 <= k < i ==> {
                        &&& (#[trigger] self.dice@[k])@.wf()
                        &&& self.dice@[k]@ == old(self).dice@[k]@.switched(result_type)
                    },
                forall|k: int|
                    i <= k < self.dice.len() ==> (#[trigger] self.dice@[k])@ == old(self).dice@[k]@,
            decreases self.dice.len() - i,
        {
            assert(old(self)@.dice[i as int] == self.dice@[i as int]@);
            self.dice[i].set_result_type(result_type);
            i = i + 1;
        }
        assert forall|k: int| 0 <= k < self@.dice.len() implies {
            &&& (#[trigger] self@.dice[k]).wf()
            &&& self@.dice[k] == old(self)@.dice[k].switched(result_type)
        } by {
        }
    }

    /// Rolls every die that has this label and stands at one of the places
    /// given, and no other. Fails, and changes nothing, where there is no
    /// such die.
    pub fn roll_at_identities(
        &mut self,
        label: &str,
        indices: &Vec<usize>,
        result_type: Option<DieResultType>,
    ) -> (rolled: Result<(), TrayError>)
        requires
            old(self)@.wf(),
            forall|i: int|
                0 <= i < old(self)@.dice.len() && (#[trigger] old(self)@.dice[i]).label == label@
                    ==> old(self)@.dice[i].can_roll(result_type),
        ensures
            final(self)@.wf(),
            match rolled {
                Ok(_) => {
                    &&& exists|i: int|
                        0 <= i < old(self)@.dice.len() && (#[trigger] old(self)@.dice[i]).label
                            == label@ && indices@.contains(i as usize)
                    &&& old(self)@.rolls_to(
                        |i: int| old(self)@.dice[i].label == label@ && indices@.contains(i as usize),
                        result_type,
                        final(self)@,
                    )
                },
                Err(e) => {
                    &&& forall|i: int|
                        0 <= i < old(self)@.dice.len() && (#[trigger] old(self)@.dice[i]).label
                            == label@ ==> !indices@.contains(i as usize)
                    &&& e@ == (TrayErrorView::UnknownLabel { label: label@ })
                    &&& final(self)@ == old(self)@
                },
            },
    {
        let mut hit: bool = false;
        let mut i: usize = 0;
        while i < self.dice.len()
            invariant
                0 <= i <= self.dice.len(),
                self.dice.len() == old(self).dice.len(),
                self.label == old(self).label,
                self.tray_result_type == old(self).tray_result_type,
                old(self)@.wf(),
                forall|k: int|
                    0 <= k < old(self)@.dice.len() && (#[trigger] old(self)@.dice[k]).label
                        == label@ ==> old(self)@.dice[k].can_roll(result_type),
                hit <==> exists|k: int|
                    0 <= k < i && (#[trigger] old(self)@.dice[k]).label == label@
                        && indices@.contains(k as usize),
                forall|k: int|
                    0 <= k < i ==> {
                        &&& (#[trigger] self.dice@[k])@.wf()
                        &&& if old(self).dice@[k]@.label == label@ && indices@.contains(k as usize) {
                            old(self).dice@[k]@.rolls_to(result_type, self.dice@[k]@)
                        } else {
                            self.dice@[k]@ == old(self).dice@[k]@
                        }
                    },
                forall|k: int|
                    i <= k < self.dice.len() ==> (#[trigger] self.dice@[k])@ == old(self).dice@[k]@,
            decreases self.dice.len() - i,
        {
            assert(old(self)@.dice[i as int] == self.dice@[i as int]@);
            if self.dice[i].has_label(label) && holds_index(indices, i) {
                self.dice[i].roll(result_type);
                hit = true;
            }
            i = i + 1;
        }
        assert forall|k: int| 0 <= k < self@.dice.len() implies {
            &&& (#[trigger] self@.dice[k]).wf()
            &&& if old(self)@.dice[k].label == label@ && indices@.contains(k as usize) {
                old(self)@.dice[k].rolls_to(result_type, self@.dice[k])
            } else {
                self@.dice[k] == old(self)@.dice[k]
            }
        } by {
        }
        if hit {
            Ok(())
        } else {
            assert(self@.dice =~= old(self)@.dice);
            Err(TrayError::UnknownLabel { label: String::from_str(label) })
        }
    }

    /// Moves the die at `index` to the end of another tray. The die changes
    /// owner; it is never in both trays. Fails, and changes neither tray,
    /// where no die stands at `index`.
    pub fn move_die_to(&mut self, index: usize, to: &mut Tray) -> (moved: Result<(), TrayError>)
        ensures
            match moved {
                Ok(_) => {
                    &&& index < old(self)@.dice.len()
                    &&& final(self)@ == old(self)@.with_dice(
                        old(self)@.dice.remove(index as int),
                    )
                    &&& final(to)@ == old(to)@.with_dice(
                        old(to)@.dice.push(old(self)@.dice[index as int]),
                    )
                },
                Err(e) => {
                    &&& index >= old(self)@.dice.len()
                    &&& e == (TrayError::IndexOutOfBounds {
                        index,
                        len: old(self)@.dice.len() as usize,
                    })
                    &&& final(self)@ == old(self)@
                    &&& final(to)@ == old(to)@
                },
            },
    {
        match self.remove_at(index) {
            Ok(die) => {
                to.add_die(die);
                Ok(())
            },
            Err(e) => Err(e),
        }
    }
}

} // verus!
