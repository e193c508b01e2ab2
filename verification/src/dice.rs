//! A single die: identity, face count, the face now showing, a private random
//! stream, and a result that accumulates over rolls by the die's result type.

use crate::tally::{greatest, least, total};
use crate::text::{decimal, decimal_string, same_text};
use rand::rngs::SmallRng;
use rand::Rng;
use rand::SeedableRng;
use vstd::prelude::*;
use vstd::string::StringExecFns;

verus! {
/// The generator each die owns. Its state is opaque here: nothing is known of
/// it but what the functions that draw from it promise.
#[verifier::external_type_specification]
#[verifier::external_body]
pub struct ExSmallRng(rand::rngs::SmallRng);

/// How a die derives its result from its rolls.
#[derive(Debug, Clone, Copy, PartialEq, Eq, Structural)]
pub enum DieResultType {
    /// The face now showing.
    Face,
    /// The highest face since the type was chosen.
    Best,
    /// The lowest face since the type was chosen.
    Worst,
    /// The total of the faces since the type was chosen.
    Sum,
    /// An entry of a result table, looked up outside the die.
    Table,
}

/// The result type that a one-letter code selects: `f` the face, `b` the
/// best, `w` the worst, `e` the sum.
pub open spec fn result_type_for_code(code: char) -> Option<DieResultType> {
    if code == 'f' {
        Some(DieResultType::Face)
    } else if code == 'b' {
        Some(DieResultType::Best)
    } else if code == 'w' {
        Some(DieResultType::Worst)
    } else if code == 'e' {
        Some(DieResultType::Sum)
    } else {
        None
    }
}

impl DieResultType {
    /// The result type that a one-letter code selects, if it selects one.
    pub fn from_code(code: char) -> (result_type: Option<DieResultType>)
        ensures
            result_type == result_type_for_code(code),
    {
        if code == 'f' {
            Some(DieResultType::Face)
        } else if code == 'b' {
            Some(DieResultType::Best)
        } else if code == 'w' {
            Some(DieResultType::Worst)
        } else if code == 'e' {
            Some(DieResultType::Sum)
        } else {
            None
        }
    }
}

/// What a die reports as its result.
#[derive(Debug, PartialEq, Eq)]
pub enum DieResult {
    Number(u32),
    String(String),
    NoResult,
}

impl Clone for DieResult {
    fn clone(&self) -> (copy: Self)
        ensures
            copy == *self,
    {
        match self {
            DieResult::Number(n) => DieResult::Number(*n),
            DieResult::String(s) => DieResult::String(s.clone()),
            DieResult::NoResult => DieResult::NoResult,
        }
    }
}

/// The mathematical content of a [`DieResult`].
pub enum DieResultView {
    Number(nat),
    Text(Seq<char>),
    Absent,
}

impl View for DieResult {
    type V = DieResultView;

    open spec fn view(&self) -> DieResultView {
        match self {
            DieResult::Number(n) => DieResultView::Number(*n as nat),
            DieResult::String(s) => DieResultView::Text(s@),
            DieResult::NoResult => DieResultView::Absent,
        }
    }
}

impl DieResultView {
    /// The number held, or `default_num` where no number is held.
    pub open spec fn num_or(self, default_num: nat) -> nat {
        match self {
            DieResultView::Number(n) => n,
            _ => default_num,
        }
    }

    /// The accumulator that a saved result restores.
    pub open spec fn as_accumulator(self) -> Option<nat> {
        match self {
            DieResultView::Number(n) => Some(n),
            _ => None,
        }
    }
}

impl DieResult {
    /// The number held, or `default_num` for a text or an absent result.
    pub fn is_num_or(&self, default_num: u32) -> (n: u32)
        ensures
            n == self@.num_or(default_num as nat),
    {
        match self {
            DieResult::Number(x) => *x,
            _ => default_num,
        }
    }
}

/// The accumulator a die starts from when it takes up `result_type`.
pub open spec fn reset_value(result_type: DieResultType, faces: nat) -> Option<nat> {
    match result_type {
        DieResultType::Face => Some(0),
        DieResultType::Best => Some(1),
        DieResultType::Worst => Some(faces),
        DieResultType::Sum => Some(0),
        DieResultType::Table => None,
    }
}

/// The accumulator after a roll that showed `face`, given the one before it.
pub open spec fn integrate(
    result_type: DieResultType,
    previous: Option<nat>,
    face: nat,
    faces: nat,
) -> Option<nat> {
    match result_type {
        DieResultType::Face => Some(face),
        DieResultType::Best => {
            let last = match previous {
                Some(v) => v,
                None => 1,
            };
            Some(if face > last { face } else { last })
        },
        DieResultType::Worst => {
            let last = match previous {
                Some(v) => v,
                None => faces,
            };
            Some(if face < last { face } else { last })
        },
        DieResultType::Sum => {
            let last = match previous {
                Some(v) => v,
                None => 0,
            };
            Some(last + face)
        },
        DieResultType::Table => None,
    }
}

/// The label a die gets when none is supplied: `d` and the face count.
pub open spec fn default_label(faces: nat) -> Seq<char> {
    seq!['d'] + decimal(faces)
}

/// The visible state of a die. The random stream is not part of it.
pub struct DieView {
    pub id: usize,
    pub label: Seq<char>,
    pub faces: nat,
    pub current_face: nat,
    pub accumulator: Option<nat>,
    pub result_type: DieResultType,
    pub seed: u64,
}

impl DieView {
    /// The face shows a side that the die has, and every number fits the
    /// machine type that holds it.
    pub open spec fn wf(self) -> bool {
        &&& 1 <= self.current_face <= self.faces <= u32::MAX
        &&& self.accumulator matches Some(a) ==> a <= u32::MAX
    }

    /// The die after it takes up `result_type`: unchanged where it has that
    /// type already, else with the accumulator reset for the new type.
    pub open spec fn switched(self, result_type: DieResultType) -> DieView {
        if result_type == self.result_type {
            self
        } else {
            DieView {
                accumulator: reset_value(result_type, self.faces),
                result_type,
                ..self
            }
        }
    }

    /// The die after it lands on `face` under its present result type.
    pub open spec fn landed(self, face: nat) -> DieView {
        DieView {
            current_face: face,
            accumulator: integrate(self.result_type, self.accumulator, face, self.faces),
            ..self
        }
    }

    /// The result type in force for a roll that asks for `wanted`.
    pub open spec fn effective_type(self, wanted: Option<DieResultType>) -> DieResultType {
        match wanted {
            Some(t) => t,
            None => self.result_type,
        }
    }

    /// The die after one roll that asked for `wanted` and showed `face`.
    pub open spec fn rolled(self, wanted: Option<DieResultType>, face: nat) -> DieView {
        self.switched(self.effective_type(wanted)).landed(face)
    }

    /// A roll that asks for `wanted` and shows `face` leaves an accumulator
    /// that fits in 32 bits.
    pub open spec fn roll_fits(self, wanted: Option<DieResultType>, face: nat) -> bool {
        self.rolled(wanted, face).accumulator matches Some(a) ==> a <= u32::MAX
    }

    /// A roll that asks for `wanted` fits whatever face it shows.
    pub open spec fn can_roll(self, wanted: Option<DieResultType>) -> bool {
        self.roll_fits(wanted, self.faces)
    }

    /// The die after a run of rolls that each asked for `wanted` and showed
    /// the faces of `faces`, in that order.
    pub open spec fn rolled_all(self, wanted: Option<DieResultType>, faces: Seq<nat>) -> DieView
        decreases faces.len(),
    {
        if faces.len() == 0 {
            self
        } else {
            self.rolled_all(wanted, faces.drop_last()).rolled(wanted, faces.last())
        }
    }

    /// `after` is this die after one roll that asked for `wanted`: it shows
    /// one of the die's faces, and the result took that face in.
    pub open spec fn rolls_to(self, wanted: Option<DieResultType>, after: DieView) -> bool {
        &&& 1 <= after.current_face <= self.faces
        &&& after == self.rolled(wanted, after.current_face)
    }

    /// The result the die reports.
    pub open spec fn result(self) -> DieResultView {
        match self.accumulator {
            Some(v) => DieResultView::Number(v),
            None => DieResultView::Absent,
        }
    }

    /// One line on the die: its label, `=`, and its result in decimal, or
    /// `None` where it has no result.
    pub open spec fn summary(self) -> Seq<char> {
        self.label + seq!['='] + match self.accumulator {
            Some(v) => decimal(v),
            None => "None"@,
        }
    }

    /// The face after one step up, `1` following the highest face.
    pub open spec fn incremented(self) -> DieView {
        DieView {
            current_face: if self.current_face >= self.faces {
                1
            } else {
                self.current_face + 1
            },
            ..self
        }
    }

    /// The face after one step down, the highest face following `1`.
    pub open spec fn decremented(self) -> DieView {
        DieView {
            current_face: if self.current_face <= 1 {
                self.faces
            } else {
                (self.current_face - 1) as nat
            },
            ..self
        }
    }

    /// `value` brought into the range of the die's faces.
    pub open spec fn clamped(self, value: nat) -> nat {
        if value < 1 {
            1
        } else if value > self.faces {
            self.faces
        } else {
            value
        }
    }
}

/// A die that is asked for the type it has is not changed by the asking.
pub proof fn lemma_same_type_is_no_change(die: DieView)
    ensures
        die.switched(die.result_type) == die,
        die.rolled(Some(die.result_type), die.current_face) == die.rolled(
            None,
            die.current_face,
        ),
{
}

/// A roll that asks for another type than the die has starts from the reset
/// value of the new type, whatever the die had accumulated: the result is
/// the face just shown for every type that counts, and absent for a table.
pub proof fn lemma_type_change_resets(die: DieView, wanted: DieResultType, face: nat)
    requires
        wanted != die.result_type,
        1 <= face <= die.faces,
    ensures
        die.switched(wanted).accumulator == reset_value(wanted, die.faces),
        die.rolled(Some(wanted), face).result_type == wanted,
        die.rolled(Some(wanted), face).accumulator == integrate(
            wanted,
            reset_value(wanted, die.faces),
            face,
            die.faces,
        ),
        die.rolled(Some(wanted), face).accumulator == if wanted == DieResultType::Table {
            None
        } else {
            Some(face)
        },
{
}

/// Rolls keep the die's type once it is taken up, and leave identity, label,
/// face count and seed alone.
pub proof fn lemma_rolls_keep_the_die(die: DieView, wanted: Option<DieResultType>, faces: Seq<nat>)
    ensures
        die.rolled_all(wanted, faces).id == die.id,
        die.rolled_all(wanted, faces).label == die.label,
        die.rolled_all(wanted, faces).faces == die.faces,
        die.rolled_all(wanted, faces).seed == die.seed,
        faces.len() > 0 ==> die.rolled_all(wanted, faces).result_type == die.effective_type(
            wanted,
        ),
        faces.len() > 0 ==> die.rolled_all(wanted, faces).current_face == faces.last(),
        faces.len() == 0 ==> die.rolled_all(wanted, faces) == die,
    decreases faces.len(),
{
    if faces.len() > 0 {
        lemma_rolls_keep_the_die(die, wanted, faces.drop_last());
    }
}

/// A summing die holds, after any number of rolls, what it held when it took
/// up summing plus every face it showed since: `0` plus the faces where the
/// first of the rolls made it a summing die.
pub proof fn lemma_sum_is_total_of_faces(
    die: DieView,
    wanted: Option<DieResultType>,
    faces: Seq<nat>,
)
    requires
        die.effective_type(wanted) == DieResultType::Sum,
        faces.len() > 0,
    ensures
        die.rolled_all(wanted, faces).accumulator == Some(
            (match die.switched(DieResultType::Sum).accumulator {
                Some(held) => held,
                None => 0,
            }) + total(faces),
        ),
        die.result_type != DieResultType::Sum ==> die.rolled_all(wanted, faces).accumulator
            == Some(total(faces)),
    decreases faces.len(),
{
    let earlier = faces.drop_last();
    lemma_rolls_keep_the_die(die, wanted, earlier);
    if earlier.len() > 0 {
        lemma_sum_is_total_of_faces(die, wanted, earlier);
    } else {
        assert(total(earlier) == 0);
    }
}

/// The result of a die that keeps the best face never drops with a roll: it
/// is the higher of what it was and the face shown.
pub proof fn lemma_best_never_drops(die: DieView, held: nat, face: nat)
    requires
        die.result_type == DieResultType::Best,
        die.accumulator == Some(held),
    ensures
        die.rolled(None, face).accumulator == Some(if face > held { face } else { held }),
        die.rolled(None, face).accumulator->0 >= held,
        die.rolled(None, face).accumulator->0 >= face,
{
}

/// The result of a die that keeps the worst face never rises with a roll: it
/// is the lower of what it was and the face shown.
pub proof fn lemma_worst_never_rises(die: DieView, held: nat, face: nat)
    requires
        die.result_type == DieResultType::Worst,
        die.accumulator == Some(held),
    ensures
        die.rolled(None, face).accumulator == Some(if face < held { face } else { held }),
        die.rolled(None, face).accumulator->0 <= held,
        die.rolled(None, face).accumulator->0 <= face,
{
}

/// A die that a roll makes keep the best face holds, after that roll and any
/// number more, the greatest of the faces shown.
pub proof fn lemma_best_is_greatest_face(die: DieView, faces: Seq<nat>)
    requires
        die.result_type != DieResultType::Best,
        faces.len() > 0,
        forall|i: int| 0 <= i < faces.len() ==> 1 <= #[trigger] faces[i],
    ensures
        die.rolled_all(Some(DieResultType::Best), faces).accumulator == Some(greatest(faces)),
    decreases faces.len(),
{
    let wanted = Some(DieResultType::Best);
    let earlier = faces.drop_last();
    lemma_rolls_keep_the_die(die, wanted, earlier);
    if earlier.len() > 0 {
        lemma_best_is_greatest_face(die, earlier);
    }
}

/// A die that a roll makes keep the worst face holds, after that roll and
/// any number more, the least of the faces shown.
pub proof fn lemma_worst_is_least_face(die: DieView, faces: Seq<nat>)
    requires
        die.result_type != DieResultType::Worst,
        faces.len() > 0,
        forall|i: int| 0 <= i < faces.len() ==> #[trigger] faces[i] <= die.faces,
    ensures
        die.rolled_all(Some(DieResultType::Worst), faces).accumulator == Some(least(faces)),
    decreases faces.len(),
{
    let wanted = Some(DieResultType::Worst);
    let earlier = faces.drop_last();
    lemma_rolls_keep_the_die(die, wanted, earlier);
    if earlier.len() > 0 {
        lemma_worst_is_least_face(die, earlier);
    }
}

/// A well-formed die stays well formed through a roll that shows one of its
/// faces and leaves a result that fits.
pub proof fn lemma_roll_keeps_well_formed(die: DieView, wanted: Option<DieResultType>, face: nat)
    requires
        die.wf(),
        1 <= face <= die.faces,
        die.roll_fits(wanted, face),
    ensures
        die.rolled(wanted, face).wf(),
        1 <= die.rolled(wanted, face).current_face <= die.rolled(wanted, face).faces,
{
}

/// One die. It owns its random stream; two dice never share one, so a die
/// cannot be cloned.
#[derive(Debug)]
pub struct Die {
    id: usize,
    label: String,
    faces: u32,
    current_face: u32,
    current_result_value: Option<u32>,
    result_type: DieResultType,
    rng_seed: u64,
    rng: SmallRng,
}

impl View for Die {
    type V = DieView;

    closed spec fn view(&self) -> DieView {
        DieView {
            id: self.id,
            label: self.label@,
            faces: self.faces as nat,
            current_face: self.current_face as nat,
            accumulator: match self.current_result_value {
                Some(v) => Some(v as nat),
                None => None,
            },
            result_type: self.result_type,
            seed: self.rng_seed,
        }
    }
}

/// Takes a seed from the thread's generator, by `rand::random`. Nothing is
/// promised of the value.
#[verifier::external_body]
fn fresh_seed() -> u64 {
    rand::random::<u64>()
}

/// Builds a die's generator from a seed, by `SmallRng::seed_from_u64`. The
/// generator is opaque, so nothing is stated of it.
#[verifier::external_body]
fn seeded_rng(seed: u64) -> SmallRng {
    SmallRng::seed_from_u64(seed)
}

/// Draws from `low..=high` by `Rng::random_range`, which panics on an empty
/// range and otherwise returns a value of the range. Which value is not
/// stated: it depends on the generator's state.
#[verifier::external_body]
fn draw_in_range(rng: &mut SmallRng, low: u32, high: u32) -> (drawn: u32)
    requires
        low <= high,
    ensures
        low <= drawn <= high,
{
    rng.random_range(low..=high)
}

impl Die {
    /// Restores a die from saved state without rolling it. The generator
    /// restarts from `seed`.
    pub fn from_saved(
        id: usize,
        label: String,
        faces: u32,
        seed: u64,
        current_face: u32,
        current_result: DieResult,
        result_type: DieResultType,
    ) -> (die: Die)
        requires
            1 <= current_face <= faces,
        ensures
            die@.wf(),
            die@ == (DieView {
                id,
                label: label@,
                faces: faces as nat,
                current_face: current_face as nat,
                accumulator: current_result@.as_accumulator(),
                result_type,
                seed,
            }),
    {
        let current_result_value = match current_result {
            DieResult::Number(n) => Some(n),
            _ => None,
        };
        Die {
            id,
            label,
            faces,
            current_face,
            current_result_value,
            result_type,
            rng_seed: seed,
            rng: seeded_rng(seed),
        }
    }

    /// The die lands on `face`: the roll without the draw. A request for
    /// another result type resets the accumulator first.
    pub fn land(&mut self, result_type: Option<DieResultType>, face: u32)
        requires
            old(self)@.wf(),
            1 <= face <= old(self)@.faces,
            old(self)@.roll_fits(result_type, face as nat),
        ensures
            final(self)@.wf(),
            final(self)@ == old(self)@.rolled(result_type, face as nat),
    {
        if let Some(wanted) = result_type {
            self.set_result_type(wanted);
        }
        self.current_face = face;
        self.update_result();
    }

    /// Rolls the die: draws a face from its own stream, after a reset of the
    /// accumulator where `result_type` asks for another type than the die has.
    pub fn roll(&mut self, result_type: Option<DieResultType>)
        requires
            old(self)@.wf(),
            old(self)@.can_roll(result_type),
        ensures
            final(self)@.wf(),
            1 <= final(self)@.current_face <= final(self)@.faces,
            final(self)@ == old(self)@.rolled(result_type, final(self)@.current_face),
            old(self)@.rolls_to(result_type, final(self)@),
    {
        let face = draw_in_range(&mut self.rng, 1, self.faces);
        self.land(result_type, face);
    }

    /// Takes up `new_result_type`. Nothing changes where the die has that
    /// type already; otherwise the accumulator is reset for the new type.
    pub fn set_result_type(&mut self, new_result_type: DieResultType)
        requires
            old(self)@.wf(),
        ensures
            final(self)@.wf(),
            final(self)@ == old(self)@.switched(new_result_type),
    {
        if self.result_type == new_result_type {
            return ;
        }
        self.current_result_value = match new_result_type {
            DieResultType::Table => None,
            DieResultType::Best => Some(1),
            DieResultType::Worst => Some(self.faces),
            DieResultType::Sum => Some(0),
            DieResultType::Face => Some(0),
        };
        self.result_type = new_result_type;
    }

    /// Brings the accumulator up to date with the face now showing.
    fn update_result(&mut self)
        requires
            old(self)@.wf(),
            integrate(
                old(self)@.result_type,
                old(self)@.accumulator,
                old(self)@.current_face,
                old(self)@.faces,
            ) matches Some(a) ==> a <= u32::MAX,
        ensures
            final(self)@ == old(self)@.landed(old(self)@.current_face),
            final(self)@.wf(),
    {
        match self.result_type {
            DieResultType::Face => {
                self.current_result_value = Some(self.current_face);
            },
            DieResultType::Best => {
                let last_result = match self.current_result_value {
                    Some(v) => v,
                    None => 1,
                };
                if self.current_face > last_result {
                    self.current_result_value = Some(self.current_face);
                } else {
                    self.current_result_value = Some(last_result);
                }
            },
            DieResultType::Worst => {
                let last_result = match self.current_result_value {
                    Some(v) => v,
                    None => self.faces,
                };
                if self.current_face < last_result {
                    self.current_result_value = Some(self.current_face);
                } else {
                    self.current_result_value = Some(last_result);
                }
            },
            DieResultType::Sum => {
                let last_result = match self.current_result_value {
                    Some(v) => v,
                    None => 0,
                };
                self.current_result_value = Some(last_result + self.current_face);
            },
            DieResultType::Table => {
                self.current_result_value = None;
            },
        }
    }
}

impl Die {
    /// Makes a die with a fresh random stream and rolls it once, so that it
    /// starts on a face it really showed. Without a label it is named `d`
    /// and its face count; without a result type it reports its face.
    pub fn new(
        id: usize,
        label: Option<String>,
        faces: u32,
        result_type: Option<DieResultType>,
    ) -> (die: Die)
        requires
            faces >= 1,
        ensures
            die@.wf(),
            die@.id == id,
            die@.label == (match label {
                Some(l) => l@,
                None => default_label(faces as nat),
            }),
            die@.faces == faces,
            die@.result_type == (match result_type {
                Some(t) => t,
                None => DieResultType::Face,
            }),
            die@.accumulator == integrate(
                die@.result_type,
                reset_value(die@.result_type, faces as nat),
                die@.current_face,
                faces as nat,
            ),
    {
        let kind = match result_type {
            Some(t) => t,
            None => DieResultType::Face,
        };
        let label = match label {
            Some(l) => l,
            None => {
                proof {
                    reveal_strlit("d");
                }
                let mut name = String::from_str("d");
                name.append(decimal_string(faces as u64).as_str());
                name
            },
        };
        let start = match kind {
            DieResultType::Table => None,
            DieResultType::Best => Some(1),
            DieResultType::Worst => Some(faces),
            DieResultType::Sum => Some(0),
            DieResultType::Face => Some(0),
        };
        let seed = fresh_seed();
        let mut die = Die {
            id,
            label,
            faces,
            current_face: 1,
            current_result_value: start,
            result_type: kind,
            rng_seed: seed,
            rng: seeded_rng(seed),
        };
        die.roll(None);
        die
    }

    /// Whether a roll that asks for `result_type` is sure to leave a result
    /// that fits in 32 bits.
    pub fn can_roll(&self, result_type: Option<DieResultType>) -> (fits: bool)
        requires
            self@.wf(),
        ensures
            fits == self@.can_roll(result_type),
    {
        let kind = match result_type {
            Some(t) => t,
            None => self.result_type,
        };
        if kind == DieResultType::Sum {
            let base = if kind == self.result_type {
                match self.current_result_value {
                    Some(v) => v,
                    None => 0,
                }
            } else {
                0
            };
            base <= u32::MAX - self.faces
        } else {
            true
        }
    }

    /// The die's identity, unique among the dice of one allocator.
    pub fn get_id(&self) -> (id: usize)
        ensures
            id == self@.id,
    {
        self.id
    }

    /// The die's label. Several dice may share one.
    pub fn get_label(&self) -> (label: &str)
        ensures
            label@ == self@.label,
    {
        self.label.as_str()
    }

    /// Whether the die has this label.
    pub fn has_label(&self, label: &str) -> (has: bool)
        ensures
            has == (self@.label == label@),
    {
        same_text(self.label.as_str(), label)
    }

    /// The die's label, under the name it had when labels were identities.
    pub fn get_identity(&self) -> (label: &str)
        ensures
            label@ == self@.label,
    {
        self.label.as_str()
    }

    /// Gives the die another label.
    pub fn set_identity(&mut self, identity: String)
        ensures
            final(self)@ == (DieView { label: identity@, ..old(self)@ }),
    {
        self.label = identity;
    }

    /// The number of faces.
    pub fn get_face_count(&self) -> (faces: u32)
        ensures
            faces == self@.faces,
    {
        self.faces
    }

    /// The face now showing.
    pub fn get_current_face(&self) -> (face: u32)
        ensures
            face == self@.current_face,
    {
        self.current_face
    }

    /// The seed the die's random stream was started from.
    pub fn get_rng_seed(&self) -> (seed: u64)
        ensures
            seed == self@.seed,
    {
        self.rng_seed
    }

    /// The accumulated number, if the die holds one.
    pub fn get_result_value(&self) -> (value: Option<u32>)
        ensures
            match value {
                Some(v) => self@.accumulator == Some(v as nat),
                None => self@.accumulator is None,
            },
    {
        self.current_result_value
    }

    /// The result type now in force.
    pub fn get_result_type(&self) -> (result_type: &DieResultType)
        ensures
            *result_type == self@.result_type,
    {
        &self.result_type
    }

    /// The accumulated result: a number, or no result where the die holds
    /// none.
    pub fn get_result(&self) -> (result: DieResult)
        ensures
            result@ == self@.result(),
    {
        match self.current_result_value {
            Some(v) => DieResult::Number(v),
            None => DieResult::NoResult,
        }
    }

    /// One line on the die: its label and its result.
    pub fn get_summary(&self) -> (line: String)
        ensures
            line@ == self@.summary(),
    {
        proof {
            reveal_strlit("=");
        }
        let mut line = self.label.clone();
        line.append("=");
        match self.current_result_value {
            Some(v) => line.append(decimal_string(v as u64).as_str()),
            None => line.append("None"),
        }
        line
    }

    /// Whether the lowest face shows.
    pub fn is_min(&self) -> (lowest: bool)
        ensures
            lowest == (self@.current_face == 1),
    {
        self.current_face == 1
    }

    /// Whether the highest face shows.
    pub fn is_max(&self) -> (highest: bool)
        ensures
            highest == (self@.current_face == self@.faces),
    {
        self.current_face == self.faces
    }

    /// Shows `face`, brought into the die's range. The result is left as it
    /// is: this turns the die by hand, it is no roll.
    pub fn set_current_face(&mut self, face: u32)
        requires
            old(self)@.wf(),
        ensures
            final(self)@.wf(),
            final(self)@ == (DieView {
                current_face: old(self)@.clamped(face as nat),
                ..old(self)@
            }),
    {
        self.current_face = self.clamp_to_bounds(face);
    }

    /// `value` brought into the range of the die's faces.
    fn clamp_to_bounds(&self, value: u32) -> (clamped: u32)
        ensures
            clamped == self@.clamped(value as nat),
    {
        if value < 1 {
            1
        } else if value > self.faces {
            self.faces
        } else {
            value
        }
    }

    /// Turns the die one face up; after the highest face comes `1`. The
    /// result is left as it is.
    pub fn increment(&mut self)
        requires
            old(self)@.wf(),
        ensures
            final(self)@.wf(),
            final(self)@ == old(self)@.incremented(),
    {
        if self.current_face >= self.faces {
            self.current_face = 1;
        } else {
            self.current_face = self.current_face + 1;
        }
    }

    /// Turns the die one face down; after `1` comes the highest face. The
    /// result is left as it is.
    pub fn decrement(&mut self)
        requires
            old(self)@.wf(),
        ensures
            final(self)@.wf(),
            final(self)@ == old(self)@.decremented(),
    {
        if self.current_face <= 1 {
            self.current_face = self.faces;
        } else {
            self.current_face = self.current_face - 1;
        }
    }
}

} // verus!
