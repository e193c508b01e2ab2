//! Saved dice and trays: what has to be kept of a die or a tray so that it
//! can be built again later, and the way there and back.

use crate::dice::{Die, DieResult, DieResultType, DieResultView, DieView};
use crate::tray::{Tray, TrayResultType, TrayView};
use vstd::prelude::*;

verus! {
/// What is kept of a die with numbered faces. The id is not kept: a die gets
/// a new one when it is built again.
#[derive(Debug, PartialEq, Eq)]
pub struct DieData32 {
    rng_seed: u64,
    label: String,
    faces: u32,
    current_face: u32,
    current_result: DieResult,
    current_result_type: DieResultType,
}

/// The mathematical content of saved die data.
pub struct DieDataView {
    pub seed: u64,
    pub label: Seq<char>,
    pub faces: nat,
    pub current_face: nat,
    pub current_result: DieResultView,
    pub current_result_type: DieResultType,
}

impl DieDataView {
    /// What is kept of `die`.
    pub open spec fn of(die: DieView) -> DieDataView {
        DieDataView {
            seed: die.seed,
            label: die.label,
            faces: die.faces,
            current_face: die.current_face,
            current_result: die.result(),
            current_result_type: die.result_type,
        }
    }

    /// The data describes a die: the face it shows is one of its faces.
    pub open spec fn is_valid(self) -> bool {
        1 <= self.current_face <= self.faces
    }

    /// The die that is built from the data under the id given.
    pub open spec fn restored(self, id: usize) -> DieView {
        DieView {
            id,
            label: self.label,
            faces: self.faces,
            current_face: self.current_face,
            accumulator: self.current_result.as_accumulator(),
            result_type: self.current_result_type,
            seed: self.seed,
        }
    }
}

impl View for DieData32 {
    type V = DieDataView;

    closed spec fn view(&self) -> DieDataView {
        DieDataView {
            seed: self.rng_seed,
            label: self.label@,
            faces: self.faces as nat,
            current_face: self.current_face as nat,
            current_result: self.current_result@,
            current_result_type: self.current_result_type,
        }
    }
}

impl Clone for DieData32 {
    fn clone(&self) -> (copy: Self)
        ensures
            copy == *self,
    {
        DieData32 {
            rng_seed: self.rng_seed,
            label: self.label.clone(),
            faces: self.faces,
            current_face: self.current_face,
            current_result: self.current_result.clone(),
            current_result_type: self.current_result_type,
        }
    }
}

impl DieData32 {
    /// Die data with these contents.
    pub fn new(
        rng_seed: u64,
        label: String,
        faces: u32,
        current_face: u32,
        current_result: DieResult,
        current_result_type: DieResultType,
    ) -> (data: DieData32)
        ensures
            data@ == (DieDataView {
                seed: rng_seed,
                label: label@,
                faces: faces as nat,
                current_face: current_face as nat,
                current_result: current_result@,
                current_result_type,
            }),
    {
        DieData32 { rng_seed, label, faces, current_face, current_result, current_result_type }
    }

    /// The seed of the die's random stream.
    pub fn get_seed(&self) -> (seed: u64)
        ensures
            seed == self@.seed,
    {
        self.rng_seed
    }

    /// The die's label.
    pub fn get_label(&self) -> (label: &str)
        ensures
            label@ == self@.label,
    {
        self.label.as_str()
    }

    /// The number of faces.
    pub fn get_faces(&self) -> (faces: u32)
        ensures
            faces == self@.faces,
    {
        self.faces
    }

    /// The face the die showed.
    pub fn get_current_face(&self) -> (face: u32)
        ensures
            face == self@.current_face,
    {
        self.current_face
    }

    /// The result the die had.
    pub fn get_current_result(&self) -> (result: &DieResult)
        ensures
            result@ == self@.current_result,
    {
        &self.current_result
    }

    /// The result type the die had.
    pub fn get_current_result_type(&self) -> (result_type: &DieResultType)
        ensures
            *result_type == self@.current_result_type,
    {
        &self.current_result_type
    }

    /// Whether the data describes a die.
    pub fn is_valid(&self) -> (valid: bool)
        ensures
            valid == self@.is_valid(),
    {
        1 <= self.current_face && self.current_face <= self.faces
    }
}

/// Saved die data, tagged with the kind of die it belongs to.
#[derive(Debug, PartialEq, Eq)]
pub enum TypedDieData {
    Die32(DieData32),
}

impl View for TypedDieData {
    type V = DieDataView;

    open spec fn view(&self) -> DieDataView {
        match self {
            TypedDieData::Die32(data) => data@,
        }
    }
}

impl Clone for TypedDieData {
    fn clone(&self) -> (copy: Self)
        ensures
            copy == *self,
    {
        match self {
            TypedDieData::Die32(data) => TypedDieData::Die32(data.clone()),
        }
    }
}

impl TypedDieData {
    /// Whether the data describes a die.
    pub fn is_valid(&self) -> (valid: bool)
        ensures
            valid == self@.is_valid(),
    {
        match self {
            TypedDieData::Die32(data) => data.is_valid(),
        }
    }

    /// Builds the die again, under the id given. It is not rolled: it shows
    /// the face and holds the result that were saved.
    pub fn to_die(self, id: usize) -> (die: Die)
        requires
            self@.is_valid(),
        ensures
            die@.wf(),
            die@ == self@.restored(id),
    {
        match self {
            TypedDieData::Die32(data) => Die::from_saved(
                id,
                data.label,
                data.faces,
                data.rng_seed,
                data.current_face,
                data.current_result,
                data.current_result_type,
            ),
        }
    }
}

/// Kinds of die data: each can be taken from a die.
pub trait DieData {
    /// What is kept of `die`.
    fn from_die(die: &Die) -> (data: TypedDieData)
        ensures
            data@ == DieDataView::of(die@),
    ;
}

impl DieData for DieData32 {
    fn from_die(die: &Die) -> (data: TypedDieData) {
        TypedDieData::Die32(
            DieData32 {
                rng_seed: die.get_rng_seed(),
                label: die.get_label().to_string(),
                faces: die.get_face_count(),
                current_face: die.get_current_face(),
                current_result: die.get_result(),
                current_result_type: *die.get_result_type(),
            },
        )
    }
}

/// The mathematical content of saved tray data.
pub struct TrayDataView {
    pub label: Seq<char>,
    pub dice: Seq<DieDataView>,
}

impl TrayDataView {
    /// What is kept of `tray`: its label, and the data of its dice in order.
    pub open spec fn of(tray: TrayView) -> TrayDataView {
        TrayDataView { label: tray.label, dice: tray.dice.map_values(|d: DieView| DieDataView::of(d)) }
    }

    /// Every die of the data can be built.
    pub open spec fn is_valid(self) -> bool {
        forall|i: int| 0 <= i < self.dice.len() ==> (#[trigger] self.dice[i]).is_valid()
    }

    /// The tray that is built from the data, its dice getting the ids from
    /// `first_id` on. It sums the results of its dice, as a new tray does.
    pub open spec fn restored(self, first_id: usize) -> TrayView {
        TrayView {
            label: self.label,
            dice: Seq::new(self.dice.len(), |i: int| self.dice[i].restored((first_id + i) as usize)),
            result_type: TrayResultType::Sum,
        }
    }
}

/// Kinds of tray data: each can be taken from a tray.
pub trait TrayData: Sized {
    /// What the data holds.
    spec fn saved(&self) -> TrayDataView;

    /// What is kept of `tray`.
    fn from_tray(tray: &Tray) -> (data: Self)
        ensures
            data.saved() == TrayDataView::of(tray@),
    ;
}

/// What is kept of a tray: its label and the data of its dice.
#[derive(Debug, PartialEq, Eq)]
pub struct CliTrayData {
    label: String,
    dice_data: Vec<TypedDieData>,
}

/// The contents of a run of die data, in order.
pub open spec fn data_views(data: Seq<TypedDieData>) -> Seq<DieDataView> {
    data.map_values(|d: TypedDieData| d@)
}

impl View for CliTrayData {
    type V = TrayDataView;

    closed spec fn view(&self) -> TrayDataView {
        TrayDataView { label: self.label@, dice: data_views(self.dice_data@) }
    }
}

impl CliTrayData {
    /// Tray data with these contents.
    pub fn new(label: String, dice_data: Vec<TypedDieData>) -> (data: CliTrayData)
        ensures
            data@ == (TrayDataView { label: label@, dice: data_views(dice_data@) }),
    {
        CliTrayData { label, dice_data }
    }

    /// The tray's label.
    pub fn get_label(&self) -> (label: &str)
        ensures
            label@ == self@.label,
    {
        self.label.as_str()
    }

    /// The data of the tray's dice, in order.
    pub fn get_dice_data(&self) -> (dice_data: Vec<TypedDieData>)
        ensures
            data_views(dice_data@) == self@.dice,
    {
        let mut dice_data: Vec<TypedDieData> = Vec::new();
        let mut i: usize = 0;
        while i < self.dice_data.len()
            invariant
                0 <= i <= self.dice_data.len(),
                dice_data@ == self.dice_data@.take(i as int),
            decreases self.dice_data.len() - i,
        {
            dice_data.push(self.dice_data[i].clone());
            i = i + 1;
        }
        dice_data
    }

    /// Whether every die of the data can be built.
    pub fn is_valid(&self) -> (valid: bool)
        ensures
            valid == self@.is_valid(),
    {
        let mut i: usize = 0;
        while i < self.dice_data.len()
            invariant
                0 <= i <= self.dice_data.len(),
                forall|k: int| 0 <= k < i ==> (#[trigger] self@.dice[k]).is_valid(),
            decreases self.dice_data.len() - i,
        {
            assert(self@.dice[i as int] == self.dice_data@[i as int]@);
            if !self.dice_data[i].is_valid() {
                return false;
            }
            i = i + 1;
        }
        true
    }
}

impl TrayData for CliTrayData {
    open spec fn saved(&self) -> TrayDataView {
        self@
    }

    fn from_tray(tray: &Tray) -> (data: Self) {
        let dice = tray.get_dice();
        let mut dice_data: Vec<TypedDieData> = Vec::new();
        let mut i: usize = 0;
        while i < dice.len()
            invariant
                0 <= i <= dice.len(),
                dice_data@.len() == i,
                forall|k: int|
                    0 <= k < i ==> (#[trigger] dice_data@[k])@ == DieDataView::of(dice@[k]@),
            decreases dice.len() - i,
        {
            dice_data.push(DieData32::from_die(&dice[i]));
            i = i + 1;
        }
        let data = CliTrayData { label: tray.get_id().to_string(), dice_data };
        proof {
            let want = TrayDataView::of(tray@);
            assert(data@.dice =~= want.dice);
        }
        data
    }
}

/// A die that is saved and built again is the die it was: label, face
/// count, face, result, result type and seed are those it had. Only the id
/// is the one it is given anew.
pub proof fn lemma_die_survives_saving(die: DieView, id: usize)
    requires
        die.wf(),
    ensures
        DieDataView::of(die).is_valid(),
        DieDataView::of(die).restored(id) == (DieView { id, ..die }),
        DieDataView::of(die).restored(id).wf(),
        DieDataView::of(DieDataView::of(die).restored(id)) == DieDataView::of(die),
{
}

/// A tray that is saved and built again holds the dice it held, in the order
/// it held them, each as it was but for its id.
pub proof fn lemma_tray_survives_saving(tray: TrayView, first_id: usize)
    requires
        tray.wf(),
    ensures
        TrayDataView::of(tray).is_valid(),
        TrayDataView::of(tray).restored(first_id).label == tray.label,
        TrayDataView::of(tray).restored(first_id).dice.len() == tray.dice.len(),
        TrayDataView::of(tray).restored(first_id).wf(),
        forall|i: int|
            0 <= i < tray.dice.len() ==> #[trigger] TrayDataView::of(tray).restored(
                first_id,
            ).dice[i] == (DieView { id: (first_id + i) as usize, ..tray.dice[i] }),
{
    let data = TrayDataView::of(tray);
    assert forall|i: int| 0 <= i < tray.dice.len() implies #[trigger] data.restored(
        first_id,
    ).dice[i] == (DieView { id: (first_id + i) as usize, ..tray.dice[i] }) by {
        lemma_die_survives_saving(tray.dice[i], (first_id + i) as usize);
    }
    assert forall|i: int| 0 <= i < data.dice.len() implies (#[trigger] data.dice[i]).is_valid() by {
        lemma_die_survives_saving(tray.dice[i], first_id);
    }
}

} // verus!
