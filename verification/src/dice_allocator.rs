//! Allocation: the counter that hands out ids, and the allocator that makes
//! dice and trays with them and keeps tray labels unique.

use crate::dice::{Die, DieView};
use crate::dice_builders::{build_error, is_fresh_die, new_die, BuildError};
use crate::dice_data::{CliTrayData, DieDataView, TrayDataView, TypedDieData};
use crate::dice_profile::{DieProfile, DieType};
use crate::text::{same_text, text_views};
use crate::tray::{Tray, TrayResultType, TrayView};
use vstd::prelude::*;

verus! {
/// Hands out ids for dice and for trays, each kind counted from `0` upward.
/// An id is never handed out twice.
#[derive(Debug)]
pub struct IdGenerator {
    next_die_id: usize,
    next_tray_id: usize,
}

/// The state of an id generator: the ids it hands out next.
pub struct IdGeneratorView {
    pub next_die_id: usize,
    pub next_tray_id: usize,
}

impl View for IdGenerator {
    type V = IdGeneratorView;

    closed spec fn view(&self) -> IdGeneratorView {
        IdGeneratorView { next_die_id: self.next_die_id, next_tray_id: self.next_tray_id }
    }
}

impl IdGenerator {
    /// A generator that has handed out nothing yet.
    pub fn new() -> (generator: IdGenerator)
        ensures
            generator@ == (IdGeneratorView { next_die_id: 0, next_tray_id: 0 }),
    {
        IdGenerator { next_die_id: 0, next_tray_id: 0 }
    }

    /// The next id for a die, or nothing once the ids have run out. Each id
    /// handed out is greater by one than the one before.
    pub fn get_die_id(&mut self) -> (id: Option<usize>)
        ensures
            match id {
                Some(id) => {
                    &&& id == old(self)@.next_die_id
                    &&& id < usize::MAX
                    &&& final(self)@ == (IdGeneratorView {
                        next_die_id: (id + 1) as usize,
                        ..old(self)@
                    })
                },
                None => old(self)@.next_die_id == usize::MAX && final(self)@ == old(self)@,
            },
    {
        if self.next_die_id == usize::MAX {
            return None;
        }
        let next_id = self.next_die_id;
        self.next_die_id = self.next_die_id + 1;
        Some(next_id)
    }

    /// The next id for a tray, or nothing once the ids have run out. Each id
    /// handed out is greater by one than the one before.
    pub fn get_tray_id(&mut self) -> (id: Option<usize>)
        ensures
            match id {
                Some(id) => {
                    &&& id == old(self)@.next_tray_id
                    &&& id < usize::MAX
                    &&& final(self)@ == (IdGeneratorView {
                        next_tray_id: (id + 1) as usize,
                        ..old(self)@
                    })
                },
                None => old(self)@.next_tray_id == usize::MAX && final(self)@ == old(self)@,
            },
    {
        if self.next_tray_id == usize::MAX {
            return None;
        }
        let next_id = self.next_tray_id;
        self.next_tray_id = self.next_tray_id + 1;
        Some(next_id)
    }

    /// How many more dice can get an id.
    pub fn die_ids_left(&self) -> (left: usize)
        ensures
            left == usize::MAX - self@.next_die_id,
    {
        usize::MAX - self.next_die_id
    }
}

/// Why the allocator made nothing.
#[derive(Debug, Clone, Copy, PartialEq, Eq, Structural)]
pub enum AllocError {
    /// Every id has been handed out.
    OutOfIds,
    /// The profile asks for a kind of die that cannot be built.
    UnsupportedDieType,
    /// A die needs one face at least.
    NoFaces,
    /// The saved data describes no die: its face is not one of its faces.
    InvalidData,
    /// A tray with this label exists already.
    DuplicateTray,
    /// No tray with this label exists.
    UnknownTray,
}

/// Makes the dice and trays of one application: every die gets an id of its
/// own, and no two trays get the same label.
#[derive(Debug)]
pub struct CliDiceAllocator {
    id_gen: IdGenerator,
    tray_labels: Vec<String>,
}

/// The state of an allocator.
pub struct AllocatorView {
    pub next_die_id: usize,
    pub tray_labels: Seq<Seq<char>>,
}

impl AllocatorView {
    /// No label is on the list twice.
    pub open spec fn wf(self) -> bool {
        forall|i: int, j: int|
            0 <= i < j < self.tray_labels.len() ==> #[trigger] self.tray_labels[i]
                != #[trigger] self.tray_labels[j]
    }

    /// A tray with this label exists.
    pub open spec fn has_tray(self, label: Seq<char>) -> bool {
        self.tray_labels.contains(label)
    }
}

impl View for CliDiceAllocator {
    type V = AllocatorView;

    closed spec fn view(&self) -> AllocatorView {
        AllocatorView {
            next_die_id: self.id_gen@.next_die_id,
            tray_labels: text_views(self.tray_labels@),
        }
    }
}

impl CliDiceAllocator {
    /// An allocator that has made nothing yet.
    pub fn new() -> (allocator: CliDiceAllocator)
        ensures
            allocator@.wf(),
            allocator@ == (AllocatorView { next_die_id: 0, tray_labels: Seq::empty() }),
    {
        let allocator = CliDiceAllocator { id_gen: IdGenerator::new(), tray_labels: Vec::new() };
        assert(allocator@.tray_labels =~= Seq::<Seq<char>>::empty());
        allocator
    }

    /// The id the next die gets.
    pub fn next_die_id(&self) -> (id: usize)
        ensures
            id == self@.next_die_id,
    {
        self.id_gen.next_die_id
    }

    /// Makes the die that `profile` describes, under the next id. Where no
    /// die is made, no id is used up.
    pub fn new_die(&mut self, profile: &DieProfile) -> (made: Result<Die, AllocError>)
        ensures
            match made {
                Ok(die) => {
                    &&& profile.die_type matches DieType::Numerical(faces)
                    &&& faces >= 1
                    &&& old(self)@.next_die_id < usize::MAX
                    &&& is_fresh_die(die@, old(self)@.next_die_id, profile@.label, faces as nat)
                    &&& final(self)@ == (AllocatorView {
                        next_die_id: (old(self)@.next_die_id + 1) as usize,
                        ..old(self)@
                    })
                },
                Err(e) => {
                    &&& final(self)@ == old(self)@
                    &&& e == (match build_error(profile.die_type) {
                        Some(BuildError::UnsupportedDieType) => AllocError::UnsupportedDieType,
                        Some(BuildError::NoFaces) => AllocError::NoFaces,
                        None => AllocError::OutOfIds,
                    })
                    &&& e == AllocError::OutOfIds ==> old(self)@.next_die_id == usize::MAX
                },
            },
    {
        match profile.die_type {
            DieType::Custom => {
                return Err(AllocError::UnsupportedDieType);
            },
            DieType::Numerical(faces) => {
                if faces == 0 {
                    return Err(AllocError::NoFaces);
                }
            },
        }
        let id = match self.id_gen.get_die_id() {
            Some(id) => id,
            None => {
                return Err(AllocError::OutOfIds);
            },
        };
        match new_die(id, profile) {
            Ok(die) => Ok(die),
            Err(BuildError::UnsupportedDieType) => Err(AllocError::UnsupportedDieType),
            Err(BuildError::NoFaces) => Err(AllocError::NoFaces),
        }
    }

    /// Builds a saved die again, under the next id. Where no die is made, no
    /// id is used up.
    pub fn new_die_from_data(&mut self, data: TypedDieData) -> (made: Result<Die, AllocError>)
        ensures
            match made {
                Ok(die) => {
                    &&& data@.is_valid()
                    &&& old(self)@.next_die_id < usize::MAX
                    &&& die@.wf()
                    &&& die@ == data@.restored(old(self)@.next_die_id)
                    &&& final(self)@ == (AllocatorView {
                        next_die_id: (old(self)@.next_die_id + 1) as usize,
                        ..old(self)@
                    })
                },
                Err(e) => {
                    &&& final(self)@ == old(self)@
                    &&& e == if !data@.is_valid() {
                        AllocError::InvalidData
                    } else {
                        AllocError::OutOfIds
                    }
                    &&& e == AllocError::OutOfIds ==> old(self)@.next_die_id == usize::MAX
                },
            },
    {
        if !data.is_valid() {
            return Err(AllocError::InvalidData);
        }
        match self.id_gen.get_die_id() {
            Some(id) => Ok(data.to_die(id)),
            None => Err(AllocError::OutOfIds),
        }
    }

    /// Whether a tray with this label exists.
    pub fn has_tray(&self, label: &str) -> (has: bool)
        ensures
            has == self@.has_tray(label@),
    {
        let mut i: usize = 0;
        while i < self.tray_labels.len()
            invariant
                0 <= i <= self.tray_labels.len(),
                forall|k: int| 0 <= k < i ==> (#[trigger] self@.tray_labels[k]) != label@,
            decreases self.tray_labels.len() - i,
        {
            assert(self@.tray_labels[i as int] == self.tray_labels@[i as int]@);
            if same_text(self.tray_labels[i].as_str(), label) {
                return true;
            }
            i = i + 1;
        }
        false
    }

    /// Makes an empty tray with this label. Refused where a tray with the
    /// label exists; the allocator is then left as it is.
    pub fn new_tray(&mut self, label: String) -> (made: Result<Tray, AllocError>)
        requires
            old(self)@.wf(),
        ensures
            final(self)@.wf(),
            match made {
                Ok(tray) => {
                    &&& !old(self)@.has_tray(label@)
                    &&& tray@.wf()
                    &&& tray@ == (TrayView {
                        label: label@,
                        dice: Seq::<DieView>::empty(),
                        result_type: TrayResultType::Sum,
                    })
                    &&& final(self)@ == (AllocatorView {
                        tray_labels: old(self)@.tray_labels.push(label@),
                        ..old(self)@
                    })
                },
                Err(e) => {
                    &&& old(self)@.has_tray(label@)
                    &&& e == AllocError::DuplicateTray
                    &&& final(self)@ == old(self)@
                },
            },
    {
        if self.has_tray(label.as_str()) {
            return Err(AllocError::DuplicateTray);
        }
        self.tray_labels.push(label.clone());
        assert(self@.tray_labels =~= old(self)@.tray_labels.push(label@));
        Ok(Tray::new(label))
    }

    /// Takes a tray's label off the list, as when the tray is destroyed: a
    /// new tray may then have it. Refused where no tray has the label.
    pub fn delete_tray(&mut self, label: &str) -> (deleted: Result<(), AllocError>)
        requires
            old(self)@.wf(),
        ensures
            final(self)@.wf(),
            final(self)@.next_die_id == old(self)@.next_die_id,
            match deleted {
                Ok(_) => {
                    &&& old(self)@.has_tray(label@)
                    &&& !final(self)@.has_tray(label@)
                    &&& final(self)@.tray_labels == old(self)@.tray_labels.remove(
                        old(self)@.tray_labels.index_of(label@),
                    )
                },
                Err(e) => {
                    &&& !old(self)@.has_tray(label@)
                    &&& e == AllocError::UnknownTray
                    &&& final(self)@ == old(self)@
                },
            },
    {
        let mut i: usize = 0;
        while i < self.tray_labels.len()
            invariant
                0 <= i <= self.tray_labels.len(),
                *self == *old(self),
                self@.wf(),
                forall|k: int| 0 <= k < i ==> (#[trigger] self@.tray_labels[k]) != label@,
            decreases self.tray_labels.len() - i,
        {
            assert(self@.tray_labels[i as int] == self.tray_labels@[i as int]@);
            if same_text(self.tray_labels[i].as_str(), label) {
                let ghost labels = self@.tray_labels;
                self.tray_labels.remove(i);
                proof {
                    assert(self@.tray_labels =~= labels.remove(i as int));
                    let found = labels.index_of(label@);
                }
                return Ok(());
            }
            i = i + 1;
        }
        Err(AllocError::UnknownTray)
    }

    /// Builds a saved tray again: an empty tray with the saved label, then
    /// each saved die in order, under the ids from the next one on. Nothing
    /// is made, and the allocator is left as it is, where the label is
    /// taken, a die cannot be built, or the ids do not reach.
    pub fn new_tray_from_data(&mut self, data: &CliTrayData) -> (made: Result<Tray, AllocError>)
        requires
            old(self)@.wf(),
        ensures
            final(self)@.wf(),
            match made {
                Ok(tray) => {
                    &&& !old(self)@.has_tray(data@.label)
                    &&& data@.is_valid()
                    &&& old(self)@.next_die_id + data@.dice.len() <= usize::MAX
                    &&& tray@.wf()
                    &&& tray@ == data@.restored(old(self)@.next_die_id)
                    &&& final(self)@ == (AllocatorView {
                        next_die_id: (old(self)@.next_die_id + data@.dice.len()) as usize,
                        tray_labels: old(self)@.tray_labels.push(data@.label),
                    })
                },
                Err(e) => {
                    &&& final(self)@ == old(self)@
                    &&& e == if old(self)@.has_tray(data@.label) {
                        AllocError::DuplicateTray
                    } else if !data@.is_valid() {
                        AllocError::InvalidData
                    } else {
                        AllocError::OutOfIds
                    }
                    &&& e == AllocError::OutOfIds ==> old(self)@.next_die_id + data@.dice.len()
                        > usize::MAX
                },
            },
    {
        if self.has_tray(data.get_label()) {
            return Err(AllocError::DuplicateTray);
        }
        if !data.is_valid() {
            return Err(AllocError::InvalidData);
        }
        let dice_data = data.get_dice_data();
        if dice_data.len() > self.id_gen.die_ids_left() {
            return Err(AllocError::OutOfIds);
        }
        let ghost first_id = self@.next_die_id;
        let mut dice: Vec<Die> = Vec::new();
        let mut i: usize = 0;
        while i < dice_data.len()
            invariant
                0 <= i <= dice_data.len(),
                crate::dice_data::data_views(dice_data@) == data@.dice,
                data@.is_valid(),
                first_id + dice_data.len() <= usize::MAX,
                self.tray_labels == old(self).tray_labels,
                self@.next_die_id == first_id + i,
                self.id_gen@.next_tray_id == old(self).id_gen@.next_tray_id,
                first_id == old(self)@.next_die_id,
                dice@.len() == i,
                forall|k: int|
                    0 <= k < i ==> {
                        &&& (#[trigger] dice@[k])@.wf()
                        &&& dice@[k]@ == data@.dice[k].restored((first_id + k) as usize)
                    },
            decreases dice_data.len() - i,
        {
            assert(data@.dice[i as int] == dice_data@[i as int]@);
            let datum = dice_data[i].clone();
            match self.id_gen.get_die_id() {
                Some(id) => {
                    dice.push(datum.to_die(id));
                },
                None => {
                },
            }
            i = i + 1;
        }
        let label = data.get_label().to_string();
        self.tray_labels.push(label.clone());
        assert(self@.tray_labels =~= old(self)@.tray_labels.push(data@.label));
        let mut tray = Tray::new(label);
        tray.add_dice(dice);
        proof {
            let want = data@.restored(first_id);
            assert(tray@.dice =~= want.dice);
        }
        Ok(tray)
    }
}

} // verus!
