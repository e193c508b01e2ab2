//! Shortcuts that build one die or a run of dice.

use crate::dice::{default_label, integrate, reset_value, Die, DieResultType, DieView};
use crate::dice_profile::{DieProfile, DieType};
use vstd::prelude::*;

verus! {
/// Why no die was built.
#[derive(Debug, Clone, Copy, PartialEq, Eq, Structural)]
pub enum BuildError {
    /// The profile asks for a kind of die that cannot be built.
    UnsupportedDieType,
    /// A die needs one face at least.
    NoFaces,
}

/// `die` is a newly made die with this id, label and face count: it reports
/// its face, and has been rolled once.
pub open spec fn is_fresh_die(die: DieView, id: usize, label: Option<Seq<char>>, faces: nat) -> bool {
    &&& die.wf()
    &&& die.id == id
    &&& die.label == (match label {
        Some(l) => l,
        None => default_label(faces),
    })
    &&& die.faces == faces
    &&& die.result_type == DieResultType::Face
    &&& die.accumulator == Some(die.current_face)
}

/// The error, if any, that stands in the way of a die of this kind.
pub open spec fn build_error(die_type: DieType) -> Option<BuildError> {
    match die_type {
        DieType::Custom => Some(BuildError::UnsupportedDieType),
        DieType::Numerical(faces) => if faces == 0 {
            Some(BuildError::NoFaces)
        } else {
            None
        },
    }
}

/// Builds the die that `profile` describes, under the id given.
pub fn new_die(id: usize, profile: &DieProfile) -> (built: Result<Die, BuildError>)
    ensures
        match built {
            Ok(die) => {
                &&& profile.die_type matches DieType::Numerical(faces)
                &&& faces >= 1
                &&& is_fresh_die(die@, id, profile@.label, faces as nat)
            },
            Err(e) => build_error(profile.die_type) == Some(e),
        },
{
    match profile.die_type {
        DieType::Numerical(faces) => {
            if faces == 0 {
                return Err(BuildError::NoFaces);
            }
            let label = match &profile.label {
                Some(l) => Some(l.clone()),
                None => None,
            };
            Ok(Die::new(id, label, faces, None))
        },
        DieType::Custom => Err(BuildError::UnsupportedDieType),
    }
}

/// Builds a die with numbered faces.
pub fn new_num_die(id: usize, label: Option<String>, faces: u32) -> (built: Result<Die, BuildError>)
    ensures
        match built {
            Ok(die) => faces >= 1 && is_fresh_die(
                die@,
                id,
                match label {
                    Some(l) => Some(l@),
                    None => None,
                },
                faces as nat,
            ),
            Err(e) => faces == 0 && e == BuildError::NoFaces,
        },
{
    let profile = DieProfile::new(label, DieType::Numerical(faces));
    new_die(id, &profile)
}

/// Builds `count` dice of `faces` faces each. Their ids are their places in
/// the run, from `0`; their labels are the default.
pub fn new_dice_set(count: usize, faces: u32) -> (built: Result<Vec<Die>, BuildError>)
    ensures
        match built {
            Ok(dice) => {
                &&& faces >= 1
                &&& dice@.len() == count
                &&& forall|i: int|
                    0 <= i < count ==> is_fresh_die(
                        (#[trigger] dice@[i])@,
                        i as usize,
                        None,
                        faces as nat,
                    )
            },
            Err(e) => faces == 0 && e == BuildError::NoFaces,
        },
{
    if faces == 0 {
        return Err(BuildError::NoFaces);
    }
    let mut dice: Vec<Die> = Vec::new();
    let mut i: usize = 0;
    while i < count
        invariant
            0 <= i <= count,
            faces >= 1,
            dice@.len() == i,
            forall|k: int|
                0 <= k < i ==> is_fresh_die((#[trigger] dice@[k])@, k as usize, None, faces as nat),
        decreases count - i,
    {
        dice.push(Die::new(i, None, faces, None));
        i = i + 1;
    }
    Ok(dice)
}

/// Builds one die for each face count given, in order. Their ids are their
/// places in the run; their labels are the default. Nothing is built where
/// one of the counts is `0`.
pub fn new_dice_from_vec(dice: Vec<u32>) -> (built: Result<Vec<Die>, BuildError>)
    ensures
        match built {
            Ok(made) => {
                &&& made@.len() == dice@.len()
                &&& forall|i: int| 0 <= i < dice@.len() ==> #[trigger] dice@[i] >= 1
                &&& forall|i: int|
                    0 <= i < dice@.len() ==> is_fresh_die(
                        (#[trigger] made@[i])@,
                        i as usize,
                        None,
                        dice@[i] as nat,
                    )
            },
            Err(e) => e == BuildError::NoFaces && exists|i: int|
                0 <= i < dice@.len() && #[trigger] dice@[i] == 0,
        },
{
    let mut made: Vec<Die> = Vec::new();
    let mut i: usize = 0;
    while i < dice.len()
        invariant
            0 <= i <= dice.len(),
            made@.len() == i,
            forall|k: int| 0 <= k < i ==> #[trigger] dice@[k] >= 1,
            forall|k: int|
                0 <= k < i ==> is_fresh_die(
                    (#[trigger] made@[k])@,
                    k as usize,
                    None,
                    dice@[k] as nat,
                ),
        decreases dice.len() - i,
    {
        let faces = dice[i];
        if faces == 0 {
            return Err(BuildError::NoFaces);
        }
        made.push(Die::new(i, None, faces, None));
        i = i + 1;
    }
    Ok(made)
}

/// Builds one die for each pair of label and face count, in order. Their ids
/// are their places in the run. Nothing is built where one of the counts is
/// `0`.
pub fn new_dice_from_vec_with_label(dice: Vec<(Option<String>, u32)>) -> (built: Result<
    Vec<Die>,
    BuildError,
>)
    ensures
        match built {
            Ok(made) => {
                &&& made@.len() == dice@.len()
                &&& forall|i: int| 0 <= i < dice@.len() ==> (#[trigger] dice@[i]).1 >= 1
                &&& forall|i: int|
                    0 <= i < dice@.len() ==> is_fresh_die(
                        (#[trigger] made@[i])@,
                        i as usize,
                        match dice@[i].0 {
                            Some(l) => Some(l@),
                            None => None,
                        },
                        dice@[i].1 as nat,
                    )
            },
            Err(e) => e == BuildError::NoFaces && exists|i: int|
                0 <= i < dice@.len() && (#[trigger] dice@[i]).1 == 0,
        },
{
    let mut made: Vec<Die> = Vec::new();
    let mut i: usize = 0;
    while i < dice.len()
        invariant
            0 <= i <= dice.len(),
            made@.len() == i,
            forall|k: int| 0 <= k < i ==> (#[trigger] dice@[k]).1 >= 1,
            forall|k: int|
                0 <= k < i ==> is_fresh_die(
                    (#[trigger] made@[k])@,
                    k as usize,
                    match dice@[k].0 {
                        Some(l) => Some(l@),
                        None => None,
                    },
                    dice@[k].1 as nat,
                ),
        decreases dice.len() - i,
    {
        let faces = dice[i].1;
        if faces == 0 {
            return Err(BuildError::NoFaces);
        }
        let label = match &dice[i].0 {
            Some(l) => Some(l.clone()),
            None => None,
        };
        made.push(Die::new(i, label, faces, None));
        i = i + 1;
    }
    Ok(made)
}

} // verus!
