//! Reading what a waypoint and its path say of an instruction.

use vstd::prelude::*;
use vstd::string::StrSliceExecFns;
use crate::fixed::in_range;
use crate::instructions::Action;
use crate::instructions::document::as_text;
use crate::instructions::document::member;
use crate::instructions::document::member_of;
use crate::instructions::document::Node;
use crate::instructions::document::node_of;
use crate::instructions::get::action_word_of;
use crate::instructions::get::same_text;
use crate::instructions::get;
use crate::instructions::LoadError;
use crate::instructions::Looking;
use crate::instructions::parse::coords_of;
use crate::instructions::parse::to_coords;
use crate::vectors::Vector3D;

verus! {

/// The action that a word of the file names: `walk` means to walk, `fly`
/// to fly, and every other word to interact.
pub open spec fn action_named(word: Seq<char>) -> Action {
    if word == "walk"@ {
        Action::Walk
    } else if word == "fly"@ {
        Action::Fly
    } else {
        Action::RightClick
    }
}

/// The action of a waypoint: it must name one.
pub open spec fn action_of(waypoint: toml::Value) -> Result<Action, LoadError> {
    match action_word_of(waypoint) {
        Some(word) => Ok(action_named(word)),
        None => Err(LoadError::MissingAction),
    }
}

/// Reads the action of a waypoint.
pub fn get_action(table: &toml::Value) -> (out: Result<Action, LoadError>)
    ensures
        out == action_of(*table),
{
    match get::action(table) {
        Some(word) => {
            if same_text(word, "walk") {
                Ok(Action::Walk)
            } else if same_text(word, "fly") {
                Ok(Action::Fly)
            } else {
                Ok(Action::RightClick)
            }
        },
        None => Err(LoadError::MissingAction),
    }
}

/// The destination of a waypoint: the point under `destination`. It must
/// have one, and a well-formed one.
pub open spec fn destination_of(waypoint: toml::Value) -> Result<Vector3D, LoadError> {
    match member_of(waypoint, "destination"@) {
        Some(found) => coords_of(found),
        None => Err(LoadError::MissingDestination),
    }
}

/// Reads the destination of a waypoint.
pub fn get_destination(table: &toml::Value) -> (out: Result<Vector3D, LoadError>)
    ensures
        out == destination_of(*table),
        out matches Ok(point) ==> in_range(point.x as int) && in_range(point.y as int) && in_range(
            point.z as int,
        ),
{
    match member(table, "destination") {
        Some(found) => to_coords(found),
        None => Err(LoadError::MissingDestination),
    }
}

/// Where a waypoint has the agent look; what it holds under `looking`
/// must do.
pub open spec fn looking_of(waypoint: toml::Value) -> Result<Looking, LoadError> {
    match get::looking_of(waypoint) {
        Some(looking) => Ok(looking),
        None => Err(LoadError::MalformedLooking),
    }
}

/// Reads where a waypoint has the agent look.
pub fn get_looking(table: &toml::Value) -> (out: Result<Looking, LoadError>)
    ensures
        out == looking_of(*table),
        out matches Ok(Looking::Direction(heading)) ==> in_range(heading as int),
{
    match get::looking(table) {
        Some(looking) => Ok(looking),
        None => Err(LoadError::MalformedLooking),
    }
}

/// Whether `slot` is a digit, as the keys of the hand slots are.
pub open spec fn is_slot(slot: char) -> bool {
    '0' <= slot <= '9'
}

/// The hand slot that `table` names: the first character of the string
/// under `hand_slot`, which must be a digit. Without that member, or with
/// an empty string, it is `default`. A member that is not a string will
/// not do.
pub open spec fn hand_slot_of(table: toml::Value, default: char) -> Result<char, LoadError> {
    match member_of(table, "hand_slot"@) {
        None => Ok(default),
        Some(found) => match node_of(found) {
            Node::Text(word) => if word.len() == 0 {
                Ok(default)
            } else if is_slot(word[0]) {
                Ok(word[0])
            } else {
                Err(LoadError::MalformedHandSlot)
            },
            _ => Err(LoadError::MalformedHandSlot),
        },
    }
}

/// Reads the hand slot that `table` names.
pub fn get_hand_slot(table: &toml::Value, default: char) -> (out: Result<char, LoadError>)
    ensures
        out == hand_slot_of(*table, default),
{
    match member(table, "hand_slot") {
        None => Ok(default),
        Some(found) => match as_text(found) {
            Some(word) => {
                if word.unicode_len() == 0 {
                    Ok(default)
                } else {
                    let slot = word.get_char(0);
                    if '0' <= slot && slot <= '9' {
                        Ok(slot)
                    } else {
                        Err(LoadError::MalformedHandSlot)
                    }
                }
            },
            None => Err(LoadError::MalformedHandSlot),
        },
    }
}

/// The name of a path: the string under `name`, or `Unknown` without that
/// member. A member that is not a string will not do.
pub open spec fn name_of(table: toml::Value) -> Result<Seq<char>, LoadError> {
    match member_of(table, "name"@) {
        None => Ok("Unknown"@),
        Some(found) => match node_of(found) {
            Node::Text(word) => Ok(word),
            _ => Err(LoadError::MalformedName),
        },
    }
}

/// Reads the name of a path.
pub fn get_name(table: &toml::Value) -> (out: Result<String, LoadError>)
    ensures
        out matches Ok(name) ==> name_of(*table) == Ok::<Seq<char>, LoadError>(name@),
        out matches Err(error) ==> name_of(*table) == Err::<Seq<char>, LoadError>(error),
{
    match member(table, "name") {
        None => Ok("Unknown".to_owned()),
        Some(found) => match as_text(found) {
            Some(word) => Ok(word.to_owned()),
            None => Err(LoadError::MalformedName),
        },
    }
}

} // verus!
