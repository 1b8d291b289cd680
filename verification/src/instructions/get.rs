//! Reading the flags of an instruction file.

use vstd::prelude::*;
use crate::fixed::in_range;
use crate::instructions::document::as_flag;
use crate::instructions::document::as_float_bits;
use crate::instructions::document::as_text;
use crate::instructions::document::member;
use crate::instructions::document::member_of;
use crate::instructions::document::Node;
use crate::instructions::document::node_of;
use crate::instructions::LoadError;
use crate::instructions::Looking;
use crate::instructions::parse::coords_of;
use crate::instructions::parse::quantity_of;
use crate::instructions::parse::to_coords;
use crate::instructions::parse::to_quantity;
use crate::vectors::Vector3D;

verus! {

/// The flag that `table` holds under `key`: the truth value found there,
/// or else `default`, or else `false`. A member that is not a boolean
/// counts as missing.
pub open spec fn flag_of(table: toml::Value, key: Seq<char>, default: Option<bool>) -> bool {
    match member_of(table, key) {
        Some(found) => match node_of(found) {
            Node::Boolean(flag) => flag,
            _ => default.unwrap_or(false),
        },
        None => default.unwrap_or(false),
    }
}

/// Reads the flag that `table` holds under `key`.
pub fn flag(table: &toml::Value, key: &str, default: Option<bool>) -> (out: bool)
    ensures
        out == flag_of(*table, key@, default),
{
    let fallback: bool = match default {
        Some(value) => value,
        None => false,
    };
    match member(table, key) {
        Some(found) => match as_flag(found) {
            Some(value) => value,
            None => fallback,
        },
        None => fallback,
    }
}

/// Whether the hand stack is to be reset.
pub fn reset_hand_stack(table: &toml::Value, default: Option<bool>) -> (out: bool)
    ensures
        out == flag_of(*table, "reset_hand_stack"@, default),
{
    flag(table, "reset_hand_stack", default)
}

/// Whether the secondary button is to be held.
pub fn repeat_right_click(table: &toml::Value, default: Option<bool>) -> (out: bool)
    ensures
        out == flag_of(*table, "repeat_right_click"@, default),
{
    flag(table, "repeat_right_click", default)
}

/// Whether the agent is to face its heading before it moves.
pub fn rotate_before_walk(table: &toml::Value, default: Option<bool>) -> (out: bool)
    ensures
        out == flag_of(*table, "rotate_before_walk"@, default),
{
    flag(table, "rotate_before_walk", default)
}

/// Whether the agent may run.
pub fn allow_run(table: &toml::Value, default: Option<bool>) -> (out: bool)
    ensures
        out == flag_of(*table, "allow_run"@, default),
{
    flag(table, "allow_run", default)
}

/// Whether the agent may sneak.
pub fn allow_sneak(table: &toml::Value, default: Option<bool>) -> (out: bool)
    ensures
        out == flag_of(*table, "allow_sneak"@, default),
{
    flag(table, "allow_sneak", default)
}

/// Whether the agent is to look downwards.
pub fn look_downwards(table: &toml::Value, default: Option<bool>) -> (out: bool)
    ensures
        out == flag_of(*table, "look_downwards"@, default),
{
    flag(table, "look_downwards", default)
}

/// Whether the waypoints of a path are to be taken from the last to the
/// first.
pub fn reverse(table: &toml::Value, default: Option<bool>) -> (out: bool)
    ensures
        out == flag_of(*table, "reverse"@, default),
{
    flag(table, "reverse", default)
}

/// The word that `table` holds under `action`, if it holds a string
/// there.
pub open spec fn action_word_of(table: toml::Value) -> Option<Seq<char>> {
    match member_of(table, "action"@) {
        Some(found) => match node_of(found) {
            Node::Text(word) => Some(word),
            _ => None,
        },
        None => None,
    }
}

/// Reads the word that `table` holds under `action`.
pub fn action<'a>(table: &'a toml::Value) -> (out: Option<&'a str>)
    ensures
        out matches Some(word) ==> action_word_of(*table) == Some(word@),
        out is None ==> action_word_of(*table) is None,
{
    match member(table, "action") {
        Some(found) => as_text(found),
        None => None,
    }
}

/// Where `table` has the agent look, if what it holds under `looking`
/// will do. Without a word on it the agent looks to the front. A float is
/// a heading to keep, and must lie within the engine's range. A string
/// means to look back if it is `back`, and to the front otherwise.
/// Nothing else will do.
pub open spec fn looking_of(table: toml::Value) -> Option<Looking> {
    match member_of(table, "looking"@) {
        None => Some(Looking::Front),
        Some(found) => match node_of(found) {
            Node::Float(_) => match quantity_of(found) {
                Some(heading) => Some(Looking::Direction(heading)),
                None => None,
            },
            Node::Text(word) => if word == "back"@ {
                Some(Looking::Back)
            } else {
                Some(Looking::Front)
            },
            _ => None,
        },
    }
}

/// Reads where `table` has the agent look.
pub fn looking(table: &toml::Value) -> (out: Option<Looking>)
    ensures
        out == looking_of(*table),
        out matches Some(Looking::Direction(heading)) ==> in_range(heading as int),
{
    match member(table, "looking") {
        None => Some(Looking::Front),
        Some(found) => {
            match as_text(found) {
                Some(word) => {
                    if same_text(word, "back") {
                        Some(Looking::Back)
                    } else {
                        Some(Looking::Front)
                    }
                },
                None => match as_float_bits(found) {
                    Some(_) => match to_quantity(found) {
                        Some(heading) => Some(Looking::Direction(heading)),
                        None => None,
                    },
                    None => None,
                },
            }
        },
    }
}

/// The point that `table` holds under `to`, the older name of a
/// waypoint's destination.
pub open spec fn to_of(table: toml::Value) -> Result<Vector3D, LoadError> {
    match member_of(table, "to"@) {
        Some(found) => coords_of(found),
        None => Err(LoadError::MissingDestination),
    }
}

/// Reads the point that `table` holds under `to`.
pub fn to(table: &toml::Value) -> (out: Result<Vector3D, LoadError>)
    ensures
        out == to_of(*table),
        out matches Ok(point) ==> in_range(point.x as int) && in_range(point.y as int) && in_range(
            point.z as int,
        ),
{
    match member(table, "to") {
        Some(found) => to_coords(found),
        None => Err(LoadError::MissingDestination),
    }
}

/// Whether two texts are the same.
pub fn same_text(left: &str, right: &str) -> (out: bool)
    ensures
        out == (left@ == right@),
{
    left.to_owned() == right.to_owned()
}

} // verus!
