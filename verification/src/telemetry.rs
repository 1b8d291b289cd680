//! Decoding telemetry: from the bytes of a message to a snapshot.
//!
//! A message is a JSON object with the position under `coords` (`x`, `y`,
//! `z`) and the orientation of the head under `head` (`yaw`, `y`). The
//! JSON parser is not verified; what is taken on trust of it stands at
//! the head of this file.

use vstd::prelude::*;
use crate::fixed::from_bits;
use crate::fixed::in_range;
use crate::fixed::thousandths;
use crate::minecraft_resource::MinecraftResource;
use crate::minecraft_resource::PlayerHead;
use crate::minecraft_resource::PlayerPosition;

verus! {

/// `serde_json::Value`, a parsed JSON value. Nothing is known of one but
/// what the functions below tell.
#[verifier::external_type_specification]
#[verifier::external_body]
pub struct ExJson(serde_json::Value);

/// `serde_json::Error`, the reason why bytes are no JSON text.
#[verifier::external_type_specification]
#[verifier::external_body]
pub struct ExJsonError(serde_json::Error);

/// What a JSON value is, as far as telemetry needs to know. A number
/// stands as the bits of the binary floating-point number of 64 bits that
/// it is read as; the members of an object are values again.
pub enum JsonNode {
    Number(u64),
    Object(Map<Seq<char>, serde_json::Value>),
    Other,
}

/// The JSON value that `bytes` parse to, if they are a JSON text.
pub uninterp spec fn json_of(bytes: Seq<u8>) -> Option<serde_json::Value>;

/// What `value` is.
pub uninterp spec fn json_node_of(value: serde_json::Value) -> JsonNode;

/// The member of an object under `key`. Only an object has members.
pub open spec fn json_member_of(value: serde_json::Value, key: Seq<char>) -> Option<
    serde_json::Value,
> {
    match json_node_of(value) {
        JsonNode::Object(members) => if members.contains_key(key) {
            Some(members[key])
        } else {
            None
        },
        _ => None,
    }
}

/// The bits of a number. Only a number has them.
pub open spec fn json_number_of(value: serde_json::Value) -> Option<u64> {
    match json_node_of(value) {
        JsonNode::Number(bits) => Some(bits),
        _ => None,
    }
}

/// `serde_json::from_slice` for a `serde_json::Value`: parsing depends on
/// the bytes alone, so the same bytes give the same value or fail alike.
#[verifier::external_body]
fn parse_json(bytes: &[u8]) -> (out: Result<serde_json::Value, serde_json::Error>)
    ensures
        out matches Ok(value) ==> json_of(bytes@) == Some(value),
        out is Err ==> json_of(bytes@) is None,
{
    serde_json::from_slice::<serde_json::Value>(bytes)
}

/// `serde_json::Value::get` with a string: the member of an object under
/// that key, and nothing for a missing key or a value that is not an
/// object.
#[verifier::external_body]
fn json_member<'a>(value: &'a serde_json::Value, key: &str) -> (out: Option<&'a serde_json::Value>)
    ensures
        out matches Some(found) ==> json_member_of(*value, key@) == Some(*found),
        out is None ==> json_member_of(*value, key@) is None,
{
    value.get(key)
}

/// `serde_json::Value::as_f64`, the float handed over as its bits: a
/// number read as a float, be it written as an integer or not, and
/// nothing for any other value.
#[verifier::external_body]
fn json_number(value: &serde_json::Value) -> (out: Option<u64>)
    ensures
        out matches Some(bits) ==> json_node_of(*value) == JsonNode::Number(bits),
        out is None ==> json_node_of(*value) !is Number,
{
    value.as_f64().map(|float| float.to_bits())
}

/// The reading under `field` in the object under `group`, as a
/// fixed-point quantity: there is one if both members are there and the
/// inner one is a number within the engine's range.
pub open spec fn reading_of(json: serde_json::Value, group: Seq<char>, field: Seq<char>) -> Option<
    i64,
> {
    match json_member_of(json, group) {
        None => None,
        Some(object) => match json_member_of(object, field) {
            None => None,
            Some(found) => match json_number_of(found) {
                None => None,
                Some(bits) => thousandths(bits),
            },
        },
    }
}

/// The snapshot that a JSON message holds: there is one if all five
/// readings are there.
pub open spec fn json_snapshot(json: serde_json::Value) -> Option<MinecraftResource> {
    if reading_of(json, "coords"@, "x"@) is Some && reading_of(json, "coords"@, "y"@) is Some
        && reading_of(json, "coords"@, "z"@) is Some && reading_of(json, "head"@, "yaw"@) is Some
        && reading_of(json, "head"@, "y"@) is Some {
        Some(
            MinecraftResource {
                player_position: PlayerPosition {
                    x: reading_of(json, "coords"@, "x"@)->0,
                    y: reading_of(json, "coords"@, "y"@)->0,
                    z: reading_of(json, "coords"@, "z"@)->0,
                },
                player_head: PlayerHead {
                    yaw: reading_of(json, "head"@, "yaw"@)->0,
                    y: reading_of(json, "head"@, "y"@)->0,
                },
            },
        )
    } else {
        None
    }
}

/// The snapshot that the bytes of a message hold: there is one if the
/// bytes are a JSON text with all five readings.
pub open spec fn snapshot_of(bytes: Seq<u8>) -> Option<MinecraftResource> {
    match json_of(bytes) {
        None => None,
        Some(json) => json_snapshot(json),
    }
}

/// Takes one reading out of a JSON message.
pub fn reading(json: &serde_json::Value, group: &str, field: &str) -> (out: Option<i64>)
    ensures
        out == reading_of(*json, group@, field@),
        out matches Some(quantity) ==> in_range(quantity as int),
{
    match json_member(json, group) {
        None => None,
        Some(object) => match json_member(object, field) {
            None => None,
            Some(found) => match json_number(found) {
                None => None,
                Some(bits) => from_bits(bits),
            },
        },
    }
}

/// Takes the snapshot out of a JSON message.
pub fn snapshot_from_json(json: &serde_json::Value) -> (out: Option<MinecraftResource>)
    ensures
        out == json_snapshot(*json),
        out matches Some(resource) ==> resource.in_range(),
{
    match (
        reading(json, "coords", "x"),
        reading(json, "coords", "y"),
        reading(json, "coords", "z"),
        reading(json, "head", "yaw"),
        reading(json, "head", "y"),
    ) {
        (Some(x), Some(y), Some(z), Some(yaw), Some(pitch)) => Some(
            MinecraftResource {
                player_position: PlayerPosition { x, y, z },
                player_head: PlayerHead { yaw, y: pitch },
            },
        ),
        _ => None,
    }
}

/// Decodes a telemetry message. A message that cannot be decoded is to be
/// dropped: the snapshot before it stays in force.
pub fn decode(bytes: &[u8]) -> (out: Option<MinecraftResource>)
    ensures
        out == snapshot_of(bytes@),
        out matches Some(resource) ==> resource.in_range(),
{
    match parse_json(bytes) {
        Ok(json) => snapshot_from_json(&json),
        Err(_) => None,
    }
}

/// Puts a decoded message in force: `resource` becomes what the message
/// holds, and stays as it is if the message cannot be decoded. Returns
/// whether it could.
pub fn update(resource: &mut MinecraftResource, bytes: &[u8]) -> (out: bool)
    ensures
        out == snapshot_of(bytes@) is Some,
        *final(resource) == (match snapshot_of(bytes@) {
            Some(fresh) => fresh,
            None => *old(resource),
        }),
        old(resource).in_range() ==> final(resource).in_range(),
{
    match decode(bytes) {
        Some(fresh) => {
            *resource = fresh;
            true
        },
        None => false,
    }
}

} // verus!
