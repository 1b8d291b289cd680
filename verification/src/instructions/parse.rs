//! Reading coordinates.

use vstd::prelude::*;
use crate::fixed::from_bits;
use crate::fixed::in_range;
use crate::fixed::thousandths;
use crate::instructions::document::as_float_bits;
use crate::instructions::document::as_items;
use crate::instructions::document::Node;
use crate::instructions::document::node_of;
use crate::instructions::LoadError;
use crate::vectors::Vector3D;

verus! {

/// The fixed-point quantity that a float of the file stands for, if
/// `value` is a float within the engine's range.
pub open spec fn quantity_of(value: toml::Value) -> Option<i64> {
    match node_of(value) {
        Node::Float(bits) => thousandths(bits),
        _ => None,
    }
}

/// Reads a float of the file as a fixed-point quantity.
pub fn to_quantity(value: &toml::Value) -> (out: Option<i64>)
    ensures
        out == quantity_of(*value),
        out matches Some(quantity) ==> in_range(quantity as int),
{
    match as_float_bits(value) {
        Some(bits) => from_bits(bits),
        None => None,
    }
}

/// The point that `value` stands for: it must be an array of exactly three
/// floats, each within the engine's range.
pub open spec fn coords_of(value: toml::Value) -> Result<Vector3D, LoadError> {
    match node_of(value) {
        Node::Array(items) => if items.len() == 3 && quantity_of(items[0]) is Some && quantity_of(
            items[1],
        ) is Some && quantity_of(items[2]) is Some {
            Ok(
                Vector3D {
                    x: quantity_of(items[0])->0,
                    y: quantity_of(items[1])->0,
                    z: quantity_of(items[2])->0,
                },
            )
        } else {
            Err(LoadError::MalformedDestination)
        },
        _ => Err(LoadError::MalformedDestination),
    }
}

/// Reads a point.
pub fn to_coords(value: &toml::Value) -> (out: Result<Vector3D, LoadError>)
    ensures
        out == coords_of(*value),
        out matches Ok(point) ==> in_range(point.x as int) && in_range(point.y as int) && in_range(
            point.z as int,
        ),
{
    match as_items(value) {
        Some(items) => {
            if items.len() != 3 {
                return Err(LoadError::MalformedDestination);
            }
            match (to_quantity(&items[0]), to_quantity(&items[1]), to_quantity(&items[2])) {
                (Some(x), Some(y), Some(z)) => Ok(Vector3D { x, y, z }),
                _ => Err(LoadError::MalformedDestination),
            }
        },
        None => Err(LoadError::MalformedDestination),
    }
}

} // verus!
