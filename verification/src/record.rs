//! The stored form of a window geometry.
//!
//! A geometry is stored as a JSON record with four fields: `width` and
//! `height` are numbers, `x` and `y` are integers. Reading is lenient about
//! the sizes, which may be any JSON number, and strict about the offsets,
//! which must be integers in the range of `i32`. Fields of other names are
//! ignored. A list of exactly four values, in the order width, height, x, y,
//! is read as well.

use vstd::prelude::*;
use crate::binary64::{lemma_of_pixels, Binary64};
use crate::geometry::WindowGeometry;
use crate::json::{lemma_list_model, lemma_record_push, record_model, Json, JsonModel, Number};

verus! {

impl Number {
    /// The pixel count that a number stands for: the number without its
    /// fractional part, held to the range of `u32`.
    pub open spec fn pixels(self) -> u32 {
        match self {
            Number::PosInt(n) => if n > u32::MAX {
                u32::MAX
            } else {
                n as u32
            },
            Number::NegInt(n) => if n < 0 {
                0
            } else if n > u32::MAX {
                u32::MAX
            } else {
                n as u32
            },
            Number::Real(value) => value.pixels(),
        }
    }

    /// The screen offset that a number stands for: the number itself where it
    /// is an integer in the range of `i32`, and nothing otherwise. A real
    /// stands for no offset, even where its value is whole.
    pub open spec fn coordinate(self) -> Option<i32> {
        match self {
            Number::PosInt(n) => if n <= i32::MAX {
                Some(n as i32)
            } else {
                None
            },
            Number::NegInt(n) => if i32::MIN <= n <= i32::MAX {
                Some(n as i32)
            } else {
                None
            },
            Number::Real(_) => None,
        }
    }

    /// The number that a pixel count is stored as: the real that denotes it.
    pub open spec fn of_pixels(pixels: u32) -> Number {
        Number::Real(Binary64::of_pixels(pixels))
    }

    /// The number that a screen offset is stored as: the integer itself.
    pub open spec fn of_coordinate(coordinate: i32) -> Number {
        if coordinate < 0 {
            Number::NegInt(coordinate as i64)
        } else {
            Number::PosInt(coordinate as u64)
        }
    }

    /// The pixel count that this number stands for.
    pub fn to_pixels(&self) -> (pixels: u32)
        ensures
            pixels == self.pixels(),
    {
        match self {
            Number::PosInt(n) => if *n > 0xffff_ffff {
                u32::MAX
            } else {
                *n as u32
            },
            Number::NegInt(n) => if *n < 0 {
                0
            } else if *n > 0xffff_ffff {
                u32::MAX
            } else {
                *n as u32
            },
            Number::Real(value) => value.to_pixels(),
        }
    }

    /// The screen offset that this number stands for, if it stands for one.
    pub fn to_coordinate(&self) -> (coordinate: Option<i32>)
        ensures
            coordinate == self.coordinate(),
    {
        match self {
            Number::PosInt(n) => if *n <= 0x7fff_ffff {
                Some(*n as i32)
            } else {
                None
            },
            Number::NegInt(n) => if -0x8000_0000 <= *n && *n <= 0x7fff_ffff {
                Some(*n as i32)
            } else {
                None
            },
            Number::Real(_) => None,
        }
    }

    /// The number that `pixels` is stored as.
    pub fn from_pixels(pixels: u32) -> (number: Number)
        ensures
            number == Number::of_pixels(pixels),
    {
        Number::Real(Binary64::from_pixels(pixels))
    }

    /// The number that `coordinate` is stored as.
    pub fn from_coordinate(coordinate: i32) -> (number: Number)
        ensures
            number == Number::of_coordinate(coordinate),
    {
        if coordinate < 0 {
            Number::NegInt(coordinate as i64)
        } else {
            Number::PosInt(coordinate as u64)
        }
    }
}

/// The pixel count in a field: present where the field is there and holds a
/// number.
pub open spec fn pixels_in(field: Option<JsonModel>) -> Option<u32> {
    match field {
        Some(JsonModel::Number(n)) => Some(n.pixels()),
        _ => None,
    }
}

/// The screen offset in a field: present where the field is there and holds
/// an integer in range.
pub open spec fn coordinate_in(field: Option<JsonModel>) -> Option<i32> {
    match field {
        Some(JsonModel::Number(n)) => n.coordinate(),
        _ => None,
    }
}

/// The geometry made of four fields. All four must be readable.
pub open spec fn assembled(
    width: Option<JsonModel>,
    height: Option<JsonModel>,
    x: Option<JsonModel>,
    y: Option<JsonModel>,
) -> Option<WindowGeometry> {
    match (pixels_in(width), pixels_in(height), coordinate_in(x), coordinate_in(y)) {
        (Some(width), Some(height), Some(x), Some(y)) => Some(
            WindowGeometry { width, height, x, y },
        ),
        _ => None,
    }
}

/// The geometry that a stored value holds, if it holds one.
pub open spec fn decoded(json: JsonModel) -> Option<WindowGeometry> {
    match json {
        JsonModel::Record(_) => assembled(
            json.field("width"@),
            json.field("height"@),
            json.field("x"@),
            json.field("y"@),
        ),
        JsonModel::List(items) => if items.len() == 4 {
            assembled(Some(items[0]), Some(items[1]), Some(items[2]), Some(items[3]))
        } else {
            None
        },
        _ => None,
    }
}

/// The value that a geometry is stored as: a record of its four fields and
/// nothing else.
pub open spec fn encoded(geometry: WindowGeometry) -> JsonModel {
    JsonModel::Record(
        Map::<Seq<char>, JsonModel>::empty().insert(
            "width"@,
            JsonModel::Number(Number::of_pixels(geometry.width)),
        ).insert("height"@, JsonModel::Number(Number::of_pixels(geometry.height))).insert(
            "x"@,
            JsonModel::Number(Number::of_coordinate(geometry.x)),
        ).insert("y"@, JsonModel::Number(Number::of_coordinate(geometry.y))),
    )
}

/// What an optional value stands for.
spec fn model_of(value: Option<&Json>) -> Option<JsonModel> {
    match value {
        Some(json) => Some(json@),
        None => None,
    }
}

/// Reads a size from a field.
fn read_pixels(field: Option<&Json>) -> (pixels: Option<u32>)
    ensures
        pixels == pixels_in(model_of(field)),
{
    match field {
        Some(json) => match json.as_number() {
            Some(number) => Some(number.to_pixels()),
            None => None,
        },
        None => None,
    }
}

/// Reads a screen offset from a field.
fn read_coordinate(field: Option<&Json>) -> (coordinate: Option<i32>)
    ensures
        coordinate == coordinate_in(model_of(field)),
{
    match field {
        Some(json) => match json.as_number() {
            Some(number) => number.to_coordinate(),
            None => None,
        },
        None => None,
    }
}

/// Puts four fields together.
fn assemble(
    width: Option<&Json>,
    height: Option<&Json>,
    x: Option<&Json>,
    y: Option<&Json>,
) -> (geometry: Option<WindowGeometry>)
    ensures
        geometry == assembled(model_of(width), model_of(height), model_of(x), model_of(y)),
{
    let width: Option<u32> = read_pixels(width);
    let height: Option<u32> = read_pixels(height);
    let x: Option<i32> = read_coordinate(x);
    let y: Option<i32> = read_coordinate(y);
    match (width, height, x, y) {
        (Some(width), Some(height), Some(x), Some(y)) => Some(
            WindowGeometry { width, height, x, y },
        ),
        _ => None,
    }
}

/// The geometry that a stored value holds. `None` where the value is neither
/// a record nor a list of four, where one of the four fields is missing, and
/// where one of them does not hold what it should.
pub fn decode(json: &Json) -> (geometry: Option<WindowGeometry>)
    ensures
        geometry == decoded(json@),
{
    match json {
        Json::Record(_) => assemble(
            json.get("width"),
            json.get("height"),
            json.get("x"),
            json.get("y"),
        ),
        Json::List(items) => {
            if items.len() == 4 {
                proof {
                    lemma_list_model(items@);
                }
                assemble(Some(&items[0]), Some(&items[1]), Some(&items[2]), Some(&items[3]))
            } else {
                proof {
                    lemma_list_model(items@);
                }
                None
            }
        },
        _ => None,
    }
}

/// The value that `geometry` is stored as.
pub fn encode(geometry: &WindowGeometry) -> (json: Json)
    ensures
        json@ == encoded(*geometry),
{
    let mut entries: Vec<(String, Json)> = Vec::new();
    let ghost empty: Seq<(String, Json)> = entries@;
    proof {
        assert(record_model(empty) == Map::<Seq<char>, JsonModel>::empty());
    }
    entries.push(("width".to_owned(), Json::Number(Number::from_pixels(geometry.width))));
    let ghost one: Seq<(String, Json)> = entries@;
    proof {
        lemma_record_push(empty, one.last().0, one.last().1);
        assert(one =~= empty.push(one.last()));
    }
    entries.push(("height".to_owned(), Json::Number(Number::from_pixels(geometry.height))));
    let ghost two: Seq<(String, Json)> = entries@;
    proof {
        lemma_record_push(one, two.last().0, two.last().1);
        assert(two =~= one.push(two.last()));
    }
    entries.push(("x".to_owned(), Json::Number(Number::from_coordinate(geometry.x))));
    let ghost three: Seq<(String, Json)> = entries@;
    proof {
        lemma_record_push(two, three.last().0, three.last().1);
        assert(three =~= two.push(three.last()));
    }
    entries.push(("y".to_owned(), Json::Number(Number::from_coordinate(geometry.y))));
    proof {
        lemma_record_push(three, entries@.last().0, entries@.last().1);
        assert(entries@ =~= three.push(entries@.last()));
    }
    Json::Record(entries)
}

/// Saving a geometry and loading it again gives the geometry back, equal in
/// all four fields.
pub proof fn lemma_decode_encode(geometry: WindowGeometry)
    ensures
        decoded(encoded(geometry)) == Some(geometry),
{
    reveal_strlit("width");
    reveal_strlit("height");
    reveal_strlit("x");
    reveal_strlit("y");
    lemma_of_pixels(geometry.width);
    lemma_of_pixels(geometry.height);
    let json: JsonModel = encoded(geometry);
    assert("width"@.len() == 5);
    assert("height"@.len() == 6);
    assert("x"@.len() == 1);
    assert("y"@.len() == 1);
    assert("x"@[0] != "y"@[0]);
    assert(json.field("width"@) == Some(JsonModel::Number(Number::of_pixels(geometry.width))));
    assert(json.field("height"@) == Some(JsonModel::Number(Number::of_pixels(geometry.height))));
    assert(json.field("x"@) == Some(JsonModel::Number(Number::of_coordinate(geometry.x))));
    assert(json.field("y"@) == Some(JsonModel::Number(Number::of_coordinate(geometry.y))));
}

} // verus!
