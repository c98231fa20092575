//! The words and marks of the format, as the bytes that spell them.

use vstd::prelude::*;

verus! {

/// `[`
pub const BRACKET_OPEN: u8 = 0x5b;

/// `]`
pub const BRACKET_CLOSE: u8 = 0x5d;

/// `}`
pub const BRACE_CLOSE: u8 = 0x7d;

/// `,`
pub const COMMA: u8 = 0x2c;

/// `0`
pub const DIGIT_ZERO: u8 = 0x30;

/// `type`
pub const TYPE: [u8; 4] = [116, 121, 112, 101];

/// `geometry`
pub const GEOMETRY: [u8; 8] = [103, 101, 111, 109, 101, 116, 114, 121];

/// `properties`
pub const PROPERTIES: [u8; 10] = [112, 114, 111, 112, 101, 114, 116, 105, 101, 115];

/// `coordinates`
pub const COORDINATES: [u8; 11] = [99, 111, 111, 114, 100, 105, 110, 97, 116, 101, 115];

/// `FeatureCollection`
pub const FEATURE_COLLECTION: [u8; 17] = [
    70, 101, 97, 116, 117, 114, 101, 67, 111,
    108, 108, 101, 99, 116, 105, 111, 110,
];

/// `Feature`
pub const FEATURE: [u8; 7] = [70, 101, 97, 116, 117, 114, 101];

/// `Geometry`
pub const BARE_GEOMETRY: [u8; 8] = [71, 101, 111, 109, 101, 116, 114, 121];

/// `Point`
pub const POINT: [u8; 5] = [80, 111, 105, 110, 116];

/// `MultiPoint`
pub const MULTI_POINT: [u8; 10] = [77, 117, 108, 116, 105, 80, 111, 105, 110, 116];

/// `LineString`
pub const LINE_STRING: [u8; 10] = [76, 105, 110, 101, 83, 116, 114, 105, 110, 103];

/// `MultiLineString`
pub const MULTI_LINE_STRING: [u8; 15] = [77, 117, 108, 116, 105, 76, 105, 110, 101, 83, 116, 114, 105, 110, 103];

/// `Polygon`
pub const POLYGON: [u8; 7] = [80, 111, 108, 121, 103, 111, 110];

/// `MultiPolygon`
pub const MULTI_POLYGON: [u8; 12] = [77, 117, 108, 116, 105, 80, 111, 108, 121, 103, 111, 110];

/// Whether `byte` is one of the four white space characters of JSON.
pub open spec fn is_blank(byte: u8) -> bool {
    byte == 0x20 || byte == 0x09 || byte == 0x0a || byte == 0x0d
}

/// Whether `byte` is white space.
pub fn blank(byte: u8) -> (yes: bool)
    ensures
        yes == is_blank(byte),
{
    byte == 0x20 || byte == 0x09 || byte == 0x0a || byte == 0x0d
}

/// Whether `bytes` spells `word`.
pub fn spells<const N: usize>(bytes: &Vec<u8>, word: &[u8; N]) -> (same: bool)
    ensures
        same == (bytes@ == word@),
{
    if bytes.len() != N {
        return false;
    }
    let mut i: usize = 0;
    while i < N
        invariant
            i <= N,
            bytes@.len() == N,
            forall|j: int| 0 <= j < i ==> bytes@[j] == word@[j],
        decreases N - i,
    {
        if bytes[i] != word[i] {
            return false;
        }
        i += 1;
    }
    assert(bytes@ =~= word@);
    true
}

} // verus!
