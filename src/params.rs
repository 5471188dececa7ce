use vstd::prelude::*;

use crate::crypto::{check_curve_point, is_curve_point};
use crate::error::MiningError;
use crate::hexcodec::{h256_from_hex, parse_h256, parse_u256_hex, u256_from_hex};

verus! {

/// One mining round: the hashes a candidate is searched against, the two
/// difficulties and the pool's encryption key. Hashes are 32 bytes; the
/// difficulties and the key's integer form are 32 big-endian bytes.
#[derive(Debug, Clone, Copy)]
pub struct MiningParams {
    pub pre_hash: [u8; 32],
    pub parent_hash: [u8; 32],
    pub win_dfclty: [u8; 32],
    pub pow_dfclty: [u8; 32],
    /// The compressed curve point of the pool's encryption key.
    pub pub_key: [u8; 32],
}

/// The number of fields in the pool's answer to a parameter request.
pub const PARAM_FIELDS: usize = 5;

/// The text of field `i` of the pool's answer, where it is present and a string.
pub open spec fn field_text(fields: Seq<Option<String>>, i: int) -> Option<Seq<char>> {
    if 0 <= i < fields.len() {
        match fields[i] {
            Some(s) => Some(s@),
            None => None,
        }
    } else {
        None
    }
}

/// Whether all five fields are present as strings.
pub open spec fn fields_present(fields: Seq<Option<String>>) -> bool {
    forall|i: int| 0 <= i < 5 ==> (#[trigger] field_text(fields, i)) is Some
}

/// Whether every field of a complete answer decodes, the key to a curve point.
pub open spec fn fields_decode(fields: Seq<Option<String>>) -> bool {
    &&& h256_from_hex(field_text(fields, 0)->0) is Some
    &&& h256_from_hex(field_text(fields, 1)->0) is Some
    &&& u256_from_hex(field_text(fields, 2)->0) is Some
    &&& u256_from_hex(field_text(fields, 3)->0) is Some
    &&& u256_from_hex(field_text(fields, 4)->0) is Some
    &&& is_curve_point(u256_from_hex(field_text(fields, 4)->0)->0)
}

/// Whether `p` holds exactly what the fields of a complete answer decode to:
/// pre-hash, parent hash, win difficulty, pow difficulty, then the key.
pub open spec fn decodes_to(fields: Seq<Option<String>>, p: MiningParams) -> bool {
    &&& h256_from_hex(field_text(fields, 0)->0) == Some(p.pre_hash@)
    &&& h256_from_hex(field_text(fields, 1)->0) == Some(p.parent_hash@)
    &&& u256_from_hex(field_text(fields, 2)->0) == Some(p.win_dfclty@)
    &&& u256_from_hex(field_text(fields, 3)->0) == Some(p.pow_dfclty@)
    &&& u256_from_hex(field_text(fields, 4)->0) == Some(p.pub_key@)
}

/// Decodes the pool's answer to a parameter request. A missing or
/// non-string field, or one that does not decode, is an error; nothing else is.
pub fn decode_mining_params(fields: &Vec<Option<String>>) -> (r: Result<MiningParams, MiningError>)
    ensures
        !fields_present(fields@) ==> r == Err::<MiningParams, MiningError>(
            MiningError::MissingField,
        ),
        fields_present(fields@) && !fields_decode(fields@) ==> r == Err::<
            MiningParams,
            MiningError,
        >(MiningError::InvalidField),
        r is Ok <==> fields_present(fields@) && fields_decode(fields@),
        r matches Ok(p) ==> decodes_to(fields@, p),
{
    if fields.len() < PARAM_FIELDS {
        assert(field_text(fields@, 4) is None);
        return Err(MiningError::MissingField);
    }
    let mut i: usize = 0;
    while i < PARAM_FIELDS
        invariant
            i <= PARAM_FIELDS <= fields@.len(),
            forall|j: int| 0 <= j < i ==> (#[trigger] field_text(fields@, j)) is Some,
        decreases PARAM_FIELDS - i,
    {
        if fields[i].is_none() {
            assert(field_text(fields@, i as int) is None);
            return Err(MiningError::MissingField);
        }
        i = i + 1;
    }
    assert(field_text(fields@, 0) is Some && field_text(fields@, 1) is Some && field_text(
        fields@,
        2,
    ) is Some && field_text(fields@, 3) is Some && field_text(fields@, 4) is Some);
    let t0 = fields[0].as_ref().unwrap().as_str();
    let t1 = fields[1].as_ref().unwrap().as_str();
    let t2 = fields[2].as_ref().unwrap().as_str();
    let t3 = fields[3].as_ref().unwrap().as_str();
    let t4 = fields[4].as_ref().unwrap().as_str();
    let pre_hash = match parse_h256(t0) {
        Some(h) => h,
        None => return Err(MiningError::InvalidField),
    };
    let parent_hash = match parse_h256(t1) {
        Some(h) => h,
        None => return Err(MiningError::InvalidField),
    };
    let win_dfclty = match parse_u256_hex(t2) {
        Some(v) => v,
        None => return Err(MiningError::InvalidField),
    };
    let pow_dfclty = match parse_u256_hex(t3) {
        Some(v) => v,
        None => return Err(MiningError::InvalidField),
    };
    let pub_key = match parse_u256_hex(t4) {
        Some(v) => v,
        None => return Err(MiningError::InvalidField),
    };
    assert(fields_present(fields@));
    if !check_curve_point(&pub_key) {
        return Err(MiningError::InvalidField);
    }
    Ok(MiningParams { pre_hash, parent_hash, win_dfclty, pow_dfclty, pub_key })
}

} // verus!
