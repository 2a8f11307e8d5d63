//! Stateless checks on the inputs of an operation. Each check names the one
//! error it rejects with, and the operations run them before any change.
use vstd::prelude::*;

use crate::identity::Identity;
use crate::state::{Coordinates, ErrorCode, Listing};
use crate::{
    LISTING_DURATION_SECONDS, MAX_COORDINATE, MAX_FEE_BASIS_POINTS, MAX_NAME_LENGTH,
    MAX_URI_LENGTH, MIN_COORDINATE, MIN_PRICE,
};

verus! {

/// The result an operation gives for an optional rejection.
pub open spec fn outcome(e: Option<ErrorCode>) -> Result<(), ErrorCode> {
    match e {
        Some(e) => Err(e),
        None => Ok(()),
    }
}

/// Number of bytes of the UTF-8 encoding of a string, as `str::len` reports it.
pub open spec fn byte_len(s: Seq<char>) -> usize {
    vstd::utf8::encode_utf8(s).len() as usize
}

pub open spec fn coordinates_valid(c: Coordinates) -> bool {
    &&& MIN_COORDINATE <= c.x <= MAX_COORDINATE
    &&& MIN_COORDINATE <= c.y <= MAX_COORDINATE
}

pub open spec fn fee_error(fee: u16) -> Option<ErrorCode> {
    if fee > MAX_FEE_BASIS_POINTS {
        Some(ErrorCode::FeeTooHigh)
    } else {
        None
    }
}

pub open spec fn price_error(price: u64) -> Option<ErrorCode> {
    if price < MIN_PRICE {
        Some(ErrorCode::PriceTooLow)
    } else {
        None
    }
}

/// A requested expiry must lie after `now` and at most the listing window
/// after it.
pub open spec fn expiry_error(expires_at: Option<i64>, now: i64) -> Option<ErrorCode> {
    match expires_at {
        None => None,
        Some(t) => if t <= now {
            Some(ErrorCode::InvalidExpiryTime)
        } else if t > now + LISTING_DURATION_SECONDS {
            Some(ErrorCode::ExpiryTooFar)
        } else {
            None
        },
    }
}

/// The error, if any, of a parcel's descriptive inputs, in the order they
/// are checked.
pub open spec fn parcel_input_error(c: Coordinates, name: Seq<char>, uri: Seq<char>) -> Option<
    ErrorCode,
> {
    if !coordinates_valid(c) {
        Some(ErrorCode::InvalidCoordinates)
    } else if byte_len(name) > MAX_NAME_LENGTH {
        Some(ErrorCode::NameTooLong)
    } else if byte_len(uri) > MAX_URI_LENGTH {
        Some(ErrorCode::UriTooLong)
    } else {
        None
    }
}

/// A listing has expired once the time is past its expiry; its status may
/// still read `Active`.
pub open spec fn is_expired(listing: Listing, now: i64) -> bool {
    match listing.expires_at {
        Some(t) => now > t,
        None => false,
    }
}

pub fn check_coordinates(c: &Coordinates) -> (r: Result<(), ErrorCode>)
    ensures
        r == (if coordinates_valid(*c) {
            Ok(())
        } else {
            Err(ErrorCode::InvalidCoordinates)
        }),
{
    if c.x < MIN_COORDINATE || c.x > MAX_COORDINATE {
        return Err(ErrorCode::InvalidCoordinates);
    }
    if c.y < MIN_COORDINATE || c.y > MAX_COORDINATE {
        return Err(ErrorCode::InvalidCoordinates);
    }
    Ok(())
}

pub fn check_parcel_inputs(c: &Coordinates, name: &String, uri: &String) -> (r: Result<
    (),
    ErrorCode,
>)
    ensures
        r == outcome(parcel_input_error(*c, name@, uri@)),
{
    if let Err(e) = check_coordinates(c) {
        return Err(e);
    }
    if name.as_str().len() > MAX_NAME_LENGTH {
        return Err(ErrorCode::NameTooLong);
    }
    if uri.as_str().len() > MAX_URI_LENGTH {
        return Err(ErrorCode::UriTooLong);
    }
    Ok(())
}

pub fn check_fee(fee: u16) -> (r: Result<(), ErrorCode>)
    ensures
        r == outcome(fee_error(fee)),
{
    if fee > MAX_FEE_BASIS_POINTS {
        Err(ErrorCode::FeeTooHigh)
    } else {
        Ok(())
    }
}

pub fn check_price(price: u64) -> (r: Result<(), ErrorCode>)
    ensures
        r == outcome(price_error(price)),
{
    if price < MIN_PRICE {
        Err(ErrorCode::PriceTooLow)
    } else {
        Ok(())
    }
}

pub fn check_expiry(expires_at: Option<i64>, now: i64) -> (r: Result<(), ErrorCode>)
    ensures
        r == outcome(expiry_error(expires_at, now)),
{
    match expires_at {
        None => Ok(()),
        Some(t) => {
            if t <= now {
                Err(ErrorCode::InvalidExpiryTime)
            } else if (t as i128) - (now as i128) > LISTING_DURATION_SECONDS as i128 {
                Err(ErrorCode::ExpiryTooFar)
            } else {
                Ok(())
            }
        },
    }
}

pub fn listing_expired(listing: &Listing, now: i64) -> (r: bool)
    ensures
        r == is_expired(*listing, now),
{
    match listing.expires_at {
        Some(t) => now > t,
        None => false,
    }
}

/// Authorization: the identity that signed must be the one on record.
pub fn check_signer(signer: &Identity, recorded: &Identity, e: ErrorCode) -> (r: Result<
    (),
    ErrorCode,
>)
    ensures
        r == (if *signer == *recorded {
            Ok(())
        } else {
            Err(e)
        }),
{
    if signer.same_as(recorded) {
        Ok(())
    } else {
        Err(e)
    }
}

} // verus!
