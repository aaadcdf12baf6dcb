//! A generator of drawable shape types: from a record with a position and a
//! colour field it builds the vertex type, its shaders and its rendering
//! interface, and it splices callback registrations into functions.
use vstd::prelude::*;

pub mod callback;
pub mod laws;
pub mod number;
pub mod polygon;
pub mod synth;
pub mod tls;

verus! {

/// What an attribute asks for.
pub enum Attribute {
    /// `polygon(..)`, with the parameter text.
    Polygon(String),
    /// `callback(..)`, with the handler's name.
    Callback(String),
    /// Anything else.
    Unknown,
}

/// Reads an attribute: `polygon(..)` is tried first, then `callback(..)`.
pub fn parse_attribute(attribute: &String) -> (r: Attribute)
    ensures
        match tls::take_spec(attribute@, "polygon(..)"@) {
            Some(x) => r matches Attribute::Polygon(s) && s@ == x,
            None => match tls::take_spec(attribute@, "callback(..)"@) {
                Some(x) => r matches Attribute::Callback(s) && s@ == x,
                None => r is Unknown,
            },
        },
{
    match tls::take(attribute, "polygon(..)") {
        Some(x) => Attribute::Polygon(x),
        None => match tls::take(attribute, "callback(..)") {
            Some(x) => Attribute::Callback(x),
            None => Attribute::Unknown,
        },
    }
}

} // verus!
