//! Pagination parameters extracted from a request's query map.

use vstd::prelude::*;
use std::collections::HashMap;
use crate::digits::parse_u32;
use crate::digits::parse_u32_spec;
use crate::taxonomy::Error;

verus! {

/// Pagination struct that is getting extracted from query params.
#[derive(Default, Debug)]
pub struct Pagination {
    /// The index of the first item that has to be returned.
    pub limit: Option<u32>,
    /// The index of the last item that has to be returned.
    pub offset: u32,
}

/// Relies on std's `HashMap::get`: the value for the key is returned
/// exactly when an equal key is present in the map.
#[verifier::external_body]
fn map_get<'a>(params: &'a HashMap<String, String>, key: &str) -> (r: Option<&'a String>)
    ensures
        match r {
            Option::Some(v) => params.deep_view().contains_key(key@) && v@
                == params.deep_view().index(key@),
            Option::None => !params.deep_view().contains_key(key@),
        },
{
    params.get(key)
}

/// Extracts the pagination of a questions-list request from its query
/// parameters. Both `limit` and `offset` must be present, and each must
/// parse as a decimal `u32`, `limit` being checked first.
pub fn extract_pagination(params: HashMap<String, String>) -> (r: Result<Pagination, Error>)
    ensures
        ({
            let m = params.deep_view();
            if m.contains_key("limit"@) && m.contains_key("offset"@) {
                match parse_u32_spec(m["limit"@]) {
                    Ok(l) => match parse_u32_spec(m["offset"@]) {
                        Ok(o) => r == Ok::<Pagination, Error>(
                            (Pagination { limit: Some(l), offset: o }),
                        ),
                        Err(f) => r == Err::<Pagination, Error>(Error::ParseError(f)),
                    },
                    Err(f) => r == Err::<Pagination, Error>(Error::ParseError(f)),
                }
            } else {
                r == Err::<Pagination, Error>(Error::MissingParameters)
            }
        }),
{
    let limit_entry = map_get(&params, "limit");
    let offset_entry = map_get(&params, "offset");
    match (limit_entry, offset_entry) {
        (Option::Some(l), Option::Some(o)) => {
            let limit = match parse_u32(l.as_str()) {
                Ok(v) => v,
                Err(f) => {
                    return Err(Error::ParseError(f));
                },
            };
            let offset = match parse_u32(o.as_str()) {
                Ok(v) => v,
                Err(f) => {
                    return Err(Error::ParseError(f));
                },
            };
            Ok(Pagination { limit: Some(limit), offset })
        },
        _ => Err(Error::MissingParameters),
    }
}

} // verus!
