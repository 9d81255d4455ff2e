use crate::codec::{
    all_cocktail_decode, all_cocktail_readable, all_filter_decode, all_filter_readable,
    all_ingredient_readable, all_names_read, all_names_readable, cocktail_decodes,
    ingredient_decodes, listing_field,
};
use crate::endpoint::Listing;
use crate::json::{envelope_items, json_of};
use crate::codec::{decode_cocktails, decode_filters, decode_ingredients, decode_names};
use crate::records::{Cocktail, CocktailError, Filter, Ingredient};
use vstd::prelude::*;

verus! {

/// The one error value: its message is the fixed text `null`.
pub open spec fn is_sentinel(e: CocktailError) -> bool {
    match e {
        CocktailError::Error(m) => m@ == "null"@,
    }
}

/// A result that failed, with the one error value.
pub open spec fn is_failure<T>(r: Result<T, CocktailError>) -> bool {
    r is Err && is_sentinel(r->Err_0)
}

impl CocktailError {
    /// The error value that every failure is reported as.
    pub fn sentinel() -> (e: Self)
        ensures
            is_sentinel(e),
    {
        CocktailError::Error("null".to_owned())
    }

    /// The message that the error carries.
    pub fn message(&self) -> (r: String)
        ensures
            match *self {
                CocktailError::Error(m) => r@ == m@,
            },
    {
        match self {
            CocktailError::Error(m) => m.clone(),
        }
    }
}

/// Every record of a decoded envelope, in the order received. No envelope,
/// and an envelope with no record, are the same failure.
pub fn every_record<T>(fetched: Option<Vec<T>>) -> (r: Result<Vec<T>, CocktailError>)
    ensures
        match fetched {
            Some(v) => if v@.len() == 0 {
                is_failure(r)
            } else {
                r == Ok::<Vec<T>, CocktailError>(v)
            },
            None => is_failure(r),
        },
{
    match fetched {
        Some(v) => {
            if v.len() == 0 {
                Err(CocktailError::sentinel())
            } else {
                Ok(v)
            }
        },
        None => Err(CocktailError::sentinel()),
    }
}

/// The first record of a decoded envelope; the others are dropped. No
/// envelope, and an envelope with no record, are the same failure.
pub fn first_record<T>(fetched: Option<Vec<T>>) -> (r: Result<T, CocktailError>)
    ensures
        match fetched {
            Some(v) => if v@.len() == 0 {
                is_failure(r)
            } else {
                r == Ok::<T, CocktailError>(v@[0])
            },
            None => is_failure(r),
        },
{
    match fetched {
        Some(v) => {
            let mut v = v;
            if v.len() == 0 {
                Err(CocktailError::sentinel())
            } else {
                Ok(v.remove(0))
            }
        },
        None => Err(CocktailError::sentinel()),
    }
}

/// The cocktails of a search, in the order received.
/// No body (the request failed), a body that is not the expected envelope,
/// an element that cannot be read, and an envelope with no element are the
/// same failure.
pub fn cocktails_reply(body: Option<String>) -> (r: Result<Vec<Cocktail>, CocktailError>)
    ensures
        match body {
            None => is_failure(r),
            Some(b) => match envelope_items(json_of(b@), "drinks"@) {
                Some(items) => if items.len() > 0 && all_cocktail_readable(items) {
                    r matches Ok(v) && all_cocktail_decode(items, v@)
                } else {
                    is_failure(r)
                },
                None => is_failure(r),
            },
        },
{
    match body {
        Some(b) => every_record(decode_cocktails(b.as_str())),
        None => Err(CocktailError::sentinel()),
    }
}

/// The first cocktail of a lookup or of a random pick; the others are dropped.
/// No body (the request failed), a body that is not the expected envelope,
/// an element that cannot be read, and an envelope with no element are the
/// same failure.
pub fn cocktail_reply(body: Option<String>) -> (r: Result<Cocktail, CocktailError>)
    ensures
        match body {
            None => is_failure(r),
            Some(b) => match envelope_items(json_of(b@), "drinks"@) {
                Some(items) => if items.len() > 0 && all_cocktail_readable(items) {
                    r matches Ok(x) && cocktail_decodes(items[0], x)
                } else {
                    is_failure(r)
                },
                None => is_failure(r),
            },
        },
{
    match body {
        Some(b) => first_record(decode_cocktails(b.as_str())),
        None => Err(CocktailError::sentinel()),
    }
}

/// The first ingredient of an ingredient search or lookup; the others are dropped.
/// No body (the request failed), a body that is not the expected envelope,
/// an element that cannot be read, and an envelope with no element are the
/// same failure.
pub fn ingredient_reply(body: Option<String>) -> (r: Result<Ingredient, CocktailError>)
    ensures
        match body {
            None => is_failure(r),
            Some(b) => match envelope_items(json_of(b@), "ingredients"@) {
                Some(items) => if items.len() > 0 && all_ingredient_readable(items) {
                    r matches Ok(x) && ingredient_decodes(items[0], x)
                } else {
                    is_failure(r)
                },
                None => is_failure(r),
            },
        },
{
    match body {
        Some(b) => first_record(decode_ingredients(b.as_str())),
        None => Err(CocktailError::sentinel()),
    }
}

/// The drink references of a filter, in the order received.
/// No body (the request failed), a body that is not the expected envelope,
/// an element that cannot be read, and an envelope with no element are the
/// same failure.
pub fn filters_reply(body: Option<String>) -> (r: Result<Vec<Filter>, CocktailError>)
    ensures
        match body {
            None => is_failure(r),
            Some(b) => match envelope_items(json_of(b@), "drinks"@) {
                Some(items) => if items.len() > 0 && all_filter_readable(items) {
                    r matches Ok(v) && all_filter_decode(items, v@)
                } else {
                    is_failure(r)
                },
                None => is_failure(r),
            },
        },
{
    match body {
        Some(b) => every_record(decode_filters(b.as_str())),
        None => Err(CocktailError::sentinel()),
    }
}

/// The names of a catalogue, one per element, in the order received.
/// No body (the request failed), a body that is not the expected envelope,
/// an element that cannot be read, and an envelope with no element are the
/// same failure.
pub fn names_reply(body: Option<String>, listing: Listing) -> (r: Result<Vec<String>, CocktailError>)
    ensures
        match body {
            None => is_failure(r),
            Some(b) => match envelope_items(json_of(b@), "drinks"@) {
                Some(items) => if items.len() > 0 && all_names_readable(items, listing_field(listing)) {
                    r matches Ok(v) && all_names_read(items, listing_field(listing), v@)
                } else {
                    is_failure(r)
                },
                None => is_failure(r),
            },
        },
{
    match body {
        Some(b) => every_record(decode_names(b.as_str(), listing)),
        None => Err(CocktailError::sentinel()),
    }
}

} // verus!
