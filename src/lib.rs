//! Typed client for an open, crowd-sourced database of drinks and cocktails.
//!
//! The library builds the request path of each endpoint, decodes the JSON
//! envelope that the service answers with, and folds every failure into a
//! single error value. Sending the request is left to the caller, who hands
//! the body back to one of the `*_reply` functions.
pub mod codec;
pub mod endpoint;
pub mod json;
pub mod records;
pub mod reply;

pub use endpoint::{Endpoint, Listing, BASE_URL};
pub use codec::{
    decode_cocktail, decode_cocktails, decode_filter, decode_filters, decode_ingredient,
    decode_ingredients, decode_names,
};
pub use json::Json;
pub use records::{Cocktail, CocktailError, Filter, Ingredient};
pub use reply::{
    cocktail_reply, cocktails_reply, every_record, filters_reply, first_record, ingredient_reply,
    names_reply,
};
