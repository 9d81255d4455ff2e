use vstd::prelude::*;

verus! {

/// One drink recipe. Every field is absent unless the service sent it; a
/// field that was sent as an empty text is present and empty.
#[derive(Debug, Clone, PartialEq, Default)]
pub struct Cocktail {
    pub id_drink: Option<String>,
    pub str_drink: Option<String>,
    pub str_drink_alternate: Option<String>,
    pub str_tags: Option<String>,
    pub str_video: Option<String>,
    pub str_category: Option<String>,
    pub str_iba: Option<String>,
    pub str_alcoholic: Option<String>,
    pub str_glass: Option<String>,
    pub str_instructions: Option<String>,
    pub str_instructions_es: Option<String>,
    pub str_instructions_de: Option<String>,
    pub str_instructions_fr: Option<String>,
    pub str_instructions_it: Option<String>,
    pub str_instructions_zh_hans: Option<String>,
    pub str_instructions_zh_hant: Option<String>,
    pub str_drink_thumb: Option<String>,
    pub str_ingredient1: Option<String>,
    pub str_ingredient2: Option<String>,
    pub str_ingredient3: Option<String>,
    pub str_ingredient4: Option<String>,
    pub str_ingredient5: Option<String>,
    pub str_ingredient6: Option<String>,
    pub str_ingredient7: Option<String>,
    pub str_ingredient8: Option<String>,
    pub str_ingredient9: Option<String>,
    pub str_ingredient10: Option<String>,
    pub str_ingredient11: Option<String>,
    pub str_ingredient12: Option<String>,
    pub str_ingredient13: Option<String>,
    pub str_ingredient14: Option<String>,
    pub str_ingredient15: Option<String>,
    pub str_measure1: Option<String>,
    pub str_measure2: Option<String>,
    pub str_measure3: Option<String>,
    pub str_measure4: Option<String>,
    pub str_measure5: Option<String>,
    pub str_measure6: Option<String>,
    pub str_measure7: Option<String>,
    pub str_measure8: Option<String>,
    pub str_measure9: Option<String>,
    pub str_measure10: Option<String>,
    pub str_measure11: Option<String>,
    pub str_measure12: Option<String>,
    pub str_measure13: Option<String>,
    pub str_measure14: Option<String>,
    pub str_measure15: Option<String>,
    pub str_image_source: Option<String>,
    pub str_image_attribution: Option<String>,
    pub str_creative_commons_confirmed: Option<String>,
    pub date_modified: Option<String>,
}

/// One ingredient monograph.
#[derive(Debug, Clone, PartialEq, Default)]
pub struct Ingredient {
    pub id_ingredient: Option<String>,
    pub str_ingredient: Option<String>,
    pub str_description: Option<String>,
    pub str_type: Option<String>,
    pub str_alcohol: Option<String>,
    pub str_abv: Option<String>,
}

/// A lightweight drink reference, as the filter endpoints return it.
#[derive(Debug, Clone, PartialEq, Default)]
pub struct Filter {
    pub str_drink: Option<String>,
    pub str_drink_thumb: Option<String>,
    pub id_drink: Option<String>,
}

/// The one error of the library: transport failures, unreadable bodies,
/// malformed envelopes and empty results all collapse into it.
#[derive(Debug, Clone, PartialEq)]
pub enum CocktailError {
    Error(String),
}

} // verus!
