use crate::endpoint::Listing;
use crate::json::{
    envelope, envelope_items, find_member, json_of, member, members_view, object_text, opt_view,
    parse_json, render_object, Json,
};
use crate::records::{Cocktail, Filter, Ingredient};
use vstd::prelude::*;

verus! {

/// Whether member `key` is absent, `null` or a string.
pub open spec fn text_readable(fields: Seq<(String, Json)>, key: Seq<char>) -> bool {
    match member(fields, key) {
        None => true,
        Some(Json::Null) => true,
        Some(Json::Text(_)) => true,
        _ => false,
    }
}

/// Whether `f` is what member `key` reads as: nothing where it is absent or
/// `null`, its text where it is a string.
pub open spec fn reads_text(fields: Seq<(String, Json)>, key: Seq<char>, f: Option<String>) -> bool {
    match member(fields, key) {
        None => f is None,
        Some(Json::Null) => f is None,
        Some(Json::Text(s)) => opt_view(f) == Some(s@),
        _ => false,
    }
}

fn text_field(fields: &Vec<(String, Json)>, key: &str) -> (r: Option<Option<String>>)
    ensures
        r is Some <==> text_readable(fields@, key@),
        r matches Some(f) ==> reads_text(fields@, key@, f),
{
    match find_member(fields, key) {
        None => Some(None),
        Some(Json::Null) => Some(None),
        Some(Json::Text(s)) => Some(Some(s.clone())),
        _ => None,
    }
}

fn text_clone(o: &Option<String>) -> (r: Option<String>)
    ensures
        opt_view(r) == opt_view(*o),
{
    match o {
        Some(s) => Some(s.clone()),
        None => None,
    }
}

/// Whether a JSON value can be read as a Cocktail: an object whose known
/// members are each absent, `null` or a string.
pub open spec fn cocktail_readable(j: Json) -> bool {
    match j {
        Json::Object(fields) => {
            &&& text_readable(fields@, "idDrink"@)
            &&& text_readable(fields@, "strDrink"@)
            &&& text_readable(fields@, "strDrinkAlternate"@)
            &&& text_readable(fields@, "strTags"@)
            &&& text_readable(fields@, "strVideo"@)
            &&& text_readable(fields@, "strCategory"@)
            &&& text_readable(fields@, "strIBA"@)
            &&& text_readable(fields@, "strAlcoholic"@)
            &&& text_readable(fields@, "strGlass"@)
            &&& text_readable(fields@, "strInstructions"@)
            &&& text_readable(fields@, "strInstructionsES"@)
            &&& text_readable(fields@, "strInstructionsDE"@)
            &&& text_readable(fields@, "strInstructionsFR"@)
            &&& text_readable(fields@, "strInstructionsIT"@)
            &&& text_readable(fields@, "strInstructionsZH-HANS"@)
            &&& text_readable(fields@, "strInstructionsZH-HANT"@)
            &&& text_readable(fields@, "strDrinkThumb"@)
            &&& text_readable(fields@, "strIngredient1"@)
            &&& text_readable(fields@, "strIngredient2"@)
            &&& text_readable(fields@, "strIngredient3"@)
            &&& text_readable(fields@, "strIngredient4"@)
            &&& text_readable(fields@, "strIngredient5"@)
            &&& text_readable(fields@, "strIngredient6"@)
            &&& text_readable(fields@, "strIngredient7"@)
            &&& text_readable(fields@, "strIngredient8"@)
            &&& text_readable(fields@, "strIngredient9"@)
            &&& text_readable(fields@, "strIngredient10"@)
            &&& text_readable(fields@, "strIngredient11"@)
            &&& text_readable(fields@, "strIngredient12"@)
            &&& text_readable(fields@, "strIngredient13"@)
            &&& text_readable(fields@, "strIngredient14"@)
            &&& text_readable(fields@, "strIngredient15"@)
            &&& text_readable(fields@, "strMeasure1"@)
            &&& text_readable(fields@, "strMeasure2"@)
            &&& text_readable(fields@, "strMeasure3"@)
            &&& text_readable(fields@, "strMeasure4"@)
            &&& text_readable(fields@, "strMeasure5"@)
            &&& text_readable(fields@, "strMeasure6"@)
            &&& text_readable(fields@, "strMeasure7"@)
            &&& text_readable(fields@, "strMeasure8"@)
            &&& text_readable(fields@, "strMeasure9"@)
            &&& text_readable(fields@, "strMeasure10"@)
            &&& text_readable(fields@, "strMeasure11"@)
            &&& text_readable(fields@, "strMeasure12"@)
            &&& text_readable(fields@, "strMeasure13"@)
            &&& text_readable(fields@, "strMeasure14"@)
            &&& text_readable(fields@, "strMeasure15"@)
            &&& text_readable(fields@, "strImageSource"@)
            &&& text_readable(fields@, "strImageAttribution"@)
            &&& text_readable(fields@, "strCreativeCommonsConfirmed"@)
            &&& text_readable(fields@, "dateModified"@)
        },
        _ => false,
    }
}

/// Whether `x` is what a JSON value reads as: each field from its member.
pub open spec fn cocktail_decodes(j: Json, x: Cocktail) -> bool {
    match j {
        Json::Object(fields) => {
            &&& reads_text(fields@, "idDrink"@, x.id_drink)
            &&& reads_text(fields@, "strDrink"@, x.str_drink)
            &&& reads_text(fields@, "strDrinkAlternate"@, x.str_drink_alternate)
            &&& reads_text(fields@, "strTags"@, x.str_tags)
            &&& reads_text(fields@, "strVideo"@, x.str_video)
            &&& reads_text(fields@, "strCategory"@, x.str_category)
            &&& reads_text(fields@, "strIBA"@, x.str_iba)
            &&& reads_text(fields@, "strAlcoholic"@, x.str_alcoholic)
            &&& reads_text(fields@, "strGlass"@, x.str_glass)
            &&& reads_text(fields@, "strInstructions"@, x.str_instructions)
            &&& reads_text(fields@, "strInstructionsES"@, x.str_instructions_es)
            &&& reads_text(fields@, "strInstructionsDE"@, x.str_instructions_de)
            &&& reads_text(fields@, "strInstructionsFR"@, x.str_instructions_fr)
            &&& reads_text(fields@, "strInstructionsIT"@, x.str_instructions_it)
            &&& reads_text(fields@, "strInstructionsZH-HANS"@, x.str_instructions_zh_hans)
            &&& reads_text(fields@, "strInstructionsZH-HANT"@, x.str_instructions_zh_hant)
            &&& reads_text(fields@, "strDrinkThumb"@, x.str_drink_thumb)
            &&& reads_text(fields@, "strIngredient1"@, x.str_ingredient1)
            &&& reads_text(fields@, "strIngredient2"@, x.str_ingredient2)
            &&& reads_text(fields@, "strIngredient3"@, x.str_ingredient3)
            &&& reads_text(fields@, "strIngredient4"@, x.str_ingredient4)
            &&& reads_text(fields@, "strIngredient5"@, x.str_ingredient5)
            &&& reads_text(fields@, "strIngredient6"@, x.str_ingredient6)
            &&& reads_text(fields@, "strIngredient7"@, x.str_ingredient7)
            &&& reads_text(fields@, "strIngredient8"@, x.str_ingredient8)
            &&& reads_text(fields@, "strIngredient9"@, x.str_ingredient9)
            &&& reads_text(fields@, "strIngredient10"@, x.str_ingredient10)
            &&& reads_text(fields@, "strIngredient11"@, x.str_ingredient11)
            &&& reads_text(fields@, "strIngredient12"@, x.str_ingredient12)
            &&& reads_text(fields@, "strIngredient13"@, x.str_ingredient13)
            &&& reads_text(fields@, "strIngredient14"@, x.str_ingredient14)
            &&& reads_text(fields@, "strIngredient15"@, x.str_ingredient15)
            &&& reads_text(fields@, "strMeasure1"@, x.str_measure1)
            &&& reads_text(fields@, "strMeasure2"@, x.str_measure2)
            &&& reads_text(fields@, "strMeasure3"@, x.str_measure3)
            &&& reads_text(fields@, "strMeasure4"@, x.str_measure4)
            &&& reads_text(fields@, "strMeasure5"@, x.str_measure5)
            &&& reads_text(fields@, "strMeasure6"@, x.str_measure6)
            &&& reads_text(fields@, "strMeasure7"@, x.str_measure7)
            &&& reads_text(fields@, "strMeasure8"@, x.str_measure8)
            &&& reads_text(fields@, "strMeasure9"@, x.str_measure9)
            &&& reads_text(fields@, "strMeasure10"@, x.str_measure10)
            &&& reads_text(fields@, "strMeasure11"@, x.str_measure11)
            &&& reads_text(fields@, "strMeasure12"@, x.str_measure12)
            &&& reads_text(fields@, "strMeasure13"@, x.str_measure13)
            &&& reads_text(fields@, "strMeasure14"@, x.str_measure14)
            &&& reads_text(fields@, "strMeasure15"@, x.str_measure15)
            &&& reads_text(fields@, "strImageSource"@, x.str_image_source)
            &&& reads_text(fields@, "strImageAttribution"@, x.str_image_attribution)
            &&& reads_text(fields@, "strCreativeCommonsConfirmed"@, x.str_creative_commons_confirmed)
            &&& reads_text(fields@, "dateModified"@, x.date_modified)
        },
        _ => false,
    }
}

/// The members that `to_json` writes, in order.
pub open spec fn cocktail_members(x: Cocktail) -> Seq<(Seq<char>, Option<Seq<char>>)> {
    seq![
        ("idDrink"@, opt_view(x.id_drink)),
        ("strDrink"@, opt_view(x.str_drink)),
        ("strDrinkAlternate"@, opt_view(x.str_drink_alternate)),
        ("strTags"@, opt_view(x.str_tags)),
        ("strVideo"@, opt_view(x.str_video)),
        ("strCategory"@, opt_view(x.str_category)),
        ("strIBA"@, opt_view(x.str_iba)),
        ("strAlcoholic"@, opt_view(x.str_alcoholic)),
        ("strGlass"@, opt_view(x.str_glass)),
        ("strInstructions"@, opt_view(x.str_instructions)),
        ("strInstructionsES"@, opt_view(x.str_instructions_es)),
        ("strInstructionsDE"@, opt_view(x.str_instructions_de)),
        ("strInstructionsFR"@, opt_view(x.str_instructions_fr)),
        ("strInstructionsIT"@, opt_view(x.str_instructions_it)),
        ("strInstructionsZH-HANS"@, opt_view(x.str_instructions_zh_hans)),
        ("strInstructionsZH-HANT"@, opt_view(x.str_instructions_zh_hant)),
        ("strDrinkThumb"@, opt_view(x.str_drink_thumb)),
        ("strIngredient1"@, opt_view(x.str_ingredient1)),
        ("strIngredient2"@, opt_view(x.str_ingredient2)),
        ("strIngredient3"@, opt_view(x.str_ingredient3)),
        ("strIngredient4"@, opt_view(x.str_ingredient4)),
        ("strIngredient5"@, opt_view(x.str_ingredient5)),
        ("strIngredient6"@, opt_view(x.str_ingredient6)),
        ("strIngredient7"@, opt_view(x.str_ingredient7)),
        ("strIngredient8"@, opt_view(x.str_ingredient8)),
        ("strIngredient9"@, opt_view(x.str_ingredient9)),
        ("strIngredient10"@, opt_view(x.str_ingredient10)),
        ("strIngredient11"@, opt_view(x.str_ingredient11)),
        ("strIngredient12"@, opt_view(x.str_ingredient12)),
        ("strIngredient13"@, opt_view(x.str_ingredient13)),
        ("strIngredient14"@, opt_view(x.str_ingredient14)),
        ("strIngredient15"@, opt_view(x.str_ingredient15)),
        ("strMeasure1"@, opt_view(x.str_measure1)),
        ("strMeasure2"@, opt_view(x.str_measure2)),
        ("strMeasure3"@, opt_view(x.str_measure3)),
        ("strMeasure4"@, opt_view(x.str_measure4)),
        ("strMeasure5"@, opt_view(x.str_measure5)),
        ("strMeasure6"@, opt_view(x.str_measure6)),
        ("strMeasure7"@, opt_view(x.str_measure7)),
        ("strMeasure8"@, opt_view(x.str_measure8)),
        ("strMeasure9"@, opt_view(x.str_measure9)),
        ("strMeasure10"@, opt_view(x.str_measure10)),
        ("strMeasure11"@, opt_view(x.str_measure11)),
        ("strMeasure12"@, opt_view(x.str_measure12)),
        ("strMeasure13"@, opt_view(x.str_measure13)),
        ("strMeasure14"@, opt_view(x.str_measure14)),
        ("strMeasure15"@, opt_view(x.str_measure15)),
        ("strImageSource"@, opt_view(x.str_image_source)),
        ("strImageAttribution"@, opt_view(x.str_image_attribution)),
        ("strCreativeCommonsConfirmed"@, opt_view(x.str_creative_commons_confirmed)),
        ("dateModified"@, opt_view(x.date_modified))
    ]
}

/// Reads one JSON value as a Cocktail: each field from its member, nothing
/// where the value is not an object or a known member is neither `null` nor
/// a string.
pub fn decode_cocktail(j: &Json) -> (r: Option<Cocktail>)
    ensures
        r is Some <==> cocktail_readable(*j),
        r matches Some(x) ==> cocktail_decodes(*j, x),
{
    let fields = match j {
        Json::Object(fields) => fields,
        _ => return None,
    };
    let id_drink = text_field(fields, "idDrink")?;
    let str_drink = text_field(fields, "strDrink")?;
    let str_drink_alternate = text_field(fields, "strDrinkAlternate")?;
    let str_tags = text_field(fields, "strTags")?;
    let str_video = text_field(fields, "strVideo")?;
    let str_category = text_field(fields, "strCategory")?;
    let str_iba = text_field(fields, "strIBA")?;
    let str_alcoholic = text_field(fields, "strAlcoholic")?;
    let str_glass = text_field(fields, "strGlass")?;
    let str_instructions = text_field(fields, "strInstructions")?;
    let str_instructions_es = text_field(fields, "strInstructionsES")?;
    let str_instructions_de = text_field(fields, "strInstructionsDE")?;
    let str_instructions_fr = text_field(fields, "strInstructionsFR")?;
    let str_instructions_it = text_field(fields, "strInstructionsIT")?;
    let str_instructions_zh_hans = text_field(fields, "strInstructionsZH-HANS")?;
    let str_instructions_zh_hant = text_field(fields, "strInstructionsZH-HANT")?;
    let str_drink_thumb = text_field(fields, "strDrinkThumb")?;
    let str_ingredient1 = text_field(fields, "strIngredient1")?;
    let str_ingredient2 = text_field(fields, "strIngredient2")?;
    let str_ingredient3 = text_field(fields, "strIngredient3")?;
    let str_ingredient4 = text_field(fields, "strIngredient4")?;
    let str_ingredient5 = text_field(fields, "strIngredient5")?;
    let str_ingredient6 = text_field(fields, "strIngredient6")?;
    let str_ingredient7 = text_field(fields, "strIngredient7")?;
    let str_ingredient8 = text_field(fields, "strIngredient8")?;
    let str_ingredient9 = text_field(fields, "strIngredient9")?;
    let str_ingredient10 = text_field(fields, "strIngredient10")?;
    let str_ingredient11 = text_field(fields, "strIngredient11")?;
    let str_ingredient12 = text_field(fields, "strIngredient12")?;
    let str_ingredient13 = text_field(fields, "strIngredient13")?;
    let str_ingredient14 = text_field(fields, "strIngredient14")?;
    let str_ingredient15 = text_field(fields, "strIngredient15")?;
    let str_measure1 = text_field(fields, "strMeasure1")?;
    let str_measure2 = text_field(fields, "strMeasure2")?;
    let str_measure3 = text_field(fields, "strMeasure3")?;
    let str_measure4 = text_field(fields, "strMeasure4")?;
    let str_measure5 = text_field(fields, "strMeasure5")?;
    let str_measure6 = text_field(fields, "strMeasure6")?;
    let str_measure7 = text_field(fields, "strMeasure7")?;
    let str_measure8 = text_field(fields, "strMeasure8")?;
    let str_measure9 = text_field(fields, "strMeasure9")?;
    let str_measure10 = text_field(fields, "strMeasure10")?;
    let str_measure11 = text_field(fields, "strMeasure11")?;
    let str_measure12 = text_field(fields, "strMeasure12")?;
    let str_measure13 = text_field(fields, "strMeasure13")?;
    let str_measure14 = text_field(fields, "strMeasure14")?;
    let str_measure15 = text_field(fields, "strMeasure15")?;
    let str_image_source = text_field(fields, "strImageSource")?;
    let str_image_attribution = text_field(fields, "strImageAttribution")?;
    let str_creative_commons_confirmed = text_field(fields, "strCreativeCommonsConfirmed")?;
    let date_modified = text_field(fields, "dateModified")?;
    Some(Cocktail {
        id_drink,
        str_drink,
        str_drink_alternate,
        str_tags,
        str_video,
        str_category,
        str_iba,
        str_alcoholic,
        str_glass,
        str_instructions,
        str_instructions_es,
        str_instructions_de,
        str_instructions_fr,
        str_instructions_it,
        str_instructions_zh_hans,
        str_instructions_zh_hant,
        str_drink_thumb,
        str_ingredient1,
        str_ingredient2,
        str_ingredient3,
        str_ingredient4,
        str_ingredient5,
        str_ingredient6,
        str_ingredient7,
        str_ingredient8,
        str_ingredient9,
        str_ingredient10,
        str_ingredient11,
        str_ingredient12,
        str_ingredient13,
        str_ingredient14,
        str_ingredient15,
        str_measure1,
        str_measure2,
        str_measure3,
        str_measure4,
        str_measure5,
        str_measure6,
        str_measure7,
        str_measure8,
        str_measure9,
        str_measure10,
        str_measure11,
        str_measure12,
        str_measure13,
        str_measure14,
        str_measure15,
        str_image_source,
        str_image_attribution,
        str_creative_commons_confirmed,
        date_modified,
    })
}

impl Cocktail {
    /// The record as the service writes it: one member per field, `null` for
    /// an absent one.
    pub fn to_json(&self) -> (r: String)
        ensures
            r@ == object_text(cocktail_members(*self)),
    {
        let mut members: Vec<(String, Option<String>)> = Vec::new();
        members.push(("idDrink".to_owned(), text_clone(&self.id_drink)));
        members.push(("strDrink".to_owned(), text_clone(&self.str_drink)));
        members.push(("strDrinkAlternate".to_owned(), text_clone(&self.str_drink_alternate)));
        members.push(("strTags".to_owned(), text_clone(&self.str_tags)));
        members.push(("strVideo".to_owned(), text_clone(&self.str_video)));
        members.push(("strCategory".to_owned(), text_clone(&self.str_category)));
        members.push(("strIBA".to_owned(), text_clone(&self.str_iba)));
        members.push(("strAlcoholic".to_owned(), text_clone(&self.str_alcoholic)));
        members.push(("strGlass".to_owned(), text_clone(&self.str_glass)));
        members.push(("strInstructions".to_owned(), text_clone(&self.str_instructions)));
        members.push(("strInstructionsES".to_owned(), text_clone(&self.str_instructions_es)));
        members.push(("strInstructionsDE".to_owned(), text_clone(&self.str_instructions_de)));
        members.push(("strInstructionsFR".to_owned(), text_clone(&self.str_instructions_fr)));
        members.push(("strInstructionsIT".to_owned(), text_clone(&self.str_instructions_it)));
        members.push(("strInstructionsZH-HANS".to_owned(), text_clone(&self.str_instructions_zh_hans)));
        members.push(("strInstructionsZH-HANT".to_owned(), text_clone(&self.str_instructions_zh_hant)));
        members.push(("strDrinkThumb".to_owned(), text_clone(&self.str_drink_thumb)));
        members.push(("strIngredient1".to_owned(), text_clone(&self.str_ingredient1)));
        members.push(("strIngredient2".to_owned(), text_clone(&self.str_ingredient2)));
        members.push(("strIngredient3".to_owned(), text_clone(&self.str_ingredient3)));
        members.push(("strIngredient4".to_owned(), text_clone(&self.str_ingredient4)));
        members.push(("strIngredient5".to_owned(), text_clone(&self.str_ingredient5)));
        members.push(("strIngredient6".to_owned(), text_clone(&self.str_ingredient6)));
        members.push(("strIngredient7".to_owned(), text_clone(&self.str_ingredient7)));
        members.push(("strIngredient8".to_owned(), text_clone(&self.str_ingredient8)));
        members.push(("strIngredient9".to_owned(), text_clone(&self.str_ingredient9)));
        members.push(("strIngredient10".to_owned(), text_clone(&self.str_ingredient10)));
        members.push(("strIngredient11".to_owned(), text_clone(&self.str_ingredient11)));
        members.push(("strIngredient12".to_owned(), text_clone(&self.str_ingredient12)));
        members.push(("strIngredient13".to_owned(), text_clone(&self.str_ingredient13)));
        members.push(("strIngredient14".to_owned(), text_clone(&self.str_ingredient14)));
        members.push(("strIngredient15".to_owned(), text_clone(&self.str_ingredient15)));
        members.push(("strMeasure1".to_owned(), text_clone(&self.str_measure1)));
        members.push(("strMeasure2".to_owned(), text_clone(&self.str_measure2)));
        members.push(("strMeasure3".to_owned(), text_clone(&self.str_measure3)));
        members.push(("strMeasure4".to_owned(), text_clone(&self.str_measure4)));
        members.push(("strMeasure5".to_owned(), text_clone(&self.str_measure5)));
        members.push(("strMeasure6".to_owned(), text_clone(&self.str_measure6)));
        members.push(("strMeasure7".to_owned(), text_clone(&self.str_measure7)));
        members.push(("strMeasure8".to_owned(), text_clone(&self.str_measure8)));
        members.push(("strMeasure9".to_owned(), text_clone(&self.str_measure9)));
        members.push(("strMeasure10".to_owned(), text_clone(&self.str_measure10)));
        members.push(("strMeasure11".to_owned(), text_clone(&self.str_measure11)));
        members.push(("strMeasure12".to_owned(), text_clone(&self.str_measure12)));
        members.push(("strMeasure13".to_owned(), text_clone(&self.str_measure13)));
        members.push(("strMeasure14".to_owned(), text_clone(&self.str_measure14)));
        members.push(("strMeasure15".to_owned(), text_clone(&self.str_measure15)));
        members.push(("strImageSource".to_owned(), text_clone(&self.str_image_source)));
        members.push(("strImageAttribution".to_owned(), text_clone(&self.str_image_attribution)));
        members.push(("strCreativeCommonsConfirmed".to_owned(), text_clone(&self.str_creative_commons_confirmed)));
        members.push(("dateModified".to_owned(), text_clone(&self.date_modified)));
        proof {
            assert(members_view(members@) =~= cocktail_members(*self));
        }
        render_object(members)
    }
}

/// Whether a JSON value can be read as an Ingredient: an object whose known
/// members are each absent, `null` or a string.
pub open spec fn ingredient_readable(j: Json) -> bool {
    match j {
        Json::Object(fields) => {
            &&& text_readable(fields@, "idIngredient"@)
            &&& text_readable(fields@, "strIngredient"@)
            &&& text_readable(fields@, "strDescription"@)
            &&& text_readable(fields@, "strType"@)
            &&& text_readable(fields@, "strAlcohol"@)
            &&& text_readable(fields@, "strABV"@)
        },
        _ => false,
    }
}

/// Whether `x` is what a JSON value reads as: each field from its member.
pub open spec fn ingredient_decodes(j: Json, x: Ingredient) -> bool {
    match j {
        Json::Object(fields) => {
            &&& reads_text(fields@, "idIngredient"@, x.id_ingredient)
            &&& reads_text(fields@, "strIngredient"@, x.str_ingredient)
            &&& reads_text(fields@, "strDescription"@, x.str_description)
            &&& reads_text(fields@, "strType"@, x.str_type)
            &&& reads_text(fields@, "strAlcohol"@, x.str_alcohol)
            &&& reads_text(fields@, "strABV"@, x.str_abv)
        },
        _ => false,
    }
}

/// The members that `to_json` writes, in order.
pub open spec fn ingredient_members(x: Ingredient) -> Seq<(Seq<char>, Option<Seq<char>>)> {
    seq![
        ("idIngredient"@, opt_view(x.id_ingredient)),
        ("strIngredient"@, opt_view(x.str_ingredient)),
        ("strDescription"@, opt_view(x.str_description)),
        ("strType"@, opt_view(x.str_type)),
        ("strAlcohol"@, opt_view(x.str_alcohol)),
        ("strABV"@, opt_view(x.str_abv))
    ]
}

/// Reads one JSON value as an Ingredient: each field from its member, nothing
/// where the value is not an object or a known member is neither `null` nor
/// a string.
pub fn decode_ingredient(j: &Json) -> (r: Option<Ingredient>)
    ensures
        r is Some <==> ingredient_readable(*j),
        r matches Some(x) ==> ingredient_decodes(*j, x),
{
    let fields = match j {
        Json::Object(fields) => fields,
        _ => return None,
    };
    let id_ingredient = text_field(fields, "idIngredient")?;
    let str_ingredient = text_field(fields, "strIngredient")?;
    let str_description = text_field(fields, "strDescription")?;
    let str_type = text_field(fields, "strType")?;
    let str_alcohol = text_field(fields, "strAlcohol")?;
    let str_abv = text_field(fields, "strABV")?;
    Some(Ingredient {
        id_ingredient,
        str_ingredient,
        str_description,
        str_type,
        str_alcohol,
        str_abv,
    })
}

impl Ingredient {
    /// The record as the service writes it: one member per field, `null` for
    /// an absent one.
    pub fn to_json(&self) -> (r: String)
        ensures
            r@ == object_text(ingredient_members(*self)),
    {
        let mut members: Vec<(String, Option<String>)> = Vec::new();
        members.push(("idIngredient".to_owned(), text_clone(&self.id_ingredient)));
        members.push(("strIngredient".to_owned(), text_clone(&self.str_ingredient)));
        members.push(("strDescription".to_owned(), text_clone(&self.str_description)));
        members.push(("strType".to_owned(), text_clone(&self.str_type)));
        members.push(("strAlcohol".to_owned(), text_clone(&self.str_alcohol)));
        members.push(("strABV".to_owned(), text_clone(&self.str_abv)));
        proof {
            assert(members_view(members@) =~= ingredient_members(*self));
        }
        render_object(members)
    }
}

/// Whether a JSON value can be read as a Filter: an object whose known
/// members are each absent, `null` or a string.
pub open spec fn filter_readable(j: Json) -> bool {
    match j {
        Json::Object(fields) => {
            &&& text_readable(fields@, "strDrink"@)
            &&& text_readable(fields@, "strDrinkThumb"@)
            &&& text_readable(fields@, "idDrink"@)
        },
        _ => false,
    }
}

/// Whether `x` is what a JSON value reads as: each field from its member.
pub open spec fn filter_decodes(j: Json, x: Filter) -> bool {
    match j {
        Json::Object(fields) => {
            &&& reads_text(fields@, "strDrink"@, x.str_drink)
            &&& reads_text(fields@, "strDrinkThumb"@, x.str_drink_thumb)
            &&& reads_text(fields@, "idDrink"@, x.id_drink)
        },
        _ => false,
    }
}

/// The members that `to_json` writes, in order.
pub open spec fn filter_members(x: Filter) -> Seq<(Seq<char>, Option<Seq<char>>)> {
    seq![
        ("strDrink"@, opt_view(x.str_drink)),
        ("strDrinkThumb"@, opt_view(x.str_drink_thumb)),
        ("idDrink"@, opt_view(x.id_drink))
    ]
}

/// Reads one JSON value as a Filter: each field from its member, nothing
/// where the value is not an object or a known member is neither `null` nor
/// a string.
pub fn decode_filter(j: &Json) -> (r: Option<Filter>)
    ensures
        r is Some <==> filter_readable(*j),
        r matches Some(x) ==> filter_decodes(*j, x),
{
    let fields = match j {
        Json::Object(fields) => fields,
        _ => return None,
    };
    let str_drink = text_field(fields, "strDrink")?;
    let str_drink_thumb = text_field(fields, "strDrinkThumb")?;
    let id_drink = text_field(fields, "idDrink")?;
    Some(Filter {
        str_drink,
        str_drink_thumb,
        id_drink,
    })
}

impl Filter {
    /// The record as the service writes it: one member per field, `null` for
    /// an absent one.
    pub fn to_json(&self) -> (r: String)
        ensures
            r@ == object_text(filter_members(*self)),
    {
        let mut members: Vec<(String, Option<String>)> = Vec::new();
        members.push(("strDrink".to_owned(), text_clone(&self.str_drink)));
        members.push(("strDrinkThumb".to_owned(), text_clone(&self.str_drink_thumb)));
        members.push(("idDrink".to_owned(), text_clone(&self.id_drink)));
        proof {
            assert(members_view(members@) =~= filter_members(*self));
        }
        render_object(members)
    }
}

/// Decodes every element of an array in turn; one element that does not
/// decode makes the whole array unreadable.
fn decode_items<T, F: Fn(&Json) -> Option<T>>(items: &Vec<Json>, decode: F) -> (r: Option<Vec<T>>)
    requires
        forall|j: &Json| decode.requires((j,)),
    ensures
        r matches Some(out) ==> {
            &&& out.len() == items.len()
            &&& forall|i: int| 0 <= i < out.len() ==> decode.ensures((&items@[i],), Some(#[trigger] out@[i]))
        },
        r is None ==> exists|i: int| 0 <= i < items.len() && decode.ensures((&items@[i],), None::<T>),
{
    let mut out: Vec<T> = Vec::new();
    let mut i: usize = 0;
    while i < items.len()
        invariant
            forall|j: &Json| decode.requires((j,)),
            i <= items.len(),
            out.len() == i,
            forall|j: int| 0 <= j < i ==> decode.ensures((&items@[j],), Some(#[trigger] out@[j])),
        decreases items.len() - i,
    {
        match decode(&items[i]) {
            Some(x) => out.push(x),
            None => {
                assert(decode.ensures((&items@[i as int],), None::<T>));
                return None;
            },
        }
        i = i + 1;
    }
    Some(out)
}

/// Whether every element can be read as a Cocktail.
pub open spec fn all_cocktail_readable(items: Seq<Json>) -> bool {
    forall|i: int| 0 <= i < items.len() ==> cocktail_readable(#[trigger] items[i])
}

/// Whether `v` holds, in order, what each element reads as.
pub open spec fn all_cocktail_decode(items: Seq<Json>, v: Seq<Cocktail>) -> bool {
    &&& v.len() == items.len()
    &&& forall|i: int| 0 <= i < items.len() ==> cocktail_decodes(#[trigger] items[i], v[i])
}

/// The elements of a `{"drinks": [...]}` body, each decoded, in the order
/// received; nothing where the body is not such an envelope or an element
/// cannot be read.
pub fn decode_cocktails(body: &str) -> (r: Option<Vec<Cocktail>>)
    ensures
        match envelope_items(json_of(body@), "drinks"@) {
            Some(items) => {
                &&& (r is Some <==> all_cocktail_readable(items))
                &&& (r matches Some(v) ==> all_cocktail_decode(items, v@))
            },
            None => r is None,
        },
{
    let doc = parse_json(body);
    match envelope(&doc, "drinks") {
        None => None,
        Some(items) => {
            let r = decode_items(items, decode_cocktail);
            proof {
                match &r {
                    Some(v) => {
                        assert forall|i: int| 0 <= i < items@.len() implies cocktail_decodes(#[trigger] items@[i], v@[i]) && cocktail_readable(items@[i]) by {
                            assert(decode_cocktail.ensures((&items@[i],), Some(v@[i])));
                        }
                    },
                    None => {
                        let i = choose|i: int| 0 <= i < items@.len() && decode_cocktail.ensures((&items@[i],), None::<Cocktail>);
                        assert(!cocktail_readable(items@[i]));
                    },
                }
            }
            r
        },
    }
}

/// Whether every element can be read as a Ingredient.
pub open spec fn all_ingredient_readable(items: Seq<Json>) -> bool {
    forall|i: int| 0 <= i < items.len() ==> ingredient_readable(#[trigger] items[i])
}

/// Whether `v` holds, in order, what each element reads as.
pub open spec fn all_ingredient_decode(items: Seq<Json>, v: Seq<Ingredient>) -> bool {
    &&& v.len() == items.len()
    &&& forall|i: int| 0 <= i < items.len() ==> ingredient_decodes(#[trigger] items[i], v[i])
}

/// The elements of a `{"ingredients": [...]}` body, each decoded, in the order
/// received; nothing where the body is not such an envelope or an element
/// cannot be read.
pub fn decode_ingredients(body: &str) -> (r: Option<Vec<Ingredient>>)
    ensures
        match envelope_items(json_of(body@), "ingredients"@) {
            Some(items) => {
                &&& (r is Some <==> all_ingredient_readable(items))
                &&& (r matches Some(v) ==> all_ingredient_decode(items, v@))
            },
            None => r is None,
        },
{
    let doc = parse_json(body);
    match envelope(&doc, "ingredients") {
        None => None,
        Some(items) => {
            let r = decode_items(items, decode_ingredient);
            proof {
                match &r {
                    Some(v) => {
                        assert forall|i: int| 0 <= i < items@.len() implies ingredient_decodes(#[trigger] items@[i], v@[i]) && ingredient_readable(items@[i]) by {
                            assert(decode_ingredient.ensures((&items@[i],), Some(v@[i])));
                        }
                    },
                    None => {
                        let i = choose|i: int| 0 <= i < items@.len() && decode_ingredient.ensures((&items@[i],), None::<Ingredient>);
                        assert(!ingredient_readable(items@[i]));
                    },
                }
            }
            r
        },
    }
}

/// Whether every element can be read as a Filter.
pub open spec fn all_filter_readable(items: Seq<Json>) -> bool {
    forall|i: int| 0 <= i < items.len() ==> filter_readable(#[trigger] items[i])
}

/// Whether `v` holds, in order, what each element reads as.
pub open spec fn all_filter_decode(items: Seq<Json>, v: Seq<Filter>) -> bool {
    &&& v.len() == items.len()
    &&& forall|i: int| 0 <= i < items.len() ==> filter_decodes(#[trigger] items[i], v[i])
}

/// The elements of a `{"drinks": [...]}` body, each decoded, in the order
/// received; nothing where the body is not such an envelope or an element
/// cannot be read.
pub fn decode_filters(body: &str) -> (r: Option<Vec<Filter>>)
    ensures
        match envelope_items(json_of(body@), "drinks"@) {
            Some(items) => {
                &&& (r is Some <==> all_filter_readable(items))
                &&& (r matches Some(v) ==> all_filter_decode(items, v@))
            },
            None => r is None,
        },
{
    let doc = parse_json(body);
    match envelope(&doc, "drinks") {
        None => None,
        Some(items) => {
            let r = decode_items(items, decode_filter);
            proof {
                match &r {
                    Some(v) => {
                        assert forall|i: int| 0 <= i < items@.len() implies filter_decodes(#[trigger] items@[i], v@[i]) && filter_readable(items@[i]) by {
                            assert(decode_filter.ensures((&items@[i],), Some(v@[i])));
                        }
                    },
                    None => {
                        let i = choose|i: int| 0 <= i < items@.len() && decode_filter.ensures((&items@[i],), None::<Filter>);
                        assert(!filter_readable(items@[i]));
                    },
                }
            }
            r
        },
    }
}

/// The member of a catalogue element that holds its one text.
pub open spec fn listing_field(l: Listing) -> Seq<char> {
    match l {
        Listing::Categories => "strCategory"@,
        Listing::Glasses => "strGlass"@,
        Listing::Ingredients => "strIngredient1"@,
        Listing::Alcoholic => "strAlcoholic"@,
    }
}

impl Listing {
    /// The member of each element that holds its one text.
    pub fn field_key(&self) -> (r: &'static str)
        ensures
            r@ == listing_field(*self),
    {
        match self {
            Listing::Categories => "strCategory",
            Listing::Glasses => "strGlass",
            Listing::Ingredients => "strIngredient1",
            Listing::Alcoholic => "strAlcoholic",
        }
    }
}

/// Whether `s` is the text of an object's member `key`, which must be a string.
pub open spec fn reads_name(j: Json, key: Seq<char>, s: String) -> bool {
    match j {
        Json::Object(fields) => match member(fields@, key) {
            Some(Json::Text(t)) => t@ == s@,
            _ => false,
        },
        _ => false,
    }
}

/// Whether an element is an object whose member `key` is a string.
pub open spec fn name_readable(j: Json, key: Seq<char>) -> bool {
    match j {
        Json::Object(fields) => member(fields@, key) matches Some(Json::Text(_)),
        _ => false,
    }
}

fn decode_name(j: &Json, key: &str) -> (r: Option<String>)
    ensures
        r is Some <==> name_readable(*j, key@),
        r matches Some(s) ==> reads_name(*j, key@, s),
{
    match j {
        Json::Object(fields) => match find_member(fields, key) {
            Some(Json::Text(t)) => Some(t.clone()),
            _ => None,
        },
        _ => None,
    }
}

/// Whether every element holds its text under `key`.
pub open spec fn all_names_readable(items: Seq<Json>, key: Seq<char>) -> bool {
    forall|i: int| 0 <= i < items.len() ==> name_readable(#[trigger] items[i], key)
}

/// Whether `v` holds, in order, one text for each element, from its member `key`.
pub open spec fn all_names_read(items: Seq<Json>, key: Seq<char>, v: Seq<String>) -> bool {
    &&& v.len() == items.len()
    &&& forall|i: int| 0 <= i < items.len() ==> reads_name(#[trigger] items[i], key, v[i])
}

/// The names of a catalogue's `{"drinks": [...]}` body: one for each element,
/// in the order received, taken from the element's one text member.
pub fn decode_names(body: &str, listing: Listing) -> (r: Option<Vec<String>>)
    ensures
        match envelope_items(json_of(body@), "drinks"@) {
            Some(items) => {
                &&& (r is Some <==> all_names_readable(items, listing_field(listing)))
                &&& (r matches Some(v) ==> all_names_read(items, listing_field(listing), v@))
            },
            None => r is None,
        },
{
    let key = listing.field_key();
    let doc = parse_json(body);
    match envelope(&doc, "drinks") {
        None => None,
        Some(items) => {
            let decode = |j: &Json| -> (r: Option<String>)
                ensures
                    r is Some <==> name_readable(*j, key@),
                    r matches Some(s) ==> reads_name(*j, key@, s),
                { decode_name(j, key) };
            let r = decode_items(items, decode);
            proof {
                match &r {
                    Some(v) => {
                        assert forall|i: int| 0 <= i < items@.len() implies reads_name(#[trigger] items@[i], key@, v@[i]) && name_readable(items@[i], key@) by {
                            assert(decode.ensures((&items@[i],), Some(v@[i])));
                        }
                    },
                    None => {
                        let i = choose|i: int| 0 <= i < items@.len() && decode.ensures((&items@[i],), None::<String>);
                        assert(!name_readable(items@[i], key@));
                    },
                }
            }
            r
        },
    }
}

} // verus!
