use cocktaildb::{
    cocktail_reply, cocktails_reply, decode_cocktails, decode_filters, decode_ingredients,
    decode_names, every_record, filters_reply, first_record, ingredient_reply, names_reply,
    CocktailError, Listing,
};
use cocktaildb::{decode_filter, Json};

fn body(s: &str) -> Option<String> {
    Some(s.to_string())
}

fn is_null_error<T>(r: &Result<T, CocktailError>) -> bool {
    match r {
        Err(e) => e.message() == "null",
        Ok(_) => false,
    }
}

#[test]
fn search_by_name_margarita() {
    let r = cocktails_reply(body(r#"{"drinks":[{"strDrink":"Margarita","idDrink":"11007"}]}"#));
    let drinks = r.unwrap();
    assert_eq!(drinks.len(), 1);
    assert_eq!(drinks[0].str_drink.as_deref(), Some("Margarita"));
    assert_eq!(drinks[0].id_drink.as_deref(), Some("11007"));
}

#[test]
fn search_null_drinks_is_the_error() {
    assert!(is_null_error(&cocktails_reply(body(r#"{"drinks": null}"#))));
}

#[test]
fn search_empty_drinks_is_the_error() {
    assert!(is_null_error(&cocktails_reply(body(r#"{"drinks": []}"#))));
}

#[test]
fn lookup_two_elements_returns_the_first() {
    let r = cocktail_reply(body(
        r#"{"drinks":[{"idDrink":"11007","strDrink":"Margarita"},{"idDrink":"11118","strDrink":"Blue Margarita"}]}"#,
    ));
    let c = r.unwrap();
    assert_eq!(c.id_drink.as_deref(), Some("11007"));
    assert_eq!(c.str_drink.as_deref(), Some("Margarita"));
}

#[test]
fn malformed_body_is_the_same_error_as_no_body() {
    let no_body = cocktails_reply(None);
    let bad = cocktails_reply(body("<html>oops</html>"));
    assert!(is_null_error(&no_body));
    assert!(is_null_error(&bad));
    assert_eq!(no_body, bad);
    assert_eq!(cocktail_reply(body("{")), cocktail_reply(None));
    assert_eq!(ingredient_reply(body("not json")), ingredient_reply(None));
    assert_eq!(filters_reply(body("]")), filters_reply(None));
    assert_eq!(names_reply(body(""), Listing::Glasses), names_reply(None, Listing::Glasses));
}

#[test]
fn empty_array_is_an_error_for_every_shape() {
    assert!(is_null_error(&cocktails_reply(body(r#"{"drinks":[]}"#))));
    assert!(is_null_error(&cocktail_reply(body(r#"{"drinks":[]}"#))));
    assert!(is_null_error(&ingredient_reply(body(r#"{"ingredients":[]}"#))));
    assert!(is_null_error(&filters_reply(body(r#"{"drinks":[]}"#))));
    for l in [Listing::Categories, Listing::Glasses, Listing::Ingredients, Listing::Alcoholic] {
        assert!(is_null_error(&names_reply(body(r#"{"drinks":[]}"#), l)));
    }
}

#[test]
fn wrong_envelope_member_is_the_error() {
    assert!(is_null_error(&ingredient_reply(body(r#"{"drinks":[{"idIngredient":"1"}]}"#))));
    assert!(is_null_error(&cocktails_reply(body(r#"[{"strDrink":"Margarita"}]"#))));
    assert!(is_null_error(&cocktails_reply(body(r#"{"drinks":{"strDrink":"Margarita"}}"#))));
}

#[test]
fn ingredient_search_returns_the_first_match() {
    let r = ingredient_reply(body(
        r#"{"ingredients":[{"idIngredient":"1","strIngredient":"Vodka","strABV":"40","strType":"Vodka","strAlcohol":"Yes","strDescription":null},{"idIngredient":"2","strIngredient":"Gin"}]}"#,
    ));
    let i = r.unwrap();
    assert_eq!(i.id_ingredient.as_deref(), Some("1"));
    assert_eq!(i.str_ingredient.as_deref(), Some("Vodka"));
    assert_eq!(i.str_abv.as_deref(), Some("40"));
    assert_eq!(i.str_type.as_deref(), Some("Vodka"));
    assert_eq!(i.str_alcohol.as_deref(), Some("Yes"));
    assert_eq!(i.str_description, None);
}

#[test]
fn filter_keeps_order_and_length() {
    let r = filters_reply(body(
        r#"{"drinks":[{"strDrink":"B","strDrinkThumb":"t2","idDrink":"2"},{"strDrink":"A","strDrinkThumb":"t1","idDrink":"1"},{"strDrink":"C","idDrink":"3"}]}"#,
    ));
    let v = r.unwrap();
    let names: Vec<Option<&str>> = v.iter().map(|f| f.str_drink.as_deref()).collect();
    assert_eq!(names, vec![Some("B"), Some("A"), Some("C")]);
    assert_eq!(v[0].str_drink_thumb.as_deref(), Some("t2"));
    assert_eq!(v[2].str_drink_thumb, None);
    assert_eq!(v[1].id_drink.as_deref(), Some("1"));
}

#[test]
fn list_keeps_order_and_length() {
    let r = names_reply(
        body(r#"{"drinks":[{"strCategory":"Shot"},{"strCategory":"Cocktail"},{"strCategory":"Shot"}]}"#),
        Listing::Categories,
    );
    assert_eq!(r.unwrap(), vec!["Shot".to_string(), "Cocktail".to_string(), "Shot".to_string()]);
}

#[test]
fn each_listing_reads_its_own_field() {
    let glasses = names_reply(body(r#"{"drinks":[{"strGlass":"Highball glass"}]}"#), Listing::Glasses);
    assert_eq!(glasses.unwrap(), vec!["Highball glass".to_string()]);
    let ingredients =
        names_reply(body(r#"{"drinks":[{"strIngredient1":"Light rum"},{"strIngredient1":"Gin"}]}"#), Listing::Ingredients);
    assert_eq!(ingredients.unwrap(), vec!["Light rum".to_string(), "Gin".to_string()]);
    let alcoholic = names_reply(body(r#"{"drinks":[{"strAlcoholic":"Alcoholic"}]}"#), Listing::Alcoholic);
    assert_eq!(alcoholic.unwrap(), vec!["Alcoholic".to_string()]);
}

#[test]
fn list_element_without_its_field_is_the_error() {
    let r = names_reply(body(r#"{"drinks":[{"strCategory":"Shot"},{"strGlass":"x"}]}"#), Listing::Categories);
    assert!(is_null_error(&r));
    let r = names_reply(body(r#"{"drinks":[{"strCategory":null}]}"#), Listing::Categories);
    assert!(is_null_error(&r));
}

#[test]
fn decoded_fields_keep_their_values_and_absent_fields_are_none() {
    let v = decode_cocktails(
        r#"{"drinks":[{"idDrink":"11007","strDrink":"Margarita","strIBA":"Unforgettables","strInstructionsZH-HANS":"x","strInstructionsDE":"Rand","strIngredient1":"Tequila","strMeasure15":"","strTags":null,"dateModified":"2015-08-18 14:42:59","strCreativeCommonsConfirmed":"Yes"}]}"#,
    )
    .unwrap();
    let c = &v[0];
    assert_eq!(c.id_drink.as_deref(), Some("11007"));
    assert_eq!(c.str_drink.as_deref(), Some("Margarita"));
    assert_eq!(c.str_iba.as_deref(), Some("Unforgettables"));
    assert_eq!(c.str_instructions_zh_hans.as_deref(), Some("x"));
    assert_eq!(c.str_instructions_de.as_deref(), Some("Rand"));
    assert_eq!(c.str_ingredient1.as_deref(), Some("Tequila"));
    assert_eq!(c.str_measure15.as_deref(), Some(""));
    assert_eq!(c.date_modified.as_deref(), Some("2015-08-18 14:42:59"));
    assert_eq!(c.str_creative_commons_confirmed.as_deref(), Some("Yes"));
    assert_eq!(c.str_tags, None);
    assert_eq!(c.str_video, None);
    assert_eq!(c.str_instructions_zh_hant, None);
    assert_eq!(c.str_ingredient2, None);
}

#[test]
fn decoded_record_equals_the_record_written_by_hand() {
    let v = decode_filters(r#"{"drinks":[{"strDrink":"Mojito","idDrink":"11000","extra":5}]}"#).unwrap();
    let expected = cocktaildb::Filter {
        str_drink: Some("Mojito".to_string()),
        str_drink_thumb: None,
        id_drink: Some("11000".to_string()),
    };
    assert_eq!(v, vec![expected]);
}

#[test]
fn non_text_field_makes_the_body_unreadable() {
    assert_eq!(decode_cocktails(r#"{"drinks":[{"idDrink":11007}]}"#), None);
    assert_eq!(decode_ingredients(r#"{"ingredients":[{"strABV":40}]}"#), None);
    assert!(is_null_error(&cocktails_reply(body(r#"{"drinks":[{"strDrink":true}]}"#))));
}

#[test]
fn non_object_element_makes_the_body_unreadable() {
    assert_eq!(decode_filters(r#"{"drinks":["Mojito"]}"#), None);
    assert_eq!(decode_cocktails(r#"{"drinks":[{"strDrink":"A"}, 3]}"#), None);
}

#[test]
fn decode_names_on_plain_values() {
    assert_eq!(decode_names(r#"{"drinks":[]}"#, Listing::Glasses), Some(vec![]));
    assert_eq!(decode_names(r#"{"drinks":null}"#, Listing::Glasses), None);
}

#[test]
fn every_record_keeps_a_non_empty_list() {
    assert_eq!(every_record(Some(vec![3, 1, 2])), Ok(vec![3, 1, 2]));
    assert!(is_null_error(&every_record::<u8>(Some(vec![]))));
    assert!(is_null_error(&every_record::<u8>(None)));
}

#[test]
fn first_record_takes_the_first() {
    assert_eq!(first_record(Some(vec![7, 8, 9])), Ok(7));
    assert!(is_null_error(&first_record::<u8>(Some(vec![]))));
    assert!(is_null_error(&first_record::<u8>(None)));
}

#[test]
fn error_message_is_null() {
    assert_eq!(CocktailError::sentinel(), CocktailError::Error("null".to_string()));
    assert_eq!(CocktailError::sentinel().message(), "null");
}

#[test]
fn wire_keys_are_matched_verbatim() {
    let c = cocktail_reply(body(
        r#"{"drinks":[{"idDrink":"11007","strIBA":"Contemporary Classics","strInstructionsZH-HANS":"X","strIba":"wrong"}]}"#,
    ))
    .unwrap();
    assert_eq!(c.str_iba.as_deref(), Some("Contemporary Classics"));
    assert_eq!(c.str_instructions_zh_hans.as_deref(), Some("X"));
}

#[test]
fn lookup_ingredient_by_id_reads_every_field() {
    let i = ingredient_reply(body(
        r#"{"ingredients":[{"idIngredient":"1","strIngredient":"Vodka","strType":"Vodka","strAlcohol":"Yes","strABV":"40"}]}"#,
    ))
    .unwrap();
    let expected = cocktaildb::Ingredient {
        id_ingredient: Some("1".into()),
        str_ingredient: Some("Vodka".into()),
        str_description: None,
        str_type: Some("Vodka".into()),
        str_alcohol: Some("Yes".into()),
        str_abv: Some("40".into()),
    };
    assert_eq!(i, expected);
}

#[test]
fn search_by_letter_wrong_envelope_is_the_error() {
    assert!(is_null_error(&cocktails_reply(body(r#"{"ingredients":[{"idIngredient":"1"}]}"#))));
}

#[test]
fn decode_filter_on_a_tree_built_by_hand() {
    let item = Json::Object(vec![
        ("idDrink".to_string(), Json::Text("11000".to_string())),
        ("strDrink".to_string(), Json::Null),
        ("other".to_string(), Json::Number("5".to_string())),
    ]);
    let f = decode_filter(&item).unwrap();
    assert_eq!(f.id_drink.as_deref(), Some("11000"));
    assert_eq!(f.str_drink, None);
    assert_eq!(f.str_drink_thumb, None);
    let bad = Json::Object(vec![("idDrink".to_string(), Json::Bool(true))]);
    assert_eq!(decode_filter(&bad), None);
    assert_eq!(decode_filter(&Json::Array(vec![])), None);
}
