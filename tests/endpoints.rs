use cocktaildb::{Endpoint, Listing, BASE_URL};

fn path(e: Endpoint) -> String {
    e.path()
}

#[test]
fn search_by_name_plain_text_is_sent_as_is() {
    assert_eq!(path(Endpoint::SearchByName("Margarita".to_string())), "search.php?s=Margarita");
}

#[test]
fn search_by_name_escapes_reserved_characters() {
    assert_eq!(
        path(Endpoint::SearchByName("rum & coke 100%".to_string())),
        "search.php?s=rum%20%26%20coke%20100%25"
    );
}

#[test]
fn search_by_name_escapes_non_ascii_as_utf8_bytes() {
    assert_eq!(path(Endpoint::SearchByName("café".to_string())), "search.php?s=caf%C3%A9");
}

#[test]
fn free_text_keeps_unreserved_punctuation() {
    assert_eq!(path(Endpoint::FilterByGlass("a-b.c_d~e".to_string())), "filter.php?g=a-b.c_d~e");
}

#[test]
fn free_text_escapes_equals_hash_and_question_mark() {
    assert_eq!(
        path(Endpoint::SearchIngredient("a=b#c?d/e".to_string())),
        "search.php?i=a%3Db%23c%3Fd%2Fe"
    );
}

#[test]
fn empty_free_text_gives_empty_value() {
    assert_eq!(path(Endpoint::SearchByName(String::new())), "search.php?s=");
}

#[test]
fn search_by_letter_inserts_the_letter() {
    assert_eq!(path(Endpoint::SearchByLetter('a')), "search.php?f=a");
}

#[test]
fn search_ingredient_path() {
    assert_eq!(path(Endpoint::SearchIngredient("vodka".to_string())), "search.php?i=vodka");
}

#[test]
fn lookup_cocktail_path_is_decimal() {
    assert_eq!(path(Endpoint::LookupCocktail(11007)), "lookup.php?i=11007");
}

#[test]
fn lookup_cocktail_zero_and_negative_ids() {
    assert_eq!(path(Endpoint::LookupCocktail(0)), "lookup.php?i=0");
    assert_eq!(path(Endpoint::LookupCocktail(-42)), "lookup.php?i=-42");
}

#[test]
fn lookup_extreme_ids() {
    assert_eq!(path(Endpoint::LookupCocktail(i64::MAX)), "lookup.php?i=9223372036854775807");
    assert_eq!(path(Endpoint::LookupIngredient(i64::MIN)), "lookup.php?iid=-9223372036854775808");
}

#[test]
fn lookup_ingredient_path() {
    assert_eq!(path(Endpoint::LookupIngredient(552)), "lookup.php?iid=552");
}

#[test]
fn random_path() {
    assert_eq!(path(Endpoint::Random), "random.php");
}

#[test]
fn filter_paths() {
    assert_eq!(path(Endpoint::FilterByIngredient("Gin".to_string())), "filter.php?i=Gin");
    assert_eq!(path(Endpoint::FilterByAlcoholic("Non Alcoholic".to_string())), "filter.php?a=Non%20Alcoholic");
    assert_eq!(path(Endpoint::FilterByCategory("Ordinary Drink".to_string())), "filter.php?c=Ordinary%20Drink");
    assert_eq!(path(Endpoint::FilterByGlass("Cocktail glass".to_string())), "filter.php?g=Cocktail%20glass");
}

#[test]
fn list_paths() {
    assert_eq!(path(Endpoint::List(Listing::Categories)), "list.php?c=list");
    assert_eq!(path(Endpoint::List(Listing::Glasses)), "list.php?g=list");
    assert_eq!(path(Endpoint::List(Listing::Ingredients)), "list.php?i=list");
    assert_eq!(path(Endpoint::List(Listing::Alcoholic)), "list.php?a=list");
}

#[test]
fn url_prefixes_the_service_root() {
    assert_eq!(
        Endpoint::LookupCocktail(11007).url(),
        "https://thecocktaildb.com/api/json/v1/1/lookup.php?i=11007"
    );
    assert_eq!(Endpoint::Random.url(), format!("{}random.php", BASE_URL));
}
