use vstd::prelude::*;

verus! {

/// Root of every request; an endpoint's path is appended to it.
pub const BASE_URL: &'static str = "https://thecocktaildb.com/api/json/v1/1/";

/// The UTF-8 bytes of a character.
pub open spec fn utf8_bytes(c: char) -> Seq<u8> {
    let n = c as u32 as int;
    if n < 0x80 {
        seq![n as u8]
    } else if n < 0x800 {
        seq![(0xC0 + n / 64) as u8, (0x80 + n % 64) as u8]
    } else if n < 0x10000 {
        seq![(0xE0 + n / 4096) as u8, (0x80 + (n / 64) % 64) as u8, (0x80 + n % 64) as u8]
    } else {
        seq![
            (0xF0 + n / 262144) as u8,
            (0x80 + (n / 4096) % 64) as u8,
            (0x80 + (n / 64) % 64) as u8,
            (0x80 + n % 64) as u8,
        ]
    }
}

/// An upper-case hexadecimal digit.
pub open spec fn hex_digit(d: int) -> char {
    if d < 10 {
        (('0' as u32) + d) as char
    } else {
        (('A' as u32) + d - 10) as char
    }
}

/// `%` and the two hex digits of a byte.
pub open spec fn escaped_byte(b: u8) -> Seq<char> {
    seq!['%', hex_digit(b as int / 16), hex_digit(b as int % 16)]
}

/// A character as it stands in a query value.
pub open spec fn escaped_char(c: char) -> Seq<char> {
    if is_unreserved(c) {
        seq![c]
    } else {
        utf8_bytes(c).map_values(|b: u8| escaped_byte(b)).flatten()
    }
}

/// A text percent-encoded: unreserved characters as they are, every byte of
/// any other character's UTF-8 form as `%` and two upper-case hex digits.
pub open spec fn percent_encoded(s: Seq<char>) -> Seq<char> {
    s.map_values(|c: char| escaped_char(c)).flatten()
}

/// The characters that percent-encoding leaves as they are.
pub open spec fn is_unreserved(c: char) -> bool {
    ||| ('0' <= c && c <= '9')
    ||| ('A' <= c && c <= 'Z')
    ||| ('a' <= c && c <= 'z')
    ||| c == '-' || c == '.' || c == '_' || c == '~'
}

/// A text that can stand as a query value as it is: nothing in it can end the
/// value or start another parameter.
pub open spec fn is_escaped(s: Seq<char>) -> bool {
    forall|i: int| 0 <= i < s.len() ==> is_unreserved(#[trigger] s[i]) || s[i] == '%'
}

proof fn lemma_flatten_escaped(parts: Seq<Seq<char>>)
    requires
        forall|i: int| 0 <= i < parts.len() ==> is_escaped(#[trigger] parts[i]),
    ensures
        is_escaped(parts.flatten()),
    decreases parts.len(),
{
    if parts.len() > 0 {
        lemma_flatten_escaped(parts.drop_first());
        let a = parts.first();
        let b = parts.drop_first().flatten();
        assert(is_escaped(a));
        assert forall|i: int| 0 <= i < (a + b).len() implies is_unreserved(#[trigger] (a + b)[i]) || (a + b)[i] == '%' by {
            if i < a.len() {
                assert((a + b)[i] == a[i]);
            } else {
                assert((a + b)[i] == b[i - a.len()]);
            }
        }
    }
}

proof fn lemma_byte_escaped(b: u8)
    ensures
        is_escaped(escaped_byte(b)),
{
    let e = escaped_byte(b);
    assert forall|i: int| 0 <= i < e.len() implies is_unreserved(#[trigger] e[i]) || e[i] == '%' by {
        if i > 0 {
            let d = if i == 1 { b as int / 16 } else { b as int % 16 };
            assert(0 <= d < 16);
            assert(e[i] == hex_digit(d));
        }
    }
}

proof fn lemma_char_escaped(c: char)
    ensures
        is_escaped(escaped_char(c)),
{
    if !is_unreserved(c) {
        let parts = utf8_bytes(c).map_values(|b: u8| escaped_byte(b));
        assert forall|i: int| 0 <= i < parts.len() implies is_escaped(#[trigger] parts[i]) by {
            lemma_byte_escaped(utf8_bytes(c)[i]);
        }
        lemma_flatten_escaped(parts);
    }
}

/// A percent-encoded text holds only unreserved characters and `%` escapes,
/// so it cannot end a query value or start another parameter; and a text made
/// only of unreserved characters is its own encoding.
pub proof fn lemma_percent_encoded(s: Seq<char>)
    ensures
        is_escaped(percent_encoded(s)),
        (forall|i: int| 0 <= i < s.len() ==> is_unreserved(#[trigger] s[i])) ==> percent_encoded(s) == s,
    decreases s.len(),
{
    let parts = s.map_values(|c: char| escaped_char(c));
    assert forall|i: int| 0 <= i < parts.len() implies is_escaped(#[trigger] parts[i]) by {
        lemma_char_escaped(s[i]);
    }
    lemma_flatten_escaped(parts);
    if s.len() > 0 {
        lemma_percent_encoded(s.drop_first());
        assert(parts.drop_first() =~= s.drop_first().map_values(|c: char| escaped_char(c)));
        if forall|i: int| 0 <= i < s.len() ==> is_unreserved(#[trigger] s[i]) {
            assert(is_unreserved(s[0]));
            assert(forall|i: int| 0 <= i < s.drop_first().len() ==> is_unreserved(#[trigger] s.drop_first()[i])) by {
                assert forall|i: int| 0 <= i < s.drop_first().len() implies is_unreserved(#[trigger] s.drop_first()[i]) by {
                    assert(s.drop_first()[i] == s[i + 1]);
                }
            }
            assert(s =~= seq![s[0]] + s.drop_first());
        }
    } else {
        assert(percent_encoded(s) =~= s);
    }
}

/// Relies on urlencoding::encode: every byte of the UTF-8 text but ASCII
/// letters, digits and `-`, `.`, `_`, `~` becomes `%` and two upper-case hex
/// digits.
#[verifier::external_body]
fn percent_encode(s: &str) -> (r: String)
    ensures
        r@ == percent_encoded(s@),
{
    urlencoding::encode(s).into_owned()
}

/// Relies on String::push: the character is appended.
#[verifier::external_body]
fn push_char(s: &mut String, c: char)
    ensures
        final(s)@ == old(s)@.push(c),
{
    s.push(c);
}

pub open spec fn digit_char(d: nat) -> char {
    if d == 0 { '0' }
    else if d == 1 { '1' }
    else if d == 2 { '2' }
    else if d == 3 { '3' }
    else if d == 4 { '4' }
    else if d == 5 { '5' }
    else if d == 6 { '6' }
    else if d == 7 { '7' }
    else if d == 8 { '8' }
    else { '9' }
}

/// The decimal digits of a natural number, most significant first.
pub open spec fn digits(n: nat) -> Seq<char>
    decreases n,
{
    if n < 10 {
        seq![digit_char(n)]
    } else {
        digits(n / 10).push(digit_char(n % 10))
    }
}

/// An integer in its canonical decimal form, with `-` before a negative one.
pub open spec fn decimal(i: int) -> Seq<char> {
    if i < 0 {
        seq!['-'] + digits((-i) as nat)
    } else {
        digits(i as nat)
    }
}

fn digit(d: u64) -> (c: char)
    requires
        d < 10,
    ensures
        c == digit_char(d as nat),
{
    if d == 0 { '0' }
    else if d == 1 { '1' }
    else if d == 2 { '2' }
    else if d == 3 { '3' }
    else if d == 4 { '4' }
    else if d == 5 { '5' }
    else if d == 6 { '6' }
    else if d == 7 { '7' }
    else if d == 8 { '8' }
    else { '9' }
}

fn push_digits(out: &mut String, n: u64)
    ensures
        final(out)@ == old(out)@ + digits(n as nat),
    decreases n,
{
    if n >= 10 {
        push_digits(out, n / 10);
    }
    push_char(out, digit(n % 10));
    assert(final(out)@ =~= old(out)@ + digits(n as nat));
}

fn push_decimal(out: &mut String, i: i64)
    ensures
        final(out)@ == old(out)@ + decimal(i as int),
{
    if i < 0 {
        push_char(out, '-');
        let magnitude: u64 = ((-(i + 1)) as u64) + 1;
        push_digits(out, magnitude);
        assert(final(out)@ =~= old(out)@ + decimal(i as int));
    } else {
        push_digits(out, i as u64);
    }
}

/// The four catalogues that the list endpoints answer with.
#[derive(Debug, Clone, Copy, PartialEq, Eq)]
pub enum Listing {
    Categories,
    Glasses,
    Ingredients,
    Alcoholic,
}

/// One query of the service, with its parameter.
#[derive(Debug, Clone, PartialEq)]
pub enum Endpoint {
    /// Cocktails whose name matches the text.
    SearchByName(String),
    /// Cocktails whose name starts with the letter.
    SearchByLetter(char),
    /// The ingredient whose name matches the text.
    SearchIngredient(String),
    /// The cocktail with the given id.
    LookupCocktail(i64),
    /// The ingredient with the given id.
    LookupIngredient(i64),
    /// One cocktail picked by the service.
    Random,
    /// Drinks made with the ingredient.
    FilterByIngredient(String),
    /// Drinks of the alcoholic-content type.
    FilterByAlcoholic(String),
    /// Drinks of the category.
    FilterByCategory(String),
    /// Drinks served in the glass.
    FilterByGlass(String),
    /// The names in one of the catalogues.
    List(Listing),
}

/// The query key under which a catalogue is asked for.
pub open spec fn listing_key(l: Listing) -> char {
    match l {
        Listing::Categories => 'c',
        Listing::Glasses => 'g',
        Listing::Ingredients => 'i',
        Listing::Alcoholic => 'a',
    }
}

/// The path and query of an endpoint, below the service root.
pub open spec fn path_of(e: Endpoint) -> Seq<char> {
    match e {
        Endpoint::SearchByName(s) => "search.php?s="@ + percent_encoded(s@),
        Endpoint::SearchByLetter(c) => "search.php?f="@.push(c),
        Endpoint::SearchIngredient(s) => "search.php?i="@ + percent_encoded(s@),
        Endpoint::LookupCocktail(i) => "lookup.php?i="@ + decimal(i as int),
        Endpoint::LookupIngredient(i) => "lookup.php?iid="@ + decimal(i as int),
        Endpoint::Random => "random.php"@,
        Endpoint::FilterByIngredient(s) => "filter.php?i="@ + percent_encoded(s@),
        Endpoint::FilterByAlcoholic(s) => "filter.php?a="@ + percent_encoded(s@),
        Endpoint::FilterByCategory(s) => "filter.php?c="@ + percent_encoded(s@),
        Endpoint::FilterByGlass(s) => "filter.php?g="@ + percent_encoded(s@),
        Endpoint::List(l) => "list.php?"@.push(listing_key(l)) + "=list"@,
    }
}

/// The free-text parameter of an endpoint, where it takes one.
pub open spec fn free_text(e: Endpoint) -> Option<Seq<char>> {
    match e {
        Endpoint::SearchByName(s) => Some(s@),
        Endpoint::SearchIngredient(s) => Some(s@),
        Endpoint::FilterByIngredient(s) => Some(s@),
        Endpoint::FilterByAlcoholic(s) => Some(s@),
        Endpoint::FilterByCategory(s) => Some(s@),
        Endpoint::FilterByGlass(s) => Some(s@),
        _ => None,
    }
}

impl Listing {
    pub fn key(&self) -> (r: char)
        ensures
            r == listing_key(*self),
    {
        match self {
            Listing::Categories => 'c',
            Listing::Glasses => 'g',
            Listing::Ingredients => 'i',
            Listing::Alcoholic => 'a',
        }
    }
}

fn with_encoded(prefix: &str, s: &String) -> (r: String)
    ensures
        r@ == prefix@ + percent_encoded(s@),
        is_escaped(percent_encoded(s@)),
        (forall|i: int| 0 <= i < s@.len() ==> is_unreserved(#[trigger] s@[i]))
            ==> percent_encoded(s@) == s@,
{
    proof {
        lemma_percent_encoded(s@);
    }
    let mut r = prefix.to_owned();
    let enc = percent_encode(s.as_str());
    r.append(enc.as_str());
    r
}

fn with_decimal(prefix: &str, i: i64) -> (r: String)
    ensures
        r@ == prefix@ + decimal(i as int),
{
    let mut r = prefix.to_owned();
    push_decimal(&mut r, i);
    r
}

impl Endpoint {
    /// The path and query of the request, below the service root. A free-text
    /// parameter is percent-encoded, so that everything after the `=` is
    /// letters, digits, `-`, `.`, `_`, `~` and `%` escapes, and a text made
    /// of those characters only is sent as it is.
    pub fn path(&self) -> (r: String)
        ensures
            r@ == path_of(*self),
            free_text(*self) matches Some(t) ==> {
                &&& is_escaped(percent_encoded(t))
                &&& (forall|i: int| 0 <= i < t.len() ==> is_unreserved(#[trigger] t[i]))
                    ==> percent_encoded(t) == t
            },
    {
        match self {
            Endpoint::SearchByName(s) => with_encoded("search.php?s=", s),
            Endpoint::SearchByLetter(c) => {
                let mut r = "search.php?f=".to_owned();
                push_char(&mut r, *c);
                r
            },
            Endpoint::SearchIngredient(s) => with_encoded("search.php?i=", s),
            Endpoint::LookupCocktail(i) => with_decimal("lookup.php?i=", *i),
            Endpoint::LookupIngredient(i) => with_decimal("lookup.php?iid=", *i),
            Endpoint::Random => "random.php".to_owned(),
            Endpoint::FilterByIngredient(s) => with_encoded("filter.php?i=", s),
            Endpoint::FilterByAlcoholic(s) => with_encoded("filter.php?a=", s),
            Endpoint::FilterByCategory(s) => with_encoded("filter.php?c=", s),
            Endpoint::FilterByGlass(s) => with_encoded("filter.php?g=", s),
            Endpoint::List(l) => {
                let mut r = "list.php?".to_owned();
                push_char(&mut r, l.key());
                r.append("=list");
                r
            },
        }
    }

    /// The full address of the request.
    pub fn url(&self) -> (r: String)
        ensures
            r@ == BASE_URL@ + path_of(*self),
    {
        let mut r = BASE_URL.to_owned();
        let p = self.path();
        r.append(p.as_str());
        r
    }
}

} // verus!
