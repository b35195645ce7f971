//! Validation of region texts against the continents and the countries.

use vstd::prelude::*;
use vstd::string::*;
use crate::text::{uppercase_of, text_view, to_uppercase, str_eq};

verus! {

/// The code of the continent with the given uppercase name.
pub open spec fn continent_code_of(upper: Seq<char>) -> Option<Seq<char>> {
    if upper == "OCEANIA"@ {
        Some("OC"@)
    } else if upper == "ASIA"@ {
        Some("AS"@)
    } else if upper == "AFRICA"@ {
        Some("AF"@)
    } else if upper == "EUROPE"@ {
        Some("EU"@)
    } else if upper == "NORTH AMERICA"@ {
        Some("NA"@)
    } else if upper == "SOUTH AMERICA"@ {
        Some("SA"@)
    } else if upper == "ANTARCTICA"@ {
        Some("AN"@)
    } else {
        None
    }
}

/// The name of the continent with the given uppercase code.
pub open spec fn continent_name_of(upper: Seq<char>) -> Option<Seq<char>> {
    if upper == "OC"@ {
        Some("Oceania"@)
    } else if upper == "AS"@ {
        Some("Asia"@)
    } else if upper == "AF"@ {
        Some("Africa"@)
    } else if upper == "EU"@ {
        Some("Europe"@)
    } else if upper == "NA"@ {
        Some("North America"@)
    } else if upper == "SA"@ {
        Some("South America"@)
    } else if upper == "AN"@ {
        Some("Antarctica"@)
    } else {
        None
    }
}

/// The code of the continent with the given uppercase name.
pub fn continent_code_for(upper: &str) -> (r: Option<String>)
    ensures
        text_view(r) == continent_code_of(upper@),
{
    if str_eq(upper, "OCEANIA") {
        Some("OC".to_owned())
    } else if str_eq(upper, "ASIA") {
        Some("AS".to_owned())
    } else if str_eq(upper, "AFRICA") {
        Some("AF".to_owned())
    } else if str_eq(upper, "EUROPE") {
        Some("EU".to_owned())
    } else if str_eq(upper, "NORTH AMERICA") {
        Some("NA".to_owned())
    } else if str_eq(upper, "SOUTH AMERICA") {
        Some("SA".to_owned())
    } else if str_eq(upper, "ANTARCTICA") {
        Some("AN".to_owned())
    } else {
        None
    }
}

/// The name of the continent with the given uppercase code.
pub fn continent_name_for(upper: &str) -> (r: Option<String>)
    ensures
        text_view(r) == continent_name_of(upper@),
{
    if str_eq(upper, "OC") {
        Some("Oceania".to_owned())
    } else if str_eq(upper, "AS") {
        Some("Asia".to_owned())
    } else if str_eq(upper, "AF") {
        Some("Africa".to_owned())
    } else if str_eq(upper, "EU") {
        Some("Europe".to_owned())
    } else if str_eq(upper, "NA") {
        Some("North America".to_owned())
    } else if str_eq(upper, "SA") {
        Some("South America".to_owned())
    } else if str_eq(upper, "AN") {
        Some("Antarctica".to_owned())
    } else {
        None
    }
}

/// The code of the continent with the given name, in any case.
pub fn get_continent_code(continent: &str) -> (r: Option<String>)
    ensures
        text_view(r) == continent_code_of(uppercase_of(continent@)),
{
    let upper = to_uppercase(continent);
    continent_code_for(upper.as_str())
}

/// The name of the continent with the given code, in any case.
pub fn get_continent_name(continent_code: &str) -> (r: Option<String>)
    ensures
        text_view(r) == continent_name_of(uppercase_of(continent_code@)),
{
    let upper = to_uppercase(continent_code);
    continent_name_for(upper.as_str())
}

/// Whether the text is the name or the code of a continent, in any case.
pub open spec fn names_continent(region: Seq<char>) -> bool {
    continent_code_of(uppercase_of(region)) is Some || continent_name_of(uppercase_of(region))
        is Some
}

/// Whether the text is the name or the code of a continent, in any case.
pub fn is_continent(region: &str) -> (r: bool)
    ensures
        r == names_continent(region@),
{
    if let Some(_) = get_continent_code(region) {
        return true;
    }
    if let Some(_) = get_continent_name(region) {
        return true;
    }
    false
}

/// What is known of a country.
#[derive(Debug)]
pub struct CountryInfo {
    /// The three-digit code.
    pub code: String,
    /// The two-letter code.
    pub alpha2: String,
    /// The official name.
    pub long_name: String,
}

/// The mathematical value of a [`CountryInfo`].
pub ghost struct CountryInfoView {
    pub code: Seq<char>,
    pub alpha2: Seq<char>,
    pub long_name: Seq<char>,
}

impl View for CountryInfo {
    type V = CountryInfoView;

    open spec fn view(&self) -> CountryInfoView {
        CountryInfoView { code: self.code@, alpha2: self.alpha2@, long_name: self.long_name@ }
    }
}

/// The view of an optional country.
pub open spec fn country_view(c: Option<CountryInfo>) -> Option<CountryInfoView> {
    match c {
        Some(info) => Some(info@),
        None => None,
    }
}

/// The country that `celes::Country::from_alpha2` finds for a text, if it
/// finds one.
pub uninterp spec fn celes_from_alpha2(text: Seq<char>) -> Option<CountryInfoView>;

/// The country that `celes::Country::from_name` finds for a text, if it
/// finds one.
pub uninterp spec fn celes_from_name(text: Seq<char>) -> Option<CountryInfoView>;

/// Calls `celes::Country::from_alpha2` and copies the codes and the name of
/// the country found. Trusted: the result depends on the text alone.
#[verifier::external_body]
fn country_by_alpha2(text: &str) -> (r: Option<CountryInfo>)
    ensures
        country_view(r) == celes_from_alpha2(text@),
{
    celes::Country::from_alpha2(text).ok().map(|c| CountryInfo {
        code: c.code.to_string(),
        alpha2: c.alpha2.to_string(),
        long_name: c.long_name.to_string(),
    })
}

/// Calls `celes::Country::from_name` and copies the codes and the name of
/// the country found. Trusted: the result depends on the text alone.
#[verifier::external_body]
fn country_by_name(text: &str) -> (r: Option<CountryInfo>)
    ensures
        country_view(r) == celes_from_name(text@),
{
    celes::Country::from_name(text).ok().map(|c| CountryInfo {
        code: c.code.to_string(),
        alpha2: c.alpha2.to_string(),
        long_name: c.long_name.to_string(),
    })
}

/// What a region text is validated to, given what was found for it: the
/// code of the continent it names, else the name of the continent it is the
/// code of, else the name of the country it is the two-letter code of, else
/// the numeric code of the country it names.
pub open spec fn validated(
    code: Option<Seq<char>>,
    name: Option<Seq<char>>,
    by_alpha2: Option<CountryInfoView>,
    by_name: Option<CountryInfoView>,
) -> Option<Seq<char>> {
    if code is Some {
        code
    } else if name is Some {
        name
    } else if let Some(c) = by_alpha2 {
        Some(c.long_name)
    } else if let Some(c) = by_name {
        Some(c.code)
    } else {
        None
    }
}

/// What a region text is validated to, given what was found for it.
pub fn pick_validated(
    code: Option<String>,
    name: Option<String>,
    by_alpha2: Option<CountryInfo>,
    by_name: Option<CountryInfo>,
) -> (r: Option<String>)
    ensures
        text_view(r) == validated(
            text_view(code),
            text_view(name),
            country_view(by_alpha2),
            country_view(by_name),
        ),
{
    if code.is_some() {
        code
    } else if name.is_some() {
        name
    } else if let Some(c) = by_alpha2 {
        Some(c.long_name)
    } else if let Some(c) = by_name {
        Some(c.code)
    } else {
        None
    }
}

/// What a region text is validated to; nothing where it names no continent
/// and no country.
pub open spec fn validated_region(region: Seq<char>) -> Option<Seq<char>> {
    validated(
        continent_code_of(uppercase_of(region)),
        continent_name_of(uppercase_of(region)),
        celes_from_alpha2(region),
        celes_from_name(region),
    )
}

/// Validates a region text: a continent's name gives its code, a
/// continent's code its name, a country's two-letter code its name, and a
/// country's name its numeric code.
pub fn validate_region(region: &str) -> (r: Option<String>)
    ensures
        text_view(r) == validated_region(region@),
{
    pick_validated(
        get_continent_code(region),
        get_continent_name(region),
        country_by_alpha2(region),
        country_by_name(region),
    )
}

/// The uppercase code under which a region's emoji is kept, given what was
/// found for the region: the region itself where it names a continent, the
/// continent's name where it is the code of one, else the two-letter code
/// of the country it names or is the code of.
pub open spec fn emoji_code(
    upper: Seq<char>,
    code: Option<Seq<char>>,
    name: Option<Seq<char>>,
    by_name: Option<CountryInfoView>,
    by_alpha2: Option<CountryInfoView>,
) -> Option<Seq<char>> {
    if code is Some {
        Some(upper)
    } else if let Some(n) = name {
        Some(uppercase_of(n))
    } else if let Some(c) = by_name {
        Some(uppercase_of(c.alpha2))
    } else if let Some(c) = by_alpha2 {
        Some(uppercase_of(c.alpha2))
    } else {
        None
    }
}

/// The uppercase code under which a region's emoji is kept; nothing where
/// the region names no continent and no country.
pub open spec fn emoji_region_code(region: Seq<char>) -> Option<Seq<char>> {
    emoji_code(
        uppercase_of(region),
        continent_code_of(uppercase_of(region)),
        continent_name_of(uppercase_of(region)),
        celes_from_name(region),
        celes_from_alpha2(region),
    )
}

/// The uppercase code under which a region's emoji is kept, given what was
/// found for the region.
pub fn pick_emoji_code(
    upper: String,
    code: Option<String>,
    name: Option<String>,
    by_name: Option<CountryInfo>,
    by_alpha2: Option<CountryInfo>,
) -> (r: Option<String>)
    ensures
        text_view(r) == emoji_code(
            upper@,
            text_view(code),
            text_view(name),
            country_view(by_name),
            country_view(by_alpha2),
        ),
{
    if code.is_some() {
        Some(upper)
    } else if let Some(n) = name {
        Some(to_uppercase(n.as_str()))
    } else if let Some(c) = by_name {
        Some(to_uppercase(c.alpha2.as_str()))
    } else if let Some(c) = by_alpha2 {
        Some(to_uppercase(c.alpha2.as_str()))
    } else {
        None
    }
}

/// The uppercase code under which a region's emoji is kept.
pub fn get_emoji_safe_region_code(region: &str) -> (r: Option<String>)
    ensures
        text_view(r) == emoji_region_code(region@),
{
    pick_emoji_code(
        to_uppercase(region),
        get_continent_code(region),
        get_continent_name(region),
        country_by_name(region),
        country_by_alpha2(region),
    )
}

} // verus!
