use bping::regions::{Continent, EarthRegion, MacroRegion};
use bping::resolver::{
    alias_lookup, expand_macro_region, lookup_token, parse_alpha_codes, resolve_lookup,
    resolve_regions,
    TokenLookup,
};

fn country(code: &str) -> EarthRegion {
    EarthRegion::Country(code.to_string())
}

fn parse(text: &str) -> Vec<EarthRegion> {
    parse_alpha_codes(text).unwrap()
}

fn nothing_found(lowercase: &str) -> TokenLookup {
    TokenLookup {
        alpha2: None,
        alpha3: None,
        country: None,
        name: None,
        continent: None,
        macro_region: None,
        lowercase: lowercase.to_string(),
    }
}

#[test]
fn codes_and_alias_resolve_in_order() {
    assert_eq!(
        parse("AU,CHN,North America"),
        vec![country("AUS"), country("CHN"), EarthRegion::Continent(Continent::NorthAmerica)]
    );
}

#[test]
fn empty_text_is_anywhere() {
    assert_eq!(parse(""), vec![EarthRegion::Anywhere]);
}

#[test]
fn unresolvable_tokens_are_anywhere() {
    assert_eq!(parse("nowhere-land,??,12345"), vec![EarthRegion::Anywhere]);
}

#[test]
fn america_is_both_americas() {
    assert_eq!(
        parse("america"),
        vec![
            EarthRegion::Continent(Continent::NorthAmerica),
            EarthRegion::Continent(Continent::SouthAmerica)
        ]
    );
}

#[test]
fn anywhere_in_any_case_with_blanks() {
    assert_eq!(parse("anywhere"), vec![EarthRegion::Anywhere]);
    assert_eq!(parse("  AnyWhere "), vec![EarthRegion::Anywhere]);
}

#[test]
fn an_unresolvable_token_does_not_stop_the_rest() {
    assert_eq!(parse("AU,bogus,CHN"), vec![country("AUS"), country("CHN")]);
    assert_eq!(parse("bogus,AU"), vec![country("AUS")]);
    assert_eq!(parse("AU,bogus"), vec![country("AUS")]);
}

#[test]
fn empty_tokens_are_skipped() {
    assert_eq!(parse("AU,,CHN"), vec![country("AUS"), country("CHN")]);
    assert_eq!(parse(",AU,"), vec![country("AUS")]);
    assert_eq!(parse(",,,"), vec![EarthRegion::Anywhere]);
}

#[test]
fn tokens_are_not_trimmed() {
    assert_eq!(parse("AU, CHN"), vec![country("AUS")]);
}

#[test]
fn codes_match_in_any_case() {
    assert_eq!(parse("au"), vec![country("AUS")]);
    assert_eq!(parse("chn"), vec![country("CHN")]);
}

#[test]
fn codes_of_other_schemes_are_countries() {
    assert_eq!(parse("UK"), vec![country("GBR")]);
    assert_eq!(parse("GER"), vec![country("DEU")]);
}

#[test]
fn a_country_name_comes_before_a_continent_name() {
    assert_eq!(parse("Australia"), vec![country("AUS")]);
    assert_eq!(parse("United States of America"), vec![country("USA")]);
}

#[test]
fn continent_names_resolve() {
    assert_eq!(parse("Europe"), vec![EarthRegion::Continent(Continent::Europe)]);
    assert_eq!(parse("north-america"), vec![EarthRegion::Continent(Continent::NorthAmerica)]);
    assert_eq!(parse("South-America"), vec![EarthRegion::Continent(Continent::SouthAmerica)]);
}

#[test]
fn macro_regions_expand() {
    assert_eq!(
        parse("Americas"),
        vec![
            EarthRegion::Continent(Continent::NorthAmerica),
            EarthRegion::Continent(Continent::SouthAmerica)
        ]
    );
    assert_eq!(parse("Oceania"), vec![EarthRegion::Continent(Continent::Australia)]);
    assert_eq!(expand_macro_region(MacroRegion::Africa), vec![Continent::Africa]);
    assert_eq!(expand_macro_region(MacroRegion::Antarctica), vec![Continent::Antarctica]);
    assert_eq!(expand_macro_region(MacroRegion::Asia), vec![Continent::Asia]);
    assert_eq!(expand_macro_region(MacroRegion::Europe), vec![Continent::Europe]);
    assert_eq!(expand_macro_region(MacroRegion::Oceania), vec![Continent::Australia]);
    assert_eq!(
        expand_macro_region(MacroRegion::Americas),
        vec![Continent::NorthAmerica, Continent::SouthAmerica]
    );
}

#[test]
fn aliases_resolve() {
    assert_eq!(alias_lookup("america"), vec![Continent::NorthAmerica, Continent::SouthAmerica]);
    assert_eq!(alias_lookup("af"), vec![Continent::Africa]);
    assert_eq!(alias_lookup("africa"), vec![Continent::Africa]);
    assert_eq!(alias_lookup("an"), vec![Continent::Antarctica]);
    assert_eq!(alias_lookup("antarctica"), vec![Continent::Antarctica]);
    assert_eq!(alias_lookup("as"), vec![Continent::Asia]);
    assert_eq!(alias_lookup("asia"), vec![Continent::Asia]);
    assert_eq!(alias_lookup("eu"), vec![Continent::Europe]);
    assert_eq!(alias_lookup("europe"), vec![Continent::Europe]);
    assert_eq!(alias_lookup("na"), vec![Continent::NorthAmerica]);
    assert_eq!(alias_lookup("north america"), vec![Continent::NorthAmerica]);
    assert_eq!(alias_lookup("oc"), vec![Continent::Australia]);
    assert_eq!(alias_lookup("oceania"), vec![Continent::Australia]);
    assert_eq!(alias_lookup("sa"), vec![Continent::SouthAmerica]);
    assert_eq!(alias_lookup("south america"), vec![Continent::SouthAmerica]);
    assert_eq!(alias_lookup("AMERICA"), Vec::<Continent>::new());
    assert_eq!(alias_lookup(""), Vec::<Continent>::new());
}

#[test]
fn alias_in_any_case() {
    assert_eq!(parse("EU"), vec![EarthRegion::Continent(Continent::Europe)]);
    assert_eq!(parse("South America"), vec![EarthRegion::Continent(Continent::SouthAmerica)]);
}

#[test]
fn lookup_calls_every_table() {
    let l = lookup_token("AU");
    assert_eq!(l.alpha2, Some("AUS".to_string()));
    assert_eq!(l.alpha3, None);
    assert_eq!(l.continent, None);
    assert_eq!(l.macro_region, None);
    assert_eq!(l.lowercase, "au");

    let l = lookup_token("AUS");
    assert_eq!(l.alpha2, None);
    assert_eq!(l.alpha3, Some("AUS".to_string()));
    assert_eq!(l.country, Some("AUS".to_string()));

    let l = lookup_token("Asia");
    assert_eq!(l.alpha2, None);
    assert_eq!(l.alpha3, None);
    assert_eq!(l.country, None);
    assert_eq!(l.name, None);
    assert_eq!(l.continent, Some(Continent::Asia));
    assert_eq!(l.macro_region, Some(MacroRegion::Asia));
    assert_eq!(l.lowercase, "asia");

    let l = lookup_token("Germany");
    assert_eq!(l.name, Some("DEU".to_string()));
    assert_eq!(l.lowercase, "germany");

    let l = lookup_token("Americas");
    assert_eq!(l.continent, None);
    assert_eq!(l.macro_region, Some(MacroRegion::Americas));
}

#[test]
fn first_lookup_that_found_something_decides() {
    let mut l = nothing_found("asia");
    assert_eq!(resolve_lookup(&l), vec![EarthRegion::Continent(Continent::Asia)]);
    l.macro_region = Some(MacroRegion::Americas);
    assert_eq!(
        resolve_lookup(&l),
        vec![
            EarthRegion::Continent(Continent::NorthAmerica),
            EarthRegion::Continent(Continent::SouthAmerica)
        ]
    );
    l.continent = Some(Continent::Europe);
    assert_eq!(resolve_lookup(&l), vec![EarthRegion::Continent(Continent::Europe)]);
    l.name = Some("NNN".to_string());
    assert_eq!(resolve_lookup(&l), vec![country("NNN")]);
    l.country = Some("CCC".to_string());
    assert_eq!(resolve_lookup(&l), vec![country("CCC")]);
    l.alpha3 = Some("BBB".to_string());
    assert_eq!(resolve_lookup(&l), vec![country("BBB")]);
    l.alpha2 = Some("AAA".to_string());
    assert_eq!(resolve_lookup(&l), vec![country("AAA")]);
}

#[test]
fn nothing_found_resolves_to_nothing() {
    assert_eq!(resolve_lookup(&nothing_found("bogus")), Vec::<EarthRegion>::new());
}

#[test]
fn region_texts_and_codes() {
    let c = EarthRegion::Continent(Continent::NorthAmerica);
    assert_eq!(c.to_string(), "north-america");
    assert_eq!(c.get_codes(), (None, Some("NA".to_string())));
    let k = country("AUS");
    assert_eq!(k.to_string(), "AUS");
    assert_eq!(k.get_codes(), (Some("AUS".to_string()), None));
    assert_eq!(EarthRegion::Anywhere.to_string(), "");
    assert_eq!(EarthRegion::Anywhere.get_codes(), (None, None));
    assert_eq!(k.clone(), k);
}

#[test]
fn continent_codes_and_names() {
    assert_eq!(Continent::Africa.code(), "AF");
    assert_eq!(Continent::Antarctica.code(), "AN");
    assert_eq!(Continent::Asia.code(), "AS");
    assert_eq!(Continent::Australia.code(), "OC");
    assert_eq!(Continent::Europe.code(), "EU");
    assert_eq!(Continent::NorthAmerica.code(), "NA");
    assert_eq!(Continent::SouthAmerica.code(), "SA");
    assert_eq!(Continent::Australia.name(), "australia");
    assert_eq!(Continent::SouthAmerica.name(), "south-america");
}

#[test]
fn skipped_tokens_are_reported() {
    let r = resolve_regions("AU,bogus,,CHN");
    assert_eq!(r.regions, vec![country("AUS"), country("CHN")]);
    assert_eq!(r.skipped, vec!["bogus".to_string(), String::new()]);
    assert!(!r.defaulted);

    let r = resolve_regions("bogus");
    assert_eq!(r.regions, vec![EarthRegion::Anywhere]);
    assert_eq!(r.skipped, vec!["bogus".to_string()]);
    assert!(r.defaulted);

    let r = resolve_regions("");
    assert_eq!(r.regions, vec![EarthRegion::Anywhere]);
    assert_eq!(r.skipped, vec![String::new()]);
    assert!(r.defaulted);

    let r = resolve_regions(" ANYWHERE ");
    assert_eq!(r.regions, vec![EarthRegion::Anywhere]);
    assert!(r.skipped.is_empty());
    assert!(!r.defaulted);
}

#[test]
fn tokens_with_other_letters_split_at_commas_only() {
    let r = resolve_regions("é,AU;CHN,日本");
    assert_eq!(r.regions, vec![EarthRegion::Anywhere]);
    assert_eq!(r.skipped, vec!["é".to_string(), "AU;CHN".to_string(), "日本".to_string()]);
    assert!(r.defaulted);
    let r = resolve_regions("é,AU");
    assert_eq!(r.regions, vec![country("AUS")]);
    assert_eq!(r.skipped, vec!["é".to_string()]);
}
