//! Resolution of free-form, comma-separated text into regions.
//!
//! Each token is looked up, first match wins, as: a two-letter country code,
//! a three-letter country code, a country code of another scheme, a country
//! name, a continent name, a macro-region name, and at last one of the short
//! aliases. A token that nothing matches is skipped. Where nothing at all was
//! found the result is the single region `Anywhere`.

use vstd::prelude::*;
use vstd::string::*;
use crate::text::{lowercase_of, trimmed_of, text_view, text_views, to_lowercase, trim, str_eq};
use crate::errors::ValidationErrors;
use crate::regions::{Continent, MacroRegion, EarthRegion, RegionView, region_views, continent_regions};

verus! {

/// What is taken from a country that a lookup found.
#[derive(Debug)]
pub struct CountryFacts {
    /// The three-letter code.
    pub alpha3: String,
    /// The flag.
    pub emoji: String,
    /// The short name.
    pub short_name: String,
}

/// The mathematical value of a [`CountryFacts`].
pub ghost struct CountryFactsView {
    pub alpha3: Seq<char>,
    pub emoji: Seq<char>,
    pub short_name: Seq<char>,
}

impl View for CountryFacts {
    type V = CountryFactsView;

    open spec fn view(&self) -> CountryFactsView {
        CountryFactsView {
            alpha3: self.alpha3@,
            emoji: self.emoji@,
            short_name: self.short_name@,
        }
    }
}

/// The view of an optional country.
pub open spec fn facts_view(c: Option<CountryFacts>) -> Option<CountryFactsView> {
    match c {
        Some(f) => Some(f@),
        None => None,
    }
}

/// The three-letter code of an optional country.
pub open spec fn alpha3_of(c: Option<CountryFactsView>) -> Option<Seq<char>> {
    match c {
        Some(f) => Some(f.alpha3),
        None => None,
    }
}

/// The country that `keshvar::Alpha2::try_from` finds for a text, if it
/// finds one.
pub uninterp spec fn keshvar_alpha2(token: Seq<char>) -> Option<CountryFactsView>;

/// The three-letter code of the country that `keshvar::Alpha3::try_from`
/// finds for a text, if it finds one.
pub uninterp spec fn keshvar_alpha3(token: Seq<char>) -> Option<Seq<char>>;

/// The three-letter code of the country that `keshvar::Country::try_from`
/// finds for a text, if it finds one.
pub uninterp spec fn keshvar_country(token: Seq<char>) -> Option<Seq<char>>;

/// The three-letter code of the country that
/// `keshvar::find_by_iso_short_name` finds for a text, if it finds one.
pub uninterp spec fn keshvar_short_name(token: Seq<char>) -> Option<Seq<char>>;

/// The continent with the given lowercase name.
pub open spec fn continent_named(lower: Seq<char>) -> Option<Continent> {
    if lower == "africa"@ {
        Some(Continent::Africa)
    } else if lower == "antarctica"@ {
        Some(Continent::Antarctica)
    } else if lower == "asia"@ {
        Some(Continent::Asia)
    } else if lower == "australia"@ {
        Some(Continent::Australia)
    } else if lower == "europe"@ {
        Some(Continent::Europe)
    } else if lower == "north-america"@ {
        Some(Continent::NorthAmerica)
    } else if lower == "south-america"@ {
        Some(Continent::SouthAmerica)
    } else {
        None
    }
}

/// The macro-region with the given lowercase name.
pub open spec fn macro_region_named(lower: Seq<char>) -> Option<MacroRegion> {
    if lower == "africa"@ {
        Some(MacroRegion::Africa)
    } else if lower == "americas"@ {
        Some(MacroRegion::Americas)
    } else if lower == "antarctica"@ {
        Some(MacroRegion::Antarctica)
    } else if lower == "asia"@ {
        Some(MacroRegion::Asia)
    } else if lower == "europe"@ {
        Some(MacroRegion::Europe)
    } else if lower == "oceania"@ {
        Some(MacroRegion::Oceania)
    } else {
        None
    }
}

/// The continents that a macro-region expands to.
pub open spec fn macro_region_continents(r: MacroRegion) -> Seq<Continent> {
    match r {
        MacroRegion::Africa => seq![Continent::Africa],
        MacroRegion::Americas => seq![Continent::NorthAmerica, Continent::SouthAmerica],
        MacroRegion::Antarctica => seq![Continent::Antarctica],
        MacroRegion::Asia => seq![Continent::Asia],
        MacroRegion::Europe => seq![Continent::Europe],
        MacroRegion::Oceania => seq![Continent::Australia],
    }
}

/// The continents that a lowercase alias stands for; none for a text that is
/// no alias.
pub open spec fn alias_continents(lower: Seq<char>) -> Seq<Continent> {
    if lower == "america"@ {
        seq![Continent::NorthAmerica, Continent::SouthAmerica]
    } else if lower == "af"@ || lower == "africa"@ {
        seq![Continent::Africa]
    } else if lower == "an"@ || lower == "antarctica"@ {
        seq![Continent::Antarctica]
    } else if lower == "as"@ || lower == "asia"@ {
        seq![Continent::Asia]
    } else if lower == "eu"@ || lower == "europe"@ {
        seq![Continent::Europe]
    } else if lower == "na"@ || lower == "north america"@ {
        seq![Continent::NorthAmerica]
    } else if lower == "oc"@ || lower == "oceania"@ {
        seq![Continent::Australia]
    } else if lower == "sa"@ || lower == "south america"@ {
        seq![Continent::SouthAmerica]
    } else {
        seq![]
    }
}

/// What the lookups found for one token.
#[derive(Debug)]
pub struct TokenLookup {
    /// The country with the token as its two-letter code.
    pub alpha2: Option<String>,
    /// The country with the token as its three-letter code.
    pub alpha3: Option<String>,
    /// The country with the token as a code of another scheme.
    pub country: Option<String>,
    /// The country with the token as its name.
    pub name: Option<String>,
    /// The continent with the token as its name.
    pub continent: Option<Continent>,
    /// The macro-region with the token as its name.
    pub macro_region: Option<MacroRegion>,
    /// The token in lowercase.
    pub lowercase: String,
}

/// The mathematical value of a [`TokenLookup`].
pub ghost struct TokenLookupView {
    pub alpha2: Option<Seq<char>>,
    pub alpha3: Option<Seq<char>>,
    pub country: Option<Seq<char>>,
    pub name: Option<Seq<char>>,
    pub continent: Option<Continent>,
    pub macro_region: Option<MacroRegion>,
    pub lowercase: Seq<char>,
}

impl View for TokenLookup {
    type V = TokenLookupView;

    open spec fn view(&self) -> TokenLookupView {
        TokenLookupView {
            alpha2: text_view(self.alpha2),
            alpha3: text_view(self.alpha3),
            country: text_view(self.country),
            name: text_view(self.name),
            continent: self.continent,
            macro_region: self.macro_region,
            lowercase: self.lowercase@,
        }
    }
}

/// What the lookups find for a token.
pub open spec fn lookup_of(token: Seq<char>) -> TokenLookupView {
    TokenLookupView {
        alpha2: alpha3_of(keshvar_alpha2(token)),
        alpha3: keshvar_alpha3(token),
        country: keshvar_country(token),
        name: keshvar_short_name(token),
        continent: continent_named(lowercase_of(token)),
        macro_region: macro_region_named(lowercase_of(token)),
        lowercase: lowercase_of(token),
    }
}

/// The regions that a token resolves to, given what the lookups found: the
/// first lookup that found something decides.
pub open spec fn resolved_regions(l: TokenLookupView) -> Seq<RegionView> {
    if let Some(code) = l.alpha2 {
        seq![RegionView::Country(code)]
    } else if let Some(code) = l.alpha3 {
        seq![RegionView::Country(code)]
    } else if let Some(code) = l.country {
        seq![RegionView::Country(code)]
    } else if let Some(code) = l.name {
        seq![RegionView::Country(code)]
    } else if let Some(c) = l.continent {
        seq![RegionView::Continent(c)]
    } else if let Some(r) = l.macro_region {
        continent_regions(macro_region_continents(r))
    } else {
        continent_regions(alias_continents(l.lowercase))
    }
}

/// The regions that one token resolves to; none where nothing matches.
pub open spec fn resolve_token(token: Seq<char>) -> Seq<RegionView> {
    resolved_regions(lookup_of(token))
}

/// The index of the first comma of a text, or its length where it has none.
pub open spec fn first_comma(s: Seq<char>) -> int
    decreases s.len(),
{
    if s.len() == 0 || s[0] == ',' {
        0
    } else {
        1 + first_comma(s.subrange(1, s.len() as int))
    }
}

/// The tokens of a text between its commas, in order. A text without a comma
/// is one token, the empty text too.
pub open spec fn split_commas(s: Seq<char>) -> Seq<Seq<char>>
    decreases s.len(),
{
    let k = first_comma(s);
    if 0 <= k < s.len() {
        seq![s.subrange(0, k)] + split_commas(s.subrange(k + 1, s.len() as int))
    } else {
        seq![s]
    }
}

/// The regions that a list of tokens resolves to, token by token, in order.
pub open spec fn resolve_tokens(tokens: Seq<Seq<char>>) -> Seq<RegionView>
    decreases tokens.len(),
{
    if tokens.len() == 0 {
        seq![]
    } else {
        resolve_token(tokens[0]) + resolve_tokens(tokens.subrange(1, tokens.len() as int))
    }
}

/// The tokens of a list that resolve to nothing, in order.
pub open spec fn skipped_tokens(tokens: Seq<Seq<char>>) -> Seq<Seq<char>>
    decreases tokens.len(),
{
    if tokens.len() == 0 {
        seq![]
    } else if resolve_token(tokens[0]).len() == 0 {
        seq![tokens[0]] + skipped_tokens(tokens.subrange(1, tokens.len() as int))
    } else {
        skipped_tokens(tokens.subrange(1, tokens.len() as int))
    }
}

/// Whether a text is the word "anywhere", in any case, with blanks around
/// it or without.
pub open spec fn says_anywhere(s: Seq<char>) -> bool {
    lowercase_of(trimmed_of(s)) == "anywhere"@
}

/// The regions that a text resolves to: anywhere for the word "anywhere";
/// else what its tokens resolve to, in order; anywhere again where that is
/// nothing.
pub open spec fn parsed_regions(s: Seq<char>) -> Seq<RegionView> {
    let found = resolve_tokens(split_commas(s));
    if says_anywhere(s) || found.len() == 0 {
        seq![RegionView::Anywhere]
    } else {
        found
    }
}

/// The tokens of a text that were skipped because nothing matched them, in
/// order; none for the word "anywhere".
pub open spec fn parsed_skipped(s: Seq<char>) -> Seq<Seq<char>> {
    if says_anywhere(s) {
        seq![]
    } else {
        skipped_tokens(split_commas(s))
    }
}

/// Whether a text resolves to anywhere only because nothing in it was
/// found.
pub open spec fn parsed_defaulted(s: Seq<char>) -> bool {
    !says_anywhere(s) && resolve_tokens(split_commas(s)).len() == 0
}

/// What a text was resolved to.
#[derive(Debug)]
pub struct Resolution {
    /// The regions, in the order of their tokens; never empty.
    pub regions: Vec<EarthRegion>,
    /// The tokens that nothing matched, in order.
    pub skipped: Vec<String>,
    /// Whether the regions are anywhere only because nothing was found.
    pub defaulted: bool,
}

/// Calls `keshvar::Alpha2::try_from` and copies the code, the flag and the
/// short name of the country found. Trusted: the result depends on the
/// token alone.
#[verifier::external_body]
pub(crate) fn alpha2_country(token: &str) -> (r: Option<CountryFacts>)
    ensures
        facts_view(r) == keshvar_alpha2(token@),
{
    match keshvar::Alpha2::try_from(token) {
        Ok(a) => Some(
            CountryFacts {
                alpha3: a.to_country().alpha3().to_string(),
                emoji: a.to_country().emoji().to_string(),
                short_name: a.to_country().iso_short_name().to_string(),
            },
        ),
        Err(_) => None,
    }
}

/// Calls `keshvar::Alpha3::try_from` and takes the three-letter code of the
/// country found. Trusted: the result depends on the token alone.
#[verifier::external_body]
fn alpha3_country(token: &str) -> (r: Option<String>)
    ensures
        text_view(r) == keshvar_alpha3(token@),
{
    match keshvar::Alpha3::try_from(token) {
        Ok(a) => Some(a.to_country().alpha3().to_string()),
        Err(_) => None,
    }
}

/// Calls `keshvar::Country::try_from`, which also knows the country codes of
/// other schemes, and takes the three-letter code of the country found.
/// Trusted: the result depends on the token alone.
#[verifier::external_body]
fn coded_country(token: &str) -> (r: Option<String>)
    ensures
        text_view(r) == keshvar_country(token@),
{
    match keshvar::Country::try_from(token) {
        Ok(c) => Some(c.alpha3().to_string()),
        Err(_) => None,
    }
}

/// Calls `keshvar::find_by_iso_short_name` and takes the three-letter code
/// of the country found. Trusted: the result depends on the token alone.
#[verifier::external_body]
fn named_country(token: &str) -> (r: Option<String>)
    ensures
        text_view(r) == keshvar_short_name(token@),
{
    match keshvar::find_by_iso_short_name(token) {
        Ok(c) => Some(c.alpha3().to_string()),
        Err(_) => None,
    }
}

/// Calls `keshvar::Continent::try_from`. Trusted: it finds the continent
/// whose name is the token in lowercase.
#[verifier::external_body]
fn named_continent(token: &str) -> (r: Option<Continent>)
    ensures
        r == continent_named(lowercase_of(token@)),
{
    match keshvar::Continent::try_from(token) {
        Ok(keshvar::Continent::Africa) => Some(Continent::Africa),
        Ok(keshvar::Continent::Antarctica) => Some(Continent::Antarctica),
        Ok(keshvar::Continent::Asia) => Some(Continent::Asia),
        Ok(keshvar::Continent::Australia) => Some(Continent::Australia),
        Ok(keshvar::Continent::Europe) => Some(Continent::Europe),
        Ok(keshvar::Continent::NorthAmerica) => Some(Continent::NorthAmerica),
        Ok(keshvar::Continent::SouthAmerica) => Some(Continent::SouthAmerica),
        Err(_) => None,
    }
}

/// Calls `keshvar::Region::try_from`. Trusted: it finds the macro-region
/// whose name is the token in lowercase.
#[verifier::external_body]
fn named_macro_region(token: &str) -> (r: Option<MacroRegion>)
    ensures
        r == macro_region_named(lowercase_of(token@)),
{
    match keshvar::Region::try_from(token) {
        Ok(keshvar::Region::Africa) => Some(MacroRegion::Africa),
        Ok(keshvar::Region::Americas) => Some(MacroRegion::Americas),
        Ok(keshvar::Region::Antarctica) => Some(MacroRegion::Antarctica),
        Ok(keshvar::Region::Asia) => Some(MacroRegion::Asia),
        Ok(keshvar::Region::Europe) => Some(MacroRegion::Europe),
        Ok(keshvar::Region::Oceania) => Some(MacroRegion::Oceania),
        Err(_) => None,
    }
}

/// The continents that a macro-region expands to.
pub fn expand_macro_region(r: MacroRegion) -> (v: Vec<Continent>)
    ensures
        v@ == macro_region_continents(r),
{
    let v = match r {
        MacroRegion::Africa => vec![Continent::Africa],
        MacroRegion::Americas => vec![Continent::NorthAmerica, Continent::SouthAmerica],
        MacroRegion::Antarctica => vec![Continent::Antarctica],
        MacroRegion::Asia => vec![Continent::Asia],
        MacroRegion::Europe => vec![Continent::Europe],
        MacroRegion::Oceania => vec![Continent::Australia],
    };
    assert(v@ =~= macro_region_continents(r));
    v
}

/// The continents that a lowercase alias stands for; none for a text that is
/// no alias.
pub fn alias_lookup(lower: &str) -> (v: Vec<Continent>)
    ensures
        v@ == alias_continents(lower@),
{
    let v = if str_eq(lower, "america") {
        vec![Continent::NorthAmerica, Continent::SouthAmerica]
    } else if str_eq(lower, "af") || str_eq(lower, "africa") {
        vec![Continent::Africa]
    } else if str_eq(lower, "an") || str_eq(lower, "antarctica") {
        vec![Continent::Antarctica]
    } else if str_eq(lower, "as") || str_eq(lower, "asia") {
        vec![Continent::Asia]
    } else if str_eq(lower, "eu") || str_eq(lower, "europe") {
        vec![Continent::Europe]
    } else if str_eq(lower, "na") || str_eq(lower, "north america") {
        vec![Continent::NorthAmerica]
    } else if str_eq(lower, "oc") || str_eq(lower, "oceania") {
        vec![Continent::Australia]
    } else if str_eq(lower, "sa") || str_eq(lower, "south america") {
        vec![Continent::SouthAmerica]
    } else {
        Vec::new()
    };
    assert(v@ =~= alias_continents(lower@));
    v
}

/// The regions that stand for a list of continents, in order.
fn regions_of_continents(c: &Vec<Continent>) -> (v: Vec<EarthRegion>)
    ensures
        region_views(v@) == continent_regions(c@),
{
    let mut v: Vec<EarthRegion> = Vec::new();
    let mut i: usize = 0;
    while i < c.len()
        invariant
            0 <= i <= c.len(),
            v.len() == i,
            forall|j: int| 0 <= j < i ==> (#[trigger] v[j])@ == RegionView::Continent(c[j]),
        decreases c.len() - i,
    {
        v.push(EarthRegion::Continent(c[i]));
        i = i + 1;
    }
    assert(region_views(v@) =~= continent_regions(c@));
    v
}

/// Looks one token up in every table.
pub fn lookup_token(token: &str) -> (l: TokenLookup)
    ensures
        l@ == lookup_of(token@),
{
    let alpha2 = match alpha2_country(token) {
        Some(facts) => Some(facts.alpha3),
        None => None,
    };
    TokenLookup {
        alpha2,
        alpha3: alpha3_country(token),
        country: coded_country(token),
        name: named_country(token),
        continent: named_continent(token),
        macro_region: named_macro_region(token),
        lowercase: to_lowercase(token),
    }
}

/// The regions that a token resolves to, given what the lookups found: the
/// first lookup that found something decides, in the order two-letter code,
/// three-letter code, other code, name, continent, macro-region, alias.
pub fn resolve_lookup(l: &TokenLookup) -> (v: Vec<EarthRegion>)
    ensures
        region_views(v@) == resolved_regions(l@),
{
    let v = if let Some(code) = &l.alpha2 {
        vec![EarthRegion::Country(code.clone())]
    } else if let Some(code) = &l.alpha3 {
        vec![EarthRegion::Country(code.clone())]
    } else if let Some(code) = &l.country {
        vec![EarthRegion::Country(code.clone())]
    } else if let Some(code) = &l.name {
        vec![EarthRegion::Country(code.clone())]
    } else if let Some(c) = l.continent {
        vec![EarthRegion::Continent(c)]
    } else if let Some(r) = l.macro_region {
        let continents = expand_macro_region(r);
        regions_of_continents(&continents)
    } else {
        let continents = alias_lookup(l.lowercase.as_str());
        regions_of_continents(&continents)
    };
    assert(region_views(v@) =~= resolved_regions(l@));
    v
}

/// A prefix without a comma that ends at a comma or at the end of the text
/// ends at the first comma.
proof fn lemma_first_comma(s: Seq<char>, k: int)
    requires
        0 <= k <= s.len(),
        forall|i: int| 0 <= i < k ==> s[i] != ',',
        k < s.len() ==> s[k] == ',',
    ensures
        first_comma(s) == k,
    decreases s.len(),
{
    if s.len() == 0 || k == 0 {
    } else {
        let rest = s.subrange(1, s.len() as int);
        assert forall|i: int| 0 <= i < k - 1 implies rest[i] != ',' by {
            assert(rest[i] == s[i + 1]);
        }
        lemma_first_comma(rest, k - 1);
    }
}

/// The first token of a list with what it resolves to, and the skipped
/// tokens with it if it resolves to nothing, go before those of the rest.
proof fn lemma_first_token(first: Seq<char>, rest: Seq<Seq<char>>)
    ensures
        resolve_tokens(seq![first] + rest) == resolve_token(first) + resolve_tokens(rest),
        skipped_tokens(seq![first] + rest) == if resolve_token(first).len() == 0 {
            seq![first] + skipped_tokens(rest)
        } else {
            skipped_tokens(rest)
        },
{
    let tokens = seq![first] + rest;
    assert(tokens[0] == first);
    assert(tokens.subrange(1, tokens.len() as int) =~= rest);
}

/// The tokens of a text are resolved one by one: those of one list and then
/// those of another are those of the two lists in a row. So a token that
/// nothing matches takes nothing from the tokens around it.
pub proof fn lemma_tokens_independent(a: Seq<Seq<char>>, b: Seq<Seq<char>>)
    ensures
        resolve_tokens(a + b) == resolve_tokens(a) + resolve_tokens(b),
        skipped_tokens(a + b) == skipped_tokens(a) + skipped_tokens(b),
    decreases a.len(),
{
    if a.len() == 0 {
        assert(a + b =~= b);
        assert(resolve_tokens(a) + resolve_tokens(b) =~= resolve_tokens(b));
        assert(skipped_tokens(a) + skipped_tokens(b) =~= skipped_tokens(b));
    } else {
        let rest = a.subrange(1, a.len() as int);
        assert(a =~= seq![a[0]] + rest);
        assert(a + b =~= seq![a[0]] + (rest + b));
        lemma_first_token(a[0], rest);
        lemma_first_token(a[0], rest + b);
        lemma_tokens_independent(rest, b);
        assert((resolve_token(a[0]) + resolve_tokens(rest)) + resolve_tokens(b) =~= resolve_token(
            a[0],
        ) + (resolve_tokens(rest) + resolve_tokens(b)));
        assert((seq![a[0]] + skipped_tokens(rest)) + skipped_tokens(b) =~= seq![a[0]] + (
        skipped_tokens(rest) + skipped_tokens(b)));
    }
}

/// The tokens of a text are its first token and then the tokens of what
/// follows the first comma.
proof fn lemma_split_first(s: Seq<char>)
    ensures
        split_commas(s) == if 0 <= first_comma(s) < s.len() {
            seq![s.subrange(0, first_comma(s))] + split_commas(
                s.subrange(first_comma(s) + 1, s.len() as int),
            )
        } else {
            seq![s]
        },
{
}

/// The first comma of a text is a comma, and nothing before it is one.
proof fn lemma_first_comma_is_first(s: Seq<char>)
    ensures
        0 <= first_comma(s) <= s.len(),
        forall|i: int| 0 <= i < first_comma(s) ==> s[i] != ',',
        first_comma(s) < s.len() ==> s[first_comma(s)] == ',',
    decreases s.len(),
{
    if s.len() == 0 || s[0] == ',' {
    } else {
        let rest = s.subrange(1, s.len() as int);
        lemma_first_comma_is_first(rest);
        assert forall|i: int| 0 <= i < first_comma(s) implies s[i] != ',' by {
            if i > 0 {
                assert(s[i] == rest[i - 1]);
            }
        }
        if first_comma(s) < s.len() {
            assert(s[first_comma(s)] == rest[first_comma(rest)]);
        }
    }
}

/// The tokens of two texts joined by a comma are the tokens of the first
/// and then those of the second.
pub proof fn lemma_split_joined(a: Seq<char>, b: Seq<char>)
    ensures
        split_commas(a + seq![','] + b) == split_commas(a) + split_commas(b),
    decreases a.len(),
{
    let s = a + seq![','] + b;
    let k = first_comma(a);
    lemma_first_comma_is_first(a);
    assert forall|i: int| 0 <= i < k implies s[i] != ',' by {
        assert(s[i] == a[i]);
    }
    if k < a.len() {
        assert(s[k] == a[k]);
        lemma_first_comma(s, k);
        let rest = a.subrange(k + 1, a.len() as int);
        assert(s.subrange(0, k) =~= a.subrange(0, k));
        assert(s.subrange(k + 1, s.len() as int) =~= rest + seq![','] + b);
        lemma_split_joined(rest, b);
        lemma_split_first(a);
        lemma_split_first(s);
        assert(seq![a.subrange(0, k)] + (split_commas(rest) + split_commas(b)) =~= (seq![
            a.subrange(0, k),
        ] + split_commas(rest)) + split_commas(b));
    } else {
        assert(s[k] == ',');
        lemma_first_comma(s, k);
        assert(s.subrange(0, k) =~= a);
        assert(s.subrange(k + 1, s.len() as int) =~= b);
        lemma_split_first(a);
        lemma_split_first(s);
    }
}

/// Two texts joined by a comma resolve to what the first resolves to and
/// then what the second resolves to, and the tokens skipped are those of
/// the first and then those of the second: neither text takes anything from
/// the other. This holds of the tokens always, and of the whole resolution
/// unless the joined text is the word "anywhere".
pub proof fn lemma_joined_texts(a: Seq<char>, b: Seq<char>)
    ensures
        resolve_tokens(split_commas(a + seq![','] + b)) == resolve_tokens(split_commas(a))
            + resolve_tokens(split_commas(b)),
        skipped_tokens(split_commas(a + seq![','] + b)) == skipped_tokens(split_commas(a))
            + skipped_tokens(split_commas(b)),
        !says_anywhere(a + seq![','] + b) ==> parsed_skipped(a + seq![','] + b) == skipped_tokens(
            split_commas(a),
        ) + skipped_tokens(split_commas(b)),
        !says_anywhere(a + seq![','] + b) && resolve_tokens(split_commas(a)).len()
            + resolve_tokens(split_commas(b)).len() > 0 ==> parsed_regions(a + seq![','] + b)
            == resolve_tokens(split_commas(a)) + resolve_tokens(split_commas(b)),
{
    lemma_split_joined(a, b);
    lemma_tokens_independent(split_commas(a), split_commas(b));
}

/// A text that no country lookup finds and whose lowercase form is
/// "north america" resolves to the continent North America: it is no
/// continent name and no macro-region name as the lookups know them, and
/// the alias decides.
pub proof fn lemma_north_america(token: Seq<char>)
    requires
        keshvar_alpha2(token) is None,
        keshvar_alpha3(token) is None,
        keshvar_country(token) is None,
        keshvar_short_name(token) is None,
        lowercase_of(token) == "north america"@,
    ensures
        resolve_token(token) == seq![RegionView::Continent(Continent::NorthAmerica)],
{
    reveal_strlit("north america");
    reveal_strlit("north-america");
    reveal_strlit("south-america");
    reveal_strlit("africa");
    reveal_strlit("antarctica");
    reveal_strlit("asia");
    reveal_strlit("australia");
    reveal_strlit("europe");
    reveal_strlit("americas");
    reveal_strlit("oceania");
    reveal_strlit("america");
    reveal_strlit("af");
    reveal_strlit("an");
    reveal_strlit("as");
    reveal_strlit("eu");
    reveal_strlit("na");
    let lower = "north america"@;
    assert(lower.len() == 13);
    assert(lower[5] == ' ');
    assert("north-america"@[5] == '-');
    assert("south-america"@[5] == '-');
    assert(continent_named(lower) is None);
    assert(macro_region_named(lower) is None);
    assert(alias_continents(lower) == seq![Continent::NorthAmerica]);
    assert(continent_regions(seq![Continent::NorthAmerica]) =~= seq![
        RegionView::Continent(Continent::NorthAmerica),
    ]);
}

/// A text that no country lookup finds and whose lowercase form is
/// "america" resolves to both Americas, north before south.
pub proof fn lemma_america(token: Seq<char>)
    requires
        keshvar_alpha2(token) is None,
        keshvar_alpha3(token) is None,
        keshvar_country(token) is None,
        keshvar_short_name(token) is None,
        lowercase_of(token) == "america"@,
    ensures
        resolve_token(token) == seq![
            RegionView::Continent(Continent::NorthAmerica),
            RegionView::Continent(Continent::SouthAmerica),
        ],
{
    reveal_strlit("america");
    reveal_strlit("north-america");
    reveal_strlit("south-america");
    reveal_strlit("africa");
    reveal_strlit("antarctica");
    reveal_strlit("asia");
    reveal_strlit("australia");
    reveal_strlit("europe");
    reveal_strlit("americas");
    reveal_strlit("oceania");
    let lower = "america"@;
    assert(lower.len() == 7);
    assert(lower[1] == 'm');
    assert("africa"@.len() == 6);
    assert("europe"@.len() == 6);
    assert(continent_named(lower) is None);
    assert(macro_region_named(lower) is None);
    assert(continent_regions(seq![Continent::NorthAmerica, Continent::SouthAmerica]) =~= seq![
        RegionView::Continent(Continent::NorthAmerica),
        RegionView::Continent(Continent::SouthAmerica),
    ]);
}

/// Appends the regions of `found` to `out`.
fn append_regions(out: &mut Vec<EarthRegion>, found: Vec<EarthRegion>)
    ensures
        region_views(final(out)@) == region_views(old(out)@) + region_views(found@),
{
    let mut found = found;
    let ghost before = out@;
    let ghost added = found@;
    out.append(&mut found);
    assert(region_views(out@) =~= region_views(before) + region_views(added));
}

/// Resolves a comma-separated text into regions, in the order of its
/// tokens, and says which tokens it skipped.
///
/// A token that nothing matches is skipped, and the tokens around it are
/// resolved as without it. A text in which nothing was found, the empty
/// text too, gives the single region `Anywhere`, as does the word
/// "anywhere" in any case with blanks around it.
pub fn resolve_regions(regions: &str) -> (r: Resolution)
    ensures
        region_views(r.regions@) == parsed_regions(regions@),
        text_views(r.skipped@) == parsed_skipped(regions@),
        r.defaulted == parsed_defaulted(regions@),
        r.regions.len() >= 1,
{
    let trimmed = trim(regions);
    let folded = to_lowercase(trimmed.as_str());
    if str_eq(folded.as_str(), "anywhere") {
        let r = Resolution {
            regions: vec![EarthRegion::Anywhere],
            skipped: Vec::new(),
            defaulted: false,
        };
        assert(region_views(r.regions@) =~= seq![RegionView::Anywhere]);
        assert(text_views(r.skipped@) =~= Seq::<Seq<char>>::empty());
        return r;
    }
    let n = regions.unicode_len();
    let mut out: Vec<EarthRegion> = Vec::new();
    let mut skipped: Vec<String> = Vec::new();
    let mut start: usize = 0;
    let mut done = false;
    let ghost all = split_commas(regions@);
    let ghost mut seen: Seq<Seq<char>> = Seq::empty();
    proof {
        assert(regions@.subrange(0, n as int) =~= regions@);
        assert(seen + all =~= all);
        assert(region_views(out@) =~= resolve_tokens(seen));
        assert(text_views(skipped@) =~= skipped_tokens(seen));
    }
    while !done
        invariant
            n == regions@.len(),
            0 <= start <= n,
            all == split_commas(regions@),
            region_views(out@) == resolve_tokens(seen),
            text_views(skipped@) == skipped_tokens(seen),
            !done ==> all == seen + split_commas(regions@.subrange(start as int, n as int)),
            done ==> all == seen,
        decreases n - start + if done { 0int } else { 1int },
    {
        let mut end = start;
        while end < n && regions.get_char(end) != ','
            invariant
                n == regions@.len(),
                start <= end <= n,
                forall|i: int| start <= i < end ==> regions@[i] != ',',
            decreases n - end,
        {
            end = end + 1;
        }
        let ghost rest = regions@.subrange(start as int, n as int);
        let token = regions.substring_char(start, end);
        proof {
            lemma_first_comma(rest, end - start);
            lemma_split_first(rest);
            assert(rest.subrange(0, end - start) =~= token@);
            lemma_tokens_independent(seen, seq![token@]);
            lemma_first_token(token@, Seq::empty());
            assert(seq![token@] + Seq::<Seq<char>>::empty() =~= seq![token@]);
            assert(resolve_token(token@) + resolve_tokens(Seq::empty()) =~= resolve_token(token@));
            assert(seq![token@] + skipped_tokens(Seq::empty()) =~= seq![token@]);
        }
        let lookup = lookup_token(token);
        let found = resolve_lookup(&lookup);
        let ghost skipped_before = skipped@;
        if found.len() == 0 {
            skipped.push(token.to_owned());
            assert(text_views(skipped@) =~= text_views(skipped_before) + seq![token@]);
        } else {
            assert(text_views(skipped@) =~= text_views(skipped_before) + Seq::<Seq<char>>::empty());
        }
        append_regions(&mut out, found);
        if end == n {
            proof {
                assert(rest.subrange(0, end - start) =~= rest);
                seen = seen + seq![token@];
            }
            done = true;
        } else {
            proof {
                assert(rest.subrange(end - start + 1, rest.len() as int) =~= regions@.subrange(
                    end + 1,
                    n as int,
                ));
                let tail = split_commas(regions@.subrange(end + 1, n as int));
                assert(seen + (seq![token@] + tail) =~= (seen + seq![token@]) + tail);
                seen = seen + seq![token@];
            }
            start = end + 1;
        }
    }
    let defaulted = out.len() == 0;
    if defaulted {
        out.push(EarthRegion::Anywhere);
        assert(region_views(out@) =~= seq![RegionView::Anywhere]);
    }
    Resolution { regions: out, skipped, defaulted }
}

/// Resolves a comma-separated text into regions, in the order of its tokens.
///
/// Never fails: a token that nothing matches is skipped, and a text in which
/// nothing was found, the empty text too, gives the single region `Anywhere`,
/// as does the word "anywhere" in any case with blanks around it.
pub fn parse_alpha_codes(regions: &str) -> (r: Result<Vec<EarthRegion>, ValidationErrors>)
    ensures
        r is Ok,
        region_views(r->Ok_0@) == parsed_regions(regions@),
        r->Ok_0.len() >= 1,
{
    Ok(resolve_regions(regions).regions)
}

} // verus!
