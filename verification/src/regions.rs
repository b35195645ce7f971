//! Regions of the earth that a job can be sent to, and the resolution of
//! user-supplied text into them.

use vstd::prelude::*;
use vstd::string::*;
use crate::text::text_view;

verus! {

/// A continent.
#[derive(Clone, Copy, Debug, PartialEq, Eq, Structural)]
pub enum Continent {
    Africa,
    Antarctica,
    Asia,
    Australia,
    Europe,
    NorthAmerica,
    SouthAmerica,
}

/// A macro-region, which may span several continents.
#[derive(Clone, Copy, Debug, PartialEq, Eq, Structural)]
pub enum MacroRegion {
    Africa,
    Americas,
    Antarctica,
    Asia,
    Europe,
    Oceania,
}

/// Where the probes of a job are taken from. A country is held by its
/// three-letter code.
#[derive(Debug, PartialEq, Eq)]
pub enum EarthRegion {
    Continent(Continent),
    Country(String),
    Anywhere,
}

/// The mathematical value of an [`EarthRegion`].
pub ghost enum RegionView {
    Continent(Continent),
    Country(Seq<char>),
    Anywhere,
}

impl View for EarthRegion {
    type V = RegionView;

    open spec fn view(&self) -> RegionView {
        match self {
            EarthRegion::Continent(c) => RegionView::Continent(*c),
            EarthRegion::Country(code) => RegionView::Country(code@),
            EarthRegion::Anywhere => RegionView::Anywhere,
        }
    }
}

impl Clone for EarthRegion {
    fn clone(&self) -> (r: Self)
        ensures
            r@ == self@,
    {
        match self {
            EarthRegion::Continent(c) => EarthRegion::Continent(*c),
            EarthRegion::Country(code) => EarthRegion::Country(code.clone()),
            EarthRegion::Anywhere => EarthRegion::Anywhere,
        }
    }
}

/// The values of a list of regions, in order.
pub open spec fn region_views(v: Seq<EarthRegion>) -> Seq<RegionView> {
    Seq::new(v.len(), |i: int| v[i]@)
}

/// The regions that stand for a list of continents, in order.
pub open spec fn continent_regions(c: Seq<Continent>) -> Seq<RegionView> {
    Seq::new(c.len(), |i: int| RegionView::Continent(c[i]))
}

impl Continent {
    /// The two-letter code of the continent.
    pub open spec fn code_text(self) -> Seq<char> {
        match self {
            Continent::Africa => "AF"@,
            Continent::Antarctica => "AN"@,
            Continent::Asia => "AS"@,
            Continent::Australia => "OC"@,
            Continent::Europe => "EU"@,
            Continent::NorthAmerica => "NA"@,
            Continent::SouthAmerica => "SA"@,
        }
    }

    /// The lowercase, hyphenated name of the continent.
    pub open spec fn name_text(self) -> Seq<char> {
        match self {
            Continent::Africa => "africa"@,
            Continent::Antarctica => "antarctica"@,
            Continent::Asia => "asia"@,
            Continent::Australia => "australia"@,
            Continent::Europe => "europe"@,
            Continent::NorthAmerica => "north-america"@,
            Continent::SouthAmerica => "south-america"@,
        }
    }

    /// The two-letter code of the continent.
    pub fn code(&self) -> (r: &'static str)
        ensures
            r@ == self.code_text(),
    {
        match self {
            Continent::Africa => "AF",
            Continent::Antarctica => "AN",
            Continent::Asia => "AS",
            Continent::Australia => "OC",
            Continent::Europe => "EU",
            Continent::NorthAmerica => "NA",
            Continent::SouthAmerica => "SA",
        }
    }

    /// The lowercase, hyphenated name of the continent.
    pub fn name(&self) -> (r: &'static str)
        ensures
            r@ == self.name_text(),
    {
        match self {
            Continent::Africa => "africa",
            Continent::Antarctica => "antarctica",
            Continent::Asia => "asia",
            Continent::Australia => "australia",
            Continent::Europe => "europe",
            Continent::NorthAmerica => "north-america",
            Continent::SouthAmerica => "south-america",
        }
    }
}

impl EarthRegion {
    /// The text a region is shown as: a continent's name, a country's code,
    /// nothing for anywhere.
    pub open spec fn label(self) -> Seq<char> {
        match self {
            EarthRegion::Continent(c) => c.name_text(),
            EarthRegion::Country(code) => code@,
            EarthRegion::Anywhere => Seq::<char>::empty(),
        }
    }

    /// The country code and the continent code that a request for this
    /// region carries.
    pub open spec fn codes(self) -> (Option<Seq<char>>, Option<Seq<char>>) {
        match self {
            EarthRegion::Continent(c) => (None, Some(c.code_text())),
            EarthRegion::Country(code) => (Some(code@), None),
            EarthRegion::Anywhere => (None, None),
        }
    }

    /// The text the region is shown as.
    pub fn to_string(&self) -> (r: String)
        ensures
            r@ == self.label(),
    {
        match self {
            EarthRegion::Continent(c) => c.name().to_owned(),
            EarthRegion::Country(code) => code.clone(),
            EarthRegion::Anywhere => String::new(),
        }
    }

    /// The country code and the continent code for a request: at most one
    /// of the two is present.
    pub fn get_codes(&self) -> (r: (Option<String>, Option<String>))
        ensures
            (text_view(r.0), text_view(r.1)) == self.codes(),
    {
        match self {
            EarthRegion::Continent(c) => (None, Some(c.code().to_owned())),
            EarthRegion::Country(code) => (Some(code.clone()), None),
            EarthRegion::Anywhere => (None, None),
        }
    }
}

} // verus!
