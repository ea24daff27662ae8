//! The journal data model: an export of entries, each with free text, a
//! creation timestamp, and optional weather, location and photos.
use vstd::prelude::*;
use crate::text::{i64_to_string, join_with, spec_int_string, spec_join};

verus! {

/// One photo reference: the placeholder identifier, the file-extension-like
/// `kind`, and the md5 content hash that names the file on disk.
pub struct Photo {
    pub identifier: String,
    pub kind: String,
    pub md5: String,
}

/// Weather at the time of an entry: a weather code (unused in output) and the
/// temperature in whole degrees Celsius, already truncated toward zero.
pub struct Weather {
    pub weather_code: String,
    pub temperature_celsius: i64,
}

impl Weather {
    /// The truncated Celsius value followed by ` °C`.
    pub open spec fn spec_display(self) -> Seq<char> {
        spec_int_string(self.temperature_celsius as int) + " °C"@
    }

    pub fn display_string(&self) -> (r: String)
        ensures
            r@ == self.spec_display(),
    {
        let mut out = i64_to_string(self.temperature_celsius);
        out.append(" °C");
        out
    }
}

/// Where an entry was written. Only the three named places enter the display
/// string; the administrative area is carried but unused in output.
pub struct Location {
    pub locality_name: Option<String>,
    pub country: Option<String>,
    pub place_name: Option<String>,
    pub administrativ_area: Option<String>,
}

impl Location {
    /// The fields that are present, in display order: country, locality,
    /// place name.
    pub open spec fn spec_parts(self) -> Seq<Seq<char>> {
        let s0 = Seq::<Seq<char>>::empty();
        let s1 = if self.country is Some {
            s0.push(self.country->0@)
        } else {
            s0
        };
        let s2 = if self.locality_name is Some {
            s1.push(self.locality_name->0@)
        } else {
            s1
        };
        if self.place_name is Some {
            s2.push(self.place_name->0@)
        } else {
            s2
        }
    }

    /// The present fields joined by `", "`.
    pub open spec fn spec_display(self) -> Seq<char> {
        spec_join(self.spec_parts(), ", "@)
    }

    pub fn display_string(&self) -> (r: String)
        ensures
            r@ == self.spec_display(),
    {
        let mut values: Vec<String> = Vec::new();
        if let Some(country) = &self.country {
            values.push(country.clone());
        }
        if let Some(locality_name) = &self.locality_name {
            values.push(locality_name.clone());
        }
        if let Some(place_name) = &self.place_name {
            values.push(place_name.clone());
        }
        proof {
            assert(values@.map_values(|s: String| s@) =~= self.spec_parts());
        }
        join_with(&values, ", ")
    }
}

/// One journal record.
pub struct Entry {
    pub text: String,
    pub date: String,
    pub weather: Option<Weather>,
    pub location: Option<Location>,
    pub photos: Option<Vec<Photo>>,
}

/// The root of the parsed input: an ordered sequence of entries.
pub struct Export {
    pub entries: Vec<Entry>,
}

/// The entry's photos; the empty sequence when the field is absent.
pub open spec fn entry_photos(e: Entry) -> Seq<Photo> {
    if e.photos is Some {
        e.photos->0@
    } else {
        Seq::empty()
    }
}

/// The location summary line text: the location's display string when
/// present, empty otherwise.
pub open spec fn location_text(e: Entry) -> Seq<char> {
    if e.location is Some {
        e.location->0.spec_display()
    } else {
        Seq::empty()
    }
}

/// The weather summary line text: the weather's display string when present,
/// empty otherwise.
pub open spec fn weather_text(e: Entry) -> Seq<char> {
    if e.weather is Some {
        e.weather->0.spec_display()
    } else {
        Seq::empty()
    }
}

} // verus!
