//! Turning the answer of a city database into the location of a session.

use crate::model::{AnalyticsError, AnalyticsFailure, Location};
use vstd::prelude::*;

verus! {

/// What a city database holds for one address, as far as a location needs
/// it: the names of the country and of the city, each as pairs of a language
/// code and the name in that language, and the time zone. A list is empty and
/// the time zone `None` where the record has no such entry.
#[derive(Debug)]
pub struct GeoRecord {
    pub country_names: Vec<(String, String)>,
    pub city_names: Vec<(String, String)>,
    pub time_zone: Option<String>,
}

/// How the lookup of a public address in the city database ended.
#[derive(Debug)]
pub enum GeoLookup {
    /// The text is not an IP address.
    Malformed,
    /// The database maps the address to nothing.
    NoRecord,
    /// The database holds this record for the address.
    Found(GeoRecord),
}

/// The language in which a location is written down.
pub open spec fn location_language() -> Seq<char> {
    seq!['e', 'n']
}

/// The name that a list gives for a language: that of the first pair with
/// this language code.
pub open spec fn name_in(names: Seq<(String, String)>, language: Seq<char>) -> Option<Seq<char>>
    decreases names.len(),
{
    if names.len() == 0 {
        None
    } else if names[0].0@ == language {
        Some(names[0].1@)
    } else {
        name_in(names.drop_first(), language)
    }
}

/// The three parts of a location that a lookup yields, if it yields all of
/// them: country, city and time zone.
pub open spec fn place_of(lookup: GeoLookup) -> Option<(Seq<char>, Seq<char>, Seq<char>)> {
    match lookup {
        GeoLookup::Found(record) => match (
            name_in(record.country_names@, location_language()),
            name_in(record.city_names@, location_language()),
            record.time_zone,
        ) {
            (Some(country), Some(city), Some(zone)) => Some((country, city, zone@)),
            _ => None,
        },
        _ => None,
    }
}

/// Searches a list of names for a language.
pub fn find_name(names: &Vec<(String, String)>, language: &String) -> (r: Option<String>)
    ensures
        r is Some == name_in(names@, language@) is Some,
        r matches Some(name) ==> name_in(names@, language@) == Some(name@),
{
    let mut i: usize = 0;
    proof {
        assert(names@.skip(0) =~= names@);
    }
    while i < names.len()
        invariant
            i <= names.len(),
            name_in(names@, language@) == name_in(names@.skip(i as int), language@),
        decreases names.len() - i,
    {
        proof {
            assert(names@.skip(i as int).drop_first() =~= names@.skip(i as int + 1));
        }
        if names[i].0 == *language {
            return Some(names[i].1.clone());
        }
        i += 1;
    }
    None
}

/// Why a lookup resolves to no place: what the lookup itself ended in, or
/// the first part that its record lacks, the country being looked at before
/// the city and the city before the time zone.
pub open spec fn lookup_failure_text(lookup: GeoLookup) -> Seq<char> {
    match lookup {
        GeoLookup::Malformed => "the public address is not an IP address"@,
        GeoLookup::NoRecord => "the geo database maps the address to no place"@,
        GeoLookup::Found(record) => if name_in(record.country_names@, location_language())
            is None {
            "the place has no country name in English"@
        } else if name_in(record.city_names@, location_language()) is None {
            "the place has no city name in English"@
        } else {
            "the place has no time zone"@
        },
    }
}

/// Why no location can be had for an address: the address is unknown, or
/// the lookup resolves to no place.
pub open spec fn location_failure_text(public_ip: Option<String>, lookup: GeoLookup) -> Seq<char> {
    if public_ip is None {
        "the public address is unknown"@
    } else {
        lookup_failure_text(lookup)
    }
}

/// Resolves the location of the address `ip` from what the city database
/// answered for it. The location is written in English. A lookup that found
/// nothing, or a record that lacks the country's name, the city's name or
/// the time zone, resolves to no location, and the failure says which it was.
pub fn get_location(ip: &str, lookup: &GeoLookup) -> (r: Result<Location, AnalyticsFailure>)
    ensures
        place_of(*lookup) is Some <==> r is Ok,
        r matches Err(failure) ==> failure.kind == AnalyticsError::LocationResolution
            && failure.detail@ == lookup_failure_text(*lookup),
        r matches Ok(location) ==> place_of(*lookup) == Some(
            (location.country@, location.city@, location.timezone@),
        ) && location.ip@ == ip@,
{
    let english = "en".to_owned();
    proof {
        reveal_strlit("en");
        assert(english@ =~= location_language());
    }
    let detail = match lookup {
        GeoLookup::Malformed => "the public address is not an IP address".to_owned(),
        GeoLookup::NoRecord => "the geo database maps the address to no place".to_owned(),
        GeoLookup::Found(record) => {
            let country = find_name(&record.country_names, &english);
            let city = find_name(&record.city_names, &english);
            match (country, city, &record.time_zone) {
                (Some(country), Some(city), Some(zone)) => {
                    return Ok(
                        Location { country, city, timezone: zone.clone(), ip: ip.to_owned() },
                    );
                },
                (None, _, _) => "the place has no country name in English".to_owned(),
                (Some(_), None, _) => "the place has no city name in English".to_owned(),
                (Some(_), Some(_), None) => "the place has no time zone".to_owned(),
            }
        },
    };
    Err(AnalyticsFailure::new(AnalyticsError::LocationResolution, detail))
}

/// Whether a location can be had for this address: the address is known,
/// and the database resolves it to a complete place.
pub open spec fn location_known(public_ip: Option<String>, lookup: GeoLookup) -> bool {
    public_ip is Some && place_of(lookup) is Some
}

/// Resolves the location of a session from its public address, where that
/// could be found out, and from the database's answer for it. Without an
/// address there is no location, whatever the lookup says.
pub fn locate(public_ip: Option<String>, lookup: &GeoLookup) -> (r: Result<
    Location,
    AnalyticsFailure,
>)
    ensures
        location_known(public_ip, *lookup) <==> r is Ok,
        r matches Err(failure) ==> failure.kind == AnalyticsError::LocationResolution
            && failure.detail@ == location_failure_text(public_ip, *lookup),
        r matches Ok(location) ==> place_of(*lookup) == Some(
            (location.country@, location.city@, location.timezone@),
        ) && Some(location.ip) == public_ip,
{
    let ip = match public_ip {
        Some(ip) => ip,
        None => {
            return Err(
                AnalyticsFailure::new(
                    AnalyticsError::LocationResolution,
                    "the public address is unknown".to_owned(),
                ),
            );
        },
    };
    match get_location(ip.as_str(), lookup) {
        Ok(found) => Ok(
            Location { country: found.country, city: found.city, timezone: found.timezone, ip },
        ),
        Err(e) => Err(e),
    }
}

} // verus!
