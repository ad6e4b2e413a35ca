//! The time zones offered, by region, and how the machine's own time zone
//! is told from what the system reports.

use vstd::prelude::*;
use vstd::string::*;
use crate::text::{chars_of, find, find_from, lemma_found_fits, occurs, occurs_in, str_views, string_of, string_views, strings_of, trim_chars, trimmed};

verus! {

/// The time zones offered, as IANA names, grouped by region.
pub open spec fn timezone_names() -> Seq<Seq<char>> {
    seq![
        "UTC"@,
        "Africa/Accra"@,
        "Africa/Addis_Ababa"@,
        "Africa/Algiers"@,
        "Africa/Cairo"@,
        "Africa/Casablanca"@,
        "Africa/Dar_es_Salaam"@,
        "Africa/Harare"@,
        "Africa/Johannesburg"@,
        "Africa/Kampala"@,
        "Africa/Khartoum"@,
        "Africa/Kinshasa"@,
        "Africa/Lagos"@,
        "Africa/Lusaka"@,
        "Africa/Maputo"@,
        "Africa/Nairobi"@,
        "Africa/Tripoli"@,
        "Africa/Tunis"@,
        "Africa/Windhoek"@,
        "America/Anchorage"@,
        "America/Argentina/Buenos_Aires"@,
        "America/Bogota"@,
        "America/Chicago"@,
        "America/Denver"@,
        "America/Edmonton"@,
        "America/Halifax"@,
        "America/Lima"@,
        "America/Los_Angeles"@,
        "America/Manaus"@,
        "America/Mexico_City"@,
        "America/New_York"@,
        "America/Phoenix"@,
        "America/Santiago"@,
        "America/Sao_Paulo"@,
        "America/St_Johns"@,
        "America/Toronto"@,
        "America/Vancouver"@,
        "America/Winnipeg"@,
        "Asia/Almaty"@,
        "Asia/Baghdad"@,
        "Asia/Bangkok"@,
        "Asia/Colombo"@,
        "Asia/Dhaka"@,
        "Asia/Dubai"@,
        "Asia/Ho_Chi_Minh"@,
        "Asia/Hong_Kong"@,
        "Asia/Istanbul"@,
        "Asia/Jakarta"@,
        "Asia/Jerusalem"@,
        "Asia/Karachi"@,
        "Asia/Kathmandu"@,
        "Asia/Kolkata"@,
        "Asia/Kuala_Lumpur"@,
        "Asia/Manila"@,
        "Asia/Novosibirsk"@,
        "Asia/Riyadh"@,
        "Asia/Seoul"@,
        "Asia/Shanghai"@,
        "Asia/Singapore"@,
        "Asia/Taipei"@,
        "Asia/Tehran"@,
        "Asia/Tokyo"@,
        "Asia/Vladivostok"@,
        "Asia/Yekaterinburg"@,
        "Australia/Adelaide"@,
        "Australia/Brisbane"@,
        "Australia/Darwin"@,
        "Australia/Hobart"@,
        "Australia/Melbourne"@,
        "Australia/Perth"@,
        "Australia/Sydney"@,
        "Europe/Amsterdam"@,
        "Europe/Athens"@,
        "Europe/Belgrade"@,
        "Europe/Berlin"@,
        "Europe/Brussels"@,
        "Europe/Bucharest"@,
        "Europe/Budapest"@,
        "Europe/Copenhagen"@,
        "Europe/Dublin"@,
        "Europe/Helsinki"@,
        "Europe/Kiev"@,
        "Europe/Lisbon"@,
        "Europe/London"@,
        "Europe/Madrid"@,
        "Europe/Moscow"@,
        "Europe/Oslo"@,
        "Europe/Paris"@,
        "Europe/Prague"@,
        "Europe/Rome"@,
        "Europe/Sofia"@,
        "Europe/Stockholm"@,
        "Europe/Vienna"@,
        "Europe/Vilnius"@,
        "Europe/Warsaw"@,
        "Europe/Zurich"@,
        "Indian/Maldives"@,
        "Indian/Mauritius"@,
        "Pacific/Auckland"@,
        "Pacific/Fiji"@,
        "Pacific/Guam"@,
        "Pacific/Honolulu"@,
    ]
}

/// America/New_York, the default zone, is the 31st zone offered and is
/// not named earlier; America/Phoenix follows it.
pub proof fn lemma_default_zone_position()
    ensures
        timezone_names()[30] == "America/New_York"@,
        timezone_names()[31] == "America/Phoenix"@,
        forall|j: int| 0 <= j < 30 ==> timezone_names()[j] != "America/New_York"@,
{
    reveal_strlit("UTC");
    reveal_strlit("Africa/Accra");
    reveal_strlit("Africa/Addis_Ababa");
    reveal_strlit("Africa/Algiers");
    reveal_strlit("Africa/Cairo");
    reveal_strlit("Africa/Casablanca");
    reveal_strlit("Africa/Dar_es_Salaam");
    reveal_strlit("Africa/Harare");
    reveal_strlit("Africa/Johannesburg");
    reveal_strlit("Africa/Kampala");
    reveal_strlit("Africa/Khartoum");
    reveal_strlit("Africa/Kinshasa");
    reveal_strlit("Africa/Lagos");
    reveal_strlit("Africa/Lusaka");
    reveal_strlit("Africa/Maputo");
    reveal_strlit("Africa/Nairobi");
    reveal_strlit("Africa/Tripoli");
    reveal_strlit("Africa/Tunis");
    reveal_strlit("Africa/Windhoek");
    reveal_strlit("America/Anchorage");
    reveal_strlit("America/Argentina/Buenos_Aires");
    reveal_strlit("America/Bogota");
    reveal_strlit("America/Chicago");
    reveal_strlit("America/Denver");
    reveal_strlit("America/Edmonton");
    reveal_strlit("America/Halifax");
    reveal_strlit("America/Lima");
    reveal_strlit("America/Los_Angeles");
    reveal_strlit("America/Manaus");
    reveal_strlit("America/Mexico_City");
    reveal_strlit("America/New_York");
    assert forall|j: int| 0 <= j < 30 implies timezone_names()[j] != "America/New_York"@ by {
        // every earlier name differs in length or in its ninth character
        assert(timezone_names()[j].len() != 16 || timezone_names()[j][8] != 'N');
    }
}

/// The time zones offered, as IANA names, grouped by region.
pub fn get_timezone_list() -> (r: Vec<String>)
    ensures
        string_views(r@) == timezone_names(),
{
    strings_of(&[
        "UTC",
        "Africa/Accra",
        "Africa/Addis_Ababa",
        "Africa/Algiers",
        "Africa/Cairo",
        "Africa/Casablanca",
        "Africa/Dar_es_Salaam",
        "Africa/Harare",
        "Africa/Johannesburg",
        "Africa/Kampala",
        "Africa/Khartoum",
        "Africa/Kinshasa",
        "Africa/Lagos",
        "Africa/Lusaka",
        "Africa/Maputo",
        "Africa/Nairobi",
        "Africa/Tripoli",
        "Africa/Tunis",
        "Africa/Windhoek",
        "America/Anchorage",
        "America/Argentina/Buenos_Aires",
        "America/Bogota",
        "America/Chicago",
        "America/Denver",
        "America/Edmonton",
        "America/Halifax",
        "America/Lima",
        "America/Los_Angeles",
        "America/Manaus",
        "America/Mexico_City",
        "America/New_York",
        "America/Phoenix",
        "America/Santiago",
        "America/Sao_Paulo",
        "America/St_Johns",
        "America/Toronto",
        "America/Vancouver",
        "America/Winnipeg",
        "Asia/Almaty",
        "Asia/Baghdad",
        "Asia/Bangkok",
        "Asia/Colombo",
        "Asia/Dhaka",
        "Asia/Dubai",
        "Asia/Ho_Chi_Minh",
        "Asia/Hong_Kong",
        "Asia/Istanbul",
        "Asia/Jakarta",
        "Asia/Jerusalem",
        "Asia/Karachi",
        "Asia/Kathmandu",
        "Asia/Kolkata",
        "Asia/Kuala_Lumpur",
        "Asia/Manila",
        "Asia/Novosibirsk",
        "Asia/Riyadh",
        "Asia/Seoul",
        "Asia/Shanghai",
        "Asia/Singapore",
        "Asia/Taipei",
        "Asia/Tehran",
        "Asia/Tokyo",
        "Asia/Vladivostok",
        "Asia/Yekaterinburg",
        "Australia/Adelaide",
        "Australia/Brisbane",
        "Australia/Darwin",
        "Australia/Hobart",
        "Australia/Melbourne",
        "Australia/Perth",
        "Australia/Sydney",
        "Europe/Amsterdam",
        "Europe/Athens",
        "Europe/Belgrade",
        "Europe/Berlin",
        "Europe/Brussels",
        "Europe/Bucharest",
        "Europe/Budapest",
        "Europe/Copenhagen",
        "Europe/Dublin",
        "Europe/Helsinki",
        "Europe/Kiev",
        "Europe/Lisbon",
        "Europe/London",
        "Europe/Madrid",
        "Europe/Moscow",
        "Europe/Oslo",
        "Europe/Paris",
        "Europe/Prague",
        "Europe/Rome",
        "Europe/Sofia",
        "Europe/Stockholm",
        "Europe/Vienna",
        "Europe/Vilnius",
        "Europe/Warsaw",
        "Europe/Zurich",
        "Indian/Maldives",
        "Indian/Mauritius",
        "Pacific/Auckland",
        "Pacific/Fiji",
        "Pacific/Guam",
        "Pacific/Honolulu",
    ])
}

/// The time zone named by the target of the `/etc/localtime` link: what
/// follows the first `zoneinfo/` in it.
pub open spec fn zone_of_link(link: Seq<char>) -> Option<Seq<char>> {
    match find_from(link, "zoneinfo/"@, 0) {
        Some(i) => Some(link.subrange(i + 9int, link.len() as int)),
        None => None,
    }
}

/// The zone the `/etc/localtime` link names, if it is known and names one.
pub open spec fn link_zone(link: Option<&str>) -> Option<Seq<char>> {
    match link {
        Some(l) => zone_of_link(l@),
        None => None,
    }
}

/// The zone the `TZ` variable names: when set, not empty, and holding a `/`.
pub open spec fn variable_zone(var: Option<&str>) -> Option<Seq<char>> {
    match var {
        Some(v) => if v@.len() > 0 && v@.contains('/') { Some(v@) } else { None },
        None => None,
    }
}

/// The zone `/etc/timezone` names: its trimmed contents, when not empty.
pub open spec fn file_zone(file: Option<&str>) -> Option<Seq<char>> {
    match file {
        Some(f) => if trimmed(f@).len() > 0 { Some(trimmed(f@)) } else { None },
        None => None,
    }
}

/// The zone told by the first source that tells one: the link, the
/// variable, the file.
pub open spec fn told_zone(link: Option<&str>, var: Option<&str>, file: Option<&str>) -> Option<Seq<char>> {
    match link_zone(link) {
        Some(z) => Some(z),
        None => match variable_zone(var) {
            Some(z) => Some(z),
            None => file_zone(file),
        },
    }
}

/// The machine's time zone, told from what the system reports: the target
/// of the `/etc/localtime` link when it lies under a `zoneinfo/` directory,
/// else the `TZ` variable when it is set, not empty and holds a `/`, else
/// the trimmed contents of `/etc/timezone` when not empty; `None` when none
/// of these tells it.
pub fn detect_timezone(localtime_link: Option<&str>, tz_variable: Option<&str>, timezone_file: Option<&str>) -> (r: Option<String>)
    ensures
        match r {
            Some(t) => told_zone(localtime_link, tz_variable, timezone_file) == Some(t@),
            None => told_zone(localtime_link, tz_variable, timezone_file) is None,
        },
{
    if let Some(link) = localtime_link {
        let path = chars_of(link);
        let marker = chars_of("zoneinfo/");
        proof {
            reveal_strlit("zoneinfo/");
        }
        let plen = path.len();
        if let Some(pos) = find(&path, &marker) {
            proof {
                assert(marker@.len() == 9);
                lemma_found_fits(path@, marker@, 0);
                assert(pos + 9 <= path@.len());
            }
            let mut tz: Vec<char> = Vec::new();
            let mut k: usize = pos + 9;
            while k < path.len()
                invariant
                    pos + 9 <= k <= path@.len(),
                    tz@ == path@.subrange(pos + 9, k as int),
                decreases path@.len() - k,
            {
                tz.push(path[k]);
                k = k + 1;
                assert(tz@ =~= path@.subrange(pos + 9, k as int));
            }
            return Some(string_of(&tz));
        }
    }
    if let Some(v) = tz_variable {
        let cs = chars_of(v);
        let mut has_slash = false;
        let mut i: usize = 0;
        while i < cs.len()
            invariant
                i <= cs@.len(),
                has_slash == exists|k: int| 0 <= k < i && cs@[k] == '/',
            decreases cs@.len() - i,
        {
            if cs[i] == '/' {
                has_slash = true;
            }
            i = i + 1;
        }
        if cs.len() > 0 && has_slash {
            return Some(String::from_str(v));
        }
    }
    if let Some(f) = timezone_file {
        let t = trim_chars(&chars_of(f));
        if t.len() > 0 {
            return Some(string_of(&t));
        }
    }
    None
}

} // verus!
