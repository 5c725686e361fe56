//! What the firmware asks of the system it runs on: time zones, and the
//! names of the files that it downloads.

use crate::text::{
    after_last, find_char, skip_prefixes, spec_drop_chars, spec_find_char, spec_rfind_char,
    spec_skip_chars, spec_skip_prefixes, spec_starts_with, spec_trim_end, spec_trim_start,
    starts_with, trim_char_range, trim_range,
};
use vstd::prelude::*;

verus! {

/// The folder of the time zones.
pub open spec fn spec_zone_root() -> Seq<char> {
    "/usr/share/zoneinfo/posix/"@
}

/// The file of a time zone.
pub fn time_zone_path(tz: &str) -> (r: String)
    ensures
        r@ == spec_zone_root() + tz@,
{
    let mut r = String::from_str("/usr/share/zoneinfo/posix/");
    r.append(tz);
    r
}

/// The time zone that a file stands for: what follows the folder of the time
/// zones, however often the folder is repeated; none for a file outside the
/// folder.
pub open spec fn spec_time_zone_of(path: Seq<char>) -> Option<Seq<char>> {
    if spec_starts_with(path, 0, path.len() as int, spec_zone_root()) {
        Some(
            path.subrange(
                spec_skip_prefixes(path, 0, path.len() as int, spec_zone_root()),
                path.len() as int,
            ),
        )
    } else {
        None
    }
}

/// The time zone that the file of the local time points to.
pub fn get_time_zone(link_target: &str) -> (r: Option<String>)
    ensures
        r.deep_view() == spec_time_zone_of(link_target@),
{
    let n = link_target.unicode_len();
    if starts_with(link_target, 0, n, "/usr/share/zoneinfo/posix/") {
        let a = skip_prefixes(link_target, 0, n, "/usr/share/zoneinfo/posix/");
        Some(String::from_str(link_target.substring_char(a, n)))
    } else {
        None
    }
}

/// The name under which a file of the folder of the time zones is listed:
/// what follows the folder, however often it is repeated, without the
/// slashes at its front.
pub open spec fn spec_listed_zone(path: Seq<char>) -> Seq<char> {
    let a = spec_skip_prefixes(path, 0, path.len() as int, spec_zone_root());
    path.subrange(spec_skip_chars(path, '/', a, path.len() as int), path.len() as int)
}

/// The name under which a file of the folder of the time zones is listed.
pub fn listed_zone(path: &str) -> (r: String)
    ensures
        r@ == spec_listed_zone(path@),
{
    let n = path.unicode_len();
    let a = skip_prefixes(path, 0, n, "/usr/share/zoneinfo/posix/");
    let mut b: usize = a;
    while b < n && path.get_char(b) == '/'
        invariant
            a <= b <= n,
            n == path@.len(),
            spec_skip_chars(path@, '/', a as int, n as int) == spec_skip_chars(
                path@,
                '/',
                b as int,
                n as int,
            ),
        decreases n - b,
    {
        b = b + 1;
    }
    String::from_str(path.substring_char(b, n))
}

/// The name that one part of a header gives to a file, where the part,
/// without the white space around it, starts with `filename=`: the part
/// without every `filename=` at its very front and without the double quotes
/// around what is left.
pub open spec fn spec_part_file_name(s: Seq<char>, from: int, to: int) -> Option<Seq<char>> {
    let a = spec_trim_start(s, from, to);
    let b = spec_trim_end(s, a, to);
    if spec_starts_with(s, a, b, "filename="@) {
        let p = spec_skip_prefixes(s, from, to, "filename="@);
        let q = spec_skip_chars(s, '"', p, to);
        Some(s.subrange(q, spec_drop_chars(s, '"', q, to)))
    } else {
        None
    }
}

/// The name that a header gives to a file: that of the first of its parts
/// between semicolons, from position `from` on, that gives one.
pub open spec fn spec_header_file_name(s: Seq<char>, from: int) -> Option<Seq<char>>
    decreases s.len() - from,
{
    let end = spec_find_char(s, ';', from);
    if from < 0 || from > s.len() || end < from {
        None
    } else if spec_part_file_name(s, from, end).is_some() {
        spec_part_file_name(s, from, end)
    } else if end >= s.len() {
        None
    } else {
        spec_header_file_name(s, end + 1)
    }
}

/// The name under which a download is stored: the name that the header
/// gives, or, where there is no header or it gives none, what follows the
/// last slash of the address.
pub open spec fn spec_download_file_name(header: Option<Seq<char>>, url: Seq<char>) -> Seq<char> {
    let from_header = match header {
        Some(h) => spec_header_file_name(h, 0),
        None => None,
    };
    match from_header {
        Some(name) => name,
        None => url.subrange(spec_rfind_char(url, '/', url.len() as int) + 1, url.len() as int),
    }
}

fn part_file_name(s: &str, from: usize, to: usize) -> (r: Option<String>)
    requires
        from <= to <= s@.len(),
    ensures
        r.deep_view() == spec_part_file_name(s@, from as int, to as int),
{
    let (a, b) = trim_range(s, from, to);
    if starts_with(s, a, b, "filename=") {
        let p = skip_prefixes(s, from, to, "filename=");
        let (q, e) = trim_char_range(s, '"', p, to);
        Some(String::from_str(s.substring_char(q, e)))
    } else {
        None
    }
}

fn header_file_name(s: &str) -> (r: Option<String>)
    ensures
        r.deep_view() == spec_header_file_name(s@, 0),
{
    let n = s.unicode_len();
    let mut from: usize = 0;
    loop
        invariant
            from <= n,
            n == s@.len(),
            spec_header_file_name(s@, 0) == spec_header_file_name(s@, from as int),
        decreases n - from,
    {
        let end = find_char(s, ';', from);
        match part_file_name(s, from, end) {
            Some(name) => {
                return Some(name);
            },
            None => {},
        }
        if end >= n {
            return None;
        }
        from = end + 1;
    }
}

/// The name under which a download is stored, given the header that
/// describes the content, where there is one, and the address.
pub fn download_file_name(content_disposition: Option<&str>, url: &str) -> (r: String)
    ensures
        r@ == spec_download_file_name(
            match content_disposition {
                Some(h) => Some(h@),
                None => None,
            },
            url@,
        ),
{
    let from_header = match content_disposition {
        Some(h) => header_file_name(h),
        None => None,
    };
    match from_header {
        Some(name) => name,
        None => {
            let n = url.unicode_len();
            let a = after_last(url, '/');
            String::from_str(url.substring_char(a, n))
        },
    }
}

/// The address at which the time is asked: that of the time zone where one
/// is named, else that of the place from which the request comes.
pub fn world_time_url(tz: Option<&str>) -> (r: String)
    ensures
        r@ == (match tz {
            Some(tz) => "https://worldtimeapi.org/api/timezone/"@ + tz@,
            None => "https://worldtimeapi.org/api/ip"@,
        }),
{
    match tz {
        Some(tz) => {
            let mut r = String::from_str("https://worldtimeapi.org/api/timezone/");
            r.append(tz);
            r
        },
        None => String::from_str("https://worldtimeapi.org/api/ip"),
    }
}

/// Where a module of a script is looked for.
#[derive(Clone, Copy, Debug, PartialEq, Eq, Structural)]
pub enum ModuleSource {
    /// Among the modules that were registered under a name.
    Named,
    /// In the folder of the script.
    Root,
    /// Among the modules that are built in.
    Embedded,
}

/// Where a module is looked for next, after it was not found in `failed`:
/// first among the named modules, then in the folder of the script where
/// there is one, and among the built-in modules only where there is none.
pub fn next_module_source(failed: Option<ModuleSource>, has_root: bool) -> (r: Option<
    ModuleSource,
>)
    ensures
        r == (match failed {
            None => Some(ModuleSource::Named),
            Some(ModuleSource::Named) => if has_root {
                Some(ModuleSource::Root)
            } else {
                Some(ModuleSource::Embedded)
            },
            Some(_) => None,
        }),
{
    match failed {
        None => Some(ModuleSource::Named),
        Some(ModuleSource::Named) => {
            if has_root {
                Some(ModuleSource::Root)
            } else {
                Some(ModuleSource::Embedded)
            }
        },
        Some(_) => None,
    }
}

} // verus!
