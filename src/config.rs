//! The daemon's settings, and the filter that decides which library files
//! take part in the shuffle.
use vstd::prelude::*;

use crate::text::{pairs_view, same_text, Pair};

verus! {

#[verifier::external_type_specification]
#[verifier::external_body]
pub struct ExRegex(regex::Regex);

#[verifier::external_type_specification]
#[verifier::external_body]
pub struct ExRegexError(regex::Error);

/// Whether `regex::Regex::new` accepts a pattern.
pub uninterp spec fn pattern_compiles(pattern: Seq<char>) -> bool;

/// Whether the regex compiled from `pattern` matches somewhere in `text`.
pub uninterp spec fn pattern_matches(pattern: Seq<char>, text: Seq<char>) -> bool;

/// Relies on `regex::Regex::new`: compiles a pattern, or reports why it
/// cannot; which of the two depends on the pattern alone.
#[verifier::external_body]
fn compile_pattern(pattern: &str) -> (r: Result<regex::Regex, regex::Error>)
    ensures
        r is Ok <==> pattern_compiles(pattern@),
{
    regex::Regex::new(pattern)
}

/// Relies on `regex::Regex::is_match`: whether the regex matches anywhere
/// in the text. A filter's regex is always the one compiled from its
/// pattern, since `SongFilter::from_setting` alone builds one.
#[verifier::external_body]
fn filter_is_match(filter: &SongFilter, text: &str) -> (r: bool)
    ensures
        r == pattern_matches(filter.pattern@, text@),
{
    filter.regex.is_match(text)
}

/// A regular expression that a file's name must match to take part.
#[derive(Debug)]
pub struct SongFilter {
    pattern: String,
    regex: regex::Regex,
}

impl SongFilter {
    /// The pattern the filter was compiled from.
    pub closed spec fn pattern_spec(&self) -> Seq<char> {
        self.pattern@
    }

    /// Builds the filter a setting asks for: none for an empty pattern,
    /// otherwise the compiled pattern, or the regex error.
    pub fn from_setting(pattern: &String) -> (r: Result<Option<SongFilter>, regex::Error>)
        ensures
            pattern@.len() == 0 ==> r == Ok::<Option<SongFilter>, regex::Error>(None),
            pattern@.len() > 0 ==> (r is Ok <==> pattern_compiles(pattern@)),
            pattern@.len() > 0 && r is Ok ==> r->Ok_0 is Some
                && r->Ok_0->Some_0.pattern_spec() == pattern@,
    {
        if pattern.as_str().is_empty() {
            return Ok(None);
        }
        match compile_pattern(pattern.as_str()) {
            Ok(regex) => Ok(Some(SongFilter { pattern: pattern.clone(), regex })),
            Err(e) => Err(e),
        }
    }

    /// The pattern the filter was compiled from.
    pub fn pattern(&self) -> (r: &String)
        ensures
            r@ == self.pattern_spec(),
    {
        &self.pattern
    }

    /// Whether `file` takes part in the shuffle.
    pub fn accepts(&self, file: &String) -> (r: bool)
        ensures
            r == pattern_matches(self.pattern_spec(), file@),
    {
        filter_is_match(self, file.as_str())
    }
}

/// The pattern of an optional filter.
pub open spec fn filter_pattern(f: Option<&SongFilter>) -> Option<Seq<char>> {
    match f {
        Some(f) => Some(f.pattern_spec()),
        None => None,
    }
}

/// The files of a `list file` response that take part: the `file` entries
/// whose name the filter, if any, matches, in order.
pub open spec fn selected_files(
    ps: Seq<(Seq<char>, Seq<char>)>,
    pattern: Option<Seq<char>>,
) -> Seq<Seq<char>>
    decreases ps.len(),
{
    if ps.len() == 0 {
        Seq::empty()
    } else {
        let rest = selected_files(ps.drop_last(), pattern);
        let (k, v) = ps.last();
        if k == "file"@ && match pattern {
            Some(p) => pattern_matches(p, v),
            None => true,
        } {
            rest.push(v)
        } else {
            rest
        }
    }
}

/// Picks the files that take part out of a `list file` response.
pub fn get_files(listing: &Vec<Pair>, filter: Option<&SongFilter>) -> (r: Vec<String>)
    ensures
        crate::library::texts(r@) == selected_files(pairs_view(listing@), filter_pattern(filter)),
{
    let mut r: Vec<String> = Vec::new();
    let mut i: usize = 0;
    while i < listing.len()
        invariant
            i <= listing.len(),
            crate::library::texts(r@)
                == selected_files(pairs_view(listing@.subrange(0, i as int)), filter_pattern(filter)),
        decreases listing.len() - i,
    {
        proof {
            assert(pairs_view(listing@.subrange(0, i + 1)).drop_last()
                =~= pairs_view(listing@.subrange(0, i as int)));
        }
        let ghost before = crate::library::texts(r@);
        let k = &listing[i].0;
        let v = &listing[i].1;
        let wanted = same_text(k, "file") && match filter {
            Some(f) => f.accepts(v),
            None => true,
        };
        if wanted {
            r.push(v.clone());
            proof {
                assert(crate::library::texts(r@) =~= before.push(v@));
            }
        }
        i = i + 1;
    }
    proof {
        assert(listing@.subrange(0, listing.len() as int) =~= listing@);
    }
    r
}

/// The retention a setting asks for: none where it is negative, else the
/// setting taken as an unsigned 32-bit count.
pub fn keep_last_from(setting: i64) -> (r: Option<u32>)
    ensures
        setting < 0 ==> r is None,
        setting >= 0 ==> r == Some(setting as u32),
{
    if setting < 0 {
        None
    } else {
        Some(setting as u32)
    }
}

/// The command-line options.
#[derive(Debug)]
pub struct Opt {
    /// A settings file to read instead of the default one.
    pub awconf: Option<String>,
}

/// The settings, fixed for the process's lifetime.
#[derive(Debug)]
pub struct Config {
    /// `host:port` of the server, or the path of its local socket.
    pub mpd_address: String,
    /// Where the selection store lives.
    pub database: String,
    /// Which files take part; all of them where absent.
    pub song_regex: Option<SongFilter>,
    /// How many played entries to keep before the current one.
    pub keep_last: Option<u32>,
    pub disable_repeat: bool,
    pub lock_volume: bool,
    pub disable_crossfade: bool,
    /// Seconds between keep-alive pings.
    pub mpd_timeout: u64,
}

} // verus!
