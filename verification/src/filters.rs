//! Line filters: substring, regular-expression and date-range predicates over
//! a single raw log line, combined into an all-must-match chain.

use vstd::prelude::*;

verus! {

// ---------------------------------------------------------------------------
// Whitespace and leading-token extraction
// ---------------------------------------------------------------------------

/// The characters this library treats as token separators (the Unicode
/// `White_Space` set).
pub open spec fn is_ws(c: char) -> bool {
    c == ' ' || c == '\t' || c == '\n' || c == '\r' || c == '\u{0b}' || c == '\u{0c}'
        || c == '\u{85}' || c == '\u{a0}' || c == '\u{1680}'
        || ('\u{2000}' <= c && c <= '\u{200a}')
        || c == '\u{2028}' || c == '\u{2029}' || c == '\u{202f}' || c == '\u{205f}'
        || c == '\u{3000}'
}

fn is_ws_char(c: char) -> (r: bool)
    ensures
        r == is_ws(c),
{
    c == ' ' || c == '\t' || c == '\n' || c == '\r' || c == '\u{0b}' || c == '\u{0c}'
        || c == '\u{85}' || c == '\u{a0}' || c == '\u{1680}'
        || ('\u{2000}' <= c && c <= '\u{200a}')
        || c == '\u{2028}' || c == '\u{2029}' || c == '\u{202f}' || c == '\u{205f}'
        || c == '\u{3000}'
}

/// The sequence with all leading whitespace removed.
pub open spec fn drop_leading_ws(s: Seq<char>) -> Seq<char>
    decreases s.len(),
{
    if s.len() == 0 {
        s
    } else if is_ws(s[0]) {
        drop_leading_ws(s.drop_first())
    } else {
        s
    }
}

/// The longest whitespace-free prefix of the sequence.
pub open spec fn take_until_ws(s: Seq<char>) -> Seq<char>
    decreases s.len(),
{
    if s.len() == 0 {
        Seq::empty()
    } else if is_ws(s[0]) {
        Seq::empty()
    } else {
        seq![s[0]] + take_until_ws(s.drop_first())
    }
}

/// The first whitespace-delimited token of a line (empty if the line holds
/// only whitespace).
pub open spec fn first_token(s: Seq<char>) -> Seq<char> {
    take_until_ws(drop_leading_ws(s))
}

proof fn lemma_drop_leading_ws_skip(s: Seq<char>, i: int)
    requires
        0 <= i <= s.len(),
        forall|k: int| 0 <= k < i ==> is_ws(s[k]),
        i == s.len() || !is_ws(s[i]),
    ensures
        drop_leading_ws(s) == s.skip(i),
    decreases i,
{
    if i == 0 {
        assert(s.skip(0) == s);
    } else {
        lemma_drop_leading_ws_skip(s.drop_first(), i - 1);
        assert(s.drop_first().skip(i - 1) == s.skip(i));
    }
}

proof fn lemma_take_until_ws_prefix(s: Seq<char>, j: int)
    requires
        0 <= j <= s.len(),
        forall|k: int| 0 <= k < j ==> !is_ws(s[k]),
        j == s.len() || is_ws(s[j]),
    ensures
        take_until_ws(s) == s.take(j),
    decreases j,
{
    if j == 0 {
        assert(s.take(0) =~= Seq::<char>::empty());
    } else {
        lemma_take_until_ws_prefix(s.drop_first(), j - 1);
        assert(seq![s[0]] + s.drop_first().take(j - 1) =~= s.take(j));
    }
}

/// Extracts the first whitespace-delimited token of the line.
pub fn leading_token(line: &str) -> (r: String)
    ensures
        r@ == first_token(line@),
{
    let n = line.unicode_len();
    let mut i: usize = 0;
    while i < n && is_ws_char(line.get_char(i))
        invariant
            0 <= i <= n,
            n == line@.len(),
            forall|k: int| 0 <= k < i ==> is_ws(line@[k]),
        decreases n - i,
    {
        i = i + 1;
    }
    let mut j: usize = i;
    while j < n && !is_ws_char(line.get_char(j))
        invariant
            i <= j <= n,
            n == line@.len(),
            forall|k: int| i <= k < j ==> !is_ws(line@[k]),
        decreases n - j,
    {
        j = j + 1;
    }
    let token = line.substring_char(i, j);
    proof {
        lemma_drop_leading_ws_skip(line@, i as int);
        lemma_take_until_ws_prefix(line@.skip(i as int), j - i);
        assert(line@.skip(i as int).take(j - i) =~= line@.subrange(i as int, j as int));
    }
    token.to_owned()
}

// ---------------------------------------------------------------------------
// Trusted views of the outside matchers
// ---------------------------------------------------------------------------

/// Whether the pattern text is a valid regular expression.
pub uninterp spec fn regex_is_valid(pattern: Seq<char>) -> bool;

/// Whether the pattern matches anywhere in the line.
pub uninterp spec fn regex_matches(pattern: Seq<char>, line: Seq<char>) -> bool;

/// What parsing a timestamp token with a format string yields: the instant in
/// milliseconds since the Unix epoch, or nothing when the token does not match
/// the format.
pub uninterp spec fn parse_instant(token: Seq<char>, format: Seq<char>) -> Option<i64>;

/// Relies on regex::Regex::new: whether a pattern compiles is a function of
/// the pattern text alone.
#[verifier::external_body]
fn regex_compiles(pattern: &str) -> (r: bool)
    ensures
        r == regex_is_valid(pattern@),
{
    regex::Regex::new(pattern).is_ok()
}

/// Relies on regex::Regex::new and regex::Regex::is_match: whether a valid
/// pattern matches anywhere in the line is a function of the two texts alone;
/// a pattern that does not compile matches nothing here.
#[verifier::external_body]
fn regex_match_line(pattern: &str, line: &str) -> (r: bool)
    ensures
        regex_is_valid(pattern@) ==> r == regex_matches(pattern@, line@),
        !regex_is_valid(pattern@) ==> r == false,
{
    match regex::Regex::new(pattern) {
        Ok(re) => re.is_match(line),
        Err(_) => false,
    }
}

/// Relies on chrono's DateTime::parse_from_str and DateTime::timestamp_millis:
/// the parsed instant is a function of the token and format texts alone.
#[verifier::external_body]
pub(crate) fn parse_date_token(token: &str, format: &str) -> (r: Option<i64>)
    ensures
        r == parse_instant(token@, format@),
{
    match chrono::DateTime::parse_from_str(token, format) {
        Ok(d) => Some(d.timestamp_millis()),
        Err(_) => None,
    }
}

/// Whether `pat` occurs as a contiguous substring of `line`.
pub open spec fn has_substring(line: Seq<char>, pat: Seq<char>) -> bool {
    exists|i: int| 0 <= i && i + pat.len() <= line.len()
        && #[trigger] line.subrange(i, i + pat.len()) == pat
}

/// Relies on str::contains with a string pattern: true iff the pattern occurs
/// as a contiguous substring of the line.
#[verifier::external_body]
fn contains_substring(line: &str, pat: &str) -> (r: bool)
    ensures
        r == has_substring(line@, pat@),
{
    line.contains(pat)
}

// ---------------------------------------------------------------------------
// The filter variants
// ---------------------------------------------------------------------------

/// Which side of a date range a `DateFilter` checks.
#[derive(Clone, Copy, Debug, PartialEq, Eq, Structural)]
pub enum DateFilterType {
    Before,
    After,
    Between,
}

/// Includes a line iff its leading token parses with `date_format` and the
/// parsed instant lies within the configured bounds. Bounds are instants in
/// milliseconds since the Unix epoch; an absent bound leaves that side
/// unconstrained.
#[derive(Debug)]
pub struct DateFilter {
    pub date_format: String,
    pub date_start: Option<i64>,
    pub date_finish: Option<i64>,
    pub filter_type: DateFilterType,
}

/// Includes a line iff the pattern matches anywhere in it.
#[derive(Debug)]
pub struct RegexFilter {
    pub pattern: String,
}

/// Includes a line iff the literal occurs anywhere in it.
#[derive(Debug)]
pub struct SearchFilter {
    pub substr: String,
}

/// One line predicate: a closed union of the three filter kinds.
#[derive(Debug)]
pub enum Filter {
    Date(DateFilter),
    Regex(RegexFilter),
    Search(SearchFilter),
}

impl Clone for DateFilter {
    fn clone(&self) -> (r: Self)
        ensures
            r == *self,
    {
        DateFilter {
            date_format: self.date_format.clone(),
            date_start: self.date_start,
            date_finish: self.date_finish,
            filter_type: self.filter_type,
        }
    }
}

impl Clone for RegexFilter {
    fn clone(&self) -> (r: Self)
        ensures
            r == *self,
    {
        RegexFilter { pattern: self.pattern.clone() }
    }
}

impl Clone for SearchFilter {
    fn clone(&self) -> (r: Self)
        ensures
            r == *self,
    {
        SearchFilter { substr: self.substr.clone() }
    }
}

impl Clone for Filter {
    fn clone(&self) -> (r: Self)
        ensures
            r == *self,
    {
        match self {
            Filter::Date(f) => Filter::Date(f.clone()),
            Filter::Regex(f) => Filter::Regex(f.clone()),
            Filter::Search(f) => Filter::Search(f.clone()),
        }
    }
}

// ---------------------------------------------------------------------------
// Inclusion
// ---------------------------------------------------------------------------

/// Whether the parsed instant `t` satisfies the filter's bound checks:
/// `Before` checks only the finish bound, `After` only the start bound,
/// `Between` both; an absent bound constrains nothing; both bounds are
/// inclusive.
pub open spec fn date_in_range(f: DateFilter, t: i64) -> bool {
    match f.filter_type {
        DateFilterType::Before => match f.date_finish {
            Some(e) => t <= e,
            None => true,
        },
        DateFilterType::After => match f.date_start {
            Some(s) => s <= t,
            None => true,
        },
        DateFilterType::Between => {
            &&& match f.date_start {
                Some(s) => s <= t,
                None => true,
            }
            &&& match f.date_finish {
                Some(e) => t <= e,
                None => true,
            }
        },
    }
}

/// Whether one filter includes the line.
pub open spec fn filter_includes(f: Filter, line: Seq<char>) -> bool {
    match f {
        Filter::Date(d) => match parse_instant(first_token(line), d.date_format@) {
            Some(t) => date_in_range(d, t),
            None => false,
        },
        Filter::Regex(r) => regex_is_valid(r.pattern@) && regex_matches(r.pattern@, line),
        Filter::Search(s) => has_substring(line, s.substr@),
    }
}

impl Filter {
    /// Decides whether this filter includes the raw line. Never panics: a
    /// regular-expression filter whose pattern does not compile includes
    /// nothing, and a date token that fails to parse excludes the line.
    pub fn is_include(&self, line: &String) -> (r: bool)
        ensures
            r == filter_includes(*self, line@),
    {
        match self {
            Filter::Date(f) => {
                let token = leading_token(line.as_str());
                match parse_date_token(token.as_str(), f.date_format.as_str()) {
                    Some(t) => {
                        match f.filter_type {
                            DateFilterType::Before => match f.date_finish {
                                Some(e) => t <= e,
                                None => true,
                            },
                            DateFilterType::After => match f.date_start {
                                Some(s) => s <= t,
                                None => true,
                            },
                            DateFilterType::Between => {
                                let lo_ok = match f.date_start {
                                    Some(s) => s <= t,
                                    None => true,
                                };
                                let hi_ok = match f.date_finish {
                                    Some(e) => t <= e,
                                    None => true,
                                };
                                lo_ok && hi_ok
                            },
                        }
                    },
                    None => false,
                }
            },
            Filter::Regex(f) => regex_match_line(f.pattern.as_str(), line.as_str()),
            Filter::Search(f) => contains_substring(line.as_str(), f.substr.as_str()),
        }
    }
}

/// Rejection of an invalid filter configuration at construction time, naming
/// the offending pattern.
#[derive(Debug)]
pub enum ConfigurationError {
    InvalidPattern(String),
}

impl ConfigurationError {
    /// A description of the error that identifies the invalid pattern.
    pub fn message(&self) -> (r: String)
        ensures
            ({
                let ConfigurationError::InvalidPattern(p) = *self;
                r@ == "invalid filter pattern: "@ + p@
            }),
    {
        match self {
            ConfigurationError::InvalidPattern(p) => {
                let mut m = "invalid filter pattern: ".to_owned();
                m.append(p.as_str());
                m
            },
        }
    }
}

impl Filter {
    /// Builds a substring filter; a literal is always a valid configuration.
    pub fn new_search(substr: String) -> (r: Filter)
        ensures
            r == Filter::Search(SearchFilter { substr }),
    {
        Filter::Search(SearchFilter { substr })
    }

    /// Builds a regular-expression filter, failing fast on a pattern that
    /// does not compile: matching later never panics.
    pub fn new_regex(pattern: String) -> (r: Result<Filter, ConfigurationError>)
        ensures
            r is Ok <==> regex_is_valid(pattern@),
            r is Ok ==> r->Ok_0 == Filter::Regex(RegexFilter { pattern }),
            r is Err ==> r->Err_0 == ConfigurationError::InvalidPattern(pattern),
    {
        if regex_compiles(pattern.as_str()) {
            Ok(Filter::Regex(RegexFilter { pattern }))
        } else {
            Err(ConfigurationError::InvalidPattern(pattern))
        }
    }

    /// Builds a date-range filter. The relative order of the bounds is not
    /// validated: a start after the finish yields a filter that excludes
    /// everything.
    pub fn new_date(
        date_format: String,
        date_start: Option<i64>,
        date_finish: Option<i64>,
        filter_type: DateFilterType,
    ) -> (r: Filter)
        ensures
            r == Filter::Date(DateFilter { date_format, date_start, date_finish, filter_type }),
    {
        Filter::Date(DateFilter { date_format, date_start, date_finish, filter_type })
    }
}

/// Whether every filter of the chain includes the line.
pub open spec fn chain_includes(filters: Seq<Filter>, line: Seq<char>) -> bool {
    forall|i: int| 0 <= i < filters.len() ==> filter_includes(filters[i], line)
}

/// Decides whether the whole chain includes the line: true iff every filter
/// of the chain individually includes it.
pub fn chain_is_include(filters: &Vec<Filter>, line: &String) -> (r: bool)
    ensures
        r == chain_includes(filters@, line@),
{
    let mut i: usize = 0;
    while i < filters.len()
        invariant
            0 <= i <= filters@.len(),
            forall|k: int| 0 <= k < i ==> filter_includes(filters@[k], line@),
        decreases filters@.len() - i,
    {
        if !filters[i].is_include(line) {
            return false;
        }
        i = i + 1;
    }
    true
}

// ---------------------------------------------------------------------------
// Laws
// ---------------------------------------------------------------------------

/// Law: a filter chain includes a line iff every filter of the chain
/// individually includes it.
pub proof fn lemma_chain_all(filters: Seq<Filter>, line: Seq<char>)
    ensures
        chain_includes(filters, line) <==> (forall|i: int|
            0 <= i < filters.len() ==> #[trigger] filter_includes(filters[i], line)),
{
}

/// Law: a `Between` date filter with both bounds present includes a line iff
/// the line's leading token parses with the configured format and the parsed
/// instant lies inclusively between the bounds; a line whose token fails to
/// parse is excluded.
pub proof fn lemma_between_inclusive(f: DateFilter, line: Seq<char>, t1: i64, t2: i64)
    requires
        f.filter_type == DateFilterType::Between,
        f.date_start == Some(t1),
        f.date_finish == Some(t2),
    ensures
        filter_includes(Filter::Date(f), line) <==> {
            &&& parse_instant(first_token(line), f.date_format@) is Some
            &&& t1 <= parse_instant(first_token(line), f.date_format@)->0 <= t2
        },
{
}

/// Law: a date filter with neither bound present includes exactly the lines
/// whose leading token parses with the configured format; with no bounds the
/// filter never rejects on range grounds.
pub proof fn lemma_unbounded_date(f: DateFilter, line: Seq<char>)
    requires
        f.date_start is None,
        f.date_finish is None,
    ensures
        filter_includes(Filter::Date(f), line)
            <==> parse_instant(first_token(line), f.date_format@) is Some,
{
}

} // verus!
