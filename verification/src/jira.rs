//! The JIRA REST client's own logic: the credentials it sends, the dates it
//! reads, how it reads an issue out of a response, the searches it asks
//! for, and when it tries a failed request again.
use vstd::prelude::*;

use crate::expanded::pair_views;
use crate::json::{json_at, json_get, json_text, text_at, JsonValue};
use crate::text::{
    chars_of, decimal, decimal_chars, first_occurrence, lemma_first_occurrence, occurs_at, owned, slice, str_eq, string_of, string_views,
};
use crate::time::UtcTime;

verus! {

// ---------------------------------------------------------------------------
// Credentials
// ---------------------------------------------------------------------------

/// The UTF-8 encoding of one character.
pub open spec fn utf8_char(c: char) -> Seq<u8> {
    let v = c as int;
    if v < 0x80 {
        seq![v as u8]
    } else if v < 0x800 {
        seq![(0xC0 + v / 64) as u8, (0x80 + v % 64) as u8]
    } else if v < 0x10000 {
        seq![(0xE0 + v / 4096) as u8, (0x80 + (v / 64) % 64) as u8, (0x80 + v % 64) as u8]
    } else {
        seq![
            (0xF0 + v / 262144) as u8,
            (0x80 + (v / 4096) % 64) as u8,
            (0x80 + (v / 64) % 64) as u8,
            (0x80 + v % 64) as u8,
        ]
    }
}

/// The UTF-8 encoding of a text.
pub open spec fn utf8(s: Seq<char>) -> Seq<u8>
    decreases s.len(),
{
    if s.len() == 0 {
        seq![]
    } else {
        utf8(s.drop_last()) + utf8_char(s.last())
    }
}

/// The base64 digit of a six-bit value.
pub open spec fn b64_digit(v: int) -> char {
    if v < 26 {
        (65 + v) as char
    } else if v < 52 {
        (97 + v - 26) as char
    } else if v < 62 {
        (48 + v - 52) as char
    } else if v == 62 {
        '+'
    } else {
        '/'
    }
}

/// Base64 with the standard alphabet and `=` padding (RFC 4648).
pub open spec fn base64(b: Seq<u8>) -> Seq<char>
    decreases b.len(),
{
    if b.len() == 0 {
        seq![]
    } else {
        let x = b[0] as int;
        let y = if b.len() > 1 { b[1] as int } else { 0 };
        let z = if b.len() > 2 { b[2] as int } else { 0 };
        if b.len() == 1 {
            seq![b64_digit(x / 4), b64_digit((x % 4) * 16), '=', '=']
        } else if b.len() == 2 {
            seq![b64_digit(x / 4), b64_digit((x % 4) * 16 + y / 16), b64_digit((y % 16) * 4), '=']
        } else {
            seq![
                b64_digit(x / 4),
                b64_digit((x % 4) * 16 + y / 16),
                b64_digit((y % 16) * 4 + z / 64),
                b64_digit(z % 64),
            ] + base64(b.skip(3))
        }
    }
}

/// `base64::engine::general_purpose::STANDARD.encode` on the UTF-8 bytes of
/// `text`: the standard alphabet with padding. The crate panics when the
/// encoded length would overflow `usize`, which the bound rules out.
#[verifier::external_body]
fn base64_standard(text: &str) -> (r: String)
    requires
        utf8(text@).len() < usize::MAX / 2,
    ensures
        r@ == base64(utf8(text@)),
{
    base64::Engine::encode(&base64::engine::general_purpose::STANDARD, text)
}

/// The `Authorization` header for basic authentication with `username` and
/// `api_key`: `Basic` and the base64 of `username:api_key`.
pub fn basic_auth_header(username: &str, api_key: &str) -> (r: String)
    requires
        utf8(username@ + ":"@ + api_key@).len() < usize::MAX / 2,
    ensures
        r@ == "Basic "@ + base64(utf8(username@ + ":"@ + api_key@)),
{
    let mut credentials = owned(username);
    credentials.append(":");
    credentials.append(api_key);
    let mut r = owned("Basic ");
    r.append(base64_standard(credentials.as_str()).as_str());
    r
}

// ---------------------------------------------------------------------------
// Dates
// ---------------------------------------------------------------------------

/// The instant that `chrono::DateTime::parse_from_rfc3339` reads from `s`,
/// in UTC, or `None` when it refuses `s`.
pub uninterp spec fn rfc3339_instant(s: Seq<char>) -> Option<UtcTime>;

/// `chrono::DateTime::parse_from_rfc3339`, converted to UTC
/// (`with_timezone(&Utc)`) and taken as seconds and nanoseconds. What it
/// accepts is named, not stated: the result is a function of `s` alone.
#[verifier::external_body]
pub(crate) fn parse_rfc3339(s: &str) -> (r: Option<UtcTime>)
    ensures
        r == rfc3339_instant(s@),
{
    match chrono::DateTime::parse_from_rfc3339(s) {
        Ok(dt) => {
            let utc = dt.with_timezone(&chrono::Utc);
            Some(UtcTime { secs: utc.timestamp(), nanos: utc.timestamp_subsec_nanos() })
        },
        Err(_) => None,
    }
}

/// The number of bytes of the UTF-8 encoding of `c`.
pub open spec fn utf8_width(c: char) -> nat {
    utf8_char(c).len()
}

/// Cutting `s` `b` bytes before its end falls between two characters.
pub open spec fn cut_from_end_ok(s: Seq<char>, b: nat) -> bool {
    exists|k: int| 0 <= k <= s.len() && #[trigger] utf8(s.subrange(s.len() - k, s.len() as int)).len() == b
}

/// A date text that the JIRA date reader can look at without cutting a
/// character in two: shorter than five bytes, or with its last five bytes
/// starting a character.
pub open spec fn date_text_ok(s: Seq<char>) -> bool {
    utf8(s).len() >= 5 ==> cut_from_end_ok(s, 5)
}

/// `c` is an ASCII digit.
pub open spec fn is_digit(c: char) -> bool {
    '0' <= c && c <= '9'
}

/// JIRA writes the offset of a date without a colon (`+0000`, `-0530`):
/// when `s` ends so, the same text with the colon put in (`+00:00`).
pub open spec fn offset_with_colon(s: Seq<char>) -> Option<Seq<char>> {
    let n = s.len() as int;
    if n >= 5 && (s[n - 5] == '+' || s[n - 5] == '-') && is_digit(s[n - 4]) && is_digit(s[n - 3])
        && is_digit(s[n - 2]) && is_digit(s[n - 1]) {
        Some(s.subrange(0, n - 2) + seq![':'] + s.subrange(n - 2, n))
    } else {
        None
    }
}

/// Executable form of [`offset_with_colon`].
pub fn fix_offset_colon(s: &str) -> (r: Option<String>)
    ensures
        match r {
            Some(f) => offset_with_colon(s@) == Some(f@),
            None => offset_with_colon(s@) is None,
        },
{
    let c = chars_of(s);
    let n = c.len();
    if n >= 5 && (c[n - 5] == '+' || c[n - 5] == '-') && ('0' <= c[n - 4] && c[n - 4] <= '9')
        && ('0' <= c[n - 3] && c[n - 3] <= '9') && ('0' <= c[n - 2] && c[n - 2] <= '9') && (
    '0' <= c[n - 1] && c[n - 1] <= '9') {
        let mut fixed = slice(&c, 0, n - 2);
        fixed.push(':');
        let mut tail = slice(&c, n - 2, n);
        fixed.append(&mut tail);
        assert(fixed@ =~= c@.subrange(0, n - 2) + seq![':'] + c@.subrange(n - 2, n as int));
        Some(string_of(&fixed))
    } else {
        None
    }
}

/// The instant a JIRA date text stands for: read as RFC 3339, or else with
/// the colon put into its offset.
pub open spec fn jira_instant(s: Seq<char>) -> Option<UtcTime> {
    match rfc3339_instant(s) {
        Some(t) => Some(t),
        None => match offset_with_colon(s) {
            Some(f) => rfc3339_instant(f),
            None => None,
        },
    }
}

/// Reads a date as JIRA writes it: RFC 3339 (`2024-01-15T10:30:00.000+00:00`)
/// or with no colon in the offset (`2024-01-15T10:30:00.000+0000`).
pub fn parse_jira_datetime(s: &str) -> (r: Option<UtcTime>)
    requires
        date_text_ok(s@),
    ensures
        r == jira_instant(s@),
{
    match parse_rfc3339(s) {
        Some(t) => Some(t),
        None => match fix_offset_colon(s) {
            Some(f) => parse_rfc3339(f.as_str()),
            None => None,
        },
    }
}

/// A due date (`YYYY-MM-DD`) as the instant at the start of that day in UTC.
pub open spec fn due_instant(s: Seq<char>) -> Option<UtcTime> {
    rfc3339_instant(s + "T00:00:00Z"@)
}

/// Executable form of [`due_instant`].
pub fn parse_due_date(s: &str) -> (r: Option<UtcTime>)
    ensures
        r == due_instant(s@),
{
    let mut t = owned(s);
    t.append("T00:00:00Z");
    parse_rfc3339(t.as_str())
}

// ---------------------------------------------------------------------------
// Sprints and teams
// ---------------------------------------------------------------------------

/// The fields in which JIRA keeps an issue's sprint, in the order they are
/// looked at.
pub open spec fn sprint_field_ids() -> Seq<&'static str> {
    seq!["sprint", "customfield_10020", "customfield_10104", "customfield_10000"]
}

/// The fields in which JIRA keeps an issue's team, in the order they are
/// looked at.
pub open spec fn team_field_ids() -> Seq<&'static str> {
    seq!["team", "customfield_10001", "customfield_10002", "customfield_10100", "customfield_10101"]
}

/// A sprint object counts as current when its state is `active`, `closed`
/// or missing (or empty).
pub open spec fn sprint_state_ok(sprint: JsonValue) -> bool {
    let state = match text_at(sprint, "state"@) {
        Some(s) => s,
        None => seq![],
    };
    state == "active"@ || state == "closed"@ || state.len() == 0
}

/// The name of the last sprint of `sprints` that has a name and counts as
/// current.
pub open spec fn last_current_sprint(sprints: Seq<JsonValue>) -> Option<Seq<char>>
    decreases sprints.len(),
{
    if sprints.len() == 0 {
        None
    } else {
        match text_at(sprints.last(), "name"@) {
            Some(n) => if sprint_state_ok(sprints.last()) {
                Some(n)
            } else {
                last_current_sprint(sprints.drop_last())
            },
            None => last_current_sprint(sprints.drop_last()),
        }
    }
}

/// The name of the first sprint of `sprints` that has a name.
pub open spec fn first_named_sprint(sprints: Seq<JsonValue>) -> Option<Seq<char>>
    decreases sprints.len(),
{
    if sprints.len() == 0 {
        None
    } else {
        match text_at(sprints[0], "name"@) {
            Some(n) => Some(n),
            None => first_named_sprint(sprints.skip(1)),
        }
    }
}

/// The sprint name in the older text form
/// `...Sprint@1a2b[id=1,name=Sprint 1,...]`: what follows `name=` up to the
/// next `,`, or else up to the next `]`.
pub open spec fn legacy_sprint_name(s: Seq<char>) -> Option<Seq<char>> {
    match first_occurrence(s, "name="@) {
        Some(i) => {
            let rest = s.skip(i + 5);
            match first_occurrence(rest, ","@) {
                Some(c) => Some(rest.take(c)),
                None => match first_occurrence(rest, "]"@) {
                    Some(b) => Some(rest.take(b)),
                    None => None,
                },
            }
        },
        None => None,
    }
}

/// The sprint that one sprint field gives: from a list of sprint objects,
/// the last current one with a name, or else the first with a name; from a
/// text, the name written in it.
pub open spec fn sprint_of_value(v: JsonValue) -> Option<Seq<char>> {
    match v {
        JsonValue::Array(items) => match last_current_sprint(items@) {
            Some(n) => Some(n),
            None => first_named_sprint(items@),
        },
        JsonValue::Str(s) => legacy_sprint_name(s@),
        _ => None,
    }
}

/// The first sprint that the fields named in `ids` give.
pub open spec fn sprint_from(fields: JsonValue, ids: Seq<&'static str>) -> Option<Seq<char>>
    decreases ids.len(),
{
    if ids.len() == 0 {
        None
    } else {
        match json_get(fields, ids[0]@) {
            Some(v) => match sprint_of_value(v) {
                Some(n) => Some(n),
                None => sprint_from(fields, ids.skip(1)),
            },
            None => sprint_from(fields, ids.skip(1)),
        }
    }
}

/// The team that one team field gives: the `name` or else the `value` of an
/// object, or a text that is not empty.
pub open spec fn team_of_value(v: JsonValue) -> Option<Seq<char>> {
    match text_at(v, "name"@) {
        Some(n) => Some(n),
        None => match text_at(v, "value"@) {
            Some(n) => Some(n),
            None => match json_text(v) {
                Some(s) => if s.len() > 0 {
                    Some(s)
                } else {
                    None
                },
                None => None,
            },
        },
    }
}

/// The first team that the fields named in `ids` give.
pub open spec fn team_from(fields: JsonValue, ids: Seq<&'static str>) -> Option<Seq<char>>
    decreases ids.len(),
{
    if ids.len() == 0 {
        None
    } else {
        match json_get(fields, ids[0]@) {
            Some(v) => match team_of_value(v) {
                Some(n) => Some(n),
                None => team_from(fields, ids.skip(1)),
            },
            None => team_from(fields, ids.skip(1)),
        }
    }
}

/// An optional string as an optional character sequence.
pub open spec fn opt_string_view(o: Option<String>) -> Option<Seq<char>> {
    match o {
        Some(s) => Some(s@),
        None => None,
    }
}

/// An optional string slice as an optional character sequence.
pub open spec fn opt_str_view(o: Option<&str>) -> Option<Seq<char>> {
    match o {
        Some(s) => Some(s@),
        None => None,
    }
}

/// Executable form of [`legacy_sprint_name`].
pub fn legacy_sprint(s: &str) -> (r: Option<String>)
    ensures
        opt_string_view(r) == legacy_sprint_name(s@),
{
    let c = chars_of(s);
    let key = chars_of("name=");
    proof {
        reveal_strlit("name=");
    }
    match crate::text::find(&c, &key) {
        Some(i) => {
            proof {
                lemma_first_occurrence(c@, key@);
                assert(key@.len() == 5);
                assert(occurs_at(c@, key@, i as int));
                assert(i + 5 <= c@.len());
                assert(c@.len() == c.len());
            }
            let rest = slice(&c, i + 5, c.len());
            assert(rest@ =~= c@.skip(i + 5));
            let comma = chars_of(",");
            let bracket = chars_of("]");
            proof {
                lemma_first_occurrence(rest@, comma@);
                lemma_first_occurrence(rest@, bracket@);
            }
            match crate::text::find(&rest, &comma) {
                Some(k) => Some(string_of(&slice(&rest, 0, k))),
                None => match crate::text::find(&rest, &bracket) {
                    Some(k) => Some(string_of(&slice(&rest, 0, k))),
                    None => None,
                },
            }
        },
        None => None,
    }
}

/// Executable form of [`sprint_field_ids`].
pub fn sprint_field_names() -> (r: Vec<&'static str>)
    ensures
        r@ == sprint_field_ids(),
{
    vec!["sprint", "customfield_10020", "customfield_10104", "customfield_10000"]
}

/// Executable form of [`team_field_ids`].
pub fn team_field_names() -> (r: Vec<&'static str>)
    ensures
        r@ == team_field_ids(),
{
    vec!["team", "customfield_10001", "customfield_10002", "customfield_10100", "customfield_10101"]
}

/// Executable form of [`sprint_state_ok`].
pub fn sprint_is_current(sprint: &JsonValue) -> (r: bool)
    ensures
        r == sprint_state_ok(*sprint),
{
    proof {
        reveal_strlit("");
    }
    let state = match sprint.str_at("state") {
        Some(s) => s,
        None => "",
    };
    str_eq(state, "active") || str_eq(state, "closed") || state.is_empty()
}

/// Executable form of [`last_current_sprint`].
pub fn last_current_sprint_of(sprints: &Vec<JsonValue>) -> (r: Option<String>)
    ensures
        opt_string_view(r) == last_current_sprint(sprints@),
{
    let mut i = sprints.len();
    assert(sprints@.take(i as int) =~= sprints@);
    while i > 0
        invariant
            i <= sprints.len(),
            last_current_sprint(sprints@) == last_current_sprint(sprints@.take(i as int)),
        decreases i,
    {
        proof {
            assert(sprints@.take(i as int).drop_last() =~= sprints@.take(i - 1));
            assert(sprints@.take(i as int).last() == sprints@[i - 1]);
        }
        let s = &sprints[i - 1];
        match s.str_at("name") {
            Some(n) => {
                if sprint_is_current(s) {
                    return Some(owned(n));
                }
            },
            None => {},
        }
        i = i - 1;
    }
    None
}

/// Executable form of [`first_named_sprint`].
pub fn first_named_sprint_of(sprints: &Vec<JsonValue>) -> (r: Option<String>)
    ensures
        opt_string_view(r) == first_named_sprint(sprints@),
{
    assert(sprints@.skip(0) =~= sprints@);
    for i in 0..sprints.len()
        invariant
            first_named_sprint(sprints@) == first_named_sprint(sprints@.skip(i as int)),
    {
        proof {
            assert(sprints@.skip(i as int).skip(1) =~= sprints@.skip(i + 1));
            assert(sprints@.skip(i as int)[0] == sprints@[i as int]);
        }
        match sprints[i].str_at("name") {
            Some(n) => {
                return Some(owned(n));
            },
            None => {},
        }
    }
    assert(sprints@.skip(sprints.len() as int) =~= Seq::<JsonValue>::empty());
    None
}

/// Executable form of [`sprint_of_value`].
pub fn sprint_of(v: &JsonValue) -> (r: Option<String>)
    ensures
        opt_string_view(r) == sprint_of_value(*v),
{
    match v {
        JsonValue::Array(items) => match last_current_sprint_of(items) {
            Some(n) => Some(n),
            None => first_named_sprint_of(items),
        },
        JsonValue::Str(s) => legacy_sprint(s.as_str()),
        _ => None,
    }
}

/// The sprint of an issue, from its fields: the first of the sprint fields
/// that gives one.
pub fn extract_sprint(fields: &JsonValue) -> (r: Option<String>)
    ensures
        opt_string_view(r) == sprint_from(*fields, sprint_field_ids()),
{
    let ids = sprint_field_names();
    assert(ids@.skip(0) =~= ids@);
    for j in 0..ids.len()
        invariant
            ids@ == sprint_field_ids(),
            sprint_from(*fields, ids@) == sprint_from(*fields, ids@.skip(j as int)),
    {
        proof {
            assert(ids@.skip(j as int).skip(1) =~= ids@.skip(j + 1));
            assert(ids@.skip(j as int)[0] == ids@[j as int]);
        }
        match fields.get(ids[j]) {
            Some(v) => match sprint_of(v) {
                Some(n) => {
                    return Some(n);
                },
                None => {},
            },
            None => {},
        }
    }
    assert(ids@.skip(ids.len() as int) =~= Seq::<&'static str>::empty());
    None
}

/// Executable form of [`team_of_value`].
pub fn team_of(v: &JsonValue) -> (r: Option<String>)
    ensures
        opt_string_view(r) == team_of_value(*v),
{
    match v.str_at("name") {
        Some(n) => Some(owned(n)),
        None => match v.str_at("value") {
            Some(n) => Some(owned(n)),
            None => match v.as_str() {
                Some(s) => if s.is_empty() {
                    None
                } else {
                    Some(owned(s))
                },
                None => None,
            },
        },
    }
}

/// The team of an issue, from its fields: the first of the team fields
/// that gives one.
pub fn extract_team(fields: &JsonValue) -> (r: Option<String>)
    ensures
        opt_string_view(r) == team_from(*fields, team_field_ids()),
{
    let ids = team_field_names();
    assert(ids@.skip(0) =~= ids@);
    for j in 0..ids.len()
        invariant
            ids@ == team_field_ids(),
            team_from(*fields, ids@) == team_from(*fields, ids@.skip(j as int)),
    {
        proof {
            assert(ids@.skip(j as int).skip(1) =~= ids@.skip(j + 1));
            assert(ids@.skip(j as int)[0] == ids@[j as int]);
        }
        match fields.get(ids[j]) {
            Some(v) => match team_of(v) {
                Some(n) => {
                    return Some(n);
                },
                None => {},
            },
            None => {},
        }
    }
    assert(ids@.skip(ids.len() as int) =~= Seq::<&'static str>::empty());
    None
}

// ---------------------------------------------------------------------------
// Issues
// ---------------------------------------------------------------------------

/// An issue as it is read from the JIRA search API.
#[derive(Debug, Clone)]
pub struct Issue {
    pub id: String,
    pub project_id: String,
    pub key: String,
    pub summary: String,
    pub description: Option<String>,
    pub status: Option<String>,
    pub priority: Option<String>,
    pub assignee: Option<String>,
    pub reporter: Option<String>,
    pub issue_type: Option<String>,
    pub resolution: Option<String>,
    pub labels: Option<Vec<String>>,
    pub components: Option<Vec<String>>,
    pub fix_versions: Option<Vec<String>>,
    pub sprint: Option<String>,
    pub team: Option<String>,
    pub parent_key: Option<String>,
    pub due_date: Option<UtcTime>,
    pub created_date: Option<UtcTime>,
    pub updated_date: Option<UtcTime>,
    /// The issue's JSON as it was received.
    pub raw_json: Option<String>,
}

/// The texts among `items`, in order.
pub open spec fn texts_of(items: Seq<JsonValue>) -> Seq<Seq<char>>
    decreases items.len(),
{
    if items.len() == 0 {
        seq![]
    } else {
        match json_text(items.last()) {
            Some(s) => texts_of(items.drop_last()).push(s),
            None => texts_of(items.drop_last()),
        }
    }
}

/// The `name` texts of `items`, in order (items without one are left out).
pub open spec fn names_of(items: Seq<JsonValue>) -> Seq<Seq<char>>
    decreases items.len(),
{
    if items.len() == 0 {
        seq![]
    } else {
        match text_at(items.last(), "name"@) {
            Some(s) => names_of(items.drop_last()).push(s),
            None => names_of(items.drop_last()),
        }
    }
}

/// A list that is left out when it is empty.
pub open spec fn unless_empty(l: Seq<Seq<char>>) -> Option<Seq<Seq<char>>> {
    if l.len() > 0 {
        Some(l)
    } else {
        None
    }
}

/// The labels of an issue: the texts of its `labels` array, if there are
/// any.
pub open spec fn labels_of(fields: JsonValue) -> Option<Seq<Seq<char>>> {
    match json_at(fields, "labels"@) {
        JsonValue::Array(items) => unless_empty(texts_of(items@)),
        _ => None,
    }
}

/// The names of the objects in array field `key` of `fields`, if there are
/// any.
pub open spec fn named_list(fields: JsonValue, key: Seq<char>) -> Option<Seq<Seq<char>>> {
    match json_at(fields, key) {
        JsonValue::Array(items) => unless_empty(names_of(items@)),
        _ => None,
    }
}

/// An optional list of strings as an optional sequence of texts.
pub open spec fn opt_list_view(o: Option<Vec<String>>) -> Option<Seq<Seq<char>>> {
    match o {
        Some(v) => Some(string_views(v@)),
        None => None,
    }
}

/// The text at `a`, then `b`, of `v`.
pub open spec fn text_at2(v: JsonValue, a: Seq<char>, b: Seq<char>) -> Option<Seq<char>> {
    text_at(json_at(v, a), b)
}

/// The instant of the date text at `key` of `fields`, if it reads.
pub open spec fn date_at(fields: JsonValue, key: Seq<char>) -> Option<UtcTime> {
    match text_at(fields, key) {
        Some(s) => jira_instant(s),
        None => None,
    }
}

/// The date texts of an issue can be read (see [`date_text_ok`]).
pub open spec fn issue_dates_ok(issue: JsonValue) -> bool {
    let fields = json_at(issue, "fields"@);
    &&& (text_at(fields, "created"@) matches Some(s) ==> date_text_ok(s))
    &&& (text_at(fields, "updated"@) matches Some(s) ==> date_text_ok(s))
}

/// Executable form of [`texts_of`].
pub fn texts_in(items: &Vec<JsonValue>) -> (r: Vec<String>)
    ensures
        string_views(r@) == texts_of(items@),
{
    let mut r: Vec<String> = Vec::new();
    for i in 0..items.len()
        invariant
            string_views(r@) == texts_of(items@.take(i as int)),
    {
        proof {
            assert(items@.take(i + 1).drop_last() =~= items@.take(i as int));
            assert(items@.take(i + 1).last() == items@[i as int]);
        }
        match items[i].as_str() {
            Some(s) => {
                let ghost prev = string_views(r@);
                r.push(owned(s));
                assert(string_views(r@) =~= prev.push(s@));
            },
            None => {},
        }
    }
    assert(items@.take(items.len() as int) =~= items@);
    r
}

/// Executable form of [`names_of`].
pub fn names_in(items: &Vec<JsonValue>) -> (r: Vec<String>)
    ensures
        string_views(r@) == names_of(items@),
{
    let mut r: Vec<String> = Vec::new();
    for i in 0..items.len()
        invariant
            string_views(r@) == names_of(items@.take(i as int)),
    {
        proof {
            assert(items@.take(i + 1).drop_last() =~= items@.take(i as int));
            assert(items@.take(i + 1).last() == items@[i as int]);
        }
        match items[i].str_at("name") {
            Some(s) => {
                let ghost prev = string_views(r@);
                r.push(owned(s));
                assert(string_views(r@) =~= prev.push(s@));
            },
            None => {},
        }
    }
    assert(items@.take(items.len() as int) =~= items@);
    r
}

/// `v` unless it is empty.
fn unless_empty_vec(v: Vec<String>) -> (r: Option<Vec<String>>)
    ensures
        opt_list_view(r) == unless_empty(string_views(v@)),
{
    if v.len() > 0 {
        Some(v)
    } else {
        None
    }
}

/// An owned copy of an optional text.
pub fn owned_opt(o: Option<&str>) -> (r: Option<String>)
    ensures
        opt_string_view(r) == opt_str_view(o),
{
    match o {
        Some(s) => Some(owned(s)),
        None => None,
    }
}

/// The text at `a`, then `b`, of `v`.
pub fn text_in(v: &JsonValue, a: &str, b: &str) -> (r: Option<String>)
    ensures
        opt_string_view(r) == text_at2(*v, a@, b@),
{
    match v.get(a) {
        Some(x) => owned_opt(x.str_at(b)),
        None => owned_opt(JsonValue::Null.str_at(b)),
    }
}

/// Issue `i` is what the JSON `issue` of the search API reads as, with
/// `raw_json` as its text: the id and key are the JSON's; the project id
/// and summary default to empty texts; lists are left out when empty;
/// dates that do not read are left out.
#[verifier::opaque]
pub open spec fn read_from(issue: JsonValue, raw_json: Option<String>, i: Issue) -> bool {
    let fields = json_at(issue, "fields"@);
    &&& Some(i.id@) == text_at(issue, "id"@)
    &&& Some(i.key@) == text_at(issue, "key"@)
    &&& i.project_id@ == match text_at2(fields, "project"@, "id"@) {
        Some(s) => s,
        None => seq![],
    }
    &&& i.summary@ == match text_at(fields, "summary"@) {
        Some(s) => s,
        None => seq![],
    }
    &&& opt_string_view(i.description) == text_at(fields, "description"@)
    &&& opt_string_view(i.status) == text_at2(fields, "status"@, "name"@)
    &&& opt_string_view(i.priority) == text_at2(fields, "priority"@, "name"@)
    &&& opt_string_view(i.assignee) == text_at2(fields, "assignee"@, "displayName"@)
    &&& opt_string_view(i.reporter) == text_at2(fields, "reporter"@, "displayName"@)
    &&& opt_string_view(i.issue_type) == text_at2(fields, "issuetype"@, "name"@)
    &&& opt_string_view(i.resolution) == text_at2(fields, "resolution"@, "name"@)
    &&& opt_list_view(i.labels) == labels_of(fields)
    &&& opt_list_view(i.components) == named_list(fields, "components"@)
    &&& opt_list_view(i.fix_versions) == named_list(fields, "fixVersions"@)
    &&& opt_string_view(i.sprint) == sprint_from(fields, sprint_field_ids())
    &&& opt_string_view(i.team) == team_from(fields, team_field_ids())
    &&& opt_string_view(i.parent_key) == text_at2(fields, "parent"@, "key"@)
    &&& i.due_date == match text_at(fields, "duedate"@) {
        Some(s) => due_instant(s),
        None => None,
    }
    &&& i.created_date == date_at(fields, "created"@)
    &&& i.updated_date == date_at(fields, "updated"@)
    &&& i.raw_json == raw_json
}

/// Where the fields of issue `i` stand in the search API's JSON `issue`:
/// its id and key at the top; under `fields`, its status, priority, issue
/// type and resolution are the `name` of the object under that field
/// (`issuetype` for the type), its assignee and reporter that object's
/// `displayName`, its parent the `key` of `parent`, its project the `id` of
/// `project` (empty when missing), its summary the text at `summary` (empty
/// when missing), its description the text at `description`, its labels the
/// texts of `labels`, its components and fix versions the names in
/// `components` and `fixVersions`, its due date the day at `duedate`, and
/// its creation and update times the instants at `created` and `updated`.
pub open spec fn issue_fields_at(issue: JsonValue, raw_json: Option<String>, i: Issue) -> bool {
    let fields = json_at(issue, "fields"@);
    &&& Some(i.id@) == text_at(issue, "id"@)
    &&& Some(i.key@) == text_at(issue, "key"@)
    &&& (text_at(json_at(fields, "project"@), "id"@) matches Some(s) ==> i.project_id@ == s)
    &&& (text_at(json_at(fields, "project"@), "id"@) is None ==> i.project_id@.len() == 0)
    &&& (text_at(fields, "summary"@) matches Some(s) ==> i.summary@ == s)
    &&& (text_at(fields, "summary"@) is None ==> i.summary@.len() == 0)
    &&& opt_string_view(i.description) == text_at(fields, "description"@)
    &&& opt_string_view(i.status) == text_at(json_at(fields, "status"@), "name"@)
    &&& opt_string_view(i.priority) == text_at(json_at(fields, "priority"@), "name"@)
    &&& opt_string_view(i.assignee) == text_at(json_at(fields, "assignee"@), "displayName"@)
    &&& opt_string_view(i.reporter) == text_at(json_at(fields, "reporter"@), "displayName"@)
    &&& opt_string_view(i.issue_type) == text_at(json_at(fields, "issuetype"@), "name"@)
    &&& opt_string_view(i.resolution) == text_at(json_at(fields, "resolution"@), "name"@)
    &&& opt_string_view(i.parent_key) == text_at(json_at(fields, "parent"@), "key"@)
    &&& match json_at(fields, "labels"@) {
        JsonValue::Array(items) => if texts_of(items@).len() > 0 {
            opt_list_view(i.labels) == Some(texts_of(items@))
        } else {
            i.labels is None
        },
        _ => i.labels is None,
    }
    &&& match json_at(fields, "components"@) {
        JsonValue::Array(items) => if names_of(items@).len() > 0 {
            opt_list_view(i.components) == Some(names_of(items@))
        } else {
            i.components is None
        },
        _ => i.components is None,
    }
    &&& match json_at(fields, "fixVersions"@) {
        JsonValue::Array(items) => if names_of(items@).len() > 0 {
            opt_list_view(i.fix_versions) == Some(names_of(items@))
        } else {
            i.fix_versions is None
        },
        _ => i.fix_versions is None,
    }
    &&& (text_at(fields, "duedate"@) matches Some(s) ==> i.due_date == rfc3339_instant(
        s + "T00:00:00Z"@,
    ))
    &&& (text_at(fields, "duedate"@) is None ==> i.due_date is None)
    &&& (text_at(fields, "created"@) matches Some(s) ==> i.created_date == jira_instant(s))
    &&& (text_at(fields, "created"@) is None ==> i.created_date is None)
    &&& (text_at(fields, "updated"@) matches Some(s) ==> i.updated_date == jira_instant(s))
    &&& (text_at(fields, "updated"@) is None ==> i.updated_date is None)
    &&& i.raw_json == raw_json
}

/// An issue read from the search API's JSON has its fields where
/// [`issue_fields_at`] says: the priority, for one, is the `name` of the
/// `priority` object, as the status is the `name` of the `status` one.
pub proof fn lemma_read_issue_fields(issue: JsonValue, raw_json: Option<String>, i: Issue)
    requires
        read_from(issue, raw_json, i),
    ensures
        issue_fields_at(issue, raw_json, i),
{
    reveal(read_from);
}

/// The JSON of the search API holds an issue: it has an `id` and a `key`
/// text.
pub open spec fn holds_issue(issue: JsonValue) -> bool {
    text_at(issue, "id"@) is Some && text_at(issue, "key"@) is Some
}

/// Reads an issue out of the JSON the search API gives for it (see
/// [`read_from`]); `raw_json` is that JSON as text. There is no issue when
/// the JSON has no `id` or no `key` text.
pub fn parse_issue(issue: &JsonValue, raw_json: Option<String>) -> (r: Option<Issue>)
    requires
        holds_issue(*issue) ==> issue_dates_ok(*issue),
    ensures
        r is Some <==> holds_issue(*issue),
        r matches Some(i) ==> read_from(*issue, raw_json, i),
        r matches Some(i) ==> issue_fields_at(*issue, raw_json, i),
{
    proof {
        reveal(read_from);
    }
    let id = match issue.str_at("id") {
        Some(s) => s,
        None => {
            return None;
        },
    };
    let key = match issue.str_at("key") {
        Some(s) => s,
        None => {
            return None;
        },
    };
    let null = JsonValue::Null;
    let fields = match issue.get("fields") {
        Some(f) => f,
        None => &null,
    };
    assert(*fields == json_at(*issue, "fields"@));
    let project_id = match text_in(fields, "project", "id") {
        Some(s) => s,
        None => String::new(),
    };
    let summary = match fields.str_at("summary") {
        Some(s) => owned(s),
        None => String::new(),
    };
    let labels = match fields.get("labels") {
        Some(JsonValue::Array(items)) => unless_empty_vec(texts_in(items)),
        _ => None,
    };
    let components = match fields.get("components") {
        Some(JsonValue::Array(items)) => unless_empty_vec(names_in(items)),
        _ => None,
    };
    let fix_versions = match fields.get("fixVersions") {
        Some(JsonValue::Array(items)) => unless_empty_vec(names_in(items)),
        _ => None,
    };
    let due_date = match fields.str_at("duedate") {
        Some(s) => parse_due_date(s),
        None => None,
    };
    let created_date = match fields.str_at("created") {
        Some(s) => parse_jira_datetime(s),
        None => None,
    };
    let updated_date = match fields.str_at("updated") {
        Some(s) => parse_jira_datetime(s),
        None => None,
    };
    Some(
        Issue {
            id: owned(id),
            project_id,
            key: owned(key),
            summary,
            description: owned_opt(fields.str_at("description")),
            status: text_in(fields, "status", "name"),
            priority: text_in(fields, "priority", "name"),
            assignee: text_in(fields, "assignee", "displayName"),
            reporter: text_in(fields, "reporter", "displayName"),
            issue_type: text_in(fields, "issuetype", "name"),
            resolution: text_in(fields, "resolution", "name"),
            labels,
            components,
            fix_versions,
            sprint: extract_sprint(fields),
            team: extract_team(fields),
            parent_key: text_in(fields, "parent", "key"),
            due_date,
            created_date,
            updated_date,
            raw_json,
        },
    )
}

// ---------------------------------------------------------------------------
// Searching a project's issues
// ---------------------------------------------------------------------------

/// The minute of instant `t` as `chrono` writes it with
/// `%Y-%m-%d %H:%M`, or `None` when `chrono` cannot hold the instant.
pub uninterp spec fn minute_text(t: UtcTime) -> Option<Seq<char>>;

/// `chrono::DateTime::from_timestamp` followed by
/// `format("%Y-%m-%d %H:%M")`: the UTC minute of `t`. Which text that is
/// is named, not stated; it depends on `t` alone.
#[verifier::external_body]
pub(crate) fn format_minute(t: UtcTime) -> (r: Option<String>)
    ensures
        opt_string_view(r) == minute_text(t),
{
    match chrono::DateTime::from_timestamp(t.secs, t.nanos) {
        Some(dt) => Some(dt.format("%Y-%m-%d %H:%M").to_string()),
        None => None,
    }
}

/// The JQL that lists the issues of a project, oldest change first, and
/// only those changed at or after `after` (a minute as `%Y-%m-%d %H:%M`)
/// when it is given.
pub open spec fn issue_search_jql(project_key: Seq<char>, after: Option<Seq<char>>) -> Seq<char> {
    match after {
        Some(a) => "project = "@ + project_key + " AND updated >= \""@ + a
            + "\" ORDER BY updated ASC, key ASC"@,
        None => "project = "@ + project_key + " ORDER BY updated ASC, key ASC"@,
    }
}

/// Executable form of [`issue_search_jql`].
pub fn search_jql(project_key: &str, after: Option<&str>) -> (r: String)
    ensures
        r@ == issue_search_jql(project_key@, opt_str_view(after)),
{
    let mut r = owned("project = ");
    r.append(project_key);
    match after {
        Some(a) => {
            r.append(" AND updated >= \"");
            r.append(a);
            r.append("\" ORDER BY updated ASC, key ASC");
        },
        None => {
            r.append(" ORDER BY updated ASC, key ASC");
        },
    }
    r
}

/// The address of the JQL search of a JIRA site.
pub fn search_url(base_url: &str) -> (r: String)
    ensures
        r@ == base_url@ + "/rest/api/3/search/jql"@,
{
    let mut r = owned(base_url);
    r.append("/rest/api/3/search/jql");
    r
}

/// The query parameters of one page of an issue search: the JQL, the
/// fields and the change log to include, the page size and, after the
/// first page, the token of the page.
pub open spec fn search_params(jql: Seq<char>, page_token: Option<Seq<char>>, max_results: u64) -> Seq<
    (Seq<char>, Seq<char>),
> {
    let base = seq![
        ("jql"@, jql),
        ("fields"@, "*navigable,created,updated"@),
        ("expand"@, "changelog"@),
        ("maxResults"@, decimal(max_results as nat)),
    ];
    match page_token {
        Some(t) => base.push(("nextPageToken"@, t)),
        None => base,
    }
}

/// Executable form of [`search_params`].
pub fn search_query_params(jql: &str, page_token: Option<&str>, max_results: u64) -> (r: Vec<
    (String, String),
>)
    ensures
        pair_views(r@) == search_params(jql@, opt_str_view(page_token), max_results),
{
    let mut r: Vec<(String, String)> = Vec::new();
    r.push((owned("jql"), owned(jql)));
    r.push((owned("fields"), owned("*navigable,created,updated")));
    r.push((owned("expand"), owned("changelog")));
    r.push((owned("maxResults"), string_of(&decimal_chars(max_results))));
    match page_token {
        Some(t) => {
            r.push((owned("nextPageToken"), owned(t)));
        },
        None => {},
    }
    assert(pair_views(r@) =~= search_params(jql@, opt_str_view(page_token), max_results));
    r
}

/// Where a page of search results leaves the search.
#[derive(Debug, Clone)]
pub struct PageStatus {
    /// Another page follows.
    pub has_more: bool,
    /// The token of the next page, as the page gives it.
    pub next_page_token: Option<String>,
}

/// The page is the last one: its `isLast`, or true when it does not say.
pub open spec fn page_is_last(page: JsonValue) -> bool {
    match json_at(page, "isLast"@) {
        JsonValue::Bool(b) => b,
        _ => true,
    }
}

/// The query parameters of one page of the search for the issues of
/// project `project_key`, oldest change first: only the issues changed
/// since the minute of `after` when it is given, the page after
/// `page_token` when it is given. `None` when `chrono` cannot hold the
/// instant `after`.
pub fn issue_search_request(
    project_key: &str,
    after: Option<UtcTime>,
    page_token: Option<&str>,
    max_results: u64,
) -> (r: Option<Vec<(String, String)>>)
    ensures
        after is None ==> (r matches Some(ps) && pair_views(ps@) == search_params(
            issue_search_jql(project_key@, None),
            opt_str_view(page_token),
            max_results,
        )),
        after matches Some(t) ==> match minute_text(t) {
            Some(m) => r matches Some(ps) && pair_views(ps@) == search_params(
                issue_search_jql(project_key@, Some(m)),
                opt_str_view(page_token),
                max_results,
            ),
            None => r is None,
        },
{
    let jql = match after {
        Some(t) => match format_minute(t) {
            Some(m) => search_jql(project_key, Some(m.as_str())),
            None => {
                return None;
            },
        },
        None => search_jql(project_key, None),
    };
    Some(search_query_params(jql.as_str(), page_token, max_results))
}

/// Where page `page` leaves the search: another page follows when the page
/// is not the last and gives the next page's token.
pub fn page_status(page: &JsonValue) -> (r: PageStatus)
    ensures
        opt_string_view(r.next_page_token) == text_at(*page, "nextPageToken"@),
        r.has_more == (!page_is_last(*page) && text_at(*page, "nextPageToken"@) is Some),
{
    let is_last = match page.get("isLast") {
        Some(v) => match v.as_bool() {
            Some(b) => b,
            None => true,
        },
        None => true,
    };
    let token = match page.str_at("nextPageToken") {
        Some(t) => Some(owned(t)),
        None => None,
    };
    let has_more = !is_last && token.is_some();
    PageStatus { has_more, next_page_token: token }
}

/// The issue objects of a page of search results, when it has an `issues`
/// array.
pub fn page_issues(page: &JsonValue) -> (r: Option<&Vec<JsonValue>>)
    ensures
        match r {
            Some(items) => json_at(*page, "issues"@) == JsonValue::Array(*items),
            None => !(json_at(*page, "issues"@) is Array),
        },
{
    match page.get("issues") {
        Some(v) => v.as_array(),
        None => None,
    }
}

/// The issue objects of a page of search results (none when it has no
/// `issues` array).
pub open spec fn page_items(page: JsonValue) -> Seq<JsonValue> {
    match json_at(page, "issues"@) {
        JsonValue::Array(items) => items@,
        _ => seq![],
    }
}

/// The positions of the objects of `items` that hold an issue, in order.
pub open spec fn issue_positions(items: Seq<JsonValue>) -> Seq<int>
    decreases items.len(),
{
    if items.len() == 0 {
        seq![]
    } else if holds_issue(items.last()) {
        issue_positions(items.drop_last()).push(items.len() - 1)
    } else {
        issue_positions(items.drop_last())
    }
}

/// A page's issues come from exactly the objects that hold an issue, each
/// once, in the order of the page.
pub proof fn lemma_issue_positions(items: Seq<JsonValue>)
    ensures
        forall|j: int|
            0 <= j < issue_positions(items).len() ==> 0 <= #[trigger] issue_positions(items)[j]
                < items.len() && holds_issue(items[issue_positions(items)[j]]),
        forall|j: int, l: int|
            0 <= j < l < issue_positions(items).len() ==> #[trigger] issue_positions(items)[j]
                < #[trigger] issue_positions(items)[l],
        forall|k: int|
            0 <= k < items.len() && holds_issue(#[trigger] items[k]) ==> issue_positions(
                items,
            ).contains(k),
    decreases items.len(),
{
    if items.len() > 0 {
        let rest = items.drop_last();
        lemma_issue_positions(rest);
        let pr = issue_positions(rest);
        let ps = issue_positions(items);
        assert forall|j: int| 0 <= j < pr.len() implies rest[pr[j]] == items[pr[j]] by {}
        assert forall|k: int|
            0 <= k < items.len() && holds_issue(#[trigger] items[k]) implies ps.contains(k) by {
            if k < items.len() - 1 {
                assert(rest[k] == items[k]);
                let j = choose|j: int| 0 <= j < pr.len() && pr[j] == k;
                if holds_issue(items.last()) {
                    assert(ps[j] == k);
                }
            } else {
                assert(ps[pr.len() as int] == k);
            }
        }
    }
}

/// Every object of `items` that holds an issue has dates the reader can
/// look at.
pub open spec fn items_dates_ok(items: Seq<JsonValue>) -> bool {
    forall|k: int| 0 <= k < items.len() && holds_issue(#[trigger] items[k]) ==> issue_dates_ok(items[k])
}

/// One page of an issue search: the issues read from it and where it leaves
/// the search.
#[derive(Debug, Clone)]
pub struct FetchProgress {
    pub issues: Vec<Issue>,
    /// The number of issues in all; the token-based search does not give it.
    pub total: usize,
    /// The issues fetched before this page; the caller counts them.
    pub fetched_so_far: usize,
    /// Another page follows.
    pub has_more: bool,
    /// The token of the next page, as the page gives it.
    pub next_page_token: Option<String>,
}

/// Reads one page of search results: the issues of its objects that hold
/// one, in order, each with the text of its JSON taken from `raw_texts`
/// (one text per object), and where the page leaves the search.
pub fn read_issue_page(page: &JsonValue, raw_texts: Vec<Option<String>>) -> (r: FetchProgress)
    requires
        raw_texts@.len() == page_items(*page).len(),
        items_dates_ok(page_items(*page)),
    ensures
        r.issues@.len() == issue_positions(page_items(*page)).len(),
        forall|j: int|
            0 <= j < r.issues@.len() ==> read_from(
                page_items(*page)[issue_positions(page_items(*page))[j]],
                raw_texts@[issue_positions(page_items(*page))[j]],
                #[trigger] r.issues@[j],
            ),
        r.has_more == (!page_is_last(*page) && text_at(*page, "nextPageToken"@) is Some),
        opt_string_view(r.next_page_token) == text_at(*page, "nextPageToken"@),
        r.total == 0,
        r.fetched_so_far == 0,
{
    let status = page_status(page);
    let mut issues: Vec<Issue> = Vec::new();
    let ghost raws0 = raw_texts@;
    let mut raws = raw_texts;
    match page_issues(page) {
        Some(items) => {
            let n = items.len();
            for k in 0..n
                invariant
                    n == items@.len(),
                    items@ == page_items(*page),
                    raws0.len() == n,
                    raws@ == raws0.skip(k as int),
                    items_dates_ok(items@),
                    issues@.len() == issue_positions(items@.take(k as int)).len(),
                    forall|j: int|
                        0 <= j < issues@.len() ==> read_from(
                            items@[issue_positions(items@.take(k as int))[j]],
                            raws0[issue_positions(items@.take(k as int))[j]],
                            #[trigger] issues@[j],
                        ),
            {
                proof {
                    assert(items@.take(k + 1).drop_last() =~= items@.take(k as int));
                    assert(items@.take(k + 1).last() == items@[k as int]);
                    assert(raws@[0] == raws0[k as int]);
                }
                let raw = raws.remove(0);
                proof {
                    assert(raws@ =~= raws0.skip(k + 1));
                }
                let ghost before = issue_positions(items@.take(k as int));
                match parse_issue(&items[k], raw) {
                    Some(issue) => {
                        issues.push(issue);
                        assert(issue_positions(items@.take(k + 1)) == before.push(k as int));
                    },
                    None => {
                        assert(issue_positions(items@.take(k + 1)) == before);
                    },
                }
            }
            proof {
                assert(items@.take(n as int) =~= items@);
            }
        },
        None => {},
    }
    FetchProgress {
        issues,
        total: 0,
        fetched_so_far: 0,
        has_more: status.has_more,
        next_page_token: status.next_page_token,
    }
}

/// What a walk over the pages of a search does after a page.
#[derive(Debug, Clone)]
pub enum PageStep {
    /// The walk is over.
    Stop,
    /// Fetch the page with this token.
    Fetch(Option<String>),
}

/// The step of a walk over the pages of a search after `progress`: it stops
/// after the last page, and, when `stop_when_empty`, after an empty page
/// too; otherwise it fetches the page whose token `progress` gives.
pub fn next_page(progress: &FetchProgress, stop_when_empty: bool) -> (r: PageStep)
    ensures
        (!progress.has_more || (stop_when_empty && progress.issues@.len() == 0)) ==> r is Stop,
        (progress.has_more && !(stop_when_empty && progress.issues@.len() == 0)) ==> (r matches PageStep::Fetch(
            t,
        ) && opt_string_view(t) == opt_string_view(progress.next_page_token)),
{
    if !progress.has_more || (stop_when_empty && progress.issues.len() == 0) {
        return PageStep::Stop;
    }
    match &progress.next_page_token {
        Some(t) => PageStep::Fetch(Some(t.clone())),
        None => PageStep::Fetch(None),
    }
}

// ---------------------------------------------------------------------------
// Trying again
// ---------------------------------------------------------------------------

/// How one try of a request ended.
#[derive(Debug, Clone, Copy, PartialEq, Eq, Structural)]
pub enum Attempt {
    Succeeded,
    Failed,
    TimedOut,
}

/// What to do after a try.
#[derive(Debug, Clone, Copy, PartialEq, Eq, Structural)]
pub enum RetryStep {
    /// Hand the result over.
    Done,
    /// Give up and hand the error over.
    GiveUp,
    /// Give up after a time-out: make the request once more, without a time
    /// limit, and hand over the error it gives.
    FetchError,
    /// Wait `delay_secs` seconds and try again; `retries` tries have been
    /// repeated then.
    Wait { delay_secs: u64, retries: u32 },
}

/// `2^n`.
pub open spec fn power_of_two(n: nat) -> nat
    decreases n,
{
    if n == 0 {
        1
    } else {
        2 * power_of_two((n - 1) as nat)
    }
}

/// The step after a try that ended as `attempt`, when `retries` tries have
/// been repeated already and at most `max_retries` may be: a success is
/// handed over; a failure or a time-out is tried again after `2^k` seconds
/// (`k` the number of the repetition) until the repetitions are used up.
pub open spec fn retry_step(retries: u32, max_retries: u32, attempt: Attempt) -> RetryStep {
    match attempt {
        Attempt::Succeeded => RetryStep::Done,
        _ => if retries >= max_retries {
            if attempt == Attempt::Failed {
                RetryStep::GiveUp
            } else {
                RetryStep::FetchError
            }
        } else {
            RetryStep::Wait {
                delay_secs: power_of_two((retries + 1) as nat) as u64,
                retries: (retries + 1) as u32,
            }
        },
    }
}

/// Executable form of [`retry_step`]. The delay must fit in 64 bits.
pub fn next_retry_step(retries: u32, max_retries: u32, attempt: Attempt) -> (r: RetryStep)
    requires
        retries >= max_retries || retries < 63,
    ensures
        r == retry_step(retries, max_retries, attempt),
        r matches RetryStep::Wait { delay_secs, .. } ==> delay_secs == power_of_two(
            (retries + 1) as nat,
        ),
{
    match attempt {
        Attempt::Succeeded => RetryStep::Done,
        _ => {
            if retries >= max_retries {
                if attempt == Attempt::Failed {
                    RetryStep::GiveUp
                } else {
                    RetryStep::FetchError
                }
            } else {
                let next = retries + 1;
                let mut delay: u64 = 1;
                let mut k: u32 = 0;
                proof {
                    lemma_power_of_two_grows(0, 63);
                }
                while k < next
                    invariant
                        k <= next,
                        next < 64,
                        delay == power_of_two(k as nat),
                        power_of_two(k as nat) <= power_of_two(63),
                    decreases next - k,
                {
                    proof {
                        lemma_power_of_two_grows(k as nat + 1, 63);
                    }
                    delay = delay * 2;
                    k = k + 1;
                }
                proof {
                    lemma_power_of_two_grows(next as nat, 63);
                }
                RetryStep::Wait { delay_secs: delay, retries: next }
            }
        },
    }
}

/// `2^63` is `0x8000_0000_0000_0000`.
proof fn lemma_power_of_two_63()
    ensures
        power_of_two(63) == 0x8000_0000_0000_0000,
{
    reveal_with_fuel(power_of_two, 64);
}

/// `2^a <= 2^b` when `a <= b`.
proof fn lemma_power_of_two_monotone(a: nat, b: nat)
    requires
        a <= b,
    ensures
        power_of_two(a) <= power_of_two(b),
    decreases b,
{
    if a < b {
        lemma_power_of_two_monotone(a, (b - 1) as nat);
    }
}

/// `2^a <= 2^b` when `a <= b`, and `2^63` fits in 64 bits.
pub proof fn lemma_power_of_two_grows(a: nat, b: nat)
    requires
        a <= b,
    ensures
        power_of_two(a) <= power_of_two(b),
        power_of_two(63) < 0x1_0000_0000_0000_0000,
{
    lemma_power_of_two_monotone(a, b);
    lemma_power_of_two_63();
}

/// The number of tries a request gets when its tries end as `outcomes`
/// (until one succeeds or the run gives up), `retries` repetitions having
/// been made already.
pub open spec fn tries_made(retries: u32, max_retries: u32, outcomes: Seq<Attempt>) -> nat
    decreases outcomes.len(),
{
    if outcomes.len() == 0 {
        0
    } else {
        match retry_step(retries, max_retries, outcomes[0]) {
            RetryStep::Wait { retries: next, .. } => 1 + tries_made(next, max_retries, outcomes.skip(1)),
            _ => 1,
        }
    }
}

/// A request is tried at most `max_retries + 1` times, whatever its tries
/// give: each repetition counts one up, and at the limit the run ends.
pub proof fn lemma_tries_bounded(max_retries: u32, outcomes: Seq<Attempt>)
    ensures
        tries_made(0, max_retries, outcomes) <= max_retries + 1,
{
    lemma_tries_bounded_from(0, max_retries, outcomes);
}

/// [`lemma_tries_bounded`] from a state with `retries` repetitions made.
pub proof fn lemma_tries_bounded_from(retries: u32, max_retries: u32, outcomes: Seq<Attempt>)
    requires
        retries <= max_retries,
    ensures
        tries_made(retries, max_retries, outcomes) <= max_retries - retries + 1,
    decreases outcomes.len(),
{
    if outcomes.len() > 0 {
        match retry_step(retries, max_retries, outcomes[0]) {
            RetryStep::Wait { retries: next, .. } => {
                lemma_tries_bounded_from(next, max_retries, outcomes.skip(1));
            },
            _ => {},
        }
    }
}

/// Each wait is twice as long as the one before it.
pub proof fn lemma_delays_double(retries: u32, max_retries: u32, attempt: Attempt)
    requires
        0 < retries < max_retries,
        retries < 63,
        attempt != Attempt::Succeeded,
    ensures
        retry_step(retries, max_retries, attempt) matches RetryStep::Wait { delay_secs, .. }
            && delay_secs == 2 * power_of_two(retries as nat),
{
    lemma_power_of_two_grows((retries + 1) as nat, 63);
}

/// The position of the first try in `outcomes` that succeeds; the number of
/// tries when none does.
pub open spec fn first_success(outcomes: Seq<Attempt>) -> nat
    decreases outcomes.len(),
{
    if outcomes.len() == 0 {
        0
    } else if outcomes[0] == Attempt::Succeeded {
        0
    } else {
        1 + first_success(outcomes.skip(1))
    }
}

/// The smaller of `a` and `b`.
pub open spec fn min_nat(a: nat, b: nat) -> nat {
    if a <= b {
        a
    } else {
        b
    }
}

/// A request is tried exactly until its first success, and at most
/// `max_retries + 1` times: with tries that end as `outcomes`, the run makes
/// `min(k + 1, max_retries + 1)` tries, `k` the position of the first
/// success (fewer only when `outcomes` runs out first).
pub proof fn lemma_tries_exact(max_retries: u32, outcomes: Seq<Attempt>)
    ensures
        tries_made(0, max_retries, outcomes) == min_nat(
            outcomes.len(),
            min_nat(first_success(outcomes) + 1, (max_retries + 1) as nat),
        ),
{
    lemma_tries_exact_from(0, max_retries, outcomes);
}

/// [`lemma_tries_exact`] from a state with `retries` repetitions made.
pub proof fn lemma_tries_exact_from(retries: u32, max_retries: u32, outcomes: Seq<Attempt>)
    requires
        retries <= max_retries,
    ensures
        tries_made(retries, max_retries, outcomes) == min_nat(
            outcomes.len(),
            min_nat(first_success(outcomes) + 1, (max_retries - retries + 1) as nat),
        ),
    decreases outcomes.len(),
{
    if outcomes.len() > 0 && outcomes[0] != Attempt::Succeeded && retries < max_retries {
        lemma_tries_exact_from((retries + 1) as u32, max_retries, outcomes.skip(1));
    }
}

} // verus!
