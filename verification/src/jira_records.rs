//! What the JIRA client reads out of the metadata responses of the REST API
//! (statuses, priorities, issue types, labels, components, versions,
//! fields, transitions, counts), the bodies of the requests that change
//! issues, and the addresses it sends them to.
use vstd::prelude::*;

use crate::error::DomainError;
use crate::jira::{opt_string_view, owned_opt, text_at2, text_in};
use crate::json::{
    is_array_of_len, is_number, is_object_of, is_text, item_at, json_at, json_i64, json_text,
    member_at, text_at, JsonValue,
};
use crate::text::{owned, string_views};
use crate::time::UtcTime;

verus! {

// ---------------------------------------------------------------------------
// Reading helpers
// ---------------------------------------------------------------------------

/// The boolean member `key` of `v`, false when it is missing or not a
/// boolean.
pub open spec fn flag_at(v: JsonValue, key: Seq<char>) -> bool {
    match json_at(v, key) {
        JsonValue::Bool(b) => b,
        _ => false,
    }
}

/// Executable form of [`flag_at`].
pub fn flag_in(v: &JsonValue, key: &str) -> (r: bool)
    ensures
        r == flag_at(*v, key@),
{
    match v.get(key) {
        Some(x) => match x.as_bool() {
            Some(b) => b,
            None => false,
        },
        None => false,
    }
}

/// The text of member `key` of `v` as an owned string.
pub fn text_of(v: &JsonValue, key: &str) -> (r: Option<String>)
    ensures
        opt_string_view(r) == text_at(*v, key@),
{
    owned_opt(v.str_at(key))
}

/// The items of `v` if it is an array, else none.
pub open spec fn items_of(v: JsonValue) -> Seq<JsonValue> {
    match v {
        JsonValue::Array(items) => items@,
        _ => seq![],
    }
}

// ---------------------------------------------------------------------------
// Statuses
// ---------------------------------------------------------------------------

/// A status of a project.
#[derive(Debug, Clone)]
pub struct Status {
    pub name: String,
    pub description: Option<String>,
    /// The key of its category (`new`, `indeterminate`, `done`).
    pub category: Option<String>,
}

/// A status by its texts.
pub open spec fn status_view(s: Status) -> (Seq<char>, Option<Seq<char>>, Option<Seq<char>>) {
    (s.name@, opt_string_view(s.description), opt_string_view(s.category))
}

/// The statuses of `objs` that have a name, in order.
pub open spec fn statuses_in(objs: Seq<JsonValue>) -> Seq<(Seq<char>, Option<Seq<char>>, Option<Seq<char>>)>
    decreases objs.len(),
{
    if objs.len() == 0 {
        seq![]
    } else {
        let o = objs.last();
        match text_at(o, "name"@) {
            Some(n) => statuses_in(objs.drop_last()).push(
                (n, text_at(o, "description"@), text_at2(o, "statusCategory"@, "key"@)),
            ),
            None => statuses_in(objs.drop_last()),
        }
    }
}

/// Each status read comes from an object with its name, and carries that
/// object's description and the key of its status category.
pub proof fn lemma_statuses_from_objects(objs: Seq<JsonValue>)
    ensures
        statuses_in(objs).len() <= objs.len(),
        forall|j: int|
            0 <= j < statuses_in(objs).len() ==> exists|k: int|
                0 <= k < objs.len()
                    && Some((#[trigger] statuses_in(objs)[j]).0) == text_at(objs[k], "name"@)
                    && statuses_in(objs)[j].1 == text_at(objs[k], "description"@)
                    && statuses_in(objs)[j].2 == text_at2(objs[k], "statusCategory"@, "key"@),
    decreases objs.len(),
{
    if objs.len() > 0 {
        let rest = objs.drop_last();
        lemma_statuses_from_objects(rest);
        assert forall|j: int| 0 <= j < statuses_in(objs).len() implies exists|k: int|
            0 <= k < objs.len()
                && Some((#[trigger] statuses_in(objs)[j]).0) == text_at(objs[k], "name"@)
                && statuses_in(objs)[j].1 == text_at(objs[k], "description"@)
                && statuses_in(objs)[j].2 == text_at2(objs[k], "statusCategory"@, "key"@) by {
            if j < statuses_in(rest).len() {
                assert(statuses_in(objs)[j] == statuses_in(rest)[j]);
                let k = choose|k: int| 0 <= k < rest.len()
                    && Some(statuses_in(rest)[j].0) == text_at(rest[k], "name"@)
                    && statuses_in(rest)[j].1 == text_at(rest[k], "description"@)
                    && statuses_in(rest)[j].2 == text_at2(rest[k], "statusCategory"@, "key"@);
                assert(rest[k] == objs[k]);
            } else {
                assert(objs[objs.len() - 1] == objs.last());
            }
        }
    }
}

/// The statuses of all issue types of `types`, type after type.
pub open spec fn statuses_of_types(types: Seq<JsonValue>) -> Seq<(Seq<char>, Option<Seq<char>>, Option<Seq<char>>)>
    decreases types.len(),
{
    if types.len() == 0 {
        seq![]
    } else {
        statuses_of_types(types.drop_last()) + statuses_in(items_of(json_at(types.last(), "statuses"@)))
    }
}

/// Reads the statuses of a project out of the answer to
/// `/project/{key}/statuses`: a list of issue types, each with its
/// statuses.
pub fn read_statuses(answer: &JsonValue) -> (r: Vec<Status>)
    ensures
        r@.map_values(|s: Status| status_view(s)) == statuses_of_types(items_of(*answer)),
{
    let mut r: Vec<Status> = Vec::new();
    let types = match answer.as_array() {
        Some(t) => t,
        None => {
            assert(r@.map_values(|s: Status| status_view(s)) =~= seq![]);
            return r;
        },
    };
    for i in 0..types.len()
        invariant
            *answer == JsonValue::Array(*types),
            r@.map_values(|s: Status| status_view(s)) == statuses_of_types(types@.take(i as int)),
    {
        proof {
            assert(types@.take(i + 1).drop_last() =~= types@.take(i as int));
            assert(types@.take(i + 1).last() == types@[i as int]);
        }
        let ghost before = r@.map_values(|s: Status| status_view(s));
        let null = JsonValue::Null;
        let statuses = match types[i].get("statuses") {
            Some(s) => s,
            None => &null,
        };
        match statuses.as_array() {
            Some(objs) => {
                for k in 0..objs.len()
                    invariant
                        r@.map_values(|s: Status| status_view(s)) == before + statuses_in(
                            objs@.take(k as int),
                        ),
                {
                    proof {
                        assert(objs@.take(k + 1).drop_last() =~= objs@.take(k as int));
                        assert(objs@.take(k + 1).last() == objs@[k as int]);
                    }
                    let o = &objs[k];
                    match o.str_at("name") {
                        Some(n) => {
                            let ghost mid = r@.map_values(|s: Status| status_view(s));
                            let st = Status {
                                name: owned(n),
                                description: text_of(o, "description"),
                                category: text_in(o, "statusCategory", "key"),
                            };
                            r.push(st);
                            assert(r@.map_values(|s: Status| status_view(s)) =~= mid.push(
                                status_view(st),
                            ));
                        },
                        None => {},
                    }
                }
                assert(objs@.take(objs.len() as int) =~= objs@);
            },
            None => {
                assert(statuses_in(items_of(*statuses)) =~= seq![]);
                assert(before + statuses_in(items_of(*statuses)) =~= before);
            },
        }
    }
    assert(types@.take(types.len() as int) =~= types@);
    r
}

// ---------------------------------------------------------------------------
// Priorities, issue types, components
// ---------------------------------------------------------------------------

/// A priority an issue can have.
#[derive(Debug, Clone)]
pub struct Priority {
    pub name: String,
    pub description: Option<String>,
    pub icon_url: Option<String>,
}

/// A priority by its texts.
pub open spec fn priority_view(p: Priority) -> (Seq<char>, Option<Seq<char>>, Option<Seq<char>>) {
    (p.name@, opt_string_view(p.description), opt_string_view(p.icon_url))
}

/// The priorities of `objs` that have a name, in order.
pub open spec fn priorities_in(objs: Seq<JsonValue>) -> Seq<(Seq<char>, Option<Seq<char>>, Option<Seq<char>>)>
    decreases objs.len(),
{
    if objs.len() == 0 {
        seq![]
    } else {
        let o = objs.last();
        match text_at(o, "name"@) {
            Some(n) => priorities_in(objs.drop_last()).push(
                (n, text_at(o, "description"@), text_at(o, "iconUrl"@)),
            ),
            None => priorities_in(objs.drop_last()),
        }
    }
}

/// Each priority read comes from an object with its name, and carries
/// that object's description and icon URL.
pub proof fn lemma_priorities_from_objects(objs: Seq<JsonValue>)
    ensures
        priorities_in(objs).len() <= objs.len(),
        forall|j: int|
            0 <= j < priorities_in(objs).len() ==> exists|k: int|
                0 <= k < objs.len()
                    && Some((#[trigger] priorities_in(objs)[j]).0) == text_at(objs[k], "name"@)
                    && priorities_in(objs)[j].1 == text_at(objs[k], "description"@)
                    && priorities_in(objs)[j].2 == text_at(objs[k], "iconUrl"@),
    decreases objs.len(),
{
    if objs.len() > 0 {
        let rest = objs.drop_last();
        lemma_priorities_from_objects(rest);
        assert forall|j: int| 0 <= j < priorities_in(objs).len() implies exists|k: int|
            0 <= k < objs.len()
                && Some((#[trigger] priorities_in(objs)[j]).0) == text_at(objs[k], "name"@)
                && priorities_in(objs)[j].1 == text_at(objs[k], "description"@)
                && priorities_in(objs)[j].2 == text_at(objs[k], "iconUrl"@) by {
            if j < priorities_in(rest).len() {
                assert(priorities_in(objs)[j] == priorities_in(rest)[j]);
                let k = choose|k: int| 0 <= k < rest.len()
                    && Some(priorities_in(rest)[j].0) == text_at(rest[k], "name"@)
                    && priorities_in(rest)[j].1 == text_at(rest[k], "description"@)
                    && priorities_in(rest)[j].2 == text_at(rest[k], "iconUrl"@);
                assert(rest[k] == objs[k]);
            } else {
                assert(objs[objs.len() - 1] == objs.last());
            }
        }
    }
}

/// Reads the priorities out of the answer to `/priority`.
pub fn read_priorities(answer: &JsonValue) -> (r: Vec<Priority>)
    ensures
        r@.map_values(|p: Priority| priority_view(p)) == priorities_in(items_of(*answer)),
{
    let mut r: Vec<Priority> = Vec::new();
    let objs = match answer.as_array() {
        Some(t) => t,
        None => {
            assert(r@.map_values(|p: Priority| priority_view(p)) =~= seq![]);
            return r;
        },
    };
    for k in 0..objs.len()
        invariant
            *answer == JsonValue::Array(*objs),
            r@.map_values(|p: Priority| priority_view(p)) == priorities_in(objs@.take(k as int)),
    {
        proof {
            assert(objs@.take(k + 1).drop_last() =~= objs@.take(k as int));
            assert(objs@.take(k + 1).last() == objs@[k as int]);
        }
        let o = &objs[k];
        match o.str_at("name") {
            Some(n) => {
                let ghost mid = r@.map_values(|p: Priority| priority_view(p));
                let p = Priority {
                    name: owned(n),
                    description: text_of(o, "description"),
                    icon_url: text_of(o, "iconUrl"),
                };
                r.push(p);
                assert(r@.map_values(|p: Priority| priority_view(p)) =~= mid.push(priority_view(p)));
            },
            None => {},
        }
    }
    assert(objs@.take(objs.len() as int) =~= objs@);
    r
}

/// A kind of issue.
#[derive(Debug, Clone)]
pub struct IssueType {
    pub name: String,
    pub description: Option<String>,
    pub icon_url: Option<String>,
    /// Issues of this kind are subtasks.
    pub subtask: bool,
}

/// An issue type by its values.
pub open spec fn issue_type_view(t: IssueType) -> (Seq<char>, Option<Seq<char>>, Option<Seq<char>>, bool) {
    (t.name@, opt_string_view(t.description), opt_string_view(t.icon_url), t.subtask)
}

/// The issue types of `objs` that have a name, in order; `subtask` is
/// false unless the object says otherwise.
pub open spec fn issue_types_in(objs: Seq<JsonValue>) -> Seq<(Seq<char>, Option<Seq<char>>, Option<Seq<char>>, bool)>
    decreases objs.len(),
{
    if objs.len() == 0 {
        seq![]
    } else {
        let o = objs.last();
        match text_at(o, "name"@) {
            Some(n) => issue_types_in(objs.drop_last()).push(
                (n, text_at(o, "description"@), text_at(o, "iconUrl"@), flag_at(o, "subtask"@)),
            ),
            None => issue_types_in(objs.drop_last()),
        }
    }
}

/// Each issue type read comes from an object with its name, and carries
/// that object's description, icon URL and subtask flag.
pub proof fn lemma_issue_types_from_objects(objs: Seq<JsonValue>)
    ensures
        issue_types_in(objs).len() <= objs.len(),
        forall|j: int|
            0 <= j < issue_types_in(objs).len() ==> exists|k: int|
                0 <= k < objs.len()
                    && Some((#[trigger] issue_types_in(objs)[j]).0) == text_at(objs[k], "name"@)
                    && issue_types_in(objs)[j].1 == text_at(objs[k], "description"@)
                    && issue_types_in(objs)[j].2 == text_at(objs[k], "iconUrl"@)
                    && issue_types_in(objs)[j].3 == flag_at(objs[k], "subtask"@),
    decreases objs.len(),
{
    if objs.len() > 0 {
        let rest = objs.drop_last();
        lemma_issue_types_from_objects(rest);
        assert forall|j: int| 0 <= j < issue_types_in(objs).len() implies exists|k: int|
            0 <= k < objs.len()
                && Some((#[trigger] issue_types_in(objs)[j]).0) == text_at(objs[k], "name"@)
                && issue_types_in(objs)[j].1 == text_at(objs[k], "description"@)
                && issue_types_in(objs)[j].2 == text_at(objs[k], "iconUrl"@)
                && issue_types_in(objs)[j].3 == flag_at(objs[k], "subtask"@) by {
            if j < issue_types_in(rest).len() {
                assert(issue_types_in(objs)[j] == issue_types_in(rest)[j]);
                let k = choose|k: int| 0 <= k < rest.len()
                    && Some(issue_types_in(rest)[j].0) == text_at(rest[k], "name"@)
                    && issue_types_in(rest)[j].1 == text_at(rest[k], "description"@)
                    && issue_types_in(rest)[j].2 == text_at(rest[k], "iconUrl"@)
                    && issue_types_in(rest)[j].3 == flag_at(rest[k], "subtask"@);
                assert(rest[k] == objs[k]);
            } else {
                assert(objs[objs.len() - 1] == objs.last());
            }
        }
    }
}

/// Reads issue types out of a list of issue type objects.
pub fn read_issue_type_list(objs: &Vec<JsonValue>) -> (r: Vec<IssueType>)
    ensures
        r@.map_values(|t: IssueType| issue_type_view(t)) == issue_types_in(objs@),
{
    let mut r: Vec<IssueType> = Vec::new();
    for k in 0..objs.len()
        invariant
            r@.map_values(|t: IssueType| issue_type_view(t)) == issue_types_in(objs@.take(k as int)),
    {
        proof {
            assert(objs@.take(k + 1).drop_last() =~= objs@.take(k as int));
            assert(objs@.take(k + 1).last() == objs@[k as int]);
        }
        let o = &objs[k];
        match o.str_at("name") {
            Some(n) => {
                let ghost mid = r@.map_values(|t: IssueType| issue_type_view(t));
                let t = IssueType {
                    name: owned(n),
                    description: text_of(o, "description"),
                    icon_url: text_of(o, "iconUrl"),
                    subtask: flag_in(o, "subtask"),
                };
                r.push(t);
                assert(r@.map_values(|t: IssueType| issue_type_view(t)) =~= mid.push(
                    issue_type_view(t),
                ));
            },
            None => {},
        }
    }
    assert(objs@.take(objs.len() as int) =~= objs@);
    r
}

/// Reads the issue types of a project out of the answer to
/// `/issuetype/project`: a list of issue types.
pub fn read_issue_types(answer: &JsonValue) -> (r: Vec<IssueType>)
    ensures
        r@.map_values(|t: IssueType| issue_type_view(t)) == issue_types_in(items_of(*answer)),
{
    match answer.as_array() {
        Some(objs) => read_issue_type_list(objs),
        None => {
            let r: Vec<IssueType> = Vec::new();
            assert(r@.map_values(|t: IssueType| issue_type_view(t)) =~= seq![]);
            r
        },
    }
}

/// The list of issue types in an answer of `/issue/createmeta/{key}/issuetypes`:
/// its `issueTypes` member, or else its `values` member, when that member
/// is there (and an array); else the answer itself, when it is an array.
pub open spec fn createmeta_types(answer: JsonValue) -> Seq<JsonValue> {
    match crate::json::json_get(answer, "issueTypes"@) {
        Some(v) => items_of(v),
        None => match crate::json::json_get(answer, "values"@) {
            Some(v) => items_of(v),
            None => items_of(answer),
        },
    }
}

/// Reads the issue types of a project out of the answer to
/// `/issue/createmeta/{key}/issuetypes`.
pub fn read_createmeta_issue_types(answer: &JsonValue) -> (r: Vec<IssueType>)
    ensures
        r@.map_values(|t: IssueType| issue_type_view(t)) == issue_types_in(createmeta_types(*answer)),
{
    let listed = match answer.get("issueTypes") {
        Some(v) => Some(v),
        None => answer.get("values"),
    };
    let source = match listed {
        Some(v) => v,
        None => answer,
    };
    read_issue_types(source)
}

/// A component of a project.
#[derive(Debug, Clone)]
pub struct Component {
    pub name: String,
    pub description: Option<String>,
    /// The display name of its lead.
    pub lead: Option<String>,
}

/// A component by its texts.
pub open spec fn component_view(c: Component) -> (Seq<char>, Option<Seq<char>>, Option<Seq<char>>) {
    (c.name@, opt_string_view(c.description), opt_string_view(c.lead))
}

/// The components of `objs` that have a name, in order.
pub open spec fn components_in(objs: Seq<JsonValue>) -> Seq<(Seq<char>, Option<Seq<char>>, Option<Seq<char>>)>
    decreases objs.len(),
{
    if objs.len() == 0 {
        seq![]
    } else {
        let o = objs.last();
        match text_at(o, "name"@) {
            Some(n) => components_in(objs.drop_last()).push(
                (n, text_at(o, "description"@), text_at2(o, "lead"@, "displayName"@)),
            ),
            None => components_in(objs.drop_last()),
        }
    }
}

/// Each component read comes from an object with its name, and carries
/// that object's description and the display name of its lead.
pub proof fn lemma_components_from_objects(objs: Seq<JsonValue>)
    ensures
        components_in(objs).len() <= objs.len(),
        forall|j: int|
            0 <= j < components_in(objs).len() ==> exists|k: int|
                0 <= k < objs.len()
                    && Some((#[trigger] components_in(objs)[j]).0) == text_at(objs[k], "name"@)
                    && components_in(objs)[j].1 == text_at(objs[k], "description"@)
                    && components_in(objs)[j].2 == text_at2(objs[k], "lead"@, "displayName"@),
    decreases objs.len(),
{
    if objs.len() > 0 {
        let rest = objs.drop_last();
        lemma_components_from_objects(rest);
        assert forall|j: int| 0 <= j < components_in(objs).len() implies exists|k: int|
            0 <= k < objs.len()
                && Some((#[trigger] components_in(objs)[j]).0) == text_at(objs[k], "name"@)
                && components_in(objs)[j].1 == text_at(objs[k], "description"@)
                && components_in(objs)[j].2 == text_at2(objs[k], "lead"@, "displayName"@) by {
            if j < components_in(rest).len() {
                assert(components_in(objs)[j] == components_in(rest)[j]);
                let k = choose|k: int| 0 <= k < rest.len()
                    && Some(components_in(rest)[j].0) == text_at(rest[k], "name"@)
                    && components_in(rest)[j].1 == text_at(rest[k], "description"@)
                    && components_in(rest)[j].2 == text_at2(rest[k], "lead"@, "displayName"@);
                assert(rest[k] == objs[k]);
            } else {
                assert(objs[objs.len() - 1] == objs.last());
            }
        }
    }
}

/// Reads the components out of the answer to `/project/{key}/components`.
pub fn read_components(answer: &JsonValue) -> (r: Vec<Component>)
    ensures
        r@.map_values(|c: Component| component_view(c)) == components_in(items_of(*answer)),
{
    let mut r: Vec<Component> = Vec::new();
    let objs = match answer.as_array() {
        Some(t) => t,
        None => {
            assert(r@.map_values(|c: Component| component_view(c)) =~= seq![]);
            return r;
        },
    };
    for k in 0..objs.len()
        invariant
            *answer == JsonValue::Array(*objs),
            r@.map_values(|c: Component| component_view(c)) == components_in(objs@.take(k as int)),
    {
        proof {
            assert(objs@.take(k + 1).drop_last() =~= objs@.take(k as int));
            assert(objs@.take(k + 1).last() == objs@[k as int]);
        }
        let o = &objs[k];
        match o.str_at("name") {
            Some(n) => {
                let ghost mid = r@.map_values(|c: Component| component_view(c));
                let c = Component {
                    name: owned(n),
                    description: text_of(o, "description"),
                    lead: text_in(o, "lead", "displayName"),
                };
                r.push(c);
                assert(r@.map_values(|c: Component| component_view(c)) =~= mid.push(
                    component_view(c),
                ));
            },
            None => {},
        }
    }
    assert(objs@.take(objs.len() as int) =~= objs@);
    r
}

// ---------------------------------------------------------------------------
// Versions
// ---------------------------------------------------------------------------

/// The start of the day that `chrono::NaiveDate::parse_from_str` reads from
/// `s` with `%Y-%m-%d`, in UTC, or `None` when it refuses `s`.
pub uninterp spec fn calendar_day(s: Seq<char>) -> Option<UtcTime>;

/// `chrono::NaiveDate::parse_from_str(s, "%Y-%m-%d")`, at midnight, in UTC.
/// Which texts it reads, and as what, is named, not stated; it depends on
/// `s` alone.
#[verifier::external_body]
pub(crate) fn parse_calendar_day(s: &str) -> (r: Option<UtcTime>)
    ensures
        r == calendar_day(s@),
{
    match chrono::NaiveDate::parse_from_str(s, "%Y-%m-%d") {
        Ok(d) => match d.and_hms_opt(0, 0, 0) {
            Some(t) => {
                let u = t.and_utc();
                Some(UtcTime { secs: u.timestamp(), nanos: u.timestamp_subsec_nanos() })
            },
            None => None,
        },
        Err(_) => None,
    }
}

/// A version of a project.
#[derive(Debug, Clone)]
pub struct FixVersion {
    pub name: String,
    pub description: Option<String>,
    pub released: bool,
    pub release_date: Option<UtcTime>,
}

/// A version by its values.
pub open spec fn version_view(v: FixVersion) -> (Seq<char>, Option<Seq<char>>, bool, Option<UtcTime>) {
    (v.name@, opt_string_view(v.description), v.released, v.release_date)
}

/// The release date of a version object: its `releaseDate` as a day.
pub open spec fn release_date_of(o: JsonValue) -> Option<UtcTime> {
    match text_at(o, "releaseDate"@) {
        Some(s) => calendar_day(s),
        None => None,
    }
}

/// The versions of `objs` that have a name, in order.
pub open spec fn versions_in(objs: Seq<JsonValue>) -> Seq<(Seq<char>, Option<Seq<char>>, bool, Option<UtcTime>)>
    decreases objs.len(),
{
    if objs.len() == 0 {
        seq![]
    } else {
        let o = objs.last();
        match text_at(o, "name"@) {
            Some(n) => versions_in(objs.drop_last()).push(
                (n, text_at(o, "description"@), flag_at(o, "released"@), release_date_of(o)),
            ),
            None => versions_in(objs.drop_last()),
        }
    }
}

/// Each version read comes from an object with its name, and carries that
/// object's description, its released flag and its release day.
pub proof fn lemma_versions_from_objects(objs: Seq<JsonValue>)
    ensures
        versions_in(objs).len() <= objs.len(),
        forall|j: int|
            0 <= j < versions_in(objs).len() ==> exists|k: int|
                0 <= k < objs.len()
                    && Some((#[trigger] versions_in(objs)[j]).0) == text_at(objs[k], "name"@)
                    && versions_in(objs)[j].1 == text_at(objs[k], "description"@)
                    && versions_in(objs)[j].2 == flag_at(objs[k], "released"@)
                    && versions_in(objs)[j].3 == release_date_of(objs[k]),
    decreases objs.len(),
{
    if objs.len() > 0 {
        let rest = objs.drop_last();
        lemma_versions_from_objects(rest);
        assert forall|j: int| 0 <= j < versions_in(objs).len() implies exists|k: int|
            0 <= k < objs.len()
                && Some((#[trigger] versions_in(objs)[j]).0) == text_at(objs[k], "name"@)
                && versions_in(objs)[j].1 == text_at(objs[k], "description"@)
                && versions_in(objs)[j].2 == flag_at(objs[k], "released"@)
                && versions_in(objs)[j].3 == release_date_of(objs[k]) by {
            if j < versions_in(rest).len() {
                assert(versions_in(objs)[j] == versions_in(rest)[j]);
                let k = choose|k: int| 0 <= k < rest.len()
                    && Some(versions_in(rest)[j].0) == text_at(rest[k], "name"@)
                    && versions_in(rest)[j].1 == text_at(rest[k], "description"@)
                    && versions_in(rest)[j].2 == flag_at(rest[k], "released"@)
                    && versions_in(rest)[j].3 == release_date_of(rest[k]);
                assert(rest[k] == objs[k]);
            } else {
                assert(objs[objs.len() - 1] == objs.last());
            }
        }
    }
}

/// Reads the versions out of the answer to `/project/{key}/versions`.
pub fn read_versions(answer: &JsonValue) -> (r: Vec<FixVersion>)
    ensures
        r@.map_values(|v: FixVersion| version_view(v)) == versions_in(items_of(*answer)),
{
    let mut r: Vec<FixVersion> = Vec::new();
    let objs = match answer.as_array() {
        Some(t) => t,
        None => {
            assert(r@.map_values(|v: FixVersion| version_view(v)) =~= seq![]);
            return r;
        },
    };
    for k in 0..objs.len()
        invariant
            *answer == JsonValue::Array(*objs),
            r@.map_values(|v: FixVersion| version_view(v)) == versions_in(objs@.take(k as int)),
    {
        proof {
            assert(objs@.take(k + 1).drop_last() =~= objs@.take(k as int));
            assert(objs@.take(k + 1).last() == objs@[k as int]);
        }
        let o = &objs[k];
        match o.str_at("name") {
            Some(n) => {
                let ghost mid = r@.map_values(|v: FixVersion| version_view(v));
                let release_date = match o.str_at("releaseDate") {
                    Some(s) => parse_calendar_day(s),
                    None => None,
                };
                let v = FixVersion {
                    name: owned(n),
                    description: text_of(o, "description"),
                    released: flag_in(o, "released"),
                    release_date,
                };
                r.push(v);
                assert(r@.map_values(|v: FixVersion| version_view(v)) =~= mid.push(version_view(v)));
            },
            None => {},
        }
    }
    assert(objs@.take(objs.len() as int) =~= objs@);
    r
}

// ---------------------------------------------------------------------------
// Labels
// ---------------------------------------------------------------------------

/// The label texts of the issues of a search answer, in order, repeats
/// included.
pub open spec fn label_texts(issues: Seq<JsonValue>) -> Seq<Seq<char>>
    decreases issues.len(),
{
    if issues.len() == 0 {
        seq![]
    } else {
        label_texts(issues.drop_last()) + crate::jira::texts_of(
            items_of(json_at(json_at(issues.last(), "fields"@), "labels"@)),
        )
    }
}

/// Appends the texts among `items` that `r` does not hold yet.
fn add_new_texts(r: &mut Vec<String>, items: &Vec<JsonValue>)
    requires
        string_views(old(r)@).no_duplicates(),
    ensures
        string_views(final(r)@).no_duplicates(),
        string_views(final(r)@).to_set() == string_views(old(r)@).to_set() + crate::jira::texts_of(
            items@,
        ).to_set(),
{
    for k in 0..items.len()
        invariant
            string_views(r@).no_duplicates(),
            string_views(r@).to_set() == string_views(old(r)@).to_set() + crate::jira::texts_of(
                items@.take(k as int),
            ).to_set(),
    {
        proof {
            assert(items@.take(k + 1).drop_last() =~= items@.take(k as int));
            assert(items@.take(k + 1).last() == items@[k as int]);
        }
        match items[k].as_str() {
            Some(t) => {
                let ghost before = string_views(r@);
                let present = crate::expanded::contains_string(r, t);
                if !present {
                    r.push(owned(t));
                    proof {
                        assert(string_views(r@) =~= before.push(t@));
                        before.lemma_push_to_set_commute(t@);
                    }
                }
                proof {
                    assert(crate::jira::texts_of(items@.take(k + 1)) == crate::jira::texts_of(
                        items@.take(k as int),
                    ).push(t@));
                    crate::jira::texts_of(items@.take(k as int)).lemma_push_to_set_commute(t@);
                    if present {
                        assert(before.to_set().contains(t@));
                    }
                    assert(string_views(r@).to_set() =~= string_views(old(r)@).to_set()
                        + crate::jira::texts_of(items@.take(k + 1)).to_set());
                }
            },
            None => {},
        }
    }
    assert(items@.take(items.len() as int) =~= items@);
}

/// Reads the labels used in a project out of the answer to a search for
/// its labelled issues: each label once.
pub fn read_labels(answer: &JsonValue) -> (r: Vec<String>)
    ensures
        string_views(r@).no_duplicates(),
        string_views(r@).to_set() == label_texts(items_of(json_at(*answer, "issues"@))).to_set(),
{
    let mut r: Vec<String> = Vec::new();
    let null = JsonValue::Null;
    let issues_value = match answer.get("issues") {
        Some(v) => v,
        None => &null,
    };
    let issues = match issues_value.as_array() {
        Some(t) => t,
        None => {
            assert(string_views(r@).to_set() =~= Set::<Seq<char>>::empty());
            assert(label_texts(items_of(json_at(*answer, "issues"@))) =~= seq![]);
            return r;
        },
    };
    for i in 0..issues.len()
        invariant
            json_at(*answer, "issues"@) == JsonValue::Array(*issues),
            null == JsonValue::Null,
            string_views(r@).no_duplicates(),
            string_views(r@).to_set() == label_texts(issues@.take(i as int)).to_set(),
    {
        proof {
            assert(issues@.take(i + 1).drop_last() =~= issues@.take(i as int));
            assert(issues@.take(i + 1).last() == issues@[i as int]);
        }
        let fields = match issues[i].get("fields") {
            Some(f) => f,
            None => &null,
        };
        let labels = match fields.get("labels") {
            Some(l) => l,
            None => &null,
        };
        let ghost prev = label_texts(issues@.take(i as int));
        assert(*fields == json_at(issues@[i as int], "fields"@));
        assert(*labels == json_at(*fields, "labels"@));
        match labels.as_array() {
            Some(items) => {
                assert(items_of(*labels) == items@);
                add_new_texts(&mut r, items);
                proof {
                    vstd::seq_lib::seq_to_set_distributes_over_add(prev, crate::jira::texts_of(items@));
                }
            },
            None => {
                assert(crate::jira::texts_of(items_of(*labels)) =~= seq![]);
                assert(prev + crate::jira::texts_of(items_of(*labels)) =~= prev);
            },
        }
    }
    assert(issues@.take(issues.len() as int) =~= issues@);
    r
}

// ---------------------------------------------------------------------------
// Fields
// ---------------------------------------------------------------------------

/// A field of the JIRA site, as `/field` describes it.
#[derive(Debug, Clone)]
pub struct JiraField {
    pub id: String,
    pub key: String,
    pub name: String,
    pub custom: bool,
    pub searchable: bool,
    pub navigable: bool,
    pub orderable: bool,
    pub schema_type: Option<String>,
    pub schema_items: Option<String>,
    pub schema_system: Option<String>,
    pub schema_custom: Option<String>,
    pub schema_custom_id: Option<i64>,
}

/// What a field object gives, when it has an id: the id; the key (the id
/// when it has none); the name (empty when it has none); the four flags
/// (false when missing); and the texts and custom id of its schema.
pub open spec fn field_fits(f: JiraField, o: JsonValue) -> bool {
    let schema = json_at(o, "schema"@);
    &&& Some(f.id@) == text_at(o, "id"@)
    &&& f.key@ == match text_at(o, "key"@) {
        Some(k) => k,
        None => f.id@,
    }
    &&& f.name@ == match text_at(o, "name"@) {
        Some(n) => n,
        None => seq![],
    }
    &&& f.custom == flag_at(o, "custom"@)
    &&& f.searchable == flag_at(o, "searchable"@)
    &&& f.navigable == flag_at(o, "navigable"@)
    &&& f.orderable == flag_at(o, "orderable"@)
    &&& opt_string_view(f.schema_type) == text_at(schema, "type"@)
    &&& opt_string_view(f.schema_items) == text_at(schema, "items"@)
    &&& opt_string_view(f.schema_system) == text_at(schema, "system"@)
    &&& opt_string_view(f.schema_custom) == text_at(schema, "custom"@)
    &&& f.schema_custom_id == json_i64(json_at(schema, "customId"@))
}

/// The field objects of `objs` that have an id, in order.
pub open spec fn objects_with_id(objs: Seq<JsonValue>) -> Seq<JsonValue>
    decreases objs.len(),
{
    if objs.len() == 0 {
        seq![]
    } else if text_at(objs.last(), "id"@) is Some {
        objects_with_id(objs.drop_last()).push(objs.last())
    } else {
        objects_with_id(objs.drop_last())
    }
}

/// Reads one field object that has an id.
fn read_field(o: &JsonValue, id: &str) -> (r: JiraField)
    requires
        text_at(*o, "id"@) == Some(id@),
    ensures
        field_fits(r, *o),
{
    let null = JsonValue::Null;
    let schema = match o.get("schema") {
        Some(s) => s,
        None => &null,
    };
    let key = match o.str_at("key") {
        Some(k) => owned(k),
        None => owned(id),
    };
    let name = match o.str_at("name") {
        Some(n) => owned(n),
        None => String::new(),
    };
    let custom_id = match schema.get("customId") {
        Some(v) => v.as_i64(),
        None => null.as_i64(),
    };
    JiraField {
        id: owned(id),
        key,
        name,
        custom: flag_in(o, "custom"),
        searchable: flag_in(o, "searchable"),
        navigable: flag_in(o, "navigable"),
        orderable: flag_in(o, "orderable"),
        schema_type: text_of(schema, "type"),
        schema_items: text_of(schema, "items"),
        schema_system: text_of(schema, "system"),
        schema_custom: text_of(schema, "custom"),
        schema_custom_id: custom_id,
    }
}

/// Reads the fields out of the answer to `/field`: one per object that has
/// an id, in order.
pub fn read_fields(answer: &JsonValue) -> (r: Vec<JiraField>)
    ensures
        r@.len() == objects_with_id(items_of(*answer)).len(),
        forall|i: int| 0 <= i < r@.len() ==> field_fits(#[trigger] r@[i], objects_with_id(items_of(*answer))[i]),
{
    let mut r: Vec<JiraField> = Vec::new();
    let objs = match answer.as_array() {
        Some(t) => t,
        None => {
            return r;
        },
    };
    for k in 0..objs.len()
        invariant
            *answer == JsonValue::Array(*objs),
            r@.len() == objects_with_id(objs@.take(k as int)).len(),
            forall|i: int| 0 <= i < r@.len() ==> field_fits(#[trigger] r@[i], objects_with_id(objs@.take(k as int))[i]),
    {
        proof {
            assert(objs@.take(k + 1).drop_last() =~= objs@.take(k as int));
            assert(objs@.take(k + 1).last() == objs@[k as int]);
        }
        let o = &objs[k];
        match o.str_at("id") {
            Some(id) => {
                let f = read_field(o, id);
                r.push(f);
            },
            None => {},
        }
    }
    assert(objs@.take(objs.len() as int) =~= objs@);
    r
}

// ---------------------------------------------------------------------------
// Transitions and created issues
// ---------------------------------------------------------------------------

/// A transition an issue can take.
#[derive(Debug, Clone)]
pub struct Transition {
    pub id: String,
    pub name: String,
    /// The name of the status it leads to.
    pub to_status: String,
    /// The category key of that status.
    pub to_status_category: Option<String>,
}

/// A text, or the empty text when there is none.
pub open spec fn or_empty(t: Option<Seq<char>>) -> Seq<char> {
    match t {
        Some(s) => s,
        None => seq![],
    }
}

/// A transition by its texts.
pub open spec fn transition_view(t: Transition) -> (Seq<char>, Seq<char>, Seq<char>, Option<Seq<char>>) {
    (t.id@, t.name@, t.to_status@, opt_string_view(t.to_status_category))
}

/// The transitions of `objs`, in order; missing texts are empty.
pub open spec fn transitions_in(objs: Seq<JsonValue>) -> Seq<(Seq<char>, Seq<char>, Seq<char>, Option<Seq<char>>)> {
    objs.map_values(
        |o: JsonValue|
            (
                or_empty(text_at(o, "id"@)),
                or_empty(text_at(o, "name"@)),
                or_empty(text_at2(o, "to"@, "name"@)),
                text_at2(json_at(o, "to"@), "statusCategory"@, "key"@),
            ),
    )
}

fn text_or_empty(t: Option<String>) -> (r: String)
    ensures
        r@ == or_empty(opt_string_view(t)),
{
    match t {
        Some(s) => s,
        None => String::new(),
    }
}

/// Reads the transitions out of the answer to `/issue/{key}/transitions`.
pub fn read_transitions(answer: &JsonValue) -> (r: Vec<Transition>)
    ensures
        r@.map_values(|t: Transition| transition_view(t)) == transitions_in(
            items_of(json_at(*answer, "transitions"@)),
        ),
{
    let mut r: Vec<Transition> = Vec::new();
    let null = JsonValue::Null;
    let list = match answer.get("transitions") {
        Some(v) => v,
        None => &null,
    };
    let objs = match list.as_array() {
        Some(t) => t,
        None => {
            assert(r@.map_values(|t: Transition| transition_view(t)) =~= transitions_in(
                items_of(json_at(*answer, "transitions"@)),
            ));
            return r;
        },
    };
    for k in 0..objs.len()
        invariant
            json_at(*answer, "transitions"@) == JsonValue::Array(*objs),
            null == JsonValue::Null,
            r@.map_values(|t: Transition| transition_view(t)) == transitions_in(objs@.take(k as int)),
    {
        let o = &objs[k];
        let to = match o.get("to") {
            Some(t) => t,
            None => &null,
        };
        let t = Transition {
            id: text_or_empty(text_of(o, "id")),
            name: text_or_empty(text_of(o, "name")),
            to_status: text_or_empty(text_in(o, "to", "name")),
            to_status_category: text_in(to, "statusCategory", "key"),
        };
        let ghost before = r@.map_values(|t: Transition| transition_view(t));
        r.push(t);
        assert(r@.map_values(|t: Transition| transition_view(t)) =~= before.push(transition_view(t)));
        assert(transitions_in(objs@.take(k + 1)) =~= transitions_in(objs@.take(k as int)).push(
            transition_view(t),
        ));
    }
    assert(objs@.take(objs.len() as int) =~= objs@);
    r
}

/// An issue that was created.
#[derive(Debug, Clone)]
pub struct CreatedIssue {
    pub id: String,
    pub key: String,
    /// The address of the new issue in the API.
    pub self_url: Option<String>,
}

/// Reads the answer to the creation of an issue: its id and key must be
/// there.
pub fn read_created_issue(answer: &JsonValue) -> (r: Result<CreatedIssue, DomainError>)
    ensures
        text_at(*answer, "id"@) is None ==> (r matches Err(DomainError::ExternalService(m)) && m@
            == "Response missing 'id' field"@),
        text_at(*answer, "id"@) is Some && text_at(*answer, "key"@) is None ==> (r matches Err(
            DomainError::ExternalService(m),
        ) && m@ == "Response missing 'key' field"@),
        r matches Ok(c) ==> Some(c.id@) == text_at(*answer, "id"@) && Some(c.key@) == text_at(
            *answer,
            "key"@,
        ) && opt_string_view(c.self_url) == text_at(*answer, "self"@),
        (text_at(*answer, "id"@) is Some && text_at(*answer, "key"@) is Some) ==> r is Ok,
{
    let id = match answer.str_at("id") {
        Some(s) => owned(s),
        None => {
            return Err(DomainError::ExternalService(owned("Response missing 'id' field")));
        },
    };
    let key = match answer.str_at("key") {
        Some(s) => owned(s),
        None => {
            return Err(DomainError::ExternalService(owned("Response missing 'key' field")));
        },
    };
    Ok(CreatedIssue { id, key, self_url: text_of(answer, "self") })
}

// ---------------------------------------------------------------------------
// Counts
// ---------------------------------------------------------------------------

/// The count in the answer to a count search: its `total`, or else the
/// number of issues it lists, or else zero (taken as `usize`, as the
/// client does).
pub open spec fn answer_count(answer: JsonValue) -> usize {
    match json_i64(json_at(answer, "total"@)) {
        Some(t) => t as usize,
        None => match json_at(answer, "issues"@) {
            JsonValue::Array(items) => items@.len() as usize,
            _ => 0,
        },
    }
}

/// Reads the count out of the answer to a count search.
pub fn read_count(answer: &JsonValue) -> (r: usize)
    ensures
        r == answer_count(*answer),
{
    let null = JsonValue::Null;
    let total = match answer.get("total") {
        Some(t) => t,
        None => &null,
    };
    match total.as_i64() {
        Some(t) => t as usize,
        None => match answer.get("issues") {
            Some(JsonValue::Array(items)) => items.len(),
            _ => 0,
        },
    }
}

/// The total the API reports, when it is a positive number; otherwise the
/// issues have to be counted page by page.
pub fn reported_total(answer: &JsonValue) -> (r: Option<usize>)
    ensures
        r == match json_i64(json_at(*answer, "total"@)) {
            Some(t) => if t > 0 {
                Some(t as usize)
            } else {
                None::<usize>
            },
            None => None,
        },
{
    let null = JsonValue::Null;
    let total = match answer.get("total") {
        Some(t) => t,
        None => &null,
    };
    match total.as_i64() {
        Some(t) => if t > 0 {
            Some(t as usize)
        } else {
            None
        },
        None => None,
    }
}

/// The JQL that counts the issues of a project in one status.
pub fn status_count_jql(project_key: &str, status: &str) -> (r: String)
    ensures
        r@ == "project = "@ + project_key@ + " AND status = \""@ + status@ + "\""@,
{
    let mut r = owned("project = ");
    r.append(project_key);
    r.append(" AND status = \"");
    r.append(status);
    r.append("\"");
    r
}

/// The JQL that finds the issues of a project.
pub fn project_jql(project_key: &str) -> (r: String)
    ensures
        r@ == "project = "@ + project_key@,
{
    let mut r = owned("project = ");
    r.append(project_key);
    r
}

/// The JQL that finds the labelled issues of a project.
pub fn labelled_issues_jql(project_key: &str) -> (r: String)
    ensures
        r@ == "project = "@ + project_key@ + " AND labels is not EMPTY"@,
{
    let mut r = owned("project = ");
    r.append(project_key);
    r.append(" AND labels is not EMPTY");
    r
}

// ---------------------------------------------------------------------------
// Request bodies and addresses
// ---------------------------------------------------------------------------

/// A JSON string.
fn text_value(t: &str) -> (r: JsonValue)
    ensures
        is_text(r, t@),
{
    JsonValue::Str(owned(t))
}

/// An object with one member.
fn object1(k: &str, v: JsonValue) -> (r: JsonValue)
    ensures
        is_object_of(r, seq![k@]),
        member_at(r, 0) == v,
{
    let r_members: Vec<(String, JsonValue)> = vec![(owned(k), v)];
    assert(r_members@.map_values(|p: (String, JsonValue)| p.0@) =~= seq![k@]);
    let r = JsonValue::Object(r_members);
    r
}

/// The body of a count search: the JQL, one result, only the key field.
pub fn count_request_body(jql: &str) -> (r: JsonValue)
    ensures
        is_object_of(r, seq!["jql"@, "maxResults"@, "fields"@]),
        is_text(member_at(r, 0), jql@),
        is_number(member_at(r, 1), "1"@),
        is_array_of_len(member_at(r, 2), 1),
        is_text(item_at(member_at(r, 2), 0), "key"@),
{
    let fields = JsonValue::Array(vec![text_value("key")]);
    let r_members: Vec<(String, JsonValue)> = vec![
            (owned("jql"), text_value(jql)),
            (owned("maxResults"), JsonValue::Number(owned("1"))),
            (owned("fields"), fields),
        ];
    assert(r_members@.map_values(|p: (String, JsonValue)| p.0@) =~= seq![
                "jql"@,
                "maxResults"@,
                "fields"@,
            ]);
    let r = JsonValue::Object(r_members);
    r
}

/// A description in the document format of the API: one paragraph holding
/// the text.
pub open spec fn is_document(v: JsonValue, text: Seq<char>) -> bool {
    let paragraph = item_at(member_at(v, 2), 0);
    let run = item_at(member_at(paragraph, 1), 0);
    &&& is_object_of(v, seq!["type"@, "version"@, "content"@])
    &&& is_text(member_at(v, 0), "doc"@)
    &&& is_number(member_at(v, 1), "1"@)
    &&& is_array_of_len(member_at(v, 2), 1)
    &&& is_object_of(paragraph, seq!["type"@, "content"@])
    &&& is_text(member_at(paragraph, 0), "paragraph"@)
    &&& is_array_of_len(member_at(paragraph, 1), 1)
    &&& is_object_of(run, seq!["type"@, "text"@])
    &&& is_text(member_at(run, 0), "text"@)
    &&& is_text(member_at(run, 1), text)
}

fn document(text: &str) -> (r: JsonValue)
    ensures
        is_document(r, text@),
{
    let run_members: Vec<(String, JsonValue)> = vec![(owned("type"), text_value("text")), (owned("text"), text_value(text))];
    assert(run_members@.map_values(|p: (String, JsonValue)| p.0@) =~= seq!["type"@, "text"@]);
    let run = JsonValue::Object(run_members);
    let paragraph_members: Vec<(String, JsonValue)> = vec![(owned("type"), text_value("paragraph")), (owned("content"), JsonValue::Array(vec![run]))];
    assert(paragraph_members@.map_values(|p: (String, JsonValue)| p.0@) =~= seq!["type"@, "content"@]);
    let paragraph = JsonValue::Object(paragraph_members);
    let r_members: Vec<(String, JsonValue)> = vec![
            (owned("type"), text_value("doc")),
            (owned("version"), JsonValue::Number(owned("1"))),
            (owned("content"), JsonValue::Array(vec![paragraph])),
        ];
    assert(r_members@.map_values(|p: (String, JsonValue)| p.0@) =~= seq!["type"@, "version"@, "content"@]);
    let r = JsonValue::Object(r_members);
    r
}

/// The body that creates an issue: its project, summary and type, and its
/// description when there is one.
pub fn create_issue_body(project_key: &str, summary: &str, description: Option<&str>, issue_type: &str) -> (r: JsonValue)
    ensures
        is_object_of(r, seq!["fields"@]),
        ({
            let f = member_at(r, 0);
            &&& is_object_of(f, match description {
                Some(_) => seq!["project"@, "summary"@, "issuetype"@, "description"@],
                None => seq!["project"@, "summary"@, "issuetype"@],
            })
            &&& is_object_of(member_at(f, 0), seq!["key"@])
            &&& is_text(member_at(member_at(f, 0), 0), project_key@)
            &&& is_text(member_at(f, 1), summary@)
            &&& is_object_of(member_at(f, 2), seq!["name"@])
            &&& is_text(member_at(member_at(f, 2), 0), issue_type@)
            &&& (description matches Some(d) ==> is_document(member_at(f, 3), d@))
        }),
{
    let mut members: Vec<(String, JsonValue)> = vec![
        (owned("project"), object1("key", text_value(project_key))),
        (owned("summary"), text_value(summary)),
        (owned("issuetype"), object1("name", text_value(issue_type))),
    ];
    match description {
        Some(d) => {
            members.push((owned("description"), document(d)));
        },
        None => {},
    }
    let ghost names = members@.map_values(|p: (String, JsonValue)| p.0@);
    proof {
        match description {
            Some(_) => {
                assert(names =~= seq!["project"@, "summary"@, "issuetype"@, "description"@]);
            },
            None => {
                assert(names =~= seq!["project"@, "summary"@, "issuetype"@]);
            },
        }
    }
    object1("fields", JsonValue::Object(members))
}

/// The body that moves an issue along transition `transition_id`.
pub fn transition_body(transition_id: &str) -> (r: JsonValue)
    ensures
        is_object_of(r, seq!["transition"@]),
        is_object_of(member_at(r, 0), seq!["id"@]),
        is_text(member_at(member_at(r, 0), 0), transition_id@),
{
    object1("transition", object1("id", text_value(transition_id)))
}

/// The body that links two issues with a link of type `link_type`.
pub fn issue_link_body(link_type: &str, inward_issue: &str, outward_issue: &str) -> (r: JsonValue)
    ensures
        is_object_of(r, seq!["type"@, "inwardIssue"@, "outwardIssue"@]),
        is_object_of(member_at(r, 0), seq!["name"@]),
        is_text(member_at(member_at(r, 0), 0), link_type@),
        is_object_of(member_at(r, 1), seq!["key"@]),
        is_text(member_at(member_at(r, 1), 0), inward_issue@),
        is_object_of(member_at(r, 2), seq!["key"@]),
        is_text(member_at(member_at(r, 2), 0), outward_issue@),
{
    let r_members: Vec<(String, JsonValue)> = vec![
            (owned("type"), object1("name", text_value(link_type))),
            (owned("inwardIssue"), object1("key", text_value(inward_issue))),
            (owned("outwardIssue"), object1("key", text_value(outward_issue))),
        ];
    assert(r_members@.map_values(|p: (String, JsonValue)| p.0@) =~= seq![
                "type"@,
                "inwardIssue"@,
                "outwardIssue"@,
            ]);
    let r = JsonValue::Object(r_members);
    r
}

/// The body that sets the due date of an issue.
pub fn due_date_body(due_date: &str) -> (r: JsonValue)
    ensures
        is_object_of(r, seq!["fields"@]),
        is_object_of(member_at(r, 0), seq!["duedate"@]),
        is_text(member_at(member_at(r, 0), 0), due_date@),
{
    object1("fields", object1("duedate", text_value(due_date)))
}

/// The address of an API resource: the site, `/rest/api/3/` and the
/// resource's path.
pub fn api_url(base_url: &str, path: &str) -> (r: String)
    ensures
        r@ == base_url@ + "/rest/api/3/"@ + path@,
{
    let mut r = owned(base_url);
    r.append("/rest/api/3/");
    r.append(path);
    r
}

/// The path of a resource that belongs to a project or an issue:
/// `{kind}/{key}/{what}` (such as `project/PROJ/statuses`).
pub fn keyed_path(kind: &str, key: &str, what: &str) -> (r: String)
    ensures
        r@ == kind@ + "/"@ + key@ + "/"@ + what@,
{
    let mut r = owned(kind);
    r.append("/");
    r.append(key);
    r.append("/");
    r.append(what);
    r
}

} // verus!
