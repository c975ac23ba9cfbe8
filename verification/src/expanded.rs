//! SQL for the expanded issue table and its readable views.
//!
//! The expanded table holds one column per issue attribute and one per
//! expandable custom field; the views show the same data under the names
//! that JIRA gives the fields. The functions here decide which columns are
//! added and write the statements; running them is left to the caller.
use vstd::prelude::*;

use crate::error::DomainError;
use crate::text::{
    all_ascii, ascii_lower_text, double_char, doubled, has_infix, has_prefix, join, join_strings,
    owned, str_contains, str_eq, str_starts_with, string_views, to_lower, unicode_lower,
};

verus! {

// ---------------------------------------------------------------------------
// Name tables
// ---------------------------------------------------------------------------

/// `c` is one of `names`.
pub open spec fn is_listed(names: Seq<&'static str>, c: Seq<char>) -> bool {
    exists|j: int| 0 <= j < names.len() && (#[trigger] names[j])@ == c
}

/// Whether `c` is one of `names`.
pub fn listed(names: &Vec<&'static str>, c: &str) -> (r: bool)
    ensures
        r == is_listed(names@, c@),
{
    for j in 0..names.len()
        invariant
            forall|k: int| 0 <= k < j ==> (#[trigger] names@[k])@ != c@,
    {
        if str_eq(names[j], c) {
            return true;
        }
    }
    false
}

/// Whether `c` is one of the strings of `v`.
pub fn contains_string(v: &Vec<String>, c: &str) -> (r: bool)
    ensures
        r == string_views(v@).contains(c@),
{
    for j in 0..v.len()
        invariant
            forall|k: int| 0 <= k < j ==> (#[trigger] v@[k])@ != c@,
    {
        if str_eq(v[j].as_str(), c) {
            assert(string_views(v@)[j as int] == c@);
            return true;
        }
    }
    assert forall|k: int| 0 <= k < string_views(v@).len() implies string_views(v@)[k] != c@ by {
        assert(string_views(v@)[k] == v@[k]@);
    }
    false
}

/// The column of the expanded table that every issue has, in table order.
pub open spec fn expanded_base_columns() -> Seq<&'static str> {
    seq![
        "id",
        "project_id",
        "issue_key",
        "summary",
        "description",
        "status",
        "priority",
        "assignee",
        "reporter",
        "creator",
        "issue_type",
        "resolution",
        "labels",
        "components",
        "fix_versions",
        "affected_versions",
        "sprint",
        "parent_key",
        "environment",
        "security_level",
        "created_date",
        "updated_date",
        "resolved_date",
        "due_date",
        "synced_at",
    ]
}

/// Executable form of [`expanded_base_columns`].
pub fn expanded_base_column_names() -> (r: Vec<&'static str>)
    ensures
        r@ == expanded_base_columns(),
{
    vec![
        "id",
        "project_id",
        "issue_key",
        "summary",
        "description",
        "status",
        "priority",
        "assignee",
        "reporter",
        "creator",
        "issue_type",
        "resolution",
        "labels",
        "components",
        "fix_versions",
        "affected_versions",
        "sprint",
        "parent_key",
        "environment",
        "security_level",
        "created_date",
        "updated_date",
        "resolved_date",
        "due_date",
        "synced_at",
    ]
}

/// The ids of the JIRA fields that the expanded table keeps in one of its
/// base columns.
pub open spec fn base_field_ids() -> Seq<&'static str> {
    seq![
        "summary",
        "description",
        "status",
        "priority",
        "assignee",
        "reporter",
        "creator",
        "issuetype",
        "resolution",
        "labels",
        "components",
        "fixversions",
        "versions",
        "parent",
        "environment",
        "security",
        "created",
        "updated",
        "resolutiondate",
        "duedate",
    ]
}

/// Executable form of [`base_field_ids`].
pub fn base_field_id_names() -> (r: Vec<&'static str>)
    ensures
        r@ == base_field_ids(),
{
    vec![
        "summary",
        "description",
        "status",
        "priority",
        "assignee",
        "reporter",
        "creator",
        "issuetype",
        "resolution",
        "labels",
        "components",
        "fixversions",
        "versions",
        "parent",
        "environment",
        "security",
        "created",
        "updated",
        "resolutiondate",
        "duedate",
    ]
}

// ---------------------------------------------------------------------------
// Field columns
// ---------------------------------------------------------------------------

/// What the builders read of a JIRA field definition.
#[derive(Debug, Clone)]
pub struct FieldColumn {
    /// The field's id, such as `summary` or `customfield_10016`.
    pub id: String,
    /// The field's name as JIRA shows it.
    pub name: String,
    /// The field gets a column of its own in the expanded table.
    pub expandable: bool,
    /// The name of the field's column.
    pub column_name: String,
    /// The SQL type of the field's column.
    pub column_type: String,
}

/// Pairs of strings as pairs of character sequences.
pub open spec fn pair_views(v: Seq<(String, String)>) -> Seq<(Seq<char>, Seq<char>)> {
    v.map_values(|p: (String, String)| (p.0@, p.1@))
}

/// Field `f`, whose id in lower case is `lower_id`, gets a new column: it
/// is expandable, the expanded table does not already keep it in a base
/// column (`lower_id` is neither a base column nor a base field id), and no
/// column of its name exists.
pub open spec fn gets_column(f: FieldColumn, existing: Seq<Seq<char>>, lower_id: Seq<char>) -> bool {
    &&& f.expandable
    &&& !is_listed(expanded_base_columns(), lower_id)
    &&& !is_listed(base_field_ids(), lower_id)
    &&& !existing.contains(f.column_name@)
}

/// Field `f` gets a new column (see [`gets_column`]), its id lowered as
/// `str::to_lowercase` does.
pub open spec fn gets_new_column(f: FieldColumn, existing: Seq<Seq<char>>) -> bool {
    gets_column(f, existing, unicode_lower(f.id@))
}

/// The columns (name and type) that are added for `fields`, in order.
pub open spec fn new_columns(fields: Seq<FieldColumn>, existing: Seq<Seq<char>>) -> Seq<
    (Seq<char>, Seq<char>),
>
    decreases fields.len(),
{
    if fields.len() == 0 {
        seq![]
    } else {
        let rest = new_columns(fields.drop_last(), existing);
        if gets_new_column(fields.last(), existing) {
            rest.push((fields.last().column_name@, fields.last().column_type@))
        } else {
            rest
        }
    }
}

/// [`new_columns`] for fields whose ids are ASCII text, lowered letter by
/// letter.
pub open spec fn new_columns_ascii(fields: Seq<FieldColumn>, existing: Seq<Seq<char>>) -> Seq<
    (Seq<char>, Seq<char>),
>
    decreases fields.len(),
{
    if fields.len() == 0 {
        seq![]
    } else {
        let rest = new_columns_ascii(fields.drop_last(), existing);
        if gets_column(fields.last(), existing, ascii_lower_text(fields.last().id@)) {
            rest.push((fields.last().column_name@, fields.last().column_type@))
        } else {
            rest
        }
    }
}

/// The ids of all of `fields` are ASCII text.
pub open spec fn ascii_ids(fields: Seq<FieldColumn>) -> bool {
    forall|i: int| 0 <= i < fields.len() ==> all_ascii(#[trigger] fields[i].id@)
}

/// The columns to add to the expanded table for `fields`, given the
/// columns it has (`existing`, in lower case): name and SQL type of each.
pub fn plan_new_columns(fields: &Vec<FieldColumn>, existing: &Vec<String>) -> (r: Vec<
    (String, String),
>)
    ensures
        pair_views(r@) == new_columns(fields@, string_views(existing@)),
        ascii_ids(fields@) ==> pair_views(r@) == new_columns_ascii(fields@, string_views(existing@)),
{
    let bases = expanded_base_column_names();
    let ids = base_field_id_names();
    let ghost ex = string_views(existing@);
    let mut r: Vec<(String, String)> = Vec::new();
    for i in 0..fields.len()
        invariant
            bases@ == expanded_base_columns(),
            ids@ == base_field_ids(),
            ex == string_views(existing@),
            pair_views(r@) == new_columns(fields@.take(i as int), ex),
            ascii_ids(fields@.take(i as int)) ==> pair_views(r@) == new_columns_ascii(
                fields@.take(i as int),
                ex,
            ),
    {
        let f = &fields[i];
        proof {
            assert(fields@.take(i + 1).drop_last() =~= fields@.take(i as int));
            assert(fields@.take(i + 1).last() == *f);
            if ascii_ids(fields@.take(i + 1)) {
                assert forall|k: int| 0 <= k < i implies all_ascii(#[trigger] fields@.take(i as int)[k].id@) by {
                    assert(fields@.take(i as int)[k] == fields@.take(i + 1)[k]);
                }
                assert(all_ascii(fields@.take(i + 1)[i as int].id@));
            }
        }
        if f.expandable {
            let lower = to_lower(f.id.as_str());
            if !listed(&bases, lower.as_str()) && !listed(&ids, lower.as_str())
                && !contains_string(existing, f.column_name.as_str()) {
                let ghost before = pair_views(r@);
                r.push((f.column_name.clone(), f.column_type.clone()));
                assert(pair_views(r@) =~= before.push((f.column_name@, f.column_type@)));
            }
        }
    }
    assert(fields@.take(fields.len() as int) =~= fields@);
    r
}

/// Planning again adds nothing: once the columns planned for `fields` exist
/// (`later` holds them and every column of `existing`), no field of `fields`
/// gets a new column.
pub proof fn lemma_plan_again_adds_nothing(
    fields: Seq<FieldColumn>,
    existing: Seq<Seq<char>>,
    later: Seq<Seq<char>>,
)
    requires
        forall|c: Seq<char>| existing.contains(c) ==> later.contains(c),
        forall|j: int|
            0 <= j < new_columns(fields, existing).len() ==> later.contains(
                #[trigger] new_columns(fields, existing)[j].0,
            ),
    ensures
        new_columns(fields, later) == Seq::<(Seq<char>, Seq<char>)>::empty(),
    decreases fields.len(),
{
    if fields.len() > 0 {
        let init = fields.drop_last();
        let f = fields.last();
        let planned = new_columns(fields, existing);
        let planned_init = new_columns(init, existing);
        assert forall|j: int| 0 <= j < planned_init.len() implies later.contains(
            #[trigger] planned_init[j].0,
        ) by {
            assert(planned[j] == planned_init[j]);
        }
        lemma_plan_again_adds_nothing(init, existing, later);
        if gets_new_column(f, existing) {
            assert(planned[planned_init.len() as int].0 == f.column_name@);
        }
        assert(!gets_new_column(f, later));
    }
}

/// The statement that adds column `name` of SQL type `column_type`.
pub open spec fn add_column_text(name: Seq<char>, column_type: Seq<char>) -> Seq<char> {
    "ALTER TABLE issues_expanded ADD COLUMN \""@ + name + "\" "@ + column_type
}

/// Executable form of [`add_column_text`].
pub fn add_column_sql(name: &str, column_type: &str) -> (r: String)
    ensures
        r@ == add_column_text(name@, column_type@),
{
    let mut r = owned("ALTER TABLE issues_expanded ADD COLUMN \"");
    r.append(name);
    r.append("\" ");
    r.append(column_type);
    r
}

/// What a failure to add column `name` comes to: nothing when the database
/// says that the column is there already (its message holds
/// "already exists" or "duplicate column"), else a repository error.
pub fn add_column_failure(name: &str, message: &str) -> (r: Option<DomainError>)
    ensures
        has_infix(message@, "already exists"@) || has_infix(message@, "duplicate column"@) ==> r
            is None,
        !has_infix(message@, "already exists"@) && !has_infix(message@, "duplicate column"@)
            ==> (r matches Some(DomainError::Repository(m)) && m@ == "Failed to add column "@
            + name@ + ": "@ + message@),
{
    if str_contains(message, "already exists") || str_contains(message, "duplicate column") {
        None
    } else {
        let mut m = owned("Failed to add column ");
        m.append(name);
        m.append(": ");
        m.append(message);
        Some(DomainError::Repository(m))
    }
}

/// Records what came of adding planned column `name`: `None` when the
/// statement ran, else the database's message. A column that was added is
/// appended to `added`; a message that says the column is there already is
/// passed over; any other message is the error returned. When the database
/// refuses a column that is there already (so that a statement runs only
/// for a column not yet added), `added` keeps its columns distinct.
pub fn record_added_column(added: &mut Vec<String>, name: &str, outcome: Option<String>) -> (r: Result<(), DomainError>)
    ensures
        outcome is None ==> r is Ok && string_views(final(added)@) == string_views(old(added)@).push(name@),
        outcome matches Some(m) ==> final(added)@ == old(added)@,
        outcome matches Some(m) ==> (has_infix(m@, "already exists"@) || has_infix(m@, "duplicate column"@))
            ==> r is Ok,
        outcome matches Some(m) ==> (!has_infix(m@, "already exists"@) && !has_infix(m@, "duplicate column"@))
            ==> (r matches Err(DomainError::Repository(e)) && e@ == "Failed to add column "@ + name@ + ": "@ + m@),
        string_views(old(added)@).no_duplicates() && (outcome is None ==> !string_views(old(added)@).contains(name@))
            ==> string_views(final(added)@).no_duplicates(),
{
    let ghost before = string_views(added@);
    match outcome {
        None => {
            added.push(owned(name));
            proof {
                assert(string_views(added@) =~= before.push(name@));
            }
            Ok(())
        },
        Some(m) => match add_column_failure(name, m.as_str()) {
            Some(e) => Err(e),
            None => Ok(()),
        },
    }
}

/// The names of the columns the database reports, in lower case.
pub fn lowercase_names(names: &Vec<String>) -> (r: Vec<String>)
    ensures
        r@.len() == names@.len(),
        forall|i: int| 0 <= i < names@.len() ==> (#[trigger] r@[i])@ == unicode_lower(names@[i]@),
        forall|i: int| 0 <= i < names@.len() && all_ascii(names@[i]@) ==> (#[trigger] r@[i])@
            == ascii_lower_text(names@[i]@),
{
    let mut r: Vec<String> = Vec::new();
    for i in 0..names.len()
        invariant
            r@.len() == i,
            forall|k: int| 0 <= k < i ==> (#[trigger] r@[k])@ == unicode_lower(names@[k]@),
            forall|k: int| 0 <= k < i && all_ascii(names@[k]@) ==> (#[trigger] r@[k])@
                == ascii_lower_text(names@[k]@),
    {
        r.push(to_lower(names[i].as_str()));
    }
    r
}

// ---------------------------------------------------------------------------
// Filling the expanded table
// ---------------------------------------------------------------------------

/// The base columns of the expanded table with the expression that reads
/// each from an issue row `i` and its raw JSON.
pub open spec fn core_columns() -> Seq<(&'static str, &'static str)> {
    seq![
        ("id", "i.id"),
        ("project_id", "i.project_id"),
        ("issue_key", "COALESCE(i.raw_data->>'key', i.key) AS issue_key"),
        ("summary", "COALESCE(i.raw_data->'fields'->>'summary', i.summary) AS summary"),
        ("description", "i.raw_data->'fields'->>'description' AS description"),
        ("status", "COALESCE(i.raw_data->'fields'->'status'->>'name', i.status) AS status"),
        ("priority", "COALESCE(i.raw_data->'fields'->'priority'->>'name', i.priority) AS priority"),
        ("assignee", "COALESCE(i.raw_data->'fields'->'assignee'->>'displayName', i.assignee) AS assignee"),
        ("reporter", "COALESCE(i.raw_data->'fields'->'reporter'->>'displayName', i.reporter) AS reporter"),
        ("creator", "i.raw_data->'fields'->'creator'->>'displayName' AS creator"),
        ("issue_type", "COALESCE(i.raw_data->'fields'->'issuetype'->>'name', i.issue_type) AS issue_type"),
        ("resolution", "i.raw_data->'fields'->'resolution'->>'name' AS resolution"),
        ("labels", "TRY_CAST(i.raw_data->'fields'->'labels' AS JSON) AS labels"),
        ("components", "TRY_CAST(i.raw_data->'fields'->'components' AS JSON) AS components"),
        ("fix_versions", "TRY_CAST(i.raw_data->'fields'->'fixVersions' AS JSON) AS fix_versions"),
        ("affected_versions", "TRY_CAST(i.raw_data->'fields'->'versions' AS JSON) AS affected_versions"),
        ("sprint", "i.sprint"),
        ("parent_key", "i.raw_data->'fields'->'parent'->>'key' AS parent_key"),
        ("environment", "i.raw_data->'fields'->>'environment' AS environment"),
        ("security_level", "i.raw_data->'fields'->'security'->>'name' AS security_level"),
        ("created_date", "TRY_CAST(i.raw_data->'fields'->>'created' AS TIMESTAMP) AS created_date"),
        ("updated_date", "TRY_CAST(i.raw_data->'fields'->>'updated' AS TIMESTAMP) AS updated_date"),
        ("resolved_date", "TRY_CAST(i.raw_data->'fields'->>'resolutiondate' AS TIMESTAMP) AS resolved_date"),
        ("due_date", "TRY_CAST(i.raw_data->'fields'->>'duedate' AS TIMESTAMP) AS due_date"),
    ]
}

/// Executable form of [`core_columns`].
pub fn core_column_table() -> (r: Vec<(&'static str, &'static str)>)
    ensures
        r@ == core_columns(),
{
    vec![
        ("id", "i.id"),
        ("project_id", "i.project_id"),
        ("issue_key", "COALESCE(i.raw_data->>'key', i.key) AS issue_key"),
        ("summary", "COALESCE(i.raw_data->'fields'->>'summary', i.summary) AS summary"),
        ("description", "i.raw_data->'fields'->>'description' AS description"),
        ("status", "COALESCE(i.raw_data->'fields'->'status'->>'name', i.status) AS status"),
        ("priority", "COALESCE(i.raw_data->'fields'->'priority'->>'name', i.priority) AS priority"),
        ("assignee", "COALESCE(i.raw_data->'fields'->'assignee'->>'displayName', i.assignee) AS assignee"),
        ("reporter", "COALESCE(i.raw_data->'fields'->'reporter'->>'displayName', i.reporter) AS reporter"),
        ("creator", "i.raw_data->'fields'->'creator'->>'displayName' AS creator"),
        ("issue_type", "COALESCE(i.raw_data->'fields'->'issuetype'->>'name', i.issue_type) AS issue_type"),
        ("resolution", "i.raw_data->'fields'->'resolution'->>'name' AS resolution"),
        ("labels", "TRY_CAST(i.raw_data->'fields'->'labels' AS JSON) AS labels"),
        ("components", "TRY_CAST(i.raw_data->'fields'->'components' AS JSON) AS components"),
        ("fix_versions", "TRY_CAST(i.raw_data->'fields'->'fixVersions' AS JSON) AS fix_versions"),
        ("affected_versions", "TRY_CAST(i.raw_data->'fields'->'versions' AS JSON) AS affected_versions"),
        ("sprint", "i.sprint"),
        ("parent_key", "i.raw_data->'fields'->'parent'->>'key' AS parent_key"),
        ("environment", "i.raw_data->'fields'->>'environment' AS environment"),
        ("security_level", "i.raw_data->'fields'->'security'->>'name' AS security_level"),
        ("created_date", "TRY_CAST(i.raw_data->'fields'->>'created' AS TIMESTAMP) AS created_date"),
        ("updated_date", "TRY_CAST(i.raw_data->'fields'->>'updated' AS TIMESTAMP) AS updated_date"),
        ("resolved_date", "TRY_CAST(i.raw_data->'fields'->>'resolutiondate' AS TIMESTAMP) AS resolved_date"),
        ("due_date", "TRY_CAST(i.raw_data->'fields'->>'duedate' AS TIMESTAMP) AS due_date"),
    ]
}

/// The custom field columns among `columns` (those whose name starts with
/// `customfield_`), in order.
pub open spec fn custom_columns(columns: Seq<Seq<char>>) -> Seq<Seq<char>>
    decreases columns.len(),
{
    if columns.len() == 0 {
        seq![]
    } else if has_prefix(columns.last(), "customfield_"@) {
        custom_columns(columns.drop_last()).push(columns.last())
    } else {
        custom_columns(columns.drop_last())
    }
}

/// The expression that reads custom field `id` from the raw JSON of row
/// `row` (its `name`, `value` or `displayName`, or else its text), named
/// `alias`.
pub open spec fn custom_field_expr(row: Seq<char>, id: Seq<char>, alias: Seq<char>) -> Seq<char> {
    "COALESCE(\n                        "@ + row + ".raw_data->'fields'->'"@ + id
        + "'->>'name',\n                        "@ + row + ".raw_data->'fields'->'"@ + id
        + "'->>'value',\n                        "@ + row + ".raw_data->'fields'->'"@ + id
        + "'->>'displayName',\n                        "@ + row + ".raw_data->'fields'->>'"@
        + id + "'\n                    ) AS \""@ + alias + "\""@
}

/// Executable form of [`custom_field_expr`].
pub fn custom_field_sql(row: &str, id: &str, alias: &str) -> (r: String)
    ensures
        r@ == custom_field_expr(row@, id@, alias@),
{
    let mut r = owned("COALESCE(\n                        ");
    r.append(row);
    r.append(".raw_data->'fields'->'");
    r.append(id);
    r.append("'->>'name',\n                        ");
    r.append(row);
    r.append(".raw_data->'fields'->'");
    r.append(id);
    r.append("'->>'value',\n                        ");
    r.append(row);
    r.append(".raw_data->'fields'->'");
    r.append(id);
    r.append("'->>'displayName',\n                        ");
    r.append(row);
    r.append(".raw_data->'fields'->>'");
    r.append(id);
    r.append("'\n                    ) AS \"");
    r.append(alias);
    r.append("\"");
    r
}

/// The columns that the fill statement writes (besides `synced_at`).
pub open spec fn fill_column_names(columns: Seq<Seq<char>>) -> Seq<Seq<char>> {
    core_columns().map_values(|p: (&'static str, &'static str)| p.0@) + custom_columns(columns)
}

/// The expressions that the fill statement selects, one per column.
pub open spec fn fill_select_parts(columns: Seq<Seq<char>>) -> Seq<Seq<char>> {
    core_columns().map_values(|p: (&'static str, &'static str)| p.1@) + custom_columns(
        columns,
    ).map_values(|c: Seq<char>| custom_field_expr("i"@, c, c))
}

/// `c = excluded.c` for each of `names` but `id`.
pub open spec fn update_assignments(names: Seq<Seq<char>>) -> Seq<Seq<char>>
    decreases names.len(),
{
    if names.len() == 0 {
        seq![]
    } else if names.last() == "id"@ {
        update_assignments(names.drop_last())
    } else {
        update_assignments(names.drop_last()).push(names.last() + " = excluded."@ + names.last())
    }
}

/// The fill statement names one expression per column, in the order of
/// the columns: a custom column is read from the custom field of its own
/// name; and every column but `id` is updated from the new row.
pub proof fn lemma_fill_columns_line_up(columns: Seq<Seq<char>>)
    ensures
        fill_select_parts(columns).len() == fill_column_names(columns).len(),
        forall|i: int|
            core_columns().len() <= i < fill_column_names(columns).len() ==> #[trigger] fill_select_parts(
                columns,
            )[i] == custom_field_expr("i"@, fill_column_names(columns)[i], fill_column_names(columns)[i]),
        update_assignments(fill_column_names(columns)) == fill_column_names(columns).filter(
            |c: Seq<char>| c != "id"@,
        ).map_values(|c: Seq<char>| c + " = excluded."@ + c),
{
    lemma_assignments_skip_id(fill_column_names(columns));
}

/// [`update_assignments`] is `c = excluded.c` for each name but `id`, in
/// order.
pub proof fn lemma_assignments_skip_id(names: Seq<Seq<char>>)
    ensures
        update_assignments(names) == names.filter(|c: Seq<char>| c != "id"@).map_values(
            |c: Seq<char>| c + " = excluded."@ + c,
        ),
    decreases names.len(),
{
    reveal(Seq::filter);
    if names.len() > 0 {
        lemma_assignments_skip_id(names.drop_last());
        let f = names.drop_last().filter(|c: Seq<char>| c != "id"@);
        assert(f.push(names.last()).map_values(|c: Seq<char>| c + " = excluded."@ + c) =~= f.map_values(
            |c: Seq<char>| c + " = excluded."@ + c,
        ).push(names.last() + " = excluded."@ + names.last()));
    } else {
        assert(names.filter(|c: Seq<char>| c != "id"@).map_values(|c: Seq<char>| c + " = excluded."@ + c)
            =~= Seq::<Seq<char>>::empty());
    }
}

/// An optional string as an optional character sequence.
pub open spec fn opt_view(o: Option<&str>) -> Option<Seq<char>> {
    match o {
        Some(s) => Some(s@),
        None => None,
    }
}

/// The condition that keeps the issues of one project, if one is named.
pub open spec fn project_condition(project_id: Option<Seq<char>>) -> Seq<char> {
    match project_id {
        Some(p) => "WHERE i.project_id = '"@ + p + "'"@,
        None => seq![],
    }
}

/// The statement that fills the expanded table from the raw JSON of the
/// issues (of one project, if one is named), given the columns the table
/// has; rows that exist are updated, and `synced_at` is set to `now`.
pub open spec fn fill_expanded_text(
    columns: Seq<Seq<char>>,
    project_id: Option<Seq<char>>,
    now: Seq<char>,
) -> Seq<char> {
    "\n            INSERT INTO issues_expanded ("@ + join(fill_column_names(columns), ", "@)
        + ", synced_at)\n            SELECT\n                "@ + join(
        fill_select_parts(columns),
        ",\n    "@,
    ) + ",\n                '"@ + now + "' AS synced_at\n            FROM issues i\n            "@
        + project_condition(project_id) + "\n            ON CONFLICT (id) DO UPDATE SET\n                "@
        + join(update_assignments(fill_column_names(columns)), ", "@)
        + ",\n                synced_at = excluded.synced_at\n            "@
}

/// Executable form of [`fill_expanded_text`].
pub fn fill_expanded_sql(columns: &Vec<String>, project_id: Option<&str>, now: &str) -> (r: String)
    ensures
        r@ == fill_expanded_text(string_views(columns@), opt_view(project_id), now@),
{
    let ghost cols = string_views(columns@);
    let core = core_column_table();
    let mut names: Vec<String> = Vec::new();
    let mut exprs: Vec<String> = Vec::new();
    let ghost core_names = core_columns().map_values(|p: (&'static str, &'static str)| p.0@);
    let ghost core_exprs = core_columns().map_values(|p: (&'static str, &'static str)| p.1@);
    for k in 0..core.len()
        invariant
            core@ == core_columns(),
            core_names == core_columns().map_values(|p: (&'static str, &'static str)| p.0@),
            core_exprs == core_columns().map_values(|p: (&'static str, &'static str)| p.1@),
            string_views(names@) == core_names.take(k as int),
            string_views(exprs@) == core_exprs.take(k as int),
    {
        let ghost prev_names = string_views(names@);
        let ghost prev_exprs = string_views(exprs@);
        names.push(owned(core[k].0));
        exprs.push(owned(core[k].1));
        assert(string_views(names@) =~= prev_names.push(core[k as int].0@));
        assert(string_views(exprs@) =~= prev_exprs.push(core[k as int].1@));
        assert(core_names.take(k + 1) =~= core_names.take(k as int).push(core_names[k as int]));
        assert(core_exprs.take(k + 1) =~= core_exprs.take(k as int).push(core_exprs[k as int]));
    }
    assert(core_names.take(core.len() as int) =~= core_names);
    assert(core_exprs.take(core.len() as int) =~= core_exprs);
    for i in 0..columns.len()
        invariant
            cols == string_views(columns@),
            string_views(names@) == core_names + custom_columns(cols.take(i as int)),
            string_views(exprs@) == core_exprs + custom_columns(cols.take(i as int)).map_values(
                |c: Seq<char>| custom_field_expr("i"@, c, c),
            ),
    {
        let col = columns[i].as_str();
        proof {
            assert(cols.take(i + 1).drop_last() =~= cols.take(i as int));
            assert(cols.take(i + 1).last() == col@);
        }
        let ghost prev_names = string_views(names@);
        let ghost prev_exprs = string_views(exprs@);
        let ghost prev_custom = custom_columns(cols.take(i as int));
        if str_starts_with(col, "customfield_") {
            names.push(owned(col));
            exprs.push(custom_field_sql("i", col, col));
            assert(string_views(names@) =~= prev_names.push(col@));
            assert(string_views(exprs@) =~= prev_exprs.push(custom_field_expr("i"@, col@, col@)));
            assert(custom_columns(cols.take(i + 1)) == prev_custom.push(col@));
            assert(string_views(names@) =~= core_names + custom_columns(cols.take(i + 1)));
            assert(prev_custom.push(col@).map_values(|c: Seq<char>| custom_field_expr("i"@, c, c))
                =~= prev_custom.map_values(|c: Seq<char>| custom_field_expr("i"@, c, c)).push(
                custom_field_expr("i"@, col@, col@),
            ));
            assert(string_views(exprs@) =~= core_exprs + custom_columns(cols.take(i + 1)).map_values(
                |c: Seq<char>| custom_field_expr("i"@, c, c),
            ));
        }
    }
    assert(cols.take(columns.len() as int) =~= cols);
    let mut updates: Vec<String> = Vec::new();
    let ghost all_names = string_views(names@);
    for i in 0..names.len()
        invariant
            all_names == string_views(names@),
            string_views(updates@) == update_assignments(all_names.take(i as int)),
    {
        let n = names[i].as_str();
        proof {
            assert(all_names.take(i + 1).drop_last() =~= all_names.take(i as int));
            assert(all_names.take(i + 1).last() == n@);
        }
        if !str_eq(n, "id") {
            let mut u = owned(n);
            u.append(" = excluded.");
            u.append(n);
            updates.push(u);
            assert(string_views(updates@) =~= update_assignments(all_names.take(i + 1)));
        }
    }
    assert(all_names.take(names.len() as int) =~= all_names);
    let mut r = owned("\n            INSERT INTO issues_expanded (");
    r.append(join_strings(&names, ", ").as_str());
    r.append(", synced_at)\n            SELECT\n                ");
    r.append(join_strings(&exprs, ",\n    ").as_str());
    r.append(",\n                '");
    r.append(now);
    r.append("' AS synced_at\n            FROM issues i\n            ");
    match project_id {
        Some(p) => {
            r.append("WHERE i.project_id = '");
            r.append(p);
            r.append("'");
        },
        None => {},
    }
    r.append("\n            ON CONFLICT (id) DO UPDATE SET\n                ");
    r.append(join_strings(&updates, ", ").as_str());
    r.append(",\n                synced_at = excluded.synced_at\n            ");
    r
}

/// The query that counts the issues (of one project, if one is named) that
/// have raw JSON to expand.
pub fn raw_issue_count_sql(project_id: Option<&str>) -> (r: String)
    ensures
        r@ == match project_id {
            Some(p) => "SELECT COUNT(*) FROM issues WHERE project_id = '"@ + p@
                + "' AND raw_data IS NOT NULL"@,
            None => "SELECT COUNT(*) FROM issues WHERE raw_data IS NOT NULL"@,
        },
{
    match project_id {
        Some(p) => {
            let mut r = owned("SELECT COUNT(*) FROM issues WHERE project_id = '");
            r.append(p);
            r.append("' AND raw_data IS NOT NULL");
            r
        },
        None => owned("SELECT COUNT(*) FROM issues WHERE raw_data IS NOT NULL"),
    }
}

/// The query that counts the rows of the expanded table (of one project,
/// if one is named).
pub fn expanded_count_sql(project_id: Option<&str>) -> (r: String)
    ensures
        r@ == match project_id {
            Some(p) => "SELECT COUNT(*) FROM issues_expanded WHERE project_id = '"@ + p@ + "'"@,
            None => "SELECT COUNT(*) FROM issues_expanded"@,
        },
{
    match project_id {
        Some(p) => {
            let mut r = owned("SELECT COUNT(*) FROM issues_expanded WHERE project_id = '");
            r.append(p);
            r.append("'");
            r
        },
        None => owned("SELECT COUNT(*) FROM issues_expanded"),
    }
}

// ---------------------------------------------------------------------------
// Readable names
// ---------------------------------------------------------------------------

/// Each field's id in lower case with its name, in the order of `fields`.
pub open spec fn field_names(fields: Seq<FieldColumn>) -> Seq<(Seq<char>, Seq<char>)> {
    fields.map_values(|f: FieldColumn| (unicode_lower(f.id@), f.name@))
}

/// The name of the field with id `id`; of several such fields, the last.
pub open spec fn field_name(names: Seq<(Seq<char>, Seq<char>)>, id: Seq<char>) -> Option<Seq<char>>
    decreases names.len(),
{
    if names.len() == 0 {
        None
    } else if names.last().0 == id {
        Some(names.last().1)
    } else {
        field_name(names.drop_last(), id)
    }
}

/// The field id behind column `col`, by the first pair of `renames` that
/// names the column, or the column's own name.
pub open spec fn renamed(renames: Seq<(&'static str, &'static str)>, col: Seq<char>) -> Seq<char>
    decreases renames.len(),
{
    if renames.len() == 0 {
        col
    } else if renames[0].0@ == col {
        renames[0].1@
    } else {
        renamed(renames.skip(1), col)
    }
}

/// The name a view gives column `col`: the column's own name for the
/// `internal` columns; else the name of the field behind it, or the
/// column's own name when no field has that id.
pub open spec fn display_name(
    col: Seq<char>,
    internal: Seq<&'static str>,
    renames: Seq<(&'static str, &'static str)>,
    names: Seq<(Seq<char>, Seq<char>)>,
) -> Seq<char> {
    if is_listed(internal, col) {
        col
    } else {
        match field_name(names, renamed(renames, col)) {
            Some(n) => n,
            None => col,
        }
    }
}

/// Column `col` shown as `display`, with the quotes in `display` doubled.
pub open spec fn alias(col: Seq<char>, display: Seq<char>) -> Seq<char> {
    "\""@ + col + "\" AS \""@ + doubled(display, '"') + "\""@
}

/// The lookup table of field names for `fields`.
pub fn field_name_table(fields: &Vec<FieldColumn>) -> (r: Vec<(String, String)>)
    ensures
        pair_views(r@) == field_names(fields@),
{
    let mut r: Vec<(String, String)> = Vec::new();
    for i in 0..fields.len()
        invariant
            pair_views(r@) == field_names(fields@).take(i as int),
    {
        let ghost prev = pair_views(r@);
        r.push((to_lower(fields[i].id.as_str()), fields[i].name.clone()));
        assert(pair_views(r@) =~= prev.push((unicode_lower(fields@[i as int].id@), fields@[i as int].name@)));
        assert(field_names(fields@).take(i + 1) =~= field_names(fields@).take(i as int).push(
            field_names(fields@)[i as int],
        ));
    }
    assert(field_names(fields@).take(fields.len() as int) =~= field_names(fields@));
    r
}

/// Executable form of [`field_name`].
pub fn lookup_field_name(names: &Vec<(String, String)>, id: &str) -> (r: Option<String>)
    ensures
        match r {
            Some(n) => field_name(pair_views(names@), id@) == Some(n@),
            None => field_name(pair_views(names@), id@) is None,
        },
{
    let ghost pv = pair_views(names@);
    let mut found: Option<String> = None;
    for i in 0..names.len()
        invariant
            pv == pair_views(names@),
            match found {
                Some(n) => field_name(pv.take(i as int), id@) == Some(n@),
                None => field_name(pv.take(i as int), id@) is None,
            },
    {
        proof {
            assert(pv.take(i + 1).drop_last() =~= pv.take(i as int));
            assert(pv.take(i + 1).last() == (names@[i as int].0@, names@[i as int].1@));
        }
        if str_eq(names[i].0.as_str(), id) {
            found = Some(names[i].1.clone());
        }
    }
    assert(pv.take(names.len() as int) =~= pv);
    found
}

/// Executable form of [`renamed`].
pub fn rename_column(renames: &Vec<(&'static str, &'static str)>, col: &str) -> (r: String)
    ensures
        r@ == renamed(renames@, col@),
{
    assert(renames@.skip(0) =~= renames@);
    for j in 0..renames.len()
        invariant
            renamed(renames@, col@) == renamed(renames@.skip(j as int), col@),
    {
        proof {
            assert(renames@.skip(j as int).skip(1) =~= renames@.skip(j + 1));
            assert(renames@.skip(j as int)[0] == renames@[j as int]);
        }
        if str_eq(renames[j].0, col) {
            return owned(renames[j].1);
        }
    }
    assert(renames@.skip(renames.len() as int) =~= Seq::<(&'static str, &'static str)>::empty());
    owned(col)
}

/// Executable form of [`display_name`].
pub fn display_name_of(
    col: &str,
    internal: &Vec<&'static str>,
    renames: &Vec<(&'static str, &'static str)>,
    names: &Vec<(String, String)>,
) -> (r: String)
    ensures
        r@ == display_name(col@, internal@, renames@, pair_views(names@)),
{
    if listed(internal, col) {
        return owned(col);
    }
    let id = rename_column(renames, col);
    match lookup_field_name(names, id.as_str()) {
        Some(n) => n,
        None => owned(col),
    }
}

/// Executable form of [`alias`].
pub fn alias_sql(col: &str, display: &str) -> (r: String)
    ensures
        r@ == alias(col@, display@),
{
    let mut r = owned("\"");
    r.append(col);
    r.append("\" AS \"");
    r.append(double_char(display, '"').as_str());
    r.append("\"");
    r
}

/// `prefix` followed by the alias of each of `cols`, under the names the
/// view gives them.
pub open spec fn aliased(
    cols: Seq<&'static str>,
    prefix: Seq<char>,
    internal: Seq<&'static str>,
    renames: Seq<(&'static str, &'static str)>,
    names: Seq<(Seq<char>, Seq<char>)>,
) -> Seq<Seq<char>> {
    cols.map_values(
        |c: &'static str| prefix + alias(c@, display_name(c@, internal, renames, names)),
    )
}

/// Executable form of [`aliased`].
pub fn aliased_columns(
    cols: &Vec<&'static str>,
    prefix: &str,
    internal: &Vec<&'static str>,
    renames: &Vec<(&'static str, &'static str)>,
    names: &Vec<(String, String)>,
) -> (r: Vec<String>)
    ensures
        string_views(r@) == aliased(cols@, prefix@, internal@, renames@, pair_views(names@)),
{
    let ghost want = aliased(cols@, prefix@, internal@, renames@, pair_views(names@));
    let mut r: Vec<String> = Vec::new();
    for i in 0..cols.len()
        invariant
            want == aliased(cols@, prefix@, internal@, renames@, pair_views(names@)),
            string_views(r@) == want.take(i as int),
    {
        let d = display_name_of(cols[i], internal, renames, names);
        let mut part = owned(prefix);
        part.append(alias_sql(cols[i], d.as_str()).as_str());
        let ghost prev = string_views(r@);
        r.push(part);
        assert(string_views(r@) =~= prev.push(want[i as int]));
        assert(want.take(i + 1) =~= want.take(i as int).push(want[i as int]));
    }
    assert(want.take(cols.len() as int) =~= want);
    r
}

// ---------------------------------------------------------------------------
// The readable view of the expanded table
// ---------------------------------------------------------------------------

/// Columns of the expanded table that keep their own name in its view.
pub open spec fn readable_internal() -> Seq<&'static str> {
    seq![
        "id",
        "project_id",
        "issue_key",
        "synced_at",
    ]
}

/// Executable form of [`readable_internal`].
pub fn readable_internal_columns() -> (r: Vec<&'static str>)
    ensures
        r@ == readable_internal(),
{
    vec![
        "id",
        "project_id",
        "issue_key",
        "synced_at",
    ]
}

/// Columns of the expanded table named otherwise than their field, with the field's id.
pub open spec fn readable_renames() -> Seq<(&'static str, &'static str)> {
    seq![
        ("issue_type", "issuetype"),
        ("fix_versions", "fixversions"),
        ("affected_versions", "versions"),
        ("parent_key", "parent"),
        ("security_level", "security"),
        ("created_date", "created"),
        ("updated_date", "updated"),
        ("resolved_date", "resolutiondate"),
        ("due_date", "duedate"),
    ]
}

/// Executable form of [`readable_renames`].
pub fn readable_rename_table() -> (r: Vec<(&'static str, &'static str)>)
    ensures
        r@ == readable_renames(),
{
    vec![
        ("issue_type", "issuetype"),
        ("fix_versions", "fixversions"),
        ("affected_versions", "versions"),
        ("parent_key", "parent"),
        ("security_level", "security"),
        ("created_date", "created"),
        ("updated_date", "updated"),
        ("resolved_date", "resolutiondate"),
        ("due_date", "duedate"),
    ]
}

/// The columns of `order` that are among `columns`, in the order of `order`.
pub open spec fn present_columns(order: Seq<&'static str>, columns: Seq<Seq<char>>) -> Seq<Seq<char>>
    decreases order.len(),
{
    if order.len() == 0 {
        seq![]
    } else if columns.contains(order.last()@) {
        present_columns(order.drop_last(), columns).push(order.last()@)
    } else {
        present_columns(order.drop_last(), columns)
    }
}

/// The columns among `columns` that are not base columns, in order.
pub open spec fn other_columns(columns: Seq<Seq<char>>) -> Seq<Seq<char>>
    decreases columns.len(),
{
    if columns.len() == 0 {
        seq![]
    } else if is_listed(expanded_base_columns(), columns.last()) {
        other_columns(columns.drop_last())
    } else {
        other_columns(columns.drop_last()).push(columns.last())
    }
}

/// The select list of the readable view: the base columns the table has,
/// in table order, then its other columns, each under its readable name.
pub open spec fn readable_parts(columns: Seq<Seq<char>>, names: Seq<(Seq<char>, Seq<char>)>) -> Seq<
    Seq<char>,
> {
    present_columns(expanded_base_columns(), columns).map_values(
        |c: Seq<char>| alias(c, display_name(c, readable_internal(), readable_renames(), names)),
    ) + other_columns(columns).map_values(
        |c: Seq<char>| alias(c, display_name(c, seq![], seq![], names)),
    )
}

/// The statement that (re)creates the readable view of the expanded table.
pub open spec fn readable_view_text(columns: Seq<Seq<char>>, names: Seq<(Seq<char>, Seq<char>)>) -> Seq<
    char,
> {
    "\n            CREATE OR REPLACE VIEW issues_readable AS\n            SELECT\n                "@
        + join(readable_parts(columns, names), ",\n    "@) + "\n            FROM issues_expanded\n            "@
}

/// Executable form of [`readable_view_text`], for the columns the expanded
/// table has (in lower case) and the field definitions.
pub fn readable_view_sql(columns: &Vec<String>, fields: &Vec<FieldColumn>) -> (r: String)
    ensures
        r@ == readable_view_text(string_views(columns@), field_names(fields@)),
{
    let names = field_name_table(fields);
    let ghost nv = pair_views(names@);
    let ghost cols = string_views(columns@);
    let order = expanded_base_column_names();
    let internal = readable_internal_columns();
    let renames = readable_rename_table();
    let no_internal: Vec<&'static str> = Vec::new();
    let no_renames: Vec<(&'static str, &'static str)> = Vec::new();
    let ghost base_alias = |c: Seq<char>| alias(c, display_name(c, readable_internal(), readable_renames(), nv));
    let ghost other_alias = |c: Seq<char>| alias(c, display_name(c, seq![], seq![], nv));
    let mut parts: Vec<String> = Vec::new();
    for k in 0..order.len()
        invariant
            order@ == expanded_base_columns(),
            internal@ == readable_internal(),
            renames@ == readable_renames(),
            nv == pair_views(names@),
            cols == string_views(columns@),
            base_alias == (|c: Seq<char>| alias(c, display_name(c, readable_internal(), readable_renames(), nv))),
            string_views(parts@) == present_columns(order@.take(k as int), cols).map_values(base_alias),
    {
        let ghost prev = present_columns(order@.take(k as int), cols);
        proof {
            assert(order@.take(k + 1).drop_last() =~= order@.take(k as int));
            assert(order@.take(k + 1).last() == order@[k as int]);
        }
        if contains_string(columns, order[k]) {
            let d = display_name_of(order[k], &internal, &renames, &names);
            let ghost before = string_views(parts@);
            parts.push(alias_sql(order[k], d.as_str()));
            assert(string_views(parts@) =~= before.push(base_alias(order@[k as int]@)));
            assert(prev.push(order@[k as int]@).map_values(base_alias) =~= prev.map_values(base_alias).push(
                base_alias(order@[k as int]@),
            ));
        }
    }
    assert(order@.take(order.len() as int) =~= order@);
    let ghost head = string_views(parts@);
    for i in 0..columns.len()
        invariant
            order@ == expanded_base_columns(),
            nv == pair_views(names@),
            cols == string_views(columns@),
            no_internal@ == Seq::<&'static str>::empty(),
            no_renames@ == Seq::<(&'static str, &'static str)>::empty(),
            other_alias == (|c: Seq<char>| alias(c, display_name(c, seq![], seq![], nv))),
            string_views(parts@) == head + other_columns(cols.take(i as int)).map_values(other_alias),
    {
        let col = columns[i].as_str();
        let ghost prev = other_columns(cols.take(i as int));
        proof {
            assert(cols.take(i + 1).drop_last() =~= cols.take(i as int));
            assert(cols.take(i + 1).last() == col@);
        }
        if !listed(&order, col) {
            let d = display_name_of(col, &no_internal, &no_renames, &names);
            let ghost before = string_views(parts@);
            parts.push(alias_sql(col, d.as_str()));
            assert(string_views(parts@) =~= before.push(other_alias(col@)));
            assert(prev.push(col@).map_values(other_alias) =~= prev.map_values(other_alias).push(
                other_alias(col@),
            ));
        }
    }
    assert(cols.take(columns.len() as int) =~= cols);
    let mut r = owned("\n            CREATE OR REPLACE VIEW issues_readable AS\n            SELECT\n                ");
    r.append(join_strings(&parts, ",\n    ").as_str());
    r.append("\n            FROM issues_expanded\n            ");
    r
}

// ---------------------------------------------------------------------------
// The views of the snapshot table
// ---------------------------------------------------------------------------

/// The columns of the snapshot table, in order.
pub open spec fn snapshot_columns() -> Seq<&'static str> {
    seq![
        "issue_id",
        "issue_key",
        "project_id",
        "version",
        "valid_from",
        "valid_to",
        "summary",
        "description",
        "status",
        "priority",
        "assignee",
        "reporter",
        "issue_type",
        "resolution",
        "labels",
        "components",
        "fix_versions",
        "sprint",
        "parent_key",
        "resolved_date",
        "due_date",
        "updated_date",
        "created_at",
    ]
}

/// Executable form of [`snapshot_columns`].
pub fn snapshot_column_names() -> (r: Vec<&'static str>)
    ensures
        r@ == snapshot_columns(),
{
    vec![
        "issue_id",
        "issue_key",
        "project_id",
        "version",
        "valid_from",
        "valid_to",
        "summary",
        "description",
        "status",
        "priority",
        "assignee",
        "reporter",
        "issue_type",
        "resolution",
        "labels",
        "components",
        "fix_versions",
        "sprint",
        "parent_key",
        "resolved_date",
        "due_date",
        "updated_date",
        "created_at",
    ]
}

/// Columns of the snapshot table that keep their own name in its views.
pub open spec fn snapshot_internal() -> Seq<&'static str> {
    seq![
        "issue_id",
        "issue_key",
        "project_id",
        "version",
        "valid_from",
        "valid_to",
        "created_at",
    ]
}

/// Executable form of [`snapshot_internal`].
pub fn snapshot_internal_columns() -> (r: Vec<&'static str>)
    ensures
        r@ == snapshot_internal(),
{
    vec![
        "issue_id",
        "issue_key",
        "project_id",
        "version",
        "valid_from",
        "valid_to",
        "created_at",
    ]
}

/// Columns of the snapshot table named otherwise than their field, with the field's id.
pub open spec fn snapshot_renames() -> Seq<(&'static str, &'static str)> {
    seq![
        ("issue_type", "issuetype"),
        ("fix_versions", "fixversions"),
        ("parent_key", "parent"),
        ("resolved_date", "resolutiondate"),
        ("due_date", "duedate"),
        ("updated_date", "updated"),
    ]
}

/// Executable form of [`snapshot_renames`].
pub fn snapshot_rename_table() -> (r: Vec<(&'static str, &'static str)>)
    ensures
        r@ == snapshot_renames(),
{
    vec![
        ("issue_type", "issuetype"),
        ("fix_versions", "fixversions"),
        ("parent_key", "parent"),
        ("resolved_date", "resolutiondate"),
        ("due_date", "duedate"),
        ("updated_date", "updated"),
    ]
}

/// The statement that (re)creates the readable view of the snapshot table.
pub open spec fn snapshots_readable_text(names: Seq<(Seq<char>, Seq<char>)>) -> Seq<char> {
    "\n            CREATE OR REPLACE VIEW issue_snapshots_readable AS\n            SELECT\n                "@
        + join(aliased(snapshot_columns(), "s."@, snapshot_internal(), snapshot_renames(), names), ",\n    "@)
        + "\n            FROM issue_snapshots s\n            "@
}

/// Executable form of [`snapshots_readable_text`].
pub fn snapshots_readable_sql(fields: &Vec<FieldColumn>) -> (r: String)
    ensures
        r@ == snapshots_readable_text(field_names(fields@)),
{
    let names = field_name_table(fields);
    let parts = aliased_columns(
        &snapshot_column_names(),
        "s.",
        &snapshot_internal_columns(),
        &snapshot_rename_table(),
        &names,
    );
    let mut r = owned("\n            CREATE OR REPLACE VIEW issue_snapshots_readable AS\n            SELECT\n                ");
    r.append(join_strings(&parts, ",\n    ").as_str());
    r.append("\n            FROM issue_snapshots s\n            ");
    r
}

/// The base columns of the expanded snapshot view: the expression of each and its name.
pub open spec fn snapshot_base_exprs() -> Seq<(&'static str, &'static str)> {
    seq![
        ("s.issue_id", "issue_id"),
        ("s.issue_key", "issue_key"),
        ("s.project_id", "project_id"),
        ("s.version", "version"),
        ("s.valid_from", "valid_from"),
        ("s.valid_to", "valid_to"),
        ("s.summary", "summary"),
        ("s.description", "description"),
        ("s.status", "status"),
        ("s.priority", "priority"),
        ("s.assignee", "assignee"),
        ("s.reporter", "reporter"),
        ("s.issue_type", "issue_type"),
        ("s.resolution", "resolution"),
        ("s.labels", "labels"),
        ("s.components", "components"),
        ("s.fix_versions", "fix_versions"),
        ("s.sprint", "sprint"),
        ("s.parent_key", "parent_key"),
        ("COALESCE(s.resolved_date, TRY_CAST(s.raw_data->'fields'->>'resolutiondate' AS TIMESTAMP))", "resolved_date"),
        ("COALESCE(s.due_date, TRY_CAST(s.raw_data->'fields'->>'duedate' AS TIMESTAMP))", "due_date"),
        ("COALESCE(s.updated_date, TRY_CAST(s.raw_data->'fields'->>'updated' AS TIMESTAMP))", "updated_date"),
        ("s.created_at", "created_at"),
    ]
}

/// Executable form of [`snapshot_base_exprs`].
pub fn snapshot_base_expr_table() -> (r: Vec<(&'static str, &'static str)>)
    ensures
        r@ == snapshot_base_exprs(),
{
    vec![
        ("s.issue_id", "issue_id"),
        ("s.issue_key", "issue_key"),
        ("s.project_id", "project_id"),
        ("s.version", "version"),
        ("s.valid_from", "valid_from"),
        ("s.valid_to", "valid_to"),
        ("s.summary", "summary"),
        ("s.description", "description"),
        ("s.status", "status"),
        ("s.priority", "priority"),
        ("s.assignee", "assignee"),
        ("s.reporter", "reporter"),
        ("s.issue_type", "issue_type"),
        ("s.resolution", "resolution"),
        ("s.labels", "labels"),
        ("s.components", "components"),
        ("s.fix_versions", "fix_versions"),
        ("s.sprint", "sprint"),
        ("s.parent_key", "parent_key"),
        ("COALESCE(s.resolved_date, TRY_CAST(s.raw_data->'fields'->>'resolutiondate' AS TIMESTAMP))", "resolved_date"),
        ("COALESCE(s.due_date, TRY_CAST(s.raw_data->'fields'->>'duedate' AS TIMESTAMP))", "due_date"),
        ("COALESCE(s.updated_date, TRY_CAST(s.raw_data->'fields'->>'updated' AS TIMESTAMP))", "updated_date"),
        ("s.created_at", "created_at"),
    ]
}

/// Field ids that the expanded snapshot view already holds in a base column.
pub open spec fn snapshot_skipped_ids() -> Seq<&'static str> {
    seq![
        "summary",
        "description",
        "status",
        "priority",
        "assignee",
        "reporter",
        "issuetype",
        "resolution",
        "labels",
        "components",
        "fixversions",
        "parent",
        "created",
        "updated",
        "resolutiondate",
        "duedate",
    ]
}

/// Executable form of [`snapshot_skipped_ids`].
pub fn snapshot_skipped_id_names() -> (r: Vec<&'static str>)
    ensures
        r@ == snapshot_skipped_ids(),
{
    vec![
        "summary",
        "description",
        "status",
        "priority",
        "assignee",
        "reporter",
        "issuetype",
        "resolution",
        "labels",
        "components",
        "fixversions",
        "parent",
        "created",
        "updated",
        "resolutiondate",
        "duedate",
    ]
}

/// The fields that get a column of their own in the expanded snapshot view:
/// expandable custom fields that no base column holds, in order.
pub open spec fn snapshot_custom_fields(fields: Seq<FieldColumn>) -> Seq<FieldColumn>
    decreases fields.len(),
{
    if fields.len() == 0 {
        seq![]
    } else {
        let f = fields.last();
        if f.expandable && !is_listed(snapshot_skipped_ids(), unicode_lower(f.id@)) && has_prefix(
            f.id@,
            "customfield_"@,
        ) {
            snapshot_custom_fields(fields.drop_last()).push(f)
        } else {
            snapshot_custom_fields(fields.drop_last())
        }
    }
}

/// The select list of the expanded snapshot view.
pub open spec fn snapshots_expanded_parts(fields: Seq<FieldColumn>) -> Seq<Seq<char>> {
    snapshot_base_exprs().map_values(
        |p: (&'static str, &'static str)| p.0@ + " AS \""@ + p.1@ + "\""@,
    ) + snapshot_custom_fields(fields).map_values(
        |f: FieldColumn| custom_field_expr("s"@, f.id@, f.column_name@),
    )
}

/// The statement that (re)creates the expanded snapshot view, which reads
/// custom fields from the raw JSON of each snapshot.
pub open spec fn snapshots_expanded_text(fields: Seq<FieldColumn>) -> Seq<char> {
    "\n            CREATE OR REPLACE VIEW issue_snapshots_expanded AS\n            SELECT\n                "@
        + join(snapshots_expanded_parts(fields), ",\n    "@)
        + "\n            FROM issue_snapshots s\n            "@
}

/// Executable form of [`snapshots_expanded_text`].
pub fn snapshots_expanded_sql(fields: &Vec<FieldColumn>) -> (r: String)
    ensures
        r@ == snapshots_expanded_text(fields@),
{
    let base = snapshot_base_expr_table();
    let skipped = snapshot_skipped_id_names();
    let ghost want_base = snapshot_base_exprs().map_values(
        |p: (&'static str, &'static str)| p.0@ + " AS \""@ + p.1@ + "\""@,
    );
    let ghost custom = |f: FieldColumn| custom_field_expr("s"@, f.id@, f.column_name@);
    let mut parts: Vec<String> = Vec::new();
    for k in 0..base.len()
        invariant
            base@ == snapshot_base_exprs(),
            want_base == snapshot_base_exprs().map_values(
                |p: (&'static str, &'static str)| p.0@ + " AS \""@ + p.1@ + "\""@,
            ),
            string_views(parts@) == want_base.take(k as int),
    {
        let mut part = owned(base[k].0);
        part.append(" AS \"");
        part.append(base[k].1);
        part.append("\"");
        let ghost before = string_views(parts@);
        parts.push(part);
        assert(string_views(parts@) =~= before.push(want_base[k as int]));
        assert(want_base.take(k + 1) =~= want_base.take(k as int).push(want_base[k as int]));
    }
    assert(want_base.take(base.len() as int) =~= want_base);
    for i in 0..fields.len()
        invariant
            skipped@ == snapshot_skipped_ids(),
            custom == (|f: FieldColumn| custom_field_expr("s"@, f.id@, f.column_name@)),
            string_views(parts@) == want_base + snapshot_custom_fields(fields@.take(i as int)).map_values(custom),
    {
        let f = &fields[i];
        let ghost prev = snapshot_custom_fields(fields@.take(i as int));
        proof {
            assert(fields@.take(i + 1).drop_last() =~= fields@.take(i as int));
            assert(fields@.take(i + 1).last() == *f);
            if ascii_ids(fields@.take(i + 1)) {
                assert forall|k: int| 0 <= k < i implies all_ascii(#[trigger] fields@.take(i as int)[k].id@) by {
                    assert(fields@.take(i as int)[k] == fields@.take(i + 1)[k]);
                }
                assert(all_ascii(fields@.take(i + 1)[i as int].id@));
            }
        }
        if f.expandable {
            let lower = to_lower(f.id.as_str());
            if !listed(&skipped, lower.as_str()) && str_starts_with(f.id.as_str(), "customfield_") {
                let ghost before = string_views(parts@);
                parts.push(custom_field_sql("s", f.id.as_str(), f.column_name.as_str()));
                assert(string_views(parts@) =~= before.push(custom(*f)));
                assert(prev.push(*f).map_values(custom) =~= prev.map_values(custom).push(custom(*f)));
            }
        }
    }
    assert(fields@.take(fields.len() as int) =~= fields@);
    let mut r = owned("\n            CREATE OR REPLACE VIEW issue_snapshots_expanded AS\n            SELECT\n                ");
    r.append(join_strings(&parts, ",\n    ").as_str());
    r.append("\n            FROM issue_snapshots s\n            ");
    r
}

/// The fields that the readable expanded snapshot view shows besides its
/// base columns: the expandable custom fields, in order.
pub open spec fn readable_custom_fields(fields: Seq<FieldColumn>) -> Seq<FieldColumn>
    decreases fields.len(),
{
    if fields.len() == 0 {
        seq![]
    } else if fields.last().expandable && has_prefix(fields.last().id@, "customfield_"@) {
        readable_custom_fields(fields.drop_last()).push(fields.last())
    } else {
        readable_custom_fields(fields.drop_last())
    }
}

/// The statement that (re)creates the readable form of the expanded
/// snapshot view.
pub open spec fn snapshots_expanded_readable_text(fields: Seq<FieldColumn>) -> Seq<char> {
    "\n            CREATE OR REPLACE VIEW issue_snapshots_expanded_readable AS\n            SELECT\n                "@
        + join(
        aliased(snapshot_columns(), seq![], snapshot_internal(), snapshot_renames(), field_names(fields))
            + readable_custom_fields(fields).map_values(|f: FieldColumn| alias(f.column_name@, f.name@)),
        ",\n    "@,
    ) + "\n            FROM issue_snapshots_expanded\n            "@
}

/// Executable form of [`snapshots_expanded_readable_text`].
pub fn snapshots_expanded_readable_sql(fields: &Vec<FieldColumn>) -> (r: String)
    ensures
        r@ == snapshots_expanded_readable_text(fields@),
{
    let names = field_name_table(fields);
    let mut parts = aliased_columns(
        &snapshot_column_names(),
        "",
        &snapshot_internal_columns(),
        &snapshot_rename_table(),
        &names,
    );
    proof {
        reveal_strlit("");
        assert(""@ =~= Seq::<char>::empty());
        assert(string_views(parts@) == aliased(
            snapshot_columns(),
            seq![],
            snapshot_internal(),
            snapshot_renames(),
            field_names(fields@),
        ));
    }
    let ghost head = string_views(parts@);
    let ghost shown = |f: FieldColumn| alias(f.column_name@, f.name@);
    for i in 0..fields.len()
        invariant
            shown == (|f: FieldColumn| alias(f.column_name@, f.name@)),
            string_views(parts@) == head + readable_custom_fields(fields@.take(i as int)).map_values(shown),
    {
        let f = &fields[i];
        let ghost prev = readable_custom_fields(fields@.take(i as int));
        proof {
            assert(fields@.take(i + 1).drop_last() =~= fields@.take(i as int));
            assert(fields@.take(i + 1).last() == *f);
        }
        if f.expandable && str_starts_with(f.id.as_str(), "customfield_") {
            let ghost before = string_views(parts@);
            parts.push(alias_sql(f.column_name.as_str(), f.name.as_str()));
            assert(string_views(parts@) =~= before.push(shown(*f)));
            assert(prev.push(*f).map_values(shown) =~= prev.map_values(shown).push(shown(*f)));
        }
    }
    assert(fields@.take(fields.len() as int) =~= fields@);
    let mut r = owned(
        "\n            CREATE OR REPLACE VIEW issue_snapshots_expanded_readable AS\n            SELECT\n                ",
    );
    r.append(join_strings(&parts, ",\n    ").as_str());
    r.append("\n            FROM issue_snapshots_expanded\n            ");
    r
}

} // verus!
