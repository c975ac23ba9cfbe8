//! Saved SQL queries: listing, saving (create or update) and deleting
//! entries of the list that is kept in the saved-queries file.
use vstd::prelude::*;

use crate::service::ServiceError;
use crate::text::{concat3, copy_opt};

verus! {

/// A query the user saved under a name.
#[derive(Debug, Clone)]
pub struct SavedQuery {
    pub id: String,
    pub name: String,
    pub query: String,
    pub description: Option<String>,
    /// RFC 3339 time of creation.
    pub created_at: String,
    /// RFC 3339 time of the last change.
    pub updated_at: String,
}

impl SavedQuery {
    /// A field-by-field copy.
    pub fn duplicate(&self) -> (r: SavedQuery)
        ensures
            r == *self,
    {
        SavedQuery {
            id: self.id.clone(),
            name: self.name.clone(),
            query: self.query.clone(),
            description: copy_opt(&self.description),
            created_at: self.created_at.clone(),
            updated_at: self.updated_at.clone(),
        }
    }
}

/// Request to list the saved queries.
#[derive(Debug, Clone)]
pub struct SqlQueryListRequest {}

/// The saved queries.
#[derive(Debug, Clone)]
pub struct SqlQueryListResponse {
    pub queries: Vec<SavedQuery>,
}

/// Request to save a query; with an `id` the saved query of that id is
/// replaced, without one a new saved query is created.
#[derive(Debug, Clone)]
pub struct SqlQuerySaveRequest {
    pub id: Option<String>,
    pub name: String,
    pub query: String,
    pub description: Option<String>,
}

/// The query as it was saved.
#[derive(Debug, Clone)]
pub struct SqlQuerySaveResponse {
    pub query: SavedQuery,
}

/// Request to delete the saved query with this id.
#[derive(Debug, Clone)]
pub struct SqlQueryDeleteRequest {
    pub id: String,
}

/// Outcome of a deletion.
#[derive(Debug, Clone)]
pub struct SqlQueryDeleteResponse {
    pub success: bool,
}

/// Some saved query has this id.
pub open spec fn has_query_id(qs: Seq<SavedQuery>, id: Seq<char>) -> bool {
    exists|i: int| 0 <= i < qs.len() && (#[trigger] qs[i]).id@ == id
}

/// The position of the first saved query with this id, from `k` on.
pub open spec fn query_index_from(qs: Seq<SavedQuery>, id: Seq<char>, k: int) -> Option<int>
    decreases qs.len() - k,
{
    if k < 0 || k >= qs.len() {
        None
    } else if qs[k].id@ == id {
        Some(k)
    } else {
        query_index_from(qs, id, k + 1)
    }
}

/// The saved queries whose id differs from `id`, in their order.
pub open spec fn without_query_id(qs: Seq<SavedQuery>, id: Seq<char>) -> Seq<SavedQuery>
    decreases qs.len(),
{
    if qs.len() == 0 {
        seq![]
    } else if qs.last().id@ == id {
        without_query_id(qs.drop_last(), id)
    } else {
        without_query_id(qs.drop_last(), id).push(qs.last())
    }
}

fn not_found(id: &str) -> (e: ServiceError)
    ensures
        e matches ServiceError::NotFound(m) && m@ == "Query with id "@ + id@ + " not found"@,
{
    ServiceError::NotFound(concat3("Query with id ", id, " not found"))
}

/// Lists the saved queries read from the saved-queries file (an empty list
/// when there is none).
pub fn query_list(saved: Vec<SavedQuery>, _request: SqlQueryListRequest) -> (r: Result<
    SqlQueryListResponse,
    ServiceError,
>)
    ensures
        r matches Ok(resp) && resp.queries@ == saved@,
{
    Ok(SqlQueryListResponse { queries: saved })
}

/// Deletes the saved query with the requested id: the list without it, to be
/// written back, and the response; `NotFound` when no saved query has it.
pub fn query_delete(saved: Vec<SavedQuery>, request: SqlQueryDeleteRequest) -> (r: Result<
    (Vec<SavedQuery>, SqlQueryDeleteResponse),
    ServiceError,
>)
    ensures
        has_query_id(saved@, request.id@) ==> (r matches Ok((kept, resp)) && kept@
            == without_query_id(saved@, request.id@) && resp.success),
        !has_query_id(saved@, request.id@) ==> (r matches Err(ServiceError::NotFound(m)) && m@
            == "Query with id "@ + request.id@ + " not found"@),
{
    let mut kept: Vec<SavedQuery> = Vec::new();
    let mut found = false;
    for i in 0..saved.len()
        invariant
            kept@ == without_query_id(saved@.take(i as int), request.id@),
            found <==> has_query_id(saved@.take(i as int), request.id@),
    {
        let q = saved[i].duplicate();
        proof {
            assert(saved@.take(i + 1).drop_last() =~= saved@.take(i as int));
            assert(saved@.take(i + 1).last() == saved@[i as int]);
        }
        if q.id == request.id {
            found = true;
            assert(saved@.take(i + 1)[i as int].id@ == request.id@);
        } else {
            kept.push(q);
            proof {
                if has_query_id(saved@.take(i + 1), request.id@) {
                    let w = choose|j: int|
                        0 <= j < i + 1 && (#[trigger] saved@.take(i + 1)[j]).id@ == request.id@;
                    assert(saved@.take(i as int)[w].id@ == request.id@);
                }
            }
        }
        proof {
            if has_query_id(saved@.take(i as int), request.id@) {
                let w = choose|j: int|
                    0 <= j < i && (#[trigger] saved@.take(i as int)[j]).id@ == request.id@;
                assert(saved@.take(i + 1)[w].id@ == request.id@);
            }
        }
    }
    assert(saved@.take(saved.len() as int) =~= saved@);
    if !found {
        return Err(not_found(request.id.as_str()));
    }
    Ok((kept, SqlQueryDeleteResponse { success: true }))
}

/// `q` with its name, query text and description replaced by those of the
/// request, and its update time set to `now`.
pub open spec fn updated_query(q: SavedQuery, request: SqlQuerySaveRequest, now: String) -> SavedQuery {
    SavedQuery {
        id: q.id,
        name: request.name,
        query: request.query,
        description: request.description,
        created_at: q.created_at,
        updated_at: now,
    }
}

/// The saved query a request without id creates.
pub open spec fn new_query(request: SqlQuerySaveRequest, new_id: String, now: String) -> SavedQuery {
    SavedQuery {
        id: new_id,
        name: request.name,
        query: request.query,
        description: request.description,
        created_at: now,
        updated_at: now,
    }
}

/// Saves a query. With an id, the first saved query of that id is updated
/// (`NotFound` when there is none); without one a new query with `new_id`
/// is appended. `new_id` and `now` come from the caller (a fresh UUID and
/// the current time).
pub fn query_save(
    saved: Vec<SavedQuery>,
    request: SqlQuerySaveRequest,
    new_id: String,
    now: String,
) -> (r: Result<(Vec<SavedQuery>, SqlQuerySaveResponse), ServiceError>)
    ensures
        request.id is None ==> (r matches Ok((all, resp)) && all@ == saved@.push(
            new_query(request, new_id, now),
        ) && resp.query == new_query(request, new_id, now)),
        request.id matches Some(id) ==> match query_index_from(saved@, id@, 0) {
            Some(i) => r matches Ok((all, resp)) && all@ == saved@.update(
                i,
                updated_query(saved@[i], request, now),
            ) && resp.query == updated_query(saved@[i], request, now),
            None => r matches Err(ServiceError::NotFound(m)) && m@ == "Query with id "@ + id@
                + " not found"@,
        },
        request.id is None ==> (r matches Ok((all, resp)) && {
            &&& resp.query.id == new_id
            &&& resp.query.name == request.name
            &&& resp.query.query == request.query
            &&& resp.query.description == request.description
            &&& resp.query.created_at == now
            &&& resp.query.updated_at == now
            &&& all@.len() == saved@.len() + 1
            &&& all@.last() == resp.query
            &&& all@.drop_last() == saved@
        }),
        request.id matches Some(id) ==> (r matches Ok((all, resp)) ==> {
            &&& resp.query.id@ == id@
            &&& resp.query.name == request.name
            &&& resp.query.query == request.query
            &&& resp.query.description == request.description
            &&& resp.query.updated_at == now
            &&& all@.len() == saved@.len()
            &&& exists|i: int|
                0 <= i < all@.len() && saved@[i].id@ == id@ && #[trigger] all@[i] == resp.query
                    && resp.query.created_at == saved@[i].created_at
        }),
{
    let mut all = saved;
    match &request.id {
        Some(id) => {
            let mut i: usize = 0;
            while i < all.len()
                invariant
                    i <= all.len(),
                    all@ == saved@,
                    request.id == Some(*id),
                    query_index_from(saved@, id@, 0) == query_index_from(saved@, id@, i as int),
                decreases all.len() - i,
            {
                if all[i].id == *id {
                    let old_q = all[i].duplicate();
                    let q = SavedQuery {
                        id: old_q.id,
                        name: request.name.clone(),
                        query: request.query.clone(),
                        description: copy_opt(&request.description),
                        created_at: old_q.created_at,
                        updated_at: now,
                    };
                    let out = q.duplicate();
                    all.set(i, q);
                    assert(all@[i as int] == out);
                    assert(saved@[i as int].id@ == id@);
                    return Ok((all, SqlQuerySaveResponse { query: out }));
                }
                i = i + 1;
            }
            Err(not_found(id.as_str()))
        },
        None => {
            let q = SavedQuery {
                id: new_id,
                name: request.name.clone(),
                query: request.query.clone(),
                description: copy_opt(&request.description),
                created_at: now.clone(),
                updated_at: now,
            };
            let out = q.duplicate();
            all.push(q);
            assert(all@.drop_last() =~= saved@);
            Ok((all, SqlQuerySaveResponse { query: out }))
        },
    }
}

/// The first saved query found for an id, from `k` on, lies at or after `k`
/// and has that id.
pub proof fn lemma_query_index_has_id(qs: Seq<SavedQuery>, id: Seq<char>, k: int)
    ensures
        query_index_from(qs, id, k) matches Some(i) ==> k <= i < qs.len() && qs[i].id@ == id,
    decreases qs.len() - k,
{
    if 0 <= k < qs.len() && qs[k].id@ != id {
        lemma_query_index_has_id(qs, id, k + 1);
    }
}

/// Updating a saved query gives it the request's name, query text and
/// description and the update time, and keeps its id and creation time;
/// no other saved query changes.
pub proof fn lemma_update_takes_request_text(
    qs: Seq<SavedQuery>,
    request: SqlQuerySaveRequest,
    id: String,
    now: String,
    i: int,
)
    requires
        request.id == Some(id),
        query_index_from(qs, id@, 0) == Some(i),
    ensures
        qs.update(i, updated_query(qs[i], request, now))[i].query == request.query,
        qs.update(i, updated_query(qs[i], request, now))[i].name == request.name,
        qs.update(i, updated_query(qs[i], request, now))[i].description == request.description,
        qs.update(i, updated_query(qs[i], request, now))[i].updated_at == now,
        qs.update(i, updated_query(qs[i], request, now))[i].id@ == id@,
        qs.update(i, updated_query(qs[i], request, now))[i].created_at == qs[i].created_at,
        forall|j: int|
            0 <= j < qs.len() && j != i ==> #[trigger] qs.update(i, updated_query(qs[i], request, now))[j]
                == qs[j],
{
    lemma_query_index_has_id(qs, id@, 0);
}

/// After a delete no saved query has the deleted id, and every saved query
/// with another id is kept.
pub proof fn lemma_delete_removes_only_that_id(qs: Seq<SavedQuery>, id: Seq<char>)
    ensures
        !has_query_id(without_query_id(qs, id), id),
        forall|i: int| 0 <= i < qs.len() && qs[i].id@ != id ==> without_query_id(qs, id).contains(
            #[trigger] qs[i],
        ),
        without_query_id(qs, id).len() <= qs.len(),
    decreases qs.len(),
{
    if qs.len() > 0 {
        let rest = qs.drop_last();
        lemma_delete_removes_only_that_id(rest, id);
        let w = without_query_id(rest, id);
        assert forall|i: int| 0 <= i < qs.len() && qs[i].id@ != id implies without_query_id(
            qs,
            id,
        ).contains(#[trigger] qs[i]) by {
            if i < qs.len() - 1 {
                assert(qs[i] == rest[i]);
                assert(w.contains(rest[i]));
                if qs.last().id@ != id {
                    let j = choose|j: int| 0 <= j < w.len() && w[j] == rest[i];
                    assert(w.push(qs.last())[j] == rest[i]);
                }
            } else {
                assert(w.push(qs.last())[w.len() as int] == qs.last());
            }
        }
        if qs.last().id@ != id {
            assert forall|i: int| 0 <= i < w.push(qs.last()).len() implies (#[trigger] w.push(
                qs.last(),
            )[i]).id@ != id by {
                if i < w.len() {
                    assert(w.push(qs.last())[i] == w[i]);
                }
            }
        }
    }
}

/// Deleting keeps exactly the saved queries whose id differs from the
/// deleted one, in the order they were in.
pub proof fn lemma_delete_keeps_the_others_in_order(qs: Seq<SavedQuery>, id: Seq<char>)
    ensures
        without_query_id(qs, id) == qs.filter(|q: SavedQuery| q.id@ != id),
    decreases qs.len(),
{
    reveal(Seq::filter);
    if qs.len() > 0 {
        lemma_delete_keeps_the_others_in_order(qs.drop_last(), id);
    }
}

/// Saving a query without an id makes it the last saved query, and keeps
/// every saved query before it.
pub proof fn lemma_save_new_appends(qs: Seq<SavedQuery>, request: SqlQuerySaveRequest, new_id: String, now: String)
    requires
        request.id is None,
    ensures
        qs.push(new_query(request, new_id, now)).last().id == new_id,
        qs.push(new_query(request, new_id, now)).drop_last() == qs,
        has_query_id(qs.push(new_query(request, new_id, now)), new_id@),
{
    let all = qs.push(new_query(request, new_id, now));
    assert(all.drop_last() =~= qs);
    assert(all[qs.len() as int].id@ == new_id@);
}

} // verus!
