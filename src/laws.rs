use vstd::prelude::*;

use crate::brand::search_status;
use crate::model::{
    fetch_brand, name_taken, name_taken_by_other, outcome, serve, table_wf, BrandTable, Request,
};
use crate::naming::valid_name;
use crate::records::BrandModel;
use crate::status::Status;

verus! {

/// Renaming or deleting an identifier that no brand has answers `NotFound`
/// and leaves the store as it was.
pub proof fn lemma_absent_id_not_found(t: BrandTable, id: u128, name: Seq<char>)
    requires
        !t.contains_key(id),
    ensures
        outcome(t, Request::UpdateBrand { id, name }) == (t, Some(Status::NotFound)),
        outcome(t, Request::DeleteBrand { id }) == (t, Some(Status::NotFound)),
{
    reveal_with_fuel(serve, 4);
}

/// Deleting a stored brand succeeds and removes it: a later lookup of its
/// identifier answers `NotFound`.
pub proof fn lemma_delete_then_search(t: BrandTable, id: u128)
    requires
        t.contains_key(id),
    ensures
        outcome(t, Request::DeleteBrand { id }) == (t.remove(id), Some(Status::Success)),
        search_status(fetch_brand(t.remove(id), id)) == Status::NotFound,
{
    reveal_with_fuel(serve, 4);
}

/// A valid name that no brand holds is created once with `Created`; a second
/// creation with the same name, under any identifier, is a `Conflict` and
/// changes nothing.
pub proof fn lemma_create_once(t: BrandTable, name: Seq<char>, first: u128, second: u128)
    requires
        valid_name(name),
        !name_taken(t, name),
        !t.contains_key(first),
    ensures
        outcome(t, Request::CreateBrand { candidate: BrandModel { id: first, name } }) == (
            t.insert(first, name),
            Some(Status::Created),
        ),
        outcome(
            t.insert(first, name),
            Request::CreateBrand { candidate: BrandModel { id: second, name } },
        ) == (t.insert(first, name), Some(Status::Conflict)),
{
    reveal_with_fuel(serve, 4);
    assert(t.insert(first, name).contains_key(first));
}

/// In a well-formed store, creating a brand under an invalid name answers
/// `BadRequest` and changes nothing, whether or not the name is held.
pub proof fn lemma_create_invalid_name(t: BrandTable, candidate: BrandModel)
    requires
        table_wf(t),
        !valid_name(candidate.name),
    ensures
        outcome(t, Request::CreateBrand { candidate }) == (t, Some(Status::BadRequest)),
{
    reveal_with_fuel(serve, 4);
    assert(!name_taken(t, candidate.name));
}

/// Renaming a brand to a name that another brand holds answers `BadRequest`
/// and changes nothing.
pub proof fn lemma_update_to_taken_name(t: BrandTable, id: u128, other: u128)
    requires
        t.contains_key(id),
        t.contains_key(other),
        other != id,
    ensures
        outcome(t, Request::UpdateBrand { id, name: t[other] }) == (t, Some(Status::BadRequest)),
{
    reveal_with_fuel(serve, 4);
    assert(name_taken_by_other(t, t[other], id));
}

/// In a well-formed store, renaming a brand to its own name succeeds and
/// leaves the store as it was.
pub proof fn lemma_update_to_own_name(t: BrandTable, id: u128)
    requires
        table_wf(t),
        t.contains_key(id),
    ensures
        outcome(t, Request::UpdateBrand { id, name: t[id] }) == (t, Some(Status::Success)),
{
    reveal_with_fuel(serve, 4);
    assert(!name_taken_by_other(t, t[id], id));
    assert(t.insert(id, t[id]) =~= t);
}

/// Every request keeps the store well formed: names stay valid and unique.
pub proof fn lemma_requests_keep_table_wf(t: BrandTable, req: Request)
    requires
        table_wf(t),
    ensures
        table_wf(outcome(t, req).0),
{
    reveal_with_fuel(serve, 4);
    let after = outcome(t, req).0;
    match req {
        Request::CreateBrand { candidate } => {
            if after != t {
                assert(valid_name(candidate.name) && !name_taken(t, candidate.name));
                assert(after == t.insert(candidate.id, candidate.name));
                assert forall|i: u128, j: u128|
                    #[trigger] after.contains_key(i) && #[trigger] after.contains_key(j) && i
                        != j implies after[i] != after[j] by {
                    if i != candidate.id && j != candidate.id {
                        assert(t.contains_key(i) && t.contains_key(j));
                    } else if i == candidate.id {
                        assert(t.contains_key(j));
                    } else {
                        assert(t.contains_key(i));
                    }
                }
            }
        },
        Request::UpdateBrand { id, name } => {
            if after != t {
                assert(valid_name(name) && !name_taken_by_other(t, name, id));
                assert(after == t.insert(id, name));
                assert forall|i: u128, j: u128|
                    #[trigger] after.contains_key(i) && #[trigger] after.contains_key(j) && i
                        != j implies after[i] != after[j] by {
                    if i != id && j != id {
                        assert(t.contains_key(i) && t.contains_key(j));
                    } else if i == id {
                        assert(t.contains_key(j));
                    } else {
                        assert(t.contains_key(i));
                    }
                }
            }
        },
        Request::DeleteBrand { id } => {
            assert forall|i: u128, j: u128|
                #[trigger] after.contains_key(i) && #[trigger] after.contains_key(j) && i
                    != j implies after[i] != after[j] by {
                assert(t.contains_key(i) && t.contains_key(j));
            }
        },
        _ => {},
    }
}

} // verus!
