use vstd::prelude::*;

use crate::naming::{check_name, valid_name};
use crate::records::{Brand, BrandModel};
use crate::status::Status;
use crate::store::{Answer, Query, QueryModel, Step, StepModel, StorageError};

verus! {

/// The number of brands to report: the stored count, or zero when the store
/// could not count.
pub fn count_brands(fetched: Result<i32, StorageError>) -> (r: i32)
    ensures
        r == match fetched {
            Ok(n) => n,
            Err(_) => 0i32,
        },
{
    match fetched {
        Ok(n) => n,
        Err(_) => 0,
    }
}

/// The status of a lookup by identifier.
pub open spec fn search_status(fetched: Result<Option<BrandModel>, StorageError>) -> Status {
    match fetched {
        Ok(Some(_)) => Status::Success,
        Ok(None) => Status::NotFound,
        Err(_) => Status::InternalServerError,
    }
}

/// Response to a lookup of one brand by identifier: the brand when found,
/// `NotFound` when absent, `InternalServerError` when the store failed.
pub fn search_brand(fetched: Result<Option<Brand>, StorageError>) -> (r: (Status, Option<Brand>))
    ensures
        r.0 == search_status(
            match fetched {
                Ok(Some(b)) => Ok(Some(b@)),
                Ok(None) => Ok(None),
                Err(e) => Err(e),
            },
        ),
        r.1 == match fetched {
            Ok(Some(b)) => Some(b),
            _ => None::<Brand>,
        },
{
    match fetched {
        Ok(Some(b)) => (Status::Success, Some(b)),
        Ok(None) => (Status::NotFound, None),
        Err(_) => (Status::InternalServerError, None),
    }
}

/// The brands to list: all stored brands, or none when the store failed.
pub fn show_brands(fetched: Result<Vec<Brand>, StorageError>) -> (r: Vec<Brand>)
    ensures
        r@ == match fetched {
            Ok(v) => v@,
            Err(_) => Seq::<Brand>::empty(),
        },
{
    match fetched {
        Ok(v) => v,
        Err(_) => Vec::new(),
    }
}

/// The course of creating a brand: look the name up; an existing name is a
/// conflict, whatever its length; then the name must be valid; then insert.
pub open spec fn create_brand_plan(candidate: BrandModel, answers: Seq<Answer>) -> StepModel {
    if answers.len() == 0 {
        StepModel::Run(QueryModel::BrandByName { name: candidate.name })
    } else if answers[0] == Answer::Failed {
        StepModel::Reply(Status::InternalServerError)
    } else if answers[0] == Answer::Row {
        StepModel::Reply(Status::Conflict)
    } else if !valid_name(candidate.name) {
        StepModel::Reply(Status::BadRequest)
    } else if answers.len() == 1 {
        StepModel::Run(QueryModel::InsertBrand { brand: candidate })
    } else if answers[1] == Answer::Failed {
        StepModel::Reply(Status::InternalServerError)
    } else {
        StepModel::Reply(Status::Created)
    }
}

/// The next step in creating `candidate`, given the store's answers so far.
pub fn create_brand(candidate: &Brand, answers: &[Answer]) -> (r: Step)
    ensures
        r@ == create_brand_plan(candidate@, answers@),
{
    if answers.len() == 0 {
        return Step::Run(Query::BrandByName { name: candidate.name.clone() });
    }
    if answers[0] == Answer::Failed {
        return Step::Reply(Status::InternalServerError);
    }
    if answers[0] == Answer::Row {
        return Step::Reply(Status::Conflict);
    }
    if check_name(candidate.name.as_str()).is_err() {
        return Step::Reply(Status::BadRequest);
    }
    if answers.len() == 1 {
        return Step::Run(Query::InsertBrand { brand: candidate.duplicate() });
    }
    if answers[1] == Answer::Failed {
        Step::Reply(Status::InternalServerError)
    } else {
        Step::Reply(Status::Created)
    }
}

/// The course of renaming a brand: the identifier must exist; then the name
/// must be valid; then no other brand may hold it; then rename.
pub open spec fn update_brand_plan(id: u128, name: Seq<char>, answers: Seq<Answer>) -> StepModel {
    if answers.len() == 0 {
        StepModel::Run(QueryModel::BrandById { id })
    } else if answers[0] == Answer::Failed {
        StepModel::Reply(Status::InternalServerError)
    } else if answers[0] != Answer::Row {
        StepModel::Reply(Status::NotFound)
    } else if !valid_name(name) {
        StepModel::Reply(Status::BadRequest)
    } else if answers.len() == 1 {
        StepModel::Run(QueryModel::OtherBrandByName { name, id })
    } else if answers[1] == Answer::Failed {
        StepModel::Reply(Status::InternalServerError)
    } else if answers[1] == Answer::Row {
        StepModel::Reply(Status::BadRequest)
    } else if answers.len() == 2 {
        StepModel::Run(QueryModel::RenameBrand { id, name })
    } else if answers[2] == Answer::Failed {
        StepModel::Reply(Status::InternalServerError)
    } else {
        StepModel::Reply(Status::Success)
    }
}

/// The next step in renaming brand `id` to `name`, given the store's answers
/// so far.
pub fn update_brand(id: u128, name: &str, answers: &[Answer]) -> (r: Step)
    ensures
        r@ == update_brand_plan(id, name@, answers@),
{
    if answers.len() == 0 {
        return Step::Run(Query::BrandById { id });
    }
    if answers[0] == Answer::Failed {
        return Step::Reply(Status::InternalServerError);
    }
    if answers[0] != Answer::Row {
        return Step::Reply(Status::NotFound);
    }
    if check_name(name).is_err() {
        return Step::Reply(Status::BadRequest);
    }
    if answers.len() == 1 {
        return Step::Run(Query::OtherBrandByName { name: name.to_owned(), id });
    }
    if answers[1] == Answer::Failed {
        return Step::Reply(Status::InternalServerError);
    }
    if answers[1] == Answer::Row {
        return Step::Reply(Status::BadRequest);
    }
    if answers.len() == 2 {
        return Step::Run(Query::RenameBrand { id, name: name.to_owned() });
    }
    if answers[2] == Answer::Failed {
        Step::Reply(Status::InternalServerError)
    } else {
        Step::Reply(Status::Success)
    }
}

/// The course of deleting a brand: the identifier must exist; then delete.
pub open spec fn delete_brand_plan(id: u128, answers: Seq<Answer>) -> StepModel {
    if answers.len() == 0 {
        StepModel::Run(QueryModel::BrandById { id })
    } else if answers[0] == Answer::Failed {
        StepModel::Reply(Status::InternalServerError)
    } else if answers[0] != Answer::Row {
        StepModel::Reply(Status::NotFound)
    } else if answers.len() == 1 {
        StepModel::Run(QueryModel::DeleteBrand { id })
    } else if answers[1] == Answer::Failed {
        StepModel::Reply(Status::InternalServerError)
    } else {
        StepModel::Reply(Status::Success)
    }
}

/// The next step in deleting brand `id`, given the store's answers so far.
pub fn delete_brand(id: u128, answers: &[Answer]) -> (r: Step)
    ensures
        r@ == delete_brand_plan(id, answers@),
{
    if answers.len() == 0 {
        return Step::Run(Query::BrandById { id });
    }
    if answers[0] == Answer::Failed {
        return Step::Reply(Status::InternalServerError);
    }
    if answers[0] != Answer::Row {
        return Step::Reply(Status::NotFound);
    }
    if answers.len() == 1 {
        return Step::Run(Query::DeleteBrand { id });
    }
    if answers[1] == Answer::Failed {
        Step::Reply(Status::InternalServerError)
    } else {
        Step::Reply(Status::Success)
    }
}

} // verus!
