use vstd::prelude::*;

use crate::brand::{create_brand_plan, delete_brand_plan, update_brand_plan};
use crate::naming::valid_name;
use crate::printer::{create_printer_plan, delete_printer_plan};
use crate::records::{BrandModel, PrinterModel};
use crate::status::Status;
use crate::store::{Answer, QueryModel, StepModel, StorageError};

verus! {

/// The brands a store holds: the name of each identifier.
pub type BrandTable = Map<u128, Seq<char>>;

/// Every stored name is valid, and no two brands share a name.
pub open spec fn table_wf(t: BrandTable) -> bool {
    &&& forall|i: u128| #[trigger] t.contains_key(i) ==> valid_name(t[i])
    &&& forall|i: u128, j: u128|
        #[trigger] t.contains_key(i) && #[trigger] t.contains_key(j) && i != j ==> t[i] != t[j]
}

/// Some brand holds this name.
pub open spec fn name_taken(t: BrandTable, name: Seq<char>) -> bool {
    exists|i: u128| #[trigger] t.contains_key(i) && t[i] == name
}

/// Some brand other than `id` holds this name.
pub open spec fn name_taken_by_other(t: BrandTable, name: Seq<char>, id: u128) -> bool {
    exists|i: u128| #[trigger] t.contains_key(i) && i != id && t[i] == name
}

/// The answer to a lookup.
pub open spec fn row_if(found: bool) -> Answer {
    if found {
        Answer::Row
    } else {
        Answer::NoRow
    }
}

/// How a store that does not fail answers a statement, and the brands it
/// holds afterwards. Inserting an identifier that is already stored breaks
/// the key and fails; renaming or deleting an absent identifier changes
/// nothing and succeeds.
pub open spec fn respond(t: BrandTable, q: QueryModel) -> (BrandTable, Answer) {
    match q {
        QueryModel::BrandByName { name } => (t, row_if(name_taken(t, name))),
        QueryModel::BrandById { id } => (t, row_if(t.contains_key(id))),
        QueryModel::OtherBrandByName { name, id } => (t, row_if(name_taken_by_other(t, name, id))),
        QueryModel::InsertBrand { brand } => if t.contains_key(brand.id) {
            (t, Answer::Failed)
        } else {
            (t.insert(brand.id, brand.name), Answer::Done)
        },
        QueryModel::RenameBrand { id, name } => if t.contains_key(id) {
            (t.insert(id, name), Answer::Done)
        } else {
            (t, Answer::Done)
        },
        QueryModel::DeleteBrand { id } => (t.remove(id), Answer::Done),
        QueryModel::InsertPrinter { .. } => (t, Answer::Done),
        QueryModel::DeletePrinter { .. } => (t, Answer::Done),
    }
}

/// What the store gives back for a lookup of one brand by identifier.
pub open spec fn fetch_brand(t: BrandTable, id: u128) -> Result<Option<BrandModel>, StorageError> {
    if t.contains_key(id) {
        Ok(Some(BrandModel { id, name: t[id] }))
    } else {
        Ok(None)
    }
}

/// A request that changes the store.
pub enum Request {
    CreateBrand { candidate: BrandModel },
    UpdateBrand { id: u128, name: Seq<char> },
    DeleteBrand { id: u128 },
    CreatePrinter { printer: PrinterModel },
    DeletePrinter { id: u128 },
}

/// The next step of a request's handler.
pub open spec fn plan(req: Request, answers: Seq<Answer>) -> StepModel {
    match req {
        Request::CreateBrand { candidate } => create_brand_plan(candidate, answers),
        Request::UpdateBrand { id, name } => update_brand_plan(id, name, answers),
        Request::DeleteBrand { id } => delete_brand_plan(id, answers),
        Request::CreatePrinter { printer } => create_printer_plan(printer, answers),
        Request::DeletePrinter { id } => delete_printer_plan(id, answers),
    }
}

/// Runs a handler against a store that does not fail, for at most `fuel`
/// more statements: the brands held at the end, and the response, if one
/// was reached.
pub open spec fn serve(t: BrandTable, req: Request, answers: Seq<Answer>, fuel: nat) -> (
    BrandTable,
    Option<Status>,
)
    decreases fuel,
{
    match plan(req, answers) {
        StepModel::Reply(s) => (t, Some(s)),
        StepModel::Run(q) => if fuel == 0 {
            (t, None)
        } else {
            serve(respond(t, q).0, req, answers.push(respond(t, q).1), (fuel - 1) as nat)
        },
    }
}

/// The most statements any handler runs.
pub open spec fn max_statements() -> nat {
    3
}

/// The result of handling one request from start to end.
pub open spec fn outcome(t: BrandTable, req: Request) -> (BrandTable, Option<Status>) {
    serve(t, req, Seq::empty(), max_statements())
}

} // verus!
