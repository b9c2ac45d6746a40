use vstd::prelude::*;

use crate::records::{Printer, PrinterModel};
use crate::status::Status;
use crate::store::{Answer, Query, QueryModel, Step, StepModel};

verus! {

/// The course of creating a printer: insert it; only a failed insert is an
/// error.
pub open spec fn create_printer_plan(printer: PrinterModel, answers: Seq<Answer>) -> StepModel {
    if answers.len() == 0 {
        StepModel::Run(QueryModel::InsertPrinter { printer })
    } else if answers[0] == Answer::Failed {
        StepModel::Reply(Status::InternalServerError)
    } else {
        StepModel::Reply(Status::Created)
    }
}

/// The next step in creating `printer`, given the store's answers so far.
pub fn create_printer(printer: &Printer, answers: &[Answer]) -> (r: Step)
    ensures
        r@ == create_printer_plan(printer@, answers@),
{
    if answers.len() == 0 {
        Step::Run(Query::InsertPrinter { printer: printer.duplicate() })
    } else if answers[0] == Answer::Failed {
        Step::Reply(Status::InternalServerError)
    } else {
        Step::Reply(Status::Created)
    }
}

/// The course of deleting a printer: delete without looking it up first.
pub open spec fn delete_printer_plan(id: u128, answers: Seq<Answer>) -> StepModel {
    if answers.len() == 0 {
        StepModel::Run(QueryModel::DeletePrinter { id })
    } else if answers[0] == Answer::Failed {
        StepModel::Reply(Status::InternalServerError)
    } else {
        StepModel::Reply(Status::Success)
    }
}

/// The next step in deleting printer `id`, given the store's answers so far.
pub fn delete_printer(id: u128, answers: &[Answer]) -> (r: Step)
    ensures
        r@ == delete_printer_plan(id, answers@),
{
    if answers.len() == 0 {
        Step::Run(Query::DeletePrinter { id })
    } else if answers[0] == Answer::Failed {
        Step::Reply(Status::InternalServerError)
    } else {
        Step::Reply(Status::Success)
    }
}

} // verus!
