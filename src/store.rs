use vstd::prelude::*;

use crate::records::{Brand, BrandModel, Printer, PrinterModel};
use crate::status::Status;

verus! {

/// A statement for the relational store.
#[derive(Debug)]
pub enum Query {
    /// Looks up the brand with this exact name.
    BrandByName { name: String },
    /// Looks up the brand with this identifier.
    BrandById { id: u128 },
    /// Looks up a brand with this exact name and another identifier.
    OtherBrandByName { name: String, id: u128 },
    /// Inserts a brand.
    InsertBrand { brand: Brand },
    /// Sets the name of the brand with this identifier.
    RenameBrand { id: u128, name: String },
    /// Deletes the brand with this identifier.
    DeleteBrand { id: u128 },
    /// Inserts a printer.
    InsertPrinter { printer: Printer },
    /// Deletes the printer with this identifier.
    DeletePrinter { id: u128 },
}

/// What a statement stands for.
pub enum QueryModel {
    BrandByName { name: Seq<char> },
    BrandById { id: u128 },
    OtherBrandByName { name: Seq<char>, id: u128 },
    InsertBrand { brand: BrandModel },
    RenameBrand { id: u128, name: Seq<char> },
    DeleteBrand { id: u128 },
    InsertPrinter { printer: PrinterModel },
    DeletePrinter { id: u128 },
}

impl View for Query {
    type V = QueryModel;

    open spec fn view(&self) -> QueryModel {
        match self {
            Query::BrandByName { name } => QueryModel::BrandByName { name: name@ },
            Query::BrandById { id } => QueryModel::BrandById { id: *id },
            Query::OtherBrandByName { name, id } => QueryModel::OtherBrandByName {
                name: name@,
                id: *id,
            },
            Query::InsertBrand { brand } => QueryModel::InsertBrand { brand: brand@ },
            Query::RenameBrand { id, name } => QueryModel::RenameBrand { id: *id, name: name@ },
            Query::DeleteBrand { id } => QueryModel::DeleteBrand { id: *id },
            Query::InsertPrinter { printer } => QueryModel::InsertPrinter { printer: printer@ },
            Query::DeletePrinter { id } => QueryModel::DeletePrinter { id: *id },
        }
    }
}

/// How the store answered a statement. A lookup answers `Row` or `NoRow`, a
/// change answers `Done`; either may answer `Failed`.
#[derive(Clone, Copy, Debug, PartialEq, Eq, Structural)]
pub enum Answer {
    Row,
    NoRow,
    Done,
    Failed,
}

/// The store could not carry out a read.
#[derive(Clone, Copy, Debug, PartialEq, Eq, Structural)]
pub struct StorageError;

/// What a handler does next: run a statement, or send its response.
#[derive(Debug)]
pub enum Step {
    Run(Query),
    Reply(Status),
}

/// What a step stands for.
pub enum StepModel {
    Run(QueryModel),
    Reply(Status),
}

impl View for Step {
    type V = StepModel;

    open spec fn view(&self) -> StepModel {
        match self {
            Step::Run(q) => StepModel::Run(q@),
            Step::Reply(s) => StepModel::Reply(*s),
        }
    }
}

} // verus!
