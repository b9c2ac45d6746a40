use vstd::prelude::*;

use crate::ids::{new_id, parse_id, parsed_id};

verus! {

/// A printer brand as stored: a generated identifier and a unique name.
#[derive(Debug)]
pub struct Brand {
    pub id: u128,
    pub name: String,
}

/// What a brand stands for.
pub struct BrandModel {
    pub id: u128,
    pub name: Seq<char>,
}

impl View for Brand {
    type V = BrandModel;

    open spec fn view(&self) -> BrandModel {
        BrandModel { id: self.id, name: self.name@ }
    }
}

impl Brand {
    /// A candidate brand with the given name and a fresh random identifier.
    pub fn new(name: &str) -> (r: Brand)
        ensures
            r.name@ == name@,
    {
        Brand { id: new_id(), name: name.to_owned() }
    }

    /// A copy of this brand.
    pub fn duplicate(&self) -> (r: Brand)
        ensures
            r@ == self@,
    {
        Brand { id: self.id, name: self.name.clone() }
    }
}

/// A printer as stored: its own identifier, and those of its brand, toner and
/// drum.
#[derive(Debug)]
pub struct Printer {
    pub id: u128,
    pub name: String,
    pub model: String,
    pub brand: u128,
    pub toner: u128,
    pub drum: u128,
}

/// What a printer stands for.
pub struct PrinterModel {
    pub id: u128,
    pub name: Seq<char>,
    pub model: Seq<char>,
    pub brand: u128,
    pub toner: u128,
    pub drum: u128,
}

impl View for Printer {
    type V = PrinterModel;

    open spec fn view(&self) -> PrinterModel {
        PrinterModel {
            id: self.id,
            name: self.name@,
            model: self.model@,
            brand: self.brand,
            toner: self.toner,
            drum: self.drum,
        }
    }
}

/// Whether each of the three reference texts reads as an identifier.
pub open spec fn references_parse(brand: Seq<char>, toner: Seq<char>, drum: Seq<char>) -> bool {
    parsed_id(brand) is Some && parsed_id(toner) is Some && parsed_id(drum) is Some
}

impl Printer {
    /// A new printer with a fresh random identifier, whose brand, toner and
    /// drum are read from their textual identifiers. `None` when any of the
    /// three does not read as an identifier.
    pub fn new(name: &str, model: &str, brand: &str, toner: &str, drum: &str) -> (r: Option<
        Printer,
    >)
        ensures
            r is Some <==> references_parse(brand@, toner@, drum@),
            r matches Some(p) ==> {
                &&& p.name@ == name@
                &&& p.model@ == model@
                &&& Some(p.brand) == parsed_id(brand@)
                &&& Some(p.toner) == parsed_id(toner@)
                &&& Some(p.drum) == parsed_id(drum@)
            },
    {
        let b = parse_id(brand);
        let t = parse_id(toner);
        let d = parse_id(drum);
        match (b, t, d) {
            (Some(b), Some(t), Some(d)) => Some(
                Printer {
                    id: new_id(),
                    name: name.to_owned(),
                    model: model.to_owned(),
                    brand: b,
                    toner: t,
                    drum: d,
                },
            ),
            _ => None,
        }
    }

    /// A copy of this printer.
    pub fn duplicate(&self) -> (r: Printer)
        ensures
            r@ == self@,
    {
        Printer {
            id: self.id,
            name: self.name.clone(),
            model: self.model.clone(),
            brand: self.brand,
            toner: self.toner,
            drum: self.drum,
        }
    }
}

} // verus!
