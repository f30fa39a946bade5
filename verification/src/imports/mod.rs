//! The imports of an image, library by library, and how an imported function is named.
use vstd::prelude::*;

pub mod dll_import;
pub mod import_table;

use crate::cstr::str_eq;
use crate::windows_types::IMAGE_IMPORT_BY_ORDINAL;

verus! {

/// A function imported by name: its hint and its name.
#[allow(non_camel_case_types)]
#[derive(Debug)]
pub struct IMAGE_IMPORT_BY_NAME {
    pub hint: u16,
    pub name: String,
}

impl IMAGE_IMPORT_BY_NAME {
    pub open spec fn spec_name(&self) -> Seq<char> {
        self.name@
    }

    pub fn new(hint: u16, name: String) -> (r: Self)
        ensures
            r.hint == hint,
            r.spec_name() == name@,
    {
        Self { hint, name }
    }

    pub fn name(&self) -> (r: &str)
        ensures
            r@ == self.spec_name(),
    {
        self.name.as_str()
    }
}

/// An imported function, seen by name or by ordinal.
pub enum ImportModel {
    Name(u16, Seq<char>),
    Ordinal(u16),
}

/// An imported function, as its lookup-table entry describes it.
#[derive(Debug)]
pub enum Import {
    Name(IMAGE_IMPORT_BY_NAME),
    Ordinal(IMAGE_IMPORT_BY_ORDINAL),
}

impl View for Import {
    type V = ImportModel;

    closed spec fn view(&self) -> ImportModel {
        match self {
            Import::Name(n) => ImportModel::Name(n.hint, n.spec_name()),
            Import::Ordinal(o) => ImportModel::Ordinal(o.ordinal_number),
        }
    }
}

/// A function named as a caller names it: by name or by ordinal.
#[derive(Debug)]
pub enum ImportSimple {
    Name(String),
    Ordinal(u16),
}

/// What identifies a function: its name or its ordinal.
pub enum IdentModel {
    Name(Seq<char>),
    Ordinal(u16),
}

impl View for ImportSimple {
    type V = IdentModel;

    open spec fn view(&self) -> IdentModel {
        match self {
            ImportSimple::Name(n) => IdentModel::Name(n@),
            ImportSimple::Ordinal(o) => IdentModel::Ordinal(*o),
        }
    }
}

/// The identifier names the imported function: the same name, or the same ordinal.
pub open spec fn spec_names(ident: IdentModel, import: ImportModel) -> bool {
    match ident {
        IdentModel::Name(n) => import matches ImportModel::Name(_, m) && m == n,
        IdentModel::Ordinal(o) => import matches ImportModel::Ordinal(p) && p == o,
    }
}

impl ImportSimple {
    /// Whether `other` is the function this identifier names.
    pub fn eq(&self, other: &Import) -> (r: bool)
        ensures
            r == spec_names(self@, other@),
    {
        match self {
            Self::Name(name) => {
                if let Import::Name(by_name) = other {
                    str_eq(by_name.name(), name.as_str())
                } else {
                    false
                }
            },
            Self::Ordinal(ord) => {
                if let Import::Ordinal(by_ordinal) = other {
                    *ord == by_ordinal.ordinal_number
                } else {
                    false
                }
            },
        }
    }
}

impl From<u16> for ImportSimple {
    fn from(value: u16) -> (r: Self) {
        Self::Ordinal(value)
    }
}

impl vstd::std_specs::convert::FromSpecImpl<u16> for ImportSimple {
    open spec fn obeys_from_spec() -> bool {
        true
    }

    open spec fn from_spec(v: u16) -> Self {
        ImportSimple::Ordinal(v)
    }
}

impl From<String> for ImportSimple {
    fn from(value: String) -> (r: Self) {
        Self::Name(value)
    }
}

impl vstd::std_specs::convert::FromSpecImpl<String> for ImportSimple {
    open spec fn obeys_from_spec() -> bool {
        true
    }

    open spec fn from_spec(v: String) -> Self {
        ImportSimple::Name(v)
    }
}

} // verus!
