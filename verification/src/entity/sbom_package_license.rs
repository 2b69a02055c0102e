//! The licenses that documents assert for their packages.

use vstd::prelude::*;
use crate::table::{Keyed, OwnedRecord, Record};

verus! {

/// How a document asserts a license for a package.
#[derive(Debug, Clone, Copy, PartialEq, Eq, Structural)]
pub enum LicenseCategory {
    /// The license that the author of the document declares.
    Declared,
    /// The license that an analysis concluded.
    Concluded,
    /// Any other assertion that a tool makes.
    Other,
}

/// The assertion that, in one document, one package carries one license in
/// one category. A package may carry the same license in several categories:
/// the key is all four fields.
#[derive(Debug, Clone)]
pub struct Model {
    pub sbom_id: u128,
    pub node_id: String,
    pub license_id: u128,
    pub license_type: LicenseCategory,
}

/// What a [`Model`] holds.
pub ghost struct ModelView {
    pub sbom_id: u128,
    pub node_id: Seq<char>,
    pub license_id: u128,
    pub license_type: LicenseCategory,
}

impl DeepView for Model {
    type V = ModelView;

    open spec fn deep_view(&self) -> ModelView {
        ModelView {
            sbom_id: self.sbom_id,
            node_id: self.node_id@,
            license_id: self.license_id,
            license_type: self.license_type,
        }
    }
}

impl Keyed for ModelView {
    type Key = (u128, Seq<char>, u128, LicenseCategory);

    open spec fn key(self) -> (u128, Seq<char>, u128, LicenseCategory) {
        (self.sbom_id, self.node_id, self.license_id, self.license_type)
    }
}

impl Record for Model {
    type Data = ModelView;

    open spec fn data(&self) -> ModelView {
        self.deep_view()
    }

    fn same_key(&self, other: &Self) -> (r: bool) {
        self.sbom_id == other.sbom_id && self.node_id == other.node_id
            && self.license_id == other.license_id && self.license_type == other.license_type
    }
}

impl OwnedRecord for Model {
    open spec fn owner_of(data: ModelView) -> u128 {
        data.sbom_id
    }

    fn owned_by(&self, sbom_id: u128) -> (r: bool) {
        self.sbom_id == sbom_id
    }
}

} // verus!
