//! The records of the relational store, table by table.
//!
//! Every record type says what its key is. A table holds at most one record
//! for each key (see [`crate::table`]).

pub mod sbom_package_license;

use vstd::prelude::*;
use crate::license::model::sbom_license::{Cpe, CpeView};
use crate::table::{Keyed, OwnedRecord, Record};

verus! {

/// A stored document, with the identity that reports are labelled with.
#[derive(Debug, Clone)]
pub struct Sbom {
    pub sbom_id: u128,
    /// The namespace of the document.
    pub document_id: String,
    pub name: String,
    pub group: Option<String>,
    pub version: String,
    /// The SHA-256 digest of the document, in hexadecimal digits.
    pub sha256: String,
    /// The SHA-384 digest of the document.
    pub sha384: String,
    /// The SHA-512 digest of the document.
    pub sha512: String,
}

/// What a [`Sbom`] holds.
pub ghost struct SbomView {
    pub sbom_id: u128,
    pub document_id: Seq<char>,
    pub name: Seq<char>,
    pub group: Option<Seq<char>>,
    pub version: Seq<char>,
    pub sha256: Seq<char>,
    pub sha384: Seq<char>,
    pub sha512: Seq<char>,
}

impl DeepView for Sbom {
    type V = SbomView;

    open spec fn deep_view(&self) -> SbomView {
        SbomView {
            sbom_id: self.sbom_id,
            document_id: self.document_id@,
            name: self.name@,
            group: self.group.deep_view(),
            version: self.version@,
            sha256: self.sha256@,
            sha384: self.sha384@,
            sha512: self.sha512@,
        }
    }
}

impl Keyed for SbomView {
    type Key = u128;

    open spec fn key(self) -> u128 {
        self.sbom_id
    }
}

impl Record for Sbom {
    type Data = SbomView;

    open spec fn data(&self) -> SbomView {
        self.deep_view()
    }

    fn same_key(&self, other: &Self) -> (r: bool) {
        self.sbom_id == other.sbom_id
    }
}

impl OwnedRecord for Sbom {
    open spec fn owner_of(data: SbomView) -> u128 {
        data.sbom_id
    }

    fn owned_by(&self, sbom_id: u128) -> (r: bool) {
        self.sbom_id == sbom_id
    }
}

/// A node of the graph of a document. Node identifiers are local to the
/// document.
#[derive(Debug, Clone)]
pub struct SbomNode {
    pub sbom_id: u128,
    pub node_id: String,
    pub name: String,
}

/// What a [`SbomNode`] holds.
pub ghost struct SbomNodeView {
    pub sbom_id: u128,
    pub node_id: Seq<char>,
    pub name: Seq<char>,
}

impl DeepView for SbomNode {
    type V = SbomNodeView;

    open spec fn deep_view(&self) -> SbomNodeView {
        SbomNodeView {
            sbom_id: self.sbom_id,
            node_id: self.node_id@,
            name: self.name@,
        }
    }
}

impl Keyed for SbomNodeView {
    type Key = (u128, Seq<char>);

    open spec fn key(self) -> (u128, Seq<char>) {
        (self.sbom_id, self.node_id)
    }
}

impl Record for SbomNode {
    type Data = SbomNodeView;

    open spec fn data(&self) -> SbomNodeView {
        self.deep_view()
    }

    fn same_key(&self, other: &Self) -> (r: bool) {
        self.sbom_id == other.sbom_id && self.node_id == other.node_id
    }
}

impl OwnedRecord for SbomNode {
    open spec fn owner_of(data: SbomNodeView) -> u128 {
        data.sbom_id
    }

    fn owned_by(&self, sbom_id: u128) -> (r: bool) {
        self.sbom_id == sbom_id
    }
}

/// A package of a document: a node that stands for a package.
#[derive(Debug, Clone)]
pub struct SbomPackage {
    pub sbom_id: u128,
    pub node_id: String,
    pub group: Option<String>,
    pub version: Option<String>,
}

/// What a [`SbomPackage`] holds.
pub ghost struct SbomPackageView {
    pub sbom_id: u128,
    pub node_id: Seq<char>,
    pub group: Option<Seq<char>>,
    pub version: Option<Seq<char>>,
}

impl DeepView for SbomPackage {
    type V = SbomPackageView;

    open spec fn deep_view(&self) -> SbomPackageView {
        SbomPackageView {
            sbom_id: self.sbom_id,
            node_id: self.node_id@,
            group: self.group.deep_view(),
            version: self.version.deep_view(),
        }
    }
}

impl Keyed for SbomPackageView {
    type Key = (u128, Seq<char>);

    open spec fn key(self) -> (u128, Seq<char>) {
        (self.sbom_id, self.node_id)
    }
}

impl Record for SbomPackage {
    type Data = SbomPackageView;

    open spec fn data(&self) -> SbomPackageView {
        self.deep_view()
    }

    fn same_key(&self, other: &Self) -> (r: bool) {
        self.sbom_id == other.sbom_id && self.node_id == other.node_id
    }
}

impl OwnedRecord for SbomPackage {
    open spec fn owner_of(data: SbomPackageView) -> u128 {
        data.sbom_id
    }

    fn owned_by(&self, sbom_id: u128) -> (r: bool) {
        self.sbom_id == sbom_id
    }
}

/// A license: its identity and its text.
#[derive(Debug, Clone)]
pub struct License {
    pub id: u128,
    pub text: String,
}

/// What a [`License`] holds.
pub ghost struct LicenseView {
    pub id: u128,
    pub text: Seq<char>,
}

impl DeepView for License {
    type V = LicenseView;

    open spec fn deep_view(&self) -> LicenseView {
        LicenseView {
            id: self.id,
            text: self.text@,
        }
    }
}

impl Keyed for LicenseView {
    type Key = u128;

    open spec fn key(self) -> u128 {
        self.id
    }
}

impl Record for License {
    type Data = LicenseView;

    open spec fn data(&self) -> LicenseView {
        self.deep_view()
    }

    fn same_key(&self, other: &Self) -> (r: bool) {
        self.id == other.id
    }
}

/// A package URL with its qualifiers, in canonical text form.
#[derive(Debug, Clone)]
pub struct QualifiedPurl {
    pub id: u128,
    pub purl: String,
}

/// What a [`QualifiedPurl`] holds.
pub ghost struct QualifiedPurlView {
    pub id: u128,
    pub purl: Seq<char>,
}

impl DeepView for QualifiedPurl {
    type V = QualifiedPurlView;

    open spec fn deep_view(&self) -> QualifiedPurlView {
        QualifiedPurlView {
            id: self.id,
            purl: self.purl@,
        }
    }
}

impl Keyed for QualifiedPurlView {
    type Key = u128;

    open spec fn key(self) -> u128 {
        self.id
    }
}

impl Record for QualifiedPurl {
    type Data = QualifiedPurlView;

    open spec fn data(&self) -> QualifiedPurlView {
        self.deep_view()
    }

    fn same_key(&self, other: &Self) -> (r: bool) {
        self.id == other.id
    }
}

/// The statement that a package of a document goes by a package URL.
#[derive(Debug, Clone)]
pub struct SbomPackagePurlRef {
    pub sbom_id: u128,
    pub node_id: String,
    pub qualified_purl_id: u128,
}

/// What a [`SbomPackagePurlRef`] holds.
pub ghost struct SbomPackagePurlRefView {
    pub sbom_id: u128,
    pub node_id: Seq<char>,
    pub qualified_purl_id: u128,
}

impl DeepView for SbomPackagePurlRef {
    type V = SbomPackagePurlRefView;

    open spec fn deep_view(&self) -> SbomPackagePurlRefView {
        SbomPackagePurlRefView {
            sbom_id: self.sbom_id,
            node_id: self.node_id@,
            qualified_purl_id: self.qualified_purl_id,
        }
    }
}

impl Keyed for SbomPackagePurlRefView {
    type Key = (u128, Seq<char>, u128);

    open spec fn key(self) -> (u128, Seq<char>, u128) {
        (self.sbom_id, self.node_id, self.qualified_purl_id)
    }
}

impl Record for SbomPackagePurlRef {
    type Data = SbomPackagePurlRefView;

    open spec fn data(&self) -> SbomPackagePurlRefView {
        self.deep_view()
    }

    fn same_key(&self, other: &Self) -> (r: bool) {
        self.sbom_id == other.sbom_id && self.node_id == other.node_id
            && self.qualified_purl_id == other.qualified_purl_id
    }
}

impl OwnedRecord for SbomPackagePurlRef {
    open spec fn owner_of(data: SbomPackagePurlRefView) -> u128 {
        data.sbom_id
    }

    fn owned_by(&self, sbom_id: u128) -> (r: bool) {
        self.sbom_id == sbom_id
    }
}

/// The statement that a package of a document goes by a platform identifier.
#[derive(Debug, Clone)]
pub struct SbomPackageCpeRef {
    pub sbom_id: u128,
    pub node_id: String,
    pub cpe_id: u128,
}

/// What a [`SbomPackageCpeRef`] holds.
pub ghost struct SbomPackageCpeRefView {
    pub sbom_id: u128,
    pub node_id: Seq<char>,
    pub cpe_id: u128,
}

impl DeepView for SbomPackageCpeRef {
    type V = SbomPackageCpeRefView;

    open spec fn deep_view(&self) -> SbomPackageCpeRefView {
        SbomPackageCpeRefView {
            sbom_id: self.sbom_id,
            node_id: self.node_id@,
            cpe_id: self.cpe_id,
        }
    }
}

impl Keyed for SbomPackageCpeRefView {
    type Key = (u128, Seq<char>, u128);

    open spec fn key(self) -> (u128, Seq<char>, u128) {
        (self.sbom_id, self.node_id, self.cpe_id)
    }
}

impl Record for SbomPackageCpeRef {
    type Data = SbomPackageCpeRefView;

    open spec fn data(&self) -> SbomPackageCpeRefView {
        self.deep_view()
    }

    fn same_key(&self, other: &Self) -> (r: bool) {
        self.sbom_id == other.sbom_id && self.node_id == other.node_id
            && self.cpe_id == other.cpe_id
    }
}

impl OwnedRecord for SbomPackageCpeRef {
    open spec fn owner_of(data: SbomPackageCpeRefView) -> u128 {
        data.sbom_id
    }

    fn owned_by(&self, sbom_id: u128) -> (r: bool) {
        self.sbom_id == sbom_id
    }
}

impl Keyed for CpeView {
    type Key = u128;

    open spec fn key(self) -> u128 {
        self.id
    }
}

impl Record for Cpe {
    type Data = CpeView;

    open spec fn data(&self) -> CpeView {
        self.deep_view()
    }

    fn same_key(&self, other: &Self) -> (r: bool) {
        self.id == other.id
    }
}

/// A license text that a document defines for itself, as it is stored. The
/// identity is derived from the document and the identifier that the document
/// gives the text.
#[derive(Debug, Clone)]
pub struct LicensingInfos {
    pub id: u128,
    pub sbom_id: u128,
    pub name: String,
    pub license_id: String,
    pub extracted_text: String,
    pub comment: String,
}

/// What a [`LicensingInfos`] holds.
pub ghost struct LicensingInfosView {
    pub id: u128,
    pub sbom_id: u128,
    pub name: Seq<char>,
    pub license_id: Seq<char>,
    pub extracted_text: Seq<char>,
    pub comment: Seq<char>,
}

impl DeepView for LicensingInfos {
    type V = LicensingInfosView;

    open spec fn deep_view(&self) -> LicensingInfosView {
        LicensingInfosView {
            id: self.id,
            sbom_id: self.sbom_id,
            name: self.name@,
            license_id: self.license_id@,
            extracted_text: self.extracted_text@,
            comment: self.comment@,
        }
    }
}

impl Keyed for LicensingInfosView {
    type Key = u128;

    open spec fn key(self) -> u128 {
        self.id
    }
}

impl Record for LicensingInfos {
    type Data = LicensingInfosView;

    open spec fn data(&self) -> LicensingInfosView {
        self.deep_view()
    }

    fn same_key(&self, other: &Self) -> (r: bool) {
        self.id == other.id
    }
}

impl OwnedRecord for LicensingInfos {
    open spec fn owner_of(data: LicensingInfosView) -> u128 {
        data.sbom_id
    }

    fn owned_by(&self, sbom_id: u128) -> (r: bool) {
        self.sbom_id == sbom_id
    }
}

} // verus!
