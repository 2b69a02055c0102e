//! The rows of a license report and the identity of the document that it is
//! about.

use vstd::prelude::*;

verus! {

/// A package URL in its canonical text form.
#[derive(Debug, Clone)]
pub struct Purl {
    pub purl: String,
}

impl DeepView for Purl {
    type V = Seq<char>;

    open spec fn deep_view(&self) -> Seq<char> {
        self.purl@
    }
}

/// A platform identifier, field by field.
#[derive(Debug, Clone)]
pub struct Cpe {
    pub id: u128,
    pub part: Option<String>,
    pub vendor: Option<String>,
    pub product: Option<String>,
    pub version: Option<String>,
    pub update: Option<String>,
    pub edition: Option<String>,
    pub language: Option<String>,
}

/// What a [`Cpe`] holds.
pub ghost struct CpeView {
    pub id: u128,
    pub part: Option<Seq<char>>,
    pub vendor: Option<Seq<char>>,
    pub product: Option<Seq<char>>,
    pub version: Option<Seq<char>>,
    pub update: Option<Seq<char>>,
    pub edition: Option<Seq<char>>,
    pub language: Option<Seq<char>>,
}

impl DeepView for Cpe {
    type V = CpeView;

    open spec fn deep_view(&self) -> CpeView {
        CpeView {
            id: self.id,
            part: self.part.deep_view(),
            vendor: self.vendor.deep_view(),
            product: self.product.deep_view(),
            version: self.version.deep_view(),
            update: self.update.deep_view(),
            edition: self.edition.deep_view(),
            language: self.language.deep_view(),
        }
    }
}

/// One package of a document together with one license that the document
/// declares for it, and every package URL and platform identifier that the
/// document gives the package.
#[derive(Debug, Clone)]
pub struct SbomPackageLicense {
    /// The namespace of the document.
    pub sbom_namespace: String,
    /// The name of the package.
    pub name: String,
    /// The group of the package.
    pub group: Option<String>,
    /// The version of the package.
    pub version: Option<String>,
    /// The package URLs of the package.
    pub purl: Vec<Purl>,
    /// The platform identifiers of the package.
    pub other_reference: Vec<Cpe>,
    /// The text of the license.
    pub license_text: Option<String>,
}

/// What a [`SbomPackageLicense`] holds.
pub ghost struct SbomPackageLicenseView {
    pub sbom_namespace: Seq<char>,
    pub name: Seq<char>,
    pub group: Option<Seq<char>>,
    pub version: Option<Seq<char>>,
    pub purl: Seq<Seq<char>>,
    pub other_reference: Seq<CpeView>,
    pub license_text: Option<Seq<char>>,
}

impl DeepView for SbomPackageLicense {
    type V = SbomPackageLicenseView;

    open spec fn deep_view(&self) -> SbomPackageLicenseView {
        SbomPackageLicenseView {
            sbom_namespace: self.sbom_namespace@,
            name: self.name@,
            group: self.group.deep_view(),
            version: self.version.deep_view(),
            purl: self.purl.deep_view(),
            other_reference: self.other_reference.deep_view(),
            license_text: self.license_text.deep_view(),
        }
    }
}

/// A stored document as far as a report needs it to start from.
#[derive(Debug, Clone)]
pub struct Sbom {
    pub sbom_id: u128,
    pub node_id: String,
    pub sbom_namespace: String,
}

/// One package of a document together with one license that the document
/// declares for it, before the references of the package are added.
#[derive(Debug, Clone)]
pub struct SbomPackageLicenseBase {
    pub node_id: Option<String>,
    pub sbom_id: u128,
    pub sbom_namespace: String,
    pub package_name: String,
    pub group: Option<String>,
    pub version: Option<String>,
    pub license_text: Option<String>,
}

/// What a [`SbomPackageLicenseBase`] holds.
pub ghost struct SbomPackageLicenseBaseView {
    pub node_id: Option<Seq<char>>,
    pub sbom_id: u128,
    pub sbom_namespace: Seq<char>,
    pub package_name: Seq<char>,
    pub group: Option<Seq<char>>,
    pub version: Option<Seq<char>>,
    pub license_text: Option<Seq<char>>,
}

impl DeepView for SbomPackageLicenseBase {
    type V = SbomPackageLicenseBaseView;

    open spec fn deep_view(&self) -> SbomPackageLicenseBaseView {
        SbomPackageLicenseBaseView {
            node_id: self.node_id.deep_view(),
            sbom_id: self.sbom_id,
            sbom_namespace: self.sbom_namespace@,
            package_name: self.package_name@,
            group: self.group.deep_view(),
            version: self.version.deep_view(),
            license_text: self.license_text.deep_view(),
        }
    }
}

/// The identity of a document: what labels a report and names its files.
#[derive(Debug, Clone)]
pub struct SbomNameGroupVersion {
    pub sbom_namespace: String,
    pub sbom_name: String,
    pub sbom_group: Option<String>,
    pub sbom_version: String,
}

/// What a [`SbomNameGroupVersion`] holds.
pub ghost struct SbomNameGroupVersionView {
    pub sbom_namespace: Seq<char>,
    pub sbom_name: Seq<char>,
    pub sbom_group: Option<Seq<char>>,
    pub sbom_version: Seq<char>,
}

impl DeepView for SbomNameGroupVersion {
    type V = SbomNameGroupVersionView;

    open spec fn deep_view(&self) -> SbomNameGroupVersionView {
        SbomNameGroupVersionView {
            sbom_namespace: self.sbom_namespace@,
            sbom_name: self.sbom_name@,
            sbom_group: self.sbom_group.deep_view(),
            sbom_version: self.sbom_version@,
        }
    }
}

impl Default for SbomNameGroupVersion {
    /// The identity with every text empty and no group.
    fn default() -> (r: Self)
        ensures
            r.deep_view() == (SbomNameGroupVersionView {
                sbom_namespace: Seq::empty(),
                sbom_name: Seq::empty(),
                sbom_group: None,
                sbom_version: Seq::empty(),
            }),
    {
        SbomNameGroupVersion {
            sbom_namespace: String::new(),
            sbom_name: String::new(),
            sbom_group: None,
            sbom_version: String::new(),
        }
    }
}

/// A license text that a document defines for itself, under an identifier of
/// its own.
#[derive(Debug, Clone)]
pub struct ExtractedLicensingInfos {
    pub license_id: String,
    pub name: String,
    pub extracted_text: String,
    pub comment: String,
}

/// What an [`ExtractedLicensingInfos`] holds.
pub ghost struct ExtractedLicensingInfosView {
    pub license_id: Seq<char>,
    pub name: Seq<char>,
    pub extracted_text: Seq<char>,
    pub comment: Seq<char>,
}

impl DeepView for ExtractedLicensingInfos {
    type V = ExtractedLicensingInfosView;

    open spec fn deep_view(&self) -> ExtractedLicensingInfosView {
        ExtractedLicensingInfosView {
            license_id: self.license_id@,
            name: self.name@,
            extracted_text: self.extracted_text@,
            comment: self.comment@,
        }
    }
}

} // verus!
