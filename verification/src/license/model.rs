//! The values that license reports and license lists are made of.

pub mod sbom_license;

use vstd::prelude::*;

verus! {

/// A license of the SPDX list: its identifier and its full name.
#[derive(Debug, Clone)]
pub struct SpdxLicenseSummary {
    pub id: String,
    pub name: String,
}

/// What a [`SpdxLicenseSummary`] holds.
pub ghost struct SpdxLicenseSummaryView {
    pub id: Seq<char>,
    pub name: Seq<char>,
}

impl DeepView for SpdxLicenseSummary {
    type V = SpdxLicenseSummaryView;

    open spec fn deep_view(&self) -> SpdxLicenseSummaryView {
        SpdxLicenseSummaryView { id: self.id@, name: self.name@ }
    }
}

/// A license of the SPDX list with its text.
#[derive(Debug, Clone)]
pub struct SpdxLicenseDetails {
    pub summary: SpdxLicenseSummary,
    pub text: String,
}

/// What a [`SpdxLicenseDetails`] holds.
pub ghost struct SpdxLicenseDetailsView {
    pub summary: SpdxLicenseSummaryView,
    pub text: Seq<char>,
}

impl DeepView for SpdxLicenseDetails {
    type V = SpdxLicenseDetailsView;

    open spec fn deep_view(&self) -> SpdxLicenseDetailsView {
        SpdxLicenseDetailsView { summary: self.summary.deep_view(), text: self.text@ }
    }
}

} // verus!
