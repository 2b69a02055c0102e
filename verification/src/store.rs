//! The relational store as a value: every table that a license report reads
//! and that ingestion writes.
//!
//! Writes are first-write-wins: a record whose key is taken is dropped
//! without an error, so that ingesting a document again changes nothing.

use vstd::prelude::*;
use crate::entity::sbom_package_license::{LicenseCategory, Model, ModelView};
use crate::entity::{
    License, LicenseView, LicensingInfos, LicensingInfosView, QualifiedPurl, QualifiedPurlView,
    Sbom, SbomNode, SbomNodeView, SbomPackage, SbomPackageCpeRef, SbomPackageCpeRefView,
    SbomPackagePurlRef, SbomPackagePurlRefView, SbomPackageView, SbomView,
};
use crate::license::model::sbom_license::{Cpe, CpeView};
use crate::table::{distinct_keys, lemma_without, upsert, without, Table};

verus! {

/// The tables of the store.
pub struct Store {
    pub sboms: Table<Sbom>,
    pub nodes: Table<SbomNode>,
    pub packages: Table<SbomPackage>,
    pub package_licenses: Table<Model>,
    pub licenses: Table<License>,
    pub purl_refs: Table<SbomPackagePurlRef>,
    pub qualified_purls: Table<QualifiedPurl>,
    pub cpe_refs: Table<SbomPackageCpeRef>,
    pub cpes: Table<Cpe>,
    pub licensing_infos: Table<LicensingInfos>,
}

/// What a [`Store`] holds: the records of each table, in the order of their
/// arrival.
pub ghost struct StoreView {
    pub sboms: Seq<SbomView>,
    pub nodes: Seq<SbomNodeView>,
    pub packages: Seq<SbomPackageView>,
    pub package_licenses: Seq<ModelView>,
    pub licenses: Seq<LicenseView>,
    pub purl_refs: Seq<SbomPackagePurlRefView>,
    pub qualified_purls: Seq<QualifiedPurlView>,
    pub cpe_refs: Seq<SbomPackageCpeRefView>,
    pub cpes: Seq<CpeView>,
    pub licensing_infos: Seq<LicensingInfosView>,
}

impl StoreView {
    /// Whether every table has distinct keys. An empty store has, and writing
    /// keeps it so.
    pub open spec fn wf(self) -> bool {
        &&& distinct_keys(self.sboms)
        &&& distinct_keys(self.nodes)
        &&& distinct_keys(self.packages)
        &&& distinct_keys(self.package_licenses)
        &&& distinct_keys(self.licenses)
        &&& distinct_keys(self.purl_refs)
        &&& distinct_keys(self.qualified_purls)
        &&& distinct_keys(self.cpe_refs)
        &&& distinct_keys(self.cpes)
        &&& distinct_keys(self.licensing_infos)
    }
}

impl StoreView {
    /// The store without the document `sbom_id` and without every record
    /// that belongs to it: its nodes, its packages, their references, its
    /// license assertions and its license texts. Licenses, package URLs and
    /// platform identifiers belong to no document and stay.
    pub open spec fn without_sbom(self, sbom_id: u128) -> StoreView {
        StoreView {
            sboms: without::<Sbom>(self.sboms, sbom_id),
            nodes: without::<SbomNode>(self.nodes, sbom_id),
            packages: without::<SbomPackage>(self.packages, sbom_id),
            package_licenses: without::<Model>(self.package_licenses, sbom_id),
            purl_refs: without::<SbomPackagePurlRef>(self.purl_refs, sbom_id),
            cpe_refs: without::<SbomPackageCpeRef>(self.cpe_refs, sbom_id),
            licensing_infos: without::<LicensingInfos>(self.licensing_infos, sbom_id),
            ..self
        }
    }
}

/// Once a document is deleted, the store holds no license assertion and no
/// license text of it, nor the document itself, and what it holds of other
/// documents it held before.
pub proof fn lemma_delete_cascades(store: StoreView, sbom_id: u128)
    ensures
        forall|i: int|
            0 <= i < store.without_sbom(sbom_id).sboms.len() ==> (
            #[trigger] store.without_sbom(sbom_id).sboms[i]).sbom_id != sbom_id,
        forall|i: int|
            0 <= i < store.without_sbom(sbom_id).package_licenses.len() ==> (
            #[trigger] store.without_sbom(sbom_id).package_licenses[i]).sbom_id != sbom_id,
        forall|i: int|
            0 <= i < store.without_sbom(sbom_id).licensing_infos.len() ==> (
            #[trigger] store.without_sbom(sbom_id).licensing_infos[i]).sbom_id != sbom_id,
        store.without_sbom(sbom_id).package_licenses.len() <= store.package_licenses.len(),
        store.without_sbom(sbom_id).licensing_infos.len() <= store.licensing_infos.len(),
        store.wf() ==> store.without_sbom(sbom_id).wf(),
{
    lemma_without::<Sbom>(store.sboms, sbom_id, store.sboms.len());
    lemma_without::<SbomNode>(store.nodes, sbom_id, store.nodes.len());
    lemma_without::<SbomPackage>(store.packages, sbom_id, store.packages.len());
    lemma_without::<Model>(store.package_licenses, sbom_id, store.package_licenses.len());
    lemma_without::<SbomPackagePurlRef>(store.purl_refs, sbom_id, store.purl_refs.len());
    lemma_without::<SbomPackageCpeRef>(store.cpe_refs, sbom_id, store.cpe_refs.len());
    lemma_without::<LicensingInfos>(store.licensing_infos, sbom_id, store.licensing_infos.len());
}

impl View for Store {
    type V = StoreView;

    open spec fn view(&self) -> StoreView {
        StoreView {
            sboms: self.sboms@,
            nodes: self.nodes@,
            packages: self.packages@,
            package_licenses: self.package_licenses@,
            licenses: self.licenses@,
            purl_refs: self.purl_refs@,
            qualified_purls: self.qualified_purls@,
            cpe_refs: self.cpe_refs@,
            cpes: self.cpes@,
            licensing_infos: self.licensing_infos@,
        }
    }
}

impl Store {
    /// Whether every table has distinct keys.
    pub open spec fn wf(&self) -> bool {
        self@.wf()
    }

    /// A store with empty tables.
    pub fn new() -> (s: Self)
        ensures
            s.wf(),
            s@ == (StoreView {
                sboms: Seq::empty(),
                nodes: Seq::empty(),
                packages: Seq::empty(),
                package_licenses: Seq::empty(),
                licenses: Seq::empty(),
                purl_refs: Seq::empty(),
                qualified_purls: Seq::empty(),
                cpe_refs: Seq::empty(),
                cpes: Seq::empty(),
                licensing_infos: Seq::empty(),
            }),
    {
        Store {
            sboms: Table::new(),
            nodes: Table::new(),
            packages: Table::new(),
            package_licenses: Table::new(),
            licenses: Table::new(),
            purl_refs: Table::new(),
            qualified_purls: Table::new(),
            cpe_refs: Table::new(),
            cpes: Table::new(),
            licensing_infos: Table::new(),
        }
    }

    /// Records that, in a document, a package carries a license in a
    /// category. Recording the same assertion again changes nothing.
    pub fn record_license_assertion(
        &mut self,
        sbom_id: u128,
        node_id: String,
        license_id: u128,
        category: LicenseCategory,
    )
        ensures
            final(self)@ == (StoreView {
                package_licenses: upsert(
                    old(self)@.package_licenses,
                    ModelView { sbom_id, node_id: node_id@, license_id, license_type: category },
                ),
                ..old(self)@
            }),
            old(self).wf() ==> final(self).wf(),
    {
        let record = Model { sbom_id, node_id, license_id, license_type: category };
        self.package_licenses.insert(record);
    }

    /// Records a license text that a document defines for itself. Where a
    /// text with the same identity is stored already, that one stays as it is
    /// and this one is dropped.
    pub fn record_licensing_info(&mut self, info: LicensingInfos)
        ensures
            final(self)@ == (StoreView {
                licensing_infos: upsert(old(self)@.licensing_infos, info.deep_view()),
                ..old(self)@
            }),
            old(self).wf() ==> final(self).wf(),
    {
        self.licensing_infos.insert(info);
    }

    /// Deletes a document and, with it, every record that belongs to it.
    pub fn delete_sbom(&mut self, sbom_id: u128)
        ensures
            final(self)@ == old(self)@.without_sbom(sbom_id),
            old(self).wf() ==> final(self).wf(),
    {
        self.sboms.delete_owned(sbom_id);
        self.nodes.delete_owned(sbom_id);
        self.packages.delete_owned(sbom_id);
        self.package_licenses.delete_owned(sbom_id);
        self.purl_refs.delete_owned(sbom_id);
        self.cpe_refs.delete_owned(sbom_id);
        self.licensing_infos.delete_owned(sbom_id);
    }
}

} // verus!
