//! Assembling and rendering license reports.

pub mod license_export;
pub mod spdx;

use vstd::prelude::*;
use crate::csv::{encoded_record, record_count};
use crate::entity::sbom_package_license::LicenseCategory;
use crate::entity::{
    License, LicensingInfosView, QualifiedPurl, Sbom, SbomNode, SbomPackage, SbomPackageView,
    SbomView,
};
use crate::id::{Id, IdView};
use crate::ingestor::licensing_info::{
    lemma_licensing_infos_written_twice, licensing_infos_written,
};
use crate::ingestor::package::{
    lemma_packages_written_twice, packages_written, PackageCreatorView,
};
use crate::license::model::sbom_license::{
    Cpe, CpeView, ExtractedLicensingInfos, ExtractedLicensingInfosView, Purl,
    SbomNameGroupVersion, SbomNameGroupVersionView, SbomPackageLicense, SbomPackageLicenseBase,
    SbomPackageLicenseBaseView, SbomPackageLicenseView,
};
use crate::license::service::license_export::{
    lemma_license_ref_record_count, lemma_no_licenses_titles_only, license_ref_csv,
    sbom_licenses_csv, sbom_licenses_header,
};
use crate::store::{Store, StoreView};
use crate::table::{distinct_keys, first_with_key, Keyed};
use crate::text::clone_optional;

verus! {

/// The first position at or after `from` of a document that `id` names.
pub open spec fn first_named(sboms: Seq<SbomView>, id: IdView, from: int) -> Option<int>
    decreases sboms.len() - from,
{
    if from < 0 || from >= sboms.len() {
        None
    } else if id.names(sboms[from]) {
        Some(from)
    } else {
        first_named(sboms, id, from + 1)
    }
}

/// The identity of a stored document.
pub open spec fn identity_of(sbom: SbomView) -> SbomNameGroupVersionView {
    SbomNameGroupVersionView {
        sbom_namespace: sbom.document_id,
        sbom_name: sbom.name,
        sbom_group: sbom.group,
        sbom_version: sbom.version,
    }
}

/// The declared licenses of one package, as far as the first `n` license
/// assertions of the store give them: one row for each assertion that is
/// about this package, declares the license, and names a stored license.
pub open spec fn declared_licenses_within(
    store: StoreView,
    sbom: SbomView,
    package: SbomPackageView,
    name: Seq<char>,
    n: nat,
) -> Seq<SbomPackageLicenseBaseView>
    decreases n,
{
    if n == 0 {
        Seq::empty()
    } else {
        let before = declared_licenses_within(store, sbom, package, name, (n - 1) as nat);
        let assertion = store.package_licenses[n - 1];
        if assertion.sbom_id == sbom.sbom_id && assertion.node_id == package.node_id
            && assertion.license_type == LicenseCategory::Declared {
            match first_with_key(store.licenses, assertion.license_id, 0) {
                Some(l) => before.push(
                    SbomPackageLicenseBaseView {
                        node_id: Some(package.node_id),
                        sbom_id: sbom.sbom_id,
                        sbom_namespace: sbom.document_id,
                        package_name: name,
                        group: package.group,
                        version: package.version,
                        license_text: Some(store.licenses[l].text),
                    },
                ),
                None => before,
            }
        } else {
            before
        }
    }
}

/// The packages of a document with their declared licenses, as far as the
/// first `n` packages of the store give them: for each package of the
/// document that has a node, its declared licenses.
pub open spec fn package_licenses_within(store: StoreView, sbom: SbomView, n: nat) -> Seq<
    SbomPackageLicenseBaseView,
>
    decreases n,
{
    if n == 0 {
        Seq::empty()
    } else {
        let before = package_licenses_within(store, sbom, (n - 1) as nat);
        let package = store.packages[n - 1];
        if package.sbom_id == sbom.sbom_id {
            match first_with_key(store.nodes, (package.sbom_id, package.node_id), 0) {
                Some(node) => before + declared_licenses_within(
                    store,
                    sbom,
                    package,
                    store.nodes[node].name,
                    store.package_licenses.len(),
                ),
                None => before,
            }
        } else {
            before
        }
    }
}

/// The packages of a document with their declared licenses: one row for each
/// pair of a package and a license that the document declares for it.
pub open spec fn package_licenses_of(store: StoreView, sbom: SbomView) -> Seq<
    SbomPackageLicenseBaseView,
> {
    package_licenses_within(store, sbom, store.packages.len())
}

/// The package URLs of a node, as far as the first `n` references of the
/// store give them. A row without a node has none.
pub open spec fn purls_within(
    store: StoreView,
    sbom_id: u128,
    node_id: Option<Seq<char>>,
    n: nat,
) -> Seq<Seq<char>>
    decreases n,
{
    if n == 0 {
        Seq::empty()
    } else {
        let before = purls_within(store, sbom_id, node_id, (n - 1) as nat);
        let reference = store.purl_refs[n - 1];
        if reference.sbom_id == sbom_id && node_id == Some(reference.node_id) {
            match first_with_key(store.qualified_purls, reference.qualified_purl_id, 0) {
                Some(p) => before.push(store.qualified_purls[p].purl),
                None => before,
            }
        } else {
            before
        }
    }
}

/// The platform identifiers of a node, as far as the first `n` references of
/// the store give them. A row without a node has none.
pub open spec fn cpes_within(
    store: StoreView,
    sbom_id: u128,
    node_id: Option<Seq<char>>,
    n: nat,
) -> Seq<CpeView>
    decreases n,
{
    if n == 0 {
        Seq::empty()
    } else {
        let before = cpes_within(store, sbom_id, node_id, (n - 1) as nat);
        let reference = store.cpe_refs[n - 1];
        if reference.sbom_id == sbom_id && node_id == Some(reference.node_id) {
            match first_with_key(store.cpes, reference.cpe_id, 0) {
                Some(c) => before.push(store.cpes[c]),
                None => before,
            }
        } else {
            before
        }
    }
}

/// A row with every package URL and every platform identifier of its package.
pub open spec fn with_references(
    store: StoreView,
    row: SbomPackageLicenseBaseView,
) -> SbomPackageLicenseView {
    SbomPackageLicenseView {
        sbom_namespace: row.sbom_namespace,
        name: row.package_name,
        group: row.group,
        version: row.version,
        purl: purls_within(store, row.sbom_id, row.node_id, store.purl_refs.len()),
        other_reference: cpes_within(store, row.sbom_id, row.node_id, store.cpe_refs.len()),
        license_text: row.license_text,
    }
}

/// The rows with their references, row by row: nothing is merged and nothing
/// is dropped.
pub open spec fn aggregated(store: StoreView, rows: Seq<SbomPackageLicenseBaseView>) -> Seq<
    SbomPackageLicenseView,
> {
    Seq::new(rows.len(), |i: int| with_references(store, rows[i]))
}

/// The license texts of a document, as far as the first `n` stored texts give
/// them.
pub open spec fn licensing_infos_within(store: StoreView, sbom_id: u128, n: nat) -> Seq<
    ExtractedLicensingInfosView,
>
    decreases n,
{
    if n == 0 {
        Seq::empty()
    } else {
        let before = licensing_infos_within(store, sbom_id, (n - 1) as nat);
        let info = store.licensing_infos[n - 1];
        if info.sbom_id == sbom_id {
            before.push(
                ExtractedLicensingInfosView {
                    license_id: info.license_id,
                    name: info.name,
                    extracted_text: info.extracted_text,
                    comment: info.comment,
                },
            )
        } else {
            before
        }
    }
}

/// The license texts that a document defines for itself.
pub open spec fn licensing_infos_of(store: StoreView, sbom_id: u128) -> Seq<
    ExtractedLicensingInfosView,
> {
    licensing_infos_within(store, sbom_id, store.licensing_infos.len())
}

/// What a license report is made from.
pub ghost struct LicenseExport {
    /// The packages of the document with their declared licenses and their
    /// references.
    pub packages: Seq<SbomPackageLicenseView>,
    /// The license texts that the document defines for itself.
    pub licensing_infos: Seq<ExtractedLicensingInfosView>,
    /// The identity of the document, where the identifier names one.
    pub sbom: Option<SbomNameGroupVersionView>,
}

/// What the store holds for a report on the document that `id` names. Where
/// `id` names no stored document there is no identity and both lists are
/// empty.
pub open spec fn license_export_of(store: StoreView, id: IdView) -> LicenseExport {
    match first_named(store.sboms, id, 0) {
        Some(i) => {
            let sbom = store.sboms[i];
            LicenseExport {
                packages: aggregated(store, package_licenses_of(store, sbom)),
                licensing_infos: licensing_infos_of(store, sbom.sbom_id),
                sbom: Some(identity_of(sbom)),
            }
        },
        None => LicenseExport {
            packages: Seq::empty(),
            licensing_infos: Seq::empty(),
            sbom: None,
        },
    }
}

/// A document for which the store holds no declared license has no row of
/// packages and licenses, whatever else the store holds.
pub proof fn lemma_no_declared_license_no_row(store: StoreView, sbom: SbomView)
    requires
        forall|i: int|
            0 <= i < store.package_licenses.len() ==> !({
                &&& (#[trigger] store.package_licenses[i]).sbom_id == sbom.sbom_id
                &&& store.package_licenses[i].license_type == LicenseCategory::Declared
            }),
    ensures
        package_licenses_of(store, sbom) == Seq::<SbomPackageLicenseBaseView>::empty(),
        aggregated(store, package_licenses_of(store, sbom)) == Seq::<
            SbomPackageLicenseView,
        >::empty(),
{
    lemma_no_declared_license_within(store, sbom, store.packages.len());
    assert(aggregated(store, Seq::<SbomPackageLicenseBaseView>::empty()) =~= Seq::<
        SbomPackageLicenseView,
    >::empty());
}

proof fn lemma_no_declared_license_within(store: StoreView, sbom: SbomView, n: nat)
    requires
        forall|i: int|
            0 <= i < store.package_licenses.len() ==> !({
                &&& (#[trigger] store.package_licenses[i]).sbom_id == sbom.sbom_id
                &&& store.package_licenses[i].license_type == LicenseCategory::Declared
            }),
        n <= store.packages.len(),
    ensures
        package_licenses_within(store, sbom, n) == Seq::<SbomPackageLicenseBaseView>::empty(),
    decreases n,
{
    if n > 0 {
        lemma_no_declared_license_within(store, sbom, (n - 1) as nat);
        let package = store.packages[n - 1];
        if package.sbom_id == sbom.sbom_id {
            match first_with_key(store.nodes, (package.sbom_id, package.node_id), 0) {
                Some(node) => {
                    lemma_no_declared_license_for(
                        store,
                        sbom,
                        package,
                        store.nodes[node].name,
                        store.package_licenses.len(),
                    );
                },
                None => {},
            }
        }
    }
}

proof fn lemma_no_declared_license_for(
    store: StoreView,
    sbom: SbomView,
    package: SbomPackageView,
    name: Seq<char>,
    n: nat,
)
    requires
        forall|i: int|
            0 <= i < store.package_licenses.len() ==> !({
                &&& (#[trigger] store.package_licenses[i]).sbom_id == sbom.sbom_id
                &&& store.package_licenses[i].license_type == LicenseCategory::Declared
            }),
        n <= store.package_licenses.len(),
    ensures
        declared_licenses_within(store, sbom, package, name, n) == Seq::<
            SbomPackageLicenseBaseView,
        >::empty(),
    decreases n,
{
    if n > 0 {
        lemma_no_declared_license_for(store, sbom, package, name, (n - 1) as nat);
        let assertion = store.package_licenses[n - 1];
        assert(!(assertion.sbom_id == sbom.sbom_id && assertion.license_type
            == LicenseCategory::Declared));
    }
}

/// The identities of the license texts that the store holds for a document.
pub open spec fn licensing_info_ids(store: StoreView, sbom_id: u128) -> Set<u128> {
    Set::new(
        |id: u128|
            exists|i: int|
                0 <= i < store.licensing_infos.len() && (#[trigger] store.licensing_infos[i]).id
                    == id && store.licensing_infos[i].sbom_id == sbom_id,
    )
}

/// A report lists each license text that the store holds for the document
/// exactly once: it has as many license texts as there are distinct
/// identities of license texts of that document in the store.
pub proof fn lemma_one_row_for_each_licensing_info(store: StoreView, sbom_id: u128)
    requires
        distinct_keys(store.licensing_infos),
    ensures
        licensing_info_ids(store, sbom_id).finite(),
        licensing_infos_of(store, sbom_id).len() == licensing_info_ids(store, sbom_id).len(),
{
    let n = store.licensing_infos.len();
    lemma_licensing_infos_counted(store, sbom_id, n);
}

spec fn licensing_info_ids_within(store: StoreView, sbom_id: u128, n: nat) -> Set<u128> {
    Set::new(
        |id: u128|
            exists|i: int|
                0 <= i < n && (#[trigger] store.licensing_infos[i]).id == id
                    && store.licensing_infos[i].sbom_id == sbom_id,
    )
}

proof fn lemma_licensing_infos_counted(store: StoreView, sbom_id: u128, n: nat)
    requires
        distinct_keys(store.licensing_infos),
        n <= store.licensing_infos.len(),
    ensures
        licensing_info_ids_within(store, sbom_id, n).finite(),
        licensing_infos_within(store, sbom_id, n).len() == licensing_info_ids_within(
            store,
            sbom_id,
            n,
        ).len(),
    decreases n,
{
    let now = licensing_info_ids_within(store, sbom_id, n);
    if n == 0 {
        assert(now =~= Set::<u128>::empty());
    } else {
        let before = licensing_info_ids_within(store, sbom_id, (n - 1) as nat);
        lemma_licensing_infos_counted(store, sbom_id, (n - 1) as nat);
        let info = store.licensing_infos[n - 1];
        if info.sbom_id == sbom_id {
            assert(!before.contains(info.id));
            assert(now =~= before.insert(info.id)) by {
                assert forall|id: u128| now.contains(id) <==> before.insert(info.id).contains(
                    id,
                ) by {}
            }
        } else {
            assert(now =~= before) by {
                assert forall|id: u128| now.contains(id) <==> before.contains(id) by {}
            }
        }
    }
}

/// The rows of one package carry the same references, whichever license they
/// are about: a package with several declared licenses is reported once for
/// each license, each time with all of its package URLs and platform
/// identifiers.
pub proof fn lemma_rows_of_a_package_share_references(
    store: StoreView,
    a: SbomPackageLicenseBaseView,
    b: SbomPackageLicenseBaseView,
)
    requires
        a.sbom_id == b.sbom_id,
        a.node_id == b.node_id,
    ensures
        with_references(store, a).purl == with_references(store, b).purl,
        with_references(store, a).other_reference == with_references(store, b).other_reference,
        with_references(store, a).license_text == a.license_text,
        with_references(store, b).license_text == b.license_text,
{
}

/// For a stored document without declared licenses the file of packages and
/// licenses of its report holds the line of titles and nothing else, and a
/// reader finds exactly one record in it.
pub proof fn lemma_report_without_declared_licenses(store: StoreView, id: IdView)
    requires
        first_named(store.sboms, id, 0) is Some,
        forall|i: int|
            0 <= i < store.package_licenses.len() ==> !({
                &&& (#[trigger] store.package_licenses[i]).sbom_id
                    == store.sboms[first_named(store.sboms, id, 0).unwrap()].sbom_id
                &&& store.package_licenses[i].license_type == LicenseCategory::Declared
            }),
    ensures
        license_export_of(store, id).sbom is Some,
        license_export_of(store, id).packages.len() == 0,
        sbom_licenses_csv(
            license_export_of(store, id).sbom.unwrap(),
            license_export_of(store, id).packages,
        ) == encoded_record(sbom_licenses_header()),
        record_count(
            sbom_licenses_csv(
                license_export_of(store, id).sbom.unwrap(),
                license_export_of(store, id).packages,
            ),
        ) == 1,
{
    let sbom = store.sboms[first_named(store.sboms, id, 0).unwrap()];
    lemma_no_declared_license_no_row(store, sbom);
    lemma_no_licenses_titles_only(identity_of(sbom));
}

/// The file of license texts of a report holds, after the line of titles,
/// exactly one record for each license text that the store holds for the
/// document: as many as there are distinct identities of such texts, no more
/// and no fewer.
pub proof fn lemma_report_lists_each_licensing_info_once(store: StoreView, id: IdView)
    requires
        distinct_keys(store.licensing_infos),
        first_named(store.sboms, id, 0) is Some,
    ensures
        licensing_info_ids(
            store,
            store.sboms[first_named(store.sboms, id, 0).unwrap()].sbom_id,
        ).finite(),
        record_count(license_ref_csv(license_export_of(store, id).licensing_infos)) == 1
            + licensing_info_ids(
            store,
            store.sboms[first_named(store.sboms, id, 0).unwrap()].sbom_id,
        ).len(),
{
    let sbom = store.sboms[first_named(store.sboms, id, 0).unwrap()];
    lemma_one_row_for_each_licensing_info(store, sbom.sbom_id);
    lemma_license_ref_record_count(license_export_of(store, id).licensing_infos);
}

/// Ingesting a document a second time changes no report: what the store
/// holds for any identifier after the second time is what it held after the
/// first.
pub proof fn lemma_reingestion_keeps_reports(
    store: StoreView,
    packages: PackageCreatorView,
    licensing_infos: Seq<LicensingInfosView>,
    id: IdView,
)
    ensures
        license_export_of(
            licensing_infos_written(
                packages_written(
                    licensing_infos_written(packages_written(store, packages), licensing_infos),
                    packages,
                ),
                licensing_infos,
            ),
            id,
        ) == license_export_of(
            licensing_infos_written(packages_written(store, packages), licensing_infos),
            id,
        ),
{
    let once = licensing_infos_written(packages_written(store, packages), licensing_infos);
    lemma_packages_written_twice(store, packages);
    lemma_licensing_infos_written_twice(packages_written(store, packages), licensing_infos);
    assert(packages_written(once, packages) == once);
}

/// The service that assembles license reports from the store.
pub struct LicenseService {}

impl LicenseService {
    /// A service.
    pub fn new() -> Self {
        LicenseService {  }
    }

    /// Finds the document that `id` names: the first such document of the
    /// store.
    pub fn find_sbom(&self, id: &Id, store: &Store) -> (r: Option<usize>)
        ensures
            match r {
                Some(i) => first_named(store@.sboms, id.deep_view(), 0) == Some(i as int) && i
                    < store.sboms@.len(),
                None => first_named(store@.sboms, id.deep_view(), 0) is None,
            },
    {
        let mut i: usize = 0;
        while i < store.sboms.len()
            invariant
                i <= store.sboms@.len(),
                first_named(store@.sboms, id.deep_view(), 0) == first_named(
                    store@.sboms,
                    id.deep_view(),
                    i as int,
                ),
            decreases store.sboms@.len() - i,
        {
            if id.matches(store.sboms.get(i)) {
                return Some(i);
            }
            i += 1;
        }
        None
    }

    fn declared_licenses(
        &self,
        store: &Store,
        sbom: &Sbom,
        package: &SbomPackage,
        name: &String,
        rows: &mut Vec<SbomPackageLicenseBase>,
    )
        ensures
            final(rows).deep_view() == old(rows).deep_view() + declared_licenses_within(
                store@,
                sbom.deep_view(),
                package.deep_view(),
                name@,
                store.package_licenses@.len(),
            ),
    {
        let mut j: usize = 0;
        assert(rows.deep_view() =~= old(rows).deep_view() + declared_licenses_within(
            store@,
            sbom.deep_view(),
            package.deep_view(),
            name@,
            0,
        ));
        while j < store.package_licenses.len()
            invariant
                j <= store.package_licenses@.len(),
                rows.deep_view() == old(rows).deep_view() + declared_licenses_within(
                    store@,
                    sbom.deep_view(),
                    package.deep_view(),
                    name@,
                    j as nat,
                ),
            decreases store.package_licenses@.len() - j,
        {
            let assertion = store.package_licenses.get(j);
            let ghost before = rows.deep_view();
            if assertion.sbom_id == sbom.sbom_id && assertion.node_id == package.node_id
                && assertion.license_type == LicenseCategory::Declared {
                let probe = License { id: assertion.license_id, text: String::new() };
                match store.licenses.position(&probe) {
                    Some(l) => {
                        let row = SbomPackageLicenseBase {
                            node_id: Some(package.node_id.clone()),
                            sbom_id: sbom.sbom_id,
                            sbom_namespace: sbom.document_id.clone(),
                            package_name: name.clone(),
                            group: clone_optional(&package.group),
                            version: clone_optional(&package.version),
                            license_text: Some(store.licenses.get(l).text.clone()),
                        };
                        rows.push(row);
                        assert(rows.deep_view() =~= before.push(row.deep_view()));
                    },
                    None => {},
                }
            }
            assert(rows.deep_view() =~= old(rows).deep_view() + declared_licenses_within(
                store@,
                sbom.deep_view(),
                package.deep_view(),
                name@,
                (j + 1) as nat,
            ));
            j += 1;
        }
    }

    /// The packages of a document with their declared licenses: one row for
    /// each pair of a package and a license that the document declares for it.
    pub fn package_licenses(&self, store: &Store, sbom: &Sbom) -> (rows: Vec<
        SbomPackageLicenseBase,
    >)
        ensures
            rows.deep_view() == package_licenses_of(store@, sbom.deep_view()),
    {
        let mut rows: Vec<SbomPackageLicenseBase> = Vec::new();
        let mut i: usize = 0;
        while i < store.packages.len()
            invariant
                i <= store.packages@.len(),
                rows.deep_view() == package_licenses_within(store@, sbom.deep_view(), i as nat),
            decreases store.packages@.len() - i,
        {
            let package = store.packages.get(i);
            if package.sbom_id == sbom.sbom_id {
                let probe = SbomNode {
                    sbom_id: package.sbom_id,
                    node_id: package.node_id.clone(),
                    name: String::new(),
                };
                match store.nodes.position(&probe) {
                    Some(node) => {
                        self.declared_licenses(
                            store,
                            sbom,
                            package,
                            &store.nodes.get(node).name,
                            &mut rows,
                        );
                    },
                    None => {},
                }
            }
            i += 1;
        }
        rows
    }

    /// The package URLs of a node of a document, in the order of the store.
    pub fn purls(&self, store: &Store, sbom_id: u128, node_id: &Option<String>) -> (purls: Vec<
        Purl,
    >)
        ensures
            purls.deep_view() == purls_within(
                store@,
                sbom_id,
                node_id.deep_view(),
                store.purl_refs@.len(),
            ),
    {
        let mut purls: Vec<Purl> = Vec::new();
        let mut i: usize = 0;
        while i < store.purl_refs.len()
            invariant
                i <= store.purl_refs@.len(),
                purls.deep_view() == purls_within(store@, sbom_id, node_id.deep_view(), i as nat),
            decreases store.purl_refs@.len() - i,
        {
            let reference = store.purl_refs.get(i);
            let same_node = match node_id {
                Some(n) => reference.node_id == *n,
                None => false,
            };
            if reference.sbom_id == sbom_id && same_node {
                let probe = QualifiedPurl { id: reference.qualified_purl_id, purl: String::new() };
                match store.qualified_purls.position(&probe) {
                    Some(p) => {
                        let purl = Purl { purl: store.qualified_purls.get(p).purl.clone() };
                        purls.push(purl);
                    },
                    None => {},
                }
            }
            i += 1;
        }
        purls
    }

    /// The platform identifiers of a node of a document, in the order of the
    /// store.
    pub fn cpes(&self, store: &Store, sbom_id: u128, node_id: &Option<String>) -> (cpes: Vec<Cpe>)
        ensures
            cpes.deep_view() == cpes_within(
                store@,
                sbom_id,
                node_id.deep_view(),
                store.cpe_refs@.len(),
            ),
    {
        let mut cpes: Vec<Cpe> = Vec::new();
        let mut i: usize = 0;
        while i < store.cpe_refs.len()
            invariant
                i <= store.cpe_refs@.len(),
                cpes.deep_view() == cpes_within(store@, sbom_id, node_id.deep_view(), i as nat),
            decreases store.cpe_refs@.len() - i,
        {
            let reference = store.cpe_refs.get(i);
            let same_node = match node_id {
                Some(n) => reference.node_id == *n,
                None => false,
            };
            if reference.sbom_id == sbom_id && same_node {
                let probe = Cpe {
                    id: reference.cpe_id,
                    part: None,
                    vendor: None,
                    product: None,
                    version: None,
                    update: None,
                    edition: None,
                    language: None,
                };
                match store.cpes.position(&probe) {
                    Some(c) => {
                        let found = store.cpes.get(c);
                        let cpe = Cpe {
                            id: found.id,
                            part: clone_optional(&found.part),
                            vendor: clone_optional(&found.vendor),
                            product: clone_optional(&found.product),
                            version: clone_optional(&found.version),
                            update: clone_optional(&found.update),
                            edition: clone_optional(&found.edition),
                            language: clone_optional(&found.language),
                        };
                        cpes.push(cpe);
                    },
                    None => {},
                }
            }
            i += 1;
        }
        cpes
    }

    /// The license texts that a document defines for itself, in the order of
    /// the store.
    pub fn licensing_infos(&self, store: &Store, sbom_id: u128) -> (infos: Vec<
        ExtractedLicensingInfos,
    >)
        ensures
            infos.deep_view() == licensing_infos_of(store@, sbom_id),
    {
        let mut infos: Vec<ExtractedLicensingInfos> = Vec::new();
        let mut i: usize = 0;
        while i < store.licensing_infos.len()
            invariant
                i <= store.licensing_infos@.len(),
                infos.deep_view() == licensing_infos_within(store@, sbom_id, i as nat),
            decreases store.licensing_infos@.len() - i,
        {
            let stored = store.licensing_infos.get(i);
            if stored.sbom_id == sbom_id {
                let info = ExtractedLicensingInfos {
                    license_id: stored.license_id.clone(),
                    name: stored.name.clone(),
                    extracted_text: stored.extracted_text.clone(),
                    comment: stored.comment.clone(),
                };
                infos.push(info);
            }
            i += 1;
        }
        infos
    }

    /// Collects what a report on the document that `id` names is made from:
    /// its packages with their declared licenses and references, the license
    /// texts that it defines, and its identity.
    ///
    /// Where `id` names no stored document, the identity is `None` and both
    /// lists are empty. A document without declared licenses gives an empty
    /// list of packages.
    pub fn license_export(&self, id: &Id, store: &Store) -> (r: (
        Vec<SbomPackageLicense>,
        Vec<ExtractedLicensingInfos>,
        Option<SbomNameGroupVersion>,
    ))
        ensures
            r.0.deep_view() == license_export_of(store@, id.deep_view()).packages,
            r.1.deep_view() == license_export_of(store@, id.deep_view()).licensing_infos,
            r.2.deep_view() == license_export_of(store@, id.deep_view()).sbom,
    {
        let mut sbom_package_list: Vec<SbomPackageLicense> = Vec::new();
        match self.find_sbom(id, store) {
            None => {
                let license_info_list: Vec<ExtractedLicensingInfos> = Vec::new();
                assert(license_info_list.deep_view() =~= Seq::<
                    ExtractedLicensingInfosView,
                >::empty());
                (sbom_package_list, license_info_list, None)
            },
            Some(found) => {
                let sbom = store.sboms.get(found);
                let name_version_group = SbomNameGroupVersion {
                    sbom_namespace: sbom.document_id.clone(),
                    sbom_name: sbom.name.clone(),
                    sbom_group: clone_optional(&sbom.group),
                    sbom_version: sbom.version.clone(),
                };
                let package_license = self.package_licenses(store, sbom);
                let ghost rows = package_license.deep_view();
                let mut i: usize = 0;
                while i < package_license.len()
                    invariant
                        i <= package_license.len(),
                        rows == package_license.deep_view(),
                        rows.len() == package_license.len(),
                        sbom_package_list.deep_view() == aggregated(store@, rows.take(i as int)),
                    decreases package_license.len() - i,
                {
                    let spl = &package_license[i];
                    let ghost before = sbom_package_list.deep_view();
                    let entry = SbomPackageLicense {
                        sbom_namespace: spl.sbom_namespace.clone(),
                        name: spl.package_name.clone(),
                        group: clone_optional(&spl.group),
                        version: clone_optional(&spl.version),
                        purl: self.purls(store, spl.sbom_id, &spl.node_id),
                        other_reference: self.cpes(store, spl.sbom_id, &spl.node_id),
                        license_text: clone_optional(&spl.license_text),
                    };
                    sbom_package_list.push(entry);
                    proof {
                        assert(sbom_package_list.deep_view() =~= before.push(entry.deep_view()));
                        assert(sbom_package_list.deep_view() =~= aggregated(
                            store@,
                            rows.take(i + 1),
                        ));
                    }
                    i += 1;
                }
                let license_info_list = self.licensing_infos(store, sbom.sbom_id);
                (sbom_package_list, license_info_list, Some(name_version_group))
            },
        }
    }
}

} // verus!
