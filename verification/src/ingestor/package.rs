//! The packages of a document, their references and their licenses.

use vstd::prelude::*;
use crate::entity::sbom_package_license::{LicenseCategory, Model, ModelView};
use crate::entity::{
    SbomNode, SbomNodeView, SbomPackage, SbomPackageCpeRef, SbomPackageCpeRefView,
    SbomPackagePurlRef, SbomPackagePurlRefView, SbomPackageView,
};
use crate::store::{Store, StoreView};
use crate::table::{data_of, lemma_upsert_all_idempotent, upsert_all};
use crate::text::clone_optional;

verus! {

/// What a document says of one package.
#[derive(Debug, Clone)]
pub struct NodeInfoParam {
    pub node_id: String,
    pub name: String,
    pub group: Option<String>,
    pub version: Option<String>,
    /// The identity of the license that the document declares.
    pub declared_licenses: Option<u128>,
    /// The identity of the license that the document concludes.
    pub concluded_licenses: Option<u128>,
    /// The identities of the licenses that a document lists without saying
    /// whether they are declared or concluded.
    pub cyclonedx_licenses: Option<Vec<u128>>,
}

/// What a [`NodeInfoParam`] holds.
pub ghost struct NodeInfoParamView {
    pub node_id: Seq<char>,
    pub name: Seq<char>,
    pub group: Option<Seq<char>>,
    pub version: Option<Seq<char>>,
    pub declared_licenses: Option<u128>,
    pub concluded_licenses: Option<u128>,
    pub cyclonedx_licenses: Option<Seq<u128>>,
}

impl DeepView for NodeInfoParam {
    type V = NodeInfoParamView;

    open spec fn deep_view(&self) -> NodeInfoParamView {
        NodeInfoParamView {
            node_id: self.node_id@,
            name: self.name@,
            group: self.group.deep_view(),
            version: self.version.deep_view(),
            declared_licenses: self.declared_licenses,
            concluded_licenses: self.concluded_licenses,
            cyclonedx_licenses: match self.cyclonedx_licenses {
                Some(licenses) => Some(licenses@),
                None => None,
            },
        }
    }
}

/// A name by which a package goes outside the document.
#[derive(Debug, Clone, Copy)]
pub enum PackageReference {
    /// A package URL, by the identities of its versioned and of its qualified
    /// form.
    Purl { versioned_purl: u128, qualified_purl: u128 },
    /// A platform identifier, by its identity.
    Cpe(u128),
}

/// The package-URL references that the first `n` of `refs` give a node.
pub open spec fn purl_refs_within(
    sbom_id: u128,
    node_id: Seq<char>,
    refs: Seq<PackageReference>,
    n: nat,
) -> Seq<SbomPackagePurlRefView>
    decreases n,
{
    if n == 0 {
        Seq::empty()
    } else {
        let before = purl_refs_within(sbom_id, node_id, refs, (n - 1) as nat);
        match refs[n - 1] {
            PackageReference::Purl { versioned_purl, qualified_purl } => before.push(
                SbomPackagePurlRefView { sbom_id, node_id, qualified_purl_id: qualified_purl },
            ),
            PackageReference::Cpe(_) => before,
        }
    }
}

/// The platform-identifier references that the first `n` of `refs` give a
/// node.
pub open spec fn cpe_refs_within(
    sbom_id: u128,
    node_id: Seq<char>,
    refs: Seq<PackageReference>,
    n: nat,
) -> Seq<SbomPackageCpeRefView>
    decreases n,
{
    if n == 0 {
        Seq::empty()
    } else {
        let before = cpe_refs_within(sbom_id, node_id, refs, (n - 1) as nat);
        match refs[n - 1] {
            PackageReference::Cpe(cpe) => before.push(
                SbomPackageCpeRefView { sbom_id, node_id, cpe_id: cpe },
            ),
            PackageReference::Purl { .. } => before,
        }
    }
}

/// The assertion that a node carries a license in a category.
pub open spec fn assertion(
    sbom_id: u128,
    node_id: Seq<char>,
    license_id: u128,
    license_type: LicenseCategory,
) -> ModelView {
    ModelView { sbom_id, node_id, license_id, license_type }
}

/// The assertions for a license that may be missing: one, or none.
pub open spec fn optional_assertion(
    sbom_id: u128,
    node_id: Seq<char>,
    license: Option<u128>,
    license_type: LicenseCategory,
) -> Seq<ModelView> {
    match license {
        Some(license_id) => seq![assertion(sbom_id, node_id, license_id, license_type)],
        None => Seq::empty(),
    }
}

/// The assertions for a list of licenses that is not split into declared and
/// concluded ones: each counts as declared.
pub open spec fn listed_assertions(
    sbom_id: u128,
    node_id: Seq<char>,
    licenses: Option<Seq<u128>>,
) -> Seq<ModelView> {
    match licenses {
        Some(ids) => Seq::new(
            ids.len(),
            |i: int| assertion(sbom_id, node_id, ids[i], LicenseCategory::Declared),
        ),
        None => Seq::empty(),
    }
}

/// The license assertions that a document makes for one package: the
/// declared license, the concluded license, then the listed licenses.
pub open spec fn license_assertions(sbom_id: u128, info: NodeInfoParamView) -> Seq<ModelView> {
    optional_assertion(sbom_id, info.node_id, info.declared_licenses, LicenseCategory::Declared)
        + optional_assertion(
        sbom_id,
        info.node_id,
        info.concluded_licenses,
        LicenseCategory::Concluded,
    ) + listed_assertions(sbom_id, info.node_id, info.cyclonedx_licenses)
}

/// Collects the packages of one document with their references and their
/// licenses.
pub struct PackageCreator {
    sbom_id: u128,
    nodes: Vec<SbomNode>,
    packages: Vec<SbomPackage>,
    purl_refs: Vec<SbomPackagePurlRef>,
    cpe_refs: Vec<SbomPackageCpeRef>,
    sbom_packge_licenses: Vec<Model>,
}

/// What a [`PackageCreator`] holds: the records that it will write, table by
/// table, in the order in which they were added.
pub ghost struct PackageCreatorView {
    pub sbom_id: u128,
    pub nodes: Seq<SbomNodeView>,
    pub packages: Seq<SbomPackageView>,
    pub purl_refs: Seq<SbomPackagePurlRefView>,
    pub cpe_refs: Seq<SbomPackageCpeRefView>,
    pub licenses: Seq<ModelView>,
}

impl PackageCreatorView {
    /// A creator that holds nothing.
    pub open spec fn empty(sbom_id: u128) -> PackageCreatorView {
        PackageCreatorView {
            sbom_id,
            nodes: Seq::empty(),
            packages: Seq::empty(),
            purl_refs: Seq::empty(),
            cpe_refs: Seq::empty(),
            licenses: Seq::empty(),
        }
    }

    /// The creator after one package was added: its node, the package, its
    /// references and its license assertions, each after what was there.
    pub open spec fn added(
        self,
        info: NodeInfoParamView,
        refs: Seq<PackageReference>,
    ) -> PackageCreatorView {
        PackageCreatorView {
            sbom_id: self.sbom_id,
            nodes: self.nodes.push(
                SbomNodeView { sbom_id: self.sbom_id, node_id: info.node_id, name: info.name },
            ),
            packages: self.packages.push(
                SbomPackageView {
                    sbom_id: self.sbom_id,
                    node_id: info.node_id,
                    group: info.group,
                    version: info.version,
                },
            ),
            purl_refs: self.purl_refs + purl_refs_within(
                self.sbom_id,
                info.node_id,
                refs,
                refs.len(),
            ),
            cpe_refs: self.cpe_refs + cpe_refs_within(self.sbom_id, info.node_id, refs, refs.len()),
            licenses: self.licenses + license_assertions(self.sbom_id, info),
        }
    }
}

/// The records that a creator holds, table by table.
pub struct PackageRecords {
    pub nodes: Vec<SbomNode>,
    pub packages: Vec<SbomPackage>,
    pub purl_refs: Vec<SbomPackagePurlRef>,
    pub cpe_refs: Vec<SbomPackageCpeRef>,
    pub licenses: Vec<Model>,
}

/// The store after the records of a creator were written to it: in each of
/// the five tables every record whose key is new is added, in its order, and
/// nothing else changes.
pub open spec fn packages_written(store: StoreView, creator: PackageCreatorView) -> StoreView {
    StoreView {
        nodes: upsert_all(store.nodes, creator.nodes),
        packages: upsert_all(store.packages, creator.packages),
        purl_refs: upsert_all(store.purl_refs, creator.purl_refs),
        cpe_refs: upsert_all(store.cpe_refs, creator.cpe_refs),
        package_licenses: upsert_all(store.package_licenses, creator.licenses),
        ..store
    }
}

/// Writing the packages of a document a second time changes nothing in the
/// store: no record is added and none is replaced, so the number of records
/// in every table stays what it was after the first time.
pub proof fn lemma_packages_written_twice(store: StoreView, creator: PackageCreatorView)
    ensures
        packages_written(packages_written(store, creator), creator) == packages_written(
            store,
            creator,
        ),
{
    lemma_upsert_all_idempotent(store.nodes, creator.nodes);
    lemma_upsert_all_idempotent(store.packages, creator.packages);
    lemma_upsert_all_idempotent(store.purl_refs, creator.purl_refs);
    lemma_upsert_all_idempotent(store.cpe_refs, creator.cpe_refs);
    lemma_upsert_all_idempotent(store.package_licenses, creator.licenses);
}

impl View for PackageCreator {
    type V = PackageCreatorView;

    closed spec fn view(&self) -> PackageCreatorView {
        PackageCreatorView {
            sbom_id: self.sbom_id,
            nodes: data_of(self.nodes@),
            packages: data_of(self.packages@),
            purl_refs: data_of(self.purl_refs@),
            cpe_refs: data_of(self.cpe_refs@),
            licenses: data_of(self.sbom_packge_licenses@),
        }
    }
}

impl PackageCreator {
    /// A creator for the packages of the document `sbom_id`.
    pub fn new(sbom_id: u128) -> (r: Self)
        ensures
            r@ == PackageCreatorView::empty(sbom_id),
    {
        let r = PackageCreator {
            sbom_id,
            nodes: Vec::new(),
            packages: Vec::new(),
            purl_refs: Vec::new(),
            cpe_refs: Vec::new(),
            sbom_packge_licenses: Vec::new(),
        };
        proof {
            r.lemma_view_is_empty();
        }
        r
    }

    /// A creator for the packages of the document `sbom_id` that has room for
    /// `capacity_packages` packages.
    pub fn with_capacity(sbom_id: u128, capacity_packages: usize) -> (r: Self)
        ensures
            r@ == PackageCreatorView::empty(sbom_id),
    {
        let r = PackageCreator {
            sbom_id,
            nodes: Vec::with_capacity(capacity_packages),
            packages: Vec::with_capacity(capacity_packages),
            purl_refs: Vec::with_capacity(capacity_packages),
            cpe_refs: Vec::new(),
            sbom_packge_licenses: Vec::new(),
        };
        proof {
            r.lemma_view_is_empty();
        }
        r
    }

    proof fn lemma_view_is_empty(&self)
        requires
            self.nodes@.len() == 0,
            self.packages@.len() == 0,
            self.purl_refs@.len() == 0,
            self.cpe_refs@.len() == 0,
            self.sbom_packge_licenses@.len() == 0,
        ensures
            self@ == PackageCreatorView::empty(self.sbom_id),
    {
        assert(data_of(self.nodes@) =~= Seq::<SbomNodeView>::empty());
        assert(data_of(self.packages@) =~= Seq::<SbomPackageView>::empty());
        assert(data_of(self.purl_refs@) =~= Seq::<SbomPackagePurlRefView>::empty());
        assert(data_of(self.cpe_refs@) =~= Seq::<SbomPackageCpeRefView>::empty());
        assert(data_of(self.sbom_packge_licenses@) =~= Seq::<ModelView>::empty());
    }

    fn add_references(&mut self, node_id: &String, refs: &Vec<PackageReference>)
        ensures
            final(self)@ == (PackageCreatorView {
                purl_refs: old(self)@.purl_refs + purl_refs_within(
                    old(self)@.sbom_id,
                    node_id@,
                    refs@,
                    refs@.len(),
                ),
                cpe_refs: old(self)@.cpe_refs + cpe_refs_within(
                    old(self)@.sbom_id,
                    node_id@,
                    refs@,
                    refs@.len(),
                ),
                ..old(self)@
            }),
    {
        let ghost start = self@;
        let mut i: usize = 0;
        assert(self@.purl_refs =~= start.purl_refs + purl_refs_within(
            start.sbom_id,
            node_id@,
            refs@,
            0,
        ));
        assert(self@.cpe_refs =~= start.cpe_refs + cpe_refs_within(
            start.sbom_id,
            node_id@,
            refs@,
            0,
        ));
        while i < refs.len()
            invariant
                i <= refs@.len(),
                start == old(self)@,
                self@ == (PackageCreatorView {
                    purl_refs: start.purl_refs + purl_refs_within(
                        start.sbom_id,
                        node_id@,
                        refs@,
                        i as nat,
                    ),
                    cpe_refs: start.cpe_refs + cpe_refs_within(
                        start.sbom_id,
                        node_id@,
                        refs@,
                        i as nat,
                    ),
                    ..start
                }),
            decreases refs@.len() - i,
        {
            let ghost before = self@;
            match refs[i] {
                PackageReference::Cpe(cpe) => {
                    let reference = SbomPackageCpeRef {
                        sbom_id: self.sbom_id,
                        node_id: node_id.clone(),
                        cpe_id: cpe,
                    };
                    self.cpe_refs.push(reference);
                    assert(self@.cpe_refs =~= before.cpe_refs.push(reference.deep_view()));
                },
                PackageReference::Purl { qualified_purl, versioned_purl: _ } => {
                    let reference = SbomPackagePurlRef {
                        sbom_id: self.sbom_id,
                        node_id: node_id.clone(),
                        qualified_purl_id: qualified_purl,
                    };
                    self.purl_refs.push(reference);
                    assert(self@.purl_refs =~= before.purl_refs.push(reference.deep_view()));
                },
            }
            assert(self@.purl_refs =~= start.purl_refs + purl_refs_within(
                start.sbom_id,
                node_id@,
                refs@,
                (i + 1) as nat,
            ));
            assert(self@.cpe_refs =~= start.cpe_refs + cpe_refs_within(
                start.sbom_id,
                node_id@,
                refs@,
                (i + 1) as nat,
            ));
            i += 1;
        }
    }

    fn add_license(&mut self, node_id: &String, license_id: u128, license_type: LicenseCategory)
        ensures
            final(self)@ == (PackageCreatorView {
                licenses: old(self)@.licenses.push(
                    assertion(old(self)@.sbom_id, node_id@, license_id, license_type),
                ),
                ..old(self)@
            }),
    {
        let record = Model {
            sbom_id: self.sbom_id,
            node_id: node_id.clone(),
            license_id,
            license_type,
        };
        self.sbom_packge_licenses.push(record);
        assert(self@.licenses =~= old(self)@.licenses.push(record.deep_view()));
    }

    fn add_licenses(&mut self, node_info: &NodeInfoParam)
        ensures
            final(self)@ == (PackageCreatorView {
                licenses: old(self)@.licenses + license_assertions(
                    old(self)@.sbom_id,
                    node_info.deep_view(),
                ),
                ..old(self)@
            }),
    {
        let ghost start = self@;
        let ghost info = node_info.deep_view();
        let ghost declared = optional_assertion(
            start.sbom_id,
            info.node_id,
            info.declared_licenses,
            LicenseCategory::Declared,
        );
        let ghost concluded = optional_assertion(
            start.sbom_id,
            info.node_id,
            info.concluded_licenses,
            LicenseCategory::Concluded,
        );
        if let Some(declared_license) = node_info.declared_licenses {
            self.add_license(&node_info.node_id, declared_license, LicenseCategory::Declared);
        }
        if let Some(concluded_license) = node_info.concluded_licenses {
            self.add_license(&node_info.node_id, concluded_license, LicenseCategory::Concluded);
        }
        assert(self@.licenses =~= start.licenses + declared + concluded);
        if let Some(licenses_uuid) = &node_info.cyclonedx_licenses {
            let mut i: usize = 0;
            while i < licenses_uuid.len()
                invariant
                    i <= licenses_uuid@.len(),
                    start == old(self)@,
                    info == node_info.deep_view(),
                    info.cyclonedx_licenses == Some(licenses_uuid@),
                    self@ == (PackageCreatorView {
                        licenses: start.licenses + declared + concluded + listed_assertions(
                            start.sbom_id,
                            info.node_id,
                            Some(licenses_uuid@.take(i as int)),
                        ),
                        ..start
                    }),
                decreases licenses_uuid@.len() - i,
            {
                self.add_license(&node_info.node_id, licenses_uuid[i], LicenseCategory::Declared);
                assert(self@.licenses =~= start.licenses + declared + concluded
                    + listed_assertions(
                    start.sbom_id,
                    info.node_id,
                    Some(licenses_uuid@.take(i + 1)),
                ));
                i += 1;
            }
        }
        assert(self@.licenses =~= start.licenses + license_assertions(start.sbom_id, info));
    }

    /// Adds one package: its node, the package itself, one reference for each
    /// of its outside names, and one license assertion for its declared
    /// license, one for its concluded license and one, as declared, for each
    /// of its listed licenses.
    pub fn add(&mut self, node_info: NodeInfoParam, refs: Vec<PackageReference>)
        ensures
            final(self)@ == old(self)@.added(node_info.deep_view(), refs@),
    {
        let ghost start = self@;
        self.add_references(&node_info.node_id, &refs);
        let ghost referenced = self@;
        let node = SbomNode {
            sbom_id: self.sbom_id,
            node_id: node_info.node_id.clone(),
            name: node_info.name.clone(),
        };
        self.nodes.push(node);
        let package = SbomPackage {
            sbom_id: self.sbom_id,
            node_id: node_info.node_id.clone(),
            group: clone_optional(&node_info.group),
            version: clone_optional(&node_info.version),
        };
        self.packages.push(package);
        proof {
            assert(self@.nodes =~= start.nodes.push(node.deep_view()));
            assert(self@.packages =~= start.packages.push(package.deep_view()));
            assert(self@ == PackageCreatorView {
                nodes: start.nodes.push(node.deep_view()),
                packages: start.packages.push(package.deep_view()),
                ..referenced
            });
        }
        self.add_licenses(&node_info);
    }

    /// Writes the records to the store, table by table. A record whose key
    /// the store holds already is skipped, and the stored one stays as it is.
    pub fn create(self, store: &mut Store)
        ensures
            final(store)@ == packages_written(old(store)@, self@),
            old(store).wf() ==> final(store).wf(),
    {
        store.nodes.insert_all(self.nodes);
        store.packages.insert_all(self.packages);
        store.purl_refs.insert_all(self.purl_refs);
        store.cpe_refs.insert_all(self.cpe_refs);
        store.package_licenses.insert_all(self.sbom_packge_licenses);
    }

    /// The identifiers of the nodes that were added, in their order.
    pub fn references(&self) -> (r: Vec<&str>)
        ensures
            r@.len() == self@.nodes.len(),
            forall|i: int| 0 <= i < r@.len() ==> (#[trigger] r@[i])@ == self@.nodes[i].node_id,
    {
        let mut out: Vec<&str> = Vec::new();
        let mut i: usize = 0;
        while i < self.nodes.len()
            invariant
                i <= self.nodes@.len(),
                self@.nodes.len() == self.nodes@.len(),
                out@.len() == i,
                forall|j: int| 0 <= j < i ==> (#[trigger] out@[j])@ == self@.nodes[j].node_id,
            decreases self.nodes@.len() - i,
        {
            out.push(self.nodes[i].node_id.as_str());
            i += 1;
        }
        out
    }

    /// Hands out the records that [`PackageCreator::create`] writes, table by
    /// table, each in its order.
    pub fn into_records(self) -> (records: PackageRecords)
        ensures
            records.nodes.deep_view() == self@.nodes,
            records.packages.deep_view() == self@.packages,
            records.purl_refs.deep_view() == self@.purl_refs,
            records.cpe_refs.deep_view() == self@.cpe_refs,
            records.licenses.deep_view() == self@.licenses,
    {
        let records = PackageRecords {
            nodes: self.nodes,
            packages: self.packages,
            purl_refs: self.purl_refs,
            cpe_refs: self.cpe_refs,
            licenses: self.sbom_packge_licenses,
        };
        records
    }
}

} // verus!
