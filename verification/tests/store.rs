use sbom_licenses::entity::sbom_package_license::LicenseCategory;
use sbom_licenses::entity::{License, LicensingInfos, QualifiedPurl, Sbom, SbomNode, SbomPackage, SbomPackagePurlRef};
use sbom_licenses::id::Id;
use sbom_licenses::license::service::LicenseService;
use sbom_licenses::store::Store;

fn document(store: &mut Store, sbom_id: u128, name: &str) {
    store.sboms.insert(Sbom {
        sbom_id,
        document_id: format!("ns-{}", name),
        name: name.to_string(),
        group: None,
        version: "1".to_string(),
        sha256: format!("256-{}", name),
        sha384: format!("384-{}", name),
        sha512: format!("512-{}", name),
    });
    store.nodes.insert(SbomNode { sbom_id, node_id: "n1".to_string(), name: "p".to_string() });
    store.packages.insert(SbomPackage { sbom_id, node_id: "n1".to_string(), group: None, version: None });
    store.purl_refs.insert(SbomPackagePurlRef { sbom_id, node_id: "n1".to_string(), qualified_purl_id: 5 });
    store.record_license_assertion(sbom_id, "n1".to_string(), 1, LicenseCategory::Declared);
    store.record_license_assertion(sbom_id, "n1".to_string(), 1, LicenseCategory::Concluded);
    store.record_licensing_info(LicensingInfos {
        id: sbom_id + 1000,
        sbom_id,
        name: "n".to_string(),
        license_id: "LicenseRef-1".to_string(),
        extracted_text: "t".to_string(),
        comment: "".to_string(),
    });
}

fn two_documents() -> Store {
    let mut store = Store::new();
    store.licenses.insert(License { id: 1, text: "MIT".to_string() });
    store.qualified_purls.insert(QualifiedPurl { id: 5, purl: "pkg:npm/p@1".to_string() });
    document(&mut store, 1, "one");
    document(&mut store, 2, "two");
    store
}

#[test]
fn new_store_is_empty() {
    let store = Store::new();
    assert_eq!(store.sboms.len(), 0);
    assert_eq!(store.nodes.len(), 0);
    assert_eq!(store.packages.len(), 0);
    assert_eq!(store.package_licenses.len(), 0);
    assert_eq!(store.licenses.len(), 0);
    assert_eq!(store.purl_refs.len(), 0);
    assert_eq!(store.qualified_purls.len(), 0);
    assert_eq!(store.cpe_refs.len(), 0);
    assert_eq!(store.cpes.len(), 0);
    assert_eq!(store.licensing_infos.len(), 0);
}

#[test]
fn deleting_a_document_removes_its_license_records_and_texts() {
    let mut store = two_documents();
    assert_eq!(store.package_licenses.len(), 4);
    assert_eq!(store.licensing_infos.len(), 2);
    store.delete_sbom(1);
    assert_eq!(store.sboms.len(), 1);
    assert_eq!(store.sboms.get(0).sbom_id, 2);
    assert_eq!(store.nodes.len(), 1);
    assert_eq!(store.packages.len(), 1);
    assert_eq!(store.purl_refs.len(), 1);
    assert_eq!(store.package_licenses.len(), 2);
    assert_eq!(store.package_licenses.get(0).sbom_id, 2);
    assert_eq!(store.package_licenses.get(0).license_type, LicenseCategory::Declared);
    assert_eq!(store.package_licenses.get(1).license_type, LicenseCategory::Concluded);
    assert_eq!(store.licensing_infos.len(), 1);
    assert_eq!(store.licensing_infos.get(0).sbom_id, 2);
    assert_eq!(store.licenses.len(), 1);
    assert_eq!(store.qualified_purls.len(), 1);
}

#[test]
fn deleted_document_is_no_longer_found() {
    let mut store = two_documents();
    let service = LicenseService::new();
    store.delete_sbom(1);
    let (packages, infos, identity) = service.license_export(&Id::Uuid(1), &store);
    assert!(identity.is_none() && packages.is_empty() && infos.is_empty());
    let (packages, infos, identity) = service.license_export(&Id::Uuid(2), &store);
    assert_eq!(identity.unwrap().sbom_name, "two");
    assert_eq!(packages.len(), 1);
    assert_eq!(infos.len(), 1);
}

#[test]
fn deleting_an_unknown_document_changes_nothing() {
    let mut store = two_documents();
    store.delete_sbom(3);
    assert_eq!(store.sboms.len(), 2);
    assert_eq!(store.package_licenses.len(), 4);
    assert_eq!(store.licensing_infos.len(), 2);
    assert_eq!(store.sboms.get(0).name, "one");
    assert_eq!(store.sboms.get(1).name, "two");
}
