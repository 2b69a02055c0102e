use sbom_licenses::entity::sbom_package_license::{LicenseCategory, Model};
use sbom_licenses::entity::{
    License, LicensingInfos, QualifiedPurl, Sbom, SbomNode, SbomPackage, SbomPackageCpeRef,
    SbomPackagePurlRef,
};
use sbom_licenses::id::Id;
use sbom_licenses::license::model::sbom_license::{Cpe, SbomNameGroupVersion};
use sbom_licenses::license::service::license_export::LicenseExporter;
use sbom_licenses::license::service::LicenseService;
use sbom_licenses::store::Store;

const SBOM: u128 = 0x11111111_2222_3333_4444_555555555555;
const OTHER: u128 = 0x99999999_2222_3333_4444_555555555555;

fn sbom(sbom_id: u128, name: &str, namespace: &str, digest: &str) -> Sbom {
    Sbom {
        sbom_id,
        document_id: namespace.to_string(),
        name: name.to_string(),
        group: Some("org.example".to_string()),
        version: "1.2.3".to_string(),
        sha256: digest.to_string(),
        sha384: format!("{}-384", digest),
        sha512: format!("{}-512", digest),
    }
}

fn add_package(store: &mut Store, sbom_id: u128, node: &str, name: &str) {
    store.nodes.insert(SbomNode { sbom_id, node_id: node.to_string(), name: name.to_string() });
    store.packages.insert(SbomPackage {
        sbom_id,
        node_id: node.to_string(),
        group: Some(format!("group-of-{}", name)),
        version: Some("1.0".to_string()),
    });
}

fn add_license(store: &mut Store, id: u128, text: &str) {
    store.licenses.insert(License { id, text: text.to_string() });
}

fn add_purl(store: &mut Store, sbom_id: u128, node: &str, id: u128, purl: &str) {
    store.qualified_purls.insert(QualifiedPurl { id, purl: purl.to_string() });
    store.purl_refs.insert(SbomPackagePurlRef { sbom_id, node_id: node.to_string(), qualified_purl_id: id });
}

fn add_cpe(store: &mut Store, sbom_id: u128, node: &str, id: u128, product: &str) {
    store.cpes.insert(Cpe {
        id,
        part: Some("a".to_string()),
        vendor: Some("redhat".to_string()),
        product: Some(product.to_string()),
        version: None,
        update: None,
        edition: None,
        language: None,
    });
    store.cpe_refs.insert(SbomPackageCpeRef { sbom_id, node_id: node.to_string(), cpe_id: id });
}

fn add_info(store: &mut Store, id: u128, sbom_id: u128, license_id: &str) {
    store.record_licensing_info(LicensingInfos {
        id,
        sbom_id,
        name: format!("name of {}", license_id),
        license_id: license_id.to_string(),
        extracted_text: format!("text of {}", license_id),
        comment: "".to_string(),
    });
}

fn small_store() -> Store {
    let mut store = Store::new();
    store.sboms.insert(sbom(SBOM, "spring-petclinic", "urn:uuid:da67396d/1", "aaaa"));
    store.sboms.insert(sbom(OTHER, "other", "urn:uuid:other/1", "bbbb"));
    add_package(&mut store, SBOM, "n1", "logback-core");
    add_package(&mut store, SBOM, "n2", "HdrHistogram");
    add_package(&mut store, SBOM, "n3", "unlicensed");
    add_package(&mut store, OTHER, "n1", "foreign");
    add_license(&mut store, 1, "EPL-1.0");
    add_license(&mut store, 2, "BSD-2-Clause");
    add_license(&mut store, 3, "CC0-1.0");
    store.record_license_assertion(SBOM, "n1".to_string(), 1, LicenseCategory::Declared);
    store.record_license_assertion(SBOM, "n2".to_string(), 2, LicenseCategory::Declared);
    store.record_license_assertion(SBOM, "n2".to_string(), 3, LicenseCategory::Declared);
    store.record_license_assertion(SBOM, "n2".to_string(), 1, LicenseCategory::Concluded);
    store.record_license_assertion(SBOM, "n3".to_string(), 2, LicenseCategory::Other);
    store.record_license_assertion(OTHER, "n1".to_string(), 1, LicenseCategory::Declared);
    add_purl(&mut store, SBOM, "n1", 10, "pkg:maven/ch.qos.logback/logback-core@1.5.8?type=jar");
    add_purl(&mut store, SBOM, "n2", 11, "pkg:maven/org.hdrhistogram/HdrHistogram@2.2.2?type=jar");
    add_purl(&mut store, OTHER, "n1", 12, "pkg:npm/foreign@1");
    add_cpe(&mut store, SBOM, "n1", 20, "logback");
    add_info(&mut store, 100, SBOM, "LicenseRef-1");
    add_info(&mut store, 101, OTHER, "LicenseRef-other");
    add_info(&mut store, 102, SBOM, "LicenseRef-2");
    store
}

#[test]
fn export_lists_one_entry_for_each_declared_license() {
    let store = small_store();
    let service = LicenseService::new();
    let (packages, infos, identity) = service.license_export(&Id::Uuid(SBOM), &store);

    let identity = identity.unwrap();
    assert_eq!(identity.sbom_name, "spring-petclinic");
    assert_eq!(identity.sbom_namespace, "urn:uuid:da67396d/1");
    assert_eq!(identity.sbom_group, Some("org.example".to_string()));
    assert_eq!(identity.sbom_version, "1.2.3");

    assert_eq!(packages.len(), 3);
    assert_eq!(packages[0].name, "logback-core");
    assert_eq!(packages[0].sbom_namespace, "urn:uuid:da67396d/1");
    assert_eq!(packages[0].group, Some("group-of-logback-core".to_string()));
    assert_eq!(packages[0].version, Some("1.0".to_string()));
    assert_eq!(packages[0].license_text, Some("EPL-1.0".to_string()));
    assert_eq!(packages[0].purl.len(), 1);
    assert_eq!(packages[0].purl[0].purl, "pkg:maven/ch.qos.logback/logback-core@1.5.8?type=jar");
    assert_eq!(packages[0].other_reference.len(), 1);
    assert_eq!(packages[0].other_reference[0].id, 20);
    assert_eq!(packages[0].other_reference[0].product, Some("logback".to_string()));

    assert_eq!(packages[1].name, "HdrHistogram");
    assert_eq!(packages[1].license_text, Some("BSD-2-Clause".to_string()));
    assert_eq!(packages[2].name, "HdrHistogram");
    assert_eq!(packages[2].license_text, Some("CC0-1.0".to_string()));
    assert_eq!(packages[1].purl.len(), 1);
    assert_eq!(packages[2].purl.len(), 1);
    assert_eq!(packages[1].purl[0].purl, packages[2].purl[0].purl);
    assert_eq!(packages[1].other_reference.len(), 0);

    assert_eq!(infos.len(), 2);
    assert_eq!(infos[0].license_id, "LicenseRef-1");
    assert_eq!(infos[0].name, "name of LicenseRef-1");
    assert_eq!(infos[0].extracted_text, "text of LicenseRef-1");
    assert_eq!(infos[1].license_id, "LicenseRef-2");
}

#[test]
fn export_of_unknown_document_is_empty() {
    let store = small_store();
    let service = LicenseService::new();
    let (packages, infos, identity) = service.license_export(&Id::Uuid(42), &store);
    assert!(identity.is_none());
    assert!(packages.is_empty());
    assert!(infos.is_empty());
    let (packages, infos, identity) =
        service.license_export(&Id::Sha256("cccc".to_string()), &store);
    assert!(identity.is_none());
    assert!(packages.is_empty());
    assert!(infos.is_empty());
}

#[test]
fn export_by_digest_finds_the_same_document() {
    let store = small_store();
    let service = LicenseService::new();
    for id in [
        Id::Sha256("aaaa".to_string()),
        Id::Sha384("aaaa-384".to_string()),
        Id::Sha512("aaaa-512".to_string()),
    ] {
        let (packages, infos, identity) = service.license_export(&id, &store);
        assert_eq!(identity.unwrap().sbom_name, "spring-petclinic");
        assert_eq!(packages.len(), 3);
        assert_eq!(infos.len(), 2);
    }
    assert_eq!(service.find_sbom(&Id::Sha256("bbbb".to_string()), &store), Some(1));
    assert_eq!(service.find_sbom(&Id::Sha384("bbbb".to_string()), &store), None);
}

#[test]
fn document_without_declared_licenses_gives_empty_lists_not_an_error() {
    let mut store = Store::new();
    store.sboms.insert(sbom(SBOM, "bare", "ns", "aaaa"));
    add_package(&mut store, SBOM, "n1", "p");
    add_license(&mut store, 1, "MIT");
    store.record_license_assertion(SBOM, "n1".to_string(), 1, LicenseCategory::Concluded);
    let service = LicenseService::new();
    let (packages, infos, identity) = service.license_export(&Id::Uuid(SBOM), &store);
    assert!(identity.is_some());
    assert!(packages.is_empty());
    assert!(infos.is_empty());
}

#[test]
fn assertion_without_stored_license_or_node_gives_no_row() {
    let mut store = Store::new();
    store.sboms.insert(sbom(SBOM, "s", "ns", "aaaa"));
    add_package(&mut store, SBOM, "n1", "p");
    store.packages.insert(SbomPackage { sbom_id: SBOM, node_id: "n2".to_string(), group: None, version: None });
    add_license(&mut store, 1, "MIT");
    store.record_license_assertion(SBOM, "n1".to_string(), 77, LicenseCategory::Declared);
    store.record_license_assertion(SBOM, "n2".to_string(), 1, LicenseCategory::Declared);
    let service = LicenseService::new();
    let rows = service.package_licenses(&store, store.sboms.get(0));
    assert!(rows.is_empty());
}

#[test]
fn references_are_those_of_the_node_in_the_document() {
    let store = small_store();
    let service = LicenseService::new();
    let purls = service.purls(&store, SBOM, &Some("n1".to_string()));
    assert_eq!(purls.len(), 1);
    let foreign = service.purls(&store, OTHER, &Some("n1".to_string()));
    assert_eq!(foreign.len(), 1);
    assert_eq!(foreign[0].purl, "pkg:npm/foreign@1");
    assert!(service.purls(&store, SBOM, &None).is_empty());
    assert!(service.cpes(&store, SBOM, &None).is_empty());
    assert!(service.cpes(&store, SBOM, &Some("n2".to_string())).is_empty());
    assert_eq!(service.cpes(&store, SBOM, &Some("n1".to_string())).len(), 1);
}

#[test]
fn package_with_two_licenses_and_one_purl_gives_two_rows() {
    let store = small_store();
    let service = LicenseService::new();
    let (packages, infos, identity) = service.license_export(&Id::Uuid(SBOM), &store);
    let identity = identity.unwrap();
    let exporter = LicenseExporter::new(
        identity.sbom_namespace,
        identity.sbom_name,
        identity.sbom_group,
        identity.sbom_version,
        packages,
        infos,
    );
    let sbom_licenses = String::from_utf8(exporter.sbom_licenses_csv()).unwrap();
    assert_eq!(
        2,
        sbom_licenses.matches("pkg:maven/org.hdrhistogram/HdrHistogram@2.2.2?type=jar").count()
    );
    assert_eq!(1, sbom_licenses.matches("BSD-2-Clause").count());
    assert_eq!(1, sbom_licenses.matches("CC0-1.0").count());
    assert_eq!(4, sbom_licenses.lines().count());
    assert_eq!(3, sbom_licenses.matches("spring-petclinic").count());
}

fn large_store(entries: usize, infos: usize, kinds: &[(&str, usize)]) -> Store {
    let mut store = Store::new();
    store.sboms.insert(sbom(SBOM, "MTV-2.6", "https://access.redhat.com/security/data/sbom/spdx/MTV-2.6", "aaaa"));
    add_license(&mut store, 1, "NOASSERTION");
    let mut kind = 0;
    let mut used = 0;
    for i in 0..entries {
        let node = format!("SPDXRef-{}", i);
        add_package(&mut store, SBOM, &node, &format!("package-{}", i));
        store.record_license_assertion(SBOM, node.clone(), 1, LicenseCategory::Declared);
        while kind < kinds.len() && used == kinds[kind].1 {
            kind += 1;
            used = 0;
        }
        if kind < kinds.len() {
            add_purl(&mut store, SBOM, &node, 1000 + i as u128, &format!("{}package-{}@1", kinds[kind].0, i));
            used += 1;
        }
    }
    for i in 0..infos {
        add_info(&mut store, 500_000 + i as u128, SBOM, &format!("LicenseRef-{}", i));
    }
    store
}

#[test]
fn test_spdx() {
    let store = large_store(2294, 49, &[("pkg:rpm/redhat/", 2294)]);
    let license_service = LicenseService::new();
    let (sbom_license_list, sbom_license_info_list, sbom_name) =
        license_service.license_export(&Id::Uuid(SBOM), &store);
    let sbom_name = sbom_name.unwrap_or_else(SbomNameGroupVersion::default);
    let exporter = LicenseExporter::new(
        sbom_name.sbom_namespace,
        sbom_name.sbom_name,
        sbom_name.sbom_group,
        sbom_name.sbom_version,
        sbom_license_list.clone(),
        sbom_license_info_list.clone(),
    );
    exporter.generate().unwrap_or_else(|_| panic!("generate failed"));
    assert_eq!(49, sbom_license_info_list.len());
    assert_eq!(2294, sbom_license_list.len());
}

#[test]
fn test_cyclonedx() {
    let store = large_store(39, 0, &[("pkg:rpm/redhat/", 39)]);
    let license_service = LicenseService::new();
    let (sbom_license_list, sbom_license_info_list, sbom_name) =
        license_service.license_export(&Id::Uuid(SBOM), &store);
    let sbom_name = sbom_name.unwrap_or_else(SbomNameGroupVersion::default);
    let exporter = LicenseExporter::new(
        sbom_name.sbom_namespace,
        sbom_name.sbom_name,
        sbom_name.sbom_group,
        sbom_name.sbom_version,
        sbom_license_list.clone(),
        sbom_license_info_list.clone(),
    );
    exporter.generate().unwrap_or_else(|_| panic!("generate failed"));
    assert_eq!(0, sbom_license_info_list.len());
    assert_eq!(39, sbom_license_list.len());
}

#[test]
fn default_identity_is_empty() {
    let identity = SbomNameGroupVersion::default();
    assert_eq!(identity.sbom_name, "");
    assert_eq!(identity.sbom_namespace, "");
    assert_eq!(identity.sbom_group, None);
    assert_eq!(identity.sbom_version, "");
}

#[test]
fn recording_an_assertion_twice_keeps_one() {
    let mut store = Store::new();
    store.record_license_assertion(SBOM, "n1".to_string(), 1, LicenseCategory::Declared);
    store.record_license_assertion(SBOM, "n1".to_string(), 1, LicenseCategory::Declared);
    assert_eq!(store.package_licenses.len(), 1);
    store.record_license_assertion(SBOM, "n1".to_string(), 1, LicenseCategory::Concluded);
    store.record_license_assertion(SBOM, "n1".to_string(), 2, LicenseCategory::Declared);
    store.record_license_assertion(SBOM, "n2".to_string(), 1, LicenseCategory::Declared);
    store.record_license_assertion(OTHER, "n1".to_string(), 1, LicenseCategory::Declared);
    assert_eq!(store.package_licenses.len(), 5);
    let first: &Model = store.package_licenses.get(0);
    assert_eq!(first.license_type, LicenseCategory::Declared);
    assert_eq!(first.node_id, "n1");
}

#[test]
fn recording_a_license_text_again_keeps_the_first() {
    let mut store = Store::new();
    add_info(&mut store, 100, SBOM, "LicenseRef-1");
    store.record_licensing_info(LicensingInfos {
        id: 100,
        sbom_id: SBOM,
        name: "changed".to_string(),
        license_id: "LicenseRef-1".to_string(),
        extracted_text: "changed".to_string(),
        comment: "changed".to_string(),
    });
    assert_eq!(store.licensing_infos.len(), 1);
    assert_eq!(store.licensing_infos.get(0).name, "name of LicenseRef-1");
    assert_eq!(store.licensing_infos.get(0).extracted_text, "text of LicenseRef-1");
}
