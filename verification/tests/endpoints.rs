use flate2::read::GzDecoder;
use sbom_licenses::entity::sbom_package_license::LicenseCategory;
use sbom_licenses::entity::{License, LicensingInfos, Sbom, SbomNode, SbomPackage};
use sbom_licenses::id::IdError;
use sbom_licenses::license::endpoints::{export_response, get_license_export, LicenseExportResponse};
use sbom_licenses::license::service::license_export::ExportError;
use sbom_licenses::license::service::LicenseService;
use sbom_licenses::store::Store;
use tar::Archive;

const SBOM: u128 = 0x67e55044_10b1_426f_9247_bb680e5fe0c8;

fn store() -> Store {
    let mut store = Store::new();
    store.sboms.insert(Sbom {
        sbom_id: SBOM,
        document_id: "urn:ns".to_string(),
        name: "quarkus/bom: 2.13".to_string(),
        group: None,
        version: "2.13".to_string(),
        sha256: "dc60".to_string(),
        sha384: "3840".to_string(),
        sha512: "5120".to_string(),
    });
    store.nodes.insert(SbomNode { sbom_id: SBOM, node_id: "n1".to_string(), name: "p".to_string() });
    store.packages.insert(SbomPackage { sbom_id: SBOM, node_id: "n1".to_string(), group: None, version: None });
    store.licenses.insert(License { id: 1, text: "MIT".to_string() });
    store.record_license_assertion(SBOM, "n1".to_string(), 1, LicenseCategory::Declared);
    store.record_licensing_info(LicensingInfos {
        id: 9,
        sbom_id: SBOM,
        name: "n".to_string(),
        license_id: "LicenseRef-9".to_string(),
        extracted_text: "t".to_string(),
        comment: "c".to_string(),
    });
    store
}

fn names(body: &[u8]) -> Vec<String> {
    let mut archive = Archive::new(GzDecoder::new(body));
    archive
        .entries()
        .unwrap()
        .map(|e| e.unwrap().path().unwrap().to_str().unwrap().to_string())
        .collect()
}

#[test]
fn known_document_is_answered_with_the_archive() {
    let service = LicenseService::new();
    let response = get_license_export(&service, &store(), "urn:uuid:67e55044-10b1-426f-9247-bb680e5fe0c8");
    assert_eq!(response.status(), 200);
    match response {
        LicenseExportResponse::Archive { content_type, content_disposition, body } => {
            assert_eq!(content_type, "application/gzip");
            assert_eq!(content_disposition, "attachment; filename=\"quarkus_bom__2.13_licenses.tar.gz\"");
            assert_eq!(
                names(&body),
                vec!["quarkus_bom__2.13_sbom_licenses.csv", "quarkus_bom__2.13_license_ref.csv"]
            );
        }
        other => panic!("{:?}", other),
    }
}

#[test]
fn known_document_is_found_by_digest() {
    let service = LicenseService::new();
    assert_eq!(get_license_export(&service, &store(), "sha256:dc60").status(), 200);
    assert_eq!(get_license_export(&service, &store(), "sha384:3840").status(), 200);
    assert_eq!(get_license_export(&service, &store(), "sha512:5120").status(), 200);
}

#[test]
fn unknown_document_is_not_found() {
    let service = LicenseService::new();
    let response = get_license_export(&service, &store(), "urn:uuid:00000000-0000-0000-0000-000000000001");
    assert!(matches!(response, LicenseExportResponse::NotFound));
    assert_eq!(response.status(), 404);
    let response = get_license_export(&service, &store(), "sha256:ffff");
    assert!(matches!(response, LicenseExportResponse::NotFound));
    let response = get_license_export(&service, &Store::new(), "sha512:5120");
    assert!(matches!(response, LicenseExportResponse::NotFound));
}

#[test]
fn malformed_identifier_is_refused() {
    let service = LicenseService::new();
    let response = get_license_export(&service, &store(), "67e55044");
    assert!(matches!(response, LicenseExportResponse::BadRequest(IdError::MissingPrefix)));
    assert_eq!(response.status(), 400);
    let response = get_license_export(&service, &store(), "urn:uuid:zzz");
    assert!(matches!(response, LicenseExportResponse::BadRequest(IdError::InvalidUuid)));
    let response = get_license_export(&service, &store(), "crc32:1234");
    assert!(matches!(response, LicenseExportResponse::BadRequest(IdError::UnsupportedAlgorithm)));
}

#[test]
fn failed_rendering_is_an_internal_error_without_a_body() {
    let response = export_response("name".to_string(), Err(ExportError::Compression));
    assert!(matches!(response, LicenseExportResponse::InternalServerError(ExportError::Compression)));
    assert_eq!(response.status(), 500);
    let response = export_response("name".to_string(), Err(ExportError::Archive));
    assert!(matches!(response, LicenseExportResponse::InternalServerError(ExportError::Archive)));
}

#[test]
fn rendered_archive_is_offered_under_the_sanitized_name() {
    match export_response("MTV 2.6/x".to_string(), Ok(vec![1, 2, 3])) {
        LicenseExportResponse::Archive { content_type, content_disposition, body } => {
            assert_eq!(content_type, "application/gzip");
            assert_eq!(content_disposition, "attachment; filename=\"MTV_2.6_x_licenses.tar.gz\"");
            assert_eq!(body, vec![1, 2, 3]);
        }
        other => panic!("{:?}", other),
    }
}
