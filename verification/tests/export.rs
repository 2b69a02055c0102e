use flate2::read::GzDecoder;
use sbom_licenses::license::get_sanitize_filename;
use sbom_licenses::license::model::sbom_license::{
    Cpe, ExtractedLicensingInfos, Purl, SbomPackageLicense,
};
use sbom_licenses::license::service::license_export::{
    archived, compressed, ExportError, LicenseExporter,
};
use std::io::Read;
use tar::Archive;

const TITLES: &str = "SBOM name,SBOM namespace,package group,package version,package name,license,package purl,cpe part,cpe vendor,cpe product,cpe version,cpe update,cpe edition,cpe language\n";
const REF_TITLES: &str = "licenseId,name,extracted text,comment\n";

fn package(name: &str, license: Option<&str>, purls: &[&str], cpes: Vec<Cpe>) -> SbomPackageLicense {
    SbomPackageLicense {
        sbom_namespace: "urn:example:ns".to_string(),
        name: name.to_string(),
        group: None,
        version: Some("1.0".to_string()),
        purl: purls.iter().map(|p| Purl { purl: p.to_string() }).collect(),
        other_reference: cpes,
        license_text: license.map(|l| l.to_string()),
    }
}

fn cpe(id: u128, vendor: &str, product: &str) -> Cpe {
    Cpe {
        id,
        part: Some("a".to_string()),
        vendor: Some(vendor.to_string()),
        product: Some(product.to_string()),
        version: Some("8".to_string()),
        update: None,
        edition: None,
        language: None,
    }
}

fn info(license_id: &str, name: &str, text: &str, comment: &str) -> ExtractedLicensingInfos {
    ExtractedLicensingInfos {
        license_id: license_id.to_string(),
        name: name.to_string(),
        extracted_text: text.to_string(),
        comment: comment.to_string(),
    }
}

fn exporter(name: &str, packages: Vec<SbomPackageLicense>, infos: Vec<ExtractedLicensingInfos>) -> LicenseExporter {
    LicenseExporter::new(
        "urn:example:ns".to_string(),
        name.to_string(),
        Some("org.example".to_string()),
        "2.6".to_string(),
        packages,
        infos,
    )
}

fn unpack(compressed_data: &[u8]) -> Vec<(String, Vec<u8>)> {
    let decoder = GzDecoder::new(compressed_data);
    let mut archive = Archive::new(decoder);
    let mut files = Vec::new();
    for archive_entry in archive.entries().unwrap() {
        let mut entry = archive_entry.unwrap();
        let path = entry.path().unwrap().to_str().unwrap().to_string();
        let mut data = Vec::new();
        entry.read_to_end(&mut data).unwrap();
        files.push((path, data));
    }
    files
}

fn records(bytes: &[u8]) -> Vec<Vec<String>> {
    let mut reader = csv::ReaderBuilder::new().has_headers(false).from_reader(bytes);
    let mut rows = Vec::new();
    for record in reader.records() {
        rows.push(record.unwrap().iter().map(|f| f.to_string()).collect());
    }
    rows
}

#[test]
fn sanitize_keeps_safe_names() {
    assert_eq!(get_sanitize_filename("MTV-2.6".to_string()), "MTV-2.6");
    assert_eq!(get_sanitize_filename("spring-petclinic".to_string()), "spring-petclinic");
    assert_eq!(get_sanitize_filename("A_z.09-".to_string()), "A_z.09-");
}

#[test]
fn sanitize_replaces_separators_and_reserved_characters() {
    assert_eq!(
        get_sanitize_filename("a/b\\c:d*e?f\"g<h>i|j k".to_string()),
        "a_b_c_d_e_f_g_h_i_j_k"
    );
    assert_eq!(get_sanitize_filename("../etc/passwd".to_string()), ".._etc_passwd");
    assert_eq!(get_sanitize_filename("".to_string()), "");
    assert_eq!(get_sanitize_filename("né\0\n".to_string()), "n___");
}

#[test]
fn file_names_share_the_sanitized_prefix() {
    let e = exporter("my/sbom: v1", Vec::new(), Vec::new());
    assert_eq!(e.sbom_licenses_filename(), "my_sbom__v1_sbom_licenses.csv");
    assert_eq!(e.license_ref_filename(), "my_sbom__v1_license_ref.csv");
    let files = unpack(&e.generate().unwrap());
    assert_eq!(files.len(), 2);
    assert_eq!(files[0].0, "my_sbom__v1_sbom_licenses.csv");
    assert_eq!(files[1].0, "my_sbom__v1_license_ref.csv");
}

#[test]
fn no_declared_licenses_gives_two_files_and_only_titles() {
    let e = exporter("empty", Vec::new(), Vec::new());
    assert_eq!(e.sbom_licenses_csv(), TITLES.as_bytes());
    assert_eq!(e.license_ref_csv(), REF_TITLES.as_bytes());
    let files = unpack(&e.generate().unwrap());
    assert_eq!(files.len(), 2);
    assert_eq!(files[0].0, "empty_sbom_licenses.csv");
    assert_eq!(files[0].1, TITLES.as_bytes());
    assert_eq!(files[1].0, "empty_license_ref.csv");
    assert_eq!(files[1].1, REF_TITLES.as_bytes());
}

#[test]
fn package_row_has_the_columns_in_order() {
    let mut p = package("logback-core", Some("EPL-1.0"), &["pkg:maven/ch.qos.logback/logback-core@1.5.8?type=jar"], vec![cpe(7, "qos", "logback")]);
    p.group = Some("ch.qos.logback".to_string());
    p.version = Some("1.5.8".to_string());
    let e = exporter("spring-petclinic", vec![p], Vec::new());
    let expected = format!(
        "{}spring-petclinic,urn:example:ns,ch.qos.logback,1.5.8,logback-core,EPL-1.0,pkg:maven/ch.qos.logback/logback-core@1.5.8?type=jar,a,qos,logback,8,,,\n",
        TITLES
    );
    assert_eq!(String::from_utf8(e.sbom_licenses_csv()).unwrap(), expected);
}

#[test]
fn package_without_references_takes_one_row() {
    let e = exporter("s", vec![package("lonely", None, &[], Vec::new())], Vec::new());
    let expected = format!("{}s,urn:example:ns,,1.0,lonely,,,,,,,,,\n", TITLES);
    assert_eq!(String::from_utf8(e.sbom_licenses_csv()).unwrap(), expected);
}

#[test]
fn two_licenses_and_one_purl_give_two_rows_with_the_same_purl() {
    let purl = "pkg:maven/org.hdrhistogram/HdrHistogram@2.2.2?type=jar";
    let packages = vec![
        package("HdrHistogram", Some("BSD-2-Clause"), &[purl], Vec::new()),
        package("HdrHistogram", Some("CC0-1.0"), &[purl], Vec::new()),
    ];
    let e = exporter("spring-petclinic", packages, Vec::new());
    let rows = records(&e.sbom_licenses_csv());
    assert_eq!(rows.len(), 3);
    assert_eq!(rows[1][4], "HdrHistogram");
    assert_eq!(rows[2][4], "HdrHistogram");
    assert_eq!(rows[1][5], "BSD-2-Clause");
    assert_eq!(rows[2][5], "CC0-1.0");
    assert_eq!(rows[1][6], purl);
    assert_eq!(rows[2][6], purl);
    let text = String::from_utf8(e.sbom_licenses_csv()).unwrap();
    assert_eq!(2, text.matches(purl).count());
}

#[test]
fn rows_are_licenses_times_purls() {
    let purls = ["pkg:npm/a@1", "pkg:npm/a@1?x=y", "pkg:golang/a@1"];
    let packages = vec![
        package("a", Some("MIT"), &purls, Vec::new()),
        package("a", Some("Apache-2.0"), &purls, Vec::new()),
    ];
    let e = exporter("s", packages, Vec::new());
    let rows = records(&e.sbom_licenses_csv());
    assert_eq!(rows.len(), 1 + 2 * 3);
    for (l, license) in ["MIT", "Apache-2.0"].iter().enumerate() {
        for (k, purl) in purls.iter().enumerate() {
            let row = &rows[1 + l * 3 + k];
            assert_eq!(row.len(), 14);
            assert_eq!(&row[5], license);
            assert_eq!(&row[6], purl);
        }
    }
}

#[test]
fn purls_and_cpes_are_laid_side_by_side() {
    let packages = vec![package(
        "kernel",
        Some("GPL-2.0-only"),
        &["pkg:rpm/redhat/kernel@5"],
        vec![cpe(1, "redhat", "enterprise_linux"), cpe(2, "redhat", "rhel_eus")],
    )];
    let e = exporter("s", packages, Vec::new());
    let expected = format!(
        "{}s,urn:example:ns,,1.0,kernel,GPL-2.0-only,pkg:rpm/redhat/kernel@5,a,redhat,enterprise_linux,8,,,\ns,urn:example:ns,,1.0,kernel,GPL-2.0-only,,a,redhat,rhel_eus,8,,,\n",
        TITLES
    );
    assert_eq!(String::from_utf8(e.sbom_licenses_csv()).unwrap(), expected);
}

#[test]
fn license_ref_has_one_row_for_each_text() {
    let infos = vec![
        info("LicenseRef-1", "First", "text one", ""),
        info("LicenseRef-2", "Second, with comma", "He said \"no\".\nTwice.", "see above"),
    ];
    let e = exporter("s", Vec::new(), infos);
    let expected = format!(
        "{}LicenseRef-1,First,text one,\nLicenseRef-2,\"Second, with comma\",\"He said \"\"no\"\".\nTwice.\",see above\n",
        REF_TITLES
    );
    assert_eq!(String::from_utf8(e.license_ref_csv()).unwrap(), expected);
    let rows = records(&e.license_ref_csv());
    assert_eq!(rows.len(), 3);
    assert_eq!(rows[2][2], "He said \"no\".\nTwice.");
}

#[test]
fn archive_holds_the_two_tables() {
    let packages = vec![package("a", Some("MIT"), &["pkg:npm/a@1"], Vec::new())];
    let infos = vec![info("LicenseRef-1", "First", "text one", "c")];
    let e = exporter("MTV-2.6", packages, infos);
    let first = e.sbom_licenses_csv();
    let second = e.license_ref_csv();
    let compressed_data = e.generate().unwrap();
    assert_eq!(&compressed_data[..2], &[0x1f, 0x8b]);
    let files = unpack(&compressed_data);
    assert_eq!(files.len(), 2);
    assert_eq!(files[0], ("MTV-2.6_sbom_licenses.csv".to_string(), first));
    assert_eq!(files[1], ("MTV-2.6_license_ref.csv".to_string(), second));
}

#[test]
fn report_has_exactly_two_files() {
    let packages = vec![package("a", Some("MIT"), &["pkg:npm/a@1"], Vec::new())];
    let e = exporter("a b", packages, vec![info("L", "n", "t", "c")]);
    let files = e.files();
    assert_eq!(files.len(), 2);
    assert_eq!(files[0].name, "a_b_sbom_licenses.csv");
    assert_eq!(files[0].data, e.sbom_licenses_csv());
    assert_eq!(files[1].name, "a_b_license_ref.csv");
    assert_eq!(files[1].data, e.license_ref_csv());
}

#[test]
fn archive_is_two_entries_and_two_closing_blocks() {
    let packages = vec![package("a", Some("MIT"), &["pkg:npm/a@1"], Vec::new())];
    let e = exporter("doc", packages, vec![info("L", "n", "t", "c")]);
    let first = e.sbom_licenses_csv();
    let second = e.license_ref_csv();
    let mut archive = Vec::new();
    GzDecoder::new(&e.generate().unwrap()[..]).read_to_end(&mut archive).unwrap();
    let blocks = |len: usize| (len + 511) / 512 * 512;
    assert_eq!(archive.len(), 512 + blocks(first.len()) + 512 + blocks(second.len()) + 1024);
    assert!(archive[archive.len() - 1024..].iter().all(|b| *b == 0));
    assert_eq!(&archive[..22], b"doc_sbom_licenses.csv\0");
    assert_eq!(&archive[512..512 + first.len()], &first[..]);
    let next = 512 + blocks(first.len());
    assert_eq!(&archive[next..next + 20], b"doc_license_ref.csv\0");
    assert_eq!(&archive[next + 512..next + 512 + second.len()], &second[..]);
    assert_eq!(&archive[100..108], b"0000644\0");
}

#[test]
fn archive_is_the_same_every_time() {
    let make = || {
        exporter("s", vec![package("a", Some("MIT"), &["pkg:npm/a@1"], Vec::new())], vec![info("L", "n", "t", "c")])
    };
    assert_eq!(make().generate().unwrap(), make().generate().unwrap());
}

#[test]
fn forty_five_texts_and_2294_rows() {
    let mut packages = Vec::new();
    for i in 0..2294 {
        let purl = format!("pkg:rpm/redhat/package-{}@1.0", i);
        packages.push(package(&format!("package-{}", i), Some("NOASSERTION"), &[purl.as_str()], Vec::new()));
    }
    let mut infos = Vec::new();
    for i in 0..45 {
        infos.push(info(&format!("LicenseRef-{}", i), &format!("Custom {}", i), "Some \"text\",\nwith lines", ""));
    }
    let e = exporter("SATELLITE-6.15-RHEL-8", packages, infos);
    let files = unpack(&e.generate().unwrap());
    assert_eq!(files.len(), 2);
    assert_eq!(files[0].0, "SATELLITE-6.15-RHEL-8_sbom_licenses.csv");
    assert_eq!(files[1].0, "SATELLITE-6.15-RHEL-8_license_ref.csv");
    assert_eq!(records(&files[0].1).len() - 1, 2294);
    assert_eq!(records(&files[1].1).len() - 1, 45);
}

#[test]
fn failed_packing_is_an_archive_error() {
    let failed: Result<Vec<u8>, std::io::Error> = Err(std::io::Error::other("disk full"));
    assert_eq!(archived(failed), Err(ExportError::Archive));
    assert_eq!(archived(Ok(vec![1, 2, 3])), Ok(vec![1, 2, 3]));
}

#[test]
fn failed_compression_is_a_compression_error() {
    let failed: Result<Vec<u8>, std::io::Error> = Err(std::io::Error::other("no memory"));
    assert_eq!(compressed(failed), Err(ExportError::Compression));
    assert_eq!(compressed(Ok(vec![9])), Ok(vec![9]));
}

#[test]
fn export_errors_say_what_went_wrong() {
    assert_eq!(ExportError::Archive.message(), "the license archive could not be built");
    assert_eq!(ExportError::Compression.message(), "the license archive could not be compressed");
}
