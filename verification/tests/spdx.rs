use sbom_licenses::license::model::SpdxLicenseSummary;
use sbom_licenses::license::service::spdx::{find_license, select_licenses};
use sbom_licenses::license::service::LicenseService;
use sbom_licenses::model::{Paginated, Query};

fn table() -> Vec<SpdxLicenseSummary> {
    [
        ("0BSD", "BSD Zero Clause License"),
        ("Apache-1.1", "Apache License 1.1"),
        ("Apache-2.0", "Apache License 2.0"),
        ("BSD-2-Clause", "BSD 2-Clause \"Simplified\" License"),
        ("EPL-2.0", "Eclipse Public License 2.0"),
        ("MIT", "MIT License"),
    ]
    .iter()
    .map(|(id, name)| SpdxLicenseSummary { id: id.to_string(), name: name.to_string() })
    .collect()
}

fn query(q: &str) -> Query {
    Query { q: q.to_string() }
}

fn ids(items: &[SpdxLicenseSummary]) -> Vec<&str> {
    items.iter().map(|l| l.id.as_str()).collect()
}

#[test]
fn empty_search_selects_everything() {
    let r = select_licenses(&table(), &query(""), Paginated { offset: 0, limit: 0 });
    assert_eq!(r.total, 6);
    assert_eq!(ids(&r.items), vec!["0BSD", "Apache-1.1", "Apache-2.0", "BSD-2-Clause", "EPL-2.0", "MIT"]);
}

#[test]
fn search_looks_at_identifier_and_name_whatever_the_case() {
    let r = select_licenses(&table(), &query("bsd"), Paginated { offset: 0, limit: 0 });
    assert_eq!(r.total, 2);
    assert_eq!(ids(&r.items), vec!["0BSD", "BSD-2-Clause"]);
    let r = select_licenses(&table(), &query("ECLIPSE"), Paginated { offset: 0, limit: 0 });
    assert_eq!(ids(&r.items), vec!["EPL-2.0"]);
    assert_eq!(r.items[0].name, "Eclipse Public License 2.0");
    let r = select_licenses(&table(), &query("nothing like it"), Paginated { offset: 0, limit: 0 });
    assert_eq!(r.total, 0);
    assert!(r.items.is_empty());
}

#[test]
fn page_is_cut_by_offset_and_limit() {
    let r = select_licenses(&table(), &query("license"), Paginated { offset: 1, limit: 2 });
    assert_eq!(r.total, 6);
    assert_eq!(ids(&r.items), vec!["Apache-1.1", "Apache-2.0"]);
    let r = select_licenses(&table(), &query("license"), Paginated { offset: 4, limit: 5 });
    assert_eq!(r.total, 6);
    assert_eq!(ids(&r.items), vec!["EPL-2.0", "MIT"]);
    let r = select_licenses(&table(), &query("license"), Paginated { offset: 6, limit: 5 });
    assert_eq!(r.total, 6);
    assert!(r.items.is_empty());
    let r = select_licenses(&table(), &query("license"), Paginated { offset: 7, limit: 0 });
    assert_eq!(r.total, 6);
    assert!(r.items.is_empty());
    let r = select_licenses(&table(), &query("apache"), Paginated { offset: 1, limit: 1 });
    assert_eq!(r.total, 2);
    assert_eq!(ids(&r.items), vec!["Apache-2.0"]);
    let r = select_licenses(&table(), &query("apache"), Paginated { offset: u64::MAX, limit: u64::MAX });
    assert_eq!(r.total, 2);
    assert!(r.items.is_empty());
}

#[test]
fn find_license_ignores_the_case_of_ascii_letters() {
    assert_eq!(find_license(&table(), "mit"), Some(5));
    assert_eq!(find_license(&table(), "apache-2.0"), Some(2));
    assert_eq!(find_license(&table(), "APACHE-1.1"), Some(1));
    assert_eq!(find_license(&table(), "Apache"), None);
    assert_eq!(find_license(&table(), ""), None);
}

#[test]
fn list_spdx_licenses_searches_the_spdx_list() {
    let service = LicenseService::new();
    let all = service.list_spdx_licenses(query(""), Paginated { offset: 0, limit: 0 });
    assert_eq!(all.total as usize, spdx::identifiers::LICENSES.len());
    assert_eq!(all.items.len(), spdx::identifiers::LICENSES.len());
    assert_eq!(all.items[0].id, spdx::identifiers::LICENSES[0].0);
    assert_eq!(all.items[0].name, spdx::identifiers::LICENSES[0].1);

    let expected: Vec<&str> = spdx::identifiers::LICENSES
        .iter()
        .filter(|(identifier, name, _)| {
            identifier.to_lowercase().contains("apache") || name.to_lowercase().contains("apache")
        })
        .map(|(identifier, _, _)| *identifier)
        .collect();
    assert!(expected.len() > 2);
    let found = service.list_spdx_licenses(query("ApAcHe"), Paginated { offset: 0, limit: 0 });
    assert_eq!(found.total as usize, expected.len());
    assert_eq!(ids(&found.items), expected);

    let second = service.list_spdx_licenses(query("apache"), Paginated { offset: 1, limit: 2 });
    assert_eq!(second.total as usize, expected.len());
    assert_eq!(ids(&second.items), expected[1..3].to_vec());
}

#[test]
fn get_spdx_license_gives_summary_and_text() {
    let service = LicenseService::new();
    let details = service.get_spdx_license("apache-2.0").unwrap();
    assert_eq!(details.summary.id, "Apache-2.0");
    assert_eq!(details.summary.name, "Apache License 2.0");
    let expected = spdx::text::LICENSE_TEXTS.iter().find(|(id, _)| *id == "Apache-2.0").unwrap().1;
    assert_eq!(details.text, expected);
    assert!(details.text.contains("Apache License"));
    assert!(service.get_spdx_license("no-such-license").is_none());
    assert!(service.get_spdx_license("").is_none());
}
