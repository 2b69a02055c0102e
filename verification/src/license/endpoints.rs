//! What the download endpoint answers.
//!
//! The endpoint is asked for the license report of a document by an
//! identifier. It answers with the compressed archive, offered under a file
//! name made from the name of the document, or says that the identifier is
//! malformed, that no such document is stored, or that the archive could not
//! be made. It never answers with a part of an archive.

use vstd::prelude::*;
use crate::archive::is_safe_filename;
use crate::csv::{encoded_record, read_table, record_count};
use crate::entity::sbom_package_license::LicenseCategory;
use crate::id::{parsed_id, Id, IdError, IdView};
use crate::license::model::sbom_license::SbomPackageLicenseView;
use crate::license::service::license_export::{
    archive_filename, lemma_filenames_are_safe, lemma_license_ref_record_count,
    lemma_no_licenses_titles_only, lemma_one_row_per_entry, lemma_sbom_licenses_record_count,
    license_ref_table, sbom_licenses_header, sbom_licenses_table, single_reference, total_span,
    ExportError, LicenseExporter, LicenseExporterView,
};
use crate::license::service::{
    first_named, lemma_report_lists_each_licensing_info_once,
    lemma_report_without_declared_licenses, license_export_of, licensing_info_ids,
    LicenseService,
};
use crate::license::{get_sanitize_filename, sanitized};
use crate::store::{Store, StoreView};
use crate::table::distinct_keys;

verus! {

/// An answer of the endpoint.
#[derive(Debug, Clone)]
pub enum LicenseExportResponse {
    /// The archive, with the headers that it is sent with.
    Archive { content_type: String, content_disposition: String, body: Vec<u8> },
    /// The identifier is malformed.
    BadRequest(IdError),
    /// No stored document goes by the identifier.
    NotFound,
    /// The archive could not be made.
    InternalServerError(ExportError),
}

/// What a [`LicenseExportResponse`] holds.
pub ghost enum LicenseExportResponseView {
    Archive { content_type: Seq<char>, content_disposition: Seq<char>, body: Seq<u8> },
    BadRequest(IdError),
    NotFound,
    InternalServerError(ExportError),
}

impl DeepView for LicenseExportResponse {
    type V = LicenseExportResponseView;

    open spec fn deep_view(&self) -> LicenseExportResponseView {
        match self {
            LicenseExportResponse::Archive {
                content_type,
                content_disposition,
                body,
            } => LicenseExportResponseView::Archive {
                content_type: content_type@,
                content_disposition: content_disposition@,
                body: body@,
            },
            LicenseExportResponse::BadRequest(e) => LicenseExportResponseView::BadRequest(*e),
            LicenseExportResponse::NotFound => LicenseExportResponseView::NotFound,
            LicenseExportResponse::InternalServerError(
                e,
            ) => LicenseExportResponseView::InternalServerError(*e),
        }
    }
}

impl LicenseExportResponse {
    /// The status code of the answer.
    pub fn status(&self) -> (code: u16)
        ensures
            code == (match self.deep_view() {
                LicenseExportResponseView::Archive { .. } => 200u16,
                LicenseExportResponseView::BadRequest(_) => 400u16,
                LicenseExportResponseView::NotFound => 404u16,
                LicenseExportResponseView::InternalServerError(_) => 500u16,
            }),
    {
        match self {
            LicenseExportResponse::Archive { .. } => 200,
            LicenseExportResponse::BadRequest(_) => 400,
            LicenseExportResponse::NotFound => 404,
            LicenseExportResponse::InternalServerError(_) => 500,
        }
    }
}

/// The header that offers the archive of a document called `name` for
/// download.
pub open spec fn content_disposition(name: Seq<char>) -> Seq<char> {
    "attachment; filename=\""@ + archive_filename(name) + "\""@
}

/// The answer that delivers an archive.
pub open spec fn delivery(name: Seq<char>, body: Seq<u8>) -> LicenseExportResponseView {
    LicenseExportResponseView::Archive {
        content_type: "application/gzip"@,
        content_disposition: content_disposition(name),
        body,
    }
}

/// The answer for a document called `sbom_name` once its report was rendered:
/// the archive with its headers where rendering succeeded, the error where it
/// failed.
pub fn export_response(sbom_name: String, outcome: Result<Vec<u8>, ExportError>) -> (r:
    LicenseExportResponse)
    ensures
        r.deep_view() == (match outcome {
            Ok(body) => delivery(sbom_name@, body@),
            Err(e) => LicenseExportResponseView::InternalServerError(e),
        }),
{
    match outcome {
        Ok(body) => {
            let mut content_disposition = "attachment; filename=\"".to_owned();
            let mut filename = get_sanitize_filename(sbom_name);
            filename.append("_licenses.tar.gz");
            content_disposition.append(filename.as_str());
            content_disposition.append("\"");
            LicenseExportResponse::Archive {
                content_type: "application/gzip".to_owned(),
                content_disposition,
                body,
            }
        },
        Err(e) => LicenseExportResponse::InternalServerError(e),
    }
}

/// The report on the document that `id` names, where the store holds one.
pub open spec fn report_of(store: StoreView, id: IdView) -> Option<LicenseExporterView> {
    let export = license_export_of(store, id);
    match export.sbom {
        None => None,
        Some(sbom) => Some(
            LicenseExporterView {
                sbom,
                sbom_license: export.packages,
                extracted_licensing_infos: export.licensing_infos,
            },
        ),
    }
}

/// The answer to a request for the report of the document that `id` spells.
///
/// A malformed identifier is refused. An identifier that names no stored
/// document is answered with "not found", never with an archive and never
/// with an error. For a stored document the answer is the archive of its
/// report where the report can be rendered, and else the error that kept
/// the archive from being made.
pub open spec fn answer(store: StoreView, id: Seq<char>) -> LicenseExportResponseView {
    match parsed_id(id) {
        Err(e) => LicenseExportResponseView::BadRequest(e),
        Ok(id) => match report_of(store, id) {
            None => LicenseExportResponseView::NotFound,
            Some(report) => match report.rendered() {
                Ok(body) => delivery(report.sbom.sbom_name, body),
                Err(e) => LicenseExportResponseView::InternalServerError(e),
            },
        },
    }
}

/// A request with a well-formed identifier that names no stored document
/// has one answer only: "not found". It is never answered with an archive
/// and never with an error.
pub proof fn lemma_unknown_document_is_not_found(store: StoreView, id: Seq<char>)
    requires
        parsed_id(id) is Ok,
        first_named(store.sboms, parsed_id(id)->Ok_0, 0) is None,
    ensures
        answer(store, id) == LicenseExportResponseView::NotFound,
{
}

/// A request for a stored document is answered with an archive exactly where
/// the report of the document can be rendered. The archive is then the whole
/// compressed archive of the report, which holds exactly two files, sent as
/// a gzip stream and offered under the file name made from the name of the
/// document. Where the report cannot be rendered, the answer is the error
/// and no part of an archive.
pub proof fn lemma_stored_document_is_answered(store: StoreView, id: Seq<char>)
    requires
        parsed_id(id) is Ok,
        first_named(store.sboms, parsed_id(id)->Ok_0, 0) is Some,
    ensures
        report_of(store, parsed_id(id)->Ok_0) is Some,
        answer(store, id) is Archive <==> report_of(store, parsed_id(id)->Ok_0)->0.rendered()
            is Ok,
        answer(store, id) is Archive ==> answer(store, id) == delivery(
            report_of(store, parsed_id(id)->Ok_0)->0.sbom.sbom_name,
            report_of(store, parsed_id(id)->Ok_0)->0.compressed_archive(),
        ),
        report_of(store, parsed_id(id)->Ok_0)->0.files().len() == 2,
        !(answer(store, id) is Archive) ==> answer(store, id)
            == LicenseExportResponseView::InternalServerError(
            report_of(store, parsed_id(id)->Ok_0)->0.rendered()->Err_0,
        ),
{
}

/// An archive is sent only for a stored document, and it is the archive of
/// the report of that document.
pub proof fn lemma_archive_is_for_a_stored_document(store: StoreView, id: Seq<char>)
    requires
        answer(store, id) is Archive,
    ensures
        parsed_id(id) is Ok,
        first_named(store.sboms, parsed_id(id)->Ok_0, 0) is Some,
        report_of(store, parsed_id(id)->Ok_0) is Some,
        answer(store, id) == delivery(
            report_of(store, parsed_id(id)->Ok_0)->0.sbom.sbom_name,
            report_of(store, parsed_id(id)->Ok_0)->0.compressed_archive(),
        ),
{
}

/// The archive that answers a request for a stored document without declared
/// licenses holds a file of packages and licenses with the line of titles
/// and nothing else.
pub proof fn lemma_answer_without_declared_licenses(store: StoreView, id: Seq<char>)
    requires
        parsed_id(id) is Ok,
        first_named(store.sboms, parsed_id(id)->Ok_0, 0) is Some,
        forall|i: int|
            0 <= i < store.package_licenses.len() ==> !({
                &&& (#[trigger] store.package_licenses[i]).sbom_id == store.sboms[first_named(
                    store.sboms,
                    parsed_id(id)->Ok_0,
                    0,
                ).unwrap()].sbom_id
                &&& store.package_licenses[i].license_type == LicenseCategory::Declared
            }),
    ensures
        report_of(store, parsed_id(id)->Ok_0) is Some,
        report_of(store, parsed_id(id)->Ok_0)->0.files().len() == 2,
        report_of(store, parsed_id(id)->Ok_0)->0.files()[0].1 == encoded_record(
            sbom_licenses_header(),
        ),
        read_table(report_of(store, parsed_id(id)->Ok_0)->0.files()[0].1)
            == seq![sbom_licenses_header()],
{
    lemma_report_without_declared_licenses(store, parsed_id(id)->Ok_0);
    let report = report_of(store, parsed_id(id)->Ok_0)->0;
    assert(report.sbom_license =~= Seq::<SbomPackageLicenseView>::empty());
    lemma_no_licenses_titles_only(report.sbom);
}

/// In the archive that answers a request for a stored document, a reader of
/// the two files gets back the two tables. The file of packages and licenses
/// has, beside the titles, one record for each row that the entries span,
/// which is one for each entry where no entry has more than one package URL
/// or more than one platform identifier. The file of license texts has,
/// beside the titles, exactly one record for each license text that the
/// store holds for the document, also where it holds none.
pub proof fn lemma_answer_tables(store: StoreView, id: Seq<char>)
    requires
        parsed_id(id) is Ok,
        first_named(store.sboms, parsed_id(id)->Ok_0, 0) is Some,
        distinct_keys(store.licensing_infos),
    ensures
        report_of(store, parsed_id(id)->Ok_0) is Some,
        read_table(report_of(store, parsed_id(id)->Ok_0)->0.files()[0].1) == sbom_licenses_table(
            report_of(store, parsed_id(id)->Ok_0)->0.sbom,
            report_of(store, parsed_id(id)->Ok_0)->0.sbom_license,
        ),
        record_count(report_of(store, parsed_id(id)->Ok_0)->0.files()[0].1) == 1 + total_span(
            report_of(store, parsed_id(id)->Ok_0)->0.sbom_license,
        ),
        (forall|i: int|
            0 <= i < report_of(store, parsed_id(id)->Ok_0)->0.sbom_license.len()
                ==> single_reference(
                #[trigger] report_of(store, parsed_id(id)->Ok_0)->0.sbom_license[i],
            )) ==> record_count(report_of(store, parsed_id(id)->Ok_0)->0.files()[0].1) == 1
            + report_of(store, parsed_id(id)->Ok_0)->0.sbom_license.len(),
        read_table(report_of(store, parsed_id(id)->Ok_0)->0.files()[1].1) == license_ref_table(
            report_of(store, parsed_id(id)->Ok_0)->0.extracted_licensing_infos,
        ),
        licensing_info_ids(
            store,
            store.sboms[first_named(store.sboms, parsed_id(id)->Ok_0, 0).unwrap()].sbom_id,
        ).finite(),
        record_count(report_of(store, parsed_id(id)->Ok_0)->0.files()[1].1) == 1
            + licensing_info_ids(
            store,
            store.sboms[first_named(store.sboms, parsed_id(id)->Ok_0, 0).unwrap()].sbom_id,
        ).len(),
{
    let report = report_of(store, parsed_id(id)->Ok_0)->0;
    lemma_sbom_licenses_record_count(report.sbom, report.sbom_license);
    lemma_license_ref_record_count(report.extracted_licensing_infos);
    lemma_report_lists_each_licensing_info_once(store, parsed_id(id)->Ok_0);
    if forall|i: int|
        0 <= i < report.sbom_license.len() ==> single_reference(#[trigger] report.sbom_license[i]) {
        lemma_one_row_per_entry(report.sbom_license);
    }
}

/// The file name under which an archive is offered is made of safe
/// characters only, whatever the document is called: no path separator and
/// no reserved character stands in it, and it begins with the same token as
/// the names of the two files in the archive.
pub proof fn lemma_answer_filename_is_sanitized(store: StoreView, id: Seq<char>)
    requires
        answer(store, id) is Archive,
    ensures
        report_of(store, parsed_id(id)->Ok_0) is Some,
        answer(store, id)->content_type == "application/gzip"@,
        answer(store, id)->content_disposition == "attachment; filename=\""@ + archive_filename(
            report_of(store, parsed_id(id)->Ok_0)->0.sbom.sbom_name,
        ) + "\""@,
        is_safe_filename(
            archive_filename(report_of(store, parsed_id(id)->Ok_0)->0.sbom.sbom_name),
        ),
        sanitized(report_of(store, parsed_id(id)->Ok_0)->0.sbom.sbom_name).is_prefix_of(
            archive_filename(report_of(store, parsed_id(id)->Ok_0)->0.sbom.sbom_name),
        ),
        sanitized(report_of(store, parsed_id(id)->Ok_0)->0.sbom.sbom_name).is_prefix_of(
            report_of(store, parsed_id(id)->Ok_0)->0.files()[0].0,
        ),
        sanitized(report_of(store, parsed_id(id)->Ok_0)->0.sbom.sbom_name).is_prefix_of(
            report_of(store, parsed_id(id)->Ok_0)->0.files()[1].0,
        ),
{
    lemma_filenames_are_safe(report_of(store, parsed_id(id)->Ok_0)->0.sbom.sbom_name);
}

/// Answers a request for the license report of the document that `id`
/// spells.
pub fn get_license_export(fetcher: &LicenseService, store: &Store, id: &str) -> (r:
    LicenseExportResponse)
    ensures
        r.deep_view() == answer(store@, id@),
{
    let id = match Id::parse(id) {
        Ok(id) => id,
        Err(e) => {
            return LicenseExportResponse::BadRequest(e);
        },
    };
    let (sbom_license_list, sbom_license_info_list, sbom_name_version_group) =
        fetcher.license_export(&id, store);
    match sbom_name_version_group {
        Some(name_group_version) => {
            let sbom_name = name_group_version.sbom_name.clone();
            let exporter = LicenseExporter::new(
                name_group_version.sbom_namespace,
                name_group_version.sbom_name,
                name_group_version.sbom_group,
                name_group_version.sbom_version,
                sbom_license_list,
                sbom_license_info_list,
            );
            export_response(sbom_name, exporter.generate())
        },
        None => LicenseExportResponse::NotFound,
    }
}

} // verus!
