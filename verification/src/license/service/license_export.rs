//! Rendering a license report as a compressed archive of two tables.
//!
//! The first table lists the packages of a document with their licenses, the
//! second the license texts that the document defines for itself. Both are
//! named after the document.

use vstd::prelude::*;
use vstd::utf8::encode_utf8;
use crate::archive::{
    archive_of, end_of_archive, file_entries, file_entry, gzip, gzip_stream, gzipped,
    is_safe_filename, pack, packed, NamedFile, FILE_MODE,
};
use crate::csv::{
    encoded_record, encoded_table, has_fields, lemma_read_table, read_table, record_count,
    write_record,
};
use crate::license::model::sbom_license::{
    Cpe, CpeView, ExtractedLicensingInfos, ExtractedLicensingInfosView, SbomNameGroupVersionView,
    SbomPackageLicense, SbomPackageLicenseView,
};
use crate::license::{get_sanitize_filename, is_filename_safe, sanitized};

verus! {

/// A text as a field of a table.
pub open spec fn text_field(text: Seq<char>) -> Seq<u8> {
    encode_utf8(text)
}

/// A text that may be missing as a field of a table: empty where it is.
pub open spec fn optional_field(text: Option<Seq<char>>) -> Seq<u8> {
    match text {
        Some(t) => encode_utf8(t),
        None => Seq::empty(),
    }
}

/// The column titles of the table of packages and licenses.
pub open spec fn sbom_licenses_header() -> Seq<Seq<u8>> {
    seq![
        text_field("SBOM name"@),
        text_field("SBOM namespace"@),
        text_field("package group"@),
        text_field("package version"@),
        text_field("package name"@),
        text_field("license"@),
        text_field("package purl"@),
        text_field("cpe part"@),
        text_field("cpe vendor"@),
        text_field("cpe product"@),
        text_field("cpe version"@),
        text_field("cpe update"@),
        text_field("cpe edition"@),
        text_field("cpe language"@),
    ]
}

/// The column titles of the table of license texts.
pub open spec fn license_ref_header() -> Seq<Seq<u8>> {
    seq![
        text_field("licenseId"@),
        text_field("name"@),
        text_field("extracted text"@),
        text_field("comment"@),
    ]
}

/// The number of rows that one package with one license takes: one for each
/// of its package URLs or platform identifiers, whichever are more, and one
/// row where it has neither.
pub open spec fn row_span(entry: SbomPackageLicenseView) -> nat {
    let purls = entry.purl.len();
    let cpes = entry.other_reference.len();
    if purls == 0 && cpes == 0 {
        1
    } else if purls >= cpes {
        purls
    } else {
        cpes
    }
}

/// The package URL in row `k` of an entry: the `k`-th, or nothing.
pub open spec fn purl_field(entry: SbomPackageLicenseView, k: int) -> Seq<u8> {
    if 0 <= k < entry.purl.len() {
        text_field(entry.purl[k])
    } else {
        Seq::empty()
    }
}

/// The fields of one platform identifier.
pub open spec fn cpe_fields(cpe: CpeView) -> Seq<Seq<u8>> {
    seq![
        optional_field(cpe.part),
        optional_field(cpe.vendor),
        optional_field(cpe.product),
        optional_field(cpe.version),
        optional_field(cpe.update),
        optional_field(cpe.edition),
        optional_field(cpe.language),
    ]
}

/// The platform identifier in row `k` of an entry: the fields of the `k`-th,
/// or seven empty fields.
pub open spec fn cpe_columns(entry: SbomPackageLicenseView, k: int) -> Seq<Seq<u8>> {
    if 0 <= k < entry.other_reference.len() {
        cpe_fields(entry.other_reference[k])
    } else {
        Seq::new(7, |i: int| Seq::<u8>::empty())
    }
}

/// Row `k` of an entry: the document, the package, the license, then the
/// `k`-th package URL and the `k`-th platform identifier of the package.
pub open spec fn package_row(
    sbom: SbomNameGroupVersionView,
    entry: SbomPackageLicenseView,
    k: int,
) -> Seq<Seq<u8>> {
    seq![
        text_field(sbom.sbom_name),
        text_field(sbom.sbom_namespace),
        optional_field(entry.group),
        optional_field(entry.version),
        text_field(entry.name),
        optional_field(entry.license_text),
        purl_field(entry, k),
    ] + cpe_columns(entry, k)
}

/// The first `n` rows of an entry.
pub open spec fn entry_rows(
    sbom: SbomNameGroupVersionView,
    entry: SbomPackageLicenseView,
    n: nat,
) -> Seq<Seq<Seq<u8>>> {
    Seq::new(n, |k: int| package_row(sbom, entry, k))
}

/// The rows of all entries, entry after entry.
pub open spec fn package_rows(
    sbom: SbomNameGroupVersionView,
    entries: Seq<SbomPackageLicenseView>,
) -> Seq<Seq<Seq<u8>>>
    decreases entries.len(),
{
    if entries.len() == 0 {
        Seq::empty()
    } else {
        package_rows(sbom, entries.drop_last()) + entry_rows(
            sbom,
            entries.last(),
            row_span(entries.last()),
        )
    }
}

/// The number of rows that the entries take together.
pub open spec fn total_span(entries: Seq<SbomPackageLicenseView>) -> nat
    decreases entries.len(),
{
    if entries.len() == 0 {
        0
    } else {
        total_span(entries.drop_last()) + row_span(entries.last())
    }
}

/// The table of packages and licenses: the titles, then the rows.
pub open spec fn sbom_licenses_table(
    sbom: SbomNameGroupVersionView,
    entries: Seq<SbomPackageLicenseView>,
) -> Seq<Seq<Seq<u8>>> {
    seq![sbom_licenses_header()] + package_rows(sbom, entries)
}

/// The row of one license text.
pub open spec fn license_ref_row(info: ExtractedLicensingInfosView) -> Seq<Seq<u8>> {
    seq![
        text_field(info.license_id),
        text_field(info.name),
        text_field(info.extracted_text),
        text_field(info.comment),
    ]
}

/// The rows of the license texts, one for each, in their order.
pub open spec fn license_ref_rows(infos: Seq<ExtractedLicensingInfosView>) -> Seq<Seq<Seq<u8>>> {
    Seq::new(infos.len(), |i: int| license_ref_row(infos[i]))
}

/// The table of license texts: the titles, then the rows.
pub open spec fn license_ref_table(infos: Seq<ExtractedLicensingInfosView>) -> Seq<Seq<Seq<u8>>> {
    seq![license_ref_header()] + license_ref_rows(infos)
}

/// The file that holds the table of packages and licenses.
pub open spec fn sbom_licenses_csv(
    sbom: SbomNameGroupVersionView,
    entries: Seq<SbomPackageLicenseView>,
) -> Seq<u8> {
    encoded_table(sbom_licenses_table(sbom, entries))
}

/// The file that holds the table of license texts.
pub open spec fn license_ref_csv(infos: Seq<ExtractedLicensingInfosView>) -> Seq<u8> {
    encoded_table(license_ref_table(infos))
}

/// The name of the file of packages and licenses for a document called `name`.
pub open spec fn sbom_licenses_filename(name: Seq<char>) -> Seq<char> {
    sanitized(name) + "_sbom_licenses.csv"@
}

/// The name of the file of license texts for a document called `name`.
pub open spec fn license_ref_filename(name: Seq<char>) -> Seq<char> {
    sanitized(name) + "_license_ref.csv"@
}

/// The name under which the archive for a document called `name` is offered.
pub open spec fn archive_filename(name: Seq<char>) -> Seq<char> {
    sanitized(name) + "_licenses.tar.gz"@
}

/// Why a report could not be delivered.
#[derive(Debug, Clone, Copy, PartialEq, Eq, Structural)]
pub enum ExportError {
    /// The archive could not be put together.
    Archive,
    /// The archive could not be compressed.
    Compression,
}

impl ExportError {
    /// A sentence that says what went wrong.
    pub fn message(&self) -> (r: String)
        ensures
            r@ == (match *self {
                ExportError::Archive => "the license archive could not be built"@,
                ExportError::Compression => "the license archive could not be compressed"@,
            }),
    {
        match self {
            ExportError::Archive => "the license archive could not be built".to_owned(),
            ExportError::Compression => "the license archive could not be compressed".to_owned(),
        }
    }
}

/// A report that is ready to be rendered: the identity of the document, its
/// packages with their licenses, and the license texts that it defines.
pub struct LicenseExporter {
    sbom_namespace: String,
    sbom_name: String,
    sbom_group: Option<String>,
    sbom_version: String,
    sbom_license: Vec<SbomPackageLicense>,
    extracted_licensing_infos: Vec<ExtractedLicensingInfos>,
}

/// What a [`LicenseExporter`] holds.
pub ghost struct LicenseExporterView {
    pub sbom: SbomNameGroupVersionView,
    pub sbom_license: Seq<SbomPackageLicenseView>,
    pub extracted_licensing_infos: Seq<ExtractedLicensingInfosView>,
}

impl LicenseExporterView {
    /// The file of packages and licenses of this report.
    pub open spec fn sbom_licenses_csv(self) -> Seq<u8> {
        sbom_licenses_csv(self.sbom, self.sbom_license)
    }

    /// The file of license texts of this report.
    pub open spec fn license_ref_csv(self) -> Seq<u8> {
        license_ref_csv(self.extracted_licensing_infos)
    }

    /// The files of this report: the file of packages and licenses, then the
    /// file of license texts, each under its name.
    pub open spec fn files(self) -> Seq<(Seq<char>, Seq<u8>)> {
        seq![
            (sbom_licenses_filename(self.sbom.sbom_name), self.sbom_licenses_csv()),
            (license_ref_filename(self.sbom.sbom_name), self.license_ref_csv()),
        ]
    }

    /// The archive of this report before it is compressed.
    pub open spec fn archive(self) -> Seq<u8> {
        archive_of(self.files())
    }

    /// The compressed archive of this report.
    pub open spec fn compressed_archive(self) -> Seq<u8> {
        gzip_stream(self.archive())
    }

    /// What rendering this report gives: the compressed archive where the two
    /// files can be packed and the archive can be compressed,
    /// [`ExportError::Archive`] where they cannot be packed, and
    /// [`ExportError::Compression`] where the archive cannot be compressed.
    pub open spec fn rendered(self) -> Result<Seq<u8>, ExportError> {
        match packed(self.files()) {
            None => Err(ExportError::Archive),
            Some(archive) => match gzipped(archive) {
                Some(stream) => Ok(stream),
                None => Err(ExportError::Compression),
            },
        }
    }
}

/// What the outcome of rendering holds.
pub open spec fn rendering_view(outcome: Result<Vec<u8>, ExportError>) -> Result<
    Seq<u8>,
    ExportError,
> {
    match outcome {
        Ok(bytes) => Ok(bytes@),
        Err(e) => Err(e),
    }
}

fn text_bytes(text: &String) -> (r: Vec<u8>)
    ensures
        r@ == text_field(text@),
        r.deep_view() == text_field(text@),
{
    let r = text.as_str().as_bytes_vec();
    r
}

fn literal_bytes(text: &str) -> (r: Vec<u8>)
    ensures
        r@ == text_field(text@),
        r.deep_view() == text_field(text@),
{
    let r = text.as_bytes_vec();
    r
}

fn optional_bytes(text: &Option<String>) -> (r: Vec<u8>)
    ensures
        r@ == optional_field(text.deep_view()),
        r.deep_view() == optional_field(text.deep_view()),
{
    let r = match text {
        Some(t) => t.as_str().as_bytes_vec(),
        None => Vec::new(),
    };
    r
}

fn push_field(fields: &mut Vec<Vec<u8>>, field: Vec<u8>)
    ensures
        final(fields).deep_view() == old(fields).deep_view().push(field.deep_view()),
{
    fields.push(field);
}

fn sbom_licenses_titles() -> (r: Vec<Vec<u8>>)
    ensures
        r.deep_view() == sbom_licenses_header(),
{
    let mut fields: Vec<Vec<u8>> = Vec::new();
    push_field(&mut fields, literal_bytes("SBOM name"));
    push_field(&mut fields, literal_bytes("SBOM namespace"));
    push_field(&mut fields, literal_bytes("package group"));
    push_field(&mut fields, literal_bytes("package version"));
    push_field(&mut fields, literal_bytes("package name"));
    push_field(&mut fields, literal_bytes("license"));
    push_field(&mut fields, literal_bytes("package purl"));
    push_field(&mut fields, literal_bytes("cpe part"));
    push_field(&mut fields, literal_bytes("cpe vendor"));
    push_field(&mut fields, literal_bytes("cpe product"));
    push_field(&mut fields, literal_bytes("cpe version"));
    push_field(&mut fields, literal_bytes("cpe update"));
    push_field(&mut fields, literal_bytes("cpe edition"));
    push_field(&mut fields, literal_bytes("cpe language"));
    fields
}

fn license_ref_titles() -> (r: Vec<Vec<u8>>)
    ensures
        r.deep_view() == license_ref_header(),
{
    let mut fields: Vec<Vec<u8>> = Vec::new();
    push_field(&mut fields, literal_bytes("licenseId"));
    push_field(&mut fields, literal_bytes("name"));
    push_field(&mut fields, literal_bytes("extracted text"));
    push_field(&mut fields, literal_bytes("comment"));
    fields
}

fn push_cpe_columns(fields: &mut Vec<Vec<u8>>, cpes: &Vec<Cpe>, k: usize)
    ensures
        final(fields).deep_view() == old(fields).deep_view() + (if k < cpes.len() {
            cpe_fields(cpes.deep_view()[k as int])
        } else {
            Seq::new(7, |i: int| Seq::<u8>::empty())
        }),
{
    if k < cpes.len() {
        let cpe = &cpes[k];
        push_field(fields, optional_bytes(&cpe.part));
        push_field(fields, optional_bytes(&cpe.vendor));
        push_field(fields, optional_bytes(&cpe.product));
        push_field(fields, optional_bytes(&cpe.version));
        push_field(fields, optional_bytes(&cpe.update));
        push_field(fields, optional_bytes(&cpe.edition));
        push_field(fields, optional_bytes(&cpe.language));
        assert(fields.deep_view() =~= old(fields).deep_view() + cpe_fields(
            cpes.deep_view()[k as int],
        ));
    } else {
        let mut i: usize = 0;
        while i < 7
            invariant
                i <= 7,
                fields.deep_view() == old(fields).deep_view() + Seq::new(
                    i as nat,
                    |j: int| Seq::<u8>::empty(),
                ),
            decreases 7 - i,
        {
            let empty: Vec<u8> = Vec::new();
            assert(empty.deep_view() =~= Seq::<u8>::empty());
            push_field(fields, empty);
            assert(fields.deep_view() =~= old(fields).deep_view() + Seq::new(
                (i + 1) as nat,
                |j: int| Seq::<u8>::empty(),
            ));
            i += 1;
        }
    }
}

impl LicenseExporter {
    /// What this report holds.
    pub closed spec fn view(&self) -> LicenseExporterView {
        LicenseExporterView {
            sbom: SbomNameGroupVersionView {
                sbom_namespace: self.sbom_namespace@,
                sbom_name: self.sbom_name@,
                sbom_group: self.sbom_group.deep_view(),
                sbom_version: self.sbom_version@,
            },
            sbom_license: self.sbom_license.deep_view(),
            extracted_licensing_infos: self.extracted_licensing_infos.deep_view(),
        }
    }

    /// A report on the document with the given identity.
    pub fn new(
        sbom_namespace: String,
        sbom_name: String,
        sbom_group: Option<String>,
        sbom_version: String,
        sbom_license: Vec<SbomPackageLicense>,
        extracted_licensing_infos: Vec<ExtractedLicensingInfos>,
    ) -> (r: Self)
        ensures
            r@ == (LicenseExporterView {
                sbom: SbomNameGroupVersionView {
                    sbom_namespace: sbom_namespace@,
                    sbom_name: sbom_name@,
                    sbom_group: sbom_group.deep_view(),
                    sbom_version: sbom_version@,
                },
                sbom_license: sbom_license.deep_view(),
                extracted_licensing_infos: extracted_licensing_infos.deep_view(),
            }),
    {
        LicenseExporter {
            sbom_namespace,
            sbom_name,
            sbom_group,
            sbom_version,
            sbom_license,
            extracted_licensing_infos,
        }
    }

    fn package_row_fields(&self, entry: &SbomPackageLicense, k: usize) -> (r: Vec<Vec<u8>>)
        ensures
            r.deep_view() == package_row(self@.sbom, entry.deep_view(), k as int),
    {
        let mut fields: Vec<Vec<u8>> = Vec::new();
        push_field(&mut fields, text_bytes(&self.sbom_name));
        push_field(&mut fields, text_bytes(&self.sbom_namespace));
        push_field(&mut fields, optional_bytes(&entry.group));
        push_field(&mut fields, optional_bytes(&entry.version));
        push_field(&mut fields, text_bytes(&entry.name));
        push_field(&mut fields, optional_bytes(&entry.license_text));
        if k < entry.purl.len() {
            push_field(&mut fields, text_bytes(&entry.purl[k].purl));
        } else {
            let empty: Vec<u8> = Vec::new();
            assert(empty.deep_view() =~= Seq::<u8>::empty());
            push_field(&mut fields, empty);
        }
        push_cpe_columns(&mut fields, &entry.other_reference, k);
        fields
    }

    /// The file of packages and licenses: the titles, then the rows of each
    /// package with each of its licenses.
    pub fn sbom_licenses_csv(&self) -> (r: Vec<u8>)
        ensures
            r@ == self@.sbom_licenses_csv(),
    {
        let ghost sbom = self@.sbom;
        let ghost entries = self@.sbom_license;
        let mut out: Vec<u8> = Vec::new();
        let titles = sbom_licenses_titles();
        write_record(&mut out, &titles);
        proof {
            let first = seq![sbom_licenses_header()];
            assert(encoded_table(first.drop_last()) =~= Seq::<u8>::empty());
        }
        let mut i: usize = 0;
        while i < self.sbom_license.len()
            invariant
                i <= self.sbom_license.len(),
                sbom == self@.sbom,
                entries == self@.sbom_license,
                entries.len() == self.sbom_license.len(),
                out@ == encoded_table(
                    seq![sbom_licenses_header()] + package_rows(sbom, entries.take(i as int)),
                ),
            decreases self.sbom_license.len() - i,
        {
            let entry = &self.sbom_license[i];
            let ghost e = entry.deep_view();
            let ghost before = seq![sbom_licenses_header()] + package_rows(
                sbom,
                entries.take(i as int),
            );
            let purls = entry.purl.len();
            let cpes = entry.other_reference.len();
            let span = if purls == 0 && cpes == 0 {
                1
            } else if purls >= cpes {
                purls
            } else {
                cpes
            };
            let mut k: usize = 0;
            while k < span
                invariant
                    k <= span,
                    e == entry.deep_view(),
                    sbom == self@.sbom,
                    out@ == encoded_table(before + entry_rows(sbom, e, k as nat)),
                decreases span - k,
            {
                let fields = self.package_row_fields(entry, k);
                write_record(&mut out, &fields);
                proof {
                    let now = before + entry_rows(sbom, e, (k + 1) as nat);
                    assert(now.drop_last() =~= before + entry_rows(sbom, e, k as nat));
                }
                k += 1;
            }
            proof {
                let next = entries.take(i + 1);
                assert(next.drop_last() =~= entries.take(i as int));
                assert(seq![sbom_licenses_header()] + package_rows(sbom, next) =~= before
                    + entry_rows(sbom, e, span as nat));
            }
            i += 1;
        }
        assert(entries.take(i as int) =~= entries);
        out
    }

    /// The file of license texts: the titles, then one row for each text.
    pub fn license_ref_csv(&self) -> (r: Vec<u8>)
        ensures
            r@ == self@.license_ref_csv(),
    {
        let ghost infos = self@.extracted_licensing_infos;
        let mut out: Vec<u8> = Vec::new();
        let titles = license_ref_titles();
        write_record(&mut out, &titles);
        proof {
            let first = seq![license_ref_header()];
            assert(encoded_table(first.drop_last()) =~= Seq::<u8>::empty());
        }
        let mut i: usize = 0;
        while i < self.extracted_licensing_infos.len()
            invariant
                i <= self.extracted_licensing_infos.len(),
                infos == self@.extracted_licensing_infos,
                infos.len() == self.extracted_licensing_infos.len(),
                out@ == encoded_table(
                    seq![license_ref_header()] + license_ref_rows(infos.take(i as int)),
                ),
            decreases self.extracted_licensing_infos.len() - i,
        {
            let info = &self.extracted_licensing_infos[i];
            let mut fields: Vec<Vec<u8>> = Vec::new();
            push_field(&mut fields, text_bytes(&info.license_id));
            push_field(&mut fields, text_bytes(&info.name));
            push_field(&mut fields, text_bytes(&info.extracted_text));
            push_field(&mut fields, text_bytes(&info.comment));
            assert(fields.deep_view() =~= license_ref_row(infos[i as int]));
            write_record(&mut out, &fields);
            proof {
                let now = seq![license_ref_header()] + license_ref_rows(infos.take(i + 1));
                assert(now.drop_last() =~= seq![license_ref_header()] + license_ref_rows(
                    infos.take(i as int),
                ));
            }
            i += 1;
        }
        assert(infos.take(i as int) =~= infos);
        out
    }
    /// The name of the file of packages and licenses in the archive.
    pub fn sbom_licenses_filename(&self) -> (r: String)
        ensures
            r@ == sbom_licenses_filename(self@.sbom.sbom_name),
    {
        let mut name = get_sanitize_filename(self.sbom_name.clone());
        name.append("_sbom_licenses.csv");
        name
    }

    /// The name of the file of license texts in the archive.
    pub fn license_ref_filename(&self) -> (r: String)
        ensures
            r@ == license_ref_filename(self@.sbom.sbom_name),
    {
        let mut name = get_sanitize_filename(self.sbom_name.clone());
        name.append("_license_ref.csv");
        name
    }

    /// The files of the report, ready to be packed: always these two, whatever
    /// the report holds.
    pub fn files(&self) -> (r: Vec<NamedFile>)
        ensures
            r.deep_view() == self@.files(),
            r.len() == 2,
    {
        let mut files: Vec<NamedFile> = Vec::new();
        files.push(
            NamedFile { name: self.sbom_licenses_filename(), data: self.sbom_licenses_csv() },
        );
        files.push(
            NamedFile { name: self.license_ref_filename(), data: self.license_ref_csv() },
        );
        files
    }

    /// Renders the report: the two files, packed into one archive under their
    /// names, and the archive compressed.
    ///
    /// Nothing is handed out unless both steps succeed. Rendering succeeds
    /// exactly where the archive writer takes both files and closes the
    /// archive, and the compressor takes the archive. Where packing fails the
    /// error is [`ExportError::Archive`], where compressing fails it is
    /// [`ExportError::Compression`].
    pub fn generate(self) -> (r: Result<Vec<u8>, ExportError>)
        ensures
            rendering_view(r) == self@.rendered(),
            r matches Ok(bytes) ==> bytes@ == self@.compressed_archive(),
    {
        let files = self.files();
        proof {
            lemma_filenames_are_safe(self@.sbom.sbom_name);
        }
        match archived(pack(&files)) {
            Ok(archive) => compressed(gzip(archive.as_slice())),
            Err(e) => Err(e),
        }
    }
}

/// However a document is called, the names of its two files and of its
/// archive are made of safe characters only, so that none holds a path
/// separator or a reserved character, and all three begin with the same
/// token: the name of the document with each unsafe character replaced by an
/// underscore and every other character kept.
pub proof fn lemma_filenames_are_safe(name: Seq<char>)
    ensures
        sanitized(name).len() == name.len(),
        forall|i: int|
            0 <= i < name.len() ==> (#[trigger] sanitized(name)[i]) == (if is_filename_safe(
                name[i],
            ) {
                name[i]
            } else {
                '_'
            }),
        is_safe_filename(sanitized(name)),
        is_safe_filename(sbom_licenses_filename(name)),
        is_safe_filename(license_ref_filename(name)),
        is_safe_filename(archive_filename(name)),
        sanitized(name).is_prefix_of(sbom_licenses_filename(name)),
        sanitized(name).is_prefix_of(license_ref_filename(name)),
        sanitized(name).is_prefix_of(archive_filename(name)),
{
    reveal_strlit("_sbom_licenses.csv");
    reveal_strlit("_license_ref.csv");
    reveal_strlit("_licenses.tar.gz");
}

/// The archive of a report holds exactly two files, whatever the report
/// holds: the file of packages and licenses and the file of license texts,
/// in this order and under the names made from the name of the document.
pub proof fn lemma_archive_holds_two_files(report: LicenseExporterView)
    ensures
        report.files().len() == 2,
        report.files()[0] == (
            sbom_licenses_filename(report.sbom.sbom_name),
            sbom_licenses_csv(report.sbom, report.sbom_license),
        ),
        report.files()[1] == (
            license_ref_filename(report.sbom.sbom_name),
            license_ref_csv(report.extracted_licensing_infos),
        ),
        report.archive() == file_entry(FILE_MODE, report.files()[0].0, report.files()[0].1)
            + file_entry(FILE_MODE, report.files()[1].0, report.files()[1].1) + end_of_archive(),
{
    let files = report.files();
    let first = files.drop_last();
    assert(file_entries(first.drop_last()) =~= Seq::<u8>::empty());
    assert(file_entries(first) =~= file_entry(FILE_MODE, files[0].0, files[0].1));
}

/// What becomes of the outcome of packing: the archive where there is one,
/// and [`ExportError::Archive`] where there is none.
pub fn archived(outcome: Result<Vec<u8>, std::io::Error>) -> (r: Result<Vec<u8>, ExportError>)
    ensures
        outcome matches Ok(bytes) ==> r == Ok::<Vec<u8>, ExportError>(bytes),
        outcome is Err ==> r == Err::<Vec<u8>, ExportError>(ExportError::Archive),
{
    match outcome {
        Ok(bytes) => Ok(bytes),
        Err(_) => Err(ExportError::Archive),
    }
}

/// What becomes of the outcome of compressing: the stream where there is one,
/// and [`ExportError::Compression`] where there is none.
pub fn compressed(outcome: Result<Vec<u8>, std::io::Error>) -> (r: Result<Vec<u8>, ExportError>)
    ensures
        outcome matches Ok(bytes) ==> r == Ok::<Vec<u8>, ExportError>(bytes),
        outcome is Err ==> r == Err::<Vec<u8>, ExportError>(ExportError::Compression),
{
    match outcome {
        Ok(bytes) => Ok(bytes),
        Err(_) => Err(ExportError::Compression),
    }
}

/// The rows of the entries are as many as the entries span together.
pub proof fn lemma_package_rows_len(
    sbom: SbomNameGroupVersionView,
    entries: Seq<SbomPackageLicenseView>,
)
    ensures
        package_rows(sbom, entries).len() == total_span(entries),
    decreases entries.len(),
{
    if entries.len() > 0 {
        lemma_package_rows_len(sbom, entries.drop_last());
    }
}

/// Where the rows of entry `i` stand among the rows of all entries: after the
/// rows of the entries before it, in their order.
pub proof fn lemma_package_rows_index(
    sbom: SbomNameGroupVersionView,
    entries: Seq<SbomPackageLicenseView>,
    i: int,
    k: int,
)
    requires
        0 <= i < entries.len(),
        0 <= k < row_span(entries[i]),
    ensures
        total_span(entries.take(i)) + k < package_rows(sbom, entries).len(),
        package_rows(sbom, entries)[total_span(entries.take(i)) + k] == package_row(
            sbom,
            entries[i],
            k,
        ),
    decreases entries.len(),
{
    let head = entries.drop_last();
    lemma_package_rows_len(sbom, entries);
    lemma_package_rows_len(sbom, head);
    if i < entries.len() - 1 {
        lemma_package_rows_index(sbom, head, i, k);
        assert(head.take(i) =~= entries.take(i));
    }
}

/// Every record of the two tables has fields: fourteen in the table of
/// packages and licenses, four in the table of license texts.
pub proof fn lemma_tables_have_fields(
    sbom: SbomNameGroupVersionView,
    entries: Seq<SbomPackageLicenseView>,
    infos: Seq<ExtractedLicensingInfosView>,
)
    ensures
        has_fields(sbom_licenses_table(sbom, entries)),
        has_fields(license_ref_table(infos)),
        forall|i: int|
            0 <= i < sbom_licenses_table(sbom, entries).len() ==> (#[trigger] sbom_licenses_table(
                sbom,
                entries,
            )[i]).len() == 14,
        forall|i: int|
            0 <= i < license_ref_table(infos).len() ==> (#[trigger] license_ref_table(
                infos,
            )[i]).len() == 4,
{
    lemma_package_rows_width(sbom, entries);
}

proof fn lemma_package_rows_width(
    sbom: SbomNameGroupVersionView,
    entries: Seq<SbomPackageLicenseView>,
)
    ensures
        forall|i: int|
            0 <= i < package_rows(sbom, entries).len() ==> (#[trigger] package_rows(
                sbom,
                entries,
            )[i]).len() == 14,
    decreases entries.len(),
{
    if entries.len() > 0 {
        let head = package_rows(sbom, entries.drop_last());
        let tail = entry_rows(sbom, entries.last(), row_span(entries.last()));
        lemma_package_rows_width(sbom, entries.drop_last());
        assert forall|i: int| 0 <= i < package_rows(sbom, entries).len() implies (
        #[trigger] package_rows(sbom, entries)[i]).len() == 14 by {
            if i < head.len() {
                assert(package_rows(sbom, entries)[i] == head[i]);
            } else {
                let k = i - head.len();
                assert(package_rows(sbom, entries)[i] == tail[k]);
                assert(cpe_columns(entries.last(), k).len() == 7);
            }
        }
    }
}

/// A document without declared licenses gives a file of packages and licenses
/// that holds the line of titles and nothing else: a reader finds the titles
/// and no other record.
pub proof fn lemma_no_licenses_titles_only(sbom: SbomNameGroupVersionView)
    ensures
        sbom_licenses_csv(sbom, Seq::empty()) == encoded_record(sbom_licenses_header()),
        read_table(sbom_licenses_csv(sbom, Seq::empty())) == seq![sbom_licenses_header()],
        record_count(sbom_licenses_csv(sbom, Seq::empty())) == 1,
{
    let table = sbom_licenses_table(sbom, Seq::empty());
    assert(encoded_table(table.drop_last()) =~= Seq::<u8>::empty());
    lemma_tables_have_fields(sbom, Seq::empty(), Seq::empty());
    lemma_read_table(table);
}

/// A reader of the file of packages and licenses gets back the titles and
/// then, field for field, the rows of the entries: for each package with each
/// of its licenses as many rows as it has package URLs or platform
/// identifiers, and one where it has neither.
pub proof fn lemma_sbom_licenses_record_count(
    sbom: SbomNameGroupVersionView,
    entries: Seq<SbomPackageLicenseView>,
)
    ensures
        read_table(sbom_licenses_csv(sbom, entries)) == sbom_licenses_table(sbom, entries),
        record_count(sbom_licenses_csv(sbom, entries)) == 1 + total_span(entries),
{
    lemma_package_rows_len(sbom, entries);
    lemma_tables_have_fields(sbom, entries, Seq::empty());
    lemma_read_table(sbom_licenses_table(sbom, entries));
}

/// A reader of the file of license texts gets back the titles and then
/// exactly one record for each license text, field for field, whatever the
/// texts hold.
pub proof fn lemma_license_ref_record_count(infos: Seq<ExtractedLicensingInfosView>)
    ensures
        read_table(license_ref_csv(infos)) == license_ref_table(infos),
        record_count(license_ref_csv(infos)) == 1 + infos.len(),
{
    lemma_tables_have_fields(
        SbomNameGroupVersionView {
            sbom_namespace: Seq::empty(),
            sbom_name: Seq::empty(),
            sbom_group: None,
            sbom_version: Seq::empty(),
        },
        Seq::empty(),
        infos,
    );
    lemma_read_table(license_ref_table(infos));
}

/// Whether an entry has at most one package URL and at most one platform
/// identifier.
pub open spec fn single_reference(entry: SbomPackageLicenseView) -> bool {
    entry.purl.len() <= 1 && entry.other_reference.len() <= 1
}

/// Where no entry has more than one package URL or more than one platform
/// identifier, every entry takes exactly one row: the rows are as many as
/// the entries.
pub proof fn lemma_one_row_per_entry(entries: Seq<SbomPackageLicenseView>)
    requires
        forall|i: int| 0 <= i < entries.len() ==> single_reference(#[trigger] entries[i]),
    ensures
        total_span(entries) == entries.len(),
    decreases entries.len(),
{
    if entries.len() > 0 {
        let head = entries.drop_last();
        assert forall|i: int| 0 <= i < head.len() implies single_reference(
            #[trigger] head[i],
        ) by {
            assert(head[i] == entries[i]);
        }
        lemma_one_row_per_entry(head);
        assert(single_reference(entries[entries.len() - 1]));
    }
}

/// The number of package URLs that the entries hold together.
pub open spec fn total_purls(entries: Seq<SbomPackageLicenseView>) -> nat
    decreases entries.len(),
{
    if entries.len() == 0 {
        0
    } else {
        total_purls(entries.drop_last()) + entries.last().purl.len()
    }
}

/// Whether an entry has a package URL, and no more platform identifiers than
/// package URLs.
pub open spec fn purls_lead(entry: SbomPackageLicenseView) -> bool {
    entry.purl.len() >= 1 && entry.other_reference.len() <= entry.purl.len()
}

/// An entry whose package URLs lead takes one row for each of them, and each
/// of these rows carries the license of the entry and one package URL, in
/// their order.
pub proof fn lemma_row_for_each_purl(
    sbom: SbomNameGroupVersionView,
    entry: SbomPackageLicenseView,
    k: int,
)
    requires
        purls_lead(entry),
        0 <= k < entry.purl.len(),
    ensures
        row_span(entry) == entry.purl.len(),
        package_row(sbom, entry, k).len() == 14,
        package_row(sbom, entry, k)[4] == text_field(entry.name),
        package_row(sbom, entry, k)[5] == optional_field(entry.license_text),
        package_row(sbom, entry, k)[6] == text_field(entry.purl[k]),
{
}

/// Where the package URLs lead in every entry, the rows are as many as the
/// package URLs of all entries together: a package with several licenses is
/// listed once for each license with each of its package URLs.
pub proof fn lemma_rows_count_purls(entries: Seq<SbomPackageLicenseView>)
    requires
        forall|i: int| 0 <= i < entries.len() ==> purls_lead(#[trigger] entries[i]),
    ensures
        total_span(entries) == total_purls(entries),
    decreases entries.len(),
{
    if entries.len() > 0 {
        let head = entries.drop_last();
        assert forall|i: int| 0 <= i < head.len() implies purls_lead(#[trigger] head[i]) by {}
        lemma_rows_count_purls(head);
    }
}

/// A package with a package URL and no more platform identifiers than package
/// URLs, reported with each of its licenses, takes as many rows as it has
/// licenses times package URLs.
pub proof fn lemma_licenses_times_purls(entries: Seq<SbomPackageLicenseView>, purls: nat)
    requires
        purls >= 1,
        forall|i: int|
            0 <= i < entries.len() ==> (#[trigger] entries[i]).purl.len() == purls
                && entries[i].other_reference.len() <= purls,
    ensures
        total_span(entries) == entries.len() * purls,
    decreases entries.len(),
{
    if entries.len() > 0 {
        let head = entries.drop_last();
        assert forall|i: int| 0 <= i < head.len() implies (#[trigger] head[i]).purl.len() == purls
            && head[i].other_reference.len() <= purls by {}
        lemma_licenses_times_purls(head, purls);
        assert(head.len() * purls + purls == entries.len() * purls) by (nonlinear_arith)
            requires
                head.len() + 1 == entries.len(),
        ;
    }
}

} // verus!
