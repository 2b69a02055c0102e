//! The licenses of the SPDX list.
//!
//! The list and the texts are those of the `spdx` crate. What stands at each
//! position of its two tables is named here, so that the search can say what
//! it found.

use vstd::prelude::*;
use crate::license::model::{
    SpdxLicenseDetails, SpdxLicenseDetailsView, SpdxLicenseSummary, SpdxLicenseSummaryView,
};
use crate::license::service::LicenseService;
use crate::model::{page, Paginated, PaginatedResults, Query};
use crate::text::{
    chars_of, contains, eq_ignore_ascii_case, lowercase, occurs_in, same_ignoring_ascii_case,
    to_lowercase,
};

verus! {

/// The license at a position of the list, if the list is that long.
pub uninterp spec fn spdx_license(index: int) -> Option<SpdxLicenseSummaryView>;

/// The identifier of the license whose text stands at a position of the table
/// of texts, if the table is that long.
pub uninterp spec fn spdx_text_id(index: int) -> Option<Seq<char>>;

/// The text at a position of the table of texts, if the table is that long.
pub uninterp spec fn spdx_text(index: int) -> Option<Seq<char>>;

/// The license at a position of the list.
///
/// Trusted: reads `spdx::identifiers::LICENSES` at the position and hands out
/// the identifier and the full name. The contract claims only that the
/// outcome depends on the position alone.
#[verifier::external_body]
fn license_at(index: usize) -> (r: Option<SpdxLicenseSummary>)
    ensures
        r.deep_view() == spdx_license(index as int),
{
    match spdx::identifiers::LICENSES.get(index) {
        Some((id, name, _)) => {
            Some(SpdxLicenseSummary { id: id.to_string(), name: name.to_string() })
        },
        None => None,
    }
}

/// The identifier at a position of the table of texts.
///
/// Trusted: reads `spdx::text::LICENSE_TEXTS` at the position and hands out
/// the identifier. The contract claims only that the outcome depends on the
/// position alone.
#[verifier::external_body]
fn text_id_at(index: usize) -> (r: Option<String>)
    ensures
        r.deep_view() == spdx_text_id(index as int),
{
    match spdx::text::LICENSE_TEXTS.get(index) {
        Some((id, _)) => Some(id.to_string()),
        None => None,
    }
}

/// The text at a position of the table of texts.
///
/// Trusted: reads `spdx::text::LICENSE_TEXTS` at the position and hands out
/// the text. The contract claims only that the outcome depends on the
/// position alone.
#[verifier::external_body]
fn text_at(index: usize) -> (r: Option<String>)
    ensures
        r.deep_view() == spdx_text(index as int),
{
    match spdx::text::LICENSE_TEXTS.get(index) {
        Some((_, text)) => Some(text.to_string()),
        None => None,
    }
}

/// No table is read beyond this position.
pub const TABLE_LIMIT: usize = 0xffff_ffff;

/// The licenses of the list from position `from` on, up to the first position
/// at which nothing stands.
pub open spec fn licenses_from(from: nat) -> Seq<SpdxLicenseSummaryView>
    decreases TABLE_LIMIT - from,
{
    if from >= TABLE_LIMIT {
        Seq::empty()
    } else {
        match spdx_license(from as int) {
            Some(license) => seq![license] + licenses_from(from + 1),
            None => Seq::empty(),
        }
    }
}

/// The licenses of the list, in their order.
pub open spec fn listed_licenses() -> Seq<SpdxLicenseSummaryView> {
    licenses_from(0)
}

/// Whether a license answers a search: an empty search is answered by every
/// license, any other by the licenses that hold it, whatever the case of the
/// letters, in their identifier or in their name.
pub open spec fn answers(license: SpdxLicenseSummaryView, q: Seq<char>) -> bool {
    q.len() == 0 || occurs_in(lowercase(q), lowercase(license.id)) || occurs_in(
        lowercase(q),
        lowercase(license.name),
    )
}

/// The licenses among the first `n` of `table` that answer a search, in
/// their order.
pub open spec fn matching_within(table: Seq<SpdxLicenseSummaryView>, q: Seq<char>, n: nat) -> Seq<
    SpdxLicenseSummaryView,
>
    decreases n,
{
    if n == 0 {
        Seq::empty()
    } else {
        let before = matching_within(table, q, (n - 1) as nat);
        if answers(table[n - 1], q) {
            before.push(table[n - 1])
        } else {
            before
        }
    }
}

/// The licenses of `table` that answer a search, in their order.
pub open spec fn matching(table: Seq<SpdxLicenseSummaryView>, q: Seq<char>) -> Seq<
    SpdxLicenseSummaryView,
> {
    matching_within(table, q, table.len())
}

/// The first position from `from` on of a license of `table` whose identifier
/// is `id` but for the case of ASCII letters.
pub open spec fn first_license(
    table: Seq<SpdxLicenseSummaryView>,
    id: Seq<char>,
    from: int,
) -> Option<int>
    decreases table.len() - from,
{
    if from < 0 || from >= table.len() {
        None
    } else if same_ignoring_ascii_case(table[from].id, id) {
        Some(from)
    } else {
        first_license(table, id, from + 1)
    }
}

/// The first text from position `from` of the table of texts on that belongs
/// to the identifier `id`, but for the case of ASCII letters. The table ends
/// at the first position at which nothing stands.
pub open spec fn first_text(id: Seq<char>, from: nat) -> Option<Seq<char>>
    decreases TABLE_LIMIT - from,
{
    if from >= TABLE_LIMIT {
        None
    } else {
        match spdx_text_id(from as int) {
            Some(text_id) => if same_ignoring_ascii_case(text_id, id) {
                match spdx_text(from as int) {
                    Some(text) => Some(text),
                    None => first_text(id, from + 1),
                }
            } else {
                first_text(id, from + 1)
            },
            None => None,
        }
    }
}

/// The license of `table` that goes by `id`, with its text: the first license
/// with that identifier, but for the case of ASCII letters, and the first
/// text that belongs to it. There is none where no license goes by `id` or
/// the license has no text.
pub open spec fn details_of(table: Seq<SpdxLicenseSummaryView>, id: Seq<char>) -> Option<
    SpdxLicenseDetailsView,
> {
    match first_license(table, id, 0) {
        Some(i) => match first_text(table[i].id, 0) {
            Some(text) => Some(SpdxLicenseDetailsView { summary: table[i], text }),
            None => None,
        },
        None => None,
    }
}

fn license_answers(license: &SpdxLicenseSummary, q: &str, lower_q: &Vec<char>) -> (r: bool)
    requires
        lower_q@ == lowercase(q@),
    ensures
        r == answers(license.deep_view(), q@),
{
    if q.unicode_len() == 0 {
        return true;
    }
    let id = chars_of(to_lowercase(license.id.as_str()).as_str());
    if contains(&id, lower_q) {
        return true;
    }
    let name = chars_of(to_lowercase(license.name.as_str()).as_str());
    contains(&name, lower_q)
}

fn copy_summary(license: &SpdxLicenseSummary) -> (r: SpdxLicenseSummary)
    ensures
        r.deep_view() == license.deep_view(),
{
    SpdxLicenseSummary { id: license.id.clone(), name: license.name.clone() }
}

/// Selects from a table of licenses those that answer a search, and from
/// these the part that the caller wants. The total is the number of licenses
/// that answer the search.
pub fn select_licenses(table: &Vec<SpdxLicenseSummary>, search: &Query, paginated: Paginated) -> (r:
    PaginatedResults<SpdxLicenseSummary>)
    ensures
        r.items.deep_view() == page(
            matching(table.deep_view(), search.q@),
            paginated.offset,
            paginated.limit,
        ),
        r.total == matching(table.deep_view(), search.q@).len(),
{
    let ghost all = table.deep_view();
    let ghost q = search.q@;
    let lower_q = chars_of(to_lowercase(search.q.as_str()).as_str());
    let mut found: u64 = 0;
    let mut items: Vec<SpdxLicenseSummary> = Vec::new();
    let mut i: usize = 0;
    assert(items.deep_view() =~= page(
        matching_within(all, q, 0),
        paginated.offset,
        paginated.limit,
    ));
    while i < table.len()
        invariant
            i <= table.len(),
            all == table.deep_view(),
            all.len() == table.len(),
            q == search.q@,
            lower_q@ == lowercase(q),
            found == matching_within(all, q, i as nat).len(),
            found <= i,
            items.deep_view() == page(
                matching_within(all, q, i as nat),
                paginated.offset,
                paginated.limit,
            ),
        decreases table.len() - i,
    {
        let license = &table[i];
        if license_answers(license, search.q.as_str(), &lower_q) {
            if found >= paginated.offset && (paginated.limit == 0 || found - paginated.offset
                < paginated.limit) {
                let ghost held = items.deep_view();
                items.push(copy_summary(license));
                assert(items.deep_view() =~= held.push(all[i as int]));
            }
            found += 1;
        }
        i += 1;
    }
    PaginatedResults { items, total: found }
}

/// Finds in a table of licenses the first whose identifier is `id` but for
/// the case of ASCII letters.
pub fn find_license(table: &Vec<SpdxLicenseSummary>, id: &str) -> (r: Option<usize>)
    ensures
        match r {
            Some(i) => first_license(table.deep_view(), id@, 0) == Some(i as int) && i
                < table.len(),
            None => first_license(table.deep_view(), id@, 0) is None,
        },
{
    let ghost all = table.deep_view();
    let mut i: usize = 0;
    while i < table.len()
        invariant
            i <= table.len(),
            all == table.deep_view(),
            all.len() == table.len(),
            first_license(all, id@, 0) == first_license(all, id@, i as int),
        decreases table.len() - i,
    {
        if eq_ignore_ascii_case(table[i].id.as_str(), id) {
            return Some(i);
        }
        i += 1;
    }
    None
}

/// Reads the list of licenses, position by position.
pub fn licenses() -> (r: Vec<SpdxLicenseSummary>)
    ensures
        r.deep_view() == listed_licenses(),
{
    let mut table: Vec<SpdxLicenseSummary> = Vec::new();
    let mut i: usize = 0;
    while i < TABLE_LIMIT
        invariant
            i <= TABLE_LIMIT,
            table.deep_view() + licenses_from(i as nat) == listed_licenses(),
        decreases TABLE_LIMIT - i,
    {
        let ghost before = table.deep_view();
        match license_at(i) {
            Some(license) => {
                table.push(license);
                assert(table.deep_view() + licenses_from((i + 1) as nat) =~= before
                    + licenses_from(i as nat));
            },
            None => {
                return table;
            },
        }
        i += 1;
    }
    table
}

/// Looks up the text that belongs to an identifier, whatever the case of the
/// ASCII letters: the first such text of the table of texts.
pub fn text_of_license(id: &str) -> (r: Option<String>)
    ensures
        r.deep_view() == first_text(id@, 0),
{
    let mut i: usize = 0;
    while i < TABLE_LIMIT
        invariant
            i <= TABLE_LIMIT,
            first_text(id@, 0) == first_text(id@, i as nat),
        decreases TABLE_LIMIT - i,
    {
        match text_id_at(i) {
            Some(text_id) => {
                if eq_ignore_ascii_case(text_id.as_str(), id) {
                    match text_at(i) {
                        Some(text) => {
                            return Some(text);
                        },
                        None => {},
                    }
                }
            },
            None => {
                return None;
            },
        }
        i += 1;
    }
    None
}

impl LicenseService {
    /// Lists the licenses of the SPDX list that answer a search, page by
    /// page: those among the licenses of the list that hold the searched
    /// text, whatever the case of the letters, in their identifier or their
    /// name, and of these the part that the caller wants. The total is the
    /// number of licenses that answer the search.
    pub fn list_spdx_licenses(&self, search: Query, paginated: Paginated) -> (r: PaginatedResults<
        SpdxLicenseSummary,
    >)
        ensures
            r.items.deep_view() == page(
                matching(listed_licenses(), search.q@),
                paginated.offset,
                paginated.limit,
            ),
            r.total == matching(listed_licenses(), search.q@).len(),
    {
        let table = licenses();
        select_licenses(&table, &search, paginated)
    }

    /// Looks up a license of the SPDX list by its identifier, whatever the
    /// case of the ASCII letters, with its text. Returns nothing where the
    /// list has no such license, or no text for it.
    pub fn get_spdx_license(&self, id: &str) -> (r: Option<SpdxLicenseDetails>)
        ensures
            r.deep_view() == details_of(listed_licenses(), id@),
    {
        let table = licenses();
        match find_license(&table, id) {
            Some(i) => {
                let summary = copy_summary(&table[i]);
                match text_of_license(summary.id.as_str()) {
                    Some(text) => Some(SpdxLicenseDetails { summary, text }),
                    None => None,
                }
            },
            None => None,
        }
    }
}

} // verus!
