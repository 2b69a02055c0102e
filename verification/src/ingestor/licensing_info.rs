//! The license texts that a document defines for itself.

use std::collections::BTreeMap;
use vstd::prelude::*;
use vstd::std_specs::cmp::OrdSpec;
use vstd::std_specs::iter::IteratorSpec;
use vstd::utf8::encode_utf8;
use crate::entity::{LicensingInfos, LicensingInfosView};
use crate::id::{hyphenated, hyphenated_text};
use crate::store::{Store, StoreView};
use crate::table::{data_of, lemma_upsert_all_idempotent, upsert_all};
use crate::text::{lowercase, to_lowercase};

verus! {

/// The namespace in which the identities of license texts are derived.
pub const NAMESPACE: u128 = 0xdeadbeefcafe4118a138b89f1935e0a7;

/// The name-based identity, made with SHA-1, of `name` in `namespace`.
pub uninterp spec fn sha1_uuid(namespace: u128, name: Seq<u8>) -> u128;

/// Derives a name-based identity.
///
/// Trusted: stands for `uuid::Uuid::new_v5`, which hashes the bytes of the
/// namespace and the name with SHA-1 and marks the result as a version 5
/// identity. The contract claims only that the result depends on the namespace
/// and the name alone.
#[verifier::external_body]
fn new_v5(namespace: u128, name: &[u8]) -> (r: u128)
    ensures
        r == sha1_uuid(namespace, name@),
{
    uuid::Uuid::new_v5(&uuid::Uuid::from_u128(namespace), name).as_u128()
}

/// The identity of the license text that the document `sbom_id` defines under
/// `license_id`: derived, in a fixed namespace, from the hyphenated form of
/// the document's identity followed by the identifier, all in lower case.
pub open spec fn licensing_info_uuid(sbom_id: u128, license_id: Seq<char>) -> u128 {
    sha1_uuid(NAMESPACE, encode_utf8(lowercase(hyphenated_text(sbom_id) + license_id)))
}

/// A license text that a document defines for itself, under an identifier of
/// its own.
#[derive(Debug, Clone)]
pub struct LicensingInfo {
    pub id: u128,
    pub sbom_id: u128,
    pub license_id: String,
    pub name: String,
    pub extracted_text: String,
    pub comment: Option<String>,
}

/// What a [`LicensingInfo`] holds.
pub ghost struct LicensingInfoView {
    pub id: u128,
    pub sbom_id: u128,
    pub license_id: Seq<char>,
    pub name: Seq<char>,
    pub extracted_text: Seq<char>,
    pub comment: Option<Seq<char>>,
}

impl DeepView for LicensingInfo {
    type V = LicensingInfoView;

    open spec fn deep_view(&self) -> LicensingInfoView {
        LicensingInfoView {
            id: self.id,
            sbom_id: self.sbom_id,
            license_id: self.license_id@,
            name: self.name@,
            extracted_text: self.extracted_text@,
            comment: self.comment.deep_view(),
        }
    }
}

impl LicensingInfo {
    /// The identity of the license text that a document defines under an
    /// identifier. The same document and identifier give the same identity,
    /// whenever and wherever it is derived.
    pub fn uuid(sbom_id: u128, license_id: String) -> (r: u128)
        ensures
            r == licensing_info_uuid(sbom_id, license_id@),
    {
        let mut text = hyphenated(sbom_id);
        text.append(license_id.as_str());
        let lower = to_lowercase(text.as_str());
        new_v5(NAMESPACE, lower.as_str().as_bytes())
    }

    /// The license text of a document, with its identity derived from the
    /// document and the identifier.
    pub fn with_sbom_id(
        sbom_id: u128,
        name: String,
        license_id: String,
        extracted_text: String,
        comment: Option<String>,
    ) -> (r: Self)
        ensures
            r.deep_view() == (LicensingInfoView {
                id: licensing_info_uuid(sbom_id, license_id@),
                sbom_id,
                license_id: license_id@,
                name: name@,
                extracted_text: extracted_text@,
                comment: comment.deep_view(),
            }),
    {
        LicensingInfo {
            id: LicensingInfo::uuid(sbom_id, license_id.clone()),
            sbom_id,
            license_id,
            name,
            extracted_text,
            comment,
        }
    }

}

impl LicensingInfoView {
    /// The record that stores this license text: a missing comment is stored
    /// as an empty one.
    pub open spec fn record(self) -> LicensingInfosView {
        LicensingInfosView {
            id: self.id,
            sbom_id: self.sbom_id,
            name: self.name,
            license_id: self.license_id,
            extracted_text: self.extracted_text,
            comment: match self.comment {
                Some(comment) => comment,
                None => Seq::empty(),
            },
        }
    }
}

/// The store after a batch of license texts was written to it: each text
/// whose identity is new is added, in the order of the batch, and nothing
/// else changes.
pub open spec fn licensing_infos_written(
    store: StoreView,
    records: Seq<LicensingInfosView>,
) -> StoreView {
    StoreView { licensing_infos: upsert_all(store.licensing_infos, records), ..store }
}

/// Writing the license texts of a document a second time changes nothing in
/// the store: no record is added and none is replaced, so the number of
/// records stays what it was after the first time.
pub proof fn lemma_licensing_infos_written_twice(
    store: StoreView,
    records: Seq<LicensingInfosView>,
)
    ensures
        licensing_infos_written(licensing_infos_written(store, records), records)
            == licensing_infos_written(store, records),
{
    lemma_upsert_all_idempotent(store.licensing_infos, records);
}

/// Whether the identities in `keys` stand in strictly increasing order.
pub open spec fn strictly_increasing(keys: Seq<u128>) -> bool {
    forall|i: int, j: int| 0 <= i < j < keys.len() ==> keys[i] < keys[j]
}

/// Whether `keys` lists the identities of the held license texts, each once,
/// in increasing order.
pub open spec fn key_order(keys: Seq<u128>, held: Map<u128, LicensingInfosView>) -> bool {
    strictly_increasing(keys) && keys.to_set() == held.dom()
}

/// The held license texts in the order of their identities.
pub open spec fn in_key_order(held: Map<u128, LicensingInfosView>) -> Seq<LicensingInfosView> {
    let keys = choose|keys: Seq<u128>| key_order(keys, held);
    Seq::new(keys.len(), |i: int| held[keys[i]])
}

/// There is one way only to list identities in increasing order.
pub proof fn lemma_key_order_is_unique(
    a: Seq<u128>,
    b: Seq<u128>,
    held: Map<u128, LicensingInfosView>,
)
    requires
        key_order(a, held),
        key_order(b, held),
    ensures
        a == b,
    decreases a.len(),
{
    if a.len() == 0 {
        if b.len() > 0 {
            assert(b.to_set().contains(b[0]));
            assert(a.to_set().contains(b[0]));
        }
        assert(a =~= b);
    } else {
        assert(a.to_set().contains(a.last()));
        assert(b.to_set().contains(a.last()));
        let j = choose|j: int| 0 <= j < b.len() && b[j] == a.last();
        assert(b.to_set().contains(b.last()));
        assert(a.to_set().contains(b.last()));
        let i = choose|i: int| 0 <= i < a.len() && a[i] == b.last();
        assert(a.last() == b.last());
        let rest = held.remove(a.last());
        assert(a.drop_last().to_set() =~= rest.dom()) by {
            assert forall|k: u128| a.drop_last().to_set().contains(k) <==> rest.dom().contains(
                k,
            ) by {
                if a.drop_last().to_set().contains(k) {
                    let n = choose|n: int| 0 <= n < a.len() - 1 && a.drop_last()[n] == k;
                    assert(a[n] == k);
                    assert(a.to_set().contains(k));
                }
                if rest.dom().contains(k) {
                    assert(a.to_set().contains(k));
                    let n = choose|n: int| 0 <= n < a.len() && a[n] == k;
                    assert(a.drop_last()[n] == k);
                }
            }
        }
        assert(b.drop_last().to_set() =~= rest.dom()) by {
            assert forall|k: u128| b.drop_last().to_set().contains(k) <==> rest.dom().contains(
                k,
            ) by {
                if b.drop_last().to_set().contains(k) {
                    let n = choose|n: int| 0 <= n < b.len() - 1 && b.drop_last()[n] == k;
                    assert(b[n] == k);
                    assert(b.to_set().contains(k));
                }
                if rest.dom().contains(k) {
                    assert(b.to_set().contains(k));
                    let n = choose|n: int| 0 <= n < b.len() && b[n] == k;
                    assert(b.drop_last()[n] == k);
                }
            }
        }
        lemma_key_order_is_unique(a.drop_last(), b.drop_last(), rest);
        assert(a =~= a.drop_last().push(a.last()));
        assert(b =~= b.drop_last().push(b.last()));
    }
}

/// Collects the license texts of a document, by their identities. Of two
/// texts with the same identity the one that was added first stays.
pub struct LicensingInfoCreator {
    license_refs: BTreeMap<u128, LicensingInfos>,
}

impl View for LicensingInfoCreator {
    type V = Map<u128, LicensingInfosView>;

    closed spec fn view(&self) -> Map<u128, LicensingInfosView> {
        self.license_refs@.map_values(|record: LicensingInfos| record.deep_view())
    }
}

impl Default for LicensingInfoCreator {
    fn default() -> (r: Self)
        ensures
            r@ == Map::<u128, LicensingInfosView>::empty(),
    {
        Self::new()
    }
}

impl LicensingInfoCreator {
    /// A creator that holds nothing.
    pub fn new() -> (r: Self)
        ensures
            r@ == Map::<u128, LicensingInfosView>::empty(),
    {
        let r = LicensingInfoCreator { license_refs: BTreeMap::new() };
        assert(r@ =~= Map::<u128, LicensingInfosView>::empty());
        r
    }

    /// The number of license texts that are held.
    pub fn len(&self) -> (n: usize)
        ensures
            n == self@.dom().len(),
    {
        broadcast use vstd::std_specs::btree::group_btree_axioms;

        proof {
            lemma_identities_are_ordered();
            assert(self@.dom() =~= self.license_refs@.dom());
        }
        self.license_refs.len()
    }

    /// Adds a license text under its identity, unless one with the same
    /// identity is held.
    pub fn add(&mut self, info: &LicensingInfo)
        ensures
            final(self)@ == (if old(self)@.contains_key(info.id) {
                old(self)@
            } else {
                old(self)@.insert(info.id, info.deep_view().record())
            }),
    {
        broadcast use vstd::std_specs::btree::group_btree_axioms;

        proof {
            lemma_identities_are_ordered();
        }
        if !self.license_refs.contains_key(&info.id) {
            let record = LicensingInfos {
                id: info.id,
                sbom_id: info.sbom_id,
                name: info.name.clone(),
                license_id: info.license_id.clone(),
                extracted_text: info.extracted_text.clone(),
                comment: match &info.comment {
                    Some(comment) => comment.clone(),
                    None => String::new(),
                },
            };
            self.license_refs.insert(info.id, record);
            assert(self@ =~= old(self)@.insert(info.id, info.deep_view().record()));
        }
    }

    /// Writes the license texts to the store, in the order of their
    /// identities. A text whose identity the store holds already is skipped,
    /// and the stored one stays as it is.
    pub fn create(self, store: &mut Store)
        ensures
            final(store)@ == licensing_infos_written(old(store)@, in_key_order(self@)),
            old(store).wf() ==> final(store).wf(),
    {
        let records = self.into_records();
        assert(data_of(records@) =~= records.deep_view());
        store.licensing_infos.insert_all(records);
    }

    /// Hands out the records that [`LicensingInfoCreator::create`] writes, in
    /// the order of their identities.
    pub fn into_records(self) -> (records: Vec<LicensingInfos>)
        ensures
            records.deep_view() == in_key_order(self@),
    {
        broadcast use vstd::std_specs::btree::group_btree_axioms;

        proof {
            lemma_identities_are_ordered();
        }
        let mut records: Vec<LicensingInfos> = Vec::new();
        let values = self.license_refs.values();
        let ghost keys = choose|keys: Seq<u128>|
            {
                &&& vstd::std_specs::btree::increasing_seq(keys)
                &&& keys.to_set() == self.license_refs@.dom()
                &&& keys.no_duplicates()
                &&& values.remaining() == keys.map(|i: int, k: u128| &self.license_refs@[k])
            };
        proof {
            lemma_increasing(keys);
            assert(self@.dom() =~= self.license_refs@.dom());
            let chosen = choose|chosen: Seq<u128>| key_order(chosen, self@);
            assert(key_order(keys, self@));
            lemma_key_order_is_unique(keys, chosen, self@);
            assert(in_key_order(self@).len() == keys.len());
        }
        for record in it: values
            invariant
                it.seq() == keys.map(|i: int, k: u128| &self.license_refs@[k]),
                in_key_order(self@) == Seq::new(keys.len(), |i: int| self@[keys[i]]),
                keys.to_set() == self.license_refs@.dom(),
                records.deep_view() == in_key_order(self@).take(it.index()),
        {
            let ghost held = records.deep_view();
            let copy = LicensingInfos {
                id: record.id,
                sbom_id: record.sbom_id,
                name: record.name.clone(),
                license_id: record.license_id.clone(),
                extracted_text: record.extracted_text.clone(),
                comment: record.comment.clone(),
            };
            proof {
                let k = keys[it.index()];
                assert(keys.to_set().contains(k));
                assert(*record == self.license_refs@[k]);
                assert(copy.deep_view() == self@[k]);
            }
            records.push(copy);
            assert(records.deep_view() =~= held.push(copy.deep_view()));
            assert(records.deep_view() =~= in_key_order(self@).take(it.index() + 1));
        }
        assert(records.deep_view() =~= in_key_order(self@));
        records
    }
}

/// Identities are ordered as numbers, which is the order that a map keyed by
/// them keeps.
proof fn lemma_identities_are_ordered()
    ensures
        vstd::std_specs::btree::key_obeys_cmp_spec::<u128>(),
        vstd::laws_cmp::obeys_cmp::<u128>(),
{
    broadcast use vstd::std_specs::btree::group_btree_axioms;
    broadcast use vstd::laws_cmp::group_laws_cmp;
}

/// Keys in the order of a map keyed by identities increase as numbers.
proof fn lemma_increasing(keys: Seq<u128>)
    requires
        vstd::std_specs::btree::increasing_seq(keys),
    ensures
        strictly_increasing(keys),
{
    broadcast use vstd::std_specs::btree::group_btree_axioms;
    broadcast use vstd::laws_cmp::group_laws_cmp;

    assert forall|i: int, j: int| 0 <= i < j < keys.len() implies keys[i] < keys[j] by {
        assert(keys[i].cmp_spec(&keys[j]) is Less);
    }
}

} // verus!
