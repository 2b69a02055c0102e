//! The identifiers by which a caller names a stored document.

use vstd::prelude::*;
use crate::entity::{Sbom, SbomView};
use crate::text::{chars_of, push_char, spells, text_of};

verus! {

/// The name of a stored document: its identity in the store, or a digest of
/// its contents.
#[derive(Debug, Clone)]
pub enum Id {
    Uuid(u128),
    Sha256(String),
    Sha384(String),
    Sha512(String),
}

/// What an [`Id`] holds.
pub ghost enum IdView {
    Uuid(u128),
    Sha256(Seq<char>),
    Sha384(Seq<char>),
    Sha512(Seq<char>),
}

impl DeepView for Id {
    type V = IdView;

    open spec fn deep_view(&self) -> IdView {
        match self {
            Id::Uuid(uuid) => IdView::Uuid(*uuid),
            Id::Sha256(digest) => IdView::Sha256(digest@),
            Id::Sha384(digest) => IdView::Sha384(digest@),
            Id::Sha512(digest) => IdView::Sha512(digest@),
        }
    }
}

impl IdView {
    /// Whether this identifier names the given document.
    pub open spec fn names(self, sbom: SbomView) -> bool {
        match self {
            IdView::Uuid(uuid) => sbom.sbom_id == uuid,
            IdView::Sha256(digest) => sbom.sha256 == digest,
            IdView::Sha384(digest) => sbom.sha384 == digest,
            IdView::Sha512(digest) => sbom.sha512 == digest,
        }
    }
}

/// Why a text is no identifier.
#[derive(Debug, Clone, Copy, PartialEq, Eq, Structural)]
pub enum IdError {
    /// The text holds no colon, so it names no kind of identifier.
    MissingPrefix,
    /// What stands before the first colon is no kind of identifier.
    UnsupportedAlgorithm,
    /// What should be an identity in the store is none.
    InvalidUuid,
}

impl IdError {
    /// A sentence that says what is wrong.
    pub fn message(&self) -> (r: String)
        ensures
            r@ == (match *self {
                IdError::MissingPrefix => "missing prefix"@,
                IdError::UnsupportedAlgorithm => "unsupported algorithm"@,
                IdError::InvalidUuid => "invalid UUID"@,
            }),
    {
        match self {
            IdError::MissingPrefix => "missing prefix".to_owned(),
            IdError::UnsupportedAlgorithm => "unsupported algorithm".to_owned(),
            IdError::InvalidUuid => "invalid UUID".to_owned(),
        }
    }
}

/// The identity that a text spells, in any of the forms that identities are
/// written in, if it spells one.
pub uninterp spec fn parsed_uuid(text: Seq<char>) -> Option<u128>;

/// Reads an identity.
///
/// Trusted: stands for `uuid::Uuid::parse_str`, with the identity taken as a
/// number. The contract claims only that the outcome depends on the text
/// alone.
#[verifier::external_body]
fn parse_uuid(text: &str) -> (r: Option<u128>)
    ensures
        r == parsed_uuid(text@),
{
    match uuid::Uuid::parse_str(text) {
        Ok(uuid) => Some(uuid.as_u128()),
        Err(_) => None,
    }
}

/// What the outcome of reading an identifier holds.
pub open spec fn outcome_view(outcome: Result<Id, IdError>) -> Result<IdView, IdError> {
    match outcome {
        Ok(id) => Ok(id.deep_view()),
        Err(e) => Err(e),
    }
}

/// The first position at or after `from` that holds a colon.
pub open spec fn first_colon(text: Seq<char>, from: int) -> Option<int>
    decreases text.len() - from,
{
    if from < 0 || from >= text.len() {
        None
    } else if text[from] == ':' {
        Some(from)
    } else {
        first_colon(text, from + 1)
    }
}

/// The identifier that `value` is of the kind `kind`, where `uuid` is what
/// the part of `value` after `uuid:` spells as an identity.
pub open spec fn id_of_kind(kind: Seq<char>, value: Seq<char>, uuid: Option<u128>) -> Result<
    IdView,
    IdError,
> {
    if kind == "sha256"@ {
        Ok(IdView::Sha256(value))
    } else if kind == "sha384"@ {
        Ok(IdView::Sha384(value))
    } else if kind == "sha512"@ {
        Ok(IdView::Sha512(value))
    } else if kind == "urn"@ && "uuid:"@.is_prefix_of(value) {
        match uuid {
            Some(uuid) => Ok(IdView::Uuid(uuid)),
            None => Err(IdError::InvalidUuid),
        }
    } else {
        Err(IdError::UnsupportedAlgorithm)
    }
}

/// What stands in `value` after its first five characters; nothing where it
/// has no more.
pub open spec fn after_prefix(value: Seq<char>) -> Seq<char> {
    if value.len() >= 5 {
        value.skip(5)
    } else {
        Seq::empty()
    }
}

/// The identifier that a text spells: a kind, a colon and a value, where the
/// kind is `sha256`, `sha384` or `sha512` and the value a digest, or the kind
/// is `urn` and the value is `uuid:` followed by an identity.
pub open spec fn parsed_id(text: Seq<char>) -> Result<IdView, IdError> {
    match first_colon(text, 0) {
        None => Err(IdError::MissingPrefix),
        Some(colon) => {
            let value = text.skip(colon + 1);
            id_of_kind(text.take(colon), value, parsed_uuid(after_prefix(value)))
        },
    }
}

impl Id {
    /// Whether this identifier names the given document.
    pub fn matches(&self, sbom: &Sbom) -> (r: bool)
        ensures
            r == self.deep_view().names(sbom.deep_view()),
    {
        match self {
            Id::Uuid(uuid) => sbom.sbom_id == *uuid,
            Id::Sha256(digest) => sbom.sha256 == *digest,
            Id::Sha384(digest) => sbom.sha384 == *digest,
            Id::Sha512(digest) => sbom.sha512 == *digest,
        }
    }

    /// The identity in the store, where this identifier is one.
    pub fn try_as_uid(&self) -> (r: Option<u128>)
        ensures
            r == (match *self {
                Id::Uuid(uuid) => Some(uuid),
                _ => None::<u128>,
            }),
    {
        match self {
            Id::Uuid(uuid) => Some(*uuid),
            _ => None,
        }
    }

    /// The identifier of the kind `kind` with the value `value`, where `uuid`
    /// is what the part of `value` after `uuid:` was read as.
    pub fn of_kind(kind: &str, value: String, uuid: Option<u128>) -> (r: Result<Id, IdError>)
        ensures
            outcome_view(r) == id_of_kind(kind@, value@, uuid),
    {
        let letters = chars_of(kind);
        let n = letters.len();
        assert(letters@.subrange(0, n as int) =~= kind@);
        if spells(&letters, 0, n, "sha256") {
            Ok(Id::Sha256(value))
        } else if spells(&letters, 0, n, "sha384") {
            Ok(Id::Sha384(value))
        } else if spells(&letters, 0, n, "sha512") {
            Ok(Id::Sha512(value))
        } else if spells(&letters, 0, n, "urn") && starts_with_uuid(value.as_str()) {
            match uuid {
                Some(uuid) => Ok(Id::Uuid(uuid)),
                None => Err(IdError::InvalidUuid),
            }
        } else {
            Err(IdError::UnsupportedAlgorithm)
        }
    }

    /// Reads an identifier: `sha256:`, `sha384:` or `sha512:` followed by a
    /// digest, or `urn:uuid:` followed by an identity.
    pub fn parse(text: &str) -> (r: Result<Id, IdError>)
        ensures
            outcome_view(r) == parsed_id(text@),
    {
        let chars = chars_of(text);
        let n = chars.len();
        let mut colon: usize = 0;
        while colon < n && chars[colon] != ':'
            invariant
                colon <= n,
                n == chars@.len(),
                chars@ == text@,
                first_colon(text@, 0) == first_colon(text@, colon as int),
            decreases n - colon,
        {
            colon += 1;
        }
        if colon == n {
            return Err(IdError::MissingPrefix);
        }
        let kind = text_of(&chars, 0, colon);
        let value = text_of(&chars, colon + 1, n);
        let tail = if n - colon - 1 >= 5 {
            text_of(&chars, colon + 6, n)
        } else {
            String::new()
        };
        proof {
            let v = text@.skip(colon + 1);
            assert(tail@ =~= after_prefix(v));
        }
        let uuid = parse_uuid(tail.as_str());
        Id::of_kind(kind.as_str(), value, uuid)
    }
}

fn starts_with_uuid(value: &str) -> (r: bool)
    ensures
        r == "uuid:"@.is_prefix_of(value@),
{
    let chars = chars_of(value);
    proof {
        reveal_strlit("uuid:");
    }
    if chars.len() < 5 {
        return false;
    }
    let r = spells(&chars, 0, 5, "uuid:");
    r
}

/// The lower-case hexadecimal digit for a value below sixteen.
pub open spec fn hex_digit(value: u8) -> char {
    if value < 10 {
        ((value + 48) as u8) as char
    } else {
        ((value + 87) as u8) as char
    }
}

/// The value of the `j`-th of the 32 hexadecimal digits of an identity,
/// counted from the most significant.
pub open spec fn nibble(id: u128, j: int) -> u8 {
    ((id >> ((124 - 4 * j) as u128)) & 0xf) as u8
}

/// Which hexadecimal digit stands at position `p` of the hyphenated form, for
/// a position that holds no hyphen.
pub open spec fn digit_index(p: int) -> int {
    if p < 8 {
        p
    } else if p < 13 {
        p - 1
    } else if p < 18 {
        p - 2
    } else if p < 23 {
        p - 3
    } else {
        p - 4
    }
}

/// The hyphenated form of an identity: its 32 lower-case hexadecimal digits in
/// groups of 8, 4, 4, 4 and 12, with a hyphen between the groups.
pub open spec fn hyphenated_text(id: u128) -> Seq<char> {
    Seq::new(
        36,
        |p: int|
            if p == 8 || p == 13 || p == 18 || p == 23 {
                '-'
            } else {
                hex_digit(nibble(id, digit_index(p)))
            },
    )
}

fn hex_digit_of(value: u8) -> (c: char)
    requires
        value < 16,
    ensures
        c == hex_digit(value),
{
    if value < 10 {
        (value + 48) as char
    } else {
        (value + 87) as char
    }
}

fn nibble_of(id: u128, j: u32) -> (r: u8)
    requires
        j < 32,
    ensures
        r == nibble(id, j as int),
        r < 16,
{
    let shift: u32 = 124 - 4 * j;
    let low: u128 = (id >> shift) & 0xf;
    assert(low < 16) by (bit_vector)
        requires
            low == (id >> shift) & 0xf,
    ;
    low as u8
}

/// Writes an identity in its hyphenated form.
pub fn hyphenated(id: u128) -> (r: String)
    ensures
        r@ == hyphenated_text(id),
{
    let mut out = String::new();
    let mut p: u32 = 0;
    while p < 36
        invariant
            p <= 36,
            out@ == hyphenated_text(id).take(p as int),
        decreases 36 - p,
    {
        if p == 8 || p == 13 || p == 18 || p == 23 {
            push_char(&mut out, '-');
        } else {
            let j: u32 = if p < 8 {
                p
            } else if p < 13 {
                p - 1
            } else if p < 18 {
                p - 2
            } else if p < 23 {
                p - 3
            } else {
                p - 4
            };
            push_char(&mut out, hex_digit_of(nibble_of(id, j)));
        }
        p += 1;
    }
    out
}

} // verus!
