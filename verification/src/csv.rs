//! Comma-separated tables as bytes.
//!
//! A table is a sequence of records, a record a sequence of fields, a field a
//! sequence of bytes. Fields are separated by a comma and every record ends
//! with a line feed. A field that holds a comma, a double quote, a line feed
//! or a carriage return is written between double quotes, with every double
//! quote inside it doubled; any other field is written as it is. A reader of
//! such a table gets back every field as it was written.

use vstd::prelude::*;

verus! {

/// The byte between two fields of a record: a comma.
pub const DELIMITER: u8 = 44;

/// The byte that encloses a quoted field: a double quote.
pub const QUOTE: u8 = 34;

/// The byte that ends a record: a line feed.
pub const LINE_FEED: u8 = 10;

/// A carriage return.
pub const CARRIAGE_RETURN: u8 = 13;

/// Whether a byte forces the field that holds it to be quoted.
pub open spec fn is_special(b: u8) -> bool {
    b == DELIMITER || b == QUOTE || b == LINE_FEED || b == CARRIAGE_RETURN
}

/// Whether a field has to be written between quotes.
pub open spec fn needs_quoting(field: Seq<u8>) -> bool {
    exists|i: int| 0 <= i < field.len() && is_special(#[trigger] field[i])
}

/// What one byte of a quoted field is written as: a quote is doubled.
pub open spec fn escaped_byte(b: u8) -> Seq<u8> {
    if b == QUOTE {
        seq![QUOTE, QUOTE]
    } else {
        seq![b]
    }
}

/// The inside of a quoted field: the field with each quote doubled.
pub open spec fn escaped(field: Seq<u8>) -> Seq<u8>
    decreases field.len(),
{
    if field.len() == 0 {
        Seq::empty()
    } else {
        escaped(field.drop_last()) + escaped_byte(field.last())
    }
}

/// A field as it stands in the table.
pub open spec fn encoded_field(field: Seq<u8>) -> Seq<u8> {
    if needs_quoting(field) {
        seq![QUOTE] + escaped(field) + seq![QUOTE]
    } else {
        field
    }
}

/// The fields of a record, each encoded, with a delimiter between neighbours.
pub open spec fn encoded_fields(fields: Seq<Seq<u8>>) -> Seq<u8>
    decreases fields.len(),
{
    if fields.len() == 0 {
        Seq::empty()
    } else if fields.len() == 1 {
        encoded_field(fields[0])
    } else {
        encoded_fields(fields.drop_last()) + seq![DELIMITER] + encoded_field(fields.last())
    }
}

/// A record as it stands in the table: its fields and the line feed.
pub open spec fn encoded_record(fields: Seq<Seq<u8>>) -> Seq<u8> {
    encoded_fields(fields) + seq![LINE_FEED]
}

/// A whole table: its records one after the other.
pub open spec fn encoded_table(records: Seq<Seq<Seq<u8>>>) -> Seq<u8>
    decreases records.len(),
{
    if records.len() == 0 {
        Seq::empty()
    } else {
        encoded_table(records.drop_last()) + encoded_record(records.last())
    }
}

/// Where a reader stands between two bytes of a table.
pub ghost enum Position {
    /// At the start of a field.
    FieldStart,
    /// Within a field that is written as it is.
    InPlain,
    /// Within a field that is written between quotes.
    InQuoted,
    /// Behind a quote within a quoted field: the quote ends the field, or is
    /// the first of a doubled quote.
    AfterQuote,
}

/// What a reader has made of the bytes that it has passed.
pub ghost struct Reading {
    /// The records that are complete.
    pub records: Seq<Seq<Seq<u8>>>,
    /// The complete fields of the record that is being read.
    pub fields: Seq<Seq<u8>>,
    /// The bytes of the field that is being read.
    pub field: Seq<u8>,
    /// Where the reader stands.
    pub position: Position,
}

impl Reading {
    /// A reader that has read nothing.
    pub open spec fn start() -> Reading {
        Reading {
            records: Seq::empty(),
            fields: Seq::empty(),
            field: Seq::empty(),
            position: Position::FieldStart,
        }
    }

    /// Whether the reader stands between two records.
    pub open spec fn between_records(self) -> bool {
        self.position == Position::FieldStart && self.field.len() == 0 && self.fields.len() == 0
    }

    /// The reader after it took `b` into the field.
    pub open spec fn took(self, b: u8, position: Position) -> Reading {
        Reading { field: self.field.push(b), position, ..self }
    }

    /// The reader after the field ended.
    pub open spec fn ended_field(self) -> Reading {
        Reading {
            fields: self.fields.push(self.field),
            field: Seq::empty(),
            position: Position::FieldStart,
            ..self
        }
    }

    /// The reader after the record ended.
    pub open spec fn ended_record(self) -> Reading {
        Reading {
            records: self.records.push(self.fields.push(self.field)),
            fields: Seq::empty(),
            field: Seq::empty(),
            position: Position::FieldStart,
        }
    }

    /// The reader after a byte that stands outside quotes.
    pub open spec fn outside(self, b: u8) -> Reading {
        if b == DELIMITER {
            self.ended_field()
        } else if b == LINE_FEED {
            self.ended_record()
        } else {
            self.took(b, Position::InPlain)
        }
    }

    /// The reader after the next byte. Between quotes every byte but the quote
    /// belongs to the field, and a doubled quote stands for one quote. Outside
    /// quotes a delimiter ends the field and a line feed ends the record.
    pub open spec fn next(self, b: u8) -> Reading {
        match self.position {
            Position::FieldStart => if b == QUOTE {
                Reading { position: Position::InQuoted, ..self }
            } else {
                self.outside(b)
            },
            Position::InPlain => self.outside(b),
            Position::InQuoted => if b == QUOTE {
                Reading { position: Position::AfterQuote, ..self }
            } else {
                self.took(b, Position::InQuoted)
            },
            Position::AfterQuote => if b == QUOTE {
                self.took(QUOTE, Position::InQuoted)
            } else {
                self.outside(b)
            },
        }
    }

    /// The reader after it passed `bytes`.
    pub open spec fn read(self, bytes: Seq<u8>) -> Reading
        decreases bytes.len(),
    {
        if bytes.len() == 0 {
            self
        } else {
            self.read(bytes.drop_last()).next(bytes.last())
        }
    }
}

/// The records that a reader finds in `bytes`.
pub open spec fn read_table(bytes: Seq<u8>) -> Seq<Seq<Seq<u8>>> {
    Reading::start().read(bytes).records
}

/// The number of records that a reader finds in `bytes`.
pub open spec fn record_count(bytes: Seq<u8>) -> nat {
    read_table(bytes).len()
}

/// Reading `a + b` is reading `a`, then `b`.
pub proof fn lemma_read_concat(r: Reading, a: Seq<u8>, b: Seq<u8>)
    ensures
        r.read(a + b) == r.read(a).read(b),
    decreases b.len(),
{
    if b.len() > 0 {
        assert((a + b).drop_last() =~= a + b.drop_last());
        lemma_read_concat(r, a, b.drop_last());
    }
}

/// Reading one byte is taking the next step.
pub proof fn lemma_read_byte(r: Reading, b: u8)
    ensures
        r.read(seq![b]) == r.next(b),
{
    let s = seq![b];
    assert(r.read(s.drop_last()) == r);
}

/// Between quotes the reader takes an escaped field for the field itself.
pub proof fn lemma_read_escaped(r: Reading, field: Seq<u8>)
    requires
        r.position == Position::InQuoted,
    ensures
        r.read(escaped(field)) == (Reading { field: r.field + field, ..r }),
    decreases field.len(),
{
    if field.len() > 0 {
        let head = field.drop_last();
        let b = field.last();
        let before = Reading { field: r.field + head, ..r };
        lemma_read_escaped(r, head);
        lemma_read_concat(r, escaped(head), escaped_byte(b));
        if b == QUOTE {
            assert(escaped_byte(b) =~= seq![QUOTE] + seq![QUOTE]);
            lemma_read_concat(before, seq![QUOTE], seq![QUOTE]);
            lemma_read_byte(before, QUOTE);
            lemma_read_byte(before.next(QUOTE), QUOTE);
        } else {
            lemma_read_byte(before, b);
        }
        assert((r.field + head).push(b) =~= r.field + field);
    }
}

/// Outside quotes the reader takes bytes that need no quoting as they are.
pub proof fn lemma_read_plain(r: Reading, field: Seq<u8>)
    requires
        r.position == Position::FieldStart || r.position == Position::InPlain,
        !needs_quoting(field),
    ensures
        r.read(field) == (Reading {
            field: r.field + field,
            position: if field.len() == 0 {
                r.position
            } else {
                Position::InPlain
            },
            ..r
        }),
    decreases field.len(),
{
    if field.len() > 0 {
        let head = field.drop_last();
        let b = field.last();
        assert(!needs_quoting(head));
        lemma_read_plain(r, head);
        assert((r.field + head).push(b) =~= r.field + field);
    }
}

/// A reader at the start of a field takes an encoded field for the field
/// itself, and then stands where a delimiter ends the field and a line feed
/// ends the record.
pub proof fn lemma_read_field(r: Reading, field: Seq<u8>)
    requires
        r.position == Position::FieldStart,
        r.field.len() == 0,
    ensures
        r.read(encoded_field(field)).field == field,
        r.read(encoded_field(field)).fields == r.fields,
        r.read(encoded_field(field)).records == r.records,
        r.read(encoded_field(field)).position != Position::InQuoted,
{
    if needs_quoting(field) {
        let open = seq![QUOTE];
        let inner = escaped(field);
        let opened = Reading { position: Position::InQuoted, ..r };
        lemma_read_concat(r, open + inner, open);
        lemma_read_concat(r, open, inner);
        lemma_read_byte(r, QUOTE);
        lemma_read_escaped(opened, field);
        lemma_read_byte(opened.read(inner), QUOTE);
    } else {
        lemma_read_plain(r, field);
    }
}

/// A reader at the start of a record takes the encoded fields of a record for
/// the fields themselves.
pub proof fn lemma_read_fields(r: Reading, fields: Seq<Seq<u8>>)
    requires
        r.between_records(),
        fields.len() >= 1,
    ensures
        r.read(encoded_fields(fields)).fields == fields.drop_last(),
        r.read(encoded_fields(fields)).field == fields.last(),
        r.read(encoded_fields(fields)).records == r.records,
        r.read(encoded_fields(fields)).position != Position::InQuoted,
    decreases fields.len(),
{
    if fields.len() == 1 {
        lemma_read_field(r, fields[0]);
    } else {
        let head = fields.drop_last();
        let comma = seq![DELIMITER];
        lemma_read_fields(r, head);
        let at_end = r.read(encoded_fields(head));
        lemma_read_concat(r, encoded_fields(head) + comma, encoded_field(fields.last()));
        lemma_read_concat(r, encoded_fields(head), comma);
        lemma_read_byte(at_end, DELIMITER);
        let next = at_end.next(DELIMITER);
        lemma_read_field(next, fields.last());
    }
}

/// A reader between two records takes an encoded record for the record
/// itself, and stands between two records again.
pub proof fn lemma_read_record(r: Reading, fields: Seq<Seq<u8>>)
    requires
        r.between_records(),
        fields.len() >= 1,
    ensures
        r.read(encoded_record(fields)) == (Reading { records: r.records.push(fields), ..r }),
{
    lemma_read_fields(r, fields);
    let at_end = r.read(encoded_fields(fields));
    lemma_read_concat(r, encoded_fields(fields), seq![LINE_FEED]);
    lemma_read_byte(at_end, LINE_FEED);
    assert(fields.drop_last().push(fields.last()) =~= fields);
    assert(r.fields =~= Seq::<Seq<u8>>::empty());
    assert(r.field =~= Seq::<u8>::empty());
}

/// Whether every record has a field.
pub open spec fn has_fields(records: Seq<Seq<Seq<u8>>>) -> bool {
    forall|i: int| 0 <= i < records.len() ==> (#[trigger] records[i]).len() >= 1
}

/// A reader gets back from an encoded table the table that was written:
/// every record and every field, byte for byte, whatever delimiters, quotes
/// and line breaks the fields hold.
pub proof fn lemma_read_table(records: Seq<Seq<Seq<u8>>>)
    requires
        has_fields(records),
    ensures
        Reading::start().read(encoded_table(records)) == (Reading {
            records,
            ..Reading::start()
        }),
        read_table(encoded_table(records)) == records,
        record_count(encoded_table(records)) == records.len(),
    decreases records.len(),
{
    if records.len() == 0 {
        assert(records =~= Seq::<Seq<Seq<u8>>>::empty());
    } else {
        let head = records.drop_last();
        assert(has_fields(head)) by {
            assert forall|i: int| 0 <= i < head.len() implies (#[trigger] head[i]).len() >= 1 by {}
        }
        lemma_read_table(head);
        let r = Reading { records: head, ..Reading::start() };
        lemma_read_concat(Reading::start(), encoded_table(head), encoded_record(records.last()));
        lemma_read_record(r, records.last());
        assert(head.push(records.last()) =~= records);
    }
}

fn byte_is_special(b: u8) -> (r: bool)
    ensures
        r == is_special(b),
{
    b == DELIMITER || b == QUOTE || b == LINE_FEED || b == CARRIAGE_RETURN
}

/// Whether a field has to be written between quotes.
pub fn field_needs_quoting(field: &[u8]) -> (r: bool)
    ensures
        r == needs_quoting(field@),
{
    let mut i: usize = 0;
    while i < field.len()
        invariant
            i <= field@.len(),
            forall|j: int| 0 <= j < i ==> !is_special(#[trigger] field@[j]),
        decreases field@.len() - i,
    {
        if byte_is_special(field[i]) {
            return true;
        }
        i += 1;
    }
    false
}

/// Appends one field, encoded, to `out`.
pub fn write_field(out: &mut Vec<u8>, field: &[u8])
    ensures
        final(out)@ == old(out)@ + encoded_field(field@),
{
    let quote = field_needs_quoting(field);
    if quote {
        out.push(QUOTE);
    }
    let mut i: usize = 0;
    while i < field.len()
        invariant
            i <= field@.len(),
            quote == needs_quoting(field@),
            quote ==> out@ == old(out)@ + seq![QUOTE] + escaped(field@.take(i as int)),
            !quote ==> out@ == old(out)@ + field@.take(i as int),
        decreases field@.len() - i,
    {
        let b = field[i];
        proof {
            assert(field@.take(i + 1).drop_last() =~= field@.take(i as int));
        }
        if quote && b == QUOTE {
            out.push(QUOTE);
            out.push(QUOTE);
        } else {
            out.push(b);
        }
        i += 1;
    }
    assert(field@.take(i as int) =~= field@);
    if quote {
        out.push(QUOTE);
    }
}

/// Appends one record to `out`: its fields, encoded and separated, and the
/// line feed.
pub fn write_record(out: &mut Vec<u8>, fields: &Vec<Vec<u8>>)
    ensures
        final(out)@ == old(out)@ + encoded_record(fields.deep_view()),
{
    let ghost all = fields.deep_view();
    let mut i: usize = 0;
    while i < fields.len()
        invariant
            i <= fields.len(),
            all == fields.deep_view(),
            all.len() == fields.len(),
            out@ == old(out)@ + encoded_fields(all.take(i as int)),
        decreases fields.len() - i,
    {
        if i > 0 {
            out.push(DELIMITER);
        }
        write_field(out, fields[i].as_slice());
        proof {
            let now = all.take(i + 1);
            assert(now.drop_last() =~= all.take(i as int));
            assert(now.last() == fields[i as int]@);
        }
        i += 1;
    }
    assert(all.take(i as int) =~= all);
    out.push(LINE_FEED);
}

/// Appends one record after the other to `out`.
pub fn write_records(out: &mut Vec<u8>, records: &Vec<Vec<Vec<u8>>>)
    ensures
        final(out)@ == old(out)@ + encoded_table(records.deep_view()),
{
    let ghost all = records.deep_view();
    let mut i: usize = 0;
    while i < records.len()
        invariant
            i <= records.len(),
            all == records.deep_view(),
            all.len() == records.len(),
            out@ == old(out)@ + encoded_table(all.take(i as int)),
        decreases records.len() - i,
    {
        write_record(out, &records[i]);
        proof {
            let now = all.take(i + 1);
            assert(now.drop_last() =~= all.take(i as int));
        }
        i += 1;
    }
    assert(all.take(i as int) =~= all);
}

/// Writes a whole table.
pub fn render_table(records: &Vec<Vec<Vec<u8>>>) -> (r: Vec<u8>)
    ensures
        r@ == encoded_table(records.deep_view()),
{
    let mut out: Vec<u8> = Vec::new();
    write_records(&mut out, records);
    out
}

} // verus!
