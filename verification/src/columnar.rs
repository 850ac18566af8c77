//! The columnar batch that the sink takes: a row group as four `arrow`
//! arrays under their column names.

use std::sync::Arc;
use arrow_array::{ArrayRef, BinaryArray, RecordBatch, StringArray};
use arrow_schema::{DataType, Field, Schema};
use vstd::prelude::*;
use vstd::utf8::encode_utf8;
use crate::error::Error;
use crate::record::{bytes_of, text_of, Row};
use crate::rowgroup::RowGroup;

verus! {

#[verifier::external_type_specification]
#[verifier::external_body]
pub struct ExSchema(Schema);

/// The fields of a schema, in order: the name of each, and whether it may
/// hold nulls.
pub uninterp spec fn schema_fields(schema: Schema) -> Seq<(Seq<char>, bool)>;

/// Whether each field of a schema, in order, holds binary values rather
/// than text.
pub uninterp spec fn schema_binary(schema: Schema) -> Seq<bool>;

/// Builds the fields with `Field::new` and joins them with `Schema::new` of
/// `arrow_schema`. Trusted: the schema has four fields under the given
/// names, with the given marks for nulls; the third holds binary values, the
/// others text.
#[verifier::external_body]
fn build_schema(labels: (&str, &str, &str, &str), nullable: (bool, bool, bool, bool)) -> (schema:
    Schema)
    ensures
        schema_fields(schema) == seq![
            (labels.0@, nullable.0),
            (labels.1@, nullable.1),
            (labels.2@, nullable.2),
            (labels.3@, nullable.3),
        ],
        schema_binary(schema) == seq![false, false, true, false],
{
    let fields = vec![
        Field::new(labels.0, DataType::Utf8, nullable.0),
        Field::new(labels.1, DataType::Utf8, nullable.1),
        Field::new(labels.2, DataType::Binary, nullable.2),
        Field::new(labels.3, DataType::Utf8, nullable.3),
    ];
    Schema::new(fields)
}

/// A record batch of `arrow_array`, as the sink takes it. Nothing inside it
/// is visible to proofs: what it holds is spoken of through `batch_rows` and
/// `batch_fields`.
#[verifier::external_body]
pub struct ColumnarBatch {
    pub batch: RecordBatch,
}

/// The rows that a batch of the four columns holds, row `i` made of the
/// `i`-th value of each column, a null being an absent value.
pub uninterp spec fn batch_rows(batch: ColumnarBatch) -> Seq<Row>;

/// The fields of the schema of a batch, in order: the name of each column,
/// and whether it is marked as one that may hold nulls.
pub uninterp spec fn batch_fields(batch: ColumnarBatch) -> Seq<(Seq<char>, bool)>;

/// The most bytes that the values of one column may have together: `arrow`
/// addresses them by 32-bit signed offsets.
pub const OFFSET_LIMIT: usize = 2147483647;

/// The sum of a list of sizes.
pub open spec fn spec_size_total(sizes: Seq<nat>) -> nat
    decreases sizes.len(),
{
    if sizes.len() == 0 {
        0
    } else {
        spec_size_total(sizes.drop_last()) + sizes.last()
    }
}

/// The number of bytes of a text value in UTF-8; an absent value has none.
pub open spec fn text_size(text: Option<Seq<char>>) -> nat {
    match text {
        Some(t) => encode_utf8(t).len(),
        None => 0,
    }
}

/// The number of bytes of a binary value; an absent value has none.
pub open spec fn bytes_size(bytes: Option<Seq<u8>>) -> nat {
    match bytes {
        Some(b) => b.len(),
        None => 0,
    }
}

/// The sizes of the values of the `name` column.
pub open spec fn name_sizes(rows: Seq<Row>) -> Seq<nat> {
    Seq::new(rows.len(), |i: int| text_size(Some(rows[i].name)))
}

/// The sizes of the values of the `source` column.
pub open spec fn source_sizes(rows: Seq<Row>) -> Seq<nat> {
    Seq::new(rows.len(), |i: int| text_size(rows[i].source))
}

/// The sizes of the values of the `body` column.
pub open spec fn body_sizes(rows: Seq<Row>) -> Seq<nat> {
    Seq::new(rows.len(), |i: int| bytes_size(rows[i].body))
}

/// The sizes of the values of the `hash` column.
pub open spec fn hash_sizes(rows: Seq<Row>) -> Seq<nat> {
    Seq::new(rows.len(), |i: int| text_size(rows[i].hash))
}

/// Whether the values of each column can be addressed by 32-bit offsets.
pub open spec fn spec_fits_offsets(rows: Seq<Row>) -> bool {
    &&& spec_size_total(name_sizes(rows)) <= OFFSET_LIMIT
    &&& spec_size_total(source_sizes(rows)) <= OFFSET_LIMIT
    &&& spec_size_total(body_sizes(rows)) <= OFFSET_LIMIT
    &&& spec_size_total(hash_sizes(rows)) <= OFFSET_LIMIT
}

/// The fields of the output, in their fixed order: `name` is text and never
/// null; `source`, `body` and `hash` may be null.
pub open spec fn spec_output_fields() -> Seq<(Seq<char>, bool)> {
    seq![("name"@, false), ("source"@, true), ("body"@, true), ("hash"@, true)]
}

/// Which fields of the output hold binary values: `body` alone.
pub open spec fn spec_output_binary() -> Seq<bool> {
    seq![false, false, true, false]
}

/// The schema of the output: four columns in fixed order, `name` (text,
/// never null), `source` (text), `body` (binary) and `hash` (text), the last
/// three nullable.
pub fn output_schema() -> (schema: Schema)
    ensures
        schema_fields(schema) == spec_output_fields(),
        schema_binary(schema) == spec_output_binary(),
{
    build_schema(("name", "source", "body", "hash"), (false, true, true, true))
}

/// Builds the four arrays with `StringArray::from` and `BinaryArray::from`
/// and joins them under the schema with `RecordBatch::try_new` of
/// `arrow_array`. Trusted: the arrays do not overflow their offsets while
/// each column has at most `OFFSET_LIMIT` bytes; with four columns of the
/// same length under the schema of the output the batch is made, holds the
/// rows of the group, and has the fields of that schema.
#[verifier::external_body]
fn build_batch(schema: Schema, group: RowGroup) -> (batch: Result<ColumnarBatch, String>)
    requires
        group.wf(),
        spec_fits_offsets(group@),
        schema_fields(schema) == spec_output_fields(),
        schema_binary(schema) == spec_output_binary(),
    ensures
        batch is Ok,
        batch_rows(batch->Ok_0) == group@,
        batch_fields(batch->Ok_0) == schema_fields(schema),
{
    let bodies: Vec<Option<&[u8]>> = group.bodies.iter().map(|body| body.as_deref()).collect();
    let names: ArrayRef = Arc::new(StringArray::from(group.names));
    let sources: ArrayRef = Arc::new(StringArray::from(group.sources));
    let bodies: ArrayRef = Arc::new(BinaryArray::from(bodies));
    let hashes: ArrayRef = Arc::new(StringArray::from(group.hashes));
    match RecordBatch::try_new(Arc::new(schema), vec![names, sources, bodies, hashes]) {
        Ok(batch) => Ok(ColumnarBatch { batch }),
        Err(err) => Err(err.to_string()),
    }
}

/// The total of the first `i + 1` sizes is the total of the first `i` and
/// the next size, and no prefix has a larger total than the whole list.
proof fn lemma_size_total_step(sizes: Seq<nat>, i: int)
    requires
        0 <= i < sizes.len(),
    ensures
        spec_size_total(sizes.take(i + 1)) == spec_size_total(sizes.take(i)) + sizes[i],
        spec_size_total(sizes.take(i + 1)) <= spec_size_total(sizes),
    decreases sizes.len() - i,
{
    assert(sizes.take(i + 1).drop_last() =~= sizes.take(i));
    if i + 1 < sizes.len() {
        lemma_size_total_step(sizes, i + 1);
    } else {
        assert(sizes.take(i + 1) =~= sizes);
    }
}

/// Adds a size to a running total unless the sum passes the offset limit.
fn add_size(total: usize, size: usize) -> (sum: Option<usize>)
    requires
        total <= OFFSET_LIMIT,
    ensures
        total + size <= OFFSET_LIMIT ==> sum == Some((total + size) as usize),
        total + size > OFFSET_LIMIT ==> sum is None,
{
    if size <= OFFSET_LIMIT - total {
        Some(total + size)
    } else {
        None
    }
}

/// The number of bytes of an optional text value.
fn text_len(text: &Option<String>) -> (size: usize)
    ensures
        size == text_size(text_of(*text)),
{
    match text {
        Some(t) => t.as_str().as_bytes().len(),
        None => 0,
    }
}

/// The number of bytes of an optional binary value.
fn bytes_len(bytes: &Option<Vec<u8>>) -> (size: usize)
    ensures
        size == bytes_size(bytes_of(*bytes)),
{
    match bytes {
        Some(b) => b.len(),
        None => 0,
    }
}

impl RowGroup {
    /// Whether the group can be laid out as `arrow` arrays: whether each
    /// column has at most `OFFSET_LIMIT` bytes.
    pub fn fits_offsets(&self) -> (fits: bool)
        requires
            self.wf(),
        ensures
            fits == spec_fits_offsets(self@),
    {
        let ghost rows = self@;
        let mut names: usize = 0;
        let mut sources: usize = 0;
        let mut bodies: usize = 0;
        let mut hashes: usize = 0;
        let mut i: usize = 0;
        while i < self.names.len()
            invariant
                self.wf(),
                rows == self@,
                i <= self.names@.len(),
                names == spec_size_total(name_sizes(rows).take(i as int)),
                sources == spec_size_total(source_sizes(rows).take(i as int)),
                bodies == spec_size_total(body_sizes(rows).take(i as int)),
                hashes == spec_size_total(hash_sizes(rows).take(i as int)),
                names <= OFFSET_LIMIT,
                sources <= OFFSET_LIMIT,
                bodies <= OFFSET_LIMIT,
                hashes <= OFFSET_LIMIT,
            decreases self.names@.len() - i,
        {
            proof {
                lemma_size_total_step(name_sizes(rows), i as int);
                lemma_size_total_step(source_sizes(rows), i as int);
                lemma_size_total_step(body_sizes(rows), i as int);
                lemma_size_total_step(hash_sizes(rows), i as int);
            }
            let name_len = self.names[i].as_str().as_bytes().len();
            let source_len = text_len(&self.sources[i]);
            let body_len = bytes_len(&self.bodies[i]);
            let hash_len = text_len(&self.hashes[i]);
            match add_size(names, name_len) {
                Some(sum) => {
                    names = sum;
                },
                None => {
                    return false;
                },
            }
            match add_size(sources, source_len) {
                Some(sum) => {
                    sources = sum;
                },
                None => {
                    return false;
                },
            }
            match add_size(bodies, body_len) {
                Some(sum) => {
                    bodies = sum;
                },
                None => {
                    return false;
                },
            }
            match add_size(hashes, hash_len) {
                Some(sum) => {
                    hashes = sum;
                },
                None => {
                    return false;
                },
            }
            i += 1;
        }
        proof {
            assert(name_sizes(rows).take(i as int) =~= name_sizes(rows));
            assert(source_sizes(rows).take(i as int) =~= source_sizes(rows));
            assert(body_sizes(rows).take(i as int) =~= body_sizes(rows));
            assert(hash_sizes(rows).take(i as int) =~= hash_sizes(rows));
        }
        true
    }

    /// Lays the group out as a record batch under the schema of the output.
    /// Fails exactly when a column has more bytes than 32-bit offsets can
    /// address.
    pub fn into_record_batch(self) -> (batch: Result<ColumnarBatch, Error>)
        requires
            self.wf(),
        ensures
            batch is Ok <==> spec_fits_offsets(self@),
            batch is Ok ==> batch_rows(batch->Ok_0) == self@ && batch_fields(batch->Ok_0)
                == spec_output_fields(),
            batch is Err ==> batch->Err_0 is Arrow && batch->Err_0->Arrow_err@
                == "a column of the row group exceeds the 32-bit offset range"@,
    {
        if !self.fits_offsets() {
            return Err(
                Error::Arrow {
                    err: "a column of the row group exceeds the 32-bit offset range".to_string(),
                },
            );
        }
        match build_batch(output_schema(), self) {
            Ok(batch) => Ok(batch),
            Err(err) => Err(Error::Arrow { err }),
        }
    }
}

} // verus!
