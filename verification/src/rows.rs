//! The row mapper: turns the raw rows a statement returned into the
//! endpoint's result records, in order, one record per row. Columns are
//! read by fixed ordinal position before they reach this module; here each
//! JSON-typed column's text is re-parsed, degrading to a null-equivalent
//! field when it is malformed.

use vstd::prelude::*;

use crate::json::spec_json_field;
use crate::json::json_field_from_text;
use crate::json::JsonField;

verus! {

/// A raw row of the minimal endpoint: its status text and the timestamp as
/// microseconds since the epoch.
pub struct MinimalRow {
    pub status: String,
    pub ts_micros: i64,
}

/// A result record of the minimal endpoint.
pub struct MinimalRecord {
    pub status: String,
    pub ts_micros: i64,
}

/// A raw row of the POST echo endpoint: the row number, the echoed
/// document's text, and the computed string.
pub struct PostRow {
    pub row_num: i32,
    pub echo_text: String,
    pub computed: String,
}

/// A result record of the POST echo endpoint.
pub struct PostRecord {
    pub row_num: i32,
    pub echo: JsonField,
    pub computed: String,
}

/// A raw row of the nested-JSON endpoint: the row number and the nested
/// document's text.
pub struct NestedRow {
    pub row_num: i32,
    pub nested_text: String,
}

/// A result record of the nested-JSON endpoint.
pub struct NestedRecord {
    pub row_num: i32,
    pub nested: JsonField,
}

/// A raw row of the large-payload endpoint: one flat string column.
pub struct LargePayloadRow {
    pub data: String,
}

/// A result record of the large-payload endpoint.
pub struct LargePayloadRecord {
    pub data: String,
}

/// A raw row of the many-parameters endpoint: the parameter count and the
/// checksum.
pub struct ManyParamsRow {
    pub param_count: i32,
    pub checksum: String,
}

/// A result record of the many-parameters endpoint.
pub struct ManyParamsRecord {
    pub param_count: i32,
    pub checksum: String,
}

/// What a minimal-endpoint row becomes: both columns carried over.
pub open spec fn spec_map_minimal_row(row: MinimalRow) -> MinimalRecord {
    MinimalRecord { status: row.status, ts_micros: row.ts_micros }
}

/// What a POST-echo row becomes: the echoed text re-parsed, with the
/// null-equivalent fallback.
pub open spec fn spec_map_post_row(row: PostRow) -> PostRecord {
    PostRecord {
        row_num: row.row_num,
        echo: spec_json_field(row.echo_text),
        computed: row.computed,
    }
}

/// What a nested-JSON row becomes: the nested text re-parsed, with the
/// null-equivalent fallback.
pub open spec fn spec_map_nested_row(row: NestedRow) -> NestedRecord {
    NestedRecord { row_num: row.row_num, nested: spec_json_field(row.nested_text) }
}

/// What a large-payload row becomes: the flat string carried over.
pub open spec fn spec_map_large_payload_row(row: LargePayloadRow) -> LargePayloadRecord {
    LargePayloadRecord { data: row.data }
}

/// What a many-parameters row becomes: both columns carried over.
pub open spec fn spec_map_many_params_row(row: ManyParamsRow) -> ManyParamsRecord {
    ManyParamsRecord { param_count: row.param_count, checksum: row.checksum }
}

/// Maps one minimal-endpoint row to its record.
pub fn map_minimal_row(row: MinimalRow) -> (r: MinimalRecord)
    ensures
        r == spec_map_minimal_row(row),
{
    let MinimalRow { status, ts_micros } = row;
    MinimalRecord { status, ts_micros }
}

/// Maps one POST-echo row to its record.
pub fn map_post_row(row: PostRow) -> (r: PostRecord)
    ensures
        r == spec_map_post_row(row),
{
    let PostRow { row_num, echo_text, computed } = row;
    PostRecord { row_num, echo: json_field_from_text(echo_text), computed }
}

/// Maps one nested-JSON row to its record.
pub fn map_nested_row(row: NestedRow) -> (r: NestedRecord)
    ensures
        r == spec_map_nested_row(row),
{
    let NestedRow { row_num, nested_text } = row;
    NestedRecord { row_num, nested: json_field_from_text(nested_text) }
}

/// Maps one large-payload row to its record.
pub fn map_large_payload_row(row: LargePayloadRow) -> (r: LargePayloadRecord)
    ensures
        r == spec_map_large_payload_row(row),
{
    let LargePayloadRow { data } = row;
    LargePayloadRecord { data }
}

/// Maps one many-parameters row to its record.
pub fn map_many_params_row(row: ManyParamsRow) -> (r: ManyParamsRecord)
    ensures
        r == spec_map_many_params_row(row),
{
    let ManyParamsRow { param_count, checksum } = row;
    ManyParamsRecord { param_count, checksum }
}

/// Maps a minimal-endpoint row set, one record per row, in order.
pub fn map_minimal_rows(rows: Vec<MinimalRow>) -> (r: Vec<MinimalRecord>)
    ensures
        r@.len() == rows@.len(),
        forall|i: int| 0 <= i < rows@.len() ==> r@[i] == spec_map_minimal_row(rows@[i]),
{
    let ghost orig: Seq<MinimalRow> = rows@;
    let mut rest = rows;
    let mut out: Vec<MinimalRecord> = Vec::new();
    while rest.len() > 0
        invariant
            out@.len() + rest@.len() == orig.len(),
            rest@ == orig.skip(out@.len() as int),
            forall|i: int| 0 <= i < out@.len() ==> out@[i] == spec_map_minimal_row(orig[i]),
        decreases rest@.len(),
    {
        let ghost k = out@.len() as int;
        let row = rest.remove(0);
        proof {
            assert(row == orig[k]);
            assert(rest@ =~= orig.skip(k + 1));
        }
        out.push(map_minimal_row(row));
    }
    out
}

/// Maps a POST-echo row set, one record per row, in order.
pub fn map_post_rows(rows: Vec<PostRow>) -> (r: Vec<PostRecord>)
    ensures
        r@.len() == rows@.len(),
        forall|i: int| 0 <= i < rows@.len() ==> r@[i] == spec_map_post_row(rows@[i]),
{
    let ghost orig: Seq<PostRow> = rows@;
    let mut rest = rows;
    let mut out: Vec<PostRecord> = Vec::new();
    while rest.len() > 0
        invariant
            out@.len() + rest@.len() == orig.len(),
            rest@ == orig.skip(out@.len() as int),
            forall|i: int| 0 <= i < out@.len() ==> out@[i] == spec_map_post_row(orig[i]),
        decreases rest@.len(),
    {
        let ghost k = out@.len() as int;
        let row = rest.remove(0);
        proof {
            assert(row == orig[k]);
            assert(rest@ =~= orig.skip(k + 1));
        }
        out.push(map_post_row(row));
    }
    out
}

/// Maps a nested-JSON row set, one record per row, in order.
pub fn map_nested_rows(rows: Vec<NestedRow>) -> (r: Vec<NestedRecord>)
    ensures
        r@.len() == rows@.len(),
        forall|i: int| 0 <= i < rows@.len() ==> r@[i] == spec_map_nested_row(rows@[i]),
{
    let ghost orig: Seq<NestedRow> = rows@;
    let mut rest = rows;
    let mut out: Vec<NestedRecord> = Vec::new();
    while rest.len() > 0
        invariant
            out@.len() + rest@.len() == orig.len(),
            rest@ == orig.skip(out@.len() as int),
            forall|i: int| 0 <= i < out@.len() ==> out@[i] == spec_map_nested_row(orig[i]),
        decreases rest@.len(),
    {
        let ghost k = out@.len() as int;
        let row = rest.remove(0);
        proof {
            assert(row == orig[k]);
            assert(rest@ =~= orig.skip(k + 1));
        }
        out.push(map_nested_row(row));
    }
    out
}

/// Maps a large-payload row set, one record per row, in order.
pub fn map_large_payload_rows(rows: Vec<LargePayloadRow>) -> (r: Vec<LargePayloadRecord>)
    ensures
        r@.len() == rows@.len(),
        forall|i: int| 0 <= i < rows@.len() ==> r@[i] == spec_map_large_payload_row(rows@[i]),
{
    let ghost orig: Seq<LargePayloadRow> = rows@;
    let mut rest = rows;
    let mut out: Vec<LargePayloadRecord> = Vec::new();
    while rest.len() > 0
        invariant
            out@.len() + rest@.len() == orig.len(),
            rest@ == orig.skip(out@.len() as int),
            forall|i: int| 0 <= i < out@.len() ==> out@[i] == spec_map_large_payload_row(orig[i]),
        decreases rest@.len(),
    {
        let ghost k = out@.len() as int;
        let row = rest.remove(0);
        proof {
            assert(row == orig[k]);
            assert(rest@ =~= orig.skip(k + 1));
        }
        out.push(map_large_payload_row(row));
    }
    out
}

/// Maps a many-parameters row set, one record per row, in order.
pub fn map_many_params_rows(rows: Vec<ManyParamsRow>) -> (r: Vec<ManyParamsRecord>)
    ensures
        r@.len() == rows@.len(),
        forall|i: int| 0 <= i < rows@.len() ==> r@[i] == spec_map_many_params_row(rows@[i]),
{
    let ghost orig: Seq<ManyParamsRow> = rows@;
    let mut rest = rows;
    let mut out: Vec<ManyParamsRecord> = Vec::new();
    while rest.len() > 0
        invariant
            out@.len() + rest@.len() == orig.len(),
            rest@ == orig.skip(out@.len() as int),
            forall|i: int| 0 <= i < out@.len() ==> out@[i] == spec_map_many_params_row(orig[i]),
        decreases rest@.len(),
    {
        let ghost k = out@.len() as int;
        let row = rest.remove(0);
        proof {
            assert(row == orig[k]);
            assert(rest@ =~= orig.skip(k + 1));
        }
        out.push(map_many_params_row(row));
    }
    out
}

} // verus!
