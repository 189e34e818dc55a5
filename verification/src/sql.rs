//! Parameter records and the SQL synthesizer: one builder per endpoint, each
//! producing the exact statement that invokes the endpoint's stored
//! procedure with the parameters embedded as literals in their fixed
//! positional order. String-typed arguments are embedded inside
//! single-quoted literals with their single quotes doubled; optional
//! parameters get their documented defaults.

use vstd::prelude::*;
use vstd::string::StrSliceExecFns;
use vstd::string::StringExecFns;

use crate::text::bool_to_sql;
use crate::text::escape_quotes;
use crate::text::i64_to_dec;
use crate::text::spec_bool_str;
use crate::text::spec_dec;
use crate::text::spec_escape;

verus! {

/// Parameters of the broad type-coverage endpoint. Numbers, booleans and the
/// structured types (dates, UUIDs, arrays, JSON documents) arrive as the
/// HTTP layer delivered them: scalars typed, everything else as strings.
pub struct TestParams {
    pub records: i32,
    pub text: String,
    pub int_val: i32,
    pub bigint: i64,
    pub numeric: String,
    pub real: String,
    pub double: String,
    pub bool_val: bool,
    pub date: String,
    pub timestamp: String,
    pub timestamptz: String,
    pub uuid: String,
    pub json: String,
    pub jsonb: String,
    pub int_array: String,
    pub text_array: String,
}

/// Body of the POST echo endpoint: both fields optional, the payload already
/// serialized to its JSON text.
pub struct PostBody {
    pub records: Option<i32>,
    pub payload: Option<String>,
}

/// Parameters of the nested-JSON endpoint.
pub struct NestedParams {
    pub records: Option<i32>,
    pub depth: Option<i32>,
}

/// Parameters of the large-payload endpoint.
pub struct LargePayloadParams {
    pub size_kb: Option<i32>,
}

/// The twenty scalar parameters of the many-parameters endpoint, in four
/// repeating blocks of five (string, integer, boolean, numeric-as-string,
/// string).
pub struct ManyParams {
    pub p1: String,
    pub p2: i32,
    pub p3: bool,
    pub p4: String,
    pub p5: String,
    pub p6: String,
    pub p7: i32,
    pub p8: bool,
    pub p9: String,
    pub p10: String,
    pub p11: String,
    pub p12: i32,
    pub p13: bool,
    pub p14: String,
    pub p15: String,
    pub p16: String,
    pub p17: i32,
    pub p18: bool,
    pub p19: String,
    pub p20: String,
}

/// The value of an optional parameter: the given one, or the endpoint's
/// documented default when absent.
pub open spec fn spec_i32_or(o: Option<i32>, d: i32) -> i32 {
    match o {
        Some(v) => v,
        None => d,
    }
}

/// The payload text embedded by the POST endpoint: the given document, or
/// the empty JSON object when absent.
pub open spec fn spec_payload_text(o: Option<String>) -> Seq<char> {
    match o {
        Some(s) => s@,
        None => "{}"@,
    }
}

/// Substitutes the documented default for an absent optional parameter.
pub fn i32_or(o: Option<i32>, d: i32) -> (r: i32)
    ensures
        r == spec_i32_or(o, d),
{
    match o {
        Some(v) => v,
        None => d,
    }
}

/// The statement of the type-coverage endpoint: `public.perf_test` with its
/// sixteen arguments in declared order. The free-text, JSON and JSONB
/// arguments are quote-escaped and single-quoted; the numeric, date,
/// timestamp, UUID and array arguments are embedded as delivered, with their
/// fixed type ascriptions.
pub open spec fn spec_perf_test_sql(p: TestParams) -> Seq<char> {
    "SELECT row_num, text_val, varchar_val, char_val, smallint_val, int_val, bigint_val,\n                numeric_val::float8, real_val, double_val, bool_val, date_val, time_val,\n                timestamp_val, timestamptz_val, interval_val::text, uuid_val,\n                json_val::text, jsonb_val::text, int_array_val, text_array_val,\n                nullable_text, nullable_int\n         FROM public.perf_test("@
        + spec_dec(p.records as int) + ", '"@ + spec_escape(p.text@) + "', "@ + spec_dec(
        p.int_val as int,
    ) + ", "@ + spec_dec(p.bigint as int) + ", "@ + p.numeric@ + "::numeric, "@ + p.real@
        + "::real, "@ + p.double@ + "::double precision, "@ + spec_bool_str(p.bool_val) + ", '"@
        + p.date@ + "'::date, '"@ + p.timestamp@ + "'::timestamp, '"@ + p.timestamptz@
        + "'::timestamptz, '"@ + p.uuid@ + "'::uuid, '"@ + spec_escape(p.json@) + "'::json, '"@
        + spec_escape(p.jsonb@) + "'::jsonb, '"@ + p.int_array@ + "'::int[], '"@ + p.text_array@
        + "'::text[])"@
}

/// The fixed statement of the minimal endpoint.
pub open spec fn spec_perf_minimal_sql() -> Seq<char> {
    "SELECT status, ts FROM public.perf_minimal()"@
}

/// The statement of the POST echo endpoint: `public.perf_post` with the row
/// count and the quote-escaped payload cast to jsonb.
pub open spec fn spec_perf_post_sql(records: int, payload: Seq<char>) -> Seq<char> {
    "SELECT row_num, echo::text, computed FROM public.perf_post("@ + spec_dec(records) + ", '"@
        + spec_escape(payload) + "'::jsonb)"@
}

/// The statement of the nested-JSON endpoint: `public.perf_nested` with the
/// row count and the nesting depth.
pub open spec fn spec_perf_nested_sql(records: int, depth: int) -> Seq<char> {
    "SELECT row_num, nested::text FROM public.perf_nested("@ + spec_dec(records) + ", "@
        + spec_dec(depth) + ")"@
}

/// The statement of the large-payload endpoint: `public.perf_large_payload`
/// with the requested size in kilobytes.
pub open spec fn spec_perf_large_payload_sql(size_kb: int) -> Seq<char> {
    "SELECT data FROM public.perf_large_payload("@ + spec_dec(size_kb) + ")"@
}

/// One block of five arguments of the many-parameters statement: a quoted
/// escaped string, an integer, a boolean, a numeric value embedded as
/// delivered, and another quoted escaped string.
pub open spec fn spec_param_block(a: Seq<char>, b: int, c: bool, d: Seq<char>, e: Seq<
    char,
>) -> Seq<char> {
    spec_escape(a) + "', "@ + spec_dec(b) + ", "@ + spec_bool_str(c) + ", "@ + d + "::numeric, '"@
        + spec_escape(e) + "'"@
}

/// The statement of the many-parameters endpoint: `public.perf_many_params`
/// with its twenty arguments in declared order, as four blocks of five.
pub open spec fn spec_perf_many_params_sql(p: ManyParams) -> Seq<char> {
    "SELECT param_count, checksum FROM public.perf_many_params('"@ + spec_param_block(
        p.p1@,
        p.p2 as int,
        p.p3,
        p.p4@,
        p.p5@,
    ) + ", '"@ + spec_param_block(p.p6@, p.p7 as int, p.p8, p.p9@, p.p10@) + ", '"@
        + spec_param_block(p.p11@, p.p12 as int, p.p13, p.p14@, p.p15@) + ", '"@
        + spec_param_block(p.p16@, p.p17 as int, p.p18, p.p19@, p.p20@) + ")"@
}

/// Builds the type-coverage statement for the given parameters.
pub fn perf_test_sql(p: &TestParams) -> (r: String)
    ensures
        r@ == spec_perf_test_sql(*p),
{
    let mut s = String::new();
    s.append(
        "SELECT row_num, text_val, varchar_val, char_val, smallint_val, int_val, bigint_val,\n                numeric_val::float8, real_val, double_val, bool_val, date_val, time_val,\n                timestamp_val, timestamptz_val, interval_val::text, uuid_val,\n                json_val::text, jsonb_val::text, int_array_val, text_array_val,\n                nullable_text, nullable_int\n         FROM public.perf_test(",
    );
    let records = i64_to_dec(p.records as i64);
    s.append(records.as_str());
    s.append(", '");
    let text = escape_quotes(p.text.as_str());
    s.append(text.as_str());
    s.append("', ");
    let int_val = i64_to_dec(p.int_val as i64);
    s.append(int_val.as_str());
    s.append(", ");
    let bigint = i64_to_dec(p.bigint);
    s.append(bigint.as_str());
    s.append(", ");
    s.append(p.numeric.as_str());
    s.append("::numeric, ");
    s.append(p.real.as_str());
    s.append("::real, ");
    s.append(p.double.as_str());
    s.append("::double precision, ");
    s.append(bool_to_sql(p.bool_val));
    s.append(", '");
    s.append(p.date.as_str());
    s.append("'::date, '");
    s.append(p.timestamp.as_str());
    s.append("'::timestamp, '");
    s.append(p.timestamptz.as_str());
    s.append("'::timestamptz, '");
    s.append(p.uuid.as_str());
    s.append("'::uuid, '");
    let json = escape_quotes(p.json.as_str());
    s.append(json.as_str());
    s.append("'::json, '");
    let jsonb = escape_quotes(p.jsonb.as_str());
    s.append(jsonb.as_str());
    s.append("'::jsonb, '");
    s.append(p.int_array.as_str());
    s.append("'::int[], '");
    s.append(p.text_array.as_str());
    s.append("'::text[])");
    proof {
        assert(s@ =~= spec_perf_test_sql(*p));
    }
    s
}

/// Builds the fixed minimal-endpoint statement.
pub fn perf_minimal_sql() -> (r: String)
    ensures
        r@ == spec_perf_minimal_sql(),
{
    String::from_str("SELECT status, ts FROM public.perf_minimal()")
}

/// Builds the POST echo statement from the decoded body, substituting the
/// default row count of 10 and the default payload `{}` for absent fields.
pub fn perf_post_sql(body: &PostBody) -> (r: String)
    ensures
        r@ == spec_perf_post_sql(
            spec_i32_or(body.records, 10) as int,
            spec_payload_text(body.payload),
        ),
{
    let records = i32_or(body.records, 10);
    let payload: &str = match &body.payload {
        Some(s) => s.as_str(),
        None => "{}",
    };
    let mut s = String::new();
    s.append("SELECT row_num, echo::text, computed FROM public.perf_post(");
    let dec = i64_to_dec(records as i64);
    s.append(dec.as_str());
    s.append(", '");
    let escaped = escape_quotes(payload);
    s.append(escaped.as_str());
    s.append("'::jsonb)");
    proof {
        assert(s@ =~= spec_perf_post_sql(
            spec_i32_or(body.records, 10) as int,
            spec_payload_text(body.payload),
        ));
    }
    s
}

/// Builds the nested-JSON statement from the decoded parameters,
/// substituting the default row count of 100 and the default depth of 3.
pub fn perf_nested_sql(params: &NestedParams) -> (r: String)
    ensures
        r@ == spec_perf_nested_sql(
            spec_i32_or(params.records, 100) as int,
            spec_i32_or(params.depth, 3) as int,
        ),
{
    let records = i32_or(params.records, 100);
    let depth = i32_or(params.depth, 3);
    let mut s = String::new();
    s.append("SELECT row_num, nested::text FROM public.perf_nested(");
    let dec_records = i64_to_dec(records as i64);
    s.append(dec_records.as_str());
    s.append(", ");
    let dec_depth = i64_to_dec(depth as i64);
    s.append(dec_depth.as_str());
    s.append(")");
    proof {
        assert(s@ =~= spec_perf_nested_sql(
            spec_i32_or(params.records, 100) as int,
            spec_i32_or(params.depth, 3) as int,
        ));
    }
    s
}

/// Builds the large-payload statement from the decoded parameters,
/// substituting the default size of 100 kilobytes.
pub fn perf_large_payload_sql(params: &LargePayloadParams) -> (r: String)
    ensures
        r@ == spec_perf_large_payload_sql(spec_i32_or(params.size_kb, 100) as int),
{
    let size_kb = i32_or(params.size_kb, 100);
    let mut s = String::new();
    s.append("SELECT data FROM public.perf_large_payload(");
    let dec = i64_to_dec(size_kb as i64);
    s.append(dec.as_str());
    s.append(")");
    proof {
        assert(s@ =~= spec_perf_large_payload_sql(spec_i32_or(params.size_kb, 100) as int));
    }
    s
}

fn append_param_block(s: &mut String, a: &str, b: i32, c: bool, d: &str, e: &str)
    ensures
        final(s)@ == old(s)@ + spec_param_block(a@, b as int, c, d@, e@),
{
    let escaped_a = escape_quotes(a);
    s.append(escaped_a.as_str());
    s.append("', ");
    let dec_b = i64_to_dec(b as i64);
    s.append(dec_b.as_str());
    s.append(", ");
    s.append(bool_to_sql(c));
    s.append(", ");
    s.append(d);
    s.append("::numeric, '");
    let escaped_e = escape_quotes(e);
    s.append(escaped_e.as_str());
    s.append("'");
    proof {
        assert(s@ =~= old(s)@ + spec_param_block(a@, b as int, c, d@, e@));
    }
}

/// Builds the many-parameters statement: all twenty arguments embedded in
/// declared order, the string arguments quote-escaped and single-quoted.
pub fn perf_many_params_sql(p: &ManyParams) -> (r: String)
    ensures
        r@ == spec_perf_many_params_sql(*p),
{
    let mut s = String::new();
    s.append("SELECT param_count, checksum FROM public.perf_many_params('");
    append_param_block(&mut s, p.p1.as_str(), p.p2, p.p3, p.p4.as_str(), p.p5.as_str());
    s.append(", '");
    append_param_block(&mut s, p.p6.as_str(), p.p7, p.p8, p.p9.as_str(), p.p10.as_str());
    s.append(", '");
    append_param_block(&mut s, p.p11.as_str(), p.p12, p.p13, p.p14.as_str(), p.p15.as_str());
    s.append(", '");
    append_param_block(&mut s, p.p16.as_str(), p.p17, p.p18, p.p19.as_str(), p.p20.as_str());
    s.append(")");
    proof {
        assert(s@ =~= spec_perf_many_params_sql(*p));
    }
    s
}

} // verus!
