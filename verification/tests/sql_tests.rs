use perfbench::sql::LargePayloadParams;
use perfbench::sql::ManyParams;
use perfbench::sql::NestedParams;
use perfbench::sql::PostBody;
use perfbench::sql::TestParams;
use perfbench::sql::i32_or;
use perfbench::sql::perf_large_payload_sql;
use perfbench::sql::perf_many_params_sql;
use perfbench::sql::perf_minimal_sql;
use perfbench::sql::perf_nested_sql;
use perfbench::sql::perf_post_sql;
use perfbench::sql::perf_test_sql;
use perfbench::text::bool_to_sql;
use perfbench::text::escape_quotes;

#[test]
fn escape_plain_text_unchanged() {
    assert_eq!(escape_quotes("hello world"), "hello world");
}

#[test]
fn escape_doubles_single_quotes() {
    assert_eq!(escape_quotes("it's a 'test'"), "it''s a ''test''");
}

#[test]
fn escape_only_quotes() {
    assert_eq!(escape_quotes("''"), "''''");
}

#[test]
fn escape_empty() {
    assert_eq!(escape_quotes(""), "");
}

#[test]
fn escape_keeps_non_ascii() {
    assert_eq!(escape_quotes("héllo'w"), "héllo''w");
}

#[test]
fn bool_renders_as_sql_keyword() {
    assert_eq!(bool_to_sql(true), "true");
    assert_eq!(bool_to_sql(false), "false");
}

#[test]
fn i32_or_substitutes_default() {
    assert_eq!(i32_or(None, 10), 10);
    assert_eq!(i32_or(Some(7), 10), 7);
}

#[test]
fn minimal_sql_is_fixed() {
    assert_eq!(perf_minimal_sql(), "SELECT status, ts FROM public.perf_minimal()");
}

#[test]
fn post_sql_with_defaults() {
    let body = PostBody { records: None, payload: None };
    assert_eq!(
        perf_post_sql(&body),
        "SELECT row_num, echo::text, computed FROM public.perf_post(10, '{}'::jsonb)"
    );
}

#[test]
fn post_sql_with_explicit_values() {
    let body = PostBody {
        records: Some(5),
        payload: Some("{\"name\":\"O'Brien\"}".to_string()),
    };
    assert_eq!(
        perf_post_sql(&body),
        "SELECT row_num, echo::text, computed FROM public.perf_post(5, '{\"name\":\"O''Brien\"}'::jsonb)"
    );
}

#[test]
fn post_sql_with_zero_records() {
    let body = PostBody { records: Some(0), payload: None };
    assert_eq!(
        perf_post_sql(&body),
        "SELECT row_num, echo::text, computed FROM public.perf_post(0, '{}'::jsonb)"
    );
}

#[test]
fn post_sql_with_negative_records_passes_through() {
    let body = PostBody { records: Some(-3), payload: None };
    assert_eq!(
        perf_post_sql(&body),
        "SELECT row_num, echo::text, computed FROM public.perf_post(-3, '{}'::jsonb)"
    );
}

#[test]
fn nested_sql_with_defaults() {
    let params = NestedParams { records: None, depth: None };
    assert_eq!(
        perf_nested_sql(&params),
        "SELECT row_num, nested::text FROM public.perf_nested(100, 3)"
    );
}

#[test]
fn nested_sql_with_explicit_values() {
    let params = NestedParams { records: Some(7), depth: Some(2) };
    assert_eq!(
        perf_nested_sql(&params),
        "SELECT row_num, nested::text FROM public.perf_nested(7, 2)"
    );
}

#[test]
fn large_payload_sql_with_default() {
    let params = LargePayloadParams { size_kb: None };
    assert_eq!(
        perf_large_payload_sql(&params),
        "SELECT data FROM public.perf_large_payload(100)"
    );
}

#[test]
fn large_payload_sql_with_explicit_size() {
    let params = LargePayloadParams { size_kb: Some(5) };
    assert_eq!(
        perf_large_payload_sql(&params),
        "SELECT data FROM public.perf_large_payload(5)"
    );
}

fn sample_many_params() -> ManyParams {
    ManyParams {
        p1: "a'b".to_string(),
        p2: 1,
        p3: true,
        p4: "1.5".to_string(),
        p5: "five".to_string(),
        p6: "six".to_string(),
        p7: -7,
        p8: false,
        p9: "2.25".to_string(),
        p10: "ten".to_string(),
        p11: "eleven".to_string(),
        p12: 0,
        p13: true,
        p14: "3".to_string(),
        p15: "fifteen".to_string(),
        p16: "sixteen".to_string(),
        p17: 17,
        p18: false,
        p19: "4.75".to_string(),
        p20: "twenty's".to_string(),
    }
}

#[test]
fn many_params_sql_embeds_twenty_arguments_in_order() {
    let sql = perf_many_params_sql(&sample_many_params());
    assert_eq!(
        sql,
        "SELECT param_count, checksum FROM public.perf_many_params(\
         'a''b', 1, true, 1.5::numeric, 'five', \
         'six', -7, false, 2.25::numeric, 'ten', \
         'eleven', 0, true, 3::numeric, 'fifteen', \
         'sixteen', 17, false, 4.75::numeric, 'twenty''s')"
    );
}

#[test]
fn many_params_sql_is_deterministic() {
    let first = perf_many_params_sql(&sample_many_params());
    let second = perf_many_params_sql(&sample_many_params());
    assert_eq!(first, second);
}

#[test]
fn test_sql_embeds_sixteen_arguments_in_order() {
    let p = TestParams {
        records: 10,
        text: "o'clock".to_string(),
        int_val: -2,
        bigint: 9000000000,
        numeric: "1.25".to_string(),
        real: "2.5".to_string(),
        double: "3.75".to_string(),
        bool_val: true,
        date: "2024-01-02".to_string(),
        timestamp: "2024-01-02 03:04:05".to_string(),
        timestamptz: "2024-01-02 03:04:05+00".to_string(),
        uuid: "123e4567-e89b-12d3-a456-426614174000".to_string(),
        json: "{\"k\":\"v'\"}".to_string(),
        jsonb: "[1,2]".to_string(),
        int_array: "{1,2,3}".to_string(),
        text_array: "{a,b}".to_string(),
    };
    let sql = perf_test_sql(&p);
    let expected = "SELECT row_num, text_val, varchar_val, char_val, smallint_val, int_val, bigint_val,\n                numeric_val::float8, real_val, double_val, bool_val, date_val, time_val,\n                timestamp_val, timestamptz_val, interval_val::text, uuid_val,\n                json_val::text, jsonb_val::text, int_array_val, text_array_val,\n                nullable_text, nullable_int\n         FROM public.perf_test(10, 'o''clock', -2, 9000000000, 1.25::numeric, \
         2.5::real, 3.75::double precision, true, '2024-01-02'::date, \
         '2024-01-02 03:04:05'::timestamp, '2024-01-02 03:04:05+00'::timestamptz, \
         '123e4567-e89b-12d3-a456-426614174000'::uuid, '{\"k\":\"v''\"}'::json, \
         '[1,2]'::jsonb, '{1,2,3}'::int[], '{a,b}'::text[])";
    assert_eq!(sql, expected);
}
