//! Page decoding, numeric coercion and metric mapping.

use pomfritz::docsis::{decode_channel_data, decode_overview, decode_statistics, FetchError};
use pomfritz::json::{as_num, coerce_u64, lookup, num_u64, parse_json, strict_u64, Json, Number};
use pomfritz::mapper::{fetch_and_map, fetch_request_form, map_channel_data, map_connection_summary, Observation};
use pomfritz::session::FritzboxSession;

fn num(neg: bool, mant: u64, exp: i32) -> Number {
    Number { neg, mant, exp }
}

fn to_f64(n: Number) -> f64 {
    let m = n.mant as f64 * if n.neg { -1.0 } else { 1.0 };
    m * 10f64.powi(n.exp)
}

fn overview_body(ds: u8, ds2: u8, us: u8, us2: u8) -> String {
    format!(
        "{{\"pid\":\"docOv\",\"data\":{{\"connectionData\":{{\"dsCount\":{},\"dsCountSecond\":{},\"usCount\":{},\"usCountSecond\":{},\"dsRate\":\"1000\",\"usRate\":\"50\"}}}}}}",
        ds, ds2, us, us2
    )
}

fn channel_body(power31: &str) -> String {
    let ds31 = format!(
        "[{{\"powerLevel\":{},\"nonCorrErrors\":7,\"modulation\":\"4096QAM\",\"channelID\":1,\"frequency\":\"114 - 683\",\"mer\":409,\"fft\":\"4K\"}}]",
        power31
    );
    let ds30 = "[{\"powerLevel\":6.4,\"nonCorrErrors\":3,\"corrErrors\":11,\"modulation\":\"256QAM\",\"channelID\":2,\"frequency\":\"602\",\"latency\":0.32,\"mse\":-36.2}]";
    let us31 = "[{\"powerLevel\":47.0,\"modulation\":\"OFDMA\",\"channelID\":5,\"frequency\":\"29-65\",\"activesub\":\"1960\",\"fft\":\"2K\"}]";
    let us30 = "[{\"powerLevel\":45.5,\"modulation\":\"64QAM\",\"channelID\":6,\"frequency\":\"37\",\"multiplex\":\"ATDMA\"}]";
    format!(
        "{{\"data\":{{\"channelDs\":{{\"docsis31\":{},\"docsis30\":{}}},\"channelUs\":{{\"docsis31\":{},\"docsis30\":{}}},\"readyState\":\"ready\"}}}}",
        ds31, ds30, us31, us30
    )
}

fn labels(obs: &Observation) -> Vec<(&str, &str)> {
    obs.labels.iter().map(|(k, v)| (k.as_str(), v.as_str())).collect()
}

#[test]
fn overview_counts_summed() {
    let d = decode_overview(200, &overview_body(4, 1, 3, 0)).expect("overview decodes");
    assert_eq!(d.ds_count, 4);
    assert_eq!(d.ds_count_second, 1);
    assert_eq!(d.ds_rate, "1000");
    let obs = map_connection_summary(&d);
    assert_eq!(obs.len(), 2);
    assert_eq!(obs[0].metric, "connection_downstream_count");
    assert_eq!(obs[0].value, num(false, 5, 0));
    assert!(obs[0].labels.is_empty());
    assert_eq!(obs[1].metric, "connection_upstream_count");
    assert_eq!(obs[1].value, num(false, 3, 0));
    assert!(obs[1].labels.is_empty());
}

#[test]
fn overview_counts_zero_zero() {
    let d = decode_overview(200, &overview_body(0, 0, 0, 0)).expect("overview decodes");
    let obs = map_connection_summary(&d);
    assert_eq!(obs[0].value, num(false, 0, 0));
    assert_eq!(obs[1].value, num(false, 0, 0));
}

#[test]
fn overview_errors_by_kind() {
    assert_eq!(decode_overview(500, &overview_body(1, 1, 1, 1)).map(|_| ()), Err(FetchError::Transport));
    assert_eq!(decode_overview(200, "{not json").map(|_| ()), Err(FetchError::Decode));
    // A missing required field is a decode error.
    assert_eq!(
        decode_overview(200, "{\"data\":{\"connectionData\":{\"dsCount\":4}}}").map(|_| ()),
        Err(FetchError::Decode)
    );
    // A count written as a string is not a native integer.
    assert_eq!(
        decode_overview(
            200,
            "{\"data\":{\"connectionData\":{\"dsCount\":\"4\",\"dsCountSecond\":1,\"usCount\":3,\"usCountSecond\":0,\"dsRate\":\"a\",\"usRate\":\"b\"}}}"
        )
        .map(|_| ()),
        Err(FetchError::Decode)
    );
}

#[test]
fn coercion_string_and_number_agree() {
    // "12.5" in quotes and 12.5 as a number decode to the same value.
    let from_string = decode_channel_data(200, &channel_body("\"12.5\"")).expect("decodes");
    let from_number = decode_channel_data(200, &channel_body("12.5")).expect("decodes");
    let a = from_string.downstream31[0].power_level;
    let b = from_number.downstream31[0].power_level;
    assert_eq!(a, b);
    assert_eq!(a, num(false, 125, -1));
    assert_eq!(to_f64(a), 12.5);
    assert_eq!(to_f64(b), 12.5);
}

#[test]
fn channel_records_decoded() {
    let d = decode_channel_data(200, &channel_body("12.5")).expect("decodes");
    assert_eq!(d.downstream31.len(), 1);
    assert_eq!(d.downstream30.len(), 1);
    assert_eq!(d.upstream31.len(), 1);
    assert_eq!(d.upstream30.len(), 1);
    assert_eq!(d.ready_state, "ready");
    let r31 = &d.downstream31[0];
    assert_eq!(r31.channel_id, 1);
    assert_eq!(r31.non_corr_errors, 7);
    assert_eq!(r31.mer, 409);
    assert_eq!(r31.modulation, "4096QAM");
    assert_eq!(r31.frequency, "114 - 683");
    assert_eq!(r31.fft, "4K");
    let r30 = &d.downstream30[0];
    assert_eq!(r30.corr_errors, 11);
    assert_eq!(r30.latency, num(false, 32, -2));
    assert_eq!(r30.mse, num(true, 362, -1));
    assert_eq!(to_f64(r30.mse), -36.2);
    let u31 = &d.upstream31[0];
    assert_eq!(u31.activesub, 1960);
    let u30 = &d.upstream30[0];
    assert_eq!(u30.multiplex, "ATDMA");
}

#[test]
fn generation_field_sets_mapped() {
    // One generation-A (DOCSIS 3.1) and one generation-B (DOCSIS 3.0)
    // downstream channel: each emits exactly the fields it defines.
    let d = decode_channel_data(200, &channel_body("12.5")).expect("decodes");
    let obs = map_channel_data(&d);
    assert_eq!(obs.len(), 3 + 4 + 2 + 1);

    // DOCSIS 3.1 downstream: non-correctable errors, power level, MER.
    assert_eq!(obs[0].metric, "docsis_channel_non_correctable_errors");
    assert_eq!(obs[0].value, num(false, 7, 0));
    assert_eq!(labels(&obs[0]), vec![("protocol", "docsis31"), ("channel", "1")]);
    assert_eq!(obs[1].metric, "docsis_channel_power_level");
    assert_eq!(obs[1].value, num(false, 125, -1));
    assert_eq!(
        labels(&obs[1]),
        vec![("protocol", "docsis31"), ("channel", "1"), ("modulation", "4096QAM")]
    );
    assert_eq!(obs[2].metric, "docsis_channel_mer");
    assert_eq!(obs[2].value, num(false, 409, 0));
    assert_eq!(labels(&obs[2]), vec![("protocol", "docsis31"), ("channel", "1")]);

    // No correctable-errors or MSE gauge for the 3.1 record.
    for o in &obs[0..3] {
        assert_ne!(o.metric, "docsis_channel_correctable_errors");
        assert_ne!(o.metric, "docsis_channel_mse");
    }

    // DOCSIS 3.0 downstream: both error counters, power level, MSE; no MER.
    assert_eq!(obs[3].metric, "docsis_channel_non_correctable_errors");
    assert_eq!(obs[3].value, num(false, 3, 0));
    assert_eq!(labels(&obs[3]), vec![("protocol", "docsis30"), ("channel", "2")]);
    assert_eq!(obs[4].metric, "docsis_channel_correctable_errors");
    assert_eq!(obs[4].value, num(false, 11, 0));
    assert_eq!(obs[5].metric, "docsis_channel_power_level");
    assert_eq!(obs[5].value, num(false, 64, -1));
    assert_eq!(
        labels(&obs[5]),
        vec![("protocol", "docsis30"), ("channel", "2"), ("modulation", "256QAM")]
    );
    assert_eq!(obs[6].metric, "docsis_channel_mse");
    assert_eq!(obs[6].value, num(true, 362, -1));
    for o in &obs[3..7] {
        assert_ne!(o.metric, "docsis_channel_mer");
    }

    // Upstream: power level (with modulation) per generation, and the
    // active subcarrier count for DOCSIS 3.1.
    assert_eq!(obs[7].metric, "docsis_channel_power_level");
    assert_eq!(
        labels(&obs[7]),
        vec![("protocol", "docsis31"), ("channel", "5"), ("modulation", "OFDMA")]
    );
    assert_eq!(obs[8].metric, "docsis_channel_active_subcarriers");
    assert_eq!(obs[8].value, num(false, 1960, 0));
    assert_eq!(obs[9].metric, "docsis_channel_power_level");
    assert_eq!(
        labels(&obs[9]),
        vec![("protocol", "docsis30"), ("channel", "6"), ("modulation", "64QAM")]
    );
}

#[test]
fn mer_out_of_range_maps_to_zero() {
    // 5000000000 does not fit u32: the gauge reports zero, the cycle goes on.
    let body = channel_body("12.5").replace("\"mer\":409", "\"mer\":5000000000");
    let d = decode_channel_data(200, &body).expect("decodes");
    let obs = map_channel_data(&d);
    assert_eq!(obs[2].metric, "docsis_channel_mer");
    assert_eq!(obs[2].value, num(false, 0, 0));
}

#[test]
fn non_integer_mer_is_decode_error() {
    let body = channel_body("12.5").replace("\"mer\":409", "\"mer\":\"12.5\"");
    assert_eq!(decode_channel_data(200, &body).map(|_| ()), Err(FetchError::Decode));
}

#[test]
fn channel_errors_by_kind() {
    assert_eq!(decode_channel_data(404, "x").map(|_| ()), Err(FetchError::Transport));
    assert_eq!(decode_channel_data(200, "[1,2]").map(|_| ()), Err(FetchError::Decode));
}

#[test]
fn statistics_decoded_but_unmapped() {
    let body = "{\"data\":{\"docsisStats\":{\"mseValues\":[-36.5,-37.0]}}}";
    let st = decode_statistics(200, body).expect("decodes");
    assert_eq!(st.mse_values, vec![num(true, 365, -1), num(true, 370, -1)]);
    let obs = fetch_and_map("docStat", 200, body).expect("maps");
    assert!(obs.is_empty());
}

#[test]
fn fetch_and_map_dispatches_pages() {
    let obs = fetch_and_map("docOv", 200, &overview_body(2, 2, 1, 1)).expect("maps");
    assert_eq!(obs.len(), 2);
    assert_eq!(obs[0].value, num(false, 4, 0));
    let obs = fetch_and_map("docInfo", 200, &channel_body("12.5")).expect("maps");
    assert_eq!(obs.len(), 10);
    assert_eq!(fetch_and_map("docOv", 500, "x").map(|_| ()), Err(FetchError::Transport));
    assert_eq!(fetch_and_map("unknown", 200, "{}").map(|_| ()), Err(FetchError::Decode));
}

#[test]
fn fetch_request_form_fields() {
    let s = FritzboxSession { sid: "deadbeef00112233".to_string(), valid_until: 0 };
    let form = fetch_request_form(&s, "docInfo");
    let got: Vec<(&str, &str)> = form.iter().map(|(k, v)| (k.as_str(), v.as_str())).collect();
    assert_eq!(
        got,
        vec![
            ("xhr", "1"),
            ("sid", "deadbeef00112233"),
            ("page", "docInfo"),
            ("xhrId", "all"),
        ]
    );
}

#[test]
fn json_number_forms() {
    let doc = parse_json("[0, -12.5, 1e2, 12.50, 3E-2]").expect("parses");
    let items = match &doc {
        Json::Arr(items) => items,
        _ => panic!("expected an array"),
    };
    let expect = [
        num(false, 0, 0),
        num(true, 125, -1),
        num(false, 1, 2),
        num(false, 1250, -2),
        num(false, 3, -2),
    ];
    assert_eq!(items.len(), expect.len());
    for (item, want) in items.iter().zip(expect.iter()) {
        match item {
            Json::Num(n) => assert_eq!(n, want),
            _ => panic!("expected a number"),
        }
    }
}

#[test]
fn json_strings_and_escapes() {
    let doc = parse_json("  {\"a\\\"b\": \"x\\n\\t\\\\y\"}  ").expect("parses");
    match &doc {
        Json::Obj(fields) => {
            assert_eq!(fields.len(), 1);
            let key: String = fields[0].0.iter().collect();
            assert_eq!(key, "a\"b");
            match &fields[0].1 {
                Json::Str(v) => {
                    let s: String = v.iter().collect();
                    assert_eq!(s, "x\n\t\\y");
                }
                _ => panic!("expected a string"),
            }
        }
        _ => panic!("expected an object"),
    }
}

#[test]
fn json_rejects_malformed_documents() {
    assert!(parse_json("{").is_none());
    assert!(parse_json("{} x").is_none());
    assert!(parse_json("[1,]").is_none());
    assert!(parse_json("01x").is_none());
    assert!(parse_json("\"\\u0041\"").is_none());
    // More than 37 digits in one run is refused.
    assert!(parse_json("99999999999999999999999999999999999999").is_none());
    assert!(parse_json("tru").is_none());
    assert!(parse_json("").is_none());
}

#[test]
fn coercion_helpers() {
    let doc = parse_json(
        "{\"a\":\"-3.5\",\"b\":12,\"c\":\"407\",\"d\":12.5,\"e\":\"0012\"}",
    )
    .expect("parses");
    let fields = match &doc {
        Json::Obj(fields) => fields,
        _ => panic!("expected an object"),
    };
    let a = lookup(fields, "a").unwrap();
    assert_eq!(as_num(a), Some(num(true, 35, -1)));
    assert_eq!(coerce_u64(a), None);
    let b = lookup(fields, "b").unwrap();
    assert_eq!(strict_u64(b), Some(12));
    assert_eq!(coerce_u64(b), Some(12));
    let c = lookup(fields, "c").unwrap();
    assert_eq!(strict_u64(c), None);
    assert_eq!(coerce_u64(c), Some(407));
    let d = lookup(fields, "d").unwrap();
    assert_eq!(strict_u64(d), None);
    assert_eq!(coerce_u64(d), None);
    let e = lookup(fields, "e").unwrap();
    assert_eq!(coerce_u64(e), Some(12));
    assert!(lookup(fields, "zz").is_none());

    // Scaled forms: the value must be an integer in range.
    assert_eq!(num_u64(&num(false, 12, 2)), Some(1200));
    assert_eq!(num_u64(&num(false, 1250, -2)), None);
    assert_eq!(num_u64(&num(false, 1200, -2)), Some(12));
    assert_eq!(num_u64(&num(true, 5, 0)), None);
    assert_eq!(num_u64(&num(true, 0, 5)), Some(0));
    assert_eq!(num_u64(&num(false, 2, 30)), None);
}

#[test]
fn json_literals_and_nesting() {
    let doc = parse_json("{\"a\":[true,false,null],\"b\":{\"c\":[]}}").expect("parses");
    match &doc {
        Json::Obj(fields) => {
            match &fields[0].1 {
                Json::Arr(items) => {
                    assert!(matches!(items[0], Json::Bool(true)));
                    assert!(matches!(items[1], Json::Bool(false)));
                    assert!(matches!(items[2], Json::Null));
                }
                _ => panic!("expected an array"),
            }
        }
        _ => panic!("expected an object"),
    }
}
