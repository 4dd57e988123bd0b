//! Typed channel records and the decoding of the device's telemetry pages.
//!
//! Each page arrives as nested JSON. The connection overview carries two
//! generation sub-counts per direction; the channel-info page carries one
//! record list per protocol generation and direction, each generation with
//! its own field set; the statistics page carries a list of mean-square
//! error values. Fields that the device types inconsistently (number or
//! numeric string) are read permissively; plain integer fields strictly.

use vstd::prelude::*;
use crate::json::{
    Json, JsonV, Number, dv_obj, sp_lookup, sp_as_num, sp_coerce_u64, sp_strict_u64, sp_json,
    lookup, as_num, coerce_u64, strict_u64, parse_json,
};
use crate::text::string_from_chars;

verus! {

/// Telemetry fetch errors, by kind.
#[derive(Clone, Copy, PartialEq, Eq, Structural, Debug)]
pub enum FetchError {
    /// The endpoint could not be reached or answered with a non-200 status.
    Transport,
    /// The body was not JSON of the page's shape.
    Decode,
}

// ---- field getters over an object's member list ----

/// A numeric field, read permissively (number or numeric string).
pub open spec fn sp_get_num(fs: Seq<(Seq<char>, JsonV)>, key: Seq<char>) -> Option<Number> {
    match sp_lookup(fs, key) {
        Some(x) => sp_as_num(x),
        None => None,
    }
}

/// A strict numeric field: a native JSON number.
pub open spec fn sp_get_num_strict(fs: Seq<(Seq<char>, JsonV)>, key: Seq<char>) -> Option<
    Number,
> {
    match sp_lookup(fs, key) {
        Some(JsonV::Num(m)) => Some(m),
        _ => None,
    }
}

/// An integer field, read permissively.
pub open spec fn sp_get_u64c(fs: Seq<(Seq<char>, JsonV)>, key: Seq<char>) -> Option<u64> {
    match sp_lookup(fs, key) {
        Some(x) => sp_coerce_u64(x),
        None => None,
    }
}

/// A strict integer field: a native JSON integer.
pub open spec fn sp_get_u64s(fs: Seq<(Seq<char>, JsonV)>, key: Seq<char>) -> Option<u64> {
    match sp_lookup(fs, key) {
        Some(x) => sp_strict_u64(x),
        None => None,
    }
}

/// A strict integer field that must fit `u32`.
pub open spec fn sp_get_u32s(fs: Seq<(Seq<char>, JsonV)>, key: Seq<char>) -> Option<u32> {
    match sp_get_u64s(fs, key) {
        Some(x) => if x <= u32::MAX {
            Some(x as u32)
        } else {
            None
        },
        None => None,
    }
}

/// A strict integer field that must fit `u8`.
pub open spec fn sp_get_u8s(fs: Seq<(Seq<char>, JsonV)>, key: Seq<char>) -> Option<u8> {
    match sp_get_u64s(fs, key) {
        Some(x) => if x <= u8::MAX {
            Some(x as u8)
        } else {
            None
        },
        None => None,
    }
}

/// A string field.
pub open spec fn sp_get_str(fs: Seq<(Seq<char>, JsonV)>, key: Seq<char>) -> Option<Seq<char>> {
    match sp_lookup(fs, key) {
        Some(JsonV::Str(t)) => Some(t),
        _ => None,
    }
}

/// A nested-object field.
pub open spec fn sp_get_obj(fs: Seq<(Seq<char>, JsonV)>, key: Seq<char>) -> Option<
    Seq<(Seq<char>, JsonV)>,
> {
    match sp_lookup(fs, key) {
        Some(JsonV::Obj(o)) => Some(o),
        _ => None,
    }
}

/// An array field.
pub open spec fn sp_get_arr(fs: Seq<(Seq<char>, JsonV)>, key: Seq<char>) -> Option<Seq<JsonV>> {
    match sp_lookup(fs, key) {
        Some(JsonV::Arr(a)) => Some(a),
        _ => None,
    }
}

fn get_num(fields: &Vec<(Vec<char>, Json)>, key: &str) -> (r: Option<Number>)
    ensures
        r == sp_get_num(dv_obj(fields@), key@),
{
    match lookup(fields, key) {
        Some(v) => as_num(v),
        None => None,
    }
}

fn get_num_strict(fields: &Vec<(Vec<char>, Json)>, key: &str) -> (r: Option<Number>)
    ensures
        r == sp_get_num_strict(dv_obj(fields@), key@),
{
    match lookup(fields, key) {
        Some(v) => match v {
            Json::Num(m) => Some(*m),
            _ => None,
        },
        None => None,
    }
}

fn get_u64c(fields: &Vec<(Vec<char>, Json)>, key: &str) -> (r: Option<u64>)
    ensures
        r == sp_get_u64c(dv_obj(fields@), key@),
{
    match lookup(fields, key) {
        Some(v) => coerce_u64(v),
        None => None,
    }
}

fn get_u64s(fields: &Vec<(Vec<char>, Json)>, key: &str) -> (r: Option<u64>)
    ensures
        r == sp_get_u64s(dv_obj(fields@), key@),
{
    match lookup(fields, key) {
        Some(v) => strict_u64(v),
        None => None,
    }
}

fn get_u32s(fields: &Vec<(Vec<char>, Json)>, key: &str) -> (r: Option<u32>)
    ensures
        r == sp_get_u32s(dv_obj(fields@), key@),
{
    match get_u64s(fields, key) {
        Some(x) => if x <= 0xFFFF_FFFFu64 {
            Some(x as u32)
        } else {
            None
        },
        None => None,
    }
}

fn get_u8s(fields: &Vec<(Vec<char>, Json)>, key: &str) -> (r: Option<u8>)
    ensures
        r == sp_get_u8s(dv_obj(fields@), key@),
{
    match get_u64s(fields, key) {
        Some(x) => if x <= 255u64 {
            Some(x as u8)
        } else {
            None
        },
        None => None,
    }
}

fn get_str(fields: &Vec<(Vec<char>, Json)>, key: &str) -> (r: Option<String>)
    ensures
        match r {
            Some(s) => sp_get_str(dv_obj(fields@), key@) == Some(s@),
            None => sp_get_str(dv_obj(fields@), key@) is None,
        },
{
    match lookup(fields, key) {
        Some(v) => match v {
            Json::Str(t) => Some(string_from_chars(t)),
            _ => None,
        },
        None => None,
    }
}

fn get_obj<'a>(fields: &'a Vec<(Vec<char>, Json)>, key: &str) -> (r: Option<
    &'a Vec<(Vec<char>, Json)>,
>)
    ensures
        match r {
            Some(o) => sp_get_obj(dv_obj(fields@), key@) == Some(dv_obj(o@)),
            None => sp_get_obj(dv_obj(fields@), key@) is None,
        },
{
    match lookup(fields, key) {
        Some(v) => match v {
            Json::Obj(o) => Some(o),
            _ => None,
        },
        None => None,
    }
}

fn get_arr<'a>(fields: &'a Vec<(Vec<char>, Json)>, key: &str) -> (r: Option<&'a Vec<Json>>)
    ensures
        match r {
            Some(a) => sp_get_arr(dv_obj(fields@), key@) == Some(crate::json::dv_arr(a@)),
            None => sp_get_arr(dv_obj(fields@), key@) is None,
        },
{
    match lookup(fields, key) {
        Some(v) => match v {
            Json::Arr(a) => Some(a),
            _ => None,
        },
        None => None,
    }
}

// ---- channel records, one shape per protocol generation and direction ----

/// A DOCSIS 3.1 downstream channel record.
pub struct Docsis31DownstreamChannel {
    pub power_level: Number,
    pub non_corr_errors: u32,
    pub modulation: String,
    pub channel_id: u64,
    pub frequency: String,
    pub mer: u64,
    pub fft: String,
}

/// Mathematical view of a DOCSIS 3.1 downstream record.
pub ghost struct Ds31DownV {
    pub power_level: Number,
    pub non_corr_errors: u32,
    pub modulation: Seq<char>,
    pub channel_id: u64,
    pub frequency: Seq<char>,
    pub mer: u64,
    pub fft: Seq<char>,
}

impl Docsis31DownstreamChannel {
    pub open spec fn dvr(&self) -> Ds31DownV {
        Ds31DownV {
            power_level: self.power_level,
            non_corr_errors: self.non_corr_errors,
            modulation: self.modulation@,
            channel_id: self.channel_id,
            frequency: self.frequency@,
            mer: self.mer,
            fft: self.fft@,
        }
    }
}

/// A DOCSIS 3.0 downstream channel record.
pub struct Docsis30DownstreamChannel {
    pub power_level: Number,
    pub non_corr_errors: u32,
    pub corr_errors: u32,
    pub modulation: String,
    pub channel_id: u64,
    pub frequency: String,
    pub latency: Number,
    pub mse: Number,
}

/// Mathematical view of a DOCSIS 3.0 downstream record.
pub ghost struct Ds30DownV {
    pub power_level: Number,
    pub non_corr_errors: u32,
    pub corr_errors: u32,
    pub modulation: Seq<char>,
    pub channel_id: u64,
    pub frequency: Seq<char>,
    pub latency: Number,
    pub mse: Number,
}

impl Docsis30DownstreamChannel {
    pub open spec fn dvr(&self) -> Ds30DownV {
        Ds30DownV {
            power_level: self.power_level,
            non_corr_errors: self.non_corr_errors,
            corr_errors: self.corr_errors,
            modulation: self.modulation@,
            channel_id: self.channel_id,
            frequency: self.frequency@,
            latency: self.latency,
            mse: self.mse,
        }
    }
}

/// A DOCSIS 3.1 upstream channel record.
pub struct Docsis31UpstreamChannel {
    pub power_level: Number,
    pub modulation: String,
    pub channel_id: u64,
    pub frequency: String,
    pub activesub: u64,
    pub fft: String,
}

/// Mathematical view of a DOCSIS 3.1 upstream record.
pub ghost struct Ds31UpV {
    pub power_level: Number,
    pub modulation: Seq<char>,
    pub channel_id: u64,
    pub frequency: Seq<char>,
    pub activesub: u64,
    pub fft: Seq<char>,
}

impl Docsis31UpstreamChannel {
    pub open spec fn dvr(&self) -> Ds31UpV {
        Ds31UpV {
            power_level: self.power_level,
            modulation: self.modulation@,
            channel_id: self.channel_id,
            frequency: self.frequency@,
            activesub: self.activesub,
            fft: self.fft@,
        }
    }
}

/// A DOCSIS 3.0 upstream channel record.
pub struct Docsis30UpstreamChannel {
    pub power_level: Number,
    pub modulation: String,
    pub channel_id: u64,
    pub frequency: String,
    pub multiplex: String,
}

/// Mathematical view of a DOCSIS 3.0 upstream record.
pub ghost struct Ds30UpV {
    pub power_level: Number,
    pub modulation: Seq<char>,
    pub channel_id: u64,
    pub frequency: Seq<char>,
    pub multiplex: Seq<char>,
}

impl Docsis30UpstreamChannel {
    pub open spec fn dvr(&self) -> Ds30UpV {
        Ds30UpV {
            power_level: self.power_level,
            modulation: self.modulation@,
            channel_id: self.channel_id,
            frequency: self.frequency@,
            multiplex: self.multiplex@,
        }
    }
}

// ---- record decoding ----

/// The DOCSIS 3.1 downstream record held by a channel-info object.
pub open spec fn sp_ds31d_of(v: JsonV) -> Option<Ds31DownV> {
    match v {
        JsonV::Obj(fs) => match (
            sp_get_num(fs, "powerLevel"@),
            sp_get_u32s(fs, "nonCorrErrors"@),
            sp_get_str(fs, "modulation"@),
            sp_get_u64s(fs, "channelID"@),
            sp_get_str(fs, "frequency"@),
            sp_get_u64c(fs, "mer"@),
            sp_get_str(fs, "fft"@),
        ) {
            (Some(pl), Some(nce), Some(md), Some(cid), Some(fq), Some(mer), Some(fft)) => Some(
                Ds31DownV {
                    power_level: pl,
                    non_corr_errors: nce,
                    modulation: md,
                    channel_id: cid,
                    frequency: fq,
                    mer,
                    fft,
                },
            ),
            _ => None,
        },
        _ => None,
    }
}

fn ds31d_of(v: &Json) -> (r: Option<Docsis31DownstreamChannel>)
    ensures
        match r {
            Some(rec) => sp_ds31d_of(v.dv()) == Some(rec.dvr()),
            None => sp_ds31d_of(v.dv()) is None,
        },
{
    match v {
        Json::Obj(fs) => {
            match (
                get_num(fs, "powerLevel"),
                get_u32s(fs, "nonCorrErrors"),
                get_str(fs, "modulation"),
                get_u64s(fs, "channelID"),
                get_str(fs, "frequency"),
                get_u64c(fs, "mer"),
                get_str(fs, "fft"),
            ) {
                (Some(pl), Some(nce), Some(md), Some(cid), Some(fq), Some(mer), Some(fft)) => Some(
                    Docsis31DownstreamChannel {
                        power_level: pl,
                        non_corr_errors: nce,
                        modulation: md,
                        channel_id: cid,
                        frequency: fq,
                        mer,
                        fft,
                    },
                ),
                _ => None,
            }
        },
        _ => None,
    }
}

/// The DOCSIS 3.0 downstream record held by a channel-info object.
pub open spec fn sp_ds30d_of(v: JsonV) -> Option<Ds30DownV> {
    match v {
        JsonV::Obj(fs) => match (
            sp_get_num(fs, "powerLevel"@),
            sp_get_u32s(fs, "nonCorrErrors"@),
            sp_get_u32s(fs, "corrErrors"@),
            sp_get_str(fs, "modulation"@),
            sp_get_u64s(fs, "channelID"@),
            sp_get_str(fs, "frequency"@),
            sp_get_num_strict(fs, "latency"@),
            sp_get_num(fs, "mse"@),
        ) {
            (
                Some(pl),
                Some(nce),
                Some(ce),
                Some(md),
                Some(cid),
                Some(fq),
                Some(lat),
                Some(mse),
            ) => Some(
                Ds30DownV {
                    power_level: pl,
                    non_corr_errors: nce,
                    corr_errors: ce,
                    modulation: md,
                    channel_id: cid,
                    frequency: fq,
                    latency: lat,
                    mse,
                },
            ),
            _ => None,
        },
        _ => None,
    }
}

fn ds30d_of(v: &Json) -> (r: Option<Docsis30DownstreamChannel>)
    ensures
        match r {
            Some(rec) => sp_ds30d_of(v.dv()) == Some(rec.dvr()),
            None => sp_ds30d_of(v.dv()) is None,
        },
{
    match v {
        Json::Obj(fs) => {
            match (
                get_num(fs, "powerLevel"),
                get_u32s(fs, "nonCorrErrors"),
                get_u32s(fs, "corrErrors"),
                get_str(fs, "modulation"),
                get_u64s(fs, "channelID"),
                get_str(fs, "frequency"),
                get_num_strict(fs, "latency"),
                get_num(fs, "mse"),
            ) {
                (
                    Some(pl),
                    Some(nce),
                    Some(ce),
                    Some(md),
                    Some(cid),
                    Some(fq),
                    Some(lat),
                    Some(mse),
                ) => Some(
                    Docsis30DownstreamChannel {
                        power_level: pl,
                        non_corr_errors: nce,
                        corr_errors: ce,
                        modulation: md,
                        channel_id: cid,
                        frequency: fq,
                        latency: lat,
                        mse,
                    },
                ),
                _ => None,
            }
        },
        _ => None,
    }
}

/// The DOCSIS 3.1 upstream record held by a channel-info object.
pub open spec fn sp_ds31u_of(v: JsonV) -> Option<Ds31UpV> {
    match v {
        JsonV::Obj(fs) => match (
            sp_get_num(fs, "powerLevel"@),
            sp_get_str(fs, "modulation"@),
            sp_get_u64s(fs, "channelID"@),
            sp_get_str(fs, "frequency"@),
            sp_get_u64c(fs, "activesub"@),
            sp_get_str(fs, "fft"@),
        ) {
            (Some(pl), Some(md), Some(cid), Some(fq), Some(act), Some(fft)) => Some(
                Ds31UpV {
                    power_level: pl,
                    modulation: md,
                    channel_id: cid,
                    frequency: fq,
                    activesub: act,
                    fft,
                },
            ),
            _ => None,
        },
        _ => None,
    }
}

fn ds31u_of(v: &Json) -> (r: Option<Docsis31UpstreamChannel>)
    ensures
        match r {
            Some(rec) => sp_ds31u_of(v.dv()) == Some(rec.dvr()),
            None => sp_ds31u_of(v.dv()) is None,
        },
{
    match v {
        Json::Obj(fs) => {
            match (
                get_num(fs, "powerLevel"),
                get_str(fs, "modulation"),
                get_u64s(fs, "channelID"),
                get_str(fs, "frequency"),
                get_u64c(fs, "activesub"),
                get_str(fs, "fft"),
            ) {
                (Some(pl), Some(md), Some(cid), Some(fq), Some(act), Some(fft)) => Some(
                    Docsis31UpstreamChannel {
                        power_level: pl,
                        modulation: md,
                        channel_id: cid,
                        frequency: fq,
                        activesub: act,
                        fft,
                    },
                ),
                _ => None,
            }
        },
        _ => None,
    }
}

/// The DOCSIS 3.0 upstream record held by a channel-info object.
pub open spec fn sp_ds30u_of(v: JsonV) -> Option<Ds30UpV> {
    match v {
        JsonV::Obj(fs) => match (
            sp_get_num(fs, "powerLevel"@),
            sp_get_str(fs, "modulation"@),
            sp_get_u64s(fs, "channelID"@),
            sp_get_str(fs, "frequency"@),
            sp_get_str(fs, "multiplex"@),
        ) {
            (Some(pl), Some(md), Some(cid), Some(fq), Some(mx)) => Some(
                Ds30UpV {
                    power_level: pl,
                    modulation: md,
                    channel_id: cid,
                    frequency: fq,
                    multiplex: mx,
                },
            ),
            _ => None,
        },
        _ => None,
    }
}

fn ds30u_of(v: &Json) -> (r: Option<Docsis30UpstreamChannel>)
    ensures
        match r {
            Some(rec) => sp_ds30u_of(v.dv()) == Some(rec.dvr()),
            None => sp_ds30u_of(v.dv()) is None,
        },
{
    match v {
        Json::Obj(fs) => {
            match (
                get_num(fs, "powerLevel"),
                get_str(fs, "modulation"),
                get_u64s(fs, "channelID"),
                get_str(fs, "frequency"),
                get_str(fs, "multiplex"),
            ) {
                (Some(pl), Some(md), Some(cid), Some(fq), Some(mx)) => Some(
                    Docsis30UpstreamChannel {
                        power_level: pl,
                        modulation: md,
                        channel_id: cid,
                        frequency: fq,
                        multiplex: mx,
                    },
                ),
                _ => None,
            }
        },
        _ => None,
    }
}

// ---- record lists ----

/// Views of a vector of records, element by element.
pub open spec fn dvr_ds31d_seq(v: Seq<Docsis31DownstreamChannel>) -> Seq<Ds31DownV> {
    Seq::new(v.len(), |k: int| v[k].dvr())
}

/// Decodes every element of an array as a Docsis31DownstreamChannel record.
pub open spec fn sp_ds31d_list(items: Seq<JsonV>) -> Option<Seq<Ds31DownV>>
    decreases items.len(),
{
    if items.len() == 0 {
        Some(Seq::empty())
    } else {
        match (sp_ds31d_list(items.drop_last()), sp_ds31d_of(items.last())) {
            (Some(rest), Some(r)) => Some(rest.push(r)),
            _ => None,
        }
    }
}

proof fn lemma_ds31d_list_none(items: Seq<JsonV>, j: int)
    requires
        0 <= j <= items.len(),
        sp_ds31d_list(items.subrange(0, j)) is None,
    ensures
        sp_ds31d_list(items) is None,
    decreases items.len(),
{
    if j == items.len() {
        assert(items.subrange(0, j) =~= items);
    } else {
        assert(items.drop_last().subrange(0, j) =~= items.subrange(0, j));
        lemma_ds31d_list_none(items.drop_last(), j);
    }
}

fn ds31d_list(items: &Vec<Json>) -> (r: Option<Vec<Docsis31DownstreamChannel>>)
    ensures
        match r {
            Some(recs) => sp_ds31d_list(crate::json::dv_arr(items@)) == Some(
                dvr_ds31d_seq(recs@),
            ),
            None => sp_ds31d_list(crate::json::dv_arr(items@)) is None,
        },
{
    let ghost arr = crate::json::dv_arr(items@);
    proof {
        crate::json::lemma_dv_arr_props(items@);
    }
    let n = items.len();
    let mut out: Vec<Docsis31DownstreamChannel> = Vec::new();
    proof {
        assert(arr.subrange(0, 0) =~= Seq::<JsonV>::empty());
        assert(dvr_ds31d_seq(out@) =~= Seq::<Ds31DownV>::empty());
    }
    let mut idx: usize = 0;
    while idx < n
        invariant
            idx <= n,
            n == items@.len(),
            arr == crate::json::dv_arr(items@),
            arr.len() == n,
            forall|k: int| 0 <= k < n ==> arr[k] == items@[k].dv(),
            sp_ds31d_list(arr.subrange(0, idx as int)) == Some(dvr_ds31d_seq(out@)),
        decreases n - idx,
    {
        proof {
            assert(arr.subrange(0, idx + 1).drop_last() =~= arr.subrange(0, idx as int));
            assert(arr.subrange(0, idx + 1).last() == arr[idx as int]);
        }
        match ds31d_of(&items[idx]) {
            None => {
                proof {
                    assert(sp_ds31d_list(arr.subrange(0, idx + 1)) is None);
                    lemma_ds31d_list_none(arr, idx + 1);
                }
                return None;
            },
            Some(rec) => {
                let ghost oldv = out@;
                out.push(rec);
                proof {
                    assert(dvr_ds31d_seq(out@) =~= dvr_ds31d_seq(oldv).push(rec.dvr()));
                }
            },
        }
        idx = idx + 1;
    }
    proof {
        assert(arr.subrange(0, n as int) =~= arr);
    }
    Some(out)
}

/// Views of a vector of records, element by element.
pub open spec fn dvr_ds30d_seq(v: Seq<Docsis30DownstreamChannel>) -> Seq<Ds30DownV> {
    Seq::new(v.len(), |k: int| v[k].dvr())
}

/// Decodes every element of an array as a Docsis30DownstreamChannel record.
pub open spec fn sp_ds30d_list(items: Seq<JsonV>) -> Option<Seq<Ds30DownV>>
    decreases items.len(),
{
    if items.len() == 0 {
        Some(Seq::empty())
    } else {
        match (sp_ds30d_list(items.drop_last()), sp_ds30d_of(items.last())) {
            (Some(rest), Some(r)) => Some(rest.push(r)),
            _ => None,
        }
    }
}

proof fn lemma_ds30d_list_none(items: Seq<JsonV>, j: int)
    requires
        0 <= j <= items.len(),
        sp_ds30d_list(items.subrange(0, j)) is None,
    ensures
        sp_ds30d_list(items) is None,
    decreases items.len(),
{
    if j == items.len() {
        assert(items.subrange(0, j) =~= items);
    } else {
        assert(items.drop_last().subrange(0, j) =~= items.subrange(0, j));
        lemma_ds30d_list_none(items.drop_last(), j);
    }
}

fn ds30d_list(items: &Vec<Json>) -> (r: Option<Vec<Docsis30DownstreamChannel>>)
    ensures
        match r {
            Some(recs) => sp_ds30d_list(crate::json::dv_arr(items@)) == Some(
                dvr_ds30d_seq(recs@),
            ),
            None => sp_ds30d_list(crate::json::dv_arr(items@)) is None,
        },
{
    let ghost arr = crate::json::dv_arr(items@);
    proof {
        crate::json::lemma_dv_arr_props(items@);
    }
    let n = items.len();
    let mut out: Vec<Docsis30DownstreamChannel> = Vec::new();
    proof {
        assert(arr.subrange(0, 0) =~= Seq::<JsonV>::empty());
        assert(dvr_ds30d_seq(out@) =~= Seq::<Ds30DownV>::empty());
    }
    let mut idx: usize = 0;
    while idx < n
        invariant
            idx <= n,
            n == items@.len(),
            arr == crate::json::dv_arr(items@),
            arr.len() == n,
            forall|k: int| 0 <= k < n ==> arr[k] == items@[k].dv(),
            sp_ds30d_list(arr.subrange(0, idx as int)) == Some(dvr_ds30d_seq(out@)),
        decreases n - idx,
    {
        proof {
            assert(arr.subrange(0, idx + 1).drop_last() =~= arr.subrange(0, idx as int));
            assert(arr.subrange(0, idx + 1).last() == arr[idx as int]);
        }
        match ds30d_of(&items[idx]) {
            None => {
                proof {
                    assert(sp_ds30d_list(arr.subrange(0, idx + 1)) is None);
                    lemma_ds30d_list_none(arr, idx + 1);
                }
                return None;
            },
            Some(rec) => {
                let ghost oldv = out@;
                out.push(rec);
                proof {
                    assert(dvr_ds30d_seq(out@) =~= dvr_ds30d_seq(oldv).push(rec.dvr()));
                }
            },
        }
        idx = idx + 1;
    }
    proof {
        assert(arr.subrange(0, n as int) =~= arr);
    }
    Some(out)
}

/// Views of a vector of records, element by element.
pub open spec fn dvr_ds31u_seq(v: Seq<Docsis31UpstreamChannel>) -> Seq<Ds31UpV> {
    Seq::new(v.len(), |k: int| v[k].dvr())
}

/// Decodes every element of an array as a Docsis31UpstreamChannel record.
pub open spec fn sp_ds31u_list(items: Seq<JsonV>) -> Option<Seq<Ds31UpV>>
    decreases items.len(),
{
    if items.len() == 0 {
        Some(Seq::empty())
    } else {
        match (sp_ds31u_list(items.drop_last()), sp_ds31u_of(items.last())) {
            (Some(rest), Some(r)) => Some(rest.push(r)),
            _ => None,
        }
    }
}

proof fn lemma_ds31u_list_none(items: Seq<JsonV>, j: int)
    requires
        0 <= j <= items.len(),
        sp_ds31u_list(items.subrange(0, j)) is None,
    ensures
        sp_ds31u_list(items) is None,
    decreases items.len(),
{
    if j == items.len() {
        assert(items.subrange(0, j) =~= items);
    } else {
        assert(items.drop_last().subrange(0, j) =~= items.subrange(0, j));
        lemma_ds31u_list_none(items.drop_last(), j);
    }
}

fn ds31u_list(items: &Vec<Json>) -> (r: Option<Vec<Docsis31UpstreamChannel>>)
    ensures
        match r {
            Some(recs) => sp_ds31u_list(crate::json::dv_arr(items@)) == Some(
                dvr_ds31u_seq(recs@),
            ),
            None => sp_ds31u_list(crate::json::dv_arr(items@)) is None,
        },
{
    let ghost arr = crate::json::dv_arr(items@);
    proof {
        crate::json::lemma_dv_arr_props(items@);
    }
    let n = items.len();
    let mut out: Vec<Docsis31UpstreamChannel> = Vec::new();
    proof {
        assert(arr.subrange(0, 0) =~= Seq::<JsonV>::empty());
        assert(dvr_ds31u_seq(out@) =~= Seq::<Ds31UpV>::empty());
    }
    let mut idx: usize = 0;
    while idx < n
        invariant
            idx <= n,
            n == items@.len(),
            arr == crate::json::dv_arr(items@),
            arr.len() == n,
            forall|k: int| 0 <= k < n ==> arr[k] == items@[k].dv(),
            sp_ds31u_list(arr.subrange(0, idx as int)) == Some(dvr_ds31u_seq(out@)),
        decreases n - idx,
    {
        proof {
            assert(arr.subrange(0, idx + 1).drop_last() =~= arr.subrange(0, idx as int));
            assert(arr.subrange(0, idx + 1).last() == arr[idx as int]);
        }
        match ds31u_of(&items[idx]) {
            None => {
                proof {
                    assert(sp_ds31u_list(arr.subrange(0, idx + 1)) is None);
                    lemma_ds31u_list_none(arr, idx + 1);
                }
                return None;
            },
            Some(rec) => {
                let ghost oldv = out@;
                out.push(rec);
                proof {
                    assert(dvr_ds31u_seq(out@) =~= dvr_ds31u_seq(oldv).push(rec.dvr()));
                }
            },
        }
        idx = idx + 1;
    }
    proof {
        assert(arr.subrange(0, n as int) =~= arr);
    }
    Some(out)
}

/// Views of a vector of records, element by element.
pub open spec fn dvr_ds30u_seq(v: Seq<Docsis30UpstreamChannel>) -> Seq<Ds30UpV> {
    Seq::new(v.len(), |k: int| v[k].dvr())
}

/// Decodes every element of an array as a Docsis30UpstreamChannel record.
pub open spec fn sp_ds30u_list(items: Seq<JsonV>) -> Option<Seq<Ds30UpV>>
    decreases items.len(),
{
    if items.len() == 0 {
        Some(Seq::empty())
    } else {
        match (sp_ds30u_list(items.drop_last()), sp_ds30u_of(items.last())) {
            (Some(rest), Some(r)) => Some(rest.push(r)),
            _ => None,
        }
    }
}

proof fn lemma_ds30u_list_none(items: Seq<JsonV>, j: int)
    requires
        0 <= j <= items.len(),
        sp_ds30u_list(items.subrange(0, j)) is None,
    ensures
        sp_ds30u_list(items) is None,
    decreases items.len(),
{
    if j == items.len() {
        assert(items.subrange(0, j) =~= items);
    } else {
        assert(items.drop_last().subrange(0, j) =~= items.subrange(0, j));
        lemma_ds30u_list_none(items.drop_last(), j);
    }
}

fn ds30u_list(items: &Vec<Json>) -> (r: Option<Vec<Docsis30UpstreamChannel>>)
    ensures
        match r {
            Some(recs) => sp_ds30u_list(crate::json::dv_arr(items@)) == Some(
                dvr_ds30u_seq(recs@),
            ),
            None => sp_ds30u_list(crate::json::dv_arr(items@)) is None,
        },
{
    let ghost arr = crate::json::dv_arr(items@);
    proof {
        crate::json::lemma_dv_arr_props(items@);
    }
    let n = items.len();
    let mut out: Vec<Docsis30UpstreamChannel> = Vec::new();
    proof {
        assert(arr.subrange(0, 0) =~= Seq::<JsonV>::empty());
        assert(dvr_ds30u_seq(out@) =~= Seq::<Ds30UpV>::empty());
    }
    let mut idx: usize = 0;
    while idx < n
        invariant
            idx <= n,
            n == items@.len(),
            arr == crate::json::dv_arr(items@),
            arr.len() == n,
            forall|k: int| 0 <= k < n ==> arr[k] == items@[k].dv(),
            sp_ds30u_list(arr.subrange(0, idx as int)) == Some(dvr_ds30u_seq(out@)),
        decreases n - idx,
    {
        proof {
            assert(arr.subrange(0, idx + 1).drop_last() =~= arr.subrange(0, idx as int));
            assert(arr.subrange(0, idx + 1).last() == arr[idx as int]);
        }
        match ds30u_of(&items[idx]) {
            None => {
                proof {
                    assert(sp_ds30u_list(arr.subrange(0, idx + 1)) is None);
                    lemma_ds30u_list_none(arr, idx + 1);
                }
                return None;
            },
            Some(rec) => {
                let ghost oldv = out@;
                out.push(rec);
                proof {
                    assert(dvr_ds30u_seq(out@) =~= dvr_ds30u_seq(oldv).push(rec.dvr()));
                }
            },
        }
        idx = idx + 1;
    }
    proof {
        assert(arr.subrange(0, n as int) =~= arr);
    }
    Some(out)
}

// ---- the three pages ----

/// The connection overview: two generation sub-counts per direction, and
/// the advertised rates.
pub struct DocsisConnectionData {
    pub ds_count: u8,
    pub ds_count_second: u8,
    pub us_count: u8,
    pub us_count_second: u8,
    pub ds_rate: String,
    pub us_rate: String,
}

/// Mathematical view of the connection overview.
pub ghost struct ConnV {
    pub ds_count: u8,
    pub ds_count_second: u8,
    pub us_count: u8,
    pub us_count_second: u8,
    pub ds_rate: Seq<char>,
    pub us_rate: Seq<char>,
}

impl DocsisConnectionData {
    pub open spec fn dvr(&self) -> ConnV {
        ConnV {
            ds_count: self.ds_count,
            ds_count_second: self.ds_count_second,
            us_count: self.us_count,
            us_count_second: self.us_count_second,
            ds_rate: self.ds_rate@,
            us_rate: self.us_rate@,
        }
    }
}

/// The connection overview held by a `docOv` document:
/// `data.connectionData` with its counts and rates.
pub open spec fn sp_overview_of(v: JsonV) -> Option<ConnV> {
    match v {
        JsonV::Obj(root) => match sp_get_obj(root, "data"@) {
            Some(data) => match sp_get_obj(data, "connectionData"@) {
                Some(cd) => match (
                    sp_get_u8s(cd, "dsCount"@),
                    sp_get_u8s(cd, "dsCountSecond"@),
                    sp_get_u8s(cd, "usCount"@),
                    sp_get_u8s(cd, "usCountSecond"@),
                    sp_get_str(cd, "dsRate"@),
                    sp_get_str(cd, "usRate"@),
                ) {
                    (Some(d1), Some(d2), Some(u1), Some(u2), Some(dr), Some(ur)) => Some(
                        ConnV {
                            ds_count: d1,
                            ds_count_second: d2,
                            us_count: u1,
                            us_count_second: u2,
                            ds_rate: dr,
                            us_rate: ur,
                        },
                    ),
                    _ => None,
                },
                None => None,
            },
            None => None,
        },
        _ => None,
    }
}

fn overview_of(v: &Json) -> (r: Option<DocsisConnectionData>)
    ensures
        match r {
            Some(c) => sp_overview_of(v.dv()) == Some(c.dvr()),
            None => sp_overview_of(v.dv()) is None,
        },
{
    match v {
        Json::Obj(root) => match get_obj(root, "data") {
            Some(data) => match get_obj(data, "connectionData") {
                Some(cd) => match (
                    get_u8s(cd, "dsCount"),
                    get_u8s(cd, "dsCountSecond"),
                    get_u8s(cd, "usCount"),
                    get_u8s(cd, "usCountSecond"),
                    get_str(cd, "dsRate"),
                    get_str(cd, "usRate"),
                ) {
                    (Some(d1), Some(d2), Some(u1), Some(u2), Some(dr), Some(ur)) => Some(
                        DocsisConnectionData {
                            ds_count: d1,
                            ds_count_second: d2,
                            us_count: u1,
                            us_count_second: u2,
                            ds_rate: dr,
                            us_rate: ur,
                        },
                    ),
                    _ => None,
                },
                None => None,
            },
            None => None,
        },
        _ => None,
    }
}

/// The channel-info page: one record list per generation and direction,
/// and the modem's ready state.
pub struct DocsisChannelData {
    pub downstream31: Vec<Docsis31DownstreamChannel>,
    pub downstream30: Vec<Docsis30DownstreamChannel>,
    pub upstream31: Vec<Docsis31UpstreamChannel>,
    pub upstream30: Vec<Docsis30UpstreamChannel>,
    pub ready_state: String,
}

/// Mathematical view of the channel-info page.
pub ghost struct ChannelDataV {
    pub downstream31: Seq<Ds31DownV>,
    pub downstream30: Seq<Ds30DownV>,
    pub upstream31: Seq<Ds31UpV>,
    pub upstream30: Seq<Ds30UpV>,
    pub ready_state: Seq<char>,
}

impl DocsisChannelData {
    pub open spec fn dvr(&self) -> ChannelDataV {
        ChannelDataV {
            downstream31: dvr_ds31d_seq(self.downstream31@),
            downstream30: dvr_ds30d_seq(self.downstream30@),
            upstream31: dvr_ds31u_seq(self.upstream31@),
            upstream30: dvr_ds30u_seq(self.upstream30@),
            ready_state: self.ready_state@,
        }
    }
}

/// The channel lists held by a `docInfo` document: `data.channelDs` and
/// `data.channelUs`, each with its `docsis31` and `docsis30` arrays, and
/// `data.readyState`.
pub open spec fn sp_channel_data_of(v: JsonV) -> Option<ChannelDataV> {
    match v {
        JsonV::Obj(root) => match sp_get_obj(root, "data"@) {
            Some(data) => match (
                sp_get_obj(data, "channelDs"@),
                sp_get_obj(data, "channelUs"@),
                sp_get_str(data, "readyState"@),
            ) {
                (Some(ds), Some(us), Some(rs)) => match (
                    sp_get_arr(ds, "docsis31"@),
                    sp_get_arr(ds, "docsis30"@),
                    sp_get_arr(us, "docsis31"@),
                    sp_get_arr(us, "docsis30"@),
                ) {
                    (Some(a31), Some(a30), Some(b31), Some(b30)) => match (
                        sp_ds31d_list(a31),
                        sp_ds30d_list(a30),
                        sp_ds31u_list(b31),
                        sp_ds30u_list(b30),
                    ) {
                        (Some(l1), Some(l2), Some(l3), Some(l4)) => Some(
                            ChannelDataV {
                                downstream31: l1,
                                downstream30: l2,
                                upstream31: l3,
                                upstream30: l4,
                                ready_state: rs,
                            },
                        ),
                        _ => None,
                    },
                    _ => None,
                },
                _ => None,
            },
            None => None,
        },
        _ => None,
    }
}

fn channel_data_of(v: &Json) -> (r: Option<DocsisChannelData>)
    ensures
        match r {
            Some(c) => sp_channel_data_of(v.dv()) == Some(c.dvr()),
            None => sp_channel_data_of(v.dv()) is None,
        },
{
    match v {
        Json::Obj(root) => match get_obj(root, "data") {
            Some(data) => match (
                get_obj(data, "channelDs"),
                get_obj(data, "channelUs"),
                get_str(data, "readyState"),
            ) {
                (Some(ds), Some(us), Some(rs)) => match (
                    get_arr(ds, "docsis31"),
                    get_arr(ds, "docsis30"),
                    get_arr(us, "docsis31"),
                    get_arr(us, "docsis30"),
                ) {
                    (Some(a31), Some(a30), Some(b31), Some(b30)) => match (
                        ds31d_list(a31),
                        ds30d_list(a30),
                        ds31u_list(b31),
                        ds30u_list(b30),
                    ) {
                        (Some(l1), Some(l2), Some(l3), Some(l4)) => Some(
                            DocsisChannelData {
                                downstream31: l1,
                                downstream30: l2,
                                upstream31: l3,
                                upstream30: l4,
                                ready_state: rs,
                            },
                        ),
                        _ => None,
                    },
                    _ => None,
                },
                _ => None,
            },
            None => None,
        },
        _ => None,
    }
}

/// The statistics page: the mean-square-error values. Decodable, though the
/// mapper does not yet use it.
pub struct DocsisStatistics {
    pub mse_values: Vec<Number>,
}

/// A native number element of a statistics list.
pub open spec fn sp_numv_of(v: JsonV) -> Option<Number> {
    match v {
        JsonV::Num(m) => Some(m),
        _ => None,
    }
}

fn numv_of(v: &Json) -> (r: Option<Number>)
    ensures
        r == sp_numv_of(v.dv()),
{
    match v {
        Json::Num(m) => Some(*m),
        _ => None,
    }
}

/// Decodes every element of an array as a native number.
pub open spec fn sp_num_list(items: Seq<JsonV>) -> Option<Seq<Number>>
    decreases items.len(),
{
    if items.len() == 0 {
        Some(Seq::empty())
    } else {
        match (sp_num_list(items.drop_last()), sp_numv_of(items.last())) {
            (Some(rest), Some(r)) => Some(rest.push(r)),
            _ => None,
        }
    }
}

proof fn lemma_num_list_none(items: Seq<JsonV>, j: int)
    requires
        0 <= j <= items.len(),
        sp_num_list(items.subrange(0, j)) is None,
    ensures
        sp_num_list(items) is None,
    decreases items.len(),
{
    if j == items.len() {
        assert(items.subrange(0, j) =~= items);
    } else {
        assert(items.drop_last().subrange(0, j) =~= items.subrange(0, j));
        lemma_num_list_none(items.drop_last(), j);
    }
}

fn num_list(items: &Vec<Json>) -> (r: Option<Vec<Number>>)
    ensures
        match r {
            Some(ns) => sp_num_list(crate::json::dv_arr(items@)) == Some(ns@),
            None => sp_num_list(crate::json::dv_arr(items@)) is None,
        },
{
    let ghost arr = crate::json::dv_arr(items@);
    proof {
        crate::json::lemma_dv_arr_props(items@);
    }
    let n = items.len();
    let mut out: Vec<Number> = Vec::new();
    proof {
        assert(arr.subrange(0, 0) =~= Seq::<JsonV>::empty());
    }
    let mut idx: usize = 0;
    while idx < n
        invariant
            idx <= n,
            n == items@.len(),
            arr == crate::json::dv_arr(items@),
            arr.len() == n,
            forall|k: int| 0 <= k < n ==> arr[k] == items@[k].dv(),
            sp_num_list(arr.subrange(0, idx as int)) == Some(out@),
        decreases n - idx,
    {
        proof {
            assert(arr.subrange(0, idx + 1).drop_last() =~= arr.subrange(0, idx as int));
            assert(arr.subrange(0, idx + 1).last() == arr[idx as int]);
        }
        match numv_of(&items[idx]) {
            None => {
                proof {
                    assert(sp_num_list(arr.subrange(0, idx + 1)) is None);
                    lemma_num_list_none(arr, idx + 1);
                }
                return None;
            },
            Some(m) => {
                out.push(m);
            },
        }
        idx = idx + 1;
    }
    proof {
        assert(arr.subrange(0, n as int) =~= arr);
    }
    Some(out)
}

/// The statistics held by a `docStat` document:
/// `data.docsisStats.mseValues`.
pub open spec fn sp_statistics_of(v: JsonV) -> Option<Seq<Number>> {
    match v {
        JsonV::Obj(root) => match sp_get_obj(root, "data"@) {
            Some(data) => match sp_get_obj(data, "docsisStats"@) {
                Some(st) => match sp_get_arr(st, "mseValues"@) {
                    Some(a) => sp_num_list(a),
                    None => None,
                },
                None => None,
            },
            None => None,
        },
        _ => None,
    }
}

fn statistics_of(v: &Json) -> (r: Option<DocsisStatistics>)
    ensures
        match r {
            Some(st) => sp_statistics_of(v.dv()) == Some(st.mse_values@),
            None => sp_statistics_of(v.dv()) is None,
        },
{
    match v {
        Json::Obj(root) => match get_obj(root, "data") {
            Some(data) => match get_obj(data, "docsisStats") {
                Some(st) => match get_arr(st, "mseValues") {
                    Some(a) => match num_list(a) {
                        Some(ns) => Some(DocsisStatistics { mse_values: ns }),
                        None => None,
                    },
                    None => None,
                },
                None => None,
            },
            None => None,
        },
        _ => None,
    }
}

// ---- page decoding, status included ----

/// What decoding the overview page concludes: a non-200 status is a
/// transport error; a body that is not JSON of the overview shape is a
/// decode error; otherwise the decoded overview.
pub open spec fn sp_decode_overview(status: u16, body: Seq<char>) -> Result<ConnV, FetchError> {
    if status != 200 {
        Err(FetchError::Transport)
    } else {
        match sp_json(body) {
            None => Err(FetchError::Decode),
            Some(v) => match sp_overview_of(v) {
                Some(c) => Ok(c),
                None => Err(FetchError::Decode),
            },
        }
    }
}

/// Decodes the answer to an overview (`docOv`) fetch.
pub fn decode_overview(status: u16, body: &str) -> (r: Result<DocsisConnectionData, FetchError>)
    ensures
        match r {
            Ok(c) => sp_decode_overview(status, body@) == Ok::<ConnV, FetchError>(c.dvr()),
            Err(e) => sp_decode_overview(status, body@) == Err::<ConnV, FetchError>(e),
        },
{
    if status != 200 {
        return Err(FetchError::Transport);
    }
    match parse_json(body) {
        None => Err(FetchError::Decode),
        Some(doc) => match overview_of(&doc) {
            Some(c) => Ok(c),
            None => Err(FetchError::Decode),
        },
    }
}

/// What decoding the channel-info page concludes.
pub open spec fn sp_decode_channel_data(status: u16, body: Seq<char>) -> Result<
    ChannelDataV,
    FetchError,
> {
    if status != 200 {
        Err(FetchError::Transport)
    } else {
        match sp_json(body) {
            None => Err(FetchError::Decode),
            Some(v) => match sp_channel_data_of(v) {
                Some(c) => Ok(c),
                None => Err(FetchError::Decode),
            },
        }
    }
}

/// Decodes the answer to a channel-info (`docInfo`) fetch.
pub fn decode_channel_data(status: u16, body: &str) -> (r: Result<DocsisChannelData, FetchError>)
    ensures
        match r {
            Ok(c) => sp_decode_channel_data(status, body@) == Ok::<ChannelDataV, FetchError>(
                c.dvr(),
            ),
            Err(e) => sp_decode_channel_data(status, body@) == Err::<ChannelDataV, FetchError>(e),
        },
{
    if status != 200 {
        return Err(FetchError::Transport);
    }
    match parse_json(body) {
        None => Err(FetchError::Decode),
        Some(doc) => match channel_data_of(&doc) {
            Some(c) => Ok(c),
            None => Err(FetchError::Decode),
        },
    }
}

/// What decoding the statistics page concludes.
pub open spec fn sp_decode_statistics(status: u16, body: Seq<char>) -> Result<
    Seq<Number>,
    FetchError,
> {
    if status != 200 {
        Err(FetchError::Transport)
    } else {
        match sp_json(body) {
            None => Err(FetchError::Decode),
            Some(v) => match sp_statistics_of(v) {
                Some(c) => Ok(c),
                None => Err(FetchError::Decode),
            },
        }
    }
}

/// Decodes the answer to a statistics (`docStat`) fetch.
pub fn decode_statistics(status: u16, body: &str) -> (r: Result<DocsisStatistics, FetchError>)
    ensures
        match r {
            Ok(c) => sp_decode_statistics(status, body@) == Ok::<Seq<Number>, FetchError>(
                c.mse_values@,
            ),
            Err(e) => sp_decode_statistics(status, body@) == Err::<Seq<Number>, FetchError>(e),
        },
{
    if status != 200 {
        return Err(FetchError::Transport);
    }
    match parse_json(body) {
        None => Err(FetchError::Decode),
        Some(doc) => match statistics_of(&doc) {
            Some(c) => Ok(c),
            None => Err(FetchError::Decode),
        },
    }
}

} // verus!
