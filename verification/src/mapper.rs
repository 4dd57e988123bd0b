//! Flattening decoded telemetry into labeled gauge observations, and the
//! page-level entry points the surrounding application drives.
//!
//! Every channel record yields one observation per measured quantity its
//! protocol generation reports, labeled with the protocol tag and the
//! channel id; power-level observations carry the modulation as well.
//! Quantities a generation does not define are not emitted for it.

use vstd::prelude::*;
use vstd::string::StringExecFns;
use crate::docsis::{
    ChannelDataV, ConnV, Docsis30DownstreamChannel, Docsis30UpstreamChannel,
    Docsis31DownstreamChannel, Docsis31UpstreamChannel, DocsisChannelData, DocsisConnectionData,
    Ds30DownV, Ds30UpV, Ds31DownV, Ds31UpV, FetchError, decode_channel_data, decode_overview,
    decode_statistics, dvr_ds30d_seq, dvr_ds30u_seq, dvr_ds31d_seq, dvr_ds31u_seq,
    sp_decode_channel_data, sp_decode_overview, sp_decode_statistics,
};
use crate::json::Number;
use crate::session::FritzboxSession;
use crate::text::{dec_str, dec_string, str_eq};

verus! {

/// One gauge sample: a metric name, a value, and its ordered labels.
pub struct Observation {
    pub metric: String,
    pub value: Number,
    pub labels: Vec<(String, String)>,
}

/// Mathematical view of an observation.
#[verifier::ext_equal]
pub ghost struct ObsV {
    pub metric: Seq<char>,
    pub value: Number,
    pub labels: Seq<(Seq<char>, Seq<char>)>,
}

impl Observation {
    pub open spec fn dvo(&self) -> ObsV {
        ObsV {
            metric: self.metric@,
            value: self.value,
            labels: Seq::new(
                self.labels@.len(),
                |k: int| (self.labels@[k].0@, self.labels@[k].1@),
            ),
        }
    }
}

/// Views of a vector of observations, element by element.
pub open spec fn obs_views(v: Seq<Observation>) -> Seq<ObsV> {
    Seq::new(v.len(), |k: int| v[k].dvo())
}

/// The observations of one DOCSIS 3.1 downstream record: non-correctable
/// errors, power level (with modulation), and MER. A MER above `u32` range
/// does not abort the cycle: zero stands in for it.
pub open spec fn sp_obs_ds31d(r: Ds31DownV) -> Seq<ObsV> {
    seq![
        ObsV {
            metric: "docsis_channel_non_correctable_errors"@,
            value: Number { neg: false, mant: r.non_corr_errors as u64, exp: 0 },
            labels: seq![
                ("protocol"@, "docsis31"@),
                ("channel"@, dec_str(r.channel_id as int)),
            ],
        },
        ObsV {
            metric: "docsis_channel_power_level"@,
            value: r.power_level,
            labels: seq![
                ("protocol"@, "docsis31"@),
                ("channel"@, dec_str(r.channel_id as int)),
                ("modulation"@, r.modulation),
            ],
        },
        ObsV {
            metric: "docsis_channel_mer"@,
            value: Number {
                neg: false,
                mant: if r.mer <= u32::MAX {
                    r.mer
                } else {
                    0
                },
                exp: 0,
            },
            labels: seq![
                ("protocol"@, "docsis31"@),
                ("channel"@, dec_str(r.channel_id as int)),
            ],
        },
    ]
}

/// The observations of one DOCSIS 3.0 downstream record: non-correctable
/// and correctable errors, power level (with modulation), and MSE.
pub open spec fn sp_obs_ds30d(r: Ds30DownV) -> Seq<ObsV> {
    seq![
        ObsV {
            metric: "docsis_channel_non_correctable_errors"@,
            value: Number { neg: false, mant: r.non_corr_errors as u64, exp: 0 },
            labels: seq![
                ("protocol"@, "docsis30"@),
                ("channel"@, dec_str(r.channel_id as int)),
            ],
        },
        ObsV {
            metric: "docsis_channel_correctable_errors"@,
            value: Number { neg: false, mant: r.corr_errors as u64, exp: 0 },
            labels: seq![
                ("protocol"@, "docsis30"@),
                ("channel"@, dec_str(r.channel_id as int)),
            ],
        },
        ObsV {
            metric: "docsis_channel_power_level"@,
            value: r.power_level,
            labels: seq![
                ("protocol"@, "docsis30"@),
                ("channel"@, dec_str(r.channel_id as int)),
                ("modulation"@, r.modulation),
            ],
        },
        ObsV {
            metric: "docsis_channel_mse"@,
            value: r.mse,
            labels: seq![
                ("protocol"@, "docsis30"@),
                ("channel"@, dec_str(r.channel_id as int)),
            ],
        },
    ]
}

/// The observations of one DOCSIS 3.1 upstream record: power level (with
/// modulation) and the active subcarrier count.
pub open spec fn sp_obs_ds31u(r: Ds31UpV) -> Seq<ObsV> {
    seq![
        ObsV {
            metric: "docsis_channel_power_level"@,
            value: r.power_level,
            labels: seq![
                ("protocol"@, "docsis31"@),
                ("channel"@, dec_str(r.channel_id as int)),
                ("modulation"@, r.modulation),
            ],
        },
        ObsV {
            metric: "docsis_channel_active_subcarriers"@,
            value: Number { neg: false, mant: r.activesub, exp: 0 },
            labels: seq![
                ("protocol"@, "docsis31"@),
                ("channel"@, dec_str(r.channel_id as int)),
            ],
        },
    ]
}

/// The observations of one DOCSIS 3.0 upstream record: the power level
/// (with modulation) alone.
pub open spec fn sp_obs_ds30u(r: Ds30UpV) -> Seq<ObsV> {
    seq![
        ObsV {
            metric: "docsis_channel_power_level"@,
            value: r.power_level,
            labels: seq![
                ("protocol"@, "docsis30"@),
                ("channel"@, dec_str(r.channel_id as int)),
                ("modulation"@, r.modulation),
            ],
        },
    ]
}

fn obs_ds31d(r: &Docsis31DownstreamChannel, out: &mut Vec<Observation>)
    ensures
        obs_views(final(out)@) == obs_views(old(out)@) + sp_obs_ds31d(r.dvr()),
{
    let cid = dec_string(r.channel_id);
    let mut l1: Vec<(String, String)> = Vec::new();
    l1.push((String::from_str("protocol"), String::from_str("docsis31")));
    l1.push((String::from_str("channel"), cid.clone()));
    let o1 = Observation {
        metric: String::from_str("docsis_channel_non_correctable_errors"),
        value: Number { neg: false, mant: r.non_corr_errors as u64, exp: 0 },
        labels: l1,
    };
    proof {
        assert(o1.dvo() =~= sp_obs_ds31d(r.dvr())[0]);
    }
    let mut l2: Vec<(String, String)> = Vec::new();
    l2.push((String::from_str("protocol"), String::from_str("docsis31")));
    l2.push((String::from_str("channel"), cid.clone()));
    l2.push((String::from_str("modulation"), r.modulation.clone()));
    let o2 = Observation {
        metric: String::from_str("docsis_channel_power_level"),
        value: r.power_level,
        labels: l2,
    };
    proof {
        assert(o2.dvo() =~= sp_obs_ds31d(r.dvr())[1]);
    }
    let mut l3: Vec<(String, String)> = Vec::new();
    l3.push((String::from_str("protocol"), String::from_str("docsis31")));
    l3.push((String::from_str("channel"), cid));
    let o3 = Observation {
        metric: String::from_str("docsis_channel_mer"),
        value: Number {
            neg: false,
            mant: if r.mer <= 0xFFFF_FFFFu64 {
                r.mer
            } else {
                0
            },
            exp: 0,
        },
        labels: l3,
    };
    proof {
        assert(o3.dvo() =~= sp_obs_ds31d(r.dvr())[2]);
    }
    out.push(o1);
    out.push(o2);
    out.push(o3);
    proof {
        assert(obs_views(out@) =~= obs_views(old(out)@) + sp_obs_ds31d(r.dvr()));
    }
}

fn obs_ds30d(r: &Docsis30DownstreamChannel, out: &mut Vec<Observation>)
    ensures
        obs_views(final(out)@) == obs_views(old(out)@) + sp_obs_ds30d(r.dvr()),
{
    let cid = dec_string(r.channel_id);
    let mut l1: Vec<(String, String)> = Vec::new();
    l1.push((String::from_str("protocol"), String::from_str("docsis30")));
    l1.push((String::from_str("channel"), cid.clone()));
    let o1 = Observation {
        metric: String::from_str("docsis_channel_non_correctable_errors"),
        value: Number { neg: false, mant: r.non_corr_errors as u64, exp: 0 },
        labels: l1,
    };
    proof {
        assert(o1.dvo() =~= sp_obs_ds30d(r.dvr())[0]);
    }
    let mut l2: Vec<(String, String)> = Vec::new();
    l2.push((String::from_str("protocol"), String::from_str("docsis30")));
    l2.push((String::from_str("channel"), cid.clone()));
    let o2 = Observation {
        metric: String::from_str("docsis_channel_correctable_errors"),
        value: Number { neg: false, mant: r.corr_errors as u64, exp: 0 },
        labels: l2,
    };
    proof {
        assert(o2.dvo() =~= sp_obs_ds30d(r.dvr())[1]);
    }
    let mut l3: Vec<(String, String)> = Vec::new();
    l3.push((String::from_str("protocol"), String::from_str("docsis30")));
    l3.push((String::from_str("channel"), cid.clone()));
    l3.push((String::from_str("modulation"), r.modulation.clone()));
    let o3 = Observation {
        metric: String::from_str("docsis_channel_power_level"),
        value: r.power_level,
        labels: l3,
    };
    proof {
        assert(o3.dvo() =~= sp_obs_ds30d(r.dvr())[2]);
    }
    let mut l4: Vec<(String, String)> = Vec::new();
    l4.push((String::from_str("protocol"), String::from_str("docsis30")));
    l4.push((String::from_str("channel"), cid));
    let o4 = Observation {
        metric: String::from_str("docsis_channel_mse"),
        value: r.mse,
        labels: l4,
    };
    proof {
        assert(o4.dvo() =~= sp_obs_ds30d(r.dvr())[3]);
    }
    out.push(o1);
    out.push(o2);
    out.push(o3);
    out.push(o4);
    proof {
        assert(obs_views(out@) =~= obs_views(old(out)@) + sp_obs_ds30d(r.dvr()));
    }
}

fn obs_ds31u(r: &Docsis31UpstreamChannel, out: &mut Vec<Observation>)
    ensures
        obs_views(final(out)@) == obs_views(old(out)@) + sp_obs_ds31u(r.dvr()),
{
    let cid = dec_string(r.channel_id);
    let mut l1: Vec<(String, String)> = Vec::new();
    l1.push((String::from_str("protocol"), String::from_str("docsis31")));
    l1.push((String::from_str("channel"), cid.clone()));
    l1.push((String::from_str("modulation"), r.modulation.clone()));
    let o1 = Observation {
        metric: String::from_str("docsis_channel_power_level"),
        value: r.power_level,
        labels: l1,
    };
    proof {
        assert(o1.dvo() =~= sp_obs_ds31u(r.dvr())[0]);
    }
    let mut l2: Vec<(String, String)> = Vec::new();
    l2.push((String::from_str("protocol"), String::from_str("docsis31")));
    l2.push((String::from_str("channel"), cid));
    let o2 = Observation {
        metric: String::from_str("docsis_channel_active_subcarriers"),
        value: Number { neg: false, mant: r.activesub, exp: 0 },
        labels: l2,
    };
    proof {
        assert(o2.dvo() =~= sp_obs_ds31u(r.dvr())[1]);
    }
    out.push(o1);
    out.push(o2);
    proof {
        assert(obs_views(out@) =~= obs_views(old(out)@) + sp_obs_ds31u(r.dvr()));
    }
}

fn obs_ds30u(r: &Docsis30UpstreamChannel, out: &mut Vec<Observation>)
    ensures
        obs_views(final(out)@) == obs_views(old(out)@) + sp_obs_ds30u(r.dvr()),
{
    let cid = dec_string(r.channel_id);
    let mut l1: Vec<(String, String)> = Vec::new();
    l1.push((String::from_str("protocol"), String::from_str("docsis30")));
    l1.push((String::from_str("channel"), cid));
    l1.push((String::from_str("modulation"), r.modulation.clone()));
    let o1 = Observation {
        metric: String::from_str("docsis_channel_power_level"),
        value: r.power_level,
        labels: l1,
    };
    proof {
        assert(o1.dvo() =~= sp_obs_ds30u(r.dvr())[0]);
    }
    out.push(o1);
    proof {
        assert(obs_views(out@) =~= obs_views(old(out)@) + sp_obs_ds30u(r.dvr()));
    }
}

/// The observations of a list of Docsis31DownstreamChannel records, in order.
pub open spec fn sp_obs_ds31d_all(rs: Seq<Ds31DownV>) -> Seq<ObsV>
    decreases rs.len(),
{
    if rs.len() == 0 {
        Seq::empty()
    } else {
        sp_obs_ds31d_all(rs.drop_last()) + sp_obs_ds31d(rs.last())
    }
}

fn obs_ds31d_all(rs: &Vec<Docsis31DownstreamChannel>, out: &mut Vec<Observation>)
    ensures
        obs_views(final(out)@) == obs_views(old(out)@) + sp_obs_ds31d_all(dvr_ds31d_seq(rs@)),
{
    let ghost vs = dvr_ds31d_seq(rs@);
    let n = rs.len();
    proof {
        assert(vs.subrange(0, 0) =~= Seq::<Ds31DownV>::empty());
        assert(obs_views(out@) =~= obs_views(out@) + sp_obs_ds31d_all(vs.subrange(0, 0)));
    }
    let mut idx: usize = 0;
    while idx < n
        invariant
            idx <= n,
            n == rs@.len(),
            vs == dvr_ds31d_seq(rs@),
            vs.len() == n,
            obs_views(out@) == obs_views(old(out)@) + sp_obs_ds31d_all(vs.subrange(0, idx as int)),
        decreases n - idx,
    {
        obs_ds31d(&rs[idx], out);
        proof {
            assert(vs.subrange(0, idx + 1).drop_last() =~= vs.subrange(0, idx as int));
            assert(vs.subrange(0, idx + 1).last() == rs@[idx as int].dvr());
            assert(obs_views(old(out)@) + sp_obs_ds31d_all(vs.subrange(0, idx + 1))
                =~= (obs_views(old(out)@) + sp_obs_ds31d_all(vs.subrange(0, idx as int)))
                + sp_obs_ds31d(rs@[idx as int].dvr()));
        }
        idx = idx + 1;
    }
    proof {
        assert(vs.subrange(0, n as int) =~= vs);
    }
}

/// The observations of a list of Docsis30DownstreamChannel records, in order.
pub open spec fn sp_obs_ds30d_all(rs: Seq<Ds30DownV>) -> Seq<ObsV>
    decreases rs.len(),
{
    if rs.len() == 0 {
        Seq::empty()
    } else {
        sp_obs_ds30d_all(rs.drop_last()) + sp_obs_ds30d(rs.last())
    }
}

fn obs_ds30d_all(rs: &Vec<Docsis30DownstreamChannel>, out: &mut Vec<Observation>)
    ensures
        obs_views(final(out)@) == obs_views(old(out)@) + sp_obs_ds30d_all(dvr_ds30d_seq(rs@)),
{
    let ghost vs = dvr_ds30d_seq(rs@);
    let n = rs.len();
    proof {
        assert(vs.subrange(0, 0) =~= Seq::<Ds30DownV>::empty());
        assert(obs_views(out@) =~= obs_views(out@) + sp_obs_ds30d_all(vs.subrange(0, 0)));
    }
    let mut idx: usize = 0;
    while idx < n
        invariant
            idx <= n,
            n == rs@.len(),
            vs == dvr_ds30d_seq(rs@),
            vs.len() == n,
            obs_views(out@) == obs_views(old(out)@) + sp_obs_ds30d_all(vs.subrange(0, idx as int)),
        decreases n - idx,
    {
        obs_ds30d(&rs[idx], out);
        proof {
            assert(vs.subrange(0, idx + 1).drop_last() =~= vs.subrange(0, idx as int));
            assert(vs.subrange(0, idx + 1).last() == rs@[idx as int].dvr());
            assert(obs_views(old(out)@) + sp_obs_ds30d_all(vs.subrange(0, idx + 1))
                =~= (obs_views(old(out)@) + sp_obs_ds30d_all(vs.subrange(0, idx as int)))
                + sp_obs_ds30d(rs@[idx as int].dvr()));
        }
        idx = idx + 1;
    }
    proof {
        assert(vs.subrange(0, n as int) =~= vs);
    }
}

/// The observations of a list of Docsis31UpstreamChannel records, in order.
pub open spec fn sp_obs_ds31u_all(rs: Seq<Ds31UpV>) -> Seq<ObsV>
    decreases rs.len(),
{
    if rs.len() == 0 {
        Seq::empty()
    } else {
        sp_obs_ds31u_all(rs.drop_last()) + sp_obs_ds31u(rs.last())
    }
}

fn obs_ds31u_all(rs: &Vec<Docsis31UpstreamChannel>, out: &mut Vec<Observation>)
    ensures
        obs_views(final(out)@) == obs_views(old(out)@) + sp_obs_ds31u_all(dvr_ds31u_seq(rs@)),
{
    let ghost vs = dvr_ds31u_seq(rs@);
    let n = rs.len();
    proof {
        assert(vs.subrange(0, 0) =~= Seq::<Ds31UpV>::empty());
        assert(obs_views(out@) =~= obs_views(out@) + sp_obs_ds31u_all(vs.subrange(0, 0)));
    }
    let mut idx: usize = 0;
    while idx < n
        invariant
            idx <= n,
            n == rs@.len(),
            vs == dvr_ds31u_seq(rs@),
            vs.len() == n,
            obs_views(out@) == obs_views(old(out)@) + sp_obs_ds31u_all(vs.subrange(0, idx as int)),
        decreases n - idx,
    {
        obs_ds31u(&rs[idx], out);
        proof {
            assert(vs.subrange(0, idx + 1).drop_last() =~= vs.subrange(0, idx as int));
            assert(vs.subrange(0, idx + 1).last() == rs@[idx as int].dvr());
            assert(obs_views(old(out)@) + sp_obs_ds31u_all(vs.subrange(0, idx + 1))
                =~= (obs_views(old(out)@) + sp_obs_ds31u_all(vs.subrange(0, idx as int)))
                + sp_obs_ds31u(rs@[idx as int].dvr()));
        }
        idx = idx + 1;
    }
    proof {
        assert(vs.subrange(0, n as int) =~= vs);
    }
}

/// The observations of a list of Docsis30UpstreamChannel records, in order.
pub open spec fn sp_obs_ds30u_all(rs: Seq<Ds30UpV>) -> Seq<ObsV>
    decreases rs.len(),
{
    if rs.len() == 0 {
        Seq::empty()
    } else {
        sp_obs_ds30u_all(rs.drop_last()) + sp_obs_ds30u(rs.last())
    }
}

fn obs_ds30u_all(rs: &Vec<Docsis30UpstreamChannel>, out: &mut Vec<Observation>)
    ensures
        obs_views(final(out)@) == obs_views(old(out)@) + sp_obs_ds30u_all(dvr_ds30u_seq(rs@)),
{
    let ghost vs = dvr_ds30u_seq(rs@);
    let n = rs.len();
    proof {
        assert(vs.subrange(0, 0) =~= Seq::<Ds30UpV>::empty());
        assert(obs_views(out@) =~= obs_views(out@) + sp_obs_ds30u_all(vs.subrange(0, 0)));
    }
    let mut idx: usize = 0;
    while idx < n
        invariant
            idx <= n,
            n == rs@.len(),
            vs == dvr_ds30u_seq(rs@),
            vs.len() == n,
            obs_views(out@) == obs_views(old(out)@) + sp_obs_ds30u_all(vs.subrange(0, idx as int)),
        decreases n - idx,
    {
        obs_ds30u(&rs[idx], out);
        proof {
            assert(vs.subrange(0, idx + 1).drop_last() =~= vs.subrange(0, idx as int));
            assert(vs.subrange(0, idx + 1).last() == rs@[idx as int].dvr());
            assert(obs_views(old(out)@) + sp_obs_ds30u_all(vs.subrange(0, idx + 1))
                =~= (obs_views(old(out)@) + sp_obs_ds30u_all(vs.subrange(0, idx as int)))
                + sp_obs_ds30u(rs@[idx as int].dvr()));
        }
        idx = idx + 1;
    }
    proof {
        assert(vs.subrange(0, n as int) =~= vs);
    }
}

/// The observations of a whole channel-info page: downstream then upstream,
/// the newer generation first within each direction.
pub open spec fn sp_map_channel_data(c: ChannelDataV) -> Seq<ObsV> {
    sp_obs_ds31d_all(c.downstream31) + sp_obs_ds30d_all(c.downstream30) + sp_obs_ds31u_all(
        c.upstream31,
    ) + sp_obs_ds30u_all(c.upstream30)
}

/// Flattens a decoded channel-info page into gauge observations.
pub fn map_channel_data(d: &DocsisChannelData) -> (r: Vec<Observation>)
    ensures
        obs_views(r@) == sp_map_channel_data(d.dvr()),
{
    let mut out: Vec<Observation> = Vec::new();
    proof {
        assert(obs_views(out@) =~= Seq::<ObsV>::empty());
    }
    obs_ds31d_all(&d.downstream31, &mut out);
    obs_ds30d_all(&d.downstream30, &mut out);
    obs_ds31u_all(&d.upstream31, &mut out);
    obs_ds30u_all(&d.upstream30, &mut out);
    proof {
        assert(Seq::<ObsV>::empty() + sp_obs_ds31d_all(d.dvr().downstream31) =~= sp_obs_ds31d_all(
            d.dvr().downstream31,
        ));
    }
    out
}

/// The observations of a connection overview: the two direction totals,
/// each the sum of its generation sub-counts, with no labels.
pub open spec fn sp_map_connection(c: ConnV) -> Seq<ObsV> {
    seq![
        ObsV {
            metric: "connection_downstream_count"@,
            value: Number { neg: false, mant: (c.ds_count + c.ds_count_second) as u64, exp: 0 },
            labels: Seq::empty(),
        },
        ObsV {
            metric: "connection_upstream_count"@,
            value: Number { neg: false, mant: (c.us_count + c.us_count_second) as u64, exp: 0 },
            labels: Seq::empty(),
        },
    ]
}

/// Flattens a decoded connection overview into its two count gauges.
pub fn map_connection_summary(d: &DocsisConnectionData) -> (r: Vec<Observation>)
    ensures
        obs_views(r@) == sp_map_connection(d.dvr()),
{
    let o1 = Observation {
        metric: String::from_str("connection_downstream_count"),
        value: Number {
            neg: false,
            mant: d.ds_count as u64 + d.ds_count_second as u64,
            exp: 0,
        },
        labels: Vec::new(),
    };
    let o2 = Observation {
        metric: String::from_str("connection_upstream_count"),
        value: Number {
            neg: false,
            mant: d.us_count as u64 + d.us_count_second as u64,
            exp: 0,
        },
        labels: Vec::new(),
    };
    proof {
        assert(o1.dvo() =~= sp_map_connection(d.dvr())[0]);
        assert(o2.dvo() =~= sp_map_connection(d.dvr())[1]);
    }
    let mut out: Vec<Observation> = Vec::new();
    out.push(o1);
    out.push(o2);
    proof {
        assert(obs_views(out@) =~= sp_map_connection(d.dvr()));
    }
    out
}

/// What fetching and mapping one page concludes: the overview page yields
/// the two count gauges, the channel-info page the per-channel gauges, the
/// statistics page decodes but yields nothing yet, and an unknown page name
/// is refused as a decode error.
pub open spec fn sp_fetch_and_map(page: Seq<char>, status: u16, body: Seq<char>) -> Result<
    Seq<ObsV>,
    FetchError,
> {
    if page == "docOv"@ {
        match sp_decode_overview(status, body) {
            Ok(c) => Ok(sp_map_connection(c)),
            Err(e) => Err(e),
        }
    } else if page == "docInfo"@ {
        match sp_decode_channel_data(status, body) {
            Ok(c) => Ok(sp_map_channel_data(c)),
            Err(e) => Err(e),
        }
    } else if page == "docStat"@ {
        match sp_decode_statistics(status, body) {
            Ok(c) => Ok(Seq::empty()),
            Err(e) => Err(e),
        }
    } else {
        Err(FetchError::Decode)
    }
}

/// Decodes one fetched page and maps it to gauge observations.
pub fn fetch_and_map(page: &str, status: u16, body: &str) -> (r: Result<
    Vec<Observation>,
    FetchError,
>)
    ensures
        match r {
            Ok(obs) => sp_fetch_and_map(page@, status, body@) == Ok::<Seq<ObsV>, FetchError>(
                obs_views(obs@),
            ),
            Err(e) => sp_fetch_and_map(page@, status, body@) == Err::<Seq<ObsV>, FetchError>(e),
        },
{
    if str_eq(page, "docOv") {
        match decode_overview(status, body) {
            Ok(c) => Ok(map_connection_summary(&c)),
            Err(e) => Err(e),
        }
    } else if str_eq(page, "docInfo") {
        match decode_channel_data(status, body) {
            Ok(c) => Ok(map_channel_data(&c)),
            Err(e) => Err(e),
        }
    } else if str_eq(page, "docStat") {
        match decode_statistics(status, body) {
            Ok(_) => {
                let v: Vec<Observation> = Vec::new();
                proof {
                    assert(obs_views(v@) =~= Seq::<ObsV>::empty());
                }
                Ok(v)
            },
            Err(e) => Err(e),
        }
    } else {
        Err(FetchError::Decode)
    }
}

/// The form fields of a telemetry request: an XHR-style post carrying the
/// session id and the requested page name.
pub fn fetch_request_form(session: &FritzboxSession, page: &str) -> (r: Vec<(String, String)>)
    ensures
        r@.len() == 4,
        r@[0].0@ == "xhr"@ && r@[0].1@ == "1"@,
        r@[1].0@ == "sid"@ && r@[1].1@ == session.sid@,
        r@[2].0@ == "page"@ && r@[2].1@ == page@,
        r@[3].0@ == "xhrId"@ && r@[3].1@ == "all"@,
{
    let mut v: Vec<(String, String)> = Vec::new();
    v.push((String::from_str("xhr"), String::from_str("1")));
    v.push((String::from_str("sid"), session.sid.clone()));
    v.push((String::from_str("page"), String::from_str(page)));
    v.push((String::from_str("xhrId"), String::from_str("all")));
    v
}

/// Law: the connection summary maps to exactly two label-free gauges whose
/// values are the plain sums of the generation sub-counts per direction —
/// also when both sub-counts are zero.
pub proof fn lemma_connection_counts(c: ConnV)
    ensures
        sp_map_connection(c).len() == 2,
        sp_map_connection(c)[0].value.mant == c.ds_count + c.ds_count_second,
        sp_map_connection(c)[1].value.mant == c.us_count + c.us_count_second,
        sp_map_connection(c)[0].labels.len() == 0,
        sp_map_connection(c)[1].labels.len() == 0,
        sp_map_connection(c)[0].value.exp == 0 && !sp_map_connection(c)[0].value.neg,
        sp_map_connection(c)[1].value.exp == 0 && !sp_map_connection(c)[1].value.neg,
{
}

/// Law: each downstream generation yields exactly the gauges its field set
/// defines. The newer generation emits its non-correctable error count,
/// power level and MER, and never a correctable-errors or MSE gauge; the
/// older generation emits its non-correctable and correctable error counts,
/// power level and MSE, and never a MER gauge. Every gauge carries the
/// generation's protocol tag and the channel id; the power-level gauge
/// alone carries the modulation as well. A MER beyond `u32` range maps to
/// zero instead of aborting.
pub proof fn lemma_generation_field_sets(a: Ds31DownV, b: Ds30DownV)
    ensures
        sp_obs_ds31d(a).len() == 3,
        sp_obs_ds31d(a)[0].metric == "docsis_channel_non_correctable_errors"@,
        sp_obs_ds31d(a)[1].metric == "docsis_channel_power_level"@,
        sp_obs_ds31d(a)[2].metric == "docsis_channel_mer"@,
        forall|k: int|
            0 <= k < 3 ==> sp_obs_ds31d(a)[k].metric != "docsis_channel_correctable_errors"@,
        forall|k: int| 0 <= k < 3 ==> sp_obs_ds31d(a)[k].metric != "docsis_channel_mse"@,
        forall|k: int|
            0 <= k < 3 ==> sp_obs_ds31d(a)[k].labels[0] == ("protocol"@, "docsis31"@),
        forall|k: int|
            0 <= k < 3 ==> sp_obs_ds31d(a)[k].labels[1] == (
                "channel"@,
                dec_str(a.channel_id as int),
            ),
        sp_obs_ds31d(a)[0].labels.len() == 2,
        sp_obs_ds31d(a)[1].labels.len() == 3,
        sp_obs_ds31d(a)[2].labels.len() == 2,
        sp_obs_ds31d(a)[1].labels[2] == ("modulation"@, a.modulation),
        a.mer <= u32::MAX ==> sp_obs_ds31d(a)[2].value.mant == a.mer,
        a.mer > u32::MAX ==> sp_obs_ds31d(a)[2].value.mant == 0,
        sp_obs_ds30d(b).len() == 4,
        sp_obs_ds30d(b)[0].metric == "docsis_channel_non_correctable_errors"@,
        sp_obs_ds30d(b)[1].metric == "docsis_channel_correctable_errors"@,
        sp_obs_ds30d(b)[2].metric == "docsis_channel_power_level"@,
        sp_obs_ds30d(b)[3].metric == "docsis_channel_mse"@,
        forall|k: int| 0 <= k < 4 ==> sp_obs_ds30d(b)[k].metric != "docsis_channel_mer"@,
        forall|k: int|
            0 <= k < 4 ==> sp_obs_ds30d(b)[k].labels[0] == ("protocol"@, "docsis30"@),
        forall|k: int|
            0 <= k < 4 ==> sp_obs_ds30d(b)[k].labels[1] == (
                "channel"@,
                dec_str(b.channel_id as int),
            ),
        sp_obs_ds30d(b)[2].labels[2] == ("modulation"@, b.modulation),
{
    reveal_strlit("docsis_channel_non_correctable_errors");
    reveal_strlit("docsis_channel_correctable_errors");
    reveal_strlit("docsis_channel_power_level");
    reveal_strlit("docsis_channel_mer");
    reveal_strlit("docsis_channel_mse");
    assert("docsis_channel_mer"@ != "docsis_channel_mse"@) by {
        assert("docsis_channel_mer"@[16] == 'e');
        assert("docsis_channel_mse"@[16] == 's');
    }
    assert("docsis_channel_non_correctable_errors"@.len() == 37);
    assert("docsis_channel_correctable_errors"@.len() == 33);
    assert("docsis_channel_power_level"@.len() == 26);
    assert("docsis_channel_mer"@.len() == 18);
    assert("docsis_channel_mse"@.len() == 18);
}

} // verus!
