use virgin_media_exporter::collector::Collector;
use virgin_media_exporter::configuration_metrics::{
    select_primary_flow, ConfigurationMetrics, QOSParamSet, QOSSchedulingType, QOSServiceFlow,
    QOSServiceFlowDirection,
};
use virgin_media_exporter::downstream_metrics::{DownstreamMetrics, DownstreamModulation};
use virgin_media_exporter::error::ScrapeError;
use virgin_media_exporter::snmp::{List, Table, OID};
use virgin_media_exporter::status_metrics::StatusMetrics;
use virgin_media_exporter::upstream_metrics::{UpstreamChannelType, UpstreamMetrics};

const DOWN_TABLE: &str = "1.3.6.1.2.1.10.127.1.1.1";
const EXT_TABLE: &str = "1.3.6.1.4.1.4491.2.1.20.1.24";
const QUALITY_TABLE: &str = "1.3.6.1.2.1.10.127.1.1.4";
const UP_TABLE: &str = "1.3.6.1.2.1.10.127.1.1.2";
const UP_EXT_TABLE: &str = "1.3.6.1.4.1.4115.1.3.4.1.9.2";
const UP_STATUS_TABLE: &str = "1.3.6.1.4.1.4491.2.1.20.1.2";
const FLOW_TABLE: &str = "1.3.6.1.4.1.4491.2.1.21.1.3";
const PARAM_TABLE: &str = "1.3.6.1.4.1.4491.2.1.21.1.2";

fn cell(pairs: &mut Vec<(String, String)>, table: &str, column: u32, index: &str, value: &str) {
    pairs.push((format!("{}.1.{}.{}", table, column, index), value.to_string()));
}

fn downstream_row(pairs: &mut Vec<(String, String)>, index: &str, id: &str, power: &str) {
    cell(pairs, DOWN_TABLE, 1, index, id);
    cell(pairs, DOWN_TABLE, 2, index, "331000000");
    cell(pairs, DOWN_TABLE, 4, index, "4");
    cell(pairs, DOWN_TABLE, 6, index, power);
    cell(pairs, EXT_TABLE, 1, index, "386");
    cell(pairs, QUALITY_TABLE, 3, index, "12");
    cell(pairs, QUALITY_TABLE, 4, index, "5");
    cell(pairs, QUALITY_TABLE, 5, index, "389");
}

fn upstream_row(pairs: &mut Vec<(String, String)>, index: &str, id: &str) {
    cell(pairs, UP_TABLE, 1, index, id);
    cell(pairs, UP_TABLE, 2, index, "49600000");
    cell(pairs, UP_TABLE, 15, index, "2");
    cell(pairs, UP_EXT_TABLE, 2, index, "5120");
    cell(pairs, UP_EXT_TABLE, 3, index, "3");
    cell(pairs, UP_STATUS_TABLE, 1, index, "445");
    cell(pairs, UP_STATUS_TABLE, 2, index, "1");
    cell(pairs, UP_STATUS_TABLE, 3, index, "0");
}

fn flow_row(pairs: &mut Vec<(String, String)>, index: &str, direction: &str, primary: &str, rate: &str) {
    cell(pairs, FLOW_TABLE, 7, index, direction);
    cell(pairs, FLOW_TABLE, 8, index, primary);
    cell(pairs, PARAM_TABLE, 6, index, rate);
    cell(pairs, PARAM_TABLE, 7, index, "42600");
    cell(pairs, PARAM_TABLE, 8, index, "0");
    cell(pairs, PARAM_TABLE, 12, index, "1522");
    cell(pairs, PARAM_TABLE, 13, index, "2");
}

fn to_list(pairs: &[(String, String)]) -> List {
    List::new(
        pairs
            .iter()
            .map(|(k, v)| (OID::new(k), v.clone()))
            .collect(),
    )
}

fn complete_snapshot() -> Vec<(String, String)> {
    let mut p = Vec::new();
    p.push(("1.3.6.1.2.1.10.127.1.1.5.0".to_string(), "3".to_string()));
    p.push(("1.3.6.1.4.1.4115.1.3.4.1.5.9.0".to_string(), "12".to_string()));
    downstream_row(&mut p, "3", "3", "205");
    upstream_row(&mut p, "2", "2");
    flow_row(&mut p, "2.1001", "1", "1", "230000000");
    flow_row(&mut p, "2.1002", "2", "1", "20000000");
    flow_row(&mut p, "2.1003", "1", "2", "1");
    p
}

#[test]
fn end_to_end_success() {
    let mut c = Collector::new();
    assert!(c.collect(Some(to_list(&complete_snapshot()))).is_ok());
    assert_eq!(c.up, 1);
    assert_eq!(c.configuration_metrics.docsis_mode, 3);
    assert_eq!(c.status_metrics.provisioning_state, 12);
    assert_eq!(c.status_metrics.acquired_down_channel_frequency, None);
    assert_eq!(c.status_metrics.ranged_up_channel_frequency, None);

    let down = c.downstream_metrics.channels.iter().find(|ch| ch.index == "3").unwrap();
    assert_eq!(down.channel.down_channel_id, 3);
    assert_eq!(down.channel.down_channel_modulation, DownstreamModulation::QAM256);
    assert_eq!(down.channel.down_channel_power.tenths, 205);
    assert_eq!(down.signal_quality_ext.rx_mer.tenths, 386);
    assert_eq!(down.signal_quality.signal_noise, 38);
    assert_eq!(c.downstream_metrics.channels.len(), 1);

    let up = c.upstream_metrics.channels.iter().find(|ch| ch.index == "2").unwrap();
    assert_eq!(up.channel.up_channel_id, 2);
    assert_eq!(up.channel.up_channel_type, UpstreamChannelType::ATDMA);
    assert_eq!(up.extended.symbol_rate, 5120);
    assert_eq!(up.status.tx_power.tenths, 445);
    assert_eq!(c.upstream_metrics.channels.len(), 1);

    assert_eq!(c.configuration_metrics.primary_downstream.sfid, 1001);
    assert_eq!(c.configuration_metrics.primary_downstream.param_set.max_traffic_rate, 230000000);
    assert_eq!(c.configuration_metrics.primary_upstream.sfid, 1002);
    assert_eq!(c.configuration_metrics.primary_upstream.param_set.max_traffic_rate, 20000000);
    assert_eq!(
        c.configuration_metrics.primary_upstream.param_set.scheduling_type,
        QOSSchedulingType::BestEffort
    );
}

#[test]
fn end_to_end_fetch_failure() {
    let mut c = Collector::new();
    assert!(c.collect(Some(to_list(&complete_snapshot()))).is_ok());
    let before = c.clone();
    assert_eq!(c.collect(None), Err(ScrapeError::FetchFailed));
    assert_eq!(c.up, 0);
    assert_eq!(c.status_metrics, before.status_metrics);
    assert_eq!(c.configuration_metrics, before.configuration_metrics);
    assert_eq!(c.downstream_metrics.channels.len(), 1);
}

#[test]
fn failing_group_discards_whole_cycle() {
    let mut c = Collector::new();
    let mut p = complete_snapshot();
    p.retain(|(k, _)| !k.starts_with(FLOW_TABLE));
    assert!(matches!(
        c.collect(Some(to_list(&p))),
        Err(ScrapeError::PrimaryFlowNotFound { direction: QOSServiceFlowDirection::Downstream })
    ));
    assert_eq!(c.up, 0);
    assert_eq!(c.status_metrics, StatusMetrics::new());
    assert_eq!(c.downstream_metrics.channels.len(), 0);
    assert_eq!(c.upstream_metrics.channels.len(), 0);
    assert_eq!(c.configuration_metrics, ConfigurationMetrics::new());
}

#[test]
fn join_fails_on_missing_secondary_row() {
    let mut p = Vec::new();
    downstream_row(&mut p, "3", "3", "205");
    p.retain(|(k, _)| !k.starts_with(EXT_TABLE));
    let mut m = DownstreamMetrics::new();
    match m.set(&to_list(&p)) {
        Err(ScrapeError::RowJoinMismatch { index }) => assert_eq!(index, "3"),
        other => panic!("unexpected: {:?}", other),
    }
    assert_eq!(m.channels.len(), 0);
}

#[test]
fn join_succeeds_and_merges_rows() {
    let mut p = Vec::new();
    upstream_row(&mut p, "2", "2");
    upstream_row(&mut p, "4", "4");
    let mut m = UpstreamMetrics::new();
    assert!(m.set(&to_list(&p)).is_ok());
    assert_eq!(m.channels.len(), 2);
    let ch = m.channels.iter().find(|ch| ch.index == "4").unwrap();
    assert_eq!(ch.channel.up_channel_id, 4);
    assert_eq!(ch.extended.symbol_rate, 5120);
    assert_eq!(ch.status.t3_timeouts, 1);
}

#[test]
fn status_without_first_channel_rows() {
    let mut p = Vec::new();
    p.push(("1.3.6.1.4.1.4115.1.3.4.1.5.9.0".to_string(), "12".to_string()));
    downstream_row(&mut p, "3", "3", "205");
    upstream_row(&mut p, "2", "2");
    let mut s = StatusMetrics::new();
    assert!(s.set(&to_list(&p)).is_ok());
    assert_eq!(s.provisioning_state, 12);
    assert_eq!(s.acquired_down_channel_frequency, None);
    assert_eq!(s.ranged_up_channel_frequency, None);
}

#[test]
fn status_reads_first_channel_rows() {
    let mut p = Vec::new();
    p.push(("1.3.6.1.4.1.4115.1.3.4.1.5.9.0".to_string(), "6".to_string()));
    downstream_row(&mut p, "1", "1", "50");
    upstream_row(&mut p, "1", "1");
    let mut s = StatusMetrics::new();
    assert!(s.set(&to_list(&p)).is_ok());
    assert_eq!(s.provisioning_state, 6);
    assert_eq!(s.acquired_down_channel_frequency, Some(331000000));
    assert_eq!(s.ranged_up_channel_frequency, Some(49600000));
}

#[test]
fn status_first_row_without_frequency() {
    let mut p = Vec::new();
    p.push(("1.3.6.1.4.1.4115.1.3.4.1.5.9.0".to_string(), "6".to_string()));
    cell(&mut p, DOWN_TABLE, 1, "1", "1");
    let mut s = StatusMetrics::new();
    match s.set(&to_list(&p)) {
        Err(ScrapeError::ColumnNotFound { column }) => {
            assert_eq!(column, "1.3.6.1.2.1.10.127.1.1.1.1.2")
        }
        other => panic!("unexpected: {:?}", other),
    }
    assert_eq!(s, StatusMetrics::new());
}

fn flow_tables(p: &[(String, String)]) -> (Table<QOSServiceFlow>, Table<QOSParamSet>) {
    let l = to_list(p);
    (
        l.parse_table(&OID::new(FLOW_TABLE)).unwrap(),
        l.parse_table(&OID::new(PARAM_TABLE)).unwrap(),
    )
}

#[test]
fn primary_flow_selection_unique() {
    let mut p = Vec::new();
    flow_row(&mut p, "2.7", "1", "1", "100");
    flow_row(&mut p, "2.8", "1", "2", "200");
    flow_row(&mut p, "2.9", "2", "1", "300");
    let (flows, params) = flow_tables(&p);
    let f = select_primary_flow(&flows, &params, QOSServiceFlowDirection::Downstream).unwrap();
    assert_eq!(f.sfid, 7);
    assert_eq!(f.param_set.max_traffic_rate, 100);
    let g = select_primary_flow(&flows, &params, QOSServiceFlowDirection::Upstream).unwrap();
    assert_eq!(g.sfid, 9);
    assert_eq!(g.param_set.max_traffic_rate, 300);
}

#[test]
fn primary_flow_selection_none() {
    let mut p = Vec::new();
    flow_row(&mut p, "2.7", "1", "2", "100");
    let (flows, params) = flow_tables(&p);
    assert_eq!(
        select_primary_flow(&flows, &params, QOSServiceFlowDirection::Downstream),
        Err(ScrapeError::PrimaryFlowNotFound { direction: QOSServiceFlowDirection::Downstream })
    );
}

#[test]
fn primary_flow_selection_ambiguous() {
    let mut p = Vec::new();
    flow_row(&mut p, "2.7", "1", "1", "100");
    flow_row(&mut p, "2.8", "1", "1", "200");
    let (flows, params) = flow_tables(&p);
    assert_eq!(
        select_primary_flow(&flows, &params, QOSServiceFlowDirection::Downstream),
        Err(ScrapeError::AmbiguousPrimaryFlow { direction: QOSServiceFlowDirection::Downstream })
    );
}

#[test]
fn primary_flow_without_param_set() {
    let mut p = Vec::new();
    flow_row(&mut p, "2.7", "1", "1", "100");
    p.retain(|(k, _)| !k.starts_with(PARAM_TABLE));
    flow_row(&mut p, "2.8", "2", "2", "100");
    let (flows, params) = flow_tables(&p);
    assert_eq!(
        select_primary_flow(&flows, &params, QOSServiceFlowDirection::Downstream),
        Err(ScrapeError::ParamSetNotFound { index: "2.7".to_string() })
    );
}

#[test]
fn primary_flow_with_non_numeric_id() {
    let mut p = Vec::new();
    flow_row(&mut p, "2.x", "1", "1", "100");
    let (flows, params) = flow_tables(&p);
    assert_eq!(
        select_primary_flow(&flows, &params, QOSServiceFlowDirection::Downstream),
        Err(ScrapeError::InvalidFlowId { index: "2.x".to_string() })
    );
}

#[test]
fn primary_flow_id_is_last_component() {
    let mut p = Vec::new();
    flow_row(&mut p, "2.1.55", "2", "1", "100");
    let (flows, params) = flow_tables(&p);
    let f = select_primary_flow(&flows, &params, QOSServiceFlowDirection::Upstream).unwrap();
    assert_eq!(f.sfid, 55);
}
