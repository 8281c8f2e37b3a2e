use virgin_media_exporter::column::Tenths;
use virgin_media_exporter::configuration_metrics::{
    QOSParamSet, QOSSchedulingType, QOSServiceFlow, QOSServiceFlowDirection,
};
use virgin_media_exporter::downstream_metrics::{
    DownstreamChannel, DownstreamModulation, SignalQuality, SignalQualityExt,
};
use virgin_media_exporter::error::ScrapeError;
use virgin_media_exporter::snmp::{FromRow, TableEntry, OID};
use virgin_media_exporter::upstream_metrics::{
    CmStatusUs, UpstreamChannel, UpstreamChannelExtended, UpstreamChannelModulation,
    UpstreamChannelType,
};

fn row(pairs: &[(&str, &str)]) -> TableEntry {
    TableEntry::new(
        pairs
            .iter()
            .map(|(k, v)| (OID::new(k), v.to_string()))
            .collect(),
    )
}

const DOWN: [(&str, &str); 4] = [
    ("1.3.6.1.2.1.10.127.1.1.1.1.1", "3"),
    ("1.3.6.1.2.1.10.127.1.1.1.1.2", "331000000"),
    ("1.3.6.1.2.1.10.127.1.1.1.1.4", "4"),
    ("1.3.6.1.2.1.10.127.1.1.1.1.6", "205"),
];

#[test]
fn downstream_channel_converts_with_tenths() {
    let c = DownstreamChannel::from_row(&row(&DOWN)).unwrap();
    assert_eq!(c.down_channel_id, 3);
    assert_eq!(c.down_channel_frequency, 331000000);
    assert_eq!(c.down_channel_modulation, DownstreamModulation::QAM256);
    assert_eq!(c.down_channel_modulation.code(), 4);
    assert_eq!(c.down_channel_power, Tenths { tenths: 205 });
    assert_eq!(c.down_channel_power.tenths as f64 / 10.0, 20.5);
}

#[test]
fn downstream_channel_negative_power() {
    let mut pairs = DOWN;
    pairs[3].1 = "-35";
    let c = DownstreamChannel::from_row(&row(&pairs)).unwrap();
    assert_eq!(c.down_channel_power.tenths, -35);
}

#[test]
fn downstream_channel_missing_each_column() {
    for skip in 0..4 {
        let pairs: Vec<(&str, &str)> = DOWN
            .iter()
            .enumerate()
            .filter(|(i, _)| *i != skip)
            .map(|(_, p)| *p)
            .collect();
        match DownstreamChannel::from_row(&row(&pairs)) {
            Err(ScrapeError::ColumnNotFound { column }) => assert_eq!(column, DOWN[skip].0),
            other => panic!("unexpected: {:?}", other),
        }
    }
}

#[test]
fn downstream_channel_unknown_modulation() {
    let mut pairs = DOWN;
    pairs[2].1 = "9";
    match DownstreamChannel::from_row(&row(&pairs)) {
        Err(ScrapeError::UnknownEnumCode { column, value }) => {
            assert_eq!(column, "1.3.6.1.2.1.10.127.1.1.1.1.4");
            assert_eq!(value, "9");
        }
        other => panic!("unexpected: {:?}", other),
    }
}

#[test]
fn downstream_channel_bad_number() {
    let mut pairs = DOWN;
    pairs[1].1 = "12a";
    assert!(matches!(
        DownstreamChannel::from_row(&row(&pairs)),
        Err(ScrapeError::InvalidNumber { .. })
    ));
}

#[test]
fn signal_quality_rows_convert() {
    let ext = SignalQualityExt::from_row(&row(&[("1.3.6.1.4.1.4491.2.1.20.1.24.1.1", "386")])).unwrap();
    assert_eq!(ext.rx_mer, Tenths { tenths: 386 });
    let q = SignalQuality::from_row(&row(&[
        ("1.3.6.1.2.1.10.127.1.1.4.1.3", "12"),
        ("1.3.6.1.2.1.10.127.1.1.4.1.4", "5"),
        ("1.3.6.1.2.1.10.127.1.1.4.1.5", "389"),
    ]))
    .unwrap();
    assert_eq!(q.correcteds, 12);
    assert_eq!(q.uncorrectables, 5);
    assert_eq!(q.signal_noise, 38);
}

#[test]
fn upstream_rows_convert() {
    let c = UpstreamChannel::from_row(&row(&[
        ("1.3.6.1.2.1.10.127.1.1.2.1.1", "2"),
        ("1.3.6.1.2.1.10.127.1.1.2.1.2", "49600000"),
        ("1.3.6.1.2.1.10.127.1.1.2.1.15", "2"),
    ]))
    .unwrap();
    assert_eq!(c.up_channel_id, 2);
    assert_eq!(c.up_channel_frequency, 49600000);
    assert_eq!(c.up_channel_type, UpstreamChannelType::ATDMA);
    assert_eq!(c.up_channel_type.code(), 2);
    let e = UpstreamChannelExtended::from_row(&row(&[
        ("1.3.6.1.4.1.4115.1.3.4.1.9.2.1.2", "5120"),
        ("1.3.6.1.4.1.4115.1.3.4.1.9.2.1.3", "7"),
    ]))
    .unwrap();
    assert_eq!(e.symbol_rate, 5120);
    assert_eq!(e.modulation, UpstreamChannelModulation::QAM256);
    assert_eq!(e.modulation.code(), 7);
    let s = CmStatusUs::from_row(&row(&[
        ("1.3.6.1.4.1.4491.2.1.20.1.2.1.1", "445"),
        ("1.3.6.1.4.1.4491.2.1.20.1.2.1.2", "1"),
        ("1.3.6.1.4.1.4491.2.1.20.1.2.1.3", "0"),
    ]))
    .unwrap();
    assert_eq!(s.tx_power.tenths, 445);
    assert_eq!(s.t3_timeouts, 1);
    assert_eq!(s.t4_timeouts, 0);
}

#[test]
fn upstream_unknown_channel_type() {
    let r = UpstreamChannel::from_row(&row(&[
        ("1.3.6.1.2.1.10.127.1.1.2.1.1", "2"),
        ("1.3.6.1.2.1.10.127.1.1.2.1.2", "49600000"),
        ("1.3.6.1.2.1.10.127.1.1.2.1.15", "9"),
    ]));
    assert!(matches!(r, Err(ScrapeError::UnknownEnumCode { .. })));
}

#[test]
fn service_flow_and_param_set_convert() {
    let f = QOSServiceFlow::from_row(&row(&[
        ("1.3.6.1.4.1.4491.2.1.21.1.3.1.7", "2"),
        ("1.3.6.1.4.1.4491.2.1.21.1.3.1.8", "1"),
    ]))
    .unwrap();
    assert_eq!(f.direction, QOSServiceFlowDirection::Upstream);
    assert!(f.primary);
    let g = QOSServiceFlow::from_row(&row(&[
        ("1.3.6.1.4.1.4491.2.1.21.1.3.1.7", "1"),
        ("1.3.6.1.4.1.4491.2.1.21.1.3.1.8", "2"),
    ]))
    .unwrap();
    assert_eq!(g.direction, QOSServiceFlowDirection::Downstream);
    assert!(!g.primary);
    let p = QOSParamSet::from_row(&row(&[
        ("1.3.6.1.4.1.4491.2.1.21.1.2.1.6", "230000000"),
        ("1.3.6.1.4.1.4491.2.1.21.1.2.1.7", "42600"),
        ("1.3.6.1.4.1.4491.2.1.21.1.2.1.8", "0"),
        ("1.3.6.1.4.1.4491.2.1.21.1.2.1.12", "0"),
        ("1.3.6.1.4.1.4491.2.1.21.1.2.1.13", "2"),
    ]))
    .unwrap();
    assert_eq!(p.max_traffic_rate, 230000000);
    assert_eq!(p.max_traffic_burst, 42600);
    assert_eq!(p.scheduling_type, QOSSchedulingType::BestEffort);
    assert_eq!(p.scheduling_type.code(), 2);
}

#[test]
fn service_flow_unknown_direction() {
    let r = QOSServiceFlow::from_row(&row(&[
        ("1.3.6.1.4.1.4491.2.1.21.1.3.1.7", "3"),
        ("1.3.6.1.4.1.4491.2.1.21.1.3.1.8", "1"),
    ]));
    match r {
        Err(ScrapeError::UnknownEnumCode { value, .. }) => assert_eq!(value, "3"),
        other => panic!("unexpected: {:?}", other),
    }
}
