//! Downstream group: each downstream channel joined with its signal quality.
use crate::column::{is_code, FromColumn, Tenths, ValueError};
use crate::error::{ErrorView, ScrapeError};
use crate::snmp::{
    has_row, parsed_table_error, rows_convert, spec_column, spec_parsed_table, table_ok, FromRow, List, Table,
    TableEntry, OID,
};
use vstd::prelude::*;

verus! {

/// docsIfDownstreamChannelTable
pub const DOCS_IF_DOWNSTREAM_CHANNEL_TABLE: &'static str = "1.3.6.1.2.1.10.127.1.1.1";

/// docsIfDownChannelId
pub const DOCS_IF_DOWN_CHANNEL_ID: &'static str = "1.3.6.1.2.1.10.127.1.1.1.1.1";

/// docsIfDownChannelFrequency
pub const DOCS_IF_DOWN_CHANNEL_FREQUENCY: &'static str = "1.3.6.1.2.1.10.127.1.1.1.1.2";

/// docsIfDownChannelModulation
pub const DOCS_IF_DOWN_CHANNEL_MODULATION: &'static str = "1.3.6.1.2.1.10.127.1.1.1.1.4";

/// docsIfDownChannelPower
pub const DOCS_IF_DOWN_CHANNEL_POWER: &'static str = "1.3.6.1.2.1.10.127.1.1.1.1.6";

/// docsIf3SignalQualityExtTable
pub const DOCS_IF3_SIGNAL_QUALITY_EXT_TABLE: &'static str = "1.3.6.1.4.1.4491.2.1.20.1.24";

/// docsIf3SignalQualityExtRxMER
pub const DOCS_IF3_SIGNAL_QUALITY_EXT_RX_MER: &'static str = "1.3.6.1.4.1.4491.2.1.20.1.24.1.1";

/// docsIfSignalQualityTable
pub const DOCS_IF_SIGNAL_QUALITY_TABLE: &'static str = "1.3.6.1.2.1.10.127.1.1.4";

/// docsIfSigQCorrecteds
pub const DOCS_IF_SIG_QCORRECTEDS: &'static str = "1.3.6.1.2.1.10.127.1.1.4.1.3";

/// docsIfSigQUncorrectables
pub const DOCS_IF_SIG_QUNCORRECTABLES: &'static str = "1.3.6.1.2.1.10.127.1.1.4.1.4";

/// docsIfSigQSignalNoise
pub const DOCS_IF_SIG_QSIGNAL_NOISE: &'static str = "1.3.6.1.2.1.10.127.1.1.4.1.5";

/// Modulation of a downstream channel; codes 1 to 4.
#[derive(Clone, Copy, Debug, PartialEq, Eq, Structural)]
pub enum DownstreamModulation {
    Unknown,
    Other,
    QAM64,
    QAM256,
}

impl DownstreamModulation {
    pub open spec fn spec_code(self) -> u64 {
        match self {
            DownstreamModulation::Unknown => 1,
            DownstreamModulation::Other => 2,
            DownstreamModulation::QAM64 => 3,
            DownstreamModulation::QAM256 => 4,
        }
    }

    /// The numeric code of the modulation.
    pub fn code(&self) -> (r: u64)
        ensures
            r == self.spec_code(),
    {
        match self {
            DownstreamModulation::Unknown => 1,
            DownstreamModulation::Other => 2,
            DownstreamModulation::QAM64 => 3,
            DownstreamModulation::QAM256 => 4,
        }
    }
}

impl FromColumn for DownstreamModulation {
    open spec fn spec_from_column(s: Seq<char>) -> Result<DownstreamModulation, ValueError> {
        if s == seq!['1'] {
            Ok(DownstreamModulation::Unknown)
        } else if s == seq!['2'] {
            Ok(DownstreamModulation::Other)
        } else if s == seq!['3'] {
            Ok(DownstreamModulation::QAM64)
        } else if s == seq!['4'] {
            Ok(DownstreamModulation::QAM256)
        } else {
            Err(ValueError::UnknownCode)
        }
    }

    fn from_column(s: &str) -> (r: Result<DownstreamModulation, ValueError>) {
        if is_code(s, '1') {
            Ok(DownstreamModulation::Unknown)
        } else if is_code(s, '2') {
            Ok(DownstreamModulation::Other)
        } else if is_code(s, '3') {
            Ok(DownstreamModulation::QAM64)
        } else if is_code(s, '4') {
            Ok(DownstreamModulation::QAM256)
        } else {
            Err(ValueError::UnknownCode)
        }
    }
}

/// One row of the downstream channel table.
#[derive(Clone, Copy, Debug, PartialEq, Eq, Structural)]
pub struct DownstreamChannel {
    pub down_channel_id: u64,
    /// Hz.
    pub down_channel_frequency: u64,
    pub down_channel_modulation: DownstreamModulation,
    /// dBmV.
    pub down_channel_power: Tenths,
}

impl FromRow for DownstreamChannel {
    open spec fn spec_from_row(row: Map<Seq<char>, Seq<char>>) -> Result<DownstreamChannel, ErrorView> {
        match spec_column::<u64>(row, DOCS_IF_DOWN_CHANNEL_ID@) {
            Err(e) => Err(e),
            Ok(id) => match spec_column::<u64>(row, DOCS_IF_DOWN_CHANNEL_FREQUENCY@) {
                Err(e) => Err(e),
                Ok(frequency) => match spec_column::<DownstreamModulation>(
                    row,
                    DOCS_IF_DOWN_CHANNEL_MODULATION@,
                ) {
                    Err(e) => Err(e),
                    Ok(modulation) => match spec_column::<Tenths>(row, DOCS_IF_DOWN_CHANNEL_POWER@) {
                        Err(e) => Err(e),
                        Ok(power) => Ok(
                            DownstreamChannel {
                                down_channel_id: id,
                                down_channel_frequency: frequency,
                                down_channel_modulation: modulation,
                                down_channel_power: power,
                            },
                        ),
                    },
                },
            },
        }
    }

    fn from_row(entry: &TableEntry) -> (r: Result<DownstreamChannel, ScrapeError>) {
        let id = match entry.parse_column::<u64>(&OID::new(DOCS_IF_DOWN_CHANNEL_ID)) {
            Ok(v) => v,
            Err(e) => return Err(e),
        };
        let frequency = match entry.parse_column::<u64>(&OID::new(DOCS_IF_DOWN_CHANNEL_FREQUENCY)) {
            Ok(v) => v,
            Err(e) => return Err(e),
        };
        let modulation = match entry.parse_column::<DownstreamModulation>(
            &OID::new(DOCS_IF_DOWN_CHANNEL_MODULATION),
        ) {
            Ok(v) => v,
            Err(e) => return Err(e),
        };
        let power = match entry.parse_column::<Tenths>(&OID::new(DOCS_IF_DOWN_CHANNEL_POWER)) {
            Ok(v) => v,
            Err(e) => return Err(e),
        };
        Ok(
            DownstreamChannel {
                down_channel_id: id,
                down_channel_frequency: frequency,
                down_channel_modulation: modulation,
                down_channel_power: power,
            },
        )
    }
}

/// The four columns of a downstream channel row are distinct identifiers.
proof fn lemma_channel_columns_distinct()
    ensures
        DOCS_IF_DOWN_CHANNEL_ID@ != DOCS_IF_DOWN_CHANNEL_FREQUENCY@,
        DOCS_IF_DOWN_CHANNEL_ID@ != DOCS_IF_DOWN_CHANNEL_MODULATION@,
        DOCS_IF_DOWN_CHANNEL_ID@ != DOCS_IF_DOWN_CHANNEL_POWER@,
        DOCS_IF_DOWN_CHANNEL_FREQUENCY@ != DOCS_IF_DOWN_CHANNEL_MODULATION@,
        DOCS_IF_DOWN_CHANNEL_FREQUENCY@ != DOCS_IF_DOWN_CHANNEL_POWER@,
        DOCS_IF_DOWN_CHANNEL_MODULATION@ != DOCS_IF_DOWN_CHANNEL_POWER@,
{
    reveal_strlit("1.3.6.1.2.1.10.127.1.1.1.1.1");
    reveal_strlit("1.3.6.1.2.1.10.127.1.1.1.1.2");
    reveal_strlit("1.3.6.1.2.1.10.127.1.1.1.1.4");
    reveal_strlit("1.3.6.1.2.1.10.127.1.1.1.1.6");
    assert(DOCS_IF_DOWN_CHANNEL_ID@ == "1.3.6.1.2.1.10.127.1.1.1.1.1"@);
    assert(DOCS_IF_DOWN_CHANNEL_FREQUENCY@ == "1.3.6.1.2.1.10.127.1.1.1.1.2"@);
    assert(DOCS_IF_DOWN_CHANNEL_MODULATION@ == "1.3.6.1.2.1.10.127.1.1.1.1.4"@);
    assert(DOCS_IF_DOWN_CHANNEL_POWER@ == "1.3.6.1.2.1.10.127.1.1.1.1.6"@);
    assert(DOCS_IF_DOWN_CHANNEL_ID@[27] != DOCS_IF_DOWN_CHANNEL_FREQUENCY@[27]);
    assert(DOCS_IF_DOWN_CHANNEL_ID@[27] != DOCS_IF_DOWN_CHANNEL_MODULATION@[27]);
    assert(DOCS_IF_DOWN_CHANNEL_ID@[27] != DOCS_IF_DOWN_CHANNEL_POWER@[27]);
    assert(DOCS_IF_DOWN_CHANNEL_FREQUENCY@[27] != DOCS_IF_DOWN_CHANNEL_MODULATION@[27]);
    assert(DOCS_IF_DOWN_CHANNEL_FREQUENCY@[27] != DOCS_IF_DOWN_CHANNEL_POWER@[27]);
    assert(DOCS_IF_DOWN_CHANNEL_MODULATION@[27] != DOCS_IF_DOWN_CHANNEL_POWER@[27]);
}

/// Conversion is total on complete rows: a row whose four columns read as
/// numbers and a modulation code converts to exactly those values, with the
/// power in tenths of a dBmV as reported.
pub proof fn lemma_downstream_channel_total(row: Map<Seq<char>, Seq<char>>)
    requires
        spec_column::<u64>(row, DOCS_IF_DOWN_CHANNEL_ID@) is Ok,
        spec_column::<u64>(row, DOCS_IF_DOWN_CHANNEL_FREQUENCY@) is Ok,
        spec_column::<DownstreamModulation>(row, DOCS_IF_DOWN_CHANNEL_MODULATION@) is Ok,
        spec_column::<Tenths>(row, DOCS_IF_DOWN_CHANNEL_POWER@) is Ok,
    ensures
        DownstreamChannel::spec_from_row(row) == Ok::<DownstreamChannel, ErrorView>(
            DownstreamChannel {
                down_channel_id: spec_column::<u64>(row, DOCS_IF_DOWN_CHANNEL_ID@)->Ok_0,
                down_channel_frequency: spec_column::<u64>(row, DOCS_IF_DOWN_CHANNEL_FREQUENCY@)->Ok_0,
                down_channel_modulation: spec_column::<DownstreamModulation>(
                    row,
                    DOCS_IF_DOWN_CHANNEL_MODULATION@,
                )->Ok_0,
                down_channel_power: spec_column::<Tenths>(row, DOCS_IF_DOWN_CHANNEL_POWER@)->Ok_0,
            },
        ),
{
}

/// Conversion fails as a unit: taking any one of its four columns out of a
/// row that converts makes the conversion fail with that column not found,
/// and putting a code outside 1 to 4 in its modulation column makes it fail
/// with that code unknown.
pub proof fn lemma_downstream_channel_fails(row: Map<Seq<char>, Seq<char>>, col: Seq<char>, code: Seq<char>)
    requires
        DownstreamChannel::spec_from_row(row) is Ok,
        col == DOCS_IF_DOWN_CHANNEL_ID@ || col == DOCS_IF_DOWN_CHANNEL_FREQUENCY@ || col
            == DOCS_IF_DOWN_CHANNEL_MODULATION@ || col == DOCS_IF_DOWN_CHANNEL_POWER@,
        code != seq!['1'] && code != seq!['2'] && code != seq!['3'] && code != seq!['4'],
    ensures
        DownstreamChannel::spec_from_row(row.remove(col)) == Err::<DownstreamChannel, ErrorView>(
            ErrorView::ColumnNotFound { column: col },
        ),
        DownstreamChannel::spec_from_row(row.insert(DOCS_IF_DOWN_CHANNEL_MODULATION@, code)) == Err::<
            DownstreamChannel,
            ErrorView,
        >(ErrorView::UnknownEnumCode { column: DOCS_IF_DOWN_CHANNEL_MODULATION@, value: code }),
{
    lemma_channel_columns_distinct();
}

/// One row of the extended signal quality table.
#[derive(Clone, Copy, Debug, PartialEq, Eq, Structural)]
pub struct SignalQualityExt {
    /// dB.
    pub rx_mer: Tenths,
}

impl FromRow for SignalQualityExt {
    open spec fn spec_from_row(row: Map<Seq<char>, Seq<char>>) -> Result<SignalQualityExt, ErrorView> {
        match spec_column::<Tenths>(row, DOCS_IF3_SIGNAL_QUALITY_EXT_RX_MER@) {
            Err(e) => Err(e),
            Ok(rx_mer) => Ok(SignalQualityExt { rx_mer }),
        }
    }

    fn from_row(entry: &TableEntry) -> (r: Result<SignalQualityExt, ScrapeError>) {
        match entry.parse_column::<Tenths>(&OID::new(DOCS_IF3_SIGNAL_QUALITY_EXT_RX_MER)) {
            Ok(rx_mer) => Ok(SignalQualityExt { rx_mer }),
            Err(e) => Err(e),
        }
    }
}

/// One row of the signal quality table.
#[derive(Clone, Copy, Debug, PartialEq, Eq, Structural)]
pub struct SignalQuality {
    /// Codewords with errors that were corrected.
    pub correcteds: u64,
    /// Codewords with errors that could not be corrected.
    pub uncorrectables: u64,
    /// Whole dB: the reported tenths divided by 10, rounded down.
    pub signal_noise: u64,
}

impl FromRow for SignalQuality {
    open spec fn spec_from_row(row: Map<Seq<char>, Seq<char>>) -> Result<SignalQuality, ErrorView> {
        match spec_column::<u64>(row, DOCS_IF_SIG_QCORRECTEDS@) {
            Err(e) => Err(e),
            Ok(correcteds) => match spec_column::<u64>(row, DOCS_IF_SIG_QUNCORRECTABLES@) {
                Err(e) => Err(e),
                Ok(uncorrectables) => match spec_column::<u64>(row, DOCS_IF_SIG_QSIGNAL_NOISE@) {
                    Err(e) => Err(e),
                    Ok(noise) => Ok(
                        SignalQuality { correcteds, uncorrectables, signal_noise: noise / 10 },
                    ),
                },
            },
        }
    }

    fn from_row(entry: &TableEntry) -> (r: Result<SignalQuality, ScrapeError>) {
        let correcteds = match entry.parse_column::<u64>(&OID::new(DOCS_IF_SIG_QCORRECTEDS)) {
            Ok(v) => v,
            Err(e) => return Err(e),
        };
        let uncorrectables = match entry.parse_column::<u64>(&OID::new(DOCS_IF_SIG_QUNCORRECTABLES)) {
            Ok(v) => v,
            Err(e) => return Err(e),
        };
        let noise = match entry.parse_column::<u64>(&OID::new(DOCS_IF_SIG_QSIGNAL_NOISE)) {
            Ok(v) => v,
            Err(e) => return Err(e),
        };
        Ok(SignalQuality { correcteds, uncorrectables, signal_noise: noise / 10 })
    }
}

/// A downstream channel with the rows of the other tables at its index.
#[derive(Clone, Debug)]
pub struct DownstreamChannelMetrics {
    pub index: String,
    pub channel: DownstreamChannel,
    pub signal_quality_ext: SignalQualityExt,
    pub signal_quality: SignalQuality,
}

/// The downstream group's values from the last successful update.
#[derive(Clone, Debug)]
pub struct DownstreamMetrics {
    pub channels: Vec<DownstreamChannelMetrics>,
}

/// Whether the three downstream tables of `m` convert.
pub open spec fn downstream_tables_ok(m: Map<Seq<char>, Seq<char>>) -> bool {
    &&& table_ok(m, DOCS_IF_DOWNSTREAM_CHANNEL_TABLE@)
    &&& rows_convert::<DownstreamChannel>(m, DOCS_IF_DOWNSTREAM_CHANNEL_TABLE@)
    &&& table_ok(m, DOCS_IF3_SIGNAL_QUALITY_EXT_TABLE@)
    &&& rows_convert::<SignalQualityExt>(m, DOCS_IF3_SIGNAL_QUALITY_EXT_TABLE@)
    &&& table_ok(m, DOCS_IF_SIGNAL_QUALITY_TABLE@)
    &&& rows_convert::<SignalQuality>(m, DOCS_IF_SIGNAL_QUALITY_TABLE@)
}

/// Whether channel row `idx` is absent from one of the joined tables.
pub open spec fn downstream_join_gap(m: Map<Seq<char>, Seq<char>>, idx: Seq<char>) -> bool {
    has_row(m, DOCS_IF_DOWNSTREAM_CHANNEL_TABLE@, idx) && !(has_row(
        m,
        DOCS_IF3_SIGNAL_QUALITY_EXT_TABLE@,
        idx,
    ) && has_row(m, DOCS_IF_SIGNAL_QUALITY_TABLE@, idx))
}

/// Whether `e` is the error of the downstream group on `m`: that of the first
/// table that cannot be read, else a missing row of a joined table.
pub open spec fn downstream_error(m: Map<Seq<char>, Seq<char>>, e: ErrorView) -> bool {
    if !(table_ok(m, DOCS_IF_DOWNSTREAM_CHANNEL_TABLE@) && rows_convert::<DownstreamChannel>(m, DOCS_IF_DOWNSTREAM_CHANNEL_TABLE@)) {
        parsed_table_error::<DownstreamChannel>(m, DOCS_IF_DOWNSTREAM_CHANNEL_TABLE@, e)
    } else if !(table_ok(m, DOCS_IF3_SIGNAL_QUALITY_EXT_TABLE@) && rows_convert::<SignalQualityExt>(m, DOCS_IF3_SIGNAL_QUALITY_EXT_TABLE@)) {
        parsed_table_error::<SignalQualityExt>(m, DOCS_IF3_SIGNAL_QUALITY_EXT_TABLE@, e)
    } else if !(table_ok(m, DOCS_IF_SIGNAL_QUALITY_TABLE@) && rows_convert::<SignalQuality>(m, DOCS_IF_SIGNAL_QUALITY_TABLE@)) {
        parsed_table_error::<SignalQuality>(m, DOCS_IF_SIGNAL_QUALITY_TABLE@, e)
    } else {
        exists|idx: Seq<char>| downstream_join_gap(m, idx) && e == ErrorView::RowJoinMismatch { index: idx }
    }
}

/// Whether the downstream group can be read from `m`.
pub open spec fn downstream_ok(m: Map<Seq<char>, Seq<char>>) -> bool {
    downstream_tables_ok(m) && forall|idx: Seq<char>| !#[trigger] downstream_join_gap(m, idx)
}

/// `ch` holds exactly one entry per downstream channel of `m`, with the
/// converted rows of the three tables at the channel's index.
pub open spec fn downstream_channels(m: Map<Seq<char>, Seq<char>>, ch: Seq<DownstreamChannelMetrics>) -> bool {
    let d = spec_parsed_table::<DownstreamChannel>(m, DOCS_IF_DOWNSTREAM_CHANNEL_TABLE@);
    let e = spec_parsed_table::<SignalQualityExt>(m, DOCS_IF3_SIGNAL_QUALITY_EXT_TABLE@);
    let q = spec_parsed_table::<SignalQuality>(m, DOCS_IF_SIGNAL_QUALITY_TABLE@);
    &&& forall|i: int|
        0 <= i < ch.len() ==> {
            let idx = (#[trigger] ch[i]).index@;
            &&& d.contains_key(idx)
            &&& ch[i].channel == d[idx]
            &&& ch[i].signal_quality_ext == e[idx]
            &&& ch[i].signal_quality == q[idx]
        }
    &&& forall|idx: Seq<char>| d.contains_key(idx) ==> exists|i: int| 0 <= i < ch.len() && #[trigger] ch[i].index@ == idx
    &&& forall|i: int, j: int|
        0 <= i < ch.len() && 0 <= j < ch.len() && i != j ==> #[trigger] ch[i].index@ != #[trigger] ch[j].index@
}

impl DownstreamMetrics {
    pub fn new() -> (r: DownstreamMetrics)
        ensures
            r.channels@.len() == 0,
    {
        DownstreamMetrics { channels: Vec::new() }
    }

    /// Reads the three tables and joins them by channel index. On success
    /// the group holds the joined rows; on failure it is left as it was.
    pub fn set(&mut self, router_status: &List) -> (r: Result<(), ScrapeError>)
        ensures
            (r is Ok) <==> downstream_ok(router_status@),
            r is Ok ==> downstream_channels(router_status@, final(self).channels@),
            r is Err ==> *final(self) == *old(self),
            match r {
                Err(e) => downstream_error(router_status@, e@),
                Ok(_) => true,
            },
    {
        let ghost m = router_status@;
        let channel_table: Table<DownstreamChannel> = match router_status.parse_table(
            &OID::new(DOCS_IF_DOWNSTREAM_CHANNEL_TABLE),
        ) {
            Ok(t) => t,
            Err(e) => return Err(e),
        };
        let ext_table: Table<SignalQualityExt> = match router_status.parse_table(
            &OID::new(DOCS_IF3_SIGNAL_QUALITY_EXT_TABLE),
        ) {
            Ok(t) => t,
            Err(e) => return Err(e),
        };
        let quality_table: Table<SignalQuality> = match router_status.parse_table(
            &OID::new(DOCS_IF_SIGNAL_QUALITY_TABLE),
        ) {
            Ok(t) => t,
            Err(e) => return Err(e),
        };
        let rows = channel_table.iter();
        let mut channels: Vec<DownstreamChannelMetrics> = Vec::new();
        let mut i: usize = 0;
        while i < rows.len()
            invariant
                i <= rows@.len(),
                channels@.len() == i,
                m == router_status@,
                downstream_tables_ok(m),
                channel_table@ == spec_parsed_table::<DownstreamChannel>(m, DOCS_IF_DOWNSTREAM_CHANNEL_TABLE@),
                ext_table@ == spec_parsed_table::<SignalQualityExt>(m, DOCS_IF3_SIGNAL_QUALITY_EXT_TABLE@),
                quality_table@ == spec_parsed_table::<SignalQuality>(m, DOCS_IF_SIGNAL_QUALITY_TABLE@),
                forall|j: int|
                    0 <= j < rows@.len() ==> channel_table@.contains_key(#[trigger] rows@[j].0@)
                        && channel_table@[rows@[j].0@] == rows@[j].1,
                forall|u: int|
                    0 <= u < i ==> {
                        let idx = rows@[u].0@;
                        &&& (#[trigger] channels@[u]).index@ == idx
                        &&& channels@[u].channel == rows@[u].1
                        &&& ext_table@.contains_key(idx)
                        &&& channels@[u].signal_quality_ext == ext_table@[idx]
                        &&& quality_table@.contains_key(idx)
                        &&& channels@[u].signal_quality == quality_table@[idx]
                    },
            decreases rows@.len() - i,
        {
            let key = &rows[i].0;
            let signal_quality_ext = match ext_table.get(key.as_str()) {
                Some(v) => *v,
                None => {
                    assert(downstream_join_gap(m, key@));
                    let err = ScrapeError::RowJoinMismatch { index: key.clone() };
                    assert(err@ == ErrorView::RowJoinMismatch { index: key@ });
                    return Err(err);
                },
            };
            let signal_quality = match quality_table.get(key.as_str()) {
                Some(v) => *v,
                None => {
                    assert(downstream_join_gap(m, key@));
                    let err = ScrapeError::RowJoinMismatch { index: key.clone() };
                    assert(err@ == ErrorView::RowJoinMismatch { index: key@ });
                    return Err(err);
                },
            };
            channels.push(
                DownstreamChannelMetrics {
                    index: key.clone(),
                    channel: rows[i].1,
                    signal_quality_ext,
                    signal_quality,
                },
            );
            i = i + 1;
        }
        assert forall|idx: Seq<char>| !#[trigger] downstream_join_gap(m, idx) by {
            if has_row(m, DOCS_IF_DOWNSTREAM_CHANNEL_TABLE@, idx) {
                assert(channel_table@.contains_key(idx));
                let j = choose|j: int| 0 <= j < rows@.len() && #[trigger] rows@[j].0@ == idx;
                assert(channels@[j].index@ == idx);
            }
        }
        assert(downstream_channels(m, channels@)) by {
            assert forall|idx: Seq<char>|
                channel_table@.contains_key(idx) implies exists|u: int|
                    0 <= u < channels@.len() && #[trigger] channels@[u].index@ == idx by {
                let j = choose|j: int| 0 <= j < rows@.len() && #[trigger] rows@[j].0@ == idx;
                assert(channels@[j].index@ == idx);
            }
            assert forall|a: int, b: int|
                0 <= a < channels@.len() && 0 <= b < channels@.len() && a != b implies #[trigger] channels@[a].index@
                    != #[trigger] channels@[b].index@ by {
                assert(rows@[a].0@ != rows@[b].0@);
            }
        }
        self.channels = channels;
        Ok(())
    }
}

} // verus!
