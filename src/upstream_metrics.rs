//! Upstream group: each upstream channel joined with its extended and status rows.
use crate::column::{is_code, FromColumn, Tenths, ValueError};
use crate::error::{ErrorView, ScrapeError};
use crate::snmp::{
    has_row, parsed_table_error, rows_convert, spec_column, spec_parsed_table, table_ok, FromRow, List, Table,
    TableEntry, OID,
};
use vstd::prelude::*;

verus! {

/// docsIfUpstreamChannelTable
pub const DOCS_IF_UPSTREAM_CHANNEL_TABLE: &'static str = "1.3.6.1.2.1.10.127.1.1.2";

/// docsIfUpChannelId
pub const DOCS_IF_UP_CHANNEL_ID: &'static str = "1.3.6.1.2.1.10.127.1.1.2.1.1";

/// docsIfUpChannelFrequency
pub const DOCS_IF_UP_CHANNEL_FREQUENCY: &'static str = "1.3.6.1.2.1.10.127.1.1.2.1.2";

/// docsIfUpChannelType
pub const DOCS_IF_UP_CHANNEL_TYPE: &'static str = "1.3.6.1.2.1.10.127.1.1.2.1.15";

/// arrisCmDoc30IfUpstreamChannelExtendedTable
pub const ARRIS_CM_DOC30_IF_UPSTREAM_CHANNEL_EXTENDED_TABLE: &'static str =
    "1.3.6.1.4.1.4115.1.3.4.1.9.2";

/// arrisCmDoc30IfUpChannelExtendedSymbolRate
pub const AR_CM_DOC30_IF_UP_CHANNEL_EXTENDED_SYMBOL_RATE: &'static str =
    "1.3.6.1.4.1.4115.1.3.4.1.9.2.1.2";

/// arrisCmDoc30IfUpChannelExtendedModulation
pub const AR_CM_DOC30_IF_UP_CHANNEL_EXTENDED_MODULATION: &'static str =
    "1.3.6.1.4.1.4115.1.3.4.1.9.2.1.3";

/// docsIf3CmStatusUsTable
pub const DOCS_IF3_CM_STATUS_US_TABLE: &'static str = "1.3.6.1.4.1.4491.2.1.20.1.2";

/// docsIf3CmStatusUsTxPower
pub const DOCS_IF3_CM_STATUS_US_TX_POWER: &'static str = "1.3.6.1.4.1.4491.2.1.20.1.2.1.1";

/// docsIf3CmStatusUsT3Timeouts
pub const DOCS_IF3_CM_STATUS_US_T3_TIMEOUTS: &'static str = "1.3.6.1.4.1.4491.2.1.20.1.2.1.2";

/// docsIf3CmStatusUsT4Timeouts
pub const DOCS_IF3_CM_STATUS_US_T4_TIMEOUTS: &'static str = "1.3.6.1.4.1.4491.2.1.20.1.2.1.3";

/// Type of an upstream channel; codes 1 to 4.
#[allow(non_camel_case_types)]
#[derive(Clone, Copy, Debug, PartialEq, Eq, Structural)]
pub enum UpstreamChannelType {
    TDMA,
    ATDMA,
    SCDMA,
    TDDMA_ATDMA,
}

impl UpstreamChannelType {
    pub open spec fn spec_code(self) -> u64 {
        match self {
            UpstreamChannelType::TDMA => 1,
            UpstreamChannelType::ATDMA => 2,
            UpstreamChannelType::SCDMA => 3,
            UpstreamChannelType::TDDMA_ATDMA => 4,
        }
    }

    /// The numeric code of the channel type.
    pub fn code(&self) -> (r: u64)
        ensures
            r == self.spec_code(),
    {
        match self {
            UpstreamChannelType::TDMA => 1,
            UpstreamChannelType::ATDMA => 2,
            UpstreamChannelType::SCDMA => 3,
            UpstreamChannelType::TDDMA_ATDMA => 4,
        }
    }
}

impl FromColumn for UpstreamChannelType {
    open spec fn spec_from_column(s: Seq<char>) -> Result<UpstreamChannelType, ValueError> {
        if s == seq!['1'] {
            Ok(UpstreamChannelType::TDMA)
        } else if s == seq!['2'] {
            Ok(UpstreamChannelType::ATDMA)
        } else if s == seq!['3'] {
            Ok(UpstreamChannelType::SCDMA)
        } else if s == seq!['4'] {
            Ok(UpstreamChannelType::TDDMA_ATDMA)
        } else {
            Err(ValueError::UnknownCode)
        }
    }

    fn from_column(s: &str) -> (r: Result<UpstreamChannelType, ValueError>) {
        if is_code(s, '1') {
            Ok(UpstreamChannelType::TDMA)
        } else if is_code(s, '2') {
            Ok(UpstreamChannelType::ATDMA)
        } else if is_code(s, '3') {
            Ok(UpstreamChannelType::SCDMA)
        } else if is_code(s, '4') {
            Ok(UpstreamChannelType::TDDMA_ATDMA)
        } else {
            Err(ValueError::UnknownCode)
        }
    }
}

/// Modulation of an upstream channel; codes 1 to 7.
#[derive(Clone, Copy, Debug, PartialEq, Eq, Structural)]
pub enum UpstreamChannelModulation {
    QPSK,
    QAM8,
    QAM16,
    QAM32,
    QAM64,
    QAM128,
    QAM256,
}

impl UpstreamChannelModulation {
    pub open spec fn spec_code(self) -> u64 {
        match self {
            UpstreamChannelModulation::QPSK => 1,
            UpstreamChannelModulation::QAM8 => 2,
            UpstreamChannelModulation::QAM16 => 3,
            UpstreamChannelModulation::QAM32 => 4,
            UpstreamChannelModulation::QAM64 => 5,
            UpstreamChannelModulation::QAM128 => 6,
            UpstreamChannelModulation::QAM256 => 7,
        }
    }

    /// The numeric code of the modulation.
    pub fn code(&self) -> (r: u64)
        ensures
            r == self.spec_code(),
    {
        match self {
            UpstreamChannelModulation::QPSK => 1,
            UpstreamChannelModulation::QAM8 => 2,
            UpstreamChannelModulation::QAM16 => 3,
            UpstreamChannelModulation::QAM32 => 4,
            UpstreamChannelModulation::QAM64 => 5,
            UpstreamChannelModulation::QAM128 => 6,
            UpstreamChannelModulation::QAM256 => 7,
        }
    }
}

impl FromColumn for UpstreamChannelModulation {
    open spec fn spec_from_column(s: Seq<char>) -> Result<UpstreamChannelModulation, ValueError> {
        if s == seq!['1'] {
            Ok(UpstreamChannelModulation::QPSK)
        } else if s == seq!['2'] {
            Ok(UpstreamChannelModulation::QAM8)
        } else if s == seq!['3'] {
            Ok(UpstreamChannelModulation::QAM16)
        } else if s == seq!['4'] {
            Ok(UpstreamChannelModulation::QAM32)
        } else if s == seq!['5'] {
            Ok(UpstreamChannelModulation::QAM64)
        } else if s == seq!['6'] {
            Ok(UpstreamChannelModulation::QAM128)
        } else if s == seq!['7'] {
            Ok(UpstreamChannelModulation::QAM256)
        } else {
            Err(ValueError::UnknownCode)
        }
    }

    fn from_column(s: &str) -> (r: Result<UpstreamChannelModulation, ValueError>) {
        if is_code(s, '1') {
            Ok(UpstreamChannelModulation::QPSK)
        } else if is_code(s, '2') {
            Ok(UpstreamChannelModulation::QAM8)
        } else if is_code(s, '3') {
            Ok(UpstreamChannelModulation::QAM16)
        } else if is_code(s, '4') {
            Ok(UpstreamChannelModulation::QAM32)
        } else if is_code(s, '5') {
            Ok(UpstreamChannelModulation::QAM64)
        } else if is_code(s, '6') {
            Ok(UpstreamChannelModulation::QAM128)
        } else if is_code(s, '7') {
            Ok(UpstreamChannelModulation::QAM256)
        } else {
            Err(ValueError::UnknownCode)
        }
    }
}

/// One row of the upstream channel table.
#[derive(Clone, Copy, Debug, PartialEq, Eq, Structural)]
pub struct UpstreamChannel {
    pub up_channel_id: u64,
    /// Hz.
    pub up_channel_frequency: u64,
    pub up_channel_type: UpstreamChannelType,
}

impl FromRow for UpstreamChannel {
    open spec fn spec_from_row(row: Map<Seq<char>, Seq<char>>) -> Result<UpstreamChannel, ErrorView> {
        match spec_column::<u64>(row, DOCS_IF_UP_CHANNEL_ID@) {
            Err(e) => Err(e),
            Ok(id) => match spec_column::<u64>(row, DOCS_IF_UP_CHANNEL_FREQUENCY@) {
                Err(e) => Err(e),
                Ok(frequency) => match spec_column::<UpstreamChannelType>(
                    row,
                    DOCS_IF_UP_CHANNEL_TYPE@,
                ) {
                    Err(e) => Err(e),
                    Ok(channel_type) => Ok(
                        UpstreamChannel {
                            up_channel_id: id,
                            up_channel_frequency: frequency,
                            up_channel_type: channel_type,
                        },
                    ),
                },
            },
        }
    }

    fn from_row(entry: &TableEntry) -> (r: Result<UpstreamChannel, ScrapeError>) {
        let id = match entry.parse_column::<u64>(&OID::new(DOCS_IF_UP_CHANNEL_ID)) {
            Ok(v) => v,
            Err(e) => return Err(e),
        };
        let frequency = match entry.parse_column::<u64>(&OID::new(DOCS_IF_UP_CHANNEL_FREQUENCY)) {
            Ok(v) => v,
            Err(e) => return Err(e),
        };
        let channel_type = match entry.parse_column::<UpstreamChannelType>(
            &OID::new(DOCS_IF_UP_CHANNEL_TYPE),
        ) {
            Ok(v) => v,
            Err(e) => return Err(e),
        };
        Ok(
            UpstreamChannel {
                up_channel_id: id,
                up_channel_frequency: frequency,
                up_channel_type: channel_type,
            },
        )
    }
}

/// One row of the vendor's extended upstream channel table.
#[derive(Clone, Copy, Debug, PartialEq, Eq, Structural)]
pub struct UpstreamChannelExtended {
    /// ksps.
    pub symbol_rate: u64,
    pub modulation: UpstreamChannelModulation,
}

impl FromRow for UpstreamChannelExtended {
    open spec fn spec_from_row(row: Map<Seq<char>, Seq<char>>) -> Result<UpstreamChannelExtended, ErrorView> {
        match spec_column::<u64>(row, AR_CM_DOC30_IF_UP_CHANNEL_EXTENDED_SYMBOL_RATE@) {
            Err(e) => Err(e),
            Ok(symbol_rate) => match spec_column::<UpstreamChannelModulation>(
                row,
                AR_CM_DOC30_IF_UP_CHANNEL_EXTENDED_MODULATION@,
            ) {
                Err(e) => Err(e),
                Ok(modulation) => Ok(UpstreamChannelExtended { symbol_rate, modulation }),
            },
        }
    }

    fn from_row(entry: &TableEntry) -> (r: Result<UpstreamChannelExtended, ScrapeError>) {
        let symbol_rate = match entry.parse_column::<u64>(
            &OID::new(AR_CM_DOC30_IF_UP_CHANNEL_EXTENDED_SYMBOL_RATE),
        ) {
            Ok(v) => v,
            Err(e) => return Err(e),
        };
        let modulation = match entry.parse_column::<UpstreamChannelModulation>(
            &OID::new(AR_CM_DOC30_IF_UP_CHANNEL_EXTENDED_MODULATION),
        ) {
            Ok(v) => v,
            Err(e) => return Err(e),
        };
        Ok(UpstreamChannelExtended { symbol_rate, modulation })
    }
}

/// One row of the upstream status table.
#[derive(Clone, Copy, Debug, PartialEq, Eq, Structural)]
pub struct CmStatusUs {
    /// dBmV.
    pub tx_power: Tenths,
    pub t3_timeouts: u64,
    pub t4_timeouts: u64,
}

impl FromRow for CmStatusUs {
    open spec fn spec_from_row(row: Map<Seq<char>, Seq<char>>) -> Result<CmStatusUs, ErrorView> {
        match spec_column::<Tenths>(row, DOCS_IF3_CM_STATUS_US_TX_POWER@) {
            Err(e) => Err(e),
            Ok(tx_power) => match spec_column::<u64>(row, DOCS_IF3_CM_STATUS_US_T3_TIMEOUTS@) {
                Err(e) => Err(e),
                Ok(t3_timeouts) => match spec_column::<u64>(row, DOCS_IF3_CM_STATUS_US_T4_TIMEOUTS@) {
                    Err(e) => Err(e),
                    Ok(t4_timeouts) => Ok(CmStatusUs { tx_power, t3_timeouts, t4_timeouts }),
                },
            },
        }
    }

    fn from_row(entry: &TableEntry) -> (r: Result<CmStatusUs, ScrapeError>) {
        let tx_power = match entry.parse_column::<Tenths>(&OID::new(DOCS_IF3_CM_STATUS_US_TX_POWER)) {
            Ok(v) => v,
            Err(e) => return Err(e),
        };
        let t3_timeouts = match entry.parse_column::<u64>(&OID::new(DOCS_IF3_CM_STATUS_US_T3_TIMEOUTS)) {
            Ok(v) => v,
            Err(e) => return Err(e),
        };
        let t4_timeouts = match entry.parse_column::<u64>(&OID::new(DOCS_IF3_CM_STATUS_US_T4_TIMEOUTS)) {
            Ok(v) => v,
            Err(e) => return Err(e),
        };
        Ok(CmStatusUs { tx_power, t3_timeouts, t4_timeouts })
    }
}

/// An upstream channel with the rows of the other tables at its index.
#[derive(Clone, Debug)]
pub struct UpstreamChannelMetrics {
    pub index: String,
    pub channel: UpstreamChannel,
    pub extended: UpstreamChannelExtended,
    pub status: CmStatusUs,
}

/// The upstream group's values from the last successful update.
#[derive(Clone, Debug)]
pub struct UpstreamMetrics {
    pub channels: Vec<UpstreamChannelMetrics>,
}

/// Whether the three upstream tables of `m` convert.
pub open spec fn upstream_tables_ok(m: Map<Seq<char>, Seq<char>>) -> bool {
    &&& table_ok(m, DOCS_IF_UPSTREAM_CHANNEL_TABLE@)
    &&& rows_convert::<UpstreamChannel>(m, DOCS_IF_UPSTREAM_CHANNEL_TABLE@)
    &&& table_ok(m, ARRIS_CM_DOC30_IF_UPSTREAM_CHANNEL_EXTENDED_TABLE@)
    &&& rows_convert::<UpstreamChannelExtended>(m, ARRIS_CM_DOC30_IF_UPSTREAM_CHANNEL_EXTENDED_TABLE@)
    &&& table_ok(m, DOCS_IF3_CM_STATUS_US_TABLE@)
    &&& rows_convert::<CmStatusUs>(m, DOCS_IF3_CM_STATUS_US_TABLE@)
}

/// Whether channel row `idx` is absent from one of the joined tables.
pub open spec fn upstream_join_gap(m: Map<Seq<char>, Seq<char>>, idx: Seq<char>) -> bool {
    has_row(m, DOCS_IF_UPSTREAM_CHANNEL_TABLE@, idx) && !(has_row(
        m,
        ARRIS_CM_DOC30_IF_UPSTREAM_CHANNEL_EXTENDED_TABLE@,
        idx,
    ) && has_row(m, DOCS_IF3_CM_STATUS_US_TABLE@, idx))
}

/// Whether `e` is the error of the upstream group on `m`: that of the first
/// table that cannot be read, else a missing row of a joined table.
pub open spec fn upstream_error(m: Map<Seq<char>, Seq<char>>, e: ErrorView) -> bool {
    if !(table_ok(m, DOCS_IF_UPSTREAM_CHANNEL_TABLE@) && rows_convert::<UpstreamChannel>(m, DOCS_IF_UPSTREAM_CHANNEL_TABLE@)) {
        parsed_table_error::<UpstreamChannel>(m, DOCS_IF_UPSTREAM_CHANNEL_TABLE@, e)
    } else if !(table_ok(m, ARRIS_CM_DOC30_IF_UPSTREAM_CHANNEL_EXTENDED_TABLE@) && rows_convert::<UpstreamChannelExtended>(m, ARRIS_CM_DOC30_IF_UPSTREAM_CHANNEL_EXTENDED_TABLE@)) {
        parsed_table_error::<UpstreamChannelExtended>(m, ARRIS_CM_DOC30_IF_UPSTREAM_CHANNEL_EXTENDED_TABLE@, e)
    } else if !(table_ok(m, DOCS_IF3_CM_STATUS_US_TABLE@) && rows_convert::<CmStatusUs>(m, DOCS_IF3_CM_STATUS_US_TABLE@)) {
        parsed_table_error::<CmStatusUs>(m, DOCS_IF3_CM_STATUS_US_TABLE@, e)
    } else {
        exists|idx: Seq<char>| upstream_join_gap(m, idx) && e == ErrorView::RowJoinMismatch { index: idx }
    }
}

/// Whether the upstream group can be read from `m`.
pub open spec fn upstream_ok(m: Map<Seq<char>, Seq<char>>) -> bool {
    upstream_tables_ok(m) && forall|idx: Seq<char>| !#[trigger] upstream_join_gap(m, idx)
}

/// `ch` holds exactly one entry per upstream channel of `m`, with the
/// converted rows of the three tables at the channel's index.
pub open spec fn upstream_channels(m: Map<Seq<char>, Seq<char>>, ch: Seq<UpstreamChannelMetrics>) -> bool {
    let d = spec_parsed_table::<UpstreamChannel>(m, DOCS_IF_UPSTREAM_CHANNEL_TABLE@);
    let e = spec_parsed_table::<UpstreamChannelExtended>(
        m,
        ARRIS_CM_DOC30_IF_UPSTREAM_CHANNEL_EXTENDED_TABLE@,
    );
    let s = spec_parsed_table::<CmStatusUs>(m, DOCS_IF3_CM_STATUS_US_TABLE@);
    &&& forall|i: int|
        0 <= i < ch.len() ==> {
            let idx = (#[trigger] ch[i]).index@;
            &&& d.contains_key(idx)
            &&& ch[i].channel == d[idx]
            &&& ch[i].extended == e[idx]
            &&& ch[i].status == s[idx]
        }
    &&& forall|idx: Seq<char>| d.contains_key(idx) ==> exists|i: int| 0 <= i < ch.len() && #[trigger] ch[i].index@ == idx
    &&& forall|i: int, j: int|
        0 <= i < ch.len() && 0 <= j < ch.len() && i != j ==> #[trigger] ch[i].index@ != #[trigger] ch[j].index@
}

impl UpstreamMetrics {
    pub fn new() -> (r: UpstreamMetrics)
        ensures
            r.channels@.len() == 0,
    {
        UpstreamMetrics { channels: Vec::new() }
    }

    /// Reads the three tables and joins them by channel index. On success
    /// the group holds the joined rows; on failure it is left as it was.
    pub fn set(&mut self, router_status: &List) -> (r: Result<(), ScrapeError>)
        ensures
            (r is Ok) <==> upstream_ok(router_status@),
            r is Ok ==> upstream_channels(router_status@, final(self).channels@),
            r is Err ==> *final(self) == *old(self),
            match r {
                Err(e) => upstream_error(router_status@, e@),
                Ok(_) => true,
            },
    {
        let ghost m = router_status@;
        let channel_table: Table<UpstreamChannel> = match router_status.parse_table(
            &OID::new(DOCS_IF_UPSTREAM_CHANNEL_TABLE),
        ) {
            Ok(t) => t,
            Err(e) => return Err(e),
        };
        let ext_table: Table<UpstreamChannelExtended> = match router_status.parse_table(
            &OID::new(ARRIS_CM_DOC30_IF_UPSTREAM_CHANNEL_EXTENDED_TABLE),
        ) {
            Ok(t) => t,
            Err(e) => return Err(e),
        };
        let status_table: Table<CmStatusUs> = match router_status.parse_table(
            &OID::new(DOCS_IF3_CM_STATUS_US_TABLE),
        ) {
            Ok(t) => t,
            Err(e) => return Err(e),
        };
        let rows = channel_table.iter();
        let mut channels: Vec<UpstreamChannelMetrics> = Vec::new();
        let mut i: usize = 0;
        while i < rows.len()
            invariant
                i <= rows@.len(),
                channels@.len() == i,
                m == router_status@,
                upstream_tables_ok(m),
                channel_table@ == spec_parsed_table::<UpstreamChannel>(m, DOCS_IF_UPSTREAM_CHANNEL_TABLE@),
                ext_table@ == spec_parsed_table::<UpstreamChannelExtended>(
                    m,
                    ARRIS_CM_DOC30_IF_UPSTREAM_CHANNEL_EXTENDED_TABLE@,
                ),
                status_table@ == spec_parsed_table::<CmStatusUs>(m, DOCS_IF3_CM_STATUS_US_TABLE@),
                forall|j: int|
                    0 <= j < rows@.len() ==> channel_table@.contains_key(#[trigger] rows@[j].0@)
                        && channel_table@[rows@[j].0@] == rows@[j].1,
                forall|u: int|
                    0 <= u < i ==> {
                        let idx = rows@[u].0@;
                        &&& (#[trigger] channels@[u]).index@ == idx
                        &&& channels@[u].channel == rows@[u].1
                        &&& ext_table@.contains_key(idx)
                        &&& channels@[u].extended == ext_table@[idx]
                        &&& status_table@.contains_key(idx)
                        &&& channels@[u].status == status_table@[idx]
                    },
            decreases rows@.len() - i,
        {
            let key = &rows[i].0;
            let extended = match ext_table.get(key.as_str()) {
                Some(v) => *v,
                None => {
                    assert(upstream_join_gap(m, key@));
                    let err = ScrapeError::RowJoinMismatch { index: key.clone() };
                    assert(err@ == ErrorView::RowJoinMismatch { index: key@ });
                    return Err(err);
                },
            };
            let status = match status_table.get(key.as_str()) {
                Some(v) => *v,
                None => {
                    assert(upstream_join_gap(m, key@));
                    let err = ScrapeError::RowJoinMismatch { index: key.clone() };
                    assert(err@ == ErrorView::RowJoinMismatch { index: key@ });
                    return Err(err);
                },
            };
            channels.push(
                UpstreamChannelMetrics { index: key.clone(), channel: rows[i].1, extended, status },
            );
            i = i + 1;
        }
        assert forall|idx: Seq<char>| !#[trigger] upstream_join_gap(m, idx) by {
            if has_row(m, DOCS_IF_UPSTREAM_CHANNEL_TABLE@, idx) {
                assert(channel_table@.contains_key(idx));
                let j = choose|j: int| 0 <= j < rows@.len() && #[trigger] rows@[j].0@ == idx;
                assert(channels@[j].index@ == idx);
            }
        }
        assert(upstream_channels(m, channels@)) by {
            assert forall|idx: Seq<char>|
                channel_table@.contains_key(idx) implies exists|u: int|
                    0 <= u < channels@.len() && #[trigger] channels@[u].index@ == idx by {
                let j = choose|j: int| 0 <= j < rows@.len() && #[trigger] rows@[j].0@ == idx;
                assert(channels@[j].index@ == idx);
            }
            assert forall|a: int, b: int|
                0 <= a < channels@.len() && 0 <= b < channels@.len() && a != b implies #[trigger] channels@[a].index@
                    != #[trigger] channels@[b].index@ by {
                assert(rows@[a].0@ != rows@[b].0@);
            }
        }
        self.channels = channels;
        Ok(())
    }
}

} // verus!
