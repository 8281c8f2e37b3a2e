//! Configuration group: DOCSIS mode and the primary service flows' QoS parameters.
use crate::column::{is_code, FromColumn, ValueError};
use crate::error::{result_view, ErrorView, ScrapeError};
use crate::snmp::{
    parsed_table_error, rows_convert, spec_column, spec_parsed_table, spec_scalar, table_ok, FromRow, List, Table,
    TableEntry, OID,
};
use crate::text::{find_last_dot, last_component, parse_u64, spec_parse_u64};
use vstd::prelude::*;

verus! {

/// DocsisBaseCapability
pub const DOCSIS_BASE_CAPABILITY: &'static str = "1.3.6.1.2.1.10.127.1.1.5";

/// docsQosServiceFlowTable
pub const DOCS_QOS_SERVICE_FLOW_TABLE: &'static str = "1.3.6.1.4.1.4491.2.1.21.1.3";

/// docsQosServiceFlowDirection
pub const DOCS_QOS_SERVICE_FLOW_DIRECTION: &'static str = "1.3.6.1.4.1.4491.2.1.21.1.3.1.7";

/// docsQosServiceFlowPrimary
pub const DOCS_QOS_SERVICE_FLOW_PRIMARY: &'static str = "1.3.6.1.4.1.4491.2.1.21.1.3.1.8";

/// docsQosParamSetTable
pub const DOCS_QOS_PARAM_SET_TABLE: &'static str = "1.3.6.1.4.1.4491.2.1.21.1.2";

/// docsQosParamSetMaxTrafficRate
pub const DOCS_QOS_PARAM_SET_MAX_TRAFFIC_RATE: &'static str = "1.3.6.1.4.1.4491.2.1.21.1.2.1.6";

/// docsQosParamSetMaxTrafficBurst
pub const DOCS_QOS_PARAM_SET_MAX_TRAFFIC_BURST: &'static str = "1.3.6.1.4.1.4491.2.1.21.1.2.1.7";

/// docsQosParamSetMinReservedRate
pub const DOCS_QOS_PARAM_SET_MIN_RESERVED_RATE: &'static str = "1.3.6.1.4.1.4491.2.1.21.1.2.1.8";

/// docsQosParamSetMaxConcatBurst
pub const DOCS_QOS_PARAM_SET_MAX_CONCAT_BURST: &'static str = "1.3.6.1.4.1.4491.2.1.21.1.2.1.12";

/// docsQosParamSetSchedulingType
pub const DOCS_QOS_PARAM_SET_SCHEDULING_TYPE: &'static str = "1.3.6.1.4.1.4491.2.1.21.1.2.1.13";

/// Direction of a service flow; codes 1 and 2.
#[derive(Clone, Copy, Debug, PartialEq, Eq, Structural)]
pub enum QOSServiceFlowDirection {
    Downstream,
    Upstream,
}

impl QOSServiceFlowDirection {
    pub open spec fn spec_code(self) -> u64 {
        match self {
            QOSServiceFlowDirection::Downstream => 1,
            QOSServiceFlowDirection::Upstream => 2,
        }
    }

    /// The numeric code of the direction.
    pub fn code(&self) -> (r: u64)
        ensures
            r == self.spec_code(),
    {
        match self {
            QOSServiceFlowDirection::Downstream => 1,
            QOSServiceFlowDirection::Upstream => 2,
        }
    }
}

impl FromColumn for QOSServiceFlowDirection {
    open spec fn spec_from_column(s: Seq<char>) -> Result<QOSServiceFlowDirection, ValueError> {
        if s == seq!['1'] {
            Ok(QOSServiceFlowDirection::Downstream)
        } else if s == seq!['2'] {
            Ok(QOSServiceFlowDirection::Upstream)
        } else {
            Err(ValueError::UnknownCode)
        }
    }

    fn from_column(s: &str) -> (r: Result<QOSServiceFlowDirection, ValueError>) {
        if is_code(s, '1') {
            Ok(QOSServiceFlowDirection::Downstream)
        } else if is_code(s, '2') {
            Ok(QOSServiceFlowDirection::Upstream)
        } else {
            Err(ValueError::UnknownCode)
        }
    }
}

/// One row of the service flow table.
#[derive(Clone, Copy, Debug, PartialEq, Eq, Structural)]
pub struct QOSServiceFlow {
    pub direction: QOSServiceFlowDirection,
    /// The primary flag's text is exactly `1`.
    pub primary: bool,
}

impl FromRow for QOSServiceFlow {
    open spec fn spec_from_row(row: Map<Seq<char>, Seq<char>>) -> Result<QOSServiceFlow, ErrorView> {
        match spec_column::<QOSServiceFlowDirection>(row, DOCS_QOS_SERVICE_FLOW_DIRECTION@) {
            Err(e) => Err(e),
            Ok(direction) => if row.contains_key(DOCS_QOS_SERVICE_FLOW_PRIMARY@) {
                Ok(
                    QOSServiceFlow {
                        direction,
                        primary: row[DOCS_QOS_SERVICE_FLOW_PRIMARY@] == seq!['1'],
                    },
                )
            } else {
                Err(ErrorView::ColumnNotFound { column: DOCS_QOS_SERVICE_FLOW_PRIMARY@ })
            },
        }
    }

    fn from_row(entry: &TableEntry) -> (r: Result<QOSServiceFlow, ScrapeError>) {
        let direction = match entry.parse_column::<QOSServiceFlowDirection>(
            &OID::new(DOCS_QOS_SERVICE_FLOW_DIRECTION),
        ) {
            Ok(v) => v,
            Err(e) => return Err(e),
        };
        match entry.get_column(&OID::new(DOCS_QOS_SERVICE_FLOW_PRIMARY)) {
            Ok(s) => Ok(QOSServiceFlow { direction, primary: is_code(s.as_str(), '1') }),
            Err(e) => Err(e),
        }
    }
}

/// Scheduling type of a QoS parameter set; codes 1 to 6.
#[derive(Clone, Copy, Debug, PartialEq, Eq, Structural)]
pub enum QOSSchedulingType {
    Undefined,
    BestEffort,
    NonRealTimePollingService,
    RealTimePollingService,
    UnsolicitedGrantServiceWithAD,
    UnsolicitedGrantService,
}

impl QOSSchedulingType {
    pub open spec fn spec_code(self) -> u64 {
        match self {
            QOSSchedulingType::Undefined => 1,
            QOSSchedulingType::BestEffort => 2,
            QOSSchedulingType::NonRealTimePollingService => 3,
            QOSSchedulingType::RealTimePollingService => 4,
            QOSSchedulingType::UnsolicitedGrantServiceWithAD => 5,
            QOSSchedulingType::UnsolicitedGrantService => 6,
        }
    }

    /// The numeric code of the scheduling type.
    pub fn code(&self) -> (r: u64)
        ensures
            r == self.spec_code(),
    {
        match self {
            QOSSchedulingType::Undefined => 1,
            QOSSchedulingType::BestEffort => 2,
            QOSSchedulingType::NonRealTimePollingService => 3,
            QOSSchedulingType::RealTimePollingService => 4,
            QOSSchedulingType::UnsolicitedGrantServiceWithAD => 5,
            QOSSchedulingType::UnsolicitedGrantService => 6,
        }
    }
}

impl FromColumn for QOSSchedulingType {
    open spec fn spec_from_column(s: Seq<char>) -> Result<QOSSchedulingType, ValueError> {
        if s == seq!['1'] {
            Ok(QOSSchedulingType::Undefined)
        } else if s == seq!['2'] {
            Ok(QOSSchedulingType::BestEffort)
        } else if s == seq!['3'] {
            Ok(QOSSchedulingType::NonRealTimePollingService)
        } else if s == seq!['4'] {
            Ok(QOSSchedulingType::RealTimePollingService)
        } else if s == seq!['5'] {
            Ok(QOSSchedulingType::UnsolicitedGrantServiceWithAD)
        } else if s == seq!['6'] {
            Ok(QOSSchedulingType::UnsolicitedGrantService)
        } else {
            Err(ValueError::UnknownCode)
        }
    }

    fn from_column(s: &str) -> (r: Result<QOSSchedulingType, ValueError>) {
        if is_code(s, '1') {
            Ok(QOSSchedulingType::Undefined)
        } else if is_code(s, '2') {
            Ok(QOSSchedulingType::BestEffort)
        } else if is_code(s, '3') {
            Ok(QOSSchedulingType::NonRealTimePollingService)
        } else if is_code(s, '4') {
            Ok(QOSSchedulingType::RealTimePollingService)
        } else if is_code(s, '5') {
            Ok(QOSSchedulingType::UnsolicitedGrantServiceWithAD)
        } else if is_code(s, '6') {
            Ok(QOSSchedulingType::UnsolicitedGrantService)
        } else {
            Err(ValueError::UnknownCode)
        }
    }
}

/// One row of the QoS parameter set table.
#[derive(Clone, Copy, Debug, PartialEq, Eq, Structural)]
pub struct QOSParamSet {
    pub max_traffic_rate: u64,
    pub max_traffic_burst: u64,
    pub min_reserved_rate: u64,
    pub max_concat_burst: u64,
    pub scheduling_type: QOSSchedulingType,
}

impl FromRow for QOSParamSet {
    open spec fn spec_from_row(row: Map<Seq<char>, Seq<char>>) -> Result<QOSParamSet, ErrorView> {
        match spec_column::<u64>(row, DOCS_QOS_PARAM_SET_MAX_TRAFFIC_RATE@) {
            Err(e) => Err(e),
            Ok(max_traffic_rate) => match spec_column::<u64>(row, DOCS_QOS_PARAM_SET_MAX_TRAFFIC_BURST@) {
                Err(e) => Err(e),
                Ok(max_traffic_burst) => match spec_column::<u64>(
                    row,
                    DOCS_QOS_PARAM_SET_MIN_RESERVED_RATE@,
                ) {
                    Err(e) => Err(e),
                    Ok(min_reserved_rate) => match spec_column::<u64>(
                        row,
                        DOCS_QOS_PARAM_SET_MAX_CONCAT_BURST@,
                    ) {
                        Err(e) => Err(e),
                        Ok(max_concat_burst) => match spec_column::<QOSSchedulingType>(
                            row,
                            DOCS_QOS_PARAM_SET_SCHEDULING_TYPE@,
                        ) {
                            Err(e) => Err(e),
                            Ok(scheduling_type) => Ok(
                                QOSParamSet {
                                    max_traffic_rate,
                                    max_traffic_burst,
                                    min_reserved_rate,
                                    max_concat_burst,
                                    scheduling_type,
                                },
                            ),
                        },
                    },
                },
            },
        }
    }

    fn from_row(entry: &TableEntry) -> (r: Result<QOSParamSet, ScrapeError>) {
        let max_traffic_rate = match entry.parse_column::<u64>(
            &OID::new(DOCS_QOS_PARAM_SET_MAX_TRAFFIC_RATE),
        ) {
            Ok(v) => v,
            Err(e) => return Err(e),
        };
        let max_traffic_burst = match entry.parse_column::<u64>(
            &OID::new(DOCS_QOS_PARAM_SET_MAX_TRAFFIC_BURST),
        ) {
            Ok(v) => v,
            Err(e) => return Err(e),
        };
        let min_reserved_rate = match entry.parse_column::<u64>(
            &OID::new(DOCS_QOS_PARAM_SET_MIN_RESERVED_RATE),
        ) {
            Ok(v) => v,
            Err(e) => return Err(e),
        };
        let max_concat_burst = match entry.parse_column::<u64>(
            &OID::new(DOCS_QOS_PARAM_SET_MAX_CONCAT_BURST),
        ) {
            Ok(v) => v,
            Err(e) => return Err(e),
        };
        let scheduling_type = match entry.parse_column::<QOSSchedulingType>(
            &OID::new(DOCS_QOS_PARAM_SET_SCHEDULING_TYPE),
        ) {
            Ok(v) => v,
            Err(e) => return Err(e),
        };
        Ok(
            QOSParamSet {
                max_traffic_rate,
                max_traffic_burst,
                min_reserved_rate,
                max_concat_burst,
                scheduling_type,
            },
        )
    }
}

/// The primary service flow of one direction: its identifier and parameters.
#[derive(Clone, Copy, Debug, PartialEq, Eq, Structural)]
pub struct PrimaryFlow {
    /// Service flow identifier: the last component of the flow's row index.
    pub sfid: u64,
    pub param_set: QOSParamSet,
}

/// Whether row `idx` of `flows` is a primary flow of direction `d`.
pub open spec fn is_primary(
    flows: Map<Seq<char>, QOSServiceFlow>,
    d: QOSServiceFlowDirection,
    idx: Seq<char>,
) -> bool {
    flows.contains_key(idx) && flows[idx].direction == d && flows[idx].primary
}

/// The primary flow of direction `d`: absent and ambiguous flows fail, as do
/// a missing parameter set and a row index whose last component is no number.
pub open spec fn spec_select_primary(
    flows: Map<Seq<char>, QOSServiceFlow>,
    params: Map<Seq<char>, QOSParamSet>,
    d: QOSServiceFlowDirection,
) -> Result<PrimaryFlow, ErrorView> {
    if !exists|idx: Seq<char>| #[trigger] is_primary(flows, d, idx) {
        Err(ErrorView::PrimaryFlowNotFound { direction: d })
    } else if exists|a: Seq<char>, b: Seq<char>|
        a != b && #[trigger] is_primary(flows, d, a) && #[trigger] is_primary(flows, d, b) {
        Err(ErrorView::AmbiguousPrimaryFlow { direction: d })
    } else {
        let idx = choose|idx: Seq<char>| #[trigger] is_primary(flows, d, idx);
        if !params.contains_key(idx) {
            Err(ErrorView::ParamSetNotFound { index: idx })
        } else {
            match spec_parse_u64(last_component(idx)) {
                Some(sfid) => Ok(PrimaryFlow { sfid, param_set: params[idx] }),
                None => Err(ErrorView::InvalidFlowId { index: idx }),
            }
        }
    }
}

/// Selection by uniqueness: with exactly one primary flow of a direction,
/// whose index has a parameter set and ends in a number, selection returns
/// that number and that parameter set; with none it reports the flow absent;
/// with two or more it reports them ambiguous.
pub proof fn lemma_select_primary(
    flows: Map<Seq<char>, QOSServiceFlow>,
    params: Map<Seq<char>, QOSParamSet>,
    d: QOSServiceFlowDirection,
    idx: Seq<char>,
)
    ensures
        is_primary(flows, d, idx) && (forall|j: Seq<char>| #[trigger] is_primary(flows, d, j) ==> j == idx)
            && params.contains_key(idx) && spec_parse_u64(last_component(idx)) is Some
            ==> spec_select_primary(flows, params, d) == Ok::<PrimaryFlow, ErrorView>(
            PrimaryFlow { sfid: spec_parse_u64(last_component(idx))->0, param_set: params[idx] },
        ),
        (forall|j: Seq<char>| !#[trigger] is_primary(flows, d, j)) ==> spec_select_primary(flows, params, d)
            == Err::<PrimaryFlow, ErrorView>(ErrorView::PrimaryFlowNotFound { direction: d }),
        (exists|a: Seq<char>, b: Seq<char>|
            a != b && #[trigger] is_primary(flows, d, a) && #[trigger] is_primary(flows, d, b))
            ==> spec_select_primary(flows, params, d) == Err::<PrimaryFlow, ErrorView>(
            ErrorView::AmbiguousPrimaryFlow { direction: d },
        ),
{
    if is_primary(flows, d, idx) && (forall|j: Seq<char>| #[trigger] is_primary(flows, d, j) ==> j == idx) {
        let c = choose|j: Seq<char>| #[trigger] is_primary(flows, d, j);
        assert(c == idx);
    }
}

/// The service flow identifier in row index `index`: its last component.
fn flow_id(index: &String) -> (r: Option<u64>)
    ensures
        r == spec_parse_u64(last_component(index@)),
{
    let s = index.as_str();
    let n = s.unicode_len();
    let start: usize = match find_last_dot(s) {
        Some(i) => i + 1,
        None => 0,
    };
    let last = s.substring_char(start, n);
    assert(last@ =~= last_component(index@));
    parse_u64(last)
}

/// Selects the one flow of direction `direction` flagged primary, with the
/// parameter set at the same row index.
pub fn select_primary_flow(
    flows: &Table<QOSServiceFlow>,
    params: &Table<QOSParamSet>,
    direction: QOSServiceFlowDirection,
) -> (r: Result<PrimaryFlow, ScrapeError>)
    ensures
        result_view(r) == spec_select_primary(flows@, params@, direction),
{
    let rows = flows.iter();
    let mut found: Option<usize> = None;
    let mut i: usize = 0;
    while i < rows.len()
        invariant
            i <= rows@.len(),
            forall|j: int|
                0 <= j < rows@.len() ==> flows@.contains_key(#[trigger] rows@[j].0@) && flows@[rows@[j].0@]
                    == rows@[j].1,
            forall|j: int, k: int|
                0 <= j < rows@.len() && 0 <= k < rows@.len() && j != k ==> #[trigger] rows@[j].0@
                    != #[trigger] rows@[k].0@,
            match found {
                None => forall|j: int| 0 <= j < i ==> !is_primary(flows@, direction, #[trigger] rows@[j].0@),
                Some(p) => p < i && is_primary(flows@, direction, rows@[p as int].0@) && forall|j: int|
                    0 <= j < i && j != p ==> !is_primary(flows@, direction, #[trigger] rows@[j].0@),
            },
        decreases rows@.len() - i,
    {
        let flow = rows[i].1;
        if flow.direction == direction && flow.primary {
            match found {
                Some(p) => {
                    assert(is_primary(flows@, direction, rows@[i as int].0@));
                    assert(rows@[p as int].0@ != rows@[i as int].0@);
                    return Err(ScrapeError::AmbiguousPrimaryFlow { direction });
                },
                None => {
                    found = Some(i);
                },
            }
        }
        i = i + 1;
    }
    let p = match found {
        None => {
            assert forall|idx: Seq<char>| !#[trigger] is_primary(flows@, direction, idx) by {
                if flows@.contains_key(idx) {
                    let j = choose|j: int| 0 <= j < rows@.len() && #[trigger] rows@[j].0@ == idx;
                    assert(!is_primary(flows@, direction, rows@[j].0@));
                }
            }
            return Err(ScrapeError::PrimaryFlowNotFound { direction });
        },
        Some(p) => p,
    };
    let index = &rows[p].0;
    assert forall|a: Seq<char>| #[trigger] is_primary(flows@, direction, a) implies a == index@ by {
        let j = choose|j: int| 0 <= j < rows@.len() && #[trigger] rows@[j].0@ == a;
        assert(j == p);
    }
    assert(is_primary(flows@, direction, index@));
    match params.get(index.as_str()) {
        None => {
            let err = ScrapeError::ParamSetNotFound { index: index.clone() };
            assert(err@ == ErrorView::ParamSetNotFound { index: index@ });
            Err(err)
        },
        Some(param_set) => match flow_id(index) {
            Some(sfid) => Ok(PrimaryFlow { sfid, param_set: *param_set }),
            None => {
                let err = ScrapeError::InvalidFlowId { index: index.clone() };
                assert(err@ == ErrorView::InvalidFlowId { index: index@ });
                Err(err)
            },
        },
    }
}

/// The configuration group's values from the last successful update.
#[derive(Clone, Copy, Debug, PartialEq, Eq, Structural)]
pub struct ConfigurationMetrics {
    pub docsis_mode: u64,
    pub primary_downstream: PrimaryFlow,
    pub primary_upstream: PrimaryFlow,
}

/// The service flow table of `m`, converted.
pub open spec fn spec_flows(m: Map<Seq<char>, Seq<char>>) -> Map<Seq<char>, QOSServiceFlow> {
    spec_parsed_table::<QOSServiceFlow>(m, DOCS_QOS_SERVICE_FLOW_TABLE@)
}

/// The parameter set table of `m`, converted.
pub open spec fn spec_params(m: Map<Seq<char>, Seq<char>>) -> Map<Seq<char>, QOSParamSet> {
    spec_parsed_table::<QOSParamSet>(m, DOCS_QOS_PARAM_SET_TABLE@)
}

/// Whether the configuration group can be read from `m`.
pub open spec fn configuration_ok(m: Map<Seq<char>, Seq<char>>) -> bool {
    &&& spec_scalar::<u64>(m, DOCSIS_BASE_CAPABILITY@) is Ok
    &&& table_ok(m, DOCS_QOS_SERVICE_FLOW_TABLE@)
    &&& rows_convert::<QOSServiceFlow>(m, DOCS_QOS_SERVICE_FLOW_TABLE@)
    &&& table_ok(m, DOCS_QOS_PARAM_SET_TABLE@)
    &&& rows_convert::<QOSParamSet>(m, DOCS_QOS_PARAM_SET_TABLE@)
    &&& spec_select_primary(spec_flows(m), spec_params(m), QOSServiceFlowDirection::Downstream) is Ok
    &&& spec_select_primary(spec_flows(m), spec_params(m), QOSServiceFlowDirection::Upstream) is Ok
}

/// Whether `e` is the error of the configuration group on `m`: that of the
/// DOCSIS mode, else of the flow table, else of the parameter set table,
/// else of the downstream selection, else of the upstream selection.
pub open spec fn configuration_error(m: Map<Seq<char>, Seq<char>>, e: ErrorView) -> bool {
    match spec_scalar::<u64>(m, DOCSIS_BASE_CAPABILITY@) {
        Err(x) => e == x,
        Ok(_) => if !(table_ok(m, DOCS_QOS_SERVICE_FLOW_TABLE@) && rows_convert::<QOSServiceFlow>(
            m,
            DOCS_QOS_SERVICE_FLOW_TABLE@,
        )) {
            parsed_table_error::<QOSServiceFlow>(m, DOCS_QOS_SERVICE_FLOW_TABLE@, e)
        } else if !(table_ok(m, DOCS_QOS_PARAM_SET_TABLE@) && rows_convert::<QOSParamSet>(
            m,
            DOCS_QOS_PARAM_SET_TABLE@,
        )) {
            parsed_table_error::<QOSParamSet>(m, DOCS_QOS_PARAM_SET_TABLE@, e)
        } else {
            match spec_select_primary(spec_flows(m), spec_params(m), QOSServiceFlowDirection::Downstream) {
                Err(x) => e == x,
                Ok(_) => spec_select_primary(
                    spec_flows(m),
                    spec_params(m),
                    QOSServiceFlowDirection::Upstream,
                ) == Err::<PrimaryFlow, ErrorView>(e),
            }
        },
    }
}

/// The configuration group read from `m`, where [`configuration_ok`] holds.
pub open spec fn spec_configuration(m: Map<Seq<char>, Seq<char>>) -> ConfigurationMetrics {
    ConfigurationMetrics {
        docsis_mode: spec_scalar::<u64>(m, DOCSIS_BASE_CAPABILITY@)->Ok_0,
        primary_downstream: spec_select_primary(
            spec_flows(m),
            spec_params(m),
            QOSServiceFlowDirection::Downstream,
        )->Ok_0,
        primary_upstream: spec_select_primary(
            spec_flows(m),
            spec_params(m),
            QOSServiceFlowDirection::Upstream,
        )->Ok_0,
    }
}

impl ConfigurationMetrics {
    /// Mode 0, and for each direction flow 0 with all parameters 0 and an
    /// undefined scheduling type.
    pub open spec fn new_spec() -> ConfigurationMetrics {
        let param_set = QOSParamSet {
            max_traffic_rate: 0,
            max_traffic_burst: 0,
            min_reserved_rate: 0,
            max_concat_burst: 0,
            scheduling_type: QOSSchedulingType::Undefined,
        };
        ConfigurationMetrics {
            docsis_mode: 0,
            primary_downstream: PrimaryFlow { sfid: 0, param_set },
            primary_upstream: PrimaryFlow { sfid: 0, param_set },
        }
    }

    pub fn new() -> (r: ConfigurationMetrics)
        ensures
            r == Self::new_spec(),
    {
        let param_set = QOSParamSet {
            max_traffic_rate: 0,
            max_traffic_burst: 0,
            min_reserved_rate: 0,
            max_concat_burst: 0,
            scheduling_type: QOSSchedulingType::Undefined,
        };
        ConfigurationMetrics {
            docsis_mode: 0,
            primary_downstream: PrimaryFlow { sfid: 0, param_set },
            primary_upstream: PrimaryFlow { sfid: 0, param_set },
        }
    }

    /// Reads the DOCSIS mode and the primary flow of each direction. On
    /// success the group holds them; on failure it is left as it was.
    pub fn set(&mut self, router_status: &List) -> (r: Result<(), ScrapeError>)
        ensures
            (r is Ok) <==> configuration_ok(router_status@),
            r is Ok ==> *final(self) == spec_configuration(router_status@),
            r is Err ==> *final(self) == *old(self),
            match r {
                Err(e) => configuration_error(router_status@, e@),
                Ok(_) => true,
            },
    {
        let docsis_mode = match router_status.parse_scalar::<u64>(&OID::new(DOCSIS_BASE_CAPABILITY)) {
            Ok(v) => v,
            Err(e) => return Err(e),
        };
        let flows: Table<QOSServiceFlow> = match router_status.parse_table(
            &OID::new(DOCS_QOS_SERVICE_FLOW_TABLE),
        ) {
            Ok(t) => t,
            Err(e) => return Err(e),
        };
        let params: Table<QOSParamSet> = match router_status.parse_table(
            &OID::new(DOCS_QOS_PARAM_SET_TABLE),
        ) {
            Ok(t) => t,
            Err(e) => return Err(e),
        };
        let primary_downstream = match select_primary_flow(
            &flows,
            &params,
            QOSServiceFlowDirection::Downstream,
        ) {
            Ok(v) => v,
            Err(e) => return Err(e),
        };
        let primary_upstream = match select_primary_flow(
            &flows,
            &params,
            QOSServiceFlowDirection::Upstream,
        ) {
            Ok(v) => v,
            Err(e) => return Err(e),
        };
        *self = ConfigurationMetrics { docsis_mode, primary_downstream, primary_upstream };
        Ok(())
    }
}

} // verus!
