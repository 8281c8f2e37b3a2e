//! Status group: registration state and the frequencies of the first channels.
use crate::downstream_metrics::{DOCS_IF_DOWNSTREAM_CHANNEL_TABLE, DOCS_IF_DOWN_CHANNEL_FREQUENCY};
use crate::error::{ErrorView, ScrapeError};
use crate::snmp::{
    has_row, malformed_key, spec_column, spec_row, spec_scalar, table_ok, List, OID,
};
use crate::upstream_metrics::{DOCS_IF_UPSTREAM_CHANNEL_TABLE, DOCS_IF_UP_CHANNEL_FREQUENCY};
use vstd::prelude::*;

verus! {

/// arrisCmDoc30SwRegistrationState
pub const ARRIS_CM_DOC30_SW_REGISTRATION_STATE: &'static str = "1.3.6.1.4.1.4115.1.3.4.1.5.9";

/// Row index of the acquired downstream channel and of the ranged upstream channel.
pub const FIRST_CHANNEL_INDEX: &'static str = "1";

/// The status group's values from the last successful update. A channel
/// frequency is `None` when its table has no row with index `1`.
#[derive(Clone, Copy, Debug, PartialEq, Eq, Structural)]
pub struct StatusMetrics {
    /// Hz.
    pub acquired_down_channel_frequency: Option<u64>,
    /// Hz.
    pub ranged_up_channel_frequency: Option<u64>,
    pub provisioning_state: u64,
}

/// Column `col` of the first row of table `base` of `m`, as a number, where
/// the table can be read: `None` when there is no such row, and the column's
/// error when the row is there but the column is missing or not a number.
pub open spec fn first_row_number(m: Map<Seq<char>, Seq<char>>, base: Seq<char>, col: Seq<char>) -> Result<
    Option<u64>,
    ErrorView,
> {
    if has_row(m, base, FIRST_CHANNEL_INDEX@) {
        match spec_column::<u64>(spec_row(m, base, FIRST_CHANNEL_INDEX@), col) {
            Ok(v) => Ok(Some(v)),
            Err(e) => Err(e),
        }
    } else {
        Ok(None)
    }
}

/// Whether `e` is the error of table `base` of `m` that cannot be read.
pub open spec fn is_malformed_error(m: Map<Seq<char>, Seq<char>>, base: Seq<char>, e: ErrorView) -> bool {
    exists|k: Seq<char>| malformed_key(m, base, k) && e == ErrorView::MalformedIndex { oid: k }
}

/// Whether the first-row read of `base`/`col` succeeds on `m`.
pub open spec fn first_row_ok(m: Map<Seq<char>, Seq<char>>, base: Seq<char>, col: Seq<char>) -> bool {
    table_ok(m, base) && first_row_number(m, base, col) is Ok
}

/// Whether `e` is the error of the first-row read of `base`/`col` on `m`.
pub open spec fn first_row_error(
    m: Map<Seq<char>, Seq<char>>,
    base: Seq<char>,
    col: Seq<char>,
    e: ErrorView,
) -> bool {
    if table_ok(m, base) {
        first_row_number(m, base, col) == Err::<Option<u64>, ErrorView>(e)
    } else {
        is_malformed_error(m, base, e)
    }
}

/// Whether the status group can be read from `m`.
pub open spec fn status_ok(m: Map<Seq<char>, Seq<char>>) -> bool {
    &&& spec_scalar::<u64>(m, ARRIS_CM_DOC30_SW_REGISTRATION_STATE@) is Ok
    &&& first_row_ok(m, DOCS_IF_DOWNSTREAM_CHANNEL_TABLE@, DOCS_IF_DOWN_CHANNEL_FREQUENCY@)
    &&& first_row_ok(m, DOCS_IF_UPSTREAM_CHANNEL_TABLE@, DOCS_IF_UP_CHANNEL_FREQUENCY@)
}

/// Whether `e` is the error of the status group on `m`: that of the
/// registration state, else of the downstream frequency, else of the
/// upstream frequency.
pub open spec fn status_error(m: Map<Seq<char>, Seq<char>>, e: ErrorView) -> bool {
    match spec_scalar::<u64>(m, ARRIS_CM_DOC30_SW_REGISTRATION_STATE@) {
        Err(x) => e == x,
        Ok(_) => if !first_row_ok(m, DOCS_IF_DOWNSTREAM_CHANNEL_TABLE@, DOCS_IF_DOWN_CHANNEL_FREQUENCY@) {
            first_row_error(m, DOCS_IF_DOWNSTREAM_CHANNEL_TABLE@, DOCS_IF_DOWN_CHANNEL_FREQUENCY@, e)
        } else {
            first_row_error(m, DOCS_IF_UPSTREAM_CHANNEL_TABLE@, DOCS_IF_UP_CHANNEL_FREQUENCY@, e)
        },
    }
}

/// The status group read from `m`, where [`status_ok`] holds.
pub open spec fn spec_status(m: Map<Seq<char>, Seq<char>>) -> StatusMetrics {
    StatusMetrics {
        acquired_down_channel_frequency: first_row_number(
            m,
            DOCS_IF_DOWNSTREAM_CHANNEL_TABLE@,
            DOCS_IF_DOWN_CHANNEL_FREQUENCY@,
        )->Ok_0,
        ranged_up_channel_frequency: first_row_number(
            m,
            DOCS_IF_UPSTREAM_CHANNEL_TABLE@,
            DOCS_IF_UP_CHANNEL_FREQUENCY@,
        )->Ok_0,
        provisioning_state: spec_scalar::<u64>(m, ARRIS_CM_DOC30_SW_REGISTRATION_STATE@)->Ok_0,
    }
}

/// Column `column` of the first row of table `table`, as a number.
fn read_first_row(router_status: &List, table: &str, column: &str) -> (r: Result<
    Option<u64>,
    ScrapeError,
>)
    ensures
        match r {
            Ok(v) => first_row_ok(router_status@, table@, column@) && first_row_number(
                router_status@,
                table@,
                column@,
            ) == Ok::<Option<u64>, ErrorView>(v),
            Err(e) => !first_row_ok(router_status@, table@, column@) && first_row_error(
                router_status@,
                table@,
                column@,
                e@,
            ),
        },
{
    let rows = match router_status.get_table(&OID::new(table)) {
        Ok(t) => t,
        Err(e) => return Err(e),
    };
    match rows.get(FIRST_CHANNEL_INDEX) {
        Some(row) => match row.parse_column::<u64>(&OID::new(column)) {
            Ok(v) => Ok(Some(v)),
            Err(e) => Err(e),
        },
        None => Ok(None),
    }
}

impl StatusMetrics {
    /// No frequencies and a zero registration state.
    pub open spec fn new_spec() -> StatusMetrics {
        StatusMetrics {
            acquired_down_channel_frequency: None,
            ranged_up_channel_frequency: None,
            provisioning_state: 0,
        }
    }

    pub fn new() -> (r: StatusMetrics)
        ensures
            r == Self::new_spec(),
    {
        StatusMetrics {
            acquired_down_channel_frequency: None,
            ranged_up_channel_frequency: None,
            provisioning_state: 0,
        }
    }

    /// Reads the registration state and the two first-channel frequencies.
    /// On success the group holds them; on failure it is left as it was.
    pub fn set(&mut self, router_status: &List) -> (r: Result<(), ScrapeError>)
        ensures
            (r is Ok) <==> status_ok(router_status@),
            r is Ok ==> *final(self) == spec_status(router_status@),
            r is Err ==> *final(self) == *old(self),
            match r {
                Err(e) => status_error(router_status@, e@),
                Ok(_) => true,
            },
    {
        let provisioning_state = match router_status.parse_scalar::<u64>(
            &OID::new(ARRIS_CM_DOC30_SW_REGISTRATION_STATE),
        ) {
            Ok(v) => v,
            Err(e) => return Err(e),
        };
        let down = match read_first_row(
            router_status,
            DOCS_IF_DOWNSTREAM_CHANNEL_TABLE,
            DOCS_IF_DOWN_CHANNEL_FREQUENCY,
        ) {
            Ok(v) => v,
            Err(e) => return Err(e),
        };
        let up = match read_first_row(
            router_status,
            DOCS_IF_UPSTREAM_CHANNEL_TABLE,
            DOCS_IF_UP_CHANNEL_FREQUENCY,
        ) {
            Ok(v) => v,
            Err(e) => return Err(e),
        };
        *self = StatusMetrics {
            acquired_down_channel_frequency: down,
            ranged_up_channel_frequency: up,
            provisioning_state,
        };
        Ok(())
    }
}

} // verus!
