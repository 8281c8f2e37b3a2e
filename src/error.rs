//! Why a scrape cycle fails.
use crate::configuration_metrics::QOSServiceFlowDirection;
use vstd::prelude::*;

verus! {

/// A failure that collapses the whole scrape cycle.
#[derive(Clone, Debug, PartialEq, Eq)]
pub enum ScrapeError {
    /// The snapshot could not be fetched or decoded.
    FetchFailed,
    /// The snapshot has no value at the scalar's key (`<base>.0`).
    ScalarNotFound { oid: String },
    /// A row lacks a column that its conversion needs.
    ColumnNotFound { column: String },
    /// A key under a table's entry prefix has no row index after its column.
    MalformedIndex { oid: String },
    /// A numeric column or scalar holds text that is not a number of its type.
    InvalidNumber { column: String, value: String },
    /// An enumerated column or scalar holds a code outside its set.
    UnknownEnumCode { column: String, value: String },
    /// A row index of a primary table is absent from a table joined to it.
    RowJoinMismatch { index: String },
    /// No service flow of the direction is flagged primary.
    PrimaryFlowNotFound { direction: QOSServiceFlowDirection },
    /// More than one service flow of the direction is flagged primary.
    AmbiguousPrimaryFlow { direction: QOSServiceFlowDirection },
    /// The primary flow has no parameter set under its row index.
    ParamSetNotFound { index: String },
    /// The last component of the primary flow's row index is not a number.
    InvalidFlowId { index: String },
}

/// The mathematical value of a [`ScrapeError`]: its text as character sequences.
pub enum ErrorView {
    FetchFailed,
    ScalarNotFound { oid: Seq<char> },
    ColumnNotFound { column: Seq<char> },
    MalformedIndex { oid: Seq<char> },
    InvalidNumber { column: Seq<char>, value: Seq<char> },
    UnknownEnumCode { column: Seq<char>, value: Seq<char> },
    RowJoinMismatch { index: Seq<char> },
    PrimaryFlowNotFound { direction: QOSServiceFlowDirection },
    AmbiguousPrimaryFlow { direction: QOSServiceFlowDirection },
    ParamSetNotFound { index: Seq<char> },
    InvalidFlowId { index: Seq<char> },
}

impl View for ScrapeError {
    type V = ErrorView;

    open spec fn view(&self) -> ErrorView {
        match self {
            ScrapeError::FetchFailed => ErrorView::FetchFailed,
            ScrapeError::ScalarNotFound { oid } => ErrorView::ScalarNotFound { oid: oid@ },
            ScrapeError::ColumnNotFound { column } => ErrorView::ColumnNotFound { column: column@ },
            ScrapeError::MalformedIndex { oid } => ErrorView::MalformedIndex { oid: oid@ },
            ScrapeError::InvalidNumber { column, value } => ErrorView::InvalidNumber {
                column: column@,
                value: value@,
            },
            ScrapeError::UnknownEnumCode { column, value } => ErrorView::UnknownEnumCode {
                column: column@,
                value: value@,
            },
            ScrapeError::RowJoinMismatch { index } => ErrorView::RowJoinMismatch { index: index@ },
            ScrapeError::PrimaryFlowNotFound { direction } => ErrorView::PrimaryFlowNotFound {
                direction: *direction,
            },
            ScrapeError::AmbiguousPrimaryFlow { direction } => ErrorView::AmbiguousPrimaryFlow {
                direction: *direction,
            },
            ScrapeError::ParamSetNotFound { index } => ErrorView::ParamSetNotFound {
                index: index@,
            },
            ScrapeError::InvalidFlowId { index } => ErrorView::InvalidFlowId { index: index@ },
        }
    }
}

/// A result with its error replaced by the error's view.
pub open spec fn result_view<T>(r: Result<T, ScrapeError>) -> Result<T, ErrorView> {
    match r {
        Ok(v) => Ok(v),
        Err(e) => Err(e@),
    }
}

} // verus!
