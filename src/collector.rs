//! One scrape cycle: fetch result in, every group updated together or none.
use crate::configuration_metrics::{
    configuration_error, configuration_ok, spec_configuration, ConfigurationMetrics,
};
use crate::downstream_metrics::{
    downstream_channels, downstream_error, downstream_ok, DownstreamMetrics,
};
use crate::error::{ErrorView, ScrapeError};
use crate::snmp::List;
use crate::status_metrics::{spec_status, status_error, status_ok, StatusMetrics};
use crate::upstream_metrics::{upstream_channels, upstream_error, upstream_ok, UpstreamMetrics};
use vstd::prelude::*;

verus! {

/// The up indicator and every group's values. A cycle that fails changes
/// only the up indicator, so a group never mixes values of two cycles.
#[derive(Clone, Debug)]
pub struct Collector {
    /// 1 when the last cycle succeeded, 0 when it failed.
    pub up: u64,
    pub status_metrics: StatusMetrics,
    pub downstream_metrics: DownstreamMetrics,
    pub upstream_metrics: UpstreamMetrics,
    pub configuration_metrics: ConfigurationMetrics,
}

/// Whether every group can be read from snapshot `m`.
pub open spec fn scrape_ok(m: Map<Seq<char>, Seq<char>>) -> bool {
    status_ok(m) && downstream_ok(m) && upstream_ok(m) && configuration_ok(m)
}

/// Whether `e` is the error of a cycle on snapshot `m`: that of the first
/// group, in the order status, downstream, upstream, configuration, that
/// cannot be read.
pub open spec fn scrape_error(m: Map<Seq<char>, Seq<char>>, e: ErrorView) -> bool {
    if !status_ok(m) {
        status_error(m, e)
    } else if !downstream_ok(m) {
        downstream_error(m, e)
    } else if !upstream_ok(m) {
        upstream_error(m, e)
    } else {
        configuration_error(m, e)
    }
}

/// Whether the groups of `c` hold exactly what snapshot `m` gives.
pub open spec fn groups_hold(c: Collector, m: Map<Seq<char>, Seq<char>>) -> bool {
    &&& c.status_metrics == spec_status(m)
    &&& downstream_channels(m, c.downstream_metrics.channels@)
    &&& upstream_channels(m, c.upstream_metrics.channels@)
    &&& c.configuration_metrics == spec_configuration(m)
}

/// Whether `a` and `b` hold the same group values.
pub open spec fn same_groups(a: Collector, b: Collector) -> bool {
    &&& a.status_metrics == b.status_metrics
    &&& a.downstream_metrics == b.downstream_metrics
    &&& a.upstream_metrics == b.upstream_metrics
    &&& a.configuration_metrics == b.configuration_metrics
}

impl Collector {
    /// A collector before its first cycle: down, with zero values.
    pub fn new() -> (r: Collector)
        ensures
            r.up == 0,
            r.status_metrics == StatusMetrics::new_spec(),
            r.downstream_metrics.channels@.len() == 0,
            r.upstream_metrics.channels@.len() == 0,
            r.configuration_metrics == ConfigurationMetrics::new_spec(),
    {
        Collector {
            up: 0,
            status_metrics: StatusMetrics::new(),
            downstream_metrics: DownstreamMetrics::new(),
            upstream_metrics: UpstreamMetrics::new(),
            configuration_metrics: ConfigurationMetrics::new(),
        }
    }

    /// Reads every group from one snapshot; stores them only if all succeed.
    fn update(&mut self, router_status: &List) -> (r: Result<(), ScrapeError>)
        ensures
            (r is Ok) <==> scrape_ok(router_status@),
            r is Ok ==> groups_hold(*final(self), router_status@),
            r is Err ==> *final(self) == *old(self),
            match r {
                Err(e) => scrape_error(router_status@, e@),
                Ok(_) => true,
            },
    {
        let mut status_metrics = StatusMetrics::new();
        match status_metrics.set(router_status) {
            Ok(()) => {},
            Err(e) => return Err(e),
        }
        let mut downstream_metrics = DownstreamMetrics::new();
        match downstream_metrics.set(router_status) {
            Ok(()) => {},
            Err(e) => return Err(e),
        }
        let mut upstream_metrics = UpstreamMetrics::new();
        match upstream_metrics.set(router_status) {
            Ok(()) => {},
            Err(e) => return Err(e),
        }
        let mut configuration_metrics = ConfigurationMetrics::new();
        match configuration_metrics.set(router_status) {
            Ok(()) => {},
            Err(e) => return Err(e),
        }
        self.status_metrics = status_metrics;
        self.downstream_metrics = downstream_metrics;
        self.upstream_metrics = upstream_metrics;
        self.configuration_metrics = configuration_metrics;
        Ok(())
    }

    /// Runs one scrape cycle on the fetched snapshot (`None` when the fetch
    /// failed). On success `up` is 1 and every group holds this snapshot's
    /// values, all of which are to be exposed; on failure `up` is 0, the
    /// groups keep their values, and only `up` is to be exposed.
    pub fn collect(&mut self, fetched: Option<List>) -> (r: Result<(), ScrapeError>)
        ensures
            (r is Ok) <==> (fetched is Some && scrape_ok(fetched->0@)),
            final(self).up == if r is Ok {
                1u64
            } else {
                0u64
            },
            r is Ok ==> groups_hold(*final(self), fetched->0@),
            r is Err ==> same_groups(*final(self), *old(self)),
            fetched is None ==> r == Err::<(), ScrapeError>(ScrapeError::FetchFailed),
            match r {
                Err(e) => fetched is Some ==> scrape_error(fetched->0@, e@),
                Ok(_) => true,
            },
    {
        let result = match fetched {
            None => Err(ScrapeError::FetchFailed),
            Some(router_status) => self.update(&router_status),
        };
        match result {
            Ok(()) => {
                self.up = 1;
                Ok(())
            },
            Err(e) => {
                self.up = 0;
                Err(e)
            },
        }
    }
}

} // verus!
