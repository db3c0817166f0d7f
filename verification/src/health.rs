//! Readiness checks for the service's dependencies.

use vstd::prelude::*;

verus! {

/// Why a data source reports itself not ready.
#[derive(Clone, Copy, Debug, PartialEq, Eq, Structural)]
pub enum DataSourceError {
    /// One or more dependent services are unavailable.
    DependencyFailure,
    /// The service has been told to shut down.
    ShuttingDown,
}

/// A dependency that can say whether the system is healthy and ready to
/// accept requests.  Implementations are supplied by the surrounding
/// service.
pub trait DataSource {
    /// Performs the source's checks; `Ok` means ready.
    fn is_ready(&self) -> Result<(), DataSourceError>;
}

/// The data source the readiness route consults, taken from the
/// application state.
pub struct StateDataSource<S> {
    pub source: S,
}

impl<S: DataSource> StateDataSource<S> {
    pub fn new(dds: S) -> (r: Self)
        ensures
            r.source == dds,
    {
        StateDataSource { source: dds }
    }
}

impl<S: DataSource> DataSource for StateDataSource<S> {
    fn is_ready(&self) -> Result<(), DataSourceError> {
        self.source.is_ready()
    }
}

} // verus!
