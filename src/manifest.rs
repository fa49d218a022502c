use vstd::prelude::*;

verus! {

/// Binds one event signature of a contract to a handler of the mapping program.
#[derive(Clone, Debug)]
pub struct EventHandler {
    /// The event signature, such as `Transfer(address,address,uint256)`.
    pub event: String,
    /// The name of the mapping's entry point that handles the event.
    pub handler: String,
}

/// The mapping program of a data set and the events it handles.
#[derive(Clone, Debug)]
pub struct Mapping {
    /// Where the mapping program is to be loaded from.
    pub source_path: String,
    pub event_handlers: Vec<EventHandler>,
}

/// One contract whose events are indexed, and the mapping that indexes them.
#[derive(Clone, Debug)]
pub struct DataSet {
    /// The contract address, as hexadecimal text.
    pub address: String,
    pub mapping: Mapping,
}

/// A dataset definition: the data sets of one indexed dataset.
#[derive(Clone, Debug)]
pub struct DataSourceDefinition {
    pub id: String,
    pub datasets: Vec<DataSet>,
}

/// Why a runtime host could not be constructed.
#[derive(Clone, Copy, Debug, PartialEq, Eq)]
pub enum HostError {
    /// The definition holds no data set.
    NoDataSets,
    /// The contract address of the data set is not an address text.
    InvalidAddress,
}

impl DataSourceDefinition {
    /// The data set that a host is bound to: the first one.
    pub fn first_dataset(&self) -> (r: Result<&DataSet, HostError>)
        ensures
            self.datasets.len() == 0 ==> r == Err::<&DataSet, HostError>(HostError::NoDataSets),
            self.datasets.len() > 0 ==> r == Ok::<&DataSet, HostError>(&self.datasets[0]),
    {
        if self.datasets.len() == 0 {
            Err(HostError::NoDataSets)
        } else {
            Ok(&self.datasets[0])
        }
    }
}

} // verus!
