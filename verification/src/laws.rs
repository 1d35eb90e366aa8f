//! Laws of the library: what its functions give, stated over the arguments that they take and the
//! results that they return, whatever the calls are.

pub mod building;
pub mod lookups;
pub mod records;
pub mod references;
pub mod times;
