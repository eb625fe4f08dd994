//! Persistence of the operation log of a batch rename: the record of a run,
//! where its dump file goes and under which name, the steps of a save and the
//! outcome of a load.
pub mod dump;
pub mod error;
pub mod load;
pub mod location;
pub mod save;
pub mod timestamp;
