//! Normalises sparse compute-instance records into uniform display records
//! and lays them out as an aligned text table.

pub mod aggregate;
pub mod instance;
pub mod raw;
pub mod scan;
pub mod table;
pub mod text;
pub mod timestamp;
