//! License reporting for software bills of materials: the relational records
//! that tie packages to licenses, the aggregation of those records into a
//! per-package report, and the rendering of that report as a compressed
//! archive of two tables.

pub mod archive;
pub mod csv;
pub mod entity;
pub mod id;
pub mod ingestor;
pub mod license;
pub mod model;
pub mod store;
pub mod table;
pub mod text;
