//! Per-object state and tick decisions of a ray-casting controller plugin:
//! each attached object casts a ray forward every tick until it hits something,
//! moving forward between casts, and reports the hit once.
pub mod hit_table;
pub mod laws;
pub mod report;
