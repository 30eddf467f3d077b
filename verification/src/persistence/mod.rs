//! What a store that keeps the snapshot in rows has to decide when it reads
//! them back.

pub mod rows;
