//! The storage adapters: each injects one kind of fault.

pub mod dm_delay_adapter;
pub mod full_disk_adapter;
pub mod mount;
pub mod read_only_adapter;
