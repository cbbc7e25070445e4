pub mod static_ref;
pub mod leasable_buffer;
