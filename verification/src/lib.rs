//! Frame bookkeeping, configuration and receive-path decisions for AF_XDP
//! sockets: the parts of an AF_XDP driver that can be stated and proved
//! without touching the kernel rings themselves.
pub mod decimal;
pub mod defaults;
pub mod desc;
pub mod umem;
pub mod xsk_stream;
