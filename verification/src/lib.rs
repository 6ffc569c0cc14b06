//! Virtual interrupt controller of a static-partitioning hypervisor for
//! ARM multicore hardware.
//!
//! Every guest sees a GICv3-style distributor (GICD) and one redistributor
//! (GICR) per virtual CPU.  Guest accesses to those windows trap; the
//! handlers in [`arch::aarch64::gic`] turn each access into reads and updates
//! of per-interrupt records, and every handler carries a contract over the
//! mathematical view of the machine it works on.
//!
//! What the emulation decides where the architecture leaves room:
//!
//! - An access may start at any byte of a register and span one to eight
//!   bytes; it covers the fields whose bits lie in those bytes.  An access of
//!   no byte, or of more than eight, is refused with an error.
//! - An access to an offset that the register tables do not know is refused
//!   with an error that names the offset.  It never yields a value.
//! - The wake register and the group register of a redistributor read as
//!   zero and ignore writes.  That is a simplification, not what the
//!   hardware does.
//! - An interrupt that a register has room for but the machine has no record
//!   of reads as zero and ignores writes.
//!
//! The handlers take the machine by `&mut`, so Rust already keeps two of them
//! from running on one machine at once.  They still take the spin locks of
//! the records they touch, a redistributor's lock around the whole access and
//! each interrupt's lock around its field, because a hypervisor reaches the
//! same records from paths that this crate does not see.  The contracts say
//! nothing about the locks: to the verifier a lock is an opaque value.

pub mod arch;
pub mod baocore;
pub mod util;
