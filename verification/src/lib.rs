//! Support logic for programs split across a host CPU and a massively
//! parallel compute accelerator.
//!
//! The build-time half decides which precompiled accelerator-side library
//! artifacts must be linked, from the target architecture and the enabled
//! hardware features: the feature-set normalizer ([`features`]), the
//! architecture classifier ([`target`]) and the link-plan resolver
//! ([`linkplan`]).
//!
//! The execution-time half is the host-bridge runtime: the fixed
//! cross-boundary marshalling convention for dynamic memory, console output
//! and host-resident function calls ([`hostcall`]), the dispatch descriptor
//! ([`dispatch`]) and the per-lane panic/abort path ([`lane`]).

pub mod dispatch;
pub mod features;
pub mod flags;
pub mod hostcall;
pub mod lane;
pub mod linkplan;
pub mod target;
pub mod util;
