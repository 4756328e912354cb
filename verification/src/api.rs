//! The base contract every gateway handle offers. The native handles that
//! implement it live with the runtime around the library; the trait is
//! declared here so the rest of the crate can name the common surface.

use vstd::prelude::*;

use crate::error::CtpResult;

verus! {

/// Basic operations of a gateway handle.
pub trait CtpApi {
    /// The native library's version text.
    fn get_version() -> CtpResult<String>;

    /// Initializes the handle and starts the native session.
    fn init(&mut self) -> CtpResult<()>;

    /// Releases the handle's resources.
    fn release(&mut self);

    /// The current trading day.
    fn get_trading_day(&self) -> CtpResult<String>;

    /// Registers a front address.
    fn register_front(&mut self, front_address: &str) -> CtpResult<()>;

    /// Waits for the native session thread to end.
    fn join(&self) -> CtpResult<i32>;
}

/// The library's version text.
pub const VERSION: &'static str = "1.0.3";

} // verus!
