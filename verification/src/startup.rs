//! What the service is started with.

use crate::configurations::ApplicationSettings;
use crate::text::{decimal, decimal_text};
use vstd::prelude::*;

verus! {

/// The address under which the service is reached from outside, as it
/// stands in the links that the service sends.
pub struct ApplicationBaseUrl(pub String);

pub const PORT_SEPARATOR: &'static str = ":";

/// The address that the service listens on: the configured host and port.
pub fn listen_address(application: &ApplicationSettings) -> (address: String)
    ensures
        address@ == application.host@ + PORT_SEPARATOR@ + decimal(application.port as nat),
{
    application.host.clone().concat(PORT_SEPARATOR).concat(
        decimal_text(application.port).as_str(),
    )
}

} // verus!
