//! Values shared with every request handler.

use vstd::prelude::*;

verus! {

/// The public base URL of the application, used to build links.
pub struct ApplicationBaseUrl(pub String);

/// The secret that signs cookies and flash messages.
#[derive(Clone)]
pub struct HmacSecret(pub String);

} // verus!
