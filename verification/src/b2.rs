//! B2 application credentials.
//!
//! Only the value type lives here; looking credentials up (environment,
//! account-info database) is the application shell's business.

use vstd::prelude::*;

verus! {

/// A B2 application key pair.
#[derive(Clone, Debug)]
pub struct Credentials {
    pub key_id: String,
    pub key: String,
}

} // verus!
