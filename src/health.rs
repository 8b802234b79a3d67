//! The store-connectivity summary behind the health endpoint.
use vstd::prelude::*;
use crate::error::{message_of, ServiceResult};

verus! {

/// The service is healthy exactly when the store answered its probe; a
/// failed probe carries the failure's message.
pub struct HealthReport {
    pub degraded: bool,
    pub store_error: Option<String>,
}

impl HealthReport {
    pub fn from_probe(probe: &ServiceResult<()>) -> (r: HealthReport)
        ensures
            r.degraded == (probe is Err),
            match probe {
                Ok(_) => r.store_error is None,
                Err(e) => r.store_error matches Some(m) && m@ == message_of(*e),
            },
    {
        match probe {
            Ok(_) => HealthReport { degraded: false, store_error: None },
            Err(e) => HealthReport { degraded: true, store_error: Some(e.message()) },
        }
    }

    /// `"ok"` or `"degraded"`.
    pub fn status(&self) -> (r: &'static str)
        ensures
            r@ == (if self.degraded { "degraded"@ } else { "ok"@ }),
    {
        if self.degraded {
            "degraded"
        } else {
            "ok"
        }
    }
}

} // verus!
