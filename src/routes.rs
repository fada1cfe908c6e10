//! The pages of the dashboard.
use vstd::prelude::*;

verus! {

/// A page of the dashboard; `ServerDetail` names the server shown.
#[derive(Clone, Debug, PartialEq)]
pub enum Route {
    Dashboard,
    Servers,
    ServerDetail { id: String },
    Logs,
}

} // verus!
