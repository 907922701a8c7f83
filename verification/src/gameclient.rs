//! The messages between game clients and the backend.
use vstd::prelude::*;

verus! {

/// The query of a find-server request; it carries nothing yet.
#[derive(Debug)]
pub struct FindServerParamsV1 {}

/// Where a client should connect. An empty address means that no server
/// was found.
#[derive(Debug)]
pub struct FindServerResponseV1 {
    pub address: String,
    pub port: u16,
}

impl Default for FindServerResponseV1 {
    fn default() -> (r: Self)
        ensures
            r.address@ == Seq::<char>::empty(),
            r.port == 0,
    {
        FindServerResponseV1 { address: String::new(), port: 0 }
    }
}

} // verus!
