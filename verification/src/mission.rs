//! Mission descriptor: the departure and arrival bodies of a transit,
//! identified by NAIF body id.

use vstd::prelude::*;

verus! {

/// Departure / arrival selection. `None` means the endpoint is not chosen.
#[derive(Debug, Clone, Copy, PartialEq, Eq, Structural)]
pub struct Mission {
    /// Source body (NAIF id).
    pub source_body: Option<i32>,
    /// Target body (NAIF id).
    pub target_body: Option<i32>,
}

impl Default for Mission {
    fn default() -> (m: Self)
        ensures
            m.source_body is None,
            m.target_body is None,
    {
        Mission { source_body: None, target_body: None }
    }
}

impl Mission {
    /// A mission from `source` to `target`.
    pub fn new(source: i32, target: i32) -> (m: Self)
        ensures
            m.source_body == Some(source),
            m.target_body == Some(target),
    {
        Mission { source_body: Some(source), target_body: Some(target) }
    }

    /// Forget both endpoints.
    pub fn clear(&mut self)
        ensures
            final(self).source_body is None,
            final(self).target_body is None,
    {
        self.source_body = None;
        self.target_body = None;
    }
}

} // verus!
