//! What the station form reports.
use vstd::prelude::*;

use super::StaConfiguration;

verus! {

/// What the station form reports: nothing changed, some input is in error, or the
/// settings it describes.
pub enum StaState {
    Unchanged,
    Errors,
    Conf(StaConfiguration),
}

impl StaState {
    pub fn conf(&self) -> (r: Option<&StaConfiguration>)
        ensures
            match *self {
                StaState::Conf(c) => r == Some(&c),
                _ => r is None,
            },
    {
        match self {
            StaState::Conf(c) => Some(c),
            _ => None,
        }
    }
}

} // verus!
