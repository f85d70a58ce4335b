use vstd::prelude::*;

verus! {

/// A message sent to the scheduler of a graph of components.
pub enum CompMsg {
    /// The named component has an information packet waiting and should run.
    Start(String),
}

} // verus!
