use vstd::prelude::*;

verus! {

/// A control message carried from the pool to its workers: either a job to
/// run or a request to stop.
pub enum Message<J> {
    Work(J),
    Stop,
}

impl<J> Message<J> {
    /// Whether this message asks its receiver to stop.
    pub fn is_stop(&self) -> (r: bool)
        ensures
            r == (self is Stop),
    {
        match self {
            Message::Work(_) => false,
            Message::Stop => true,
        }
    }
}

} // verus!
