use vstd::prelude::*;

verus! {

/// The single error value of this library: a readable message and, where the
/// failure came from a lower layer, that layer's description.
#[derive(Debug, Clone)]
pub struct CensusError {
    pub err_msg: String,
    pub parent_err: Option<String>,
}

impl CensusError {
    /// An error with a message and no parent.
    pub fn new(msg: String) -> (r: CensusError)
        ensures
            r.err_msg@ == msg@,
            r.parent_err is None,
    {
        CensusError { err_msg: msg, parent_err: None }
    }

    /// An error with a message that wraps the description of a lower-layer failure.
    pub fn with_parent(msg: String, parent: String) -> (r: CensusError)
        ensures
            r.err_msg@ == msg@,
            r.parent_err matches Some(p) && p@ == parent@,
    {
        CensusError { err_msg: msg, parent_err: Some(parent) }
    }

    /// The text the error reads as: its message, then its parent's, if any.
    pub fn to_string(&self) -> (r: String)
        ensures
            r@ == self.text(),
    {
        let mut s = String::from_str("Census Error: ");
        s.append(self.err_msg.as_str());
        match &self.parent_err {
            Some(parent) => {
                s.append(" \nParent Error: ");
                s.append(parent.as_str());
            },
            None => {},
        }
        s
    }

    pub open spec fn text(&self) -> Seq<char> {
        match self.parent_err {
            Some(p) => "Census Error: "@ + self.err_msg@ + " \nParent Error: "@ + p@,
            None => "Census Error: "@ + self.err_msg@,
        }
    }
}

} // verus!
