use vstd::prelude::*;

verus! {

/// A system fault: what was being done, and what went wrong underneath.
#[derive(Debug)]
pub struct Fault {
    pub context: String,
    pub cause: String,
}

/// The mathematical content of a `Fault`.
pub struct FaultView {
    pub context: Seq<char>,
    pub cause: Seq<char>,
}

impl View for Fault {
    type V = FaultView;

    open spec fn view(&self) -> FaultView {
        FaultView { context: self.context@, cause: self.cause@ }
    }
}

/// What a caller of the store can get back as an error.
#[derive(Debug)]
pub enum Failure {
    /// A caller fault, with a message for humans.
    Reject(String),
    /// A system fault.
    Error(Fault),
}

/// A fault as one line of text: the context, then the cause.
pub open spec fn fault_message(f: FaultView) -> Seq<char> {
    f.context + ": "@ + f.cause
}

impl Fault {
    /// The fault as one line of text: the context, then the cause.
    pub fn message(&self) -> (r: String)
        ensures
            r@ == fault_message(self@),
    {
        let mut r = self.context.clone();
        r.append(": ");
        r.append(self.cause.as_str());
        r
    }
}

impl Failure {
    /// The failure as text for humans.
    pub fn message(&self) -> (r: String)
        ensures
            match self {
                Failure::Reject(m) => r@ == m@,
                Failure::Error(f) => r@ == fault_message(f@),
            },
    {
        match self {
            Failure::Reject(m) => m.clone(),
            Failure::Error(f) => f.message(),
        }
    }
}

impl From<String> for Failure {
    /// A caller fault with this message.
    fn from(value: String) -> (r: Failure) {
        Failure::Reject(value)
    }
}

impl vstd::std_specs::convert::FromSpecImpl<String> for Failure {
    open spec fn obeys_from_spec() -> bool {
        true
    }

    open spec fn from_spec(v: String) -> Failure {
        Failure::Reject(v)
    }
}

impl From<Fault> for Failure {
    /// A system fault.
    fn from(value: Fault) -> (r: Failure) {
        Failure::Error(value)
    }
}

impl vstd::std_specs::convert::FromSpecImpl<Fault> for Failure {
    open spec fn obeys_from_spec() -> bool {
        true
    }

    open spec fn from_spec(v: Fault) -> Failure {
        Failure::Error(v)
    }
}

} // verus!
