use vstd::prelude::*;

verus! {

/// The kind of a component.
#[derive(Clone, Copy, Debug, PartialEq, Eq)]
pub enum ComponentKind {
    Standard,
    Credential,
}

impl Default for ComponentKind {
    /// A component is standard unless said otherwise.
    fn default() -> (r: Self)
        ensures
            r == ComponentKind::Standard,
    {
        ComponentKind::Standard
    }
}

/// The system a component belongs to.
#[derive(Clone, Debug, PartialEq, Eq)]
pub struct SystemView {
    pub name: String,
}

} // verus!
