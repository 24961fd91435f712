use vstd::prelude::*;

verus! {

/// The kind of actor that takes part in a payment.
#[allow(non_camel_case_types)]
#[derive(Debug, Clone, Copy, PartialEq, Eq, Structural)]
pub enum Type {
    CONSUMER,
    SHOP,
}

/// One of the two actors of a payment.
#[derive(Debug, Clone, PartialEq, Eq)]
pub struct Person {
    pub id: Option<String>,
    pub person_type: Type,
    pub name: Option<String>,
}

impl Type {
    /// The name of the kind as the gateway writes it.
    pub open spec fn spec_name(self) -> Seq<char> {
        match self {
            Type::CONSUMER => "CONSUMER"@,
            Type::SHOP => "SHOP"@,
        }
    }

    /// The name of the kind as the gateway writes it.
    pub fn name(self) -> (name: &'static str)
        ensures
            name@ == self.spec_name(),
    {
        match self {
            Type::CONSUMER => "CONSUMER",
            Type::SHOP => "SHOP",
        }
    }
}

} // verus!
