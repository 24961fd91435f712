use vstd::prelude::*;
use vstd::std_specs::convert::FromSpecImpl;
use vstd::string::StringExecFns;

verus! {

/// The kind of a payment.
#[allow(non_camel_case_types)]
#[derive(Debug, Clone, Copy, PartialEq, Eq, Structural)]
pub enum Type {
    TO_BUSINESS,
    REFUND_TO_BUSINESS,
}

/// What can be done to a payment that exists.
#[allow(non_camel_case_types)]
#[derive(Debug, Clone, Copy, PartialEq, Eq, Structural)]
pub enum Action {
    /// to confirm a pending payment created by the users
    ACCEPT,
    /// to cancel a pending payment
    CANCEL,
    /// to request a payment to be either canceled if still pending or refunded if already accepted
    CANCEL_OR_REFUND,
}

/// The way in which a new payment comes about.
#[allow(non_camel_case_types)]
#[derive(Debug, Clone, Copy, PartialEq, Eq, Structural)]
pub enum Flow {
    MATCH_CODE,
    MATCH_USER,
    REFUND,
    PRE_AUTHORIZED,
}

/// The state of a payment.
#[derive(Debug, Clone, Copy, PartialEq, Eq, Structural)]
pub enum PaymentStatus {
    PENDING,
    ACCEPTED,
    CANCELED,
}

impl Type {
    /// The name of the kind as the gateway writes it.
    pub open spec fn spec_name(self) -> Seq<char> {
        match self {
            Type::TO_BUSINESS => "TO_BUSINESS"@,
            Type::REFUND_TO_BUSINESS => "REFUND_TO_BUSINESS"@,
        }
    }

    /// The name of the kind as the gateway writes it.
    pub fn name(self) -> (name: &'static str)
        ensures
            name@ == self.spec_name(),
    {
        match self {
            Type::TO_BUSINESS => "TO_BUSINESS",
            Type::REFUND_TO_BUSINESS => "REFUND_TO_BUSINESS",
        }
    }
}

impl Action {
    /// The name of the action as the gateway reads it.
    pub open spec fn spec_name(self) -> Seq<char> {
        match self {
            Action::ACCEPT => "ACCEPT"@,
            Action::CANCEL => "CANCEL"@,
            Action::CANCEL_OR_REFUND => "CANCEL_OR_REFUND"@,
        }
    }

    /// The name of the action as the gateway reads it.
    pub fn name(self) -> (name: &'static str)
        ensures
            name@ == self.spec_name(),
    {
        match self {
            Action::ACCEPT => "ACCEPT",
            Action::CANCEL => "CANCEL",
            Action::CANCEL_OR_REFUND => "CANCEL_OR_REFUND",
        }
    }
}

impl Flow {
    /// The name of the flow as the gateway reads it.
    pub open spec fn spec_name(self) -> Seq<char> {
        match self {
            Flow::MATCH_CODE => "MATCH_CODE"@,
            Flow::MATCH_USER => "MATCH_USER"@,
            Flow::REFUND => "REFUND"@,
            Flow::PRE_AUTHORIZED => "PRE_AUTHORIZED"@,
        }
    }

    /// The name of the flow as the gateway reads it.
    pub fn name(self) -> (name: &'static str)
        ensures
            name@ == self.spec_name(),
    {
        match self {
            Flow::MATCH_CODE => "MATCH_CODE",
            Flow::MATCH_USER => "MATCH_USER",
            Flow::REFUND => "REFUND",
            Flow::PRE_AUTHORIZED => "PRE_AUTHORIZED",
        }
    }
}

impl PaymentStatus {
    /// The name of the state as the gateway writes it.
    pub open spec fn spec_name(self) -> Seq<char> {
        match self {
            PaymentStatus::ACCEPTED => "ACCEPTED"@,
            PaymentStatus::CANCELED => "CANCELED"@,
            PaymentStatus::PENDING => "PENDING"@,
        }
    }

    /// The name of the state as the gateway writes it.
    pub fn name(self) -> (name: &'static str)
        ensures
            name@ == self.spec_name(),
    {
        match self {
            PaymentStatus::ACCEPTED => "ACCEPTED",
            PaymentStatus::CANCELED => "CANCELED",
            PaymentStatus::PENDING => "PENDING",
        }
    }
}

impl From<PaymentStatus> for String {
    /// The name of the state, as a query parameter carries it.
    fn from(status: PaymentStatus) -> (text: String)
        ensures
            text@ == status.spec_name(),
    {
        String::from_str(status.name())
    }
}

/// Strings are told apart by their text, which `from` states itself;
/// nothing is said here of the string as a value.
impl FromSpecImpl<PaymentStatus> for String {
    open spec fn obeys_from_spec() -> bool {
        false
    }

    open spec fn from_spec(status: PaymentStatus) -> String {
        arbitrary()
    }
}

} // verus!
