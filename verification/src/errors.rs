//! The reasons for which an operation is aborted.
use vstd::prelude::*;

verus! {

/// Why an operation was aborted. An aborted operation changes nothing.
#[derive(Clone, Copy, Debug, PartialEq, Eq, Structural)]
pub enum MarketError {
    /// The caller does not control the principal it claims to act for.
    Unauthorized,
    /// The resource is inactive or has fewer hours left than were asked for.
    ResourceUnavailable,
    /// The rental has already been marked as completed.
    AlreadyCompleted,
    /// The rental belongs to another provider.
    ProviderMismatch,
    /// The token total or the next rental id does not fit in 64 bits.
    Overflow,
}

impl MarketError {
    /// The text of [`MarketError::message`].
    pub open spec fn message_text(self) -> Seq<char> {
        match self {
            MarketError::Unauthorized => "Unauthorized"@,
            MarketError::ResourceUnavailable => "Resource not available"@,
            MarketError::AlreadyCompleted => "Already completed"@,
            MarketError::ProviderMismatch => "Only the provider can complete this rental"@,
            MarketError::Overflow => "Arithmetic overflow"@,
        }
    }

    /// A short text for the abort, for hosts that report one.
    pub fn message(&self) -> (text: &'static str)
        ensures
            text@ == self.message_text(),
    {
        match self {
            MarketError::Unauthorized => "Unauthorized",
            MarketError::ResourceUnavailable => "Resource not available",
            MarketError::AlreadyCompleted => "Already completed",
            MarketError::ProviderMismatch => "Only the provider can complete this rental",
            MarketError::Overflow => "Arithmetic overflow",
        }
    }
}

} // verus!
