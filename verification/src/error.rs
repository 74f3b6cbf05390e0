use vstd::prelude::*;

verus! {

/// Why a transition was refused. A refused transition changes nothing.
#[derive(Clone, Copy, Debug, PartialEq, Eq, Structural)]
pub enum ErrorCode {
    /// The listing no longer trades.
    ListingNotActive,
    /// More was asked for than the listing still offers.
    InsufficientAmount,
    /// A number left the range of 64 bits.
    Overflow,
    /// The listing still trades, so its record cannot be released.
    ListingStillActive,
    /// The listing still owes inventory, so its record cannot be released.
    ListingHasTokens,
    /// The unit price is zero.
    InvalidPrice,
    /// The listed amount is zero.
    InvalidAmount,
    /// The listed amount is under the smallest lot.
    AmountTooSmall,
    /// Someone other than the party entitled to act was presented.
    Unauthorized,
    /// A holding has less than was to be moved out of it.
    InsufficientFunds,
    /// No custodian identity could be derived.
    DerivationFailed,
    /// The record to be created exists already.
    AlreadyInitialized,
    /// The record to be released does not exist.
    NotInitialized,
}

/// The kinds of refusal, by what the caller can do about them.
#[derive(Clone, Copy, Debug, PartialEq, Eq, Structural)]
pub enum ErrorKind {
    /// The request itself is malformed: correct it and submit it again.
    Validation,
    /// The state does not admit the transition: look at the state before trying again.
    State,
    /// The party presented is not the one entitled to act.
    Authorization,
    /// A number cannot be represented.
    Arithmetic,
    /// A transfer of asset or currency was refused.
    Settlement,
    /// No custodian could be set up.
    Setup,
}

/// The first number of the range in which error codes are reported.
pub const ERROR_CODE_OFFSET: u32 = 6000;

impl ErrorCode {
    /// The position of this error among the others, counted from zero.
    pub open spec fn ordinal(self) -> int {
        match self {
            ErrorCode::ListingNotActive => 0,
            ErrorCode::InsufficientAmount => 1,
            ErrorCode::Overflow => 2,
            ErrorCode::ListingStillActive => 3,
            ErrorCode::ListingHasTokens => 4,
            ErrorCode::InvalidPrice => 5,
            ErrorCode::InvalidAmount => 6,
            ErrorCode::AmountTooSmall => 7,
            ErrorCode::Unauthorized => 8,
            ErrorCode::InsufficientFunds => 9,
            ErrorCode::DerivationFailed => 10,
            ErrorCode::AlreadyInitialized => 11,
            ErrorCode::NotInitialized => 12,
        }
    }

    /// The kind of refusal that this error is.
    pub open spec fn kind_of(self) -> ErrorKind {
        match self {
            ErrorCode::InvalidPrice | ErrorCode::InvalidAmount | ErrorCode::AmountTooSmall => {
                ErrorKind::Validation
            },
            ErrorCode::ListingNotActive
            | ErrorCode::InsufficientAmount
            | ErrorCode::ListingStillActive
            | ErrorCode::ListingHasTokens
            | ErrorCode::AlreadyInitialized
            | ErrorCode::NotInitialized => ErrorKind::State,
            ErrorCode::Unauthorized => ErrorKind::Authorization,
            ErrorCode::Overflow => ErrorKind::Arithmetic,
            ErrorCode::InsufficientFunds => ErrorKind::Settlement,
            ErrorCode::DerivationFailed => ErrorKind::Setup,
        }
    }

    /// The text that describes this error to a person.
    pub open spec fn message_text(self) -> Seq<char> {
        match self {
            ErrorCode::ListingNotActive => "Listing is not active"@,
            ErrorCode::InsufficientAmount => "Insufficient amount in listing"@,
            ErrorCode::Overflow => "Arithmetic overflow"@,
            ErrorCode::ListingStillActive => "Listing is still active"@,
            ErrorCode::ListingHasTokens => "Listing still has tokens"@,
            ErrorCode::InvalidPrice => "Price must be greater than zero"@,
            ErrorCode::InvalidAmount => "Amount must be greater than zero"@,
            ErrorCode::AmountTooSmall => "Amount too small, minimum 0.001 tokens"@,
            ErrorCode::Unauthorized => "Caller is not authorized"@,
            ErrorCode::InsufficientFunds => "Insufficient funds"@,
            ErrorCode::DerivationFailed => "No custodian could be derived"@,
            ErrorCode::AlreadyInitialized => "Record is already initialized"@,
            ErrorCode::NotInitialized => "Record is not initialized"@,
        }
    }

    /// The kind of refusal that this error is.
    pub fn kind(&self) -> (kind: ErrorKind)
        ensures
            kind == self.kind_of(),
    {
        match self {
            ErrorCode::InvalidPrice | ErrorCode::InvalidAmount | ErrorCode::AmountTooSmall => {
                ErrorKind::Validation
            },
            ErrorCode::ListingNotActive
            | ErrorCode::InsufficientAmount
            | ErrorCode::ListingStillActive
            | ErrorCode::ListingHasTokens
            | ErrorCode::AlreadyInitialized
            | ErrorCode::NotInitialized => ErrorKind::State,
            ErrorCode::Unauthorized => ErrorKind::Authorization,
            ErrorCode::Overflow => ErrorKind::Arithmetic,
            ErrorCode::InsufficientFunds => ErrorKind::Settlement,
            ErrorCode::DerivationFailed => ErrorKind::Setup,
        }
    }

    /// The number under which this error is reported: the offset plus its position.
    pub fn code(&self) -> (code: u32)
        ensures
            code == ERROR_CODE_OFFSET + self.ordinal(),
    {
        let position: u32 = match self {
            ErrorCode::ListingNotActive => 0,
            ErrorCode::InsufficientAmount => 1,
            ErrorCode::Overflow => 2,
            ErrorCode::ListingStillActive => 3,
            ErrorCode::ListingHasTokens => 4,
            ErrorCode::InvalidPrice => 5,
            ErrorCode::InvalidAmount => 6,
            ErrorCode::AmountTooSmall => 7,
            ErrorCode::Unauthorized => 8,
            ErrorCode::InsufficientFunds => 9,
            ErrorCode::DerivationFailed => 10,
            ErrorCode::AlreadyInitialized => 11,
            ErrorCode::NotInitialized => 12,
        };
        ERROR_CODE_OFFSET + position
    }

    /// The text that describes this error to a person.
    pub fn message(&self) -> (text: String)
        ensures
            text@ == self.message_text(),
    {
        match self {
            ErrorCode::ListingNotActive => "Listing is not active".to_owned(),
            ErrorCode::InsufficientAmount => "Insufficient amount in listing".to_owned(),
            ErrorCode::Overflow => "Arithmetic overflow".to_owned(),
            ErrorCode::ListingStillActive => "Listing is still active".to_owned(),
            ErrorCode::ListingHasTokens => "Listing still has tokens".to_owned(),
            ErrorCode::InvalidPrice => "Price must be greater than zero".to_owned(),
            ErrorCode::InvalidAmount => "Amount must be greater than zero".to_owned(),
            ErrorCode::AmountTooSmall => "Amount too small, minimum 0.001 tokens".to_owned(),
            ErrorCode::Unauthorized => "Caller is not authorized".to_owned(),
            ErrorCode::InsufficientFunds => "Insufficient funds".to_owned(),
            ErrorCode::DerivationFailed => "No custodian could be derived".to_owned(),
            ErrorCode::AlreadyInitialized => "Record is already initialized".to_owned(),
            ErrorCode::NotInitialized => "Record is not initialized".to_owned(),
        }
    }
}

} // verus!
