use vstd::prelude::*;

verus! {

/// The broad kind of a service failure.
#[derive(PartialEq, Eq, Structural, Clone, Copy, Debug)]
pub enum ErrorCategory {
    Validation,
    Conflict,
    NotFound,
    Auth,
    Capacity,
    Internal,
}

/// Every way a service operation can fail.
#[derive(PartialEq, Eq, Structural, Clone, Copy, Debug)]
pub enum ServiceError {
    UsernameLength,
    EmailLength,
    PasswordLength,
    TitleLength,
    DescriptionLength,
    OptionValueLength,
    UsernameInUse,
    EmailInUse,
    UserNotFound,
    SessionNotFound,
    PollNotFound,
    PollOptionNotFound,
    PollVoteNotFound,
    VerificationNotFound,
    PasswordResetNotFound,
    InvalidVerifyId,
    InvalidResetId,
    InvalidLogin,
    NotLoggedIn,
    InvalidSession,
    NotPermitted,
    TooManyOptions,
    HashFailed,
    HashCheckFailed,
    IdsExhausted,
    DuplicateToken,
}

pub open spec fn category_of(e: ServiceError) -> ErrorCategory {
    match e {
        ServiceError::UsernameLength | ServiceError::EmailLength | ServiceError::PasswordLength
        | ServiceError::TitleLength | ServiceError::DescriptionLength
        | ServiceError::OptionValueLength => ErrorCategory::Validation,
        ServiceError::UsernameInUse | ServiceError::EmailInUse => ErrorCategory::Conflict,
        ServiceError::UserNotFound | ServiceError::SessionNotFound | ServiceError::PollNotFound
        | ServiceError::PollOptionNotFound | ServiceError::PollVoteNotFound
        | ServiceError::VerificationNotFound | ServiceError::PasswordResetNotFound
        | ServiceError::InvalidVerifyId | ServiceError::InvalidResetId => ErrorCategory::NotFound,
        ServiceError::InvalidLogin | ServiceError::NotLoggedIn | ServiceError::InvalidSession
        | ServiceError::NotPermitted => ErrorCategory::Auth,
        ServiceError::TooManyOptions => ErrorCategory::Capacity,
        ServiceError::HashFailed | ServiceError::HashCheckFailed | ServiceError::IdsExhausted
        | ServiceError::DuplicateToken => ErrorCategory::Internal,
    }
}

pub open spec fn message_of(e: ServiceError) -> Seq<char> {
    match e {
        ServiceError::UsernameLength => "Username must be between 3 and 63 characters"@,
        ServiceError::EmailLength => "Email must be between 5 and 63 characters"@,
        ServiceError::PasswordLength => "Password must be between 8 and 255 characters"@,
        ServiceError::TitleLength => "Title must be between 1 and 255 characters"@,
        ServiceError::DescriptionLength => "Description must be no more than 1023 characters"@,
        ServiceError::OptionValueLength => "Option value must be between 1 and 255 characters"@,
        ServiceError::UsernameInUse => "Username is in use"@,
        ServiceError::EmailInUse => "Email is in use"@,
        ServiceError::UserNotFound => "User does not exist"@,
        ServiceError::SessionNotFound => "Session does not exist"@,
        ServiceError::PollNotFound => "Poll does not exist"@,
        ServiceError::PollOptionNotFound => "Poll option does not exist"@,
        ServiceError::PollVoteNotFound => "Poll vote does not exist"@,
        ServiceError::VerificationNotFound => "Verification record does not exist"@,
        ServiceError::PasswordResetNotFound => "Password reset record does not exist"@,
        ServiceError::InvalidVerifyId => "Invalid verify ID"@,
        ServiceError::InvalidResetId => "Invalid password reset ID"@,
        ServiceError::InvalidLogin => "Invalid login"@,
        ServiceError::NotLoggedIn => "Not logged in"@,
        ServiceError::InvalidSession => "User or session does not exist"@,
        ServiceError::NotPermitted => "You do not have permission to edit this poll"@,
        ServiceError::TooManyOptions => "Maximum number of poll options has been reached"@,
        ServiceError::HashFailed => "Failed to hash password"@,
        ServiceError::HashCheckFailed => "Failed to verify password hash"@,
        ServiceError::IdsExhausted => "Failed to create new record"@,
        ServiceError::DuplicateToken => "Failed to create new record: identifier already in use"@,
    }
}

impl ServiceError {
    /// The broad kind of this failure.
    pub fn category(&self) -> (r: ErrorCategory)
        ensures
            r == category_of(*self),
    {
        match self {
            ServiceError::UsernameLength | ServiceError::EmailLength | ServiceError::PasswordLength
            | ServiceError::TitleLength | ServiceError::DescriptionLength
            | ServiceError::OptionValueLength => ErrorCategory::Validation,
            ServiceError::UsernameInUse | ServiceError::EmailInUse => ErrorCategory::Conflict,
            ServiceError::UserNotFound | ServiceError::SessionNotFound
            | ServiceError::PollNotFound | ServiceError::PollOptionNotFound
            | ServiceError::PollVoteNotFound | ServiceError::VerificationNotFound
            | ServiceError::PasswordResetNotFound | ServiceError::InvalidVerifyId
            | ServiceError::InvalidResetId => ErrorCategory::NotFound,
            ServiceError::InvalidLogin | ServiceError::NotLoggedIn | ServiceError::InvalidSession
            | ServiceError::NotPermitted => ErrorCategory::Auth,
            ServiceError::TooManyOptions => ErrorCategory::Capacity,
            ServiceError::HashFailed | ServiceError::HashCheckFailed | ServiceError::IdsExhausted
            | ServiceError::DuplicateToken => ErrorCategory::Internal,
        }
    }

    /// The human-readable text that is shown to clients.
    pub fn message(&self) -> (r: &'static str)
        ensures
            r@ == message_of(*self),
    {
        match self {
            ServiceError::UsernameLength => "Username must be between 3 and 63 characters",
            ServiceError::EmailLength => "Email must be between 5 and 63 characters",
            ServiceError::PasswordLength => "Password must be between 8 and 255 characters",
            ServiceError::TitleLength => "Title must be between 1 and 255 characters",
            ServiceError::DescriptionLength => "Description must be no more than 1023 characters",
            ServiceError::OptionValueLength => "Option value must be between 1 and 255 characters",
            ServiceError::UsernameInUse => "Username is in use",
            ServiceError::EmailInUse => "Email is in use",
            ServiceError::UserNotFound => "User does not exist",
            ServiceError::SessionNotFound => "Session does not exist",
            ServiceError::PollNotFound => "Poll does not exist",
            ServiceError::PollOptionNotFound => "Poll option does not exist",
            ServiceError::PollVoteNotFound => "Poll vote does not exist",
            ServiceError::VerificationNotFound => "Verification record does not exist",
            ServiceError::PasswordResetNotFound => "Password reset record does not exist",
            ServiceError::InvalidVerifyId => "Invalid verify ID",
            ServiceError::InvalidResetId => "Invalid password reset ID",
            ServiceError::InvalidLogin => "Invalid login",
            ServiceError::NotLoggedIn => "Not logged in",
            ServiceError::InvalidSession => "User or session does not exist",
            ServiceError::NotPermitted => "You do not have permission to edit this poll",
            ServiceError::TooManyOptions => "Maximum number of poll options has been reached",
            ServiceError::HashFailed => "Failed to hash password",
            ServiceError::HashCheckFailed => "Failed to verify password hash",
            ServiceError::IdsExhausted => "Failed to create new record",
            ServiceError::DuplicateToken => "Failed to create new record: identifier already in use",
        }
    }
}

} // verus!
