//! Length rules on user-supplied text, counted in characters.
use vstd::prelude::*;
use crate::error::ServiceError;

verus! {

pub const USERNAME_MIN: usize = 3;
pub const USERNAME_MAX: usize = 63;
pub const EMAIL_MIN: usize = 5;
pub const EMAIL_MAX: usize = 63;
pub const PASSWORD_MIN: usize = 8;
pub const PASSWORD_MAX: usize = 255;
pub const TITLE_MAX: usize = 255;
pub const DESCRIPTION_MAX: usize = 1023;
pub const OPTION_VALUE_MAX: usize = 255;

pub open spec fn valid_username(s: Seq<char>) -> bool {
    USERNAME_MIN <= s.len() <= USERNAME_MAX
}

pub open spec fn valid_email(s: Seq<char>) -> bool {
    EMAIL_MIN <= s.len() <= EMAIL_MAX
}

pub open spec fn valid_password(s: Seq<char>) -> bool {
    PASSWORD_MIN <= s.len() <= PASSWORD_MAX
}

pub open spec fn valid_title(s: Seq<char>) -> bool {
    1 <= s.len() <= TITLE_MAX
}

pub open spec fn valid_description(s: Seq<char>) -> bool {
    s.len() <= DESCRIPTION_MAX
}

pub open spec fn valid_option_value(s: Seq<char>) -> bool {
    1 <= s.len() <= OPTION_VALUE_MAX
}

/// `Ok` exactly when `ok` holds, else the given error.
pub open spec fn rule(ok: bool, e: ServiceError) -> Result<(), ServiceError> {
    if ok {
        Ok(())
    } else {
        Err(e)
    }
}

fn char_len(s: &String) -> (r: usize)
    ensures
        r == s@.len(),
{
    s.as_str().unicode_len()
}

pub fn check_username(s: &String) -> (r: Result<(), ServiceError>)
    ensures
        r == rule(valid_username(s@), ServiceError::UsernameLength),
{
    let n = char_len(s);
    if USERNAME_MIN <= n && n <= USERNAME_MAX {
        Ok(())
    } else {
        Err(ServiceError::UsernameLength)
    }
}

pub fn check_email(s: &String) -> (r: Result<(), ServiceError>)
    ensures
        r == rule(valid_email(s@), ServiceError::EmailLength),
{
    let n = char_len(s);
    if EMAIL_MIN <= n && n <= EMAIL_MAX {
        Ok(())
    } else {
        Err(ServiceError::EmailLength)
    }
}

pub fn check_password(s: &String) -> (r: Result<(), ServiceError>)
    ensures
        r == rule(valid_password(s@), ServiceError::PasswordLength),
{
    let n = char_len(s);
    if PASSWORD_MIN <= n && n <= PASSWORD_MAX {
        Ok(())
    } else {
        Err(ServiceError::PasswordLength)
    }
}

pub fn check_title(s: &String) -> (r: Result<(), ServiceError>)
    ensures
        r == rule(valid_title(s@), ServiceError::TitleLength),
{
    let n = char_len(s);
    if 1 <= n && n <= TITLE_MAX {
        Ok(())
    } else {
        Err(ServiceError::TitleLength)
    }
}

pub fn check_description(s: &String) -> (r: Result<(), ServiceError>)
    ensures
        r == rule(valid_description(s@), ServiceError::DescriptionLength),
{
    let n = char_len(s);
    if n <= DESCRIPTION_MAX {
        Ok(())
    } else {
        Err(ServiceError::DescriptionLength)
    }
}

pub fn check_option_value(s: &String) -> (r: Result<(), ServiceError>)
    ensures
        r == rule(valid_option_value(s@), ServiceError::OptionValueLength),
{
    let n = char_len(s);
    if 1 <= n && n <= OPTION_VALUE_MAX {
        Ok(())
    } else {
        Err(ServiceError::OptionValueLength)
    }
}

} // verus!
