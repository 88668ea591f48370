//! Profile configuration: validated names, parsing, key generation, the profile store.

pub mod disk;
pub mod keygen;
pub mod profile;
pub mod qr_import;
pub mod reading_laws;
pub mod round_trip;
pub mod store;
pub mod store_laws;
pub mod validate;
pub mod validate_laws;

use crate::error::{AppError, AppResult};
use crate::text::{chars_of, text3};
use std::str::FromStr;
use vstd::prelude::*;

verus! {

/// The greatest number of characters of a profile's name.
pub const NAME_MAX: usize = 15;

/// Whether a character can occur in a profile's name.
pub open spec fn name_char(c: char) -> bool {
    'A' <= c <= 'Z' || 'a' <= c <= 'z' || '0' <= c <= '9' || c == '_' || c == '.' || c == '=' || c
        == '-'
}

/// Whether every character of a text can occur in a profile's name.
pub open spec fn name_chars(s: Seq<char>) -> bool {
    forall|i: int| 0 <= i < s.len() ==> name_char(#[trigger] s[i])
}

/// Whether a text can name a profile: it is not empty, has at most 15 characters, and each is a
/// letter or digit of ASCII, `_`, `.`, `=` or `-`.
pub open spec fn valid_name(s: Seq<char>) -> bool {
    0 < s.len() <= NAME_MAX && name_chars(s)
}

/// What is wrong with a text that cannot name a profile.
pub open spec fn name_fault(s: Seq<char>) -> Seq<char> {
    if s.len() == 0 {
        "name must not be empty"@
    } else if s.len() > NAME_MAX {
        "name must be at most 15 characters"@
    } else {
        "name '"@ + s + "' contains characters outside [A-Za-z0-9_.=-]"@
    }
}

/// Whether a character can occur in a profile's name.
fn is_name_char(c: char) -> (r: bool)
    ensures
        r == name_char(c),
{
    (c >= 'A' && c <= 'Z') || (c >= 'a' && c <= 'z') || (c >= '0' && c <= '9') || c == '_' || c
        == '.' || c == '=' || c == '-'
}

/// A name that a profile, and the interface made from it, can have.
#[derive(Debug, PartialEq, Eq, Hash)]
pub struct ProfileName(String);

impl View for ProfileName {
    type V = Seq<char>;

    closed spec fn view(&self) -> Seq<char> {
        self.0@
    }
}

impl ProfileName {
    /// Every name is valid.
    #[verifier::type_invariant]
    spec fn is_valid(self) -> bool {
        valid_name(self.0@)
    }

    /// The name, where the text is one.
    pub fn new(name: &str) -> (r: AppResult<Self>)
        ensures
            match r {
                Ok(n) => valid_name(name@) && n@ == name@,
                Err(AppError::InvalidProfileName(t)) => !valid_name(name@) && t@ == name_fault(
                    name@,
                ),
                Err(_) => false,
            },
    {
        let chars = chars_of(name);
        if chars.len() == 0 {
            return Err(AppError::InvalidProfileName("name must not be empty".to_owned()));
        }
        if chars.len() > NAME_MAX {
            return Err(
                AppError::InvalidProfileName("name must be at most 15 characters".to_owned()),
            );
        }
        let mut i: usize = 0;
        while i < chars.len()
            invariant
                i <= chars@.len(),
                chars@ == name@,
                0 < name@.len() <= NAME_MAX,
                forall|j: int| 0 <= j < i ==> name_char(#[trigger] name@[j]),
            decreases chars@.len() - i,
        {
            if !is_name_char(chars[i]) {
                return Err(
                    AppError::InvalidProfileName(
                        text3("name '", name, "' contains characters outside [A-Za-z0-9_.=-]"),
                    ),
                );
            }
            i += 1;
        }
        Ok(ProfileName(name.to_owned()))
    }

    /// The name as a text.
    pub fn as_str(&self) -> (r: &str)
        ensures
            r@ == self@,
            valid_name(r@),
    {
        proof {
            use_type_invariant(self);
        }
        self.0.as_str()
    }

    /// The name as a text.
    pub fn to_string(&self) -> (r: String)
        ensures
            r@ == self@,
            valid_name(r@),
    {
        proof {
            use_type_invariant(self);
        }
        self.0.clone()
    }
}

impl Clone for ProfileName {
    fn clone(&self) -> (r: Self)
        ensures
            r@ == self@,
    {
        proof {
            use_type_invariant(self);
        }
        ProfileName(self.0.clone())
    }
}

impl FromStr for ProfileName {
    type Err = AppError;

    fn from_str(s: &str) -> (r: Result<Self, AppError>)
        ensures
            match r {
                Ok(n) => valid_name(s@) && n@ == s@,
                Err(AppError::InvalidProfileName(t)) => !valid_name(s@) && t@ == name_fault(s@),
                Err(_) => false,
            },
    {
        ProfileName::new(s)
    }
}

impl vstd::std_specs::convert::TryFromSpecImpl<String> for ProfileName {
    open spec fn obeys_try_from_spec() -> bool {
        false
    }

    open spec fn try_from_spec(v: String) -> Result<Self, AppError> {
        arbitrary()
    }
}

impl TryFrom<String> for ProfileName {
    type Error = AppError;

    fn try_from(value: String) -> (r: Result<Self, AppError>)
        ensures
            match r {
                Ok(n) => valid_name(value@) && n@ == value@,
                Err(AppError::InvalidProfileName(t)) => !valid_name(value@) && t@ == name_fault(
                    value@,
                ),
                Err(_) => false,
            },
    {
        ProfileName::new(value.as_str())
    }
}

impl vstd::std_specs::convert::FromSpecImpl<ProfileName> for String {
    open spec fn obeys_from_spec() -> bool {
        true
    }

    closed spec fn from_spec(v: ProfileName) -> String {
        v.0
    }
}

impl From<ProfileName> for String {
    fn from(value: ProfileName) -> (r: String)
        ensures
            r@ == value@,
            valid_name(r@),
    {
        proof {
            use_type_invariant(&value);
        }
        value.0
    }
}

} // verus!
