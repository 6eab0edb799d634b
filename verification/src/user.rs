//! Discord users, and reading one from the loose form it has on the wire.

pub mod events;

use vstd::prelude::*;
use vstd::string::*;
use vstd::utf8::*;
use crate::error::Error;
use crate::text::{decimal_text, push_decimal_text, strip_prefix};
use crate::types::Snowflake;
use crate::util::{parse_u64, spec_parse_u64};

verus! {

/// The identifier of a user.
pub type UserId = Snowflake;

/// A Discord user.
#[derive(Debug, Clone, PartialEq, Eq)]
pub struct User {
    /// The user's id.
    pub id: UserId,
    /// The name the user goes by.
    pub username: String,
    /// The number after the `#`, which tells users of one name apart.
    pub discriminator: Option<u32>,
    /// The MD5 hash of the user's avatar.
    pub avatar: Option<[u8; 16]>,
    /// Whether the user belongs to an OAuth2 application.
    pub is_bot: bool,
}

/// A user as the wire has it: every member optional, numbers as text.
#[derive(Debug, Clone, PartialEq, Eq)]
pub struct DeUser {
    pub id: Option<UserId>,
    pub username: Option<String>,
    /// The discriminator in decimal.
    pub discriminator: Option<String>,
    /// The avatar's hash as 32 hexadecimal digits, `a_` in front where the
    /// avatar is animated.
    pub avatar: Option<String>,
    pub bot: Option<bool>,
}

/// The value of a hexadecimal digit, in either case.
pub open spec fn hex_value(b: u8) -> Option<u8> {
    if 48 <= b <= 57 {
        Some((b - 48) as u8)
    } else if 65 <= b <= 70 {
        Some((b - 55) as u8)
    } else if 97 <= b <= 102 {
        Some((b - 87) as u8)
    } else {
        None
    }
}

/// The bytes that an even run of hexadecimal digits spells, two digits to
/// the byte, or `None` where one of them is no such digit.
pub open spec fn hex_bytes(digits: Seq<u8>) -> Option<Seq<u8>> {
    if forall|i: int| 0 <= i < digits.len() ==> hex_value(#[trigger] digits[i]) is Some {
        Some(
            Seq::new(
                digits.len() / 2,
                |i: int| (hex_value(digits[2 * i])->Some_0 * 16 + hex_value(digits[2 * i + 1])->Some_0) as u8,
            ),
        )
    } else {
        None
    }
}

/// The hash that the text of an avatar spells: the text without a leading
/// `a_` has to be 32 hexadecimal digits. Anything else is no hash.
pub open spec fn spec_avatar(text: Seq<char>) -> Option<Seq<u8>> {
    let digits = if "a_"@.is_prefix_of(text) {
        encode_utf8(text.skip("a_"@.len() as int))
    } else {
        encode_utf8(text)
    };
    if digits.len() == 32 {
        hex_bytes(digits)
    } else {
        None
    }
}

/// The discriminator that a text spells: a decimal number of 32 bits.
pub open spec fn spec_discriminator(text: Seq<char>) -> Option<u32> {
    match spec_parse_u64(encode_utf8(text)) {
        Some(n) if n <= u32::MAX => Some(n as u32),
        _ => None,
    }
}

/// Whether `r` is what reading `raw` gives. The id and the name have to be
/// there; a discriminator that is there has to be a number; an avatar that
/// is no hash is dropped; a user is no bot unless it says so.
pub open spec fn is_user_of(raw: DeUser, r: Result<User, Error>) -> bool {
    if raw.id is None {
        r matches Err(Error::MissingField(f)) && f@ == "id"@
    } else if raw.username is None {
        r matches Err(Error::MissingField(f)) && f@ == "username"@
    } else if raw.discriminator is Some && spec_discriminator(raw.discriminator->Some_0@) is None {
        r matches Err(Error::InvalidField(f)) && f@ == "discriminator"@
    } else {
        &&& r matches Ok(user)
        &&& r->Ok_0.id == raw.id->Some_0
        &&& r->Ok_0.username == raw.username->Some_0
        &&& r->Ok_0.discriminator == match raw.discriminator {
            Some(d) => spec_discriminator(d@),
            None => None,
        }
        &&& match raw.avatar {
            Some(a) => match spec_avatar(a@) {
                Some(hash) => r->Ok_0.avatar matches Some(h) && h@ == hash,
                None => r->Ok_0.avatar is None,
            },
            None => r->Ok_0.avatar is None,
        }
        &&& r->Ok_0.is_bot == (raw.bot == Some(true))
    }
}

/// Reads the value of one hexadecimal digit.
pub fn hex_digit(b: u8) -> (r: Option<u8>)
    ensures
        r == hex_value(b),
{
    if 48 <= b && b <= 57 {
        Some(b - 48)
    } else if 65 <= b && b <= 70 {
        Some(b - 55)
    } else if 97 <= b && b <= 102 {
        Some(b - 87)
    } else {
        None
    }
}

/// Reads the hash of an avatar from its text.
pub fn parse_avatar(text: &str) -> (r: Option<[u8; 16]>)
    ensures
        match spec_avatar(text@) {
            Some(hash) => r matches Some(h) && h@ == hash,
            None => r is None,
        },
{
    let stripped = match strip_prefix(text, "a_") {
        Some(rest) => rest,
        None => text,
    };
    let digits = stripped.as_bytes();
    if digits.len() != 32 {
        return None;
    }
    let mut md5: [u8; 16] = [0u8;16];
    let mut i: usize = 0;
    while i < 16
        invariant
            0 <= i <= 16,
            digits@.len() == 32,
            spec_avatar(text@) == hex_bytes(digits@),
            forall|j: int| 0 <= j < 2 * i ==> hex_value(#[trigger] digits@[j]) is Some,
            forall|j: int|
                0 <= j < i ==> #[trigger] md5@[j] == (hex_value(digits@[2 * j])->Some_0 * 16
                    + hex_value(digits@[2 * j + 1])->Some_0) as u8,
        decreases 16 - i,
    {
        let high = match hex_digit(digits[2 * i]) {
            Some(v) => v,
            None => {
                assert(hex_value(digits@[2 * i]) is None);
                return None;
            },
        };
        let low = match hex_digit(digits[2 * i + 1]) {
            Some(v) => v,
            None => {
                assert(hex_value(digits@[2 * i + 1]) is None);
                return None;
            },
        };
        md5[i] = high * 16 + low;
        i += 1;
    }
    assert(md5@ =~= hex_bytes(digits@)->Some_0);
    Some(md5)
}

impl User {
    /// Reads a user from its form on the wire.
    pub fn try_from(u: DeUser) -> (r: Result<User, Error>)
        ensures
            is_user_of(u, r),
    {
        let id = match u.id {
            Some(id) => id,
            None => {
                return Err(Error::MissingField("id"));
            },
        };
        let username = match u.username {
            Some(name) => name,
            None => {
                return Err(Error::MissingField("username"));
            },
        };
        let discriminator: Option<u32> = match &u.discriminator {
            Some(d) => match parse_u64(d.as_str().as_bytes()) {
                Some(n) => {
                    if n > 0xffff_ffff {
                        return Err(Error::InvalidField("discriminator"));
                    }
                    Some(n as u32)
                },
                None => {
                    return Err(Error::InvalidField("discriminator"));
                },
            },
            None => None,
        };
        let avatar = match &u.avatar {
            Some(a) => parse_avatar(a.as_str()),
            None => None,
        };
        let is_bot = match u.bot {
            Some(b) => b,
            None => false,
        };
        Ok(User { id, username, discriminator, avatar, is_bot })
    }

    /// The name of the user as Discord shows it: the name, and `#` with the
    /// discriminator where the user has one.
    pub open spec fn spec_display_name(self) -> Seq<char> {
        match self.discriminator {
            Some(d) => self.username@ + "#"@ + decimal_text(d as nat),
            None => self.username@,
        }
    }

    /// Writes the name of the user as Discord shows it, such as
    /// `john.smith#1337`.
    pub fn display_name(&self) -> (name: String)
        ensures
            name@ == self.spec_display_name(),
    {
        let mut name = self.username.clone();
        if let Some(d) = self.discriminator {
            name.append("#");
            push_decimal_text(d as u64, &mut name);
        }
        name
    }
}

/// Reads a user from its form on the wire.
pub fn de_user(u: DeUser) -> (r: Result<User, Error>)
    ensures
        is_user_of(u, r),
{
    User::try_from(u)
}

} // verus!
