use vstd::prelude::*;

verus! {

/// Every failure the service reports to its callers.
#[derive(Debug)]
pub enum StratError {
    // Store failures
    DbFailed,
    // Account failures
    UserNotFound,
    EmailInUse,
    UniqueExists,
    NameExists,
    Unknown,
    BadLogin,
    // Session failures
    AuthFailed,
    UnknownToken,
    TokenExpired,
    AuthExpired,
    UnknownRefresh,
    InvalidToken,
    InvalidRefresh,
    // Multipart failures
    BadMulti,
    OversizedField(String, u64),
    MediaUnsupported,
    // Post failures
    UnknownPost,
    NoPermission,
    NeedsContent,
    /// A caller-chosen message.
    Custom(String),
}

/// The ASCII digit for `d < 10`.
pub open spec fn digit_char(d: nat) -> char {
    ((d + 48) as u8) as char
}

/// The decimal notation of `n`, most significant digit first.
pub open spec fn decimal(n: nat) -> Seq<char>
    decreases n,
{
    if n < 10 {
        seq![digit_char(n)]
    } else {
        decimal(n / 10).push(digit_char(n % 10))
    }
}

/// The human-readable text of each error.
pub open spec fn message_of(e: StratError) -> Seq<char> {
    match e {
        StratError::DbFailed => "A server error has occured! Please try again later."@,
        StratError::UserNotFound => "The requested user could not be found."@,
        StratError::EmailInUse => "The requested email is already in use!"@,
        StratError::UniqueExists => "An issue with the database has occured, please try again."@,
        StratError::NameExists => "The requested username is already in use."@,
        StratError::Unknown => "An unknown error has occured!"@,
        StratError::BadLogin => "The Email or Password submitted is invalid!"@,
        StratError::UnknownToken => "The Token provided could not be linked to a session!"@,
        StratError::TokenExpired => "The Token provided has expired!"@,
        StratError::AuthExpired => "The Authorization Token linked to this token has expired."@,
        StratError::UnknownRefresh => "The Refresh Token provided could not be linked to a session!"@,
        StratError::AuthFailed => "An Error occured while verifying authentication."@,
        StratError::InvalidToken => "The Authorization Token provided is malformed or missing."@,
        StratError::InvalidRefresh => "The Refresh Token provided is malformed or missing."@,
        StratError::BadMulti => "This request must be a valid Multipart Request"@,
        StratError::OversizedField(name, size) => "The Field: "@ + name@
            + " excees the maximum size of: "@ + decimal(size as nat),
        StratError::MediaUnsupported => "The Multipart Request contains an unsupported media type!"@,
        StratError::UnknownPost => "The requested Post could not be found."@,
        StratError::NoPermission => "The Authenticated User is not the owner of this post."@,
        StratError::Custom(val) => val@,
        StratError::NeedsContent => "The post submitted contains no text!"@,
    }
}

/// A session credential was missing, unknown or past one of its lifetimes:
/// the client has to authenticate again or refresh.
pub open spec fn is_auth_failure_spec(e: StratError) -> bool {
    match e {
        StratError::UnknownToken | StratError::TokenExpired | StratError::AuthExpired
        | StratError::UnknownRefresh | StratError::InvalidToken
        | StratError::InvalidRefresh | StratError::AuthFailed => true,
        _ => false,
    }
}

/// Relies on `String::push`: appends one character.
#[verifier::external_body]
pub(crate) fn push_char(s: &mut String, c: char)
    ensures
        final(s)@ == old(s)@.push(c),
{
    s.push(c)
}

/// Appends the decimal notation of `n` to `s`.
fn push_decimal(s: &mut String, n: u64)
    ensures
        final(s)@ == old(s)@ + decimal(n as nat),
    decreases n,
{
    if n >= 10 {
        push_decimal(s, n / 10);
    }
    let d: u8 = (n % 10) as u8;
    let c = (d + 48) as char;
    push_char(s, c);
    assert(final(s)@ =~= old(s)@ + decimal(n as nat));
}

impl StratError {
    /// The text shown to a client for this error.
    pub fn message(&self) -> (r: String)
        ensures
            r@ == message_of(*self),
    {
        match self {
            StratError::DbFailed => String::from_str("A server error has occured! Please try again later."),
            StratError::UserNotFound => String::from_str("The requested user could not be found."),
            StratError::EmailInUse => String::from_str("The requested email is already in use!"),
            StratError::UniqueExists => String::from_str("An issue with the database has occured, please try again."),
            StratError::NameExists => String::from_str("The requested username is already in use."),
            StratError::Unknown => String::from_str("An unknown error has occured!"),
            StratError::BadLogin => String::from_str("The Email or Password submitted is invalid!"),
            StratError::UnknownToken => String::from_str("The Token provided could not be linked to a session!"),
            StratError::TokenExpired => String::from_str("The Token provided has expired!"),
            StratError::AuthExpired => String::from_str("The Authorization Token linked to this token has expired."),
            StratError::UnknownRefresh => String::from_str("The Refresh Token provided could not be linked to a session!"),
            StratError::AuthFailed => String::from_str("An Error occured while verifying authentication."),
            StratError::InvalidToken => String::from_str("The Authorization Token provided is malformed or missing."),
            StratError::InvalidRefresh => String::from_str("The Refresh Token provided is malformed or missing."),
            StratError::BadMulti => String::from_str("This request must be a valid Multipart Request"),
            StratError::OversizedField(name, size) => {
                let mut s = String::from_str("The Field: ");
                s.append(name.as_str());
                s.append(" excees the maximum size of: ");
                push_decimal(&mut s, *size);
                s
            },
            StratError::MediaUnsupported => String::from_str("The Multipart Request contains an unsupported media type!"),
            StratError::UnknownPost => String::from_str("The requested Post could not be found."),
            StratError::NoPermission => String::from_str("The Authenticated User is not the owner of this post."),
            StratError::Custom(val) => val.clone(),
            StratError::NeedsContent => String::from_str("The post submitted contains no text!"),
        }
    }

    /// Whether the error rejects the caller's credentials, as opposed to a
    /// failure of the service itself.
    pub fn is_auth_failure(&self) -> (r: bool)
        ensures
            r == is_auth_failure_spec(*self),
    {
        match self {
            StratError::UnknownToken | StratError::TokenExpired | StratError::AuthExpired
            | StratError::UnknownRefresh | StratError::InvalidToken
            | StratError::InvalidRefresh | StratError::AuthFailed => true,
            _ => false,
        }
    }
}

} // verus!
