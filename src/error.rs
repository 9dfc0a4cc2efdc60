use vstd::prelude::*;

verus! {

#[verifier::external_type_specification]
#[verifier::external_body]
pub struct ExIoError(std::io::Error);

/// What can go wrong when talking to the upstream store.
#[derive(Debug)]
pub enum ErrorKind {
    FileExists,
    DirectoryExists,
    DirectoryMissing,
    InvalidApp,
    Authentication,
    TermsOfService,
    PermissionDenied,
    InvalidResponse,
    LoginRequired,
    IO(std::io::Error),
    Str(String),
    /// Any other failure, kept as its rendered message.
    Other(String),
}

/// An upstream error: a kind and nothing else.
#[derive(Debug)]
pub struct Error {
    kind: ErrorKind,
}

/// The fixed message of each kind that carries no text of its own.
pub open spec fn fixed_message(k: ErrorKind) -> Seq<char> {
    match k {
        ErrorKind::FileExists => "File already exists"@,
        ErrorKind::InvalidApp => "Invalid app response"@,
        ErrorKind::DirectoryExists => "Directory already exists"@,
        ErrorKind::DirectoryMissing => "Destination path provided is not a valid directory"@,
        ErrorKind::Authentication => "Could not authenticate with Google. Please provide a new oAuth token."@,
        ErrorKind::TermsOfService => "Must accept Google Play Terms of Service before proceeding."@,
        ErrorKind::PermissionDenied => "Cannot create file: permission denied"@,
        ErrorKind::InvalidResponse => "Invalid response from the remote host"@,
        ErrorKind::LoginRequired => "Logging in is required for this action"@,
        ErrorKind::IO(_) => Seq::empty(),
        ErrorKind::Str(s) => s@,
        ErrorKind::Other(s) => s@,
    }
}

/// Relies on `std::io::Error`'s `Display` impl, through `to_string`, for the
/// message of an I/O failure; the text comes from the platform.
#[verifier::external_body]
fn io_message(e: &std::io::Error) -> (r: String) {
    e.to_string()
}

impl Error {
    pub closed spec fn spec_kind(&self) -> ErrorKind {
        self.kind
    }

    pub fn new(k: ErrorKind) -> (r: Error)
        ensures
            r.spec_kind() == k,
    {
        Error { kind: k }
    }

    pub fn kind(&self) -> (r: &ErrorKind)
        ensures
            *r == self.spec_kind(),
    {
        &self.kind
    }

    /// A human-readable description of the error.
    pub fn message(&self) -> (r: String)
        ensures
            !(self.spec_kind() is IO) ==> r@ == fixed_message(self.spec_kind()),
    {
        match &self.kind {
            ErrorKind::FileExists => String::from_str("File already exists"),
            ErrorKind::InvalidApp => String::from_str("Invalid app response"),
            ErrorKind::DirectoryExists => String::from_str("Directory already exists"),
            ErrorKind::DirectoryMissing => String::from_str(
                "Destination path provided is not a valid directory",
            ),
            ErrorKind::Authentication => String::from_str(
                "Could not authenticate with Google. Please provide a new oAuth token.",
            ),
            ErrorKind::TermsOfService => String::from_str(
                "Must accept Google Play Terms of Service before proceeding.",
            ),
            ErrorKind::PermissionDenied => String::from_str(
                "Cannot create file: permission denied",
            ),
            ErrorKind::InvalidResponse => String::from_str("Invalid response from the remote host"),
            ErrorKind::LoginRequired => String::from_str("Logging in is required for this action"),
            ErrorKind::IO(e) => io_message(e),
            ErrorKind::Str(s) => s.clone(),
            ErrorKind::Other(s) => s.clone(),
        }
    }
}

impl From<std::io::Error> for Error {
    fn from(err: std::io::Error) -> (r: Error)
        ensures
            r.spec_kind() == ErrorKind::IO(err),
    {
        Error { kind: ErrorKind::IO(err) }
    }
}

impl vstd::std_specs::convert::FromSpecImpl<std::io::Error> for Error {
    open spec fn obeys_from_spec() -> bool {
        true
    }

    closed spec fn from_spec(err: std::io::Error) -> Error {
        Error { kind: ErrorKind::IO(err) }
    }
}

impl From<String> for Error {
    fn from(err: String) -> (r: Error)
        ensures
            r.spec_kind() == ErrorKind::Str(err),
    {
        Error { kind: ErrorKind::Str(err) }
    }
}

impl vstd::std_specs::convert::FromSpecImpl<String> for Error {
    open spec fn obeys_from_spec() -> bool {
        true
    }

    closed spec fn from_spec(err: String) -> Error {
        Error { kind: ErrorKind::Str(err) }
    }
}

impl<'a> From<&'a str> for Error {
    fn from(err: &'a str) -> (r: Error)
        ensures
            r.spec_kind() matches ErrorKind::Str(s) && s@ == err@,
    {
        Error { kind: ErrorKind::Str(err.to_owned()) }
    }
}

impl<'a> vstd::std_specs::convert::FromSpecImpl<&'a str> for Error {
    open spec fn obeys_from_spec() -> bool {
        false
    }

    open spec fn from_spec(err: &'a str) -> Error {
        arbitrary()
    }
}

} // verus!
