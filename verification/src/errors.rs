use vstd::prelude::*;

verus! {

/// A failure of the namespace-entry primitive: the namespace file could not
/// be opened, or the kernel refused to move the calling thread into the
/// namespace.
#[derive(Debug, Clone, PartialEq, Eq)]
pub enum NamespaceErrors {
    Open(String),
    Join(String),
}

/// A failure of the socket layer: bind, accept, dial or copy errors, carrying
/// the underlying I/O error text.
#[derive(Debug, Clone, PartialEq, Eq)]
pub enum TokioErrors {
    Error(String),
}

/// A failure that fits no other category, such as an HTTP client error,
/// carrying the upstream error text.
#[derive(Debug, Clone, PartialEq, Eq)]
pub enum UnknownErrors {
    Unknown(String),
}

/// The closed error taxonomy of the proxy. Each category owns a distinct
/// range of numeric exit codes, so an operator can tell failure classes
/// apart from the exit code alone.
#[derive(Debug, Clone, PartialEq, Eq)]
pub enum CliErrors {
    Namespace(NamespaceErrors),
    Tokio(TokioErrors),
    Unknown(UnknownErrors),
}

impl CliErrors {
    /// The stable numeric code of an error: namespace failures are 10-19,
    /// socket failures 20-29, unknown failures 30-39.
    pub open spec fn code(self) -> u8 {
        match self {
            CliErrors::Namespace(NamespaceErrors::Open(_)) => 10,
            CliErrors::Namespace(NamespaceErrors::Join(_)) => 11,
            CliErrors::Tokio(TokioErrors::Error(_)) => 20,
            CliErrors::Unknown(UnknownErrors::Unknown(_)) => 30,
        }
    }

    /// The exit code this error maps to; always non-zero, so a failing run
    /// is distinguishable from a successful one.
    pub fn get_error_number(&self) -> (n: u8)
        ensures
            n == self.code(),
            n != 0,
    {
        match self {
            CliErrors::Namespace(NamespaceErrors::Open(_)) => 10,
            CliErrors::Namespace(NamespaceErrors::Join(_)) => 11,
            CliErrors::Tokio(TokioErrors::Error(_)) => 20,
            CliErrors::Unknown(UnknownErrors::Unknown(_)) => 30,
        }
    }

    /// Whether two errors fall in the same category of the taxonomy.
    pub open spec fn same_category(self, other: CliErrors) -> bool {
        match (self, other) {
            (CliErrors::Namespace(_), CliErrors::Namespace(_)) => true,
            (CliErrors::Tokio(_), CliErrors::Tokio(_)) => true,
            (CliErrors::Unknown(_), CliErrors::Unknown(_)) => true,
            _ => false,
        }
    }

    /// Wraps a socket-layer failure, given the underlying I/O error text.
    pub fn from_io_message(message: String) -> (e: CliErrors)
        ensures
            e == CliErrors::Tokio(TokioErrors::Error(message)),
    {
        CliErrors::Tokio(TokioErrors::Error(message))
    }

    /// Wraps an HTTP client failure, given the upstream error text.
    pub fn from_fetch_message(message: String) -> (e: CliErrors)
        ensures
            e == CliErrors::Unknown(UnknownErrors::Unknown(message)),
    {
        CliErrors::Unknown(UnknownErrors::Unknown(message))
    }
}

/// The exit codes identify the failure category: two errors share a code
/// range exactly when they fall in the same category of the taxonomy.
pub proof fn lemma_code_identifies_category(a: CliErrors, b: CliErrors)
    ensures
        a.same_category(b) <==> a.code() / 10 == b.code() / 10,
{
}

} // verus!
