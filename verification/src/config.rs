//! Where the server is, and how to talk to it.

use crate::text::{decimal, decimal_text, decimal_u32, join3, law_decimal_is_canonical};
use crate::text::law_decimal_read_back;
use vstd::prelude::*;
use vstd::string::*;

verus! {

/// How much TLS a connection has to have, by the names that libpq uses.
#[derive(Debug, Clone, Copy, PartialEq, Eq, Structural)]
pub enum SslMode {
    /// Never TLS.
    Disable,
    /// TLS where the server offers it.
    Prefer,
    /// TLS, with any certificate.
    Require,
    /// TLS, with a certificate of a trusted authority.
    VerifyCa,
    /// TLS, with a certificate of a trusted authority for this host.
    VerifyFull,
}

impl SslMode {
    /// The mode does not put up with a connection without TLS.
    pub open spec fn insists_on_tls(self) -> bool {
        self is Require || self is VerifyCa || self is VerifyFull
    }

    /// Whether a connection without TLS is out of the question.
    pub fn requires_tls(&self) -> (required: bool)
        ensures
            required == self.insists_on_tls(),
    {
        match self {
            SslMode::Disable | SslMode::Prefer => false,
            SslMode::Require | SslMode::VerifyCa | SslMode::VerifyFull => true,
        }
    }
}

/// Where the server is, and the TLS mode for it.
#[derive(Debug, Clone, PartialEq, Eq)]
pub struct Endpoint {
    /// A host name, an address, or the directory of a Unix domain socket.
    pub host: String,
    pub port: u16,
    pub ssl_mode: SslMode,
}

/// `host` names the directory of a Unix domain socket: it starts with a slash.
pub open spec fn is_socket_directory(host: Seq<char>) -> bool {
    host.len() > 0 && host[0] == '/'
}

/// The path of the Unix domain socket for `port` in the directory `host`.
pub open spec fn socket_path(host: Seq<char>, port: u16) -> Seq<char> {
    let directory = if host.len() > 0 && host.last() == '/' {
        host
    } else {
        host.push('/')
    };
    directory + ".s.PGSQL."@ + decimal(port as nat)
}

impl Endpoint {
    /// Whether the server is reached through a Unix domain socket.
    pub fn is_unix_socket(&self) -> (unix: bool)
        ensures
            unix == is_socket_directory(self.host@),
    {
        let host = self.host.as_str();
        !host.is_empty() && host.get_char(0) == '/'
    }

    /// The path of the Unix domain socket.
    pub fn unix_socket_path(&self) -> (path: String)
        ensures
            path@ == socket_path(self.host@, self.port),
    {
        let host = self.host.as_str();
        let port = decimal_text(self.port as u64);
        let chars: usize = host.unicode_len();
        if chars > 0 && host.get_char(chars - 1) == '/' {
            join3(host, ".s.PGSQL.", port.as_str())
        } else {
            proof {
                reveal_strlit("/");
            }
            let directory = host.to_owned().concat("/");
            assert(directory@ =~= self.host@.push('/'));
            join3(directory.as_str(), ".s.PGSQL.", port.as_str())
        }
    }
}

/// `Disable` and `Prefer` put up with a connection without TLS, and no other mode
/// does.
pub proof fn law_three_modes_require_tls(mode: &SslMode, required: bool)
    requires
        call_ensures(SslMode::requires_tls, (mode,), required),
    ensures
        required <==> *mode != SslMode::Disable && *mode != SslMode::Prefer,
{
}

/// A host is the directory of a Unix domain socket exactly where its first
/// character is a slash; the port and the mode have no say in it.
pub proof fn law_slash_means_unix_socket(endpoint: &Endpoint, unix: bool)
    requires
        call_ensures(Endpoint::is_unix_socket, (endpoint,), unix),
    ensures
        unix <==> exists|rest: Seq<char>| endpoint.host@ == seq!['/'] + rest,
{
    let host = endpoint.host@;
    if unix {
        assert(host =~= seq!['/'] + host.skip(1));
    }
}

/// The path of a Unix domain socket starts with the whole host, ends with the port
/// in decimal, and has between the two the name that PostgreSQL gives its sockets,
/// behind exactly one slash where the host does not end in one by itself.
pub proof fn law_socket_path_parts(endpoint: &Endpoint, path: String, name: int)
    requires
        call_ensures(Endpoint::unix_socket_path, (endpoint,), path),
        name == if endpoint.host@.len() > 0 && endpoint.host@.last() == '/' {
            endpoint.host@.len() as int
        } else {
            endpoint.host@.len() as int + 1
        },
    ensures
        path@.len() > name + 9,
        path@.take(endpoint.host@.len() as int) == endpoint.host@,
        path@[name - 1] == '/',
        path@.subrange(name, name + 9) == seq!['.', 's', '.', 'P', 'G', 'S', 'Q', 'L', '.'],
        decimal_u32(path@.skip(name + 9)) == Some(endpoint.port as u32),
        endpoint.port > 0 ==> path@[name + 9] != '0' && path@[name + 9] != '+',
        endpoint.port == 0 ==> path@.skip(name + 9) == seq!['0'],
{
    reveal_strlit(".s.PGSQL.");
    law_decimal_read_back(endpoint.port as u32);
    law_decimal_is_canonical(endpoint.port as nat);
    let digits = decimal(endpoint.port as nat);
    assert(path@.skip(name + 9) =~= digits);
    assert(path@[name + 9] == digits[0]);
    assert(path@.take(endpoint.host@.len() as int) =~= endpoint.host@);
    assert(path@.subrange(name, name + 9) =~= ".s.PGSQL."@);
}

/// A slash at the end of the directory makes no difference to the path, and neither
/// does the mode.
pub proof fn law_trailing_slash_is_optional(
    plain: &Endpoint,
    slashed: &Endpoint,
    path: String,
    other: String,
)
    requires
        call_ensures(Endpoint::unix_socket_path, (plain,), path),
        call_ensures(Endpoint::unix_socket_path, (slashed,), other),
        plain.host@.len() == 0 || plain.host@.last() != '/',
        slashed.host@ == plain.host@.push('/'),
        slashed.port == plain.port,
    ensures
        path@ == other@,
{
}

} // verus!
