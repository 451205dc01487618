//! Authentication session state machine.
//!
//! A session owns the challenge/token handshake of one device instance: no
//! challenge, challenge obtained, token issued — with a forced fall back to
//! the start when the remote reports the session invalid.  It performs no
//! I/O itself: it only says which handshake call comes next and digests what
//! was received.  Profiles that log in by echoing a stored password skip the
//! challenge stage and store the resulting cookie as their token.

use vstd::prelude::*;

use crate::protocol::AuthFailure;
use crate::protocol::FetchError;
use crate::text::push_char;
use hmac::Mac;
use vstd::utf8::encode_utf8;

verus! {

// ---------------------------------------------------------------------------
// Keyed one-way hash and hex rendering of the session proof
// ---------------------------------------------------------------------------

/// The HMAC-SHA1 digest of `msg` under `key`; a function of the two alone.
pub uninterp spec fn hmac_sha1_of(key: Seq<u8>, msg: Seq<u8>) -> Seq<u8>;

/// Relies on `hmac::Hmac<sha1::Sha1>` (RustCrypto): computes the HMAC-SHA1
/// digest of `msg` keyed by `key`.  The digest depends on key and message
/// alone; SHA-1 output is 20 bytes; any key length is accepted.
#[verifier::external_body]
fn hmac_sha1(key: &[u8], msg: &[u8]) -> (r: Vec<u8>)
    ensures
        r@ == hmac_sha1_of(key@, msg@),
        r@.len() == 20,
{
    let mut mac = <hmac::Hmac<sha1::Sha1> as hmac::Mac>::new_from_slice(key).expect(
        "any key length is accepted",
    );
    mac.update(msg);
    mac.finalize().into_bytes().to_vec()
}

pub open spec fn spec_hex_digit(d: nat) -> char {
    if d < 10 {
        ((48 + d) as u8) as char
    } else {
        ((87 + d) as u8) as char
    }
}

/// Lower-case hex rendering, two digits per byte.
pub open spec fn spec_hex(bytes: Seq<u8>) -> Seq<char>
    decreases bytes.len(),
{
    if bytes.len() == 0 {
        Seq::empty()
    } else {
        spec_hex(bytes.drop_last()) + seq![
            spec_hex_digit((bytes.last() / 16) as nat),
            spec_hex_digit((bytes.last() % 16) as nat),
        ]
    }
}

fn hex_digit_char(d: u8) -> (c: char)
    requires
        d < 16,
    ensures
        c == spec_hex_digit(d as nat),
{
    if d < 10 {
        (48 + d) as char
    } else {
        (87 + d) as char
    }
}

/// Renders a digest in lower-case hex.
pub fn to_hex(bytes: &Vec<u8>) -> (r: String)
    ensures
        r@ == spec_hex(bytes@),
{
    let mut out = String::new();
    let mut i: usize = 0;
    while i < bytes.len()
        invariant
            i <= bytes@.len(),
            out@ == spec_hex(bytes@.take(i as int)),
        decreases bytes@.len() - i,
    {
        let b = bytes[i];
        push_char(&mut out, hex_digit_char(b / 16));
        push_char(&mut out, hex_digit_char(b % 16));
        proof {
            assert(bytes@.take(i + 1).drop_last() =~= bytes@.take(i as int));
            assert(bytes@.take(i + 1).last() == bytes@[i as int]);
            assert(out@ =~= spec_hex(bytes@.take(i + 1)));
        }
        i += 1;
    }
    proof {
        assert(bytes@.take(bytes@.len() as int) =~= bytes@);
    }
    out
}

// ---------------------------------------------------------------------------
// The session itself
// ---------------------------------------------------------------------------

/// Which handshake call to perform next.
#[derive(Debug, Clone, Copy, PartialEq, Eq, Structural)]
pub enum HandshakeStep {
    /// Retrieve the challenge value.
    Challenge,
    /// Exchange credentials for a session token or cookie.
    Exchange,
}

pub struct AuthSession {
    uses_challenge: bool,
    challenge: Option<String>,
    token: Option<String>,
}

impl AuthSession {
    /// Whether this profile logs in by challenge/response.
    pub closed spec fn spec_uses_challenge(&self) -> bool {
        self.uses_challenge
    }

    pub closed spec fn spec_challenge(&self) -> Option<Seq<char>> {
        match self.challenge {
            Some(c) => Some(c@),
            None => None,
        }
    }

    pub closed spec fn spec_token(&self) -> Option<Seq<char>> {
        match self.token {
            Some(t) => Some(t@),
            None => None,
        }
    }

    pub open spec fn spec_needs(&self) -> Option<HandshakeStep> {
        if self.spec_uses_challenge() && self.spec_challenge() is None {
            Some(HandshakeStep::Challenge)
        } else if self.spec_token() is None {
            Some(HandshakeStep::Exchange)
        } else {
            None
        }
    }

    pub open spec fn spec_authenticated(&self) -> bool {
        self.spec_needs() is None
    }

    /// A fresh session: nothing obtained yet.
    pub fn new(uses_challenge: bool) -> (r: AuthSession)
        ensures
            r.spec_uses_challenge() == uses_challenge,
            r.spec_challenge() is None,
            r.spec_token() is None,
    {
        AuthSession { uses_challenge, challenge: None, token: None }
    }

    /// Which handshake call to perform next; none if authenticated.
    pub fn needs_handshake_step(&self) -> (r: Option<HandshakeStep>)
        ensures
            r == self.spec_needs(),
    {
        if self.uses_challenge && self.challenge.is_none() {
            Some(HandshakeStep::Challenge)
        } else if self.token.is_none() {
            Some(HandshakeStep::Exchange)
        } else {
            None
        }
    }

    /// Stores the challenge value looked up from the handshake response;
    /// fails if the field was absent.
    pub fn consume_challenge(&mut self, raw: Option<String>) -> (r: Result<(), FetchError>)
        ensures
            final(self).spec_uses_challenge() == old(self).spec_uses_challenge(),
            final(self).spec_token() == old(self).spec_token(),
            match raw {
                Some(c) => r is Ok && final(self).spec_challenge() == Some(c@),
                None => r == Err::<(), FetchError>(FetchError::Auth(AuthFailure::MissingChallenge))
                    && final(self).spec_challenge() == old(self).spec_challenge(),
            },
    {
        match raw {
            Some(c) => {
                self.challenge = Some(c);
                Ok(())
            },
            None => Err(FetchError::Auth(AuthFailure::MissingChallenge)),
        }
    }

    /// Stores the session token looked up from the handshake response;
    /// fails if the field was absent.
    pub fn consume_token(&mut self, raw: Option<String>) -> (r: Result<(), FetchError>)
        ensures
            final(self).spec_uses_challenge() == old(self).spec_uses_challenge(),
            final(self).spec_challenge() == old(self).spec_challenge(),
            match raw {
                Some(t) => r is Ok && final(self).spec_token() == Some(t@),
                None => r == Err::<(), FetchError>(FetchError::Auth(AuthFailure::MissingToken))
                    && final(self).spec_token() == old(self).spec_token(),
            },
    {
        match raw {
            Some(t) => {
                self.token = Some(t);
                Ok(())
            },
            None => Err(FetchError::Auth(AuthFailure::MissingToken)),
        }
    }

    /// Stores the session cookie received from a direct password login;
    /// fails if no cookie could be found.
    pub fn consume_cookie(&mut self, raw: Option<String>) -> (r: Result<(), FetchError>)
        ensures
            final(self).spec_uses_challenge() == old(self).spec_uses_challenge(),
            final(self).spec_challenge() == old(self).spec_challenge(),
            match raw {
                Some(t) => r is Ok && final(self).spec_token() == Some(t@),
                None => r == Err::<(), FetchError>(FetchError::Auth(AuthFailure::MissingCookie))
                    && final(self).spec_token() == old(self).spec_token(),
            },
    {
        match raw {
            Some(t) => {
                self.token = Some(t);
                Ok(())
            },
            None => Err(FetchError::Auth(AuthFailure::MissingCookie)),
        }
    }

    /// Derives the session proof from the stored challenge and the shared
    /// secret: the lower-case hex of the HMAC-SHA1 digest of the challenge
    /// keyed by the secret.
    pub fn compute_session_proof(&self, secret: &[u8]) -> (r: Result<String, FetchError>)
        ensures
            match self.spec_challenge() {
                Some(c) => r is Ok && r->Ok_0@ == spec_hex(hmac_sha1_of(secret@, encode_utf8(c))),
                None => r == Err::<String, FetchError>(
                    FetchError::Auth(AuthFailure::MissingChallenge),
                ),
            },
    {
        match &self.challenge {
            Some(c) => {
                let digest = hmac_sha1(secret, c.as_str().as_bytes());
                Ok(to_hex(&digest))
            },
            None => Err(FetchError::Auth(AuthFailure::MissingChallenge)),
        }
    }

    /// The stored token or cookie, for request headers.
    pub fn token(&self) -> (r: Option<&String>)
        ensures
            match r {
                Some(t) => self.spec_token() == Some(t@),
                None => self.spec_token() is None,
            },
    {
        self.token.as_ref()
    }

    /// Clears both challenge and token, forcing a full re-handshake.
    pub fn invalidate(&mut self)
        ensures
            final(self).spec_uses_challenge() == old(self).spec_uses_challenge(),
            final(self).spec_challenge() is None,
            final(self).spec_token() is None,
    {
        self.challenge = None;
        self.token = None;
    }
}

} // verus!
