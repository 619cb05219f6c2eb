//! The state of one secure channel.

use crate::byte_string::ByteString;
use crate::date_time::DateTime;
use crate::service_types::secure_channel_messages::MessageSecurityMode;
use crate::status_codes::{StatusCode, BAD_CERTIFICATE_INVALID, BAD_NONCE_INVALID};
use vstd::prelude::*;

verus! {

/// The algorithms that secure a channel.
#[derive(Clone, Copy, Debug, PartialEq, Eq, Hash, Structural)]
pub enum SecurityPolicy {
    /// A policy that the server does not know.
    Unknown,
    /// No security.
    NoPolicy,
    Basic128Rsa15,
    Basic256,
    Basic256Sha256,
}

impl SecurityPolicy {
    /// Whether the policy secures anything.
    pub open spec fn spec_is_secure(self) -> bool {
        self != SecurityPolicy::NoPolicy
    }

    /// Whether the policy secures anything.
    #[verifier::when_used_as_spec(spec_is_secure)]
    pub fn is_secure(self) -> (r: bool)
        ensures
            r == self.spec_is_secure(),
    {
        self != SecurityPolicy::NoPolicy
    }

    /// The length in bytes of the nonces that the two sides exchange.
    pub open spec fn spec_nonce_length(self) -> usize {
        match self {
            SecurityPolicy::Basic128Rsa15 => 16,
            _ => 32,
        }
    }

    /// The length in bytes of the nonces that the two sides exchange.
    #[verifier::when_used_as_spec(spec_nonce_length)]
    pub fn nonce_length(self) -> (r: usize)
        ensures
            r == self.spec_nonce_length(),
    {
        match self {
            SecurityPolicy::Basic128Rsa15 => 16,
            _ => 32,
        }
    }

    /// The length in bytes of the symmetric encryption key; 0 without security.
    pub fn symmetric_key_size(self) -> (r: usize)
        ensures
            r == match self {
                SecurityPolicy::Basic128Rsa15 => 16usize,
                SecurityPolicy::Basic256 => 32usize,
                SecurityPolicy::Basic256Sha256 => 32usize,
                _ => 0usize,
            },
    {
        match self {
            SecurityPolicy::Basic128Rsa15 => 16,
            SecurityPolicy::Basic256 => 32,
            SecurityPolicy::Basic256Sha256 => 32,
            _ => 0,
        }
    }
}

/// Whether messages in the mode `mode` are signed.
pub open spec fn mode_signs(mode: MessageSecurityMode) -> bool {
    mode == MessageSecurityMode::Sign || mode == MessageSecurityMode::SignAndEncrypt
}

/// The pair of nonces from which the symmetric keys of a channel are derived.
#[derive(Debug, PartialEq, Clone)]
pub struct KeySeed {
    /// The nonce of the client.
    pub remote_nonce: Vec<u8>,
    /// The nonce of the server.
    pub local_nonce: Vec<u8>,
}

/// The value that a `KeySeed` stands for.
pub struct KeySeedView {
    pub remote_nonce: Seq<u8>,
    pub local_nonce: Seq<u8>,
}

impl DeepView for KeySeed {
    type V = KeySeedView;

    open spec fn deep_view(&self) -> KeySeedView {
        KeySeedView { remote_nonce: self.remote_nonce@, local_nonce: self.local_nonce@ }
    }
}

/// Ticks in one millisecond.
pub const TICKS_PER_MILLISECOND: i64 = 10_000;

/// The time, in ticks, from which a token made at `created_at` to live for
/// `lifetime` milliseconds is no longer honoured: a quarter of its lifetime
/// after the lifetime has passed.
pub open spec fn token_end(created_at: DateTime, lifetime: u32) -> int {
    created_at.ticks + (lifetime + lifetime / 4) * TICKS_PER_MILLISECOND
}

/// Whether the time of a token is over at the time `now`.
fn is_over(created_at: &DateTime, lifetime: u32, now: &DateTime) -> (r: bool)
    ensures
        r == (now.ticks >= token_end(*created_at, lifetime)),
{
    let span: i128 = (lifetime as i128 + (lifetime / 4) as i128) * 10_000;
    now.ticks as i128 >= created_at.ticks as i128 + span
}

/// The state of one secure channel, as the server sees it.
#[derive(Debug, PartialEq, Clone)]
pub struct SecureChannel {
    security_mode: MessageSecurityMode,
    security_policy: SecurityPolicy,
    secure_channel_id: u32,
    token_id: u32,
    previous_token_id: Option<u32>,
    previous_token_created_at: DateTime,
    previous_token_lifetime: u32,
    token_created_at: DateTime,
    token_lifetime: u32,
    remote_nonce: Vec<u8>,
    local_nonce: Vec<u8>,
    remote_cert: Option<Vec<u8>>,
    key_seed: Option<KeySeed>,
}

/// The value that a `SecureChannel` stands for.
pub struct SecureChannelView {
    /// How messages are protected.
    pub security_mode: MessageSecurityMode,
    /// The algorithms that protect them.
    pub security_policy: SecurityPolicy,
    /// The id of the channel.
    pub secure_channel_id: u32,
    /// The id of the current token.
    pub token_id: u32,
    /// The id of the token before the last renewal, which is honoured until
    /// it expires.
    pub previous_token_id: Option<u32>,
    /// When the token before the last renewal was made.
    pub previous_token_created_at: DateTime,
    /// For how many milliseconds the token before the last renewal lives.
    pub previous_token_lifetime: u32,
    /// When the current token was made.
    pub token_created_at: DateTime,
    /// For how many milliseconds the current token lives.
    pub token_lifetime: u32,
    /// The nonce of the client.
    pub remote_nonce: Seq<u8>,
    /// The nonce of the server.
    pub local_nonce: Seq<u8>,
    /// The certificate of the client, in encoded form.
    pub remote_cert: Option<Seq<u8>>,
    /// The nonces from which the current symmetric keys are derived.
    pub key_seed: Option<KeySeedView>,
}

impl DeepView for SecureChannel {
    type V = SecureChannelView;

    closed spec fn deep_view(&self) -> SecureChannelView {
        SecureChannelView {
            security_mode: self.security_mode,
            security_policy: self.security_policy,
            secure_channel_id: self.secure_channel_id,
            token_id: self.token_id,
            previous_token_id: self.previous_token_id,
            previous_token_created_at: self.previous_token_created_at,
            previous_token_lifetime: self.previous_token_lifetime,
            token_created_at: self.token_created_at,
            token_lifetime: self.token_lifetime,
            remote_nonce: self.remote_nonce@,
            local_nonce: self.local_nonce@,
            remote_cert: match self.remote_cert {
                None => None,
                Some(cert) => Some(cert@),
            },
            key_seed: self.key_seed.deep_view(),
        }
    }
}

impl View for SecureChannel {
    type V = SecureChannelView;

    open spec fn view(&self) -> SecureChannelView {
        self.deep_view()
    }
}

impl SecureChannelView {
    /// A channel on which nothing has happened, with the given policy.
    pub open spec fn fresh(security_policy: SecurityPolicy) -> SecureChannelView {
        SecureChannelView {
            security_mode: MessageSecurityMode::NoSecurity,
            security_policy,
            secure_channel_id: 0,
            token_id: 0,
            previous_token_id: None,
            previous_token_created_at: DateTime { ticks: 0 },
            previous_token_lifetime: 0,
            token_created_at: DateTime { ticks: 0 },
            token_lifetime: 0,
            remote_nonce: Seq::empty(),
            local_nonce: Seq::empty(),
            remote_cert: None,
            key_seed: None,
        }
    }

    /// Whether the channel takes `nonce` as the nonce of the client: with a
    /// policy that secures, the nonce must be there and have the length that
    /// the policy asks for.
    pub open spec fn accepts_remote_nonce(self, nonce: Option<Seq<u8>>) -> bool {
        match nonce {
            Some(bytes) => !self.security_policy.is_secure() || bytes.len()
                == self.security_policy.nonce_length(),
            None => !self.security_policy.is_secure(),
        }
    }

    /// The channel after it took `nonce` as the nonce of the client. A null
    /// nonce leaves the old one.
    pub open spec fn with_remote_nonce(self, nonce: Option<Seq<u8>>) -> SecureChannelView {
        match nonce {
            Some(bytes) => SecureChannelView { remote_nonce: bytes, ..self },
            None => self,
        }
    }

    /// The channel after its current token became the one before.
    pub open spec fn with_retired_token(self) -> SecureChannelView {
        SecureChannelView {
            previous_token_id: Some(self.token_id),
            previous_token_created_at: self.token_created_at,
            previous_token_lifetime: self.token_lifetime,
            ..self
        }
    }

    /// The channel without a token before the current one.
    pub open spec fn without_previous_token(self) -> SecureChannelView {
        SecureChannelView {
            previous_token_id: None,
            previous_token_created_at: DateTime { ticks: 0 },
            previous_token_lifetime: 0,
            ..self
        }
    }

    /// The channel after it took `certificate` as the certificate of the
    /// client.
    pub open spec fn with_remote_cert(self, certificate: Option<Seq<u8>>) -> SecureChannelView {
        SecureChannelView { remote_cert: certificate, ..self }
    }

    /// Whether the current token is no longer honoured at the time `now`.
    pub open spec fn token_has_expired(self, now: DateTime) -> bool {
        now.ticks >= token_end(self.token_created_at, self.token_lifetime)
    }

    /// Whether a message under the token `token_id` is taken at the time
    /// `now`: the token is the current one, or the one before the last
    /// renewal, and its time is not over. No token has the id zero.
    pub open spec fn honours_token(self, token_id: u32, now: DateTime) -> bool {
        &&& token_id != 0
        &&& {
            ||| token_id == self.token_id && !self.token_has_expired(now)
            ||| self.previous_token_id == Some(token_id) && now.ticks < token_end(
                self.previous_token_created_at,
                self.previous_token_lifetime,
            )
        }
    }

    /// Whether the symmetric keys are to be derived: the policy secures and
    /// the mode signs.
    pub open spec fn wants_keys(self) -> bool {
        self.security_policy.is_secure() && mode_signs(self.security_mode)
    }

    /// The channel after its symmetric keys were derived from its nonces.
    pub open spec fn with_derived_keys(self) -> SecureChannelView {
        SecureChannelView {
            key_seed: Some(
                KeySeedView { remote_nonce: self.remote_nonce, local_nonce: self.local_nonce },
            ),
            ..self
        }
    }
}

impl SecureChannel {
    /// A channel on which nothing has happened, with the given policy.
    pub fn new(security_policy: SecurityPolicy) -> (r: SecureChannel)
        ensures
            r@ == SecureChannelView::fresh(security_policy),
    {
        SecureChannel {
            security_mode: MessageSecurityMode::NoSecurity,
            security_policy,
            secure_channel_id: 0,
            token_id: 0,
            previous_token_id: None,
            previous_token_created_at: DateTime { ticks: 0 },
            previous_token_lifetime: 0,
            token_created_at: DateTime { ticks: 0 },
            token_lifetime: 0,
            remote_nonce: Vec::new(),
            local_nonce: Vec::new(),
            remote_cert: None,
            key_seed: None,
        }
    }

    /// The security mode.
    pub fn security_mode(&self) -> (r: MessageSecurityMode)
        ensures
            r == self@.security_mode,
    {
        self.security_mode
    }

    /// Sets the security mode.
    pub fn set_security_mode(&mut self, security_mode: MessageSecurityMode)
        ensures
            final(self)@ == (SecureChannelView { security_mode, ..old(self)@ }),
    {
        self.security_mode = security_mode;
    }

    /// The security policy.
    pub fn security_policy(&self) -> (r: SecurityPolicy)
        ensures
            r == self@.security_policy,
    {
        self.security_policy
    }

    /// Sets the security policy.
    pub fn set_security_policy(&mut self, security_policy: SecurityPolicy)
        ensures
            final(self)@ == (SecureChannelView { security_policy, ..old(self)@ }),
    {
        self.security_policy = security_policy;
    }

    /// The secure channel id.
    pub fn secure_channel_id(&self) -> (r: u32)
        ensures
            r == self@.secure_channel_id,
    {
        self.secure_channel_id
    }

    /// Sets the secure channel id.
    pub fn set_secure_channel_id(&mut self, secure_channel_id: u32)
        ensures
            final(self)@ == (SecureChannelView { secure_channel_id, ..old(self)@ }),
    {
        self.secure_channel_id = secure_channel_id;
    }

    /// The token id.
    pub fn token_id(&self) -> (r: u32)
        ensures
            r == self@.token_id,
    {
        self.token_id
    }

    /// Sets the token id.
    pub fn set_token_id(&mut self, token_id: u32)
        ensures
            final(self)@ == (SecureChannelView { token_id, ..old(self)@ }),
    {
        self.token_id = token_id;
    }

    /// Closes the channel: what is left is a channel on which nothing has
    /// happened, with the same policy, so that no token is honoured any more.
    pub fn close(&mut self)
        ensures
            final(self)@ == SecureChannelView::fresh(old(self)@.security_policy),
    {
        *self = SecureChannel::new(self.security_policy);
    }

    /// The id of the token before the last renewal.
    pub fn previous_token_id(&self) -> (r: Option<u32>)
        ensures
            r == self@.previous_token_id,
    {
        self.previous_token_id
    }

    /// Makes the current token the one before.
    pub fn retire_token(&mut self)
        ensures
            final(self)@ == old(self)@.with_retired_token(),
    {
        self.previous_token_id = Some(self.token_id);
        self.previous_token_created_at = self.token_created_at;
        self.previous_token_lifetime = self.token_lifetime;
    }

    /// Forgets the token before.
    pub fn forget_previous_token(&mut self)
        ensures
            final(self)@ == old(self)@.without_previous_token(),
    {
        self.previous_token_id = None;
        self.previous_token_created_at = DateTime { ticks: 0 };
        self.previous_token_lifetime = 0;
    }

    /// Whether the current token is no longer honoured at the time `now`.
    pub fn token_has_expired(&self, now: &DateTime) -> (r: bool)
        ensures
            r == self@.token_has_expired(*now),
    {
        is_over(&self.token_created_at, self.token_lifetime, now)
    }

    /// Whether a message under the token `token_id` is taken at the time
    /// `now`.
    pub fn honours_token(&self, token_id: u32, now: &DateTime) -> (r: bool)
        ensures
            r == self@.honours_token(token_id, *now),
    {
        if token_id == 0 {
            false
        } else if token_id == self.token_id && !self.token_has_expired(now) {
            true
        } else {
            match self.previous_token_id {
                Some(previous) => previous == token_id && !is_over(
                    &self.previous_token_created_at,
                    self.previous_token_lifetime,
                    now,
                ),
                None => false,
            }
        }
    }

    /// The token created at.
    pub fn token_created_at(&self) -> (r: DateTime)
        ensures
            r == self@.token_created_at,
    {
        self.token_created_at
    }

    /// Sets the token created at.
    pub fn set_token_created_at(&mut self, token_created_at: DateTime)
        ensures
            final(self)@ == (SecureChannelView { token_created_at, ..old(self)@ }),
    {
        self.token_created_at = token_created_at;
    }

    /// The token lifetime.
    pub fn token_lifetime(&self) -> (r: u32)
        ensures
            r == self@.token_lifetime,
    {
        self.token_lifetime
    }

    /// Sets the token lifetime.
    pub fn set_token_lifetime(&mut self, token_lifetime: u32)
        ensures
            final(self)@ == (SecureChannelView { token_lifetime, ..old(self)@ }),
    {
        self.token_lifetime = token_lifetime;
    }

    /// The nonce of the client.
    pub fn remote_nonce(&self) -> (r: &[u8])
        ensures
            r@ == self@.remote_nonce,
    {
        self.remote_nonce.as_slice()
    }

    /// The nonce of the server.
    pub fn local_nonce(&self) -> (r: &[u8])
        ensures
            r@ == self@.local_nonce,
    {
        self.local_nonce.as_slice()
    }

    /// The nonce of the server as a byte string: null where it is empty.
    pub fn local_nonce_as_byte_string(&self) -> (r: ByteString)
        ensures
            r@ == if self@.local_nonce.len() == 0 {
                None
            } else {
                Some(self@.local_nonce)
            },
    {
        if self.local_nonce.len() == 0 {
            ByteString::null()
        } else {
            ByteString::from(self.local_nonce.clone())
        }
    }

    /// Takes `local_nonce` as the nonce of the server.
    pub fn set_local_nonce(&mut self, local_nonce: Vec<u8>)
        ensures
            final(self)@ == (SecureChannelView { local_nonce: local_nonce@, ..old(self)@ }),
    {
        self.local_nonce = local_nonce;
    }

    /// Makes a random nonce of the server, of the length that the policy
    /// asks for.
    pub fn create_random_nonce(&mut self)
        ensures
            final(self)@.local_nonce.len() == old(self)@.security_policy.nonce_length(),
            final(self)@ == (SecureChannelView {
                local_nonce: final(self)@.local_nonce,
                ..old(self)@
            }),
    {
        let nonce = ByteString::random(self.security_policy.nonce_length());
        match nonce.value {
            Some(bytes) => {
                self.local_nonce = bytes;
            },
            None => {},
        }
    }

    /// Takes `remote_nonce` as the nonce of the client, or fails with
    /// `BAD_NONCE_INVALID` and changes nothing where the channel does not
    /// accept it.
    pub fn set_remote_nonce_from_byte_string(&mut self, remote_nonce: &ByteString) -> (r: Result<
        (),
        StatusCode,
    >)
        ensures
            old(self)@.accepts_remote_nonce(remote_nonce@) ==> r is Ok && final(self)@ == old(
                self,
            )@.with_remote_nonce(remote_nonce@),
            !old(self)@.accepts_remote_nonce(remote_nonce@) ==> r == Err::<(), StatusCode>(
                StatusCode(BAD_NONCE_INVALID),
            ) && final(self)@ == old(self)@,
    {
        match &remote_nonce.value {
            Some(bytes) => {
                if self.security_policy.is_secure() && bytes.len()
                    != self.security_policy.nonce_length() {
                    Err(StatusCode(BAD_NONCE_INVALID))
                } else {
                    self.remote_nonce = bytes.clone();
                    Ok(())
                }
            },
            None => {
                if self.security_policy.is_secure() {
                    Err(StatusCode(BAD_NONCE_INVALID))
                } else {
                    Ok(())
                }
            },
        }
    }

    /// The certificate of the client, in encoded form.
    pub fn remote_cert(&self) -> (r: Option<&[u8]>)
        ensures
            r.deep_view() == self@.remote_cert,
    {
        match &self.remote_cert {
            None => None,
            Some(cert) => {
                let bytes = cert.as_slice();
                assert(bytes.deep_view() =~= bytes@);
                Some(bytes)
            },
        }
    }

    /// Takes `remote_cert` as the certificate of the client. `valid` says
    /// whether the bytes are an X.509 certificate; where they are not, fails
    /// with `BAD_CERTIFICATE_INVALID` and changes nothing. A null byte string
    /// means no certificate and is always taken.
    pub fn set_remote_cert_from_byte_string(&mut self, remote_cert: &ByteString, valid: bool) -> (r:
        Result<(), StatusCode>)
        ensures
            (remote_cert@ is None || valid) ==> r is Ok && final(self)@ == old(self)@.with_remote_cert(
                remote_cert@,
            ),
            !(remote_cert@ is None || valid) ==> r == Err::<(), StatusCode>(
                StatusCode(BAD_CERTIFICATE_INVALID),
            ) && final(self)@ == old(self)@,
    {
        match &remote_cert.value {
            None => {
                self.remote_cert = None;
                Ok(())
            },
            Some(bytes) => {
                if valid {
                    self.remote_cert = Some(bytes.clone());
                    Ok(())
                } else {
                    Err(StatusCode(BAD_CERTIFICATE_INVALID))
                }
            },
        }
    }

    /// The nonces from which the current symmetric keys are derived.
    pub fn key_seed(&self) -> (r: &Option<KeySeed>)
        ensures
            r.deep_view() == self@.key_seed,
    {
        &self.key_seed
    }

    /// Notes that the symmetric keys are now those derived from the two
    /// nonces.
    pub fn derive_keys(&mut self)
        ensures
            final(self)@ == old(self)@.with_derived_keys(),
    {
        self.key_seed = Some(
            KeySeed { remote_nonce: self.remote_nonce.clone(), local_nonce: self.local_nonce.clone() },
        );
    }
}

} // verus!
