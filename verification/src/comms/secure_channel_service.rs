//! The service that opens secure channels and renews their tokens.

use crate::byte_string::ByteString;
use crate::comms::message::{result_view, SupportedMessage, SupportedMessageView};
use crate::comms::secure_channel::{token_end, SecureChannel, SecureChannelView};
use crate::comms::security_header::{SecurityHeader, SecurityHeaderView};
use crate::date_time::DateTime;
use crate::service_types::response_header::{ResponseHeader, ResponseHeaderView};
use crate::service_types::secure_channel_messages::{
    ChannelSecurityToken, ChannelSecurityTokenView, CloseSecureChannelResponse,
    CloseSecureChannelResponseView, MessageSecurityMode, OpenSecureChannelRequestView,
    OpenSecureChannelResponse, OpenSecureChannelResponseView, SecurityTokenRequestType, ServiceFault,
};
use crate::session_manager::{
    kept_sessions_upto, lemma_kept_sessions_are_kept, SessionManager, SessionManagerView,
};
use crate::status_codes::{
    StatusCode, BAD_CERTIFICATE_INVALID, BAD_NONCE_INVALID, BAD_PROTOCOL_VERSION_UNSUPPORTED,
    BAD_SECURITY_MODE_REJECTED, BAD_UNEXPECTED_ERROR, GOOD,
};
use vstd::prelude::*;

verus! {

/// What the service remembers between requests: the ids it gave out last and
/// whether a token was issued.
#[derive(Clone, Copy, Debug, PartialEq, Eq, Structural)]
pub struct SecureChannelState {
    /// Whether a token was ever issued.
    pub issued: bool,
    /// How many renewals were asked for.
    pub renew_count: usize,
    /// The secure channel id given out last.
    pub last_secure_channel_id: u32,
    /// The token id given out last.
    pub last_token_id: u32,
}

impl SecureChannelState {
    /// The state before any request.
    pub open spec fn initial() -> SecureChannelState {
        SecureChannelState {
            issued: false,
            renew_count: 0,
            last_secure_channel_id: 0,
            last_token_id: 0,
        }
    }

    /// Whether the counters can still go up.
    pub open spec fn spec_has_room(self) -> bool {
        self.last_secure_channel_id < u32::MAX && self.last_token_id < u32::MAX && self.renew_count
            < usize::MAX
    }

    /// A new `SecureChannelState`.
    pub fn new() -> (r: SecureChannelState)
        ensures
            r == Self::initial(),
    {
        SecureChannelState {
            last_secure_channel_id: 0,
            issued: false,
            renew_count: 0,
            last_token_id: 0,
        }
    }

    /// Whether the counters can still go up.
    #[verifier::when_used_as_spec(spec_has_room)]
    pub fn has_room(self) -> (r: bool)
        ensures
            r == self.spec_has_room(),
    {
        self.last_secure_channel_id < u32::MAX && self.last_token_id < u32::MAX && self.renew_count
            < usize::MAX
    }

    /// Gives out the next secure channel id.
    pub fn create_secure_channel_id(&mut self) -> (r: u32)
        requires
            old(self).last_secure_channel_id < u32::MAX,
        ensures
            r == old(self).last_secure_channel_id + 1,
            *final(self) == (SecureChannelState { last_secure_channel_id: r, ..*old(self) }),
    {
        self.last_secure_channel_id += 1;
        self.last_secure_channel_id
    }

    /// Gives out the next token id.
    pub fn create_token_id(&mut self) -> (r: u32)
        requires
            old(self).last_token_id < u32::MAX,
        ensures
            r == old(self).last_token_id + 1,
            *final(self) == (SecureChannelState { last_token_id: r, ..*old(self) }),
    {
        self.last_token_id += 1;
        self.last_token_id
    }
}

/// What a request to open a secure channel leads to: the answer, and the
/// service and the channel afterwards.
pub struct OpenOutcome {
    pub result: Result<SupportedMessageView, StatusCode>,
    pub state: SecureChannelState,
    pub channel: SecureChannelView,
}

/// Whether `mode` is one of the three valid modes.
pub open spec fn valid_mode(mode: MessageSecurityMode) -> bool {
    mode == MessageSecurityMode::NoSecurity || mode == MessageSecurityMode::Sign || mode
        == MessageSecurityMode::SignAndEncrypt
}

/// The bytes of a byte string; none for the null byte string.
pub open spec fn bytes_of(value: Option<Seq<u8>>) -> Seq<u8> {
    match value {
        Some(bytes) => bytes,
        None => Seq::empty(),
    }
}

/// The byte string that holds `bytes`: null where there are none.
pub open spec fn byte_string_of(bytes: Seq<u8>) -> Option<Seq<u8>> {
    if bytes.len() == 0 {
        None
    } else {
        Some(bytes)
    }
}

/// The service after it gave out a token, and a channel id too where the
/// request is to issue.
pub open spec fn state_after_grant(
    state: SecureChannelState,
    request_type: SecurityTokenRequestType,
) -> SecureChannelState {
    SecureChannelState {
        issued: true,
        last_token_id: (state.last_token_id + 1) as u32,
        last_secure_channel_id: if request_type == SecurityTokenRequestType::Issue {
            (state.last_secure_channel_id + 1) as u32
        } else {
            state.last_secure_channel_id
        },
        ..state
    }
}

/// The channel after it was granted a token in the mode `mode`: it has the
/// new token; an issue gives it the new channel id and forgets the old token,
/// a renewal keeps the channel id and remembers the old token.
pub open spec fn channel_after_grant(
    channel: SecureChannelView,
    state: SecureChannelState,
    request: OpenSecureChannelRequestView,
    now: DateTime,
) -> SecureChannelView {
    let granted = state_after_grant(state, request.request_type);
    let kept = if request.request_type == SecurityTokenRequestType::Renew {
        channel.with_retired_token()
    } else {
        channel.without_previous_token()
    };
    SecureChannelView {
        security_mode: request.security_mode,
        token_id: granted.last_token_id,
        secure_channel_id: if request.request_type == SecurityTokenRequestType::Issue {
            granted.last_secure_channel_id
        } else {
            channel.secure_channel_id
        },
        token_created_at: now,
        token_lifetime: request.requested_lifetime,
        ..kept
    }
}

/// The response that grants the token of `channel`.
pub open spec fn grant_response(
    channel: SecureChannelView,
    request: OpenSecureChannelRequestView,
    now: DateTime,
) -> SupportedMessageView {
    SupportedMessageView::OpenSecureChannelResponse(
        OpenSecureChannelResponseView {
            response_header: ResponseHeaderView::answering(
                request.request_header.request_handle,
                now,
                StatusCode(GOOD),
            ),
            server_protocol_version: 0,
            security_token: ChannelSecurityTokenView {
                channel_id: channel.secure_channel_id,
                token_id: channel.token_id,
                created_at: now,
                revised_lifetime: request.requested_lifetime,
            },
            server_nonce: byte_string_of(channel.local_nonce),
        },
    )
}

/// What a message that asks to open a secure channel leads to. `hello_version`
/// is the protocol version of the Hello, `certificate_valid` says whether the
/// sender certificate of the header is an X.509 certificate, `now` is the time
/// and `nonce` the fresh nonce of the server.
///
/// Anything but a request to open a channel under an asymmetric header is an
/// unexpected error. A protocol version other than that of the Hello is
/// answered by a fault. A renewal with the nonce of the last request is
/// answered by a fault, and one before any issue is an unexpected error. An
/// invalid security mode is answered by a fault. Then the token is granted:
/// the sender certificate must be valid and the client nonce acceptable, and
/// the channel gets the fresh server nonce and, where it secures and signs,
/// keys derived from the two nonces.
pub open spec fn open_outcome(
    state: SecureChannelState,
    channel: SecureChannelView,
    security_header: SecurityHeaderView,
    hello_version: u32,
    message: SupportedMessageView,
    certificate_valid: bool,
    now: DateTime,
    nonce: Seq<u8>,
) -> OpenOutcome {
    match (message, security_header) {
        (
            SupportedMessageView::OpenSecureChannelRequest(request),
            SecurityHeaderView::Asymmetric(header),
        ) => {
            let handle = request.request_header.request_handle;
            let renew = request.request_type == SecurityTokenRequestType::Renew;
            if request.client_protocol_version != hello_version {
                OpenOutcome {
                    result: Ok(
                        SupportedMessageView::fault(
                            handle,
                            now,
                            StatusCode(BAD_PROTOCOL_VERSION_UNSUPPORTED),
                        ),
                    ),
                    state,
                    channel,
                }
            } else if renew && bytes_of(request.client_nonce) == channel.remote_nonce {
                OpenOutcome {
                    result: Ok(SupportedMessageView::fault(handle, now, StatusCode(BAD_NONCE_INVALID))),
                    state,
                    channel,
                }
            } else if renew && !state.issued {
                OpenOutcome { result: Err(StatusCode(BAD_UNEXPECTED_ERROR)), state, channel }
            } else {
                let counted = if renew {
                    SecureChannelState { renew_count: (state.renew_count + 1) as usize, ..state }
                } else {
                    state
                };
                if !valid_mode(request.security_mode) {
                    OpenOutcome {
                        result: Ok(
                            SupportedMessageView::fault(
                                handle,
                                now,
                                StatusCode(BAD_SECURITY_MODE_REJECTED),
                            ),
                        ),
                        state: counted,
                        channel,
                    }
                } else {
                    let granted = state_after_grant(counted, request.request_type);
                    let with_token = channel_after_grant(channel, counted, request, now);
                    if !(header.sender_certificate is None || certificate_valid) {
                        OpenOutcome {
                            result: Err(StatusCode(BAD_CERTIFICATE_INVALID)),
                            state: granted,
                            channel: with_token,
                        }
                    } else {
                        let with_cert = with_token.with_remote_cert(header.sender_certificate);
                        if !with_cert.accepts_remote_nonce(request.client_nonce) {
                            OpenOutcome {
                                result: Ok(
                                    SupportedMessageView::fault(
                                        handle,
                                        now,
                                        StatusCode(BAD_NONCE_INVALID),
                                    ),
                                ),
                                state: granted,
                                channel: with_cert,
                            }
                        } else {
                            let with_nonces = SecureChannelView {
                                local_nonce: nonce,
                                ..with_cert.with_remote_nonce(request.client_nonce)
                            };
                            let done = if with_nonces.wants_keys() {
                                with_nonces.with_derived_keys()
                            } else {
                                with_nonces
                            };
                            OpenOutcome {
                                result: Ok(grant_response(done, request, now)),
                                state: granted,
                                channel: done,
                            }
                        }
                    }
                }
            }
        },
        _ => OpenOutcome { result: Err(StatusCode(BAD_UNEXPECTED_ERROR)), state, channel },
    }
}

/// What a request to close a secure channel leads to: the answer, the
/// channel and the sessions afterwards.
pub struct CloseOutcome {
    /// The response, or the error.
    pub result: Result<SupportedMessageView, StatusCode>,
    /// The channel afterwards.
    pub channel: SecureChannelView,
    /// The sessions of the server afterwards.
    pub sessions: SessionManagerView,
}

/// What a message that asks to close a secure channel leads to at the time
/// `now`. A request to close is answered with the status `GOOD`; the channel
/// is then one on which nothing has happened, and every session that spoke
/// on it is gone, while the sessions on other channels stay in their order.
/// Any other message is an unexpected error and changes nothing.
pub open spec fn close_outcome(
    channel: SecureChannelView,
    sessions: SessionManagerView,
    message: SupportedMessageView,
    now: DateTime,
) -> CloseOutcome {
    match message {
        SupportedMessageView::CloseSecureChannelRequest(request) => CloseOutcome {
            result: Ok(
                SupportedMessageView::CloseSecureChannelResponse(
                    CloseSecureChannelResponseView {
                        response_header: ResponseHeaderView::answering(
                            request.request_header.request_handle,
                            now,
                            StatusCode(GOOD),
                        ),
                    },
                ),
            ),
            channel: SecureChannelView::fresh(channel.security_policy),
            sessions: sessions.with_sessions(
                kept_sessions_upto(
                    sessions.sessions,
                    DateTime { ticks: 0 },
                    Some(channel.secure_channel_id),
                    sessions.sessions.len() as int,
                ),
            ),
        },
        _ => CloseOutcome { result: Err(StatusCode(BAD_UNEXPECTED_ERROR)), channel, sessions },
    }
}

/// Opens secure channels and renews their tokens.
#[derive(Debug, PartialEq, Clone)]
pub struct SecureChannelService {
    // Secure channel info for the session
    secure_channel_state: SecureChannelState,
}

impl View for SecureChannelService {
    type V = SecureChannelState;

    closed spec fn view(&self) -> SecureChannelState {
        self.secure_channel_state
    }
}

impl SecureChannelService {
    /// A new `SecureChannelService`.
    pub fn new() -> (r: SecureChannelService)
        ensures
            r@ == SecureChannelState::initial(),
    {
        SecureChannelService { secure_channel_state: SecureChannelState::new() }
    }

    /// What the service remembers.
    pub fn state(&self) -> (r: SecureChannelState)
        ensures
            r == self@,
    {
        self.secure_channel_state
    }

    /// Answers a message that asks to open a secure channel, at the time
    /// `now` and with `nonce` as the fresh nonce of the server, exactly as
    /// `open_outcome` says.
    pub fn open_secure_channel_at(
        &mut self,
        secure_channel: &mut SecureChannel,
        security_header: &SecurityHeader,
        client_protocol_version: u32,
        message: &SupportedMessage,
        certificate_valid: bool,
        now: DateTime,
        nonce: Vec<u8>,
    ) -> (r: Result<SupportedMessage, StatusCode>)
        requires
            old(self)@.has_room(),
        ensures
            ({
                let outcome = open_outcome(
                    old(self)@,
                    old(secure_channel)@,
                    security_header@,
                    client_protocol_version,
                    message@,
                    certificate_valid,
                    now,
                    nonce@,
                );
                &&& result_view(r) == outcome.result
                &&& final(self)@ == outcome.state
                &&& final(secure_channel)@ == outcome.channel
            }),
    {
        let request = match message {
            SupportedMessage::OpenSecureChannelRequest(request) => request,
            _ => {
                return Err(StatusCode(BAD_UNEXPECTED_ERROR));
            },
        };
        let security_header = match security_header {
            SecurityHeader::Asymmetric(security_header) => security_header,
            _ => {
                return Err(StatusCode(BAD_UNEXPECTED_ERROR));
            },
        };
        // Must compare protocol version to the one from HELLO
        if request.client_protocol_version != client_protocol_version {
            return Ok(
                ServiceFault::new_timestamped(
                    now,
                    &request.request_header,
                    StatusCode(BAD_PROTOCOL_VERSION_UNSUPPORTED),
                ),
            );
        }
        // Test the request type
        let renew = match request.request_type {
            SecurityTokenRequestType::Issue => false,
            SecurityTokenRequestType::Renew => {
                // It is invalid for the renew to use the same nonce as was
                // used for last issue/renew
                if crate::byte_string::same_bytes(
                    request.client_nonce.as_ref(),
                    secure_channel.remote_nonce(),
                ) {
                    return Ok(
                        ServiceFault::new_timestamped(
                            now,
                            &request.request_header,
                            StatusCode(BAD_NONCE_INVALID),
                        ),
                    );
                }
                // check to see if the secure channel has been issued before or not
                if !self.secure_channel_state.issued {
                    return Err(StatusCode(BAD_UNEXPECTED_ERROR));
                }
                self.secure_channel_state.renew_count += 1;
                true
            },
        };
        // Check the requested security mode
        match request.security_mode {
            MessageSecurityMode::NoSecurity
            | MessageSecurityMode::Sign
            | MessageSecurityMode::SignAndEncrypt => {},
            _ => {
                return Ok(
                    ServiceFault::new_timestamped(
                        now,
                        &request.request_header,
                        StatusCode(BAD_SECURITY_MODE_REJECTED),
                    ),
                );
            },
        }
        // Process the request
        self.secure_channel_state.issued = true;
        let security_mode = request.security_mode;
        if renew {
            secure_channel.retire_token();
        } else {
            secure_channel.forget_previous_token();
        }
        secure_channel.set_security_mode(security_mode);
        secure_channel.set_token_id(self.secure_channel_state.create_token_id());
        if !renew {
            secure_channel.set_secure_channel_id(
                self.secure_channel_state.create_secure_channel_id(),
            );
        }
        secure_channel.set_token_created_at(now);
        secure_channel.set_token_lifetime(request.requested_lifetime);
        match secure_channel.set_remote_cert_from_byte_string(
            &security_header.sender_certificate,
            certificate_valid,
        ) {
            Ok(()) => {},
            Err(e) => {
                return Err(e);
            },
        }
        match secure_channel.set_remote_nonce_from_byte_string(&request.client_nonce) {
            Ok(()) => {
                secure_channel.set_local_nonce(nonce);
            },
            Err(e) => {
                return Ok(ServiceFault::new_timestamped(now, &request.request_header, e));
            },
        }
        let security_policy = secure_channel.security_policy();
        if security_policy.is_secure() && (security_mode == MessageSecurityMode::Sign
            || security_mode == MessageSecurityMode::SignAndEncrypt) {
            secure_channel.derive_keys();
        }
        let response = OpenSecureChannelResponse {
            response_header: ResponseHeader::new_timestamped_service_result(
                now,
                &request.request_header,
                StatusCode(GOOD),
            ),
            server_protocol_version: 0,
            security_token: ChannelSecurityToken {
                channel_id: secure_channel.secure_channel_id(),
                token_id: secure_channel.token_id(),
                created_at: now,
                revised_lifetime: request.requested_lifetime,
            },
            server_nonce: secure_channel.local_nonce_as_byte_string(),
        };
        Ok(SupportedMessage::OpenSecureChannelResponse(response))
    }

    /// Answers a message that asks to open a secure channel, with the time of
    /// the system clock and a random nonce of the length that the policy of
    /// the channel asks for.
    pub fn open_secure_channel(
        &mut self,
        secure_channel: &mut SecureChannel,
        security_header: &SecurityHeader,
        client_protocol_version: u32,
        message: &SupportedMessage,
        certificate_valid: bool,
    ) -> (r: Result<SupportedMessage, StatusCode>)
        requires
            old(self)@.has_room(),
        ensures
            exists|now: DateTime, nonce: Seq<u8>|
                {
                    &&& nonce.len() == old(secure_channel)@.security_policy.nonce_length()
                    &&& result_view(r) == (#[trigger] open_outcome(
                        old(self)@,
                        old(secure_channel)@,
                        security_header@,
                        client_protocol_version,
                        message@,
                        certificate_valid,
                        now,
                        nonce,
                    )).result
                    &&& final(self)@ == open_outcome(
                        old(self)@,
                        old(secure_channel)@,
                        security_header@,
                        client_protocol_version,
                        message@,
                        certificate_valid,
                        now,
                        nonce,
                    ).state
                    &&& final(secure_channel)@ == open_outcome(
                        old(self)@,
                        old(secure_channel)@,
                        security_header@,
                        client_protocol_version,
                        message@,
                        certificate_valid,
                        now,
                        nonce,
                    ).channel
                },
    {
        let now = DateTime::now();
        let nonce = ByteString::random(secure_channel.security_policy().nonce_length());
        let bytes = match nonce.value {
            Some(bytes) => bytes,
            None => Vec::new(),
        };
        self.open_secure_channel_at(
            secure_channel,
            security_header,
            client_protocol_version,
            message,
            certificate_valid,
            now,
            bytes,
        )
    }

    /// Answers, at the time `now`, a message that asks to close the secure
    /// channel, as `close_outcome` says. The ids that the service has given
    /// out stay given out.
    pub fn close_secure_channel_at(
        &mut self,
        secure_channel: &mut SecureChannel,
        sessions: &mut SessionManager,
        message: &SupportedMessage,
        now: DateTime,
    ) -> (r: Result<SupportedMessage, StatusCode>)
        ensures
            final(self)@ == old(self)@,
            (CloseOutcome {
                result: result_view(r),
                channel: final(secure_channel)@,
                sessions: final(sessions)@,
            }) == close_outcome(old(secure_channel)@, old(sessions)@, message@, now),
    {
        match message {
            SupportedMessage::CloseSecureChannelRequest(request) => {
                let _ = sessions.close_secure_channel(secure_channel.secure_channel_id());
                secure_channel.close();
                Ok(
                    SupportedMessage::CloseSecureChannelResponse(
                        CloseSecureChannelResponse {
                            response_header: ResponseHeader::new_timestamped_service_result(
                                now,
                                &request.request_header,
                                StatusCode(GOOD),
                            ),
                        },
                    ),
                )
            },
            _ => Err(StatusCode(BAD_UNEXPECTED_ERROR)),
        }
    }

    /// Answers a message that asks to close the secure channel, at the time
    /// that the clock shows.
    pub fn close_secure_channel(
        &mut self,
        secure_channel: &mut SecureChannel,
        sessions: &mut SessionManager,
        message: &SupportedMessage,
    ) -> (r: Result<SupportedMessage, StatusCode>)
        ensures
            final(self)@ == old(self)@,
            exists|now: DateTime|
                (CloseOutcome {
                    result: result_view(r),
                    channel: final(secure_channel)@,
                    sessions: final(sessions)@,
                }) == #[trigger] close_outcome(old(secure_channel)@, old(sessions)@, message@, now),
    {
        let now = DateTime::now();
        self.close_secure_channel_at(secure_channel, sessions, message, now)
    }
}


/// Whether `message` asks, under the asymmetric header `security_header` and
/// with the protocol version `hello_version`, for a token of the kind
/// `request_type`.
pub open spec fn asks_for(
    message: SupportedMessageView,
    security_header: SecurityHeaderView,
    hello_version: u32,
    request_type: SecurityTokenRequestType,
) -> bool {
    &&& security_header is Asymmetric
    &&& message matches SupportedMessageView::OpenSecureChannelRequest(request)
        && request.client_protocol_version == hello_version && request.request_type
        == request_type
}

/// The handle of the request that `message` carries.
pub open spec fn handle_of(message: SupportedMessageView) -> u32 {
    match message {
        SupportedMessageView::OpenSecureChannelRequest(request) => request.request_header.request_handle,
        _ => 0,
    }
}

/// The nonce of the client that `message` carries.
pub open spec fn client_nonce_of(message: SupportedMessageView) -> Seq<u8> {
    match message {
        SupportedMessageView::OpenSecureChannelRequest(request) => bytes_of(request.client_nonce),
        _ => Seq::empty(),
    }
}

/// The token that `result` grants, where it grants one.
pub open spec fn granted_token(result: Result<SupportedMessageView, StatusCode>) -> Option<
    ChannelSecurityTokenView,
> {
    match result {
        Ok(SupportedMessageView::OpenSecureChannelResponse(response)) => Some(
            response.security_token,
        ),
        _ => None,
    }
}

/// No request makes the ids that the service gave out last go down, and a
/// granted token has the token id given out last, which is above the one
/// before.
pub proof fn lemma_ids_never_decrease(
    state: SecureChannelState,
    channel: SecureChannelView,
    security_header: SecurityHeaderView,
    hello_version: u32,
    message: SupportedMessageView,
    certificate_valid: bool,
    now: DateTime,
    nonce: Seq<u8>,
)
    requires
        state.has_room(),
    ensures
        ({
            let outcome = open_outcome(
                state,
                channel,
                security_header,
                hello_version,
                message,
                certificate_valid,
                now,
                nonce,
            );
            &&& outcome.state.last_secure_channel_id >= state.last_secure_channel_id
            &&& outcome.state.last_token_id >= state.last_token_id
            &&& granted_token(outcome.result) matches Some(token) ==> token.token_id
                == outcome.state.last_token_id && token.token_id > state.last_token_id
                && token.channel_id == outcome.channel.secure_channel_id
        }),
{
}

/// Of two requests to issue that follow each other and are both granted, the
/// second gets a larger channel id and a larger token id than the first.
pub proof fn lemma_issued_ids_increase(
    state: SecureChannelState,
    channel: SecureChannelView,
    first_header: SecurityHeaderView,
    first_message: SupportedMessageView,
    first_certificate_valid: bool,
    first_now: DateTime,
    first_nonce: Seq<u8>,
    second_header: SecurityHeaderView,
    second_message: SupportedMessageView,
    second_certificate_valid: bool,
    second_now: DateTime,
    second_nonce: Seq<u8>,
    hello_version: u32,
)
    requires
        state.has_room(),
        asks_for(first_message, first_header, hello_version, SecurityTokenRequestType::Issue),
        asks_for(second_message, second_header, hello_version, SecurityTokenRequestType::Issue),
        open_outcome(
            state,
            channel,
            first_header,
            hello_version,
            first_message,
            first_certificate_valid,
            first_now,
            first_nonce,
        ).state.has_room(),
    ensures
        ({
            let first = open_outcome(
                state,
                channel,
                first_header,
                hello_version,
                first_message,
                first_certificate_valid,
                first_now,
                first_nonce,
            );
            let second = open_outcome(
                first.state,
                first.channel,
                second_header,
                hello_version,
                second_message,
                second_certificate_valid,
                second_now,
                second_nonce,
            );
            (granted_token(first.result) is Some && granted_token(second.result) is Some) ==> {
                let a = granted_token(first.result).unwrap();
                let b = granted_token(second.result).unwrap();
                a.channel_id < b.channel_id && a.token_id < b.token_id
            }
        }),
{
}

/// A request to renew that carries the nonce that the channel has from the
/// request before is answered by a fault with `BAD_NONCE_INVALID`, and
/// changes nothing.
pub proof fn lemma_renew_with_old_nonce_is_refused(
    state: SecureChannelState,
    channel: SecureChannelView,
    security_header: SecurityHeaderView,
    hello_version: u32,
    message: SupportedMessageView,
    certificate_valid: bool,
    now: DateTime,
    nonce: Seq<u8>,
)
    requires
        asks_for(message, security_header, hello_version, SecurityTokenRequestType::Renew),
        client_nonce_of(message) == channel.remote_nonce,
    ensures
        open_outcome(
            state,
            channel,
            security_header,
            hello_version,
            message,
            certificate_valid,
            now,
            nonce,
        ) == (OpenOutcome {
            result: Ok(
                SupportedMessageView::fault(handle_of(message), now, StatusCode(BAD_NONCE_INVALID)),
            ),
            state,
            channel,
        }),
{
}

/// A request to renew before any token was issued, with a nonce other than
/// the one the channel holds, is an unexpected error, and changes nothing.
pub proof fn lemma_renew_before_issue_is_an_error(
    state: SecureChannelState,
    channel: SecureChannelView,
    security_header: SecurityHeaderView,
    hello_version: u32,
    message: SupportedMessageView,
    certificate_valid: bool,
    now: DateTime,
    nonce: Seq<u8>,
)
    requires
        asks_for(message, security_header, hello_version, SecurityTokenRequestType::Renew),
        client_nonce_of(message) != channel.remote_nonce,
        !state.issued,
    ensures
        open_outcome(
            state,
            channel,
            security_header,
            hello_version,
            message,
            certificate_valid,
            now,
            nonce,
        ) == (OpenOutcome { result: Err(StatusCode(BAD_UNEXPECTED_ERROR)), state, channel }),
{
}

/// A request to open a channel with a protocol version other than that of
/// the Hello is answered by a fault with `BAD_PROTOCOL_VERSION_UNSUPPORTED`,
/// and changes nothing: the channel stays as it is.
pub proof fn lemma_other_protocol_version_is_refused(
    state: SecureChannelState,
    channel: SecureChannelView,
    security_header: SecurityHeaderView,
    hello_version: u32,
    message: SupportedMessageView,
    certificate_valid: bool,
    now: DateTime,
    nonce: Seq<u8>,
)
    requires
        security_header is Asymmetric,
        message matches SupportedMessageView::OpenSecureChannelRequest(request)
            && request.client_protocol_version != hello_version,
    ensures
        open_outcome(
            state,
            channel,
            security_header,
            hello_version,
            message,
            certificate_valid,
            now,
            nonce,
        ) == (OpenOutcome {
            result: Ok(
                SupportedMessageView::fault(
                    handle_of(message),
                    now,
                    StatusCode(BAD_PROTOCOL_VERSION_UNSUPPORTED),
                ),
            ),
            state,
            channel,
        }),
{
}

/// After a renewal is granted, messages under the token that the channel
/// had before are still taken until the time of that token is over, and
/// messages under the new token until its own time is over.
pub proof fn lemma_renewal_honours_the_old_token(
    state: SecureChannelState,
    channel: SecureChannelView,
    security_header: SecurityHeaderView,
    hello_version: u32,
    message: SupportedMessageView,
    certificate_valid: bool,
    now: DateTime,
    nonce: Seq<u8>,
    at: DateTime,
)
    requires
        state.has_room(),
        asks_for(message, security_header, hello_version, SecurityTokenRequestType::Renew),
        channel.token_id != 0,
        granted_token(
            open_outcome(
                state,
                channel,
                security_header,
                hello_version,
                message,
                certificate_valid,
                now,
                nonce,
            ).result,
        ) is Some,
    ensures
        ({
            let after = open_outcome(
                state,
                channel,
                security_header,
                hello_version,
                message,
                certificate_valid,
                now,
                nonce,
            ).channel;
            &&& after.secure_channel_id == channel.secure_channel_id
            &&& at.ticks < token_end(channel.token_created_at, channel.token_lifetime)
                ==> after.honours_token(channel.token_id, at)
            &&& at.ticks < token_end(now, after.token_lifetime) ==> after.honours_token(
                after.token_id,
                at,
            )
        }),
{
}

/// After a request to close, the channel honours no token, and no session
/// is left that spoke on it.
pub proof fn lemma_close_ends_channel_and_sessions(
    channel: SecureChannelView,
    sessions: SessionManagerView,
    message: SupportedMessageView,
    now: DateTime,
    token_id: u32,
    at: DateTime,
)
    requires
        message is CloseSecureChannelRequest,
    ensures
        ({
            let outcome = close_outcome(channel, sessions, message, now);
            &&& outcome.result matches Ok(SupportedMessageView::CloseSecureChannelResponse(response))
                && response.response_header.service_result == StatusCode(GOOD)
            &&& !outcome.channel.honours_token(token_id, at)
            &&& forall|i: int|
                0 <= i < outcome.sessions.sessions.len() ==> (
                #[trigger] outcome.sessions.sessions[i]).secure_channel_id
                    != channel.secure_channel_id && sessions.sessions.contains(
                    outcome.sessions.sessions[i],
                )
        }),
{
    lemma_kept_sessions_are_kept(
        sessions.sessions,
        DateTime { ticks: 0 },
        Some(channel.secure_channel_id),
        sessions.sessions.len() as int,
    );
}

/// A token that is granted at the time `now` was made at that time, for the
/// lifetime that the request asked for, and the channel holds it so.
pub proof fn lemma_granted_token_is_made_now(
    state: SecureChannelState,
    channel: SecureChannelView,
    security_header: SecurityHeaderView,
    hello_version: u32,
    message: SupportedMessageView,
    certificate_valid: bool,
    now: DateTime,
    nonce: Seq<u8>,
)
    ensures
        ({
            let outcome = open_outcome(
                state,
                channel,
                security_header,
                hello_version,
                message,
                certificate_valid,
                now,
                nonce,
            );
            granted_token(outcome.result) matches Some(token) ==> token.created_at == now
                && outcome.channel.token_created_at == now && token.token_id
                == outcome.channel.token_id && token.revised_lifetime
                == outcome.channel.token_lifetime
        }),
{
}

} // verus!
