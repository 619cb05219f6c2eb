//! The security headers of messages.

use crate::byte_string::ByteString;
use crate::string::UAString;
use vstd::prelude::*;

verus! {

/// The security header of a message that opens a channel.
#[derive(Debug, PartialEq, Clone)]
pub struct AsymmetricSecurityHeader {
    pub security_policy_uri: UAString,
    pub sender_certificate: ByteString,
    pub receiver_certificate_thumbprint: ByteString,
}

/// The value that a `AsymmetricSecurityHeader` stands for.
pub struct AsymmetricSecurityHeaderView {
    pub security_policy_uri: Option<Seq<char>>,
    pub sender_certificate: Option<Seq<u8>>,
    pub receiver_certificate_thumbprint: Option<Seq<u8>>,
}

impl DeepView for AsymmetricSecurityHeader {
    type V = AsymmetricSecurityHeaderView;

    open spec fn deep_view(&self) -> AsymmetricSecurityHeaderView {
        AsymmetricSecurityHeaderView {
            security_policy_uri: self.security_policy_uri.deep_view(),
            sender_certificate: self.sender_certificate.deep_view(),
            receiver_certificate_thumbprint: self.receiver_certificate_thumbprint.deep_view(),
        }
    }
}

impl View for AsymmetricSecurityHeader {
    type V = AsymmetricSecurityHeaderView;

    open spec fn view(&self) -> AsymmetricSecurityHeaderView {
        self.deep_view()
    }
}

/// The security header of a message on an open channel.
#[derive(Debug, PartialEq, Clone)]
pub struct SymmetricSecurityHeader {
    pub token_id: u32,
}

/// The value that a `SymmetricSecurityHeader` stands for.
pub struct SymmetricSecurityHeaderView {
    pub token_id: u32,
}

impl DeepView for SymmetricSecurityHeader {
    type V = SymmetricSecurityHeaderView;

    open spec fn deep_view(&self) -> SymmetricSecurityHeaderView {
        SymmetricSecurityHeaderView {
            token_id: self.token_id.deep_view(),
        }
    }
}

impl View for SymmetricSecurityHeader {
    type V = SymmetricSecurityHeaderView;

    open spec fn view(&self) -> SymmetricSecurityHeaderView {
        self.deep_view()
    }
}

/// The security header of a message.
#[derive(Debug, PartialEq, Clone)]
pub enum SecurityHeader {
    Asymmetric(AsymmetricSecurityHeader),
    Symmetric(SymmetricSecurityHeader),
}

/// The value that a `SecurityHeader` stands for.
pub enum SecurityHeaderView {
    Asymmetric(AsymmetricSecurityHeaderView),
    Symmetric(SymmetricSecurityHeaderView),
}

impl DeepView for SecurityHeader {
    type V = SecurityHeaderView;

    open spec fn deep_view(&self) -> SecurityHeaderView {
        match self {
            SecurityHeader::Asymmetric(header) => SecurityHeaderView::Asymmetric(header@),
            SecurityHeader::Symmetric(header) => SecurityHeaderView::Symmetric(header@),
        }
    }
}

impl View for SecurityHeader {
    type V = SecurityHeaderView;

    open spec fn view(&self) -> SecurityHeaderView {
        self.deep_view()
    }
}

} // verus!
