//! What the server knows of itself: its identity and its endpoints.

use crate::basic_types::{LocalizedText, LocalizedTextView};
use crate::service_types::discovery_messages::{EndpointDescription, EndpointDescriptionView};
use crate::byte_string::same_bytes;
use crate::string::UAString;
use vstd::prelude::*;
use vstd::utf8::encode_utf8;

verus! {

/// The transport profile of the binary protocol, the only one that the
/// server speaks.
pub const TRANSPORT_PROFILE_URI_BINARY: &'static str =
    "http://opcfoundation.org/UA-Profile/Transport/uatcp-uasc-uabinary";

/// What the server knows of itself.
#[derive(Debug, PartialEq)]
pub struct ServerState {
    /// The URI that names the application.
    pub application_uri: UAString,
    /// The URI that names the product.
    pub product_uri: UAString,
    /// The name of the application.
    pub application_name: LocalizedText,
    /// The endpoints that clients may connect to.
    pub endpoints: Vec<EndpointDescription>,
    /// Whether a session may be activated without a user.
    pub allow_anonymous: bool,
    /// The users that may activate a session by name and password.
    pub users: Vec<ServerUser>,
}

/// A user that may activate a session by name and password.
#[derive(Debug, PartialEq, Clone)]
pub struct ServerUser {
    /// The name of the user.
    pub user: UAString,
    /// The password of the user.
    pub password: UAString,
}

/// The value that a `ServerUser` stands for.
pub struct ServerUserView {
    pub user: Option<Seq<char>>,
    pub password: Option<Seq<char>>,
}

impl DeepView for ServerUser {
    type V = ServerUserView;

    open spec fn deep_view(&self) -> ServerUserView {
        ServerUserView { user: self.user@, password: self.password@ }
    }
}

impl View for ServerUser {
    type V = ServerUserView;

    open spec fn view(&self) -> ServerUserView {
        self.deep_view()
    }
}

/// The value that a `ServerState` stands for.
pub struct ServerStateView {
    pub application_uri: Option<Seq<char>>,
    pub product_uri: Option<Seq<char>>,
    pub application_name: LocalizedTextView,
    pub endpoints: Seq<EndpointDescriptionView>,
    pub allow_anonymous: bool,
    pub users: Seq<ServerUserView>,
}

impl DeepView for ServerState {
    type V = ServerStateView;

    open spec fn deep_view(&self) -> ServerStateView {
        ServerStateView {
            application_uri: self.application_uri@,
            product_uri: self.product_uri@,
            application_name: self.application_name@,
            endpoints: self.endpoints.deep_view(),
            allow_anonymous: self.allow_anonymous,
            users: self.users.deep_view(),
        }
    }
}

impl View for ServerState {
    type V = ServerStateView;

    open spec fn view(&self) -> ServerStateView {
        self.deep_view()
    }
}

/// Whether a request that names the transport profiles `profile_uris` can
/// be served: it names none, or the binary profile is among them.
pub open spec fn serves_profiles(profile_uris: Option<Seq<Option<Seq<char>>>>) -> bool {
    match profile_uris {
        None => true,
        Some(uris) => uris.len() == 0 || uris.contains(Some(TRANSPORT_PROFILE_URI_BINARY@)),
    }
}

/// Whether `known` is the user with the name `user` and the password whose
/// UTF-8 bytes are `password`. A user without a name or without a password
/// is nobody.
pub open spec fn is_user(known: ServerUserView, user: Option<Seq<char>>, password: Seq<u8>) -> bool {
    &&& user is Some
    &&& known.user == user
    &&& known.password matches Some(text) && encode_utf8(text) == password
}

impl ServerStateView {
    /// Whether a user with the name `user` and the password whose UTF-8
    /// bytes are `password` is known.
    pub open spec fn knows_user(self, user: Option<Seq<char>>, password: Seq<u8>) -> bool {
        exists|i: int| 0 <= i < self.users.len() && is_user(#[trigger] self.users[i], user, password)
    }

    /// The endpoints for a client that asks for the transport profiles
    /// `profile_uris`: all of them where the request can be served, else
    /// none.
    pub open spec fn endpoints_for(self, profile_uris: Option<Seq<Option<Seq<char>>>>) -> Option<
        Seq<EndpointDescriptionView>,
    > {
        if serves_profiles(profile_uris) {
            Some(self.endpoints)
        } else {
            None
        }
    }
}

impl ServerState {
    /// A server with the given identity and endpoints, which takes
    /// sessions without a user and knows no users.
    pub fn new(
        application_uri: UAString,
        product_uri: UAString,
        application_name: LocalizedText,
        endpoints: Vec<EndpointDescription>,
    ) -> (r: ServerState)
        ensures
            r@ == (ServerStateView {
                application_uri: application_uri@,
                product_uri: product_uri@,
                application_name: application_name@,
                endpoints: endpoints.deep_view(),
                allow_anonymous: true,
                users: Seq::empty(),
            }),
    {
        let r = ServerState {
            application_uri,
            product_uri,
            application_name,
            endpoints,
            allow_anonymous: true,
            users: Vec::new(),
        };
        assert(r@.users =~= Seq::empty());
        r
    }

    /// Whether a user with the name `user` and the password whose UTF-8
    /// bytes are `password` is known.
    pub fn knows_user(&self, user: &UAString, password: &[u8]) -> (r: bool)
        ensures
            r == self@.knows_user(user@, password@),
    {
        let mut i: usize = 0;
        while i < self.users.len()
            invariant
                i <= self.users.len(),
                self@.users.len() == self.users.len(),
                forall|j: int|
                    0 <= j < i ==> !is_user(#[trigger] self@.users[j], user@, password@),
            decreases self.users.len() - i,
        {
            assert(self.users[i as int]@ == self@.users[i as int]);
            let known = &self.users[i];
            let matches = match &known.password.value {
                Some(text) => !user.is_null() && known.user == *user && same_bytes(
                    text.as_str().as_bytes(),
                    password,
                ),
                None => false,
            };
            if matches {
                return true;
            }
            i = i + 1;
        }
        false
    }

    /// Whether the binary profile is among `uris`.
    fn names_binary_profile(uris: &Vec<UAString>) -> (r: bool)
        ensures
            r == uris.deep_view().contains(Some(TRANSPORT_PROFILE_URI_BINARY@)),
    {
        let binary = UAString::from(TRANSPORT_PROFILE_URI_BINARY);
        let mut i: usize = 0;
        while i < uris.len()
            invariant
                i <= uris.len(),
                uris.deep_view().len() == uris.len(),
                binary@ == Some(TRANSPORT_PROFILE_URI_BINARY@),
                forall|j: int| 0 <= j < i ==> uris.deep_view()[j] != binary@,
            decreases uris.len() - i,
        {
            assert(uris[i as int]@ == uris.deep_view()[i as int]);
            if uris[i] == binary {
                return true;
            }
            i = i + 1;
        }
        false
    }

    /// The endpoints for a client that asks for the transport profiles
    /// `transport_profile_uris`.
    pub fn endpoints(&self, transport_profile_uris: &Option<Vec<UAString>>) -> (r: Option<
        Vec<EndpointDescription>,
    >)
        ensures
            r.deep_view() == self@.endpoints_for(transport_profile_uris.deep_view()),
    {
        // As only the binary transport is spoken, there is nothing to return
        // where the profiles asked for do not contain it
        match transport_profile_uris {
            Some(uris) => {
                if uris.len() > 0 && !Self::names_binary_profile(uris) {
                    return None;
                }
            },
            None => {},
        }
        let mut copy: Vec<EndpointDescription> = Vec::new();
        let mut i: usize = 0;
        while i < self.endpoints.len()
            invariant
                i <= self.endpoints.len(),
                self.endpoints.deep_view().len() == self.endpoints.len(),
                copy.deep_view().len() == i,
                forall|j: int| 0 <= j < i ==> copy.deep_view()[j] == self.endpoints.deep_view()[j],
            decreases self.endpoints.len() - i,
        {
            let ghost before = copy.deep_view();
            assert(self.endpoints[i as int]@ == self.endpoints.deep_view()[i as int]);
            copy.push(self.endpoints[i].clone());
            assert(copy.deep_view() =~= before.push(self.endpoints.deep_view()[i as int]));
            i = i + 1;
        }
        assert(copy.deep_view() =~= self.endpoints.deep_view());
        Some(copy)
    }
}

} // verus!
