//! Negotiating a connection with a hub over HTTP.

use vstd::prelude::*;
use vstd::string::*;

use crate::encoding::encode_base64;
use crate::protocol::HubProtocolKind;
use crate::text::{find_char, same_text};

verus! {

/// How a client proves who it is.
pub enum Authentication {
    Anonymous,
    Basic { user: String, password: Option<String> },
    Bearer { token: String },
}

/// What a connection is made from.
pub struct ConnectionConfiguration {
    /// The address of the hub over HTTP.
    pub web_url: String,
    /// The address of the hub over a WebSocket.
    pub socket_url: String,
    pub protocol_kind: HubProtocolKind,
    pub authentication: Authentication,
}

/// A transport that a hub offers.
pub struct AvailableTransport {
    pub transport: String,
    pub transfer_formats: Vec<String>,
}

/// What a hub answers to a negotiation.
pub struct NegotiateResponse {
    pub connection_id: String,
    /// The query string that identifies the connection, with its `?`.
    pub endpoint_query: String,
    pub available_transports: Vec<AvailableTransport>,
}

/// What came back from a negotiation request.
pub enum NegotiateReply {
    /// The request failed, for the reason given.
    Failed(String),
    /// The answer cannot be read, for the reason given.
    Malformed(String),
    /// The hub's answer.
    Parsed(NegotiateResponse),
}

/// What came back from a POST request.
pub enum PostReply {
    /// The call failed, for the reason given.
    Failed(String),
    /// A response without a text body.
    NoText,
    /// Nothing, because the request was cancelled.
    Cancelled,
    /// The text of the response.
    Text(String),
}

/// Where and how to connect, as negotiated.
#[derive(Debug)]
pub struct ConnectionData {
    endpoint: String,
    connection_id: String,
    protocol_kind: HubProtocolKind,
}

impl ConnectionData {
    /// The address to connect to.
    pub closed spec fn spec_endpoint(self) -> Seq<char> {
        self.endpoint@
    }

    /// The id that the hub gave the connection.
    pub closed spec fn spec_connection_id(self) -> Seq<char> {
        self.connection_id@
    }

    /// The protocol to speak.
    pub closed spec fn spec_protocol_kind(self) -> HubProtocolKind {
        self.protocol_kind
    }

    /// The address to connect to.
    pub fn get_endpoint(&self) -> (endpoint: String)
        ensures
            endpoint@ == self.spec_endpoint(),
    {
        self.endpoint.clone()
    }

    /// The id that the hub gave the connection.
    pub fn get_connection_id(&self) -> (connection_id: String)
        ensures
            connection_id@ == self.spec_connection_id(),
    {
        self.connection_id.clone()
    }

    /// The protocol to speak.
    pub fn get_protocol_kind(&self) -> (protocol_kind: HubProtocolKind)
        ensures
            protocol_kind == self.spec_protocol_kind(),
    {
        self.protocol_kind
    }
}

impl Clone for ConnectionData {
    fn clone(&self) -> (copy: Self)
        ensures
            copy == *self,
    {
        ConnectionData {
            endpoint: self.endpoint.clone(),
            connection_id: self.connection_id.clone(),
            protocol_kind: self.protocol_kind,
        }
    }
}

/// User and password as they are encoded for basic authentication; no password
/// reads like an empty one.
pub open spec fn credentials(user: Seq<char>, password: Option<Seq<char>>) -> Seq<char> {
    user + ":"@ + match password {
        Some(secret) => secret,
        None => Seq::empty(),
    }
}

/// The header value of basic authentication.
pub open spec fn basic_header(user: Seq<char>, password: Option<Seq<char>>) -> Seq<char> {
    "Basic "@ + crate::encoding::base64_text(vstd::utf8::encode_utf8(credentials(user, password)))
}

/// A password's text, where there is a password.
pub open spec fn password_text(password: Option<String>) -> Option<Seq<char>> {
    match password {
        Some(secret) => Some(secret@),
        None => None,
    }
}

/// The `Authorization` header of a request, where it has one.
pub open spec fn authorization_header(authentication: Authentication) -> Option<Seq<char>> {
    match authentication {
        Authentication::Anonymous => None,
        Authentication::Basic { user, password } => Some(
            basic_header(user@, password_text(password)),
        ),
        Authentication::Bearer { token } => Some("Bearer "@ + token@),
    }
}

/// The address that a negotiation request goes to: `/negotiate` is added to
/// the path, and the version to the query.
pub open spec fn negotiate_url(web_url: Seq<char>) -> Seq<char> {
    match web_url.index_of_first('?') {
        Some(at) => web_url.take(at) + "/negotiate?"@ + web_url.skip(at + 1)
            + "&negotiateVersion=1"@,
        None => web_url + "/negotiate?negotiateVersion=1"@,
    }
}

/// Whether an offer is the first one of WebSockets.
pub open spec fn is_first_web_socket(offers: Seq<AvailableTransport>, at: int) -> bool {
    &&& 0 <= at < offers.len()
    &&& offers[at].transport@ == "WebSockets"@
    &&& forall|i: int| 0 <= i < at ==> (#[trigger] offers[i]).transport@ != "WebSockets"@
}

/// Whether a transport carries a transfer format.
pub open spec fn carries(offer: AvailableTransport, format: Seq<char>) -> bool {
    exists|i: int| 0 <= i < offer.transfer_formats@.len() && (
    #[trigger] offer.transfer_formats@[i])@ == format
}

/// Whether a hub can be talked to: its first offer of WebSockets carries the
/// transfer format of the protocol.
pub open spec fn fits(offers: Seq<AvailableTransport>, protocol_kind: HubProtocolKind) -> bool {
    exists|at: int| #[trigger]
        is_first_web_socket(offers, at) && carries(offers[at], protocol_kind.spec_transfer_format())
}

/// An address with the query string that a hub asks for. Where the address has
/// a query of its own, the hub's follows it without its `?`.
pub open spec fn merged_endpoint(endpoint: Seq<char>, query: Seq<char>) -> Seq<char> {
    if endpoint.contains('?') {
        endpoint + "&"@ + query.skip(1)
    } else {
        endpoint + query
    }
}

/// The address of a connection: the hub's query string, then the token of
/// bearer authentication, which a WebSocket cannot have in a header.
pub open spec fn connection_endpoint(
    endpoint: Seq<char>,
    query: Seq<char>,
    authentication: Authentication,
) -> Seq<char> {
    let merged = merged_endpoint(endpoint, query);
    match authentication {
        Authentication::Bearer { token } => merged + (if merged.contains('?') {
            "&"@
        } else {
            "?"@
        }) + "access_token="@ + token@,
        _ => merged,
    }
}

/// Whether a query string begins with a character of one byte, so that it can
/// be cut off.
pub open spec fn can_be_merged(query: Seq<char>) -> bool {
    query.len() > 0 && (query[0] as u32) < 128
}

/// Whether the hub's query string is one that can be used with this address.
pub open spec fn usable_query(
    endpoint: Seq<char>,
    negotiate: NegotiateResponse,
    protocol_kind: HubProtocolKind,
) -> bool {
    fits(negotiate.available_transports@, protocol_kind) && endpoint.contains('?')
        ==> can_be_merged(negotiate.endpoint_query@)
}

/// What a negotiation is answered when the hub offers no transport that fits.
pub open spec fn no_match_message(protocol_kind: HubProtocolKind) -> Seq<char> {
    "The negotiation concluded no matching communication protocols for \""@
        + protocol_kind.spec_transfer_format() + "\" transfer format"@
}

/// What a negotiation is answered when its request failed.
pub open spec fn negotiation_failed_message(url: Seq<char>, reason: Seq<char>) -> Seq<char> {
    "HTTP negotiation with endpoint "@ + url + " failed "@ + reason
}

/// What a negotiation is answered when the hub's answer cannot be read.
pub open spec fn malformed_response_message(reason: Seq<char>) -> Seq<char> {
    "Failed to parse negotiate response: "@ + reason
}

/// What a POST request is answered when the call failed.
pub open spec fn call_failed_message(reason: Seq<char>) -> Seq<char> {
    "The call failed: "@ + reason
}

/// The HTTP side of the client.
pub struct HttpClient {}

impl HttpClient {
    /// The address that a negotiation request goes to.
    pub fn negotiate_endpoint(web_url: &str) -> (url: String)
        ensures
            url@ == negotiate_url(web_url@),
    {
        proof {
            web_url@.index_of_first_ensures('?');
        }
        match find_char(web_url, '?') {
            Some(at) => {
                let end: usize = web_url.unicode_len();
                let mut url = String::from_str(web_url.substring_char(0, at));
                url.append("/negotiate?");
                url.append(web_url.substring_char(at + 1, end));
                url.append("&negotiateVersion=1");
                url
            },
            None => {
                let mut url = String::from_str(web_url);
                url.append("/negotiate?negotiateVersion=1");
                url
            },
        }
    }

    /// Concludes a negotiation from what came back.
    pub fn negotiate(options: &ConnectionConfiguration, reply: NegotiateReply) -> (outcome: Result<
        ConnectionData,
        String,
    >)
        requires
            reply matches NegotiateReply::Parsed(response) ==> usable_query(
                options.socket_url@,
                response,
                options.protocol_kind,
            ),
        ensures
            match reply {
                NegotiateReply::Failed(reason) => outcome matches Err(message) && message@
                    == negotiation_failed_message(negotiate_url(options.web_url@), reason@),
                NegotiateReply::Malformed(reason) => outcome matches Err(message) && message@
                    == malformed_response_message(reason@),
                NegotiateReply::Parsed(response) => if fits(
                    response.available_transports@,
                    options.protocol_kind,
                ) {
                    outcome matches Ok(data) && data.spec_endpoint() == connection_endpoint(
                        options.socket_url@,
                        response.endpoint_query@,
                        options.authentication,
                    ) && data.spec_connection_id() == response.connection_id@
                        && data.spec_protocol_kind() == options.protocol_kind
                } else {
                    outcome matches Err(message) && message@ == no_match_message(
                        options.protocol_kind,
                    )
                },
            },
    {
        match reply {
            NegotiateReply::Failed(reason) => {
                let url = HttpClient::negotiate_endpoint(options.web_url.as_str());
                let mut message = String::from_str("HTTP negotiation with endpoint ");
                message.append(url.as_str());
                message.append(" failed ");
                message.append(reason.as_str());
                Err(message)
            },
            NegotiateReply::Malformed(reason) => {
                let mut message = String::from_str("Failed to parse negotiate response: ");
                message.append(reason.as_str());
                Err(message)
            },
            NegotiateReply::Parsed(response) => {
                match HttpClient::create_configuration(
                    options.socket_url.clone(),
                    response,
                    options.protocol_kind,
                    &options.authentication,
                ) {
                    Some(data) => Ok(data),
                    None => {
                        let mut message = String::from_str(
                            "The negotiation concluded no matching communication protocols for \"",
                        );
                        message.append(options.protocol_kind.transfer_format());
                        message.append("\" transfer format");
                        Err(message)
                    },
                }
            },
        }
    }

    /// Whether the hub's first offer of WebSockets carries the protocol.
    fn offer_fits(offers: &Vec<AvailableTransport>, protocol_kind: HubProtocolKind) -> (fit: bool)
        ensures
            fit == fits(offers@, protocol_kind),
    {
        let format = protocol_kind.transfer_format();
        for at in 0..offers.len()
            invariant
                format@ == protocol_kind.spec_transfer_format(),
                forall|i: int| 0 <= i < at ==> (#[trigger] offers@[i]).transport@ != "WebSockets"@,
        {
            let offer = &offers[at];
            if same_text(offer.transport.as_str(), "WebSockets") {
                assert(is_first_web_socket(offers@, at as int));
                let formats = &offer.transfer_formats;
                for i in 0..formats.len()
                    invariant
                        *formats == offer.transfer_formats,
                        *offer == offers@[at as int],
                        at < offers@.len(),
                        is_first_web_socket(offers@, at as int),
                        format@ == protocol_kind.spec_transfer_format(),
                        forall|j: int| 0 <= j < i ==> (#[trigger] formats@[j])@ != format@,
                {
                    if same_text(formats[i].as_str(), format) {
                        assert(carries(*offer, format@));
                        return true;
                    }
                }
                assert(!carries(*offer, format@));
                assert forall|other: int| #[trigger] is_first_web_socket(offers@, other) implies other
                    == at by {
                    if other > at {
                        assert(offers@[at as int].transport@ != "WebSockets"@);
                    }
                }
                return false;
            }
        }
        false
    }

    /// The connection that a hub's answer leads to, if it offers a transport
    /// that fits.
    pub fn create_configuration(
        endpoint: String,
        negotiate: NegotiateResponse,
        protocol_kind: HubProtocolKind,
        authentication: &Authentication,
    ) -> (data: Option<ConnectionData>)
        requires
            usable_query(endpoint@, negotiate, protocol_kind),
        ensures
            data is Some <==> fits(negotiate.available_transports@, protocol_kind),
            data matches Some(found) ==> found.spec_endpoint() == connection_endpoint(
                endpoint@,
                negotiate.endpoint_query@,
                *authentication,
            ) && found.spec_connection_id() == negotiate.connection_id@
                && found.spec_protocol_kind() == protocol_kind,
    {
        if !HttpClient::offer_fits(&negotiate.available_transports, protocol_kind) {
            return None;
        }
        let query = negotiate.endpoint_query.as_str();
        let mut full_endpoint = endpoint.clone();
        proof {
            endpoint@.index_of_first_ensures('?');
        }
        if find_char(endpoint.as_str(), '?').is_some() {
            full_endpoint.append("&");
            let end: usize = query.unicode_len();
            full_endpoint.append(query.substring_char(1, end));
        } else {
            full_endpoint.append(query);
        }
        assert(full_endpoint@ == merged_endpoint(endpoint@, negotiate.endpoint_query@));
        if let Authentication::Bearer { token } = authentication {
            proof {
                full_endpoint@.index_of_first_ensures('?');
            }
            if find_char(full_endpoint.as_str(), '?').is_some() {
                full_endpoint.append("&");
            } else {
                full_endpoint.append("?");
            }
            full_endpoint.append("access_token=");
            full_endpoint.append(token.as_str());
        }
        Some(
            ConnectionData {
                endpoint: full_endpoint,
                connection_id: negotiate.connection_id,
                protocol_kind,
            },
        )
    }

    /// Whether the hub's query string is one that can be used with this
    /// address.
    pub fn query_is_usable(
        endpoint: &str,
        negotiate: &NegotiateResponse,
        protocol_kind: HubProtocolKind,
    ) -> (usable: bool)
        ensures
            usable == usable_query(endpoint@, *negotiate, protocol_kind),
    {
        proof {
            endpoint@.index_of_first_ensures('?');
        }
        if find_char(endpoint, '?').is_none() {
            return true;
        }
        if !HttpClient::offer_fits(&negotiate.available_transports, protocol_kind) {
            return true;
        }
        let query = negotiate.endpoint_query.as_str();
        query.unicode_len() > 0 && (query.get_char(0) as u32) < 128
    }

    /// The header value of basic authentication.
    pub fn basic_auth(username: String, password: Option<String>) -> (header: String)
        ensures
            header@ == basic_header(username@, password_text(password)),
    {
        let mut plain = username.clone();
        plain.append(":");
        if let Some(secret) = &password {
            plain.append(secret.as_str());
        }
        assert(plain@ =~= credentials(username@, password_text(password)));
        let mut header = String::from_str("Basic ");
        encode_base64(plain.as_str().as_bytes(), &mut header);
        header
    }

    /// The `Authorization` header of a request, where it has one.
    pub fn authorization(authentication: Authentication) -> (header: Option<String>)
        ensures
            match authorization_header(authentication) {
                Some(text) => header matches Some(value) && value@ == text,
                None => header is None,
            },
    {
        match authentication {
            Authentication::Anonymous => None,
            Authentication::Basic { user, password } => Some(
                HttpClient::basic_auth(user, password),
            ),
            Authentication::Bearer { token } => {
                let mut header = String::from_str("Bearer ");
                header.append(token.as_str());
                Some(header)
            },
        }
    }

    /// The text of a response, or what the request is answered instead.
    pub fn post_text(reply: PostReply) -> (text: Result<String, String>)
        ensures
            match reply {
                PostReply::Text(body) => text == Ok::<String, String>(body),
                PostReply::Failed(reason) => text matches Err(message) && message@
                    == call_failed_message(reason@),
                PostReply::NoText => text matches Err(message) && message@
                    == "The returned response has no text body"@,
                PostReply::Cancelled => text matches Err(message) && message@
                    == "The request is cancelled."@,
            },
    {
        match reply {
            PostReply::Text(body) => Ok(body),
            PostReply::Failed(reason) => {
                let mut message = String::from_str("The call failed: ");
                message.append(reason.as_str());
                Err(message)
            },
            PostReply::NoText => Err(String::from_str("The returned response has no text body")),
            PostReply::Cancelled => Err(String::from_str("The request is cancelled.")),
        }
    }
}

/// Whether a text holds a character exactly once.
pub open spec fn holds_once(text: Seq<char>, c: char) -> bool {
    exists|at: int| #[trigger] is_only(text, c, at)
}

/// Whether a character stands at one position of a text and at no other.
pub open spec fn is_only(text: Seq<char>, c: char, at: int) -> bool {
    &&& 0 <= at < text.len()
    &&& text[at] == c
    &&& forall|i: int| 0 <= i < text.len() && i != at ==> text[i] != c
}

proof fn lemma_only_after_append(text: Seq<char>, more: Seq<char>, c: char)
    requires
        holds_once(text, c),
        !more.contains(c),
    ensures
        holds_once(text + more, c),
{
    let at = choose|at: int| is_only(text, c, at);
    assert forall|i: int| 0 <= i < (text + more).len() && i != at implies (text + more)[i] != c by {
        if i >= text.len() {
            assert((text + more)[i] == more[i - text.len()]);
        }
    }
    assert(is_only(text + more, c, at));
}

proof fn lemma_only_after_prefix(before: Seq<char>, text: Seq<char>, c: char)
    requires
        holds_once(text, c),
        !before.contains(c),
    ensures
        holds_once(before + text, c),
{
    let at = choose|at: int| is_only(text, c, at);
    assert forall|i: int| 0 <= i < (before + text).len() && i != before.len() + at implies (before
        + text)[i] != c by {
        if i < before.len() {
            assert((before + text)[i] == before[i]);
        } else {
            assert((before + text)[i] == text[i - before.len()]);
        }
    }
    assert(is_only(before + text, c, before.len() + at));
}

/// A negotiation request has exactly one query string: where the hub's address
/// has at most one `?`, the request's has one.
pub proof fn negotiate_url_has_one_query(web_url: Seq<char>)
    requires
        web_url.contains('?') ==> holds_once(web_url, '?'),
    ensures
        holds_once(negotiate_url(web_url), '?'),
{
    reveal_strlit("/negotiate?");
    reveal_strlit("&negotiateVersion=1");
    reveal_strlit("/negotiate?negotiateVersion=1");
    web_url.index_of_first_ensures('?');
    match web_url.index_of_first('?') {
        Some(at) => {
            let only = choose|only: int| is_only(web_url, '?', only);
            assert(only == at);
            let before = web_url.take(at);
            let after = web_url.skip(at + 1);
            assert(!before.contains('?'));
            assert(!after.contains('?')) by {
                if after.contains('?') {
                    let k = choose|k: int| 0 <= k < after.len() && after[k] == '?';
                    assert(web_url[at + 1 + k] == '?');
                }
            }
            assert(is_only("/negotiate?"@, '?', 10));
            lemma_only_after_prefix(before, "/negotiate?"@, '?');
            lemma_only_after_append(before + "/negotiate?"@, after, '?');
            lemma_only_after_append(
                before + "/negotiate?"@ + after,
                "&negotiateVersion=1"@,
                '?',
            );
        },
        None => {
            assert(is_only("/negotiate?negotiateVersion=1"@, '?', 10));
            lemma_only_after_prefix(web_url, "/negotiate?negotiateVersion=1"@, '?');
        },
    }
}

/// A negotiation request keeps the hub's address: its path stands in front of
/// `/negotiate`, and its query string comes first in the new one.
pub proof fn negotiate_url_keeps_the_address(path: Seq<char>, query: Seq<char>)
    requires
        !path.contains('?'),
    ensures
        negotiate_url(path) == path + "/negotiate?negotiateVersion=1"@,
        negotiate_url(path + "?"@ + query) == path + "/negotiate?"@ + query
            + "&negotiateVersion=1"@,
{
    reveal_strlit("?");
    path.index_of_first_ensures('?');
    let url = path + "?"@ + query;
    url.index_of_first_ensures('?');
    assert(url[path.len() as int] == '?');
    let at = url.index_of_first('?').unwrap();
    assert(at == path.len()) by {
        if at < path.len() {
            assert(path[at] == '?');
        }
    }
    assert(url.take(at) =~= path);
    assert(url.skip(at + 1) =~= query);
}

/// A connection's address begins with the address that was configured.
pub proof fn connection_keeps_the_address(
    endpoint: Seq<char>,
    query: Seq<char>,
    authentication: Authentication,
)
    ensures
        endpoint.is_prefix_of(connection_endpoint(endpoint, query, authentication)),
{
    assert(connection_endpoint(endpoint, query, authentication).take(endpoint.len() as int)
        =~= endpoint);
}

/// The token of bearer authentication comes last in a connection's address, as
/// a parameter of its own; other authentication leaves no trace there.
pub proof fn connection_carries_the_token(
    endpoint: Seq<char>,
    query: Seq<char>,
    authentication: Authentication,
)
    ensures
        match authentication {
            Authentication::Bearer { token } => connection_endpoint(endpoint, query, authentication)
                == merged_endpoint(endpoint, query) + ((if merged_endpoint(
                endpoint,
                query,
            ).contains('?') {
                "&access_token="@
            } else {
                "?access_token="@
            }) + token@),
            _ => connection_endpoint(endpoint, query, authentication) == merged_endpoint(
                endpoint,
                query,
            ),
        },
{
    reveal_strlit("&");
    reveal_strlit("?");
    reveal_strlit("access_token=");
    reveal_strlit("&access_token=");
    reveal_strlit("?access_token=");
    if let Authentication::Bearer { token } = authentication {
        let merged = merged_endpoint(endpoint, query);
        assert(merged + "&"@ + "access_token="@ + token@ =~= merged + ("&access_token="@ + token@));
        assert(merged + "?"@ + "access_token="@ + token@ =~= merged + ("?access_token="@ + token@));
    }
}

/// A connection's address has exactly one query string, whether or not the
/// configured address has one of its own and a token follows: everything is
/// merged behind a single `?`.
pub proof fn connection_has_one_query(
    endpoint: Seq<char>,
    parameters: Seq<char>,
    authentication: Authentication,
)
    requires
        endpoint.contains('?') ==> holds_once(endpoint, '?'),
        !parameters.contains('?'),
        authentication matches Authentication::Bearer { token } ==> !token@.contains('?'),
    ensures
        holds_once(connection_endpoint(endpoint, "?"@ + parameters, authentication), '?'),
{
    reveal_strlit("?");
    reveal_strlit("&");
    reveal_strlit("access_token=");
    let query = "?"@ + parameters;
    let merged = merged_endpoint(endpoint, query);
    assert(is_only("?"@, '?', 0));
    lemma_only_after_append("?"@, parameters, '?');
    if endpoint.contains('?') {
        assert(query.skip(1) =~= parameters);
        lemma_only_after_append(endpoint, "&"@, '?');
        lemma_only_after_append(endpoint + "&"@, parameters, '?');
    } else {
        lemma_only_after_prefix(endpoint, query, '?');
    }
    assert(merged.contains('?'));
    if let Authentication::Bearer { token } = authentication {
        lemma_only_after_append(merged, "&"@, '?');
        lemma_only_after_append(merged + "&"@, "access_token="@, '?');
        lemma_only_after_append(merged + "&"@ + "access_token="@, token@, '?');
    }
}

/// The header of basic authentication identifies the credentials: where no
/// user's name holds a colon, equal headers stem from the same user and the
/// same password. No password counts as an empty one.
pub proof fn basic_header_identifies_credentials(
    user: Seq<char>,
    password: Seq<char>,
    other_user: Seq<char>,
    other_password: Seq<char>,
)
    requires
        !user.contains(':'),
        !other_user.contains(':'),
        basic_header(user, Some(password)) == basic_header(other_user, Some(other_password)),
    ensures
        user == other_user,
        password == other_password,
{
    reveal_strlit(":");
    let plain = credentials(user, Some(password));
    let other = credentials(other_user, Some(other_password));
    let code = crate::encoding::base64_text(vstd::utf8::encode_utf8(plain));
    let other_code = crate::encoding::base64_text(vstd::utf8::encode_utf8(other));
    let start = "Basic "@.len() as int;
    assert(("Basic "@ + code).skip(start) =~= code);
    assert(("Basic "@ + other_code).skip(start) =~= other_code);
    crate::encoding::base64_is_injective(
        vstd::utf8::encode_utf8(plain),
        vstd::utf8::encode_utf8(other),
    );
    vstd::utf8::encode_utf8_decode_utf8(plain);
    vstd::utf8::encode_utf8_decode_utf8(other);
    assert(plain == other);
    assert(plain[user.len() as int] == ':');
    assert(other[other_user.len() as int] == ':');
    if user.len() < other_user.len() {
        assert(other_user[user.len() as int] == ':');
    }
    if other_user.len() < user.len() {
        assert(user[other_user.len() as int] == ':');
    }
    assert(plain.take(user.len() as int) =~= user);
    assert(other.take(user.len() as int) =~= other_user);
    assert(plain.skip(user.len() as int + 1) =~= password);
    assert(other.skip(user.len() as int + 1) =~= other_password);
}

/// No password is sent like an empty one.
pub proof fn no_password_is_an_empty_one(user: Seq<char>)
    ensures
        basic_header(user, None) == basic_header(user, Some(Seq::<char>::empty())),
{
}

/// The header of basic authentication carries user and password: it is `Basic`
/// and the base64 of the two with a colon between. Without a password nothing
/// follows the colon.
pub proof fn basic_authorization_carries_the_password(
    user: String,
    password: Option<String>,
    header: Option<String>,
)
    requires
        call_ensures(HttpClient::authorization, (Authentication::Basic { user, password },), header),
    ensures
        header matches Some(value) && value@ == "Basic "@ + crate::encoding::base64_text(
            vstd::utf8::encode_utf8(
                match password {
                    Some(secret) => user@ + ":"@ + secret@,
                    None => user@ + ":"@,
                },
            ),
        ),
{
    assert(user@ + ":"@ + Seq::<char>::empty() =~= user@ + ":"@);
}

/// A hub can tell credentials apart: where no user's name holds a colon, basic
/// authentication has the same header only for the same user with the same
/// password.
pub proof fn basic_authorization_identifies_credentials(
    user: String,
    secret: String,
    header: Option<String>,
    other_user: String,
    other_secret: String,
    other_header: Option<String>,
)
    requires
        !user@.contains(':'),
        !other_user@.contains(':'),
        call_ensures(
            HttpClient::authorization,
            (Authentication::Basic { user, password: Some(secret) },),
            header,
        ),
        call_ensures(
            HttpClient::authorization,
            (Authentication::Basic { user: other_user, password: Some(other_secret) },),
            other_header,
        ),
        user@ != other_user@ || secret@ != other_secret@,
    ensures
        header is Some,
        other_header is Some,
        header->Some_0@ != other_header->Some_0@,
{
    if header->Some_0@ == other_header->Some_0@ {
        basic_header_identifies_credentials(user@, secret@, other_user@, other_secret@);
    }
}

/// The header of bearer authentication is the token behind `Bearer`, and a
/// client that does not say who it is sends none.
pub proof fn bearer_authorization_carries_the_token(
    token: String,
    header: Option<String>,
    anonymous: Option<String>,
)
    requires
        call_ensures(HttpClient::authorization, (Authentication::Bearer { token },), header),
        call_ensures(HttpClient::authorization, (Authentication::Anonymous,), anonymous),
    ensures
        header matches Some(value) && value@ == "Bearer "@ + token@,
        anonymous is None,
{
}

/// What basic authentication sends is the header made of user and password.
pub proof fn basic_authorization_is_the_basic_header(
    user: String,
    password: Option<String>,
    made: String,
    sent: Option<String>,
)
    requires
        call_ensures(HttpClient::basic_auth, (user, password), made),
        call_ensures(HttpClient::authorization, (Authentication::Basic { user, password },), sent),
    ensures
        sent matches Some(value) && value@ == made@,
{
}

/// Whether a hub fits is up to its first offer of WebSockets, wherever that
/// stands: offers of other transports before it and offers of any kind behind
/// it have no say. It fits where it carries text, for JSON, or bytes, for
/// MessagePack.
pub proof fn first_web_socket_offer_decides(
    before: Seq<AvailableTransport>,
    offer: AvailableTransport,
    after: Seq<AvailableTransport>,
    endpoint: String,
    negotiate: NegotiateResponse,
    protocol_kind: HubProtocolKind,
    authentication: Authentication,
    data: Option<ConnectionData>,
)
    requires
        forall|i: int| 0 <= i < before.len() ==> (#[trigger] before[i]).transport@ != "WebSockets"@,
        offer.transport@ == "WebSockets"@,
        negotiate.available_transports@ == before.push(offer) + after,
        call_ensures(
            HttpClient::create_configuration,
            (endpoint, negotiate, protocol_kind, &authentication),
            data,
        ),
    ensures
        fits(before.push(offer) + after, protocol_kind) <==> exists|i: int|
            0 <= i < offer.transfer_formats@.len() && (#[trigger] offer.transfer_formats@[i])@
                == match protocol_kind {
                HubProtocolKind::Json => "Text"@,
                HubProtocolKind::MessagePack => "Binary"@,
            },
        data is Some <==> exists|i: int|
            0 <= i < offer.transfer_formats@.len() && (#[trigger] offer.transfer_formats@[i])@
                == match protocol_kind {
                HubProtocolKind::Json => "Text"@,
                HubProtocolKind::MessagePack => "Binary"@,
            },
{
    let offers = before.push(offer) + after;
    let at = before.len() as int;
    assert(offers[at] == offer);
    assert forall|i: int| 0 <= i < at implies (#[trigger] offers[i]).transport@
        != "WebSockets"@ by {
        assert(offers[i] == before[i]);
    }
    assert(is_first_web_socket(offers, at));
    assert forall|other: int| #[trigger] is_first_web_socket(offers, other) implies other == at by {
        if other > at {
            assert(offers[at].transport@ != "WebSockets"@);
        } else if other < at {
            assert(offers[other].transport@ != "WebSockets"@);
        }
    }
}

/// A hub that offers no WebSockets does not fit, whatever else it offers.
pub proof fn other_transports_do_not_fit(
    endpoint: String,
    negotiate: NegotiateResponse,
    protocol_kind: HubProtocolKind,
    authentication: Authentication,
    data: Option<ConnectionData>,
)
    requires
        forall|i: int|
            0 <= i < negotiate.available_transports@.len() ==> (
            #[trigger] negotiate.available_transports@[i]).transport@ != "WebSockets"@,
        call_ensures(
            HttpClient::create_configuration,
            (endpoint, negotiate, protocol_kind, &authentication),
            data,
        ),
    ensures
        !fits(negotiate.available_transports@, protocol_kind),
        data is None,
{
    assert forall|at: int| !(#[trigger] is_first_web_socket(
        negotiate.available_transports@,
        at,
    )) by {
        if is_first_web_socket(negotiate.available_transports@, at) {
            assert(negotiate.available_transports@[at].transport@ != "WebSockets"@);
        }
    }
}

/// A connection goes to the configured address with the hub's query string
/// behind it. An address that has a query of its own gets the hub's parameters
/// behind an ampersand, in place of the mark that begins them. A bearer token
/// follows as the last parameter.
pub proof fn connection_address_is_put_together(
    endpoint: String,
    negotiate: NegotiateResponse,
    protocol_kind: HubProtocolKind,
    authentication: Authentication,
    mark: char,
    parameters: Seq<char>,
    data: ConnectionData,
    address: String,
)
    requires
        endpoint@.contains('?') ==> negotiate.endpoint_query@ == seq![mark] + parameters,
        call_ensures(
            HttpClient::create_configuration,
            (endpoint, negotiate, protocol_kind, &authentication),
            Some(data),
        ),
        call_ensures(ConnectionData::get_endpoint, (&data,), address),
    ensures
        ({
            let own = endpoint@.contains('?');
            let query = negotiate.endpoint_query@;
            let plain = if own {
                endpoint@ + "&"@ + parameters
            } else {
                endpoint@ + query
            };
            address@ == match authentication {
                Authentication::Bearer { token } => plain + (if own || query.contains('?') {
                    "&access_token="@
                } else {
                    "?access_token="@
                }) + token@,
                _ => plain,
            }
        }),
{
    reveal_strlit("&");
    reveal_strlit("?");
    reveal_strlit("access_token=");
    reveal_strlit("&access_token=");
    reveal_strlit("?access_token=");
    let own = endpoint@.contains('?');
    let query = negotiate.endpoint_query@;
    let plain = if own {
        endpoint@ + "&"@ + parameters
    } else {
        endpoint@ + query
    };
    if own {
        assert(query.skip(1) =~= parameters);
        let k = choose|k: int| 0 <= k < endpoint@.len() && endpoint@[k] == '?';
        assert(plain[k] == '?');
    } else if query.contains('?') {
        let k = choose|k: int| 0 <= k < query.len() && query[k] == '?';
        assert(plain[endpoint@.len() + k] == '?');
    } else {
        assert(!plain.contains('?')) by {
            if plain.contains('?') {
                let k = choose|k: int| 0 <= k < plain.len() && plain[k] == '?';
                if k < endpoint@.len() {
                    assert(endpoint@[k] == '?');
                } else {
                    assert(query[k - endpoint@.len()] == '?');
                }
            }
        }
    }
    assert(merged_endpoint(endpoint@, query) == plain);
    if let Authentication::Bearer { token } = authentication {
        assert(plain + "&"@ + "access_token="@ + token@ =~= plain + "&access_token="@ + token@);
        assert(plain + "?"@ + "access_token="@ + token@ =~= plain + "?access_token="@ + token@);
    }
}

/// A connection has the id that the hub gave it and the protocol that was asked
/// for.
pub proof fn connection_keeps_id_and_protocol(
    endpoint: String,
    negotiate: NegotiateResponse,
    protocol_kind: HubProtocolKind,
    authentication: Authentication,
    data: ConnectionData,
    connection_id: String,
    spoken: HubProtocolKind,
)
    requires
        call_ensures(
            HttpClient::create_configuration,
            (endpoint, negotiate, protocol_kind, &authentication),
            Some(data),
        ),
        call_ensures(ConnectionData::get_connection_id, (&data,), connection_id),
        call_ensures(ConnectionData::get_protocol_kind, (&data,), spoken),
    ensures
        connection_id@ == negotiate.connection_id@,
        spoken == protocol_kind,
{
}

/// A negotiation request goes to the hub's address with `/negotiate` behind its
/// path, and the version behind whatever query it has.
pub proof fn negotiation_goes_to_the_hub(
    path: Seq<char>,
    query: Seq<char>,
    bare: &str,
    queried: &str,
    bare_url: String,
    queried_url: String,
)
    requires
        !path.contains('?'),
        bare@ == path,
        queried@ == path + "?"@ + query,
        call_ensures(HttpClient::negotiate_endpoint, (bare,), bare_url),
        call_ensures(HttpClient::negotiate_endpoint, (queried,), queried_url),
    ensures
        bare_url@ == path + "/negotiate?negotiateVersion=1"@,
        queried_url@ == path + "/negotiate?"@ + query + "&negotiateVersion=1"@,
{
    negotiate_url_keeps_the_address(path, query);
}

/// A negotiation that the hub answers ends as its answer is judged: with the
/// connection that it leads to, or with the format that no offer carries.
pub proof fn negotiations_end_as_the_answer_says(
    options: ConnectionConfiguration,
    response: NegotiateResponse,
    judged: Option<ConnectionData>,
    outcome: Result<ConnectionData, String>,
)
    requires
        call_ensures(
            HttpClient::create_configuration,
            (
                options.socket_url,
                response,
                options.protocol_kind,
                &options.authentication,
            ),
            judged,
        ),
        call_ensures(
            HttpClient::negotiate,
            (&options, NegotiateReply::Parsed(response)),
            outcome,
        ),
    ensures
        match judged {
            Some(expected) => outcome matches Ok(data) && data.spec_endpoint()
                == expected.spec_endpoint() && data.spec_connection_id()
                == expected.spec_connection_id() && data.spec_protocol_kind()
                == expected.spec_protocol_kind(),
            None => outcome matches Err(message) && message@
                == "The negotiation concluded no matching communication protocols for \""@ + (
            match options.protocol_kind {
                HubProtocolKind::Json => "Text"@,
                HubProtocolKind::MessagePack => "Binary"@,
            }) + "\" transfer format"@,
        },
{
}

/// A negotiation fails with the address that was asked and the reason where the
/// request failed, and with the reason where the answer cannot be read.
pub proof fn failed_negotiations_say_why(
    options: ConnectionConfiguration,
    asked: &str,
    url: String,
    reason: String,
    unreached: Result<ConnectionData, String>,
    unread: Result<ConnectionData, String>,
)
    requires
        asked@ == options.web_url@,
        call_ensures(HttpClient::negotiate_endpoint, (asked,), url),
        call_ensures(HttpClient::negotiate, (&options, NegotiateReply::Failed(reason)), unreached),
        call_ensures(HttpClient::negotiate, (&options, NegotiateReply::Malformed(reason)), unread),
    ensures
        unreached matches Err(message) && message@ == "HTTP negotiation with endpoint "@ + url@
            + " failed "@ + reason@,
        unread matches Err(message) && message@ == "Failed to parse negotiate response: "@
            + reason@,
{
}

/// A POST request is answered with the text of the response as it stands, and
/// with what went wrong otherwise.
pub proof fn responses_are_handed_on(reply: PostReply, text: Result<String, String>)
    requires
        call_ensures(HttpClient::post_text, (reply,), text),
    ensures
        match reply {
            PostReply::Text(body) => text matches Ok(content) && content@ == body@,
            PostReply::Failed(reason) => text matches Err(message) && message@
                == "The call failed: "@ + reason@,
            PostReply::NoText => text matches Err(message) && message@
                == "The returned response has no text body"@,
            PostReply::Cancelled => text matches Err(message) && message@
                == "The request is cancelled."@,
        },
{
}

/// A query string is unusable only where it has to be merged and does not begin
/// with a character of one byte: the address has a query of its own, and a
/// connection comes of the answer.
pub proof fn queries_are_usable_unless_they_cannot_be_cut(
    endpoint: &str,
    negotiate: NegotiateResponse,
    protocol_kind: HubProtocolKind,
    usable: bool,
)
    requires
        call_ensures(HttpClient::query_is_usable, (endpoint, &negotiate, protocol_kind), usable),
    ensures
        !usable <==> endpoint@.contains('?') && fits(
            negotiate.available_transports@,
            protocol_kind,
        ) && (negotiate.endpoint_query@.len() == 0 || negotiate.endpoint_query@[0] as u32 >= 128),
        usable == usable_query(endpoint@, negotiate, protocol_kind),
{
}

} // verus!
