//! The address of a hub, checked to be a URI.

use http::uri::{InvalidUri, Uri};
use vstd::prelude::*;
use vstd::string::*;

use crate::text::same_text;

verus! {

/// What `http` reports of a text that is no URI.
#[verifier::external_type_specification]
#[verifier::external_body]
pub struct ExInvalidUri(InvalidUri);

/// What `Uri::from_str` and `Uri::scheme_str` make of a text: nothing where it
/// is no URI, else the scheme, where it has one.
pub uninterp spec fn uri_scheme(text: Seq<char>) -> Option<Option<Seq<char>>>;

/// What `Uri::from_str` and the `Display` of `Uri` make of a text: nothing where
/// it is no URI, else how the URI reads.
pub uninterp spec fn uri_text(text: Seq<char>) -> Option<Seq<char>>;

/// Whether a text begins with the scheme of a secure WebSocket.
pub open spec fn begins_secure(text: Seq<char>) -> bool {
    "wss://"@.is_prefix_of(text)
}

/// `Uri::from_str`, then `Uri::scheme_str` and `Uri::to_string` on the URI that
/// it gives. All depend on the text alone. The parser takes everything before
/// `://` as the scheme and keeps its letters as they are, but for `http` and
/// `https`, and a URI with a scheme reads as the scheme, `://` and the rest; so
/// the scheme of a URI is `wss` exactly when its text begins with `wss://`, and
/// exactly when the URI reads so. Which texts are URIs is left unsaid, and so is
/// what else the URI reads as: it comes without the fragment of the text, and
/// with `/` for an empty path after a scheme.
#[verifier::external_body]
fn parse_uri(text: &str) -> (parsed: Result<(Option<String>, String), InvalidUri>)
    ensures
        match parsed {
            Ok((Some(name), written)) => uri_scheme(text@) == Some(Some(name@)) && uri_text(text@)
                == Some(written@) && ((name@ == "wss"@) <==> begins_secure(text@)) && (
            begins_secure(written@) <==> begins_secure(text@)),
            Ok((None, written)) => uri_scheme(text@) == Some(None::<Seq<char>>) && uri_text(text@)
                == Some(written@) && !begins_secure(text@) && !begins_secure(written@),
            Err(_) => uri_scheme(text@) is None && uri_text(text@) is None,
        },
{
    let uri = <Uri as std::str::FromStr>::from_str(text)?;
    Ok((uri.scheme_str().map(String::from), uri.to_string()))
}

/// The address of a hub: a URI, which reads somewhat differently from the text
/// that it was parsed from where that has a fragment, an empty path, or `http`
/// or `https` in capitals.
pub struct Endpoint {
    source: String,
    text: String,
    scheme: Option<String>,
}

/// A text that was given as the address of a hub and is no URI.
pub struct InvalidEndpoint {
    pub text: String,
}

impl Endpoint {
    /// The text that the address was parsed from.
    pub closed spec fn spec_source(self) -> Seq<char> {
        self.source@
    }

    /// The address as the URI reads.
    pub closed spec fn spec_text(self) -> Seq<char> {
        self.text@
    }

    /// Whether the hub is reached over TLS.
    pub open spec fn is_secure(self) -> bool {
        begins_secure(self.spec_text())
    }

    /// Whether an address is what a text is parsed to.
    pub open spec fn is_parsed_from(self, text: Seq<char>) -> bool {
        &&& self.spec_source() == text
        &&& uri_text(text) == Some(self.spec_text())
        &&& self.is_secure() == begins_secure(text)
    }

    /// The URI is that of the source, and so is the scheme.
    #[verifier::type_invariant]
    spec fn well_formed(self) -> bool {
        &&& self.is_parsed_from(self.source@)
        &&& uri_scheme(self.source@) == Some(
            match self.scheme {
                Some(name) => Some(name@),
                None => None,
            },
        )
        &&& self.is_secure() <==> (self.scheme matches Some(name) && name@ == "wss"@)
    }

    /// The address that a text holds, if it is a URI.
    pub fn parse(text: &str) -> (endpoint: Result<Endpoint, InvalidEndpoint>)
        ensures
            match endpoint {
                Ok(parsed) => uri_scheme(text@) is Some && parsed.is_parsed_from(text@),
                Err(rejected) => uri_scheme(text@) is None && rejected.text@ == text@,
            },
    {
        match parse_uri(text) {
            Ok((scheme, written)) => Ok(
                Endpoint { source: String::from_str(text), text: written, scheme },
            ),
            Err(_) => Err(InvalidEndpoint { text: String::from_str(text) }),
        }
    }

    /// The text that the address was parsed from, and that gives the same URI
    /// when it is parsed again.
    pub fn source(&self) -> (source: &str)
        ensures
            source@ == self.spec_source(),
            self.is_parsed_from(source@),
    {
        proof {
            use_type_invariant(self);
        }
        self.source.as_str()
    }

    /// The address as the URI reads.
    pub fn as_str(&self) -> (text: &str)
        ensures
            text@ == self.spec_text(),
            uri_text(self.spec_source()) == Some(text@),
    {
        proof {
            use_type_invariant(self);
        }
        self.text.as_str()
    }

    /// Whether the hub is reached over TLS.
    pub fn secure(&self) -> (secure: bool)
        ensures
            secure == self.is_secure(),
    {
        proof {
            use_type_invariant(self);
        }
        match &self.scheme {
            Some(name) => same_text(name.as_str(), "wss"),
            None => false,
        }
    }
}

impl Clone for Endpoint {
    fn clone(&self) -> (copy: Self)
        ensures
            copy == *self,
    {
        proof {
            use_type_invariant(self);
        }
        Endpoint {
            source: self.source.clone(),
            text: self.text.clone(),
            scheme: match &self.scheme {
                Some(name) => Some(name.clone()),
                None => None,
            },
        }
    }
}

/// A hub is reached over TLS exactly where its address begins with `wss://`, in
/// these very letters.
pub proof fn secure_addresses_begin_with_wss(text: &str, endpoint: Endpoint, secure: bool)
    requires
        call_ensures(Endpoint::parse, (text,), Ok::<Endpoint, InvalidEndpoint>(endpoint)),
        call_ensures(Endpoint::secure, (&endpoint,), secure),
    ensures
        secure <==> text@.len() >= 6 && text@[0] == 'w' && text@[1] == 's' && text@[2] == 's'
            && text@[3] == ':' && text@[4] == '/' && text@[5] == '/',
        secure == endpoint.is_secure(),
{
    reveal_strlit("wss://");
    let start = "wss://"@;
    if text@.len() >= 6 && text@[0] == 'w' && text@[1] == 's' && text@[2] == 's' && text@[3] == ':'
        && text@[4] == '/' && text@[5] == '/' {
        assert(start =~= text@.subrange(0, 6));
    }
    if secure {
        assert forall|i: int| 0 <= i < 6 implies text@[i] == start[i] by {
            assert(text@.subrange(0, 6)[i] == text@[i]);
        }
        assert(start[0] == 'w' && start[1] == 's' && start[2] == 's' && start[3] == ':');
        assert(start[4] == '/' && start[5] == '/');
        assert(text@[0] == 'w' && text@[1] == 's' && text@[2] == 's' && text@[3] == ':');
        assert(text@.len() >= 6);
    }
}

/// A text that is parsed keeps its URI: what the address reads as is what the
/// URI of its source reads as.
pub proof fn addresses_read_as_their_uri(
    text: &str,
    endpoint: Endpoint,
    source: &str,
    written: &str,
)
    requires
        call_ensures(Endpoint::parse, (text,), Ok::<Endpoint, InvalidEndpoint>(endpoint)),
        call_ensures(Endpoint::source, (&endpoint,), source),
        call_ensures(Endpoint::as_str, (&endpoint,), written),
    ensures
        source@ == text@,
        uri_text(text@) == Some(written@),
{
}

/// A text is either parsed or handed back as it was given, and whether it is
/// parsed is up to the text alone.
pub proof fn texts_are_parsed_or_handed_back(
    text: &str,
    endpoint: Result<Endpoint, InvalidEndpoint>,
    other: &str,
    other_endpoint: Result<Endpoint, InvalidEndpoint>,
)
    requires
        call_ensures(Endpoint::parse, (text,), endpoint),
        call_ensures(Endpoint::parse, (other,), other_endpoint),
    ensures
        endpoint matches Err(rejected) ==> rejected.text@ == text@,
        text@ == other@ ==> (endpoint is Ok <==> other_endpoint is Ok),
{
}

} // verus!
