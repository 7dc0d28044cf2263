//! A session with one repository of one registry: the handshake that
//! obtains its token, the request of each operation, and what each response
//! means.

use crate::challenge::{challenge_of, parse_challenge};
use crate::digest::{digest_well_formed, Digest};
use crate::http::{
    body_view, header_value, is_success, Method, Request, RequestView, Response, ResponseView,
};
use crate::image::{
    image_config_type, image_index_type, image_manifest_type, manifest_list_type, DescriptorView,
    ImageIndex, ImageManifest,
};
use crate::recipe::{Authorization, AuthorizationView};
use crate::urls::{join_url, parse_url, url_add_pair, url_joined, url_parsed, url_with_pair};
use vstd::prelude::*;
use vstd::string::StringExecFns;

verus! {

/// What a session is allowed to do in its repository.
#[derive(Debug, Clone, Copy, PartialEq, Eq, Structural)]
pub enum ClientScope {
    Push,
    Pull,
}

/// The name of a scope in a token request.
pub open spec fn scope_text(scope: ClientScope) -> Seq<char> {
    match scope {
        ClientScope::Push => "push"@,
        ClientScope::Pull => "pull"@,
    }
}

impl ClientScope {
    /// The name of the scope: `push` or `pull`.
    pub fn as_str(&self) -> (res: &'static str)
        ensures
            res@ == scope_text(*self),
    {
        match self {
            ClientScope::Push => "push",
            ClientScope::Pull => "pull",
        }
    }

    /// The name of the scope, owned.
    pub fn to_string(&self) -> (res: String)
        ensures
            res@ == scope_text(*self),
    {
        String::from_str(self.as_str())
    }
}

/// Whether a registry is spoken to in the clear or over TLS.
#[derive(Debug, Clone, Copy, PartialEq, Eq, Structural)]
pub enum Scheme {
    Http,
    Https,
}

/// The scheme as it stands in an address.
pub open spec fn scheme_text(scheme: Scheme) -> Seq<char> {
    match scheme {
        Scheme::Http => "http"@,
        Scheme::Https => "https"@,
    }
}

impl Scheme {
    /// The scheme as it stands in an address: `http` or `https`.
    pub fn as_str(&self) -> (res: &'static str)
        ensures
            res@ == scheme_text(*self),
    {
        match self {
            Scheme::Http => "http",
            Scheme::Https => "https",
        }
    }
}

/// Why an exchange with a registry failed.
#[derive(Debug, Clone, Copy, PartialEq, Eq, Structural)]
pub enum RegistryError {
    /// An address could not be formed.
    InvalidUrl,
    /// The response has this status, which is not of the success class.
    Status(u16),
    /// The registry refused the probe without naming a token service.
    MissingChallenge,
    /// The challenge is not of the form `Bearer realm="..",service=".."`.
    MalformedChallenge,
    /// The response that opens an upload names no location.
    MissingLocation,
    /// The location of an upload is not text.
    MalformedLocation,
    /// The response to a manifest names no digest.
    MissingDigest,
    /// The digest that the registry names is not text or is no digest.
    MalformedDigest,
    /// The body of the token response is not JSON.
    InvalidJson,
    /// The token response has no text under `token`.
    MissingToken,
    /// The index has no manifest for the platform asked for.
    NotFound,
}

/// Whether `body` is a JSON document.
pub uninterp spec fn json_decodes(body: Seq<u8>) -> bool;

/// The text that the JSON document `body` holds under `key` at its top
/// level, or `None` where the document is no object, has no such member, or
/// holds something other than text there.
pub uninterp spec fn json_text_member(body: Seq<u8>, key: Seq<char>) -> Option<Seq<char>>;

/// The error of `serde_json`. It is passed on and never looked into.
#[verifier::external_type_specification]
#[verifier::external_body]
pub struct ExJsonError(serde_json::Error);

/// Calls `serde_json::from_slice` for a `serde_json::Value`, then
/// `Value::get` and `Value::as_str` on it. Fails exactly where the body is
/// not JSON; what is found depends on the body and the key alone.
#[verifier::external_body]
fn json_text_field(body: &[u8], key: &str) -> (res: Result<Option<String>, serde_json::Error>)
    ensures
        res is Ok <==> json_decodes(body@),
        res matches Ok(text) ==> text.deep_view() == json_text_member(body@, key@),
{
    let value: serde_json::Value = serde_json::from_slice(body)?;
    Ok(value.get(key).and_then(|member| member.as_str()).map(|text| text.to_owned()))
}

/// The view of a request that was built, or the error.
pub open spec fn request_result(res: Result<Request, RegistryError>) -> Result<
    RequestView,
    RegistryError,
> {
    match res {
        Ok(request) => Ok(request@),
        Err(e) => Err(e),
    }
}

/// The view of a text that was computed, or the error.
pub open spec fn text_result(res: Result<String, RegistryError>) -> Result<Seq<char>, RegistryError> {
    match res {
        Ok(text) => Ok(text@),
        Err(e) => Err(e),
    }
}

/// The address of the registry's base endpoint: `<scheme>://<registry>/v2/`.
pub open spec fn probe_url_text(scheme: Scheme, registry: Seq<char>) -> Seq<char> {
    scheme_text(scheme) + "://"@ + registry + "/v2/"@
}

/// The address at which a registry that sends no challenge gives out
/// tokens: `<scheme>://<registry>/v2/token`.
pub open spec fn default_token_url_text(scheme: Scheme, registry: Seq<char>) -> Seq<char> {
    scheme_text(scheme) + "://"@ + registry + "/v2/token"@
}

/// The address of a repository: `<scheme>://<registry>/v2/<repo>/`.
pub open spec fn repo_url_text(scheme: Scheme, registry: Seq<char>, repo: Seq<char>) -> Seq<char> {
    scheme_text(scheme) + "://"@ + registry + "/v2/"@ + repo + "/"@
}

/// The address of `path` in a repository.
pub open spec fn endpoint_of(
    scheme: Scheme,
    registry: Seq<char>,
    repo: Seq<char>,
    path: Seq<char>,
) -> Option<Seq<char>> {
    match url_parsed(repo_url_text(scheme, registry, repo)) {
        Some(base) => url_joined(base, path),
        None => None,
    }
}

/// The scope of a token request: `repository:<repo>:<push|pull>`.
pub open spec fn token_scope_text(repo: Seq<char>, scope: ClientScope) -> Seq<char> {
    "repository:"@ + repo + ":"@ + scope_text(scope)
}

/// The credentials that stand for an authorization: a token is the password
/// of the user with the empty name.
pub open spec fn credentials_of(auth: AuthorizationView) -> Option<(Seq<char>, Seq<char>)> {
    match auth {
        AuthorizationView::UserPassword(user, password) => Some((user, password)),
        AuthorizationView::Token(token) => Some((Seq::empty(), token)),
        AuthorizationView::Anonymous => None,
    }
}

/// A request that carries neither header fields, credentials nor a body.
pub open spec fn plain_request(method: Method, url: Seq<char>) -> RequestView {
    RequestView { method, url, headers: Seq::empty(), basic_auth: None, body: None }
}

/// A session that is being set up: it has yet to learn where tokens are
/// given out, and to obtain one.
#[derive(Debug, PartialEq, Eq)]
pub struct Handshake {
    pub scheme: Scheme,
    pub registry: String,
    pub repo: String,
    pub scope: ClientScope,
    pub credentials: Option<(String, String)>,
}

/// A handshake as a plain value.
pub ghost struct HandshakeView {
    pub scheme: Scheme,
    pub registry: Seq<char>,
    pub repo: Seq<char>,
    pub scope: ClientScope,
    pub credentials: Option<(Seq<char>, Seq<char>)>,
}

impl View for Handshake {
    type V = HandshakeView;

    open spec fn view(&self) -> HandshakeView {
        HandshakeView {
            scheme: self.scheme,
            registry: self.registry@,
            repo: self.repo@,
            scope: self.scope,
            credentials: self.credentials.deep_view(),
        }
    }
}

/// Where tokens are given out, by the response to the probe. A refusal
/// (status 401) must name the token service in `WWW-Authenticate`; the
/// realm, with the service as a query parameter, is the address. Any other
/// status leads to the registry's default address.
pub open spec fn token_endpoint_of(scheme: Scheme, registry: Seq<char>, probe: ResponseView) -> Result<
    Seq<char>,
    RegistryError,
> {
    if probe.status == 401 {
        match header_value(probe.headers, "WWW-Authenticate"@) {
            None => Err(RegistryError::MissingChallenge),
            Some(None) => Err(RegistryError::MalformedChallenge),
            Some(Some(text)) => match challenge_of(text) {
                None => Err(RegistryError::MalformedChallenge),
                Some(challenge) => match url_with_pair(
                    challenge.realm,
                    "service"@,
                    challenge.service,
                ) {
                    Some(url) => Ok(url),
                    None => Err(RegistryError::InvalidUrl),
                },
            },
        }
    } else {
        Ok(default_token_url_text(scheme, registry))
    }
}

/// The request for a token: to the token endpoint, with the scope as a
/// query parameter and with the credentials of the handshake.
pub open spec fn token_request_of(h: HandshakeView, probe: ResponseView) -> Result<
    RequestView,
    RegistryError,
> {
    match token_endpoint_of(h.scheme, h.registry, probe) {
        Err(e) => Err(e),
        Ok(endpoint) => match url_with_pair(endpoint, "scope"@, token_scope_text(h.repo, h.scope)) {
            None => Err(RegistryError::InvalidUrl),
            Some(url) => Ok(
                RequestView {
                    method: Method::Get,
                    url,
                    headers: Seq::empty(),
                    basic_auth: h.credentials,
                    body: None,
                },
            ),
        },
    }
}

/// The token that a token response gives.
pub open spec fn token_of(response: ResponseView) -> Result<Seq<char>, RegistryError> {
    if !is_success(response.status) {
        Err(RegistryError::Status(response.status))
    } else if !json_decodes(response.body) {
        Err(RegistryError::InvalidJson)
    } else {
        match json_text_member(response.body, "token"@) {
            Some(token) => Ok(token),
            None => Err(RegistryError::MissingToken),
        }
    }
}

fn clone_credentials(c: &Option<(String, String)>) -> (res: Option<(String, String)>)
    ensures
        res.deep_view() == c.deep_view(),
{
    match c {
        Some(pair) => Some((pair.0.clone(), pair.1.clone())),
        None => None,
    }
}

/// Fails on a status that is not of the success class.
pub fn check_status(response: &Response) -> (res: Result<(), RegistryError>)
    ensures
        res == (if is_success(response.status) {
            Ok::<(), RegistryError>(())
        } else {
            Err(RegistryError::Status(response.status))
        }),
{
    if response.succeeded() {
        Ok(())
    } else {
        Err(RegistryError::Status(response.status))
    }
}

impl Handshake {
    /// The probe: an unauthenticated request to the registry's base
    /// endpoint.
    pub fn probe_request(&self) -> (res: Result<Request, RegistryError>)
        ensures
            request_result(res) == (match url_parsed(probe_url_text(self.scheme, self.registry@)) {
                Some(url) => Ok(plain_request(Method::Get, url)),
                None => Err(RegistryError::InvalidUrl),
            }),
    {
        let text = String::from_str(self.scheme.as_str()).concat("://").concat(
            self.registry.as_str(),
        ).concat("/v2/");
        match parse_url(text.as_str()) {
            Ok(url) => Ok(Request::get(url, None)),
            Err(_) => Err(RegistryError::InvalidUrl),
        }
    }

    /// The probe in discovery mode: an unauthenticated request for the
    /// manifest of `tag`.
    pub fn discovery_request(&self, tag: &str) -> (res: Result<Request, RegistryError>)
        ensures
            request_result(res) == (match endpoint_of(
                self.scheme,
                self.registry@,
                self.repo@,
                "manifests/"@ + tag@,
            ) {
                Some(url) => Ok(plain_request(Method::Get, url)),
                None => Err(RegistryError::InvalidUrl),
            }),
    {
        let path = String::from_str("manifests/").concat(tag);
        match endpoint(self.scheme, self.registry.as_str(), self.repo.as_str(), path.as_str()) {
            Some(url) => Ok(Request::get(url, None)),
            None => Err(RegistryError::InvalidUrl),
        }
    }

    /// Where tokens are given out, by the response to the probe.
    pub fn probe_for_token_endpoint(&self, probe: &Response) -> (res: Result<String, RegistryError>)
        ensures
            text_result(res) == token_endpoint_of(self.scheme, self.registry@, probe@),
    {
        if probe.status == 401 {
            match probe.header_position("WWW-Authenticate") {
                None => Err(RegistryError::MissingChallenge),
                Some(i) => match &probe.headers[i].1 {
                    None => Err(RegistryError::MalformedChallenge),
                    Some(text) => match parse_challenge(text.as_str()) {
                        None => Err(RegistryError::MalformedChallenge),
                        Some(challenge) => match url_add_pair(
                            challenge.realm.as_str(),
                            "service",
                            challenge.service.as_str(),
                        ) {
                            Ok(url) => Ok(url),
                            Err(_) => Err(RegistryError::InvalidUrl),
                        },
                    },
                },
            }
        } else {
            Ok(
                String::from_str(self.scheme.as_str()).concat("://").concat(
                    self.registry.as_str(),
                ).concat("/v2/token"),
            )
        }
    }

    /// The request for a token, by the response to the probe.
    pub fn token_request(&self, probe: &Response) -> (res: Result<Request, RegistryError>)
        ensures
            request_result(res) == token_request_of(self@, probe@),
    {
        let endpoint = match self.probe_for_token_endpoint(probe) {
            Ok(endpoint) => endpoint,
            Err(e) => {
                return Err(e);
            },
        };
        let scope = String::from_str("repository:").concat(self.repo.as_str()).concat(":").concat(
            self.scope.as_str(),
        );
        match url_add_pair(endpoint.as_str(), "scope", scope.as_str()) {
            Ok(url) => Ok(Request::get(url, clone_credentials(&self.credentials))),
            Err(_) => Err(RegistryError::InvalidUrl),
        }
    }

    /// Ends the handshake: the session that sends the token of
    /// `token_response` with every request.
    pub fn finish(self, token_response: &Response) -> (res: Result<RegistryClient, RegistryError>)
        ensures
            (match token_of(token_response@) {
                Ok(token) => res matches Ok(client) && client@ == (RegistryClientView {
                    scheme: self.scheme,
                    registry: self.registry@,
                    repo: self.repo@,
                    token,
                }),
                Err(e) => res == Err::<RegistryClient, RegistryError>(e),
            }),
    {
        match extract_token(token_response) {
            Ok(token) => Ok(
                RegistryClient {
                    scheme: self.scheme,
                    registry: self.registry,
                    repo: self.repo,
                    token,
                },
            ),
            Err(e) => Err(e),
        }
    }
}

/// The token of a token response whose document holds `member` under
/// `token`.
pub fn token_of_member(member: Option<String>) -> (res: Result<String, RegistryError>)
    ensures
        res == (match member {
            Some(token) => Ok::<String, RegistryError>(token),
            None => Err(RegistryError::MissingToken),
        }),
{
    match member {
        Some(token) => Ok(token),
        None => Err(RegistryError::MissingToken),
    }
}

/// The token that a token response gives.
pub fn extract_token(response: &Response) -> (res: Result<String, RegistryError>)
    ensures
        text_result(res) == token_of(response@),
{
    if !response.succeeded() {
        return Err(RegistryError::Status(response.status));
    }
    match json_text_field(response.body.as_slice(), "token") {
        Err(_) => Err(RegistryError::InvalidJson),
        Ok(member) => token_of_member(member),
    }
}

fn endpoint(scheme: Scheme, registry: &str, repo: &str, path: &str) -> (res: Option<String>)
    ensures
        res.deep_view() == endpoint_of(scheme, registry@, repo@, path@),
{
    let text = String::from_str(scheme.as_str()).concat("://").concat(registry).concat("/v2/").concat(
        repo,
    ).concat("/");
    match parse_url(text.as_str()) {
        Ok(base) => match join_url(base.as_str(), path) {
            Ok(url) => Some(url),
            Err(_) => None,
        },
        Err(_) => None,
    }
}

/// A session with one repository of one registry. Every request of the
/// session carries its token.
#[derive(Debug, PartialEq, Eq)]
pub struct RegistryClient {
    pub scheme: Scheme,
    pub registry: String,
    pub repo: String,
    pub token: String,
}

/// A session as a plain value.
pub ghost struct RegistryClientView {
    pub scheme: Scheme,
    pub registry: Seq<char>,
    pub repo: Seq<char>,
    pub token: Seq<char>,
}

impl View for RegistryClient {
    type V = RegistryClientView;

    open spec fn view(&self) -> RegistryClientView {
        RegistryClientView {
            scheme: self.scheme,
            registry: self.registry@,
            repo: self.repo@,
            token: self.token@,
        }
    }
}

/// The header field that carries a token: `Authorization: Bearer <token>`.
pub open spec fn bearer_field(token: Seq<char>) -> (Seq<char>, Seq<char>) {
    ("Authorization"@, "Bearer "@ + token)
}

/// The request of a session for `path` in its repository: the token first,
/// then the header fields of the operation.
pub open spec fn request_of(
    c: RegistryClientView,
    method: Method,
    path: Seq<char>,
    fields: Seq<(Seq<char>, Seq<char>)>,
    body: Option<Seq<u8>>,
) -> Result<RequestView, RegistryError> {
    match endpoint_of(c.scheme, c.registry, c.repo, path) {
        Some(url) => Ok(
            RequestView {
                method,
                url,
                headers: seq![bearer_field(c.token)] + fields,
                basic_auth: None,
                body,
            },
        ),
        None => Err(RegistryError::InvalidUrl),
    }
}

/// The `Accept` field with which an index is asked for: the manifest list
/// and the image index.
pub open spec fn accept_index() -> (Seq<char>, Seq<char>) {
    ("Accept"@, manifest_list_type() + ", "@ + image_index_type())
}

/// The address to send a blob to: the location that the registry named for
/// the upload, read at the address that answered, with the digest as a
/// query parameter.
pub open spec fn upload_url_of(session: ResponseView, digest: Seq<char>) -> Result<
    Seq<char>,
    RegistryError,
> {
    if !is_success(session.status) {
        Err(RegistryError::Status(session.status))
    } else {
        match header_value(session.headers, "Location"@) {
            None => Err(RegistryError::MissingLocation),
            Some(None) => Err(RegistryError::MalformedLocation),
            Some(Some(location)) => match url_joined(session.url, location) {
                None => Err(RegistryError::InvalidUrl),
                Some(target) => match url_with_pair(target, "digest"@, digest) {
                    None => Err(RegistryError::InvalidUrl),
                    Some(url) => Ok(url),
                },
            },
        }
    }
}

/// The request that sends a blob, after the registry opened an upload.
pub open spec fn upload_put_of(
    c: RegistryClientView,
    session: ResponseView,
    digest: Seq<char>,
    contents: Seq<u8>,
) -> Result<RequestView, RegistryError> {
    match upload_url_of(session, digest) {
        Err(e) => Err(e),
        Ok(url) => Ok(
            RequestView {
                method: Method::Put,
                url,
                headers: seq![
                    bearer_field(c.token),
                    ("Content-Type"@, "application/octet-stream"@),
                ],
                basic_auth: None,
                body: Some(contents),
            },
        ),
    }
}

/// The digest under which the registry stored a manifest.
pub open spec fn manifest_digest_of(response: ResponseView) -> Result<Seq<char>, RegistryError> {
    if !is_success(response.status) {
        Err(RegistryError::Status(response.status))
    } else {
        match header_value(response.headers, "docker-content-digest"@) {
            None => Err(RegistryError::MissingDigest),
            Some(None) => Err(RegistryError::MalformedDigest),
            Some(Some(text)) => if digest_well_formed(text) {
                Ok(text)
            } else {
                Err(RegistryError::MalformedDigest)
            },
        }
    }
}

/// The manifest is built for this architecture and operating system.
pub open spec fn platform_matches(d: DescriptorView, arch: Seq<char>, os: Seq<char>) -> bool {
    d.platform matches Some(p) && p.architecture == arch && p.os == os
}

/// The position of the first manifest at or after `from` that is built for
/// the platform.
pub open spec fn first_for_platform(
    manifests: Seq<DescriptorView>,
    arch: Seq<char>,
    os: Seq<char>,
    from: int,
) -> Option<int>
    decreases manifests.len() - from,
{
    if from < 0 || from >= manifests.len() {
        None
    } else if platform_matches(manifests[from], arch, os) {
        Some(from)
    } else {
        first_for_platform(manifests, arch, os, from + 1)
    }
}

/// The position of the first manifest of `index` that is built for the
/// platform: the manifest there is built for it, and none before it is.
/// `None` where no manifest of the index is built for the platform.
pub fn select_manifest(index: &ImageIndex, arch: &str, os: &str) -> (res: Option<usize>)
    ensures
        (match res {
            Some(i) => {
                &&& i < index.manifests.len()
                &&& first_for_platform(index@.manifests, arch@, os@, 0) == Some(i as int)
                &&& platform_matches(index@.manifests[i as int], arch@, os@)
                &&& forall|j: int|
                    0 <= j < i ==> !platform_matches(#[trigger] index@.manifests[j], arch@, os@)
            },
            None => {
                &&& first_for_platform(index@.manifests, arch@, os@, 0) is None
                &&& forall|j: int|
                    0 <= j < index@.manifests.len() ==> !platform_matches(
                        #[trigger] index@.manifests[j],
                        arch@,
                        os@,
                    )
            },
        }),
{
    let arch_text = String::from_str(arch);
    let os_text = String::from_str(os);
    let mut i: usize = 0;
    while i < index.manifests.len()
        invariant
            i <= index.manifests.len(),
            arch_text@ == arch@,
            os_text@ == os@,
            first_for_platform(index@.manifests, arch@, os@, 0) == first_for_platform(
                index@.manifests,
                arch@,
                os@,
                i as int,
            ),
            forall|j: int|
                0 <= j < i ==> !platform_matches(#[trigger] index@.manifests[j], arch@, os@),
        decreases index.manifests.len() - i,
    {
        let found = match &index.manifests[i].platform {
            Some(p) => p.architecture == arch_text && p.os == os_text,
            None => false,
        };
        assert(found == platform_matches(index@.manifests[i as int], arch@, os@));
        if found {
            return Some(i);
        }
        i = i + 1;
    }
    None
}

impl RegistryClient {
    /// Begins a session as `auth` demands.
    pub fn new(
        scheme: Scheme,
        registry: &str,
        repo: &str,
        auth: &Authorization,
        scope: ClientScope,
    ) -> (res: Handshake)
        ensures
            res@ == (HandshakeView {
                scheme,
                registry: registry@,
                repo: repo@,
                scope,
                credentials: credentials_of(auth@),
            }),
    {
        proof {
            reveal_strlit("");
            assert(""@ =~= Seq::<char>::empty());
        }
        match auth {
            Authorization::UserPassword(user, password) => RegistryClient::with_basic_auth(
                scheme,
                registry,
                repo,
                user.as_str(),
                password.as_str(),
                scope,
            ),
            Authorization::Token(token) => RegistryClient::with_basic_auth(
                scheme,
                registry,
                repo,
                "",
                token.as_str(),
                scope,
            ),
            Authorization::Anonymous => RegistryClient::anonymous(scheme, registry, repo, scope),
        }
    }

    /// Begins a session without credentials.
    pub fn anonymous(scheme: Scheme, registry: &str, repo: &str, scope: ClientScope) -> (res:
        Handshake)
        ensures
            res@ == (HandshakeView {
                scheme,
                registry: registry@,
                repo: repo@,
                scope,
                credentials: None,
            }),
    {
        Handshake {
            scheme,
            registry: String::from_str(registry),
            repo: String::from_str(repo),
            scope,
            credentials: None,
        }
    }

    /// Begins a session with a user name and a password.
    pub fn with_basic_auth(
        scheme: Scheme,
        registry: &str,
        repo: &str,
        username: &str,
        password: &str,
        scope: ClientScope,
    ) -> (res: Handshake)
        ensures
            res@ == (HandshakeView {
                scheme,
                registry: registry@,
                repo: repo@,
                scope,
                credentials: Some((username@, password@)),
            }),
    {
        Handshake {
            scheme,
            registry: String::from_str(registry),
            repo: String::from_str(repo),
            scope,
            credentials: Some((String::from_str(username), String::from_str(password))),
        }
    }

    /// The address of the repository.
    pub fn repo_url(&self) -> (res: Result<String, RegistryError>)
        ensures
            text_result(res) == (match url_parsed(
                repo_url_text(self@.scheme, self@.registry, self@.repo),
            ) {
                Some(url) => Ok::<Seq<char>, RegistryError>(url),
                None => Err(RegistryError::InvalidUrl),
            }),
    {
        let text = String::from_str(self.scheme.as_str()).concat("://").concat(
            self.registry.as_str(),
        ).concat("/v2/").concat(self.repo.as_str()).concat("/");
        match parse_url(text.as_str()) {
            Ok(url) => Ok(url),
            Err(_) => Err(RegistryError::InvalidUrl),
        }
    }

    /// The request of this session to the address `url`: the token first,
    /// then the header fields of the operation.
    pub fn authorized(
        &self,
        method: Method,
        url: String,
        fields: Vec<(String, String)>,
        body: Option<Vec<u8>>,
    ) -> (res: Request)
        ensures
            res@ == (RequestView {
                method,
                url: url@,
                headers: seq![bearer_field(self@.token)] + fields.deep_view(),
                basic_auth: None,
                body: body_view(body),
            }),
    {
        let mut headers: Vec<(String, String)> = Vec::new();
        headers.push(
            (
                String::from_str("Authorization"),
                String::from_str("Bearer ").concat(self.token.as_str()),
            ),
        );
        let mut rest = fields;
        let ghost first = headers.deep_view();
        let ghost more = rest.deep_view();
        headers.append(&mut rest);
        assert(headers.deep_view() =~= first + more);
        assert(first =~= seq![bearer_field(self@.token)]);
        Request { method, url, headers, basic_auth: None, body }
    }

    fn request(
        &self,
        method: Method,
        path: &str,
        fields: Vec<(String, String)>,
        body: Option<Vec<u8>>,
    ) -> (res: Result<Request, RegistryError>)
        ensures
            request_result(res) == request_of(
                self@,
                method,
                path@,
                fields.deep_view(),
                body_view(body),
            ),
    {
        match endpoint(self.scheme, self.registry.as_str(), self.repo.as_str(), path) {
            Some(url) => Ok(self.authorized(method, url, fields, body)),
            None => Err(RegistryError::InvalidUrl),
        }
    }

    /// The request for the index, or the manifest list, of `tag`.
    pub fn get_index_or_manifest(&self, tag: &str) -> (res: Result<Request, RegistryError>)
        ensures
            request_result(res) == request_of(
                self@,
                Method::Get,
                "manifests/"@ + tag@,
                seq![accept_index()],
                None,
            ),
    {
        let path = String::from_str("manifests/").concat(tag);
        let accept = String::from_str(
            "application/vnd.docker.distribution.manifest.list.v2+json",
        ).concat(", ").concat("application/vnd.oci.image.index.v1+json");
        let mut fields: Vec<(String, String)> = Vec::new();
        fields.push((String::from_str("Accept"), accept));
        assert(fields.deep_view() =~= seq![accept_index()]);
        self.request(Method::Get, path.as_str(), fields, None)
    }

    /// The request for the manifest with the digest `digest`.
    pub fn get_manifest(&self, digest: &Digest) -> (res: Result<Request, RegistryError>)
        ensures
            request_result(res) == request_of(
                self@,
                Method::Get,
                "manifests/"@ + digest@,
                seq![("Accept"@, image_manifest_type())],
                None,
            ),
    {
        let path = String::from_str("manifests/").concat(digest.as_str());
        let mut fields: Vec<(String, String)> = Vec::new();
        fields.push(
            (
                String::from_str("Accept"),
                String::from_str("application/vnd.oci.image.manifest.v1+json"),
            ),
        );
        assert(fields.deep_view() =~= seq![("Accept"@, image_manifest_type())]);
        self.request(Method::Get, path.as_str(), fields, None)
    }

    /// The request for the configuration with the digest `digest`.
    pub fn get_config(&self, digest: &Digest) -> (res: Result<Request, RegistryError>)
        ensures
            request_result(res) == request_of(
                self@,
                Method::Get,
                "blobs/"@ + digest@,
                seq![("Accept"@, image_config_type())],
                None,
            ),
    {
        let path = String::from_str("blobs/").concat(digest.as_str());
        let mut fields: Vec<(String, String)> = Vec::new();
        fields.push(
            (
                String::from_str("Accept"),
                String::from_str("application/vnd.oci.image.config.v1+json"),
            ),
        );
        assert(fields.deep_view() =~= seq![("Accept"@, image_config_type())]);
        self.request(Method::Get, path.as_str(), fields, None)
    }

    /// Picks the first manifest of `index` that is built for the platform
    /// and gives the request for it.
    pub fn get_tag_for_target(&self, index: &ImageIndex, arch: &str, os: &str) -> (res: Result<
        Request,
        RegistryError,
    >)
        ensures
            request_result(res) == (match first_for_platform(index@.manifests, arch@, os@, 0) {
                Some(i) => request_of(
                    self@,
                    Method::Get,
                    "manifests/"@ + index@.manifests[i].digest,
                    seq![("Accept"@, image_manifest_type())],
                    None,
                ),
                None => Err(RegistryError::NotFound),
            }),
    {
        match select_manifest(index, arch, os) {
            Some(i) => self.get_manifest(&index.manifests[i].digest),
            None => Err(RegistryError::NotFound),
        }
    }

    /// The request for the bytes of the blob with the digest `digest`.
    pub fn get_binary_blob(&self, digest: &Digest) -> (res: Result<Request, RegistryError>)
        ensures
            request_result(res) == request_of(
                self@,
                Method::Get,
                "blobs/"@ + digest@,
                Seq::empty(),
                None,
            ),
    {
        let path = String::from_str("blobs/").concat(digest.as_str());
        let fields: Vec<(String, String)> = Vec::new();
        assert(fields.deep_view() =~= Seq::empty());
        self.request(Method::Get, path.as_str(), fields, None)
    }

    /// The request that asks whether the repository has the blob with the
    /// digest `digest`.
    pub fn has_blob(&self, digest: &Digest) -> (res: Result<Request, RegistryError>)
        ensures
            request_result(res) == request_of(
                self@,
                Method::Head,
                "blobs/"@ + digest@,
                Seq::empty(),
                None,
            ),
    {
        let path = String::from_str("blobs/").concat(digest.as_str());
        let fields: Vec<(String, String)> = Vec::new();
        assert(fields.deep_view() =~= Seq::empty());
        self.request(Method::Head, path.as_str(), fields, None)
    }

    /// What the response to `has_blob` says: the repository has the blob
    /// exactly where the status is 200.
    pub fn blob_exists(response: &Response) -> (res: bool)
        ensures
            res == (response.status == 200),
    {
        response.status == 200
    }

    /// The request that opens an upload.
    pub fn upload_blob(&self) -> (res: Result<Request, RegistryError>)
        ensures
            request_result(res) == request_of(
                self@,
                Method::Post,
                "blobs/uploads/"@,
                Seq::empty(),
                None,
            ),
    {
        let fields: Vec<(String, String)> = Vec::new();
        assert(fields.deep_view() =~= Seq::empty());
        self.request(Method::Post, "blobs/uploads/", fields, None)
    }

    /// The request that sends `contents` as the blob with the digest
    /// `digest`, by the response `session` that opened the upload.
    pub fn upload_blob_put(&self, session: &Response, digest: &Digest, contents: Vec<u8>) -> (res:
        Result<Request, RegistryError>)
        ensures
            request_result(res) == upload_put_of(self@, session@, digest@, contents@),
    {
        if !session.succeeded() {
            return Err(RegistryError::Status(session.status));
        }
        let location = match session.header_position("Location") {
            None => {
                return Err(RegistryError::MissingLocation);
            },
            Some(i) => match &session.headers[i].1 {
                None => {
                    return Err(RegistryError::MalformedLocation);
                },
                Some(location) => location,
            },
        };
        let target = match join_url(session.url.as_str(), location.as_str()) {
            Ok(target) => target,
            Err(_) => {
                return Err(RegistryError::InvalidUrl);
            },
        };
        let url = match url_add_pair(target.as_str(), "digest", digest.as_str()) {
            Ok(url) => url,
            Err(_) => {
                return Err(RegistryError::InvalidUrl);
            },
        };
        let mut fields: Vec<(String, String)> = Vec::new();
        fields.push(
            (String::from_str("Content-Type"), String::from_str("application/octet-stream")),
        );
        assert(fields.deep_view() =~= seq![("Content-Type"@, "application/octet-stream"@)]);
        assert(seq![bearer_field(self@.token)] + seq![
            ("Content-Type"@, "application/octet-stream"@),
        ] =~= seq![bearer_field(self@.token), ("Content-Type"@, "application/octet-stream"@)]);
        Ok(self.authorized(Method::Put, url, fields, Some(contents)))
    }

    /// The request that stores `manifest`, serialized as `body`, under
    /// `tag`.
    pub fn upload_manifest(&self, manifest: &ImageManifest, body: Vec<u8>, tag: &str) -> (res:
        Result<Request, RegistryError>)
        ensures
            request_result(res) == request_of(
                self@,
                Method::Put,
                "manifests/"@ + tag@,
                seq![("Content-Type"@, manifest@.media_type)],
                Some(body@),
            ),
    {
        let path = String::from_str("manifests/").concat(tag);
        let mut fields: Vec<(String, String)> = Vec::new();
        fields.push((String::from_str("Content-Type"), manifest.media_type.clone()));
        assert(fields.deep_view() =~= seq![("Content-Type"@, manifest@.media_type)]);
        self.request(Method::Put, path.as_str(), fields, Some(body))
    }

    /// The digest under which the registry stored a manifest, by its
    /// response.
    pub fn manifest_digest(response: &Response) -> (res: Result<Digest, RegistryError>)
        ensures
            (match manifest_digest_of(response@) {
                Ok(text) => res matches Ok(digest) && digest@ == text,
                Err(e) => res == Err::<Digest, RegistryError>(e),
            }),
    {
        if !response.succeeded() {
            return Err(RegistryError::Status(response.status));
        }
        match response.header_position("docker-content-digest") {
            None => Err(RegistryError::MissingDigest),
            Some(i) => match &response.headers[i].1 {
                None => Err(RegistryError::MalformedDigest),
                Some(text) => match Digest::from_str(text.as_str()) {
                    Ok(digest) => Ok(digest),
                    Err(_) => Err(RegistryError::MalformedDigest),
                },
            },
        }
    }
}

} // verus!
