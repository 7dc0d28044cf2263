use klt::challenge::{parse_challenge, BearerChallenge};
use klt::digest::Digest;
use klt::http::{names_match, Method, Request, Response};
use klt::image::{Descriptor, ImageIndex, ImageManifest, Platform};
use klt::recipe::Authorization;
use klt::registry_client::{
    check_status, extract_token, select_manifest, token_of_member, ClientScope, Handshake,
    RegistryClient, RegistryError, Scheme,
};

const TEST_DIGEST: &str = "sha256:9f64a747e1b97f131fabb6b447296c9b6f0201e79fb3c5356e6c77e89b6a806a";
const CONFIG_DIGEST: &str = "sha256:1010101010101010101010101010101010101010101010101010101010101010";
const SERVER: &str = "127.0.0.1:4567";

fn response(status: u16, headers: &[(&str, &str)], body: &[u8]) -> Response {
    Response {
        status,
        url: format!("http://{SERVER}/"),
        headers: headers
            .iter()
            .map(|(name, value)| (name.to_string(), Some(value.to_string())))
            .collect(),
        body: body.to_vec(),
    }
}

fn client() -> RegistryClient {
    RegistryClient {
        scheme: Scheme::Http,
        registry: SERVER.to_string(),
        repo: "test-repo".to_string(),
        token: "test-token".to_string(),
    }
}

fn bearer() -> (String, String) {
    ("Authorization".to_string(), "Bearer test-token".to_string())
}

fn descriptor(media_type: &str, digest: &str, platform: Option<(&str, &str)>) -> Descriptor {
    Descriptor {
        media_type: media_type.to_string(),
        size: 4,
        digest: Digest::from_str(digest).unwrap(),
        platform: platform.map(|(architecture, os)| Platform {
            architecture: architecture.to_string(),
            os: os.to_string(),
        }),
    }
}

#[test]
fn test_anonymous_client_creation() {
    let registry_url = SERVER.to_string();
    let handshake = RegistryClient::anonymous(Scheme::Http, &registry_url, "test-repo", ClientScope::Pull);

    let probe = handshake.probe_request().unwrap();
    assert_eq!(probe.method, Method::Get);
    assert_eq!(probe.url, format!("http://{SERVER}/v2/"));
    assert!(probe.headers.is_empty());
    assert_eq!(probe.basic_auth, None);

    let challenge = format!(
        "Bearer realm=\"http://{server}/auth\",service=\"{server}\"",
        server = registry_url
    );
    let refused = response(401, &[("WWW-Authenticate", &challenge)], b"");
    let token_request = handshake.token_request(&refused).unwrap();
    assert_eq!(token_request.method, Method::Get);
    assert_eq!(
        token_request.url,
        "http://127.0.0.1:4567/auth?service=127.0.0.1%3A4567&scope=repository%3Atest-repo%3Apull"
    );
    assert_eq!(token_request.basic_auth, None);

    let granted = response(200, &[], br#"{"token": "test-token"}"#);
    let client = handshake.finish(&granted).unwrap();

    assert_eq!(client.registry, registry_url);
    assert_eq!(client.repo, "test-repo");
    assert_eq!(client.token, "test-token");
    assert_eq!(client.scheme, Scheme::Http);
}

#[test]
fn test_basic_auth_client_creation() {
    let registry_url = SERVER.to_string();
    let handshake = RegistryClient::with_basic_auth(
        Scheme::Http,
        &registry_url,
        "test-repo",
        "username",
        "password",
        ClientScope::Push,
    );

    let not_found = response(404, &[], b"");
    assert_eq!(
        handshake.probe_for_token_endpoint(&not_found).unwrap(),
        "http://127.0.0.1:4567/v2/token"
    );
    let token_request = handshake.token_request(&not_found).unwrap();
    assert_eq!(
        token_request.url,
        "http://127.0.0.1:4567/v2/token?scope=repository%3Atest-repo%3Apush"
    );
    assert_eq!(
        token_request.basic_auth,
        Some(("username".to_string(), "password".to_string()))
    );

    let granted = response(200, &[], br#"{"token": "test-token"}"#);
    let client = handshake.finish(&granted).unwrap();

    assert_eq!(client.registry, registry_url);
    assert_eq!(client.repo, "test-repo");
}

#[test]
fn test_get_tag_for_target() {
    let client = client();

    let index_request = client.get_index_or_manifest("latest").unwrap();
    assert_eq!(index_request.method, Method::Get);
    assert_eq!(index_request.url, "http://127.0.0.1:4567/v2/test-repo/manifests/latest");
    assert_eq!(
        index_request.headers,
        vec![
            bearer(),
            (
                "Accept".to_string(),
                "application/vnd.docker.distribution.manifest.list.v2+json, application/vnd.oci.image.index.v1+json"
                    .to_string()
            ),
        ]
    );

    let index = ImageIndex {
        manifests: vec![descriptor(
            "application/vnd.oci.image.manifest.v1+json",
            TEST_DIGEST,
            Some(("amd64", "linux")),
        )],
    };
    let manifest_request = client.get_tag_for_target(&index, "amd64", "linux").unwrap();
    assert_eq!(manifest_request.method, Method::Get);
    assert_eq!(
        manifest_request.url,
        format!("http://127.0.0.1:4567/v2/test-repo/manifests/{}", TEST_DIGEST)
    );
    assert_eq!(
        manifest_request.headers,
        vec![
            bearer(),
            (
                "Accept".to_string(),
                "application/vnd.oci.image.manifest.v1+json".to_string()
            ),
        ]
    );

    let manifest = ImageManifest {
        media_type: "application/vnd.oci.image.manifest.v1+json".to_string(),
        config: descriptor("application/vnd.oci.image.config.v1+json", CONFIG_DIGEST, None),
        layers: Vec::new(),
    };
    assert_eq!(manifest.config.digest.to_string(), CONFIG_DIGEST);
    let config_request = client.get_config(&manifest.config.digest).unwrap();
    assert_eq!(
        config_request.url,
        format!("http://127.0.0.1:4567/v2/test-repo/blobs/{}", CONFIG_DIGEST)
    );
    assert_eq!(
        config_request.headers,
        vec![
            bearer(),
            (
                "Accept".to_string(),
                "application/vnd.oci.image.config.v1+json".to_string()
            ),
        ]
    );
}

#[test]
fn test_blob_operations() {
    let client = client();
    let digest = Digest::from_str(TEST_DIGEST).unwrap();

    let open = client.upload_blob().unwrap();
    assert_eq!(open.method, Method::Post);
    assert_eq!(open.url, "http://127.0.0.1:4567/v2/test-repo/blobs/uploads/");
    assert_eq!(open.headers, vec![bearer()]);
    assert_eq!(open.body, None);

    let mut session = response(
        202,
        &[("Location", "/v2/test-repo/blobs/uploads/test-upload")],
        b"",
    );
    session.url = open.url.clone();
    let put = client.upload_blob_put(&session, &digest, vec![1, 2, 3, 4]).unwrap();
    assert_eq!(put.method, Method::Put);
    assert_eq!(
        put.url,
        "http://127.0.0.1:4567/v2/test-repo/blobs/uploads/test-upload?digest=sha256%3A9f64a747e1b97f131fabb6b447296c9b6f0201e79fb3c5356e6c77e89b6a806a"
    );
    assert_eq!(
        put.headers,
        vec![
            bearer(),
            ("Content-Type".to_string(), "application/octet-stream".to_string()),
        ]
    );
    assert_eq!(put.body, Some(vec![1, 2, 3, 4]));
    assert_eq!(check_status(&response(201, &[], b"")), Ok(()));

    let head = client.has_blob(&digest).unwrap();
    assert_eq!(head.method, Method::Head);
    assert_eq!(
        head.url,
        format!("http://127.0.0.1:4567/v2/test-repo/blobs/{}", TEST_DIGEST)
    );
    assert!(RegistryClient::blob_exists(&response(200, &[], b"")));

    let get = client.get_binary_blob(&digest).unwrap();
    assert_eq!(get.method, Method::Get);
    assert_eq!(get.url, head.url);
    assert_eq!(get.headers, vec![bearer()]);
    let blob = response(200, &[], &[1, 2, 3, 4]);
    assert_eq!(check_status(&blob), Ok(()));
    assert_eq!(blob.body, &[1, 2, 3, 4]);
}

#[test]
fn blob_exists_only_on_200() {
    for status in [100, 201, 204, 301, 401, 404, 500] {
        assert!(!RegistryClient::blob_exists(&response(status, &[], b"")), "{status}");
    }
}

#[test]
fn status_outside_the_success_class_is_an_error() {
    for status in [200, 201, 202, 204, 299] {
        assert_eq!(check_status(&response(status, &[], b"")), Ok(()));
    }
    for status in [100, 199, 300, 304, 401, 404, 500, 503] {
        assert_eq!(
            check_status(&response(status, &[], b"")),
            Err(RegistryError::Status(status))
        );
    }
}

#[test]
fn upload_location_may_carry_a_query_and_may_be_absolute() {
    let client = client();
    let digest = Digest::from_str(TEST_DIGEST).unwrap();
    let mut session = response(
        202,
        &[("location", "http://other.example/upload/7?_state=abc")],
        b"",
    );
    session.url = "http://127.0.0.1:4567/v2/test-repo/blobs/uploads/".to_string();
    let put = client.upload_blob_put(&session, &digest, Vec::new()).unwrap();
    assert_eq!(
        put.url,
        "http://other.example/upload/7?_state=abc&digest=sha256%3A9f64a747e1b97f131fabb6b447296c9b6f0201e79fb3c5356e6c77e89b6a806a"
    );
}

#[test]
fn upload_fails_without_a_usable_location() {
    let client = client();
    let digest = Digest::from_str(TEST_DIGEST).unwrap();

    let refused = response(403, &[("Location", "/upload")], b"");
    assert_eq!(
        client.upload_blob_put(&refused, &digest, Vec::new()),
        Err(RegistryError::Status(403))
    );

    let missing = response(202, &[], b"");
    assert_eq!(
        client.upload_blob_put(&missing, &digest, Vec::new()),
        Err(RegistryError::MissingLocation)
    );

    let mut malformed = response(202, &[], b"");
    malformed.headers.push(("Location".to_string(), None));
    assert_eq!(
        client.upload_blob_put(&malformed, &digest, Vec::new()),
        Err(RegistryError::MalformedLocation)
    );

    let mut unusable = response(202, &[("Location", "/upload")], b"");
    unusable.url = "not an address".to_string();
    assert_eq!(
        client.upload_blob_put(&unusable, &digest, Vec::new()),
        Err(RegistryError::InvalidUrl)
    );
}

#[test]
fn upload_manifest_sends_the_body_under_the_media_type() {
    let client = client();
    let manifest = ImageManifest {
        media_type: "application/vnd.oci.image.manifest.v1+json".to_string(),
        config: descriptor("application/vnd.oci.image.config.v1+json", CONFIG_DIGEST, None),
        layers: Vec::new(),
    };
    let request = client.upload_manifest(&manifest, b"{}".to_vec(), "v1").unwrap();
    assert_eq!(request.method, Method::Put);
    assert_eq!(request.url, "http://127.0.0.1:4567/v2/test-repo/manifests/v1");
    assert_eq!(
        request.headers,
        vec![
            bearer(),
            (
                "Content-Type".to_string(),
                "application/vnd.oci.image.manifest.v1+json".to_string()
            ),
        ]
    );
    assert_eq!(request.body, Some(b"{}".to_vec()));
}

#[test]
fn manifest_digest_is_read_from_the_header() {
    let stored = response(201, &[("Docker-Content-Digest", TEST_DIGEST)], b"");
    assert_eq!(
        RegistryClient::manifest_digest(&stored).unwrap().as_str(),
        TEST_DIGEST
    );

    assert_eq!(
        RegistryClient::manifest_digest(&response(500, &[("docker-content-digest", TEST_DIGEST)], b"")),
        Err(RegistryError::Status(500))
    );
    assert_eq!(
        RegistryClient::manifest_digest(&response(201, &[], b"")),
        Err(RegistryError::MissingDigest)
    );
    assert_eq!(
        RegistryClient::manifest_digest(&response(201, &[("docker-content-digest", "sha256:short")], b"")),
        Err(RegistryError::MalformedDigest)
    );
    let mut not_text = response(201, &[], b"");
    not_text.headers.push(("docker-content-digest".to_string(), None));
    assert_eq!(
        RegistryClient::manifest_digest(&not_text),
        Err(RegistryError::MalformedDigest)
    );
}

#[test]
fn first_header_of_a_name_counts() {
    let r = response(200, &[("X-A", "1"), ("location", "first"), ("Location", "second")], b"");
    assert_eq!(r.header_position("LOCATION"), Some(1));
    assert_eq!(r.header_position("x-a"), Some(0));
    assert_eq!(r.header_position("x-b"), None);
    assert!(r.succeeded());
    assert!(names_match("Content-Type", "content-type"));
    assert!(!names_match("Content-Type", "content_type"));
    assert!(!names_match("Content-Type", "Content-Typ"));
    assert!(!names_match("@", "`"));
}

#[test]
fn new_turns_authorization_into_credentials() {
    let user = RegistryClient::new(
        Scheme::Https,
        "registry.io",
        "repo",
        &Authorization::UserPassword("user".to_string(), "pass".to_string()),
        ClientScope::Pull,
    );
    assert_eq!(user.credentials, Some(("user".to_string(), "pass".to_string())));
    assert_eq!(user.scheme, Scheme::Https);
    assert_eq!(user.registry, "registry.io");
    assert_eq!(user.repo, "repo");
    assert_eq!(user.scope, ClientScope::Pull);

    let token = RegistryClient::new(
        Scheme::Https,
        "registry.io",
        "repo",
        &Authorization::Token("secret".to_string()),
        ClientScope::Push,
    );
    assert_eq!(token.credentials, Some((String::new(), "secret".to_string())));

    let nobody = RegistryClient::new(
        Scheme::Https,
        "registry.io",
        "repo",
        &Authorization::Anonymous,
        ClientScope::Push,
    );
    assert_eq!(nobody.credentials, None);
    assert_eq!(
        nobody,
        RegistryClient::anonymous(Scheme::Https, "registry.io", "repo", ClientScope::Push)
    );
}

#[test]
fn probe_and_discovery_requests() {
    let handshake = RegistryClient::anonymous(Scheme::Https, "registry.io", "library/app", ClientScope::Pull);
    assert_eq!(
        handshake.probe_request().unwrap(),
        Request::get("https://registry.io/v2/".to_string(), None)
    );
    assert_eq!(
        handshake.discovery_request("latest").unwrap().url,
        "https://registry.io/v2/library/app/manifests/latest"
    );
    let broken = RegistryClient::anonymous(Scheme::Https, "not a host", "repo", ClientScope::Pull);
    assert_eq!(broken.probe_request(), Err(RegistryError::InvalidUrl));
    assert_eq!(broken.discovery_request("latest"), Err(RegistryError::InvalidUrl));
}

#[test]
fn refusal_must_name_the_token_service() {
    let handshake: Handshake =
        RegistryClient::anonymous(Scheme::Https, "registry.io", "repo", ClientScope::Pull);

    assert_eq!(
        handshake.probe_for_token_endpoint(&response(401, &[], b"")),
        Err(RegistryError::MissingChallenge)
    );
    assert_eq!(
        handshake.probe_for_token_endpoint(&response(401, &[("www-authenticate", "Basic realm=\"x\"")], b"")),
        Err(RegistryError::MalformedChallenge)
    );
    let mut not_text = response(401, &[], b"");
    not_text.headers.push(("WWW-Authenticate".to_string(), None));
    assert_eq!(
        handshake.probe_for_token_endpoint(&not_text),
        Err(RegistryError::MalformedChallenge)
    );
    assert_eq!(
        handshake.probe_for_token_endpoint(&response(
            401,
            &[("WWW-Authenticate", "Bearer realm=\"no address\",service=\"s\"")],
            b""
        )),
        Err(RegistryError::InvalidUrl)
    );
    assert_eq!(
        handshake
            .probe_for_token_endpoint(&response(
                401,
                &[("WWW-Authenticate", "Bearer realm=\"https://auth.io/token\",service=\"registry.io\"")],
                b""
            ))
            .unwrap(),
        "https://auth.io/token?service=registry.io"
    );
    assert_eq!(
        handshake.probe_for_token_endpoint(&response(200, &[], b"")).unwrap(),
        "https://registry.io/v2/token"
    );
}

#[test]
fn token_is_read_from_the_response() {
    assert_eq!(
        extract_token(&response(200, &[], br#"{"token":"abc","expires_in":300}"#)).unwrap(),
        "abc"
    );
    assert_eq!(
        extract_token(&response(401, &[], br#"{"token":"abc"}"#)),
        Err(RegistryError::Status(401))
    );
    assert_eq!(
        extract_token(&response(200, &[], b"not json")),
        Err(RegistryError::InvalidJson)
    );
    assert_eq!(
        extract_token(&response(200, &[], br#"{"access_token":"abc"}"#)),
        Err(RegistryError::MissingToken)
    );
    assert_eq!(
        extract_token(&response(200, &[], br#"{"token":42}"#)),
        Err(RegistryError::MissingToken)
    );
    assert_eq!(
        extract_token(&response(200, &[], br#"["token"]"#)),
        Err(RegistryError::MissingToken)
    );
    assert_eq!(token_of_member(Some("t".to_string())), Ok("t".to_string()));
    assert_eq!(token_of_member(None), Err(RegistryError::MissingToken));
}

#[test]
fn finish_fails_as_the_token_response_does() {
    let handshake = RegistryClient::anonymous(Scheme::Https, "registry.io", "repo", ClientScope::Pull);
    assert_eq!(
        handshake.finish(&response(403, &[], b"")),
        Err(RegistryError::Status(403))
    );
}

#[test]
fn challenge_is_found_wherever_it_begins() {
    assert_eq!(
        parse_challenge("Bearer realm=\"https://auth.io/token\",service=\"registry.io\""),
        Some(BearerChallenge {
            realm: "https://auth.io/token".to_string(),
            service: "registry.io".to_string(),
        })
    );
    assert_eq!(
        parse_challenge("Basic x, Bearer realm=\"r\",service=\"s\",scope=\"repository:a:pull\""),
        Some(BearerChallenge { realm: "r".to_string(), service: "s".to_string() })
    );
    assert_eq!(
        parse_challenge("Bearer realm=\"\",service=\"s\" Bearer realm=\"r2\",service=\"s2\""),
        Some(BearerChallenge { realm: "r2".to_string(), service: "s2".to_string() })
    );
    assert_eq!(
        parse_challenge("Bearer realm=\"r\u{e9}alm\",service=\"\u{1f600}\""),
        Some(BearerChallenge { realm: "r\u{e9}alm".to_string(), service: "\u{1f600}".to_string() })
    );
}

#[test]
fn challenge_of_another_form_is_none() {
    for text in [
        "",
        "Bearer",
        "Bearer realm=\"r\"",
        "Bearer realm=\"r\",service=\"\"",
        "Bearer realm=\"r\",service=\"s",
        "Bearer realm=\"r\", service=\"s\"",
        "Bearer service=\"s\",realm=\"r\"",
        "bearer realm=\"r\",service=\"s\"",
        "Bearer realm=r,service=s",
    ] {
        assert_eq!(parse_challenge(text), None, "{text}");
    }
}

#[test]
fn first_manifest_for_the_platform_is_selected() {
    let index = ImageIndex {
        manifests: vec![
            descriptor("m", TEST_DIGEST, None),
            descriptor("m", TEST_DIGEST, Some(("arm64", "linux"))),
            descriptor("m", CONFIG_DIGEST, Some(("amd64", "linux"))),
            descriptor("m", TEST_DIGEST, Some(("amd64", "linux"))),
            descriptor("m", TEST_DIGEST, Some(("amd64", "windows"))),
        ],
    };
    assert_eq!(select_manifest(&index, "amd64", "linux"), Some(2));
    assert_eq!(select_manifest(&index, "arm64", "linux"), Some(1));
    assert_eq!(select_manifest(&index, "amd64", "windows"), Some(4));
    assert_eq!(select_manifest(&index, "arm64", "windows"), None);
    assert_eq!(select_manifest(&index, "AMD64", "linux"), None);
    assert_eq!(select_manifest(&ImageIndex { manifests: Vec::new() }, "amd64", "linux"), None);

    let client = client();
    assert_eq!(
        client.get_tag_for_target(&index, "amd64", "linux").unwrap().url,
        format!("http://127.0.0.1:4567/v2/test-repo/manifests/{}", CONFIG_DIGEST)
    );
    assert_eq!(
        client.get_tag_for_target(&index, "riscv64", "linux"),
        Err(RegistryError::NotFound)
    );
}

#[test]
fn requests_fail_on_an_address_that_cannot_be_formed() {
    let mut client = client();
    client.registry = "not a host".to_string();
    let digest = Digest::from_str(TEST_DIGEST).unwrap();
    assert_eq!(client.repo_url(), Err(RegistryError::InvalidUrl));
    assert_eq!(client.get_manifest(&digest), Err(RegistryError::InvalidUrl));
    assert_eq!(client.has_blob(&digest), Err(RegistryError::InvalidUrl));
    assert_eq!(client.upload_blob(), Err(RegistryError::InvalidUrl));
}

#[test]
fn repo_url_ends_in_a_slash() {
    assert_eq!(client().repo_url().unwrap(), "http://127.0.0.1:4567/v2/test-repo/");
    let https = RegistryClient {
        scheme: Scheme::Https,
        registry: "Registry.IO".to_string(),
        repo: "library/app".to_string(),
        token: String::new(),
    };
    assert_eq!(https.repo_url().unwrap(), "https://registry.io/v2/library/app/");
}

#[test]
fn authorized_puts_the_token_first() {
    let request = client().authorized(
        Method::Get,
        "http://x/".to_string(),
        vec![("Accept".to_string(), "a/b".to_string())],
        None,
    );
    assert_eq!(
        request,
        Request {
            method: Method::Get,
            url: "http://x/".to_string(),
            headers: vec![bearer(), ("Accept".to_string(), "a/b".to_string())],
            basic_auth: None,
            body: None,
        }
    );
}

#[test]
fn scope_and_scheme_names() {
    assert_eq!(ClientScope::Push.to_string(), "push");
    assert_eq!(ClientScope::Pull.to_string(), "pull");
    assert_eq!(ClientScope::Push.as_str(), "push");
    assert_eq!(Scheme::Http.as_str(), "http");
    assert_eq!(Scheme::Https.as_str(), "https");
}
