//! What is asked of the fleet's controller, and what its answers are taken for.
use crate::agent::owner::Runtime;
use crate::agent::owner::RuntimeView;
use crate::failure::{fail, first_of, refusal, unless, Failure};
use crate::identity;
use crate::json::{
    at, field, field_views, flag_of, json_text, list_of, object, pair, parse, parsed_json, text_of,
    Json, JsonView,
};
use crate::paths;
use crate::policy::Resources;
use crate::storage::{sum_gib, total_gib};
use crate::store::{Configuration, ConfigurationView};
use crate::text;
use crate::values::{content, contents, copy_option, options_alike, Plain};
use vstd::prelude::*;
use vstd::utf8::encode_utf8;

verus! {

/// What a URL is made of.
#[derive(Debug)]
pub struct UrlParts {
    pub scheme: String,
    pub host: Option<String>,
    pub username: String,
    pub password: Option<String>,
    pub query: Option<String>,
    pub fragment: Option<String>,
    pub text: String,
}

/// The content of a `UrlParts`.
#[verifier::ext_equal]
pub struct UrlPartsView {
    pub scheme: Seq<char>,
    pub host: Option<Seq<char>>,
    pub username: Seq<char>,
    pub password: Option<Seq<char>>,
    pub query: Option<Seq<char>>,
    pub fragment: Option<Seq<char>>,
    pub text: Seq<char>,
}

impl View for UrlParts {
    type V = UrlPartsView;

    open spec fn view(&self) -> UrlPartsView {
        UrlPartsView {
            scheme: self.scheme@,
            host: content(self.host),
            username: self.username@,
            password: content(self.password),
            query: content(self.query),
            fragment: content(self.fragment),
            text: self.text@,
        }
    }
}

impl Plain for UrlParts {
    fn duplicate(&self) -> (r: Self) {
        UrlParts {
            scheme: self.scheme.clone(),
            host: copy_option(&self.host),
            username: self.username.clone(),
            password: copy_option(&self.password),
            query: copy_option(&self.query),
            fragment: copy_option(&self.fragment),
            text: self.text.clone(),
        }
    }

    fn alike(&self, other: &Self) -> (r: bool) {
        self.scheme.alike(&other.scheme)
            && options_alike(&self.host, &other.host)
            && self.username.alike(&other.username)
            && options_alike(&self.password, &other.password)
            && options_alike(&self.query, &other.query)
            && options_alike(&self.fragment, &other.fragment)
            && self.text.alike(&other.text)
    }
}

impl Clone for UrlParts {
    fn clone(&self) -> (r: Self)
        ensures
            r@ == self@,
    {
        self.duplicate()
    }
}

/// The parts of the URL that `reqwest::Url::parse` reads from a text.
pub uninterp spec fn parsed_url(text: Seq<char>) -> Option<UrlPartsView>;

/// `reqwest::Url::parse`: the parts of the URL that the text holds, by the
/// accessors of `reqwest::Url`, or nothing where the text is no URL.
#[verifier::external_body]
fn parse_url(text: &str) -> (r: Option<UrlParts>)
    ensures
        content(r) == parsed_url(text@),
{
    let url = reqwest::Url::parse(text).ok()?;
    Some(UrlParts {
        scheme: url.scheme().to_owned(),
        host: url.host_str().map(str::to_owned),
        username: url.username().to_owned(),
        password: url.password().map(str::to_owned),
        query: url.query().map(str::to_owned),
        fragment: url.fragment().map(str::to_owned),
        text: url.as_str().to_owned(),
    })
}

/// Whether a host is this computer.
pub open spec fn is_local_host(host: Option<Seq<char>>) -> bool {
    host matches Some(h) && (h == "127.0.0.1"@ || h == "localhost"@ || h == "[::1]"@)
}

/// A text without the slashes at its end.
pub open spec fn without_slashes(t: Seq<char>) -> Seq<char>
    decreases t.len(),
{
    if t.len() > 0 && t.last() == '/' {
        without_slashes(t.drop_last())
    } else {
        t
    }
}

fn trim_slashes(t: &str) -> (r: String)
    ensures
        r@ == without_slashes(t@),
{
    let chars = text::chars_of(t);
    let mut end: usize = chars.len();
    assert(chars@.take(end as int) =~= chars@);
    while end > 0 && chars[end - 1] == '/'
        invariant
            end <= chars@.len(),
            without_slashes(chars@.take(end as int)) == without_slashes(chars@),
        decreases end,
    {
        assert(chars@.take(end as int).drop_last() =~= chars@.take(end - 1));
        end = end - 1;
    }
    let kept = text::slice_of(chars.as_slice(), 0, end);
    assert(kept@ =~= chars@.take(end as int));
    text::string_of(kept.as_slice())
}

/// Why no fleet is controlled from a URL.
pub open spec fn address_refusal(url: Option<UrlPartsView>) -> Option<Seq<char>> {
    match url {
        None => Some("Enter a valid controller URL"@),
        Some(u) => first_of(
            unless(
                u.scheme == "https"@ || (u.scheme == "http"@ && is_local_host(u.host)),
                "Use HTTPS for the fleet controller"@,
            ),
            unless(
                u.username.len() == 0 && u.password is None && u.query is None && u.fragment
                    is None,
                "The controller URL cannot contain credentials, query parameters, or fragments"@,
            ),
        ),
    }
}

fn local_host(host: &Option<String>) -> (r: bool)
    ensures
        r == is_local_host(content(*host)),
{
    match host {
        Some(h) => text::same(h.as_str(), "127.0.0.1") || text::same(h.as_str(), "localhost")
            || text::same(h.as_str(), "[::1]"),
        None => false,
    }
}

/// The address of the controller under a URL: HTTPS, or this computer.
pub fn controller_address(url: Option<&UrlParts>) -> (r: Result<String, Failure>)
    ensures
        refusal(r) == address_refusal(
            match url {
                Some(u) => Some(u@),
                None => None,
            },
        ),
        r matches Ok(address) ==> address@ == without_slashes(url->0@.text),
{
    match url {
        None => Err(fail("Enter a valid controller URL")),
        Some(u) => {
            let safe = text::same(u.scheme.as_str(), "https") || (text::same(
                u.scheme.as_str(),
                "http",
            ) && local_host(&u.host));
            if !safe {
                return Err(fail("Use HTTPS for the fleet controller"));
            }
            let unnamed = text::same(u.username.as_str(), "");
            proof {
                reveal_strlit("");
                assert(u.username@.len() == 0 ==> u.username@ =~= ""@);
            }
            if !unnamed || u.password.is_some() || u.query.is_some() || u.fragment.is_some() {
                return Err(
                    fail(
                        "The controller URL cannot contain credentials, query parameters, or fragments",
                    ),
                );
            }
            Ok(trim_slashes(u.text.as_str()))
        },
    }
}

/// What a new member asks of the controller.
pub open spec fn enrollment_json(
    code: Seq<char>,
    name: Seq<char>,
    platform: Seq<char>,
    architecture: Seq<char>,
) -> JsonView {
    JsonView::Object(
        seq![
            ("architecture"@, JsonView::Text(architecture)),
            ("code"@, JsonView::Text(text::trim(code))),
            ("name"@, JsonView::Text(name)),
            ("platform"@, JsonView::Text(platform)),
        ],
    )
}

/// Why this computer cannot join the fleet of a URL.
pub open spec fn enrollment_refusal(c: ConfigurationView, url: Option<UrlPartsView>) -> Option<
    Seq<char>,
> {
    first_of(
        address_refusal(url),
        unless(
            c.device_token is None,
            "This computer is already enrolled; existing enrollment has been preserved"@,
        ),
    )
}

/// The address of the controller and what is asked of it, for a URL in its parts.
pub fn prepare_enrollment(
    config: &Configuration,
    url: Option<&UrlParts>,
    code: &str,
    platform: &str,
    architecture: &str,
) -> (r: Result<(String, Json), Failure>)
    ensures
        refusal(r) == enrollment_refusal(
            config@,
            match url {
                Some(u) => Some(u@),
                None => None,
            },
        ),
        r matches Ok(request) ==> request.0@ == without_slashes(url->0@.text) && request.1@
            == enrollment_json(code@, config@.name, platform@, architecture@),
{
    let address = match controller_address(url) {
        Ok(address) => address,
        Err(e) => {
            return Err(e);
        },
    };
    if config.device_token.is_some() {
        return Err(
            fail("This computer is already enrolled; existing enrollment has been preserved"),
        );
    }
    let trimmed = text::trim_text(code);
    let mut fields: Vec<(String, Json)> = Vec::new();
    fields.push(pair("architecture", json_text(architecture)));
    fields.push(pair("code", json_text(trimmed.as_str())));
    fields.push(pair("name", json_text(config.name.as_str())));
    fields.push(pair("platform", json_text(platform)));
    assert(field_views(fields@) =~= seq![
        ("architecture"@, JsonView::Text(architecture@)),
        ("code"@, JsonView::Text(text::trim(code@))),
        ("name"@, JsonView::Text(config@.name)),
        ("platform"@, JsonView::Text(platform@)),
    ]);
    Ok((address, object(fields)))
}

/// The address of the controller and what is asked of it, for the URL that the
/// owner entered.
pub fn begin_enrollment(
    config: &Configuration,
    url: &str,
    code: &str,
    platform: &str,
    architecture: &str,
) -> (r: Result<(String, Json), Failure>)
    ensures
        refusal(r) == enrollment_refusal(config@, parsed_url(text::trim(url@))),
        r matches Ok(request) ==> request.0@ == without_slashes(
            parsed_url(text::trim(url@))->0.text,
        ) && request.1@ == enrollment_json(code@, config@.name, platform@, architecture@),
{
    let trimmed = text::trim_text(url);
    let parts = parse_url(trimmed.as_str());
    prepare_enrollment(config, parts.as_ref(), code, platform, architecture)
}

/// Where a new member asks.
pub fn enrollment_address(address: &str) -> (r: String)
    ensures
        r@ == address@ + "/api/v1/enroll"@,
{
    text::join2(address, "/api/v1/enroll")
}

/// What the controller gives to a new member of its fleet.
#[derive(Debug)]
pub struct Enrollment {
    pub device_id: String,
    pub token: String,
}

/// The content of a `Enrollment`.
#[verifier::ext_equal]
pub struct EnrollmentView {
    pub device_id: Seq<char>,
    pub token: Seq<char>,
}

impl View for Enrollment {
    type V = EnrollmentView;

    open spec fn view(&self) -> EnrollmentView {
        EnrollmentView {
            device_id: self.device_id@,
            token: self.token@,
        }
    }
}

impl Plain for Enrollment {
    fn duplicate(&self) -> (r: Self) {
        Enrollment {
            device_id: self.device_id.clone(),
            token: self.token.clone(),
        }
    }

    fn alike(&self, other: &Self) -> (r: bool) {
        self.device_id.alike(&other.device_id)
            && self.token.alike(&other.token)
    }
}

impl Clone for Enrollment {
    fn clone(&self) -> (r: Self)
        ensures
            r@ == self@,
    {
        self.duplicate()
    }
}

/// What an answer gives to a new member, or why it gives nothing.
pub open spec fn enrollment_given(reply: JsonView) -> Result<EnrollmentView, Seq<char>> {
    match text_of(at(reply, "deviceId"@)) {
        None => Err("The controller returned no device identity"@),
        Some(id) => if identity::identity_refusal(id) is Some {
            Err(identity::identity_refusal(id)->0)
        } else {
            match text_of(at(reply, "token"@)) {
                Some(token) => if encode_utf8(token).len() >= 32 {
                    Ok(EnrollmentView { device_id: id, token })
                } else {
                    Err("The controller returned an invalid device credential"@)
                },
                None => Err("The controller returned an invalid device credential"@),
            }
        },
    }
}

/// What an answer gives to a new member.
pub fn enrollment_reply(reply: &Json) -> (r: Result<Enrollment, Failure>)
    ensures
        match enrollment_given(reply@) {
            Ok(given) => r matches Ok(e) && e@ == given,
            Err(message) => refusal(r) == Some(message),
        },
{
    let id = match reply.field_text("deviceId") {
        Some(id) => id,
        None => {
            return Err(fail("The controller returned no device identity"));
        },
    };
    match identity::identity_value(id) {
        Ok(_) => {},
        Err(e) => {
            return Err(e);
        },
    }
    match reply.field_text("token") {
        Some(token) => if paths::byte_len(token) >= 32 {
            return Ok(Enrollment { device_id: id.to_owned(), token: token.to_owned() });
        },
        None => {},
    }
    Err(fail("The controller returned an invalid device credential"))
}

/// Join the fleet at an address.
pub fn enroll(config: &mut Configuration, given: &Enrollment, address: &str) -> (r: Result<
    (),
    Failure,
>)
    ensures
        refusal(r) == unless(
            old(config)@.device_token is None,
            "This computer was already enrolled"@,
        ),
        final(config)@ == (if r is Ok {
            ConfigurationView {
                device_id: given@.device_id,
                device_token: Some(given@.token),
                controller_url: Some(address@),
                ..old(config)@
            }
        } else {
            old(config)@
        }),
{
    if config.device_token.is_some() {
        return Err(fail("This computer was already enrolled"));
    }
    config.device_id = given.device_id.clone();
    config.device_token = Some(given.token.clone());
    config.controller_url = Some(address.to_owned());
    Ok(())
}

/// A computer joins a fleet once: no later answer replaces its identity.
pub proof fn enrollment_is_kept(c: ConfigurationView, url: Option<UrlPartsView>, token: Seq<char>)
    requires
        address_refusal(url) is None,
    ensures
        enrollment_refusal((ConfigurationView { device_token: Some(token), ..c }), url) == Some(
            "This computer is already enrolled; existing enrollment has been preserved"@,
        ),
{
}

/// Credentials never leave this computer over a connection that others can read.
pub proof fn controllers_are_reached_safely(url: UrlPartsView)
    requires
        address_refusal(Some(url)) is None,
    ensures
        url.scheme == "https"@ || is_local_host(url.host),
        url.password is None,
{
}

/// Where and with which credential a member asks, or why it cannot.
pub open spec fn target(c: ConfigurationView, path: Seq<char>) -> Result<
    (Seq<char>, Seq<char>),
    Seq<char>,
> {
    match (c.controller_url, c.device_token) {
        (None, _) => Err("This computer is not connected"@),
        (Some(_), None) => Err("No device credential is saved"@),
        (Some(url), Some(token)) => Ok((url + "/api/v1"@ + path, token)),
    }
}

/// Where and with which credential a member asks.
pub fn request_target(config: &Configuration, path: &str) -> (r: Result<(String, String), Failure>)
    ensures
        match target(config@, path@) {
            Ok(t) => r matches Ok(made) && made.0@ == t.0 && made.1@ == t.1,
            Err(message) => refusal(r) == Some(message),
        },
{
    match (&config.controller_url, &config.device_token) {
        (None, _) => Err(fail("This computer is not connected")),
        (Some(_), None) => Err(fail("No device credential is saved")),
        (Some(url), Some(token)) => Ok(
            (text::join3(url.as_str(), "/api/v1", path), token.clone()),
        ),
    }
}

/// The longest answer that is read.
pub const RESPONSE_LIMIT: u64 = 1_048_576;

/// Whether an answer of an announced length is read.
pub fn check_response_length(length: Option<u64>) -> (r: Result<(), Failure>)
    ensures
        refusal(r) == unless(
            length matches Some(n) ==> n <= RESPONSE_LIMIT,
            "The controller response is too large"@,
        ),
{
    let fits = match length {
        Some(n) => n <= RESPONSE_LIMIT,
        None => true,
    };
    if fits {
        Ok(())
    } else {
        Err(fail("The controller response is too large"))
    }
}

/// Add a piece of an answer.
pub fn add_response(body: &mut Vec<u8>, piece: &[u8]) -> (r: Result<(), Failure>)
    ensures
        refusal(r) == unless(
            old(body)@.len() + piece@.len() <= RESPONSE_LIMIT,
            "The controller response is too large"@,
        ),
        final(body)@ == (if r is Ok {
            old(body)@ + piece@
        } else {
            old(body)@
        }),
{
    match (body.len() as u64).checked_add(piece.len() as u64) {
        Some(size) => if size <= RESPONSE_LIMIT {
            body.extend_from_slice(piece);
            return Ok(());
        },
        None => {},
    }
    Err(fail("The controller response is too large"))
}

/// The text that `reqwest::StatusCode` gives for a status.
pub uninterp spec fn status_line(code: u16) -> Seq<char>;

/// `reqwest::StatusCode`: the number of a status with the reason it stands for.
/// Every number of three digits is a status.
#[verifier::external_body]
fn status_text(code: u16) -> (r: String)
    requires
        100 <= code < 1000,
    ensures
        r@ == status_line(code),
{
    match reqwest::StatusCode::from_u16(code) {
        Ok(status) => status.to_string(),
        Err(_) => String::new(),
    }
}

/// Why a refused request was refused.
pub open spec fn error_of(reply: JsonView) -> Seq<char> {
    match text_of(at(reply, "error"@)) {
        Some(error) => error,
        None => "The controller could not complete this request"@,
    }
}

/// Whether a status stands for success.
pub open spec fn is_success(status: u16) -> bool {
    200 <= status < 300
}

/// The document of an answer, or the refusal that it holds. The status is told
/// in words.
pub fn accept_response(status: u16, words: &str, reply: Option<Json>) -> (r: Result<Json, Failure>)
    ensures
        refusal(r) == (match reply {
            None => Some("The controller returned an unreadable response"@),
            Some(reply) => unless(
                is_success(status),
                error_of(reply@) + " ("@ + words@ + ")"@,
            ),
        }),
        r matches Ok(j) ==> reply == Some(j),
{
    match reply {
        None => Err(fail("The controller returned an unreadable response")),
        Some(reply) => {
            if 200 <= status && status < 300 {
                return Ok(reply);
            }
            let message = match reply.field_text("error") {
                Some(error) => text::join4(error, " (", words, ")"),
                None => text::join4(
                    "The controller could not complete this request",
                    " (",
                    words,
                    ")",
                ),
            };
            Err(Failure { message })
        },
    }
}

/// The document of an answer, or the refusal that it holds.
pub fn check_response(status: u16, body: &[u8]) -> (r: Result<Json, Failure>)
    requires
        100 <= status < 1000,
    ensures
        refusal(r) == (match parsed_json(body@) {
            Err(_) => Some("The controller returned an unreadable response"@),
            Ok(reply) => unless(
                is_success(status),
                error_of(reply) + " ("@ + status_line(status) + ")"@,
            ),
        }),
        r matches Ok(j) ==> parsed_json(body@) == Ok::<JsonView, Seq<char>>(j@),
{
    let words = status_text(status);
    let reply = match parse(body) {
        Ok(reply) => Some(reply),
        Err(_) => None,
    };
    accept_response(status, words.as_str(), reply)
}

/// The members of a fleet, as an answer lists them.
pub fn fleet_members(reply: &Json) -> (r: Result<&Vec<Json>, Failure>)
    ensures
        match list_of(reply@) {
            Some(members) => r matches Ok(v) && crate::json::json_views(v@) == members,
            None => refusal(r) == Some("The controller returned an invalid fleet response"@),
        },
{
    match reply.as_list() {
        Some(members) => Ok(members),
        None => Err(fail("The controller returned an invalid fleet response")),
    }
}

/// Why an item names no system pod.
pub open spec fn pod_refusal(item: JsonView) -> Option<Seq<char>> {
    match text_of(item) {
        None => Some("Missing system pod identity"@),
        Some(uid) => unless(identity::is_identity(uid), "Invalid system pod identity"@),
    }
}

/// The identities of the first `n` pods, or why one of them has none.
pub open spec fn pods_of(items: Seq<JsonView>, n: int) -> Result<Seq<Seq<char>>, Seq<char>>
    decreases n,
{
    if n <= 0 {
        Ok(Seq::empty())
    } else {
        match pods_of(items, n - 1) {
            Err(e) => Err(e),
            Ok(earlier) => match pod_refusal(items[n - 1]) {
                Some(e) => Err(e),
                None => Ok(earlier.push(text_of(items[n - 1])->0)),
            },
        }
    }
}

/// The identities of the system pods that an answer lists.
pub open spec fn system_pods(reply: JsonView) -> Result<Seq<Seq<char>>, Seq<char>> {
    match field(reply, "systemPodUids"@) {
        None => Ok(Seq::empty()),
        Some(listed) => match list_of(listed) {
            None => Err("The controller returned an invalid system pod inventory"@),
            Some(items) => if items.len() > 16 {
                Err("The controller returned too many system pods"@)
            } else {
                pods_of(items, items.len() as int)
            },
        },
    }
}

proof fn lemma_pods_fail(items: Seq<JsonView>, i: int, n: int)
    requires
        0 <= i <= n,
        pods_of(items, i) is Err,
    ensures
        pods_of(items, n) == pods_of(items, i),
    decreases n,
{
    if i < n {
        lemma_pods_fail(items, i, n - 1);
    }
}

/// The identities of the system pods that an answer lists.
pub fn system_pod_uids(reply: &Json) -> (r: Result<Vec<String>, Failure>)
    ensures
        match system_pods(reply@) {
            Ok(uids) => r matches Ok(v) && contents(v@) == uids,
            Err(message) => refusal(r) == Some(message),
        },
{
    let mut r: Vec<String> = Vec::new();
    let listed = match reply.get("systemPodUids") {
        Some(listed) => listed,
        None => {
            assert(contents(r@) =~= Seq::<Seq<char>>::empty());
            return Ok(r);
        },
    };
    let items = match listed.as_list() {
        Some(items) => items,
        None => {
            return Err(fail("The controller returned an invalid system pod inventory"));
        },
    };
    let ghost all = crate::json::json_views(items@);
    if items.len() > 16 {
        return Err(fail("The controller returned too many system pods"));
    }
    assert(contents(r@) =~= Seq::<Seq<char>>::empty());
    for i in 0..items.len()
        invariant
            all == crate::json::json_views(items@),
            pods_of(all, i as int) == Ok::<Seq<Seq<char>>, Seq<char>>(contents(r@)),
            system_pods(reply@) == pods_of(all, all.len() as int),
    {
        assert(all[i as int] == items@[i as int]@);
        let uid = match items[i].as_text() {
            Some(uid) => uid,
            None => {
                proof {
                    lemma_pods_fail(all, i + 1, all.len() as int);
                }
                return Err(fail("Missing system pod identity"));
            },
        };
        if !identity::names_device(uid) {
            proof {
                lemma_pods_fail(all, i + 1, all.len() as int);
            }
            return Err(fail("Invalid system pod identity"));
        }
        let ghost before = contents(r@);
        r.push(uid.to_owned());
        assert(contents(r@) =~= before.push(uid@));
    }
    Ok(r)
}

/// What the fleet is told of this computer, besides its configuration.
#[derive(Debug)]
pub struct Beat {
    pub storage_generation: u64,
    pub state: String,
    pub reason: String,
    pub resources: Resources,
    pub allow_ci: bool,
    pub allow_services: bool,
    pub permitted: bool,
}

/// The content of a `Beat`.
#[verifier::ext_equal]
pub struct BeatView {
    pub storage_generation: u64,
    pub state: Seq<char>,
    pub reason: Seq<char>,
    pub resources: Resources,
    pub allow_ci: bool,
    pub allow_services: bool,
    pub permitted: bool,
}

impl View for Beat {
    type V = BeatView;

    open spec fn view(&self) -> BeatView {
        BeatView {
            storage_generation: self.storage_generation,
            state: self.state@,
            reason: self.reason@,
            resources: self.resources,
            allow_ci: self.allow_ci,
            allow_services: self.allow_services,
            permitted: self.permitted,
        }
    }
}

impl Plain for Beat {
    fn duplicate(&self) -> (r: Self) {
        Beat {
            storage_generation: self.storage_generation,
            state: self.state.clone(),
            reason: self.reason.clone(),
            resources: self.resources,
            allow_ci: self.allow_ci,
            allow_services: self.allow_services,
            permitted: self.permitted,
        }
    }

    fn alike(&self, other: &Self) -> (r: bool) {
        self.storage_generation == other.storage_generation
            && self.state.alike(&other.state)
            && self.reason.alike(&other.reason)
            && self.resources == other.resources
            && self.allow_ci == other.allow_ci
            && self.allow_services == other.allow_services
            && self.permitted == other.permitted
    }
}

impl Clone for Beat {
    fn clone(&self) -> (r: Self)
        ensures
            r@ == self@,
    {
        self.duplicate()
    }
}

/// The resources that this computer offers to its fleet: no disk while its
/// storage is off, away or in maintenance.
pub open spec fn offered(c: ConfigurationView) -> Resources {
    if c.storage_lifecycle.disabled || c.storage_lifecycle.missing is Some
        || c.storage_lifecycle.maintenance is Some {
        Resources { disk_gib: 0, ..c.policy.resources }
    } else if c.storage_locations.len() > 0 {
        Resources { disk_gib: total_gib(c.storage_locations) as u64, ..c.policy.resources }
    } else {
        c.policy.resources
    }
}

/// Whether the fleet may use this computer, given what the owner's rules say.
pub open spec fn permitted(c: ConfigurationView, allowed: bool) -> bool {
    allowed && !c.application_update_pending && c.storage_operation is None
        && c.storage_lifecycle.maintenance is None && !c.storage_lifecycle.disabled
        && c.storage_lifecycle.missing is None && c.remote.pending is None
        && !c.remote.repair_required
}

/// What the fleet is told of this computer, given what the owner's rules say.
pub open spec fn beat_of(c: ConfigurationView, runtime: RuntimeView, allowed: bool) -> BeatView {
    BeatView {
        storage_generation: c.storage_generation,
        state: match runtime.state {
            Some(state) => state,
            None => "paused"@,
        },
        reason: if c.storage_lifecycle.missing is Some || c.storage_lifecycle.maintenance is Some {
            "Storage maintenance; see this computer for details"@
        } else {
            match runtime.reason {
                Some(reason) => reason,
                None => ""@,
            }
        },
        resources: offered(c),
        allow_ci: c.policy.allow_ci,
        allow_services: c.policy.allow_services,
        permitted: permitted(c, allowed),
    }
}

fn offer(config: &Configuration) -> (r: Resources)
    requires
        total_gib(config@.storage_locations) <= u64::MAX,
    ensures
        r == offered(config@),
{
    let mut resources = config.policy.resources;
    if config.storage_lifecycle.disabled || config.storage_lifecycle.missing.is_some()
        || config.storage_lifecycle.maintenance.is_some() {
        resources.disk_gib = 0;
    } else if config.storage_locations.len() > 0 {
        resources.disk_gib = sum_gib(config.storage_locations.as_slice());
    }
    resources
}

/// What the fleet is told of this computer, given what the owner's rules say.
pub fn beat(config: &Configuration, runtime: &Runtime, allowed: bool) -> (r: Beat)
    requires
        total_gib(config@.storage_locations) <= u64::MAX,
    ensures
        r@ == beat_of(config@, runtime@, allowed),
{
    let state = match &runtime.state {
        Some(state) => state.clone(),
        None => "paused".to_owned(),
    };
    let reason = if config.storage_lifecycle.missing.is_some()
        || config.storage_lifecycle.maintenance.is_some() {
        "Storage maintenance; see this computer for details".to_owned()
    } else {
        match &runtime.reason {
            Some(reason) => reason.clone(),
            None => "".to_owned(),
        }
    };
    let permitted = allowed && !config.application_update_pending
        && config.storage_operation.is_none() && config.storage_lifecycle.maintenance.is_none()
        && !config.storage_lifecycle.disabled && config.storage_lifecycle.missing.is_none()
        && config.remote.pending.is_none() && !config.remote.repair_required;
    Beat {
        storage_generation: config.storage_generation,
        state,
        reason,
        resources: offer(config),
        allow_ci: config.policy.allow_ci,
        allow_services: config.policy.allow_services,
        permitted,
    }
}

/// A computer whose storage is away or in maintenance offers no disk and no
/// work, and does not say which of its folders are concerned.
pub proof fn absent_storage_is_not_offered(
    c: ConfigurationView,
    runtime: RuntimeView,
    allowed: bool,
)
    requires
        c.storage_lifecycle.missing is Some || c.storage_lifecycle.maintenance is Some,
    ensures
        beat_of(c, runtime, allowed).resources.disk_gib == 0,
        !beat_of(c, runtime, allowed).permitted,
        forall|other: RuntimeView|
            beat_of(c, runtime, allowed).reason == #[trigger] beat_of(c, other, allowed).reason,
{
}

/// Whether the fleet paused this computer.
pub fn remotely_paused(reply: &Json) -> (r: bool)
    ensures
        r == (flag_of(at(reply@, "remotePaused"@)) == Some(true)),
{
    match reply.field_flag("remotePaused") {
        Some(paused) => paused,
        None => false,
    }
}

/// The request that an answer holds.
pub fn requested_configuration(reply: &Json) -> (r: Option<&Json>)
    ensures
        match r {
            Some(request) => field(reply@, "configurationRequest"@) == Some(request@) && request@
                != JsonView::Null,
            None => field(reply@, "configurationRequest"@) is None || field(
                reply@,
                "configurationRequest"@,
            ) == Some(JsonView::Null),
        },
{
    match reply.get("configurationRequest") {
        Some(request) => if request.is_null() {
            None
        } else {
            Some(request)
        },
        None => None,
    }
}

/// The workloads that the controller counts during maintenance.
pub fn maintenance_bound(reply: &Json) -> (r: Result<u64, Failure>)
    ensures
        match crate::json::number_of(at(reply@, "workloads"@)) {
            Some(n) => r == Ok::<u64, Failure>(n),
            None => refusal(r) == Some("Missing maintenance workload inventory"@),
        },
{
    match reply.field_number("workloads") {
        Some(n) => Ok(n),
        None => Err(fail("Missing maintenance workload inventory")),
    }
}

} // verus!
