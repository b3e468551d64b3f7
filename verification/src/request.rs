//! The request that a mail server sends at a stage of an SMTP transaction.
use crate::entries::{distinct, member};
use crate::error::{outcome, DecodeError, DecodeErrorView, Family, Shape};
use crate::json::{find, lemma_view, option_view, Json, JsonView};
use crate::parameters::{
    address_parameters_encoded, decode_strict, encode_address_parameters,
    lemma_address_parameters_round_trip, lemma_address_parameters_steady, strict_parameters,
    AddressParameters, AddressParametersView,
};
use crate::text::{ascii_upper, upper_is};
use crate::wire::{
    add_member, add_optional_member, all_sound, as_members, as_text, defaulted_list, each_encoded,
    encoded_if_some, get_defaulted_list, get_optional_record, get_optional_text, get_optional_u16,
    get_required_list, get_required_record, get_required_size, get_required_text, get_required_u16,
    get_required_u32, lemma_maybe, lemma_new, lemma_optional_record, lemma_required_list,
    lemma_required_record, lemma_steady_maybe, lemma_steady_new, lemma_steady_object,
    lemma_steady_with, lemma_with, list_json, list_view, members_of, no_members, object_json,
    optional_json, optional_record, optional_text, optional_text_encoded, optional_text_json,
    optional_u16, required_list, required_record, required_size, required_text, required_u16,
    required_u32, text_json, text_of, unsigned_encoded, unsigned_json, Members, Wire,
};
use vstd::prelude::*;

verus! {

/// The tree of an optional string, where there is one.
pub open spec fn text_if_some(value: Option<Seq<char>>) -> Option<JsonView> {
    match value {
        Some(t) => Some(JsonView::Text(t)),
        None => None,
    }
}

/// The tree of an optional integer, where there is one.
pub open spec fn unsigned_if_some(value: Option<u16>) -> Option<JsonView> {
    match value {
        Some(u) => Some(unsigned_encoded(u as int)),
        None => None,
    }
}

fn text_json_if_some(value: &Option<String>) -> (r: Option<Json>)
    ensures
        option_view(r) == text_if_some(option_view(*value)),
{
    match value {
        Some(t) => Some(text_json(t)),
        None => None,
    }
}

fn unsigned_json_if_some(value: &Option<u16>) -> (r: Option<Json>)
    ensures
        option_view(r) == unsigned_if_some(*value),
{
    match value {
        Some(u) => Some(unsigned_json(*u as u64)),
        None => None,
    }
}

/// The stage of the SMTP transaction at which a request is sent.
#[derive(Debug, Clone, Copy, PartialEq, Eq, Structural)]
pub enum Stage {
    Connect,
    Ehlo,
    Auth,
    Mail,
    Rcpt,
    Data,
}

impl View for Stage {
    type V = Stage;

    open spec fn view(&self) -> Stage {
        *self
    }
}

/// The lower-case token that a stage is written as.
pub open spec fn stage_token(stage: Stage) -> Seq<char> {
    match stage {
        Stage::Connect => "connect"@,
        Stage::Ehlo => "ehlo"@,
        Stage::Auth => "auth"@,
        Stage::Mail => "mail"@,
        Stage::Rcpt => "rcpt"@,
        Stage::Data => "data"@,
    }
}

/// The stage that a token names, whatever the case of its letters.
pub open spec fn stage_of_token(token: Seq<char>) -> Result<Stage, DecodeErrorView> {
    let folded = ascii_upper(token);
    if folded == "CONNECT"@ {
        Ok(Stage::Connect)
    } else if folded == "EHLO"@ {
        Ok(Stage::Ehlo)
    } else if folded == "AUTH"@ {
        Ok(Stage::Auth)
    } else if folded == "MAIL"@ {
        Ok(Stage::Mail)
    } else if folded == "RCPT"@ {
        Ok(Stage::Rcpt)
    } else if folded == "DATA"@ {
        Ok(Stage::Data)
    } else {
        Err(DecodeErrorView::UnknownVariant { found: token, family: Family::Stage })
    }
}

impl Stage {
    /// The lower-case token of this stage.
    pub fn token(&self) -> (r: &'static str)
        ensures
            r@ == stage_token(*self),
    {
        match self {
            Stage::Connect => "connect",
            Stage::Ehlo => "ehlo",
            Stage::Auth => "auth",
            Stage::Mail => "mail",
            Stage::Rcpt => "rcpt",
            Stage::Data => "data",
        }
    }

    /// The stage that `token` names, whatever the case of its letters.
    pub fn from_token(token: &str) -> (r: Result<Stage, DecodeError>)
        ensures
            outcome(r) == stage_of_token(token@),
    {
        if upper_is(token, "CONNECT") {
            Ok(Stage::Connect)
        } else if upper_is(token, "EHLO") {
            Ok(Stage::Ehlo)
        } else if upper_is(token, "AUTH") {
            Ok(Stage::Auth)
        } else if upper_is(token, "MAIL") {
            Ok(Stage::Mail)
        } else if upper_is(token, "RCPT") {
            Ok(Stage::Rcpt)
        } else if upper_is(token, "DATA") {
            Ok(Stage::Data)
        } else {
            Err(DecodeError::UnknownVariant { found: token.to_owned(), family: Family::Stage })
        }
    }
}

/// The token of a stage names that stage.
pub proof fn lemma_stage_token(stage: Stage)
    ensures
        stage_of_token(stage_token(stage)) == Ok::<Stage, DecodeErrorView>(stage),
{
    reveal_strlit("connect");
    reveal_strlit("ehlo");
    reveal_strlit("auth");
    reveal_strlit("mail");
    reveal_strlit("rcpt");
    reveal_strlit("data");
    reveal_strlit("CONNECT");
    reveal_strlit("EHLO");
    reveal_strlit("AUTH");
    reveal_strlit("MAIL");
    reveal_strlit("RCPT");
    reveal_strlit("DATA");
    assert(ascii_upper("connect"@) =~= "CONNECT"@);
    assert(ascii_upper("ehlo"@) =~= "EHLO"@);
    assert(ascii_upper("auth"@) =~= "AUTH"@);
    assert(ascii_upper("mail"@) =~= "MAIL"@);
    assert(ascii_upper("rcpt"@) =~= "RCPT"@);
    assert(ascii_upper("data"@) =~= "DATA"@);
    assert("CONNECT"@.len() == 7);
    assert("EHLO"@[0] != "AUTH"@[0]);
    assert("EHLO"@[0] != "MAIL"@[0]);
    assert("EHLO"@[0] != "RCPT"@[0]);
    assert("EHLO"@[0] != "DATA"@[0]);
    assert("AUTH"@[0] != "MAIL"@[0]);
    assert("AUTH"@[0] != "RCPT"@[0]);
    assert("AUTH"@[0] != "DATA"@[0]);
    assert("MAIL"@[0] != "RCPT"@[0]);
    assert("MAIL"@[0] != "DATA"@[0]);
    assert("RCPT"@[0] != "DATA"@[0]);
}

/// Two tokens that differ only in the case of their letters name the same
/// stage, or neither names one.
pub proof fn law_stage_ignores_case(a: Seq<char>, b: Seq<char>)
    requires
        ascii_upper(a) == ascii_upper(b),
    ensures
        match (stage_of_token(a), stage_of_token(b)) {
            (Ok(x), Ok(y)) => x == y,
            (Err(_), Err(_)) => true,
            _ => false,
        },
{
}

/// The token that a stage is written as has no upper-case letter.
pub proof fn law_stage_token_is_lower_case(stage: Stage, i: int)
    requires
        0 <= i < stage_token(stage).len(),
    ensures
        !('A' <= stage_token(stage)[i] && stage_token(stage)[i] <= 'Z'),
{
    reveal_strlit("connect");
    reveal_strlit("ehlo");
    reveal_strlit("auth");
    reveal_strlit("mail");
    reveal_strlit("rcpt");
    reveal_strlit("data");
}

impl Wire for Stage {
    open spec fn decoded(tree: JsonView) -> Result<Stage, DecodeErrorView> {
        match text_of(tree, "stage"@) {
            Ok(token) => stage_of_token(token),
            Err(e) => Err(e),
        }
    }

    open spec fn encoded(value: Stage) -> JsonView {
        JsonView::Text(stage_token(value))
    }

    open spec fn sound(value: Stage) -> bool {
        true
    }

    fn from_json(j: &Json) -> (r: Result<Self, DecodeError>) {
        let token = as_text(j, "stage")?;
        Stage::from_token(token.as_str())
    }

    fn to_json(&self) -> (j: Json) {
        Json::Text(self.token().to_owned())
    }

    proof fn round_trip(value: Stage) {
        lemma_stage_token(value);
    }

    proof fn reads_by_name(a: Seq<(Seq<char>, JsonView)>, b: Seq<(Seq<char>, JsonView)>) {
    }
}

/// The revision of the protocol that the sender speaks.
#[derive(Debug, Clone, PartialEq, Eq)]
pub struct Protocol {
    pub version: u32,
}

/// The model of a [`Protocol`].
pub struct ProtocolView {
    pub version: u32,
}

impl View for Protocol {
    type V = ProtocolView;

    open spec fn view(&self) -> ProtocolView {
        ProtocolView { version: self.version }
    }
}

impl Wire for Protocol {
    open spec fn decoded(tree: JsonView) -> Result<ProtocolView, DecodeErrorView> {
        match members_of(tree, "Protocol"@) {
            Ok(members) => match required_u32(members, "version"@, "Protocol"@) {
                Ok(version) => Ok(ProtocolView { version }),
                Err(e) => Err(e),
            },
            Err(e) => Err(e),
        }
    }

    open spec fn encoded(value: ProtocolView) -> JsonView {
        Members::new().with("version"@, unsigned_encoded(value.version as int)).object()
    }

    open spec fn sound(value: ProtocolView) -> bool {
        true
    }

    fn from_json(j: &Json) -> (r: Result<Self, DecodeError>) {
        let members = as_members(j, "Protocol")?;
        let version = get_required_u32(members, "version", "Protocol")?;
        Ok(Protocol { version })
    }

    fn to_json(&self) -> (j: Json) {
        let mut members = no_members();
        add_member(&mut members, "version", unsigned_json(self.version as u64));
        object_json(members)
    }

    proof fn round_trip(value: ProtocolView) {
        broadcast use
            lemma_with,
            lemma_maybe,
            lemma_new,
            lemma_steady_with,
            lemma_steady_maybe,
            lemma_steady_new,
        ;

        lemma_steady_object(Self::encoded(value)->Object_0);
    }

    proof fn reads_by_name(a: Seq<(Seq<char>, JsonView)>, b: Seq<(Seq<char>, JsonView)>) {
    }
}

/// The place of the message in the queue of the mail server.
#[derive(Debug, Clone, PartialEq, Eq)]
pub struct Queue {
    pub id: String,
}

/// The model of a [`Queue`].
pub struct QueueView {
    pub id: Seq<char>,
}

impl View for Queue {
    type V = QueueView;

    open spec fn view(&self) -> QueueView {
        QueueView { id: self.id@ }
    }
}

impl Wire for Queue {
    open spec fn decoded(tree: JsonView) -> Result<QueueView, DecodeErrorView> {
        match members_of(tree, "Queue"@) {
            Ok(members) => match required_text(members, "id"@, "Queue"@) {
                Ok(id) => Ok(QueueView { id }),
                Err(e) => Err(e),
            },
            Err(e) => Err(e),
        }
    }

    open spec fn encoded(value: QueueView) -> JsonView {
        Members::new().with("id"@, JsonView::Text(value.id)).object()
    }

    open spec fn sound(value: QueueView) -> bool {
        true
    }

    fn from_json(j: &Json) -> (r: Result<Self, DecodeError>) {
        let members = as_members(j, "Queue")?;
        let id = get_required_text(members, "id", "Queue")?;
        Ok(Queue { id })
    }

    fn to_json(&self) -> (j: Json) {
        let mut members = no_members();
        add_member(&mut members, "id", text_json(&self.id));
        object_json(members)
    }

    proof fn round_trip(value: QueueView) {
        broadcast use
            lemma_with,
            lemma_maybe,
            lemma_new,
            lemma_steady_with,
            lemma_steady_maybe,
            lemma_steady_new,
        ;

        lemma_steady_object(Self::encoded(value)->Object_0);
    }

    proof fn reads_by_name(a: Seq<(Seq<char>, JsonView)>, b: Seq<(Seq<char>, JsonView)>) {
    }
}

/// The authentication that the client passed.
#[derive(Debug, Clone, PartialEq, Eq)]
pub struct Sasl {
    pub login: String,
    pub method: Option<String>,
}

/// The model of a [`Sasl`].
pub struct SaslView {
    pub login: Seq<char>,
    pub method: Option<Seq<char>>,
}

impl View for Sasl {
    type V = SaslView;

    open spec fn view(&self) -> SaslView {
        SaslView { login: self.login@, method: option_view(self.method) }
    }
}

impl Wire for Sasl {
    open spec fn decoded(tree: JsonView) -> Result<SaslView, DecodeErrorView> {
        match members_of(tree, "Sasl"@) {
            Ok(members) => match required_text(members, "login"@, "Sasl"@) {
                Ok(login) => match optional_text(members, "method"@) {
                    Ok(method) => Ok(SaslView { login, method }),
                    Err(e) => Err(e),
                },
                Err(e) => Err(e),
            },
            Err(e) => Err(e),
        }
    }

    open spec fn encoded(value: SaslView) -> JsonView {
        Members::new().with("login"@, JsonView::Text(value.login)).maybe(
            "method"@,
            text_if_some(value.method),
        ).object()
    }

    open spec fn sound(value: SaslView) -> bool {
        true
    }

    fn from_json(j: &Json) -> (r: Result<Self, DecodeError>) {
        let members = as_members(j, "Sasl")?;
        let login = get_required_text(members, "login", "Sasl")?;
        let method = get_optional_text(members, "method")?;
        Ok(Sasl { login, method })
    }

    fn to_json(&self) -> (j: Json) {
        let mut members = no_members();
        add_member(&mut members, "login", text_json(&self.login));
        add_optional_member(&mut members, "method", text_json_if_some(&self.method));
        object_json(members)
    }

    proof fn round_trip(value: SaslView) {
        broadcast use
            lemma_with,
            lemma_maybe,
            lemma_new,
            lemma_steady_with,
            lemma_steady_maybe,
            lemma_steady_new,
        ;

        reveal_strlit("login");
        reveal_strlit("method");
        assert("login"@.len() == 5 && "method"@.len() == 6);
        lemma_steady_object(Self::encoded(value)->Object_0);
    }

    proof fn reads_by_name(a: Seq<(Seq<char>, JsonView)>, b: Seq<(Seq<char>, JsonView)>) {
    }
}

/// The client that is connected to the mail server.
#[derive(Debug, Clone, PartialEq, Eq)]
pub struct Client {
    pub ip: String,
    pub port: u16,
    /// The name that the address of the client resolves to.
    pub ptr: Option<String>,
    pub helo: Option<String>,
    /// The number of connections that the client holds; in JSON
    /// `activeConnections`.
    pub active_connections: u32,
}

/// The model of a [`Client`].
pub struct ClientView {
    pub ip: Seq<char>,
    pub port: u16,
    pub ptr: Option<Seq<char>>,
    pub helo: Option<Seq<char>>,
    pub active_connections: u32,
}

impl View for Client {
    type V = ClientView;

    open spec fn view(&self) -> ClientView {
        ClientView {
            ip: self.ip@,
            port: self.port,
            ptr: option_view(self.ptr),
            helo: option_view(self.helo),
            active_connections: self.active_connections,
        }
    }
}

impl Wire for Client {
    open spec fn decoded(tree: JsonView) -> Result<ClientView, DecodeErrorView> {
        match members_of(tree, "Client"@) {
            Ok(members) => match required_text(members, "ip"@, "Client"@) {
                Ok(ip) => match required_u16(members, "port"@, "Client"@) {
                    Ok(port) => match optional_text(members, "ptr"@) {
                        Ok(ptr) => match optional_text(members, "helo"@) {
                            Ok(helo) => match required_u32(
                                members,
                                "activeConnections"@,
                                "Client"@,
                            ) {
                                Ok(active_connections) => Ok(
                                    ClientView { ip, port, ptr, helo, active_connections },
                                ),
                                Err(e) => Err(e),
                            },
                            Err(e) => Err(e),
                        },
                        Err(e) => Err(e),
                    },
                    Err(e) => Err(e),
                },
                Err(e) => Err(e),
            },
            Err(e) => Err(e),
        }
    }

    open spec fn encoded(value: ClientView) -> JsonView {
        Members::new().with("ip"@, JsonView::Text(value.ip)).with(
            "port"@,
            unsigned_encoded(value.port as int),
        ).with("ptr"@, optional_text_encoded(value.ptr)).with(
            "helo"@,
            optional_text_encoded(value.helo),
        ).with("activeConnections"@, unsigned_encoded(value.active_connections as int)).object()
    }

    open spec fn sound(value: ClientView) -> bool {
        true
    }

    fn from_json(j: &Json) -> (r: Result<Self, DecodeError>) {
        let members = as_members(j, "Client")?;
        let ip = get_required_text(members, "ip", "Client")?;
        let port = get_required_u16(members, "port", "Client")?;
        let ptr = get_optional_text(members, "ptr")?;
        let helo = get_optional_text(members, "helo")?;
        let active_connections = get_required_u32(members, "activeConnections", "Client")?;
        Ok(Client { ip, port, ptr, helo, active_connections })
    }

    fn to_json(&self) -> (j: Json) {
        let mut members = no_members();
        add_member(&mut members, "ip", text_json(&self.ip));
        add_member(&mut members, "port", unsigned_json(self.port as u64));
        add_member(&mut members, "ptr", optional_text_json(&self.ptr));
        add_member(&mut members, "helo", optional_text_json(&self.helo));
        add_member(
            &mut members,
            "activeConnections",
            unsigned_json(self.active_connections as u64),
        );
        object_json(members)
    }

    proof fn round_trip(value: ClientView) {
        broadcast use
            lemma_with,
            lemma_maybe,
            lemma_new,
            lemma_steady_with,
            lemma_steady_maybe,
            lemma_steady_new,
        ;

        reveal_strlit("ip");
        reveal_strlit("port");
        reveal_strlit("ptr");
        reveal_strlit("helo");
        reveal_strlit("activeConnections");
        assert("ip"@.len() == 2 && "port"@.len() == 4 && "ptr"@.len() == 3 && "helo"@.len() == 4
            && "activeConnections"@.len() == 17);
        assert("port"@[0] != "helo"@[0]);
        lemma_steady_object(Self::encoded(value)->Object_0);
    }

    proof fn reads_by_name(a: Seq<(Seq<char>, JsonView)>, b: Seq<(Seq<char>, JsonView)>) {
    }
}

/// The encryption of the connection.
#[derive(Debug, Clone, PartialEq, Eq)]
pub struct Tls {
    pub version: String,
    pub cipher: String,
    /// In JSON `cipherBits`.
    pub bits: Option<u16>,
    /// In JSON `certIssuer`.
    pub issuer: Option<String>,
    /// In JSON `certSubject`.
    pub subject: Option<String>,
}

/// The model of a [`Tls`].
pub struct TlsView {
    pub version: Seq<char>,
    pub cipher: Seq<char>,
    pub bits: Option<u16>,
    pub issuer: Option<Seq<char>>,
    pub subject: Option<Seq<char>>,
}

impl View for Tls {
    type V = TlsView;

    open spec fn view(&self) -> TlsView {
        TlsView {
            version: self.version@,
            cipher: self.cipher@,
            bits: self.bits,
            issuer: option_view(self.issuer),
            subject: option_view(self.subject),
        }
    }
}

impl Wire for Tls {
    open spec fn decoded(tree: JsonView) -> Result<TlsView, DecodeErrorView> {
        match members_of(tree, "Tls"@) {
            Ok(members) => match required_text(members, "version"@, "Tls"@) {
                Ok(version) => match required_text(members, "cipher"@, "Tls"@) {
                    Ok(cipher) => match optional_u16(members, "cipherBits"@) {
                        Ok(bits) => match optional_text(members, "certIssuer"@) {
                            Ok(issuer) => match optional_text(members, "certSubject"@) {
                                Ok(subject) => Ok(
                                    TlsView { version, cipher, bits, issuer, subject },
                                ),
                                Err(e) => Err(e),
                            },
                            Err(e) => Err(e),
                        },
                        Err(e) => Err(e),
                    },
                    Err(e) => Err(e),
                },
                Err(e) => Err(e),
            },
            Err(e) => Err(e),
        }
    }

    open spec fn encoded(value: TlsView) -> JsonView {
        Members::new().with("version"@, JsonView::Text(value.version)).with(
            "cipher"@,
            JsonView::Text(value.cipher),
        ).maybe("cipherBits"@, unsigned_if_some(value.bits)).maybe(
            "certIssuer"@,
            text_if_some(value.issuer),
        ).maybe("certSubject"@, text_if_some(value.subject)).object()
    }

    open spec fn sound(value: TlsView) -> bool {
        true
    }

    fn from_json(j: &Json) -> (r: Result<Self, DecodeError>) {
        let members = as_members(j, "Tls")?;
        let version = get_required_text(members, "version", "Tls")?;
        let cipher = get_required_text(members, "cipher", "Tls")?;
        let bits = get_optional_u16(members, "cipherBits")?;
        let issuer = get_optional_text(members, "certIssuer")?;
        let subject = get_optional_text(members, "certSubject")?;
        Ok(Tls { version, cipher, bits, issuer, subject })
    }

    fn to_json(&self) -> (j: Json) {
        let mut members = no_members();
        add_member(&mut members, "version", text_json(&self.version));
        add_member(&mut members, "cipher", text_json(&self.cipher));
        add_optional_member(&mut members, "cipherBits", unsigned_json_if_some(&self.bits));
        add_optional_member(&mut members, "certIssuer", text_json_if_some(&self.issuer));
        add_optional_member(&mut members, "certSubject", text_json_if_some(&self.subject));
        object_json(members)
    }

    proof fn round_trip(value: TlsView) {
        broadcast use
            lemma_with,
            lemma_maybe,
            lemma_new,
            lemma_steady_with,
            lemma_steady_maybe,
            lemma_steady_new,
        ;

        reveal_strlit("version");
        reveal_strlit("cipher");
        reveal_strlit("cipherBits");
        reveal_strlit("certIssuer");
        reveal_strlit("certSubject");
        assert("version"@.len() == 7 && "cipher"@.len() == 6 && "cipherBits"@.len() == 10
            && "certIssuer"@.len() == 10 && "certSubject"@.len() == 11);
        assert("cipherBits"@[1] != "certIssuer"@[1]);
        lemma_steady_object(Self::encoded(value)->Object_0);
    }

    proof fn reads_by_name(a: Seq<(Seq<char>, JsonView)>, b: Seq<(Seq<char>, JsonView)>) {
    }
}

/// The mail server that sends the request.
#[derive(Debug, Clone, PartialEq, Eq)]
pub struct Server {
    pub name: Option<String>,
    pub port: u16,
    pub ip: Option<String>,
}

/// The model of a [`Server`].
pub struct ServerView {
    pub name: Option<Seq<char>>,
    pub port: u16,
    pub ip: Option<Seq<char>>,
}

impl View for Server {
    type V = ServerView;

    open spec fn view(&self) -> ServerView {
        ServerView { name: option_view(self.name), port: self.port, ip: option_view(self.ip) }
    }
}

impl Wire for Server {
    open spec fn decoded(tree: JsonView) -> Result<ServerView, DecodeErrorView> {
        match members_of(tree, "Server"@) {
            Ok(members) => match optional_text(members, "name"@) {
                Ok(name) => match required_u16(members, "port"@, "Server"@) {
                    Ok(port) => match optional_text(members, "ip"@) {
                        Ok(ip) => Ok(ServerView { name, port, ip }),
                        Err(e) => Err(e),
                    },
                    Err(e) => Err(e),
                },
                Err(e) => Err(e),
            },
            Err(e) => Err(e),
        }
    }

    open spec fn encoded(value: ServerView) -> JsonView {
        Members::new().with("name"@, optional_text_encoded(value.name)).with(
            "port"@,
            unsigned_encoded(value.port as int),
        ).with("ip"@, optional_text_encoded(value.ip)).object()
    }

    open spec fn sound(value: ServerView) -> bool {
        true
    }

    fn from_json(j: &Json) -> (r: Result<Self, DecodeError>) {
        let members = as_members(j, "Server")?;
        let name = get_optional_text(members, "name")?;
        let port = get_required_u16(members, "port", "Server")?;
        let ip = get_optional_text(members, "ip")?;
        Ok(Server { name, port, ip })
    }

    fn to_json(&self) -> (j: Json) {
        let mut members = no_members();
        add_member(&mut members, "name", optional_text_json(&self.name));
        add_member(&mut members, "port", unsigned_json(self.port as u64));
        add_member(&mut members, "ip", optional_text_json(&self.ip));
        object_json(members)
    }

    proof fn round_trip(value: ServerView) {
        broadcast use
            lemma_with,
            lemma_maybe,
            lemma_new,
            lemma_steady_with,
            lemma_steady_maybe,
            lemma_steady_new,
        ;

        reveal_strlit("name");
        reveal_strlit("port");
        reveal_strlit("ip");
        assert("name"@.len() == 4 && "port"@.len() == 4 && "ip"@.len() == 2);
        assert("name"@[0] != "port"@[0]);
        lemma_steady_object(Self::encoded(value)->Object_0);
    }

    proof fn reads_by_name(a: Seq<(Seq<char>, JsonView)>, b: Seq<(Seq<char>, JsonView)>) {
    }
}

/// What the mail server knows of the transaction when it sends the request.
#[derive(Debug, Clone, PartialEq, Eq)]
pub struct Context {
    pub stage: Stage,
    pub client: Client,
    pub sasl: Option<Sasl>,
    pub tls: Option<Tls>,
    pub server: Server,
    pub queue: Option<Queue>,
    pub protocol: Protocol,
}

/// The model of a [`Context`].
pub struct ContextView {
    pub stage: Stage,
    pub client: ClientView,
    pub sasl: Option<SaslView>,
    pub tls: Option<TlsView>,
    pub server: ServerView,
    pub queue: Option<QueueView>,
    pub protocol: ProtocolView,
}

impl View for Context {
    type V = ContextView;

    open spec fn view(&self) -> ContextView {
        ContextView {
            stage: self.stage,
            client: self.client@,
            sasl: option_view(self.sasl),
            tls: option_view(self.tls),
            server: self.server@,
            queue: option_view(self.queue),
            protocol: self.protocol@,
        }
    }
}

impl Wire for Context {
    open spec fn decoded(tree: JsonView) -> Result<ContextView, DecodeErrorView> {
        match members_of(tree, "Context"@) {
            Ok(members) => match required_record::<Stage>(members, "stage"@, "Context"@) {
                Ok(stage) => match required_record::<Client>(members, "client"@, "Context"@) {
                    Ok(client) => match optional_record::<Sasl>(members, "sasl"@) {
                        Ok(sasl) => match optional_record::<Tls>(members, "tls"@) {
                            Ok(tls) => match required_record::<Server>(
                                members,
                                "server"@,
                                "Context"@,
                            ) {
                                Ok(server) => match optional_record::<Queue>(members, "queue"@) {
                                    Ok(queue) => match required_record::<Protocol>(
                                        members,
                                        "protocol"@,
                                        "Context"@,
                                    ) {
                                        Ok(protocol) => Ok(
                                            ContextView {
                                                stage,
                                                client,
                                                sasl,
                                                tls,
                                                server,
                                                queue,
                                                protocol,
                                            },
                                        ),
                                        Err(e) => Err(e),
                                    },
                                    Err(e) => Err(e),
                                },
                                Err(e) => Err(e),
                            },
                            Err(e) => Err(e),
                        },
                        Err(e) => Err(e),
                    },
                    Err(e) => Err(e),
                },
                Err(e) => Err(e),
            },
            Err(e) => Err(e),
        }
    }

    open spec fn encoded(value: ContextView) -> JsonView {
        Members::new().with("stage"@, Stage::encoded(value.stage)).with(
            "client"@,
            Client::encoded(value.client),
        ).maybe("sasl"@, encoded_if_some::<Sasl>(value.sasl)).maybe(
            "tls"@,
            encoded_if_some::<Tls>(value.tls),
        ).with("server"@, Server::encoded(value.server)).maybe(
            "queue"@,
            encoded_if_some::<Queue>(value.queue),
        ).with("protocol"@, Protocol::encoded(value.protocol)).object()
    }

    open spec fn sound(value: ContextView) -> bool {
        true
    }

    fn from_json(j: &Json) -> (r: Result<Self, DecodeError>) {
        let members = as_members(j, "Context")?;
        let stage = get_required_record::<Stage>(members, "stage", "Context")?;
        let client = get_required_record::<Client>(members, "client", "Context")?;
        let sasl = get_optional_record::<Sasl>(members, "sasl")?;
        let tls = get_optional_record::<Tls>(members, "tls")?;
        let server = get_required_record::<Server>(members, "server", "Context")?;
        let queue = get_optional_record::<Queue>(members, "queue")?;
        let protocol = get_required_record::<Protocol>(members, "protocol", "Context")?;
        Ok(Context { stage, client, sasl, tls, server, queue, protocol })
    }

    fn to_json(&self) -> (j: Json) {
        let mut members = no_members();
        add_member(&mut members, "stage", self.stage.to_json());
        add_member(&mut members, "client", self.client.to_json());
        add_optional_member(&mut members, "sasl", optional_json(&self.sasl));
        add_optional_member(&mut members, "tls", optional_json(&self.tls));
        add_member(&mut members, "server", self.server.to_json());
        add_optional_member(&mut members, "queue", optional_json(&self.queue));
        add_member(&mut members, "protocol", self.protocol.to_json());
        object_json(members)
    }

    proof fn round_trip(value: ContextView) {
        broadcast use
            lemma_with,
            lemma_maybe,
            lemma_new,
            lemma_steady_with,
            lemma_steady_maybe,
            lemma_steady_new,
        ;

        reveal_strlit("stage");
        reveal_strlit("client");
        reveal_strlit("sasl");
        reveal_strlit("tls");
        reveal_strlit("server");
        reveal_strlit("queue");
        reveal_strlit("protocol");
        assert("stage"@.len() == 5 && "client"@.len() == 6 && "sasl"@.len() == 4 && "tls"@.len()
            == 3 && "server"@.len() == 6 && "queue"@.len() == 5 && "protocol"@.len() == 8);
        assert("stage"@[0] != "queue"@[0]);
        assert("client"@[0] != "server"@[0]);
        let members = Self::encoded(value)->Object_0;
        lemma_required_record::<Stage>(members, "stage"@, "Context"@, value.stage);
        lemma_required_record::<Client>(members, "client"@, "Context"@, value.client);
        lemma_optional_record::<Sasl>(members, "sasl"@, value.sasl);
        lemma_optional_record::<Tls>(members, "tls"@, value.tls);
        lemma_required_record::<Server>(members, "server"@, "Context"@, value.server);
        lemma_optional_record::<Queue>(members, "queue"@, value.queue);
        lemma_required_record::<Protocol>(members, "protocol"@, "Context"@, value.protocol);
        lemma_steady_object(Self::encoded(value)->Object_0);
    }

    proof fn reads_by_name(a: Seq<(Seq<char>, JsonView)>, b: Seq<(Seq<char>, JsonView)>) {
    }
}

/// The tree of optional address parameters, where there are any.
pub open spec fn parameters_if_some(value: Option<AddressParametersView>) -> Option<JsonView> {
    match value {
        Some(parameters) => Some(address_parameters_encoded(parameters)),
        None => None,
    }
}

/// An envelope address with the parameters that came with it, if any came.
#[derive(Debug, Clone, PartialEq, Eq)]
pub struct Address {
    pub address: String,
    pub parameters: Option<AddressParameters>,
}

/// The model of an [`Address`].
pub struct AddressView {
    pub address: Seq<char>,
    pub parameters: Option<AddressParametersView>,
}

impl View for Address {
    type V = AddressView;

    open spec fn view(&self) -> AddressView {
        AddressView { address: self.address@, parameters: option_view(self.parameters) }
    }
}

impl Wire for Address {
    open spec fn decoded(tree: JsonView) -> Result<AddressView, DecodeErrorView> {
        match members_of(tree, "Address"@) {
            Ok(members) => match required_text(members, "address"@, "Address"@) {
                Ok(address) => match strict_parameters(member(members, "parameters"@)) {
                    Ok(parameters) => Ok(AddressView { address, parameters }),
                    Err(e) => Err(e),
                },
                Err(e) => Err(e),
            },
            Err(e) => Err(e),
        }
    }

    open spec fn encoded(value: AddressView) -> JsonView {
        Members::new().with("address"@, JsonView::Text(value.address)).maybe(
            "parameters"@,
            parameters_if_some(value.parameters),
        ).object()
    }

    open spec fn sound(value: AddressView) -> bool {
        value.parameters matches Some(parameters) ==> distinct(parameters)
    }

    fn from_json(j: &Json) -> (r: Result<Self, DecodeError>) {
        let members = as_members(j, "Address")?;
        let address = get_required_text(members, "address", "Address")?;
        let parameters = decode_strict(find(members, "parameters"))?;
        Ok(Address { address, parameters })
    }

    fn to_json(&self) -> (j: Json) {
        let mut members = no_members();
        add_member(&mut members, "address", text_json(&self.address));
        let parameters = match &self.parameters {
            Some(p) => Some(encode_address_parameters(p)),
            None => None,
        };
        add_optional_member(&mut members, "parameters", parameters);
        object_json(members)
    }

    proof fn round_trip(value: AddressView) {
        broadcast use
            lemma_with,
            lemma_maybe,
            lemma_new,
            lemma_steady_with,
            lemma_steady_maybe,
            lemma_steady_new,
        ;

        reveal_strlit("address");
        reveal_strlit("parameters");
        assert("address"@.len() == 7 && "parameters"@.len() == 10);
        if let Some(parameters) = value.parameters {
            lemma_address_parameters_round_trip(parameters);
            lemma_address_parameters_steady(parameters);
        }
        lemma_steady_object(Self::encoded(value)->Object_0);
    }

    proof fn reads_by_name(a: Seq<(Seq<char>, JsonView)>, b: Seq<(Seq<char>, JsonView)>) {
    }
}

/// An address whose `parameters` are lacking or `null` has no mapping of
/// parameters at all, whatever else its object holds.
pub proof fn law_address_without_parameters(members: Seq<(Seq<char>, JsonView)>)
    requires
        member(members, "parameters"@) is None || member(members, "parameters"@) == Some(
            JsonView::Null,
        ),
    ensures
        Address::decoded(JsonView::Object(members)) matches Ok(address) ==> address.parameters
            is None,
        Address::decoded(JsonView::Object(members)) is Ok <==> required_text(
            members,
            "address"@,
            "Address"@,
        ) is Ok,
{
}

/// The sender and the recipients of the SMTP transaction.
#[derive(Debug, Clone, PartialEq, Eq)]
pub struct Envelope {
    pub from: Address,
    pub to: Vec<Address>,
}

/// The model of an [`Envelope`].
pub struct EnvelopeView {
    pub from: AddressView,
    pub to: Seq<AddressView>,
}

impl View for Envelope {
    type V = EnvelopeView;

    open spec fn view(&self) -> EnvelopeView {
        EnvelopeView { from: self.from@, to: list_view(self.to@) }
    }
}

impl Wire for Envelope {
    open spec fn decoded(tree: JsonView) -> Result<EnvelopeView, DecodeErrorView> {
        match members_of(tree, "Envelope"@) {
            Ok(members) => match required_record::<Address>(members, "from"@, "Envelope"@) {
                Ok(from) => match required_list::<Address>(members, "to"@, "Envelope"@) {
                    Ok(to) => Ok(EnvelopeView { from, to }),
                    Err(e) => Err(e),
                },
                Err(e) => Err(e),
            },
            Err(e) => Err(e),
        }
    }

    open spec fn encoded(value: EnvelopeView) -> JsonView {
        Members::new().with("from"@, Address::encoded(value.from)).with(
            "to"@,
            JsonView::Array(each_encoded::<Address>(value.to)),
        ).object()
    }

    open spec fn sound(value: EnvelopeView) -> bool {
        Address::sound(value.from) && all_sound::<Address>(value.to)
    }

    fn from_json(j: &Json) -> (r: Result<Self, DecodeError>) {
        let members = as_members(j, "Envelope")?;
        let from = get_required_record::<Address>(members, "from", "Envelope")?;
        let to = get_required_list::<Address>(members, "to", "Envelope")?;
        Ok(Envelope { from, to })
    }

    fn to_json(&self) -> (j: Json) {
        let mut members = no_members();
        add_member(&mut members, "from", self.from.to_json());
        add_member(&mut members, "to", list_json(&self.to));
        object_json(members)
    }

    proof fn round_trip(value: EnvelopeView) {
        broadcast use
            lemma_with,
            lemma_maybe,
            lemma_new,
            lemma_steady_with,
            lemma_steady_maybe,
            lemma_steady_new,
        ;

        reveal_strlit("from");
        reveal_strlit("to");
        assert("from"@.len() == 4 && "to"@.len() == 2);
        let members = Self::encoded(value)->Object_0;
        lemma_required_record::<Address>(members, "from"@, "Envelope"@, value.from);
        lemma_required_list::<Address>(members, "to"@, "Envelope"@, value.to);
        lemma_steady_object(Self::encoded(value)->Object_0);
    }

    proof fn reads_by_name(a: Seq<(Seq<char>, JsonView)>, b: Seq<(Seq<char>, JsonView)>) {
    }
}

/// A header is written as an array of its name and its value.
impl Wire for (String, String) {
    open spec fn decoded(tree: JsonView) -> Result<(Seq<char>, Seq<char>), DecodeErrorView> {
        match tree {
            JsonView::Array(items) => if items.len() == 2 {
                match (items[0], items[1]) {
                    (JsonView::Text(name), JsonView::Text(value)) => Ok((name, value)),
                    _ => Err(
                        DecodeErrorView::SchemaViolation { at: "header"@, expected: Shape::Pair },
                    ),
                }
            } else {
                Err(DecodeErrorView::SchemaViolation { at: "header"@, expected: Shape::Pair })
            },
            _ => Err(DecodeErrorView::SchemaViolation { at: "header"@, expected: Shape::Pair }),
        }
    }

    open spec fn encoded(value: (Seq<char>, Seq<char>)) -> JsonView {
        JsonView::Array(seq![JsonView::Text(value.0), JsonView::Text(value.1)])
    }

    open spec fn sound(value: (Seq<char>, Seq<char>)) -> bool {
        true
    }

    fn from_json(j: &Json) -> (r: Result<Self, DecodeError>) {
        proof {
            lemma_view(*j);
        }
        match j {
            Json::Array(items) => {
                if items.len() == 2 {
                    proof {
                        lemma_view(items@[0]);
                        lemma_view(items@[1]);
                    }
                    match (&items[0], &items[1]) {
                        (Json::Text(name), Json::Text(value)) => {
                            return Ok((name.clone(), value.clone()));
                        },
                        _ => {},
                    }
                }
            },
            _ => {},
        }
        Err(DecodeError::SchemaViolation { at: "header", expected: Shape::Pair })
    }

    fn to_json(&self) -> (j: Json) {
        let mut items: Vec<Json> = Vec::new();
        items.push(text_json(&self.0));
        items.push(text_json(&self.1));
        let j = Json::Array(items);
        proof {
            lemma_view(j);
            assert(crate::json::items_view(items@) =~= Self::encoded(self@)->Array_0);
        }
        j
    }

    proof fn round_trip(value: (Seq<char>, Seq<char>)) {
        let items = Self::encoded(value)->Array_0;
        assert(crate::bridge::settle_items(items) =~= items);
    }

    proof fn reads_by_name(a: Seq<(Seq<char>, JsonView)>, b: Seq<(Seq<char>, JsonView)>) {
    }
}

/// The headers of a list, where the list is not empty.
pub open spec fn headers_if_any(headers: Seq<(Seq<char>, Seq<char>)>) -> Option<JsonView> {
    if headers.len() == 0 {
        None
    } else {
        Some(JsonView::Array(each_encoded::<(String, String)>(headers)))
    }
}

/// The message as the mail server received it.
#[derive(Debug, Clone, PartialEq, Eq)]
pub struct Message {
    /// The headers in the order of the message, each a name and a value.
    pub headers: Vec<(String, String)>,
    /// The headers that the mail server added; in JSON `serverHeaders`.
    pub server_headers: Vec<(String, String)>,
    pub contents: String,
    pub size: usize,
}

/// The model of a [`Message`].
pub struct MessageView {
    pub headers: Seq<(Seq<char>, Seq<char>)>,
    pub server_headers: Seq<(Seq<char>, Seq<char>)>,
    pub contents: Seq<char>,
    pub size: usize,
}

impl View for Message {
    type V = MessageView;

    open spec fn view(&self) -> MessageView {
        MessageView {
            headers: list_view(self.headers@),
            server_headers: list_view(self.server_headers@),
            contents: self.contents@,
            size: self.size,
        }
    }
}

impl Wire for Message {
    open spec fn decoded(tree: JsonView) -> Result<MessageView, DecodeErrorView> {
        match members_of(tree, "Message"@) {
            Ok(members) => match required_list::<(String, String)>(
                members,
                "headers"@,
                "Message"@,
            ) {
                Ok(headers) => match defaulted_list::<(String, String)>(
                    members,
                    "serverHeaders"@,
                ) {
                    Ok(server_headers) => match required_text(members, "contents"@, "Message"@) {
                        Ok(contents) => match required_size(members, "size"@, "Message"@) {
                            Ok(size) => Ok(
                                MessageView { headers, server_headers, contents, size },
                            ),
                            Err(e) => Err(e),
                        },
                        Err(e) => Err(e),
                    },
                    Err(e) => Err(e),
                },
                Err(e) => Err(e),
            },
            Err(e) => Err(e),
        }
    }

    open spec fn encoded(value: MessageView) -> JsonView {
        Members::new().with(
            "headers"@,
            JsonView::Array(each_encoded::<(String, String)>(value.headers)),
        ).maybe("serverHeaders"@, headers_if_any(value.server_headers)).with(
            "contents"@,
            JsonView::Text(value.contents),
        ).with("size"@, unsigned_encoded(value.size as int)).object()
    }

    open spec fn sound(value: MessageView) -> bool {
        true
    }

    fn from_json(j: &Json) -> (r: Result<Self, DecodeError>) {
        let members = as_members(j, "Message")?;
        let headers = get_required_list::<(String, String)>(members, "headers", "Message")?;
        let server_headers = get_defaulted_list::<(String, String)>(members, "serverHeaders")?;
        let contents = get_required_text(members, "contents", "Message")?;
        let size = get_required_size(members, "size", "Message")?;
        Ok(Message { headers, server_headers, contents, size })
    }

    fn to_json(&self) -> (j: Json) {
        let mut members = no_members();
        add_member(&mut members, "headers", list_json(&self.headers));
        let server_headers = if self.server_headers.len() == 0 {
            None
        } else {
            Some(list_json(&self.server_headers))
        };
        add_optional_member(&mut members, "serverHeaders", server_headers);
        add_member(&mut members, "contents", text_json(&self.contents));
        add_member(&mut members, "size", unsigned_json(self.size as u64));
        object_json(members)
    }

    proof fn round_trip(value: MessageView) {
        broadcast use
            lemma_with,
            lemma_maybe,
            lemma_new,
            lemma_steady_with,
            lemma_steady_maybe,
            lemma_steady_new,
        ;

        reveal_strlit("headers");
        reveal_strlit("serverHeaders");
        reveal_strlit("contents");
        reveal_strlit("size");
        assert("headers"@.len() == 7 && "serverHeaders"@.len() == 13 && "contents"@.len() == 8
            && "size"@.len() == 4);
        let members = Self::encoded(value)->Object_0;
        lemma_required_list::<(String, String)>(members, "headers"@, "Message"@, value.headers);
        if value.server_headers.len() == 0 {
            assert(value.server_headers =~= Seq::empty());
        } else {
            lemma_required_list::<(String, String)>(
                members,
                "serverHeaders"@,
                "Message"@,
                value.server_headers,
            );
        }
        lemma_steady_object(Self::encoded(value)->Object_0);
    }

    proof fn reads_by_name(a: Seq<(Seq<char>, JsonView)>, b: Seq<(Seq<char>, JsonView)>) {
    }
}

/// What the mail server sends: the context of the transaction, and the
/// envelope and the message once the transaction has them.
#[derive(Debug, Clone, PartialEq, Eq)]
pub struct Request {
    pub context: Context,
    pub envelope: Option<Envelope>,
    pub message: Option<Message>,
}

/// The model of a [`Request`].
pub struct RequestView {
    pub context: ContextView,
    pub envelope: Option<EnvelopeView>,
    pub message: Option<MessageView>,
}

impl View for Request {
    type V = RequestView;

    open spec fn view(&self) -> RequestView {
        RequestView {
            context: self.context@,
            envelope: option_view(self.envelope),
            message: option_view(self.message),
        }
    }
}

impl Wire for Request {
    open spec fn decoded(tree: JsonView) -> Result<RequestView, DecodeErrorView> {
        match members_of(tree, "Request"@) {
            Ok(members) => match required_record::<Context>(members, "context"@, "Request"@) {
                Ok(context) => match optional_record::<Envelope>(members, "envelope"@) {
                    Ok(envelope) => match optional_record::<Message>(members, "message"@) {
                        Ok(message) => Ok(RequestView { context, envelope, message }),
                        Err(e) => Err(e),
                    },
                    Err(e) => Err(e),
                },
                Err(e) => Err(e),
            },
            Err(e) => Err(e),
        }
    }

    open spec fn encoded(value: RequestView) -> JsonView {
        Members::new().with("context"@, Context::encoded(value.context)).maybe(
            "envelope"@,
            encoded_if_some::<Envelope>(value.envelope),
        ).maybe("message"@, encoded_if_some::<Message>(value.message)).object()
    }

    open spec fn sound(value: RequestView) -> bool {
        value.envelope matches Some(envelope) ==> Envelope::sound(envelope)
    }

    fn from_json(j: &Json) -> (r: Result<Self, DecodeError>) {
        let members = as_members(j, "Request")?;
        let context = get_required_record::<Context>(members, "context", "Request")?;
        let envelope = get_optional_record::<Envelope>(members, "envelope")?;
        let message = get_optional_record::<Message>(members, "message")?;
        Ok(Request { context, envelope, message })
    }

    fn to_json(&self) -> (j: Json) {
        let mut members = no_members();
        add_member(&mut members, "context", self.context.to_json());
        add_optional_member(&mut members, "envelope", optional_json(&self.envelope));
        add_optional_member(&mut members, "message", optional_json(&self.message));
        object_json(members)
    }

    proof fn round_trip(value: RequestView) {
        broadcast use
            lemma_with,
            lemma_maybe,
            lemma_new,
            lemma_steady_with,
            lemma_steady_maybe,
            lemma_steady_new,
        ;

        reveal_strlit("context");
        reveal_strlit("envelope");
        reveal_strlit("message");
        assert("context"@.len() == 7 && "envelope"@.len() == 8 && "message"@.len() == 7);
        assert("context"@[0] != "message"@[0]);
        let members = Self::encoded(value)->Object_0;
        lemma_required_record::<Context>(members, "context"@, "Request"@, value.context);
        lemma_optional_record::<Envelope>(members, "envelope"@, value.envelope);
        lemma_optional_record::<Message>(members, "message"@, value.message);
        lemma_steady_object(Self::encoded(value)->Object_0);
    }

    proof fn reads_by_name(a: Seq<(Seq<char>, JsonView)>, b: Seq<(Seq<char>, JsonView)>) {
    }
}

} // verus!
