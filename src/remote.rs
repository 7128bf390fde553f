//! Command dispatch: the vendor a brand selects, the frames each vendor
//! adapter sends, and the session that walks a dispatch through connect,
//! handshake, registration, command, settle and close.
//!
//! The caller owns the connection. It asks the session for its next action,
//! performs it, and reports what happened as an event.
use vstd::prelude::*;
use crate::json::{lemma_plain_quoted, is_valid_url, json_pointer_text, json_quoted, json_string, json_text_at, needs_no_escape, url_parses};
use crate::keys::{lemma_samsung_codes_plain, lg_command_uri, lg_uri_for, samsung_code_for, samsung_key_code};
use crate::ssdp::opt_view;
use crate::text::{contains_text, has_substring, same_text, upper_of, uppercase};

verus! {

/// How long opening a connection may take, in milliseconds.
pub const CONNECT_TIMEOUT_MS: u64 = 5000;

/// How many replies an LG session reads while waiting for registration.
pub const MAX_REGISTRATION_ATTEMPTS: u32 = 20;

/// How long each of those reads may wait, in milliseconds.
pub const REPLY_TIMEOUT_MS: u64 = 2000;

/// How long a session waits after its command before closing, in
/// milliseconds.
pub const SETTLE_MS: u64 = 300;

/// The protocol family a dispatch uses.
#[derive(Clone, Copy, Debug, PartialEq, Eq, Structural)]
pub enum TvBrand {
    Samsung,
    Lg,
    Unsupported,
}

/// The protocol family that a brand name selects, by substrings of its
/// upper-case form; LG is tried first.
pub open spec fn brand_of(brand: Seq<char>) -> TvBrand {
    let u = upper_of(brand);
    if has_substring(u, "LG"@) || has_substring(u, "WEBOS"@) {
        TvBrand::Lg
    } else if has_substring(u, "SAMSUNG"@) || has_substring(u, "TIZEN"@) {
        TvBrand::Samsung
    } else {
        TvBrand::Unsupported
    }
}

/// The protocol family that `brand` selects.
pub fn dispatch_brand(brand: &str) -> (r: TvBrand)
    ensures
        r == brand_of(brand@),
{
    let upper = uppercase(brand);
    let u = upper.as_str();
    if contains_text(u, "LG") || contains_text(u, "WEBOS") {
        TvBrand::Lg
    } else if contains_text(u, "SAMSUNG") || contains_text(u, "TIZEN") {
        TvBrand::Samsung
    } else {
        TvBrand::Unsupported
    }
}

pub open spec fn spec_samsung_url(ip: Seq<char>) -> Seq<char> {
    "wss://"@ + ip + ":8002/api/v2/channels/samsung.remote.control?name=VGVzdFJlbW90ZQ=="@
}

pub open spec fn spec_lg_url(ip: Seq<char>) -> Seq<char> {
    "wss://"@ + ip + ":3001"@
}

/// The Samsung remote-control envelope around an already quoted key code.
pub open spec fn spec_samsung_frame(quoted_code: Seq<char>) -> Seq<char> {
    "{\"method\":\"ms.remote.control\",\"params\":{\"Cmd\":\"Click\",\"DataOfCmd\":"@ + quoted_code
        + ",\"Option\":\"false\",\"TypeOfRemote\":\"SendRemoteKey\"}}"@
}

/// The LG registration envelope around an already quoted client key.
pub open spec fn spec_lg_handshake(quoted_key: Seq<char>) -> Seq<char> {
    "{\"type\":\"register\",\"id\":\"register_0\",\"payload\":{\"forcePairing\":false,\"pairingType\":\"PROMPT\",\"client-key\":"@
        + quoted_key
        + ",\"manifest\":{\"permissions\":[\"LAUNCH\",\"CONTROL_AUDIO\",\"CONTROL_INPUT_MEDIA_PLAYBACK\",\"CONTROL_POWER\",\"READ_CURRENT_CHANNEL\",\"CONTROL_DISPLAY\",\"CONTROL_INPUT_TEXT\",\"CONTROL_MOUSE_AND_KEYBOARD\",\"READ_RUNNING_APPS\"],\"appVersion\":\"1.0\"}}}"@
}

/// The LG request envelope around an already quoted command URI.
pub open spec fn spec_lg_request(quoted_uri: Seq<char>) -> Seq<char> {
    "{\"type\":\"request\",\"id\":\"req_1\",\"uri\":"@ + quoted_uri + "}"@
}

/// The secure WebSocket address of a Samsung TV's remote-control channel.
pub fn samsung_url(ip: &str) -> (r: String)
    ensures
        r@ == spec_samsung_url(ip@),
{
    String::from_str("wss://").concat(ip).concat(
        ":8002/api/v2/channels/samsung.remote.control?name=VGVzdFJlbW90ZQ==",
    )
}

/// The secure WebSocket address of an LG TV's control port.
pub fn lg_url(ip: &str) -> (r: String)
    ensures
        r@ == spec_lg_url(ip@),
{
    String::from_str("wss://").concat(ip).concat(":3001")
}

/// The Samsung frame that presses key code `code`.
pub fn samsung_frame(code: &str) -> (r: String)
    ensures
        r@ == spec_samsung_frame(json_quoted(code@)),
        needs_no_escape(code@) ==> json_quoted(code@) == seq!['"'] + code@ + seq!['"'],
{
    proof {
        if needs_no_escape(code@) {
            lemma_plain_quoted(code@);
        }
    }
    let q = json_string(code);
    String::from_str(
        "{\"method\":\"ms.remote.control\",\"params\":{\"Cmd\":\"Click\",\"DataOfCmd\":",
    ).concat(q.as_str()).concat(",\"Option\":\"false\",\"TypeOfRemote\":\"SendRemoteKey\"}}")
}

/// The LG registration frame that offers client key `key`.
pub fn lg_handshake(key: &str) -> (r: String)
    ensures
        r@ == spec_lg_handshake(json_quoted(key@)),
{
    let q = json_string(key);
    String::from_str(
        "{\"type\":\"register\",\"id\":\"register_0\",\"payload\":{\"forcePairing\":false,\"pairingType\":\"PROMPT\",\"client-key\":",
    ).concat(q.as_str()).concat(
        ",\"manifest\":{\"permissions\":[\"LAUNCH\",\"CONTROL_AUDIO\",\"CONTROL_INPUT_MEDIA_PLAYBACK\",\"CONTROL_POWER\",\"READ_CURRENT_CHANNEL\",\"CONTROL_DISPLAY\",\"CONTROL_INPUT_TEXT\",\"CONTROL_MOUSE_AND_KEYBOARD\",\"READ_RUNNING_APPS\"],\"appVersion\":\"1.0\"}}}",
    )
}

/// The LG request frame that invokes command URI `uri`.
pub fn lg_request(uri: &str) -> (r: String)
    ensures
        r@ == spec_lg_request(json_quoted(uri@)),
{
    let q = json_string(uri);
    String::from_str("{\"type\":\"request\",\"id\":\"req_1\",\"uri\":").concat(q.as_str()).concat("}")
}

/// The outcome of one dispatch.
#[derive(Clone, Debug)]
pub struct CommandResult {
    pub success: bool,
    /// A readable account of what happened.
    pub message: String,
    /// A client key the TV issued during this dispatch, for the caller to
    /// keep and offer next time.
    pub updated_credential: Option<String>,
}

pub struct ResultView {
    pub success: bool,
    pub message: Seq<char>,
    pub updated_credential: Option<Seq<char>>,
}

impl View for CommandResult {
    type V = ResultView;

    open spec fn view(&self) -> ResultView {
        ResultView {
            success: self.success,
            message: self.message@,
            updated_credential: opt_view(self.updated_credential),
        }
    }
}

/// Where a dispatch session stands.
#[derive(Clone, Copy, Debug, PartialEq, Eq, Structural)]
pub enum Phase {
    Connecting,
    SendingHandshake,
    AwaitingRegistration,
    SendingCommand,
    Pausing,
    Closing,
    Finished,
}

/// A message read from an LG TV while waiting for registration.
pub enum Reply {
    /// A message of type "registered", with the client key it carried.
    Registered { client_key: Option<String> },
    /// Any other message.
    Other,
}

/// What the caller reports after performing an action.
pub enum Event {
    Connected,
    ConnectFailed { detail: String },
    Sent,
    SendFailed { detail: String },
    /// A text message arrived.
    Received { reply: Reply },
    /// The read timed out, or brought something other than text.
    NothingReceived,
    /// The TV closed the stream.
    StreamEnded,
    Paused,
    /// The connection was closed (whether or not closing reported an error).
    Closed,
}

/// What the caller should do next.
pub enum Action {
    /// Open a WebSocket connection to `url`, trusting any certificate and
    /// giving up after `timeout_ms`.
    Connect { url: String, timeout_ms: u64 },
    /// Send `frame` as one text message.
    Send { frame: String },
    /// Read one message, waiting at most `timeout_ms`.
    Receive { timeout_ms: u64 },
    /// Wait `ms` milliseconds.
    Pause { ms: u64 },
    /// Close the connection.
    Close,
    /// The session is over: take its result.
    Finish,
}

pub struct SessionView {
    pub brand: TvBrand,
    pub url: Seq<char>,
    pub handshake: Seq<char>,
    pub command: Seq<char>,
    pub phase: Phase,
    pub attempts: nat,
    pub credential: Option<Seq<char>>,
    pub outcome: Option<ResultView>,
}

impl SessionView {
    pub open spec fn well_formed(self) -> bool {
        &&& (self.phase == Phase::Finished) == (self.outcome is Some)
        &&& self.attempts <= MAX_REGISTRATION_ATTEMPTS
        &&& self.phase == Phase::AwaitingRegistration ==> self.attempts < MAX_REGISTRATION_ATTEMPTS
        &&& self.brand != TvBrand::Lg ==> self.phase != Phase::SendingHandshake && self.phase
            != Phase::AwaitingRegistration
        &&& self.brand == TvBrand::Unsupported ==> self.phase == Phase::Finished
    }
}

pub open spec fn lg_pairing_hint() -> Seq<char> {
    " (acepta la solicitud de emparejamiento en la pantalla del televisor)"@
}

pub open spec fn connect_failure(brand: TvBrand, detail: Seq<char>) -> Seq<char> {
    if brand == TvBrand::Lg {
        "Error conectando LG: "@ + detail + lg_pairing_hint()
    } else {
        "Error conectando a Samsung: "@ + detail
    }
}

pub open spec fn handshake_failure(detail: Seq<char>) -> Seq<char> {
    "Error enviando handshake LG: "@ + detail
}

pub open spec fn send_failure(brand: TvBrand, detail: Seq<char>) -> Seq<char> {
    if brand == TvBrand::Lg {
        "Error enviando comando: "@ + detail
    } else {
        "Error enviando a Samsung: "@ + detail
    }
}

pub open spec fn not_registered() -> Seq<char> {
    "No se pudo registrar en LG (Timeout o Rechazado)"@
}

pub open spec fn unsupported_brand(brand: Seq<char>) -> Seq<char> {
    "Marca no soportada: "@ + brand
}

pub open spec fn invalid_samsung_url() -> Seq<char> {
    "URL Samsung inválida"@
}

pub open spec fn success_message(brand: TvBrand) -> Seq<char> {
    if brand == TvBrand::Lg {
        "Comando LG OK"@
    } else {
        "Comando Samsung OK"@
    }
}

/// `s` ended in failure with `message`.
pub open spec fn failed(s: SessionView, message: Seq<char>) -> SessionView {
    SessionView {
        phase: Phase::Finished,
        outcome: Some(ResultView { success: false, message, updated_credential: None }),
        ..s
    }
}

/// A session that makes no connection and fails with `message`.
pub open spec fn refused(brand: TvBrand, message: Seq<char>) -> SessionView {
    SessionView {
        brand,
        url: Seq::empty(),
        handshake: Seq::empty(),
        command: Seq::empty(),
        phase: Phase::Finished,
        attempts: 0,
        credential: None,
        outcome: Some(ResultView { success: false, message, updated_credential: None }),
    }
}

/// A session about to connect to `url`.
pub open spec fn opening(brand: TvBrand, url: Seq<char>, handshake: Seq<char>, command: Seq<char>) -> SessionView {
    SessionView {
        brand,
        url,
        handshake,
        command,
        phase: Phase::Connecting,
        attempts: 0,
        credential: None,
        outcome: None,
    }
}

/// A Samsung session that presses key code `code` on the TV at `ip`.
pub open spec fn samsung_session(ip: Seq<char>, code: Seq<char>) -> SessionView {
    if is_valid_url(spec_samsung_url(ip)) {
        opening(
            TvBrand::Samsung,
            spec_samsung_url(ip),
            Seq::empty(),
            spec_samsung_frame(json_quoted(code)),
        )
    } else {
        refused(TvBrand::Samsung, invalid_samsung_url())
    }
}

/// The client key an LG session offers: the caller's, else the text "null".
pub open spec fn offered_key(client_key: Option<Seq<char>>) -> Seq<char> {
    match client_key {
        Some(k) => k,
        None => "null"@,
    }
}

/// An LG session that invokes `uri` on the TV at `ip`.
pub open spec fn lg_session(ip: Seq<char>, uri: Seq<char>, client_key: Option<Seq<char>>) -> SessionView {
    opening(
        TvBrand::Lg,
        spec_lg_url(ip),
        spec_lg_handshake(json_quoted(offered_key(client_key))),
        spec_lg_request(json_quoted(uri)),
    )
}

/// The session for pressing key name `key` on a TV of brand `brand` at `ip`.
pub open spec fn initial(
    ip: Seq<char>,
    brand: Seq<char>,
    key: Seq<char>,
    client_key: Option<Seq<char>>,
) -> SessionView {
    match brand_of(brand) {
        TvBrand::Samsung => samsung_session(ip, samsung_code_for(key)),
        TvBrand::Lg => lg_session(ip, lg_uri_for(key), client_key),
        TvBrand::Unsupported => refused(TvBrand::Unsupported, unsupported_brand(brand)),
    }
}

/// One transition of a session on event `ev`; an event that does not
/// answer the current action leaves the session as it is.
pub open spec fn step(s: SessionView, ev: Event) -> SessionView {
    match s.phase {
        Phase::Connecting => match ev {
            Event::Connected => if s.brand == TvBrand::Lg {
                SessionView { phase: Phase::SendingHandshake, ..s }
            } else {
                SessionView { phase: Phase::SendingCommand, ..s }
            },
            Event::ConnectFailed { detail } => failed(s, connect_failure(s.brand, detail@)),
            _ => s,
        },
        Phase::SendingHandshake => match ev {
            Event::Sent => SessionView { phase: Phase::AwaitingRegistration, attempts: 0, ..s },
            Event::SendFailed { detail } => failed(s, handshake_failure(detail@)),
            _ => s,
        },
        Phase::AwaitingRegistration => match ev {
            Event::Received { reply: Reply::Registered { client_key } } => SessionView {
                phase: Phase::SendingCommand,
                credential: opt_view(client_key),
                ..s
            },
            Event::Received { reply: Reply::Other } | Event::NothingReceived => if s.attempts + 1
                < MAX_REGISTRATION_ATTEMPTS {
                SessionView { attempts: s.attempts + 1, ..s }
            } else {
                failed(s, not_registered())
            },
            Event::StreamEnded => failed(s, not_registered()),
            _ => s,
        },
        Phase::SendingCommand => match ev {
            Event::Sent => SessionView { phase: Phase::Pausing, ..s },
            Event::SendFailed { detail } => failed(s, send_failure(s.brand, detail@)),
            _ => s,
        },
        Phase::Pausing => match ev {
            Event::Paused => SessionView { phase: Phase::Closing, ..s },
            _ => s,
        },
        Phase::Closing => match ev {
            Event::Closed => SessionView {
                phase: Phase::Finished,
                outcome: Some(
                    ResultView {
                        success: true,
                        message: success_message(s.brand),
                        updated_credential: s.credential,
                    },
                ),
                ..s
            },
            _ => s,
        },
        Phase::Finished => s,
    }
}

/// The session after the events `evs`, in order.
pub open spec fn run(s: SessionView, evs: Seq<Event>) -> SessionView
    decreases evs.len(),
{
    if evs.len() == 0 {
        s
    } else {
        run(step(s, evs[0]), evs.drop_first())
    }
}

/// Whether `a` is the action that session `s` asks for.
pub open spec fn asks_for(s: SessionView, a: Action) -> bool {
    match a {
        Action::Connect { url, timeout_ms } => s.phase == Phase::Connecting && url@ == s.url
            && timeout_ms == CONNECT_TIMEOUT_MS,
        Action::Send { frame } => (s.phase == Phase::SendingHandshake && frame@ == s.handshake) || (
        s.phase == Phase::SendingCommand && frame@ == s.command),
        Action::Receive { timeout_ms } => s.phase == Phase::AwaitingRegistration && timeout_ms
            == REPLY_TIMEOUT_MS,
        Action::Pause { ms } => s.phase == Phase::Pausing && ms == SETTLE_MS,
        Action::Close => s.phase == Phase::Closing,
        Action::Finish => s.phase == Phase::Finished,
    }
}

/// Whether a message type names a completed registration.
pub open spec fn is_registered_kind(kind: Option<String>) -> bool {
    match kind {
        Some(k) => k@ == "registered"@,
        None => false,
    }
}

/// The reply that a message of type `kind` carrying `client_key` is.
pub fn reply_from_fields(kind: Option<String>, client_key: Option<String>) -> (r: Reply)
    ensures
        match r {
            Reply::Registered { client_key: k } => is_registered_kind(kind) && opt_view(k)
                == opt_view(client_key),
            Reply::Other => !is_registered_kind(kind),
        },
{
    let registered = match &kind {
        Some(k) => same_text(k.as_str(), "registered"),
        None => false,
    };
    if registered {
        Reply::Registered { client_key }
    } else {
        Reply::Other
    }
}

/// Reads an LG text message: its `type` member and the `client-key` member
/// of its `payload`.
pub fn decode_reply(text: &str) -> (r: Reply)
    ensures
        match r {
            Reply::Registered { client_key } => json_pointer_text(text@, "/type"@) == Some(
                "registered"@,
            ) && opt_view(client_key) == json_pointer_text(text@, "/payload/client-key"@),
            Reply::Other => json_pointer_text(text@, "/type"@) != Some("registered"@),
        },
{
    let kind = json_text_at(text, "/type");
    let key = json_text_at(text, "/payload/client-key");
    reply_from_fields(kind, key)
}

/// One dispatch: the frames it sends and where it stands.
pub struct Session {
    brand: TvBrand,
    url: String,
    handshake: String,
    command: String,
    phase: Phase,
    attempts: u32,
    credential: Option<String>,
    outcome: Option<CommandResult>,
}

impl View for Session {
    type V = SessionView;

    closed spec fn view(&self) -> SessionView {
        SessionView {
            brand: self.brand,
            url: self.url@,
            handshake: self.handshake@,
            command: self.command@,
            phase: self.phase,
            attempts: self.attempts as nat,
            credential: opt_view(self.credential),
            outcome: match self.outcome {
                Some(c) => Some(c@),
                None => None,
            },
        }
    }
}

fn failure(message: String) -> (r: CommandResult)
    ensures
        r@ == (ResultView { success: false, message: message@, updated_credential: None }),
{
    CommandResult { success: false, message, updated_credential: None }
}

fn refused_session(brand: TvBrand, message: String) -> (r: Session)
    ensures
        r@ == refused(brand, message@),
{
    Session {
        brand,
        url: String::new(),
        handshake: String::new(),
        command: String::new(),
        phase: Phase::Finished,
        attempts: 0,
        credential: None,
        outcome: Some(failure(message)),
    }
}

impl Session {
    /// A Samsung session that presses key code `key_code` on the TV at `ip`.
    pub fn samsung(ip: &str, key_code: &str) -> (r: Session)
        ensures
            r@ == samsung_session(ip@, key_code@),
            r@.well_formed(),
            needs_no_escape(key_code@) ==> json_quoted(key_code@) == seq!['"'] + key_code@ + seq!['"'],
    {
        let command = samsung_frame(key_code);
        let url = samsung_url(ip);
        if !url_parses(url.as_str()) {
            return refused_session(TvBrand::Samsung, String::from_str("URL Samsung inválida"));
        }
        Session {
            brand: TvBrand::Samsung,
            url,
            handshake: String::new(),
            command,
            phase: Phase::Connecting,
            attempts: 0,
            credential: None,
            outcome: None,
        }
    }

    /// An LG session that invokes `command_uri` on the TV at `ip`, offering
    /// `client_key` if the caller holds one.
    pub fn lg(ip: &str, command_uri: &str, client_key: Option<String>) -> (r: Session)
        ensures
            r@ == lg_session(ip@, command_uri@, opt_view(client_key)),
            r@.well_formed(),
    {
        let handshake = match &client_key {
            Some(k) => lg_handshake(k.as_str()),
            None => lg_handshake("null"),
        };
        Session {
            brand: TvBrand::Lg,
            url: lg_url(ip),
            handshake,
            command: lg_request(command_uri),
            phase: Phase::Connecting,
            attempts: 0,
            credential: None,
            outcome: None,
        }
    }

    /// The session for pressing key name `key` on a TV of brand `brand` at
    /// `ip`; an unsupported brand gives a session that is already over.
    pub fn new(ip: &str, brand: &str, key: &str, client_key: Option<String>) -> (r: Session)
        ensures
            r@ == initial(ip@, brand@, key@, opt_view(client_key)),
            r@.well_formed(),
            brand_of(brand@) == TvBrand::Samsung ==> json_quoted(samsung_code_for(key@)) == seq!['"']
                + samsung_code_for(key@) + seq!['"'],
    {
        match dispatch_brand(brand) {
            TvBrand::Samsung => {
                let code = samsung_key_code(key);
                proof {
                    lemma_samsung_codes_plain(key@);
                }
                Session::samsung(ip, code)
            },
            TvBrand::Lg => Session::lg(ip, lg_command_uri(key), client_key),
            TvBrand::Unsupported => refused_session(
                TvBrand::Unsupported,
                String::from_str("Marca no soportada: ").concat(brand),
            ),
        }
    }

    /// What the caller should do next.
    pub fn next_action(&self) -> (r: Action)
        ensures
            asks_for(self@, r),
    {
        match self.phase {
            Phase::Connecting => Action::Connect { url: self.url.clone(), timeout_ms: CONNECT_TIMEOUT_MS },
            Phase::SendingHandshake => Action::Send { frame: self.handshake.clone() },
            Phase::AwaitingRegistration => Action::Receive { timeout_ms: REPLY_TIMEOUT_MS },
            Phase::SendingCommand => Action::Send { frame: self.command.clone() },
            Phase::Pausing => Action::Pause { ms: SETTLE_MS },
            Phase::Closing => Action::Close,
            Phase::Finished => Action::Finish,
        }
    }

    fn fail(&mut self, message: String)
        ensures
            final(self)@ == failed(old(self)@, message@),
    {
        self.phase = Phase::Finished;
        self.outcome = Some(failure(message));
    }

    /// Takes in what happened when the caller performed the last action.
    pub fn on_event(&mut self, ev: Event)
        requires
            old(self)@.well_formed(),
        ensures
            final(self)@ == step(old(self)@, ev),
            final(self)@.well_formed(),
    {
        match self.phase {
            Phase::Connecting => match ev {
                Event::Connected => {
                    if self.brand == TvBrand::Lg {
                        self.phase = Phase::SendingHandshake;
                    } else {
                        self.phase = Phase::SendingCommand;
                    }
                },
                Event::ConnectFailed { detail } => {
                    let message = if self.brand == TvBrand::Lg {
                        String::from_str("Error conectando LG: ").concat(detail.as_str()).concat(
                            " (acepta la solicitud de emparejamiento en la pantalla del televisor)",
                        )
                    } else {
                        String::from_str("Error conectando a Samsung: ").concat(detail.as_str())
                    };
                    self.fail(message);
                },
                _ => {},
            },
            Phase::SendingHandshake => match ev {
                Event::Sent => {
                    self.phase = Phase::AwaitingRegistration;
                    self.attempts = 0;
                },
                Event::SendFailed { detail } => {
                    self.fail(String::from_str("Error enviando handshake LG: ").concat(detail.as_str()));
                },
                _ => {},
            },
            Phase::AwaitingRegistration => match ev {
                Event::Received { reply: Reply::Registered { client_key } } => {
                    self.phase = Phase::SendingCommand;
                    self.credential = client_key;
                },
                Event::Received { reply: Reply::Other } | Event::NothingReceived => {
                    if self.attempts + 1 < MAX_REGISTRATION_ATTEMPTS {
                        self.attempts = self.attempts + 1;
                    } else {
                        self.fail(String::from_str("No se pudo registrar en LG (Timeout o Rechazado)"));
                    }
                },
                Event::StreamEnded => {
                    self.fail(String::from_str("No se pudo registrar en LG (Timeout o Rechazado)"));
                },
                _ => {},
            },
            Phase::SendingCommand => match ev {
                Event::Sent => {
                    self.phase = Phase::Pausing;
                },
                Event::SendFailed { detail } => {
                    let message = if self.brand == TvBrand::Lg {
                        String::from_str("Error enviando comando: ").concat(detail.as_str())
                    } else {
                        String::from_str("Error enviando a Samsung: ").concat(detail.as_str())
                    };
                    self.fail(message);
                },
                _ => {},
            },
            Phase::Pausing => match ev {
                Event::Paused => {
                    self.phase = Phase::Closing;
                },
                _ => {},
            },
            Phase::Closing => match ev {
                Event::Closed => {
                    let message = if self.brand == TvBrand::Lg {
                        String::from_str("Comando LG OK")
                    } else {
                        String::from_str("Comando Samsung OK")
                    };
                    let credential = self.credential.clone();
                    self.outcome = Some(
                        CommandResult { success: true, message, updated_credential: credential },
                    );
                    self.phase = Phase::Finished;
                },
                _ => {},
            },
            Phase::Finished => {},
        }
    }

    /// The result, once the session is over.
    pub fn result(self) -> (r: Option<CommandResult>)
        ensures
            match r {
                Some(c) => self@.outcome == Some(c@),
                None => self@.outcome is None,
            },
    {
        self.outcome
    }
}

/// The reply text for a finished dispatch: its message on failure and for
/// Samsung; for LG a JSON status, with the new client key when there is one.
pub open spec fn spec_reply_text(brand: TvBrand, r: ResultView) -> Result<Seq<char>, Seq<char>> {
    if !r.success {
        Err(r.message)
    } else if brand != TvBrand::Lg {
        Ok(r.message)
    } else {
        match r.updated_credential {
            Some(k) => Ok("{\"status\":\"OK\",\"new_key\":"@ + json_quoted(k) + "}"@),
            None => Ok("{\"status\":\"OK\"}"@),
        }
    }
}

/// The reply text for result `r` of a dispatch to a TV of brand `brand`.
pub fn reply_text(brand: TvBrand, r: CommandResult) -> (out: Result<String, String>)
    ensures
        match (out, spec_reply_text(brand, r@)) {
            (Ok(t), Ok(u)) => t@ == u,
            (Err(t), Err(u)) => t@ == u,
            _ => false,
        },
{
    if !r.success {
        return Err(r.message);
    }
    if brand != TvBrand::Lg {
        return Ok(r.message);
    }
    match r.updated_credential {
        Some(k) => {
            let q = json_string(k.as_str());
            Ok(String::from_str("{\"status\":\"OK\",\"new_key\":").concat(q.as_str()).concat("}"))
        },
        None => Ok(String::from_str("{\"status\":\"OK\"}")),
    }
}

/// Whether `ev` is what a read can report while no registration arrives.
pub open spec fn is_unregistered_read(ev: Event) -> bool {
    match ev {
        Event::Received { reply: Reply::Other } => true,
        Event::NothingReceived => true,
        Event::StreamEnded => true,
        _ => false,
    }
}

/// A session that is finished stays as it is, whatever is reported.
pub proof fn lemma_finished_is_final(s: SessionView, evs: Seq<Event>)
    requires
        s.phase == Phase::Finished,
    ensures
        run(s, evs) == s,
    decreases evs.len(),
{
    if evs.len() > 0 {
        lemma_finished_is_final(step(s, evs[0]), evs.drop_first());
    }
}

/// An unsupported brand: the session fails at once and, whatever is
/// reported to it, never asks for anything but to finish, so no connection
/// is opened and nothing is sent.
pub proof fn lemma_unsupported_brand_makes_no_call(
    ip: Seq<char>,
    brand: Seq<char>,
    key: Seq<char>,
    client_key: Option<Seq<char>>,
    evs: Seq<Event>,
    a: Action,
)
    requires
        brand_of(brand) == TvBrand::Unsupported,
        asks_for(run(initial(ip, brand, key, client_key), evs), a),
    ensures
        a is Finish,
        initial(ip, brand, key, client_key).outcome == Some(
            ResultView {
                success: false,
                message: unsupported_brand(brand),
                updated_credential: None,
            },
        ),
{
    lemma_finished_is_final(initial(ip, brand, key, client_key), evs);
}

/// A Samsung dispatch of a well-formed session sends one frame, the key
/// press built from the key's code, and succeeds once it is sent, the pause
/// is over and the connection closed; for `VOL_UP` that code is `KEY_VOLUP`.
pub proof fn lemma_samsung_sends_one_press(ip: Seq<char>, brand: Seq<char>, key: Seq<char>)
    requires
        brand_of(brand) == TvBrand::Samsung,
        is_valid_url(spec_samsung_url(ip)),
    ensures
        ({
            let s = initial(ip, brand, key, None);
            let connected = step(s, Event::Connected);
            &&& s.phase == Phase::Connecting
            &&& connected.phase == Phase::SendingCommand
            &&& connected.command == spec_samsung_frame(json_quoted(samsung_code_for(key)))
            &&& step(connected, Event::Sent).phase == Phase::Pausing
            &&& run(connected, seq![Event::Sent, Event::Paused, Event::Closed]).outcome == Some(
                ResultView {
                    success: true,
                    message: "Comando Samsung OK"@,
                    updated_credential: None,
                },
            )
        }),
        key == "VOL_UP"@ ==> samsung_code_for(key) == "KEY_VOLUP"@,
        key == "VOL_UP"@ ==> step(initial(ip, brand, key, None), Event::Connected).command
            == spec_samsung_frame("\"KEY_VOLUP\""@),
{
    let s = initial(ip, brand, key, None);
    let connected = step(s, Event::Connected);
    let evs = seq![Event::Sent, Event::Paused, Event::Closed];
    let e1 = evs.drop_first();
    let e2 = e1.drop_first();
    let e3 = e2.drop_first();
    assert(e1 =~= seq![Event::Paused, Event::Closed]);
    assert(e2 =~= seq![Event::Closed]);
    assert(e3 =~= Seq::<Event>::empty());
    let s1 = step(connected, evs[0]);
    let s2 = step(s1, e1[0]);
    let s3 = step(s2, e2[0]);
    assert(run(s3, e3) == s3);
    assert(run(s2, e2) == run(s3, e3));
    assert(run(s1, e1) == run(s2, e2));
    assert(run(connected, evs) == run(s1, e1));
    reveal_strlit("VOL_UP");
    if key == "VOL_UP"@ {
        reveal_strlit("KEY_VOLUP");
        reveal_strlit("\"KEY_VOLUP\"");
        lemma_samsung_codes_plain(key);
        lemma_plain_quoted("KEY_VOLUP"@);
        assert(seq!['"'] + "KEY_VOLUP"@ + seq!['"'] =~= "\"KEY_VOLUP\""@);
    }
}

/// The registration budget: a session waiting for registration to which
/// only reads without a registration are reported is finished, in failure,
/// once the budget is spent, and on the way never reaches the point of
/// sending its command.
pub proof fn lemma_no_command_without_registration(s: SessionView, evs: Seq<Event>)
    requires
        s.well_formed(),
        s.phase == Phase::AwaitingRegistration,
        evs.len() >= MAX_REGISTRATION_ATTEMPTS - s.attempts,
        forall|i: int| 0 <= i < evs.len() ==> is_unregistered_read(#[trigger] evs[i]),
    ensures
        run(s, evs).phase == Phase::Finished,
        run(s, evs).outcome == Some(
            ResultView { success: false, message: not_registered(), updated_credential: None },
        ),
        forall|k: int| 0 <= k <= evs.len() ==> (#[trigger] run(s, evs.take(k))).phase
            != Phase::SendingCommand,
{
    lemma_unregistered_reads(s, evs);
}

/// Waiting or failed for want of registration.
pub open spec fn waiting_or_refused(s: SessionView) -> bool {
    ||| s.phase == Phase::AwaitingRegistration && s.attempts < MAX_REGISTRATION_ATTEMPTS
    ||| s.phase == Phase::Finished && s.outcome == Some(
        ResultView { success: false, message: not_registered(), updated_credential: None },
    )
}

proof fn lemma_unregistered_reads(s: SessionView, evs: Seq<Event>)
    requires
        waiting_or_refused(s),
        s.phase == Phase::AwaitingRegistration ==> evs.len() >= MAX_REGISTRATION_ATTEMPTS
            - s.attempts,
        forall|i: int| 0 <= i < evs.len() ==> is_unregistered_read(#[trigger] evs[i]),
    ensures
        waiting_or_refused(run(s, evs)),
        run(s, evs).phase == Phase::Finished,
        forall|k: int| 0 <= k <= evs.len() ==> waiting_or_refused(#[trigger] run(s, evs.take(k))),
    decreases evs.len(),
{
    if evs.len() == 0 {
        assert(evs.take(0) =~= evs);
    } else {
        let next = step(s, evs[0]);
        let rest = evs.drop_first();
        assert(is_unregistered_read(evs[0]));
        assert forall|i: int| 0 <= i < rest.len() implies is_unregistered_read(#[trigger] rest[i]) by {
            assert(rest[i] == evs[i + 1]);
        }
        lemma_unregistered_reads(next, rest);
        assert forall|k: int| 0 <= k <= evs.len() implies waiting_or_refused(
            #[trigger] run(s, evs.take(k)),
        ) by {
            if k == 0 {
                assert(evs.take(0) =~= Seq::<Event>::empty());
            } else {
                assert(evs.take(k)[0] == evs[0]);
                assert(evs.take(k).drop_first() =~= rest.take(k - 1));
                assert(waiting_or_refused(run(next, rest.take(k - 1))));
            }
        }
    }
}

/// A registration reply: the client key it carries, or its absence, is what
/// the finished dispatch hands back as the updated credential.
pub proof fn lemma_registration_key_returned(s: SessionView, client_key: Option<String>)
    requires
        s.well_formed(),
        s.phase == Phase::AwaitingRegistration,
    ensures
        run(
            s,
            seq![
                Event::Received { reply: Reply::Registered { client_key } },
                Event::Sent,
                Event::Paused,
                Event::Closed,
            ],
        ).outcome == Some(
            ResultView {
                success: true,
                message: "Comando LG OK"@,
                updated_credential: opt_view(client_key),
            },
        ),
{
    let evs = seq![
        Event::Received { reply: Reply::Registered { client_key } },
        Event::Sent,
        Event::Paused,
        Event::Closed,
    ];
    let e1 = evs.drop_first();
    let e2 = e1.drop_first();
    let e3 = e2.drop_first();
    let e4 = e3.drop_first();
    assert(e1 =~= seq![Event::Sent, Event::Paused, Event::Closed]);
    assert(e2 =~= seq![Event::Paused, Event::Closed]);
    assert(e3 =~= seq![Event::Closed]);
    assert(e4 =~= Seq::<Event>::empty());
    let s1 = step(s, evs[0]);
    let s2 = step(s1, e1[0]);
    let s3 = step(s2, e2[0]);
    let s4 = step(s3, e3[0]);
    assert(run(s4, e4) == s4);
    assert(run(s3, e3) == run(s4, e4));
    assert(run(s2, e2) == run(s3, e3));
    assert(run(s1, e1) == run(s2, e2));
    assert(run(s, evs) == run(s1, e1));
}

} // verus!
