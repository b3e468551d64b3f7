//! The response that tells the mail server what to do with the message.
use crate::entries::member;
use crate::error::{outcome, DecodeError, DecodeErrorView, Family};
use crate::json::{find, option_view, Json, JsonView};
use crate::modifications::{Modification, ModificationView};
use crate::text::same_text;
use crate::wire::{
    add_member, all_sound, as_flag, as_members, as_text, defaulted_list, each_encoded,
    encoded_or_null, flag_of, get_defaulted_list, get_optional_record, get_optional_text,
    get_optional_u16, get_required_record, lemma_maybe, lemma_new, lemma_optional_record,
    lemma_required_list, lemma_required_record, lemma_steady_maybe, lemma_steady_new,
    lemma_steady_object, lemma_steady_with, lemma_with, list_json, list_view, members_of,
    no_members, object_json, optional_record, optional_text, optional_text_encoded,
    optional_text_json, optional_u16, required_record, text_of, unsigned_encoded, unsigned_json,
    Members, Wire,
};
use vstd::prelude::*;

verus! {

/// The verdict on the message.
#[derive(Debug, Clone, Copy, PartialEq, Eq, Structural)]
pub enum Action {
    Accept,
    Discard,
    Reject,
    Quarantine,
}

impl View for Action {
    type V = Action;

    open spec fn view(&self) -> Action {
        *self
    }
}

/// The lower-case token that an action is written as.
pub open spec fn action_token(action: Action) -> Seq<char> {
    match action {
        Action::Accept => "accept"@,
        Action::Discard => "discard"@,
        Action::Reject => "reject"@,
        Action::Quarantine => "quarantine"@,
    }
}

/// The action that a token names; the letters count as they stand.
pub open spec fn action_of_token(token: Seq<char>) -> Result<Action, DecodeErrorView> {
    if token == "accept"@ {
        Ok(Action::Accept)
    } else if token == "discard"@ {
        Ok(Action::Discard)
    } else if token == "reject"@ {
        Ok(Action::Reject)
    } else if token == "quarantine"@ {
        Ok(Action::Quarantine)
    } else {
        Err(DecodeErrorView::UnknownVariant { found: token, family: Family::Action })
    }
}

impl Action {
    /// The lower-case token of this action.
    pub fn token(&self) -> (r: &'static str)
        ensures
            r@ == action_token(*self),
    {
        match self {
            Action::Accept => "accept",
            Action::Discard => "discard",
            Action::Reject => "reject",
            Action::Quarantine => "quarantine",
        }
    }

    /// The action that `token` names.
    pub fn from_token(token: &str) -> (r: Result<Action, DecodeError>)
        ensures
            outcome(r) == action_of_token(token@),
    {
        if same_text(token, "accept") {
            Ok(Action::Accept)
        } else if same_text(token, "discard") {
            Ok(Action::Discard)
        } else if same_text(token, "reject") {
            Ok(Action::Reject)
        } else if same_text(token, "quarantine") {
            Ok(Action::Quarantine)
        } else {
            Err(DecodeError::UnknownVariant { found: token.to_owned(), family: Family::Action })
        }
    }
}

/// The token of an action names that action.
pub proof fn lemma_action_token(action: Action)
    ensures
        action_of_token(action_token(action)) == Ok::<Action, DecodeErrorView>(action),
{
    reveal_strlit("accept");
    reveal_strlit("discard");
    reveal_strlit("reject");
    reveal_strlit("quarantine");
    assert("accept"@.len() == 6 && "discard"@.len() == 7 && "reject"@.len() == 6
        && "quarantine"@.len() == 10);
    assert("accept"@[0] != "reject"@[0]);
}

impl Wire for Action {
    open spec fn decoded(tree: JsonView) -> Result<Action, DecodeErrorView> {
        match text_of(tree, "action"@) {
            Ok(token) => action_of_token(token),
            Err(e) => Err(e),
        }
    }

    open spec fn encoded(value: Action) -> JsonView {
        JsonView::Text(action_token(value))
    }

    open spec fn sound(value: Action) -> bool {
        true
    }

    fn from_json(j: &Json) -> (r: Result<Self, DecodeError>) {
        let token = as_text(j, "action")?;
        Action::from_token(token.as_str())
    }

    fn to_json(&self) -> (j: Json) {
        Json::Text(self.token().to_owned())
    }

    proof fn round_trip(value: Action) {
        lemma_action_token(value);
    }

    proof fn reads_by_name(a: Seq<(Seq<char>, JsonView)>, b: Seq<(Seq<char>, JsonView)>) {
    }
}

/// The SMTP reply that the mail server is to give.
#[derive(Debug, Clone, PartialEq, Eq)]
pub struct SmtpResponse {
    pub status: Option<u16>,
    /// In JSON `enhancedStatus`.
    pub enhanced_status: Option<String>,
    pub message: Option<String>,
    /// Whether the mail server is to close the connection.
    pub disconnect: bool,
}

/// The model of an [`SmtpResponse`].
pub struct SmtpResponseView {
    pub status: Option<u16>,
    pub enhanced_status: Option<Seq<char>>,
    pub message: Option<Seq<char>>,
    pub disconnect: bool,
}

impl View for SmtpResponse {
    type V = SmtpResponseView;

    open spec fn view(&self) -> SmtpResponseView {
        SmtpResponseView {
            status: self.status,
            enhanced_status: option_view(self.enhanced_status),
            message: option_view(self.message),
            disconnect: self.disconnect,
        }
    }
}

impl Default for SmtpResponse {
    /// A reply that says nothing and keeps the connection.
    fn default() -> (r: SmtpResponse)
        ensures
            r@ == (SmtpResponseView {
                status: None,
                enhanced_status: None,
                message: None,
                disconnect: false,
            }),
    {
        SmtpResponse { status: None, enhanced_status: None, message: None, disconnect: false }
    }
}

/// The tree of an optional status: `null` where there is none.
pub open spec fn status_encoded(status: Option<u16>) -> JsonView {
    match status {
        Some(u) => unsigned_encoded(u as int),
        None => JsonView::Null,
    }
}

/// The flag under `field`; `false` where the record lacks the field.
pub open spec fn defaulted_flag(members: Seq<(Seq<char>, JsonView)>, field: Seq<char>) -> Result<
    bool,
    DecodeErrorView,
> {
    match member(members, field) {
        Some(value) => flag_of(value, field),
        None => Ok(false),
    }
}

impl Wire for SmtpResponse {
    open spec fn decoded(tree: JsonView) -> Result<SmtpResponseView, DecodeErrorView> {
        match members_of(tree, "SmtpResponse"@) {
            Ok(members) => match optional_u16(members, "status"@) {
                Ok(status) => match optional_text(members, "enhancedStatus"@) {
                    Ok(enhanced_status) => match optional_text(members, "message"@) {
                        Ok(message) => match defaulted_flag(members, "disconnect"@) {
                            Ok(disconnect) => Ok(
                                SmtpResponseView { status, enhanced_status, message, disconnect },
                            ),
                            Err(e) => Err(e),
                        },
                        Err(e) => Err(e),
                    },
                    Err(e) => Err(e),
                },
                Err(e) => Err(e),
            },
            Err(e) => Err(e),
        }
    }

    open spec fn encoded(value: SmtpResponseView) -> JsonView {
        Members::new().with("status"@, status_encoded(value.status)).with(
            "enhancedStatus"@,
            optional_text_encoded(value.enhanced_status),
        ).with("message"@, optional_text_encoded(value.message)).with(
            "disconnect"@,
            JsonView::Bool(value.disconnect),
        ).object()
    }

    open spec fn sound(value: SmtpResponseView) -> bool {
        true
    }

    fn from_json(j: &Json) -> (r: Result<Self, DecodeError>) {
        let members = as_members(j, "SmtpResponse")?;
        let status = get_optional_u16(members, "status")?;
        let enhanced_status = get_optional_text(members, "enhancedStatus")?;
        let message = get_optional_text(members, "message")?;
        let disconnect = match find(members, "disconnect") {
            Some(value) => as_flag(value, "disconnect")?,
            None => false,
        };
        Ok(SmtpResponse { status, enhanced_status, message, disconnect })
    }

    fn to_json(&self) -> (j: Json) {
        let mut members = no_members();
        let status = match self.status {
            Some(u) => unsigned_json(u as u64),
            None => Json::Null,
        };
        add_member(&mut members, "status", status);
        add_member(&mut members, "enhancedStatus", optional_text_json(&self.enhanced_status));
        add_member(&mut members, "message", optional_text_json(&self.message));
        add_member(&mut members, "disconnect", Json::Bool(self.disconnect));
        object_json(members)
    }

    proof fn round_trip(value: SmtpResponseView) {
        broadcast use
            lemma_with,
            lemma_maybe,
            lemma_new,
            lemma_steady_with,
            lemma_steady_maybe,
            lemma_steady_new,
        ;

        reveal_strlit("status");
        reveal_strlit("enhancedStatus");
        reveal_strlit("message");
        reveal_strlit("disconnect");
        assert("status"@.len() == 6 && "enhancedStatus"@.len() == 14 && "message"@.len() == 7
            && "disconnect"@.len() == 10);
        lemma_steady_object(Self::encoded(value)->Object_0);
    }

    proof fn reads_by_name(a: Seq<(Seq<char>, JsonView)>, b: Seq<(Seq<char>, JsonView)>) {
    }
}

/// What the mail server is told: the verdict, the SMTP reply to give, and the
/// modifications to apply in their order.
#[derive(Debug, Clone, PartialEq, Eq)]
pub struct Response {
    pub action: Action,
    pub response: Option<SmtpResponse>,
    pub modifications: Vec<Modification>,
}

/// The model of a [`Response`].
pub struct ResponseView {
    pub action: Action,
    pub response: Option<SmtpResponseView>,
    pub modifications: Seq<ModificationView>,
}

impl View for Response {
    type V = ResponseView;

    open spec fn view(&self) -> ResponseView {
        ResponseView {
            action: self.action,
            response: option_view(self.response),
            modifications: list_view(self.modifications@),
        }
    }
}

impl Default for Response {
    /// The response that accepts the message as it is.
    fn default() -> (r: Response)
        ensures
            r@ == (ResponseView {
                action: Action::Accept,
                response: None,
                modifications: Seq::empty(),
            }),
    {
        Response::accept()
    }
}

impl Response {
    fn plain(action: Action) -> (r: Response)
        ensures
            r@ == (ResponseView { action, response: None, modifications: Seq::empty() }),
    {
        let modifications: Vec<Modification> = Vec::new();
        assert(list_view(modifications@) =~= Seq::empty());
        Response { action, response: None, modifications }
    }

    /// Accept the message.
    pub fn accept() -> (r: Response)
        ensures
            r@ == (ResponseView {
                action: Action::Accept,
                response: None,
                modifications: Seq::empty(),
            }),
    {
        Response::plain(Action::Accept)
    }

    /// Reject the message with the SMTP status `status` and `message`.
    pub fn reject(status: u16, message: String) -> (r: Response)
        ensures
            r@ == (ResponseView {
                action: Action::Reject,
                response: Some(
                    SmtpResponseView {
                        status: Some(status),
                        enhanced_status: None,
                        message: Some(message@),
                        disconnect: false,
                    },
                ),
                modifications: Seq::empty(),
            }),
    {
        let modifications: Vec<Modification> = Vec::new();
        assert(list_view(modifications@) =~= Seq::empty());
        Response {
            action: Action::Reject,
            response: Some(
                SmtpResponse {
                    status: Some(status),
                    enhanced_status: None,
                    message: Some(message),
                    disconnect: false,
                },
            ),
            modifications,
        }
    }

    /// Drop the message without telling the sender.
    pub fn discard() -> (r: Response)
        ensures
            r@ == (ResponseView {
                action: Action::Discard,
                response: None,
                modifications: Seq::empty(),
            }),
    {
        Response::plain(Action::Discard)
    }

    /// Put the message in quarantine.
    pub fn quarantine() -> (r: Response)
        ensures
            r@ == (ResponseView {
                action: Action::Quarantine,
                response: None,
                modifications: Seq::empty(),
            }),
    {
        Response::plain(Action::Quarantine)
    }

    /// This response with `modifications` in place of its own.
    pub fn with_modifications(self, modifications: Vec<Modification>) -> (r: Response)
        ensures
            r@ == (ResponseView {
                action: self@.action,
                response: self@.response,
                modifications: list_view(modifications@),
            }),
    {
        let mut r = self;
        r.modifications = modifications;
        r
    }
}

impl Wire for Response {
    open spec fn decoded(tree: JsonView) -> Result<ResponseView, DecodeErrorView> {
        match members_of(tree, "Response"@) {
            Ok(members) => match required_record::<Action>(members, "action"@, "Response"@) {
                Ok(action) => match optional_record::<SmtpResponse>(members, "response"@) {
                    Ok(response) => match defaulted_list::<Modification>(
                        members,
                        "modifications"@,
                    ) {
                        Ok(modifications) => Ok(ResponseView { action, response, modifications }),
                        Err(e) => Err(e),
                    },
                    Err(e) => Err(e),
                },
                Err(e) => Err(e),
            },
            Err(e) => Err(e),
        }
    }

    open spec fn encoded(value: ResponseView) -> JsonView {
        Members::new().with("action"@, Action::encoded(value.action)).with(
            "response"@,
            encoded_or_null::<SmtpResponse>(value.response),
        ).with(
            "modifications"@,
            JsonView::Array(each_encoded::<Modification>(value.modifications)),
        ).object()
    }

    open spec fn sound(value: ResponseView) -> bool {
        all_sound::<Modification>(value.modifications)
    }

    fn from_json(j: &Json) -> (r: Result<Self, DecodeError>) {
        let members = as_members(j, "Response")?;
        let action = get_required_record::<Action>(members, "action", "Response")?;
        let response = get_optional_record::<SmtpResponse>(members, "response")?;
        let modifications = get_defaulted_list::<Modification>(members, "modifications")?;
        Ok(Response { action, response, modifications })
    }

    fn to_json(&self) -> (j: Json) {
        let mut members = no_members();
        add_member(&mut members, "action", self.action.to_json());
        let response = match &self.response {
            Some(r) => r.to_json(),
            None => Json::Null,
        };
        add_member(&mut members, "response", response);
        add_member(&mut members, "modifications", list_json(&self.modifications));
        object_json(members)
    }

    proof fn round_trip(value: ResponseView) {
        broadcast use
            lemma_with,
            lemma_maybe,
            lemma_new,
            lemma_steady_with,
            lemma_steady_maybe,
            lemma_steady_new,
        ;

        reveal_strlit("action");
        reveal_strlit("response");
        reveal_strlit("modifications");
        assert("action"@.len() == 6 && "response"@.len() == 8 && "modifications"@.len() == 13);
        let members = Self::encoded(value)->Object_0;
        lemma_required_record::<Action>(members, "action"@, "Response"@, value.action);
        lemma_optional_record::<SmtpResponse>(members, "response"@, value.response);
        lemma_required_list::<Modification>(
            members,
            "modifications"@,
            "Response"@,
            value.modifications,
        );
        lemma_steady_object(Self::encoded(value)->Object_0);
    }

    proof fn reads_by_name(a: Seq<(Seq<char>, JsonView)>, b: Seq<(Seq<char>, JsonView)>) {
    }
}

} // verus!
