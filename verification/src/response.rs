//! The uniform `{success, data, error}` body returned by the service routes.

use crate::model::{text_view, ChatMessage, SlackUser};
use vstd::prelude::*;

verus! {

/// Body of every reply on the service routes.
#[derive(Debug, PartialEq, Eq)]
pub struct SlackResponse<T> {
    pub success: bool,
    pub data: Option<T>,
    pub error: Option<String>,
}

impl<T> SlackResponse<T> {
    /// A reply is well formed when it carries data exactly on success and an
    /// error text exactly on failure.
    pub open spec fn well_formed(&self) -> bool {
        &&& self.success <==> self.data is Some
        &&& self.success <==> self.error is None
    }

    /// The reply that carries `data`.
    pub fn success(data: T) -> (r: Self)
        ensures
            r.success,
            r.data == Some(data),
            r.error is None,
            r.well_formed(),
    {
        SlackResponse { success: true, data: Some(data), error: None }
    }

    /// The reply that reports `error`.
    pub fn error(error: String) -> (r: Self)
        ensures
            !r.success,
            r.data is None,
            r.error == Some(error),
            r.well_formed(),
    {
        SlackResponse { success: false, data: None, error: Some(error) }
    }
}

/// A dashboard token and the address at which it logs in.
#[derive(Debug, PartialEq, Eq)]
pub struct TokenResponse {
    pub token: String,
    pub login_url: String,
}

/// What a service reply may carry.
#[derive(Debug, PartialEq, Eq)]
pub enum Payload {
    Nothing,
    User(Option<SlackUser>),
    Messages(Vec<ChatMessage>),
    Token(String),
    Login(TokenResponse),
    Admins(Vec<String>),
}

/// [`Payload`] as contracts see it: texts and lists as sequences.
pub enum PayloadView {
    Nothing,
    User(Option<SlackUser>),
    Messages(Vec<ChatMessage>),
    Token(Seq<char>),
    Login { token: Seq<char>, login_url: Seq<char> },
    Admins(Seq<Seq<char>>),
}

/// The view of a list of texts.
pub open spec fn texts_view(texts: Seq<String>) -> Seq<Seq<char>> {
    Seq::new(texts.len(), |i: int| texts[i]@)
}

impl View for Payload {
    type V = PayloadView;

    open spec fn view(&self) -> PayloadView {
        match self {
            Payload::Nothing => PayloadView::Nothing,
            Payload::User(user) => PayloadView::User(*user),
            Payload::Messages(messages) => PayloadView::Messages(*messages),
            Payload::Token(token) => PayloadView::Token(token@),
            Payload::Login(login) => PayloadView::Login {
                token: login.token@,
                login_url: login.login_url@,
            },
            Payload::Admins(admins) => PayloadView::Admins(texts_view(admins@)),
        }
    }
}

/// [`SlackResponse`] as contracts see it: texts and lists as sequences.
pub struct SlackResponseView {
    pub success: bool,
    pub data: Option<PayloadView>,
    pub error: Option<Seq<char>>,
}

impl View for SlackResponse<Payload> {
    type V = SlackResponseView;

    open spec fn view(&self) -> SlackResponseView {
        SlackResponseView {
            success: self.success,
            data: match self.data {
                Some(payload) => Some(payload@),
                None => None,
            },
            error: text_view(self.error),
        }
    }
}

/// The reply that carries `data`.
pub open spec fn carrying(data: PayloadView) -> SlackResponseView {
    SlackResponseView { success: true, data: Some(data), error: None }
}

/// The reply that reports `error`.
pub open spec fn reporting(error: Seq<char>) -> SlackResponseView {
    SlackResponseView { success: false, data: None, error: Some(error) }
}

} // verus!
