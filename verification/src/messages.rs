//! The decoded protocol messages the session engine works on.
//!
//! A wire codec (an outside collaborator) turns bytes into one of the
//! request values below and turns the response messages back into bytes.
//! The engine itself only ever sees these decoded values.

use vstd::prelude::*;

verus! {

/// One attribute of a directory entry: an attribute type and its values.
pub struct LdapPartialAttribute {
    pub atype: String,
    pub vals: Vec<String>,
}

/// Mathematical model of [`LdapPartialAttribute`].
#[verifier::ext_equal]
pub struct AttributeView {
    pub atype: Seq<char>,
    pub vals: Seq<Seq<char>>,
}

impl View for LdapPartialAttribute {
    type V = AttributeView;

    open spec fn view(&self) -> AttributeView {
        AttributeView { atype: self.atype@, vals: self.vals.deep_view() }
    }
}

/// One directory entry returned by a search: its distinguished name and
/// its attributes.
pub struct LdapSearchResultEntry {
    pub dn: String,
    pub attributes: Vec<LdapPartialAttribute>,
}

/// Mathematical model of [`LdapSearchResultEntry`].
#[verifier::ext_equal]
pub struct EntryView {
    pub dn: Seq<char>,
    pub attributes: Seq<AttributeView>,
}

impl View for LdapSearchResultEntry {
    type V = EntryView;

    open spec fn view(&self) -> EntryView {
        EntryView {
            dn: self.dn@,
            attributes: self.attributes@.map_values(|a: LdapPartialAttribute| a@),
        }
    }
}

/// A simple (identity + credential) bind request.
pub struct SimpleBindRequest {
    pub msgid: i32,
    pub dn: String,
    pub pw: String,
}

/// A search request. The base and filter are opaque to this engine: the
/// entry set is provided by the backend or a fixed source.
pub struct SearchRequest {
    pub msgid: i32,
    pub base: String,
    pub filter: String,
}

/// A whoami (authorization identity) request.
pub struct WhoamiRequest {
    pub msgid: i32,
}

/// An unbind request: the client is done with the connection.
pub struct UnbindRequest {
    pub msgid: i32,
}

/// A decoded client operation, as handed over by the wire codec.
pub enum ServerOps {
    SimpleBind(SimpleBindRequest),
    Search(SearchRequest),
    Whoami(WhoamiRequest),
    Unbind(UnbindRequest),
}

/// The result code carried by a response message.
#[derive(Clone, Copy, Debug, PartialEq, Eq, Structural)]
pub enum LdapResultCode {
    Success,
    InvalidCredentials,
    Other,
}

/// One protocol response message, to be encoded by the wire codec.
pub enum LdapMsg {
    /// Outcome of a bind request, correlated by `msgid`.
    BindResponse { msgid: i32, code: LdapResultCode },
    /// One entry of a search result, correlated by `msgid`.
    SearchResultEntry { msgid: i32, entry: LdapSearchResultEntry },
    /// The terminal marker of a search result, correlated by `msgid`.
    SearchResultDone { msgid: i32, code: LdapResultCode },
    /// Reply to a whoami request, carrying the authorization identity.
    WhoamiResponse { msgid: i32, info: String },
    /// Unsolicited notice that the server is about to drop the connection.
    DisconnectionNotice { code: LdapResultCode, message: String },
}

/// Mathematical model of [`LdapMsg`].
#[verifier::ext_equal]
pub enum MsgView {
    BindResponse { msgid: i32, code: LdapResultCode },
    SearchResultEntry { msgid: i32, entry: EntryView },
    SearchResultDone { msgid: i32, code: LdapResultCode },
    WhoamiResponse { msgid: i32, info: Seq<char> },
    DisconnectionNotice { code: LdapResultCode, message: Seq<char> },
}

impl View for LdapMsg {
    type V = MsgView;

    open spec fn view(&self) -> MsgView {
        match self {
            LdapMsg::BindResponse { msgid, code } => (MsgView::BindResponse {
                msgid: *msgid,
                code: *code,
            }),
            LdapMsg::SearchResultEntry { msgid, entry } => (MsgView::SearchResultEntry {
                msgid: *msgid,
                entry: entry@,
            }),
            LdapMsg::SearchResultDone { msgid, code } => (MsgView::SearchResultDone {
                msgid: *msgid,
                code: *code,
            }),
            LdapMsg::WhoamiResponse { msgid, info } => (MsgView::WhoamiResponse {
                msgid: *msgid,
                info: info@,
            }),
            LdapMsg::DisconnectionNotice { code, message } => (MsgView::DisconnectionNotice {
                code: *code,
                message: message@,
            }),
        }
    }
}

/// The model of a whole batch of responses.
pub open spec fn msg_views(msgs: Seq<LdapMsg>) -> Seq<MsgView> {
    msgs.map_values(|m: LdapMsg| m@)
}

} // verus!
