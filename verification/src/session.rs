//! The per-connection session: authentication state plus the dispatcher
//! that turns one decoded operation into the responses to send.

use vstd::prelude::*;
use vstd::string::StringExecFns;
use crate::backend::{BackendHandler, BindRequest};
use crate::messages::{
    AttributeView, EntryView, LdapMsg, LdapPartialAttribute, LdapResultCode,
    LdapSearchResultEntry, MsgView, SearchRequest, ServerOps, SimpleBindRequest, WhoamiRequest,
    msg_views,
};

verus! {

/// The response to a bind request whose backend verdict was `accepted`.
pub open spec fn bind_response_view(msgid: i32, accepted: bool) -> MsgView {
    MsgView::BindResponse {
        msgid,
        code: if accepted {
            LdapResultCode::Success
        } else {
            LdapResultCode::InvalidCredentials
        },
    }
}

/// The responses to a search that yielded `entries`: one entry response
/// per entry, in order, followed by exactly one terminal marker.
pub open spec fn search_result_views(msgid: i32, entries: Seq<EntryView>) -> Seq<MsgView> {
    entries.map_values(|e: EntryView| MsgView::SearchResultEntry { msgid, entry: e }).push(
        MsgView::SearchResultDone { msgid, code: LdapResultCode::Success },
    )
}

/// The fixed entry set this minimal engine serves for every search.
pub open spec fn demo_entries() -> Seq<EntryView> {
    seq![
        EntryView {
            dn: "cn=hello,dc=example,dc=com"@,
            attributes: seq![
                AttributeView { atype: "objectClass"@, vals: seq!["cursed"@] },
                AttributeView { atype: "cn"@, vals: seq!["hello"@] },
            ],
        },
        EntryView {
            dn: "cn=world,dc=example,dc=com"@,
            attributes: seq![
                AttributeView { atype: "objectClass"@, vals: seq!["cursed"@] },
                AttributeView { atype: "cn"@, vals: seq!["world"@] },
            ],
        },
    ]
}

/// Turn the entries a search yielded into the responses to send: one
/// entry response per entry, in the order yielded, then exactly one
/// terminal marker. An empty entry set yields only the marker.
pub fn search_responses(msgid: i32, entries: Vec<LdapSearchResultEntry>) -> (r: Vec<LdapMsg>)
    ensures
        msg_views(r@) == search_result_views(
            msgid,
            entries@.map_values(|e: LdapSearchResultEntry| e@),
        ),
{
    let ghost entry_views = entries@.map_values(|e: LdapSearchResultEntry| e@);
    let mut r: Vec<LdapMsg> = Vec::new();
    let mut rest = entries;
    while rest.len() > 0
        invariant
            r@.len() + rest@.len() == entry_views.len(),
            forall|i: int|
                0 <= i < r@.len() ==> (#[trigger] r@[i])@ == (MsgView::SearchResultEntry {
                    msgid,
                    entry: entry_views[i],
                }),
            forall|i: int|
                0 <= i < rest@.len() ==> (#[trigger] rest@[i])@ == entry_views[r@.len() + i],
        decreases rest@.len(),
    {
        let e = rest.remove(0);
        r.push(LdapMsg::SearchResultEntry { msgid, entry: e });
    }
    r.push(LdapMsg::SearchResultDone { msgid, code: LdapResultCode::Success });
    proof {
        assert(msg_views(r@) =~= search_result_views(msgid, entry_views));
    }
    r
}

/// Build one fixed directory entry: `objectClass: cursed` plus a `cn`
/// attribute holding `cn_val`.
fn demo_entry(dn: &str, cn_val: &str) -> (e: LdapSearchResultEntry)
    ensures
        e@ == (EntryView {
            dn: dn@,
            attributes: seq![
                AttributeView { atype: "objectClass"@, vals: seq!["cursed"@] },
                AttributeView { atype: "cn"@, vals: seq![cn_val@] },
            ],
        }),
{
    let mut object_class_vals: Vec<String> = Vec::new();
    object_class_vals.push(String::from_str("cursed"));
    let object_class = LdapPartialAttribute {
        atype: String::from_str("objectClass"),
        vals: object_class_vals,
    };
    let mut cn_vals: Vec<String> = Vec::new();
    cn_vals.push(cn_val.to_owned());
    let cn = LdapPartialAttribute { atype: String::from_str("cn"), vals: cn_vals };
    let mut attributes: Vec<LdapPartialAttribute> = Vec::new();
    attributes.push(object_class);
    attributes.push(cn);
    let e = LdapSearchResultEntry { dn: dn.to_owned(), attributes };
    proof {
        assert(e@.attributes =~~= seq![
            AttributeView { atype: "objectClass"@, vals: seq!["cursed"@] },
            AttributeView { atype: "cn"@, vals: seq![cn_val@] },
        ]);
        assert(e@ =~~= (EntryView {
            dn: dn@,
            attributes: seq![
                AttributeView { atype: "objectClass"@, vals: seq!["cursed"@] },
                AttributeView { atype: "cn"@, vals: seq![cn_val@] },
            ],
        }));
    }
    e
}

/// The identity a session reports before any successful bind.
pub open spec fn unauthenticated() -> Seq<char> {
    "Unauthenticated"@
}

/// The info string a whoami response carries for a given identity.
pub open spec fn whoami_info(identity: Seq<char>) -> Seq<char> {
    "dn: "@ + identity
}

/// The identity a session holds after a bind attempt for `dn` whose
/// backend verdict was `accepted`: a successful bind installs `dn`, a
/// failed one leaves the previous identity untouched.
pub open spec fn bind_identity(identity: Seq<char>, dn: Seq<char>, accepted: bool) -> Seq<char> {
    if accepted {
        dn
    } else {
        identity
    }
}

/// One connection's session: the currently authenticated identity and the
/// backend that verifies credentials. Each live connection owns exactly
/// one of these; it is never shared.
pub struct LdapHandler<Backend: BackendHandler> {
    dn: String,
    backend_handler: Backend,
}

impl<Backend: BackendHandler> LdapHandler<Backend> {
    /// The identity of the most recent successful bind, or the
    /// unauthenticated default.
    pub closed spec fn identity(&self) -> Seq<char> {
        self.dn@
    }

    /// The backend this session verifies credentials against.
    pub closed spec fn backend(&self) -> Backend {
        self.backend_handler
    }

    /// A fresh session: not yet authenticated.
    pub fn new(backend_handler: Backend) -> (s: Self)
        ensures
            s.identity() == unauthenticated(),
            s.backend() == backend_handler,
    {
        LdapHandler { dn: String::from_str("Unauthenticated"), backend_handler }
    }

    /// Handle a simple bind: ask the backend to verify the credentials.
    /// On success the session's identity becomes the bound identity and a
    /// success response is returned; on failure the identity is unchanged
    /// and one generic invalid-credentials response is returned.
    pub fn do_bind(&mut self, sbr: &SimpleBindRequest) -> (r: LdapMsg)
        ensures
            final(self).backend() == old(self).backend(),
            final(self).identity() == bind_identity(
                old(self).identity(),
                sbr.dn@,
                old(self).backend().accepts(sbr.dn@, sbr.pw@),
            ),
            r@ == bind_response_view(sbr.msgid, old(self).backend().accepts(sbr.dn@, sbr.pw@)),
    {
        let request = BindRequest { name: sbr.dn.clone(), password: sbr.pw.clone() };
        match self.backend_handler.bind(&request) {
            Ok(()) => {
                self.dn = sbr.dn.clone();
                LdapMsg::BindResponse { msgid: sbr.msgid, code: LdapResultCode::Success }
            },
            Err(_) => LdapMsg::BindResponse {
                msgid: sbr.msgid,
                code: LdapResultCode::InvalidCredentials,
            },
        }
    }

    /// Report the current authorization identity, formatted as
    /// `dn: <identity>`.
    pub fn do_whoami(&mut self, wr: &WhoamiRequest) -> (r: LdapMsg)
        ensures
            final(self).identity() == old(self).identity(),
            final(self).backend() == old(self).backend(),
            r@ == (MsgView::WhoamiResponse {
                msgid: wr.msgid,
                info: whoami_info(old(self).identity()),
            }),
    {
        let info = String::from_str("dn: ").concat(self.dn.as_str());
        LdapMsg::WhoamiResponse { msgid: wr.msgid, info }
    }

    /// Answer a search with the fixed entry set: one response per entry,
    /// then the terminal marker.
    pub fn do_search(&mut self, lsr: &SearchRequest) -> (r: Vec<LdapMsg>)
        ensures
            final(self).identity() == old(self).identity(),
            final(self).backend() == old(self).backend(),
            msg_views(r@) == search_result_views(lsr.msgid, demo_entries()),
    {
        let mut entries: Vec<LdapSearchResultEntry> = Vec::new();
        entries.push(demo_entry("cn=hello,dc=example,dc=com", "hello"));
        entries.push(demo_entry("cn=world,dc=example,dc=com", "world"));
        proof {
            assert(entries@.map_values(|e: LdapSearchResultEntry| e@) =~= demo_entries());
        }
        search_responses(lsr.msgid, entries)
    }

    /// Interpret one decoded operation: bind, search and whoami return
    /// the responses to send; unbind returns the close sentinel `None`
    /// (no response is owed on unbind).
    pub fn handle_ldap_message(&mut self, server_op: ServerOps) -> (r: Option<Vec<LdapMsg>>)
        ensures
            dispatch_post(*old(self), server_op, *final(self), opt_msg_views(r)),
    {
        let result = match server_op {
            ServerOps::SimpleBind(sbr) => {
                let m = self.do_bind(&sbr);
                let mut v: Vec<LdapMsg> = Vec::new();
                v.push(m);
                proof {
                    assert(msg_views(v@) =~= seq![m@]);
                }
                v
            },
            ServerOps::Search(lsr) => self.do_search(&lsr),
            ServerOps::Unbind(_) => {
                // No need to notify on unbind (per rfc4511)
                return None;
            },
            ServerOps::Whoami(wr) => {
                let m = self.do_whoami(&wr);
                let mut v: Vec<LdapMsg> = Vec::new();
                v.push(m);
                proof {
                    assert(msg_views(v@) =~= seq![m@]);
                }
                v
            },
        };
        Some(result)
    }
}

/// What dispatching `op` against a session in state `pre` guarantees:
/// `post` is the session state afterwards, `r` the responses returned
/// (`None` is the close sentinel). This is a total description: every
/// operation has defined behaviour, and no backend failure escapes as a
/// fault.
pub open spec fn dispatch_post<Backend: BackendHandler>(
    pre: LdapHandler<Backend>,
    op: ServerOps,
    post: LdapHandler<Backend>,
    r: Option<Seq<MsgView>>,
) -> bool {
    &&& post.backend() == pre.backend()
    &&& match op {
        ServerOps::SimpleBind(sbr) => {
            &&& post.identity() == bind_identity(
                pre.identity(),
                sbr.dn@,
                pre.backend().accepts(sbr.dn@, sbr.pw@),
            )
            &&& r == Some(seq![bind_response_view(
                sbr.msgid,
                pre.backend().accepts(sbr.dn@, sbr.pw@),
            )])
        },
        ServerOps::Search(lsr) => {
            &&& post.identity() == pre.identity()
            &&& r == Some(search_result_views(lsr.msgid, demo_entries()))
        },
        ServerOps::Whoami(wr) => {
            &&& post.identity() == pre.identity()
            &&& r == Some(seq![MsgView::WhoamiResponse {
                msgid: wr.msgid,
                info: whoami_info(pre.identity()),
            }])
        },
        ServerOps::Unbind(_) => {
            &&& post.identity() == pre.identity()
            &&& r is None
        },
    }
}

/// The model of an optional batch of responses.
pub open spec fn opt_msg_views(r: Option<Vec<LdapMsg>>) -> Option<Seq<MsgView>> {
    match r {
        Some(v) => Some(msg_views(v@)),
        None => None,
    }
}

/// A whoami dispatched right after an accepted bind for `sbr` reports
/// exactly the identity `sbr` bound, formatted as `dn: <identity>`.
pub proof fn lemma_whoami_after_bind<Backend: BackendHandler>(
    s0: LdapHandler<Backend>,
    s1: LdapHandler<Backend>,
    rb: Option<Seq<MsgView>>,
    sbr: SimpleBindRequest,
    s2: LdapHandler<Backend>,
    rw: Option<Seq<MsgView>>,
    wr: WhoamiRequest,
)
    requires
        dispatch_post(s0, ServerOps::SimpleBind(sbr), s1, rb),
        s0.backend().accepts(sbr.dn@, sbr.pw@),
        dispatch_post(s1, ServerOps::Whoami(wr), s2, rw),
    ensures
        s1.identity() == sbr.dn@,
        rw == Some(seq![MsgView::WhoamiResponse { msgid: wr.msgid, info: "dn: "@ + sbr.dn@ }]),
{
}

/// Session isolation: each session's state after its own bind is a
/// function of that session's own history alone, so two connections that
/// bind different identities report different whoami infos, whatever the
/// other one did.
pub proof fn lemma_session_isolation<Backend: BackendHandler>(
    a0: LdapHandler<Backend>,
    a1: LdapHandler<Backend>,
    ra: Option<Seq<MsgView>>,
    sbr_a: SimpleBindRequest,
    b0: LdapHandler<Backend>,
    b1: LdapHandler<Backend>,
    rb: Option<Seq<MsgView>>,
    sbr_b: SimpleBindRequest,
)
    requires
        dispatch_post(a0, ServerOps::SimpleBind(sbr_a), a1, ra),
        a0.backend().accepts(sbr_a.dn@, sbr_a.pw@),
        dispatch_post(b0, ServerOps::SimpleBind(sbr_b), b1, rb),
        b0.backend().accepts(sbr_b.dn@, sbr_b.pw@),
    ensures
        a1.identity() == sbr_a.dn@,
        b1.identity() == sbr_b.dn@,
        sbr_a.dn@ != sbr_b.dn@ ==> whoami_info(a1.identity()) != whoami_info(b1.identity()),
{
    if sbr_a.dn@ != sbr_b.dn@ {
        reveal_strlit("dn: ");
        assert(whoami_info(a1.identity()).skip(4) =~= sbr_a.dn@);
        assert(whoami_info(b1.identity()).skip(4) =~= sbr_b.dn@);
    }
}

} // verus!
