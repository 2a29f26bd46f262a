use vstd::prelude::*;
use vstd::slice::slice_to_vec;
use vstd::string::{StrSliceExecFns, StringSliceAdditionalSpecFns};
use vstd::utf8::{decode_utf8, encode_utf8, valid_utf8};

verus! {

/// Which side of the negotiation a session has taken.
#[derive(Clone, Copy, PartialEq, Eq, Debug, Structural)]
pub enum Role {
    /// No negotiation call has been made yet.
    Unset,
    /// The session generated the offer.
    Offerer,
    /// The session received the offer.
    Answerer,
}

/// The two kinds of session description.
#[derive(Clone, Copy, PartialEq, Eq, Debug, Structural)]
pub enum DescriptionKind {
    Offer,
    Answer,
}

/// What the engine has to do to apply a remote description: create the
/// connection first or not, and read the text as an offer or as an answer.
#[derive(Clone, Copy, PartialEq, Eq, Debug, Structural)]
pub struct RemotePlan {
    pub kind: DescriptionKind,
    pub create_connection: bool,
}

/// The abstract state of a session.
pub struct SessionView {
    pub role: Role,
    /// The underlying peer connection exists.
    pub connected: bool,
    /// A remote description has been applied.
    pub remote_set: bool,
    /// The data channel has opened.
    pub channel_open: bool,
    /// The local description, once generated.
    pub local: Option<Seq<char>>,
    /// The received messages, in arrival order.
    pub inbox: Seq<Seq<char>>,
    /// While an offer or a remote description is being worked on: the role
    /// and the connection flag from before it, to return to if it fails.
    pub pending: Option<(Role, bool)>,
}

/// The characters that Unicode gives the White_Space property.
pub open spec fn is_white_space(c: char) -> bool {
    let u = c as u32;
    (0x9 <= u <= 0xd) || u == 0x20 || u == 0x85 || u == 0xa0 || u == 0x1680 || (0x2000 <= u
        <= 0x200a) || u == 0x2028 || u == 0x2029 || u == 0x202f || u == 0x205f || u == 0x3000
}

/// The text is empty or holds white space alone.
pub open spec fn is_blank(s: Seq<char>) -> bool {
    forall|i: int| 0 <= i < s.len() ==> is_white_space(#[trigger] s[i])
}

/// The text of each string, in order.
pub open spec fn texts(v: Seq<String>) -> Seq<Seq<char>> {
    v.map_values(|s: String| s@)
}

impl SessionView {
    pub open spec fn fresh() -> SessionView {
        SessionView {
            role: Role::Unset,
            connected: false,
            remote_set: false,
            channel_open: false,
            local: None,
            inbox: Seq::empty(),
            pending: None,
        }
    }

    /// A connection exists only once a role is fixed; a remote description,
    /// an open channel and a local description exist only on a connection;
    /// a local description is never empty; a step under way was begun from
    /// the current role or from none, and from a connection wherever a local
    /// description exists.
    pub open spec fn wf(self) -> bool {
        &&& self.connected ==> self.role != Role::Unset
        &&& self.remote_set ==> self.connected
        &&& self.channel_open ==> self.connected
        &&& self.local is Some ==> self.connected && self.local->0.len() > 0
        &&& self.pending matches Some((r, c)) ==> (r == self.role || r == Role::Unset) && (c
            ==> self.connected && r == self.role)
        &&& self.local is Some && self.pending is Some ==> (self.pending->0).1
    }

    /// The state to return to if the step now begun fails: the one recorded
    /// by an unfinished earlier step, or else the current one.
    pub open spec fn snapshot(self) -> Option<(Role, bool)> {
        if self.pending is Some {
            self.pending
        } else {
            Some((self.role, self.connected))
        }
    }

    /// An offer may be generated only before any connection exists, and
    /// never by the answering side.
    pub open spec fn offer_allowed(self) -> bool {
        !self.connected && self.role != Role::Answerer
    }

    pub open spec fn after_offer_request(self) -> SessionView {
        if self.offer_allowed() {
            SessionView { role: Role::Offerer, pending: self.snapshot(), ..self }
        } else {
            self
        }
    }

    /// An answer may be generated only by the answering side, once the
    /// remote offer has been applied.
    pub open spec fn answer_allowed(self) -> bool {
        self.role == Role::Answerer && self.remote_set
    }

    /// The kind of description that a session with this role receives: the
    /// one it does not generate itself.
    pub open spec fn remote_kind(role: Role) -> DescriptionKind {
        if role == Role::Offerer {
            DescriptionKind::Answer
        } else {
            DescriptionKind::Offer
        }
    }

    /// How a remote description is applied, or `None` where it is refused:
    /// blank text, or an offering side whose offer was never made.
    pub open spec fn remote_plan(self, sdp: Seq<char>) -> Option<RemotePlan> {
        if is_blank(sdp) || (self.role == Role::Offerer && !self.connected) {
            None
        } else {
            Some(
                RemotePlan {
                    kind: Self::remote_kind(self.role),
                    create_connection: !self.connected,
                },
            )
        }
    }

    /// A remote description accepted before any role was fixed makes the
    /// session the answering side.
    pub open spec fn after_remote_request(self, sdp: Seq<char>) -> SessionView {
        if self.remote_plan(sdp) is Some {
            SessionView {
                role: if self.role == Role::Unset {
                    Role::Answerer
                } else {
                    self.role
                },
                pending: self.snapshot(),
                ..self
            }
        } else {
            self
        }
    }

    pub open spec fn after_connection(self) -> SessionView {
        SessionView { connected: self.connected || self.role != Role::Unset, ..self }
    }

    pub open spec fn local_accepted(self, sdp: Seq<char>) -> bool {
        self.connected && sdp.len() > 0
    }

    pub open spec fn after_local(self, sdp: Seq<char>) -> SessionView {
        if self.local_accepted(sdp) {
            SessionView { local: Some(sdp), pending: None, ..self }
        } else {
            self
        }
    }

    pub open spec fn after_remote_applied(self) -> SessionView {
        if self.connected {
            SessionView { remote_set: true, pending: None, ..self }
        } else {
            self
        }
    }

    /// A failed step returns to the role and connection from before it; a
    /// connection made by the step is gone, and with it everything that
    /// rests on one.
    pub open spec fn after_failure(self) -> SessionView {
        match self.pending {
            None => self,
            Some((r, c)) => if c {
                SessionView { role: r, pending: None, ..self }
            } else {
                SessionView {
                    role: r,
                    connected: false,
                    remote_set: false,
                    channel_open: false,
                    local: None,
                    pending: None,
                    ..self
                }
            },
        }
    }

    pub open spec fn after_channel_open(self) -> SessionView {
        SessionView { channel_open: self.channel_open || self.connected, ..self }
    }

    /// A received payload is kept when it is valid UTF-8, and dropped
    /// otherwise.
    pub open spec fn after_receipt(self, data: Seq<u8>) -> SessionView {
        if valid_utf8(data) {
            SessionView { inbox: self.inbox.push(decode_utf8(data)), ..self }
        } else {
            self
        }
    }

    /// The bytes to transmit for a message: none before the channel opens.
    pub open spec fn outgoing(self, msg: Seq<char>) -> Option<Seq<u8>> {
        if self.channel_open {
            Some(encode_utf8(msg))
        } else {
            None
        }
    }
}

/// Relies on `String::from_utf8`: it succeeds exactly on valid UTF-8, and
/// then holds the characters that the bytes encode.
#[verifier::external_body]
fn decode_text(data: Vec<u8>) -> (r: Option<String>)
    ensures
        match r {
            Some(s) => valid_utf8(data@) && s@ == decode_utf8(data@),
            None => !valid_utf8(data@),
        },
{
    match String::from_utf8(data) {
        Ok(s) => Some(s),
        Err(_) => None,
    }
}

fn white_space(c: char) -> (r: bool)
    ensures
        r == is_white_space(c),
{
    let u = c as u32;
    (0x9 <= u && u <= 0xd) || u == 0x20 || u == 0x85 || u == 0xa0 || u == 0x1680 || (0x2000 <= u
        && u <= 0x200a) || u == 0x2028 || u == 0x2029 || u == 0x202f || u == 0x205f || u == 0x3000
}

/// Whether the text is empty or white space alone.
pub fn blank(s: &str) -> (r: bool)
    ensures
        r == is_blank(s@),
{
    let n = s.unicode_len();
    let mut i: usize = 0;
    while i < n
        invariant
            n == s@.len(),
            i <= n,
            forall|j: int| 0 <= j < i ==> is_white_space(#[trigger] s@[j]),
        decreases n - i,
    {
        if !white_space(s.get_char(i)) {
            return false;
        }
        i = i + 1;
    }
    true
}

/// The negotiation state of one peer session. The engine's asynchronous work
/// happens outside: the session decides what is to be done and records what
/// came of it.
pub struct WebRTC {
    role: Role,
    connected: bool,
    remote_set: bool,
    channel_open: bool,
    local_desc: Option<String>,
    messages: Vec<String>,
    pending: Option<(Role, bool)>,
}

impl View for WebRTC {
    type V = SessionView;

    closed spec fn view(&self) -> SessionView {
        SessionView {
            role: self.role,
            connected: self.connected,
            remote_set: self.remote_set,
            channel_open: self.channel_open,
            local: match self.local_desc {
                Some(s) => Some(s@),
                None => None,
            },
            inbox: texts(self.messages@),
            pending: self.pending,
        }
    }
}

impl WebRTC {
    pub fn new() -> (r: WebRTC)
        ensures
            r@ == SessionView::fresh(),
            r@.wf(),
    {
        let r = WebRTC {
            role: Role::Unset,
            connected: false,
            remote_set: false,
            channel_open: false,
            local_desc: None,
            messages: Vec::new(),
            pending: None,
        };
        assert(texts(r.messages@) =~= Seq::empty());
        r
    }

    /// Starts the offering path. Returns whether the engine is to create the
    /// connection and its data channel and generate an offer; when it is, the
    /// session becomes the offering side.
    pub fn create_offer(&mut self) -> (proceed: bool)
        requires
            old(self)@.wf(),
        ensures
            proceed == old(self)@.offer_allowed(),
            final(self)@ == old(self)@.after_offer_request(),
            final(self)@.wf(),
    {
        if !self.connected && self.role != Role::Answerer {
            self.record_snapshot();
            self.role = Role::Offerer;
            true
        } else {
            false
        }
    }

    /// Returns whether the engine is to generate an answer.
    pub fn create_answer(&self) -> (proceed: bool)
        ensures
            proceed == self@.answer_allowed(),
    {
        self.role == Role::Answerer && self.remote_set
    }

    /// Accepts a remote description for the engine to apply, or refuses it.
    /// Before any role is fixed, an accepted description makes this session
    /// the answering side.
    pub fn set_remote_description(&mut self, sdp: &str) -> (plan: Option<RemotePlan>)
        requires
            old(self)@.wf(),
        ensures
            plan == old(self)@.remote_plan(sdp@),
            final(self)@ == old(self)@.after_remote_request(sdp@),
            final(self)@.wf(),
    {
        if blank(sdp) || (self.role == Role::Offerer && !self.connected) {
            return None;
        }
        self.record_snapshot();
        if self.role == Role::Unset {
            self.role = Role::Answerer;
        }
        let kind = if self.role == Role::Offerer {
            DescriptionKind::Answer
        } else {
            DescriptionKind::Offer
        };
        Some(RemotePlan { kind, create_connection: !self.connected })
    }

    fn record_snapshot(&mut self)
        ensures
            final(self)@ == (SessionView { pending: old(self)@.snapshot(), ..old(self)@ }),
    {
        if self.pending.is_none() {
            self.pending = Some((self.role, self.connected));
        }
    }

    /// Records that the offer or remote description under way failed: the
    /// session returns to the role and connection it had before that step.
    /// A connection made during the step is to be dropped by the caller.
    pub fn negotiation_failed(&mut self)
        requires
            old(self)@.wf(),
        ensures
            final(self)@ == old(self)@.after_failure(),
            final(self)@.wf(),
    {
        match self.pending {
            None => {},
            Some((r, c)) => {
                self.role = r;
                if !c {
                    self.connected = false;
                    self.remote_set = false;
                    self.channel_open = false;
                    self.local_desc = None;
                }
                self.pending = None;
            },
        }
    }

    /// Records that the engine created the peer connection.
    pub fn connection_established(&mut self)
        requires
            old(self)@.wf(),
        ensures
            final(self)@ == old(self)@.after_connection(),
            final(self)@.wf(),
    {
        if self.role != Role::Unset {
            self.connected = true;
        }
    }

    /// Records the local description that the engine generated. An empty one
    /// counts as a failure and is not kept.
    pub fn local_description_ready(&mut self, sdp: String) -> (accepted: bool)
        requires
            old(self)@.wf(),
        ensures
            accepted == old(self)@.local_accepted(sdp@),
            final(self)@ == old(self)@.after_local(sdp@),
            final(self)@.wf(),
    {
        if self.connected && !sdp.as_str().is_empty() {
            self.local_desc = Some(sdp);
            self.pending = None;
            true
        } else {
            false
        }
    }

    /// Records that the engine applied the remote description.
    pub fn remote_description_applied(&mut self)
        requires
            old(self)@.wf(),
        ensures
            final(self)@ == old(self)@.after_remote_applied(),
            final(self)@.wf(),
    {
        if self.connected {
            self.remote_set = true;
            self.pending = None;
        }
    }

    /// Records that the data channel opened.
    pub fn channel_opened(&mut self)
        requires
            old(self)@.wf(),
        ensures
            final(self)@ == old(self)@.after_channel_open(),
            final(self)@.wf(),
    {
        if self.connected {
            self.channel_open = true;
        }
    }

    /// Records a payload that arrived on the data channel.
    pub fn receive_data(&mut self, data: Vec<u8>)
        requires
            old(self)@.wf(),
        ensures
            final(self)@ == old(self)@.after_receipt(data@),
            final(self)@.wf(),
    {
        match decode_text(data) {
            Some(text) => {
                self.messages.push(text);
                assert(texts(self.messages@) =~= texts(old(self).messages@).push(text@));
            },
            None => {},
        }
    }

    /// The local description, once one has been generated.
    pub fn get_local_description(&self) -> (r: Option<String>)
        ensures
            match r {
                Some(s) => self@.local == Some(s@),
                None => self@.local is None,
            },
    {
        match &self.local_desc {
            Some(s) => Some(s.clone()),
            None => None,
        }
    }

    /// The bytes to transmit for `msg`, or `None` while the channel is not
    /// open, in which case nothing is sent.
    pub fn send_message(&self, msg: &str) -> (r: Option<Vec<u8>>)
        ensures
            match r {
                Some(b) => self@.outgoing(msg@) == Some(b@),
                None => self@.outgoing(msg@) is None,
            },
    {
        if self.channel_open {
            Some(slice_to_vec(msg.as_bytes()))
        } else {
            None
        }
    }

    /// A copy of the received messages, in arrival order.
    pub fn get_messages(&self) -> (r: Vec<String>)
        ensures
            texts(r@) == self@.inbox,
    {
        let mut r: Vec<String> = Vec::new();
        let mut i: usize = 0;
        while i < self.messages.len()
            invariant
                i <= self.messages@.len(),
                r@.len() == i,
                forall|j: int| 0 <= j < i ==> r@[j]@ == self.messages@[j]@,
            decreases self.messages@.len() - i,
        {
            r.push(self.messages[i].clone());
            i = i + 1;
        }
        assert(texts(r@) =~= texts(self.messages@));
        r
    }
}

} // verus!
