use vstd::prelude::*;
use vstd::utf8::{encode_utf8, encode_utf8_decode_utf8, encode_utf8_valid_utf8};

use crate::session::{DescriptionKind, Role, SessionView};

verus! {

/// One recorded step of a session, as its methods record them.
pub enum Step {
    Offer,
    Remote(Seq<char>),
    Connected,
    Local(Seq<char>),
    RemoteApplied,
    Failed,
    ChannelOpen,
    Receipt(Seq<u8>),
}

pub open spec fn apply(s: SessionView, e: Step) -> SessionView {
    match e {
        Step::Offer => s.after_offer_request(),
        Step::Remote(sdp) => s.after_remote_request(sdp),
        Step::Connected => s.after_connection(),
        Step::Local(sdp) => s.after_local(sdp),
        Step::RemoteApplied => s.after_remote_applied(),
        Step::Failed => s.after_failure(),
        Step::ChannelOpen => s.after_channel_open(),
        Step::Receipt(data) => s.after_receipt(data),
    }
}

/// The state reached from `s` by the steps of `h`, in order.
pub open spec fn run(s: SessionView, h: Seq<Step>) -> SessionView
    decreases h.len(),
{
    if h.len() == 0 {
        s
    } else {
        apply(run(s, h.drop_last()), h.last())
    }
}

/// Some step of `h`, taken from `s`, stored a generated local description.
pub open spec fn generated(s: SessionView, h: Seq<Step>) -> bool
    decreases h.len(),
{
    if h.len() == 0 {
        false
    } else {
        generated(s, h.drop_last()) || match h.last() {
            Step::Local(sdp) => run(s, h.drop_last()).local_accepted(sdp),
            _ => false,
        }
    }
}

/// Over any history of a new session: the local description is absent until
/// an offer or answer has been generated and stored, and present and
/// non-empty from then on, whatever fails later.
pub proof fn lemma_local_description_over_history(h: Seq<Step>)
    ensures
        run(SessionView::fresh(), h).wf(),
        run(SessionView::fresh(), h).local is Some <==> generated(SessionView::fresh(), h),
        run(SessionView::fresh(), h).local is Some ==> run(SessionView::fresh(), h).local->0.len()
            > 0,
    decreases h.len(),
{
    if h.len() > 0 {
        lemma_local_description_over_history(h.drop_last());
    }
}

/// A session starts without a local description; only a generated,
/// non-empty description sets one, and every other step leaves it as it was.
pub proof fn lemma_local_description_only_from_generation(
    s: SessionView,
    sdp: Seq<char>,
    remote: Seq<char>,
    data: Seq<u8>,
)
    requires
        s.wf(),
    ensures
        SessionView::fresh().local is None,
        s.local is Some ==> s.local->0.len() > 0,
        s.after_offer_request().local == s.local,
        s.after_remote_request(remote).local == s.local,
        s.after_connection().local == s.local,
        s.after_remote_applied().local == s.local,
        s.after_channel_open().local == s.local,
        s.after_receipt(data).local == s.local,
        s.local_accepted(sdp) ==> s.after_local(sdp).local == Some(sdp) && sdp.len() > 0,
        !s.local_accepted(sdp) ==> s.after_local(sdp).local == s.local,
        s.after_failure().local is Some ==> s.after_failure().local == s.local,
{
}

/// The first negotiation call fixes the role: an offer makes the session the
/// offering side, which reads every remote description as an answer and
/// never generates one; a remote description taken first makes it the
/// answering side, which reads remote descriptions as offers and never
/// generates one. Once fixed, no step but the failure of the step that fixed
/// it changes the role.
pub proof fn lemma_role_is_fixed(s: SessionView, sdp: Seq<char>, remote: Seq<char>, data: Seq<u8>)
    requires
        s.wf(),
    ensures
        s.offer_allowed() ==> s.after_offer_request().role == Role::Offerer,
        s.role == Role::Unset && s.remote_plan(remote) is Some ==> s.after_remote_request(
            remote,
        ).role == Role::Answerer,
        s.role == Role::Offerer ==> !s.answer_allowed() && (s.remote_plan(remote) is Some
            ==> s.remote_plan(remote)->0.kind == DescriptionKind::Answer),
        s.role == Role::Answerer ==> !s.offer_allowed() && (s.remote_plan(remote) is Some
            ==> s.remote_plan(remote)->0.kind == DescriptionKind::Offer),
        s.role != Role::Unset ==> {
            &&& s.after_offer_request().role == s.role
            &&& s.after_remote_request(remote).role == s.role
            &&& s.after_connection().role == s.role
            &&& s.after_local(sdp).role == s.role
            &&& s.after_remote_applied().role == s.role
            &&& s.after_channel_open().role == s.role
            &&& s.after_receipt(data).role == s.role
            &&& (s.pending is None || (s.pending->0).0 != Role::Unset) ==> s.after_failure().role
                == s.role
        },
{
}

/// Reading the messages changes nothing, and no step but a receipt changes
/// what is read: two reads with no receipt between them agree.
pub proof fn lemma_inbox_changes_only_on_receipt(s: SessionView, sdp: Seq<char>, remote: Seq<char>)
    ensures
        s.after_offer_request().inbox == s.inbox,
        s.after_remote_request(remote).inbox == s.inbox,
        s.after_connection().inbox == s.inbox,
        s.after_local(sdp).inbox == s.inbox,
        s.after_remote_applied().inbox == s.inbox,
        s.after_channel_open().inbox == s.inbox,
        s.after_failure().inbox == s.inbox,
{
}

/// An offer or a remote description that fails, whether before or after
/// the connection was made, leaves the session exactly as it was before the
/// call: same role, same connection, same descriptions.
pub proof fn lemma_failed_step_restores(s: SessionView, remote: Seq<char>)
    requires
        s.wf(),
        s.pending is None,
    ensures
        s.after_offer_request().after_failure() == s,
        s.offer_allowed() ==> s.after_offer_request().after_connection().after_failure() == s,
        s.after_remote_request(remote).after_failure() == s,
        s.remote_plan(remote) is Some ==> s.after_remote_request(remote).after_connection().after_failure()
            == s,
{
}

/// Messages are kept in arrival order: text `a` received before text `b`
/// ends up just before it, after everything received earlier.
pub proof fn lemma_arrival_order(s: SessionView, a: Seq<char>, b: Seq<char>)
    ensures
        s.after_receipt(encode_utf8(a)).after_receipt(encode_utf8(b)).inbox == s.inbox.push(
            a,
        ).push(b),
{
    encode_utf8_valid_utf8(a);
    encode_utf8_valid_utf8(b);
    encode_utf8_decode_utf8(a);
    encode_utf8_decode_utf8(b);
}

/// What one open session sends for a message, another receives as that same
/// message, appended to its inbox.
pub proof fn lemma_delivery(sender: SessionView, receiver: SessionView, msg: Seq<char>)
    requires
        sender.channel_open,
    ensures
        sender.outgoing(msg) is Some,
        receiver.after_receipt(sender.outgoing(msg)->0).inbox == receiver.inbox.push(msg),
{
    encode_utf8_valid_utf8(msg);
    encode_utf8_decode_utf8(msg);
}

/// Before the channel opens, sending yields nothing to transmit; a session
/// without a connection never has an open channel.
pub proof fn lemma_send_before_open(s: SessionView, msg: Seq<char>)
    requires
        s.wf(),
    ensures
        !s.channel_open ==> s.outgoing(msg) is None,
        !s.connected ==> s.outgoing(msg) is None,
{
}

} // verus!
