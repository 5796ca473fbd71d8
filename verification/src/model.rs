//! The mathematical model of a session: views of the wire-facing types,
//! a step function over the session's public operations, and the laws the
//! session obeys.

use crate::message::{MessageView, RayMessageType, color_of_name};
use crate::{Ray, RayContent, RayMeta, RayOrigin, RayPayload};
use vstd::prelude::*;

verus! {

/// View of a call-site snapshot.
#[verifier::ext_equal]
pub struct OriginView {
    pub function_name: Seq<char>,
    pub file: Seq<char>,
    pub line_number: u32,
    pub hostname: Seq<char>,
}

/// View of an environment snapshot.
#[verifier::ext_equal]
pub struct MetaView {
    pub rustc_version: Seq<char>,
    pub package_version: Seq<char>,
}

/// View of one logged event.
#[verifier::ext_equal]
pub struct EntryView {
    pub content_type: Seq<char>,
    pub content: MessageView,
    pub origin: OriginView,
}

/// View of the accumulated request.
#[verifier::ext_equal]
pub struct RequestView {
    pub uuid: Seq<char>,
    pub payloads: Seq<EntryView>,
    pub meta: MetaView,
}

/// View of a whole session: the request it has accumulated and its
/// enabled flag.
#[verifier::ext_equal]
pub struct SessionView {
    pub request: RequestView,
    pub is_enabled: bool,
}

impl View for RayOrigin {
    type V = OriginView;

    open spec fn view(&self) -> OriginView {
        OriginView {
            function_name: self.function_name@,
            file: self.file@,
            line_number: self.line_number,
            hostname: self.hostname@,
        }
    }
}

impl View for RayMeta {
    type V = MetaView;

    open spec fn view(&self) -> MetaView {
        MetaView { rustc_version: self.rustc_version@, package_version: self.package_version@ }
    }
}

impl View for RayContent {
    type V = EntryView;

    open spec fn view(&self) -> EntryView {
        EntryView { content_type: self.content_type@, content: self.content@, origin: self.origin@ }
    }
}

impl View for RayPayload {
    type V = RequestView;

    open spec fn view(&self) -> RequestView {
        RequestView {
            uuid: self.uuid@,
            payloads: self.payloads@.map_values(|c: RayContent| c@),
            meta: self.meta@,
        }
    }
}

impl View for Ray {
    type V = SessionView;

    open spec fn view(&self) -> SessionView {
        SessionView { request: self.request@, is_enabled: self.is_enabled }
    }
}

/// The placeholder call-site snapshot every event carries.
pub open spec fn origin_placeholder() -> OriginView {
    OriginView { function_name: "ray"@, file: ""@, line_number: 0, hostname: "localhost"@ }
}

/// The constant decorative string of the celebratory marker.
pub open spec fn charles_tune() -> Seq<char> {
    "🎶 🎹 🎷 🕺"@
}

/// One public session operation, with its argument as the caller gave it.
pub enum SessionCall {
    Log(Seq<Seq<char>>),
    Text(Seq<char>),
    Color(Seq<char>),
    Html(Seq<char>),
    ClearAll,
    NewScreen(Option<Seq<char>>),
    ClearScreen,
    Confetti,
    Charles,
    Enable,
    Disable,
}

/// Whether a call emits an entry; enable and disable are state-only.
pub open spec fn is_emitting(c: SessionCall) -> bool {
    match c {
        SessionCall::Enable => false,
        SessionCall::Disable => false,
        _ => true,
    }
}

/// The entry an emitting call appends.
pub open spec fn entry_of(c: SessionCall) -> EntryView {
    match c {
        SessionCall::Log(values) => EntryView {
            content_type: "log"@,
            content: MessageView::Log(RayMessageType::Log, values),
            origin: origin_placeholder(),
        },
        SessionCall::Text(value) => EntryView {
            content_type: "custom"@,
            content: MessageView::Text(RayMessageType::Text, value),
            origin: origin_placeholder(),
        },
        SessionCall::Color(name) => EntryView {
            content_type: "color"@,
            content: MessageView::Color(color_of_name(name)),
            origin: origin_placeholder(),
        },
        SessionCall::Html(value) => EntryView {
            content_type: "custom"@,
            content: MessageView::Html(RayMessageType::HTML, value),
            origin: origin_placeholder(),
        },
        SessionCall::ClearAll => EntryView {
            content_type: "clear_all"@,
            content: MessageView::ClearAll(RayMessageType::ClearAll),
            origin: origin_placeholder(),
        },
        SessionCall::NewScreen(name) => EntryView {
            content_type: "new_screen"@,
            content: MessageView::NewScreen(
                RayMessageType::NewScreen,
                match name {
                    Some(n) => n,
                    None => ""@,
                },
            ),
            origin: origin_placeholder(),
        },
        SessionCall::ClearScreen => EntryView {
            content_type: "new_screen"@,
            content: MessageView::NewScreen(RayMessageType::NewScreen, ""@),
            origin: origin_placeholder(),
        },
        SessionCall::Confetti => EntryView {
            content_type: "confetti"@,
            content: MessageView::Confetti(RayMessageType::Confetti),
            origin: origin_placeholder(),
        },
        SessionCall::Charles => EntryView {
            content_type: "custom"@,
            content: MessageView::Charles(charles_tune()),
            origin: origin_placeholder(),
        },
        SessionCall::Enable => arbitrary(),
        SessionCall::Disable => arbitrary(),
    }
}

/// The session with one more entry appended; nothing else changes.
pub open spec fn push_entry(s: SessionView, e: EntryView) -> SessionView {
    SessionView {
        request: RequestView { payloads: s.request.payloads.push(e), ..s.request },
        ..s
    }
}

/// What one public operation does to a session: enable and disable set the
/// flag and nothing else; every other call appends its entry whatever the
/// flag says. Accumulation is independent of the flag; only dispatch is
/// gated on it.
pub open spec fn step(s: SessionView, c: SessionCall) -> SessionView {
    match c {
        SessionCall::Enable => SessionView { is_enabled: true, ..s },
        SessionCall::Disable => SessionView { is_enabled: false, ..s },
        _ => push_entry(s, entry_of(c)),
    }
}

/// A sequence of operations applied in order.
pub open spec fn apply_calls(s: SessionView, cs: Seq<SessionCall>) -> SessionView
    decreases cs.len(),
{
    if cs.len() == 0 {
        s
    } else {
        step(apply_calls(s, cs.drop_last()), cs.last())
    }
}

/// How many of the calls emit an entry.
pub open spec fn emit_count(cs: Seq<SessionCall>) -> nat
    decreases cs.len(),
{
    if cs.len() == 0 {
        0
    } else {
        emit_count(cs.drop_last()) + if is_emitting(cs.last()) {
            1nat
        } else {
            0nat
        }
    }
}

/// After any sequence of operations, the number of entries has grown by
/// exactly the number of emitting calls made: each emitting call appends
/// one entry, and the state-only calls append none.
pub proof fn lemma_entry_count(s: SessionView, cs: Seq<SessionCall>)
    ensures
        apply_calls(s, cs).request.payloads.len() == s.request.payloads.len() + emit_count(cs),
    decreases cs.len(),
{
    if cs.len() > 0 {
        lemma_entry_count(s, cs.drop_last());
    }
}

/// Accumulation is independent of the enabled flag: two sessions holding
/// the same request accumulate the same entries under the same calls, no
/// matter how their flags differ to begin with.
pub proof fn lemma_accumulation_ignores_flag(s: SessionView, t: SessionView, cs: Seq<SessionCall>)
    requires
        s.request == t.request,
    ensures
        apply_calls(s, cs).request == apply_calls(t, cs).request,
    decreases cs.len(),
{
    if cs.len() > 0 {
        lemma_accumulation_ignores_flag(s, t, cs.drop_last());
    }
}

/// A request only grows for the lifetime of a session: whatever
/// operations run, the entries already accumulated stay, in their order,
/// as a prefix of the entries afterwards, and the session's identifier
/// and environment snapshot never change.
pub proof fn lemma_request_only_grows(s: SessionView, cs: Seq<SessionCall>)
    ensures
        s.request.payloads.is_prefix_of(apply_calls(s, cs).request.payloads),
        apply_calls(s, cs).request.uuid == s.request.uuid,
        apply_calls(s, cs).request.meta == s.request.meta,
    decreases cs.len(),
{
    if cs.len() == 0 {
        assert(s.request.payloads.take(s.request.payloads.len() as int) =~= s.request.payloads);
    } else {
        lemma_request_only_grows(s, cs.drop_last());
        let prev = apply_calls(s, cs.drop_last()).request.payloads;
        let after = apply_calls(s, cs).request.payloads;
        let n = s.request.payloads.len() as int;
        assert(after.take(n) =~= prev.take(n));
    }
}

/// Disabling and enabling are proper complements: after a disable the
/// session reports itself disabled and not enabled, and after an enable
/// the reverse; neither touches the accumulated request.
pub proof fn lemma_flag_complement(s: SessionView)
    ensures
        !step(s, SessionCall::Disable).is_enabled,
        step(s, SessionCall::Enable).is_enabled,
        step(s, SessionCall::Disable).request == s.request,
        step(s, SessionCall::Enable).request == s.request,
{
}

/// Clearing the screen is exactly a new-screen call with an absent name:
/// the two operations take a session to the same state, one appended
/// entry included.
pub proof fn lemma_clear_screen_is_new_screen(s: SessionView)
    ensures
        step(s, SessionCall::ClearScreen) == step(s, SessionCall::NewScreen(None)),
        step(s, SessionCall::ClearScreen).request.payloads == s.request.payloads.push(
            entry_of(SessionCall::NewScreen(None)),
        ),
{
}

} // verus!
