//! Client library for a locally running debug-inspector process.
//!
//! A [`Ray`] session accumulates typed debug events (log lines, text,
//! colored markers, HTML snippets, screen commands, celebratory markers)
//! into a request and, after every mutation, offers the serialized request
//! to the caller's transport for best-effort delivery.

pub mod json;
pub mod message;
pub mod model;
mod trusted;

use crate::message::{
    RayCharles, RayClearAll, RayColor, RayColors, RayConfetti, RayHtml, RayLog, RayMessage,
    RayMessageType, RayNewScreen, RayText,
};
use crate::model::{EntryView, SessionCall, SessionView, step};
use vstd::prelude::*;

verus! {

/// The fixed local address of the debug-inspector process.
pub fn default_endpoint() -> (r: &'static str)
    ensures
        r@ == "http://localhost:23517"@,
{
    "http://localhost:23517"
}

/// The library's own version string, embedded at build time.
pub open spec fn client_version_text() -> Seq<char> {
    "0.1.0"@
}

/// The top-level unit sent over the wire: a process-unique identifier, the
/// ordered entries accumulated so far, and an environment snapshot. The
/// entries only grow for the lifetime of a session; they are never
/// reordered or removed.
#[derive(Debug, Clone)]
pub struct RayPayload {
    pub uuid: String,
    pub payloads: Vec<RayContent>,
    pub meta: RayMeta,
}

/// One logged event: the wire-kind tag, the payload whose shape the tag
/// fixes, and the call-site snapshot taken when the event was created.
#[derive(Debug, Clone)]
pub struct RayContent {
    pub content_type: String,
    pub content: RayMessage,
    pub origin: RayOrigin,
}

/// Call-site and environment context of one event. Reliable call-site
/// introspection is not available here, so the fields carry stable
/// placeholder values rather than being omitted.
#[derive(Debug, Clone)]
pub struct RayOrigin {
    pub function_name: String,
    pub file: String,
    pub line_number: u32,
    pub hostname: String,
}

impl RayOrigin {
    pub fn new() -> (r: RayOrigin)
        ensures
            r@ == crate::model::origin_placeholder(),
    {
        RayOrigin {
            function_name: "ray".to_owned(),
            file: "".to_owned(),
            line_number: 0,
            hostname: "localhost".to_owned(),
        }
    }
}

/// Environment snapshot, computed once at session creation: the runtime's
/// version as the metadata source reports it, and this library's own
/// version.
#[derive(Debug, Clone)]
pub struct RayMeta {
    pub rustc_version: String,
    pub package_version: String,
}

impl RayMeta {
    /// The snapshot made of the metadata source's answer: the runtime
    /// version it reported, or the placeholder glyph when it had none, and
    /// this library's own version.
    pub fn of_runtime(rv: Option<String>) -> (r: RayMeta)
        ensures
            r@.rustc_version == (match rv {
                Some(v) => v@,
                None => "🤷"@,
            }),
            r@.package_version == client_version_text(),
    {
        let rustc_version = match rv {
            Some(v) => v,
            None => "🤷".to_owned(),
        };
        RayMeta { rustc_version, package_version: "0.1.0".to_owned() }
    }

    pub fn new() -> (r: RayMeta)
        ensures
            r@.package_version == client_version_text(),
    {
        RayMeta::of_runtime(crate::trusted::runtime_version())
    }
}

/// The stateful session: the request it accumulates and the flag that
/// gates dispatch. One session per logical debug session; no teardown.
#[derive(Debug, Clone)]
pub struct Ray {
    pub request: RayPayload,
    pub is_enabled: bool,
}

/// The typed error of the reserved-but-unbuilt part of the session
/// surface: those operations are declared but not designed yet, and
/// callers must not depend on them.
#[derive(Debug, Clone, Copy, PartialEq, Eq, Structural)]
pub enum RayError {
    UnsupportedOperation,
}

/// What an emitting operation hands back for delivery: the whole
/// accumulated request, serialized, when the session is enabled, and
/// nothing when it is disabled. Delivery itself is the caller's transport
/// concern; it is best-effort and its failures are to be swallowed.
pub open spec fn dispatched(r: Option<String>, s: SessionView) -> bool {
    match r {
        Some(body) => s.is_enabled && body@ == crate::json::json_of_request(s.request),
        None => !s.is_enabled,
    }
}

impl Ray {
    pub fn new() -> (r: Ray)
        ensures
            r@.request.payloads == Seq::<EntryView>::empty(),
            r@.is_enabled,
            r@.request.uuid.len() == 36,
            r@.request.meta.package_version == client_version_text(),
    {
        let r = Ray {
            request: RayPayload {
                uuid: crate::trusted::new_uuid_string(),
                payloads: Vec::new(),
                meta: RayMeta::new(),
            },
            is_enabled: true,
        };
        proof {
            assert(r@.request.payloads =~= Seq::<EntryView>::empty());
        }
        r
    }

    /// Offers the accumulated request for dispatch: the serialized request
    /// when the session is enabled, nothing when it is disabled. Never
    /// fails and never blocks on delivery; the session is left as it was.
    pub fn send(&mut self) -> (r: Option<String>)
        ensures
            *final(self) == *old(self),
            dispatched(r, old(self)@),
    {
        if !self.is_enabled {
            return None;
        }
        Some(crate::json::serialize_request(&self.request))
    }

    /// Appends one well-formed event and offers the grown request for
    /// dispatch.
    fn emit(&mut self, content_type: String, message: RayMessage) -> (r: Option<String>)
        ensures
            final(self)@ == crate::model::push_entry(
                old(self)@,
                (EntryView {
                    content_type: content_type@,
                    content: message@,
                    origin: crate::model::origin_placeholder(),
                }),
            ),
            dispatched(r, final(self)@),
    {
        let content = RayContent { content_type, origin: RayOrigin::new(), content: message };
        self.request.payloads.push(content);
        proof {
            assert(self@ =~~= crate::model::push_entry(
                old(self)@,
                (EntryView {
                    content_type: content_type@,
                    content: message@,
                    origin: crate::model::origin_placeholder(),
                }),
            ));
        }
        self.send()
    }

    /// Emits the clear-all command.
    pub fn clear_all(&mut self) -> (r: Option<String>)
        ensures
            final(self)@ == step(old(self)@, SessionCall::ClearAll),
            dispatched(r, final(self)@),
    {
        let message = RayMessage::ClearAll(RayClearAll { label: RayMessageType::ClearAll });
        self.emit(RayClearAll::get_type(), message)
    }

    /// Emits the new-screen command; an absent display name is carried as
    /// the empty string.
    pub fn new_screen(&mut self, name: Option<&str>) -> (r: Option<String>)
        ensures
            final(self)@ == step(
                old(self)@,
                SessionCall::NewScreen(
                    match name {
                        Some(n) => Some(n@),
                        None => None,
                    },
                ),
            ),
            dispatched(r, final(self)@),
    {
        let shown = match name {
            Some(n) => n.to_owned(),
            None => "".to_owned(),
        };
        let message = RayMessage::NewScreen(
            RayNewScreen { label: RayMessageType::NewScreen, name: shown },
        );
        self.emit(RayNewScreen::get_type(), message)
    }

    /// Clears the screen: exactly a new-screen call with an absent name.
    pub fn clear_screen(&mut self) -> (r: Option<String>)
        ensures
            final(self)@ == step(old(self)@, SessionCall::ClearScreen),
            final(self)@ == step(old(self)@, SessionCall::NewScreen(None)),
            dispatched(r, final(self)@),
    {
        self.new_screen(None)
    }

    /// Emits an ordered sequence of pre-rendered string values.
    pub fn log(&mut self, values: Vec<String>) -> (r: Option<String>)
        ensures
            final(self)@ == step(
                old(self)@,
                SessionCall::Log(values@.map_values(|s: String| s@)),
            ),
            dispatched(r, final(self)@),
    {
        let message = RayMessage::Log(RayLog { label: RayMessageType::Log, values });
        self.emit(RayLog::get_type(), message)
    }

    /// Emits a single text value.
    pub fn text(&mut self, value: &str) -> (r: Option<String>)
        ensures
            final(self)@ == step(old(self)@, SessionCall::Text(value@)),
            dispatched(r, final(self)@),
    {
        let message = RayMessage::Text(
            RayText { label: RayMessageType::Text, content: value.to_owned() },
        );
        self.emit(RayText::get_type(), message)
    }

    /// Emits a color marker; the name is resolved leniently, unknown input
    /// falling back to gray.
    pub fn color(&mut self, value: &str) -> (r: Option<String>)
        ensures
            final(self)@ == step(old(self)@, SessionCall::Color(value@)),
            dispatched(r, final(self)@),
    {
        let message = RayMessage::Color(RayColor { color: RayColors::from(value.to_owned()) });
        self.emit(RayColor::get_type(), message)
    }

    /// Emits a raw HTML snippet.
    pub fn html(&mut self, value: &str) -> (r: Option<String>)
        ensures
            final(self)@ == step(old(self)@, SessionCall::Html(value@)),
            dispatched(r, final(self)@),
    {
        let message = RayMessage::HTML(
            RayHtml { label: RayMessageType::HTML, content: value.to_owned() },
        );
        self.emit(RayHtml::get_type(), message)
    }

    /// Emits the confetti marker.
    pub fn confetti(&mut self) -> (r: Option<String>)
        ensures
            final(self)@ == step(old(self)@, SessionCall::Confetti),
            dispatched(r, final(self)@),
    {
        let message = RayMessage::Confetti(RayConfetti { label: RayMessageType::Confetti });
        self.emit(RayConfetti::get_type(), message)
    }

    /// Emits the fixed celebratory marker.
    pub fn charles(&mut self) -> (r: Option<String>)
        ensures
            final(self)@ == step(old(self)@, SessionCall::Charles),
            dispatched(r, final(self)@),
    {
        let message = RayMessage::Charles(RayCharles { content: "🎶 🎹 🎷 🕺".to_owned() });
        self.emit(RayCharles::get_type(), message)
    }

    /// Stops dispatch; accumulation goes on regardless.
    pub fn disable(&mut self)
        ensures
            final(self)@ == step(old(self)@, SessionCall::Disable),
    {
        self.is_enabled = false;
    }

    /// Reports whether dispatch is off; the session is left as it was.
    pub fn disabled(&mut self) -> (r: bool)
        ensures
            *final(self) == *old(self),
            r == !old(self).is_enabled,
    {
        !self.is_enabled
    }

    /// Resumes dispatch.
    pub fn enable(&mut self)
        ensures
            final(self)@ == step(old(self)@, SessionCall::Enable),
    {
        self.is_enabled = true;
    }

    /// Reports whether dispatch is on; the session is left as it was.
    pub fn enabled(&mut self) -> (r: bool)
        ensures
            *final(self) == *old(self),
            r == old(self).is_enabled,
    {
        self.is_enabled
    }

    /// Reserved builder surface, not yet designed: a typed error rather
    /// than an abort, and the session is left as it was.
    pub fn count(&mut self, _name: &str) -> (r: Result<(), RayError>)
        ensures
            *final(self) == *old(self),
            r == Err::<(), RayError>(RayError::UnsupportedOperation),
    {
        Err(RayError::UnsupportedOperation)
    }

    /// Reserved builder surface, not yet designed.
    pub fn counter_value(&mut self) -> (r: Result<(), RayError>)
        ensures
            *final(self) == *old(self),
            r == Err::<(), RayError>(RayError::UnsupportedOperation),
    {
        Err(RayError::UnsupportedOperation)
    }

    /// Reserved builder surface, not yet designed.
    pub fn clear_counters(&mut self) -> (r: Result<(), RayError>)
        ensures
            *final(self) == *old(self),
            r == Err::<(), RayError>(RayError::UnsupportedOperation),
    {
        Err(RayError::UnsupportedOperation)
    }

    /// Reserved builder surface, not yet designed.
    pub fn file(&mut self) -> (r: Result<(), RayError>)
        ensures
            *final(self) == *old(self),
            r == Err::<(), RayError>(RayError::UnsupportedOperation),
    {
        Err(RayError::UnsupportedOperation)
    }

    /// Reserved builder surface, not yet designed.
    pub fn gray(&mut self) -> (r: Result<(), RayError>)
        ensures
            *final(self) == *old(self),
            r == Err::<(), RayError>(RayError::UnsupportedOperation),
    {
        Err(RayError::UnsupportedOperation)
    }

    /// Reserved builder surface, not yet designed.
    pub fn green(&mut self) -> (r: Result<(), RayError>)
        ensures
            *final(self) == *old(self),
            r == Err::<(), RayError>(RayError::UnsupportedOperation),
    {
        Err(RayError::UnsupportedOperation)
    }

    /// Reserved builder surface, not yet designed.
    pub fn conceal(&mut self) -> (r: Result<(), RayError>)
        ensures
            *final(self) == *old(self),
            r == Err::<(), RayError>(RayError::UnsupportedOperation),
    {
        Err(RayError::UnsupportedOperation)
    }

    /// Reserved builder surface, not yet designed.
    pub fn hide_app(&mut self) -> (r: Result<(), RayError>)
        ensures
            *final(self) == *old(self),
            r == Err::<(), RayError>(RayError::UnsupportedOperation),
    {
        Err(RayError::UnsupportedOperation)
    }

    /// Reserved builder surface, not yet designed.
    pub fn image(&mut self) -> (r: Result<(), RayError>)
        ensures
            *final(self) == *old(self),
            r == Err::<(), RayError>(RayError::UnsupportedOperation),
    {
        Err(RayError::UnsupportedOperation)
    }

    /// Reserved builder surface, not yet designed.
    pub fn only_if(&mut self) -> (r: Result<(), RayError>)
        ensures
            *final(self) == *old(self),
            r == Err::<(), RayError>(RayError::UnsupportedOperation),
    {
        Err(RayError::UnsupportedOperation)
    }

    /// Reserved builder surface, not yet designed.
    pub fn json(&mut self) -> (r: Result<(), RayError>)
        ensures
            *final(self) == *old(self),
            r == Err::<(), RayError>(RayError::UnsupportedOperation),
    {
        Err(RayError::UnsupportedOperation)
    }

    /// Reserved builder surface, not yet designed.
    pub fn label(&mut self) -> (r: Result<(), RayError>)
        ensures
            *final(self) == *old(self),
            r == Err::<(), RayError>(RayError::UnsupportedOperation),
    {
        Err(RayError::UnsupportedOperation)
    }

    /// Reserved builder surface, not yet designed.
    pub fn large(&mut self) -> (r: Result<(), RayError>)
        ensures
            *final(self) == *old(self),
            r == Err::<(), RayError>(RayError::UnsupportedOperation),
    {
        Err(RayError::UnsupportedOperation)
    }

    /// Reserved builder surface, not yet designed.
    pub fn limit(&mut self) -> (r: Result<(), RayError>)
        ensures
            *final(self) == *old(self),
            r == Err::<(), RayError>(RayError::UnsupportedOperation),
    {
        Err(RayError::UnsupportedOperation)
    }

    /// Reserved builder surface, not yet designed.
    pub fn link(&mut self) -> (r: Result<(), RayError>)
        ensures
            *final(self) == *old(self),
            r == Err::<(), RayError>(RayError::UnsupportedOperation),
    {
        Err(RayError::UnsupportedOperation)
    }

    /// Reserved builder surface, not yet designed.
    pub fn measure(&mut self) -> (r: Result<(), RayError>)
        ensures
            *final(self) == *old(self),
            r == Err::<(), RayError>(RayError::UnsupportedOperation),
    {
        Err(RayError::UnsupportedOperation)
    }

    /// Reserved builder surface, not yet designed.
    pub fn notify(&mut self) -> (r: Result<(), RayError>)
        ensures
            *final(self) == *old(self),
            r == Err::<(), RayError>(RayError::UnsupportedOperation),
    {
        Err(RayError::UnsupportedOperation)
    }

    /// Reserved builder surface, not yet designed.
    pub fn orange(&mut self) -> (r: Result<(), RayError>)
        ensures
            *final(self) == *old(self),
            r == Err::<(), RayError>(RayError::UnsupportedOperation),
    {
        Err(RayError::UnsupportedOperation)
    }

    /// Reserved builder surface, not yet designed.
    pub fn pass(&mut self) -> (r: Result<(), RayError>)
        ensures
            *final(self) == *old(self),
            r == Err::<(), RayError>(RayError::UnsupportedOperation),
    {
        Err(RayError::UnsupportedOperation)
    }

    /// Reserved builder surface, not yet designed.
    pub fn pause(&mut self) -> (r: Result<(), RayError>)
        ensures
            *final(self) == *old(self),
            r == Err::<(), RayError>(RayError::UnsupportedOperation),
    {
        Err(RayError::UnsupportedOperation)
    }

    /// Reserved builder surface, not yet designed.
    pub fn info(&mut self) -> (r: Result<(), RayError>)
        ensures
            *final(self) == *old(self),
            r == Err::<(), RayError>(RayError::UnsupportedOperation),
    {
        Err(RayError::UnsupportedOperation)
    }

    /// Reserved builder surface, not yet designed.
    pub fn purple(&mut self) -> (r: Result<(), RayError>)
        ensures
            *final(self) == *old(self),
            r == Err::<(), RayError>(RayError::UnsupportedOperation),
    {
        Err(RayError::UnsupportedOperation)
    }

    /// Reserved builder surface, not yet designed.
    pub fn rate_limiter(&mut self) -> (r: Result<(), RayError>)
        ensures
            *final(self) == *old(self),
            r == Err::<(), RayError>(RayError::UnsupportedOperation),
    {
        Err(RayError::UnsupportedOperation)
    }

    /// Reserved builder surface, not yet designed.
    pub fn red(&mut self) -> (r: Result<(), RayError>)
        ensures
            *final(self) == *old(self),
            r == Err::<(), RayError>(RayError::UnsupportedOperation),
    {
        Err(RayError::UnsupportedOperation)
    }

    /// Reserved builder surface, not yet designed.
    pub fn separator(&mut self) -> (r: Result<(), RayError>)
        ensures
            *final(self) == *old(self),
            r == Err::<(), RayError>(RayError::UnsupportedOperation),
    {
        Err(RayError::UnsupportedOperation)
    }

    /// Reserved builder surface, not yet designed.
    pub fn show_app(&mut self) -> (r: Result<(), RayError>)
        ensures
            *final(self) == *old(self),
            r == Err::<(), RayError>(RayError::UnsupportedOperation),
    {
        Err(RayError::UnsupportedOperation)
    }

    /// Reserved builder surface, not yet designed.
    pub fn small(&mut self) -> (r: Result<(), RayError>)
        ensures
            *final(self) == *old(self),
            r == Err::<(), RayError>(RayError::UnsupportedOperation),
    {
        Err(RayError::UnsupportedOperation)
    }

    /// Reserved builder surface, not yet designed.
    pub fn table(&mut self) -> (r: Result<(), RayError>)
        ensures
            *final(self) == *old(self),
            r == Err::<(), RayError>(RayError::UnsupportedOperation),
    {
        Err(RayError::UnsupportedOperation)
    }

    /// Reserved builder surface, not yet designed.
    pub fn to_json(&mut self) -> (r: Result<(), RayError>)
        ensures
            *final(self) == *old(self),
            r == Err::<(), RayError>(RayError::UnsupportedOperation),
    {
        Err(RayError::UnsupportedOperation)
    }

    /// Reserved builder surface, not yet designed.
    pub fn trace(&mut self) -> (r: Result<(), RayError>)
        ensures
            *final(self) == *old(self),
            r == Err::<(), RayError>(RayError::UnsupportedOperation),
    {
        Err(RayError::UnsupportedOperation)
    }

    /// Reserved builder surface, not yet designed.
    pub fn url(&mut self) -> (r: Result<(), RayError>)
        ensures
            *final(self) == *old(self),
            r == Err::<(), RayError>(RayError::UnsupportedOperation),
    {
        Err(RayError::UnsupportedOperation)
    }

    /// Reserved builder surface, not yet designed.
    pub fn xml(&mut self) -> (r: Result<(), RayError>)
        ensures
            *final(self) == *old(self),
            r == Err::<(), RayError>(RayError::UnsupportedOperation),
    {
        Err(RayError::UnsupportedOperation)
    }
}

} // verus!
