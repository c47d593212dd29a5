//! Topic computation for the broker-backed event integration.
//!
//! For each device lifecycle event the integration publishes a payload
//! under a topic rendered from a configurable text template. The rendering
//! itself is done by handlebars with escaping turned off — literal
//! substitution of the application identifier, the device identifier and
//! the event kind — and is trusted; everything around it is verified. The
//! publishing, and the choice between the binary and the JSON payload
//! encoding of an event, happen at the broker edge with the embedder.

use vstd::prelude::*;

verus! {

/// The device lifecycle events the integration publishes.
#[derive(Clone, Copy, Debug, PartialEq, Eq, Structural)]
pub enum EventKind {
    Up,
    Join,
    Ack,
    TxAck,
    Log,
    Status,
    Location,
    Integration,
}

/// Textual name of an event kind, as it appears in topics.
pub open spec fn spec_event_kind(k: EventKind) -> Seq<char> {
    match k {
        EventKind::Up => "up"@,
        EventKind::Join => "join"@,
        EventKind::Ack => "ack"@,
        EventKind::TxAck => "txack"@,
        EventKind::Log => "log"@,
        EventKind::Status => "status"@,
        EventKind::Location => "location"@,
        EventKind::Integration => "integration"@,
    }
}

impl EventKind {
    /// The name of the event kind, as it appears in topics.
    pub fn as_str(&self) -> (r: &'static str)
        ensures
            r@ == spec_event_kind(*self),
    {
        match self {
            EventKind::Up => "up",
            EventKind::Join => "join",
            EventKind::Ack => "ack",
            EventKind::TxAck => "txack",
            EventKind::Log => "log",
            EventKind::Status => "status",
            EventKind::Location => "location",
            EventKind::Integration => "integration",
        }
    }
}

/// Failure to compute an event topic.
#[derive(Clone, Copy, Debug, PartialEq, Eq, Structural)]
pub enum TopicError {
    /// The configured topic template cannot be compiled or rendered.
    InvalidTemplate,
}

/// What handlebars makes of an event-topic template: the template text
/// rendered with literal (non-escaping) substitution of the three
/// variables `application_id`, `dev_eui` and `event`.
pub uninterp spec fn rendered_event_topic(
    template: Seq<char>,
    application_id: Seq<char>,
    dev_eui: Seq<char>,
    event: Seq<char>,
) -> Seq<char>;

/// Whether handlebars renders an event-topic template: like the rendered
/// text itself, this depends on the template text and the three variables
/// alone, so a well-formed template is owed its topic.
pub uninterp spec fn event_topic_renders(
    template: Seq<char>,
    application_id: Seq<char>,
    dev_eui: Seq<char>,
    event: Seq<char>,
) -> bool;

/// Relies on handlebars::Handlebars::render_template: with escaping turned
/// off (handlebars::no_escape) the rendered text, and whether rendering
/// succeeds at all, are functions of the template text and the three
/// variables alone; the call fails only on a template handlebars cannot
/// compile or render.
#[verifier::external_body]
fn render_event_topic(template: &str, application_id: &str, dev_eui: &str, event: &str) -> (r:
    Result<String, TopicError>)
    ensures
        r is Ok <==> event_topic_renders(template@, application_id@, dev_eui@, event@),
        r matches Ok(s) ==> s@ == rendered_event_topic(
            template@,
            application_id@,
            dev_eui@,
            event@,
        ),
{
    let mut registry = handlebars::Handlebars::new();
    registry.register_escape_fn(handlebars::no_escape);
    let mut vars = std::collections::BTreeMap::new();
    vars.insert("application_id", application_id);
    vars.insert("dev_eui", dev_eui);
    vars.insert("event", event);
    registry.render_template(template, &vars).map_err(|_| TopicError::InvalidTemplate)
}

/// The topic an event is published under: the configurable template
/// rendered against the application identifier, the device identifier and
/// the event kind's name. It succeeds exactly when the template renders,
/// and then yields the rendered text.
pub fn get_event_topic(template: &str, application_id: &str, dev_eui: &str, event: EventKind) -> (r:
    Result<String, TopicError>)
    ensures
        r is Ok <==> event_topic_renders(
            template@,
            application_id@,
            dev_eui@,
            spec_event_kind(event),
        ),
        r matches Ok(s) ==> s@ == rendered_event_topic(
            template@,
            application_id@,
            dev_eui@,
            spec_event_kind(event),
        ),
        r matches Err(e) ==> e == TopicError::InvalidTemplate,
{
    render_event_topic(template, application_id, dev_eui, event.as_str())
}

} // verus!
