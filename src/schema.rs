//! The status snapshot, the status message sent out, and the command taken in.
use vstd::prelude::*;
use crate::event::{Event, EventView, opt_view, views, lemma_views_push, lemma_views_empty};
use crate::json::{
    JsonField, json_parse, json_is_object, json_member, json_quoted, parse_json, member,
    quote_json, local_timestamp,
};

verus! {

/// What is known of the two controlled subsystems; `None` until first observed.
#[derive(Clone, Copy, Debug, PartialEq, Eq, Structural)]
pub struct Status {
    pub tx_power_enabled: Option<bool>,
    pub tx_power_active: Option<bool>,
    pub ptt_enabled: Option<bool>,
    pub ptt_active: Option<bool>,
}

impl Default for Status {
    fn default() -> (r: Status)
        ensures
            r == Status::unknown(),
    {
        Status { tx_power_enabled: None, tx_power_active: None, ptt_enabled: None, ptt_active: None }
    }
}

impl Status {
    /// Nothing observed yet.
    pub open spec fn unknown() -> Status {
        Status { tx_power_enabled: None, tx_power_active: None, ptt_enabled: None, ptt_active: None }
    }
}

/// A JSON boolean, or `null` for an unknown value.
pub open spec fn bool_json(b: Option<bool>) -> Seq<char> {
    match b {
        None => "null"@,
        Some(true) => "true"@,
        Some(false) => "false"@,
    }
}

/// A JSON string, or `null` for no text.
pub open spec fn text_json(m: Option<Seq<char>>) -> Seq<char> {
    match m {
        None => "null"@,
        Some(t) => json_quoted(t),
    }
}

/// The status object of a status message.
pub open spec fn status_json(s: Status) -> Seq<char> {
    "{\"tx_power_enabled\":"@ + bool_json(s.tx_power_enabled) + ",\"tx_power_active\":"@
        + bool_json(s.tx_power_active) + ",\"ptt_enabled\":"@ + bool_json(s.ptt_enabled)
        + ",\"ptt_active\":"@ + bool_json(s.ptt_active) + "}"@
}

/// The text of a status message: the snapshot, an optional message and a time.
pub open spec fn response_json(s: Status, message: Option<Seq<char>>, stamp: Seq<char>) -> Seq<char> {
    "{\"status\":"@ + status_json(s) + ",\"message\":"@ + text_json(message) + ",\"timestamp\":"@
        + json_quoted(stamp) + "}"@
}

fn append_bool(out: &mut String, b: Option<bool>)
    ensures
        final(out)@ == old(out)@ + bool_json(b),
{
    match b {
        None => out.append("null"),
        Some(true) => out.append("true"),
        Some(false) => out.append("false"),
    }
}

/// Writes a status message.
pub fn encode_response(status: &Status, message: &Option<String>, stamp: &str) -> (r: String)
    ensures
        r@ == response_json(*status, opt_view(*message), stamp@),
{
    let mut out = String::from_str("{\"status\":{\"tx_power_enabled\":");
    append_bool(&mut out, status.tx_power_enabled);
    out.append(",\"tx_power_active\":");
    append_bool(&mut out, status.tx_power_active);
    out.append(",\"ptt_enabled\":");
    append_bool(&mut out, status.ptt_enabled);
    out.append(",\"ptt_active\":");
    append_bool(&mut out, status.ptt_active);
    out.append("},\"message\":");
    match message {
        None => out.append("null"),
        Some(m) => {
            let q = quote_json(m.as_str()).unwrap();
            out.append(q.as_str());
        },
    }
    out.append(",\"timestamp\":");
    let q = quote_json(stamp).unwrap();
    out.append(q.as_str());
    out.append("}");
    proof {
        reveal_strlit("{\"status\":{\"tx_power_enabled\":");
        reveal_strlit("{\"status\":");
        reveal_strlit("{\"tx_power_enabled\":");
        reveal_strlit("},\"message\":");
        reveal_strlit("}");
        reveal_strlit(",\"message\":");
        assert(response_json(*status, opt_view(*message), stamp@) =~= out@);
    }
    out
}

/// A status message as it leaves the station.
pub struct Response {
    pub status: Status,
    pub message: Option<String>,
    /// Local time, RFC 3339.
    pub timestamp: String,
}

impl Response {
    /// A status message stamped with the local time now.
    pub fn new(status: Status, message: Option<String>) -> (r: Response)
        ensures
            r.status == status,
            r.message == message,
    {
        Response { status, message, timestamp: local_timestamp() }
    }

    pub fn to_json(&self) -> (r: String)
        ensures
            r@ == response_json(self.status, opt_view(self.message), self.timestamp@),
    {
        encode_response(&self.status, &self.message, self.timestamp.as_str())
    }
}

/// A command from the operator: each subsystem to enable, disable, or leave.
#[derive(Clone, Copy, Debug, PartialEq, Eq, Structural)]
pub struct Command {
    pub enable_tx_power: Option<bool>,
    pub enable_ptt: Option<bool>,
}

/// What a member of a command means: `None` where it holds no boolean and is
/// not null, which rejects the command.
pub open spec fn flag_of(f: JsonField) -> Option<Option<bool>> {
    match f {
        JsonField::Absent => Some(None),
        JsonField::Null => Some(None),
        JsonField::Bool(b) => Some(Some(b)),
        JsonField::Other => None,
    }
}

/// The command that a text holds: a JSON object whose members
/// `enable_tx_power` and `enable_ptt` are booleans or null where present.
/// Other members are ignored.
pub open spec fn command_of(text: Seq<char>) -> Option<Command> {
    match json_parse(text) {
        None => None,
        Some(v) => {
            if !json_is_object(v) {
                None
            } else {
                match (
                    flag_of(json_member(v, "enable_tx_power"@)),
                    flag_of(json_member(v, "enable_ptt"@)),
                ) {
                    (Some(a), Some(b)) => Some(Command { enable_tx_power: a, enable_ptt: b }),
                    _ => None,
                }
            }
        },
    }
}

/// The events that a command asks for: TX power first, then PTT.
pub open spec fn command_events(c: Command) -> Seq<EventView> {
    let a = match c.enable_tx_power {
        Some(en) => seq![EventView::SetTxPowerEnable(en)],
        None => Seq::empty(),
    };
    let b = match c.enable_ptt {
        Some(en) => seq![EventView::SetPttEnable(en)],
        None => Seq::empty(),
    };
    a + b
}

fn flag(f: JsonField) -> (r: Option<Option<bool>>)
    ensures
        r == flag_of(f),
{
    match f {
        JsonField::Absent => Some(None),
        JsonField::Null => Some(None),
        JsonField::Bool(b) => Some(Some(b)),
        JsonField::Other => None,
    }
}

impl Command {
    /// Reads a command from a received message; `None` where it is no command.
    pub fn parse(text: &str) -> (r: Option<Command>)
        ensures
            r == command_of(text@),
    {
        match parse_json(text) {
            None => None,
            Some(v) => {
                if !v.is_object() {
                    None
                } else {
                    let a = flag(member(&v, "enable_tx_power"));
                    let b = flag(member(&v, "enable_ptt"));
                    match (a, b) {
                        (Some(a), Some(b)) => Some(Command { enable_tx_power: a, enable_ptt: b }),
                        _ => None,
                    }
                }
            },
        }
    }

    pub fn generate_events(&self) -> (r: Vec<Event>)
        ensures
            views(r@) == command_events(*self),
    {
        let mut v: Vec<Event> = Vec::new();
        proof {
            lemma_views_empty();
        }
        if let Some(en) = self.enable_tx_power {
            proof {
                lemma_views_push(v@, Event::SetTxPowerEnable(en));
            }
            v.push(Event::SetTxPowerEnable(en));
        }
        if let Some(en) = self.enable_ptt {
            proof {
                lemma_views_push(v@, Event::SetPttEnable(en));
            }
            v.push(Event::SetPttEnable(en));
        }
        assert(views(v@) =~= command_events(*self));
        v
    }
}

/// Whatever the order of the members in the text, a command that sets both
/// subsystems asks for TX power first and PTT second.
pub proof fn lemma_command_order(text: Seq<char>)
    requires
        command_of(text) matches Some(c) && c.enable_tx_power is Some && c.enable_ptt is Some,
    ensures
        command_events(command_of(text)->Some_0) == seq![
            EventView::SetTxPowerEnable(command_of(text)->Some_0.enable_tx_power->Some_0),
            EventView::SetPttEnable(command_of(text)->Some_0.enable_ptt->Some_0),
        ],
{
    let c = command_of(text)->Some_0;
    assert(command_events(c) =~= seq![
        EventView::SetTxPowerEnable(c.enable_tx_power->Some_0),
        EventView::SetPttEnable(c.enable_ptt->Some_0),
    ]);
}

} // verus!
