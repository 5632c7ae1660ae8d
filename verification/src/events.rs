//! Typed views over delivered UI events.
//!
//! The bridge delivers one event record per fired element occurrence.  The
//! record is modelled here as plain values: its identifying fields, the
//! argument list the client sent, the pending response, and the state of the
//! originating client connection.

use vstd::prelude::*;

use crate::marshal::no_nul;
use vstd::string::StrSliceExecFns;

verus! {

/// The kind of a delivered event.
///
/// The bridge encodes the kind as a small integer; [`WebUIEventType::from_usize`]
/// fixes the decoding.  A code this crate does not recognize becomes the
/// explicit `Unknown` variant rather than silently aliasing a known kind.
#[derive(Clone, Copy, PartialEq, Eq, Structural, Debug)]
pub enum WebUIEventType {
    Disconnected,
    Connected,
    MouseClick,
    Navigation,
    Callback,
    Unknown,
}

impl WebUIEventType {
    /// Decodes the event-kind code the bridge delivered.
    pub fn from_usize(value: usize) -> (r: WebUIEventType)
        ensures
            r == WebUIEventType::spec_from_code(value as int),
    {
        match value {
            0 => WebUIEventType::Disconnected,
            1 => WebUIEventType::Connected,
            2 => WebUIEventType::MouseClick,
            3 => WebUIEventType::Navigation,
            4 => WebUIEventType::Callback,
            _ => WebUIEventType::Unknown,
        }
    }

    /// The boundary encoding of a recognized kind.
    pub fn to_usize(self) -> (r: usize)
        requires
            self != WebUIEventType::Unknown,
        ensures
            r == self.spec_code(),
    {
        match self {
            WebUIEventType::Disconnected => 0,
            WebUIEventType::Connected => 1,
            WebUIEventType::MouseClick => 2,
            WebUIEventType::Navigation => 3,
            WebUIEventType::Callback => 4,
            WebUIEventType::Unknown => 5,
        }
    }

    /// The boundary encoding, as a mathematical value.
    pub open spec fn spec_code(self) -> int {
        match self {
            WebUIEventType::Disconnected => 0,
            WebUIEventType::Connected => 1,
            WebUIEventType::MouseClick => 2,
            WebUIEventType::Navigation => 3,
            WebUIEventType::Callback => 4,
            WebUIEventType::Unknown => 5,
        }
    }

    /// The decoding of an arbitrary kind code.
    pub open spec fn spec_from_code(value: int) -> WebUIEventType {
        if value == 0 {
            WebUIEventType::Disconnected
        } else if value == 1 {
            WebUIEventType::Connected
        } else if value == 2 {
            WebUIEventType::MouseClick
        } else if value == 3 {
            WebUIEventType::Navigation
        } else if value == 4 {
            WebUIEventType::Callback
        } else {
            WebUIEventType::Unknown
        }
    }
}

/// Round trip: decoding the encoding of a recognized kind gives it back.
pub proof fn lemma_event_type_code_round_trip(t: WebUIEventType)
    requires
        t != WebUIEventType::Unknown,
    ensures
        WebUIEventType::spec_from_code(t.spec_code()) == t,
{
}

/// One argument delivered with an event, as the typed value the client sent.
///
/// The bridge coerces each requested argument on demand; this model instead
/// carries the value in its delivered type and lets each typed accessor
/// answer its own type exactly and a default otherwise.
#[derive(Clone, Debug, PartialEq, Eq)]
pub enum EventArg {
    Int(i64),
    Text(String),
    Bool(bool),
}

impl EventArg {
    /// The argument read as an integer: its value when it is one, 0 otherwise.
    pub open spec fn as_int(self) -> i64 {
        match self {
            EventArg::Int(v) => v,
            _ => 0,
        }
    }

    /// The argument read as text: its characters when it is text, empty otherwise.
    pub open spec fn as_text(self) -> Seq<char> {
        match self {
            EventArg::Text(s) => s@,
            _ => Seq::empty(),
        }
    }

    /// The argument read as a boolean: its value when it is one, false otherwise.
    pub open spec fn as_bool(self) -> bool {
        match self {
            EventArg::Bool(b) => b,
            _ => false,
        }
    }

    /// The size the argument reports: the length of a text, 8 for an
    /// integer, 1 for a boolean.
    pub open spec fn size(self) -> int {
        match self {
            EventArg::Int(_) => 8,
            EventArg::Text(s) => s@.len() as int,
            EventArg::Bool(_) => 1,
        }
    }
}

/// The integer reading of argument `i`, or 0 when there is no argument `i`.
pub open spec fn int_at(args: Seq<EventArg>, i: int) -> i64 {
    if 0 <= i < args.len() {
        args[i].as_int()
    } else {
        0
    }
}

/// The text reading of argument `i`, or empty when there is no argument `i`.
pub open spec fn text_at(args: Seq<EventArg>, i: int) -> Seq<char> {
    if 0 <= i < args.len() {
        args[i].as_text()
    } else {
        Seq::empty()
    }
}

/// The boolean reading of argument `i`, or false when there is no argument `i`.
pub open spec fn bool_at(args: Seq<EventArg>, i: int) -> bool {
    if 0 <= i < args.len() {
        args[i].as_bool()
    } else {
        false
    }
}

/// The reported size of argument `i`, or 0 when there is no argument `i`.
pub open spec fn size_at(args: Seq<EventArg>, i: int) -> int {
    if 0 <= i < args.len() {
        args[i].size()
    } else {
        0
    }
}

/// A request an event handler addressed to the originating client.
#[derive(Clone, Debug, PartialEq, Eq)]
pub enum ClientCommand {
    /// Show this content on the client.
    Show(String),
    /// Navigate the client to this URL.
    Navigate(String),
    /// Run this script on the client, fire and forget.
    Run(String),
    /// Send this binary payload to the client, tagged with a function name.
    SendRaw(String, Vec<u8>),
}

/// Whether `post` is `pre` with exactly one command appended.
pub open spec fn appended_one(pre: Seq<ClientCommand>, post: Seq<ClientCommand>) -> bool {
    &&& post.len() == pre.len() + 1
    &&& post.drop_last() == pre
}

/// One delivered event, with the full record the richer bridge calling
/// convention carries.
///
/// A value of this type is only meaningful for the duration of the handler
/// invocation it was constructed for; it views the one occurrence that
/// fired.  The identifying fields come from the bridge; the argument list,
/// the pending response, the connection state of the originating client,
/// the client's staged reply to a synchronous script call, and the log of
/// requests sent back to the client are the model of the call-scoped native
/// record.
pub struct WebUIEvent {
    /// Identity of the window the event fired on.
    pub win: usize,
    /// The kind of occurrence delivered.
    pub event_type: WebUIEventType,
    /// Name of the element that fired.
    pub element: String,
    /// Per-event sequence number within the window.
    pub event_number: usize,
    /// Identifier of the binding that matched.
    pub bind_id: usize,
    /// Identifier of the originating client.
    pub client_id: usize,
    /// Identifier of the originating connection.
    pub connection_id: usize,
    /// Cookie text the originating client presented.
    pub cookies: String,
    /// The arguments the client sent with the occurrence.
    pub args: Vec<EventArg>,
    /// The pending response; a later return call overwrites it.
    pub response: Option<EventArg>,
    /// Whether the originating client is still connected.
    pub connected: bool,
    /// The textual result the connected client would answer to a
    /// synchronous script call.
    pub reply: Option<String>,
    /// The requests addressed to the originating client so far.
    pub sent: Vec<ClientCommand>,
}

impl WebUIEvent {
    /// Builds the event view for one delivered occurrence: the identifying
    /// fields as the bridge handed them over (the kind still encoded), the
    /// argument list, a connected client, and nothing pending or sent yet.
    pub fn new(
        win: usize,
        event_type: usize,
        element: String,
        event_number: usize,
        bind_id: usize,
        client_id: usize,
        connection_id: usize,
        cookies: String,
        args: Vec<EventArg>,
    ) -> (e: WebUIEvent)
        ensures
            e.win == win,
            e.event_type == WebUIEventType::spec_from_code(event_type as int),
            e.element == element,
            e.event_number == event_number,
            e.bind_id == bind_id,
            e.client_id == client_id,
            e.connection_id == connection_id,
            e.cookies == cookies,
            e.args == args,
            e.response is None,
            e.connected,
            e.reply is None,
            e.sent@ == Seq::<ClientCommand>::empty(),
    {
        WebUIEvent {
            win,
            event_type: WebUIEventType::from_usize(event_type),
            element,
            event_number,
            bind_id,
            client_id,
            connection_id,
            cookies,
            args,
            response: None,
            connected: true,
            reply: None,
            sent: Vec::new(),
        }
    }

    /// Asks the originating client to show this content.  Succeeds exactly
    /// when the client is still connected; a disconnected client leaves the
    /// event untouched and reports failure.
    pub fn show_client(&mut self, content: &str) -> (r: bool)
        requires
            no_nul(content@),
        ensures
            r == old(self).connected,
            !old(self).connected ==> *final(self) == *old(self),
            old(self).connected ==> {
                &&& *final(self) == (WebUIEvent { sent: final(self).sent, ..*old(self) })
                &&& appended_one(old(self).sent@, final(self).sent@)
                &&& final(self).sent@.last() matches ClientCommand::Show(c) && c@ == content@
            },
    {
        if !self.connected {
            return false;
        }
        let ghost pre = self.sent@;
        self.sent.push(ClientCommand::Show(content.to_owned()));
        proof {
            assert(self.sent@.drop_last() =~= pre);
        }
        true
    }

    /// Closes the connection to the originating client.
    pub fn close_client(&mut self)
        ensures
            *final(self) == (WebUIEvent { connected: false, ..*old(self) }),
    {
        self.connected = false;
    }

    /// Sends a binary payload, tagged with a function name, to the
    /// originating client.  A disconnected client receives nothing.
    pub fn send_raw(&mut self, function: &str, data: &[u8])
        requires
            no_nul(function@),
        ensures
            !old(self).connected ==> *final(self) == *old(self),
            old(self).connected ==> {
                &&& *final(self) == (WebUIEvent { sent: final(self).sent, ..*old(self) })
                &&& appended_one(old(self).sent@, final(self).sent@)
                &&& final(self).sent@.last() matches ClientCommand::SendRaw(f, d) && f@
                    == function@ && d@ == data@
            },
    {
        if !self.connected {
            return ;
        }
        let ghost pre = self.sent@;
        let mut payload: Vec<u8> = Vec::new();
        let n = data.len();
        let mut i: usize = 0;
        while i < n
            invariant
                n == data@.len(),
                i <= n,
                payload@ == data@.take(i as int),
            decreases n - i,
        {
            payload.push(data[i]);
            i = i + 1;
        }
        proof {
            assert(payload@ =~= data@);
        }
        self.sent.push(ClientCommand::SendRaw(function.to_owned(), payload));
        proof {
            assert(self.sent@.drop_last() =~= pre);
        }
    }

    /// Navigates the originating client to a URL.  A disconnected client
    /// receives nothing.
    pub fn navigate_client(&mut self, url: &str)
        requires
            no_nul(url@),
        ensures
            !old(self).connected ==> *final(self) == *old(self),
            old(self).connected ==> {
                &&& *final(self) == (WebUIEvent { sent: final(self).sent, ..*old(self) })
                &&& appended_one(old(self).sent@, final(self).sent@)
                &&& final(self).sent@.last() matches ClientCommand::Navigate(u) && u@ == url@
            },
    {
        if !self.connected {
            return ;
        }
        let ghost pre = self.sent@;
        self.sent.push(ClientCommand::Navigate(url.to_owned()));
        proof {
            assert(self.sent@.drop_last() =~= pre);
        }
    }

    /// Runs a script on the originating client, fire and forget.  A
    /// disconnected client receives nothing.
    pub fn run(&mut self, script: &str)
        requires
            no_nul(script@),
        ensures
            !old(self).connected ==> *final(self) == *old(self),
            old(self).connected ==> {
                &&& *final(self) == (WebUIEvent { sent: final(self).sent, ..*old(self) })
                &&& appended_one(old(self).sent@, final(self).sent@)
                &&& final(self).sent@.last() matches ClientCommand::Run(s) && s@ == script@
            },
    {
        if !self.connected {
            return ;
        }
        let ghost pre = self.sent@;
        self.sent.push(ClientCommand::Run(script.to_owned()));
        proof {
            assert(self.sent@.drop_last() =~= pre);
        }
    }

    /// Whether a synchronous script call with this result-buffer capacity
    /// would succeed: the client is connected, it answers, and the answer
    /// leaves room for the buffer's terminator.
    pub open spec fn script_succeeds(self, buffer_length: int) -> bool {
        self.connected && match self.reply {
            Some(s) => s@.len() < buffer_length,
            None => false,
        }
    }

    /// The staged reply's characters (empty when none is staged).
    pub open spec fn spec_reply(self) -> Seq<char> {
        match self.reply {
            Some(s) => s@,
            None => Seq::empty(),
        }
    }

    /// Runs a script on the originating client and waits for its textual
    /// result.  Yields the client's reply exactly when the client is
    /// connected, answers, and the answer fits the result buffer; every
    /// other outcome — a disconnected client above all, whatever the
    /// timeout — is the bare failure flag, never a hang and never a panic.
    pub fn script(&self, script: &str, timeout: usize, buffer_length: usize) -> (r: Result<
        String,
        (),
    >)
        requires
            no_nul(script@),
        ensures
            r is Ok <==> self.script_succeeds(buffer_length as int),
            r matches Ok(s) ==> s@ == self.spec_reply(),
    {
        if !self.connected {
            return Err(());
        }
        match &self.reply {
            Some(rep) => {
                let len = rep.as_str().unicode_len();
                if len < buffer_length {
                    Ok(rep.clone())
                } else {
                    Err(())
                }
            },
            None => Err(()),
        }
    }

    /// The number of arguments delivered with the event.
    pub fn get_count(&self) -> (r: usize)
        ensures
            r == self.args@.len(),
    {
        self.args.len()
    }

    /// The integer reading of the argument at `index`.
    pub fn get_int_at(&self, index: usize) -> (r: i64)
        ensures
            r == int_at(self.args@, index as int),
    {
        if index < self.args.len() {
            match &self.args[index] {
                EventArg::Int(v) => *v,
                _ => 0,
            }
        } else {
            0
        }
    }

    /// The integer reading of the first argument.
    pub fn get_int(&self) -> (r: i64)
        ensures
            r == int_at(self.args@, 0),
    {
        self.get_int_at(0)
    }

    /// The text reading of the argument at `index`.
    pub fn get_string_at(&self, index: usize) -> (r: String)
        ensures
            r@ == text_at(self.args@, index as int),
    {
        if index < self.args.len() {
            match &self.args[index] {
                EventArg::Text(s) => s.clone(),
                _ => String::new(),
            }
        } else {
            String::new()
        }
    }

    /// The text reading of the first argument.
    pub fn get_string(&self) -> (r: String)
        ensures
            r@ == text_at(self.args@, 0),
    {
        self.get_string_at(0)
    }

    /// The boolean reading of the argument at `index`.
    pub fn get_bool_at(&self, index: usize) -> (r: bool)
        ensures
            r == bool_at(self.args@, index as int),
    {
        if index < self.args.len() {
            match &self.args[index] {
                EventArg::Bool(b) => *b,
                _ => false,
            }
        } else {
            false
        }
    }

    /// The boolean reading of the first argument.
    pub fn get_bool(&self) -> (r: bool)
        ensures
            r == bool_at(self.args@, 0),
    {
        self.get_bool_at(0)
    }

    /// The reported size of the argument at `index`.
    pub fn get_size_at(&self, index: usize) -> (r: usize)
        ensures
            r as int == size_at(self.args@, index as int),
    {
        if index < self.args.len() {
            match &self.args[index] {
                EventArg::Int(_) => 8,
                EventArg::Text(s) => s.as_str().unicode_len(),
                EventArg::Bool(_) => 1,
            }
        } else {
            0
        }
    }

    /// The reported size of the first argument.
    pub fn get_size(&self) -> (r: usize)
        ensures
            r as int == size_at(self.args@, 0),
    {
        self.get_size_at(0)
    }

    /// Stages an integer as the synchronous response to this event,
    /// overwriting any response staged before.
    pub fn return_int(&mut self, value: i64)
        ensures
            *final(self) == (WebUIEvent { response: Some(EventArg::Int(value)), ..*old(self) }),
    {
        self.response = Some(EventArg::Int(value));
    }

    /// Stages text as the synchronous response to this event, overwriting
    /// any response staged before.
    pub fn return_string(&mut self, value: &str)
        requires
            no_nul(value@),
        ensures
            *final(self) == (WebUIEvent { response: final(self).response, ..*old(self) }),
            final(self).response matches Some(a) && a matches EventArg::Text(s) && s@ == value@,
    {
        self.response = Some(EventArg::Text(value.to_owned()));
    }

    /// Stages a boolean as the synchronous response to this event,
    /// overwriting any response staged before.
    pub fn return_bool(&mut self, value: bool)
        ensures
            *final(self) == (WebUIEvent { response: Some(EventArg::Bool(value)), ..*old(self) }),
    {
        self.response = Some(EventArg::Bool(value));
    }
}

/// One delivered event, as the scalar bridge calling convention carries it:
/// only the identifying fields, with the argument list and the pending
/// response modelling the record the bridge keeps for the occurrence.
pub struct WebUIEventSimple {
    /// Identity of the window the event fired on.
    pub win: usize,
    /// The kind of occurrence delivered.
    pub event_type: WebUIEventType,
    /// Name of the element that fired.
    pub element: String,
    /// Per-event sequence number within the window.
    pub event_number: usize,
    /// Identifier of the binding that matched.
    pub bind_id: usize,
    /// The arguments the client sent with the occurrence.
    pub args: Vec<EventArg>,
    /// The pending textual response; a later call overwrites it.
    pub response: Option<String>,
}

impl WebUIEventSimple {
    /// Stages the synchronous response to this event, overwriting any
    /// response staged before.
    pub fn set_response(&mut self, response: &str)
        requires
            no_nul(response@),
        ensures
            *final(self) == (WebUIEventSimple { response: final(self).response, ..*old(self) }),
            final(self).response matches Some(s) && s@ == response@,
    {
        self.response = Some(response.to_owned());
    }

    /// The text reading of the argument at `index`.
    pub fn get_string_at(&self, index: usize) -> (r: String)
        ensures
            r@ == text_at(self.args@, index as int),
    {
        if index < self.args.len() {
            match &self.args[index] {
                EventArg::Text(s) => s.clone(),
                _ => String::new(),
            }
        } else {
            String::new()
        }
    }

    /// The integer reading of the argument at `index`.
    pub fn get_int_at(&self, index: usize) -> (r: i64)
        ensures
            r == int_at(self.args@, index as int),
    {
        if index < self.args.len() {
            match &self.args[index] {
                EventArg::Int(v) => *v,
                _ => 0,
            }
        } else {
            0
        }
    }

    /// The boolean reading of the argument at `index`.
    pub fn get_bool_at(&self, index: usize) -> (r: bool)
        ensures
            r == bool_at(self.args@, index as int),
    {
        if index < self.args.len() {
            match &self.args[index] {
                EventArg::Bool(b) => *b,
                _ => false,
            }
        } else {
            false
        }
    }

    /// The reported size of the argument at `index`.
    pub fn get_size_at(&self, index: usize) -> (r: usize)
        ensures
            r as int == size_at(self.args@, index as int),
    {
        if index < self.args.len() {
            match &self.args[index] {
                EventArg::Int(_) => 8,
                EventArg::Text(s) => s.as_str().unicode_len(),
                EventArg::Bool(_) => 1,
            }
        } else {
            0
        }
    }
}

} // verus!
