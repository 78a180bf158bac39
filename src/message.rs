use vstd::prelude::*;

verus! {

/// One chat message: the room it was posted to, its author, its text and the
/// server-assigned RFC 3339 timestamp (absent until the message is accepted).
pub struct Message {
    pub room: String,
    pub username: String,
    pub message: String,
    pub timestamp: Option<String>,
}

/// Room names are shorter than this many characters.
pub const ROOM_NAME_LIMIT: usize = 30;

/// User names are shorter than this many characters.
pub const USERNAME_LIMIT: usize = 20;

/// The lower-case hexadecimal digit for `n`, which is below 16.
pub open spec fn hex_digit(n: nat) -> char {
    if n < 10 {
        ((n + 48) as u8) as char
    } else {
        ((n + 87) as u8) as char
    }
}

/// How one character of a string value is written inside a JSON string literal.
pub open spec fn json_escape_char(c: char) -> Seq<char> {
    if c == '"' {
        seq!['\\', '"']
    } else if c == '\\' {
        seq!['\\', '\\']
    } else if c == '\n' {
        seq!['\\', 'n']
    } else if c == '\r' {
        seq!['\\', 'r']
    } else if c == '\t' {
        seq!['\\', 't']
    } else if c == '\u{8}' {
        seq!['\\', 'b']
    } else if c == '\u{c}' {
        seq!['\\', 'f']
    } else if (c as u32) < 0x20 {
        seq!['\\', 'u', '0', '0', hex_digit((c as u32 / 16) as nat), hex_digit((c as u32 % 16) as nat)]
    } else {
        seq![c]
    }
}

/// The body of a JSON string literal holding `s` (without the quotes).
pub open spec fn json_escape(s: Seq<char>) -> Seq<char>
    decreases s.len(),
{
    if s.len() == 0 {
        Seq::empty()
    } else {
        json_escape(s.drop_last()) + json_escape_char(s.last())
    }
}

/// The JSON object under which a message travels on a push stream: the keys
/// `room`, `username`, `message` and `timestamp`, in that order, the last one
/// `null` while the message carries no timestamp.
pub open spec fn event_json(m: Message) -> Seq<char> {
    "{\"room\":\""@ + json_escape(m.room@) + "\",\"username\":\""@ + json_escape(m.username@)
        + "\",\"message\":\""@ + json_escape(m.message@) + "\",\"timestamp\":"@ + match m.timestamp {
        Some(t) => "\""@ + json_escape(t@) + "\""@,
        None => "null"@,
    } + "}"@
}

/// Relies on `String::push`: the character is appended at the end.
pub assume_specification[ String::push ](s: &mut String, ch: char)
    ensures
        final(s)@ == old(s)@.push(ch),
;

fn hex_digit_exec(n: u32) -> (c: char)
    requires
        n < 16,
    ensures
        c == hex_digit(n as nat),
{
    if n < 10 {
        ((n + 48) as u8) as char
    } else {
        ((n + 87) as u8) as char
    }
}

fn push_escaped_char(out: &mut String, c: char)
    ensures
        final(out)@ == old(out)@ + json_escape_char(c),
{
    if c == '"' {
        out.push('\\');
        out.push('"');
    } else if c == '\\' {
        out.push('\\');
        out.push('\\');
    } else if c == '\n' {
        out.push('\\');
        out.push('n');
    } else if c == '\r' {
        out.push('\\');
        out.push('r');
    } else if c == '\t' {
        out.push('\\');
        out.push('t');
    } else if c == '\u{8}' {
        out.push('\\');
        out.push('b');
    } else if c == '\u{c}' {
        out.push('\\');
        out.push('f');
    } else if (c as u32) < 0x20 {
        out.push('\\');
        out.push('u');
        out.push('0');
        out.push('0');
        out.push(hex_digit_exec(c as u32 / 16));
        out.push(hex_digit_exec(c as u32 % 16));
    } else {
        out.push(c);
    }
    assert(final(out)@ =~= old(out)@ + json_escape_char(c));
}

/// Appends `s` to `out` escaped for the inside of a JSON string literal.
pub fn push_json_escaped(out: &mut String, s: &str)
    ensures
        final(out)@ == old(out)@ + json_escape(s@),
{
    let ghost start = out@;
    let n = s.unicode_len();
    let mut i: usize = 0;
    while i < n
        invariant
            n == s@.len(),
            i <= n,
            out@ == start + json_escape(s@.take(i as int)),
        decreases n - i,
    {
        let c = s.get_char(i);
        push_escaped_char(out, c);
        proof {
            assert(s@.take(i + 1).drop_last() =~= s@.take(i as int));
        }
        i = i + 1;
    }
    assert(s@.take(n as int) =~= s@);
}

impl Message {
    /// A message as submitted by a client: no timestamp yet.
    pub fn new(room: String, username: String, message: String) -> (r: Message)
        ensures
            r.room == room,
            r.username == username,
            r.message == message,
            r.timestamp is None,
    {
        Message { room, username, message, timestamp: None }
    }

    /// An exact copy of the message.
    pub fn duplicate(&self) -> (r: Message)
        ensures
            r == *self,
    {
        let timestamp = match &self.timestamp {
            Some(t) => Some(t.clone()),
            None => None,
        };
        Message {
            room: self.room.clone(),
            username: self.username.clone(),
            message: self.message.clone(),
            timestamp,
        }
    }

    /// Whether the room and user names are within their length limits.
    pub fn has_valid_names(&self) -> (r: bool)
        ensures
            r == (self.room@.len() < ROOM_NAME_LIMIT && self.username@.len() < USERNAME_LIMIT),
    {
        self.room.as_str().unicode_len() < ROOM_NAME_LIMIT
            && self.username.as_str().unicode_len() < USERNAME_LIMIT
    }

    /// The message as a JSON object, the payload of one push-stream event.
    pub fn to_event_json(&self) -> (r: String)
        ensures
            r@ == event_json(*self),
    {
        let mut out = String::new();
        out.append("{\"room\":\"");
        push_json_escaped(&mut out, self.room.as_str());
        out.append("\",\"username\":\"");
        push_json_escaped(&mut out, self.username.as_str());
        out.append("\",\"message\":\"");
        push_json_escaped(&mut out, self.message.as_str());
        out.append("\",\"timestamp\":");
        match &self.timestamp {
            Some(t) => {
                out.append("\"");
                push_json_escaped(&mut out, t.as_str());
                out.append("\"");
            },
            None => {
                out.append("null");
            },
        }
        out.append("}");
        assert(out@ =~= event_json(*self));
        out
    }
}

} // verus!
