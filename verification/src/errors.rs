//! The error taxonomy and the responder: four failure kinds, one status
//! class and one serialized `{"error": <message>}` body each. Causes kept
//! inside `Db` and `Other` are for diagnostics only and never reach the
//! outward message.

use vstd::prelude::*;

verus! {

/// The one closed set of failure kinds flowing through every layer:
/// a requested identity that is absent, a caller payload that fails a
/// pre-check (with its human-readable reason), a store-layer failure, and
/// any other internal fault. The strings inside `Db` and `Other` are the
/// underlying causes, retained for logging at the boundary only.
#[derive(Debug, Clone, PartialEq, Eq)]
pub enum ApiError {
    NotFound,
    BadRequest(String),
    Db(String),
    Other(String),
}

/// Relies on std's `String::push`: appends the given character to the end
/// of the string.
pub assume_specification[ String::push ](s: &mut String, ch: char)
    ensures
        final(s)@ == old(s)@.push(ch),
;

/// The hexadecimal digit character for a value below 16.
pub open spec fn spec_hex_digit(d: int) -> char {
    if d == 0 {
        '0'
    } else if d == 1 {
        '1'
    } else if d == 2 {
        '2'
    } else if d == 3 {
        '3'
    } else if d == 4 {
        '4'
    } else if d == 5 {
        '5'
    } else if d == 6 {
        '6'
    } else if d == 7 {
        '7'
    } else if d == 8 {
        '8'
    } else if d == 9 {
        '9'
    } else if d == 10 {
        'a'
    } else if d == 11 {
        'b'
    } else if d == 12 {
        'c'
    } else if d == 13 {
        'd'
    } else if d == 14 {
        'e'
    } else {
        'f'
    }
}

/// How one character is written inside a JSON string: quote, backslash and
/// the named control characters get two-character escapes, any other
/// control character a `\u00..` escape, and everything else stands as it
/// is.
pub open spec fn spec_escape_char(c: char) -> Seq<char> {
    if c == '"' {
        seq!['\\', '"']
    } else if c == '\\' {
        seq!['\\', '\\']
    } else if c == '\n' {
        seq!['\\', 'n']
    } else if c == '\r' {
        seq!['\\', 'r']
    } else if c == '\t' {
        seq!['\\', 't']
    } else if c == '\u{0008}' {
        seq!['\\', 'b']
    } else if c == '\u{000C}' {
        seq!['\\', 'f']
    } else if (c as u32) < 32 {
        seq![
            '\\',
            'u',
            '0',
            '0',
            spec_hex_digit((c as u32) as int / 16),
            spec_hex_digit((c as u32) as int % 16),
        ]
    } else {
        seq![c]
    }
}

/// A whole message written inside a JSON string.
pub open spec fn spec_json_escape(s: Seq<char>) -> Seq<char>
    decreases s.len(),
{
    if s.len() == 0 {
        Seq::empty()
    } else {
        spec_json_escape(s.drop_last()) + spec_escape_char(s.last())
    }
}

/// The fixed outward body: `{"error":"` + the escaped message + `"}`.
pub open spec fn spec_error_body(msg: Seq<char>) -> Seq<char> {
    "{\"error\":\""@ + spec_json_escape(msg) + "\"}"@
}

fn hex_digit(d: u32) -> (c: char)
    requires
        d < 16,
    ensures
        c == spec_hex_digit(d as int),
{
    if d == 0 {
        '0'
    } else if d == 1 {
        '1'
    } else if d == 2 {
        '2'
    } else if d == 3 {
        '3'
    } else if d == 4 {
        '4'
    } else if d == 5 {
        '5'
    } else if d == 6 {
        '6'
    } else if d == 7 {
        '7'
    } else if d == 8 {
        '8'
    } else if d == 9 {
        '9'
    } else if d == 10 {
        'a'
    } else if d == 11 {
        'b'
    } else if d == 12 {
        'c'
    } else if d == 13 {
        'd'
    } else if d == 14 {
        'e'
    } else {
        'f'
    }
}

fn json_escape(msg: &str) -> (out: String)
    ensures
        out@ == spec_json_escape(msg@),
{
    let n = msg.unicode_len();
    let mut out = String::new();
    let mut i: usize = 0;
    while i < n
        invariant
            n == msg@.len(),
            i <= n,
            out@ == spec_json_escape(msg@.take(i as int)),
        decreases n - i,
    {
        let c = msg.get_char(i);
        if c == '"' {
            out.push('\\');
            out.push('"');
        } else if c == '\\' {
            out.push('\\');
            out.push('\\');
        } else if c == '\n' {
            out.push('\\');
            out.push('n');
        } else if c == '\r' {
            out.push('\\');
            out.push('r');
        } else if c == '\t' {
            out.push('\\');
            out.push('t');
        } else if c == '\u{0008}' {
            out.push('\\');
            out.push('b');
        } else if c == '\u{000C}' {
            out.push('\\');
            out.push('f');
        } else if (c as u32) < 32 {
            out.push('\\');
            out.push('u');
            out.push('0');
            out.push('0');
            out.push(hex_digit((c as u32) / 16));
            out.push(hex_digit((c as u32) % 16));
        } else {
            out.push(c);
        }
        proof {
            assert(msg@.take(i + 1 as int).drop_last() =~= msg@.take(i as int));
            assert(msg@.take(i + 1 as int).last() == msg@[i as int]);
            assert(out@ =~= spec_json_escape(msg@.take(i + 1 as int)));
        }
        i = i + 1;
    }
    proof {
        assert(msg@.take(n as int) =~= msg@);
    }
    out
}

impl ApiError {
    /// The status class of each kind: resource missing 404, bad input 400,
    /// any server-side failure 500.
    pub open spec fn spec_status_code(self) -> u16 {
        match self {
            ApiError::NotFound => 404u16,
            ApiError::BadRequest(_) => 400u16,
            ApiError::Db(_) => 500u16,
            ApiError::Other(_) => 500u16,
        }
    }

    /// The outward message of each kind. Client-caused failures carry
    /// enough to correct the request; server-caused failures only a
    /// generic category, never the underlying cause.
    pub open spec fn spec_public_message(self) -> Seq<char> {
        match self {
            ApiError::NotFound => "not found"@,
            ApiError::BadRequest(m) => m@,
            ApiError::Db(_) => "database error"@,
            ApiError::Other(_) => "internal error"@,
        }
    }

    /// The line logged at the boundary, if any: the full underlying cause
    /// for store and internal failures; nothing for the caller-correctable
    /// kinds.
    pub open spec fn spec_internal_detail(self) -> Option<Seq<char>> {
        match self {
            ApiError::NotFound => None,
            ApiError::BadRequest(_) => None,
            ApiError::Db(c) => Some("DB error: "@ + c@),
            ApiError::Other(c) => Some("Internal error: "@ + c@),
        }
    }

    pub fn status_code(&self) -> (r: u16)
        ensures
            r == self.spec_status_code(),
    {
        match self {
            ApiError::NotFound => 404,
            ApiError::BadRequest(_) => 400,
            ApiError::Db(_) => 500,
            ApiError::Other(_) => 500,
        }
    }

    pub fn public_message(&self) -> (r: String)
        ensures
            r@ == self.spec_public_message(),
    {
        match self {
            ApiError::NotFound => String::from_str("not found"),
            ApiError::BadRequest(m) => m.clone(),
            ApiError::Db(_) => String::from_str("database error"),
            ApiError::Other(_) => String::from_str("internal error"),
        }
    }

    /// The serialized outward shape, one for every kind.
    pub fn body_json(&self) -> (r: String)
        ensures
            r@ == spec_error_body(self.spec_public_message()),
    {
        let msg = self.public_message();
        let escaped = json_escape(msg.as_str());
        let mut out = String::from_str("{\"error\":\"");
        out.append(escaped.as_str());
        out.append("\"}");
        out
    }

    pub fn internal_detail(&self) -> (r: Option<String>)
        ensures
            match self.spec_internal_detail() {
                Some(line) => r matches Some(s) && s@ == line,
                None => r is None,
            },
    {
        match self {
            ApiError::NotFound => None,
            ApiError::BadRequest(_) => None,
            ApiError::Db(c) => {
                let mut s = String::from_str("DB error: ");
                s.append(c.as_str());
                Some(s)
            },
            ApiError::Other(c) => {
                let mut s = String::from_str("Internal error: ");
                s.append(c.as_str());
                Some(s)
            },
        }
    }
}

} // verus!
