//! The HTTP transport's verified half: the remembered host and the URL a
//! command is turned into, with the command percent-escaped. Issuing the
//! GET request itself is I/O and lives outside the library.

use vstd::prelude::*;
use vstd::string::StringExecFns;
use vstd::string::StrSliceExecFns;
use vstd::utf8::encode_utf8;

verus! {

/// Whether a byte of the command must be percent-escaped in the URL path:
/// controls, space and DEL, everything outside ASCII, and the characters
/// a URL path cannot carry verbatim (`"`, `#`, `<`, `>`, `?`, `` ` ``,
/// `{`, `}`).
pub open spec fn needs_escape(b: u8) -> bool {
    b <= 0x20 || b >= 0x7F || b == 0x22 || b == 0x23 || b == 0x3C || b == 0x3E || b == 0x3F
        || b == 0x60 || b == 0x7B || b == 0x7D
}

/// The uppercase hexadecimal digit for one value below 16.
pub open spec fn hex_digit(n: u8) -> char {
    if n < 10 {
        (48 + n) as char
    } else {
        (55 + n) as char
    }
}

/// What one byte contributes to the escaped command: itself, or a percent
/// triple.
pub open spec fn escape_byte(b: u8) -> Seq<char> {
    if needs_escape(b) {
        seq!['%', hex_digit(b / 16), hex_digit(b % 16)]
    } else {
        seq![b as char]
    }
}

/// The percent-escaped form of a byte sequence.
pub open spec fn url_escaped(bytes: Seq<u8>) -> Seq<char>
    decreases bytes.len(),
{
    if bytes.len() == 0 {
        Seq::empty()
    } else {
        escape_byte(bytes[0]) + url_escaped(bytes.drop_first())
    }
}

/// Escaping one more byte extends the escaped text by that byte's
/// contribution.
proof fn lemma_url_escaped_push(bytes: Seq<u8>, b: u8)
    ensures
        url_escaped(bytes.push(b)) == url_escaped(bytes) + escape_byte(b),
    decreases bytes.len(),
{
    if bytes.len() == 0 {
        assert(bytes.push(b).drop_first() =~= bytes);
        assert(url_escaped(bytes.push(b)) =~= url_escaped(bytes) + escape_byte(b));
    } else {
        assert(bytes.push(b).drop_first() =~= bytes.drop_first().push(b));
        lemma_url_escaped_push(bytes.drop_first(), b);
        assert(url_escaped(bytes.push(b)) =~= url_escaped(bytes) + escape_byte(b));
    }
}

/// Relies on `String::push`: it appends the given character to the end of
/// the string.
#[verifier::external_body]
fn push_char(s: &mut String, c: char)
    ensures
        final(s)@ == old(s)@.push(c),
{
    s.push(c);
}

/// The uppercase hexadecimal digit for one value below 16.
fn hex_upper(n: u8) -> (r: char)
    requires
        n < 16,
    ensures
        r == hex_digit(n),
{
    if n < 10 {
        (48 + n) as char
    } else {
        (55 + n) as char
    }
}

/// Percent-escapes a command for use as the last segment of the command
/// URL: each byte of its UTF-8 form either stands as itself or becomes an
/// uppercase percent triple.
pub fn escape_command(cmd: &str) -> (r: String)
    ensures
        r@ == url_escaped(encode_utf8(cmd@)),
{
    let bytes = cmd.as_bytes_vec();
    let mut out = String::new();
    let mut i: usize = 0;
    while i < bytes.len()
        invariant
            i <= bytes@.len(),
            bytes@ == encode_utf8(cmd@),
            out@ == url_escaped(bytes@.subrange(0, i as int)),
        decreases bytes@.len() - i,
    {
        let ghost prefix = bytes@.subrange(0, i as int);
        let b = bytes[i];
        if b <= 0x20 || b >= 0x7F || b == 0x22 || b == 0x23 || b == 0x3C || b == 0x3E
            || b == 0x3F || b == 0x60 || b == 0x7B || b == 0x7D {
            push_char(&mut out, '%');
            push_char(&mut out, hex_upper(b / 16));
            push_char(&mut out, hex_upper(b % 16));
        } else {
            push_char(&mut out, b as char);
        }
        i = i + 1;
        proof {
            lemma_url_escaped_push(prefix, b);
            assert(bytes@.subrange(0, i as int) =~= prefix.push(b));
            assert(out@ =~= url_escaped(prefix) + escape_byte(b));
        }
    }
    proof {
        assert(bytes@.subrange(0, i as int) =~= bytes@);
    }
    out
}

/// Stores the host (and port) of an r2 process reachable over HTTP. Each
/// command becomes one self-contained GET request, so no connection state
/// is kept.
pub struct R2PipeHttp {
    host: String,
}

impl R2PipeHttp {
    /// The remembered host string.
    pub closed spec fn host_view(&self) -> Seq<char> {
        self.host@
    }

    /// Remembers the host a command URL is built against.
    pub fn new(host: &str) -> (r: Self)
        ensures
            r.host_view() == host@,
    {
        R2PipeHttp { host: host.to_owned() }
    }

    /// The remembered host, for the I/O shell that issues the request.
    pub fn host(&self) -> (r: &str)
        ensures
            r@ == self.host_view(),
    {
        self.host.as_str()
    }

    /// The URL one command is sent to: `http://{host}/cmd/{command}`, the
    /// command percent-escaped.
    pub fn cmd_url(&self, cmd: &str) -> (r: String)
        ensures
            r@ == "http://"@ + self.host_view() + "/cmd/"@ + url_escaped(encode_utf8(cmd@)),
    {
        let escaped = escape_command(cmd);
        let mut url: String = "http://".to_owned();
        url.append(self.host.as_str());
        url.append("/cmd/");
        url.append(escaped.as_str());
        proof {
            assert(url@ =~= "http://"@ + self.host@ + "/cmd/"@ + url_escaped(
                encode_utf8(cmd@),
            ));
        }
        url
    }

    /// Best-effort termination. Every HTTP exchange is already
    /// self-contained, so there is nothing to release.
    pub fn close(&mut self)
        ensures
            *final(self) == *old(self),
    {
    }
}

} // verus!
