//! The static web server: one request line in, one reply out. A path that
//! climbs out of the root directory is refused, a file that cannot be read is
//! answered as not found, and every other file is sent as it is.

use crate::server::ServerState;
use crate::settings::{get_port, get_text, pairs, port_setting, text_setting, Settings};
use crate::text::{chars_of, decimal, find, lines, push_decimal, scan, Mark};
use crate::wire::HostAddr;
use vstd::prelude::*;
use vstd::string::{StrSliceExecFns, StringExecFns};
use vstd::utf8::encode_utf8;

verus! {

/// The size of the buffer that a request is read into.
pub const REQUEST_BUFFER_LEN: usize = 4096;

/// The text that a run of bytes stands for when every malformed part of it is
/// read as the replacement character: what `String::from_utf8_lossy` returns.
pub uninterp spec fn utf8_lossy(bytes: Seq<u8>) -> Seq<char>;

/// Calls `String::from_utf8_lossy` and copies what it returns into a string
/// of its own.
#[verifier::external_body]
fn decode_lossy(bytes: &[u8]) -> (text: String)
    ensures
        text@ == utf8_lossy(bytes@),
{
    String::from_utf8_lossy(bytes).into_owned()
}

/// The first line of a text, or the empty text where it has no line.
pub open spec fn first_line(text: Seq<char>) -> Seq<char> {
    if lines(text).len() > 0 {
        lines(text).first()
    } else {
        Seq::empty()
    }
}

/// The first word at or behind `from`: the characters from the first that is
/// no white space up to the next white space. There is none where only white
/// space is left.
pub open spec fn word_at(s: Seq<char>, from: int) -> Option<Seq<char>> {
    let start = find(s, from, Mark::Ink);
    if start < s.len() {
        Some(s.subrange(start, find(s, start, Mark::Space)))
    } else {
        None
    }
}

/// The index behind the first word at or behind `from`.
pub open spec fn word_end(s: Seq<char>, from: int) -> int {
    find(s, find(s, from, Mark::Ink), Mark::Space)
}

/// The method of a request: the first word of its first line, or nothing.
pub open spec fn request_method(text: Seq<char>) -> Seq<char> {
    match word_at(first_line(text), 0) {
        Some(word) => word,
        None => Seq::empty(),
    }
}

/// The path of a request: the second word of its first line, or `/` where
/// the line has no second word.
pub open spec fn request_path(text: Seq<char>) -> Seq<char> {
    match word_at(first_line(text), word_end(first_line(text), 0)) {
        Some(word) => word,
        None => seq!['/'],
    }
}

/// Whether two dots stand side by side at index `i` of the path.
pub open spec fn dots_at(path: Seq<char>, i: int) -> bool {
    0 <= i && i + 1 < path.len() && path[i] == '.' && path[i + 1] == '.'
}

/// Whether the path refers to a parent directory: whether it holds two dots
/// side by side anywhere.
pub open spec fn has_parent_reference(path: Seq<char>) -> bool {
    exists|i: int| dots_at(path, i)
}

/// The file that a path names under the root directory `dir`: the index page
/// for `/`, else the path without its first character behind the root.
pub open spec fn target_file(dir: Seq<char>, path: Seq<char>) -> Seq<char> {
    if path == seq!['/'] {
        dir + "index.html"@
    } else if path.len() == 0 {
        dir
    } else {
        dir + path.skip(1)
    }
}

/// The reason phrase of a status code.
pub open spec fn status_text(code: u16) -> Seq<char> {
    if code == 200 {
        "OK"@
    } else if code == 404 {
        "Not Found"@
    } else if code == 400 {
        "Bad Request"@
    } else {
        "Unknown"@
    }
}

/// The number of bytes that a text takes on the wire.
pub open spec fn wire_len(body: Seq<char>) -> nat {
    encode_utf8(body).len()
}

/// A whole reply: the status line, the length of the body in bytes as its one
/// header, an empty line, and the body.
pub open spec fn http_response(code: u16, body: Seq<char>) -> Seq<char> {
    "HTTP/1.1 "@ + decimal(code as nat) + " "@ + status_text(code) + "\r\nContent-Length: "@
        + decimal(wire_len(body)) + "\r\n\r\n"@ + body
}

/// The status that a path deserves, given what reading its file gave.
pub open spec fn reply_status(path: Seq<char>, content: Option<Seq<char>>) -> u16 {
    if has_parent_reference(path) {
        400
    } else if content is Some {
        200
    } else {
        404
    }
}

/// The body that goes with `reply_status`.
pub open spec fn reply_body(path: Seq<char>, content: Option<Seq<char>>) -> Seq<char> {
    if has_parent_reference(path) {
        "Invalid path"@
    } else {
        match content {
            Some(text) => text,
            None => "Oops! That doesn't exist."@,
        }
    }
}

/// The two words of a request line that the server looks at.
#[derive(Debug)]
pub struct Request {
    pub method: String,
    pub path: String,
}

/// The static web server, as its configuration describes it.
#[derive(Debug)]
pub struct Web {
    /// The root directory, with the separator at its end.
    pub dir: String,
    /// The address that the listener is bound to.
    pub addr: HostAddr,
    /// The port of the listener.
    pub port: u16,
    pub state: ServerState,
}

/// Looks for two dots side by side.
fn holds_two_dots(chars: &[char]) -> (found: bool)
    ensures
        found == has_parent_reference(chars@),
{
    let mut i: usize = 0;
    while chars.len() - i > 1
        invariant
            i <= chars@.len(),
            forall|k: int| 0 <= k < i ==> !dots_at(chars@, k),
        decreases chars@.len() - i,
    {
        if chars[i] == '.' && chars[i + 1] == '.' {
            assert(dots_at(chars@, i as int));
            return true;
        }
        i += 1;
    }
    false
}

/// Reads the method and the path out of the text of a request.
pub fn parse_request_line(text: &str) -> (request: Request)
    ensures
        request.method@ == request_method(text@),
        request.path@ == request_path(text@),
{
    let chars: Vec<char> = chars_of(text);
    let feed: usize = scan(chars.as_slice(), 0, Mark::Char('\n'));
    let end: usize = if feed < chars.len() {
        if feed > 0 && chars[feed - 1] == '\r' {
            feed - 1
        } else {
            feed
        }
    } else {
        feed
    };
    let line: &str = text.substring_char(0, end);
    proof {
        assert(text@.take(feed as int).len() == feed);
        if feed < chars.len() {
            assert(line@ =~= crate::text::strip_cr(text@.take(feed as int)));
        } else {
            assert(line@ =~= text@);
        }
        assert(line@ == first_line(text@));
    }
    let words: Vec<char> = chars_of(line);
    let method_start: usize = scan(words.as_slice(), 0, Mark::Ink);
    let method_end: usize = scan(words.as_slice(), method_start, Mark::Space);
    let method: String = if method_start < words.len() {
        line.substring_char(method_start, method_end).to_owned()
    } else {
        String::new()
    };
    let path_start: usize = scan(words.as_slice(), method_end, Mark::Ink);
    let path_end: usize = scan(words.as_slice(), path_start, Mark::Space);
    let path: String = if path_start < words.len() {
        line.substring_char(path_start, path_end).to_owned()
    } else {
        proof {
            reveal_strlit("/");
        }
        let root: String = "/".to_owned();
        assert(root@ =~= seq!['/']);
        root
    };
    Request { method, path }
}

impl Web {
    /// Whether the pairs of a configuration hold what the server needs: a
    /// text under `web_dir` and a port under `web_port`.
    pub open spec fn configured(p: Map<Seq<char>, Seq<char>>) -> bool {
        text_setting(p, "web_dir"@) is Some && port_setting(p, "web_port"@) is Some
    }

    /// Whether `self` is the server that the pairs describe, at `addr`.
    pub open spec fn made_from(self, p: Map<Seq<char>, Seq<char>>, addr: HostAddr) -> bool {
        &&& Some(self.dir@) == text_setting(p, "web_dir"@)
        &&& self.addr == addr
        &&& Some(self.port) == port_setting(p, "web_port"@)
        &&& self.state.prefix@ == "web"@
    }

    /// Makes the server from a configuration, or nothing where the
    /// configuration lacks the directory or the port or holds a port that is
    /// none. `addr` is the address that the configuration holds under
    /// `web_addr`.
    pub fn try_create(conf: &Settings, addr: HostAddr) -> (web: Option<Self>)
        ensures
            web is Some <==> Web::configured(pairs(*conf)),
            web matches Some(w) ==> w.made_from(pairs(*conf), addr),
    {
        let dir: String = match get_text(conf, "web_dir") {
            Some(d) => d,
            None => {
                return None;
            },
        };
        match get_port(conf, "web_port") {
            Some(p) => Some(Web { dir, addr, port: p, state: ServerState::labelled("web") }),
            None => None,
        }
    }

    /// Makes the server from a configuration that holds what it needs.
    pub fn create(conf: &Settings, addr: HostAddr) -> (web: Self)
        requires
            Web::configured(pairs(*conf)),
        ensures
            web.made_from(pairs(*conf), addr),
    {
        Web::try_create(conf, addr).unwrap()
    }

    /// Takes what was read from a connection. A read of no bytes means that
    /// the client has gone, and there is no request; after any other read the
    /// whole buffer is taken for the request, whatever part of it was filled.
    pub fn read_request(&self, buffer: &[u8], received: usize) -> (request: Option<Request>)
        ensures
            request is None <==> received == 0,
            request matches Some(r) ==> r.method@ == request_method(utf8_lossy(buffer@))
                && r.path@ == request_path(utf8_lossy(buffer@)),
    {
        if received == 0 {
            None
        } else {
            let text: String = decode_lossy(buffer);
            Some(parse_request_line(text.as_str()))
        }
    }

    /// The file to read for a path, or nothing where the path refers to a
    /// parent directory and no file may be read.
    pub fn file_path(&self, path: &str) -> (file: Option<String>)
        ensures
            file is None <==> has_parent_reference(path@),
            file matches Some(name) ==> name@ == target_file(self.dir@, path@),
    {
        let chars: Vec<char> = chars_of(path);
        if holds_two_dots(chars.as_slice()) {
            return None;
        }
        let mut name: String = self.dir.clone();
        if chars.len() == 1 && chars[0] == '/' {
            assert(path@ =~= seq!['/']);
            name.append("index.html");
        } else if chars.len() > 0 {
            name.append(path.substring_char(1, chars.len()));
        }
        Some(name)
    }

    /// Builds a reply from a status code and a body.
    pub fn build_response(&self, status_code: u16, body: &str) -> (reply: String)
        ensures
            reply@ == http_response(status_code, body@),
    {
        let status_text: &str = if status_code == 200 {
            "OK"
        } else if status_code == 404 {
            "Not Found"
        } else if status_code == 400 {
            "Bad Request"
        } else {
            "Unknown"
        };
        let mut reply: String = String::new();
        reply.append("HTTP/1.1 ");
        push_decimal(&mut reply, status_code as usize);
        reply.append(" ");
        reply.append(status_text);
        reply.append("\r\nContent-Length: ");
        push_decimal(&mut reply, body.as_bytes().len());
        reply.append("\r\n\r\n");
        reply.append(body);
        assert(reply@ =~= http_response(status_code, body@));
        reply
    }

    /// Builds the reply for a path. `content` is what reading the file of
    /// `file_path` gave: its text, or nothing where it could not be read. For
    /// a path that refers to a parent directory no file is looked at.
    pub fn handle_path(&self, path: &str, content: Option<&str>) -> (reply: String)
        ensures
            reply@ == http_response(
                reply_status(path@, content_view(content)),
                reply_body(path@, content_view(content)),
            ),
    {
        let chars: Vec<char> = chars_of(path);
        if holds_two_dots(chars.as_slice()) {
            return self.build_response(400, "Invalid path");
        }
        match content {
            Some(text) => self.build_response(200, text),
            None => self.build_response(404, "Oops! That doesn't exist."),
        }
    }
}

/// What was read from a file, as a sequence of characters.
pub open spec fn content_view(content: Option<&str>) -> Option<Seq<char>> {
    match content {
        Some(text) => Some(text@),
        None => None,
    }
}

/// What a path deserves, whatever it is: 400 and no look at any file where it
/// refers to a parent directory; else 200 and the text of its file, byte for
/// byte, where the file could be read, and 404 where it could not.
pub proof fn lemma_reply_by_path(path: Seq<char>, content: Option<Seq<char>>)
    ensures
        has_parent_reference(path) ==> reply_status(path, content) == 400 && reply_body(
            path,
            content,
        ) == reply_body(path, None),
        !has_parent_reference(path) && content is None ==> reply_status(path, content) == 404,
        !has_parent_reference(path) && content is Some ==> reply_status(path, content) == 200
            && reply_body(path, content) == content->0,
{
}

/// A reply ends with its body, and the length that its header announces is
/// the number of bytes that the body takes on the wire.
pub proof fn lemma_reply_carries_body(code: u16, body: Seq<char>)
    ensures
        ({
            let reply = http_response(code, body);
            let head = "HTTP/1.1 "@ + decimal(code as nat) + " "@ + status_text(code)
                + "\r\nContent-Length: "@;
            &&& reply.len() >= body.len()
            &&& reply.skip(reply.len() - body.len()) == body
            &&& reply.take(reply.len() - body.len()) == head + decimal(wire_len(body)) + "\r\n\r\n"@
        }),
{
    let reply = http_response(code, body);
    let head = "HTTP/1.1 "@ + decimal(code as nat) + " "@ + status_text(code)
        + "\r\nContent-Length: "@;
    assert(reply.skip(reply.len() - body.len()) =~= body);
    assert(reply.take(reply.len() - body.len()) =~= head + decimal(wire_len(body)) + "\r\n\r\n"@);
}

} // verus!
