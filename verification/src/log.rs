//! What the services write to their log: a line per message, with the label
//! of the service in front, and dumps of the bytes that went over the wire.

use crate::server::ServerState;
use crate::text::{lines, split_lines, texts};
use vstd::prelude::*;
use vstd::string::StringExecFns;

verus! {

/// How many bytes a row of a dump holds.
pub const DUMP_ROW_LEN: usize = 32;

/// The first `n` of the lines, each but the first behind a line feed and a
/// tabulator.
pub open spec fn join_indented(all: Seq<Seq<char>>, n: nat) -> Seq<char>
    decreases n,
{
    if n == 0 {
        Seq::empty()
    } else if n == 1 {
        all[0]
    } else {
        join_indented(all, (n - 1) as nat) + seq!['\n', '\t'] + all[n - 1]
    }
}

/// The log entry for a message: the label, a colon and a blank in front of
/// it, and each of its lines but the first indented by a tabulator. A message
/// of one line stays on one line.
pub open spec fn log_entry(prefix: Seq<char>, message: Seq<char>) -> Seq<char> {
    let whole = prefix + seq![':', ' '] + message;
    join_indented(lines(whole), lines(whole).len())
}

/// The character of a hexadecimal digit, in lower case.
pub open spec fn hex_digit(d: nat) -> char
    recommends
        d < 16,
{
    if d < 10 {
        crate::text::digit(d)
    } else if d == 10 {
        'a'
    } else if d == 11 {
        'b'
    } else if d == 12 {
        'c'
    } else if d == 13 {
        'd'
    } else if d == 14 {
        'e'
    } else {
        'f'
    }
}

/// What follows byte `i` in a dump of `len` bytes: a line feed where the byte
/// ends a row or the dump, else a blank.
pub open spec fn dump_separator(len: nat, i: nat) -> char {
    if i % (DUMP_ROW_LEN as nat) == (DUMP_ROW_LEN - 1) as nat || i + 1 == len {
        '\n'
    } else {
        ' '
    }
}

/// The dump of the first `n` bytes.
pub open spec fn hex_dump_upto(bytes: Seq<u8>, n: nat) -> Seq<char>
    decreases n,
{
    if n == 0 {
        Seq::empty()
    } else {
        hex_dump_upto(bytes, (n - 1) as nat) + seq![
            hex_digit(bytes[n - 1] as nat / 16),
            hex_digit(bytes[n - 1] as nat % 16),
            dump_separator(bytes.len(), (n - 1) as nat),
        ]
    }
}

/// The dump of a run of bytes: each byte as two hexadecimal digits, in rows
/// of 32 bytes with a blank between neighbours and a line feed behind every
/// row, the last one too.
pub open spec fn hex_dump(bytes: Seq<u8>) -> Seq<char> {
    hex_dump_upto(bytes, bytes.len())
}

/// One hexadecimal digit as a string.
fn hex_digit_str(d: u8) -> (s: &'static str)
    requires
        d < 16,
    ensures
        s@ == seq![hex_digit(d as nat)],
{
    proof {
        reveal_strlit("0");
        reveal_strlit("1");
        reveal_strlit("2");
        reveal_strlit("3");
        reveal_strlit("4");
        reveal_strlit("5");
        reveal_strlit("6");
        reveal_strlit("7");
        reveal_strlit("8");
        reveal_strlit("9");
        reveal_strlit("a");
        reveal_strlit("b");
        reveal_strlit("c");
        reveal_strlit("d");
        reveal_strlit("e");
        reveal_strlit("f");
    }
    let s: &'static str = if d == 0 {
        "0"
    } else if d == 1 {
        "1"
    } else if d == 2 {
        "2"
    } else if d == 3 {
        "3"
    } else if d == 4 {
        "4"
    } else if d == 5 {
        "5"
    } else if d == 6 {
        "6"
    } else if d == 7 {
        "7"
    } else if d == 8 {
        "8"
    } else if d == 9 {
        "9"
    } else if d == 10 {
        "a"
    } else if d == 11 {
        "b"
    } else if d == 12 {
        "c"
    } else if d == 13 {
        "d"
    } else if d == 14 {
        "e"
    } else {
        "f"
    };
    assert(s@ =~= seq![hex_digit(d as nat)]);
    s
}

/// Dumps the first `n` bytes of a buffer, or all of it where it is shorter.
pub fn format_bytes_as_hex(buffer: &[u8], n: usize) -> (dump: String)
    ensures
        dump@ == hex_dump(
            buffer@.take(
                if n <= buffer@.len() {
                    n as int
                } else {
                    buffer@.len() as int
                },
            ),
        ),
{
    let count: usize = if n <= buffer.len() {
        n
    } else {
        buffer.len()
    };
    let ghost shown = buffer@.take(count as int);
    let mut dump: String = String::new();
    let mut i: usize = 0;
    proof {
        reveal_strlit(" ");
        reveal_strlit("\n");
    }
    while i < count
        invariant
            i <= count <= buffer@.len(),
            shown == buffer@.take(count as int),
            dump@ == hex_dump_upto(shown, i as nat),
            " "@ == seq![' '],
            "\n"@ == seq!['\n'],
        decreases count - i,
    {
        let b: u8 = buffer[i];
        let ghost before = dump@;
        dump.append(hex_digit_str(b / 16));
        dump.append(hex_digit_str(b % 16));
        if i % DUMP_ROW_LEN == DUMP_ROW_LEN - 1 || i + 1 == count {
            dump.append("\n");
        } else {
            dump.append(" ");
        }
        assert(shown[i as int] == b);
        assert(dump@ =~= before + seq![
            hex_digit(b as nat / 16),
            hex_digit(b as nat % 16),
            dump_separator(shown.len(), i as nat),
        ]);
        i += 1;
    }
    dump
}

impl ServerState {
    /// The log entry of this service for a message.
    pub fn log(&self, message: &str) -> (entry: String)
        ensures
            entry@ == log_entry(self.prefix@, message@),
    {
        let mut whole: String = self.prefix.clone();
        proof {
            reveal_strlit(": ");
            reveal_strlit("\n\t");
        }
        whole.append(": ");
        whole.append(message);
        assert(whole@ =~= self.prefix@ + seq![':', ' '] + message@);
        let all: Vec<String> = split_lines(whole.as_str());
        let mut entry: String = String::new();
        let mut i: usize = 0;
        while i < all.len()
            invariant
                i <= all@.len(),
                texts(all@) == lines(whole@),
                entry@ == join_indented(lines(whole@), i as nat),
                "\n\t"@ == seq!['\n', '\t'],
            decreases all@.len() - i,
        {
            assert(texts(all@)[i as int] == all@[i as int]@);
            if i > 0 {
                entry.append("\n\t");
            }
            entry.append(all[i].as_str());
            i += 1;
            assert(entry@ =~= join_indented(lines(whole@), i as nat));
        }
        assert(texts(all@).len() == all@.len());
        entry
    }
}

} // verus!
