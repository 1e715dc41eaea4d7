//! The built-in configuration table: keys with a text or a number each, set
//! to defaults and overridden from lines of the form `key value`.

use crate::text::{
    bounded_value, chars_of, find, lemma_find_take, lines, parse_bounded, scan, split_lines,
    texts, trim, trim_start, trimmed_len, Mark,
};
use vstd::hash_map::StringHashMap;
use vstd::prelude::*;
use vstd::string::StrSliceExecFns;

verus! {

/// The value of a configuration key.
#[derive(Debug)]
pub enum Value {
    String(String),
    UInt(u32),
}

/// The table that holds the configuration: keys with their values.
pub type Table = StringHashMap<Value>;

/// A configuration value as plain data.
pub enum ValueView {
    Text(Seq<char>),
    Number(u32),
}

impl View for Value {
    type V = ValueView;

    open spec fn view(&self) -> ValueView {
        match self {
            Value::String(text) => ValueView::Text(text@),
            Value::UInt(number) => ValueView::Number(*number),
        }
    }
}

/// What a table holds: its keys, each with its value as plain data.
pub open spec fn table(hm: StringHashMap<Value>) -> Map<Seq<char>, ValueView> {
    Map::new(|key: Seq<char>| hm@.contains_key(key), |key: Seq<char>| hm@[key]@)
}

/// The table of defaults.
pub open spec fn defaults() -> Map<Seq<char>, ValueView> {
    Map::<Seq<char>, ValueView>::empty().insert("log_dir"@, ValueView::Text("stdout"@)).insert(
        "ap_name"@,
        ValueView::Text("lilap AP"@),
    ).insert("tpool_threads"@, ValueView::Number(8)).insert(
        "web_app_dir"@,
        ValueView::Text("/var/www/html/"@),
    ).insert("web_app_index"@, ValueView::Text("index.html"@)).insert(
        "web_addr"@,
        ValueView::Text("127.0.0.1"@),
    ).insert("web_port"@, ValueView::Number(8080))
}

/// Where a line falls into key and value: the index of the first blank in
/// the line as it reads without the white space around it. There is none
/// where that text holds no blank.
pub open spec fn split_point(line: Seq<char>) -> Option<int> {
    let at = find(trim(line), 0, Mark::Char(' '));
    if at < trim(line).len() {
        Some(at)
    } else {
        None
    }
}

/// The key of a line: as many characters from its start as stand in front of
/// the split point.
pub open spec fn line_key(line: Seq<char>) -> Seq<char>
    recommends
        split_point(line) is Some,
{
    line.take(split_point(line).unwrap())
}

/// The value of a line: what follows the key, without the white space in
/// front of it.
pub open spec fn line_value(line: Seq<char>) -> Seq<char>
    recommends
        split_point(line) is Some,
{
    trim_start(line.skip(split_point(line).unwrap()))
}

/// Whether a line can be applied to a table: it falls into key and value,
/// and where the key stands for a number the value spells one that fits.
pub open spec fn line_ok(t: Map<Seq<char>, ValueView>, line: Seq<char>) -> bool {
    &&& split_point(line) is Some
    &&& t.contains_key(line_key(line)) && t[line_key(line)] is Number ==> bounded_value(
        line_value(line),
        u32::MAX as nat,
    ) is Some
}

/// Whether every line can be applied to a table.
pub open spec fn lines_ok(t: Map<Seq<char>, ValueView>, all: Seq<Seq<char>>) -> bool {
    forall|i: int| 0 <= i < all.len() ==> line_ok(t, #[trigger] all[i])
}

/// The table after a line: a key that the table holds gets the value of the
/// line, as text or as number, whichever it held; a key that the table does
/// not hold is passed over.
pub open spec fn apply_line(t: Map<Seq<char>, ValueView>, line: Seq<char>) -> Map<
    Seq<char>,
    ValueView,
>
    recommends
        line_ok(t, line),
{
    let key = line_key(line);
    if t.contains_key(key) {
        match t[key] {
            ValueView::Text(_) => t.insert(key, ValueView::Text(line_value(line))),
            ValueView::Number(_) => t.insert(
                key,
                ValueView::Number(
                    bounded_value(line_value(line), u32::MAX as nat).unwrap() as u32,
                ),
            ),
        }
    } else {
        t
    }
}

/// The table after the first `n` of the lines, in their order.
pub open spec fn apply_lines(t: Map<Seq<char>, ValueView>, all: Seq<Seq<char>>, n: nat) -> Map<
    Seq<char>,
    ValueView,
>
    decreases n,
{
    if n == 0 {
        t
    } else {
        apply_line(apply_lines(t, all, (n - 1) as nat), all[n - 1])
    }
}

/// Whether two tables hold the same keys, each for the same kind of value.
pub open spec fn same_kinds(a: Map<Seq<char>, ValueView>, b: Map<Seq<char>, ValueView>) -> bool {
    forall|key: Seq<char>|
        (#[trigger] a.contains_key(key) <==> b.contains_key(key)) && (a.contains_key(key) ==> (
        a[key] is Number <==> b[key] is Number))
}

/// A line changes no key and no kind of a table, so a line that can be
/// applied before it can be applied after it.
pub proof fn lemma_kinds_stay(t: Map<Seq<char>, ValueView>, line: Seq<char>, other: Seq<char>)
    ensures
        same_kinds(t, apply_line(t, line)),
        line_ok(t, other) <==> line_ok(apply_line(t, line), other),
{
    let after = apply_line(t, line);
    assert forall|key: Seq<char>|
        (#[trigger] t.contains_key(key) <==> after.contains_key(key)) && (t.contains_key(key) ==> (
        t[key] is Number <==> after[key] is Number)) by {}
    assert(t.contains_key(line_key(other)) <==> after.contains_key(line_key(other)));
}

/// The two parts of a line.
struct Entry {
    key: String,
    value: String,
}

/// Cuts a line into key and value.
fn split_line(line: &str) -> (entry: Option<Entry>)
    ensures
        entry is Some <==> split_point(line@) is Some,
        entry matches Some(e) ==> e.key@ == line_key(line@) && e.value@ == line_value(line@),
{
    let chars: Vec<char> = chars_of(line);
    let lead: usize = scan(chars.as_slice(), 0, Mark::Ink);
    let started: &str = line.substring_char(lead, chars.len());
    assert(started@ =~= trim_start(line@));
    let inner: Vec<char> = chars_of(started);
    let kept: usize = trimmed_len(inner.as_slice());
    assert(inner@.take(kept as int) == trim(line@));
    let blank: usize = scan(inner.as_slice(), 0, Mark::Char(' '));
    proof {
        lemma_find_take(inner@, kept as int, 0, Mark::Char(' '));
    }
    if blank >= kept {
        return None;
    }
    assert(split_point(line@) == Some(blank as int));
    let key: String = line.substring_char(0, blank).to_owned();
    assert(key@ =~= line_key(line@));
    let rest: &str = line.substring_char(blank, chars.len());
    assert(rest@ =~= line@.skip(blank as int));
    let tail: Vec<char> = chars_of(rest);
    let skip: usize = scan(tail.as_slice(), 0, Mark::Ink);
    let value: String = rest.substring_char(skip, tail.len()).to_owned();
    assert(value@ =~= line_value(line@));
    Some(Entry { key, value })
}

/// The configuration table of the program.
pub struct Conf;

impl Conf {
    /// A table with the defaults.
    pub fn new() -> (conf: StringHashMap<Value>)
        ensures
            table(conf) == defaults(),
    {
        let mut conf: StringHashMap<Value> = StringHashMap::new();
        conf.insert("log_dir".to_owned(), Value::String("stdout".to_owned()));
        conf.insert("ap_name".to_owned(), Value::String("lilap AP".to_owned()));
        conf.insert("tpool_threads".to_owned(), Value::UInt(8));
        conf.insert("web_app_dir".to_owned(), Value::String("/var/www/html/".to_owned()));
        conf.insert("web_app_index".to_owned(), Value::String("index.html".to_owned()));
        conf.insert("web_addr".to_owned(), Value::String("127.0.0.1".to_owned()));
        conf.insert("web_port".to_owned(), Value::UInt(8080));
        assert(table(conf) =~= defaults());
        conf
    }

    /// Tells whether every line of a text can be applied to the table.
    pub fn check(hm: &StringHashMap<Value>, text: &str) -> (ok: bool)
        ensures
            ok == lines_ok(table(*hm), lines(text@)),
    {
        let all: Vec<String> = split_lines(text);
        let mut i: usize = 0;
        while i < all.len()
            invariant
                i <= all@.len(),
                texts(all@) == lines(text@),
                forall|k: int| 0 <= k < i ==> line_ok(table(*hm), #[trigger] lines(text@)[k]),
            decreases all@.len() - i,
        {
            assert(texts(all@)[i as int] == all@[i as int]@);
            let fine: bool = match split_line(all[i].as_str()) {
                None => false,
                Some(entry) => match hm.get(entry.key.as_str()) {
                    Some(Value::UInt(_)) => parse_bounded(entry.value.as_str(), u32::MAX).is_some(),
                    _ => true,
                },
            };
            if !fine {
                assert(!line_ok(table(*hm), lines(text@)[i as int]));
                return false;
            }
            i += 1;
        }
        true
    }

    /// Applies the lines of a text to the table, one after the other.
    pub fn parse(hm: &mut StringHashMap<Value>, text: &str)
        requires
            lines_ok(table(*old(hm)), lines(text@)),
        ensures
            table(*final(hm)) == apply_lines(
                table(*old(hm)),
                lines(text@),
                lines(text@).len(),
            ),
    {
        let all: Vec<String> = split_lines(text);
        let ghost start = table(*hm);
        let mut i: usize = 0;
        while i < all.len()
            invariant
                i <= all@.len(),
                texts(all@) == lines(text@),
                lines_ok(start, lines(text@)),
                same_kinds(start, table(*hm)),
                table(*hm) == apply_lines(start, lines(text@), i as nat),
            decreases all@.len() - i,
        {
            let ghost line = lines(text@)[i as int];
            let ghost before = table(*hm);
            assert(texts(all@)[i as int] == all@[i as int]@);
            assert(line_ok(start, line));
            assert(before.contains_key(line_key(line)) <==> start.contains_key(line_key(line)));
            proof {
                lemma_kinds_stay(before, line, line);
            }
            match split_line(all[i].as_str()) {
                None => {},
                Some(entry) => {
                    let kind: Option<bool> = match hm.get(entry.key.as_str()) {
                        Some(Value::UInt(_)) => Some(true),
                        Some(Value::String(_)) => Some(false),
                        None => None,
                    };
                    match kind {
                        Some(true) => {
                            match parse_bounded(entry.value.as_str(), u32::MAX) {
                                Some(number) => {
                                    hm.insert(entry.key, Value::UInt(number));
                                },
                                None => {},
                            }
                        },
                        Some(false) => {
                            hm.insert(entry.key, Value::String(entry.value));
                        },
                        None => {},
                    }
                },
            }
            assert(table(*hm) =~= apply_line(before, line));
            i += 1;
        }
    }
}

} // verus!
