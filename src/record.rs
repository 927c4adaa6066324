use vstd::prelude::*;

verus! {

/// What `serde_json::to_vec` makes of a string: a JSON string literal.
pub uninterp spec fn json_string_bytes(s: Seq<char>) -> Seq<u8>;

/// What a line reads as when parsed by `serde_json::from_str` into a value
/// and written back by `serde_json::to_vec`; none when it is not JSON.
pub uninterp spec fn json_reencoded(s: Seq<char>) -> Option<Seq<u8>>;

/// No byte of `b` is a newline.
pub open spec fn no_newline(b: Seq<u8>) -> bool {
    forall|i: int| 0 <= i < b.len() ==> b[i] != 10u8
}

/// Relies on `serde_json::to_vec` on a `&str`: a literal between double
/// quotes in which control characters, the newline among them, are escaped.
/// Writing into a `Vec` does not fail.
#[verifier::external_body]
fn json_quote(s: &str) -> (r: Vec<u8>)
    ensures
        r@ == json_string_bytes(s@),
        r@.len() >= 2,
        r@[0] == 34u8,
        r@.last() == 34u8,
        no_newline(r@),
{
    serde_json::to_vec(s).unwrap_or_default()
}

/// Relies on `serde_json::from_str::<serde_json::Value>` and then
/// `serde_json::to_vec`: the compact form of the value, whose strings escape
/// control characters, so that it holds no newline.
#[verifier::external_body]
fn json_normalize(s: &str) -> (r: Option<Vec<u8>>)
    ensures
        match r {
            Some(b) => json_reencoded(s@) == Some(b@) && b@.len() > 0 && no_newline(b@),
            None => json_reencoded(s@).is_none(),
        },
{
    match serde_json::from_str::<serde_json::Value>(s) {
        Ok(v) => serde_json::to_vec(&v).ok(),
        Err(_) => None,
    }
}

/// A line without its trailing carriage returns and line feeds.
pub open spec fn stripped(s: Seq<char>) -> Seq<char>
    decreases s.len(),
{
    if s.len() > 0 && (s.last() == '\n' || s.last() == '\r') {
        stripped(s.drop_last())
    } else {
        s
    }
}

fn is_line_end(c: char) -> (r: bool)
    ensures
        r == (c == '\n' || c == '\r'),
{
    c == '\n' || c == '\r'
}

/// Drops the trailing carriage returns and line feeds of a line.
pub fn strip_line_end(line: &str) -> (r: &str)
    ensures
        r@ == stripped(line@),
{
    let mut n = line.unicode_len();
    assert(line@.subrange(0, n as int) =~= line@);
    while n > 0 && is_line_end(line.get_char(n - 1))
        invariant
            n <= line@.len(),
            stripped(line@) == stripped(line@.subrange(0, n as int)),
        decreases n,
    {
        assert(line@.subrange(0, n as int).drop_last() =~= line@.subrange(0, n - 1));
        n = n - 1;
    }
    line.substring_char(0, n)
}

/// `{"plugin":`
pub open spec fn plugin_key() -> Seq<u8> {
    seq![123u8, 34, 112, 108, 117, 103, 105, 110, 34, 58]
}

/// `,"path":`
pub open spec fn path_key() -> Seq<u8> {
    seq![44u8, 34, 112, 97, 116, 104, 34, 58]
}

/// `,"type":`
pub open spec fn type_key() -> Seq<u8> {
    seq![44u8, 34, 116, 121, 112, 101, 34, 58]
}

/// `,"data":`
pub open spec fn data_key() -> Seq<u8> {
    seq![44u8, 34, 100, 97, 116, 97, 34, 58]
}

/// `}` and a newline.
pub open spec fn record_end() -> Seq<u8> {
    seq![125u8, 10]
}

/// The `data` of a record: the line as JSON when it parses, else the line
/// as a JSON string.
pub open spec fn payload(line: Seq<char>) -> Seq<u8> {
    match json_reencoded(line) {
        Some(b) => b,
        None => json_string_bytes(line),
    }
}

/// The record that a line of plugin output becomes: one JSON object with
/// the keys `plugin`, `path`, `type` and `data`, and a newline.
pub open spec fn record_of(plugin: Seq<char>, path: Seq<char>, item_type: Seq<char>, line: Seq<char>) -> Seq<u8> {
    plugin_key() + json_string_bytes(plugin) + path_key() + json_string_bytes(path) + type_key()
        + json_string_bytes(item_type) + data_key() + payload(stripped(line)) + record_end()
}

/// A whole line: it ends with the only newline it holds.
pub open spec fn is_line(b: Seq<u8>) -> bool {
    b.len() > 0 && b.last() == 10u8 && no_newline(b.drop_last())
}

/// Builds the record for one line of a plugin's output.
pub fn format_record(plugin_name: &str, item_path: &str, item_type: &str, line: &str) -> (r: Vec<u8>)
    ensures
        r@ == record_of(plugin_name@, item_path@, item_type@, line@),
        is_line(r@),
{
    let s = strip_line_end(line);
    let mut out: Vec<u8> = vec![123u8, 34, 112, 108, 117, 103, 105, 110, 34, 58];
    let mut q = json_quote(plugin_name);
    let ghost p1 = q@;
    out.append(&mut q);
    let mut k: Vec<u8> = vec![44u8, 34, 112, 97, 116, 104, 34, 58];
    out.append(&mut k);
    let mut q = json_quote(item_path);
    let ghost p2 = q@;
    out.append(&mut q);
    let mut k: Vec<u8> = vec![44u8, 34, 116, 121, 112, 101, 34, 58];
    out.append(&mut k);
    let mut q = json_quote(item_type);
    let ghost p3 = q@;
    out.append(&mut q);
    let mut k: Vec<u8> = vec![44u8, 34, 100, 97, 116, 97, 34, 58];
    out.append(&mut k);
    let mut data = match json_normalize(s) {
        Some(b) => b,
        None => json_quote(s),
    };
    let ghost p4 = data@;
    out.append(&mut data);
    let ghost body = out@;
    out.push(125u8);
    out.push(10u8);
    proof {
        assert(body =~= plugin_key() + p1 + path_key() + p2 + type_key() + p3 + data_key() + p4);
        assert(out@ =~= body + record_end());
        assert(no_newline(plugin_key()));
        assert(no_newline(path_key()));
        assert(no_newline(type_key()));
        assert(no_newline(data_key()));
        lemma_no_newline_concat(plugin_key(), p1);
        lemma_no_newline_concat(plugin_key() + p1, path_key());
        lemma_no_newline_concat(plugin_key() + p1 + path_key(), p2);
        lemma_no_newline_concat(plugin_key() + p1 + path_key() + p2, type_key());
        lemma_no_newline_concat(plugin_key() + p1 + path_key() + p2 + type_key(), p3);
        lemma_no_newline_concat(plugin_key() + p1 + path_key() + p2 + type_key() + p3, data_key());
        lemma_no_newline_concat(
            plugin_key() + p1 + path_key() + p2 + type_key() + p3 + data_key(),
            p4,
        );
        lemma_no_newline_concat(body, seq![125u8]);
        assert(out@.drop_last() =~= body + seq![125u8]);
    }
    out
}

proof fn lemma_no_newline_concat(a: Seq<u8>, b: Seq<u8>)
    requires
        no_newline(a),
        no_newline(b),
    ensures
        no_newline(a + b),
{
    assert forall|i: int| 0 <= i < (a + b).len() implies (a + b)[i] != 10u8 by {
        if i >= a.len() {
            assert((a + b)[i] == b[i - a.len()]);
        }
    }
}

/// The bytes of a sequence of records written one after another.
pub open spec fn concat_all(rs: Seq<Seq<u8>>) -> Seq<u8>
    decreases rs.len(),
{
    if rs.len() == 0 {
        seq![]
    } else {
        rs[0] + concat_all(rs.drop_first())
    }
}

proof fn lemma_line_prefix(x: Seq<u8>, u: Seq<u8>, y: Seq<u8>, v: Seq<u8>)
    requires
        is_line(x),
        is_line(y),
        x + u == y + v,
        x.len() <= y.len(),
    ensures
        x == y,
        u == v,
{
    let lx = x.len() as int;
    let ly = y.len() as int;
    assert((x + u)[lx - 1] == x[lx - 1]);
    assert((y + v)[lx - 1] == y[lx - 1]);
    if lx < ly {
        assert(y.drop_last()[lx - 1] == y[lx - 1]);
    }
    assert(x =~= (x + u).subrange(0, lx));
    assert(y =~= (y + v).subrange(0, ly));
    assert(u =~= (x + u).subrange(lx, (x + u).len() as int));
    assert(v =~= (y + v).subrange(ly, (y + v).len() as int));
}

/// Whole lines written one after another can be told apart again: two
/// sequences of whole lines that give the same bytes are the same sequence.
/// So a stream built of whole records, each written at once, holds each
/// record intact on a line of its own.
pub proof fn lemma_lines_unique(a: Seq<Seq<u8>>, b: Seq<Seq<u8>>)
    requires
        forall|i: int| 0 <= i < a.len() ==> is_line(#[trigger] a[i]),
        forall|i: int| 0 <= i < b.len() ==> is_line(#[trigger] b[i]),
        concat_all(a) == concat_all(b),
    ensures
        a == b,
    decreases a.len(),
{
    if a.len() == 0 {
        if b.len() > 0 {
            assert(is_line(b[0]));
            assert(concat_all(b).len() >= b[0].len());
        }
        assert(a =~= b);
    } else if b.len() == 0 {
        assert(is_line(a[0]));
        assert(concat_all(a).len() >= a[0].len());
    } else {
        assert(is_line(a[0]));
        assert(is_line(b[0]));
        if a[0].len() <= b[0].len() {
            lemma_line_prefix(a[0], concat_all(a.drop_first()), b[0], concat_all(b.drop_first()));
        } else {
            lemma_line_prefix(b[0], concat_all(b.drop_first()), a[0], concat_all(a.drop_first()));
        }
        let a1 = a.drop_first();
        let b1 = b.drop_first();
        assert forall|i: int| 0 <= i < a1.len() implies is_line(#[trigger] a1[i]) by {
            assert(a1[i] == a[i + 1]);
        }
        assert forall|i: int| 0 <= i < b1.len() implies is_line(#[trigger] b1[i]) by {
            assert(b1[i] == b[i + 1]);
        }
        lemma_lines_unique(a1, b1);
        assert(a =~= seq![a[0]] + a1);
        assert(b =~= seq![b[0]] + b1);
    }
}

} // verus!
