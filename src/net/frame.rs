use vstd::prelude::*;

use super::Error;

verus! {

/// One unit on the wire: a kind tag and an opaque body.
#[derive(Debug)]
pub struct Frame {
    pub kind: String,
    pub body: String,
}

/// `s` holds no occurrence of `c`.
pub open spec fn lacks(s: Seq<char>, c: char) -> bool {
    forall|i: int| 0 <= i < s.len() ==> s[i] != c
}

/// A kind that can be framed: it holds neither the separator nor a line feed.
pub open spec fn valid_kind(kind: Seq<char>) -> bool {
    lacks(kind, '!') && lacks(kind, '\n')
}

/// The wire text of a frame: kind, `!`, body, line feed.
pub open spec fn wire(kind: Seq<char>, body: Seq<char>) -> Seq<char> {
    kind + seq!['!'] + body + seq!['\n']
}

/// A line without its terminating line feed, if it has one.
pub open spec fn content(line: Seq<char>) -> Seq<char> {
    if line.len() > 0 && line.last() == '\n' {
        line.drop_last()
    } else {
        line
    }
}

/// The line carries a frame: its content holds a separator.
pub open spec fn is_framed(line: Seq<char>) -> bool {
    !lacks(content(line), '!')
}

/// The line's content is `kind`, `!`, `body`, split at the first `!`.
pub open spec fn splits_as(line: Seq<char>, kind: Seq<char>, body: Seq<char>) -> bool {
    content(line) == kind + seq!['!'] + body && lacks(kind, '!')
}

/// The kind and body that a framed line carries.
pub open spec fn split_of(line: Seq<char>) -> (Seq<char>, Seq<char>) {
    choose|kb: (Seq<char>, Seq<char>)| splits_as(line, kb.0, kb.1)
}

/// A line splits in at most one way.
pub proof fn lemma_split_unique(line: Seq<char>, k1: Seq<char>, b1: Seq<char>, k2: Seq<char>, b2: Seq<char>)
    requires
        splits_as(line, k1, b1),
        splits_as(line, k2, b2),
    ensures
        k1 == k2,
        b1 == b2,
{
    let c = content(line);
    if k1.len() < k2.len() {
        assert(c[k1.len() as int] == '!');
        assert(c[k1.len() as int] == k2[k1.len() as int]);
    } else if k2.len() < k1.len() {
        assert(c[k2.len() as int] == '!');
        assert(c[k2.len() as int] == k1[k2.len() as int]);
    }
    assert(k1 =~= c.subrange(0, k1.len() as int));
    assert(k2 =~= c.subrange(0, k2.len() as int));
    assert(b1 =~= c.subrange(k1.len() as int + 1, c.len() as int));
    assert(b2 =~= c.subrange(k2.len() as int + 1, c.len() as int));
}

/// A framed line splits, and `split_of` names that split.
pub proof fn lemma_split_of(line: Seq<char>, kind: Seq<char>, body: Seq<char>)
    requires
        splits_as(line, kind, body),
    ensures
        split_of(line) == (kind, body),
{
    let kb = (kind, body);
    assert(splits_as(line, kb.0, kb.1));
    let got = split_of(line);
    lemma_split_unique(line, got.0, got.1, kind, body);
}

/// Encoding a frame and decoding the line gives the frame back, for every
/// kind without `!` and line feed and every body.
pub proof fn lemma_round_trip(kind: Seq<char>, body: Seq<char>)
    requires
        valid_kind(kind),
    ensures
        is_framed(wire(kind, body)),
        splits_as(wire(kind, body), kind, body),
        split_of(wire(kind, body)) == (kind, body),
        forall|k: Seq<char>, b: Seq<char>|
            splits_as(wire(kind, body), k, b) ==> k == kind && b == body,
{
    let w = wire(kind, body);
    assert(content(w) =~= kind + seq!['!'] + body);
    assert(content(w)[kind.len() as int] == '!');
    lemma_split_of(w, kind, body);
    assert forall|k: Seq<char>, b: Seq<char>| splits_as(w, k, b) implies k == kind && b == body by {
        lemma_split_unique(w, k, b, kind, body);
    }
}

/// `a` and `b` hold the same characters.
pub fn same_text(a: &str, b: &str) -> (r: bool)
    ensures
        r == (a@ == b@),
{
    let n = a.unicode_len();
    if n != b.unicode_len() {
        return false;
    }
    let mut i: usize = 0;
    while i < n
        invariant
            n == a@.len() == b@.len(),
            i <= n,
            forall|j: int| 0 <= j < i ==> a@[j] == b@[j],
        decreases n - i,
    {
        if a.get_char(i) != b.get_char(i) {
            return false;
        }
        i += 1;
    }
    assert(a@ =~= b@);
    true
}

/// The wire text of the frame `(kind, body)`.
pub fn encode(kind: &str, body: &str) -> (r: String)
    ensures
        r@ == wire(kind@, body@),
{
    let mut s = String::from_str(kind);
    s.append("!");
    s.append(body);
    s.append("\n");
    proof {
        reveal_strlit("!");
        reveal_strlit("\n");
    }
    assert(s@ =~= wire(kind@, body@));
    s
}

/// Splits a line, with or without its line feed, at its first `!`.
pub fn decode(line: &str) -> (r: Result<Frame, Error>)
    ensures
        r is Ok <==> is_framed(line@),
        r matches Ok(f) ==> splits_as(line@, f.kind@, f.body@) && split_of(line@) == (
        f.kind@,
        f.body@,
        ),
        r matches Err(e) ==> e is MalformedFrame,
{
    let n = line.unicode_len();
    let mut end = n;
    if n > 0 && line.get_char(n - 1) == '\n' {
        end = n - 1;
    }
    let ghost c = content(line@);
    assert(c =~= line@.subrange(0, end as int));
    let mut i: usize = 0;
    while i < end
        invariant
            i <= end <= n,
            n == line@.len(),
            c == line@.subrange(0, end as int),
            c == content(line@),
            forall|j: int| 0 <= j < i ==> c[j] != '!',
        decreases end - i,
    {
        if line.get_char(i) == '!' {
            let kind = line.substring_char(0, i);
            let body = line.substring_char(i + 1, end);
            let f = Frame { kind: String::from_str(kind), body: String::from_str(body) };
            proof {
                assert(c =~= f.kind@ + seq!['!'] + f.body@);
                assert(c[i as int] == '!');
                assert forall|j: int| 0 <= j < f.kind@.len() implies f.kind@[j] != '!' by {
                    assert(f.kind@[j] == c[j]);
                }
                lemma_split_of(line@, f.kind@, f.body@);
            }
            return Ok(f);
        }
        i += 1;
    }
    Err(Error::MalformedFrame)
}

} // verus!
