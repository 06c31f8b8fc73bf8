use vstd::prelude::*;
use crate::http_text::{is_ws, is_whitespace};

verus! {

/// The text before the first line feed, or the whole text when it has none.
pub open spec fn first_line(s: Seq<char>) -> Seq<char>
    decreases s.len(),
{
    if s.len() == 0 {
        s
    } else if s[0] == '\n' {
        Seq::empty()
    } else {
        seq![s[0]] + first_line(s.drop_first())
    }
}

/// The maximal runs of non-whitespace characters of `s`, in order.
pub open spec fn words(s: Seq<char>) -> Seq<Seq<char>>
    decreases s.len(),
{
    if s.len() == 0 {
        Seq::empty()
    } else {
        let w = words(s.drop_last());
        let c = s.last();
        if is_ws(c) {
            w
        } else if s.len() >= 2 && !is_ws(s[s.len() - 2]) {
            w.update(w.len() - 1, w.last().push(c))
        } else {
            w.push(seq![c])
        }
    }
}

/// Method and path of a request: the first two words of its first line,
/// or two empty texts when that line has fewer than two words.
pub open spec fn request_line(s: Seq<char>) -> (Seq<char>, Seq<char>) {
    let w = words(first_line(s));
    if w.len() >= 2 {
        (w[0], w[1])
    } else {
        (Seq::empty(), Seq::empty())
    }
}

proof fn lemma_first_line(s: Seq<char>, e: int)
    requires
        0 <= e <= s.len(),
        forall|j: int| 0 <= j < e ==> s[j] != '\n',
        e == s.len() || s[e] == '\n',
    ensures
        first_line(s) == s.take(e),
    decreases e,
{
    if e == 0 {
        assert(s.take(0) =~= Seq::<char>::empty());
        if s.len() == 0 {
            assert(s =~= Seq::<char>::empty());
        }
    } else {
        let t = s.drop_first();
        assert forall|j: int| 0 <= j < e - 1 implies t[j] != '\n' by {
            assert(t[j] == s[j + 1]);
        }
        lemma_first_line(t, e - 1);
        assert(seq![s[0]] + t.take(e - 1) =~= s.take(e));
    }
}

fn line_end(request: &str, len: usize) -> (e: usize)
    requires
        len == request@.len(),
    ensures
        e <= len,
        first_line(request@) == request@.take(e as int),
{
    let mut i: usize = 0;
    while i < len
        invariant
            i <= len,
            len == request@.len(),
            forall|j: int| 0 <= j < i ==> request@[j] != '\n',
        decreases len - i,
    {
        if request.get_char(i) == '\n' {
            proof {
                lemma_first_line(request@, i as int);
            }
            return i;
        }
        i = i + 1;
    }
    proof {
        lemma_first_line(request@, i as int);
    }
    i
}

/// Splits the first line of a request into method and path.
///
/// Lines end at a line feed; words are separated by whitespace. When the
/// first line holds fewer than two words, both parts are empty.
pub fn parse_request_line<'a>(request: &'a str) -> (r: (&'a str, &'a str))
    ensures
        (r.0@, r.1@) == request_line(request@),
{
    let len = request.unicode_len();
    let e = line_end(request, len);
    let ghost line = request@.take(e as int);
    let mut i: usize = 0;
    let mut n: usize = 0;
    let mut s0: usize = 0;
    let mut e0: usize = 0;
    let mut s1: usize = 0;
    let mut e1: usize = 0;
    while i < e
        invariant
            e <= len == request@.len(),
            line == request@.take(e as int),
            i <= e,
            n <= i,
            words(line.take(i as int)).len() == n,
            n >= 1 ==> s0 <= e0 <= i && words(line.take(i as int))[0] == line.subrange(
                s0 as int,
                e0 as int,
            ),
            n >= 2 ==> s1 <= e1 <= i && words(line.take(i as int))[1] == line.subrange(
                s1 as int,
                e1 as int,
            ),
            i > 0 && !is_ws(line[i - 1]) ==> n >= 1 && (n == 1 ==> e0 == i) && (n == 2 ==> e1
                == i),
        decreases e - i,
    {
        let c = request.get_char(i);
        let ghost pre = line.take(i as int);
        let ghost cur = line.take(i as int + 1);
        assert(cur.drop_last() =~= pre);
        assert(cur.last() == c);
        let ghost w = words(pre);
        if is_whitespace(c) {
        } else if i > 0 && !is_whitespace(request.get_char(i - 1)) {
            assert(cur[cur.len() - 2] == line[i - 1]);
            let ghost w2 = words(cur);
            assert(w2 == w.update(w.len() - 1, w.last().push(c)));
            if n == 1 {
                assert(line.subrange(s0 as int, i as int).push(c) =~= line.subrange(
                    s0 as int,
                    i as int + 1,
                ));
                e0 = i + 1;
            } else if n == 2 {
                assert(line.subrange(s1 as int, i as int).push(c) =~= line.subrange(
                    s1 as int,
                    i as int + 1,
                ));
                e1 = i + 1;
            }
        } else {
            if i > 0 {
                assert(cur[cur.len() - 2] == line[i - 1]);
            }
            assert(words(cur) == w.push(seq![c]));
            if n == 0 {
                s0 = i;
                e0 = i + 1;
                assert(line.subrange(s0 as int, e0 as int) =~= seq![c]);
            } else if n == 1 {
                s1 = i;
                e1 = i + 1;
                assert(line.subrange(s1 as int, e1 as int) =~= seq![c]);
            }
            n = n + 1;
        }
        i = i + 1;
    }
    assert(line.take(e as int) =~= line);
    if n >= 2 {
        assert(line.subrange(s0 as int, e0 as int) =~= request@.subrange(s0 as int, e0 as int));
        assert(line.subrange(s1 as int, e1 as int) =~= request@.subrange(s1 as int, e1 as int));
        (request.substring_char(s0, e0), request.substring_char(s1, e1))
    } else {
        proof {
            reveal_strlit("");
        }
        ("", "")
    }
}

/// A blank-line separator (`\r\n\r\n`) starts at index `i` of `s`.
pub open spec fn separator_at(s: Seq<char>, i: int) -> bool {
    0 <= i && i + 4 <= s.len() && s[i] == '\r' && s[i + 1] == '\n' && s[i + 2] == '\r' && s[i
        + 3] == '\n'
}

pub open spec fn first_separator_at(s: Seq<char>, i: int) -> bool {
    separator_at(s, i) && forall|j: int| 0 <= j < i ==> !separator_at(s, j)
}

/// The message body: everything after the first blank-line separator, or
/// nothing when the request has no separator.
pub open spec fn body_of(s: Seq<char>) -> Option<Seq<char>> {
    if exists|i: int| first_separator_at(s, i) {
        let i = choose|i: int| first_separator_at(s, i);
        Some(s.skip(i + 4))
    } else {
        None
    }
}

proof fn lemma_first_separator_unique(s: Seq<char>, i: int, k: int)
    requires
        first_separator_at(s, i),
        first_separator_at(s, k),
    ensures
        i == k,
{
    if i < k {
        assert(!separator_at(s, i));
    } else if k < i {
        assert(!separator_at(s, k));
    }
}

/// Finds the message body of a request.
pub fn request_body<'a>(request: &'a str) -> (r: Option<&'a str>)
    ensures
        r matches Some(b) ==> body_of(request@) == Some(b@),
        r is None ==> body_of(request@) is None,
{
    let len = request.unicode_len();
    let mut i: usize = 0;
    while i < len && len - i >= 4
        invariant
            i <= len,
            len == request@.len(),
            forall|j: int| 0 <= j < i ==> !separator_at(request@, j),
        decreases len - i,
    {
        if request.get_char(i) == '\r' && request.get_char(i + 1) == '\n' && request.get_char(i + 2)
            == '\r' && request.get_char(i + 3) == '\n' {
            proof {
                assert(first_separator_at(request@, i as int));
                let k = choose|k: int| first_separator_at(request@, k);
                lemma_first_separator_unique(request@, i as int, k);
            }
            return Some(request.substring_char(i + 4, len));
        }
        i = i + 1;
    }
    assert forall|j: int| !first_separator_at(request@, j) by {
        if 0 <= j < i {
        } else if separator_at(request@, j) {
            assert(j + 4 <= len);
        }
    }
    None
}

/// `s` with every NUL character removed.
pub open spec fn without_nul(s: Seq<char>) -> Seq<char>
    decreases s.len(),
{
    if s.len() == 0 {
        s
    } else if s.last() == '\0' {
        without_nul(s.drop_last())
    } else {
        without_nul(s.drop_last()).push(s.last())
    }
}

/// `s` without its leading whitespace.
pub open spec fn trim_start(s: Seq<char>) -> Seq<char>
    decreases s.len(),
{
    if s.len() > 0 && is_ws(s[0]) {
        trim_start(s.drop_first())
    } else {
        s
    }
}

/// `s` without its trailing whitespace.
pub open spec fn trim_end(s: Seq<char>) -> Seq<char>
    decreases s.len(),
{
    if s.len() > 0 && is_ws(s.last()) {
        trim_end(s.drop_last())
    } else {
        s
    }
}

/// A body as handlers read it: NULs removed, surrounding whitespace trimmed.
pub open spec fn sanitized(s: Seq<char>) -> Seq<char> {
    trim_end(trim_start(without_nul(s)))
}

fn remove_nul(s: &str) -> (r: String)
    ensures
        r@ == without_nul(s@),
{
    let len = s.unicode_len();
    let mut out = String::new();
    let mut i: usize = 0;
    while i < len
        invariant
            len == s@.len(),
            i <= len,
            out@ == without_nul(s@.take(i as int)),
        decreases len - i,
    {
        let ghost cur = s@.take(i as int + 1);
        assert(cur.drop_last() =~= s@.take(i as int));
        let c = s.get_char(i);
        if c != '\0' {
            let piece = s.substring_char(i, i + 1);
            assert(piece@ =~= seq![c]);
            out.append(piece);
            assert(out@ =~= without_nul(s@.take(i as int)).push(c));
        }
        i = i + 1;
    }
    assert(s@.take(len as int) =~= s@);
    out
}

fn trim<'a>(s: &'a str) -> (r: &'a str)
    ensures
        r@ == trim_end(trim_start(s@)),
{
    let len = s.unicode_len();
    let mut a: usize = 0;
    assert(s@.subrange(0, len as int) =~= s@);
    while a < len && is_whitespace(s.get_char(a))
        invariant
            len == s@.len(),
            a <= len,
            trim_start(s@) == trim_start(s@.subrange(a as int, len as int)),
        decreases len - a,
    {
        assert(s@.subrange(a as int, len as int).drop_first() =~= s@.subrange(a as int + 1, len as int));
        a = a + 1;
    }
    assert(trim_start(s@) == s@.subrange(a as int, len as int));
    let mut b: usize = len;
    while b > a && is_whitespace(s.get_char(b - 1))
        invariant
            len == s@.len(),
            a <= b <= len,
            trim_end(trim_start(s@)) == trim_end(s@.subrange(a as int, b as int)),
        decreases b,
    {
        assert(s@.subrange(a as int, b as int).drop_last() =~= s@.subrange(a as int, b as int - 1));
        b = b - 1;
    }
    s.substring_char(a, b)
}

/// Removes NUL characters, then leading and trailing whitespace.
pub fn sanitize_body(body: &str) -> (r: String)
    ensures
        r@ == sanitized(body@),
{
    let stripped = remove_nul(body);
    String::from_str(trim(stripped.as_str()))
}

} // verus!
