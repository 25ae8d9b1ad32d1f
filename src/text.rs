//! Character-level helpers: whitespace, word splitting and decimal rendering.

use vstd::prelude::*;
use vstd::string::{StrSliceExecFns, StringExecFns};

verus! {

broadcast use vstd::string::group_string_axioms;

/// The characters that carry the Unicode `White_Space` property.
pub open spec fn is_space(c: char) -> bool {
    let u = c as u32;
    (0x9 <= u && u <= 0xd) || u == 0x20 || u == 0x85 || u == 0xa0 || u == 0x1680 || (0x2000
        <= u && u <= 0x200a) || u == 0x2028 || u == 0x2029 || u == 0x202f || u == 0x205f || u
        == 0x3000
}

/// Whether `c` is whitespace in the sense of `is_space`.
pub fn is_space_char(c: char) -> (r: bool)
    ensures
        r == is_space(c),
{
    let u = c as u32;
    (0x9 <= u && u <= 0xd) || u == 0x20 || u == 0x85 || u == 0xa0 || u == 0x1680 || (0x2000
        <= u && u <= 0x200a) || u == 0x2028 || u == 0x2029 || u == 0x202f || u == 0x205f || u
        == 0x3000
}

/// Relies on `String::push`: appends one character at the end.
#[verifier::external_body]
fn push_char(s: &mut String, c: char)
    ensures
        final(s)@ == old(s)@.push(c),
{
    s.push(c)
}

/// The characters of `s`, in order.
pub fn chars_of(s: &str) -> (r: Vec<char>)
    ensures
        r@ == s@,
{
    let mut out: Vec<char> = Vec::new();
    for c in it: s.chars()
        invariant
            it.seq() == s@,
            out@ == it.seq().take(it.index() as int),
    {
        out.push(c);
    }
    out
}


/// The whitespace-separated words of `s`, in order, each non-empty.
pub open spec fn words(s: Seq<char>) -> Seq<Seq<char>>
    decreases s.len(),
{
    if s.len() == 0 {
        seq![]
    } else {
        let init = words(s.drop_last());
        let c = s.last();
        if is_space(c) {
            init
        } else if s.len() > 1 && !is_space(s[s.len() - 2]) {
            init.drop_last().push(init.last().push(c))
        } else {
            init.push(seq![c])
        }
    }
}

/// The words of `ws` joined by single spaces.
pub open spec fn join_words(ws: Seq<Seq<char>>) -> Seq<char>
    decreases ws.len(),
{
    if ws.len() == 0 {
        seq![]
    } else if ws.len() == 1 {
        ws[0]
    } else {
        join_words(ws.drop_last()) + seq![' '] + ws.last()
    }
}

/// The words after the first one.
pub open spec fn tail_words(ws: Seq<Seq<char>>) -> Seq<Seq<char>> {
    if ws.len() <= 1 {
        seq![]
    } else {
        ws.subrange(1, ws.len() as int)
    }
}

/// The first word of `s`, if it has one.
pub open spec fn first_word(s: Seq<char>) -> Option<Seq<char>> {
    if words(s).len() == 0 {
        None
    } else {
        Some(words(s)[0])
    }
}

/// The words of `s` after the first one, joined by single spaces.
pub open spec fn rest_joined(s: Seq<char>) -> Seq<char> {
    join_words(tail_words(words(s)))
}

proof fn lemma_words_nonempty(s: Seq<char>)
    requires
        s.len() > 0,
        !is_space(s.last()),
    ensures
        words(s).len() > 0,
{
}

proof fn lemma_join_extend_last(ws: Seq<Seq<char>>, c: char)
    requires
        ws.len() > 0,
    ensures
        join_words(ws.drop_last().push(ws.last().push(c))) == join_words(ws).push(c),
{
    let ws2 = ws.drop_last().push(ws.last().push(c));
    assert(ws2.drop_last() =~= ws.drop_last());
    if ws.len() == 1 {
        assert(join_words(ws2) == ws2[0]);
    } else {
        assert(join_words(ws2) == join_words(ws.drop_last()) + seq![' '] + ws.last().push(c));
        assert(join_words(ws2) =~= join_words(ws).push(c));
    }
}

/// Splits `text` at its first whitespace boundary: the first word, and the
/// remaining words joined by single spaces.
pub fn split_command(text: &str) -> (r: (Option<String>, String))
    ensures
        r.0 matches Some(t) ==> first_word(text@) == Some(t@),
        r.0 is None ==> first_word(text@) is None,
        r.1@ == rest_joined(text@),
{
    let chars = chars_of(text);
    let mut token = String::new();
    let mut rest = String::new();
    let mut count: usize = 0;
    let mut prev_space = true;
    let mut i: usize = 0;
    while i < chars.len()
        invariant
            chars@ == text@,
            i <= chars.len(),
            count <= i,
            count == words(chars@.take(i as int)).len(),
            count >= 1 ==> token@ == words(chars@.take(i as int))[0],
            count == 0 ==> token@.len() == 0,
            rest@ == join_words(tail_words(words(chars@.take(i as int)))),
            prev_space == (i == 0 || is_space(chars@[i - 1])),
        decreases chars.len() - i,
    {
        let c = chars[i];
        let ghost p = chars@.take(i as int);
        let ghost q = chars@.take(i + 1);
        assert(q.drop_last() =~= p);
        assert(q.last() == c);
        let ghost w = words(p);
        if is_space_char(c) {
            prev_space = true;
        } else if !prev_space {
            assert(q[q.len() - 2] == chars@[i - 1]);
            proof {
                lemma_words_nonempty(p);
            }
            let ghost w2 = w.drop_last().push(w.last().push(c));
            assert(words(q) == w2);
            if count == 1 {
                push_char(&mut token, c);
                assert(tail_words(w2) =~= tail_words(w));
            } else {
                push_char(&mut rest, c);
                proof {
                    let t = tail_words(w);
                    assert(tail_words(w2) =~= t.drop_last().push(t.last().push(c)));
                    lemma_join_extend_last(t, c);
                }
            }
        } else {
            let ghost w2 = w.push(seq![c]);
            assert(words(q) == w2);
            if count == 0 {
                push_char(&mut token, c);
                assert(token@ =~= seq![c]);
                assert(tail_words(w2) =~= tail_words(w));
            } else if count == 1 {
                push_char(&mut rest, c);
                assert(tail_words(w2) =~= seq![seq![c]]);
                assert(rest@ =~= seq![c]);
            } else {
                push_char(&mut rest, ' ');
                push_char(&mut rest, c);
                let ghost t2 = tail_words(w2);
                assert(t2.drop_last() =~= tail_words(w));
                assert(rest@ =~= join_words(tail_words(w)) + seq![' '] + seq![c]);
            }
            assert(w2[0] == if count == 0 { seq![c] } else { w[0] });
            count = count + 1;
            prev_space = false;
        }
        i = i + 1;
    }
    assert(chars@.take(chars.len() as int) =~= text@);
    if count == 0 {
        (None, rest)
    } else {
        (Some(token), rest)
    }
}


/// Whether `text` begins with `prefix`.
pub fn starts_with(text: &str, prefix: &str) -> (r: bool)
    ensures
        r == prefix@.is_prefix_of(text@),
{
    let t = chars_of(text);
    let p = chars_of(prefix);
    if p.len() > t.len() {
        return false;
    }
    let mut i: usize = 0;
    while i < p.len()
        invariant
            t@ == text@,
            p@ == prefix@,
            p.len() <= t.len(),
            i <= p.len(),
            forall|j: int| 0 <= j < i ==> p@[j] == t@[j],
        decreases p.len() - i,
    {
        if p[i] != t[i] {
            return false;
        }
        i = i + 1;
    }
    true
}

/// Whether `a` and `b` hold the same characters.
pub fn same_text(a: &str, b: &str) -> (r: bool)
    ensures
        r == (a@ == b@),
{
    let x = chars_of(a);
    let y = chars_of(b);
    if x.len() != y.len() {
        return false;
    }
    let mut i: usize = 0;
    while i < x.len()
        invariant
            x@ == a@,
            y@ == b@,
            x.len() == y.len(),
            i <= x.len(),
            forall|j: int| 0 <= j < i ==> x@[j] == y@[j],
        decreases x.len() - i,
    {
        if x[i] != y[i] {
            return false;
        }
        i = i + 1;
    }
    assert(x@ =~= y@);
    true
}

/// The decimal digit character for `d < 10`.
pub open spec fn digit_char(d: nat) -> char {
    ((48 + d) as u8) as char
}

/// The decimal notation of `n`, without leading zeros.
pub open spec fn decimal(n: nat) -> Seq<char>
    decreases n,
{
    if n < 10 {
        seq![digit_char(n)]
    } else {
        decimal(n / 10).push(digit_char(n % 10))
    }
}

/// Renders `n` in decimal.
pub fn decimal_string(n: u64) -> (r: String)
    ensures
        r@ == decimal(n as nat),
    decreases n,
{
    let d: u8 = (n % 10) as u8;
    let c = (48u8 + d) as char;
    if n < 10 {
        let mut s = String::new();
        push_char(&mut s, c);
        assert(s@ =~= seq![c]);
        s
    } else {
        let mut s = decimal_string(n / 10);
        push_char(&mut s, c);
        s
    }
}

/// The first character of the upper-case mapping of `c`.
pub uninterp spec fn upper_head(c: char) -> char;

/// Relies on `char::to_uppercase`, whose iterator yields at least one
/// character; the first one is taken.
#[verifier::external_body]
fn uppercase_first(c: char) -> (r: char)
    ensures
        r == upper_head(c),
{
    c.to_uppercase().next().unwrap_or(c)
}

/// Characters that separate the words of an identifier.
pub open spec fn is_word_separator(c: char) -> bool {
    c == '_' || c == '-' || c == ' '
}

/// `s` with separators removed and the first character of each word
/// upper-cased.
pub open spec fn camel(s: Seq<char>) -> Seq<char>
    decreases s.len(),
{
    if s.len() == 0 {
        seq![]
    } else {
        let init = camel(s.drop_last());
        let c = s.last();
        if is_word_separator(c) {
            init
        } else if s.len() == 1 || is_word_separator(s[s.len() - 2]) {
            init.push(upper_head(c))
        } else {
            init.push(c)
        }
    }
}

/// Turns `snake_case`, `kebab-case` or spaced words into `CamelCase`.
pub fn to_camel_case(s: &str) -> (r: String)
    ensures
        r@ == camel(s@),
{
    let chars = chars_of(s);
    let mut result = String::new();
    let mut upper = true;
    let mut i: usize = 0;
    while i < chars.len()
        invariant
            chars@ == s@,
            i <= chars.len(),
            result@ == camel(chars@.take(i as int)),
            upper == (i == 0 || is_word_separator(chars@[i - 1])),
        decreases chars.len() - i,
    {
        let c = chars[i];
        let ghost q = chars@.take(i + 1);
        assert(q.drop_last() =~= chars@.take(i as int));
        assert(i > 0 ==> q[q.len() - 2] == chars@[i - 1]);
        if c == '_' || c == '-' || c == ' ' {
            upper = true;
        } else if upper {
            push_char(&mut result, uppercase_first(c));
            upper = false;
        } else {
            push_char(&mut result, c);
        }
        i = i + 1;
    }
    assert(chars@.take(chars.len() as int) =~= s@);
    result
}

/// `s` without its leading `/` characters.
pub open spec fn strip_slashes(s: Seq<char>) -> Seq<char>
    decreases s.len(),
{
    if s.len() > 0 && s[0] == '/' {
        strip_slashes(s.drop_first())
    } else {
        s
    }
}

/// The name of the handler type for a command token: `"/get_ip"` becomes
/// `"GetIpHandler"`.
pub fn get_cmd_struct_name(cmd: &str) -> (r: String)
    ensures
        r@ == camel(strip_slashes(cmd@)) + "Handler"@,
{
    let chars = chars_of(cmd);
    let mut start: usize = 0;
    assert(chars@.skip(0) =~= chars@);
    while start < chars.len() && chars[start] == '/'
        invariant
            chars@ == cmd@,
            start <= chars.len(),
            strip_slashes(chars@.skip(start as int)) == strip_slashes(cmd@),
        decreases chars.len() - start,
    {
        assert(chars@.skip(start as int).drop_first() =~= chars@.skip(start + 1));
        start = start + 1;
    }
    assert(strip_slashes(chars@.skip(start as int)) == chars@.skip(start as int));
    let n = cmd.unicode_len();
    let name = cmd.substring_char(start, n);
    assert(name@ =~= chars@.skip(start as int));
    let mut out = to_camel_case(name);
    out.append("Handler");
    out
}

} // verus!
