//! Text helpers: file names and stems of part paths, marker removal and
//! decimal numbers, all stated over sequences of characters.

use vstd::prelude::*;
use vstd::string::*;
use vstd::utf8::*;

verus! {

/// `String::push` appends one character to the end of the string.
pub assume_specification[ String::push ](s: &mut String, c: char)
    ensures
        final(s)@ == old(s)@.push(c),
;

/// The position of the last `c` in `s`, or -1 where `s` holds none.
pub open spec fn last_index_of(s: Seq<char>, c: char) -> int
    decreases s.len(),
{
    if s.len() == 0 {
        -1
    } else if s.last() == c {
        s.len() - 1
    } else {
        last_index_of(s.drop_last(), c)
    }
}

/// The final component of a `/`-separated path: what follows its last `/`,
/// or the whole path where it holds none.
pub open spec fn file_name_of(path: Seq<char>) -> Seq<char> {
    path.skip(last_index_of(path, '/') + 1)
}

/// A file name without its extension: what precedes the last `.`, unless
/// that dot is missing or leads the name, in which case the whole name.
pub open spec fn file_stem_of(name: Seq<char>) -> Seq<char> {
    let dot = last_index_of(name, '.');
    if dot <= 0 {
        name
    } else {
        name.take(dot)
    }
}

/// Whether the final component of `path` names a file: it is not empty,
/// and it is neither `.` nor `..`.
pub open spec fn names_file(path: Seq<char>) -> bool {
    let name = file_name_of(path);
    name.len() > 0 && name != seq!['.'] && name != seq!['.', '.']
}

/// Whether `s` ends with `suffix`.
pub open spec fn has_suffix(s: Seq<char>, suffix: Seq<char>) -> bool {
    suffix.len() <= s.len() && s.skip(s.len() - suffix.len()) == suffix
}

/// Whether `pat` occurs in `s` at position `at`.
pub open spec fn occurs_at(s: Seq<char>, pat: Seq<char>, at: int) -> bool {
    0 <= at && at + pat.len() <= s.len() && s.subrange(at, at + pat.len()) == pat
}

/// `s` with every occurrence of `pat` taken out, scanning from the left and
/// resuming after each occurrence. An empty `pat` takes nothing out.
pub open spec fn without(s: Seq<char>, pat: Seq<char>) -> Seq<char>
    decreases s.len(),
{
    if pat.len() == 0 || s.len() < pat.len() {
        s
    } else if occurs_at(s, pat, 0) {
        without(s.skip(pat.len() as int), pat)
    } else {
        seq![s[0]] + without(s.skip(1), pat)
    }
}

/// `last_index_of` finds `at` where `s[at]` is `c` and no later position is.
pub proof fn lemma_last_index_found(s: Seq<char>, c: char, at: int)
    requires
        0 <= at < s.len(),
        s[at] == c,
        forall|j: int| at < j < s.len() ==> s[j] != c,
    ensures
        last_index_of(s, c) == at,
    decreases s.len(),
{
    if s.last() != c {
        lemma_last_index_found(s.drop_last(), c, at);
    }
}

/// `last_index_of` is -1 where no position of `s` holds `c`.
pub proof fn lemma_last_index_absent(s: Seq<char>, c: char)
    requires
        forall|j: int| 0 <= j < s.len() ==> s[j] != c,
    ensures
        last_index_of(s, c) == -1,
    decreases s.len(),
{
    if s.len() > 0 {
        lemma_last_index_absent(s.drop_last(), c);
    }
}

/// The characters of `s`, in order.
pub fn to_chars(s: &str) -> (chars: Vec<char>)
    ensures
        chars@ == s@,
{
    let mut chars: Vec<char> = Vec::new();
    for c in it: s.chars()
        invariant
            chars@ == it.seq().take(it.index() as int),
            it.seq() == s@,
    {
        chars.push(c);
    }
    chars
}

/// The string made of `chars[from..to]`.
pub fn from_chars(chars: &Vec<char>, from: usize, to: usize) -> (s: String)
    requires
        from <= to <= chars.len(),
    ensures
        s@ == chars@.subrange(from as int, to as int),
{
    let mut s = String::new();
    let mut i: usize = from;
    while i < to
        invariant
            from <= i <= to <= chars.len(),
            s@ == chars@.subrange(from as int, i as int),
        decreases to - i,
    {
        s.push(chars[i]);
        i += 1;
    }
    s
}

/// One past the position of the last `c` in `chars`: 0 where there is none.
fn after_last(chars: &Vec<char>, c: char) -> (next: usize)
    ensures
        next == last_index_of(chars@, c) + 1,
        next <= chars.len(),
{
    let mut i: usize = chars.len();
    while i > 0
        invariant
            i <= chars.len(),
            forall|j: int| i <= j < chars.len() ==> chars@[j] != c,
        decreases i,
    {
        if chars[i - 1] == c {
            proof {
                lemma_last_index_found(chars@, c, i - 1);
            }
            return i;
        }
        i -= 1;
    }
    proof {
        lemma_last_index_absent(chars@, c);
    }
    0
}

/// The final `/`-separated component of `path`.
fn last_component(path: &str) -> (name: String)
    ensures
        name@ == file_name_of(path@),
{
    let chars = to_chars(path);
    let start = after_last(&chars, '/');
    from_chars(&chars, start, chars.len())
}

/// Whether the final component of `path` names a file.
pub fn has_file_name(path: &str) -> (named: bool)
    ensures
        named == names_file(path@),
{
    let name = to_chars(last_component(path).as_str());
    if name.len() == 0 {
        false
    } else if name.len() == 1 {
        assert(name@ =~= seq![name@[0]]);
        name[0] != '.'
    } else if name.len() == 2 {
        assert(name@ =~= seq![name@[0], name@[1]]);
        !(name[0] == '.' && name[1] == '.')
    } else {
        true
    }
}

/// The file name of `path`: its final `/`-separated component.
pub fn get_file_name(path: &str) -> (name: String)
    requires
        names_file(path@),
    ensures
        name@ == file_name_of(path@),
{
    last_component(path)
}

/// The file stem of `path`: its file name without the extension.
pub fn get_file_stem(path: &str) -> (stem: String)
    requires
        names_file(path@),
    ensures
        stem@ == file_stem_of(file_name_of(path@)),
{
    let name = last_component(path);
    let name_chars = to_chars(name.as_str());
    let after_dot = after_last(&name_chars, '.');
    if after_dot <= 1 {
        name
    } else {
        from_chars(&name_chars, 0, after_dot - 1)
    }
}

/// Whether `s` ends with `suffix`.
pub fn ends_with(s: &str, suffix: &str) -> (r: bool)
    ensures
        r == has_suffix(s@, suffix@),
{
    let text = to_chars(s);
    let tail = to_chars(suffix);
    if tail.len() > text.len() {
        return false;
    }
    let offset: usize = text.len() - tail.len();
    let mut i: usize = 0;
    while i < tail.len()
        invariant
            text@ == s@,
            tail@ == suffix@,
            offset + tail.len() == text.len(),
            i <= tail.len(),
            forall|j: int| 0 <= j < i ==> text@[offset + j] == tail@[j],
        decreases tail.len() - i,
    {
        if text[offset + i] != tail[i] {
            assert(text@.skip(text@.len() - tail@.len())[i as int] == text@[offset + i]);
            return false;
        }
        i += 1;
    }
    assert(text@.skip(text@.len() - tail@.len()) =~= tail@);
    true
}

/// Whether `pat` occurs in `text` at position `at`.
fn matches_at(text: &Vec<char>, pat: &Vec<char>, at: usize) -> (r: bool)
    requires
        at <= text.len(),
    ensures
        r == occurs_at(text@, pat@, at as int),
{
    if pat.len() > text.len() - at {
        return false;
    }
    let mut i: usize = 0;
    while i < pat.len()
        invariant
            at + pat.len() <= text.len(),
            i <= pat.len(),
            forall|j: int| 0 <= j < i ==> text@[at + j] == pat@[j],
        decreases pat.len() - i,
    {
        if text[at + i] != pat[i] {
            assert(text@.subrange(at as int, at + pat@.len())[i as int] == text@[at + i]);
            return false;
        }
        i += 1;
    }
    assert(text@.subrange(at as int, at + pat@.len()) =~= pat@);
    true
}

/// `s` with every occurrence of `pat` taken out.
pub fn remove_all(s: &str, pat: &str) -> (r: String)
    ensures
        r@ == without(s@, pat@),
{
    let text = to_chars(s);
    let mark = to_chars(pat);
    if mark.len() == 0 {
        return from_chars(&text, 0, text.len());
    }
    let mut out = String::new();
    let mut i: usize = 0;
    assert(text@.skip(0) =~= text@);
    assert(out@ + without(text@, mark@) =~= without(text@, mark@));
    while i < text.len()
        invariant
            i <= text.len(),
            mark.len() > 0,
            out@ + without(text@.skip(i as int), mark@) == without(text@, mark@),
        decreases text.len() - i,
    {
        let ghost rest = text@.skip(i as int);
        let found = matches_at(&text, &mark, i);
        proof {
            if mark@.len() <= rest.len() {
                assert(rest.subrange(0, mark@.len() as int) =~= text@.subrange(
                    i as int,
                    i + mark@.len(),
                ));
            }
        }
        if found {
            assert(rest.skip(mark@.len() as int) =~= text@.skip(i + mark@.len()));
            i += mark.len();
        } else {
            proof {
                let next = text@.skip(i + 1);
                assert(rest.skip(1) =~= next);
                if rest.len() < mark@.len() {
                    assert(rest =~= seq![rest[0]] + next);
                }
                assert(out@.push(text@[i as int]) + without(next, mark@) =~= out@ + (seq![rest[0]]
                    + without(next, mark@)));
            }
            out.push(text[i]);
            i += 1;
        }
    }
    assert(text@.skip(text@.len() as int) =~= Seq::<char>::empty());
    assert(out@ + Seq::<char>::empty() =~= out@);
    out
}

/// The character that writes the digit `d`.
pub open spec fn digit_char(d: int) -> char {
    if d == 0 {
        '0'
    } else if d == 1 {
        '1'
    } else if d == 2 {
        '2'
    } else if d == 3 {
        '3'
    } else if d == 4 {
        '4'
    } else if d == 5 {
        '5'
    } else if d == 6 {
        '6'
    } else if d == 7 {
        '7'
    } else if d == 8 {
        '8'
    } else {
        '9'
    }
}

/// A natural number written in base ten, without leading zeros.
pub open spec fn decimal_nat(n: nat) -> Seq<char>
    decreases n,
{
    if n < 10 {
        seq![digit_char(n as int)]
    } else {
        decimal_nat(n / 10).push(digit_char((n % 10) as int))
    }
}

/// An integer written in base ten, with a leading `-` where it is negative.
pub open spec fn decimal(n: int) -> Seq<char> {
    if n < 0 {
        seq!['-'] + decimal_nat((-n) as nat)
    } else {
        decimal_nat(n as nat)
    }
}

fn digit_of(d: u64) -> (c: char)
    requires
        d < 10,
    ensures
        c == digit_char(d as int),
{
    if d == 0 {
        '0'
    } else if d == 1 {
        '1'
    } else if d == 2 {
        '2'
    } else if d == 3 {
        '3'
    } else if d == 4 {
        '4'
    } else if d == 5 {
        '5'
    } else if d == 6 {
        '6'
    } else if d == 7 {
        '7'
    } else if d == 8 {
        '8'
    } else {
        '9'
    }
}

/// Appends `n` in base ten to `out`.
pub fn push_decimal_nat(out: &mut String, n: u64)
    ensures
        final(out)@ == old(out)@ + decimal_nat(n as nat),
    decreases n,
{
    if n >= 10 {
        push_decimal_nat(out, n / 10);
    }
    out.push(digit_of(n % 10));
    assert(final(out)@ =~= old(out)@ + decimal_nat(n as nat));
}

/// Appends `n` in base ten to `out`.
pub fn push_decimal(out: &mut String, n: i64)
    ensures
        final(out)@ == old(out)@ + decimal(n as int),
{
    if n < 0 {
        out.push('-');
        let magnitude: u64 = ((-(n + 1)) as u64) + 1;
        push_decimal_nat(out, magnitude);
        assert(final(out)@ =~= old(out)@ + decimal(n as int));
    } else {
        push_decimal_nat(out, n as u64);
    }
}

/// Appends the text `piece` to `out`.
pub fn push_text(out: &mut String, piece: &str)
    ensures
        final(out)@ == old(out)@ + piece@,
{
    out.append(piece);
}

/// The length of `s` in bytes of UTF-8.
pub open spec fn byte_len(s: Seq<char>) -> nat {
    encode_utf8(s).len()
}

/// Whether the byte offset `at` into the UTF-8 form of `s` falls between
/// two characters, or at either end.
pub open spec fn on_char_boundary(s: Seq<char>, at: int) -> bool {
    is_char_boundary(encode_utf8(s), at)
}

/// The characters of `s` that its first `at` bytes encode.
pub open spec fn bytes_before(s: Seq<char>, at: int) -> Seq<char> {
    decode_utf8(encode_utf8(s).subrange(0, at))
}

/// The characters of `s` that its bytes from offset `at` on encode.
pub open spec fn bytes_from(s: Seq<char>, at: int) -> Seq<char> {
    decode_utf8(encode_utf8(s).subrange(at, byte_len(s) as int))
}

/// The part of `s` before the byte offset `at`.
pub fn head_bytes<'a>(s: &'a str, at: usize) -> (head: &'a str)
    requires
        on_char_boundary(s@, at as int),
    ensures
        head@ == bytes_before(s@, at as int),
{
    broadcast use encode_utf8_decode_utf8;

    let (head, _) = s.split_at(at);
    head
}

/// The part of `s` from the byte offset `at` on.
pub fn tail_bytes<'a>(s: &'a str, at: usize) -> (tail: &'a str)
    requires
        on_char_boundary(s@, at as int),
    ensures
        tail@ == bytes_from(s@, at as int),
{
    broadcast use encode_utf8_decode_utf8;

    let (_, tail) = s.split_at(at);
    tail
}

/// Whether `a` and `b` hold the same text.
pub fn same_text(a: &str, b: &str) -> (same: bool)
    ensures
        same == (a@ == b@),
{
    let left = String::from_str(a);
    let right = String::from_str(b);
    left == right
}

} // verus!
