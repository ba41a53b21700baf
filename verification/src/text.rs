//! Text helpers: whitespace, lines, prefixes and infixes, decimal numbers,
//! and the outside encoders the providers speak (JSON strings, percent
//! encoding, transliteration).

use vstd::prelude::*;
use vstd::string::StringExecFns;
use vstd::utf8::{decode_utf8, encode_utf8, is_ascii_chars, valid_utf8};

verus! {

/// The characters of `s`, in order.
pub(crate) fn chars_of(s: &str) -> (v: Vec<char>)
    ensures
        v@ == s@,
{
    let mut v: Vec<char> = Vec::new();
    for c in it: s.chars()
        invariant
            v@ == it.seq().take(it.index() as int),
    {
        v.push(c);
    }
    v
}

/// Appends one character; `String::push`.
#[verifier::external_body]
pub(crate) fn push_char(s: &mut String, c: char)
    ensures
        final(s)@ == old(s)@.push(c),
{
    s.push(c);
}

/// A string holding `chars`, in order.
pub(crate) fn string_of(chars: &[char]) -> (s: String)
    ensures
        s@ == chars@,
{
    let mut s = String::new();
    let mut i: usize = 0;
    while i < chars.len()
        invariant
            i <= chars@.len(),
            s@ == chars@.take(i as int),
        decreases chars@.len() - i,
    {
        push_char(&mut s, chars[i]);
        assert(chars@.take(i + 1) == chars@.take(i as int).push(chars@[i as int]));
        i = i + 1;
    }
    assert(chars@.take(chars@.len() as int) == chars@);
    s
}


/// Unicode's `White_Space` property, which `char::is_whitespace` tests.
pub open spec fn is_white_space(c: char) -> bool {
    ||| c == ' '
    ||| ('\u{9}' <= c && c <= '\u{d}')
    ||| c == '\u{85}'
    ||| c == '\u{a0}'
    ||| c == '\u{1680}'
    ||| ('\u{2000}' <= c && c <= '\u{200a}')
    ||| c == '\u{2028}'
    ||| c == '\u{2029}'
    ||| c == '\u{202f}'
    ||| c == '\u{205f}'
    ||| c == '\u{3000}'
}

/// Whether `c` is white space, as `char::is_whitespace` says.
pub(crate) fn white_space(c: char) -> (b: bool)
    ensures
        b == is_white_space(c),
{
    c == ' ' || ('\u{9}' <= c && c <= '\u{d}') || c == '\u{85}' || c == '\u{a0}'
        || c == '\u{1680}' || ('\u{2000}' <= c && c <= '\u{200a}') || c == '\u{2028}'
        || c == '\u{2029}' || c == '\u{202f}' || c == '\u{205f}' || c == '\u{3000}'
}

/// `s` without its leading white space.
pub open spec fn trim_start(s: Seq<char>) -> Seq<char>
    decreases s.len(),
{
    if s.len() > 0 && is_white_space(s[0]) {
        trim_start(s.drop_first())
    } else {
        s
    }
}

/// `s` without its trailing white space.
pub open spec fn trim_end(s: Seq<char>) -> Seq<char>
    decreases s.len(),
{
    if s.len() > 0 && is_white_space(s.last()) {
        trim_end(s.drop_last())
    } else {
        s
    }
}

/// `s` without white space at either end, as `str::trim` gives it.
pub open spec fn trimmed(s: Seq<char>) -> Seq<char> {
    trim_end(trim_start(s))
}

/// The characters `chars[from..to]` without white space at either end.
pub(crate) fn trim_chars(chars: &Vec<char>, from: usize, to: usize) -> (r: Vec<char>)
    requires
        from <= to <= chars@.len(),
    ensures
        r@ == trimmed(chars@.subrange(from as int, to as int)),
{
    let ghost s = chars@.subrange(from as int, to as int);
    let mut i = from;
    while i < to && white_space(chars[i])
        invariant
            from <= i <= to <= chars@.len(),
            s == chars@.subrange(from as int, to as int),
            trim_start(s) == trim_start(chars@.subrange(i as int, to as int)),
        decreases to - i,
    {
        proof {
            let t = chars@.subrange(i as int, to as int);
            assert(t.drop_first() == chars@.subrange(i + 1, to as int));
        }
        i = i + 1;
    }
    proof {
        let t = chars@.subrange(i as int, to as int);
        assert(t.len() > 0 ==> t[0] == chars@[i as int]);
    }
    let mut j = to;
    while j > i && white_space(chars[j - 1])
        invariant
            from <= i <= j <= to <= chars@.len(),
            trimmed(s) == trim_end(chars@.subrange(i as int, j as int)),
        decreases j - i,
    {
        proof {
            let t = chars@.subrange(i as int, j as int);
            assert(t.drop_last() == chars@.subrange(i as int, j - 1));
            assert(t.last() == chars@[j - 1]);
        }
        j = j - 1;
    }
    proof {
        let t = chars@.subrange(i as int, j as int);
        assert(t.len() > 0 ==> t.last() == chars@[j - 1]);
    }
    let mut r: Vec<char> = Vec::new();
    let mut k = i;
    while k < j
        invariant
            i <= k <= j <= chars@.len(),
            r@ == chars@.subrange(i as int, k as int),
        decreases j - k,
    {
        r.push(chars[k]);
        assert(chars@.subrange(i as int, k + 1) == chars@.subrange(i as int, k as int).push(chars@[k as int]));
        k = k + 1;
    }
    r
}

/// `s` without white space at either end; `str::trim`.
pub(crate) fn trim(s: &str) -> (r: String)
    ensures
        r@ == trimmed(s@),
{
    let chars = chars_of(s);
    assert(chars@.subrange(0, chars@.len() as int) == chars@);
    let t = trim_chars(&chars, 0, chars.len());
    string_of(t.as_slice())
}


/// Where the first `'\n'` of `s` stands, or `s.len()` when there is none.
pub open spec fn newline_index(s: Seq<char>) -> int
    decreases s.len(),
{
    if s.len() == 0 {
        0
    } else if s[0] == '\n' {
        0
    } else {
        1 + newline_index(s.drop_first())
    }
}

/// `s` without one trailing carriage return.
pub open spec fn strip_cr(s: Seq<char>) -> Seq<char> {
    if s.len() > 0 && s.last() == '\r' {
        s.drop_last()
    } else {
        s
    }
}

/// The lines of `s` as `str::lines` yields them: split at `"\n"` or
/// `"\r\n"`, a final line ending optional.
pub open spec fn lines(s: Seq<char>) -> Seq<Seq<char>>
    decreases s.len(),
{
    if s.len() == 0 {
        seq![]
    } else {
        let i = newline_index(s);
        proof {
            lemma_newline_index_bounds(s);
        }
        if i < s.len() {
            seq![strip_cr(s.take(i))] + lines(s.skip(i + 1))
        } else {
            seq![s]
        }
    }
}

/// The lines among `ls` that hold more than white space, each trimmed.
pub open spec fn nonblank_trimmed(ls: Seq<Seq<char>>) -> Seq<Seq<char>>
    decreases ls.len(),
{
    if ls.len() == 0 {
        seq![]
    } else {
        let t = trimmed(ls[0]);
        let rest = nonblank_trimmed(ls.drop_first());
        if t.len() > 0 {
            seq![t] + rest
        } else {
            rest
        }
    }
}

/// A first newline, when there is one, stands inside the text.
pub proof fn lemma_newline_index_bounds(s: Seq<char>)
    ensures
        0 <= newline_index(s) <= s.len(),
    decreases s.len(),
{
    if s.len() > 0 {
        lemma_newline_index_bounds(s.drop_first());
    }
}

proof fn lemma_newline_index(s: Seq<char>, m: int)
    requires
        0 <= m <= s.len(),
        forall|k: int| 0 <= k < m ==> s[k] != '\n',
        m == s.len() || s[m] == '\n',
    ensures
        newline_index(s) == m,
    decreases m,
{
    if m > 0 {
        lemma_newline_index(s.drop_first(), m - 1);
    }
}

/// The views of `v`'s strings.
pub open spec fn views(v: Seq<String>) -> Seq<Seq<char>> {
    v.map_values(|x: String| x@)
}

/// The lines of `text` that hold more than white space, each trimmed:
/// `text.lines().map(str::trim).filter(|line| !line.is_empty())`.
pub(crate) fn nonblank_lines(text: &str) -> (r: Vec<String>)
    ensures
        views(r@) == nonblank_trimmed(lines(text@)),
{
    let chars = chars_of(text);
    let ghost s = chars@;
    let n = chars.len();
    let mut r: Vec<String> = Vec::new();
    let mut pos: usize = 0;
    assert(s.skip(0) == s);
    assert(views(r@) == Seq::<Seq<char>>::empty());
    assert(views(r@) + nonblank_trimmed(lines(s)) == nonblank_trimmed(lines(s)));
    while pos < n
        invariant
            n == chars@.len(),
            s == chars@,
            pos <= n,
            nonblank_trimmed(lines(s)) == views(r@) + nonblank_trimmed(lines(s.skip(pos as int))),
        decreases n - pos,
    {
        let mut e = pos;
        while e < n && chars[e] != '\n'
            invariant
                pos <= e <= n == chars@.len(),
                forall|k: int| pos <= k < e ==> chars@[k] != '\n',
            decreases n - e,
        {
            e = e + 1;
        }
        let ghost t = s.skip(pos as int);
        proof {
            lemma_newline_index(t, e - pos);
        }
        let found = e < n;
        let mut stop = e;
        if found && e > pos && chars[e - 1] == '\r' {
            stop = e - 1;
        }
        let piece = trim_chars(&chars, pos, stop);
        proof {
            let line = t.take(e - pos);
            assert(line == chars@.subrange(pos as int, e as int));
            if found {
                assert(strip_cr(line) == chars@.subrange(pos as int, stop as int));
                assert(t.skip(e - pos + 1) == s.skip(e + 1));
                assert(lines(t) == seq![strip_cr(line)] + lines(s.skip(e + 1)));
            } else {
                assert(line == t);
                assert(lines(t) == seq![t]);
                assert(s.skip(e as int).len() == 0);
                assert(lines(s.skip(e as int)) == Seq::<Seq<char>>::empty());
            }
        }
        let ghost before = r@;
        if piece.len() > 0 {
            r.push(string_of(piece.as_slice()));
        }
        proof {
            let ls = lines(t);
            assert(ls.drop_first() == lines(if found { s.skip(e + 1) } else { s.skip(e as int) }));
            if piece@.len() > 0 {
                assert(views(r@) == views(before) + seq![piece@]);
            } else {
                assert(views(r@) == views(before));
            }
        }
        if found {
            pos = e + 1;
        } else {
            pos = e;
        }
    }
    proof {
        assert(s.skip(n as int).len() == 0);
        assert(views(r@) + Seq::<Seq<char>>::empty() == views(r@));
    }
    r
}


/// Whether `needle` stands somewhere inside `hay`.
pub open spec fn is_infix_of(needle: Seq<char>, hay: Seq<char>) -> bool {
    exists|i: int| 0 <= i <= hay.len() - needle.len() && #[trigger] hay.subrange(i, i + needle.len()) == needle
}

/// Whether `a` and `b` hold the same text; `==` on strings.
pub(crate) fn same_text(a: &str, b: &str) -> (r: bool)
    ensures
        r == (a@ == b@),
{
    let x = chars_of(a);
    let y = chars_of(b);
    if x.len() != y.len() {
        return false;
    }
    let r = matches_at(&x, 0, &y);
    proof {
        assert(x@.subrange(0, y@.len() as int) =~= x@);
    }
    r
}

/// Whether `chars[at..]` begins with `needle`.
fn matches_at(chars: &Vec<char>, at: usize, needle: &Vec<char>) -> (b: bool)
    requires
        at + needle@.len() <= chars@.len(),
    ensures
        b == (chars@.subrange(at as int, at + needle@.len()) == needle@),
{
    let mut k: usize = 0;
    while k < needle.len()
        invariant
            at + needle@.len() <= chars@.len(),
            chars@.len() == chars.len(),
            k <= needle@.len(),
            forall|m: int| 0 <= m < k ==> chars@[at + m] == needle@[m],
        decreases needle@.len() - k,
    {
        if chars[at + k] != needle[k] {
            assert(chars@.subrange(at as int, at + needle@.len())[k as int] != needle@[k as int]);
            return false;
        }
        k = k + 1;
    }
    assert(chars@.subrange(at as int, at + needle@.len()) =~= needle@);
    true
}

/// Whether `needle` stands inside `hay`; `str::contains` for a string
/// pattern.
pub(crate) fn contains_text(hay: &str, needle: &str) -> (b: bool)
    ensures
        b == is_infix_of(needle@, hay@),
{
    let h = chars_of(hay);
    let n = chars_of(needle);
    if n.len() > h.len() {
        return false;
    }
    let last = h.len() - n.len();
    let mut i: usize = 0;
    loop
        invariant
            h@ == hay@,
            n@ == needle@,
            i <= last,
            last + n@.len() == h@.len(),
            forall|j: int| 0 <= j < i ==> #[trigger] h@.subrange(j, j + n@.len()) != n@,
        decreases last - i,
    {
        if matches_at(&h, i, &n) {
            return true;
        }
        if i == last {
            return false;
        }
        i = i + 1;
    }
}

/// Whether `s` begins with `prefix`; `str::starts_with` for a string
/// pattern.
pub(crate) fn starts_with(s: &str, prefix: &str) -> (b: bool)
    ensures
        b == prefix@.is_prefix_of(s@),
{
    let h = chars_of(s);
    let p = chars_of(prefix);
    if p.len() > h.len() {
        return false;
    }
    let b = matches_at(&h, 0, &p);
    proof {
        if b {
            assert forall|i: int| 0 <= i < p@.len() implies p@[i] == h@[i] by {
                assert(h@.subrange(0, p@.len() as int)[i] == h@[i]);
            }
        } else {
            if prefix@.is_prefix_of(s@) {
                assert(h@.subrange(0, p@.len() as int) =~= p@);
            }
        }
    }
    b
}

/// `s` without `prefix`, when it begins with it; `str::strip_prefix`.
pub(crate) fn strip_prefix(s: &str, prefix: &str) -> (r: Option<String>)
    ensures
        prefix@.is_prefix_of(s@) ==> r is Some && r->0@ == s@.skip(prefix@.len() as int),
        !prefix@.is_prefix_of(s@) ==> r is None,
{
    if starts_with(s, prefix) {
        let h = chars_of(s);
        let p = prefix.unicode_len();
        let mut rest: Vec<char> = Vec::new();
        let mut k = p;
        while k < h.len()
            invariant
                p <= k <= h@.len(),
                rest@ == h@.subrange(p as int, k as int),
            decreases h@.len() - k,
        {
            rest.push(h[k]);
            assert(h@.subrange(p as int, k + 1) == h@.subrange(p as int, k as int).push(h@[k as int]));
            k = k + 1;
        }
        assert(h@.subrange(p as int, h@.len() as int) == h@.skip(p as int));
        Some(string_of(rest.as_slice()))
    } else {
        None
    }
}

/// The decimal digits of `n`, as `Display` writes an unsigned integer.
pub open spec fn decimal(n: nat) -> Seq<char>
    decreases n,
{
    if n < 10 {
        seq![digit_char(n)]
    } else {
        decimal(n / 10).push(digit_char(n % 10))
    }
}

/// The digit character of `d`, for `d` below ten.
pub open spec fn digit_char(d: nat) -> char {
    (48 + d) as char
}

/// `n` written in decimal; `n.to_string()`.
pub(crate) fn decimal_text(n: u64) -> (s: String)
    ensures
        s@ == decimal(n as nat),
    decreases n,
{
    if n < 10 {
        let mut s = String::new();
        push_char(&mut s, (48u8 + n as u8) as char);
        s
    } else {
        let mut s = decimal_text(n / 10);
        push_char(&mut s, (48u8 + (n % 10) as u8) as char);
        s
    }
}


/// The lowercase hexadecimal digit of `d`, for `d` below sixteen.
pub open spec fn hex_lower(d: int) -> char {
    if d < 10 {
        (48 + d) as char
    } else {
        (87 + d) as char
    }
}

/// The uppercase hexadecimal digit of `d`, for `d` below sixteen.
pub open spec fn hex_upper(d: int) -> char {
    if d < 10 {
        (48 + d) as char
    } else {
        (55 + d) as char
    }
}

/// How a JSON string writes `c`: quote and backslash escaped, the named
/// control characters by name, the other controls as `\u00xx`.
pub open spec fn json_escape(c: char) -> Seq<char> {
    if c == '"' {
        seq!['\\', '"']
    } else if c == '\\' {
        seq!['\\', '\\']
    } else if c == '\u{8}' {
        seq!['\\', 'b']
    } else if c == '\u{c}' {
        seq!['\\', 'f']
    } else if c == '\n' {
        seq!['\\', 'n']
    } else if c == '\r' {
        seq!['\\', 'r']
    } else if c == '\t' {
        seq!['\\', 't']
    } else if (c as u32) < 0x20 {
        seq!['\\', 'u', '0', '0', hex_lower(c as int / 16), hex_lower(c as int % 16)]
    } else {
        seq![c]
    }
}

/// The characters of `s`, each as a JSON string writes it.
pub open spec fn json_escaped(s: Seq<char>) -> Seq<char>
    decreases s.len(),
{
    if s.len() == 0 {
        seq![]
    } else {
        json_escape(s[0]) + json_escaped(s.drop_first())
    }
}

/// `s` as a JSON string literal, quotes included.
pub open spec fn json_quoted(s: Seq<char>) -> Seq<char> {
    seq!['"'] + json_escaped(s) + seq!['"']
}

/// `s` as a JSON string literal: serde_json's `Value::String(s).to_string()`,
/// which escapes exactly the quote, the backslash and the control
/// characters, as `json_escape` lists them (its `format_escaped_str`).
#[verifier::external_body]
pub(crate) fn json_string(s: &str) -> (r: String)
    ensures
        r@ == json_quoted(s@),
{
    serde_json::Value::String(s.to_string()).to_string()
}

/// Whether the byte `b` passes a URL unescaped: ASCII letters and digits
/// and `-`, `.`, `_`, `~`.
pub open spec fn url_safe(b: u8) -> bool {
    ||| (48 <= b && b <= 57)
    ||| (65 <= b && b <= 90)
    ||| (97 <= b && b <= 122)
    ||| b == 45
    ||| b == 46
    ||| b == 95
    ||| b == 126
}

/// `bytes` percent-encoded: safe bytes as themselves, every other byte as
/// `%` and two uppercase hexadecimal digits.
pub open spec fn percent_encoded(bytes: Seq<u8>) -> Seq<char>
    decreases bytes.len(),
{
    if bytes.len() == 0 {
        seq![]
    } else {
        let b = bytes[0];
        let head = if url_safe(b) {
            seq![b as char]
        } else {
            seq!['%', hex_upper(b as int / 16), hex_upper(b as int % 16)]
        };
        head + percent_encoded(bytes.drop_first())
    }
}

/// `s` percent-encoded over its UTF-8 bytes: `urlencoding::encode`, which
/// keeps alphanumerics and `-_.~` and writes every other byte as `%XX` in
/// uppercase hexadecimal (its `encode_into` and `to_hex_digit`).
#[verifier::external_body]
pub(crate) fn url_encode(s: &str) -> (r: String)
    ensures
        r@ == percent_encoded(encode_utf8(s@)),
{
    urlencoding::encode(s).into_owned()
}

/// What `String::from_utf8_lossy` makes of `bytes`.
pub uninterp spec fn lossy_text(bytes: Seq<u8>) -> Seq<char>;

/// `bytes` as text, each invalid sequence replaced by U+FFFD:
/// `String::from_utf8_lossy`. Its documentation promises that valid UTF-8
/// decodes unchanged; what it makes of invalid input is named, not stated.
#[verifier::external_body]
pub(crate) fn text_from_bytes(bytes: &[u8]) -> (r: String)
    ensures
        r@ == lossy_text(bytes@),
        valid_utf8(bytes@) ==> r@ == decode_utf8(bytes@),
{
    String::from_utf8_lossy(bytes).into_owned()
}

/// What `str::to_lowercase` makes of `s`.
pub uninterp spec fn lowercase_text(s: Seq<char>) -> Seq<char>;

/// `s` in lowercase by Unicode's rules: `str::to_lowercase`. The mapping is
/// Unicode's table, named here rather than stated.
#[verifier::external_body]
pub(crate) fn lowercase(s: &str) -> (r: String)
    ensures
        r@ == lowercase_text(s@),
{
    s.to_lowercase()
}

/// What `any_ascii::any_ascii` makes of `s`.
pub uninterp spec fn ascii_transliteration(s: Seq<char>) -> Seq<char>;

/// `s` transliterated into ASCII by AnyAscii's tables: `any_ascii::any_ascii`.
/// Its source pushes every ASCII character unchanged and every other one
/// as an ASCII replacement, so the result is ASCII and an ASCII text comes
/// back as itself; the replacements themselves are named, not stated.
#[verifier::external_body]
pub(crate) fn transliterate(s: &str) -> (r: String)
    ensures
        r@ == ascii_transliteration(s@),
        is_ascii_chars(r@),
        is_ascii_chars(s@) ==> r@ == s@,
{
    any_ascii::any_ascii(s)
}


/// JSON texts joined by commas, in order.
pub open spec fn json_joined(parts: Seq<Seq<char>>) -> Seq<char>
    decreases parts.len(),
{
    if parts.len() == 0 {
        seq![]
    } else if parts.len() == 1 {
        parts[0]
    } else {
        json_joined(parts.drop_last()) + seq![','] + parts.last()
    }
}

/// A JSON array of the JSON texts `parts`, written compactly.
pub open spec fn json_array_text(parts: Seq<Seq<char>>) -> Seq<char> {
    seq!['['] + json_joined(parts) + seq![']']
}

/// A JSON array of the JSON texts `parts`, written compactly.
pub(crate) fn json_array(parts: &Vec<String>) -> (r: String)
    ensures
        r@ == json_array_text(views(parts@)),
{
    proof {
        reveal_strlit("[");
        reveal_strlit(",");
        reveal_strlit("]");
    }
    let mut joined = String::new();
    let mut i: usize = 0;
    while i < parts.len()
        invariant
            i <= parts@.len(),
            joined@ == json_joined(views(parts@).take(i as int)),
        decreases parts@.len() - i,
    {
        let ghost t = views(parts@).take(i + 1);
        proof {
            reveal_strlit(",");
            assert(t.drop_last() == views(parts@).take(i as int));
            assert(t.last() == parts@[i as int]@);
        }
        if i > 0 {
            joined.append(",");
            joined.append(parts[i].as_str());
            assert(t.len() == i + 1);
            assert(joined@ == json_joined(t));
        } else {
            joined.append(parts[i].as_str());
            assert(t == seq![parts@[0]@]);
            assert(joined@ == json_joined(t));
        }
        i = i + 1;
    }
    assert(views(parts@).take(parts@.len() as int) == views(parts@));
    let mut r = String::from_str("[");
    r.append(joined.as_str());
    r.append("]");
    r
}

/// The JSON text of an optional string: `null`, or the string's literal.
pub open spec fn json_nullable_text(item: Option<String>) -> Seq<char> {
    match item {
        Some(text) => json_quoted(text@),
        None => seq!['n', 'u', 'l', 'l'],
    }
}

/// The JSON texts of optional strings, in order.
pub open spec fn json_nullable_texts(items: Seq<Option<String>>) -> Seq<Seq<char>> {
    items.map_values(|item: Option<String>| json_nullable_text(item))
}

/// A JSON array of optional strings: `null` for each one missing.
pub(crate) fn json_nullable_array(items: &Vec<Option<String>>) -> (r: String)
    ensures
        r@ == json_array_text(json_nullable_texts(items@)),
{
    proof {
        reveal_strlit("null");
    }
    let mut parts: Vec<String> = Vec::new();
    let mut i: usize = 0;
    while i < items.len()
        invariant
            i <= items@.len(),
            views(parts@) == json_nullable_texts(items@).take(i as int),
        decreases items@.len() - i,
    {
        proof {
            reveal_strlit("null");
        }
        let part = match &items[i] {
            Some(text) => {
                let q = json_string(text.as_str());
                assert(q@ == json_nullable_text(items@[i as int]));
                q
            },
            None => {
                let n = String::from_str("null");
                assert(n@ == json_nullable_text(items@[i as int]));
                n
            },
        };
        let ghost before = parts@;
        parts.push(part);
        assert(views(parts@) == views(before).push(part@));
        assert(json_nullable_texts(items@).take(i + 1) == json_nullable_texts(items@).take(i as int).push(json_nullable_text(items@[i as int])));
        i = i + 1;
    }
    assert(json_nullable_texts(items@).take(items@.len() as int) == json_nullable_texts(items@));
    json_array(&parts)
}

} // verus!
