use vstd::prelude::*;
use vstd::string::*;

verus! {

/// Relies on `String::push`: the character is appended at the end.
#[verifier::external_body]
pub(crate) fn push_char(s: &mut String, c: char)
    ensures
        final(s)@ == old(s)@.push(c),
{
    s.push(c);
}

/// Unicode `White_Space`, the set `char::is_whitespace` and `str::trim` go by.
pub open spec fn is_whitespace_char(c: char) -> bool {
    let u = c as u32;
    (0x09 <= u <= 0x0d) || u == 0x20 || u == 0x85 || u == 0xa0 || u == 0x1680 || (0x2000 <= u
        <= 0x200a) || u == 0x2028 || u == 0x2029 || u == 0x202f || u == 0x205f || u == 0x3000
}

pub fn is_whitespace(c: char) -> (r: bool)
    ensures
        r == is_whitespace_char(c),
{
    let u = c as u32;
    (0x09 <= u && u <= 0x0d) || u == 0x20 || u == 0x85 || u == 0xa0 || u == 0x1680 || (0x2000
        <= u && u <= 0x200a) || u == 0x2028 || u == 0x2029 || u == 0x202f || u == 0x205f || u
        == 0x3000
}

/// Unicode general category `Cc`, the set `char::is_control` goes by.
pub open spec fn is_control_char(c: char) -> bool {
    let u = c as u32;
    u <= 0x1f || (0x7f <= u <= 0x9f)
}

/// Characters that file names may not hold on common file systems.
pub open spec fn is_reserved_char(c: char) -> bool {
    c == '\\' || c == '/' || c == ':' || c == '*' || c == '?' || c == '"' || c == '<' || c
        == '>' || c == '|'
}

pub open spec fn sanitize_char(c: char) -> char {
    if is_reserved_char(c) || is_control_char(c) {
        '_'
    } else {
        c
    }
}

/// Whether `c` is trimmed from the ends of a file name: a dot or white space.
pub open spec fn trimmed_char(c: char) -> bool {
    c == '.' || is_whitespace_char(c)
}

pub open spec fn strip_front(s: Seq<char>) -> Seq<char>
    decreases s.len(),
{
    if s.len() > 0 && trimmed_char(s[0]) {
        strip_front(s.drop_first())
    } else {
        s
    }
}

pub open spec fn strip_back(s: Seq<char>) -> Seq<char>
    decreases s.len(),
{
    if s.len() > 0 && trimmed_char(s.last()) {
        strip_back(s.drop_last())
    } else {
        s
    }
}

/// `s` without dots and white space at either end.
pub open spec fn trim_edges(s: Seq<char>) -> Seq<char> {
    strip_back(strip_front(s))
}

/// The file name `sanitize_filename` makes of `s`: reserved and control
/// characters replaced by `_`, dots and white space trimmed from both ends,
/// `_` when nothing is left.
pub open spec fn sanitized(s: Seq<char>) -> Seq<char> {
    let t = trim_edges(s.map_values(|c: char| sanitize_char(c)));
    if t.len() == 0 {
        seq!['_']
    } else {
        t
    }
}

/// The characters of `s`, in order.
pub fn chars_of(s: &str) -> (r: Vec<char>)
    ensures
        r@ == s@,
{
    let n = s.unicode_len();
    let mut r: Vec<char> = Vec::with_capacity(n);
    let mut i: usize = 0;
    while i < n
        invariant
            n == s@.len(),
            i <= n,
            r@ == s@.subrange(0, i as int),
        decreases n - i,
    {
        r.push(s.get_char(i));
        i = i + 1;
        assert(r@ =~= s@.subrange(0, i as int));
    }
    assert(r@ =~= s@);
    r
}

/// A string holding the characters of `v`.
pub fn string_of(v: &Vec<char>) -> (r: String)
    ensures
        r@ == v@,
{
    let mut r = String::new();
    let mut i: usize = 0;
    while i < v.len()
        invariant
            i <= v@.len(),
            r@ == v@.subrange(0, i as int),
        decreases v@.len() - i,
    {
        push_char(&mut r, v[i]);
        i = i + 1;
        assert(r@ =~= v@.subrange(0, i as int));
    }
    assert(r@ =~= v@);
    r
}

/// `s` followed by `t`.
pub fn join_str(s: &str, t: &str) -> (r: String)
    ensures
        r@ == s@ + t@,
{
    let mut r = String::from_str(s);
    r.append(t);
    r
}

fn drops(c: char) -> (r: bool)
    ensures
        r == trimmed_char(c),
{
    c == '.' || is_whitespace(c)
}

/// Drops dots and white space at both ends.
pub fn trim_chars(v: &Vec<char>) -> (r: Vec<char>)
    ensures
        r@ == trim_edges(v@),
        r@.len() > 0 ==> !trimmed_char(r@[0]) && !trimmed_char(r@.last()),
{
    let n = v.len();
    let mut a: usize = 0;
    assert(v@.subrange(0, n as int) =~= v@);
    while a < n && drops(v[a])
        invariant
            n == v@.len(),
            a <= n,
            strip_front(v@.subrange(a as int, n as int)) == strip_front(v@),
        decreases n - a,
    {
        assert(v@.subrange(a as int, n as int).drop_first() =~= v@.subrange(a + 1, n as int));
        a = a + 1;
    }
    let mut b: usize = n;
    while b > a && drops(v[b - 1])
        invariant
            n == v@.len(),
            a <= b <= n,
            a < n ==> !trimmed_char(v@[a as int]),
            strip_back(v@.subrange(a as int, b as int)) == trim_edges(v@),
        decreases b - a,
    {
        assert(v@.subrange(a as int, b as int).drop_last() =~= v@.subrange(a as int, b - 1));
        b = b - 1;
    }
    let mut r: Vec<char> = Vec::with_capacity(b - a);
    let mut i: usize = a;
    while i < b
        invariant
            a <= i <= b <= n,
            n == v@.len(),
            r@ == v@.subrange(a as int, i as int),
        decreases b - i,
    {
        r.push(v[i]);
        i = i + 1;
        assert(r@ =~= v@.subrange(a as int, i as int));
    }
    r
}

/// Makes a file name safe to create: reserved and control characters become
/// `_`, dots and white space are trimmed from both ends, and a name left
/// empty becomes `_`. The name is never empty and never ends in a dot or a
/// space.
pub fn sanitize_filename(input: &str) -> (r: String)
    ensures
        r@ == sanitized(input@),
        r@.len() > 0,
        r@.last() != '.',
        r@.last() != ' ',
{
    let cs = chars_of(input);
    let mut replaced: Vec<char> = Vec::with_capacity(cs.len());
    let mut i: usize = 0;
    while i < cs.len()
        invariant
            i <= cs@.len(),
            cs@ == input@,
            replaced@ == input@.subrange(0, i as int).map_values(|c: char| sanitize_char(c)),
        decreases cs@.len() - i,
    {
        let ch = cs[i];
        let u = ch as u32;
        let reserved = ch == '\\' || ch == '/' || ch == ':' || ch == '*' || ch == '?' || ch
            == '"' || ch == '<' || ch == '>' || ch == '|';
        let control = u <= 0x1f || (0x7f <= u && u <= 0x9f);
        if reserved || control {
            replaced.push('_');
        } else {
            replaced.push(ch);
        }
        i = i + 1;
        assert(replaced@ =~= input@.subrange(0, i as int).map_values(
            |c: char| sanitize_char(c),
        ));
    }
    assert(input@.subrange(0, i as int) =~= input@);
    let dotted = trim_chars(&replaced);
    if dotted.len() == 0 {
        let mut r = String::new();
        push_char(&mut r, '_');
        assert(r@ =~= seq!['_']);
        r
    } else {
        string_of(&dotted)
    }
}


/// The decimal digit for `d < 10`.
pub open spec fn digit_char(d: nat) -> char {
    if d == 0 {
        '0'
    } else if d == 1 {
        '1'
    } else if d == 2 {
        '2'
    } else if d == 3 {
        '3'
    } else if d == 4 {
        '4'
    } else if d == 5 {
        '5'
    } else if d == 6 {
        '6'
    } else if d == 7 {
        '7'
    } else if d == 8 {
        '8'
    } else {
        '9'
    }
}

/// `n` written in decimal, without leading zeros.
pub open spec fn decimal(n: nat) -> Seq<char>
    decreases n,
{
    if n < 10 {
        seq![digit_char(n)]
    } else {
        decimal(n / 10).push(digit_char(n % 10))
    }
}

fn digit(d: u64) -> (c: char)
    requires
        d < 10,
    ensures
        c == digit_char(d as nat),
{
    if d == 0 {
        '0'
    } else if d == 1 {
        '1'
    } else if d == 2 {
        '2'
    } else if d == 3 {
        '3'
    } else if d == 4 {
        '4'
    } else if d == 5 {
        '5'
    } else if d == 6 {
        '6'
    } else if d == 7 {
        '7'
    } else if d == 8 {
        '8'
    } else {
        '9'
    }
}

/// Appends `n` in decimal.
pub fn push_decimal(out: &mut String, n: u64)
    ensures
        final(out)@ == old(out)@ + decimal(n as nat),
    decreases n,
{
    if n >= 10 {
        push_decimal(out, n / 10);
    }
    push_char(out, digit(n % 10));
    assert(final(out)@ =~= old(out)@ + decimal(n as nat));
}

/// `host:port`, the form a socket address is written in.
pub fn host_port(host: &str, port: u16) -> (r: String)
    ensures
        r@ == host@ + seq![':'] + decimal(port as nat),
{
    let mut r = String::from_str(host);
    push_char(&mut r, ':');
    push_decimal(&mut r, port as u64);
    assert(r@ =~= host@ + seq![':'] + decimal(port as nat));
    r
}

} // verus!
