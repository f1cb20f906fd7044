//! Character-level helpers: case folding of attribute names, and the
//! decoding of URIs into paths.
use vstd::prelude::*;
use vstd::std_specs::iter::IteratorSpec;

verus! {

/// What `str::to_lowercase` makes of `s`.
pub uninterp spec fn lower_of(s: Seq<char>) -> Seq<char>;

/// Relies on `str::to_lowercase`: the result depends on the characters
/// alone, and the empty string stays empty.
#[verifier::external_body]
pub(crate) fn lowercase(s: &str) -> (r: String)
    ensures
        r@ == lower_of(s@),
        s@.len() == 0 ==> r@.len() == 0,
{
    s.to_lowercase()
}

/// The characters of `s`, in order.
pub fn chars_of(s: &str) -> (r: Vec<char>)
    ensures
        r@ == s@,
{
    broadcast use vstd::string::axiom_spec_iter, vstd::string::next_postcondition;

    let mut it = s.chars();
    let mut out: Vec<char> = Vec::new();
    loop
        invariant
            out@ + it.remaining() == s@,
            it.decrease() is Some,
        decreases it.decrease()->0,
    {
        match it.next() {
            Some(c) => {
                out.push(c);
            },
            None => {
                assert(it.remaining().len() == 0);
                assert(out@ =~= s@);
                return out;
            },
        }
    }
}

/// Relies on `String::from_iter`: the string of the characters `cs` in order.
#[verifier::external_body]
pub(crate) fn string_of(cs: &Vec<char>) -> (r: String)
    ensures
        r@ == cs@,
{
    String::from_iter(cs)
}

/// Whether `s` holds exactly the characters of `lit`.
pub fn text_is(s: &String, lit: &str) -> (r: bool)
    ensures
        r == (s@ == lit@),
{
    let l = lit.to_owned();
    *s == l
}

/// The value of hexadecimal digit `c`, if it is one.
pub open spec fn hex_value(c: char) -> Option<u32> {
    if '0' <= c && c <= '9' {
        Some((c as u32 - '0' as u32) as u32)
    } else if 'a' <= c && c <= 'f' {
        Some((c as u32 - 'a' as u32 + 10) as u32)
    } else if 'A' <= c && c <= 'F' {
        Some((c as u32 - 'A' as u32 + 10) as u32)
    } else {
        None
    }
}

pub fn hex_digit(c: char) -> (r: Option<u32>)
    ensures
        r == hex_value(c),
{
    if '0' <= c && c <= '9' {
        Some(c as u32 - '0' as u32)
    } else if 'a' <= c && c <= 'f' {
        Some(c as u32 - 'a' as u32 + 10)
    } else if 'A' <= c && c <= 'F' {
        Some(c as u32 - 'A' as u32 + 10)
    } else {
        None
    }
}

/// The ASCII character that the escape `%` `h` `l` stands for, if it is one.
pub open spec fn escaped(h: char, l: char) -> Option<char> {
    match (hex_value(h), hex_value(l)) {
        (Some(a), Some(b)) => if a < 8 {
            Some(char_of((a * 16 + b) as u32))
        } else {
            None
        },
        _ => None,
    }
}

/// The character with ASCII code `n`.
pub open spec fn char_of(n: u32) -> char {
    (n as u8) as char
}

/// `s` with each escape `%XY` of an ASCII character replaced by that
/// character; other text, and escapes of non-ASCII bytes, kept as they are.
pub open spec fn percent_decoded(s: Seq<char>) -> Seq<char>
    decreases s.len(),
{
    if s.len() == 0 {
        s
    } else if s.len() >= 3 && s[0] == '%' && escaped(s[1], s[2]) is Some {
        seq![escaped(s[1], s[2]).unwrap()] + percent_decoded(s.subrange(3, s.len() as int))
    } else {
        seq![s[0]] + percent_decoded(s.drop_first())
    }
}

/// The character with ASCII code `n`.
fn ascii_char(n: u32) -> (r: char)
    requires
        n < 128,
    ensures
        r as u32 == n,
        r == char_of(n),
{
    let b = n as u8;
    b as char
}

/// Decodes the escapes `%XY` of ASCII characters in `uri`.
pub fn percent_decode(uri: &str) -> (r: String)
    ensures
        r@ == percent_decoded(uri@),
{
    let cs = chars_of(uri);
    let mut out: Vec<char> = Vec::new();
    let mut i: usize = 0;
    assert(cs@.subrange(0, cs@.len() as int) =~= cs@);
    assert(out@ + percent_decoded(uri@) =~= percent_decoded(uri@));
    while i < cs.len()
        invariant
            0 <= i <= cs@.len(),
            cs@ == uri@,
            out@ + percent_decoded(cs@.subrange(i as int, cs@.len() as int)) == percent_decoded(uri@),
        decreases cs.len() - i,
    {
        let ghost rest = cs@.subrange(i as int, cs@.len() as int);
        let mut step: usize = 1;
        let mut decoded = false;
        if cs[i] == '%' && cs.len() - i > 2 {
            match (hex_digit(cs[i + 1]), hex_digit(cs[i + 2])) {
                (Some(a), Some(b)) => {
                    if a < 8 {
                        let c = ascii_char(a * 16 + b);
                        assert(escaped(rest[1], rest[2]) == Some(c));
                        assert(rest.subrange(3, rest.len() as int) =~= cs@.subrange(
                            i + 3,
                            cs@.len() as int,
                        ));
                        out.push(c);
                        step = 3;
                        decoded = true;
                    }
                },
                _ => {},
            }
        }
        if !decoded {
            assert(rest.drop_first() =~= cs@.subrange(i + 1, cs@.len() as int));
            assert(!(rest.len() >= 3 && rest[0] == '%' && escaped(rest[1], rest[2]) is Some));
            out.push(cs[i]);
        }
        proof {
            assert(out@ + percent_decoded(cs@.subrange(i + step, cs@.len() as int)) =~= percent_decoded(
                uri@,
            ));
        }
        i = i + step;
    }
    assert(cs@.subrange(i as int, cs@.len() as int) =~= Seq::<char>::empty());
    assert(out@ =~= out@ + Seq::<char>::empty());
    string_of(&out)
}

/// Whether `s` starts with the characters of `prefix`.
pub fn has_prefix(s: &Vec<char>, prefix: &Vec<char>) -> (r: bool)
    ensures
        r == (prefix@.len() <= s@.len() && s@.subrange(0, prefix@.len() as int) == prefix@),
{
    if prefix.len() > s.len() {
        return false;
    }
    let mut i: usize = 0;
    while i < prefix.len()
        invariant
            0 <= i <= prefix@.len() <= s@.len(),
            forall|j: int| 0 <= j < i ==> s@[j] == prefix@[j],
        decreases prefix.len() - i,
    {
        if s[i] != prefix[i] {
            assert(s@.subrange(0, prefix@.len() as int)[i as int] != prefix@[i as int]);
            return false;
        }
        i = i + 1;
    }
    assert(s@.subrange(0, prefix@.len() as int) =~= prefix@);
    true
}

/// Whether `uri` holds its data inline (a `data:` URI).
pub fn is_data_uri(uri: &str) -> (r: bool)
    ensures
        r == (5 <= uri@.len() && uri@.subrange(0, 5) == seq!['d', 'a', 't', 'a', ':']),
{
    let cs = chars_of(uri);
    let prefix: Vec<char> = vec!['d', 'a', 't', 'a', ':'];
    assert(prefix@ =~= seq!['d', 'a', 't', 'a', ':']);
    has_prefix(&cs, &prefix)
}

} // verus!
