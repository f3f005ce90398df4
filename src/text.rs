use vstd::prelude::*;

verus! {

/// Space and tab: the characters that separate words on a command line.
pub open spec fn is_blank(c: char) -> bool {
    c == ' ' || c == '\t'
}

pub open spec fn is_ascii_text(s: Seq<char>) -> bool {
    forall|i: int| 0 <= i < s.len() ==> (#[trigger] s[i] as u32) < 128
}

pub open spec fn ascii_upper_char(c: char) -> char {
    if 'a' <= c && c <= 'z' {
        ((c as u32) - 32) as char
    } else {
        c
    }
}

pub open spec fn ascii_upper(s: Seq<char>) -> Seq<char> {
    s.map_values(|c: char| ascii_upper_char(c))
}

/// What `str::to_uppercase` returns for `s`: Unicode's full uppercase mapping.
pub uninterp spec fn upper_of(s: Seq<char>) -> Seq<char>;

/// The uppercase form of `s`. On ASCII text this is the ASCII mapping, which
/// is what Unicode's uppercase mapping gives there; other text goes through
/// the full mapping.
pub open spec fn folded(s: Seq<char>) -> Seq<char> {
    if is_ascii_text(s) {
        ascii_upper(s)
    } else {
        upper_of(s)
    }
}

/// Relies on `String::push`: appends one character.
#[verifier::external_body]
pub(crate) fn push_char(s: &mut String, c: char)
    ensures
        final(s)@ == old(s)@.push(c),
{
    s.push(c)
}

/// Relies on `str::to_uppercase`: the result depends on the characters alone.
#[verifier::external_body]
fn unicode_uppercase(s: &str) -> (r: String)
    ensures
        r@ == upper_of(s@),
{
    s.to_uppercase()
}

/// Whether two texts hold the same characters.
pub fn same_text(a: &str, b: &str) -> (r: bool)
    ensures
        r == (a@ == b@),
{
    let n = a.unicode_len();
    if n != b.unicode_len() {
        return false;
    }
    let mut i: usize = 0;
    while i < n
        invariant
            n == a@.len(),
            n == b@.len(),
            i <= n,
            forall|j: int| 0 <= j < i ==> a@[j] == b@[j],
        decreases n - i,
    {
        if a.get_char(i) != b.get_char(i) {
            return false;
        }
        i += 1;
    }
    assert(a@ =~= b@);
    true
}

/// The uppercase form of `s`, as `folded` states it.
pub fn fold_upper(s: &str) -> (r: String)
    ensures
        r@ == folded(s@),
{
    let n = s.unicode_len();
    let mut ascii = true;
    let mut out = String::new();
    let mut i: usize = 0;
    while ascii && i < n
        invariant
            n == s@.len(),
            i <= n,
            ascii ==> out@ == ascii_upper(s@.subrange(0, i as int)),
            ascii ==> is_ascii_text(s@.subrange(0, i as int)),
            !ascii ==> !is_ascii_text(s@),
        decreases n - i + (if ascii { 1int } else { 0int }),
    {
        let c = s.get_char(i);
        if (c as u32) >= 128 {
            ascii = false;
            assert(!is_ascii_text(s@)) by {
                assert((s@[i as int] as u32) >= 128);
            }
        } else {
            let u = if 'a' <= c && c <= 'z' {
                ((c as u8) - 32) as char
            } else {
                c
            };
            proof {
                assert(u == ascii_upper_char(c)) by {
                    if 'a' <= c && c <= 'z' {
                        assert((c as u8) as u32 == c as u32);
                    }
                }
            }
            push_char(&mut out, u);
            proof {
                assert(s@.subrange(0, i + 1) =~= s@.subrange(0, i as int).push(c));
                assert(ascii_upper(s@.subrange(0, i + 1)) =~= ascii_upper(
                    s@.subrange(0, i as int),
                ).push(u));
            }
            i += 1;
        }
    }
    if ascii {
        assert(s@.subrange(0, n as int) =~= s@);
        out
    } else {
        unicode_uppercase(s)
    }
}

} // verus!
