//! Text helpers: decimal rendering of integers (plain and zero-padded, as the
//! `{}` and `{:0w}` formats render them), comparison and trimming of strings.

use vstd::prelude::*;
use vstd::string::*;

verus! {

/// The character of the decimal digit `d`.
pub open spec fn digit_char(d: int) -> char {
    (48 + d) as char
}

/// The decimal digits of `n`, most significant first, with no leading zeros.
pub open spec fn spec_digits(n: nat) -> Seq<char>
    decreases n,
{
    if n < 10 {
        seq![digit_char(n as int)]
    } else {
        spec_digits(n / 10).push(digit_char((n % 10) as int))
    }
}

/// `n` in decimal, with a minus sign when it is negative.
pub open spec fn spec_decimal(n: int) -> Seq<char> {
    if n < 0 {
        seq!['-'] + spec_digits((-n) as nat)
    } else {
        spec_digits(n as nat)
    }
}

/// `k` zero characters (none when `k` is not positive).
pub open spec fn zeros(k: int) -> Seq<char> {
    Seq::new(if k > 0 { k as nat } else { 0 }, |_i: int| '0')
}

/// `n` in decimal, padded with zeros after the sign to at least `width`
/// characters, the sign included.
pub open spec fn spec_zero_padded(n: int, width: int) -> Seq<char> {
    if n < 0 {
        let d = spec_digits((-n) as nat);
        seq!['-'] + zeros(width - 1 - d.len()) + d
    } else {
        let d = spec_digits(n as nat);
        zeros(width - d.len()) + d
    }
}

/// `String::push`: appends one character.
#[verifier::external_body]
pub(crate) fn push_char(s: &mut String, c: char)
    ensures
        final(s)@ == old(s)@.push(c),
{
    s.push(c);
}

/// Whether `c` has the Unicode `White_Space` property, which is what
/// `char::is_whitespace` tests: tab, line feed, vertical tab, form feed,
/// carriage return, space, next line, no-break space, ogham space mark, the
/// spaces from en quad to hair space, line and paragraph separator, narrow
/// no-break space, medium mathematical space and ideographic space.
pub open spec fn is_white_space(c: char) -> bool {
    let u = c as u32;
    ||| 0x09 <= u <= 0x0D
    ||| u == 0x20
    ||| u == 0x85
    ||| u == 0xA0
    ||| u == 0x1680
    ||| 0x2000 <= u <= 0x200A
    ||| u == 0x2028
    ||| u == 0x2029
    ||| u == 0x202F
    ||| u == 0x205F
    ||| u == 0x3000
}

/// `s` without its leading white space.
pub open spec fn trim_start(s: Seq<char>) -> Seq<char>
    decreases s.len(),
{
    if s.len() > 0 && is_white_space(s[0]) {
        trim_start(s.drop_first())
    } else {
        s
    }
}

/// `s` without its trailing white space.
pub open spec fn trim_end(s: Seq<char>) -> Seq<char>
    decreases s.len(),
{
    if s.len() > 0 && is_white_space(s.last()) {
        trim_end(s.drop_last())
    } else {
        s
    }
}

/// What `str::trim` leaves of a string: the string without its leading and
/// trailing white space.
pub open spec fn spec_trim(s: Seq<char>) -> Seq<char> {
    trim_end(trim_start(s))
}

/// Whether every character of `s` is white space.
pub open spec fn all_white_space(s: Seq<char>) -> bool {
    forall|i: int| 0 <= i < s.len() ==> is_white_space(#[trigger] s[i])
}

/// Whether `s` neither begins nor ends with white space.
pub open spec fn is_trimmed(s: Seq<char>) -> bool {
    s.len() > 0 ==> !is_white_space(s[0]) && !is_white_space(s.last())
}

/// `str::trim`: the string without leading and trailing white space, as
/// `char::is_whitespace` defines it.
#[verifier::external_body]
pub(crate) fn trim_text(s: &str) -> (res: &str)
    ensures
        res@ == spec_trim(s@),
{
    s.trim()
}

fn digit_count(m: u32) -> (res: usize)
    ensures
        res == spec_digits(m as nat).len(),
        1 <= res <= 1 + m / 10,
    decreases m,
{
    if m < 10 {
        1
    } else {
        let rest = digit_count(m / 10);
        assert(2 + (m / 10) / 10 <= 1 + m / 10) by (nonlinear_arith)
            requires
                m >= 10,
        ;
        1 + rest
    }
}

fn push_digits(s: &mut String, m: u32)
    ensures
        final(s)@ == old(s)@ + spec_digits(m as nat),
    decreases m,
{
    if m >= 10 {
        push_digits(s, m / 10);
    }
    let d: u8 = (m % 10) as u8;
    push_char(s, (48u8 + d) as char);
    assert(final(s)@ =~= old(s)@ + spec_digits(m as nat));
}

fn magnitude(n: i32) -> (res: u32)
    ensures
        res as int == if n < 0 { -(n as int) } else { n as int },
{
    if n < 0 {
        (-(n as i64)) as u32
    } else {
        n as u32
    }
}

/// Appends `n` in decimal.
pub fn push_decimal(s: &mut String, n: i32)
    ensures
        final(s)@ == old(s)@ + spec_decimal(n as int),
{
    if n < 0 {
        push_char(s, '-');
    }
    push_digits(s, magnitude(n));
    assert(final(s)@ =~= old(s)@ + spec_decimal(n as int));
}

fn push_zeros(s: &mut String, k: usize)
    ensures
        final(s)@ == old(s)@ + zeros(k as int),
{
    let mut i: usize = 0;
    while i < k
        invariant
            i <= k,
            s@ == old(s)@ + zeros(i as int),
        decreases k - i,
    {
        push_char(s, '0');
        i = i + 1;
        assert(s@ =~= old(s)@ + zeros(i as int));
    }
}

/// Appends `n` in decimal, zero-padded to `width` characters.
pub fn push_zero_padded(s: &mut String, n: i32, width: usize)
    ensures
        final(s)@ == old(s)@ + spec_zero_padded(n as int, width as int),
{
    let m = magnitude(n);
    let count = digit_count(m);
    if n < 0 {
        push_char(s, '-');
        let pad: usize = if width > count + 1 {
            width - count - 1
        } else {
            0
        };
        push_zeros(s, pad);
        assert(zeros(pad as int) =~= zeros(width - 1 - count));
    } else {
        let pad: usize = if width > count {
            width - count
        } else {
            0
        };
        push_zeros(s, pad);
        assert(zeros(pad as int) =~= zeros(width - count));
    }
    push_digits(s, m);
    assert(final(s)@ =~= old(s)@ + spec_zero_padded(n as int, width as int));
}

/// `n` in decimal.
pub fn decimal(n: i32) -> (res: String)
    ensures
        res@ == spec_decimal(n as int),
{
    let mut s = String::new();
    push_decimal(&mut s, n);
    assert(s@ =~= spec_decimal(n as int));
    s
}

/// Whether two strings hold the same characters.
pub fn same_text(a: &str, b: &str) -> (res: bool)
    ensures
        res == (a@ == b@),
{
    let n = a.unicode_len();
    if n != b.unicode_len() {
        return false;
    }
    let mut i: usize = 0;
    while i < n
        invariant
            n == a@.len(),
            n == b@.len(),
            i <= n,
            forall|j: int| 0 <= j < i ==> a@[j] == b@[j],
        decreases n - i,
    {
        if a.get_char(i) != b.get_char(i) {
            return false;
        }
        i = i + 1;
    }
    assert(a@ =~= b@);
    true
}

// ---------------------------------------------------------------------------
// Laws of trimming
// ---------------------------------------------------------------------------

proof fn lemma_trim_start_skips(pre: Seq<char>, t: Seq<char>)
    requires
        all_white_space(pre),
    ensures
        trim_start(pre + t) == trim_start(t),
    decreases pre.len(),
{
    if pre.len() > 0 {
        assert((pre + t)[0] == pre[0]);
        assert((pre + t).drop_first() =~= pre.drop_first() + t);
        lemma_trim_start_skips(pre.drop_first(), t);
    } else {
        assert(pre + t =~= t);
    }
}

proof fn lemma_trim_end_skips(t: Seq<char>, post: Seq<char>)
    requires
        all_white_space(post),
    ensures
        trim_end(t + post) == trim_end(t),
    decreases post.len(),
{
    if post.len() > 0 {
        assert((t + post).last() == post.last());
        assert((t + post).drop_last() =~= t + post.drop_last());
        lemma_trim_end_skips(t, post.drop_last());
    } else {
        assert(t + post =~= t);
    }
}

proof fn lemma_trim_start_shape(s: Seq<char>)
    ensures
        trim_start(s).len() > 0 ==> !is_white_space(trim_start(s)[0]),
        trim_start(s).len() > 0 ==> trim_start(s).last() == s.last(),
        trim_start(s).len() == 0 ==> all_white_space(s),
    decreases s.len(),
{
    if s.len() > 0 && is_white_space(s[0]) {
        lemma_trim_start_shape(s.drop_first());
        if trim_start(s).len() == 0 {
            assert forall|i: int| 0 <= i < s.len() implies is_white_space(#[trigger] s[i]) by {
                if i > 0 {
                    assert(s[i] == s.drop_first()[i - 1]);
                }
            }
        }
    }
}

proof fn lemma_trim_end_shape(s: Seq<char>)
    ensures
        trim_end(s).len() > 0 ==> !is_white_space(trim_end(s).last()),
        trim_end(s).len() > 0 ==> trim_end(s)[0] == s[0],
    decreases s.len(),
{
    if s.len() > 0 && is_white_space(s.last()) {
        lemma_trim_end_shape(s.drop_last());
    }
}

/// White space around a trimmed word is what trimming removes: the word comes
/// back unchanged.
pub proof fn lemma_trim_ignores_padding(pre: Seq<char>, word: Seq<char>, post: Seq<char>)
    requires
        all_white_space(pre),
        all_white_space(post),
        is_trimmed(word),
    ensures
        spec_trim(pre + word + post) == word,
{
    assert(pre + word + post =~= pre + (word + post));
    lemma_trim_start_skips(pre, word + post);
    if word.len() > 0 {
        assert((word + post)[0] == word[0]);
        lemma_trim_end_skips(word, post);
    } else {
        assert(word + post =~= post);
        assert(post =~= Seq::<char>::empty() + post);
        lemma_trim_start_skips(post, Seq::<char>::empty());
        lemma_trim_end_skips(Seq::<char>::empty(), Seq::<char>::empty());
        assert(word =~= Seq::<char>::empty());
    }
}

/// Trimming leaves a string that neither begins nor ends with white space, so
/// trimming twice is trimming once.
pub proof fn lemma_trim_idempotent(s: Seq<char>)
    ensures
        is_trimmed(spec_trim(s)),
        spec_trim(spec_trim(s)) == spec_trim(s),
{
    let t = trim_start(s);
    let r = trim_end(t);
    lemma_trim_start_shape(s);
    lemma_trim_end_shape(t);
    assert(is_trimmed(r));
    lemma_trim_ignores_padding(Seq::<char>::empty(), r, Seq::<char>::empty());
    assert(Seq::<char>::empty() + r + Seq::<char>::empty() =~= r);
}

// ---------------------------------------------------------------------------
// Laws of decimal rendering
// ---------------------------------------------------------------------------

/// The number that a string of decimal digits spells.
pub open spec fn digits_value(s: Seq<char>) -> int
    decreases s.len(),
{
    if s.len() == 0 {
        0
    } else {
        digits_value(s.drop_last()) * 10 + (s.last() as int - 48)
    }
}

/// The digits of `n` are decimal digits that spell `n`, with no leading zero
/// unless `n` is zero.
pub proof fn lemma_digits_spell(n: nat)
    ensures
        digits_value(spec_digits(n)) == n,
        forall|i: int|
            0 <= i < spec_digits(n).len() ==> 48 <= #[trigger] spec_digits(n)[i] as int <= 57,
        spec_digits(n)[0] == '0' ==> n == 0,
        spec_digits(n).len() >= 1,
    decreases n,
{
    if n >= 10 {
        lemma_digits_spell(n / 10);
        let d = spec_digits(n);
        assert(d.drop_last() =~= spec_digits(n / 10));
        assert(d[0] == spec_digits(n / 10)[0]);
        assert(d.last() as int - 48 == n % 10);
        assert((n / 10) * 10 + n % 10 == n) by (nonlinear_arith);
        assert(digits_value(d) == digits_value(d.drop_last()) * 10 + (d.last() as int - 48));
        assert(digits_value(d.drop_last()) == n / 10);
    } else {
        let d = spec_digits(n);
        assert(d.drop_last() =~= Seq::<char>::empty());
        assert(d.last() as int - 48 == n);
        assert(digits_value(d) == digits_value(d.drop_last()) * 10 + (d.last() as int - 48));
    }
}

} // verus!
