//! Text utilities: decimal parsing and formatting, token comparison,
//! underscore decoding, and line tokenization, all specified over `Seq<char>`.

use vstd::prelude::*;
use vstd::string::*;

verus! {

/// A decimal digit character.
pub open spec fn is_digit(c: char) -> bool {
    48 <= c as int <= 57
}

/// The character for a single decimal digit value.
pub open spec fn digit_char(d: int) -> char {
    if d == 0 { '0' }
    else if d == 1 { '1' }
    else if d == 2 { '2' }
    else if d == 3 { '3' }
    else if d == 4 { '4' }
    else if d == 5 { '5' }
    else if d == 6 { '6' }
    else if d == 7 { '7' }
    else if d == 8 { '8' }
    else { '9' }
}

/// Decimal rendering of a natural number, most significant digit first.
pub open spec fn dec_digits(n: nat) -> Seq<char>
    decreases n,
{
    if n < 10 {
        seq![digit_char(n as int)]
    } else {
        dec_digits(n / 10).push(digit_char((n % 10) as int))
    }
}

/// The numeric value of a sequence of digit characters.
pub open spec fn dec_val(s: Seq<char>) -> int
    decreases s.len(),
{
    if s.len() == 0 {
        0
    } else {
        dec_val(s.drop_last()) * 10 + (s.last() as int - 48)
    }
}

pub open spec fn all_digits(s: Seq<char>) -> bool {
    forall|i: int| 0 <= i < s.len() ==> is_digit(#[trigger] s[i])
}

/// What parsing a decimal token as a `u64` yields: the value exactly when the
/// token is nonempty, all digits, and the value fits.
pub open spec fn parse_u64_v(s: Seq<char>) -> Option<u64> {
    if s.len() > 0 && all_digits(s) && dec_val(s) <= u64::MAX {
        Some(dec_val(s) as u64)
    } else {
        None
    }
}

proof fn lemma_all_digits_prefix(s: Seq<char>, i: int)
    requires
        all_digits(s),
        0 <= i <= s.len(),
    ensures
        all_digits(s.take(i)),
{
}

proof fn lemma_dec_val_nonneg(s: Seq<char>)
    requires
        all_digits(s),
    ensures
        dec_val(s) >= 0,
    decreases s.len(),
{
    if s.len() > 0 {
        assert(all_digits(s.drop_last()));
        lemma_dec_val_nonneg(s.drop_last());
    }
}

proof fn lemma_dec_val_unfold(s: Seq<char>, i: int)
    requires
        0 <= i < s.len(),
    ensures
        dec_val(s.take(i + 1)) == dec_val(s.take(i)) * 10 + (s[i] as int - 48),
{
    assert(s.take(i + 1).drop_last() =~= s.take(i));
    assert(s.take(i + 1).last() == s[i]);
}

/// Once a digit prefix exceeds any bound, the whole digit string does too.
proof fn lemma_dec_val_prefix_le(s: Seq<char>, i: int)
    requires
        all_digits(s),
        0 <= i <= s.len(),
    ensures
        dec_val(s.take(i)) <= dec_val(s),
    decreases s.len() - i,
{
    if i < s.len() {
        lemma_dec_val_unfold(s, i);
        lemma_all_digits_prefix(s, i);
        lemma_dec_val_nonneg(s.take(i));
        lemma_dec_val_prefix_le(s, i + 1);
    } else {
        assert(s.take(i) =~= s);
    }
}

/// Parses a decimal `u64`, rejecting empty text, non-digits, and overflow.
pub fn parse_u64(s: &str) -> (r: Option<u64>)
    ensures
        r == parse_u64_v(s@),
{
    let n = s.unicode_len();
    if n == 0 {
        return None;
    }
    let mut acc: u64 = 0;
    let mut i: usize = 0;
    while i < n
        invariant
            0 <= i <= n,
            n == s@.len(),
            all_digits(s@.take(i as int)),
            acc == dec_val(s@.take(i as int)),
        decreases n - i,
    {
        let c = s.get_char(i);
        let u = c as u32;
        if u < 48 || u > 57 {
            assert(!is_digit(s@[i as int]));
            return None;
        }
        let d = (u - 48) as u64;
        proof {
            lemma_dec_val_unfold(s@, i as int);
            assert(all_digits(s@.take(i as int + 1)));
        }
        let m = match acc.checked_mul(10) {
            Some(m) => m,
            None => {
                proof {
                    if all_digits(s@) {
                        lemma_dec_val_prefix_le(s@, i as int + 1);
                    }
                }
                return None;
            }
        };
        acc = match m.checked_add(d) {
            Some(v) => v,
            None => {
                proof {
                    if all_digits(s@) {
                        lemma_dec_val_prefix_le(s@, i as int + 1);
                    }
                }
                return None;
            }
        };
        i += 1;
    }
    assert(s@.take(n as int) =~= s@);
    Some(acc)
}


/// Relies on `String::push`: appends exactly the given character.
#[verifier::external_body]
pub fn push_char(s: &mut String, c: char)
    ensures
        final(s)@ == old(s)@.push(c),
{
    s.push(c);
}

fn digit_to_char(d: u64) -> (c: char)
    requires
        d < 10,
    ensures
        c == digit_char(d as int),
{
    match d {
        0 => '0',
        1 => '1',
        2 => '2',
        3 => '3',
        4 => '4',
        5 => '5',
        6 => '6',
        7 => '7',
        8 => '8',
        _ => '9',
    }
}

/// Renders a `u64` in decimal.
pub fn fmt_u64(n: u64) -> (r: String)
    ensures
        r@ == dec_digits(n as nat),
    decreases n,
{
    if n < 10 {
        let mut r = String::new();
        push_char(&mut r, digit_to_char(n));
        proof {
            assert(r@ =~= dec_digits(n as nat));
        }
        r
    } else {
        let mut r = fmt_u64(n / 10);
        push_char(&mut r, digit_to_char(n % 10));
        r
    }
}

/// Whether the text equals the given literal, decided character by character.
pub fn text_eq(t: &String, s: &str) -> (r: bool)
    ensures
        r == (t@ == s@),
{
    let n = t.as_str().unicode_len();
    let m = s.unicode_len();
    if n != m {
        return false;
    }
    let mut i: usize = 0;
    while i < n
        invariant
            0 <= i <= n,
            n == t@.len(),
            n == s@.len(),
            forall|j: int| 0 <= j < i ==> t@[j] == s@[j],
        decreases n - i,
    {
        if t.as_str().get_char(i) != s.get_char(i) {
            return false;
        }
        i += 1;
    }
    proof {
        assert(t@ =~= s@);
    }
    true
}

/// Underscore-to-space decoding for string-valued flags.
pub open spec fn decode_v(s: Seq<char>) -> Seq<char> {
    s.map_values(|c: char| if c == '_' { ' ' } else { c })
}

pub fn decode_underscores(s: &String) -> (r: String)
    ensures
        r@ == decode_v(s@),
{
    let n = s.as_str().unicode_len();
    let mut r = String::new();
    let mut i: usize = 0;
    while i < n
        invariant
            0 <= i <= n,
            n == s@.len(),
            r@ == decode_v(s@.take(i as int)),
        decreases n - i,
    {
        let c = s.as_str().get_char(i);
        if c == '_' {
            push_char(&mut r, ' ');
        } else {
            push_char(&mut r, c);
        }
        proof {
            assert(decode_v(s@.take(i + 1)) =~= decode_v(s@.take(i as int)).push(
                if s@[i as int] == '_' { ' ' } else { s@[i as int] },
            ));
        }
        i += 1;
    }
    proof {
        assert(s@.take(n as int) =~= s@);
    }
    r
}


/// The views of a sequence of owned strings.
pub open spec fn views_of(s: Seq<String>) -> Seq<Seq<char>> {
    s.map_values(|x: String| x@)
}

/// Tokenization state: the input still to scan and the token being built.
pub open spec fn toks(s: Seq<char>, cur: Seq<char>) -> Seq<Seq<char>>
    decreases s.len(),
{
    if s.len() == 0 {
        if cur.len() == 0 { Seq::empty() } else { seq![cur] }
    } else if s[0] == ' ' {
        if cur.len() == 0 {
            toks(s.drop_first(), Seq::empty())
        } else {
            seq![cur] + toks(s.drop_first(), Seq::empty())
        }
    } else {
        toks(s.drop_first(), cur.push(s[0]))
    }
}

/// The whitespace-separated tokens of a line.
pub open spec fn tokens_of(s: Seq<char>) -> Seq<Seq<char>> {
    toks(s, Seq::empty())
}

/// Splits a line into tokens at spaces; runs of spaces yield no empty tokens.
pub fn tokenize(line: &String) -> (r: Vec<String>)
    ensures
        views_of(r@) == tokens_of(line@),
{
    let n = line.as_str().unicode_len();
    let mut r: Vec<String> = Vec::new();
    let mut cur = String::new();
    proof {
        assert(views_of(r@) =~= Seq::<Seq<char>>::empty());
        assert(line@.skip(0) =~= line@);
        assert(views_of(r@) + toks(line@.skip(0), cur@) =~= tokens_of(line@));
    }
    let mut i: usize = 0;
    while i < n
        invariant
            0 <= i <= n,
            n == line@.len(),
            tokens_of(line@) == views_of(r@) + toks(line@.skip(i as int), cur@),
        decreases n - i,
    {
        let c = line.as_str().get_char(i);
        let ghost pre_r = r@;
        let ghost pre_cur = cur@;
        proof {
            assert(line@.skip(i as int)[0] == line@[i as int]);
            assert(line@.skip(i as int).drop_first() =~= line@.skip(i + 1));
        }
        if c == ' ' {
            if !cur.as_str().is_empty() {
                r.push(cur);
                cur = String::new();
                proof {
                    assert(toks(line@.skip(i as int), pre_cur) == seq![pre_cur] + toks(
                        line@.skip(i + 1),
                        Seq::<char>::empty(),
                    ));
                    assert(views_of(r@) =~= views_of(pre_r).push(pre_cur));
                    assert(cur@ =~= Seq::<char>::empty());
                    assert(views_of(pre_r) + (seq![pre_cur] + toks(line@.skip(i + 1), cur@))
                        =~= views_of(r@) + toks(line@.skip(i + 1), cur@));
                }
            } else {
                proof {
                    assert(cur@ =~= Seq::<char>::empty());
                    assert(toks(line@.skip(i as int), pre_cur) == toks(
                        line@.skip(i + 1),
                        Seq::<char>::empty(),
                    ));
                }
            }
        } else {
            push_char(&mut cur, c);
            proof {
                assert(toks(line@.skip(i as int), pre_cur) == toks(line@.skip(i + 1), cur@));
                assert(tokens_of(line@) =~= views_of(r@) + toks(line@.skip(i + 1), cur@));
            }
        }
        i += 1;
    }
    proof {
        assert(line@.skip(n as int) =~= Seq::<char>::empty());
    }
    if !cur.as_str().is_empty() {
        let ghost pre_r = r@;
        let ghost pre_cur = cur@;
        r.push(cur);
        proof {
            assert(toks(Seq::<char>::empty(), pre_cur) == seq![pre_cur]);
            assert(views_of(r@) =~= views_of(pre_r).push(pre_cur));
            assert(views_of(pre_r) + seq![pre_cur] =~= views_of(r@));
        }
    } else {
        proof {
            assert(toks(Seq::<char>::empty(), cur@) =~= Seq::<Seq<char>>::empty());
            assert(views_of(r@) + Seq::<Seq<char>>::empty() =~= views_of(r@));
        }
    }
    r
}


/// One command flag: a name, optionally with a value.
pub struct Flag {
    pub name: String,
    pub value: Option<String>,
}

/// The mathematical form of a flag.
pub ghost struct FlagV {
    pub name: Seq<char>,
    pub value: Option<Seq<char>>,
}

impl View for Flag {
    type V = FlagV;

    open spec fn view(&self) -> FlagV {
        FlagV {
            name: self.name@,
            value: match self.value {
                Some(v) => Some(v@),
                None => None,
            },
        }
    }
}

/// Splits text at its first `=`: the part before, and what follows if any.
pub open spec fn split_eq(s: Seq<char>) -> (Seq<char>, Option<Seq<char>>)
    decreases s.len(),
{
    if s.len() == 0 {
        (s, None)
    } else if s[0] == '=' {
        (Seq::empty(), Some(s.drop_first()))
    } else {
        let (n, v) = split_eq(s.drop_first());
        (seq![s[0]] + n, v)
    }
}

/// The flag a token denotes: `--name` or `--name=value`, else nothing.
pub open spec fn flag_of(t: Seq<char>) -> Option<FlagV> {
    if t.len() >= 2 && t[0] == '-' && t[1] == '-' {
        Some(FlagV { name: split_eq(t.skip(2)).0, value: split_eq(t.skip(2)).1 })
    } else {
        None
    }
}

proof fn lemma_split_eq_at(s: Seq<char>, k: int)
    requires
        0 <= k <= s.len(),
        forall|j: int| 0 <= j < k ==> s[j] != '=',
        k < s.len() ==> s[k] == '=',
    ensures
        k < s.len() ==> split_eq(s) == (s.take(k), Some(s.skip(k + 1))),
        k == s.len() ==> split_eq(s) == (s, None::<Seq<char>>),
    decreases k,
{
    if s.len() == 0 {
    } else if k == 0 {
        if k < s.len() {
            assert(split_eq(s).0 =~= s.take(0));
            assert(split_eq(s).1 == Some(s.skip(1)));
        }
    } else {
        let d = s.drop_first();
        assert(forall|j: int| 0 <= j < k - 1 ==> d[j] != '=');
        lemma_split_eq_at(d, k - 1);
        if k < s.len() {
            assert(seq![s[0]] + d.take(k - 1) =~= s.take(k));
            assert(d.skip(k) =~= s.skip(k + 1));
        } else {
            assert(seq![s[0]] + d =~= s);
        }
    }
}

/// Reads a token as a flag; tokens not starting with `--` are not flags.
pub fn parse_flag(t: &String) -> (r: Option<Flag>)
    ensures
        match r {
            Some(f) => flag_of(t@) == Some(f@),
            None => flag_of(t@) is None,
        },
{
    let n = t.as_str().unicode_len();
    if n < 2 {
        return None;
    }
    let c0 = t.as_str().get_char(0);
    let c1 = t.as_str().get_char(1);
    if c0 != '-' || c1 != '-' {
        return None;
    }
    let ghost body = t@.skip(2);
    let mut k: usize = 2;
    while k < n
        invariant
            2 <= k <= n,
            n == t@.len(),
            t@[0] == '-',
            t@[1] == '-',
            body == t@.skip(2),
            forall|j: int| 0 <= j < k - 2 ==> body[j] != '=',
        decreases n - k,
    {
        if t.as_str().get_char(k) == '=' {
            proof {
                assert(body[k - 2] == t@[k as int]);
                lemma_split_eq_at(body, k - 2);
                assert(body.take(k - 2) =~= t@.subrange(2, k as int));
                assert(body.skip(k - 1) =~= t@.subrange(k + 1, n as int));
            }
            let name = t.as_str().substring_char(2, k).to_owned();
            let value = t.as_str().substring_char(k + 1, n).to_owned();
            proof {
                assert(t@.len() >= 2);
                assert(t@[0] == '-');
                assert(t@[1] == '-');
                assert(flag_of(t@) is Some);
                assert(flag_of(t@).unwrap().name == name@);
                assert(flag_of(t@).unwrap().value == Some(value@));
            }
            return Some(Flag { name, value: Some(value) });
        }
        proof {
            assert(body[k - 2] == t@[k as int]);
        }
        k += 1;
    }
    proof {
        lemma_split_eq_at(body, n - 2);
        assert(body =~= t@.subrange(2, n as int));
    }
    let name = t.as_str().substring_char(2, n).to_owned();
    Some(Flag { name, value: None })
}


/// The view of an optional owned string.
pub open spec fn opt_view(o: Option<String>) -> Option<Seq<char>> {
    match o {
        Some(s) => Some(s@),
        None => None,
    }
}

/// Relates a prefix of length `i + 1` to the prefix one shorter.
pub proof fn lemma_take_push<A>(s: Seq<A>, i: int)
    requires
        0 <= i < s.len(),
    ensures
        s.take(i + 1).drop_last() =~= s.take(i),
        s.take(i + 1).last() == s[i],
{
}

} // verus!
