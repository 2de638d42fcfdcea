use vstd::prelude::*;
use vstd::string::StrSliceExecFns;

verus! {

/// The tokens of `ws` joined with one space between neighbours.
pub open spec fn join_words(ws: Seq<Seq<char>>) -> Seq<char>
    decreases ws.len(),
{
    if ws.len() == 0 {
        Seq::empty()
    } else if ws.len() == 1 {
        ws[0]
    } else {
        join_words(ws.drop_last()) + seq![' '] + ws.last()
    }
}

/// The character view of an optional string.
pub open spec fn opt_view(o: Option<String>) -> Option<Seq<char>> {
    match o {
        Some(s) => Some(s@),
        None => None,
    }
}

/// The character views of a sequence of strings.
pub open spec fn views(v: Seq<String>) -> Seq<Seq<char>> {
    v.map_values(|s: String| s@)
}

/// No token holds a space.
pub open spec fn space_free(ws: Seq<Seq<char>>) -> bool {
    forall|i: int, j: int| 0 <= i < ws.len() && 0 <= j < ws[i].len() ==> ws[i][j] != ' '
}

/// Joins `words` with one space between neighbours.
pub fn join_with_spaces(words: &Vec<String>) -> (r: String)
    ensures
        r@ == join_words(views(words@)),
{
    let mut out = String::new();
    let mut i: usize = 0;
    while i < words.len()
        invariant
            i <= words.len(),
            out@ == join_words(views(words@.subrange(0, i as int))),
        decreases words.len() - i,
    {
        proof {
            assert(views(words@.subrange(0, i + 1)).drop_last() =~= views(words@.subrange(0, i as int)));
        }
        if i > 0 {
            out.append(" ");
        }
        out.append(words[i].as_str());
        proof {
            reveal_strlit(" ");
        }
        i = i + 1;
    }
    assert(words@.subrange(0, words.len() as int) =~= words@);
    out
}

proof fn lemma_join_push(ws: Seq<Seq<char>>, w: Seq<char>)
    requires
        ws.len() > 0,
    ensures
        join_words(ws.push(w)) == join_words(ws) + seq![' '] + w,
{
    assert(ws.push(w).drop_last() =~= ws);
}

proof fn lemma_join_extend_last(ws: Seq<Seq<char>>, c: char)
    requires
        ws.len() > 0,
    ensures
        join_words(ws.drop_last().push(ws.last().push(c))) == join_words(ws).push(c),
    decreases ws.len(),
{
    let ws2 = ws.drop_last().push(ws.last().push(c));
    if ws.len() == 1 {
        assert(ws2.len() == 1);
    } else {
        assert(ws2.drop_last() =~= ws.drop_last());
        assert(join_words(ws2) =~= join_words(ws).push(c));
    }
}

/// Splits `s` at every space, as `str::split(' ')` does: the pieces joined
/// with spaces give `s` back, and no piece holds a space.
pub fn split_on_spaces(s: &str) -> (r: Vec<String>)
    ensures
        r.len() >= 1,
        join_words(views(r@)) == s@,
        space_free(views(r@)),
{
    let n = s.unicode_len();
    let mut pieces: Vec<String> = Vec::new();
    let mut start: usize = 0;
    let mut i: usize = 0;
    while i < n
        invariant
            n == s@.len(),
            start <= i <= n,
            join_words(views(pieces@).push(s@.subrange(start as int, i as int))) == s@.subrange(0, i as int),
            space_free(views(pieces@).push(s@.subrange(start as int, i as int))),
        decreases n - i,
    {
        let c = s.get_char(i);
        let ghost ws = views(pieces@).push(s@.subrange(start as int, i as int));
        if c == ' ' {
            let piece = s.substring_char(start, i).to_owned();
            pieces.push(piece);
            proof {
                assert(views(pieces@) =~= ws);
                lemma_join_push(ws, Seq::empty());
                assert(s@.subrange(i + 1, i + 1) =~= Seq::<char>::empty());
                assert(s@.subrange(0, i + 1) =~= s@.subrange(0, i as int) + seq![' '] + Seq::<char>::empty());
            }
            start = i + 1;
        } else {
            proof {
                lemma_join_extend_last(ws, c);
                assert(s@.subrange(start as int, i + 1) =~= s@.subrange(start as int, i as int).push(c));
                assert(ws.drop_last().push(ws.last().push(c)) =~= views(pieces@).push(s@.subrange(start as int, i + 1)));
                assert(s@.subrange(0, i + 1) =~= s@.subrange(0, i as int).push(c));
            }
        }
        i = i + 1;
    }
    let ghost before = views(pieces@);
    let last = s.substring_char(start, n).to_owned();
    pieces.push(last);
    proof {
        assert(views(pieces@) =~= before.push(s@.subrange(start as int, n as int)));
        assert(s@.subrange(0, n as int) =~= s@);
    }
    pieces
}

/// The decimal digit character for `d`, below ten.
pub open spec fn digit_char(d: nat) -> char {
    if d == 0 { '0' }
    else if d == 1 { '1' }
    else if d == 2 { '2' }
    else if d == 3 { '3' }
    else if d == 4 { '4' }
    else if d == 5 { '5' }
    else if d == 6 { '6' }
    else if d == 7 { '7' }
    else if d == 8 { '8' }
    else { '9' }
}

/// The decimal digits of `n`, most significant first, without leading zeros.
pub open spec fn digits(n: nat) -> Seq<char>
    decreases n,
{
    if n < 10 {
        seq![digit_char(n)]
    } else {
        digits(n / 10).push(digit_char(n % 10))
    }
}

/// The decimal text of an integer, with a leading minus when negative.
pub open spec fn int_text(i: int) -> Seq<char> {
    if i < 0 {
        seq!['-'] + digits((-i) as nat)
    } else {
        digits(i as nat)
    }
}

/// The decimal text of `n` padded with zeros to at least two characters.
pub open spec fn pad2(n: nat) -> Seq<char> {
    if n < 10 {
        seq!['0'] + digits(n)
    } else {
        digits(n)
    }
}

fn digit_str(d: u64) -> (r: &'static str)
    requires
        d < 10,
    ensures
        r@ == seq![digit_char(d as nat)],
{
    if d == 0 {
        proof { reveal_strlit("0"); }
        "0"
    } else if d == 1 {
        proof { reveal_strlit("1"); }
        "1"
    } else if d == 2 {
        proof { reveal_strlit("2"); }
        "2"
    } else if d == 3 {
        proof { reveal_strlit("3"); }
        "3"
    } else if d == 4 {
        proof { reveal_strlit("4"); }
        "4"
    } else if d == 5 {
        proof { reveal_strlit("5"); }
        "5"
    } else if d == 6 {
        proof { reveal_strlit("6"); }
        "6"
    } else if d == 7 {
        proof { reveal_strlit("7"); }
        "7"
    } else if d == 8 {
        proof { reveal_strlit("8"); }
        "8"
    } else {
        proof { reveal_strlit("9"); }
        "9"
    }
}

/// Appends the decimal digits of `n` to `out`.
pub fn push_digits(out: &mut String, n: u64)
    ensures
        final(out)@ == old(out)@ + digits(n as nat),
    decreases n,
{
    if n >= 10 {
        push_digits(out, n / 10);
    }
    out.append(digit_str(n % 10));
    proof {
        if n >= 10 {
            assert(digits(n as nat) == digits((n / 10) as nat).push(digit_char((n % 10) as nat)));
        }
    }
    assert(final(out)@ =~= old(out)@ + digits(n as nat));
}

/// Appends the decimal text of `i` to `out`.
pub fn push_int(out: &mut String, i: i64)
    ensures
        final(out)@ == old(out)@ + int_text(i as int),
{
    if i < 0 {
        out.append("-");
        proof { reveal_strlit("-"); }
        let m: u64 = (0i128 - i as i128) as u64;
        push_digits(out, m);
        assert(final(out)@ =~= old(out)@ + int_text(i as int));
    } else {
        push_digits(out, i as u64);
    }
}

/// Appends the decimal text of `n`, padded with zeros to two characters.
pub fn push_pad2(out: &mut String, n: u32)
    ensures
        final(out)@ == old(out)@ + pad2(n as nat),
{
    if n < 10 {
        out.append("0");
        proof { reveal_strlit("0"); }
    }
    push_digits(out, n as u64);
    assert(final(out)@ =~= old(out)@ + pad2(n as nat));
}

/// `s` holds no `c`.
pub open spec fn free_of(s: Seq<char>, c: char) -> bool {
    forall|i: int| 0 <= i < s.len() ==> s[i] != c
}

proof fn lemma_digit_char_injective(a: nat, b: nat)
    requires
        a < 10,
        b < 10,
        digit_char(a) == digit_char(b),
    ensures
        a == b,
{
}

/// Decimal digits are never empty, take two places from ten on, and hold
/// neither a dot nor a minus.
pub proof fn lemma_digits_shape(n: nat)
    ensures
        digits(n).len() >= 1,
        n >= 10 ==> digits(n).len() >= 2,
        free_of(digits(n), '.'),
        free_of(digits(n), '-'),
    decreases n,
{
    if n >= 10 {
        lemma_digits_shape(n / 10);
    }
}

/// Distinct numbers have distinct decimal digits.
pub proof fn lemma_digits_injective(n: nat, m: nat)
    requires
        digits(n) == digits(m),
    ensures
        n == m,
    decreases n,
{
    lemma_digits_shape(n);
    lemma_digits_shape(m);
    if n < 10 && m < 10 {
        assert(digits(n)[0] == digit_char(n));
        assert(digits(m)[0] == digit_char(m));
        lemma_digit_char_injective(n, m);
    } else if n >= 10 && m >= 10 {
        let dn = digits(n);
        let dm = digits(m);
        assert(dn.last() == digit_char(n % 10));
        assert(dm.last() == digit_char(m % 10));
        lemma_digit_char_injective(n % 10, m % 10);
        assert(dn.drop_last() =~= digits(n / 10));
        assert(dm.drop_last() =~= digits(m / 10));
        lemma_digits_injective(n / 10, m / 10);
        assert(n == 10 * (n / 10) + n % 10);
        assert(m == 10 * (m / 10) + m % 10);
    } else {
        assert(digits(n).len() != digits(m).len());
    }
}

/// The decimal text of an integer holds no dot.
pub proof fn lemma_int_text_dot_free(a: int)
    ensures
        free_of(int_text(a), '.'),
{
    if a < 0 {
        lemma_digits_shape((-a) as nat);
        assert forall|i: int| 0 <= i < int_text(a).len() implies int_text(a)[i] != '.' by {
            if i > 0 {
                assert(int_text(a)[i] == digits((-a) as nat)[i - 1]);
            }
        }
    } else {
        lemma_digits_shape(a as nat);
    }
}

/// Distinct integers have distinct decimal texts.
pub proof fn lemma_int_text_injective(a: int, b: int)
    requires
        int_text(a) == int_text(b),
    ensures
        a == b,
{
    if a < 0 {
        lemma_digits_shape((-a) as nat);
    } else {
        lemma_digits_shape(a as nat);
    }
    if b < 0 {
        lemma_digits_shape((-b) as nat);
    } else {
        lemma_digits_shape(b as nat);
    }
    if a < 0 && b < 0 {
        assert(int_text(a).drop_first() =~= digits((-a) as nat));
        assert(int_text(b).drop_first() =~= digits((-b) as nat));
        lemma_digits_injective((-a) as nat, (-b) as nat);
    } else if a >= 0 && b >= 0 {
        lemma_digits_injective(a as nat, b as nat);
    } else if a < 0 {
        assert(int_text(a)[0] == '-');
        assert(int_text(b)[0] != '-');
    } else {
        assert(int_text(b)[0] == '-');
        assert(int_text(a)[0] != '-');
    }
}

/// Below a hundred, the padded text is exactly the tens and the units digit.
pub proof fn lemma_pad2_shape(n: nat)
    requires
        n < 100,
    ensures
        pad2(n) == seq![digit_char(n / 10), digit_char(n % 10)],
{
    if n >= 10 {
        assert(digits(n) == digits(n / 10).push(digit_char(n % 10)));
        assert(digits(n / 10) == seq![digit_char(n / 10)]);
    }
    assert(pad2(n) =~= seq![digit_char(n / 10), digit_char(n % 10)]);
}

/// Below a hundred, distinct numbers have distinct padded texts.
pub proof fn lemma_pad2_injective(n: nat, m: nat)
    requires
        n < 100,
        m < 100,
        pad2(n) == pad2(m),
    ensures
        n == m,
{
    lemma_pad2_shape(n);
    lemma_pad2_shape(m);
    assert(pad2(n)[0] == pad2(m)[0]);
    assert(pad2(n)[1] == pad2(m)[1]);
    lemma_digit_char_injective(n / 10, m / 10);
    lemma_digit_char_injective(n % 10, m % 10);
}

/// Two texts, each a dot-free head, a dot and a tail, are equal only when
/// the heads and the tails are.
pub proof fn lemma_split_at_dot(x1: Seq<char>, r1: Seq<char>, x2: Seq<char>, r2: Seq<char>)
    requires
        free_of(x1, '.'),
        free_of(x2, '.'),
        x1 + seq!['.'] + r1 == x2 + seq!['.'] + r2,
    ensures
        x1 == x2,
        r1 == r2,
{
    let s1 = x1 + seq!['.'] + r1;
    let s2 = x2 + seq!['.'] + r2;
    if x1.len() < x2.len() {
        assert(s1[x1.len() as int] == '.');
        assert(s2[x1.len() as int] == x2[x1.len() as int]);
    } else if x2.len() < x1.len() {
        assert(s2[x2.len() as int] == '.');
        assert(s1[x2.len() as int] == x1[x2.len() as int]);
    } else {
        assert(x1 =~= s1.subrange(0, x1.len() as int));
        assert(x2 =~= s2.subrange(0, x2.len() as int));
        assert(r1 =~= s1.subrange(x1.len() as int + 1, s1.len() as int));
        assert(r2 =~= s2.subrange(x2.len() as int + 1, s2.len() as int));
    }
}

} // verus!
