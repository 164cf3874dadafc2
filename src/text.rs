use vstd::prelude::*;
use vstd::string::*;

verus! {

/// The characters that carry the Unicode White_Space property.
pub open spec fn is_white(c: char) -> bool {
    let u = c as u32;
    (0x9 <= u && u <= 0xd) || u == 0x20 || u == 0x85 || u == 0xa0 || u == 0x1680
        || (0x2000 <= u && u <= 0x200a) || u == 0x2028 || u == 0x2029 || u == 0x202f
        || u == 0x205f || u == 0x3000
}

/// Whether `c` is a white-space character.
pub fn white_space(c: char) -> (r: bool)
    ensures
        r == is_white(c),
{
    let u = c as u32;
    (0x9 <= u && u <= 0xd) || u == 0x20 || u == 0x85 || u == 0xa0 || u == 0x1680
        || (0x2000 <= u && u <= 0x200a) || u == 0x2028 || u == 0x2029 || u == 0x202f
        || u == 0x205f || u == 0x3000
}

/// Length of the run of non-white characters at the start of `s`.
pub open spec fn word_len(s: Seq<char>) -> nat
    decreases s.len(),
{
    if s.len() == 0 || is_white(s[0]) {
        0
    } else {
        1 + word_len(s.drop_first())
    }
}

/// The maximal runs of non-white characters of `s`, in order.
pub open spec fn words(s: Seq<char>) -> Seq<Seq<char>>
    decreases s.len(),
    via words_decreases
{
    if s.len() == 0 {
        seq![]
    } else if is_white(s[0]) {
        words(s.drop_first())
    } else {
        let n = word_len(s);
        seq![s.take(n as int)] + words(s.skip(n as int))
    }
}

#[via_fn]
proof fn words_decreases(s: Seq<char>) {
    if s.len() != 0 && !is_white(s[0]) {
        word_len_bound(s);
    }
}

proof fn word_len_bound(s: Seq<char>)
    ensures
        word_len(s) <= s.len(),
        word_len(s) > 0 ==> !is_white(s[0]),
    decreases s.len(),
{
    if s.len() > 0 && !is_white(s[0]) {
        word_len_bound(s.drop_first());
    }
}

/// Within a word the length measured from one position is one more than
/// from the next.
proof fn word_len_step(s: Seq<char>, i: int, j: int)
    requires
        0 <= i <= j < s.len(),
        forall|k: int| i <= k < j ==> !is_white(#[trigger] s[k]),
    ensures
        word_len(s.skip(i)) == (j - i) + word_len(s.skip(j)),
    decreases j - i,
{
    if i < j {
        assert(s.skip(i).drop_first() =~= s.skip(i + 1));
        assert(s.skip(i)[0] == s[i]);
        word_len_step(s, i + 1, j);
    }
}

/// Splits `text` at white space into its words.
pub fn split_words(text: &str) -> (r: Vec<String>)
    ensures
        r.deep_view() == words(text@),
{
    let n = text.unicode_len();
    let mut out: Vec<String> = Vec::new();
    let mut i: usize = 0;
    assert(text@.skip(0) =~= text@);
    while i < n
        invariant
            n == text@.len(),
            i <= n,
            words(text@) == out.deep_view() + words(text@.skip(i as int)),
        decreases n - i,
    {
        let c = text.get_char(i);
        let rest = Ghost(text@.skip(i as int));
        assert(rest@[0] == c);
        if white_space(c) {
            assert(rest@.drop_first() =~= text@.skip(i + 1));
            i = i + 1;
        } else {
            let mut j: usize = i + 1;
            while j < n && !white_space(text.get_char(j))
                invariant
                    n == text@.len(),
                    i < j <= n,
                    forall|k: int| i <= k < j ==> !is_white(#[trigger] text@[k]),
                decreases n - j,
            {
                j = j + 1;
            }
            proof {
                if j < n {
                    word_len_step(text@, i as int, j as int);
                    assert(text@.skip(j as int)[0] == text@[j as int]);
                    assert(word_len(text@.skip(j as int)) == 0);
                } else {
                    word_len_step(text@, i as int, n - 1);
                    let last = text@.skip(n - 1);
                    assert(last[0] == text@[n - 1]);
                    assert(!is_white(text@[n - 1]));
                    assert(last.drop_first().len() == 0);
                    assert(word_len(last.drop_first()) == 0);
                    assert(word_len(last) == 1);
                }
                assert(word_len(rest@) == j - i);
                assert(rest@.take((j - i) as int) =~= text@.subrange(i as int, j as int));
                assert(rest@.skip((j - i) as int) =~= text@.skip(j as int));
            }
            let w = String::from_str(text.substring_char(i, j));
            let ghost before = out.deep_view();
            out.push(w);
            assert(out.deep_view() =~= before + seq![w@]);
            i = j;
        }
    }
    assert(text@.skip(n as int).len() == 0);
    assert(out.deep_view() + seq![] =~= out.deep_view());
    out
}

/// The character of a decimal digit.
pub open spec fn digit_char(d: nat) -> char {
    if d == 0 {
        '0'
    } else if d == 1 {
        '1'
    } else if d == 2 {
        '2'
    } else if d == 3 {
        '3'
    } else if d == 4 {
        '4'
    } else if d == 5 {
        '5'
    } else if d == 6 {
        '6'
    } else if d == 7 {
        '7'
    } else if d == 8 {
        '8'
    } else {
        '9'
    }
}

/// The decimal notation of `n`: no sign, no leading zero.
pub open spec fn decimal(n: nat) -> Seq<char>
    decreases n,
{
    if n < 10 {
        seq![digit_char(n)]
    } else {
        decimal(n / 10).push(digit_char(n % 10))
    }
}

fn digit_str(d: u64) -> (r: &'static str)
    requires
        d < 10,
    ensures
        r@ == seq![digit_char(d as nat)],
{
    if d == 0 {
        proof { reveal_strlit("0"); }
        "0"
    } else if d == 1 {
        proof { reveal_strlit("1"); }
        "1"
    } else if d == 2 {
        proof { reveal_strlit("2"); }
        "2"
    } else if d == 3 {
        proof { reveal_strlit("3"); }
        "3"
    } else if d == 4 {
        proof { reveal_strlit("4"); }
        "4"
    } else if d == 5 {
        proof { reveal_strlit("5"); }
        "5"
    } else if d == 6 {
        proof { reveal_strlit("6"); }
        "6"
    } else if d == 7 {
        proof { reveal_strlit("7"); }
        "7"
    } else if d == 8 {
        proof { reveal_strlit("8"); }
        "8"
    } else {
        proof { reveal_strlit("9"); }
        "9"
    }
}

/// `n` written in decimal.
pub fn decimal_string(n: u64) -> (r: String)
    ensures
        r@ == decimal(n as nat),
    decreases n,
{
    if n < 10 {
        String::from_str(digit_str(n))
    } else {
        let mut s = decimal_string(n / 10);
        s.append(digit_str(n % 10));
        s
    }
}

/// Whether `w` is a non-empty run of non-white characters.
pub open spec fn is_word(w: Seq<char>) -> bool {
    w.len() > 0 && forall|i: int| 0 <= i < w.len() ==> !is_white(#[trigger] w[i])
}

proof fn word_len_of_word(w: Seq<char>, rest: Seq<char>)
    requires
        forall|i: int| 0 <= i < w.len() ==> !is_white(#[trigger] w[i]),
        rest.len() == 0 || is_white(rest[0]),
    ensures
        word_len(w + rest) == w.len(),
    decreases w.len(),
{
    if w.len() > 0 {
        assert((w + rest)[0] == w[0]);
        assert((w + rest).drop_first() =~= w.drop_first() + rest);
        assert forall|i: int| 0 <= i < w.drop_first().len() implies !is_white(
            #[trigger] w.drop_first()[i],
        ) by {
            assert(w.drop_first()[i] == w[i + 1]);
        }
        word_len_of_word(w.drop_first(), rest);
    } else {
        assert(w + rest =~= rest);
    }
}

proof fn words_of_word_then(w: Seq<char>, rest: Seq<char>)
    requires
        is_word(w),
        rest.len() == 0 || is_white(rest[0]),
    ensures
        words(w + rest) == seq![w] + words(rest),
{
    let s = w + rest;
    word_len_of_word(w, rest);
    assert(s[0] == w[0]);
    assert(s.take(w.len() as int) =~= w);
    assert(s.skip(w.len() as int) =~= rest);
}

proof fn words_after_space(rest: Seq<char>)
    ensures
        words(seq![' '] + rest) == words(rest),
{
    let s = seq![' '] + rest;
    assert(is_white(s[0]));
    assert(s.drop_first() =~= rest);
}

/// Three words joined by single spaces split back into exactly those three
/// words, whatever each of them holds: what one field says never moves or
/// changes another.
pub proof fn three_words(a: Seq<char>, x: Seq<char>, c: Seq<char>)
    requires
        is_word(a),
        is_word(x),
        is_word(c),
    ensures
        words(a + seq![' '] + x + seq![' '] + c) == seq![a, x, c],
{
    let sp = seq![' '];
    let tail = sp + c;
    let mid = sp + x + tail;
    words_of_word_then(c, seq![]);
    assert(c + seq![] =~= c);
    assert(words(Seq::<char>::empty()) == Seq::<Seq<char>>::empty());
    assert(seq![c] + Seq::<Seq<char>>::empty() =~= seq![c]);
    words_after_space(c);
    assert(tail[0] == ' ');
    words_of_word_then(x, tail);
    words_after_space(x + tail);
    assert(sp + (x + tail) =~= mid);
    assert(mid[0] == ' ');
    words_of_word_then(a, mid);
    assert(a + mid =~= a + seq![' '] + x + seq![' '] + c);
    assert(seq![a] + (seq![x] + seq![c]) =~= seq![a, x, c]);
}

} // verus!
