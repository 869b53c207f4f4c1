//! What holds of the operations on texts.

use vstd::prelude::*;
use vstd::string::*;

use crate::text;

verus! {

/// The white space that is trimmed and split at is that of Unicode: the ASCII controls from tab to
/// carriage return, the space, the next line, the no-break space and the wider spaces.
pub proof fn law_white_space(c: char, r: bool)
    requires
        call_ensures(text::is_whitespace, (c,), r),
    ensures
        r <==> {
            ||| '\t' <= c <= '\r'
            ||| c == ' '
            ||| c == '\u{85}'
            ||| c == '\u{a0}'
            ||| c == '\u{1680}'
            ||| '\u{2000}' <= c <= '\u{200a}'
            ||| c == '\u{2028}'
            ||| c == '\u{2029}'
            ||| c == '\u{202f}'
            ||| c == '\u{205f}'
            ||| c == '\u{3000}'
        },
        r == text::is_white_space(c),
{
}

proof fn lemma_trim_start(s: Seq<char>) -> (a: int)
    ensures
        0 <= a <= s.len(),
        text::trim_start_of(s) == s.skip(a),
        forall|i: int| 0 <= i < a ==> text::is_white_space(#[trigger] s[i]),
        a < s.len() ==> !text::is_white_space(s[a]),
    decreases s.len(),
{
    if s.len() > 0 && text::is_white_space(s[0]) {
        let rest = s.skip(1);
        let b = lemma_trim_start(rest);
        assert(rest.skip(b) =~= s.skip(b + 1));
        assert forall|i: int| 0 <= i < b + 1 implies text::is_white_space(#[trigger] s[i]) by {
            if i > 0 {
                assert(rest[i - 1] == s[i]);
            }
        }
        b + 1
    } else {
        assert(s.skip(0) =~= s);
        0
    }
}

proof fn lemma_trim_end(s: Seq<char>) -> (b: int)
    ensures
        0 <= b <= s.len(),
        text::trim_end_of(s) == s.take(b),
        forall|i: int| b <= i < s.len() ==> text::is_white_space(#[trigger] s[i]),
        0 < b ==> !text::is_white_space(s[b - 1]),
    decreases s.len(),
{
    if s.len() > 0 && text::is_white_space(s.last()) {
        let rest = s.drop_last();
        let b = lemma_trim_end(rest);
        assert(rest.take(b) =~= s.take(b));
        assert forall|i: int| b <= i < s.len() implies text::is_white_space(#[trigger] s[i]) by {
            if i < rest.len() {
                assert(rest[i] == s[i]);
            }
        }
        b
    } else {
        assert(s.take(s.len() as int) =~= s);
        s.len() as int
    }
}

/// A place where a trimmed text lies in the whole: what stands around it is white space, and it
/// neither begins nor ends with any.
pub open spec fn is_core(s: Seq<char>, a: int, b: int) -> bool {
    &&& 0 <= a <= b <= s.len()
    &&& forall|i: int| 0 <= i < a ==> text::is_white_space(#[trigger] s[i])
    &&& forall|i: int| b <= i < s.len() ==> text::is_white_space(#[trigger] s[i])
    &&& a < b ==> !text::is_white_space(s[a]) && !text::is_white_space(s[b - 1])
}

/// Trimming keeps a stretch of the text unchanged and drops only the white space around it, all of
/// it.
pub proof fn law_trimming_keeps_the_core(s: &str, r: &str)
    requires
        call_ensures(text::trim, (s,), r),
    ensures
        exists|a: int, b: int| #[trigger] is_core(s@, a, b) && r@ == s@.subrange(a, b),
        r@ == text::trimmed(s@),
{
    lemma_core(s@);
}

/// Where the trimmed text lies in the whole.
pub proof fn lemma_core(s: Seq<char>)
    ensures
        exists|a: int, b: int| #[trigger] is_core(s, a, b) && text::trimmed(s) == s.subrange(a, b),
{
    let a = lemma_trim_start(s);
    let t = s.skip(a);
    let n = lemma_trim_end(t);
    let b = a + n;
    assert forall|i: int| b <= i < s.len() implies text::is_white_space(#[trigger] s[i]) by {
        assert(t[i - a] == s[i]);
    }
    if a < b {
        assert(t[n - 1] == s[b - 1]);
    }
    assert(t.take(n) =~= s.subrange(a, b));
    assert(is_core(s, a, b));
}

/// A text is blank exactly where each of its characters is white space.
pub proof fn law_blank_is_all_white(s: &str, r: bool)
    requires
        call_ensures(text::blank, (s,), r),
    ensures
        r <==> forall|i: int| 0 <= i < s@.len() ==> text::is_white_space(#[trigger] s@[i]),
        r <==> text::trimmed(s@) == Seq::<char>::empty(),
        r == text::is_blank(s@),
{
    text::lemma_trimmed_empty(s@);
    if r {
        assert(text::trimmed(s@) =~= Seq::<char>::empty());
    }
}

/// Two texts are equal exactly where they have the same characters.
pub proof fn law_equality_is_of_characters(a: &str, b: &str, r: bool)
    requires
        call_ensures(text::str_eq, (a, b), r),
    ensures
        r <==> a@.len() == b@.len() && forall|i: int| 0 <= i < a@.len() ==> a@[i] == b@[i],
{
    if a@.len() == b@.len() && (forall|i: int| 0 <= i < a@.len() ==> a@[i] == b@[i]) {
        assert(a@ =~= b@);
    }
}

/// Cutting a text keeps its beginning, unchanged, and as much of it as allowed.
pub proof fn law_cutting_keeps_the_beginning(s: &str, n: usize, r: String)
    requires
        call_ensures(text::take_chars, (s, n), r),
    ensures
        r@.len() == if s@.len() < n {
            s@.len()
        } else {
            n as nat
        },
        forall|i: int| 0 <= i < r@.len() ==> r@[i] == s@[i],
        r@ == text::first_chars(s@, n as nat),
{
}

/// Whether the characters of `part` stand in `s` from place `i` on.
pub open spec fn holds_at(s: Seq<char>, part: Seq<char>, i: int) -> bool {
    &&& 0 <= i
    &&& i + part.len() <= s.len()
    &&& forall|k: int| 0 <= k < part.len() ==> s[i + k] == #[trigger] part[k]
}

proof fn lemma_holds_at_start(s: Seq<char>, part: Seq<char>)
    ensures
        holds_at(s, part, 0) == text::stands_at(s, part, 0),
{
    if part.len() <= s.len() {
        let head = s.subrange(0, part.len() as int);
        if holds_at(s, part, 0) {
            assert forall|k: int| 0 <= k < part.len() implies head[k] == part[k] by {
                assert(s[0 + k] == part[k]);
            }
            assert(head =~= part);
        }
        if head == part {
            assert forall|k: int| 0 <= k < part.len() implies s[0 + k] == #[trigger] part[k] by {
                assert(head[k] == s[k]);
            }
        }
    }
}

/// Replacing works from the left: up to the first occurrence the text is kept, the occurrence gives
/// way to the new text, and the rest is replaced in the same way; a text without any is kept.
pub proof fn law_replacing_goes_from_the_left(
    s: &str,
    from: &str,
    to: &str,
    at: int,
    rest: &str,
    r: String,
    q: String,
)
    requires
        from@.len() > 0,
        call_ensures(text::replace, (s, from, to), r),
        call_ensures(text::replace, (rest, from, to), q),
    ensures
        (forall|i: int| !(#[trigger] holds_at(s@, from@, i))) ==> r@ == s@,
        ({
            &&& holds_at(s@, from@, at)
            &&& forall|i: int| 0 <= i < at ==> !(#[trigger] holds_at(s@, from@, i))
            &&& rest@ == s@.skip(at + from@.len())
        }) ==> r@ == s@.take(at) + to@ + q@,
{
    if forall|i: int| !(#[trigger] holds_at(s@, from@, i)) {
        lemma_replaced_none(s@, from@, to@);
    }
    if holds_at(s@, from@, at) && (forall|i: int|
        0 <= i < at ==> !(#[trigger] holds_at(s@, from@, i))) {
        lemma_replaced_first(s@, from@, to@, at);
    }
}

/// A text in which nothing is to be replaced is kept.
pub proof fn lemma_replaced_none(s: Seq<char>, from: Seq<char>, to: Seq<char>)
    requires
        from.len() > 0,
        forall|i: int| !(#[trigger] holds_at(s, from, i)),
    ensures
        text::replaced(s, from, to) == s,
    decreases s.len(),
{
    if s.len() > 0 {
        let t = s.skip(1);
        lemma_holds_at_start(s, from);
        assert(!holds_at(s, from, 0));
        assert forall|i: int| !(#[trigger] holds_at(t, from, i)) by {
            lemma_holds_later(s, from, i);
            assert(!holds_at(s, from, i + 1));
        }
        lemma_replaced_none(t, from, to);
        assert(seq![s[0]] + t =~= s);
    }
}

proof fn lemma_holds_later(s: Seq<char>, part: Seq<char>, i: int)
    requires
        s.len() > 0,
    ensures
        0 <= i ==> holds_at(s.skip(1), part, i) == holds_at(s, part, i + 1),
{
    let t = s.skip(1);
    if 0 <= i && i + 1 + part.len() <= s.len() {
        assert forall|k: int| 0 <= k < part.len() implies #[trigger] t[i + k] == s[i + 1 + k] by {}
        if holds_at(t, part, i) {
            assert forall|k: int| 0 <= k < part.len() implies s[i + 1 + k] == #[trigger] part[k] by {
                assert(t[i + k] == part[k]);
            }
        }
        if holds_at(s, part, i + 1) {
            assert forall|k: int| 0 <= k < part.len() implies t[i + k] == #[trigger] part[k] by {
                assert(s[i + 1 + k] == part[k]);
            }
        }
    }
}

/// The first occurrence gives way, and the rest follows.
pub proof fn lemma_replaced_first(s: Seq<char>, from: Seq<char>, to: Seq<char>, at: int)
    requires
        from.len() > 0,
        holds_at(s, from, at),
        forall|i: int| 0 <= i < at ==> !(#[trigger] holds_at(s, from, i)),
    ensures
        text::replaced(s, from, to) == s.take(at) + to + text::replaced(
            s.skip(at + from.len()),
            from,
            to,
        ),
    decreases s.len(),
{
    lemma_holds_at_start(s, from);
    if at == 0 {
        assert(s.take(0) + to =~= to);
    } else {
        let t = s.skip(1);
        assert(!holds_at(s, from, 0));
        assert forall|i: int| 0 <= i < at - 1 implies !(#[trigger] holds_at(t, from, i)) by {
            lemma_holds_later(s, from, i);
            assert(!holds_at(s, from, i + 1));
        }
        lemma_holds_later(s, from, at - 1);
        lemma_replaced_first(t, from, to, at - 1);
        let tail = text::replaced(s.skip(at + from.len()), from, to);
        assert(t.skip(at - 1 + from.len()) =~= s.skip(at + from.len()));
        assert(seq![s[0]] + (t.take(at - 1) + to + tail) =~= s.take(at) + to + tail);
    }
}

/// All characters of several texts in a row.
pub open spec fn in_a_row(pieces: Seq<Seq<char>>) -> Seq<char>
    decreases pieces.len(),
{
    if pieces.len() == 0 {
        Seq::empty()
    } else {
        pieces[0] + in_a_row(pieces.skip(1))
    }
}

/// The words of a text hold exactly its characters that are not white space, in order; none is
/// empty, and none holds white space.
pub proof fn law_words_keep_what_is_not_white(chars: &Vec<char>, r: Vec<Vec<char>>)
    requires
        call_ensures(text::split_words, (chars,), r),
    ensures
        in_a_row(text::pieces_view(r@)) == chars@.filter(|c: char| !text::is_white_space(c)),
        forall|k: int|
            0 <= k < r@.len() ==> (#[trigger] r@[k])@.len() > 0 && forall|i: int|
                0 <= i < r@[k]@.len() ==> !text::is_white_space(#[trigger] r@[k]@[i]),
{
    lemma_words(chars@);
    let ws = text::words_of(chars@);
    assert forall|k: int| 0 <= k < r@.len() implies (#[trigger] r@[k])@.len() > 0 && forall|i: int|
        0 <= i < r@[k]@.len() ==> !text::is_white_space(#[trigger] r@[k]@[i]) by {
        assert(ws[k] == r@[k]@);
    }
}

proof fn lemma_word_is_not_white(s: Seq<char>)
    ensures
        text::word_len(s) <= s.len(),
        forall|i: int| 0 <= i < text::word_len(s) ==> !text::is_white_space(#[trigger] s[i]),
    decreases s.len(),
{
    if s.len() > 0 && !text::is_white_space(s[0]) {
        let t = s.skip(1);
        lemma_word_is_not_white(t);
        assert forall|i: int| 0 <= i < text::word_len(s) implies !text::is_white_space(
            #[trigger] s[i],
        ) by {
            if i > 0 {
                assert(t[i - 1] == s[i]);
            }
        }
    }
}

proof fn lemma_filter_front(s: Seq<char>, p: spec_fn(char) -> bool)
    requires
        s.len() > 0,
    ensures
        s.filter(p) == (if p(s[0]) {
            seq![s[0]]
        } else {
            Seq::empty()
        }) + s.skip(1).filter(p),
    decreases s.len(),
{
    reveal(Seq::filter);
    let t = s.skip(1);
    if s.len() == 1 {
        assert(s.drop_last() =~= Seq::empty());
        assert(t =~= Seq::empty());
        assert(s.drop_last().filter(p) =~= Seq::empty());
        assert(s.filter(p) =~= (if p(s[0]) {
            seq![s[0]]
        } else {
            Seq::empty()
        }) + t.filter(p));
    } else {
        lemma_filter_front(s.drop_last(), p);
        assert(s.drop_last().skip(1) =~= t.drop_last());
        assert(s.filter(p) =~= (if p(s[0]) {
            seq![s[0]]
        } else {
            Seq::empty()
        }) + t.filter(p));
    }
}

proof fn lemma_filter_kept(s: Seq<char>, n: int, p: spec_fn(char) -> bool)
    requires
        0 <= n <= s.len(),
        forall|i: int| 0 <= i < n ==> p(#[trigger] s[i]),
    ensures
        s.filter(p) == s.take(n) + s.skip(n).filter(p),
    decreases n,
{
    if n == 0 {
        assert(s.skip(0) =~= s);
        assert(s.take(0) + s.filter(p) =~= s.filter(p));
    } else {
        let t = s.skip(1);
        lemma_filter_front(s, p);
        assert(p(s[0]));
        assert forall|i: int| 0 <= i < n - 1 implies p(#[trigger] t[i]) by {
            assert(t[i] == s[i + 1]);
        }
        lemma_filter_kept(t, n - 1, p);
        assert(t.skip(n - 1) =~= s.skip(n));
        assert(seq![s[0]] + (t.take(n - 1) + s.skip(n).filter(p)) =~= s.take(n) + s.skip(n).filter(
            p,
        ));
    }
}

proof fn lemma_words(s: Seq<char>)
    ensures
        in_a_row(text::words_of(s)) == s.filter(|c: char| !text::is_white_space(c)),
        forall|k: int|
            0 <= k < text::words_of(s).len() ==> (#[trigger] text::words_of(s)[k]).len() > 0
                && forall|i: int|
                0 <= i < text::words_of(s)[k].len() ==> !text::is_white_space(
                    #[trigger] text::words_of(s)[k][i],
                ),
    decreases s.len(),
{
    let p = |c: char| !text::is_white_space(c);
    let ws = text::words_of(s);
    if s.len() == 0 {
        reveal(Seq::filter);
        assert(s.filter(p) =~= Seq::empty());
    } else if text::is_white_space(s[0]) {
        lemma_words(s.skip(1));
        lemma_filter_front(s, p);
        assert(Seq::<char>::empty() + s.skip(1).filter(p) =~= s.skip(1).filter(p));
    } else {
        let n = text::word_len(s) as int;
        lemma_word_is_not_white(s);
        lemma_words(s.skip(n));
        lemma_filter_kept(s, n, p);
        let rest = text::words_of(s.skip(n));
        assert(ws == seq![s.take(n)] + rest);
        assert(ws.skip(1) =~= rest);
        assert forall|k: int| 0 <= k < ws.len() implies (#[trigger] ws[k]).len() > 0 && forall|
            i: int,
        | 0 <= i < ws[k].len() ==> !text::is_white_space(#[trigger] ws[k][i]) by {
            if k > 0 {
                assert(ws[k] == rest[k - 1]);
            } else {
                assert(ws[0] == s.take(n));
            }
        }
    }
}

/// A text without white space is one word, unless it is empty.
pub proof fn law_unbroken_text_is_one_word(chars: &Vec<char>, r: Vec<Vec<char>>)
    requires
        call_ensures(text::split_words, (chars,), r),
        chars@.len() > 0,
        forall|i: int| 0 <= i < chars@.len() ==> !text::is_white_space(#[trigger] chars@[i]),
    ensures
        r@.len() == 1,
        r@[0]@ == chars@,
{
    let s = chars@;
    lemma_whole_word(s);
    let ws = text::words_of(s);
    assert(s.take(s.len() as int) =~= s);
    assert(s.skip(s.len() as int) =~= Seq::empty());
    assert(text::words_of(s.skip(s.len() as int)) =~= Seq::empty());
    assert(ws =~= seq![s]);
    assert(text::pieces_view(r@)[0] == r@[0]@);
}

proof fn lemma_whole_word(s: Seq<char>)
    requires
        forall|i: int| 0 <= i < s.len() ==> !text::is_white_space(#[trigger] s[i]),
    ensures
        text::word_len(s) == s.len(),
    decreases s.len(),
{
    if s.len() > 0 {
        let t = s.skip(1);
        assert forall|i: int| 0 <= i < t.len() implies !text::is_white_space(#[trigger] t[i]) by {
            assert(t[i] == s[i + 1]);
        }
        lemma_whole_word(t);
    }
}

/// Joining puts the separator between each two pieces and nowhere else.
pub proof fn law_joining_separates(
    front: &Vec<Vec<char>>,
    all: &Vec<Vec<char>>,
    sep: &Vec<char>,
    a: Vec<char>,
    b: Vec<char>,
)
    requires
        call_ensures(text::join, (front, sep), a),
        call_ensures(text::join, (all, sep), b),
        text::pieces_view(all@).len() > 0,
        text::pieces_view(front@) == text::pieces_view(all@).drop_last(),
    ensures
        b@ == if front@.len() == 0 {
            all@.last()@
        } else {
            a@ + sep@ + all@.last()@
        },
{
    assert(text::pieces_view(all@).last() == all@.last()@);
}

/// No piece of a text that was cut holds the separator; and there is one piece more than there are
/// separators.
pub proof fn law_pieces_hold_no_separator(chars: &Vec<char>, sep: char, r: Vec<Vec<char>>)
    requires
        call_ensures(text::split_on, (chars, sep), r),
    ensures
        forall|k: int| 0 <= k < r@.len() ==> !(#[trigger] r@[k])@.contains(sep),
        r@.len() == 1 + chars@.filter(|c: char| c == sep).len(),
{
    lemma_pieces(chars@, sep);
    let ps = text::split_at_each(chars@, sep);
    assert forall|k: int| 0 <= k < r@.len() implies !(#[trigger] r@[k])@.contains(sep) by {
        assert(ps[k] == r@[k]@);
    }
}

proof fn lemma_pieces(s: Seq<char>, sep: char)
    ensures
        text::split_at_each(s, sep).len() == 1 + s.filter(|c: char| c == sep).len(),
        forall|k: int|
            0 <= k < text::split_at_each(s, sep).len() ==> !(#[trigger] text::split_at_each(
                s,
                sep,
            )[k]).contains(sep),
    decreases s.len(),
{
    reveal(Seq::filter);
    if s.len() > 0 {
        lemma_pieces(s.drop_last(), sep);
        let head = text::split_at_each(s.drop_last(), sep);
        let all = text::split_at_each(s, sep);
        assert forall|k: int| 0 <= k < all.len() implies !(#[trigger] all[k]).contains(sep) by {
            if k < head.len() - 1 {
                assert(all[k] == head[k]);
            } else if s.last() != sep {
                let grown = head.last().push(s.last());
                assert(all[k] == grown);
                if grown.contains(sep) {
                    let i = choose|i: int| 0 <= i < grown.len() && grown[i] == sep;
                    assert(head.last()[i] == sep);
                    assert(head[head.len() - 1].contains(sep));
                }
            } else if k < head.len() {
                assert(all[k] == head[k]);
            }
        }
    }
}

/// Dropping a run at the end keeps all before it and drops nothing else.
pub proof fn law_only_the_run_at_the_end_goes(s: &str, c: char, r: String)
    requires
        call_ensures(text::trim_end_matches, (s, c), r),
    ensures
        r@.len() <= s@.len(),
        r@ == s@.take(r@.len() as int),
        r@.len() > 0 ==> r@.last() != c,
        forall|i: int| r@.len() <= i < s@.len() ==> s@[i] == c,
        r@ == text::without_trailing(s@, c),
{
    lemma_run_at_the_end(s@, c);
}

/// Dropping a run at the end keeps all before it and drops nothing else.
pub proof fn lemma_run_at_the_end(s: Seq<char>, c: char)
    ensures
        ({
            let r = text::without_trailing(s, c);
            &&& r.len() <= s.len()
            &&& r == s.take(r.len() as int)
            &&& r.len() > 0 ==> r.last() != c
            &&& forall|i: int| r.len() <= i < s.len() ==> s[i] == c
        }),
    decreases s.len(),
{
    let r = text::without_trailing(s, c);
    if s.len() > 0 && s.last() == c {
        let t = s.drop_last();
        lemma_run_at_the_end(t, c);
        assert(t.take(r.len() as int) =~= s.take(r.len() as int));
        assert forall|i: int| r.len() <= i < s.len() implies s[i] == c by {
            if i < t.len() {
                assert(t[i] == s[i]);
            }
        }
    } else {
        assert(s.take(s.len() as int) =~= s);
    }
}

/// Only the capital letters of ASCII change, each to its small form.
pub proof fn law_only_capitals_change(s: &str, r: String)
    requires
        call_ensures(text::to_ascii_lowercase, (s,), r),
    ensures
        r@.len() == s@.len(),
        forall|i: int|
            0 <= i < s@.len() ==> if 'A' <= #[trigger] s@[i] <= 'Z' {
                r@[i] as u32 == s@[i] as u32 + 32
            } else {
                r@[i] == s@[i]
            },
{
    assert forall|i: int| 0 <= i < s@.len() implies if 'A' <= #[trigger] s@[i] <= 'Z' {
        r@[i] as u32 == s@[i] as u32 + 32
    } else {
        r@[i] == s@[i]
    } by {
        assert(r@[i] == text::ascii_lower(s@[i]));
    }
}

/// Texts that are put in a row keep all their characters.
pub proof fn law_rows_keep_everything(a: &str, b: &str, c: &str, d: &str, e: &str, r: String)
    ensures
        call_ensures(text::cat, (a, b), r) ==> r@ == a@ + b@,
        call_ensures(text::cat3, (a, b, c), r) ==> r@ == a@ + b@ + c@,
        call_ensures(text::cat4, (a, b, c, d), r) ==> r@ == a@ + b@ + c@ + d@,
        call_ensures(text::cat5, (a, b, c, d, e), r) ==> r@ == a@ + b@ + c@ + d@ + e@,
{
}

/// Nothing joined is nothing.
pub proof fn law_nothing_joined_is_nothing(none: &Vec<Vec<char>>, sep: &Vec<char>, r: Vec<char>)
    requires
        call_ensures(text::join, (none, sep), r),
        none@.len() == 0,
    ensures
        r@.len() == 0,
{
    assert(text::pieces_view(none@).len() == 0);
}

} // verus!
