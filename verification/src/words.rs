//! What holds of the words of a text, however it is cut into lines.

use vstd::prelude::*;

use crate::config::env;
use crate::text;

verus! {

/// The words of several pieces, one piece after the other.
pub open spec fn all_words(pieces: Seq<Seq<char>>) -> Seq<Seq<char>>
    decreases pieces.len(),
{
    if pieces.len() == 0 {
        Seq::empty()
    } else {
        all_words(pieces.drop_last()) + text::words_of(pieces.last())
    }
}

proof fn lemma_word_len_before_space(a: Seq<char>, w: char, b: Seq<char>)
    requires
        text::is_white_space(w),
    ensures
        text::word_len(a + seq![w] + b) == text::word_len(a),
    decreases a.len(),
{
    let s = a + seq![w] + b;
    if a.len() > 0 && !text::is_white_space(a[0]) {
        assert(s.skip(1) =~= a.skip(1) + seq![w] + b);
        lemma_word_len_before_space(a.skip(1), w, b);
    } else if a.len() == 0 {
        assert(s[0] == w);
    }
}

/// White space separates: the words of two texts with white space between them are the words of the
/// one followed by those of the other.
pub proof fn law_white_space_separates(a: Seq<char>, w: char, b: Seq<char>)
    requires
        text::is_white_space(w),
    ensures
        text::words_of(a + seq![w] + b) == text::words_of(a) + text::words_of(b),
    decreases a.len(),
{
    let s = a + seq![w] + b;
    if a.len() == 0 {
        assert(s[0] == w);
        assert(s.skip(1) =~= b);
        assert(text::words_of(a) + text::words_of(b) =~= text::words_of(b));
    } else if text::is_white_space(a[0]) {
        assert(s.skip(1) =~= a.skip(1) + seq![w] + b);
        law_white_space_separates(a.skip(1), w, b);
    } else {
        let n = text::word_len(a) as int;
        text::lemma_word_len_bound(a);
        lemma_word_len_before_space(a, w, b);
        assert(s.take(n) =~= a.take(n));
        assert(s.skip(n) =~= a.skip(n) + seq![w] + b);
        law_white_space_separates(a.skip(n), w, b);
        let first = seq![a.take(n)];
        let rest = text::words_of(a.skip(n));
        assert((first + rest) + text::words_of(b) =~= first + (rest + text::words_of(b)));
    }
}

proof fn lemma_trim_start_keeps_words(s: Seq<char>)
    ensures
        text::words_of(text::trim_start_of(s)) == text::words_of(s),
    decreases s.len(),
{
    if s.len() > 0 && text::is_white_space(s[0]) {
        lemma_trim_start_keeps_words(s.skip(1));
    }
}

proof fn lemma_trim_end_keeps_words(s: Seq<char>)
    ensures
        text::words_of(text::trim_end_of(s)) == text::words_of(s),
    decreases s.len(),
{
    if s.len() > 0 && text::is_white_space(s.last()) {
        lemma_trim_end_keeps_words(s.drop_last());
        law_white_space_separates(s.drop_last(), s.last(), Seq::empty());
        assert(s =~= s.drop_last() + seq![s.last()] + Seq::empty());
        assert(text::words_of(s.drop_last()) + Seq::empty() =~= text::words_of(s.drop_last()));
    }
}

/// Trimming a text keeps its words.
pub proof fn law_trimming_keeps_words(s: Seq<char>)
    ensures
        text::words_of(text::trimmed(s)) == text::words_of(s),
{
    lemma_trim_start_keeps_words(s);
    lemma_trim_end_keeps_words(text::trim_start_of(s));
}

proof fn lemma_joined_words(pieces: Seq<Seq<char>>, w: char)
    requires
        text::is_white_space(w),
    ensures
        text::words_of(text::joined(pieces, seq![w])) == all_words(pieces),
    decreases pieces.len(),
{
    if pieces.len() == 1 {
        assert(all_words(pieces.drop_last()) =~= Seq::empty());
        assert(all_words(pieces) =~= text::words_of(pieces[0]));
    } else if pieces.len() > 1 {
        lemma_joined_words(pieces.drop_last(), w);
        law_white_space_separates(
            text::joined(pieces.drop_last(), seq![w]),
            w,
            pieces.last(),
        );
    }
}

proof fn lemma_joined_push(pieces: Seq<Seq<char>>, last: Seq<char>, c: char, sep: Seq<char>)
    ensures
        text::joined(pieces.push(last.push(c)), sep) == text::joined(pieces.push(last), sep).push(
            c,
        ),
{
    let a = pieces.push(last.push(c));
    let b = pieces.push(last);
    assert(a.drop_last() =~= pieces && b.drop_last() =~= pieces);
    if pieces.len() > 0 {
        let front = text::joined(pieces, sep) + sep;
        assert(front + last.push(c) =~= (front + last).push(c));
    }
}

/// A text that is cut at every separator and joined again by it is as it was.
pub proof fn law_splitting_is_reversible(s: Seq<char>, sep: char)
    ensures
        text::joined(text::split_at_each(s, sep), seq![sep]) == s,
        text::split_at_each(s, sep).len() > 0,
    decreases s.len(),
{
    if s.len() == 0 {
        assert(text::joined(seq![Seq::<char>::empty()], seq![sep]) =~= s);
    } else {
        let d = s.drop_last();
        law_splitting_is_reversible(d, sep);
        let head = text::split_at_each(d, sep);
        if s.last() == sep {
            let all = head.push(Seq::<char>::empty());
            assert(all.drop_last() =~= head);
            assert(text::joined(all, seq![sep]) =~= d + seq![sep] + Seq::empty());
            assert(d + seq![sep] + Seq::<char>::empty() =~= s);
        } else {
            lemma_joined_push(head.drop_last(), head.last(), s.last(), seq![sep]);
            assert(head.drop_last().push(head.last()) =~= head);
            assert(d.push(s.last()) =~= s);
        }
    }
}

proof fn lemma_filled_words(pieces: Seq<Seq<char>>)
    ensures
        all_words(env::filled_pieces(pieces)) == all_words(pieces),
    decreases pieces.len(),
{
    if pieces.len() > 0 {
        lemma_filled_words(pieces.drop_last());
        law_trimming_keeps_words(pieces.last());
        let rest = env::filled_pieces(pieces.drop_last());
        let piece = text::trimmed(pieces.last());
        if piece.len() == 0 {
            assert(text::words_of(piece) =~= Seq::empty());
            assert(all_words(rest) + Seq::empty() =~= all_words(rest));
        } else {
            assert(rest.push(piece).drop_last() =~= rest);
        }
    }
}

/// Trimming the lines of a text, dropping empty ones and joining the rest by spaces keeps its words.
pub proof fn law_lines_do_not_matter(s: Seq<char>)
    ensures
        text::words_of(
            text::joined(env::filled_pieces(text::split_at_each(s, '\n')), seq![' ']),
        ) == text::words_of(s),
{
    let lines = text::split_at_each(s, '\n');
    law_splitting_is_reversible(s, '\n');
    lemma_joined_words(lines, '\n');
    lemma_filled_words(lines);
    lemma_joined_words(env::filled_pieces(lines), ' ');
}

} // verus!
