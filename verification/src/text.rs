//! Text as sequences of characters: trimming, replacing, splitting and joining.

use vstd::prelude::*;
use vstd::string::*;

verus! {

/// Appends one character (`String::push`): the contents grow by exactly that character.
pub assume_specification[ String::push ](s: &mut String, c: char)
    ensures
        final(s)@ == old(s)@.push(c),
;

/// The characters with the Unicode property `White_Space`.
pub open spec fn is_white_space(c: char) -> bool {
    let n = c as u32;
    ||| 0x09 <= n <= 0x0d
    ||| n == 0x20
    ||| n == 0x85
    ||| n == 0xa0
    ||| n == 0x1680
    ||| 0x2000 <= n <= 0x200a
    ||| n == 0x2028
    ||| n == 0x2029
    ||| n == 0x202f
    ||| n == 0x205f
    ||| n == 0x3000
}

/// `s` without its leading white space.
pub open spec fn trim_start_of(s: Seq<char>) -> Seq<char>
    decreases s.len(),
{
    if s.len() > 0 && is_white_space(s[0]) {
        trim_start_of(s.skip(1))
    } else {
        s
    }
}

/// `s` without its trailing white space.
pub open spec fn trim_end_of(s: Seq<char>) -> Seq<char>
    decreases s.len(),
{
    if s.len() > 0 && is_white_space(s.last()) {
        trim_end_of(s.drop_last())
    } else {
        s
    }
}

/// `s` without leading and trailing white space.
pub open spec fn trimmed(s: Seq<char>) -> Seq<char> {
    trim_end_of(trim_start_of(s))
}

/// Nothing but white space.
pub open spec fn is_blank(s: Seq<char>) -> bool {
    forall|i: int| 0 <= i < s.len() ==> is_white_space(#[trigger] s[i])
}

/// Whether a character has the property `White_Space`.
pub fn is_whitespace(c: char) -> (r: bool)
    ensures
        r == is_white_space(c),
{
    let n: u32 = c as u32;
    (0x09 <= n && n <= 0x0d) || n == 0x20 || n == 0x85 || n == 0xa0 || n == 0x1680 || (0x2000 <= n
        && n <= 0x200a) || n == 0x2028 || n == 0x2029 || n == 0x202f || n == 0x205f || n == 0x3000
}

/// The characters of a string.
pub fn chars_of(s: &str) -> (r: Vec<char>)
    ensures
        r@ == s@,
{
    let mut out: Vec<char> = Vec::new();
    for c in it: s.chars()
        invariant
            out@ == it.seq().take(it.index() as int),
            it.seq() == s@,
    {
        out.push(c);
    }
    out
}

/// The string made of the given characters.
pub fn string_of(chars: &Vec<char>) -> (r: String)
    ensures
        r@ == chars@,
{
    let mut out = String::new();
    let mut i: usize = 0;
    while i < chars.len()
        invariant
            i <= chars.len(),
            out@ == chars@.take(i as int),
        decreases chars.len() - i,
    {
        out.push(chars[i]);
        i = i + 1;
        assert(chars@.take(i as int) =~= chars@.take(i - 1).push(chars@[i - 1]));
    }
    assert(chars@.take(i as int) =~= chars@);
    out
}

/// Whether two strings hold the same characters.
pub fn str_eq(a: &str, b: &str) -> (r: bool)
    ensures
        r == (a@ == b@),
{
    a.to_owned() == b.to_owned()
}

proof fn lemma_trim_start_bounds(s: Seq<char>, k: int)
    requires
        0 <= k <= s.len(),
        forall|i: int| 0 <= i < k ==> is_white_space(#[trigger] s[i]),
        k < s.len() ==> !is_white_space(s[k]),
    ensures
        trim_start_of(s) == s.skip(k),
    decreases s.len(),
{
    if k > 0 {
        assert forall|i: int| 0 <= i < k - 1 implies is_white_space(#[trigger] s.skip(1)[i]) by {
            assert(s.skip(1)[i] == s[i + 1]);
        }
        lemma_trim_start_bounds(s.skip(1), k - 1);
        assert(s.skip(1).skip(k - 1) =~= s.skip(k));
        assert(is_white_space(s[0]));
    } else {
        assert(s.skip(0) =~= s);
    }
}

proof fn lemma_trim_end_bounds(s: Seq<char>, k: int)
    requires
        0 <= k <= s.len(),
        forall|i: int| k <= i < s.len() ==> is_white_space(#[trigger] s[i]),
        0 < k ==> !is_white_space(s[k - 1]),
    ensures
        trim_end_of(s) == s.take(k),
    decreases s.len(),
{
    if k < s.len() {
        lemma_trim_end_bounds(s.drop_last(), k);
        assert(s.drop_last().take(k) =~= s.take(k));
        assert(is_white_space(s[s.len() - 1]));
    } else {
        assert(s.take(k) =~= s);
    }
}

proof fn lemma_trim_start_props(s: Seq<char>)
    ensures
        trim_start_of(s).len() == 0 <==> is_blank(s),
        trim_start_of(s).len() > 0 ==> !is_white_space(trim_start_of(s)[0]),
    decreases s.len(),
{
    if s.len() > 0 && is_white_space(s[0]) {
        lemma_trim_start_props(s.skip(1));
        if is_blank(s.skip(1)) {
            assert forall|i: int| 0 <= i < s.len() implies is_white_space(#[trigger] s[i]) by {
                if i > 0 {
                    assert(s.skip(1)[i - 1] == s[i]);
                }
            }
        }
        if is_blank(s) {
            assert forall|i: int| 0 <= i < s.skip(1).len() implies is_white_space(
                #[trigger] s.skip(1)[i],
            ) by {
                assert(s.skip(1)[i] == s[i + 1]);
            }
        }
    }
}

proof fn lemma_trim_end_props(s: Seq<char>)
    ensures
        s.len() > 0 && !is_white_space(s[0]) ==> trim_end_of(s).len() > 0 && trim_end_of(s)[0]
            == s[0],
        trim_end_of(s).len() > 0 ==> !is_white_space(trim_end_of(s).last()),
    decreases s.len(),
{
    if s.len() > 0 && is_white_space(s.last()) {
        lemma_trim_end_props(s.drop_last());
    }
}

/// A string trims to nothing exactly when it is blank.
pub proof fn lemma_trimmed_empty(s: Seq<char>)
    ensures
        trimmed(s).len() == 0 <==> is_blank(s),
{
    lemma_trim_start_props(s);
    lemma_trim_end_props(trim_start_of(s));
}

/// Trimming is idempotent.
pub proof fn law_trimming_is_idempotent(s: Seq<char>)
    ensures
        trimmed(trimmed(s)) == trimmed(s),
{
    lemma_trim_start_props(s);
    lemma_trim_end_props(trim_start_of(s));
}

/// `s` without leading and trailing white space.
pub fn trim(s: &str) -> (r: &str)
    ensures
        r@ == trimmed(s@),
{
    let chars = chars_of(s);
    let n: usize = chars.len();
    let mut a: usize = 0;
    while a < n && is_whitespace(chars[a])
        invariant
            a <= n,
            n == chars.len(),
            forall|i: int| 0 <= i < a ==> is_white_space(#[trigger] chars@[i]),
        decreases n - a,
    {
        a = a + 1;
    }
    let mut b: usize = n;
    while a < b && is_whitespace(chars[b - 1])
        invariant
            a <= b <= n,
            n == chars.len(),
            forall|i: int| b <= i < n ==> is_white_space(#[trigger] chars@[i]),
        decreases b,
    {
        b = b - 1;
    }
    proof {
        lemma_trim_start_bounds(s@, a as int);
        let t = s@.skip(a as int);
        assert forall|i: int| b - a <= i < t.len() implies is_white_space(#[trigger] t[i]) by {
            assert(t[i] == chars@[i + a]);
        }
        lemma_trim_end_bounds(t, b - a);
        assert(t.take(b - a) =~= s@.subrange(a as int, b as int));
    }
    s.substring_char(a, b)
}

/// Whether a string holds nothing but white space.
pub fn blank(s: &str) -> (r: bool)
    ensures
        r == is_blank(s@),
{
    proof {
        lemma_trimmed_empty(s@);
    }
    trim(s).is_empty()
}

/// A copy of the characters from `a` up to `b`.
pub fn slice_of(chars: &Vec<char>, a: usize, b: usize) -> (r: Vec<char>)
    requires
        a <= b <= chars.len(),
    ensures
        r@ == chars@.subrange(a as int, b as int),
{
    let mut out: Vec<char> = Vec::new();
    let mut i: usize = a;
    while i < b
        invariant
            a <= i <= b <= chars.len(),
            out@ == chars@.subrange(a as int, i as int),
        decreases b - i,
    {
        out.push(chars[i]);
        i = i + 1;
        assert(chars@.subrange(a as int, i as int) =~= chars@.subrange(a as int, i - 1).push(
            chars@[i - 1],
        ));
    }
    out
}

/// Appends a copy of `tail` to `out`.
pub fn extend_chars(out: &mut Vec<char>, tail: &Vec<char>)
    ensures
        final(out)@ == old(out)@ + tail@,
{
    let ghost start = out@;
    let mut i: usize = 0;
    while i < tail.len()
        invariant
            i <= tail.len(),
            out@ == start + tail@.take(i as int),
        decreases tail.len() - i,
    {
        out.push(tail[i]);
        i = i + 1;
        assert(start + tail@.take(i as int) =~= (start + tail@.take(i - 1)).push(tail@[i - 1]));
    }
    assert(tail@.take(i as int) =~= tail@);
}

/// Whether `pattern` stands in `s` at position `i`.
pub open spec fn stands_at(s: Seq<char>, pattern: Seq<char>, i: int) -> bool {
    &&& i + pattern.len() <= s.len()
    &&& s.subrange(i, i + pattern.len()) == pattern
}

/// Every occurrence of the non-empty `from`, taken from the left without overlaps, replaced by `to`.
pub open spec fn replaced(s: Seq<char>, from: Seq<char>, to: Seq<char>) -> Seq<char>
    decreases s.len(),
{
    if s.len() == 0 || from.len() == 0 {
        s
    } else if stands_at(s, from, 0) {
        to + replaced(s.skip(from.len() as int), from, to)
    } else {
        seq![s[0]] + replaced(s.skip(1), from, to)
    }
}

fn matches_at(chars: &Vec<char>, pattern: &Vec<char>, i: usize) -> (r: bool)
    requires
        i <= chars.len(),
    ensures
        r == stands_at(chars@, pattern@, i as int),
{
    if chars.len() - i < pattern.len() {
        return false;
    }
    let mut k: usize = 0;
    while k < pattern.len()
        invariant
            k <= pattern.len(),
            i + pattern.len() <= chars.len(),
            forall|j: int| 0 <= j < k ==> chars@[i + j] == #[trigger] pattern@[j],
        decreases pattern.len() - k,
    {
        if chars[i + k] != pattern[k] {
            assert(chars@.subrange(i as int, i + pattern.len())[k as int] == chars@[i + k]);
            return false;
        }
        k = k + 1;
    }
    assert(chars@.subrange(i as int, i + pattern.len()) =~= pattern@);
    true
}

/// Replaces every occurrence of `from` by `to`, from the left, without overlaps.
pub fn replace_all(chars: &Vec<char>, from: &Vec<char>, to: &Vec<char>) -> (r: Vec<char>)
    requires
        from.len() > 0,
    ensures
        r@ == replaced(chars@, from@, to@),
{
    let mut out: Vec<char> = Vec::new();
    let mut i: usize = 0;
    assert(chars@.skip(0) =~= chars@);
    while i < chars.len()
        invariant
            i <= chars.len(),
            from.len() > 0,
            out@ + replaced(chars@.skip(i as int), from@, to@) == replaced(chars@, from@, to@),
        decreases chars.len() - i,
    {
        let ghost rest = chars@.skip(i as int);
        let ghost before = out@;
        if matches_at(chars, from, i) {
            assert(rest.subrange(0, from@.len() as int) =~= chars@.subrange(
                i as int,
                i + from@.len(),
            ));
            extend_chars(&mut out, to);
            i = i + from.len();
            assert(rest.skip(from@.len() as int) =~= chars@.skip(i as int));
            assert(before + (to@ + replaced(chars@.skip(i as int), from@, to@)) =~= out@ + replaced(
                chars@.skip(i as int),
                from@,
                to@,
            ));
        } else {
            assert(i + from@.len() <= chars@.len() ==> rest.subrange(0, from@.len() as int)
                =~= chars@.subrange(i as int, i + from@.len()));
            out.push(chars[i]);
            i = i + 1;
            assert(rest.skip(1) =~= chars@.skip(i as int));
            assert(before + (seq![chars@[i - 1]] + replaced(chars@.skip(i as int), from@, to@))
                =~= out@ + replaced(chars@.skip(i as int), from@, to@));
        }
    }
    assert(replaced(chars@.skip(i as int), from@, to@) =~= Seq::<char>::empty());
    out
}

/// The length of the white-space-free start of `s`.
pub open spec fn word_len(s: Seq<char>) -> nat
    decreases s.len(),
{
    if s.len() == 0 || is_white_space(s[0]) {
        0
    } else {
        1 + word_len(s.skip(1))
    }
}

/// A word is no longer than the text it starts.
pub proof fn lemma_word_len_bound(s: Seq<char>)
    ensures
        word_len(s) <= s.len(),
    decreases s.len(),
{
    if s.len() > 0 && !is_white_space(s[0]) {
        lemma_word_len_bound(s.skip(1));
    }
}

/// The maximal runs of characters that are not white space, in order.
pub open spec fn words_of(s: Seq<char>) -> Seq<Seq<char>>
    decreases s.len(),
{
    if s.len() == 0 {
        Seq::empty()
    } else if is_white_space(s[0]) {
        words_of(s.skip(1))
    } else {
        let n = word_len(s) as int;
        proof {
            lemma_word_len_bound(s);
        }
        seq![s.take(n)] + words_of(s.skip(n))
    }
}

/// The pieces with `sep` between each two of them.
pub open spec fn joined(pieces: Seq<Seq<char>>, sep: Seq<char>) -> Seq<char>
    decreases pieces.len(),
{
    if pieces.len() == 0 {
        Seq::empty()
    } else if pieces.len() == 1 {
        pieces[0]
    } else {
        joined(pieces.drop_last(), sep) + sep + pieces.last()
    }
}

/// The contents of a vector of character vectors.
pub open spec fn pieces_view(v: Seq<Vec<char>>) -> Seq<Seq<char>> {
    v.map_values(|p: Vec<char>| p@)
}

/// The contents of a vector of strings.
pub open spec fn strings_view(v: Seq<String>) -> Seq<Seq<char>> {
    v.map_values(|s: String| s@)
}

/// The contents of an optional string.
pub open spec fn opt_view(o: Option<String>) -> Option<Seq<char>> {
    match o {
        Some(s) => Some(s@),
        None => None,
    }
}

/// A copy of an optional string.
pub fn copy_opt(o: &Option<String>) -> (r: Option<String>)
    ensures
        r == *o,
{
    match o {
        Some(s) => Some(s.clone()),
        None => None,
    }
}

proof fn lemma_word_len_at(s: Seq<char>, n: int)
    requires
        0 <= n <= s.len(),
        forall|i: int| 0 <= i < n ==> !is_white_space(#[trigger] s[i]),
        n < s.len() ==> is_white_space(s[n]),
    ensures
        word_len(s) == n,
    decreases s.len(),
{
    if n > 0 {
        assert forall|i: int| 0 <= i < n - 1 implies !is_white_space(#[trigger] s.skip(1)[i]) by {
            assert(s.skip(1)[i] == s[i + 1]);
        }
        lemma_word_len_at(s.skip(1), n - 1);
        assert(!is_white_space(s[0]));
    }
}

/// Splits at white space into the words between.
pub fn split_words(chars: &Vec<char>) -> (r: Vec<Vec<char>>)
    ensures
        pieces_view(r@) == words_of(chars@),
{
    let mut out: Vec<Vec<char>> = Vec::new();
    let mut i: usize = 0;
    assert(chars@.skip(0) =~= chars@);
    assert(pieces_view(out@) =~= Seq::<Seq<char>>::empty());
    while i < chars.len()
        invariant
            i <= chars.len(),
            pieces_view(out@) + words_of(chars@.skip(i as int)) == words_of(chars@),
        decreases chars.len() - i,
    {
        let ghost rest = chars@.skip(i as int);
        if is_whitespace(chars[i]) {
            i = i + 1;
            assert(rest.skip(1) =~= chars@.skip(i as int));
        } else {
            let start: usize = i;
            while i < chars.len() && !is_whitespace(chars[i])
                invariant
                    start <= i <= chars.len(),
                    forall|j: int|
                        start <= j < i ==> !is_white_space(#[trigger] chars@[j]),
                decreases chars.len() - i,
            {
                i = i + 1;
            }
            let word = slice_of(chars, start, i);
            proof {
                let n = i - start;
                assert forall|j: int| 0 <= j < n implies !is_white_space(#[trigger] rest[j]) by {
                    assert(rest[j] == chars@[start + j]);
                }
                lemma_word_len_at(rest, n);
                assert(rest[0] == chars@[start as int]);
                if i == start {
                    assert(false);
                }
                assert(rest.take(n) =~= word@);
                assert(rest.skip(n) =~= chars@.skip(i as int));
                let before = pieces_view(out@);
                assert(pieces_view(out@.push(word)) =~= before.push(word@));
                assert(before + (seq![word@] + words_of(chars@.skip(i as int)))
                    =~= before.push(word@) + words_of(chars@.skip(i as int)));
            }
            out.push(word);
        }
    }
    assert(words_of(chars@.skip(i as int)) =~= Seq::<Seq<char>>::empty());
    out
}

/// Joins the pieces with `sep` between each two of them.
pub fn join(pieces: &Vec<Vec<char>>, sep: &Vec<char>) -> (r: Vec<char>)
    ensures
        r@ == joined(pieces_view(pieces@), sep@),
{
    let mut out: Vec<char> = Vec::new();
    let mut i: usize = 0;
    let ghost all = pieces_view(pieces@);
    while i < pieces.len()
        invariant
            i <= pieces.len(),
            all == pieces_view(pieces@),
            out@ == joined(all.take(i as int), sep@),
        decreases pieces.len() - i,
    {
        if i > 0 {
            extend_chars(&mut out, sep);
        }
        extend_chars(&mut out, &pieces[i]);
        i = i + 1;
        proof {
            assert(all.take(i as int).drop_last() =~= all.take(i - 1));
            assert(all.take(i as int).last() == pieces@[i - 1]@);
            if i == 1 {
                assert(all.take(0) =~= Seq::<Seq<char>>::empty());
                assert(out@ =~= all.take(1)[0]);
            }
        }
    }
    assert(all.take(i as int) =~= all);
    out
}

/// `s` cut at every `sep`; there is always at least one piece.
pub open spec fn split_at_each(s: Seq<char>, sep: char) -> Seq<Seq<char>>
    decreases s.len(),
{
    if s.len() == 0 {
        seq![Seq::<char>::empty()]
    } else if s.last() == sep {
        split_at_each(s.drop_last(), sep).push(Seq::<char>::empty())
    } else {
        let head = split_at_each(s.drop_last(), sep);
        head.drop_last().push(head.last().push(s.last()))
    }
}

proof fn lemma_split_nonempty(s: Seq<char>, sep: char)
    ensures
        split_at_each(s, sep).len() > 0,
    decreases s.len(),
{
    if s.len() > 0 {
        lemma_split_nonempty(s.drop_last(), sep);
    }
}

/// Cuts at every `sep`.
pub fn split_on(chars: &Vec<char>, sep: char) -> (r: Vec<Vec<char>>)
    ensures
        pieces_view(r@) == split_at_each(chars@, sep),
        r.len() > 0,
{
    let mut out: Vec<Vec<char>> = Vec::new();
    let mut current: Vec<char> = Vec::new();
    let mut i: usize = 0;
    assert(pieces_view(out@).push(current@) =~= split_at_each(chars@.take(0), sep));
    while i < chars.len()
        invariant
            i <= chars.len(),
            pieces_view(out@).push(current@) == split_at_each(chars@.take(i as int), sep),
        decreases chars.len() - i,
    {
        let c = chars[i];
        let ghost whole = pieces_view(out@).push(current@);
        let ghost before = pieces_view(out@);
        let ghost piece = current@;
        i = i + 1;
        assert(chars@.take(i as int).drop_last() =~= chars@.take(i - 1));
        if c == sep {
            let ghost old_out = out@;
            out.push(current);
            assert(pieces_view(out@) =~= whole);
            current = Vec::new();
            assert(current@ =~= Seq::<char>::empty());
        } else {
            current.push(c);
            assert(whole.drop_last() =~= before);
            assert(whole.last() == piece);
        }
    }
    assert(chars@.take(i as int) =~= chars@);
    let ghost whole = pieces_view(out@).push(current@);
    out.push(current);
    assert(pieces_view(out@) =~= whole);
    out
}

/// `s` without the run of `c` at its end.
pub open spec fn without_trailing(s: Seq<char>, c: char) -> Seq<char>
    decreases s.len(),
{
    if s.len() > 0 && s.last() == c {
        without_trailing(s.drop_last(), c)
    } else {
        s
    }
}

/// Drops the run of `c` at the end.
pub fn trim_end_matches(s: &str, c: char) -> (r: String)
    ensures
        r@ == without_trailing(s@, c),
{
    let mut chars = chars_of(s);
    while chars.len() > 0 && chars[chars.len() - 1] == c
        invariant
            without_trailing(chars@, c) == without_trailing(s@, c),
        decreases chars.len(),
    {
        let ghost before = chars@;
        chars.pop();
        assert(chars@ =~= before.drop_last());
    }
    string_of(&chars)
}

/// The ASCII lower-case form of a character.
pub open spec fn ascii_lower(c: char) -> char {
    if 'A' <= c <= 'Z' {
        (c as u32 + 32) as u32 as char
    } else {
        c
    }
}

/// Lower-cases the ASCII letters and keeps everything else.
pub fn to_ascii_lowercase(s: &str) -> (r: String)
    ensures
        r@ == s@.map_values(|c: char| ascii_lower(c)),
{
    let chars = chars_of(s);
    let mut out = String::new();
    let mut i: usize = 0;
    while i < chars.len()
        invariant
            i <= chars.len(),
            out@ == chars@.take(i as int).map_values(|c: char| ascii_lower(c)),
        decreases chars.len() - i,
    {
        let c = chars[i];
        let lower: char = if 'A' <= c && c <= 'Z' {
            (c as u8 + 32) as char
        } else {
            c
        };
        out.push(lower);
        i = i + 1;
        assert(chars@.take(i as int).map_values(|c: char| ascii_lower(c)) =~= chars@.take(
            i - 1,
        ).map_values(|c: char| ascii_lower(c)).push(lower));
    }
    assert(chars@.take(i as int) =~= chars@);
    out
}

/// The first `n` characters, or all of them where there are fewer.
pub open spec fn first_chars(s: Seq<char>, n: nat) -> Seq<char> {
    if n <= s.len() {
        s.take(n as int)
    } else {
        s
    }
}

/// The first `n` characters, or all of them where there are fewer.
pub fn take_chars(s: &str, n: usize) -> (r: String)
    ensures
        r@ == first_chars(s@, n as nat),
{
    let len: usize = s.unicode_len();
    if n <= len {
        assert(s@.subrange(0, n as int) =~= s@.take(n as int));
        s.substring_char(0, n).to_owned()
    } else {
        s.to_owned()
    }
}

/// One text after the other.
pub fn cat(a: &str, b: &str) -> (r: String)
    ensures
        r@ == a@ + b@,
{
    let mut out = a.to_owned();
    out.append(b);
    out
}

/// Three texts in a row.
pub fn cat3(a: &str, b: &str, c: &str) -> (r: String)
    ensures
        r@ == a@ + b@ + c@,
{
    let mut out = cat(a, b);
    out.append(c);
    out
}

/// Four texts in a row.
pub fn cat4(a: &str, b: &str, c: &str, d: &str) -> (r: String)
    ensures
        r@ == a@ + b@ + c@ + d@,
{
    let mut out = cat3(a, b, c);
    out.append(d);
    out
}

/// Five texts in a row.
pub fn cat5(a: &str, b: &str, c: &str, d: &str, e: &str) -> (r: String)
    ensures
        r@ == a@ + b@ + c@ + d@ + e@,
{
    let mut out = cat4(a, b, c, d);
    out.append(e);
    out
}

/// Replaces every occurrence of `from`, taken from the left without overlaps, by `to`.
pub fn replace(s: &str, from: &str, to: &str) -> (r: String)
    requires
        from@.len() > 0,
    ensures
        r@ == replaced(s@, from@, to@),
{
    string_of(&replace_all(&chars_of(s), &chars_of(from), &chars_of(to)))
}

} // verus!
