//! Bytes and texts written down: Base64, percent encoding, UUIDs and JSON strings.

use vstd::prelude::*;

use crate::number;

verus! {

/// The symbol for six bits; the URL-safe alphabet differs in its last two symbols.
pub open spec fn base64_char(v: nat, url_safe: bool) -> char {
    if v < 26 {
        (0x41 + v) as u32 as char
    } else if v < 52 {
        (0x61 + v - 26) as u32 as char
    } else if v < 62 {
        (0x30 + v - 52) as u32 as char
    } else if v == 62 {
        if url_safe {
            '-'
        } else {
            '+'
        }
    } else {
        if url_safe {
            '_'
        } else {
            '/'
        }
    }
}

/// The Base64 text of some bytes, with or without `=` up to a multiple of four.
pub open spec fn base64_of(b: Seq<u8>, url_safe: bool, padded: bool) -> Seq<char>
    decreases b.len(),
{
    let pad = if padded {
        seq!['=']
    } else {
        Seq::<char>::empty()
    };
    if b.len() == 0 {
        Seq::empty()
    } else if b.len() == 1 {
        seq![
            base64_char((b[0] / 4) as nat, url_safe),
            base64_char((b[0] % 4 * 16) as nat, url_safe),
        ] + pad + pad
    } else if b.len() == 2 {
        seq![
            base64_char((b[0] / 4) as nat, url_safe),
            base64_char((b[0] % 4 * 16 + b[1] / 16) as nat, url_safe),
            base64_char((b[1] % 16 * 4) as nat, url_safe),
        ] + pad
    } else {
        seq![
            base64_char((b[0] / 4) as nat, url_safe),
            base64_char((b[0] % 4 * 16 + b[1] / 16) as nat, url_safe),
            base64_char((b[1] % 16 * 4 + b[2] / 64) as nat, url_safe),
            base64_char((b[2] % 64) as nat, url_safe),
        ] + base64_of(b.skip(3), url_safe, padded)
    }
}

/// A byte that stands for itself in a URL.
pub open spec fn is_url_plain(b: u8) -> bool {
    ||| 0x30 <= b <= 0x39
    ||| 0x41 <= b <= 0x5a
    ||| 0x61 <= b <= 0x7a
    ||| b == 0x2d
    ||| b == 0x2e
    ||| b == 0x5f
    ||| b == 0x7e
}

/// An upper-case hexadecimal digit.
pub open spec fn upper_hex_char(d: nat) -> char {
    if d < 10 {
        (0x30 + d) as u32 as char
    } else {
        (0x37 + d) as u32 as char
    }
}

/// One byte percent-encoded.
pub open spec fn percent_piece(b: u8) -> Seq<char> {
    if is_url_plain(b) {
        seq![b as char]
    } else {
        seq!['%', upper_hex_char((b / 16) as nat), upper_hex_char((b % 16) as nat)]
    }
}

/// Bytes percent-encoded: letters, digits and `-._~` stand for themselves.
pub open spec fn percent_encoded(b: Seq<u8>) -> Seq<char>
    decreases b.len(),
{
    if b.len() == 0 {
        Seq::empty()
    } else {
        percent_encoded(b.drop_last()) + percent_piece(b.last())
    }
}

/// The bytes of a random (version 4) UUID: the version and variant bits are fixed.
pub open spec fn is_uuid_v4(b: Seq<u8>) -> bool {
    &&& b.len() == 16
    &&& 0x40 <= b[6] <= 0x4f
    &&& 0x80 <= b[8] <= 0xbf
}

/// The hyphenated text of a UUID: lower-case hexadecimal digits in groups of 8, 4, 4, 4 and 12.
pub open spec fn uuid_text(b: Seq<u8>) -> Seq<char> {
    let h = number::hex_of(b);
    h.subrange(0, 8) + seq!['-'] + h.subrange(8, 12) + seq!['-'] + h.subrange(12, 16) + seq!['-']
        + h.subrange(16, 20) + seq!['-'] + h.subrange(20, 32)
}

/// One character inside a JSON string: quotes, backslashes and control characters are escaped.
pub open spec fn json_escaped(c: char) -> Seq<char> {
    let n = c as u32;
    if c == '"' || c == '\\' {
        seq!['\\', c]
    } else if n == 0x08 {
        seq!['\\', 'b']
    } else if n == 0x09 {
        seq!['\\', 't']
    } else if n == 0x0a {
        seq!['\\', 'n']
    } else if n == 0x0c {
        seq!['\\', 'f']
    } else if n == 0x0d {
        seq!['\\', 'r']
    } else if n < 0x20 {
        seq![
            '\\',
            'u',
            '0',
            '0',
            number::hex_char((n / 16) as nat),
            number::hex_char((n % 16) as nat),
        ]
    } else {
        seq![c]
    }
}

/// The characters of a text, each as it stands inside a JSON string.
pub open spec fn json_escapes(s: Seq<char>) -> Seq<char>
    decreases s.len(),
{
    if s.len() == 0 {
        Seq::empty()
    } else {
        json_escapes(s.drop_last()) + json_escaped(s.last())
    }
}

/// A text as a JSON string.
pub open spec fn json_string(s: Seq<char>) -> Seq<char> {
    seq!['"'] + json_escapes(s) + seq!['"']
}

proof fn lemma_symbols_differ(u: nat, v: nat, url_safe: bool)
    requires
        u < 64,
        v < 64,
        base64_char(u, url_safe) == base64_char(v, url_safe),
    ensures
        u == v,
        base64_char(u, url_safe) != '=',
{
}

proof fn lemma_base64_shape(b: Seq<u8>, url_safe: bool, padded: bool)
    ensures
        ({
            let s = base64_of(b, url_safe, padded);
            &&& b.len() == 0 ==> s.len() == 0
            &&& b.len() == 1 ==> {
                &&& s.len() == if padded {
                    4int
                } else {
                    2
                }
                &&& s[0] == base64_char((b[0] / 4) as nat, url_safe)
                &&& s[1] == base64_char((b[0] % 4 * 16) as nat, url_safe)
                &&& padded ==> s[2] == '='
            }
            &&& b.len() == 2 ==> {
                &&& s.len() == if padded {
                    4int
                } else {
                    3
                }
                &&& s[0] == base64_char((b[0] / 4) as nat, url_safe)
                &&& s[1] == base64_char((b[0] % 4 * 16 + b[1] / 16) as nat, url_safe)
                &&& s[2] == base64_char((b[1] % 16 * 4) as nat, url_safe)
                &&& padded ==> s[3] == '='
            }
            &&& b.len() >= 3 ==> {
                &&& s.len() >= 4
                &&& s[0] == base64_char((b[0] / 4) as nat, url_safe)
                &&& s[1] == base64_char((b[0] % 4 * 16 + b[1] / 16) as nat, url_safe)
                &&& s[2] == base64_char((b[1] % 16 * 4 + b[2] / 64) as nat, url_safe)
                &&& s[3] == base64_char((b[2] % 64) as nat, url_safe)
                &&& s.skip(4) == base64_of(b.skip(3), url_safe, padded)
            }
        }),
{
    if b.len() >= 3 {
        let s = base64_of(b, url_safe, padded);
        assert(s.skip(4) =~= base64_of(b.skip(3), url_safe, padded));
    }
}

/// No two contents have one Base64 text, in either alphabet, padded or not.
pub proof fn law_base64_is_reversible(a: Seq<u8>, b: Seq<u8>, url_safe: bool, padded: bool)
    requires
        base64_of(a, url_safe, padded) == base64_of(b, url_safe, padded),
    ensures
        a == b,
    decreases a.len(),
{
    lemma_base64_shape(a, url_safe, padded);
    lemma_base64_shape(b, url_safe, padded);
    if a.len() == 0 || b.len() == 0 {
        assert(a =~= b);
    } else {
        lemma_symbols_differ((a[0] / 4) as nat, (b[0] / 4) as nat, url_safe);
        if a.len() == 1 && b.len() == 1 {
            lemma_symbols_differ((a[0] % 4 * 16) as nat, (b[0] % 4 * 16) as nat, url_safe);
            assert(a =~= b);
        } else if a.len() == 2 && b.len() == 2 {
            lemma_symbols_differ(
                (a[0] % 4 * 16 + a[1] / 16) as nat,
                (b[0] % 4 * 16 + b[1] / 16) as nat,
                url_safe,
            );
            lemma_symbols_differ((a[1] % 16 * 4) as nat, (b[1] % 16 * 4) as nat, url_safe);
            assert(a =~= b);
        } else if a.len() >= 3 && b.len() >= 3 {
            lemma_symbols_differ(
                (a[0] % 4 * 16 + a[1] / 16) as nat,
                (b[0] % 4 * 16 + b[1] / 16) as nat,
                url_safe,
            );
            lemma_symbols_differ(
                (a[1] % 16 * 4 + a[2] / 64) as nat,
                (b[1] % 16 * 4 + b[2] / 64) as nat,
                url_safe,
            );
            lemma_symbols_differ((a[2] % 64) as nat, (b[2] % 64) as nat, url_safe);
            law_base64_is_reversible(a.skip(3), b.skip(3), url_safe, padded);
            assert(a =~= seq![a[0], a[1], a[2]] + a.skip(3));
            assert(b =~= seq![b[0], b[1], b[2]] + b.skip(3));
        } else {
            // One text ends in padding, or is shorter, where the other holds a symbol.
            let short = if a.len() < b.len() {
                a
            } else {
                b
            };
            let long = if a.len() < b.len() {
                b
            } else {
                a
            };
            if short.len() == 1 {
                let v: nat = if long.len() == 2 {
                    (long[1] % 16 * 4) as nat
                } else {
                    (long[1] % 16 * 4 + long[2] / 64) as nat
                };
                lemma_symbols_differ(v, v, url_safe);
            } else {
                let v = (long[2] % 64) as nat;
                lemma_symbols_differ(v, v, url_safe);
            }
        }
    }
}

proof fn lemma_percent_front(b: Seq<u8>)
    requires
        b.len() > 0,
    ensures
        percent_encoded(b) == percent_piece(b[0]) + percent_encoded(b.skip(1)),
    decreases b.len(),
{
    if b.len() == 1 {
        assert(b.drop_last() =~= Seq::empty());
        assert(b.skip(1) =~= Seq::empty());
        assert(percent_encoded(b) =~= percent_piece(b[0]) + percent_encoded(b.skip(1)));
    } else {
        let d = b.drop_last();
        lemma_percent_front(d);
        assert(d.skip(1) =~= b.skip(1).drop_last());
        assert(percent_encoded(b) =~= percent_piece(b[0]) + (percent_encoded(d.skip(1))
            + percent_piece(b.last())));
    }
}

proof fn lemma_hex_digits_differ(a: nat, b: nat)
    requires
        a < 16,
        b < 16,
    ensures
        upper_hex_char(a) == upper_hex_char(b) ==> a == b,
        number::hex_char(a) == number::hex_char(b) ==> a == b,
{
}

/// No two contents have one percent-encoded form, so what is put into a URL can be read back.
pub proof fn law_percent_encoding_is_reversible(a: Seq<u8>, b: Seq<u8>)
    requires
        percent_encoded(a) == percent_encoded(b),
    ensures
        a == b,
    decreases a.len(),
{
    if a.len() > 0 {
        lemma_percent_front(a);
    }
    if b.len() > 0 {
        lemma_percent_front(b);
    }
    if a.len() == 0 || b.len() == 0 {
        assert(a.len() > 0 ==> percent_encoded(a).len() >= percent_piece(a[0]).len());
        assert(b.len() > 0 ==> percent_encoded(b).len() >= percent_piece(b[0]).len());
        assert(a =~= b);
    } else {
        let s = percent_encoded(a);
        let p = percent_piece(a[0]);
        let q = percent_piece(b[0]);
        assert(s[0] == p[0] && s[0] == q[0]);
        if is_url_plain(a[0]) && is_url_plain(b[0]) {
            assert(a[0] == b[0]);
        } else {
            assert(!is_url_plain(a[0]) && !is_url_plain(b[0]));
            assert(s[1] == p[1] && s[1] == q[1] && s[2] == p[2] && s[2] == q[2]);
            lemma_hex_digits_differ((a[0] / 16) as nat, (b[0] / 16) as nat);
            lemma_hex_digits_differ((a[0] % 16) as nat, (b[0] % 16) as nat);
            assert(a[0] == b[0]);
        }
        assert(s.skip(p.len() as int) =~= percent_encoded(a.skip(1)));
        assert(s.skip(p.len() as int) =~= percent_encoded(b.skip(1)));
        law_percent_encoding_is_reversible(a.skip(1), b.skip(1));
        assert(a =~= seq![a[0]] + a.skip(1));
        assert(b =~= seq![b[0]] + b.skip(1));
    }
}

proof fn lemma_json_front(s: Seq<char>)
    requires
        s.len() > 0,
    ensures
        json_escapes(s) == json_escaped(s[0]) + json_escapes(s.skip(1)),
    decreases s.len(),
{
    if s.len() == 1 {
        assert(s.drop_last() =~= Seq::empty());
        assert(s.skip(1) =~= Seq::empty());
        assert(json_escapes(s) =~= json_escaped(s[0]) + json_escapes(s.skip(1)));
    } else {
        let d = s.drop_last();
        lemma_json_front(d);
        assert(d.skip(1) =~= s.skip(1).drop_last());
        assert(json_escapes(s) =~= json_escaped(s[0]) + (json_escapes(d.skip(1)) + json_escaped(
            s.last(),
        )));
    }
}

proof fn lemma_escapes_differ(c: char, d: char, x: Seq<char>, y: Seq<char>)
    requires
        json_escaped(c) + x == json_escaped(d) + y,
    ensures
        c == d,
        x == y,
{
    let p = json_escaped(c);
    let q = json_escaped(d);
    let s = p + x;
    let t = q + y;
    assert(s == t);
    assert(s[0] == p[0] && t[0] == q[0]);
    if p.len() > 1 && q.len() > 1 {
        assert(s[1] == p[1] && t[1] == q[1]);
        if p.len() == 6 && q.len() == 6 {
            assert(s[4] == p[4] && t[4] == q[4] && s[5] == p[5] && t[5] == q[5]);
            let m = c as u32;
            let n = d as u32;
            lemma_hex_digits_differ((m / 16) as nat, (n / 16) as nat);
            lemma_hex_digits_differ((m % 16) as nat, (n % 16) as nat);
            assert(m == n);
        }
    }
    assert(c == d);
    assert(x =~= s.skip(p.len() as int));
    assert(y =~= t.skip(q.len() as int));
}

proof fn lemma_json_escapes_reversible(a: Seq<char>, b: Seq<char>)
    requires
        json_escapes(a) == json_escapes(b),
    ensures
        a == b,
    decreases a.len(),
{
    if a.len() > 0 {
        lemma_json_front(a);
    }
    if b.len() > 0 {
        lemma_json_front(b);
    }
    if a.len() == 0 || b.len() == 0 {
        assert(a.len() > 0 ==> json_escapes(a).len() >= json_escaped(a[0]).len());
        assert(b.len() > 0 ==> json_escapes(b).len() >= json_escaped(b[0]).len());
        assert(a =~= b);
    } else {
        lemma_escapes_differ(a[0], b[0], json_escapes(a.skip(1)), json_escapes(b.skip(1)));
        lemma_json_escapes_reversible(a.skip(1), b.skip(1));
        assert(a =~= seq![a[0]] + a.skip(1));
        assert(b =~= seq![b[0]] + b.skip(1));
    }
}

/// No two texts have one JSON string, so what is quoted can be read back.
pub proof fn law_json_string_is_reversible(a: Seq<char>, b: Seq<char>)
    requires
        json_string(a) == json_string(b),
    ensures
        a == b,
{
    let s = json_string(a);
    let t = json_string(b);
    assert(s.len() == json_escapes(a).len() + 2 && t.len() == json_escapes(b).len() + 2);
    assert(json_escapes(a) =~= s.subrange(1, s.len() - 1));
    assert(json_escapes(b) =~= t.subrange(1, t.len() - 1));
    lemma_json_escapes_reversible(a, b);
}

/// No two contents have one hexadecimal form.
pub proof fn law_hex_is_reversible(a: Seq<u8>, b: Seq<u8>)
    requires
        number::hex_of(a) == number::hex_of(b),
    ensures
        a == b,
{
    let s = number::hex_of(a);
    let t = number::hex_of(b);
    assert(s.len() == 2 * a.len() && t.len() == 2 * b.len());
    assert forall|i: int| 0 <= i < a.len() implies a[i] == b[i] by {
        assert((2 * i) / 2 == i && (2 * i) % 2 == 0 && (2 * i + 1) / 2 == i && (2 * i + 1) % 2
            == 1);
        assert(s[2 * i] == number::hex_char((a[i] / 16) as nat));
        assert(t[2 * i] == number::hex_char((b[i] / 16) as nat));
        assert(s[2 * i + 1] == number::hex_char((a[i] % 16) as nat));
        assert(t[2 * i + 1] == number::hex_char((b[i] % 16) as nat));
        lemma_hex_digits_differ((a[i] / 16) as nat, (b[i] / 16) as nat);
        lemma_hex_digits_differ((a[i] % 16) as nat, (b[i] % 16) as nat);
    }
    assert(a =~= b);
}

/// No two UUIDs have one text, so identifiers made from different UUIDs differ.
pub proof fn law_uuid_text_is_reversible(a: Seq<u8>, b: Seq<u8>)
    requires
        a.len() == 16,
        b.len() == 16,
        uuid_text(a) == uuid_text(b),
    ensures
        a == b,
{
    let s = uuid_text(a);
    let t = uuid_text(b);
    let h = number::hex_of(a);
    let k = number::hex_of(b);
    assert forall|i: int| 0 <= i < 32 implies h[i] == k[i] by {
        let place = if i < 8 {
            i
        } else if i < 12 {
            i + 1
        } else if i < 16 {
            i + 2
        } else if i < 20 {
            i + 3
        } else {
            i + 4
        };
        assert(s[place] == h[i] && t[place] == k[i]);
    }
    assert(h =~= k);
    law_hex_is_reversible(a, b);
}

} // verus!
