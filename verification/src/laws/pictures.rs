//! What holds of QR codes drawn as pictures.

use vstd::prelude::*;
use vstd::string::*;
use vstd::utf8::*;

use crate::channel::weixin::qr;
use crate::encoding;
use crate::number;
use crate::outside;
use crate::outside::QrMatrix;
use crate::text;

verus! {

/// One square at a place, as a path.
pub open spec fn square_at(x: int, y: int) -> Seq<char> {
    "M"@ + number::signed_decimal(x) + ","@ + number::signed_decimal(y) + "h1v1h-1z"@
}

/// A square for each dark one among the first `n` modules, which stand row by row, moved by the
/// border.
pub open spec fn dark_squares(modules: Seq<bool>, size: int, border: int, n: int) -> Seq<char>
    decreases n,
{
    if n <= 0 {
        Seq::empty()
    } else {
        dark_squares(modules, size, border, n - 1) + if modules[n - 1] {
            square_at((n - 1) % size + border, (n - 1) / size + border)
        } else {
            Seq::empty()
        }
    }
}

proof fn lemma_row(modules: Seq<bool>, size: int, border: int, y: int, x: int)
    requires
        size > 0,
        0 <= y,
        0 <= x <= size,
    ensures
        dark_squares(modules, size, border, y * size + x) == dark_squares(
            modules,
            size,
            border,
            y * size,
        ) + qr::row_path(modules, size, border, y, x),
    decreases x,
{
    if x == 0 {
        assert(dark_squares(modules, size, border, y * size) + Seq::<char>::empty()
            =~= dark_squares(modules, size, border, y * size));
    } else {
        lemma_row(modules, size, border, y, x - 1);
        let k = y * size + x - 1;
        assert(k % size == x - 1 && k / size == y && k >= 0) by {
            assert(y * size >= 0) by (nonlinear_arith)
                requires
                    y >= 0,
                    size > 0,
            ;
            vstd::arithmetic::div_mod::lemma_fundamental_div_mod_converse(k, size, y, x - 1);
        }
        let before = dark_squares(modules, size, border, y * size);
        let row = qr::row_path(modules, size, border, y, x - 1);
        let piece = if modules[k] {
            square_at(x - 1 + border, y + border)
        } else {
            Seq::empty()
        };
        assert((before + row) + piece =~= before + (row + piece));
    }
}

proof fn lemma_rows(modules: Seq<bool>, size: int, border: int, y: int)
    requires
        size > 0,
        0 <= y,
    ensures
        qr::rows_path(modules, size, border, y) == dark_squares(modules, size, border, y * size),
    decreases y,
{
    if y > 0 {
        lemma_rows(modules, size, border, y - 1);
        lemma_row(modules, size, border, y - 1, size);
        assert((y - 1) * size + size == y * size) by (nonlinear_arith);
    } else {
        assert(y * size == 0) by (nonlinear_arith)
            requires
                y == 0,
        ;
    }
}

/// A code is drawn with all its dark modules and no other, each in its place, on a white ground with
/// the border around it.
pub proof fn law_dark_modules_are_drawn(code: &QrMatrix, border: i32, r: String, side: String)
    requires
        code.wf(),
        call_ensures(qr::render_qr_svg, (code, border), r),
        call_ensures(number::signed_decimal_text, ((code.size + 2 * border) as i64,), side),
        i32::MIN <= code.size + 2 * border <= i32::MAX,
    ensures
        r@ == "<svg xmlns=\"http://www.w3.org/2000/svg\" viewBox=\"0 0 "@ + side@ + " "@ + side@
            + "\" shape-rendering=\"crispEdges\"><rect width=\"100%\" height=\"100%\" fill=\"#ffffff\"/><path d=\""@
            + dark_squares(
            code.modules@,
            code.size as int,
            border as int,
            code.size as int * code.size as int,
        ) + "\" fill=\"#111111\"/></svg>"@,
{
    lemma_rows(code.modules@, code.size as int, border as int, code.size as int);
}

/// A picture goes out as a data URL of its SVG text in Base64, with a border of eight.
pub proof fn law_picture_is_a_data_url(code: &QrMatrix, r: String, svg: String)
    requires
        code.wf(),
        call_ensures(qr::qr_picture_url, (code,), r),
        call_ensures(qr::render_qr_svg, (code, 8), svg),
    ensures
        r@ == "data:image/svg+xml;base64,"@ + encoding::base64_of(encode_utf8(svg@), false, true),
{
}

/// A text is drawn, trimmed, where it is more than white space and fits into a code; the code is that
/// of the text.
pub proof fn law_text_is_drawn(s: &str, r: Option<String>, code: &QrMatrix, picture: String)
    requires
        call_ensures(qr::build_qr_code_data_url, (s,), r),
        code.wf(),
        call_ensures(qr::qr_picture_url, (code,), picture),
    ensures
        text::is_blank(s@) ==> r is None,
        !text::is_blank(s@) ==> match outside::qr_symbol(text::trimmed(s@)) {
            Some((size, modules)) => code.size == size && code.modules@ == modules ==> (
            r matches Some(url) && url@ == picture@),
            None => r is None,
        },
{
    text::lemma_trimmed_empty(s@);
}

} // verus!
