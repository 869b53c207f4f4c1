//! QR codes drawn as pictures.

use vstd::prelude::*;
use vstd::string::*;

use crate::encoding;
use crate::number;
use crate::outside;
use crate::outside::QrMatrix;
use crate::text;

verus! {

/// The white margin around a QR code, in modules.
pub const QR_BORDER: i32 = 8;

/// One dark module as a path.
pub open spec fn square_path(x: int, y: int) -> Seq<char> {
    "M"@ + number::signed_decimal(x) + ","@ + number::signed_decimal(y) + "h1v1h-1z"@
}

/// The dark modules among the first `x` of row `y`.
pub open spec fn row_path(modules: Seq<bool>, size: int, border: int, y: int, x: int) -> Seq<char>
    decreases x,
{
    if x <= 0 {
        Seq::empty()
    } else {
        row_path(modules, size, border, y, x - 1) + if modules[y * size + (x - 1)] {
            square_path(x - 1 + border, y + border)
        } else {
            Seq::empty()
        }
    }
}

/// The dark modules of the first `y` rows.
pub open spec fn rows_path(modules: Seq<bool>, size: int, border: int, y: int) -> Seq<char>
    decreases y,
{
    if y <= 0 {
        Seq::empty()
    } else {
        rows_path(modules, size, border, y - 1) + row_path(modules, size, border, y - 1, size)
    }
}

/// A QR code as an SVG picture.
pub open spec fn svg_of(modules: Seq<bool>, size: int, border: int) -> Seq<char> {
    let side = number::signed_decimal(size + border * 2);
    "<svg xmlns=\"http://www.w3.org/2000/svg\" viewBox=\"0 0 "@ + side + " "@ + side
        + "\" shape-rendering=\"crispEdges\"><rect width=\"100%\" height=\"100%\" fill=\"#ffffff\"/><path d=\""@
        + rows_path(modules, size, border, size) + "\" fill=\"#111111\"/></svg>"@
}

fn append_square(path: &mut String, x: i32, y: i32)
    ensures
        final(path)@ == old(path)@ + square_path(x as int, y as int),
{
    let ghost before = path@;
    path.append("M");
    path.append(number::signed_decimal_text(x as i64).as_str());
    path.append(",");
    path.append(number::signed_decimal_text(y as i64).as_str());
    path.append("h1v1h-1z");
    assert(path@ =~= before + square_path(x as int, y as int));
}

/// Whether twice the border and the side of the picture can be counted; then so can every place.
pub open spec fn picture_fits(size: int, border: int) -> bool {
    &&& i32::MIN <= border * 2 <= i32::MAX
    &&& i32::MIN <= size + border * 2 <= i32::MAX
}

/// Draws a QR code as an SVG picture.
pub fn render_qr_svg(qr: &QrMatrix, border: i32) -> (r: String)
    requires
        qr.wf(),
        picture_fits(qr.size as int, border as int),
    ensures
        r@ == svg_of(qr.modules@, qr.size as int, border as int),
{
    let size: i32 = qr.size;
    let mut path = String::new();
    let mut y: i32 = 0;
    while y < size
        invariant
            0 <= y <= size,
            size == qr.size,
            qr.wf(),
            picture_fits(qr.size as int, border as int),
            path@ == rows_path(qr.modules@, size as int, border as int, y as int),
        decreases size - y,
    {
        let ghost above = path@;
        let mut x: i32 = 0;
        assert(above + row_path(qr.modules@, size as int, border as int, y as int, 0) =~= above);
        while x < size
            invariant
                0 <= x <= size,
                0 <= y < size,
                size == qr.size,
                qr.wf(),
                picture_fits(qr.size as int, border as int),
                path@ == above + row_path(
                    qr.modules@,
                    size as int,
                    border as int,
                    y as int,
                    x as int,
                ),
            decreases size - x,
        {
            let ghost here = row_path(qr.modules@, size as int, border as int, y as int, x as int);
            proof {
                assert(0 <= y * size + x < size * size && y * size <= 177 * 177) by (nonlinear_arith)
                    requires
                        0 <= x < size,
                        0 <= y < size,
                        size <= 177,
                ;
            }
            let place: i32 = y * size + x;
            if qr.modules[place as usize] {
                append_square(&mut path, x + border, y + border);
                assert(path@ =~= above + (here + square_path(x + border, y + border)));
            } else {
                assert(here + Seq::<char>::empty() =~= here);
            }
            x = x + 1;
        }
        y = y + 1;
    }
    let side = number::signed_decimal_text((size + border * 2) as i64);
    let mut svg = text::cat5(
        "<svg xmlns=\"http://www.w3.org/2000/svg\" viewBox=\"0 0 ",
        side.as_str(),
        " ",
        side.as_str(),
        "\" shape-rendering=\"crispEdges\"><rect width=\"100%\" height=\"100%\" fill=\"#ffffff\"/><path d=\"",
    );
    svg.append(path.as_str());
    svg.append("\" fill=\"#111111\"/></svg>");
    svg
}

/// The picture of a QR code as a data URL.
pub open spec fn qr_data_url(modules: Seq<bool>, size: int) -> Seq<char> {
    "data:image/svg+xml;base64,"@ + encoding::base64_of(
        vstd::utf8::encode_utf8(svg_of(modules, size, QR_BORDER as int)),
        false,
        true,
    )
}

/// Writes the picture of a QR code as a data URL.
pub fn qr_picture_url(qr: &QrMatrix) -> (r: String)
    requires
        qr.wf(),
    ensures
        r@ == qr_data_url(qr.modules@, qr.size as int),
{
    let svg = render_qr_svg(qr, QR_BORDER);
    text::cat(
        "data:image/svg+xml;base64,",
        outside::base64_encode(svg.as_str().as_bytes()).as_str(),
    )
}

/// The picture that stands for a text, where there is a text and it fits into a QR code.
pub open spec fn picture_of(s: Seq<char>) -> Option<Seq<char>> {
    let t = text::trimmed(s);
    if t.len() == 0 {
        None
    } else {
        match outside::qr_symbol(t) {
            Some((size, modules)) => Some(qr_data_url(modules, size)),
            None => None,
        }
    }
}

/// Draws a text as a QR code, as a data URL.
pub fn build_qr_code_data_url(s: &str) -> (r: Option<String>)
    ensures
        text::opt_view(r) == picture_of(s@),
{
    let t = text::trim(s);
    if t.unicode_len() == 0 {
        return None;
    }
    match outside::qr_encode(t) {
        Some(qr) => Some(qr_picture_url(&qr)),
        None => None,
    }
}

} // verus!
