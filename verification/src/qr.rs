//! QR codes for the "Show QR code" dialog: the module matrix comes from the
//! `qrcode` crate, and the library paints it into an RGBA pixel buffer with a
//! quiet zone, each module a square of pixels.

use vstd::prelude::*;

verus! {

/// Pixels per module side.
pub const QR_SCALE: usize = 8;

/// Width of the white border, in modules.
pub const QR_QUIET: usize = 4;

/// Largest module count per side of a QR code (version 40).
pub const QR_MAX_WIDTH: usize = 177;

/// What `qrcode::QrCode::new` gives for `data`: `None` when the data cannot be
/// encoded, otherwise the number of modules per side and, row by row, whether
/// each module is dark.
pub uninterp spec fn qr_modules(data: Seq<u8>) -> Option<(nat, Seq<bool>)>;

/// Calls `qrcode::QrCode::new` and reads out its width and its modules (dark or
/// not). The result is named by `qr_modules`; a code has at most 177 modules
/// per side (version 40) and one module for each row and column position.
#[verifier::external_body]
fn qr_matrix(data: &[u8]) -> (r: Option<(usize, Vec<bool>)>)
    ensures
        match r {
            Some((w, dark)) => qr_modules(data@) == Some((w as nat, dark@)) && w <= QR_MAX_WIDTH
                && dark@.len() == w * w,
            None => qr_modules(data@) is None,
        },
{
    qrcode::QrCode::new(data).ok().map(
        |code| {
            let w = code.width();
            let dark = code.to_colors().into_iter().map(|c| c == qrcode::Color::Dark).collect();
            (w, dark)
        },
    )
}

/// Side of the painted image, in pixels, for `w` modules per side.
pub open spec fn qr_side(w: int) -> int {
    (w + 2 * QR_QUIET) * QR_SCALE
}

/// Whether pixel number `i` (row by row) of the painted image is dark: it lies
/// inside the quiet zone border on a dark module.
pub open spec fn qr_pixel_dark(w: int, dark: Seq<bool>, i: int) -> bool {
    let side = qr_side(w);
    let x = (i % side) / (QR_SCALE as int) - QR_QUIET;
    let y = (i / side) / (QR_SCALE as int) - QR_QUIET;
    0 <= x < w && 0 <= y < w && dark[y * w + x]
}

/// Byte `k` of the painted RGBA image: dark pixels are opaque black, the others
/// opaque white.
pub open spec fn qr_byte(w: int, dark: Seq<bool>, k: int) -> u8 {
    if qr_pixel_dark(w, dark, k / 4) && k % 4 != 3 {
        0
    } else {
        255
    }
}

proof fn lemma_module_index(x: int, y: int, w: int)
    requires
        0 <= x < w,
        0 <= y < w,
        w <= 177,
    ensures
        0 <= y * w + x < w * w,
        w * w <= 177 * 177,
{
    assert(w * w <= 177 * 177) by (nonlinear_arith)
        requires
            0 <= w <= 177,
    ;
    assert(y * w + x < w * w) by (nonlinear_arith)
        requires
            0 <= x < w,
            0 <= y < w,
    ;
    assert(0 <= y * w) by (nonlinear_arith)
        requires
            0 <= y,
            0 <= w,
    ;
}

/// Paint a module matrix: `w` modules per side (row by row in `dark`) inside a
/// quiet zone, each module `QR_SCALE` pixels square. Returns the side in
/// pixels and the RGBA bytes, row by row.
pub fn qr_rgba(w: usize, dark: &[bool]) -> (r: (usize, Vec<u8>))
    requires
        w <= QR_MAX_WIDTH,
        dark@.len() == w * w,
    ensures
        r.0 == qr_side(w as int),
        r.1@.len() == 4 * r.0 * r.0,
        forall|k: int| 0 <= k < r.1@.len() ==> #[trigger] r.1@[k] == qr_byte(w as int, dark@, k),
{
    let side = (w + 2 * QR_QUIET) * QR_SCALE;
    assert(side * side <= 1480 * 1480) by (nonlinear_arith)
        requires
            side <= 1480,
    ;
    let n = side * side;
    let mut buf: Vec<u8> = Vec::new();
    let mut i: usize = 0;
    while i < n
        invariant
            side == qr_side(w as int),
            n == side * side,
            n <= 1480 * 1480,
            w <= QR_MAX_WIDTH,
            dark@.len() == w * w,
            i <= n,
            buf@.len() == 4 * i,
            forall|k: int| 0 <= k < buf@.len() ==> #[trigger] buf@[k] == qr_byte(w as int, dark@, k),
        decreases n - i,
    {
        let px = i % side;
        let py = i / side;
        let is_dark = if px >= QR_QUIET * QR_SCALE && py >= QR_QUIET * QR_SCALE {
            let x = px / QR_SCALE - QR_QUIET;
            let y = py / QR_SCALE - QR_QUIET;
            if x < w && y < w {
                proof {
                    lemma_module_index(x as int, y as int, w as int);
                }
                dark[y * w + x]
            } else {
                false
            }
        } else {
            false
        };
        assert(is_dark == qr_pixel_dark(w as int, dark@, i as int));
        let c: u8 = if is_dark { 0 } else { 255 };
        let ghost before = buf@;
        buf.push(c);
        buf.push(c);
        buf.push(c);
        buf.push(255);
        assert forall|k: int| 0 <= k < buf@.len() implies #[trigger] buf@[k] == qr_byte(w as int, dark@, k) by {
            if k >= 4 * i {
                assert(k / 4 == i && k % 4 == k - 4 * i) by (nonlinear_arith)
                    requires
                        4 * i <= k < 4 * i + 4,
                ;
            } else {
                assert(buf@[k] == before[k]);
            }
        }
        i = i + 1;
    }
    assert(4 * side * side == 4 * n) by (nonlinear_arith)
        requires
            n == side * side,
    ;
    (side, buf)
}

/// The painted QR code of `text` (its UTF-8 bytes), or `None` when the text
/// cannot be encoded (for example when it is too long).
pub fn render_qr(text: &str) -> (r: Option<(usize, Vec<u8>)>)
    ensures
        match qr_modules(vstd::utf8::encode_utf8(text@)) {
            None => r is None,
            Some((w, dark)) => r matches Some((side, bytes)) && side == qr_side(w as int)
                && bytes@.len() == 4 * side * side && forall|k: int|
                0 <= k < bytes@.len() ==> #[trigger] bytes@[k] == qr_byte(w as int, dark, k),
        },
{
    match qr_matrix(text.as_bytes()) {
        None => None,
        Some((w, dark)) => Some(qr_rgba(w, &dark)),
    }
}

} // verus!
