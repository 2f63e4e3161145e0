//! Turns a QR payload into the grid of dark modules the shell paints, using
//! the `qrcode` crate to encode it.

use vstd::prelude::*;
use vstd::string::StringSliceAdditionalSpecFns;

verus! {

#[verifier::external_type_specification]
#[verifier::external_body]
pub struct ExQrCode(qrcode::QrCode);

/// The symbol `QrCode::new` builds for some data: its width in modules and
/// the dark flag of each module, row by row; `None` when the data cannot be
/// encoded (it is too long).
pub uninterp spec fn qr_symbol(data: Seq<u8>) -> Option<(nat, Seq<bool>)>;

/// The modules of a built code, row by row: true for a dark one.
pub uninterp spec fn qr_dark_modules(code: qrcode::QrCode) -> Seq<bool>;

/// The number of modules per side of a built code.
pub uninterp spec fn qr_width(code: qrcode::QrCode) -> nat;

/// Calls `QrCode::new` (medium error correction, smallest version that
/// fits). What it builds is named `qr_symbol`; nothing more is claimed of
/// the encoding.
#[verifier::external_body]
fn encode(data: &[u8]) -> (code: Option<qrcode::QrCode>)
    ensures
        match code {
            Some(c) => qr_symbol(data@) == Some((qr_width(c), qr_dark_modules(c))),
            None => qr_symbol(data@) is None,
        },
{
    qrcode::QrCode::new(data).ok()
}

/// Calls `QrCode::width`. Every version the crate builds is at least nine
/// modules wide, so the width is positive.
#[verifier::external_body]
fn width_of(code: &qrcode::QrCode) -> (w: usize)
    ensures
        w == qr_width(*code),
        w > 0,
{
    code.width()
}

/// Calls `QrCode::to_colors`, taking each module as whether it is dark. The
/// crate builds a code on a square canvas, one module per cell, so there are
/// width × width of them.
#[verifier::external_body]
fn dark_modules(code: &qrcode::QrCode) -> (m: Vec<bool>)
    ensures
        m@ == qr_dark_modules(*code),
        m@.len() == qr_width(*code) * qr_width(*code),
{
    code.to_colors().into_iter().map(|c| c.select(true, false)).collect()
}

/// The modules cut into consecutive rows of `width`, the last one shorter
/// when the modules do not fill it.
pub open spec fn rows_of(modules: Seq<bool>, width: nat) -> Seq<Seq<bool>> {
    Seq::new(
        ((modules.len() + width - 1) / width as int) as nat,
        |y: int|
            modules.subrange(
                y * width,
                if y * width + width <= modules.len() {
                    y * width + width
                } else {
                    modules.len() as int
                },
            ),
    )
}

/// The modules cut into rows of `width`, in order.
pub fn rows_from_modules(modules: &Vec<bool>, width: usize) -> (rows: Vec<Vec<bool>>)
    requires
        width > 0,
    ensures
        rows@.map_values(|row: Vec<bool>| row@) == rows_of(modules@, width as nat),
{
    let ghost all = modules@;
    let total = modules.len();
    let mut rows: Vec<Vec<bool>> = Vec::new();
    let mut start: usize = 0;
    let ghost mut y: int = 0;
    while start < total
        invariant
            all == modules@,
            total == all.len(),
            width > 0,
            0 <= y,
            start == (if y * width <= total {
                y * width
            } else {
                total as int
            }),
            y == 0 || (y - 1) * width < total,
            rows@.len() == y,
            forall|k: int|
                0 <= k < y ==> (#[trigger] rows@[k])@ == all.subrange(
                    k * width,
                    if k * width + width <= all.len() {
                        k * width + width
                    } else {
                        all.len() as int
                    },
                ),
        decreases total - start,
    {
        assert(start == y * width);
        let end = if total - start >= width {
            start + width
        } else {
            total
        };
        let mut row: Vec<bool> = Vec::new();
        let mut x: usize = start;
        while x < end
            invariant
                all == modules@,
                total == all.len(),
                start <= x <= end <= total,
                row@ == all.subrange(start as int, x as int),
            decreases end - x,
        {
            row.push(modules[x]);
            x = x + 1;
            assert(row@ =~= all.subrange(start as int, x as int));
        }
        let ghost before = rows@;
        rows.push(row);
        proof {
            assert((y + 1) * width == y * width + width) by (nonlinear_arith);
            assert forall|k: int| 0 <= k < y implies rows@[k] == before[k] by {}
            y = y + 1;
        }
        start = end;
    }
    proof {
        let w = width as int;
        let n = total as int;
        assert(y == (n + w - 1) / w) by (nonlinear_arith)
            requires
                w > 0,
                0 <= y,
                n >= 0,
                y * w >= n,
                (y - 1) * w < n || y == 0,
        {
        }
        assert(rows@.map_values(|row: Vec<bool>| row@) =~= rows_of(all, width as nat));
    }
    rows
}

/// The dark-module grid for a payload, row by row; `None` when the payload
/// cannot be encoded.
pub fn qr_rows(payload: &str) -> (rows: Option<Vec<Vec<bool>>>)
    ensures
        match qr_symbol(payload.spec_bytes()) {
            None => rows is None,
            Some((w, m)) => rows matches Some(r) && r@.map_values(|row: Vec<bool>| row@) == rows_of(
                m,
                w,
            ),
        },
{
    let code = match encode(payload.as_bytes()) {
        Some(c) => c,
        None => return None,
    };
    let w = width_of(&code);
    let modules = dark_modules(&code);
    Some(rows_from_modules(&modules, w))
}

} // verus!
