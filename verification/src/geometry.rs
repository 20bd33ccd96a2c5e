//! Crop rectangles given as fractions of the frame, and the filter expression
//! that asks the tool to cut them out.
//!
//! The fractions stay text throughout: the tool's own expression evaluator
//! multiplies them with the frame's dimensions, so the frame size has a single
//! source of truth.

use vstd::prelude::*;
use vstd::string::StringExecFns;
use crate::command::holds_nul;

verus! {

/// A crop region in fractions of the frame's width and height, each given as
/// text. A width and a height that both read `1` stand for "no crop".
#[derive(Clone, Debug, PartialEq, Eq)]
pub struct CropRect {
    pub x: String,
    pub y: String,
    pub w: String,
    pub h: String,
}

/// One pixel measure: the fraction of a frame dimension, rounded to the
/// nearest integer as the floor of the product plus one half.
pub open spec fn scaled(dimension: Seq<char>, fraction: Seq<char>) -> Seq<char> {
    "floor("@ + dimension + "*"@ + fraction + "+0.5)"@
}

/// The crop expression: width, height, x origin and y origin, in this order,
/// the horizontal measures scaled by the frame's width and the vertical ones
/// by its height.
pub open spec fn crop_expression(
    x: Seq<char>,
    y: Seq<char>,
    w: Seq<char>,
    h: Seq<char>,
) -> Seq<char> {
    "crop="@ + scaled("in_w"@, w) + ":"@ + scaled("in_h"@, h) + ":"@ + scaled("in_w"@, x) + ":"@
        + scaled("in_h"@, y)
}

/// The clause that pads the cropped frame so that both dimensions are even,
/// or nothing where no padding is asked for.
pub open spec fn padding_clause(pad_to_even_dimensions: bool) -> Seq<char> {
    if pad_to_even_dimensions {
        ",pad=ceil(in_w/2)*2:ceil(in_h/2)*2"@
    } else {
        Seq::empty()
    }
}

/// The whole filter: the crop expression, then the padding clause.
pub open spec fn crop_filter_text(
    x: Seq<char>,
    y: Seq<char>,
    w: Seq<char>,
    h: Seq<char>,
    pad_to_even_dimensions: bool,
) -> Seq<char> {
    crop_expression(x, y, w, h) + padding_clause(pad_to_even_dimensions)
}

impl CropRect {
    /// Whether the rectangle is the "no crop" sentinel: width and height both
    /// read exactly `1`, whatever the origin says.
    pub open spec fn is_full_frame(&self) -> bool {
        self.w@ == "1"@ && self.h@ == "1"@
    }

    /// Whether none of the four texts holds NUL.
    pub open spec fn is_clean(&self) -> bool {
        !holds_nul(self.x@) && !holds_nul(self.y@) && !holds_nul(self.w@) && !holds_nul(self.h@)
    }

    /// The filter text for this rectangle, were it to be cropped.
    pub open spec fn filter_text(&self, pad_to_even_dimensions: bool) -> Seq<char> {
        crop_filter_text(self.x@, self.y@, self.w@, self.h@, pad_to_even_dimensions)
    }

    pub fn new(x: String, y: String, w: String, h: String) -> (crop: CropRect)
        ensures
            crop.x@ == x@,
            crop.y@ == y@,
            crop.w@ == w@,
            crop.h@ == h@,
    {
        CropRect { x, y, w, h }
    }

    /// Computes `is_full_frame`.
    pub fn covers_frame(&self) -> (full: bool)
        ensures
            full == self.is_full_frame(),
    {
        let one = String::from_str("1");
        self.w == one && self.h == one
    }
}

/// The padding clause is there exactly when padding is asked for: the filter
/// is the crop expression alone without it, and the crop expression followed
/// by the clause, which is not empty, with it.
pub proof fn lemma_padding_follows_flag(crop: CropRect, pad_to_even_dimensions: bool)
    ensures
        crop.filter_text(pad_to_even_dimensions) == crop_expression(
            crop.x@,
            crop.y@,
            crop.w@,
            crop.h@,
        ) + padding_clause(pad_to_even_dimensions),
        padding_clause(pad_to_even_dimensions).len() > 0 <==> pad_to_even_dimensions,
        crop.filter_text(false) == crop_expression(crop.x@, crop.y@, crop.w@, crop.h@),
        crop.filter_text(true) == crop.filter_text(false) + ",pad=ceil(in_w/2)*2:ceil(in_h/2)*2"@,
{
    reveal_strlit(",pad=ceil(in_w/2)*2:ceil(in_h/2)*2");
    assert(crop.filter_text(false) =~= crop_expression(crop.x@, crop.y@, crop.w@, crop.h@));
}

/// A text made of two parts holds NUL exactly when one of the parts does.
pub proof fn lemma_concat_holds_nul(a: Seq<char>, b: Seq<char>)
    ensures
        holds_nul(a + b) <==> holds_nul(a) || holds_nul(b),
{
    if holds_nul(a) {
        let i = choose|i: int| 0 <= i < a.len() && a[i] == '\0';
        assert((a + b)[i] == '\0');
    }
    if holds_nul(b) {
        let i = choose|i: int| 0 <= i < b.len() && b[i] == '\0';
        assert((a + b)[a.len() + i] == '\0');
    }
    if holds_nul(a + b) {
        let i = choose|i: int| 0 <= i < (a + b).len() && (a + b)[i] == '\0';
        if i < a.len() {
            assert(a[i] == '\0');
        } else {
            assert(b[i - a.len()] == '\0');
        }
    }
}

proof fn lemma_scaled_holds_nul(dimension: Seq<char>, fraction: Seq<char>)
    requires
        dimension == "in_w"@ || dimension == "in_h"@,
    ensures
        holds_nul(scaled(dimension, fraction)) <==> holds_nul(fraction),
{
    reveal_strlit("floor(");
    reveal_strlit("in_w");
    reveal_strlit("in_h");
    reveal_strlit("*");
    reveal_strlit("+0.5)");
    assert(!holds_nul("floor("@));
    assert(!holds_nul(dimension));
    assert(!holds_nul("*"@));
    assert(!holds_nul("+0.5)"@));
    let a = "floor("@ + dimension;
    let b = a + "*"@;
    let c = b + fraction;
    lemma_concat_holds_nul("floor("@, dimension);
    lemma_concat_holds_nul(a, "*"@);
    lemma_concat_holds_nul(b, fraction);
    lemma_concat_holds_nul(c, "+0.5)"@);
}

/// The filter text holds NUL exactly when one of the rectangle's four texts
/// does: nothing else in it can.
pub proof fn lemma_filter_text_holds_nul(crop: CropRect, pad_to_even_dimensions: bool)
    ensures
        holds_nul(crop.filter_text(pad_to_even_dimensions)) <==> !crop.is_clean(),
{
    reveal_strlit("crop=");
    reveal_strlit(":");
    reveal_strlit(",pad=ceil(in_w/2)*2:ceil(in_h/2)*2");
    assert(!holds_nul("crop="@));
    assert(!holds_nul(":"@));
    assert(!holds_nul(padding_clause(pad_to_even_dimensions)));
    let w = scaled("in_w"@, crop.w@);
    let h = scaled("in_h"@, crop.h@);
    let x = scaled("in_w"@, crop.x@);
    let y = scaled("in_h"@, crop.y@);
    lemma_scaled_holds_nul("in_w"@, crop.w@);
    lemma_scaled_holds_nul("in_h"@, crop.h@);
    lemma_scaled_holds_nul("in_w"@, crop.x@);
    lemma_scaled_holds_nul("in_h"@, crop.y@);
    let t1 = "crop="@ + w;
    let t2 = t1 + ":"@;
    let t3 = t2 + h;
    let t4 = t3 + ":"@;
    let t5 = t4 + x;
    let t6 = t5 + ":"@;
    let t7 = t6 + y;
    lemma_concat_holds_nul("crop="@, w);
    lemma_concat_holds_nul(t1, ":"@);
    lemma_concat_holds_nul(t2, h);
    lemma_concat_holds_nul(t3, ":"@);
    lemma_concat_holds_nul(t4, x);
    lemma_concat_holds_nul(t5, ":"@);
    lemma_concat_holds_nul(t6, y);
    lemma_concat_holds_nul(t7, padding_clause(pad_to_even_dimensions));
}

/// Appends one scaled measure to `out`.
fn append_scaled(out: &mut String, dimension: &str, fraction: &str)
    ensures
        final(out)@ == old(out)@ + scaled(dimension@, fraction@),
{
    out.append("floor(");
    out.append(dimension);
    out.append("*");
    out.append(fraction);
    out.append("+0.5)");
    assert(out@ =~= old(out)@ + scaled(dimension@, fraction@));
}

/// The filter expression for a crop rectangle: none where the rectangle covers
/// the whole frame, else the crop expression, followed by the padding clause
/// exactly when `pad_to_even_dimensions` is set.
pub fn build_crop_filter(crop: &CropRect, pad_to_even_dimensions: bool) -> (filter: Option<String>)
    ensures
        crop.is_full_frame() ==> filter is None,
        !crop.is_full_frame() ==> (filter matches Some(text) && text@ == crop.filter_text(
            pad_to_even_dimensions,
        )),
{
    if crop.covers_frame() {
        return None;
    }
    let mut text = String::from_str("crop=");
    append_scaled(&mut text, "in_w", crop.w.as_str());
    text.append(":");
    append_scaled(&mut text, "in_h", crop.h.as_str());
    text.append(":");
    append_scaled(&mut text, "in_w", crop.x.as_str());
    text.append(":");
    append_scaled(&mut text, "in_h", crop.y.as_str());
    if pad_to_even_dimensions {
        text.append(",pad=ceil(in_w/2)*2:ceil(in_h/2)*2");
    }
    assert(text@ =~= crop.filter_text(pad_to_even_dimensions));
    Some(text)
}

} // verus!
