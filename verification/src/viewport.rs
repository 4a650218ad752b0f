use vstd::prelude::*;

use crate::geometry::{Position2D, Size2D, Transformation2D};
use crate::scalar::Frac;

verus! {

/// A logical viewport: a center position and a size, both in logical units.
#[derive(Clone, Copy, Debug, PartialEq, Eq, Structural)]
pub struct Viewport2D {
    pub center: Position2D,
    pub size: Size2D,
}

/// How a logical viewport is mapped onto the physical surface: stretched to
/// fill it, letterboxed to keep the aspect ratio, or letterboxed with a hard
/// scissor clip of the overflow.
#[derive(Clone, Copy, Debug, PartialEq, Eq, Structural)]
pub enum Viewport2DModification {
    LooseAspectRatio,
    KeepAspectRatio,
    KeepAspectRatioAndScissorRemains,
}

/// A scissor region in surface pixels: origin, then width and height.
#[derive(Clone, Copy, Debug, PartialEq, Eq, Structural)]
pub struct ScissorRect {
    pub x: u32,
    pub y: u32,
    pub width: u32,
    pub height: u32,
}

/// What the fit calculation yields: the transformation chain to append to
/// every top-level scene node (empty means identity), and the optional
/// scissor region.
#[derive(Debug)]
pub struct ViewportFit {
    pub transform: Vec<Transformation2D>,
    pub scissor: Option<ScissorRect>,
}

/// The mathematical value of a `ViewportFit`.
pub struct SpecViewportFit {
    pub transform: Seq<Transformation2D>,
    pub scissor: Option<ScissorRect>,
}

impl View for ViewportFit {
    type V = SpecViewportFit;

    open spec fn view(&self) -> SpecViewportFit {
        SpecViewportFit { transform: self.transform@, scissor: self.scissor }
    }
}

/// The canonical render space: a 2-by-2 logical window centered at the
/// origin; every scene is expressed in these coordinates before the
/// surface mapping.
pub open spec fn spec_window_viewport() -> Viewport2D {
    Viewport2D {
        center: Position2D { x: Frac { num: 0, den: 1 }, y: Frac { num: 0, den: 1 } },
        size: Size2D { width: Frac { num: 2, den: 1 }, height: Frac { num: 2, den: 1 } },
    }
}

/// The canonical render space as a value.
pub fn window_viewport() -> (v: Viewport2D)
    ensures
        v == spec_window_viewport(),
{
    Viewport2D {
        center: Position2D { x: Frac::from_int(0), y: Frac::from_int(0) },
        size: Size2D { width: Frac::from_int(2), height: Frac::from_int(2) },
    }
}

/// The bound up to which the fit arithmetic is carried out exactly. A
/// viewport or surface dimension beyond it (or a non-positive one) makes
/// the calculator fall back to the identity transform.
pub open spec fn fit_bound() -> int {
    32768
}

/// The inputs on which the aspect-preserving fit is computed: positive
/// viewport and surface dimensions, all small enough that every
/// intermediate product stays exact in 64 bits.
pub open spec fn fit_inputs_ok(v: Viewport2D, sw: u32, sh: u32) -> bool {
    &&& 0 < v.size.width.num <= fit_bound()
    &&& 0 < v.size.width.den <= fit_bound()
    &&& 0 < v.size.height.num <= fit_bound()
    &&& 0 < v.size.height.den <= fit_bound()
    &&& 0 < sw <= fit_bound()
    &&& 0 < sh <= fit_bound()
}

/// The letterboxed dimensions `(w, h)`: the largest rectangle with the
/// viewport's aspect ratio that fits inside the `sw`-by-`sh` surface.
/// First candidate: full surface height with `w = (vw/vh) * sh`; if that
/// exceeds the surface width, full surface width with `h = (vh/vw) * sw`
/// instead. Valid when `fit_inputs_ok` holds.
pub open spec fn spec_fitted_dims(v: Viewport2D, sw: u32, sh: u32) -> (Frac, Frac) {
    let vw = v.size.width;
    let vh = v.size.height;
    let w0num = vw.num * vh.den * sh;
    let w0den = vw.den * vh.num;
    if w0num > sw * w0den {
        (
            Frac { num: sw as i64, den: 1 },
            Frac {
                num: (vh.num * vw.den * sw) as i64,
                den: (vh.den * vw.num) as i64,
            },
        )
    } else {
        (Frac { num: w0num as i64, den: w0den as i64 }, Frac { num: sh as i64, den: 1 })
    }
}

/// The transformation chain of an aspect-preserving fit: translate the
/// canonical center to the origin, scale by `(w/sw, h/sh)`, translate back.
/// The canonical center is the origin, so the two translations are zero.
pub open spec fn spec_fit_transform(w: Frac, h: Frac, sw: u32, sh: u32) -> Seq<Transformation2D> {
    seq![
        Transformation2D::Translation { x: Frac { num: 0, den: 1 }, y: Frac { num: 0, den: 1 } },
        Transformation2D::Scale {
            x: Frac { num: w.num, den: (w.den * sw) as i64 },
            y: Frac { num: h.num, den: (h.den * sh) as i64 },
        },
        Transformation2D::Translation { x: Frac { num: 0, den: 1 }, y: Frac { num: 0, den: 1 } },
    ]
}

/// The scissor region of a clipped fit: the `(w, h)` rectangle centered in
/// the surface, rounded down to whole pixels.
pub open spec fn spec_fit_scissor(w: Frac, h: Frac, sw: u32, sh: u32) -> ScissorRect {
    ScissorRect {
        x: ((sw * w.den - w.num) / (2 * w.den)) as u32,
        y: ((sh * h.den - h.num) / (2 * h.den)) as u32,
        width: (w.num / w.den) as u32,
        height: (h.num / h.den) as u32,
    }
}

/// The whole fit calculation. Stretch-to-fill is the identity with no
/// scissor; so is any input set outside `fit_inputs_ok`, the documented
/// fallback for degenerate viewports. Otherwise the chain letterboxes the
/// canonical space into the fitted rectangle, and the clipping policy adds
/// the scissor region.
pub open spec fn spec_fit(
    v: Viewport2D,
    m: Viewport2DModification,
    sw: u32,
    sh: u32,
) -> SpecViewportFit {
    if m is LooseAspectRatio || !fit_inputs_ok(v, sw, sh) {
        SpecViewportFit { transform: Seq::empty(), scissor: None }
    } else {
        let (w, h) = spec_fitted_dims(v, sw, sh);
        SpecViewportFit {
            transform: spec_fit_transform(w, h, sw, sh),
            scissor: if m is KeepAspectRatioAndScissorRemains {
                Some(spec_fit_scissor(w, h, sw, sh))
            } else {
                None
            },
        }
    }
}

/// Decides `fit_inputs_ok` at run time.
fn fit_inputs_ok_exec(v: &Viewport2D, sw: u32, sh: u32) -> (b: bool)
    ensures
        b == fit_inputs_ok(*v, sw, sh),
{
    0 < v.size.width.num && v.size.width.num <= 32768 && 0 < v.size.width.den
        && v.size.width.den <= 32768 && 0 < v.size.height.num && v.size.height.num <= 32768
        && 0 < v.size.height.den && v.size.height.den <= 32768 && 0 < sw && sw <= 32768 && 0 < sh
        && sh <= 32768
}

/// Computes the viewport-to-surface fit described by `spec_fit`.
pub fn fit_viewport(v: &Viewport2D, m: Viewport2DModification, sw: u32, sh: u32) -> (r:
    ViewportFit)
    ensures
        r@ == spec_fit(*v, m, sw, sh),
{
    let loose = matches!(m, Viewport2DModification::LooseAspectRatio);
    if loose || !fit_inputs_ok_exec(v, sw, sh) {
        return ViewportFit { transform: Vec::new(), scissor: None };
    }
    let vw = v.size.width;
    let vh = v.size.height;
    let sw64: i64 = sw as i64;
    let sh64: i64 = sh as i64;
    proof {
        lemma_fit_products_bounded(
            vw.num as int,
            vw.den as int,
            vh.num as int,
            vh.den as int,
            sw as int,
            sh as int,
        );
    }
    let w0num: i64 = vw.num * vh.den * sh64;
    let w0den: i64 = vw.den * vh.num;
    let (w, h): (Frac, Frac) = if w0num > sw64 * w0den {
        proof {
            lemma_fit_overflow_flips(
                vw.num as int,
                vw.den as int,
                vh.num as int,
                vh.den as int,
                sw as int,
                sh as int,
            );
        }
        (
            Frac { num: sw64, den: 1 },
            Frac { num: vh.num * vw.den * sw64, den: vh.den * vw.num },
        )
    } else {
        (Frac { num: w0num, den: w0den }, Frac { num: sh64, den: 1 })
    };
    proof {
        lemma_center_offset_bounds(w.num as int, sw as int, w.den as int);
        lemma_center_offset_bounds(h.num as int, sh as int, h.den as int);
        lemma_scale_den_bounded(w.den as int, sw as int);
        lemma_scale_den_bounded(h.den as int, sh as int);
    }
    let zero_shift = Transformation2D::Translation {
        x: Frac::from_int(0),
        y: Frac::from_int(0),
    };
    let scale = Transformation2D::Scale {
        x: Frac { num: w.num, den: w.den * sw64 },
        y: Frac { num: h.num, den: h.den * sh64 },
    };
    let mut transform: Vec<Transformation2D> = Vec::new();
    transform.push(zero_shift);
    transform.push(scale);
    transform.push(zero_shift);
    let scissor = if matches!(m, Viewport2DModification::KeepAspectRatioAndScissorRemains) {
        Some(
            ScissorRect {
                x: ((sw64 * w.den - w.num) / (2 * w.den)) as u32,
                y: ((sh64 * h.den - h.num) / (2 * h.den)) as u32,
                width: (w.num / w.den) as u32,
                height: (h.num / h.den) as u32,
            },
        )
    } else {
        None
    };
    let r = ViewportFit { transform, scissor };
    proof {
        assert(r@.transform =~= spec_fit(*v, m, sw, sh).transform);
    }
    r
}

/// Every product the fit computes stays within 64 bits on bounded inputs.
proof fn lemma_fit_products_bounded(vwn: int, vwd: int, vhn: int, vhd: int, swi: int, shi: int)
    requires
        0 < vwn <= fit_bound(),
        0 < vwd <= fit_bound(),
        0 < vhn <= fit_bound(),
        0 < vhd <= fit_bound(),
        0 < swi <= fit_bound(),
        0 < shi <= fit_bound(),
    ensures
        0 < vwn * vhd <= 0x4000_0000,
        0 < vwn * vhd * shi <= 0x8000_0000_0000,
        0 < vwd * vhn <= 0x4000_0000,
        0 < swi * (vwd * vhn) <= 0x8000_0000_0000,
        0 < vhn * vwd <= 0x4000_0000,
        0 < vhn * vwd * swi <= 0x8000_0000_0000,
        0 < vhd * vwn <= 0x4000_0000,
{
    assert(0 < vwn * vhd <= 0x4000_0000 && 0 < vwn * vhd * shi <= 0x8000_0000_0000 && 0 < vwd * vhn
        <= 0x4000_0000 && 0 < swi * (vwd * vhn) <= 0x8000_0000_0000 && 0 < vhn * vwd
        <= 0x4000_0000 && 0 < vhn * vwd * swi <= 0x8000_0000_0000 && 0 < vhd * vwn
        <= 0x4000_0000) by (nonlinear_arith)
        requires
            0 < vwn <= 32768,
            0 < vwd <= 32768,
            0 < vhn <= 32768,
            0 < vhd <= 32768,
            0 < swi <= 32768,
            0 < shi <= 32768,
    ;
}

/// When the full-height width candidate overflows the surface width, the
/// full-width height candidate stays within the surface height.
proof fn lemma_fit_overflow_flips(vwn: int, vwd: int, vhn: int, vhd: int, swi: int, shi: int)
    requires
        0 < vwn,
        0 < vwd,
        0 < vhn,
        0 < vhd,
        0 < swi,
        0 < shi,
        vwn * vhd * shi > swi * (vwd * vhn),
    ensures
        0 < vhn * vwd * swi <= shi * (vhd * vwn),
        0 < swi * 1,
        swi <= swi * 1,
{
    assert(0 < vhn * vwd * swi <= shi * (vhd * vwn)) by (nonlinear_arith)
        requires
            0 < vwn,
            0 < vwd,
            0 < vhn,
            0 < vhd,
            0 < swi,
            0 < shi,
            vwn * vhd * shi > swi * (vwd * vhn),
    ;
}

/// A fraction denominator times a surface dimension stays within 64 bits.
proof fn lemma_scale_den_bounded(den: int, s: int)
    requires
        0 < den <= 0x4000_0000,
        0 < s <= fit_bound(),
    ensures
        0 < den * s <= 0x8000_0000_0000,
        0 < s * den <= 0x8000_0000_0000,
{
    assert(0 < den * s <= 0x8000_0000_0000 && 0 < s * den <= 0x8000_0000_0000)
        by (nonlinear_arith)
        requires
            0 < den <= 0x4000_0000,
            0 < s <= 32768,
    ;
}

/// Law: on well-formed inputs the letterboxed rectangle is positive, fits
/// inside the surface, keeps the viewport's aspect ratio exactly, and
/// fills at least one surface axis completely — so no larger rectangle of
/// the same aspect ratio fits.
pub proof fn lemma_fit_is_largest_aspect_preserving(v: Viewport2D, sw: u32, sh: u32)
    requires
        fit_inputs_ok(v, sw, sh),
    ensures
        ({
            let (w, h) = spec_fitted_dims(v, sw, sh);
            let vw = v.size.width;
            let vh = v.size.height;
            &&& 0 < w.num && 0 < w.den
            &&& 0 < h.num && 0 < h.den
            &&& w.num <= sw * w.den
            &&& h.num <= sh * h.den
            &&& w.num * vh.num * h.den * vw.den == h.num * vw.num * w.den * vh.den
            &&& (w.num == sw * w.den || h.num == sh * h.den)
        }),
{
    let vw = v.size.width;
    let vh = v.size.height;
    lemma_fit_products_bounded(
        vw.num as int,
        vw.den as int,
        vh.num as int,
        vh.den as int,
        sw as int,
        sh as int,
    );
    let w0num = vw.num * vh.den * sh;
    let w0den = vw.den * vh.num;
    if w0num > sw * w0den {
        lemma_fit_overflow_flips(
            vw.num as int,
            vw.den as int,
            vh.num as int,
            vh.den as int,
            sw as int,
            sh as int,
        );
        let (w, h) = spec_fitted_dims(v, sw, sh);
        assert(w.num == sw && w.den == 1);
        assert(h.num == vh.num * vw.den * sw && h.den == vh.den * vw.num);
        assert(w.num * vh.num * h.den * vw.den == h.num * vw.num * w.den * vh.den)
            by (nonlinear_arith)
            requires
                w.num == sw,
                w.den == 1,
                h.num == vh.num * vw.den * sw,
                h.den == vh.den * vw.num,
        ;
    } else {
        let (w, h) = spec_fitted_dims(v, sw, sh);
        assert(w.num == w0num && w.den == w0den);
        assert(h.num == sh && h.den == 1);
        assert(w.num * vh.num * h.den * vw.den == h.num * vw.num * w.den * vh.den)
            by (nonlinear_arith)
            requires
                w.num == vw.num * vh.den * sh,
                w.den == vw.den * vh.num,
                h.num == sh,
                h.den == 1,
        ;
    }
}

/// For a fraction `num/den` between 0 and `s`, the centering offset
/// `(s*den - num) / (2*den)` and the floor `num/den` both lie in `[0, s]`.
proof fn lemma_center_offset_bounds(num: int, s: int, den: int)
    requires
        0 < den,
        0 < num <= s * den,
        0 < s,
    ensures
        0 <= (s * den - num) / (2 * den) <= s,
        0 <= num / den <= s,
        0 <= s * den - num,
{
    assert(0 <= (s * den - num) / (2 * den) <= s && 0 <= num / den <= s && 0 <= s * den - num)
        by (nonlinear_arith)
        requires
            0 < den,
            0 < num <= s * den,
            0 < s,
    ;
}

} // verus!
