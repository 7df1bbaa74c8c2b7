use vstd::prelude::*;

verus! {

/// Where a frame is drawn inside a viewport, in exact rational form.
///
/// The rectangle is `(x_num, y_num, width_num, height_num) / denom` viewport
/// pixels, and the scale (viewport pixels per frame pixel) is
/// `scale_num / scale_den`; `denom` is always `2 * scale_den`, so that the
/// centring halves stay exact.
#[derive(Clone, Copy, Debug, PartialEq, Eq, Structural)]
pub struct RenderGeometry {
    pub x_num: i128,
    pub y_num: i128,
    pub width_num: i128,
    pub height_num: i128,
    pub denom: i128,
    pub scale_num: i128,
    pub scale_den: i128,
}

/// The frame is limited by the viewport's width (rather than its height).
pub open spec fn fits_by_width(frame_w: u32, frame_h: u32, view_w: u32, view_h: u32) -> bool {
    view_w as int * frame_h as int <= view_h as int * frame_w as int
}

/// The geometry of a `frame_w` x `frame_h` frame centred in a `view_w` x
/// `view_h` viewport at the largest uniform scale that fits. An empty viewport
/// gives an empty rectangle at its centre, with scale 0.
pub open spec fn geometry_of(frame_w: u32, frame_h: u32, view_w: u32, view_h: u32) -> RenderGeometry {
    let by_width = fits_by_width(frame_w, frame_h, view_w, view_h);
    let sn: int = if by_width { view_w as int } else { view_h as int };
    let sd: int = if by_width { frame_w as int } else { frame_h as int };
    RenderGeometry {
        x_num: (view_w * sd - sn * frame_w) as i128,
        y_num: (view_h * sd - sn * frame_h) as i128,
        width_num: (2 * (sn * frame_w)) as i128,
        height_num: (2 * (sn * frame_h)) as i128,
        denom: (2 * sd) as i128,
        scale_num: sn as i128,
        scale_den: sd as i128,
    }
}

impl RenderGeometry {
    /// Bounds that every computed geometry keeps.
    pub open spec fn wf(&self) -> bool {
        &&& 0 <= self.scale_num <= u32::MAX
        &&& 1 <= self.scale_den <= u32::MAX
        &&& self.denom == 2 * self.scale_den
        &&& 0 <= self.x_num <= u64::MAX
        &&& 0 <= self.y_num <= u64::MAX
    }

    /// The fields of `geometry_of(frame_w, frame_h, view_w, view_h)`, over `int`.
    pub open spec fn is_geometry_of(&self, frame_w: u32, frame_h: u32, view_w: u32, view_h: u32) -> bool {
        let by_width = fits_by_width(frame_w, frame_h, view_w, view_h);
        let sn: int = if by_width { view_w as int } else { view_h as int };
        let sd: int = if by_width { frame_w as int } else { frame_h as int };
        &&& self.scale_num == sn
        &&& self.scale_den == sd
        &&& self.denom == 2 * sd
        &&& self.width_num == 2 * (sn * frame_w)
        &&& self.height_num == 2 * (sn * frame_h)
        &&& self.x_num == view_w * sd - sn * frame_w
        &&& self.y_num == view_h * sd - sn * frame_h
    }
}

/// Division that rounds toward zero, as a cast from a real number to an integer does.
pub open spec fn trunc_div(a: int, b: int) -> int {
    if a >= 0 { a / b } else { -((-a) / b) }
}

/// Clamps a value into the range of `i32`.
pub open spec fn saturate_i32(v: int) -> i32 {
    if v > i32::MAX { i32::MAX } else if v < i32::MIN { i32::MIN } else { v as i32 }
}

/// The remote coordinate of a host position along one axis: the host position
/// and the rectangle's origin are given over the geometry's `denom`, and the
/// offset between them is divided by the scale `scale_num / scale_den`.
pub open spec fn remote_axis(host_num: int, origin_num: int, scale_num: int) -> int {
    trunc_div(host_num - origin_num, 2 * scale_num)
}

impl RenderGeometry {
    /// Maps a host viewport point to remote frame coordinates:
    /// `(host - rect origin) / scale`, rounded toward zero and clamped to `i32`.
    pub fn map_pointer(&self, host_x: i32, host_y: i32) -> (r: (i32, i32))
        requires
            self.wf(),
            self.scale_num >= 1,
        ensures
            r.0 == saturate_i32(remote_axis(host_x * self.denom, self.x_num as int, self.scale_num as int)),
            r.1 == saturate_i32(remote_axis(host_y * self.denom, self.y_num as int, self.scale_num as int)),
    {
        let rx = map_axis(host_x, self.denom, self.x_num, self.scale_num);
        let ry = map_axis(host_y, self.denom, self.y_num, self.scale_num);
        (rx, ry)
    }
}

fn map_axis(host: i32, denom: i128, origin_num: i128, scale_num: i128) -> (r: i32)
    requires
        2 <= denom <= 2 * (u32::MAX as int),
        0 <= origin_num <= u64::MAX,
        1 <= scale_num <= u32::MAX,
    ensures
        r == saturate_i32(remote_axis(host * denom, origin_num as int, scale_num as int)),
{
    assert(-0x1_0000_0000_0000_0000_0000i128 <= host * denom <= 0x1_0000_0000_0000_0000_0000i128) by (nonlinear_arith)
        requires i32::MIN <= host <= i32::MAX, 2 <= denom <= 2 * (u32::MAX as int);
    let offset: i128 = host as i128 * denom - origin_num;
    let step: i128 = 2 * scale_num;
    let q: i128 = if offset >= 0 { offset / step } else { -((-offset) / step) };
    if q > i32::MAX as i128 {
        i32::MAX
    } else if q < i32::MIN as i128 {
        i32::MIN
    } else {
        q as i32
    }
}

/// Computes where a frame is drawn in the viewport. A frame with no area has
/// no geometry; an empty viewport gives an empty rectangle with scale 0.
pub fn compute_geometry(frame_w: u32, frame_h: u32, view_w: u32, view_h: u32) -> (r: Option<RenderGeometry>)
    ensures
        r.is_some() <==> (frame_w > 0 && frame_h > 0),
        r.is_some() ==> r == Some(geometry_of(frame_w, frame_h, view_w, view_h)),
        r.is_some() ==> r.unwrap().wf(),
        r.is_some() ==> r.unwrap().is_geometry_of(frame_w, frame_h, view_w, view_h),
{
    if frame_w == 0 || frame_h == 0 {
        return None;
    }
    let fw = frame_w as i128;
    let fh = frame_h as i128;
    let vw = view_w as i128;
    let vh = view_h as i128;
    proof {
        assert(0 <= vw * fh <= u32::MAX as int * u32::MAX as int) by (nonlinear_arith)
            requires 0 <= vw <= u32::MAX, 0 <= fh <= u32::MAX;
        assert(0 <= vh * fw <= u32::MAX as int * u32::MAX as int) by (nonlinear_arith)
            requires 0 <= vh <= u32::MAX, 0 <= fw <= u32::MAX;
        assert(0 <= vw * fw <= u32::MAX as int * u32::MAX as int) by (nonlinear_arith)
            requires 0 <= vw <= u32::MAX, 0 <= fw <= u32::MAX;
        assert(0 <= vh * fh <= u32::MAX as int * u32::MAX as int) by (nonlinear_arith)
            requires 0 <= vh <= u32::MAX, 0 <= fh <= u32::MAX;
    }
    let by_width = vw * fh <= vh * fw;
    let (sn, sd) = if by_width { (vw, fw) } else { (vh, fh) };
    proof {
        assert(0 <= sn * fw <= u32::MAX as int * u32::MAX as int) by (nonlinear_arith)
            requires 0 <= sn <= u32::MAX, 0 <= fw <= u32::MAX;
        assert(0 <= sn * fh <= u32::MAX as int * u32::MAX as int) by (nonlinear_arith)
            requires 0 <= sn <= u32::MAX, 0 <= fh <= u32::MAX;
        assert(0 <= vw * sd <= u32::MAX as int * u32::MAX as int) by (nonlinear_arith)
            requires 0 <= vw <= u32::MAX, 0 <= sd <= u32::MAX;
        assert(0 <= vh * sd <= u32::MAX as int * u32::MAX as int) by (nonlinear_arith)
            requires 0 <= vh <= u32::MAX, 0 <= sd <= u32::MAX;
        if by_width {
            assert(vw * sd == sn * fw);
            assert(sn * fh <= vh * sd) by (nonlinear_arith)
                requires sn == vw, sd == fw, vw * fh <= vh * fw;
        } else {
            assert(vh * sd == sn * fh);
            assert(sn * fw <= vw * sd) by (nonlinear_arith)
                requires sn == vh, sd == fh, vw * fh > vh * fw;
        }
    }
    Some(RenderGeometry {
        x_num: vw * sd - sn * fw,
        y_num: vh * sd - sn * fh,
        width_num: 2 * (sn * fw),
        height_num: 2 * (sn * fh),
        denom: 2 * sd,
        scale_num: sn,
        scale_den: sd,
    })
}

/// The drawn rectangle keeps the frame's aspect ratio, fits inside the
/// viewport, is centred in it, and touches both sides along one axis.
pub proof fn lemma_geometry_preserves_aspect(g: RenderGeometry, frame_w: u32, frame_h: u32, view_w: u32, view_h: u32)
    requires
        frame_w >= 1,
        frame_h >= 1,
        view_w >= 1,
        view_h >= 1,
        g.is_geometry_of(frame_w, frame_h, view_w, view_h),
    ensures
        g.width_num * frame_h == g.height_num * frame_w,
        0 <= g.x_num,
        0 <= g.y_num,
        2 * g.x_num + g.width_num == view_w * g.denom,
        2 * g.y_num + g.height_num == view_h * g.denom,
        g.width_num == view_w * g.denom || g.height_num == view_h * g.denom,
        g.width_num == (frame_w * g.denom * g.scale_num) / (g.scale_den as int),
        g.height_num == (frame_h * g.denom * g.scale_num) / (g.scale_den as int),
{
    let sn = g.scale_num as int;
    let sd = g.scale_den as int;
    let fw = frame_w as int;
    let fh = frame_h as int;
    let vw = view_w as int;
    let vh = view_h as int;
    assert(2 * (sn * fw) * fh == 2 * (sn * fh) * fw) by (nonlinear_arith);
    assert(vw * (2 * sd) == 2 * (vw * sd)) by (nonlinear_arith);
    assert(vh * (2 * sd) == 2 * (vh * sd)) by (nonlinear_arith);
    if fits_by_width(frame_w, frame_h, view_w, view_h) {
        assert(sn * fh <= vh * sd) by (nonlinear_arith)
            requires sn == vw, sd == fw, vw * fh <= vh * fw;
    } else {
        assert(sn * fw <= vw * sd) by (nonlinear_arith)
            requires sn == vh, sd == fh, vw * fh > vh * fw;
    }
    assert(fw * (2 * sd) * sn == (2 * (sn * fw)) * sd) by (nonlinear_arith);
    assert(fh * (2 * sd) * sn == (2 * (sn * fh)) * sd) by (nonlinear_arith);
    vstd::arithmetic::div_mod::lemma_div_by_multiple(2 * (sn * fw), sd);
    vstd::arithmetic::div_mod::lemma_div_by_multiple(2 * (sn * fh), sd);
}

/// The rectangle's top-left corner maps to remote `(0, 0)` and its
/// bottom-right corner to remote `(frame_w, frame_h)`.
pub proof fn lemma_pointer_mapping_corners(g: RenderGeometry, frame_w: u32, frame_h: u32, view_w: u32, view_h: u32)
    requires
        frame_w >= 1,
        frame_h >= 1,
        view_w >= 1,
        view_h >= 1,
        g.is_geometry_of(frame_w, frame_h, view_w, view_h),
    ensures
        remote_axis(g.x_num as int, g.x_num as int, g.scale_num as int) == 0,
        remote_axis(g.y_num as int, g.y_num as int, g.scale_num as int) == 0,
        remote_axis(g.x_num + g.width_num, g.x_num as int, g.scale_num as int) == frame_w,
        remote_axis(g.y_num + g.height_num, g.y_num as int, g.scale_num as int) == frame_h,
{
    let sn = g.scale_num as int;
    assert(sn >= 1);
    assert(2 * (sn * frame_w) == frame_w * (2 * sn)) by (nonlinear_arith);
    assert(2 * (sn * frame_h) == frame_h * (2 * sn)) by (nonlinear_arith);
    vstd::arithmetic::div_mod::lemma_div_by_multiple(frame_w as int, 2 * sn);
    vstd::arithmetic::div_mod::lemma_div_by_multiple(frame_h as int, 2 * sn);
}

} // verus!
