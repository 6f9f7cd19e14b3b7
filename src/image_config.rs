//! The view: a pixel grid laid over a rectangle of the plane.
use vstd::prelude::*;
use crate::scalar::FloatLike;

verus! {

/// A `w × h` pixel grid centred on `center`, each pixel `scale` plane units
/// wide and high. Row 0 lies at the top (largest `y`).
pub struct ImageConfig<F> {
    pub resolution: (usize, usize),
    pub scale: (F, F),
    pub center: (F, F),
}

impl<F: FloatLike> ImageConfig<F> {
    /// `(w·sx, h·sy)`.
    pub open spec fn spec_view_size(&self) -> (F, F) {
        (
            F::spec_from_usize(self.resolution.0).spec_mul(self.scale.0),
            F::spec_from_usize(self.resolution.1).spec_mul(self.scale.1),
        )
    }

    /// `(x − w/2, x + w/2, y − h/2, y + h/2)` for a view of size `(w, h)`.
    pub open spec fn spec_view_bounds(&self, view_size: (F, F)) -> (F, F, F, F) {
        let two = F::spec_from_usize(2);
        let half_w = view_size.0.spec_div(two);
        let half_h = view_size.1.spec_div(two);
        (
            self.center.0.spec_sub(half_w),
            self.center.0.spec_add(half_w),
            self.center.1.spec_sub(half_h),
            self.center.1.spec_add(half_h),
        )
    }

    /// `x = xmin + (col/w)·(xmax − xmin)`, `y = ymax + (row/h)·(ymin − ymax)`.
    pub open spec fn spec_pixel_to_xyplane(
        &self,
        point: (usize, usize),
        bounds: (F, F, F, F),
    ) -> (F, F) {
        let (xmin, xmax, ymin, ymax) = bounds;
        let tx = F::spec_from_usize(point.0).spec_div(F::spec_from_usize(self.resolution.0));
        let ty = F::spec_from_usize(point.1).spec_div(F::spec_from_usize(self.resolution.1));
        (xmin.spec_add(tx.spec_mul(xmax.spec_sub(xmin))), ymax.spec_add(ty.spec_mul(ymin.spec_sub(ymax))))
    }

    /// The plane point of pixel `(col, row)`.
    pub open spec fn spec_point_at(&self, col: usize, row: usize) -> (F, F) {
        self.spec_pixel_to_xyplane((col, row), self.spec_view_bounds(self.spec_view_size()))
    }

    pub fn new(resolution: (usize, usize), scale: (F, F), center: (F, F)) -> (c: Self)
        ensures
            c.resolution == resolution,
            c.scale == scale,
            c.center == center,
    {
        ImageConfig { resolution, scale, center }
    }

    pub fn view_size(&self) -> (s: (F, F))
        ensures
            s == self.spec_view_size(),
    {
        (
            F::from_usize(self.resolution.0).times(&self.scale.0),
            F::from_usize(self.resolution.1).times(&self.scale.1),
        )
    }

    pub fn view_bounds(&self, view_size: (F, F)) -> (b: (F, F, F, F))
        ensures
            b == self.spec_view_bounds(view_size),
    {
        let two = F::from_usize(2);
        let half_w = view_size.0.divided_by(&two);
        let half_h = view_size.1.divided_by(&two);
        (
            self.center.0.minus(&half_w),
            self.center.0.plus(&half_w),
            self.center.1.minus(&half_h),
            self.center.1.plus(&half_h),
        )
    }

    pub fn pixel_to_xyplane(&self, point: (usize, usize), view_bounds: (F, F, F, F)) -> (p: (F, F))
        ensures
            p == self.spec_pixel_to_xyplane(point, view_bounds),
    {
        let (xmin, xmax, ymin, ymax) = view_bounds;
        let tx = F::from_usize(point.0).divided_by(&F::from_usize(self.resolution.0));
        let x = xmin.plus(&tx.times(&xmax.minus(&xmin)));
        let ty = F::from_usize(point.1).divided_by(&F::from_usize(self.resolution.1));
        let y = ymax.plus(&ty.times(&ymin.minus(&ymax)));
        (x, y)
    }
}

} // verus!
