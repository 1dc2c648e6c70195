//! The perspective camera: viewport derivation, ray generation, the
//! recursive radiance estimator, and the render loop.

use crate::color::{color_in_unit, Color};
use crate::fixed::{
    fx_add, fx_div, fx_mul, fx_sat, fx_sub, Fx, FX_MAX, SCALE,
};
use crate::interval::Interval;
use crate::point::Point;
use crate::ray::Ray;
use crate::scene::{scene_hit, scene_wf, Scene};
use crate::shape::Shape;
use crate::vector::{
    vec_add, vec_cross, vec_div_scalar, vec_neg, vec_normalize, vec_scale, vec_sub, Vector,
};
use vstd::prelude::*;

verus! {

/// Raw value of one half.
pub const HALF_RAW: i64 = 32768;

/// Raw value of two.
pub const TWO_RAW: i64 = 131072;

/// Raw value of the radians in one degree.
pub const RAD_PER_DEG_RAW: i64 = 1143;

/// Raw coefficient `1 / 3` of the tangent series.
pub const TAN_C3_RAW: i64 = 21845;

/// Raw coefficient `2 / 15` of the tangent series.
pub const TAN_C5_RAW: i64 = 8738;

/// Raw coefficient `17 / 315` of the tangent series.
pub const TAN_C7_RAW: i64 = 3536;

/// Raw lower bound of the render search interval, about `0.001`: it exists to
/// suppress self-intersection noise from the previous bounce.
pub const T_MIN_RAW: i64 = 66;

/// Raw green channel of the sky's zenith color, about `0.7`.
pub const SKY_GREEN_RAW: i64 = 45875;

/// Mirror of the odd-polynomial tangent approximation
/// `x + x^3/3 + 2 x^5/15 + 17 x^7/315`, over fixed-point operations.
pub open spec fn tan_series(x: int) -> int {
    let x2 = fx_mul(x, x);
    let x3 = fx_mul(x2, x);
    let x5 = fx_mul(x3, x2);
    let x7 = fx_mul(x5, x2);
    fx_add(
        fx_add(fx_add(x, fx_mul(x3, TAN_C3_RAW as int)), fx_mul(x5, TAN_C5_RAW as int)),
        fx_mul(x7, TAN_C7_RAW as int),
    )
}

/// Tangent by a truncated odd power series; adequate over the half-angles a
/// camera meets.
fn tan_approx(x: Fx) -> (r: Fx)
    ensures
        r.ival() == tan_series(x.ival()),
{
    let x2 = x.mul(x);
    let x3 = x2.mul(x);
    let x5 = x3.mul(x2);
    let x7 = x5.mul(x2);
    x.add(x3.mul(Fx::new(TAN_C3_RAW))).add(x5.mul(Fx::new(TAN_C5_RAW))).add(
        x7.mul(Fx::new(TAN_C7_RAW)),
    )
}

/// Perspective camera in 3-dimensional space.  The derived viewport fields
/// are recomputed by `initialize` before rendering and are read-only during
/// the render loop.
pub struct Camera {
    /// Image width in pixels.
    pub image_width: u32,
    /// Image height in pixels.
    pub image_height: u32,
    /// Count of random samples per pixel.
    pub samples_per_pixel: u32,
    /// Max number of recursive ray bounces into the scene.
    pub max_depth: u32,
    /// Vertical view angle in degrees.
    pub vfov: Fx,
    /// Point the camera is looking from.
    pub look_from: Point,
    /// Point the camera is looking at.
    pub look_at: Point,
    /// Camera-relative 'up' direction.
    pub view_up: Vector,
    /// Variation angle, in degrees, of rays from the thin lens through each
    /// pixel.
    pub defocus_angle: Fx,
    /// Distance from the 'look from' point to the plane of perfect focus.
    pub focus_distance: Fx,
    /// Location of the top left pixel (0,0).
    pub pixel00_location: Point,
    /// Offset to the pixel to the right.
    pub pixel_delta_u: Vector,
    /// Offset to the pixel below.
    pub pixel_delta_v: Vector,
    /// Defocus disk horizontal basis.
    pub defocus_disk_u: Vector,
    /// Defocus disk vertical basis.
    pub defocus_disk_v: Vector,
}

/// Raw value of a pixel count as a scalar.
pub open spec fn fx_from_u32(n: u32) -> int {
    fx_sat(n * SCALE)
}

/// Mirror of the viewport derivation: aspect ratio from the pixel grid,
/// viewport height `2 * tan(vfov/2) * focus_distance`, the orthonormal basis
/// (u, v, w) from look-from, look-at and view-up, per-pixel deltas, the
/// top-left pixel center, and the defocus-disk basis.
pub open spec fn cam_init(c: Camera) -> Camera {
    let aspect_ratio = fx_div(fx_from_u32(c.image_width), fx_from_u32(c.image_height));
    let h = tan_series(fx_div(fx_mul(c.vfov.ival(), RAD_PER_DEG_RAW as int), TWO_RAW as int));
    let viewport_height = fx_mul(fx_mul(TWO_RAW as int, h), c.focus_distance.ival());
    let viewport_width = fx_mul(viewport_height, aspect_ratio);
    let w = vec_normalize(vec_sub(c.look_from.position, c.look_at.position));
    let u = vec_normalize(vec_cross(c.view_up, w));
    let v = vec_cross(w, u);
    let viewport_u = vec_scale(u, viewport_width);
    let viewport_v = vec_scale(vec_neg(v), viewport_height);
    let pixel_delta_u = vec_div_scalar(viewport_u, fx_from_u32(c.image_width));
    let pixel_delta_v = vec_div_scalar(viewport_v, fx_from_u32(c.image_height));
    let viewport_top_left = vec_sub(
        vec_sub(
            vec_sub(c.look_from.position, vec_scale(w, c.focus_distance.ival())),
            vec_div_scalar(viewport_u, TWO_RAW as int),
        ),
        vec_div_scalar(viewport_v, TWO_RAW as int),
    );
    let pixel00 = vec_add(
        viewport_top_left,
        vec_scale(vec_add(pixel_delta_u, pixel_delta_v), HALF_RAW as int),
    );
    let defocus_radius = fx_mul(
        c.focus_distance.ival(),
        tan_series(
            fx_mul(fx_div(c.defocus_angle.ival(), TWO_RAW as int), RAD_PER_DEG_RAW as int),
        ),
    );
    Camera {
        pixel00_location: Point { position: pixel00 },
        pixel_delta_u,
        pixel_delta_v,
        defocus_disk_u: vec_scale(u, defocus_radius),
        defocus_disk_v: vec_scale(v, defocus_radius),
        ..c
    }
}

impl Camera {
    /// Creates a camera with the given image resolution and the default
    /// configuration.
    pub fn new(image_width: u32, image_height: u32) -> (r: Camera)
        requires
            image_width >= 1,
            image_height >= 1,
        ensures
            r.image_width == image_width,
            r.image_height == image_height,
            r.samples_per_pixel == 10,
            r.max_depth == 10,
            r.vfov.raw == 90 * SCALE,
            r.look_from.position.x.raw == 0 && r.look_from.position.y.raw == 0
                && r.look_from.position.z.raw == -SCALE,
            r.look_at.position == (Vector { x: Fx { raw: 0 }, y: Fx { raw: 0 }, z: Fx { raw: 0 } }),
            r.view_up == (Vector { x: Fx { raw: 0 }, y: Fx { raw: SCALE }, z: Fx { raw: 0 } }),
            r.defocus_angle.raw == 0,
            r.focus_distance.raw == SCALE,
    {
        Camera {
            image_width,
            image_height,
            samples_per_pixel: 10,
            max_depth: 10,
            vfov: Fx::from_int(90),
            look_from: Point::new(Fx::zero(), Fx::zero(), Fx::from_int(-1)),
            look_at: Point::zero(),
            view_up: Vector::new(Fx::zero(), Fx::one(), Fx::zero()),
            defocus_angle: Fx::zero(),
            focus_distance: Fx::one(),
            pixel00_location: Point::zero(),
            pixel_delta_u: Vector::zero(),
            pixel_delta_v: Vector::zero(),
            defocus_disk_u: Vector::zero(),
            defocus_disk_v: Vector::zero(),
        }
    }

    /// Sets samples per pixel.
    pub fn set_samples_per_pixel(&mut self, samples_per_pixel: u32)
        ensures
            *final(self) == (Camera { samples_per_pixel, ..*old(self) }),
    {
        self.samples_per_pixel = samples_per_pixel;
    }

    /// Sets max recursion depth.
    pub fn set_max_depth(&mut self, max_depth: u32)
        ensures
            *final(self) == (Camera { max_depth, ..*old(self) }),
    {
        self.max_depth = max_depth;
    }

    /// Sets the vertical field of view, in degrees.
    pub fn set_vfov(&mut self, vfov: Fx)
        ensures
            *final(self) == (Camera { vfov, ..*old(self) }),
    {
        self.vfov = vfov;
    }

    /// Sets the point the camera is looking from.
    pub fn set_look_from(&mut self, look_from: Point)
        ensures
            *final(self) == (Camera { look_from, ..*old(self) }),
    {
        self.look_from = look_from;
    }

    /// Sets the point the camera is looking at.
    pub fn set_look_at(&mut self, look_at: Point)
        ensures
            *final(self) == (Camera { look_at, ..*old(self) }),
    {
        self.look_at = look_at;
    }

    /// Sets the camera-relative 'up' direction.
    pub fn set_view_up(&mut self, view_up: Vector)
        ensures
            *final(self) == (Camera { view_up, ..*old(self) }),
    {
        self.view_up = view_up;
    }

    /// Sets the defocus angle, in degrees.
    pub fn set_defocus_angle(&mut self, defocus_angle: Fx)
        ensures
            *final(self) == (Camera { defocus_angle, ..*old(self) }),
    {
        self.defocus_angle = defocus_angle;
    }

    /// Sets the focus distance.
    pub fn set_focus_distance(&mut self, focus_distance: Fx)
        ensures
            *final(self) == (Camera { focus_distance, ..*old(self) }),
    {
        self.focus_distance = focus_distance;
    }

    /// Derives the viewport state from the configuration.  Must run after the
    /// configuration setters and before ray generation; `render` calls it
    /// internally.
    pub fn initialize(&mut self)
        ensures
            *final(self) == cam_init(*old(self)),
    {
        let aspect_ratio = Fx::from_int(self.image_width as i64).div(
            Fx::from_int(self.image_height as i64),
        );
        let h = tan_approx(self.vfov.mul(Fx::new(RAD_PER_DEG_RAW)).div(Fx::new(TWO_RAW)));
        let viewport_height = Fx::new(TWO_RAW).mul(h).mul(self.focus_distance);
        let viewport_width = viewport_height.mul(aspect_ratio);

        let w = self.look_from.sub(self.look_at).normalize();
        let u = self.view_up.cross(&w).normalize();
        let v = w.cross(&u);

        let viewport_u = u.scale(viewport_width);
        let viewport_v = v.neg().scale(viewport_height);

        self.pixel_delta_u = viewport_u.div_scalar(Fx::from_int(self.image_width as i64));
        self.pixel_delta_v = viewport_v.div_scalar(Fx::from_int(self.image_height as i64));

        let viewport_top_left = self.look_from.sub_vector(w.scale(self.focus_distance))
            .sub_vector(viewport_u.div_scalar(Fx::new(TWO_RAW)))
            .sub_vector(viewport_v.div_scalar(Fx::new(TWO_RAW)));
        self.pixel00_location = viewport_top_left.add(
            self.pixel_delta_u.add(self.pixel_delta_v).scale(Fx::new(HALF_RAW)),
        );

        let defocus_radius = self.focus_distance.mul(
            tan_approx(self.defocus_angle.div(Fx::new(TWO_RAW)).mul(Fx::new(RAD_PER_DEG_RAW))),
        );
        self.defocus_disk_u = u.scale(defocus_radius);
        self.defocus_disk_v = v.scale(defocus_radius);
    }

    /// Generates the ray for pixel (x, y): a jittered sample point in the
    /// pixel square, cast from the camera position, or from a random point on
    /// the defocus disk when the defocus angle is positive.
    pub fn get_ray(&self, x: u32, y: u32, rng: &mut rand::rngs::StdRng) -> (r: Ray)
        ensures
            possible_ray(*self, x, y, r),
    {
        let pixel_center = self.pixel00_location.add(
            self.pixel_delta_u.scale(Fx::from_int(x as i64)),
        ).add(self.pixel_delta_v.scale(Fx::from_int(y as i64)));
        let off = self.sample_pixel_square(rng);
        let pixel_sample = pixel_center.add(off);

        let ray_origin = if self.defocus_angle.raw <= 0 {
            self.look_from
        } else {
            self.sample_defocus_disk(rng)
        };
        let ray_direction = pixel_sample.sub(ray_origin);

        Ray::new(ray_origin, ray_direction)
    }

    /// Calculates the color shading for a ray cast into the scene: black once
    /// the recursion budget is exhausted or the ray is absorbed, the
    /// attenuated recursive estimate after a scatter, and the sky gradient on
    /// a miss.  The result is always a possible estimate of the recursive
    /// radiance relation, and whatever randomness is drawn, a well-formed
    /// scene yields a radiance within the unit range.
    pub fn ray_color(&self, ray: Ray, depth: u32, scene: &Scene, rng: &mut rand::rngs::StdRng)
        -> (c: Color)
        ensures
            possible_radiance(scene.objects@, ray, depth as int, c),
            scene_wf(scene.objects@) ==> color_in_unit(c),
            depth == 0 ==> c.values == crate::vector::vec_of(0, 0, 0),
            depth >= 1 && scene_hit(scene.objects@, ray, render_interval()) is None ==> c
                == sky_color_spec(ray),
            depth >= 1 && (scene_hit(scene.objects@, ray, render_interval()) matches Some(h)
                && h.material is Absorb) ==> c.values == crate::vector::vec_of(0, 0, 0),
        decreases depth,
    {
        if depth == 0 {
            return Color::black();
        }
        match scene.intersect(ray, Interval::new(Fx::new(T_MIN_RAW), Fx::new(FX_MAX))) {
            Some(isect) => {
                proof {
                    if scene_wf(scene.objects@) {
                        crate::scene::lemma_scene_hit_from_wf(
                            scene.objects@,
                            0,
                            ray,
                            Fx { raw: T_MIN_RAW },
                            None,
                            Fx { raw: FX_MAX },
                        );
                    }
                }
                let unit_sample = Vector::random_unit_vector(rng);
                let coin = Fx::new(crate::sampling::rand_raw(rng, 0, SCALE));
                match isect.material.interact(ray, isect, unit_sample, coin) {
                    Some(iact) => {
                        proof {
                            if scene_wf(scene.objects@) {
                                crate::material::lemma_scatter_attenuation_in_unit(
                                    isect.material,
                                    ray,
                                    isect,
                                    unit_sample,
                                    coin.ival(),
                                );
                            }
                        }
                        let rec = self.ray_color(iact.scattered_ray, depth - 1, scene, rng);
                        let shaded = iact.attenuation.mul(rec);
                        proof {
                            if scene_wf(scene.objects@) {
                                lemma_attenuation_in_unit(iact.attenuation, rec);
                            }
                            lemma_bounce_scatter(
                                scene.objects@,
                                ray,
                                isect,
                                depth as int,
                                shaded,
                                unit_sample,
                                coin.ival(),
                                iact,
                                rec,
                            );
                            lemma_possible_radiance_witness(
                                scene.objects@,
                                ray,
                                depth as int,
                                shaded,
                                isect,
                                unit_sample,
                                coin.ival(),
                            );
                        }
                        shaded
                    },
                    None => {
                        let absorbed = Color::black();
                        proof {
                            lemma_bounce_absorb(
                                scene.objects@,
                                ray,
                                isect,
                                depth as int,
                                absorbed,
                                unit_sample,
                                coin.ival(),
                            );
                            lemma_possible_radiance_witness(
                                scene.objects@,
                                ray,
                                depth as int,
                                absorbed,
                                isect,
                                unit_sample,
                                coin.ival(),
                            );
                        }
                        absorbed
                    },
                }
            },
            None => sky_color(&ray),
        }
    }

    /// Renders one row of pixels: for each pixel, `samples_per_pixel`
    /// jittered rays are cast through it and their radiance estimates
    /// averaged; each produced pixel is a possible average of possible
    /// estimates for that pixel.
    pub fn render_row(&self, scene: &Scene, y: u32, rng: &mut rand::rngs::StdRng) -> (row: Vec<
        Color,
    >)
        requires
            self.samples_per_pixel >= 1,
        ensures
            row.len() == self.image_width,
            forall|j: int|
                0 <= j < row.len() ==> possible_pixel(
                    *self,
                    scene.objects@,
                    j as u32,
                    y,
                    #[trigger] row[j],
                ),
            scene_wf(scene.objects@) ==> forall|i: int|
                0 <= i < row.len() ==> color_in_unit(#[trigger] row[i]),
    {
        let mut row: Vec<Color> = Vec::new();
        let mut x: u32 = 0;
        while x < self.image_width
            invariant
                x <= self.image_width,
                row.len() == x,
                self.samples_per_pixel >= 1,
                forall|j: int|
                    0 <= j < row.len() ==> possible_pixel(
                        *self,
                        scene.objects@,
                        j as u32,
                        y,
                        #[trigger] row[j],
                    ),
                scene_wf(scene.objects@) ==> forall|i: int|
                    0 <= i < row.len() ==> color_in_unit(#[trigger] row[i]),
            decreases self.image_width - x,
        {
            let mut acc = Color::black();
            let mut s: u32 = 0;
            let ghost mut taken: Seq<Color> = Seq::empty();
            while s < self.samples_per_pixel
                invariant
                    s <= self.samples_per_pixel,
                    taken.len() == s,
                    acc.values == sum_colors(taken),
                    forall|i: int|
                        0 <= i < taken.len() ==> possible_sample(
                            *self,
                            scene.objects@,
                            x,
                            y,
                            #[trigger] taken[i],
                        ),
                    scene_wf(scene.objects@) ==> {
                        &&& 0 <= acc.values.x.raw <= s * SCALE
                        &&& 0 <= acc.values.y.raw <= s * SCALE
                        &&& 0 <= acc.values.z.raw <= s * SCALE
                    },
                decreases self.samples_per_pixel - s,
            {
                let ray = self.get_ray(x, y, rng);
                let sample = self.ray_color(ray, self.max_depth, scene, rng);
                proof {
                    assert(possible_ray(*self, x, y, ray) && possible_radiance(
                        scene.objects@,
                        ray,
                        self.max_depth as int,
                        sample,
                    ));
                    assert(possible_sample(*self, scene.objects@, x, y, sample));
                    assert(taken.push(sample).drop_last() =~= taken);
                    taken = taken.push(sample);
                }
                acc = acc.add(sample);
                s = s + 1;
            }
            let avg = acc.div_scalar(Fx::from_int(self.samples_per_pixel as i64));
            proof {
                if scene_wf(scene.objects@) {
                    let n = self.samples_per_pixel as int;
                    crate::fixed::lemma_fx_div_unit(acc.values.x.ival(), n * SCALE);
                    crate::fixed::lemma_fx_div_unit(acc.values.y.ival(), n * SCALE);
                    crate::fixed::lemma_fx_div_unit(acc.values.z.ival(), n * SCALE);
                }
                assert(taken.len() == self.samples_per_pixel && avg.values == vec_div_scalar(
                    sum_colors(taken),
                    fx_from_u32(self.samples_per_pixel),
                ));
                assert(possible_pixel(*self, scene.objects@, x, y, avg));
            }
            row.push(avg);
            x = x + 1;
        }
        row
    }

    /// Renders the scene: derives the viewport, then estimates every pixel's
    /// radiance row by row, top to bottom and left to right.  The result is
    /// row-major with one linear-RGB color per pixel, not gamma-corrected:
    /// the pixel at row `i / width` and column `i % width` is a possible
    /// average of that pixel's per-sample estimates.
    pub fn render(&mut self, scene: &Scene, rng: &mut rand::rngs::StdRng) -> (pixels: Vec<Color>)
        requires
            old(self).samples_per_pixel >= 1,
            old(self).image_width * old(self).image_height <= usize::MAX,
        ensures
            *final(self) == cam_init(*old(self)),
            pixels.len() == old(self).image_width * old(self).image_height,
            forall|i: int|
                0 <= i < pixels.len() ==> possible_pixel(
                    cam_init(*old(self)),
                    scene.objects@,
                    (i % (old(self).image_width as int)) as u32,
                    (i / (old(self).image_width as int)) as u32,
                    #[trigger] pixels[i],
                ),
            scene_wf(scene.objects@) ==> forall|i: int|
                0 <= i < pixels.len() ==> color_in_unit(#[trigger] pixels[i]),
    {
        self.initialize();
        let ghost cam = *self;
        let mut pixels: Vec<Color> = Vec::new();
        let mut y: u32 = 0;
        while y < self.image_height
            invariant
                y <= self.image_height,
                *self == cam,
                cam == cam_init(*old(self)),
                self.samples_per_pixel >= 1,
                self.image_width * self.image_height <= usize::MAX,
                pixels.len() == y * self.image_width,
                forall|i: int|
                    0 <= i < pixels.len() ==> possible_pixel(
                        cam,
                        scene.objects@,
                        (i % (cam.image_width as int)) as u32,
                        (i / (cam.image_width as int)) as u32,
                        #[trigger] pixels[i],
                    ),
                scene_wf(scene.objects@) ==> forall|i: int|
                    0 <= i < pixels.len() ==> color_in_unit(#[trigger] pixels[i]),
            decreases self.image_height - y,
        {
            proof {
                assert((y + 1) * self.image_width == y * self.image_width + self.image_width) by (
                nonlinear_arith)
                ;
                assert((y + 1) * self.image_width <= self.image_height * self.image_width) by (
                nonlinear_arith)
                    requires
                        y + 1 <= self.image_height,
                        self.image_width >= 0,
                ;
            }
            let ghost row_start = pixels@.len() as int;
            let mut row = self.render_row(scene, y, rng);
            let ghost the_row = row@;
            pixels.append(&mut row);
            proof {
                let w = cam.image_width as int;
                assert forall|i: int| row_start <= i < pixels@.len() implies possible_pixel(
                    cam,
                    scene.objects@,
                    (i % w) as u32,
                    (i / w) as u32,
                    #[trigger] pixels@[i],
                ) by {
                    let j = i - row_start;
                    vstd::arithmetic::div_mod::lemma_fundamental_div_mod_converse(
                        i,
                        w,
                        y as int,
                        j,
                    );
                    assert(pixels@[i] == the_row[j]);
                    assert(possible_pixel(cam, scene.objects@, j as u32, y, the_row[j]));
                }
            }
            y = y + 1;
        }
        proof {
            assert((self.image_height as int) * (self.image_width as int) == (
            self.image_width as int) * (self.image_height as int)) by (nonlinear_arith);
        }
        pixels
    }

    /// Samples a random offset within the pixel square: uniform in
    /// `[-0.5, 0.5)` along both pixel-delta axes.
    fn sample_pixel_square(&self, rng: &mut rand::rngs::StdRng) -> (r: Vector)
        ensures
            in_pixel_square(*self, r),
    {
        let dx = Fx::new(crate::sampling::rand_raw(rng, -HALF_RAW, HALF_RAW));
        let dy = Fx::new(crate::sampling::rand_raw(rng, -HALF_RAW, HALF_RAW));
        let r = self.pixel_delta_u.scale(dx).add(self.pixel_delta_v.scale(dy));
        proof {
            assert(in_pixel_square(*self, r)) by {
                assert(-HALF_RAW <= dx.ival() < HALF_RAW && -HALF_RAW <= dy.ival() < HALF_RAW
                    && r == vec_add(
                    vec_scale(self.pixel_delta_u, dx.ival()),
                    vec_scale(self.pixel_delta_v, dy.ival()),
                ));
            }
        }
        r
    }

    /// Samples a random point on the camera's defocus disk: a uniform draw
    /// from the square, normalized back onto the disk when it falls outside.
    fn sample_defocus_disk(&self, rng: &mut rand::rngs::StdRng) -> (r: Point)
        ensures
            exists|a: int, b: int|
                (-SCALE <= a < SCALE && -SCALE <= b < SCALE) && r.position
                    == #[trigger] disk_sample_of(*self, a, b),
    {
        let ar = crate::sampling::rand_raw(rng, -SCALE, SCALE);
        let br = crate::sampling::rand_raw(rng, -SCALE, SCALE);
        let mut dv = Vector::new(Fx::new(ar), Fx::new(br), Fx::zero());
        if dv.length_squared().raw > SCALE {
            dv = dv.normalize();
        }
        let r = self.look_from.add(self.defocus_disk_u.scale(dv.x())).add(
            self.defocus_disk_v.scale(dv.y()),
        );
        proof {
            assert(r.position == disk_sample_of(*self, ar as int, br as int));
        }
        r
    }
}

/// Mirror of the defocus-disk sampler for a given draw pair: the draw stays
/// as it is inside the unit disk and is normalized onto its rim from outside,
/// and the sampled point is the camera position displaced along the two disk
/// basis vectors by the kept coefficients.
pub open spec fn disk_sample_of(c: Camera, a: int, b: int) -> Vector {
    let dv = crate::vector::vec_of(a, b, 0);
    let kept = if crate::vector::vec_len_sq(dv) > SCALE {
        vec_normalize(dv)
    } else {
        dv
    };
    vec_add(
        vec_add(c.look_from.position, vec_scale(c.defocus_disk_u, kept.x.ival())),
        vec_scale(c.defocus_disk_v, kept.y.ival()),
    )
}

/// The rays the generator can produce for pixel (x, y): the origin is the
/// camera position — or a defocus-disk sample when the defocus angle is
/// positive — and the direction runs from the origin to a jittered sample
/// point within the pixel's square.
pub open spec fn possible_ray(c: Camera, x: u32, y: u32, r: Ray) -> bool {
    &&& if c.defocus_angle.raw <= 0 {
        r.origin == c.look_from
    } else {
        exists|a: int, b: int|
            (-SCALE <= a < SCALE && -SCALE <= b < SCALE) && r.origin.position
                == #[trigger] disk_sample_of(c, a, b)
    }
    &&& exists|off: Vector|
        #[trigger] in_pixel_square(c, off) && r.direction == vec_sub(
            vec_add(pixel_center_of(c, x, y), off),
            r.origin.position,
        )
}

/// The radiance estimates a ray can produce at a given depth, per the
/// recursive estimator: black once the recursion budget is exhausted; the sky
/// gradient on a miss; and on a hit — for some draw of the per-bounce
/// randomness, a unit sample within the sampler's bounds and a reflectance
/// coin in `[0, 1)` — black when the material absorbs the ray, and otherwise
/// the attenuation times a possible estimate for the scattered ray, one
/// bounce down.
pub open spec fn possible_radiance(scene: Seq<Shape>, ray: Ray, depth: int, c: Color) -> bool
    decreases depth, 1int,
{
    if depth <= 0 {
        c.values == crate::vector::vec_of(0, 0, 0)
    } else {
        match scene_hit(scene, ray, render_interval()) {
            Option::None => c == sky_color_spec(ray),
            Option::Some(isect) => exists|unit: Vector, coin: int|
                #[trigger] drawn_randomness(unit, coin) && bounce_outcome(
                    scene,
                    ray,
                    isect,
                    depth,
                    c,
                    unit,
                    coin,
                ),
        }
    }
}

/// Trigger marker for a quantified per-bounce draw.
pub open spec fn drawn_randomness(unit: Vector, coin: int) -> bool {
    true
}

/// Trigger marker for a quantified recursive estimate.
pub open spec fn some_estimate(c: Color) -> bool {
    true
}

/// One bounce's outcome for a given draw of the randomness: the unit sample
/// lies within the sampler's bounds and the reflectance coin in `[0, 1)`;
/// the estimate is black when the material absorbs the ray for that draw,
/// and otherwise the attenuation times a possible estimate of the scattered
/// ray, one bounce down.
pub open spec fn bounce_outcome(
    scene: Seq<Shape>,
    ray: Ray,
    isect: crate::shape::Intersection,
    depth: int,
    c: Color,
    unit: Vector,
    coin: int,
) -> bool
    decreases depth, 0int,
{
    &&& -SCALE <= unit.x.raw <= SCALE
    &&& -SCALE <= unit.y.raw <= SCALE
    &&& -SCALE <= unit.z.raw <= SCALE
    &&& 0 <= coin < SCALE
    &&& match crate::material::material_scatter(isect.material, ray, isect, unit, coin) {
        Option::None => c.values == crate::vector::vec_of(0, 0, 0),
        Option::Some(iact) => if depth >= 1 {
            exists|rec: Color|
                #[trigger] some_estimate(rec) && possible_radiance(
                    scene,
                    iact.scattered_ray,
                    depth - 1,
                    rec,
                ) && c.values == crate::vector::vec_mul(iact.attenuation.values, rec.values)
        } else {
            false
        },
    }
}

/// An absorbing draw is a bounce outcome: the material scatters nothing and
/// the estimate is black.
proof fn lemma_bounce_absorb(
    scene: Seq<Shape>,
    ray: Ray,
    isect: crate::shape::Intersection,
    depth: int,
    c: Color,
    unit: Vector,
    coin: int,
)
    requires
        -SCALE <= unit.x.raw <= SCALE,
        -SCALE <= unit.y.raw <= SCALE,
        -SCALE <= unit.z.raw <= SCALE,
        0 <= coin < SCALE,
        crate::material::material_scatter(isect.material, ray, isect, unit, coin) is None,
        c.values == crate::vector::vec_of(0, 0, 0),
    ensures
        bounce_outcome(scene, ray, isect, depth, c, unit, coin),
{
}

/// A scattering draw with a possible recursive estimate is a bounce outcome:
/// the estimate is the attenuation times the recursive one.
proof fn lemma_bounce_scatter(
    scene: Seq<Shape>,
    ray: Ray,
    isect: crate::shape::Intersection,
    depth: int,
    c: Color,
    unit: Vector,
    coin: int,
    iact: crate::material::Interaction,
    rec: Color,
)
    requires
        depth >= 1,
        -SCALE <= unit.x.raw <= SCALE,
        -SCALE <= unit.y.raw <= SCALE,
        -SCALE <= unit.z.raw <= SCALE,
        0 <= coin < SCALE,
        crate::material::material_scatter(isect.material, ray, isect, unit, coin) == Some(iact),
        possible_radiance(scene, iact.scattered_ray, depth - 1, rec),
        c.values == crate::vector::vec_mul(iact.attenuation.values, rec.values),
    ensures
        bounce_outcome(scene, ray, isect, depth, c, unit, coin),
{
    assert(some_estimate(rec) && possible_radiance(scene, iact.scattered_ray, depth - 1, rec)
        && c.values == crate::vector::vec_mul(iact.attenuation.values, rec.values));
    assert(exists|r2: Color|
        #[trigger] some_estimate(r2) && possible_radiance(scene, iact.scattered_ray, depth - 1, r2)
            && c.values == crate::vector::vec_mul(iact.attenuation.values, r2.values));
}

/// A bounce outcome at the nearest hit is a possible radiance.
proof fn lemma_possible_radiance_witness(
    scene: Seq<Shape>,
    ray: Ray,
    depth: int,
    c: Color,
    isect: crate::shape::Intersection,
    unit: Vector,
    coin: int,
)
    requires
        depth >= 1,
        scene_hit(scene, ray, render_interval()) == Some(isect),
        bounce_outcome(scene, ray, isect, depth, c, unit, coin),
    ensures
        possible_radiance(scene, ray, depth, c),
{
    assert(drawn_randomness(unit, coin) && bounce_outcome(scene, ray, isect, depth, c, unit, coin));
    assert(exists|u2: Vector, c2: int|
        #[trigger] drawn_randomness(u2, c2) && bounce_outcome(scene, ray, isect, depth, c, u2, c2));
}

/// The channel-wise sum of a sequence of colors, accumulated in order.
pub open spec fn sum_colors(s: Seq<Color>) -> Vector
    decreases s.len(),
{
    if s.len() == 0 {
        crate::vector::vec_of(0, 0, 0)
    } else {
        vec_add(sum_colors(s.drop_last()), s.last().values)
    }
}

/// The radiance estimates one sample can contribute to pixel (x, y): an
/// estimate, to the camera's bounce budget, for some ray the generator can
/// cast through that pixel.
pub open spec fn possible_sample(c: Camera, scene: Seq<Shape>, x: u32, y: u32, s: Color) -> bool {
    exists|r: Ray|
        #[trigger] possible_ray(c, x, y, r) && possible_radiance(scene, r, c.max_depth as int, s)
}

/// The pixel values the renderer can produce at (x, y): the channel-wise
/// average of `samples_per_pixel` radiance estimates, each possible for a
/// ray through that pixel's square.
pub open spec fn possible_pixel(c: Camera, scene: Seq<Shape>, x: u32, y: u32, p: Color) -> bool {
    exists|samples: Seq<Color>|
        {
            &&& #[trigger] samples.len() == c.samples_per_pixel
            &&& forall|i: int|
                0 <= i < samples.len() ==> possible_sample(c, scene, x, y, #[trigger] samples[i])
            &&& p.values == vec_div_scalar(sum_colors(samples), fx_from_u32(c.samples_per_pixel))
        }
}

/// The search interval of the radiance estimator: from a small positive bound
/// that suppresses self-intersection up to the saturation limit, which no
/// representable parameter reaches (the upper bound is exclusive).
pub open spec fn render_interval() -> Interval {
    Interval { start: Fx { raw: T_MIN_RAW }, end: Fx { raw: FX_MAX } }
}

/// Whether `v` is an offset within the pixel square: a combination of the two
/// pixel-delta axes with coefficients in `[-0.5, 0.5)`.
pub open spec fn in_pixel_square(c: Camera, v: Vector) -> bool {
    exists|dx: int, dy: int|
        (-HALF_RAW <= dx < HALF_RAW && -HALF_RAW <= dy < HALF_RAW) && v == #[trigger] vec_add(
            vec_scale(c.pixel_delta_u, dx),
            vec_scale(c.pixel_delta_v, dy),
        )
}

/// Mirror of the center of pixel (x, y) on the viewport.
pub open spec fn pixel_center_of(c: Camera, x: u32, y: u32) -> Vector {
    vec_add(
        vec_add(c.pixel00_location.position, vec_scale(c.pixel_delta_u, fx_from_u32(x))),
        vec_scale(c.pixel_delta_v, fx_from_u32(y)),
    )
}

/// Mirror of the sky gradient: a vertical linear blend, by the normalized
/// ray direction's y component, from white at the horizon to pale blue at
/// the zenith, with the blend factor clamped into the unit range.
pub open spec fn sky_color_spec(ray: Ray) -> Color {
    let n = vec_normalize(ray.direction);
    let a0 = fx_mul(HALF_RAW as int, fx_add(n.y.ival(), SCALE as int));
    let a = if a0 < 0 {
        0
    } else if a0 > SCALE {
        SCALE as int
    } else {
        a0
    };
    Color {
        values: vec_add(
            vec_scale(
                Vector { x: Fx { raw: SCALE }, y: Fx { raw: SCALE }, z: Fx { raw: SCALE } },
                fx_sub(SCALE as int, a),
            ),
            vec_scale(
                Vector { x: Fx { raw: HALF_RAW }, y: Fx { raw: SKY_GREEN_RAW }, z: Fx { raw: SCALE } },
                a,
            ),
        ),
    }
}

/// Background shading for a ray that escapes the scene.
fn sky_color(ray: &Ray) -> (c: Color)
    ensures
        c == sky_color_spec(*ray),
        color_in_unit(c),
{
    let n = ray.direction.normalize();
    let a0 = Fx::new(HALF_RAW).mul(n.y().add(Fx::one()));
    let a = if a0.raw < 0 {
        Fx::zero()
    } else if a0.raw > SCALE {
        Fx::one()
    } else {
        a0
    };
    let white = Color::white();
    let zenith = Color::new(Fx::new(HALF_RAW), Fx::new(SKY_GREEN_RAW), Fx::one());
    let c = white.scale(Fx::one().sub(a)).add(zenith.scale(a));
    proof {
        lemma_sky_in_unit(a.ival());
    }
    c
}

/// The blended sky color stays within the unit range for any blend factor in
/// the unit range.
proof fn lemma_sky_in_unit(a: int)
    requires
        0 <= a <= SCALE,
    ensures
        0 <= fx_add(fx_mul(SCALE as int, fx_sub(SCALE as int, a)), fx_mul(HALF_RAW as int, a))
            <= SCALE,
        0 <= fx_add(fx_mul(SCALE as int, fx_sub(SCALE as int, a)), fx_mul(SKY_GREEN_RAW as int, a))
            <= SCALE,
        0 <= fx_add(fx_mul(SCALE as int, fx_sub(SCALE as int, a)), fx_mul(SCALE as int, a))
            <= SCALE,
{
    crate::fixed::lemma_fx_one_mul(SCALE - a);
    crate::fixed::lemma_fx_one_mul(a);
    crate::fixed::lemma_fx_mul_attenuates(HALF_RAW as int, a);
    crate::fixed::lemma_fx_mul_attenuates(SKY_GREEN_RAW as int, a);
}

/// Attenuating a unit-range radiance by a unit-range attenuation stays in the
/// unit range.
proof fn lemma_attenuation_in_unit(attenuation: Color, radiance: Color)
    requires
        color_in_unit(attenuation),
        color_in_unit(radiance),
    ensures
        color_in_unit(
            Color { values: crate::vector::vec_mul(attenuation.values, radiance.values) },
        ),
{
    crate::fixed::lemma_fx_mul_attenuates(attenuation.values.x.ival(), radiance.values.x.ival());
    crate::fixed::lemma_fx_mul_attenuates(attenuation.values.y.ival(), radiance.values.y.ival());
    crate::fixed::lemma_fx_mul_attenuates(attenuation.values.z.ival(), radiance.values.z.ival());
}

} // verus!
