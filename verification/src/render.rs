//! The recursive integrator and the render orchestrator's verified parts:
//! per-band rendering, band partitioning and band merging.

use vstd::prelude::*;

use crate::camera::{cam_wf, Camera};
use crate::color::{color_clamped, color_wf, Color};
use crate::fixed::{fx_wf, Fx};
use crate::ray::{ray_wf, Ray};
use crate::sampler::Sampler;
use crate::scene::{scene_wf, spec_scene_trace, Scene};
use crate::utils::{info_wf, GeneralInfo};
use crate::vector3::{v3_wf, Vector3};

verus! {

/// Raw lower ray-parameter bound of every trace (about 1e-4).
pub const T_MIN_RAW: i64 = 7;

/// Raw upper ray-parameter bound of every trace (10000).
pub const T_MAX_RAW: i64 = 655360000;

/// The background blend parameter of a ray direction:
/// `0.5·(unit_y + 1)`, clamped into `[0, 1]` so the blend below is always a
/// convex combination (normalization can overshoot by a quantum).
#[verifier::opaque]
pub open spec fn spec_background_t(d: Vector3) -> Fx {
    let unit = Vector3::spec_normalize(d);
    let t0 = Fx { raw: 32768 }.spec_mul(unit.y.spec_add(Fx { raw: 65536 }));
    t0.spec_max(Fx { raw: 0 }).spec_min(Fx { raw: 65536 })
}

/// The vertical background gradient: white blended toward sky blue by the
/// clamped parameter. Opaque, like every composite spec a loop sums over.
#[verifier::opaque]
pub open spec fn spec_background(d: Vector3) -> Color {
    let t = spec_background_t(d);
    let one = Fx { raw: 65536 };
    Color::spec_add(
        Color::spec_scale(Color { r: one, g: one, b: one }, one.spec_sub(t)),
        Color::spec_scale(Color { r: Fx { raw: 32768 }, g: Fx { raw: 45875 }, b: one }, t),
    )
}

fn background(d: &Vector3) -> (c: Color)
    requires
        v3_wf(*d),
    ensures
        c == spec_background(*d),
        color_wf(c),
{
    proof {
        reveal(spec_background_t);
        reveal(spec_background);
    }
    let unit = d.normalize();
    let one = Fx { raw: 65536 };
    let t0 = Fx { raw: 32768 }.mul(unit.y.add(one));
    let t = t0.max(Fx { raw: 0 }).min(one);
    let c1 = Color::scale(&Color { r: one, g: one, b: one }, one.sub(t));
    let c2 = Color::scale(&Color { r: Fx { raw: 32768 }, g: Fx { raw: 45875 }, b: one }, t);
    Color::add(&c1, &c2)
}

/// What the integrator returns for a ray at the given depth, and the sampler
/// state it leaves: depth 0 is black; a miss is the background gradient; a
/// hit scatters, multiplying the attenuation into the recursive color, or
/// contributes black when the material absorbs the ray. Opaque: the loops
/// above it relate colors by congruence.
#[verifier::opaque]
pub open spec fn spec_ray_color(scene: Scene, ray: Ray, depth: u64, f: Fx, smp: Sampler) -> (
    Color,
    Sampler,
)
    decreases depth,
{
    if depth == 0 {
        (Color::spec_black(), smp)
    } else {
        match spec_scene_trace(scene, ray, Fx { raw: T_MIN_RAW }, Fx { raw: T_MAX_RAW }, f) {
            Some(hit) => {
                let sc = hit.material.spec_scatter(ray, hit, smp);
                match sc.0 {
                    Some(res) => {
                        let rec = spec_ray_color(scene, res.ray, (depth - 1) as u64, f, sc.1);
                        (Color::spec_mul(res.attenuation, rec.0), rec.1)
                    },
                    None => (Color::spec_black(), sc.1),
                }
            },
            None => (spec_background(ray.direction), smp),
        }
    }
}

/// Integrate one ray: trace, scatter, recurse until the depth budget or an
/// absorption ends the path.
pub fn ray_color(scene: &Scene, ray: Ray, depth: u64, f: Fx, s: &mut Sampler) -> (c: Color)
    requires
        scene_wf(*scene),
        ray_wf(ray),
        fx_wf(f),
    ensures
        c == spec_ray_color(*scene, ray, depth, f, *old(s)).0,
        *final(s) == spec_ray_color(*scene, ray, depth, f, *old(s)).1,
        color_wf(c),
    decreases depth,
{
    proof {
        reveal(spec_ray_color);
    }
    if depth == 0 {
        return Color::black();
    }
    let trace_res = scene.trace(&ray, Fx { raw: T_MIN_RAW }, Fx { raw: T_MAX_RAW }, f);
    match trace_res {
        Some(hit) => {
            let scatter_opt = hit.material.scatter(&ray, &hit, s);
            match scatter_opt {
                Some(scatter) => {
                    let rec = ray_color(scene, scatter.ray, depth - 1, f, s);
                    Color::mul(&scatter.attenuation, &rec)
                },
                None => Color::black(),
            }
        },
        None => background(ray.get_direction()),
    }
}

/// The sum of the first `k` jittered samples of pixel `(w, h)`, and the
/// sampler state after them.
pub open spec fn spec_sample_sum(
    scene: Scene,
    cam: Camera,
    info: GeneralInfo,
    w: u64,
    h: u64,
    f: Fx,
    smp: Sampler,
    k: u64,
) -> (Color, Sampler)
    decreases k,
{
    if k == 0 {
        (Color::spec_black(), smp)
    } else {
        let prev = spec_sample_sum(scene, cam, info, w, h, f, smp, (k - 1) as u64);
        let ray = cam.spec_get_ray(w, h, info.out_width, info.out_height, prev.1);
        let col = spec_ray_color(scene, ray.0, info.ray_recursion, f, ray.1);
        (Color::spec_add(prev.0, col.0), col.1)
    }
}

/// The finished color of pixel `(w, h)`: the sample sum averaged when
/// sampling is on; a sample count of zero disables averaging and takes one
/// single unaveraged sample. Either way the result is clamped into the
/// displayable band.
pub open spec fn spec_pixel(
    scene: Scene,
    cam: Camera,
    info: GeneralInfo,
    w: u64,
    h: u64,
    f: Fx,
    smp: Sampler,
) -> (Color, Sampler) {
    if info.aa_sampling == 0 {
        let ray = cam.spec_get_ray(w, h, info.out_width, info.out_height, smp);
        let col = spec_ray_color(scene, ray.0, info.ray_recursion, f, ray.1);
        (Color::spec_clamp(col.0), col.1)
    } else {
        let ss = spec_sample_sum(scene, cam, info, w, h, f, smp, info.aa_sampling);
        let avg = Color::spec_scale(
            ss.0,
            Fx { raw: 65536 }.spec_div(Fx::spec_from_int(info.aa_sampling as int)),
        );
        (Color::spec_clamp(avg), ss.1)
    }
}

fn pixel_color(
    scene: &Scene,
    camera: &Camera,
    info: &GeneralInfo,
    w: u64,
    h: u64,
    f: Fx,
    s: &mut Sampler,
) -> (c: Color)
    requires
        scene_wf(*scene),
        cam_wf(*camera),
        info_wf(*info),
        fx_wf(f),
        w < info.out_width,
        h < info.out_height,
    ensures
        c == spec_pixel(*scene, *camera, *info, w, h, f, *old(s)).0,
        *final(s) == spec_pixel(*scene, *camera, *info, w, h, f, *old(s)).1,
        color_clamped(c),
        color_wf(c),
{
    if info.aa_sampling == 0 {
        let ray = camera.get_ray(w, h, info.out_width, info.out_height, s);
        let mut c = ray_color(scene, ray, info.ray_recursion, f, s);
        c.clamp();
        return c;
    }
    let mut c = Color::black();
    let mut k: u64 = 0;
    while k < info.aa_sampling
        invariant
            k <= info.aa_sampling,
            scene_wf(*scene),
            cam_wf(*camera),
            info_wf(*info),
            fx_wf(f),
            w < info.out_width,
            h < info.out_height,
            c == spec_sample_sum(*scene, *camera, *info, w, h, f, *old(s), k).0,
            *s == spec_sample_sum(*scene, *camera, *info, w, h, f, *old(s), k).1,
            color_wf(c),
        decreases info.aa_sampling - k,
    {
        let ray = camera.get_ray(w, h, info.out_width, info.out_height, s);
        let rc = ray_color(scene, ray, info.ray_recursion, f, s);
        c = Color::add(&c, &rc);
        k = k + 1;
    }
    c = Color::scale(&c, Fx { raw: 65536 }.div(Fx::from_int(info.aa_sampling as i64)));
    c.clamp();
    c
}

/// The pixels of row `h` from column `w0` to `w1`, left to right, and the
/// sampler state after them.
pub open spec fn spec_render_row(
    scene: Scene,
    cam: Camera,
    info: GeneralInfo,
    w0: u64,
    w1: u64,
    h: u64,
    f: Fx,
    smp: Sampler,
) -> (Seq<Color>, Sampler)
    decreases w1 - w0,
{
    if w0 >= w1 {
        (Seq::empty(), smp)
    } else {
        let px = spec_pixel(scene, cam, info, w0, h, f, smp);
        let rest = spec_render_row(scene, cam, info, (w0 + 1) as u64, w1, h, f, px.1);
        (seq![px.0] + rest.0, rest.1)
    }
}

/// The row-major pixels of rows `h0..h1` over columns `w0..w1`, and the
/// sampler state after them.
pub open spec fn spec_render_rows(
    scene: Scene,
    cam: Camera,
    info: GeneralInfo,
    w0: u64,
    w1: u64,
    h0: u64,
    h1: u64,
    f: Fx,
    smp: Sampler,
) -> (Seq<Color>, Sampler)
    decreases h1 - h0,
{
    if h0 >= h1 {
        (Seq::empty(), smp)
    } else {
        let row = spec_render_row(scene, cam, info, w0, w1, h0, f, smp);
        let rest = spec_render_rows(scene, cam, info, w0, w1, (h0 + 1) as u64, h1, f, row.1);
        (row.0 + rest.0, rest.1)
    }
}

/// Render the band of rows `h_start..h_end` over columns `w_start..w_end`
/// for frame `f`, row-major, drawing every jitter and bounce from `s`.
#[verifier::rlimit(100)]
pub fn render(
    w_start: u64,
    w_end: u64,
    h_start: u64,
    h_end: u64,
    info: &GeneralInfo,
    camera: &Camera,
    scene: &Scene,
    f: Fx,
    s: &mut Sampler,
) -> (data: Vec<Color>)
    requires
        scene_wf(*scene),
        cam_wf(*camera),
        info_wf(*info),
        fx_wf(f),
        w_start <= w_end,
        w_end <= info.out_width,
        h_start <= h_end,
        h_end <= info.out_height,
    ensures
        data@ == spec_render_rows(
            *scene,
            *camera,
            *info,
            w_start,
            w_end,
            h_start,
            h_end,
            f,
            *old(s),
        ).0,
        *final(s) == spec_render_rows(
            *scene,
            *camera,
            *info,
            w_start,
            w_end,
            h_start,
            h_end,
            f,
            *old(s),
        ).1,
        data@.len() == (h_end - h_start) * (w_end - w_start),
        forall|k: int| 0 <= k < data@.len() ==> color_clamped(#[trigger] data@[k]),
{
    let ghost s0 = *old(s);
    let ghost whole = spec_render_rows(
        *scene,
        *camera,
        *info,
        w_start,
        w_end,
        h_start,
        h_end,
        f,
        s0,
    );
    let mut data: Vec<Color> = Vec::new();
    let mut h: u64 = h_start;
    while h < h_end
        invariant
            h_start <= h <= h_end,
            scene_wf(*scene),
            cam_wf(*camera),
            info_wf(*info),
            fx_wf(f),
            w_start <= w_end,
            w_end <= info.out_width,
            h_end <= info.out_height,
            whole == spec_render_rows(
                *scene,
                *camera,
                *info,
                w_start,
                w_end,
                h_start,
                h_end,
                f,
                s0,
            ),
            whole.0 == data@ + spec_render_rows(
                *scene,
                *camera,
                *info,
                w_start,
                w_end,
                h,
                h_end,
                f,
                *s,
            ).0,
            whole.1 == spec_render_rows(
                *scene,
                *camera,
                *info,
                w_start,
                w_end,
                h,
                h_end,
                f,
                *s,
            ).1,
            data@.len() == (h - h_start) * (w_end - w_start),
            forall|k: int| 0 <= k < data@.len() ==> color_clamped(#[trigger] data@[k]),
        decreases h_end - h,
    {
        let ghost s_row = *s;
        let ghost row = spec_render_row(
            *scene,
            *camera,
            *info,
            w_start,
            w_end,
            h,
            f,
            s_row,
        );
        let ghost data_row_start = data@;
        let mut w: u64 = w_start;
        while w < w_end
            invariant
                w_start <= w <= w_end,
                h < h_end,
                scene_wf(*scene),
                cam_wf(*camera),
                info_wf(*info),
                fx_wf(f),
                w_end <= info.out_width,
                h_end <= info.out_height,
                row == spec_render_row(*scene, *camera, *info, w_start, w_end, h, f, s_row),
                row.0 == data@.subrange(data_row_start.len() as int, data@.len() as int)
                    + spec_render_row(*scene, *camera, *info, w, w_end, h, f, *s).0,
                row.1 == spec_render_row(*scene, *camera, *info, w, w_end, h, f, *s).1,
                data@.len() == data_row_start.len() + (w - w_start),
                data@.subrange(0, data_row_start.len() as int) == data_row_start,
                forall|k: int| 0 <= k < data@.len() ==> color_clamped(#[trigger] data@[k]),
            decreases w_end - w,
        {
            let px = pixel_color(scene, camera, info, w, h, f, s);
            data.push(px);
            proof {
                let pre = data@.subrange(0, data_row_start.len() as int);
                assert(pre == data_row_start);
                let done = data@.subrange(data_row_start.len() as int, data@.len() as int);
                let old_done = data@.subrange(
                    data_row_start.len() as int,
                    data@.len() as int - 1,
                );
                assert(done =~= old_done + seq![px]);
                let rem = spec_render_row(*scene, *camera, *info, w, w_end, h, f, *s);
                assert(old_done + (seq![px] + rem.0) =~= (old_done + seq![px]) + rem.0);
            }
            w = w + 1;
        }
        proof {
            let done = data@.subrange(data_row_start.len() as int, data@.len() as int);
            assert(row.0 =~= done);
            assert(data@ =~= data_row_start + done);
            let rest = spec_render_rows(
                *scene,
                *camera,
                *info,
                w_start,
                w_end,
                (h + 1) as u64,
                h_end,
                f,
                *s,
            );
            assert(data_row_start + (row.0 + rest.0) =~= (data_row_start + row.0) + rest.0);
            assert((h + 1 - h_start) * (w_end - w_start) == (h - h_start) * (w_end - w_start) + (
            w_end - w_start)) by (nonlinear_arith);
        }
        h = h + 1;
    }
    data
}

/// Render the whole raster for frame `f` in one sequential pass.
pub fn render_image(
    info: &GeneralInfo,
    camera: &Camera,
    scene: &Scene,
    f: Fx,
    s: &mut Sampler,
) -> (data: Vec<Color>)
    requires
        scene_wf(*scene),
        cam_wf(*camera),
        info_wf(*info),
        fx_wf(f),
    ensures
        data@ == spec_render_rows(
            *scene,
            *camera,
            *info,
            0,
            info.out_width,
            0,
            info.out_height,
            f,
            *old(s),
        ).0,
        *final(s) == spec_render_rows(
            *scene,
            *camera,
            *info,
            0,
            info.out_width,
            0,
            info.out_height,
            f,
            *old(s),
        ).1,
        data@.len() == info.out_height * info.out_width,
        forall|k: int| 0 <= k < data@.len() ==> color_clamped(#[trigger] data@[k]),
{
    render(0, info.out_width, 0, info.out_height, info, camera, scene, f, s)
}

/// The first row of worker `i`'s band: `i` times the even share of the
/// height.
pub open spec fn spec_band_start(i: u64, threads: u64, height: u64) -> int {
    i * (height as int / threads as int)
}

/// The row one past worker `i`'s band: the next band's first row, except
/// that the last worker absorbs the remainder of the division.
pub open spec fn spec_band_end(i: u64, threads: u64, height: u64) -> int {
    if (i as int) < threads as int - 1 {
        spec_band_start(i, threads, height) + height as int / threads as int
    } else {
        height as int
    }
}

/// The contiguous row band worker `i` of `threads` renders.
pub fn band_bounds(i: u64, threads: u64, height: u64) -> (r: (u64, u64))
    requires
        1 <= threads,
        i < threads,
        height <= 0x10000,
    ensures
        r.0 as int == spec_band_start(i, threads, height),
        r.1 as int == spec_band_end(i, threads, height),
        r.0 <= r.1 <= height,
{
    let share = height / threads;
    proof {
        assert((i as int) * (share as int) + share as int <= height as int || (i as int)
            == threads as int - 1) by (nonlinear_arith)
            requires
                share as int == height as int / threads as int,
                threads >= 1,
                i < threads,
                height >= 0;
        assert((i as int) * (share as int) <= height as int) by (nonlinear_arith)
            requires
                share as int == height as int / threads as int,
                threads >= 1,
                i < threads,
                height >= 0;
    }
    let min_h = i * share;
    let max_h = if i < threads - 1 {
        min_h + share
    } else {
        height
    };
    (min_h, max_h)
}

/// The bands of `band_bounds` tile the rows exactly: the first band starts
/// at row zero, each band ends where the next begins, and the last band ends
/// at the height.
pub proof fn lemma_bands_partition(threads: u64, height: u64, i: u64)
    requires
        1 <= threads,
    ensures
        spec_band_start(0, threads, height) == 0,
        i + 1 < threads ==> spec_band_end(i, threads, height) == spec_band_start(
            (i + 1) as u64,
            threads,
            height,
        ),
        spec_band_end((threads - 1) as u64, threads, height) == height,
{
    let share = height as int / threads as int;
    if i + 1 < threads {
        assert((i as int) * share + share == (i as int + 1) * share) by (nonlinear_arith);
    }
}

/// Scatter one worker's band into the final buffer at its row offset,
/// leaving every other pixel unchanged.
pub fn merge_band(data: &mut Vec<Color>, h_start: u64, width: u64, part: &Vec<Color>)
    requires
        h_start <= 0x10000,
        width <= 0x10000,
        (h_start as int) * (width as int) + part@.len() <= old(data)@.len(),
        old(data)@.len() <= 0x4000_0000,
    ensures
        final(data)@.len() == old(data)@.len(),
        forall|k: int|
            0 <= k < (h_start as int) * (width as int) ==> #[trigger] final(data)@[k] == old(
                data,
            )@[k],
        forall|k: int|
            0 <= k < part@.len() ==> #[trigger] final(data)@[(h_start as int) * (width as int)
                + k] == part@[k],
        forall|k: int|
            (h_start as int) * (width as int) + part@.len() <= k < old(data)@.len()
                ==> #[trigger] final(data)@[k] == old(data)@[k],
{
    proof {
        assert((h_start as int) * (width as int) >= 0) by (nonlinear_arith);
        assert((h_start as int) * (width as int) <= 0x10000 * 0x10000) by (nonlinear_arith)
            requires
                0 <= h_start <= 0x10000,
                0 <= width <= 0x10000;
    }
    let start64: u64 = h_start * width;
    let start: usize = start64 as usize;
    let mut idx: usize = 0;
    while idx < part.len()
        invariant
            0 <= idx <= part@.len(),
            start as int == (h_start as int) * (width as int),
            start + part@.len() <= data@.len(),
            data@.len() == old(data)@.len(),
            data@.len() <= 0x4000_0000,
            forall|k: int| 0 <= k < start as int ==> #[trigger] data@[k] == old(data)@[k],
            forall|k: int|
                0 <= k < idx as int ==> #[trigger] data@[start as int + k] == part@[k],
            forall|k: int|
                start as int + idx as int <= k < data@.len() ==> #[trigger] data@[k] == old(
                    data,
                )@[k],
        decreases part@.len() - idx,
    {
        let elem = &mut data[start + idx];
        *elem = part[idx];
        idx = idx + 1;
    }
}

/// The sampler state a Fixed sampler leaves behind after a scatter is the
/// same Fixed sampler.
proof fn lemma_scatter_fixed(m: crate::material::Material, ray: Ray, hit: crate::renderable::HitRecord, k: u64)
    ensures
        m.spec_scatter(ray, hit, Sampler::Fixed(k)).1 == Sampler::Fixed(k),
{
    reveal(crate::material::Material::spec_scatter);
    reveal(Vector3::spec_random_in_unit_sphere);
}

/// A Fixed sampler runs through the integrator unchanged.
proof fn lemma_ray_color_fixed(scene: Scene, ray: Ray, depth: u64, f: Fx, k: u64)
    ensures
        spec_ray_color(scene, ray, depth, f, Sampler::Fixed(k)).1 == Sampler::Fixed(k),
    decreases depth,
{
    reveal(spec_ray_color);
    if depth > 0 {
        match spec_scene_trace(scene, ray, Fx { raw: T_MIN_RAW }, Fx { raw: T_MAX_RAW }, f) {
            Some(hit) => {
                lemma_scatter_fixed(hit.material, ray, hit, k);
                let sc = hit.material.spec_scatter(ray, hit, Sampler::Fixed(k));
                match sc.0 {
                    Some(res) => {
                        lemma_ray_color_fixed(scene, res.ray, (depth - 1) as u64, f, k);
                    },
                    None => {},
                }
            },
            None => {},
        }
    }
}

/// A Fixed sampler runs through any number of samples unchanged.
proof fn lemma_sample_sum_fixed(
    scene: Scene,
    cam: Camera,
    info: GeneralInfo,
    w: u64,
    h: u64,
    f: Fx,
    k: u64,
    n: u64,
)
    ensures
        spec_sample_sum(scene, cam, info, w, h, f, Sampler::Fixed(k), n).1 == Sampler::Fixed(k),
    decreases n,
{
    reveal(Camera::spec_get_ray);
    if n > 0 {
        lemma_sample_sum_fixed(scene, cam, info, w, h, f, k, (n - 1) as u64);
        let prev = spec_sample_sum(scene, cam, info, w, h, f, Sampler::Fixed(k), (n - 1) as u64);
        let ray = cam.spec_get_ray(w, h, info.out_width, info.out_height, prev.1);
        lemma_ray_color_fixed(scene, ray.0, info.ray_recursion, f, k);
    }
}

/// A Fixed sampler runs through a whole pixel unchanged.
proof fn lemma_pixel_fixed(scene: Scene, cam: Camera, info: GeneralInfo, w: u64, h: u64, f: Fx, k: u64)
    ensures
        spec_pixel(scene, cam, info, w, h, f, Sampler::Fixed(k)).1 == Sampler::Fixed(k),
{
    if info.aa_sampling == 0 {
        reveal(Camera::spec_get_ray);
        let ray = cam.spec_get_ray(w, h, info.out_width, info.out_height, Sampler::Fixed(k));
        lemma_ray_color_fixed(scene, ray.0, info.ray_recursion, f, k);
    } else {
        lemma_sample_sum_fixed(scene, cam, info, w, h, f, k, info.aa_sampling);
    }
}

/// A Fixed sampler runs through a whole row unchanged.
proof fn lemma_row_fixed(
    scene: Scene,
    cam: Camera,
    info: GeneralInfo,
    w0: u64,
    w1: u64,
    h: u64,
    f: Fx,
    k: u64,
)
    ensures
        spec_render_row(scene, cam, info, w0, w1, h, f, Sampler::Fixed(k)).1 == Sampler::Fixed(k),
    decreases w1 - w0,
{
    if w0 < w1 {
        lemma_pixel_fixed(scene, cam, info, w0, h, f, k);
        lemma_row_fixed(scene, cam, info, (w0 + 1) as u64, w1, h, f, k);
    }
}

/// A Fixed sampler runs through any band of rows unchanged.
proof fn lemma_rows_fixed(
    scene: Scene,
    cam: Camera,
    info: GeneralInfo,
    w0: u64,
    w1: u64,
    h0: u64,
    h1: u64,
    f: Fx,
    k: u64,
)
    ensures
        spec_render_rows(scene, cam, info, w0, w1, h0, h1, f, Sampler::Fixed(k)).1
            == Sampler::Fixed(k),
    decreases h1 - h0,
{
    if h0 < h1 {
        lemma_row_fixed(scene, cam, info, w0, w1, h0, f, k);
        lemma_rows_fixed(scene, cam, info, w0, w1, (h0 + 1) as u64, h1, f, k);
    }
}

/// Determinism of the banded orchestration: with a stubbed (Fixed) sampler,
/// rendering rows `h0..h1` in one pass yields exactly the rows `h0..hm`
/// followed by the rows `hm..h1`, for any split point. Together with
/// `lemma_bands_partition` this says a multi-worker render merged band by
/// band is pixel-for-pixel the single-worker image.
pub proof fn lemma_render_split(
    scene: Scene,
    cam: Camera,
    info: GeneralInfo,
    w0: u64,
    w1: u64,
    h0: u64,
    hm: u64,
    h1: u64,
    f: Fx,
    k: u64,
)
    requires
        h0 <= hm <= h1,
    ensures
        spec_render_rows(scene, cam, info, w0, w1, h0, h1, f, Sampler::Fixed(k)).0
            == spec_render_rows(scene, cam, info, w0, w1, h0, hm, f, Sampler::Fixed(k)).0
            + spec_render_rows(scene, cam, info, w0, w1, hm, h1, f, Sampler::Fixed(k)).0,
    decreases hm - h0,
{
    let smp = Sampler::Fixed(k);
    if h0 == hm {
        assert(spec_render_rows(scene, cam, info, w0, w1, h0, hm, f, smp).0
            =~= Seq::<Color>::empty());
        assert(Seq::<Color>::empty() + spec_render_rows(scene, cam, info, w0, w1, hm, h1, f, smp).0
            =~= spec_render_rows(scene, cam, info, w0, w1, hm, h1, f, smp).0);
    } else {
        lemma_row_fixed(scene, cam, info, w0, w1, h0, f, k);
        let row = spec_render_row(scene, cam, info, w0, w1, h0, f, smp);
        lemma_render_split(scene, cam, info, w0, w1, (h0 + 1) as u64, hm, h1, f, k);
        let a = spec_render_rows(scene, cam, info, w0, w1, (h0 + 1) as u64, hm, f, smp).0;
        let b = spec_render_rows(scene, cam, info, w0, w1, hm, h1, f, smp).0;
        assert(row.0 + (a + b) =~= (row.0 + a) + b);
    }
}

/// For a ray that hits nothing in the scene, the integrator at positive
/// depth returns the background gradient and leaves the sampler untouched.
pub proof fn lemma_ray_color_background(scene: Scene, ray: Ray, depth: u64, f: Fx, smp: Sampler)
    requires
        depth > 0,
        spec_scene_trace(scene, ray, Fx { raw: T_MIN_RAW }, Fx { raw: T_MAX_RAW }, f) is None,
    ensures
        spec_ray_color(scene, ray, depth, f, smp).0 == spec_background(ray.direction),
        spec_ray_color(scene, ray, depth, f, smp).1 == smp,
{
    reveal(spec_ray_color);
}

/// The background is a convex combination of white and sky blue: the blend
/// parameter `0.5·(unit_y + 1)` always lies in `[0, 1]`.
pub proof fn lemma_background_convex(d: Vector3)
    ensures
        0 <= spec_background_t(d).raw <= 65536,
        spec_background(d) == Color::spec_add(
            Color::spec_scale(
                Color { r: Fx { raw: 65536 }, g: Fx { raw: 65536 }, b: Fx { raw: 65536 } },
                Fx { raw: 65536 }.spec_sub(spec_background_t(d)),
            ),
            Color::spec_scale(
                Color { r: Fx { raw: 32768 }, g: Fx { raw: 45875 }, b: Fx { raw: 65536 } },
                spec_background_t(d),
            ),
        ),
{
    reveal(spec_background_t);
    reveal(spec_background);
}

/// In an empty scene every ray misses, so the integrator returns exactly
/// the background gradient, whatever the sample count or sampler state.
pub proof fn lemma_empty_scene_background(scene: Scene, ray: Ray, depth: u64, f: Fx, smp: Sampler)
    requires
        depth > 0,
        scene.nodes@.len() == 0,
    ensures
        spec_ray_color(scene, ray, depth, f, smp).0 == spec_background(ray.direction),
{
    lemma_ray_color_background(scene, ray, depth, f, smp);
}

/// In an empty scene a single-sample pixel — sample count zero or one — is
/// exactly the clamped background gradient of its one camera ray, whatever
/// the sampler state: averaging one sample multiplies by one, which is
/// exact. (Averages of more identical samples can differ by rounding quanta
/// when the sample count does not divide the scale.)
pub proof fn lemma_empty_scene_pixel(
    scene: Scene,
    cam: Camera,
    info: GeneralInfo,
    w: u64,
    h: u64,
    f: Fx,
    smp: Sampler,
)
    requires
        scene.nodes@.len() == 0,
        info.ray_recursion > 0,
        info.aa_sampling <= 1,
    ensures
        ({
            let ray = cam.spec_get_ray(w, h, info.out_width, info.out_height, smp);
            spec_pixel(scene, cam, info, w, h, f, smp).0 == Color::spec_clamp(
                spec_background(ray.0.direction),
            )
        }),
{
    reveal(spec_background);
    let ray = cam.spec_get_ray(w, h, info.out_width, info.out_height, smp);
    lemma_ray_color_background(scene, ray.0, info.ray_recursion, f, ray.1);
    let bg = spec_background(ray.0.direction);
    assert(color_wf(bg));
    if info.aa_sampling == 1 {
        reveal_with_fuel(spec_sample_sum, 2);
        assert(Color::spec_add(Color::spec_black(), bg) == bg);
        assert((65536int) * 65536 == 0x1_0000_0000) by (nonlinear_arith);
        assert((0x1_0000_0000int) / 65536 == 65536) by (nonlinear_arith);
        assert(Fx { raw: 65536 }.spec_div(Fx::spec_from_int(1)) == Fx { raw: 65536 });
        crate::fixed::lemma_mul_one(bg.r);
        crate::fixed::lemma_mul_one(bg.g);
        crate::fixed::lemma_mul_one(bg.b);
        assert(Color::spec_scale(bg, Fx { raw: 65536 }) == bg);
    }
}

} // verus!
