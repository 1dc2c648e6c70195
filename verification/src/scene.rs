//! The scene: an ordered collection of shapes and the nearest-hit search.

use crate::fixed::Fx;
use crate::interval::Interval;
use crate::ray::Ray;
use crate::shape::{shape_hit, shape_wf, Intersection, Shape};
use vstd::prelude::*;

verus! {

/// Well-formedness of a scene's shape list: every shape is well-formed.
pub open spec fn scene_wf(shapes: Seq<Shape>) -> bool {
    forall|i: int| 0 <= i < shapes.len() ==> shape_wf(#[trigger] shapes[i])
}

/// 3-dimensional scene holding shape objects in insertion order.
pub struct Scene {
    /// Objects in the scene.
    pub objects: Vec<Shape>,
}

/// Mirror of the nearest-hit scan from index `i` onward, carrying the best
/// hit so far and the shrinking upper bound of the search interval.  Only a
/// strictly closer hit can replace the running result, so exact ties resolve
/// to the first shape encountered at the minimal `t`.
pub open spec fn scene_hit_from(
    shapes: Seq<Shape>,
    i: int,
    ray: Ray,
    start: Fx,
    acc: Option<Intersection>,
    closest: Fx,
) -> Option<Intersection>
    decreases shapes.len() - i,
{
    if i < 0 || i >= shapes.len() {
        acc
    } else {
        match shape_hit(shapes[i], ray, Interval { start, end: closest }) {
            Some(h) => scene_hit_from(shapes, i + 1, ray, start, Some(h), h.t),
            None => scene_hit_from(shapes, i + 1, ray, start, acc, closest),
        }
    }
}

/// Mirror of the full nearest-hit search over a shape list.
pub open spec fn scene_hit(shapes: Seq<Shape>, ray: Ray, ray_t: Interval) -> Option<
    Intersection,
> {
    scene_hit_from(shapes, 0, ray, ray_t.start, None, ray_t.end)
}

impl Scene {
    /// Creates an empty scene.
    pub fn new() -> (r: Scene)
        ensures
            r.objects@ =~= Seq::<Shape>::empty(),
    {
        Scene { objects: Vec::new() }
    }

    /// Adds an object to the scene.
    pub fn add(&mut self, object: Shape)
        ensures
            final(self).objects@ =~= old(self).objects@.push(object),
    {
        self.objects.push(object);
    }

    /// Finds the nearest intersection along the ray within the interval.
    /// The scan keeps the closest `t` so far as a shrinking upper bound, so
    /// the result is the first shape reaching the minimal parameter value.
    pub fn intersect(&self, ray: Ray, ray_t: Interval) -> (r: Option<Intersection>)
        ensures
            r == scene_hit(self.objects@, ray, ray_t),
    {
        let mut intersection: Option<Intersection> = None;
        let mut closest_t = ray_t.end();
        let ghost target = scene_hit(self.objects@, ray, ray_t);

        let mut idx: usize = 0;
        while idx < self.objects.len()
            invariant
                idx <= self.objects.len(),
                scene_hit_from(
                    self.objects@,
                    idx as int,
                    ray,
                    ray_t.start,
                    intersection,
                    closest_t,
                ) == target,
            decreases self.objects.len() - idx,
        {
            let object = &self.objects[idx];
            if let Some(i) = object.intersect(ray, Interval::new(ray_t.start(), closest_t)) {
                intersection = Some(i);
                closest_t = i.t;
            }
            idx = idx + 1;
        }

        intersection
    }
}

/// Any hit the nearest-hit scan returns carries the material of one of the
/// scene's shapes, so in a well-formed scene the hit material is well-formed.
pub proof fn lemma_scene_hit_from_wf(
    shapes: Seq<Shape>,
    i: int,
    ray: Ray,
    start: Fx,
    acc: Option<Intersection>,
    closest: Fx,
)
    requires
        scene_wf(shapes),
        acc is Some ==> crate::material::material_wf(acc->Some_0.material),
    ensures
        scene_hit_from(shapes, i, ray, start, acc, closest) is Some
            ==> crate::material::material_wf(
            scene_hit_from(shapes, i, ray, start, acc, closest)->Some_0.material,
        ),
    decreases shapes.len() - i,
{
    if 0 <= i < shapes.len() {
        match shape_hit(shapes[i], ray, Interval { start, end: closest }) {
            Some(h) => {
                assert(shape_wf(shapes[i]));
                lemma_scene_hit_from_wf(shapes, i + 1, ray, start, Some(h), h.t);
            },
            None => {
                lemma_scene_hit_from_wf(shapes, i + 1, ray, start, acc, closest);
            },
        }
    }
}

/// For a scene holding exactly one shape, the nearest-hit search returns
/// precisely what that shape's own intersection test returns, for every ray
/// and every interval.
pub proof fn lemma_singleton_scene(s: Shape, ray: Ray, ray_t: Interval)
    ensures
        scene_hit(seq![s], ray, ray_t) == shape_hit(s, ray, ray_t),
{
    let shapes = seq![s];
    assert(shapes[0] == s);
    assert(Interval { start: ray_t.start, end: ray_t.end } == ray_t);
    match shape_hit(s, ray, ray_t) {
        Some(h) => {
            assert(scene_hit_from(shapes, 1, ray, ray_t.start, Some(h), h.t) == Some(h));
            assert(scene_hit_from(shapes, 0, ray, ray_t.start, None, ray_t.end) == Some(h));
        },
        None => {
            assert(scene_hit_from(shapes, 1, ray, ray_t.start, None, ray_t.end)
                == Option::<Intersection>::None);
            assert(scene_hit_from(shapes, 0, ray, ray_t.start, None, ray_t.end)
                == Option::<Intersection>::None);
        },
    }
}

} // verus!
