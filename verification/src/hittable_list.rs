//! The scene: which of its spheres a ray strikes first.

use crate::arithmetic::Arithmetic;
use crate::hit_record::HitRecord;
use crate::ray::Ray;
use crate::scalar::Scalar;
use crate::sphere::Roots;
use crate::sphere::Sphere;
use vstd::prelude::*;

verus! {

/// The spheres of a scene, in the order in which they were added.
#[derive(Debug, Clone)]
pub struct HittableList {
    pub objects: Vec<Sphere>,
}

/// The upper bound under which the next object is tested: the time of the
/// best hit so far, or `t_max` while there is none.
pub open spec fn bound_after(best: Option<(int, Scalar)>, t_max: Scalar) -> Scalar {
    match best {
        Some(n) => n.1,
        None => t_max,
    }
}

/// The first hit among objects whose equations are solved, as the place of
/// the object in the list and the time: each object is tested in turn within
/// the interval that ends at the best hit so far, and replaces it where it
/// is struck there.
pub open spec fn nearest_of(objects: Seq<Roots>, t_min: Scalar, t_max: Scalar) -> Option<
    (int, Scalar),
>
    decreases objects.len(),
{
    if objects.len() == 0 {
        None
    } else {
        let best = nearest_of(objects.drop_last(), t_min, t_max);
        match objects.last().chosen(t_min, bound_after(best, t_max)) {
            Some(t) => Some((objects.len() - 1, t)),
            None => best,
        }
    }
}

impl View for HittableList {
    type V = Seq<Sphere>;

    open spec fn view(&self) -> Seq<Sphere> {
        self.objects@
    }
}

impl HittableList {
    /// Whether `roots` holds, for each of the objects in turn, what solving
    /// the equation of the ray and that object may give.
    pub open spec fn is_solved<A: Arithmetic>(
        arith: &A,
        objects: Seq<Sphere>,
        ray: Ray,
        roots: Seq<Roots>,
    ) -> bool {
        roots.len() == objects.len() && forall|i: int|
            0 <= i < objects.len() ==> Sphere::is_solution(
                arith,
                #[trigger] objects[i],
                ray,
                roots[i],
            )
    }

    /// Whether `best` may be what is recorded of the first hit among
    /// objects whose equations are solved.
    pub open spec fn is_recorded<A: Arithmetic>(
        arith: &A,
        objects: Seq<Sphere>,
        ray: Ray,
        first: Option<(int, Scalar)>,
        best: Option<HitRecord>,
    ) -> bool {
        match first {
            None => best is None,
            Some((i, t)) => 0 <= i < objects.len() && (best matches Some(rec) && Sphere::is_record(
                arith,
                objects[i],
                ray,
                t,
                rec,
            )),
        }
    }

    /// Whether `result` is what a ray may find in a scene within the open
    /// interval from `t_min` to `t_max`: the record of the first hit among
    /// the objects, or nothing where none is struck.
    pub open spec fn is_hit<A: Arithmetic>(
        arith: &A,
        objects: Seq<Sphere>,
        ray: Ray,
        t_min: Scalar,
        t_max: Scalar,
        result: Option<HitRecord>,
    ) -> bool {
        exists|roots: Seq<Roots>| #[trigger]
            HittableList::is_solved(arith, objects, ray, roots) && HittableList::is_recorded(
                arith,
                objects,
                ray,
                nearest_of(roots, t_min, t_max),
                result,
            )
    }

    /// The scene without objects.
    pub fn new() -> (r: HittableList)
        ensures
            r@ == Seq::<Sphere>::empty(),
    {
        HittableList { objects: Vec::new() }
    }

    /// Puts an object at the end of the list.
    pub fn add(&mut self, obj: Sphere)
        ensures
            final(self)@ == old(self)@.push(obj),
    {
        self.objects.push(obj)
    }

    /// The list with an object put at its end.
    pub fn chain_add(self, obj: Sphere) -> (r: HittableList)
        ensures
            r@ == self@.push(obj),
    {
        let mut list = self;
        list.add(obj);
        list
    }

    /// What the ray strikes first within the open interval from `t_min` to
    /// `t_max`. Each object is tested only up to the best hit so far, so
    /// that of objects struck at the same time the one added first is
    /// found.
    pub fn hit<A: Arithmetic>(&self, r: &Ray, t_min: Scalar, t_max: Scalar, arith: &A) -> (rec:
        Option<HitRecord>)
        ensures
            HittableList::is_hit(arith, self@, *r, t_min, t_max, rec),
            rec matches Some(h) ==> h.t.strictly_between(t_min, t_max),
            self@.len() == 0 ==> rec is None,
    {
        let mut best: Option<HitRecord> = None;
        let ghost mut roots: Seq<Roots> = Seq::empty();
        let mut i: usize = 0;
        while i < self.objects.len()
            invariant
                i <= self.objects@.len(),
                HittableList::is_solved(arith, self.objects@.take(i as int), *r, roots),
                HittableList::is_recorded(
                    arith,
                    self.objects@.take(i as int),
                    *r,
                    nearest_of(roots, t_min, t_max),
                    best,
                ),
                best matches Some(h) ==> h.t.strictly_between(t_min, t_max),
                nearest_of(roots, t_min, t_max) matches Some(n) ==> (best matches Some(h) && h.t
                    == n.1),
                i == 0 ==> best is None,
            decreases self.objects@.len() - i,
        {
            let closest_so_far: Scalar = match best {
                Some(h) => h.t,
                None => t_max,
            };
            let sphere = self.objects[i];
            let found = sphere.hit(r, t_min, closest_so_far, arith);
            proof {
                let before = self.objects@.take(i as int);
                let now = self.objects@.take(i + 1);
                let first = nearest_of(roots, t_min, t_max);
                assert(closest_so_far == bound_after(first, t_max));
                let own = choose|own: Roots| #[trigger]
                    Sphere::is_solution(arith, sphere, *r, own) && match own.chosen(
                        t_min,
                        closest_so_far,
                    ) {
                        None => found is None,
                        Some(t) => found matches Some(rec) && Sphere::is_record(
                            arith,
                            sphere,
                            *r,
                            t,
                            rec,
                        ),
                    };
                let longer = roots.push(own);
                assert(longer.drop_last() == roots);
                assert(longer.last() == own);
                assert(now.len() == i + 1);
                assert forall|j: int| 0 <= j < now.len() implies Sphere::is_solution(
                    arith,
                    #[trigger] now[j],
                    *r,
                    longer[j],
                ) by {
                    if j < i {
                        assert(now[j] == before[j]);
                    }
                }
                assert(now[i as int] == sphere);
                if first is Some {
                    assert(now[(first->0).0] == before[(first->0).0]);
                }
                roots = longer;
            }
            match found {
                Some(h) => {
                    best = Some(h);
                },
                None => {},
            }
            i = i + 1;
        }
        proof {
            assert(self.objects@.take(i as int) == self.objects@);
        }
        best
    }
}

impl Default for HittableList {
    fn default() -> (r: HittableList)
        ensures
            r@ == Seq::<Sphere>::empty(),
    {
        HittableList { objects: Vec::new() }
    }
}

/// The first hit is a hit: it names an object of the list that the ray's
/// line does not miss, at one of that object's two times, within the
/// interval.
pub proof fn nearest_is_a_hit(objects: Seq<Roots>, t_min: Scalar, t_max: Scalar)
    ensures
        nearest_of(objects, t_min, t_max) matches Some(n) ==> {
            &&& 0 <= n.0 < objects.len()
            &&& !objects[n.0].misses()
            &&& n.1.strictly_between(t_min, t_max)
            &&& (n.1 == objects[n.0].near || n.1 == objects[n.0].far)
        },
    decreases objects.len(),
{
    if objects.len() > 0 {
        nearest_is_a_hit(objects.drop_last(), t_min, t_max);
    }
}

/// No object is struck before the first hit: whatever an object's own hit
/// within the interval is, the first hit of the scene is not later. And the
/// scene has a hit exactly where one of its objects has.
pub proof fn nearest_is_not_later(objects: Seq<Roots>, t_min: Scalar, t_max: Scalar)
    ensures
        forall|j: int|
            0 <= j < objects.len() ==> (#[trigger] objects[j].chosen(t_min, t_max) matches Some(t)
                ==> (nearest_of(objects, t_min, t_max) matches Some(n) && n.1.le(t))),
        nearest_of(objects, t_min, t_max) is Some ==> exists|j: int|
            0 <= j < objects.len() && #[trigger] objects[j].chosen(t_min, t_max) is Some,
    decreases objects.len(),
{
    if objects.len() > 0 {
        let front = objects.drop_last();
        nearest_is_not_later(front, t_min, t_max);
        nearest_is_a_hit(front, t_min, t_max);
        let best = nearest_of(front, t_min, t_max);
        assert forall|j: int| 0 <= j < objects.len() implies (#[trigger] objects[j].chosen(
            t_min,
            t_max,
        ) matches Some(t) ==> (nearest_of(objects, t_min, t_max) matches Some(n) && n.1.le(t))) by {
            if j < front.len() {
                assert(objects[j] == front[j]);
            }
        }
        if nearest_of(objects, t_min, t_max) is Some {
            if objects.last().chosen(t_min, bound_after(best, t_max)) is Some {
                assert(objects[objects.len() - 1].chosen(t_min, t_max) is Some);
            } else {
                let j = choose|j: int|
                    0 <= j < front.len() && #[trigger] front[j].chosen(t_min, t_max) is Some;
                assert(objects[j] == front[j]);
            }
        }
    }
}

/// Where every object's two times stand in their order, the first hit of the
/// scene is the earliest of the objects' own hits, and of objects struck at
/// that time the one added first is named.
pub proof fn nearest_is_first_minimum(objects: Seq<Roots>, t_min: Scalar, t_max: Scalar)
    requires
        forall|j: int| 0 <= j < objects.len() ==> (#[trigger] objects[j]).ordered(),
    ensures
        nearest_of(objects, t_min, t_max) matches Some(n) ==> {
            &&& 0 <= n.0 < objects.len()
            &&& objects[n.0].chosen(t_min, t_max) == Some(n.1)
            &&& forall|j: int|
                0 <= j < n.0 ==> (#[trigger] objects[j].chosen(t_min, t_max) matches Some(t)
                    ==> n.1.lt(t))
        },
    decreases objects.len(),
{
    if objects.len() > 0 {
        let front = objects.drop_last();
        assert forall|j: int| 0 <= j < front.len() implies (#[trigger] front[j]).ordered() by {
            assert(front[j] == objects[j]);
        }
        nearest_is_first_minimum(front, t_min, t_max);
        nearest_is_not_later(front, t_min, t_max);
        nearest_is_a_hit(front, t_min, t_max);
        let best = nearest_of(front, t_min, t_max);
        if nearest_of(objects, t_min, t_max) is Some {
            let n = nearest_of(objects, t_min, t_max)->0;
            assert(objects[objects.len() - 1].ordered());
            assert forall|j: int| 0 <= j < n.0 implies (#[trigger] objects[j].chosen(
                t_min,
                t_max,
            ) matches Some(t) ==> n.1.lt(t)) by {
                assert(objects[j] == front[j]);
            }
            if n.0 < front.len() {
                assert(objects[n.0] == front[n.0]);
            }
        }
    }
}

/// What a ray finds in a scene is its nearest hit: with the solutions that
/// were found of the equations of the ray and each object, no object's own
/// hit within the interval is before the hit that is recorded, and nothing
/// is recorded only where no object is struck.
pub proof fn the_first_hit_is_the_nearest<A: Arithmetic>(
    arith: &A,
    objects: Seq<Sphere>,
    ray: Ray,
    t_min: Scalar,
    t_max: Scalar,
    result: Option<HitRecord>,
)
    requires
        HittableList::is_hit(arith, objects, ray, t_min, t_max, result),
    ensures
        exists|roots: Seq<Roots>| #[trigger]
            HittableList::is_solved(arith, objects, ray, roots) && HittableList::is_recorded(
                arith,
                objects,
                ray,
                nearest_of(roots, t_min, t_max),
                result,
            ) && (forall|j: int|
                0 <= j < roots.len() ==> (#[trigger] roots[j].chosen(t_min, t_max) matches Some(t)
                    ==> (result matches Some(h) && h.t.le(t)))) && (result is None ==> forall|
                j: int,
            | 0 <= j < roots.len() ==> #[trigger] roots[j].chosen(t_min, t_max) is None),
{
    let roots = choose|roots: Seq<Roots>| #[trigger]
        HittableList::is_solved(arith, objects, ray, roots) && HittableList::is_recorded(
            arith,
            objects,
            ray,
            nearest_of(roots, t_min, t_max),
            result,
        );
    nearest_is_not_later(roots, t_min, t_max);
}

/// Where the two times of every sphere stand in their order, what a ray
/// finds in a scene is what it finds of one sphere of the scene alone: the
/// one whose own hit within the interval is the earliest, and of those with
/// that time the one added first. It finds nothing exactly where no sphere
/// is struck.
pub proof fn the_first_hit_is_the_earliest_sphere_s_own<A: Arithmetic>(
    arith: &A,
    objects: Seq<Sphere>,
    ray: Ray,
    t_min: Scalar,
    t_max: Scalar,
    result: Option<HitRecord>,
)
    requires
        HittableList::is_hit(arith, objects, ray, t_min, t_max, result),
        forall|sphere: Sphere, roots: Roots| #[trigger]
            Sphere::is_solution(arith, sphere, ray, roots) ==> roots.ordered(),
    ensures
        exists|roots: Seq<Roots>| #[trigger]
            HittableList::is_solved(arith, objects, ray, roots) && (result is None <==> forall|
                j: int,
            | 0 <= j < roots.len() ==> #[trigger] roots[j].chosen(t_min, t_max) is None) && (result
                matches Some(rec) ==> exists|i: int|
                0 <= i < objects.len() && #[trigger] roots[i].chosen(t_min, t_max) == Some(rec.t)
                    && Sphere::is_hit(arith, objects[i], ray, t_min, t_max, result) && (forall|
                    j: int,
                |
                    0 <= j < roots.len() ==> (#[trigger] roots[j].chosen(t_min, t_max) matches Some(
                        t,
                    ) ==> rec.t.le(t))) && (forall|j: int|
                    0 <= j < i ==> (#[trigger] roots[j].chosen(t_min, t_max) matches Some(t)
                        ==> rec.t.lt(t)))),
{
    let roots = choose|roots: Seq<Roots>| #[trigger]
        HittableList::is_solved(arith, objects, ray, roots) && HittableList::is_recorded(
            arith,
            objects,
            ray,
            nearest_of(roots, t_min, t_max),
            result,
        );
    assert forall|j: int| 0 <= j < roots.len() implies (#[trigger] roots[j]).ordered() by {
        assert(Sphere::is_solution(arith, objects[j], ray, roots[j]));
    }
    nearest_is_first_minimum(roots, t_min, t_max);
    nearest_is_not_later(roots, t_min, t_max);
    nearest_is_a_hit(roots, t_min, t_max);
    if result is Some {
        let first = nearest_of(roots, t_min, t_max)->0;
        let i = first.0;
        let rec = result->0;
        assert(Sphere::is_solution(arith, objects[i], ray, roots[i]));
        assert(roots[i].chosen(t_min, t_max) == Some(rec.t));
        assert(Sphere::is_hit(arith, objects[i], ray, t_min, t_max, result));
    }
}

} // verus!
