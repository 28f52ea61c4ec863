//! The scene: an ordered list of spheres, traversed for the nearest hit.

use vstd::prelude::*;

use crate::fixed::Fp;
use crate::fixed::lemma_t_div_mono;
use crate::hit::HitResult;
use crate::hit::HitResultData;
use crate::hit::lemma_normal_faces_incoming;
use crate::ray::Ray;
use crate::sphere::Sphere;
use crate::sphere::sphere_a_s;
use crate::sphere::sphere_disc_s;
use crate::sphere::sphere_hit_data_s;
use crate::sphere::sphere_hit_t_s;
use crate::sphere::sphere_root1_s;
use crate::sphere::sphere_root2_s;
use crate::vec3::lemma_len_sq_nonneg;
use crate::vec3::v_dot_s;

verus! {

/// Every sphere of a list is well formed.
pub open spec fn spheres_wf(l: Seq<Sphere>) -> bool {
    forall|i: int| 0 <= i < l.len() ==> crate::sphere::sphere_inv(#[trigger] l[i])
}

/// The nearest hit so far, as a struck sphere and its ray parameter:
/// objects are tried in order, each against the range tightened to the
/// closest parameter seen, so a later object wins only by being at least
/// as close.
pub open spec fn scene_closest_s(l: Seq<Sphere>, r: Ray, t_min: int, t_max: int) -> Option<
    (Sphere, int),
>
    decreases l.len(),
{
    if l.len() == 0 {
        None
    } else {
        let prev = scene_closest_s(l.drop_last(), r, t_min, t_max);
        let bound = scene_bound_s(prev, t_max);
        match sphere_hit_t_s(l.last(), r, t_min, bound) {
            Option::None => prev,
            Option::Some(t) => Some((l.last(), t)),
        }
    }
}

/// The upper end of the search range: the nearest parameter seen so far,
/// or the caller's bound before any hit.
pub open spec fn scene_bound_s(prev: Option<(Sphere, int)>, t_max: int) -> int {
    match prev {
        Option::None => t_max,
        Option::Some((s, t)) => t,
    }
}

/// The outcome of testing a ray against the whole scene.
pub open spec fn scene_hit_s(l: Seq<Sphere>, r: Ray, t_min: int, t_max: int) -> HitResult {
    match scene_closest_s(l, r, t_min, t_max) {
        Option::None => HitResult::NoHit,
        Option::Some((s, t)) => HitResult::Hit { data: sphere_hit_data_s(s, r, t) },
    }
}

/// The nearer root never exceeds the farther root.
pub proof fn lemma_sphere_roots_ordered(s: Sphere, r: Ray)
    requires
        sphere_disc_s(s, r) >= 0,
        sphere_a_s(r) > 0,
    ensures
        sphere_root1_s(s, r) <= sphere_root2_s(s, r),
{
    crate::fixed::lemma_isqrt((sphere_disc_s(s, r) * crate::fixed::FP_SCALE) as nat);
    let num1 = crate::fixed::fp_sub_s(
        crate::fixed::fp_neg_s(crate::sphere::sphere_half_b_s(s, r)),
        crate::fixed::fp_sqrt_s(sphere_disc_s(s, r)),
    );
    let num2 = crate::fixed::fp_add_s(
        crate::fixed::fp_neg_s(crate::sphere::sphere_half_b_s(s, r)),
        crate::fixed::fp_sqrt_s(sphere_disc_s(s, r)),
    );
    assert(num1 <= num2);
    lemma_t_div_mono(num1 * crate::fixed::FP_SCALE, num2 * crate::fixed::FP_SCALE, sphere_a_s(r));
}

/// How a sphere's hit responds when the search range tightens: a hit within
/// the tight range is the same hit the wide range finds; a wide-range hit
/// beyond the tight bound disappears rather than moving.
pub proof fn lemma_sphere_hit_shrink(s: Sphere, r: Ray, lo: int, m: int, hi: int)
    requires
        m <= hi,
    ensures
        sphere_hit_t_s(s, r, lo, hi) is None ==> sphere_hit_t_s(s, r, lo, m) is None,
        sphere_hit_t_s(s, r, lo, m) matches Some(t) ==> (sphere_hit_t_s(s, r, lo, hi) == Some(t)
            && lo <= t <= m),
        sphere_hit_t_s(s, r, lo, hi) matches Some(t) ==> (t <= m ==> sphere_hit_t_s(s, r, lo, m)
            == Some(t)),
        sphere_hit_t_s(s, r, lo, hi) matches Some(t) ==> (t > m ==> sphere_hit_t_s(s, r, lo, m)
            is None),
{
    if !(sphere_disc_s(s, r) < 0 || sphere_a_s(r) == 0) {
        lemma_len_sq_nonneg(r.direction);
        lemma_sphere_roots_ordered(s, r);
    }
}

/// What the traversal's answer means over the whole list: a reported hit is
/// a hit some object reports over the full range, no object reports a
/// nearer one, and a reported miss means no object reports any hit.
#[verifier::rlimit(80)]
pub proof fn lemma_scene_characterization(l: Seq<Sphere>, r: Ray, lo: int, hi: int)
    ensures
        scene_closest_s(l, r, lo, hi) is None ==> forall|i: int|
            0 <= i < l.len() ==> #[trigger] sphere_hit_t_s(l[i], r, lo, hi) is None,
        scene_closest_s(l, r, lo, hi) matches Some((s, t)) ==> {
            &&& exists|i: int|
                0 <= i < l.len() && l[i] == s && #[trigger] sphere_hit_t_s(l[i], r, lo, hi)
                    == Some(t)
            &&& forall|i: int|
                0 <= i < l.len() ==> (#[trigger] sphere_hit_t_s(l[i], r, lo, hi) matches Some(ti)
                    ==> t <= ti)
            &&& lo <= t <= hi
        },
    decreases l.len(),
{
    if l.len() == 0 {
    } else {
        let prefix = l.drop_last();
        lemma_scene_characterization(prefix, r, lo, hi);
        let prev = scene_closest_s(prefix, r, lo, hi);
        let bound = scene_bound_s(prev, hi);
        lemma_sphere_hit_shrink(l.last(), r, lo, bound, hi);
        assert(forall|i: int| 0 <= i < l.len() - 1 ==> l[i] == prefix[i]);
        assert(l[l.len() - 1] == l.last());
        match scene_closest_s(l, r, lo, hi) {
            Option::None => {
            },
            Option::Some((s, t)) => {
                match prev {
                    Option::None => {
                        assert(sphere_hit_t_s(l[l.len() - 1], r, lo, hi) == Some(t));
                    },
                    Option::Some((ps, pt)) => {
                        match sphere_hit_t_s(l.last(), r, lo, bound) {
                            Option::None => {
                                assert(exists|i: int|
                                    0 <= i < prefix.len() && prefix[i] == ps
                                        && #[trigger] sphere_hit_t_s(prefix[i], r, lo, hi)
                                        == Some(pt));
                                let wi = choose|i: int|
                                    0 <= i < prefix.len() && prefix[i] == ps
                                        && #[trigger] sphere_hit_t_s(prefix[i], r, lo, hi)
                                        == Some(pt);
                                assert(sphere_hit_t_s(l[wi], r, lo, hi) == Some(pt));
                            },
                            Option::Some(nt) => {
                                assert(sphere_hit_t_s(l[l.len() - 1], r, lo, hi) == Some(nt));
                                assert(nt <= pt);
                            },
                        }
                    },
                }
            },
        }
    }
}

/// Scene traversal is order-independent: lists holding the same spheres,
/// in any order, report a hit at the same nearest parameter, or the same
/// miss. Only the identity recorded for an exact tie may differ.
#[verifier::rlimit(80)]
pub proof fn lemma_scene_order_independent(l1: Seq<Sphere>, l2: Seq<Sphere>, r: Ray, lo: int, hi: int)
    requires
        l1.to_multiset() == l2.to_multiset(),
    ensures
        scene_closest_s(l1, r, lo, hi) is None <==> scene_closest_s(l2, r, lo, hi) is None,
        scene_closest_s(l1, r, lo, hi) matches Some((s1, t1)) ==> (scene_closest_s(l2, r, lo, hi)
            matches Some((s2, t2)) ==> t1 == t2),
{
    broadcast use vstd::seq_lib::group_to_multiset_ensures;

    lemma_scene_characterization(l1, r, lo, hi);
    lemma_scene_characterization(l2, r, lo, hi);
    match scene_closest_s(l1, r, lo, hi) {
        Option::None => {
            match scene_closest_s(l2, r, lo, hi) {
                Option::None => {
                },
                Option::Some((s2, t2)) => {
                    let j = choose|i: int|
                        0 <= i < l2.len() && l2[i] == s2 && #[trigger] sphere_hit_t_s(l2[i], r,
                            lo, hi) == Some(t2);
                    assert(l2.contains(s2));
                    assert(l2.to_multiset().count(s2) > 0);
                    assert(l1.to_multiset().count(s2) > 0);
                    assert(l1.contains(s2));
                    let i1 = choose|i: int| 0 <= i < l1.len() && l1[i] == s2;
                    assert(sphere_hit_t_s(l1[i1], r, lo, hi) is None);
                },
            }
        },
        Option::Some((s1, t1)) => {
            match scene_closest_s(l2, r, lo, hi) {
                Option::None => {
                    let j = choose|i: int|
                        0 <= i < l1.len() && l1[i] == s1 && #[trigger] sphere_hit_t_s(l1[i], r,
                            lo, hi) == Some(t1);
                    assert(l1.contains(s1));
                    assert(l1.to_multiset().count(s1) > 0);
                    assert(l2.to_multiset().count(s1) > 0);
                    assert(l2.contains(s1));
                    let i2 = choose|i: int| 0 <= i < l2.len() && l2[i] == s1;
                    assert(sphere_hit_t_s(l2[i2], r, lo, hi) is None);
                },
                Option::Some((s2, t2)) => {
                    let j1 = choose|i: int|
                        0 <= i < l1.len() && l1[i] == s1 && #[trigger] sphere_hit_t_s(l1[i], r,
                            lo, hi) == Some(t1);
                    assert(l1.contains(s1));
                    assert(l1.to_multiset().count(s1) > 0);
                    assert(l2.to_multiset().count(s1) > 0);
                    assert(l2.contains(s1));
                    let i2 = choose|i: int| 0 <= i < l2.len() && l2[i] == s1;
                    assert(sphere_hit_t_s(l2[i2], r, lo, hi) == Some(t1));
                    assert(t2 <= t1);
                    let j2 = choose|i: int|
                        0 <= i < l2.len() && l2[i] == s2 && #[trigger] sphere_hit_t_s(l2[i], r,
                            lo, hi) == Some(t2);
                    assert(l2.contains(s2));
                    assert(l2.to_multiset().count(s2) > 0);
                    assert(l1.to_multiset().count(s2) > 0);
                    assert(l1.contains(s2));
                    let i1 = choose|i: int| 0 <= i < l1.len() && l1[i] == s2;
                    assert(sphere_hit_t_s(l1[i1], r, lo, hi) == Some(t2));
                    assert(t1 <= t2);
                },
            }
        },
    }
}

/// A homogeneous scene of spheres.
pub struct HittableList {
    pub list: Vec<Sphere>,
}

/// The nearest hit among the spheres of a list, and the sphere that
/// produced it, tried in order against a range tightened to the closest
/// parameter seen so far.
pub fn closest_hit_spheres(list: &Vec<Sphere>, ray: &Ray, t_min: Fp, t_max: Fp) -> (res: Option<
    (Sphere, HitResultData)>)
    requires
        spheres_wf(list@),
    ensures
        match scene_closest_s(list@, *ray, t_min as int, t_max as int) {
            Option::None => res is None,
            Option::Some((s, t)) => res == Some((s, sphere_hit_data_s(s, *ray, t))),
        },
{
    {
        let ghost l = list@;
        let ghost lo = t_min as int;
        let ghost full = t_max as int;
        let mut best: Option<(Sphere, HitResultData)> = None;
        let mut closest: Fp = t_max;
        let n = list.len();
        let mut i: usize = 0;
        while i < n
            invariant
                0 <= i <= n,
                n == l.len(),
                l == list@,
                lo == t_min as int,
                full == t_max as int,
                spheres_wf(l),
                match scene_closest_s(l.subrange(0, i as int), *ray, lo, full) {
                    Option::None => best is None && closest == t_max,
                    Option::Some((s, t)) => best == Some((s, sphere_hit_data_s(s, *ray, t)))
                        && closest as int == t,
                },
            decreases n - i,
        {
            let sphere = list[i];
            let new_hit = sphere.hit(ray, t_min, closest);
            proof {
                let pre = l.subrange(0, i as int);
                let post = l.subrange(0, i as int + 1);
                assert(post =~= pre.push(l[i as int]));
                assert(post.drop_last() =~= pre);
                assert(post.last() == l[i as int]);
                let prev = scene_closest_s(pre, *ray, lo, full);
                let bound = scene_bound_s(prev, full);
                assert(closest as int == bound);
                assert(scene_closest_s(post, *ray, lo, full) == (match sphere_hit_t_s(
                    l[i as int],
                    *ray,
                    lo,
                    bound,
                ) {
                    Option::None => prev,
                    Option::Some(t) => Some((l[i as int], t)),
                }));
            }
            match new_hit {
                HitResult::Hit { data } => {
                    closest = data.t;
                    best = Some((sphere, data));
                },
                HitResult::NoHit => {},
            }
            i += 1;
        }
        proof {
            assert(l.subrange(0, n as int) =~= l);
        }
        best
    }
}

/// The nearest hit among the spheres of a list: the record of the globally
/// smallest in-range ray parameter.
pub fn hit_spheres(list: &Vec<Sphere>, ray: &Ray, t_min: Fp, t_max: Fp) -> (res: HitResult)
    requires
        spheres_wf(list@),
    ensures
        res == scene_hit_s(list@, *ray, t_min as int, t_max as int),
        res matches HitResult::Hit { data } ==> v_dot_s(ray.direction, data.normal) <= 0,
{
    let res = match closest_hit_spheres(list, ray, t_min, t_max) {
        Option::Some((sphere, data)) => HitResult::Hit { data },
        Option::None => HitResult::NoHit,
    };
    proof {
        if let Option::Some((s, t)) = scene_closest_s(list@, *ray, t_min as int, t_max as int) {
            let p = crate::ray::ray_at_s(*ray, t);
            let outward = crate::vec3::v_div_s(crate::vec3::v_sub_s(p, s.center),
                s.radius as int);
            lemma_normal_faces_incoming(ray.direction, outward);
        }
    }
    res
}

impl HittableList {
    /// The nearest hit and the sphere that produced it.
    pub fn closest_hit(&self, ray: &Ray, t_min: Fp, t_max: Fp) -> (res: Option<
        (Sphere, HitResultData)>)
        requires
            spheres_wf(self.list@),
        ensures
            match scene_closest_s(self.list@, *ray, t_min as int, t_max as int) {
                Option::None => res is None,
                Option::Some((s, t)) => res == Some((s, sphere_hit_data_s(s, *ray, t))),
            },
    {
        closest_hit_spheres(&self.list, ray, t_min, t_max)
    }

    /// The nearest hit among all objects of the scene: the record of the
    /// globally smallest in-range ray parameter.
    pub fn hit(&self, ray: &Ray, t_min: Fp, t_max: Fp) -> (res: HitResult)
        requires
            spheres_wf(self.list@),
        ensures
            res == scene_hit_s(self.list@, *ray, t_min as int, t_max as int),
            res matches HitResult::Hit { data } ==> v_dot_s(ray.direction, data.normal) <= 0,
    {
        hit_spheres(&self.list, ray, t_min, t_max)
    }
}

/// Number the spheres of a scene by their positions, so a hit can be
/// correlated with scene-authoring metadata.
pub fn set_sphere_uuids(spheres: &mut Vec<Sphere>)
    requires
        old(spheres)@.len() <= 0x7fff_ffff,
    ensures
        final(spheres)@.len() == old(spheres)@.len(),
        forall|i: int|
            0 <= i < old(spheres)@.len() ==> final(spheres)@[i] == (Sphere {
                uuid: i as i32,
                ..old(spheres)@[i]
            }),
{
    let n = spheres.len();
    let mut i: usize = 0;
    while i < n
        invariant
            0 <= i <= n,
            n == old(spheres)@.len(),
            spheres@.len() == old(spheres)@.len(),
            n <= 0x7fff_ffff,
            forall|j: int|
                0 <= j < i ==> spheres@[j] == (Sphere { uuid: j as i32, ..old(spheres)@[j] }),
            forall|j: int| i <= j < n ==> spheres@[j] == old(spheres)@[j],
        decreases n - i,
    {
        let s = spheres[i];
        spheres[i] = Sphere { uuid: i as i32, ..s };
        i += 1;
    }
}

} // verus!
