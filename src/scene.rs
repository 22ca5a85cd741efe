use vstd::prelude::*;

verus! {

pub const LIGHT_CEILING: u32 = 1;

pub const LIGHT_SUN: u32 = 2;

pub const LIGHT_POINT: u32 = 4;

pub const LIGHT_BACKGROUND: u32 = 8;

pub const LARGE_MIRROR_SPHERE: u32 = 16;

pub const LARGE_GLASS_SPHERE: u32 = 32;

pub const SMALL_MIRROR_SPHERE: u32 = 64;

pub const SMALL_GLASS_SPHERE: u32 = 128;

pub const GLOSSY_FLOOR: u32 = 256;

pub const BOTH_SMALL_SPHERES: u32 = SMALL_MIRROR_SPHERE | SMALL_GLASS_SPHERE;

pub const BOTH_LARGE_SPHERES: u32 = LARGE_MIRROR_SPHERE | LARGE_GLASS_SPHERE;

/// The fixture's default features: ceiling light and both small spheres.
pub const DEFAULT_BOX: u32 = LIGHT_CEILING | BOTH_SMALL_SPHERES;

/// Number of materials of the Cornell-box fixture.
pub const MATERIAL_COUNT: usize = 9;

/// True when every bit of `flags` is set in `bits`.
pub open spec fn has_flags(bits: u32, flags: u32) -> bool {
    bits & flags == flags
}

/// A set of features of the Cornell-box fixture, one bit per feature.
#[derive(Clone, Copy, Debug, PartialEq, Eq, Structural)]
pub struct BoxMask {
    pub bits: u32,
}

impl BoxMask {
    pub fn from_bits(bits: u32) -> (r: BoxMask)
        ensures
            r.bits == bits,
    {
        BoxMask { bits }
    }

    /// True when every feature of `flags` is in the set.
    pub fn contains(&self, flags: u32) -> (r: bool)
        ensures
            r == has_flags(self.bits, flags),
    {
        self.bits & flags == flags
    }

    /// Removes the features of `flags` from the set.
    pub fn remove(&mut self, flags: u32)
        ensures
            final(self).bits == old(self).bits & !flags,
    {
        self.bits = self.bits & !flags;
    }

    /// The set holding the features of both sets.
    pub fn union(&self, o: BoxMask) -> (r: BoxMask)
        ensures
            r.bits == self.bits | o.bits,
    {
        BoxMask { bits: self.bits | o.bits }
    }
}

/// The mask that the fixture is built from: a request for both large spheres
/// keeps only the mirror one.
pub open spec fn effective_mask(bits: u32) -> u32 {
    if has_flags(bits, BOTH_LARGE_SPHERES) {
        bits & !LARGE_GLASS_SPHERE
    } else {
        bits
    }
}

/// An emitter of the fixture, in the order the light list holds them.
#[derive(Clone, Copy, Debug, PartialEq, Eq, Structural)]
pub enum LightKind {
    /// One of the two triangles of the ceiling, emitting as an area light.
    CeilingArea { second: bool },
    /// One of the two triangles under the light box, emitting as an area light.
    BoxArea { second: bool },
    /// The directional sun light.
    Sun,
    /// The point light below the ceiling.
    Point,
    /// The constant environment light.
    Background,
}

impl LightKind {
    /// Whether the emitter sits at a finite position (it can be hit or
    /// sampled by position), as opposed to lighting from infinitely far away.
    pub fn is_finite(self) -> (r: bool)
        ensures
            r == !(self is Sun || self is Background),
    {
        match self {
            LightKind::CeilingArea { .. } | LightKind::BoxArea { .. } | LightKind::Point => true,
            LightKind::Sun | LightKind::Background => false,
        }
    }

    /// Whether the emitter has zero probability of being hit by a random ray,
    /// so that it only contributes through explicit sampling.
    pub fn is_delta(self) -> (r: bool)
        ensures
            r == (self is Sun || self is Point),
    {
        match self {
            LightKind::Sun | LightKind::Point => true,
            LightKind::CeilingArea { .. } | LightKind::BoxArea { .. } | LightKind::Background => false,
        }
    }
}

/// The light list that the (effective) mask `m` asks for.
pub open spec fn layout_lights(m: u32) -> Seq<LightKind> {
    let ceiling = has_flags(m, LIGHT_CEILING);
    let light_box = !has_flags(m, LIGHT_POINT);
    let area = if ceiling && !light_box {
        seq![LightKind::CeilingArea { second: false }, LightKind::CeilingArea { second: true }]
    } else if ceiling && light_box {
        seq![LightKind::BoxArea { second: false }, LightKind::BoxArea { second: true }]
    } else {
        Seq::empty()
    };
    let sun = if has_flags(m, LIGHT_SUN) {
        seq![LightKind::Sun]
    } else {
        Seq::empty()
    };
    let point = if has_flags(m, LIGHT_POINT) {
        seq![LightKind::Point]
    } else {
        Seq::empty()
    };
    let background = if has_flags(m, LIGHT_BACKGROUND) {
        seq![LightKind::Background]
    } else {
        Seq::empty()
    };
    area + sun + point + background
}

/// The light index of each material (by material id) that the mask `m` asks for:
/// the two light-only materials map to the two area lights, when there are any.
pub open spec fn layout_material_lights(m: u32) -> Seq<Option<usize>> {
    let area = has_flags(m, LIGHT_CEILING);
    Seq::new(
        MATERIAL_COUNT as nat,
        |i: int|
            if area && i == 0 {
                Some(0usize)
            } else if area && i == 1 {
                Some(1usize)
            } else {
                None
            },
    )
}

/// What the Cornell-box fixture holds for a feature mask: which surfaces carry
/// which material, which optional objects are present, and which lights exist.
/// Material ids index the fixture's material list.
pub struct CornellLayout {
    /// The mask the fixture is built from.
    pub mask: BoxMask,
    /// True when both large spheres were asked for and the glass one was dropped.
    pub dropped_large_glass: bool,
    /// Materials of the two floor triangles.
    pub floor_material: i32,
    /// Materials of the two back-wall triangles.
    pub back_wall_material: i32,
    /// Materials of the two ceiling triangles.
    pub ceiling_materials: (i32, i32),
    pub large_mirror_sphere: bool,
    pub large_glass_sphere: bool,
    pub small_mirror_sphere: bool,
    pub small_glass_sphere: bool,
    /// Whether the light box hangs from the ceiling.
    pub light_box: bool,
    /// Materials of the two triangles under the light box.
    pub light_box_floor_materials: (i32, i32),
    /// The lights, in order.
    pub lights: Vec<LightKind>,
    /// For each material id, the index of the light it emits as, if any.
    pub material_to_light: Vec<Option<usize>>,
    /// Index of the background light in `lights`, if there is one.
    pub background: Option<usize>,
}

impl CornellLayout {
    /// The fixture's layout for the feature mask `mask`.
    pub fn new(mask: BoxMask) -> (r: CornellLayout)
        ensures
            r.mask.bits == effective_mask(mask.bits),
            r.dropped_large_glass == has_flags(mask.bits, BOTH_LARGE_SPHERES),
            r.floor_material == (if has_flags(r.mask.bits, GLOSSY_FLOOR) {
                2i32
            } else {
                5i32
            }),
            r.back_wall_material == (if has_flags(r.mask.bits, GLOSSY_FLOOR) {
                8i32
            } else {
                5i32
            }),
            r.light_box == !has_flags(r.mask.bits, LIGHT_POINT),
            r.ceiling_materials == (if has_flags(r.mask.bits, LIGHT_CEILING) && !r.light_box {
                (0i32, 1i32)
            } else {
                (5i32, 5i32)
            }),
            r.light_box_floor_materials == (if has_flags(r.mask.bits, LIGHT_CEILING) {
                (0i32, 1i32)
            } else {
                (5i32, 5i32)
            }),
            r.large_mirror_sphere == has_flags(r.mask.bits, LARGE_MIRROR_SPHERE),
            r.large_glass_sphere == has_flags(r.mask.bits, LARGE_GLASS_SPHERE),
            r.small_mirror_sphere == has_flags(r.mask.bits, SMALL_MIRROR_SPHERE),
            r.small_glass_sphere == has_flags(r.mask.bits, SMALL_GLASS_SPHERE),
            !(r.large_mirror_sphere && r.large_glass_sphere),
            r.lights@ == layout_lights(r.mask.bits),
            r.material_to_light@ == layout_material_lights(r.mask.bits),
            r.background == (if has_flags(r.mask.bits, LIGHT_BACKGROUND) {
                Some((r.lights@.len() - 1) as usize)
            } else {
                None::<usize>
            }),
    {
        let mut box_mask = mask;
        let dropped = box_mask.contains(BOTH_LARGE_SPHERES);
        if dropped {
            box_mask.remove(LARGE_GLASS_SPHERE);
        }
        let m = box_mask.bits;
        assert(!(has_flags(m, LARGE_MIRROR_SPHERE) && has_flags(m, LARGE_GLASS_SPHERE))) by {
            let b = mask.bits;
            assert(LARGE_MIRROR_SPHERE | LARGE_GLASS_SPHERE == 48u32) by (bit_vector);
            assert(has_flags(b, 16) && has_flags(b, 32) ==> has_flags(b, 48)) by (bit_vector);
            assert(!has_flags(b & !32u32, 32)) by (bit_vector);
        }

        let light_ceiling = box_mask.contains(LIGHT_CEILING);
        let light_sun = box_mask.contains(LIGHT_SUN);
        let light_point = box_mask.contains(LIGHT_POINT);
        let light_background = box_mask.contains(LIGHT_BACKGROUND);
        let light_box = !light_point;
        let glossy = box_mask.contains(GLOSSY_FLOOR);

        let mut lights: Vec<LightKind> = Vec::new();
        let mut material_to_light: Vec<Option<usize>> = Vec::new();
        let mut i: usize = 0;
        while i < MATERIAL_COUNT
            invariant
                i <= MATERIAL_COUNT,
                light_ceiling == has_flags(m, LIGHT_CEILING),
                material_to_light@.len() == i,
                forall|k: int|
                    0 <= k < i ==> #[trigger] material_to_light@[k] == layout_material_lights(
                        m,
                    )[k],
            decreases MATERIAL_COUNT - i,
        {
            if light_ceiling && i < 2 {
                material_to_light.push(Some(i));
            } else {
                material_to_light.push(None);
            }
            i = i + 1;
        }
        assert(material_to_light@ =~= layout_material_lights(m));

        if light_ceiling && !light_box {
            lights.push(LightKind::CeilingArea { second: false });
            lights.push(LightKind::CeilingArea { second: true });
        } else if light_ceiling && light_box {
            lights.push(LightKind::BoxArea { second: false });
            lights.push(LightKind::BoxArea { second: true });
        }
        if light_sun {
            lights.push(LightKind::Sun);
        }
        if light_point {
            lights.push(LightKind::Point);
        }
        let mut background: Option<usize> = None;
        if light_background {
            background = Some(lights.len());
            lights.push(LightKind::Background);
        }
        assert(lights@ =~= layout_lights(m));

        CornellLayout {
            mask: box_mask,
            dropped_large_glass: dropped,
            floor_material: if glossy {
                2
            } else {
                5
            },
            back_wall_material: if glossy {
                8
            } else {
                5
            },
            ceiling_materials: if light_ceiling && !light_box {
                (0, 1)
            } else {
                (5, 5)
            },
            large_mirror_sphere: box_mask.contains(LARGE_MIRROR_SPHERE),
            large_glass_sphere: box_mask.contains(LARGE_GLASS_SPHERE),
            small_mirror_sphere: box_mask.contains(SMALL_MIRROR_SPHERE),
            small_glass_sphere: box_mask.contains(SMALL_GLASS_SPHERE),
            light_box,
            light_box_floor_materials: if light_ceiling {
                (0, 1)
            } else {
                (5, 5)
            },
            lights,
            material_to_light,
            background,
        }
    }
}

/// The display name and the file-name acronym of the fixture for a mask;
/// every mask currently shares the same pair.
pub fn get_scene_name(box_mask: BoxMask) -> (r: (String, String))
    ensures
        r.0@ == "scene name"@,
        r.1@ == "XXX"@,
{
    let name = String::from_str("scene name");
    let acronym = String::from_str("XXX");
    (name, acronym)
}

} // verus!
