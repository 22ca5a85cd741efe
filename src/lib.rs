//! Integer and decision logic of a small Monte Carlo light-transport renderer:
//! integer vectors, the xorshift128+ random source, run configuration, the
//! Cornell-box layout rules, the worker scheduler, raster addressing and
//! bitmap framing.

pub mod bmp;
pub mod config;
pub mod math;
pub mod raster;
pub mod rng;
pub mod scene;
pub mod scheduler;
pub mod text;

pub use bmp::{encode_bmp, BMP_HEADER_LEN};
pub use config::{
    default_filename, get_scene_config, resolve_commandline, with_default_extension, Algorithm,
    CommandArgs, Config, RunLimit, TimeArg,
};
pub use math::{sqr, vec2, vec2s, vec3, vec3s, Vec2i, Vec3i, Vector2, Vector3};
pub use raster::{pixel_of, sample_index};
pub use rng::{XorShift128Plus, DEFAULT_S0, DEFAULT_S1};
pub use scene::{
    get_scene_name, BoxMask, CornellLayout, LightKind, BOTH_LARGE_SPHERES, BOTH_SMALL_SPHERES,
    DEFAULT_BOX, GLOSSY_FLOOR, LARGE_GLASS_SPHERE, LARGE_MIRROR_SPHERE, LIGHT_BACKGROUND,
    LIGHT_CEILING, LIGHT_POINT, LIGHT_SUN, MATERIAL_COUNT, SMALL_GLASS_SPHERE,
    SMALL_MIRROR_SPHERE,
};
pub use scheduler::{iteration_schedule, merge_plan, worker_iterations, worker_seed, RunError};
pub use text::{parse_decimal, str_ends_with, str_equals};
