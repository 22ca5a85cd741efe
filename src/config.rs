use vstd::prelude::*;
use crate::math::{vec2, Vec2i};
use crate::scene::{
    get_scene_name, has_flags, BoxMask, BOTH_SMALL_SPHERES, GLOSSY_FLOOR, LARGE_MIRROR_SPHERE,
    LIGHT_BACKGROUND, LIGHT_CEILING, LIGHT_POINT, LIGHT_SUN,
};
use crate::text::{
    ends_with, is_numeral, numeral_value, parse_decimal, str_ends_with, str_equals,
};

verus! {

/// The rendering algorithms that a run can be configured with.
#[derive(Clone, Copy, Debug, PartialEq, Eq, Structural)]
pub enum Algorithm {
    EyeLight,
    PathTracing,
    LightTracing,
    ProgressivePhotonMapping,
    BidirectionalPhotonMapping,
    BidirectionalPathTracing,
    VertexConnectionMerging,
}

pub open spec fn algorithm_name(a: Algorithm) -> Seq<char> {
    match a {
        Algorithm::EyeLight => "eye light"@,
        Algorithm::PathTracing => "path tracing"@,
        Algorithm::LightTracing => "light tracing"@,
        Algorithm::ProgressivePhotonMapping => "progressive photon mapping"@,
        Algorithm::BidirectionalPhotonMapping => "bidirectional photon mapping"@,
        Algorithm::BidirectionalPathTracing => "bidirectional path tracing"@,
        Algorithm::VertexConnectionMerging => "vertex connection and merging"@,
    }
}

pub open spec fn algorithm_acronym(a: Algorithm) -> Seq<char> {
    match a {
        Algorithm::EyeLight => "el"@,
        Algorithm::PathTracing => "pt"@,
        Algorithm::LightTracing => "lt"@,
        Algorithm::ProgressivePhotonMapping => "ppm"@,
        Algorithm::BidirectionalPhotonMapping => "bpm"@,
        Algorithm::BidirectionalPathTracing => "bpt"@,
        Algorithm::VertexConnectionMerging => "vcm"@,
    }
}

/// The algorithm whose acronym is `s`, if any.
pub open spec fn algorithm_of_acronym(s: Seq<char>) -> Option<Algorithm> {
    if s == "el"@ {
        Some(Algorithm::EyeLight)
    } else if s == "pt"@ {
        Some(Algorithm::PathTracing)
    } else if s == "lt"@ {
        Some(Algorithm::LightTracing)
    } else if s == "ppm"@ {
        Some(Algorithm::ProgressivePhotonMapping)
    } else if s == "bpm"@ {
        Some(Algorithm::BidirectionalPhotonMapping)
    } else if s == "bpt"@ {
        Some(Algorithm::BidirectionalPathTracing)
    } else if s == "vcm"@ {
        Some(Algorithm::VertexConnectionMerging)
    } else {
        None
    }
}

impl Algorithm {
    /// The algorithm's display name.
    pub fn get_name(self) -> (r: &'static str)
        ensures
            r@ == algorithm_name(self),
    {
        match self {
            Algorithm::EyeLight => "eye light",
            Algorithm::PathTracing => "path tracing",
            Algorithm::LightTracing => "light tracing",
            Algorithm::ProgressivePhotonMapping => "progressive photon mapping",
            Algorithm::BidirectionalPhotonMapping => "bidirectional photon mapping",
            Algorithm::BidirectionalPathTracing => "bidirectional path tracing",
            Algorithm::VertexConnectionMerging => "vertex connection and merging",
        }
    }

    /// The short name that selects the algorithm on the command line.
    pub fn get_acronym(self) -> (r: &'static str)
        ensures
            r@ == algorithm_acronym(self),
    {
        match self {
            Algorithm::EyeLight => "el",
            Algorithm::PathTracing => "pt",
            Algorithm::LightTracing => "lt",
            Algorithm::ProgressivePhotonMapping => "ppm",
            Algorithm::BidirectionalPhotonMapping => "bpm",
            Algorithm::BidirectionalPathTracing => "bpt",
            Algorithm::VertexConnectionMerging => "vcm",
        }
    }

    /// The algorithm with acronym `s`, or `None` for any other text.
    pub fn from_acronym(s: &str) -> (r: Option<Algorithm>)
        ensures
            r == algorithm_of_acronym(s@),
    {
        if str_equals(s, "el") {
            Some(Algorithm::EyeLight)
        } else if str_equals(s, "pt") {
            Some(Algorithm::PathTracing)
        } else if str_equals(s, "lt") {
            Some(Algorithm::LightTracing)
        } else if str_equals(s, "ppm") {
            Some(Algorithm::ProgressivePhotonMapping)
        } else if str_equals(s, "bpm") {
            Some(Algorithm::BidirectionalPhotonMapping)
        } else if str_equals(s, "bpt") {
            Some(Algorithm::BidirectionalPathTracing)
        } else if str_equals(s, "vcm") {
            Some(Algorithm::VertexConnectionMerging)
        } else {
            None
        }
    }
}

/// Reading an algorithm's acronym back gives the algorithm.
pub proof fn lemma_acronym_round_trip(a: Algorithm)
    ensures
        algorithm_of_acronym(algorithm_acronym(a)) == Some(a),
{
    reveal_strlit("el");
    reveal_strlit("pt");
    reveal_strlit("lt");
    reveal_strlit("ppm");
    reveal_strlit("bpm");
    reveal_strlit("bpt");
    reveal_strlit("vcm");
    assert("el"@[0] == 'e' && "pt"@[0] == 'p' && "lt"@[0] == 'l' && "ppm"@[0] == 'p');
    assert("bpm"@[0] == 'b' && "bpt"@[0] == 'b' && "vcm"@[0] == 'v');
    assert("pt"@[1] == 't' && "ppm"@[1] == 'p' && "bpm"@[2] == 'm' && "bpt"@[2] == 't');
}

/// The feature mask of each numbered test scene.
pub open spec fn scene_preset(id: int) -> Option<u32> {
    if id == 0 {
        Some(GLOSSY_FLOOR | BOTH_SMALL_SPHERES | LIGHT_SUN)
    } else if id == 1 {
        Some(GLOSSY_FLOOR | LARGE_MIRROR_SPHERE | LIGHT_CEILING)
    } else if id == 2 {
        Some(GLOSSY_FLOOR | BOTH_SMALL_SPHERES | LIGHT_POINT)
    } else if id == 3 {
        Some(GLOSSY_FLOOR | BOTH_SMALL_SPHERES | LIGHT_BACKGROUND)
    } else {
        None
    }
}

/// The feature mask of test scene `scene_id`, if there is such a scene.
pub fn get_scene_config(scene_id: usize) -> (r: Option<BoxMask>)
    ensures
        match scene_preset(scene_id as int) {
            Some(bits) => r == Some(BoxMask { bits }),
            None => r is None,
        },
{
    match scene_id {
        0 => Some(BoxMask::from_bits(GLOSSY_FLOOR | BOTH_SMALL_SPHERES | LIGHT_SUN)),
        1 => Some(BoxMask::from_bits(GLOSSY_FLOOR | LARGE_MIRROR_SPHERE | LIGHT_CEILING)),
        2 => Some(BoxMask::from_bits(GLOSSY_FLOOR | BOTH_SMALL_SPHERES | LIGHT_POINT)),
        3 => Some(BoxMask::from_bits(GLOSSY_FLOOR | BOTH_SMALL_SPHERES | LIGHT_BACKGROUND)),
        _ => None,
    }
}

/// The output file name used when none is given.
pub open spec fn default_filename_of(bits: u32, scene_acronym: Seq<char>, a: Algorithm) -> Seq<
    char,
> {
    let prefix = if has_flags(bits, GLOSSY_FLOOR) {
        "g"@
    } else {
        Seq::empty()
    };
    prefix + scene_acronym + "_"@ + algorithm_acronym(a) + ".bmp"@
}

/// The output file name used when none is given: `g` for a glossy floor, the
/// scene's acronym, `_`, the algorithm's acronym and `.bmp`.
pub fn default_filename(scene_config: BoxMask, scene_acronym: &str, algorithm: Algorithm) -> (r:
    String)
    ensures
        r@ == default_filename_of(scene_config.bits, scene_acronym@, algorithm),
{
    let mut filename = String::new();
    if scene_config.contains(GLOSSY_FLOOR) {
        filename.append("g");
    }
    filename.append(scene_acronym);
    filename.append("_");
    filename.append(algorithm.get_acronym());
    filename.append(".bmp");
    assert(filename@ =~= default_filename_of(scene_config.bits, scene_acronym@, algorithm));
    filename
}

/// `name` with `.bmp` appended unless it already ends in `.bmp` or `.hdr`.
pub open spec fn with_image_extension(name: Seq<char>) -> Seq<char> {
    if ends_with(name, ".bmp"@) || ends_with(name, ".hdr"@) {
        name
    } else {
        name + ".bmp"@
    }
}

/// Appends `.bmp` to `name` unless it already ends in `.bmp` or `.hdr`.
pub fn with_default_extension(name: String) -> (r: String)
    ensures
        r@ == with_image_extension(name@),
{
    let mut name = name;
    if !str_ends_with(name.as_str(), ".bmp") && !str_ends_with(name.as_str(), ".hdr") {
        name.append(".bmp");
    }
    name
}

/// When a run stops.
#[derive(Clone, Copy, Debug, PartialEq, Eq, Structural)]
pub enum RunLimit {
    /// After this many iterations in total.
    Iterations(u32),
    /// Once this many microseconds of wall-clock time have passed.
    Time(u64),
}

/// The settings of a run.
pub struct Config {
    pub algorithm: Algorithm,
    pub run_limit: RunLimit,
    /// Features of the Cornell box to render.
    pub scene_config: BoxMask,
    /// Number of workers; 0 lets the caller pick one per processor.
    pub num_threads: usize,
    pub base_seed: u32,
    pub max_path_length: u32,
    pub min_path_length: u32,
    pub output_name: String,
    pub resolution: Vec2i,
    /// Render every scene with every algorithm instead of one image.
    pub full_report: bool,
}

impl Default for Config {
    fn default() -> (r: Config)
        ensures
            r.algorithm == Algorithm::VertexConnectionMerging,
            r.run_limit == RunLimit::Iterations(1),
            scene_preset(0) == Some(r.scene_config.bits),
            r.num_threads == 0,
            r.base_seed == 1234,
            r.max_path_length == 10,
            r.min_path_length == 0,
            r.output_name@.len() == 0,
            r.resolution.x == 512 && r.resolution.y == 512,
            !r.full_report,
    {
        Config {
            algorithm: Algorithm::VertexConnectionMerging,
            run_limit: RunLimit::Iterations(1),
            scene_config: BoxMask::from_bits(GLOSSY_FLOOR | BOTH_SMALL_SPHERES | LIGHT_SUN),
            num_threads: 0,
            base_seed: 1234,
            max_path_length: 10,
            min_path_length: 0,
            output_name: String::new(),
            resolution: vec2(512, 512),
            full_report: false,
        }
    }
}

/// A time limit as given on the command line: its text, and its value in
/// microseconds when the text reads as a non-negative number of seconds.
pub struct TimeArg {
    pub text: String,
    pub micros: Option<u64>,
}

/// The options found on the command line, before they are checked.
pub struct CommandArgs {
    pub help: bool,
    pub report: bool,
    pub scene: Option<String>,
    pub algorithm: Option<String>,
    pub iterations: Option<String>,
    pub time: Option<TimeArg>,
    pub output: Option<String>,
}

/// The scene mask that the scene option selects.
pub open spec fn scene_choice(arg: Option<String>) -> Option<u32> {
    match arg {
        None => scene_preset(0),
        Some(s) => if is_numeral(s@) && numeral_value(s@) <= 3 {
            scene_preset(numeral_value(s@))
        } else {
            None
        },
    }
}

/// The iteration count that the text `s` gives, if it is a valid one.
pub open spec fn iterations_choice(s: Seq<char>) -> Option<u32> {
    if is_numeral(s) && 1 <= numeral_value(s) <= u32::MAX {
        Some(numeral_value(s) as u32)
    } else {
        None
    }
}

/// The message that rejects option text `text`; `prefix` names the option.
pub open spec fn invalid_message(prefix: Seq<char>, text: Seq<char>) -> Seq<char> {
    prefix + text + "\", please see help (-h)."@
}

/// The first problem with the options, in the order they are checked, as the
/// message that reports it; asking for help is reported with an empty message.
pub open spec fn commandline_error(args: CommandArgs) -> Option<Seq<char>> {
    if args.help {
        Some(Seq::empty())
    } else if scene_choice(args.scene) is None {
        Some(invalid_message("Invalid scene id \""@, args.scene.unwrap()@))
    } else if args.algorithm is Some && algorithm_of_acronym(args.algorithm.unwrap()@) is None {
        Some(invalid_message("Invalid algorithm \""@, args.algorithm.unwrap()@))
    } else if args.iterations is Some && iterations_choice(args.iterations.unwrap()@) is None {
        Some(invalid_message("Invalid iteration count \""@, args.iterations.unwrap()@))
    } else if args.time is Some && args.time.unwrap().micros is None {
        Some(invalid_message("Invalid time \""@, args.time.unwrap().text@))
    } else if !args.report && args.output is Some && args.output.unwrap()@.len() == 0 {
        Some(invalid_message("Invalid output name \""@, args.output.unwrap()@))
    } else {
        None
    }
}

/// The algorithm that valid options select.
pub open spec fn chosen_algorithm(args: CommandArgs) -> Algorithm {
    match args.algorithm {
        Some(s) => algorithm_of_acronym(s@).unwrap(),
        None => Algorithm::VertexConnectionMerging,
    }
}

/// The run limit that valid options select: a time limit wins over an
/// iteration count, and one iteration is the default.
pub open spec fn chosen_run_limit(args: CommandArgs) -> RunLimit {
    match args.time {
        Some(t) => RunLimit::Time(t.micros.unwrap()),
        None => match args.iterations {
            Some(s) => RunLimit::Iterations(iterations_choice(s@).unwrap()),
            None => RunLimit::Iterations(1),
        },
    }
}

/// The output name that valid options select; a report run has none.
pub open spec fn chosen_output(args: CommandArgs) -> Seq<char> {
    if args.report {
        Seq::empty()
    } else {
        let base = match args.output {
            Some(o) => o@,
            None => default_filename_of(
                scene_choice(args.scene).unwrap(),
                "XXX"@,
                chosen_algorithm(args),
            ),
        };
        with_image_extension(base)
    }
}

fn invalid(prefix: &str, text: &str) -> (r: String)
    ensures
        r@ == invalid_message(prefix@, text@),
{
    let mut msg = String::from_str(prefix);
    msg.append(text);
    msg.append("\", please see help (-h).");
    assert(msg@ =~= invalid_message(prefix@, text@));
    msg
}

/// Checks the command-line options in order (help, scene, algorithm,
/// iterations, time, output name) and turns them into the run's settings,
/// or into the message of the first problem found.
pub fn resolve_commandline(args: &CommandArgs) -> (r: Result<Config, String>)
    ensures
        match r {
            Err(msg) => commandline_error(*args) == Some(msg@),
            Ok(c) => {
                &&& commandline_error(*args) is None
                &&& c.algorithm == chosen_algorithm(*args)
                &&& c.run_limit == chosen_run_limit(*args)
                &&& Some(c.scene_config.bits) == scene_choice(args.scene)
                &&& c.output_name@ == chosen_output(*args)
                &&& c.full_report == args.report
                &&& c.num_threads == 0
                &&& c.base_seed == 1234
                &&& c.max_path_length == 10
                &&& c.min_path_length == 0
                &&& c.resolution.x == 512 && c.resolution.y == 512
            },
        },
{
    let mut config = Config::default();

    if args.help {
        return Err(String::new());
    }
    let scene_config = match &args.scene {
        Some(text) => {
            match parse_decimal(text.as_str(), 3) {
                Some(id) => match get_scene_config(id as usize) {
                    Some(mask) => mask,
                    None => {
                        return Err(invalid("Invalid scene id \"", text.as_str()));
                    },
                },
                None => {
                    return Err(invalid("Invalid scene id \"", text.as_str()));
                },
            }
        },
        None => BoxMask::from_bits(GLOSSY_FLOOR | BOTH_SMALL_SPHERES | LIGHT_SUN),
    };
    config.scene_config = scene_config;

    if let Some(text) = &args.algorithm {
        match Algorithm::from_acronym(text.as_str()) {
            Some(algorithm) => {
                config.algorithm = algorithm;
            },
            None => {
                return Err(invalid("Invalid algorithm \"", text.as_str()));
            },
        }
    }
    if let Some(text) = &args.iterations {
        match parse_decimal(text.as_str(), 4294967295) {
            Some(n) if n >= 1 => {
                config.run_limit = RunLimit::Iterations(n as u32);
            },
            _ => {
                return Err(invalid("Invalid iteration count \"", text.as_str()));
            },
        }
    }
    if let Some(t) = &args.time {
        match t.micros {
            Some(micros) => {
                config.run_limit = RunLimit::Time(micros);
            },
            None => {
                return Err(invalid("Invalid time \"", t.text.as_str()));
            },
        }
    }
    if args.report {
        config.full_report = true;
        return Ok(config);
    }
    let name = match &args.output {
        Some(text) => {
            if text.as_str().unicode_len() > 0 {
                text.clone()
            } else {
                return Err(invalid("Invalid output name \"", text.as_str()));
            }
        },
        None => {
            let (_scene_name, acronym) = get_scene_name(scene_config);
            default_filename(scene_config, acronym.as_str(), config.algorithm)
        },
    };
    config.output_name = with_default_extension(name);
    Ok(config)
}

} // verus!
