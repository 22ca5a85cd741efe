use smallvcm::{
    default_filename, get_scene_config, resolve_commandline, with_default_extension, Algorithm,
    BoxMask, CommandArgs, Config, RunLimit, TimeArg,
};
use smallvcm::{parse_decimal, str_ends_with, str_equals};

const ALL: [Algorithm; 7] = [
    Algorithm::EyeLight,
    Algorithm::PathTracing,
    Algorithm::LightTracing,
    Algorithm::ProgressivePhotonMapping,
    Algorithm::BidirectionalPhotonMapping,
    Algorithm::BidirectionalPathTracing,
    Algorithm::VertexConnectionMerging,
];

fn no_args() -> CommandArgs {
    CommandArgs {
        help: false,
        report: false,
        scene: None,
        algorithm: None,
        iterations: None,
        time: None,
        output: None,
    }
}

fn some(s: &str) -> Option<String> {
    Some(s.to_string())
}

fn error_of(args: &CommandArgs) -> String {
    match resolve_commandline(args) {
        Err(msg) => msg,
        Ok(_) => panic!("options were accepted"),
    }
}

#[test]
fn algorithm_names() {
    assert_eq!(Algorithm::EyeLight.get_name(), "eye light");
    assert_eq!(Algorithm::VertexConnectionMerging.get_name(), "vertex connection and merging");
    assert_eq!(Algorithm::BidirectionalPhotonMapping.get_acronym(), "bpm");
    assert_eq!(Algorithm::ProgressivePhotonMapping.get_acronym(), "ppm");
}

#[test]
fn acronym_round_trip() {
    for a in ALL {
        assert_eq!(Algorithm::from_acronym(a.get_acronym()), Some(a));
    }
    assert_eq!(Algorithm::from_acronym("pt"), Some(Algorithm::PathTracing));
    assert_eq!(Algorithm::from_acronym("xx"), None);
    assert_eq!(Algorithm::from_acronym(""), None);
    assert_eq!(Algorithm::from_acronym("ELL"), None);
    assert_eq!(Algorithm::from_acronym("el "), None);
}

#[test]
fn scene_presets() {
    assert_eq!(get_scene_config(0), Some(BoxMask { bits: 256 | 192 | 2 }));
    assert_eq!(get_scene_config(1), Some(BoxMask { bits: 256 | 16 | 1 }));
    assert_eq!(get_scene_config(2), Some(BoxMask { bits: 256 | 192 | 4 }));
    assert_eq!(get_scene_config(3), Some(BoxMask { bits: 256 | 192 | 8 }));
    assert_eq!(get_scene_config(4), None);
}

#[test]
fn decimal_numerals() {
    assert_eq!(parse_decimal("0", 10), Some(0));
    assert_eq!(parse_decimal("42", 100), Some(42));
    assert_eq!(parse_decimal("+7", 100), Some(7));
    assert_eq!(parse_decimal("4294967295", u32::MAX as u64), Some(4294967295));
    assert_eq!(parse_decimal("4294967296", u32::MAX as u64), None);
    assert_eq!(parse_decimal("18446744073709551615", u64::MAX), Some(u64::MAX));
    assert_eq!(parse_decimal("18446744073709551616", u64::MAX), None);
    assert_eq!(parse_decimal("", 10), None);
    assert_eq!(parse_decimal("+", 10), None);
    assert_eq!(parse_decimal("-1", 10), None);
    assert_eq!(parse_decimal("1a", 10), None);
    assert_eq!(parse_decimal(" 1", 10), None);
    assert_eq!(parse_decimal("11", 10), None);
}

#[test]
fn string_helpers() {
    assert!(str_equals("abc", "abc"));
    assert!(!str_equals("abc", "abd"));
    assert!(!str_equals("abc", "ab"));
    assert!(str_ends_with("image.bmp", ".bmp"));
    assert!(!str_ends_with("image.hdr", ".bmp"));
    assert!(!str_ends_with("mp", ".bmp"));
    assert!(str_ends_with("x", ""));
}

#[test]
fn default_file_names() {
    let glossy = get_scene_config(0).unwrap();
    assert_eq!(default_filename(glossy, "XXX", Algorithm::EyeLight), "gXXX_el.bmp");
    let plain = BoxMask { bits: 1 };
    assert_eq!(default_filename(plain, "cb", Algorithm::PathTracing), "cb_pt.bmp");
}

#[test]
fn image_extensions() {
    assert_eq!(with_default_extension("out".to_string()), "out.bmp");
    assert_eq!(with_default_extension("out.bmp".to_string()), "out.bmp");
    assert_eq!(with_default_extension("out.hdr".to_string()), "out.hdr");
    assert_eq!(with_default_extension("out.png".to_string()), "out.png.bmp");
}

#[test]
fn config_defaults() {
    let c = Config::default();
    assert_eq!(c.algorithm, Algorithm::VertexConnectionMerging);
    assert_eq!(c.run_limit, RunLimit::Iterations(1));
    assert_eq!(c.base_seed, 1234);
    assert_eq!(c.max_path_length, 10);
    assert_eq!(c.min_path_length, 0);
    assert_eq!(c.num_threads, 0);
    assert_eq!((c.resolution.x, c.resolution.y), (512, 512));
    assert!(!c.full_report);
}

#[test]
fn commandline_without_options() {
    let c = resolve_commandline(&no_args()).unwrap();
    assert_eq!(c.algorithm, Algorithm::VertexConnectionMerging);
    assert_eq!(c.run_limit, RunLimit::Iterations(1));
    assert_eq!(c.scene_config, get_scene_config(0).unwrap());
    assert_eq!(c.output_name, "gXXX_vcm.bmp");
    assert!(!c.full_report);
}

#[test]
fn commandline_with_options() {
    let mut args = no_args();
    args.scene = some("1");
    args.algorithm = some("el");
    args.iterations = some("5");
    args.output = some("render");
    let c = resolve_commandline(&args).unwrap();
    assert_eq!(c.algorithm, Algorithm::EyeLight);
    assert_eq!(c.run_limit, RunLimit::Iterations(5));
    assert_eq!(c.scene_config, get_scene_config(1).unwrap());
    assert_eq!(c.output_name, "render.bmp");
}

#[test]
fn time_limit_wins_over_iterations() {
    let mut args = no_args();
    args.iterations = some("5");
    args.time = Some(TimeArg { text: "2.5".to_string(), micros: Some(2_500_000) });
    let c = resolve_commandline(&args).unwrap();
    assert_eq!(c.run_limit, RunLimit::Time(2_500_000));
}

#[test]
fn help_gives_empty_error() {
    let mut args = no_args();
    args.help = true;
    args.scene = some("9");
    assert_eq!(error_of(&args), "");
}

#[test]
fn invalid_scene() {
    let mut args = no_args();
    args.scene = some("4");
    assert_eq!(error_of(&args), "Invalid scene id \"4\", please see help (-h).");
    args.scene = some("x");
    args.algorithm = some("zz");
    assert_eq!(error_of(&args), "Invalid scene id \"x\", please see help (-h).");
}

#[test]
fn invalid_algorithm() {
    let mut args = no_args();
    args.algorithm = some("zz");
    assert_eq!(error_of(&args), "Invalid algorithm \"zz\", please see help (-h).");
}

#[test]
fn invalid_iteration_count() {
    let mut args = no_args();
    args.iterations = some("0");
    assert_eq!(error_of(&args), "Invalid iteration count \"0\", please see help (-h).");
    args.iterations = some("4294967296");
    assert_eq!(
        error_of(&args),
        "Invalid iteration count \"4294967296\", please see help (-h)."
    );
}

#[test]
fn invalid_time() {
    let mut args = no_args();
    args.time = Some(TimeArg { text: "-1".to_string(), micros: None });
    assert_eq!(error_of(&args), "Invalid time \"-1\", please see help (-h).");
}

#[test]
fn invalid_output_name() {
    let mut args = no_args();
    args.output = some("");
    assert_eq!(error_of(&args), "Invalid output name \"\", please see help (-h).");
}

#[test]
fn report_skips_output_name() {
    let mut args = no_args();
    args.report = true;
    args.output = some("");
    let c = resolve_commandline(&args).unwrap();
    assert!(c.full_report);
    assert_eq!(c.output_name, "");
}
