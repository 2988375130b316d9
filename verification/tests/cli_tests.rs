use cymg::cli::{
    classify_arg, flag_name, float_bounds, parse_i32_arg, parse_u32_arg, parse_u64_arg,
    set_color_boost, ArgKind, ArgParser, CliError, ColorBoost, DiscreteSettings, FloatOption,
    IntOption, ParsedArgs, Step, ValueFlag,
};

fn run(args: &[&str]) -> Result<Option<(ParsedArgs, Vec<(FloatOption, String)>)>, CliError> {
    let mut parser = ArgParser::new();
    let mut floats = Vec::new();
    for arg in args {
        match parser.feed(arg.to_string())? {
            Step::Continue => {}
            Step::HelpShown => return Ok(None),
            Step::FloatValue(opt, value) => floats.push((opt, value)),
        }
    }
    Ok(Some((parser.finish()?, floats)))
}

#[test]
fn defaults_are_documented_values() {
    let s = DiscreteSettings::default();
    assert_eq!(s.glitch_shift, 9);
    assert_eq!(s.scanline_step, 2);
    assert_eq!(s.seed, 2077);
    assert_eq!(s.color_boost, ColorBoost::Neutral);
}

#[test]
fn plain_image_path() {
    let (args, floats) = run(&["input.jpg"]).unwrap().unwrap();
    assert_eq!(args.input_path, "input.jpg");
    assert_eq!(args.settings, DiscreteSettings::default());
    assert!(!args.random_mode);
    assert!(floats.is_empty());
}

#[test]
fn readme_strong_red_glitch() {
    let (args, floats) = run(&[
        "--red", "--intensity", "1.35", "--glitch-shift", "14", "--glitch-rate", "0.28", "input.jpg",
    ])
    .unwrap()
    .unwrap();
    assert_eq!(args.settings.color_boost, ColorBoost::Red);
    assert_eq!(args.settings.glitch_shift, 14);
    assert_eq!(args.input_path, "input.jpg");
    assert_eq!(
        floats,
        vec![
            (FloatOption::Intensity, "1.35".to_string()),
            (FloatOption::GlitchRate, "0.28".to_string()),
        ]
    );
}

#[test]
fn readme_green_cinematic_with_seed() {
    let (args, floats) = run(&[
        "--green", "--contrast", "1.30", "--saturation", "1.35", "--noise", "0.20", "--bloom", "0.35",
        "--seed", "42", "input.webp",
    ])
    .unwrap()
    .unwrap();
    assert_eq!(args.settings.color_boost, ColorBoost::Green);
    assert_eq!(args.settings.seed, 42);
    assert_eq!(floats.len(), 4);
}

#[test]
fn scanline_step_and_random() {
    let (args, _) = run(&["--blue", "--scanline-step", "32", "--random", "x.png"]).unwrap().unwrap();
    assert_eq!(args.settings.scanline_step, 32);
    assert_eq!(args.settings.color_boost, ColorBoost::Blue);
    assert!(args.random_mode);
    assert!(!args.animation_mode);
}

#[test]
fn animation_flag_is_accepted() {
    let (args, _) = run(&["--green", "--animation", "input.jpg"]).unwrap().unwrap();
    assert_eq!(args.input_path, "input.jpg");
    assert_eq!(args.settings.color_boost, ColorBoost::Green);
    assert!(args.animation_mode);
    assert!(!args.random_mode);
    assert_eq!(classify_arg("--animation"), ArgKind::Animation);
}

#[test]
fn help_stops_parsing() {
    assert!(run(&["-h"]).unwrap().is_none());
    assert!(run(&["--help", "--bogus"]).unwrap().is_none());
    assert!(run(&["--red", "--help"]).unwrap().is_none());
}

#[test]
fn second_color_flag_is_refused() {
    assert!(matches!(run(&["--red", "--blue", "a.png"]), Err(CliError::ColorConflict)));
    assert!(matches!(run(&["--green", "--green"]), Err(CliError::ColorConflict)));
}

#[test]
fn unknown_option_is_refused() {
    match run(&["--anim", "a.png"]) {
        Err(CliError::UnknownOption(arg)) => assert_eq!(arg, "--anim"),
        other => panic!("unexpected {other:?}"),
    }
    assert!(matches!(run(&["-"]), Err(CliError::UnknownOption(_))));
}

#[test]
fn second_path_or_no_path_is_usage() {
    assert!(matches!(run(&["a.png", "b.png"]), Err(CliError::Usage)));
    assert!(matches!(run(&[]), Err(CliError::Usage)));
    assert!(matches!(run(&["--red"]), Err(CliError::Usage)));
}

#[test]
fn option_at_the_end_misses_its_value() {
    assert!(matches!(
        run(&["a.png", "--seed"]),
        Err(CliError::MissingValue(ValueFlag::Int(IntOption::Seed)))
    ));
    assert!(matches!(
        run(&["a.png", "--bloom"]),
        Err(CliError::MissingValue(ValueFlag::Float(FloatOption::Bloom)))
    ));
}

#[test]
fn value_is_taken_whatever_it_looks_like() {
    match run(&["--seed", "--help"]) {
        Err(CliError::InvalidValue(ValueFlag::Int(IntOption::Seed), v)) => assert_eq!(v, "--help"),
        other => panic!("unexpected {other:?}"),
    }
    let (_, floats) = run(&["--noise", "-h", "a.png"]).unwrap().unwrap();
    assert_eq!(floats, vec![(FloatOption::Noise, "-h".to_string())]);
}

#[test]
fn integer_ranges_are_enforced() {
    assert!(matches!(run(&["--glitch-shift", "129", "a"]), Err(CliError::OutOfRange(_, _))));
    assert!(matches!(run(&["--glitch-shift", "-1", "a"]), Err(CliError::OutOfRange(_, _))));
    assert!(matches!(run(&["--scanline-step", "0", "a"]), Err(CliError::OutOfRange(_, _))));
    assert!(matches!(run(&["--scanline-step", "33", "a"]), Err(CliError::OutOfRange(_, _))));
    assert!(matches!(run(&["--scanline-step", "-1", "a"]), Err(CliError::InvalidValue(_, _))));
    assert!(matches!(run(&["--glitch-shift", "x", "a"]), Err(CliError::InvalidValue(_, _))));
    let (args, _) = run(&["--glitch-shift", "0", "--scanline-step", "1", "a"]).unwrap().unwrap();
    assert_eq!((args.settings.glitch_shift, args.settings.scanline_step), (0, 1));
    let (args, _) = run(&["--glitch-shift", "+128", "a"]).unwrap().unwrap();
    assert_eq!(args.settings.glitch_shift, 128);
}

#[test]
fn seed_takes_any_u64() {
    let (args, _) = run(&["--seed", "18446744073709551615", "a"]).unwrap().unwrap();
    assert_eq!(args.settings.seed, u64::MAX);
    assert!(matches!(run(&["--seed", "18446744073709551616", "a"]), Err(CliError::InvalidValue(_, _))));
    assert!(matches!(run(&["--seed", "-1", "a"]), Err(CliError::InvalidValue(_, _))));
}

#[test]
fn first_error_wins() {
    assert!(matches!(run(&["--bogus", "--red", "--red"]), Err(CliError::UnknownOption(_))));
    assert!(matches!(run(&["--red", "--red", "--bogus"]), Err(CliError::ColorConflict)));
}

#[test]
fn classification_of_single_arguments() {
    assert_eq!(classify_arg("--red"), ArgKind::Color(ColorBoost::Red));
    assert_eq!(classify_arg("--scanline"), ArgKind::Value(ValueFlag::Float(FloatOption::Scanline)));
    assert_eq!(
        classify_arg("--scanline-step"),
        ArgKind::Value(ValueFlag::Int(IntOption::ScanlineStep))
    );
    assert_eq!(classify_arg("--random"), ArgKind::Random);
    assert_eq!(classify_arg("--Red"), ArgKind::UnknownOption);
    assert_eq!(classify_arg("image.png"), ArgKind::Positional);
    assert_eq!(classify_arg(""), ArgKind::Positional);
}

#[test]
fn flag_names_classify_back() {
    let flags = [
        ValueFlag::Float(FloatOption::Intensity),
        ValueFlag::Float(FloatOption::GlitchRate),
        ValueFlag::Float(FloatOption::Scanline),
        ValueFlag::Float(FloatOption::Vignette),
        ValueFlag::Float(FloatOption::Brightness),
        ValueFlag::Float(FloatOption::Contrast),
        ValueFlag::Float(FloatOption::Saturation),
        ValueFlag::Float(FloatOption::Noise),
        ValueFlag::Float(FloatOption::Bloom),
        ValueFlag::Int(IntOption::GlitchShift),
        ValueFlag::Int(IntOption::ScanlineStep),
        ValueFlag::Int(IntOption::Seed),
    ];
    for flag in flags {
        assert_eq!(classify_arg(flag_name(flag)), ArgKind::Value(flag));
    }
}

#[test]
fn float_bounds_are_documented_ranges() {
    assert_eq!(float_bounds(FloatOption::Intensity), (0, 2));
    assert_eq!(float_bounds(FloatOption::Brightness), (-1, 1));
    assert_eq!(float_bounds(FloatOption::Contrast), (0, 3));
    assert_eq!(float_bounds(FloatOption::Saturation), (0, 3));
    assert_eq!(float_bounds(FloatOption::Bloom), (0, 1));
    assert_eq!(float_bounds(FloatOption::GlitchRate), (0, 1));
}

#[test]
fn set_color_boost_only_once() {
    let mut s = DiscreteSettings::default();
    assert!(set_color_boost(&mut s, ColorBoost::Green).is_ok());
    assert_eq!(s.color_boost, ColorBoost::Green);
    assert!(matches!(set_color_boost(&mut s, ColorBoost::Red), Err(CliError::ColorConflict)));
    assert_eq!(s.color_boost, ColorBoost::Green);
}

#[test]
fn integer_value_readers() {
    let flag = ValueFlag::Int(IntOption::GlitchShift);
    assert_eq!(parse_i32_arg(flag, "-5".to_string(), -10, 10).unwrap(), -5);
    assert!(matches!(parse_i32_arg(flag, "11".to_string(), -10, 10), Err(CliError::OutOfRange(_, _))));
    assert!(matches!(parse_u32_arg(flag, "".to_string(), 0, 10), Err(CliError::InvalidValue(_, _))));
    assert_eq!(parse_u32_arg(flag, "+10".to_string(), 0, 10).unwrap(), 10);
    assert_eq!(parse_u64_arg(flag, "2077".to_string()).unwrap(), 2077);
}
