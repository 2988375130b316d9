//! The command-line grammar: which arguments are flags, which take a
//! value, the ranges of the integer options, and the order in which
//! errors are reported.
//!
//! Arguments are fed one at a time to an [`ArgParser`]. Values of the
//! fractional options are handed back to the caller as text
//! ([`Step::FloatValue`]); everything else is decided here.

use vstd::prelude::*;
use crate::decimal::{parse_i32, parse_u32, parse_u64, spec_parse_i32, spec_parse_unsigned};

verus! {

/// The dominant color direction of the effect.
#[derive(Clone, Copy, Debug, PartialEq, Eq, Structural)]
pub enum ColorBoost {
    /// No dominant color.
    Neutral,
    Red,
    Green,
    Blue,
}

/// Options whose value is a fractional number.
#[derive(Clone, Copy, Debug, PartialEq, Eq, Structural)]
pub enum FloatOption {
    Intensity,
    GlitchRate,
    Scanline,
    Vignette,
    Brightness,
    Contrast,
    Saturation,
    Noise,
    Bloom,
}

/// Options whose value is an integer.
#[derive(Clone, Copy, Debug, PartialEq, Eq, Structural)]
pub enum IntOption {
    GlitchShift,
    ScanlineStep,
    Seed,
}

/// An option that takes the next argument as its value.
#[derive(Clone, Copy, Debug, PartialEq, Eq, Structural)]
pub enum ValueFlag {
    Float(FloatOption),
    Int(IntOption),
}

/// What a single argument is, read on its own.
#[derive(Clone, Copy, Debug, PartialEq, Eq, Structural)]
pub enum ArgKind {
    Help,
    Color(ColorBoost),
    Value(ValueFlag),
    Random,
    Animation,
    UnknownOption,
    Positional,
}

/// The classification of an argument.
pub open spec fn spec_classify(s: Seq<char>) -> ArgKind {
    if s == "-h"@ || s == "--help"@ {
        ArgKind::Help
    } else if s == "--red"@ {
        ArgKind::Color(ColorBoost::Red)
    } else if s == "--green"@ {
        ArgKind::Color(ColorBoost::Green)
    } else if s == "--blue"@ {
        ArgKind::Color(ColorBoost::Blue)
    } else if s == "--intensity"@ {
        ArgKind::Value(ValueFlag::Float(FloatOption::Intensity))
    } else if s == "--glitch-shift"@ {
        ArgKind::Value(ValueFlag::Int(IntOption::GlitchShift))
    } else if s == "--glitch-rate"@ {
        ArgKind::Value(ValueFlag::Float(FloatOption::GlitchRate))
    } else if s == "--scanline"@ {
        ArgKind::Value(ValueFlag::Float(FloatOption::Scanline))
    } else if s == "--scanline-step"@ {
        ArgKind::Value(ValueFlag::Int(IntOption::ScanlineStep))
    } else if s == "--vignette"@ {
        ArgKind::Value(ValueFlag::Float(FloatOption::Vignette))
    } else if s == "--brightness"@ {
        ArgKind::Value(ValueFlag::Float(FloatOption::Brightness))
    } else if s == "--contrast"@ {
        ArgKind::Value(ValueFlag::Float(FloatOption::Contrast))
    } else if s == "--saturation"@ {
        ArgKind::Value(ValueFlag::Float(FloatOption::Saturation))
    } else if s == "--noise"@ {
        ArgKind::Value(ValueFlag::Float(FloatOption::Noise))
    } else if s == "--bloom"@ {
        ArgKind::Value(ValueFlag::Float(FloatOption::Bloom))
    } else if s == "--seed"@ {
        ArgKind::Value(ValueFlag::Int(IntOption::Seed))
    } else if s == "--random"@ {
        ArgKind::Random
    } else if s == "--animation"@ {
        ArgKind::Animation
    } else if s.len() > 0 && s[0] == '-' {
        ArgKind::UnknownOption
    } else {
        ArgKind::Positional
    }
}

/// Every value option is recognized under the name used in messages.
pub proof fn lemma_flag_names_classified(flag: ValueFlag)
    ensures
        spec_classify(spec_flag_name(flag)) == ArgKind::Value(flag),
{
    reveal_strlit("-h");
    reveal_strlit("--help");
    reveal_strlit("--red");
    reveal_strlit("--green");
    reveal_strlit("--blue");
    reveal_strlit("--intensity");
    reveal_strlit("--glitch-shift");
    reveal_strlit("--glitch-rate");
    reveal_strlit("--scanline");
    reveal_strlit("--scanline-step");
    reveal_strlit("--vignette");
    reveal_strlit("--brightness");
    reveal_strlit("--contrast");
    reveal_strlit("--saturation");
    reveal_strlit("--noise");
    reveal_strlit("--bloom");
    reveal_strlit("--seed");
    reveal_strlit("--random");
    reveal_strlit("--animation");
    let name = spec_flag_name(flag);
    // Names of equal length already differ in their third character.
    assert(name[2] != "--help"@[2] || name.len() != 6);
    assert(name[2] != "--blue"@[2] || name.len() != 6);
    assert(name[2] != "--green"@[2] || name.len() != 7);
    match flag {
        ValueFlag::Float(FloatOption::Intensity) => assert(name[2] != "--animation"@[2]),
        ValueFlag::Float(FloatOption::Noise) => assert(name[2] != "--bloom"@[2]),
        ValueFlag::Float(FloatOption::Bloom) => assert(name[2] != "--noise"@[2]),
        ValueFlag::Float(FloatOption::Saturation) => assert(name[2] != "--brightness"@[2]),
        ValueFlag::Float(FloatOption::Vignette) => assert(name[2] != "--scanline"@[2]),
        ValueFlag::Float(FloatOption::Contrast) => {
            assert(name[2] != "--scanline"@[2]);
            assert(name[2] != "--vignette"@[2]);
        },
        _ => {},
    }
}

/// Whether two strings hold the same characters.
pub fn str_equals(a: &str, b: &str) -> (eq: bool)
    ensures
        eq == (a@ == b@),
{
    let n = a.unicode_len();
    if n != b.unicode_len() {
        return false;
    }
    let mut i: usize = 0;
    while i < n
        invariant
            i <= n,
            n == a@.len(),
            n == b@.len(),
            forall|j: int| 0 <= j < i ==> a@[j] == b@[j],
        decreases n - i,
    {
        if a.get_char(i) != b.get_char(i) {
            return false;
        }
        i = i + 1;
    }
    assert(a@ =~= b@);
    true
}

/// Classifies one argument.
pub fn classify_arg(arg: &str) -> (kind: ArgKind)
    ensures
        kind == spec_classify(arg@),
{
    if str_equals(arg, "-h") || str_equals(arg, "--help") {
        ArgKind::Help
    } else if str_equals(arg, "--red") {
        ArgKind::Color(ColorBoost::Red)
    } else if str_equals(arg, "--green") {
        ArgKind::Color(ColorBoost::Green)
    } else if str_equals(arg, "--blue") {
        ArgKind::Color(ColorBoost::Blue)
    } else if str_equals(arg, "--intensity") {
        ArgKind::Value(ValueFlag::Float(FloatOption::Intensity))
    } else if str_equals(arg, "--glitch-shift") {
        ArgKind::Value(ValueFlag::Int(IntOption::GlitchShift))
    } else if str_equals(arg, "--glitch-rate") {
        ArgKind::Value(ValueFlag::Float(FloatOption::GlitchRate))
    } else if str_equals(arg, "--scanline") {
        ArgKind::Value(ValueFlag::Float(FloatOption::Scanline))
    } else if str_equals(arg, "--scanline-step") {
        ArgKind::Value(ValueFlag::Int(IntOption::ScanlineStep))
    } else if str_equals(arg, "--vignette") {
        ArgKind::Value(ValueFlag::Float(FloatOption::Vignette))
    } else if str_equals(arg, "--brightness") {
        ArgKind::Value(ValueFlag::Float(FloatOption::Brightness))
    } else if str_equals(arg, "--contrast") {
        ArgKind::Value(ValueFlag::Float(FloatOption::Contrast))
    } else if str_equals(arg, "--saturation") {
        ArgKind::Value(ValueFlag::Float(FloatOption::Saturation))
    } else if str_equals(arg, "--noise") {
        ArgKind::Value(ValueFlag::Float(FloatOption::Noise))
    } else if str_equals(arg, "--bloom") {
        ArgKind::Value(ValueFlag::Float(FloatOption::Bloom))
    } else if str_equals(arg, "--seed") {
        ArgKind::Value(ValueFlag::Int(IntOption::Seed))
    } else if str_equals(arg, "--random") {
        ArgKind::Random
    } else if str_equals(arg, "--animation") {
        ArgKind::Animation
    } else if arg.unicode_len() > 0 && arg.get_char(0) == '-' {
        ArgKind::UnknownOption
    } else {
        ArgKind::Positional
    }
}


/// The name under which a value option is written.
pub open spec fn spec_flag_name(flag: ValueFlag) -> Seq<char> {
    match flag {
        ValueFlag::Float(FloatOption::Intensity) => "--intensity"@,
        ValueFlag::Float(FloatOption::GlitchRate) => "--glitch-rate"@,
        ValueFlag::Float(FloatOption::Scanline) => "--scanline"@,
        ValueFlag::Float(FloatOption::Vignette) => "--vignette"@,
        ValueFlag::Float(FloatOption::Brightness) => "--brightness"@,
        ValueFlag::Float(FloatOption::Contrast) => "--contrast"@,
        ValueFlag::Float(FloatOption::Saturation) => "--saturation"@,
        ValueFlag::Float(FloatOption::Noise) => "--noise"@,
        ValueFlag::Float(FloatOption::Bloom) => "--bloom"@,
        ValueFlag::Int(IntOption::GlitchShift) => "--glitch-shift"@,
        ValueFlag::Int(IntOption::ScanlineStep) => "--scanline-step"@,
        ValueFlag::Int(IntOption::Seed) => "--seed"@,
    }
}

/// The name under which a value option is written, for messages.
pub fn flag_name(flag: ValueFlag) -> (name: &'static str)
    ensures
        name@ == spec_flag_name(flag),
{
    match flag {
        ValueFlag::Float(FloatOption::Intensity) => "--intensity",
        ValueFlag::Float(FloatOption::GlitchRate) => "--glitch-rate",
        ValueFlag::Float(FloatOption::Scanline) => "--scanline",
        ValueFlag::Float(FloatOption::Vignette) => "--vignette",
        ValueFlag::Float(FloatOption::Brightness) => "--brightness",
        ValueFlag::Float(FloatOption::Contrast) => "--contrast",
        ValueFlag::Float(FloatOption::Saturation) => "--saturation",
        ValueFlag::Float(FloatOption::Noise) => "--noise",
        ValueFlag::Float(FloatOption::Bloom) => "--bloom",
        ValueFlag::Int(IntOption::GlitchShift) => "--glitch-shift",
        ValueFlag::Int(IntOption::ScanlineStep) => "--scanline-step",
        ValueFlag::Int(IntOption::Seed) => "--seed",
    }
}

/// The accepted range `(min, max)` of a fractional option; both ends are
/// whole numbers and both are accepted.
pub open spec fn spec_float_bounds(opt: FloatOption) -> (int, int) {
    match opt {
        FloatOption::Intensity => (0, 2),
        FloatOption::Brightness => (-1, 1),
        FloatOption::Contrast => (0, 3),
        FloatOption::Saturation => (0, 3),
        _ => (0, 1),
    }
}

/// The accepted range of a fractional option.
pub fn float_bounds(opt: FloatOption) -> (bounds: (i32, i32))
    ensures
        bounds.0 == spec_float_bounds(opt).0,
        bounds.1 == spec_float_bounds(opt).1,
{
    match opt {
        FloatOption::Intensity => (0, 2),
        FloatOption::Brightness => (-1, 1),
        FloatOption::Contrast => (0, 3),
        FloatOption::Saturation => (0, 3),
        _ => (0, 1),
    }
}

/// The accepted ranges of the fractional options are the documented
/// ones: intensity 0 to 2, brightness -1 to 1, contrast and saturation 0
/// to 3, and glitch rate, scanline, vignette, noise and bloom 0 to 1.
pub proof fn lemma_float_bounds_documented(opt: FloatOption)
    ensures
        opt == FloatOption::Intensity ==> spec_float_bounds(opt) == (0int, 2int),
        opt == FloatOption::Brightness ==> spec_float_bounds(opt) == (-1int, 1int),
        opt == FloatOption::Contrast || opt == FloatOption::Saturation ==> spec_float_bounds(opt)
            == (0int, 3int),
        opt == FloatOption::GlitchRate || opt == FloatOption::Scanline || opt == FloatOption::Vignette
            || opt == FloatOption::Noise || opt == FloatOption::Bloom ==> spec_float_bounds(opt) == (
        0int, 1int),
{
}

/// The smallest and largest accepted glitch shift.
pub const GLITCH_SHIFT_MIN: i32 = 0;
pub const GLITCH_SHIFT_MAX: i32 = 128;

/// The smallest and largest accepted scanline step.
pub const SCANLINE_STEP_MIN: u32 = 1;
pub const SCANLINE_STEP_MAX: u32 = 32;

/// The integer-valued settings of the effect.
#[derive(Clone, Copy, Debug, PartialEq, Eq, Structural)]
pub struct DiscreteSettings {
    /// Largest per-row channel shift, in pixels.
    pub glitch_shift: i32,
    /// Rows per scanline period.
    pub scanline_step: u32,
    /// Seed of the pseudo-random glitch and grain.
    pub seed: u64,
    pub color_boost: ColorBoost,
}

impl DiscreteSettings {
    /// The options lie in their documented ranges.
    pub open spec fn wf(&self) -> bool {
        &&& GLITCH_SHIFT_MIN <= self.glitch_shift <= GLITCH_SHIFT_MAX
        &&& SCANLINE_STEP_MIN <= self.scanline_step <= SCANLINE_STEP_MAX
    }
}

/// The settings used where no option says otherwise.
pub open spec fn spec_default_settings() -> DiscreteSettings {
    DiscreteSettings {
        glitch_shift: 9,
        scanline_step: 2,
        seed: 2077,
        color_boost: ColorBoost::Neutral,
    }
}

impl Default for DiscreteSettings {
    fn default() -> (s: Self)
        ensures
            s == spec_default_settings(),
    {
        DiscreteSettings {
            glitch_shift: 9,
            scanline_step: 2,
            seed: 2_077,
            color_boost: ColorBoost::Neutral,
        }
    }
}

/// Why the arguments were refused.
#[derive(Debug)]
pub enum CliError {
    /// An argument starting with `-` that is no option.
    UnknownOption(String),
    /// A second color flag.
    ColorConflict,
    /// An option with nothing after it.
    MissingValue(ValueFlag),
    /// A value that does not parse.
    InvalidValue(ValueFlag, String),
    /// A value outside its option's range.
    OutOfRange(ValueFlag, String),
    /// No image path, or more than one.
    Usage,
}

/// Selects the color boost, which may be chosen only once.
pub fn set_color_boost(settings: &mut DiscreteSettings, boost: ColorBoost) -> (r: Result<(), CliError>)
    ensures
        old(settings).color_boost == ColorBoost::Neutral ==> r is Ok
            && *final(settings) == (DiscreteSettings { color_boost: boost, ..*old(settings) }),
        old(settings).color_boost != ColorBoost::Neutral ==> (r matches Err(CliError::ColorConflict))
            && *final(settings) == *old(settings),
{
    if settings.color_boost != ColorBoost::Neutral {
        return Err(CliError::ColorConflict);
    }
    settings.color_boost = boost;
    Ok(())
}

/// The outcome of reading an integer option's value.
pub open spec fn spec_int_arg(
    flag: ValueFlag,
    value: String,
    parsed: Option<int>,
    min: int,
    max: int,
) -> Result<int, CliError> {
    match parsed {
        None => Err(CliError::InvalidValue(flag, value)),
        Some(v) => if min <= v <= max {
            Ok(v)
        } else {
            Err(CliError::OutOfRange(flag, value))
        },
    }
}

/// Reads the value of an `i32` option with the range `min ..= max`.
pub fn parse_i32_arg(flag: ValueFlag, value: String, min: i32, max: i32) -> (r: Result<i32, CliError>)
    ensures
        match spec_int_arg(flag, value, spec_parse_i32(value@), min as int, max as int) {
            Ok(v) => r == Ok::<i32, CliError>(v as i32),
            Err(e) => r == Err::<i32, CliError>(e),
        },
{
    match parse_i32(value.as_str()) {
        None => Err(CliError::InvalidValue(flag, value)),
        Some(v) => if min <= v && v <= max {
            Ok(v)
        } else {
            Err(CliError::OutOfRange(flag, value))
        },
    }
}

/// Reads the value of a `u32` option with the range `min ..= max`.
pub fn parse_u32_arg(flag: ValueFlag, value: String, min: u32, max: u32) -> (r: Result<u32, CliError>)
    ensures
        match spec_int_arg(
            flag,
            value,
            spec_parse_unsigned(value@, u32::MAX as int),
            min as int,
            max as int,
        ) {
            Ok(v) => r == Ok::<u32, CliError>(v as u32),
            Err(e) => r == Err::<u32, CliError>(e),
        },
{
    match parse_u32(value.as_str()) {
        None => Err(CliError::InvalidValue(flag, value)),
        Some(v) => if min <= v && v <= max {
            Ok(v)
        } else {
            Err(CliError::OutOfRange(flag, value))
        },
    }
}

/// Reads the value of a `u64` option; every `u64` is accepted.
pub fn parse_u64_arg(flag: ValueFlag, value: String) -> (r: Result<u64, CliError>)
    ensures
        match spec_parse_unsigned(value@, u64::MAX as int) {
            Some(v) => r == Ok::<u64, CliError>(v as u64),
            None => r == Err::<u64, CliError>(CliError::InvalidValue(flag, value)),
        },
{
    match parse_u64(value.as_str()) {
        None => Err(CliError::InvalidValue(flag, value)),
        Some(v) => Ok(v),
    }
}


/// What the caller does after an argument was accepted.
#[derive(Debug)]
pub enum Step {
    /// Go on with the next argument.
    Continue,
    /// Help was asked for: show it and stop.
    HelpShown,
    /// The value of a fractional option, to be parsed and range-checked
    /// by the caller.
    FloatValue(FloatOption, String),
}

/// The arguments of a run.
#[derive(Debug)]
pub struct ParsedArgs {
    pub input_path: String,
    pub settings: DiscreteSettings,
    pub random_mode: bool,
    pub animation_mode: bool,
}

/// Reads the arguments one at a time.
#[derive(Debug)]
pub struct ArgParser {
    /// The option whose value comes next, if any.
    pub pending: Option<ValueFlag>,
    pub input_path: Option<String>,
    pub settings: DiscreteSettings,
    pub random_mode: bool,
    pub animation_mode: bool,
}

/// A parser that has read nothing yet.
pub open spec fn spec_new_parser() -> ArgParser {
    ArgParser {
        pending: None,
        input_path: None,
        settings: spec_default_settings(),
        random_mode: false,
        animation_mode: false,
    }
}

/// The parser after an integer option's value was read, and the step.
pub open spec fn spec_feed_int(p: ArgParser, opt: IntOption, arg: String) -> (ArgParser, Result<Step, CliError>) {
    let flag = ValueFlag::Int(opt);
    let s = p.settings;
    match opt {
        IntOption::GlitchShift => match spec_int_arg(
            flag,
            arg,
            spec_parse_i32(arg@),
            GLITCH_SHIFT_MIN as int,
            GLITCH_SHIFT_MAX as int,
        ) {
            Ok(v) => (
                ArgParser { settings: DiscreteSettings { glitch_shift: v as i32, ..s }, ..p },
                Ok(Step::Continue),
            ),
            Err(e) => (p, Err(e)),
        },
        IntOption::ScanlineStep => match spec_int_arg(
            flag,
            arg,
            spec_parse_unsigned(arg@, u32::MAX as int),
            SCANLINE_STEP_MIN as int,
            SCANLINE_STEP_MAX as int,
        ) {
            Ok(v) => (
                ArgParser { settings: DiscreteSettings { scanline_step: v as u32, ..s }, ..p },
                Ok(Step::Continue),
            ),
            Err(e) => (p, Err(e)),
        },
        IntOption::Seed => match spec_parse_unsigned(arg@, u64::MAX as int) {
            Some(v) => (
                ArgParser { settings: DiscreteSettings { seed: v as u64, ..s }, ..p },
                Ok(Step::Continue),
            ),
            None => (p, Err(CliError::InvalidValue(flag, arg))),
        },
    }
}

/// The parser after reading `arg`, and what the caller does next.
///
/// An argument right after a value option is that option's value,
/// whatever it looks like. Otherwise `-h`/`--help` asks for help, a
/// second color flag is refused, an unknown `-` argument is refused, and
/// a second image path is refused.
pub open spec fn spec_feed(p: ArgParser, arg: String) -> (ArgParser, Result<Step, CliError>) {
    match p.pending {
        Some(ValueFlag::Float(opt)) => (
            ArgParser { pending: None, ..p },
            Ok(Step::FloatValue(opt, arg)),
        ),
        Some(ValueFlag::Int(opt)) => spec_feed_int(ArgParser { pending: None, ..p }, opt, arg),
        None => match spec_classify(arg@) {
            ArgKind::Help => (p, Ok(Step::HelpShown)),
            ArgKind::Color(boost) => if p.settings.color_boost == ColorBoost::Neutral {
                (
                    ArgParser { settings: DiscreteSettings { color_boost: boost, ..p.settings }, ..p },
                    Ok(Step::Continue),
                )
            } else {
                (p, Err(CliError::ColorConflict))
            },
            ArgKind::Value(flag) => (ArgParser { pending: Some(flag), ..p }, Ok(Step::Continue)),
            ArgKind::Random => (ArgParser { random_mode: true, ..p }, Ok(Step::Continue)),
            ArgKind::Animation => (ArgParser { animation_mode: true, ..p }, Ok(Step::Continue)),
            ArgKind::UnknownOption => (p, Err(CliError::UnknownOption(arg))),
            ArgKind::Positional => if p.input_path is Some {
                (p, Err(CliError::Usage))
            } else {
                (ArgParser { input_path: Some(arg), ..p }, Ok(Step::Continue))
            },
        },
    }
}

/// The result of running out of arguments.
pub open spec fn spec_finish(p: ArgParser) -> Result<ParsedArgs, CliError> {
    match p.pending {
        Some(flag) => Err(CliError::MissingValue(flag)),
        None => match p.input_path {
            None => Err(CliError::Usage),
            Some(path) => Ok(
                ParsedArgs {
                    input_path: path,
                    settings: p.settings,
                    random_mode: p.random_mode,
                    animation_mode: p.animation_mode,
                },
            ),
        },
    }
}

/// Only one color flag may be given: once a color is chosen, a further
/// color flag is refused and leaves the parser as it was.
pub proof fn lemma_single_color_flag(p: ArgParser, arg: String)
    requires
        p.pending is None,
        p.settings.color_boost != ColorBoost::Neutral,
        spec_classify(arg@) is Color,
    ensures
        spec_feed(p, arg).1 matches Err(CliError::ColorConflict),
        spec_feed(p, arg).0 == p,
{
}

/// Every option recognized from its argument is written under that very
/// argument.
pub proof fn lemma_classified_flag_named(s: Seq<char>)
    ensures
        spec_classify(s) matches ArgKind::Value(flag) ==> spec_flag_name(flag) == s,
{
}

/// A value goes to the option written just before it: after an argument
/// that names a fractional option, the next argument comes back whole as
/// the value of the option of that name.
pub proof fn lemma_float_value_follows_its_flag(p: ArgParser, flag_arg: String, value: String)
    requires
        p.pending is None,
        spec_classify(flag_arg@) is Value,
        spec_classify(flag_arg@)->Value_0 is Float,
    ensures
        ({
            let (next, first) = spec_feed(p, flag_arg);
            &&& first matches Ok(Step::Continue)
            &&& spec_feed(next, value).1 matches Ok(Step::FloatValue(opt, v)) && v == value
                && spec_flag_name(ValueFlag::Float(opt)) == flag_arg@
        }),
{
    lemma_classified_flag_named(flag_arg@);
}

impl ArgParser {
    /// The parser keeps its settings in their documented ranges.
    pub open spec fn wf(&self) -> bool {
        self.settings.wf()
    }

    /// A parser with the default settings and no image path.
    pub fn new() -> (p: ArgParser)
        ensures
            p == spec_new_parser(),
            p.wf(),
    {
        ArgParser {
            pending: None,
            input_path: None,
            settings: DiscreteSettings::default(),
            random_mode: false,
            animation_mode: false,
        }
    }

    /// Reads one argument.
    pub fn feed(&mut self, arg: String) -> (r: Result<Step, CliError>)
        requires
            old(self).wf(),
        ensures
            final(self).wf(),
            (*final(self), r) == spec_feed(*old(self), arg),
    {
        match self.pending {
            Some(flag) => {
                self.pending = None;
                match flag {
                    ValueFlag::Float(opt) => Ok(Step::FloatValue(opt, arg)),
                    ValueFlag::Int(IntOption::GlitchShift) => {
                        match parse_i32_arg(flag, arg, GLITCH_SHIFT_MIN, GLITCH_SHIFT_MAX) {
                            Ok(v) => {
                                self.settings.glitch_shift = v;
                                Ok(Step::Continue)
                            },
                            Err(e) => Err(e),
                        }
                    },
                    ValueFlag::Int(IntOption::ScanlineStep) => {
                        match parse_u32_arg(flag, arg, SCANLINE_STEP_MIN, SCANLINE_STEP_MAX) {
                            Ok(v) => {
                                self.settings.scanline_step = v;
                                Ok(Step::Continue)
                            },
                            Err(e) => Err(e),
                        }
                    },
                    ValueFlag::Int(IntOption::Seed) => {
                        match parse_u64_arg(flag, arg) {
                            Ok(v) => {
                                self.settings.seed = v;
                                Ok(Step::Continue)
                            },
                            Err(e) => Err(e),
                        }
                    },
                }
            },
            None => {
                match classify_arg(arg.as_str()) {
                    ArgKind::Help => Ok(Step::HelpShown),
                    ArgKind::Color(boost) => {
                        match set_color_boost(&mut self.settings, boost) {
                            Ok(()) => Ok(Step::Continue),
                            Err(e) => Err(e),
                        }
                    },
                    ArgKind::Value(flag) => {
                        self.pending = Some(flag);
                        Ok(Step::Continue)
                    },
                    ArgKind::Random => {
                        self.random_mode = true;
                        Ok(Step::Continue)
                    },
                    ArgKind::Animation => {
                        self.animation_mode = true;
                        Ok(Step::Continue)
                    },
                    ArgKind::UnknownOption => Err(CliError::UnknownOption(arg)),
                    ArgKind::Positional => {
                        if self.input_path.is_some() {
                            Err(CliError::Usage)
                        } else {
                            self.input_path = Some(arg);
                            Ok(Step::Continue)
                        }
                    },
                }
            },
        }
    }

    /// Ends the arguments: an option still waiting for its value, or a
    /// missing image path, is an error.
    pub fn finish(self) -> (r: Result<ParsedArgs, CliError>)
        requires
            self.wf(),
        ensures
            r == spec_finish(self),
            r matches Ok(args) ==> args.settings.wf(),
    {
        match self.pending {
            Some(flag) => Err(CliError::MissingValue(flag)),
            None => match self.input_path {
                None => Err(CliError::Usage),
                Some(path) => Ok(ParsedArgs {
                    input_path: path,
                    settings: self.settings,
                    random_mode: self.random_mode,
                    animation_mode: self.animation_mode,
                }),
            },
        }
    }
}

} // verus!
