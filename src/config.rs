//! The command line: `<program> <output_path> <width> <height> [creal] [cimag] [iterations]`.
use vstd::prelude::*;
use crate::decimal::{decimal_u32, parse_u32};

verus! {

/// The iteration budget when none is given, or when it does not read as a `u32`.
pub const DEFAULT_ITERATIONS: u32 = 50;

/// Why a command line cannot be used.
#[derive(Clone, Copy, Debug, PartialEq, Eq, Structural)]
pub enum ArgError {
    /// The output path, the width or the height is missing.
    TooFewArgs,
    /// The width does not read as a `u32`.
    BadWidth,
    /// The height does not read as a `u32`.
    BadHeight,
}

/// The size of the image, in pixels.
#[derive(Clone, Copy, Debug, PartialEq, Eq, Structural)]
pub struct Dimensions {
    pub x: u32,
    pub y: u32,
}

/// A usable command line.
///
/// The two parts of the parameter `c` are kept as the text given, if any: they
/// are floating-point numbers, which the program reads itself (with `0.0` for a
/// part that is absent or does not read).
pub struct Config {
    pub path: String,
    pub dimensions: Dimensions,
    pub creal: Option<String>,
    pub cimag: Option<String>,
    pub iterations: u32,
}

/// What a `Config` holds, with each text as its characters.
pub struct ConfigView {
    pub path: Seq<char>,
    pub dimensions: Dimensions,
    pub creal: Option<Seq<char>>,
    pub cimag: Option<Seq<char>>,
    pub iterations: u32,
}

/// The characters of an optional text.
pub open spec fn text_of(t: Option<String>) -> Option<Seq<char>> {
    match t {
        Some(s) => Some(s@),
        None => None,
    }
}

impl View for Config {
    type V = ConfigView;

    open spec fn view(&self) -> ConfigView {
        ConfigView {
            path: self.path@,
            dimensions: self.dimensions,
            creal: text_of(self.creal),
            cimag: text_of(self.cimag),
            iterations: self.iterations,
        }
    }
}

/// The characters of each argument.
pub open spec fn texts(args: Seq<String>) -> Seq<Seq<char>> {
    args.map_values(|s: String| s@)
}

/// The argument at `i`, if the command line is that long.
pub open spec fn arg_at(args: Seq<Seq<char>>, i: int) -> Option<Seq<char>> {
    if 0 <= i < args.len() {
        Some(args[i])
    } else {
        None
    }
}

/// The iteration budget that an optional argument gives.
pub open spec fn iterations_of(arg: Option<Seq<char>>) -> u32 {
    match arg {
        Some(t) => match decimal_u32(t) {
            Some(v) => v,
            None => DEFAULT_ITERATIONS,
        },
        None => DEFAULT_ITERATIONS,
    }
}

/// What a whole command line, the program's own path first, comes to.
/// Arguments after the iteration budget are ignored.
pub open spec fn parsed_args(args: Seq<Seq<char>>) -> Result<ConfigView, ArgError> {
    if args.len() < 4 {
        Err(ArgError::TooFewArgs)
    } else if decimal_u32(args[2]).is_none() {
        Err(ArgError::BadWidth)
    } else if decimal_u32(args[3]).is_none() {
        Err(ArgError::BadHeight)
    } else {
        Ok(
            ConfigView {
                path: args[1],
                dimensions: Dimensions {
                    x: decimal_u32(args[2]).unwrap(),
                    y: decimal_u32(args[3]).unwrap(),
                },
                creal: arg_at(args, 4),
                cimag: arg_at(args, 5),
                iterations: iterations_of(arg_at(args, 6)),
            },
        )
    }
}

/// A copy of the argument at `i`, if there is one.
fn optional_arg(args: &Vec<String>, i: usize) -> (r: Option<String>)
    ensures
        text_of(r) == arg_at(texts(args@), i as int),
{
    if i < args.len() {
        Some(args[i].clone())
    } else {
        None
    }
}

/// Reads the command line `args`, whose first item is the program's own path.
///
/// The output path, the width and the height are required, and the width and
/// the height must read as `u32`. The real and imaginary parts of `c` are
/// passed on as text. The iteration budget falls back to `DEFAULT_ITERATIONS`
/// when it is absent or does not read as a `u32`.
pub fn parse_args(args: &Vec<String>) -> (r: Result<Config, ArgError>)
    ensures
        match r {
            Ok(c) => parsed_args(texts(args@)) == Ok::<ConfigView, ArgError>(c@),
            Err(e) => parsed_args(texts(args@)) == Err::<ConfigView, ArgError>(e),
        },
{
    let ghost a = texts(args@);
    if args.len() < 4 {
        return Err(ArgError::TooFewArgs);
    }
    assert(a[2] == args@[2]@ && a[3] == args@[3]@ && a[1] == args@[1]@);
    let x = match parse_u32(args[2].as_str()) {
        Some(v) => v,
        None => {
            return Err(ArgError::BadWidth);
        },
    };
    let y = match parse_u32(args[3].as_str()) {
        Some(v) => v,
        None => {
            return Err(ArgError::BadHeight);
        },
    };
    let path = args[1].clone();
    let creal = optional_arg(args, 4);
    let cimag = optional_arg(args, 5);
    let iterations = match optional_arg(args, 6) {
        Some(t) => match parse_u32(t.as_str()) {
            Some(v) => v,
            None => DEFAULT_ITERATIONS,
        },
        None => DEFAULT_ITERATIONS,
    };
    let c = Config { path, dimensions: Dimensions { x, y }, creal, cimag, iterations };
    assert(c@ == parsed_args(a).unwrap());
    Ok(c)
}

} // verus!
