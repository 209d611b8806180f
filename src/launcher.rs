//! The detection order: a file's bytes first, its name only where they say
//! nothing.
use vstd::prelude::*;
use vstd::string::*;

use crate::config::{format_flags, format_interpreter, GameFormat};
use crate::detect::{
    detect_format_by_extension, detect_format_by_header, extension_format, header_format,
};

verus! {

/// The format of a file with bytes `file` at `path`: what its bytes say,
/// and only where that is `Unknown`, what its extension says.
pub open spec fn detected_format(file: Seq<u8>, path: Seq<u8>) -> GameFormat {
    if header_format(file) != GameFormat::Unknown {
        header_format(file)
    } else {
        extension_format(path)
    }
}

/// Entry point for detecting the format of a game file.
pub struct Launcher {}

impl Launcher {
    /// A launcher; it holds no settings.
    pub fn new() -> (r: Launcher) {
        Launcher {  }
    }

    /// Detects the format of the file at `path` whose bytes are `contents`.
    pub fn detect_format(&self, contents: &[u8], path: &str) -> (r: GameFormat)
        ensures
            r == detected_format(contents@, path.spec_bytes()),
    {
        let format = detect_format_by_header(contents);
        if format != GameFormat::Unknown {
            return format;
        }
        detect_format_by_extension(path)
    }

    /// The command that runs a game of the given format: the interpreter's
    /// program name, then the format's flags followed by the game's path.
    /// There is none for `Unknown`.
    pub fn command_for<'a>(&self, format: GameFormat, game_path: &'a str) -> (r: Option<
        (&'static str, Vec<&'a str>),
    >)
        ensures
            r is None <==> format == GameFormat::Unknown,
            r matches Some((program, args)) ==> {
                &&& format_interpreter(format) == Some(program@)
                &&& args@.map_values(|a: &'a str| a@) == format_flags(format).push(game_path@)
            },
    {
        let program = match format.interpreter() {
            Some(p) => p,
            None => {
                return None;
            },
        };
        let flags = format.flags();
        let mut args: Vec<&'a str> = Vec::new();
        let mut i: usize = 0;
        while i < flags.len()
            invariant
                0 <= i <= flags.len(),
                args@.len() == i,
                forall|j: int| 0 <= j < i ==> #[trigger] args@[j]@ == flags@[j]@,
            decreases flags.len() - i,
        {
            args.push(flags[i]);
            i = i + 1;
        }
        let ghost before = args@;
        args.push(game_path);
        assert(args@.map_values(|a: &'a str| a@) =~= flags@.map_values(|a: &'static str| a@).push(
            game_path@,
        )) by {
            assert(args@ == before.push(game_path));
        }
        Some((program, args))
    }
}

} // verus!
