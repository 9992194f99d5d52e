//! Command-line configuration: the parsed flags, the allowed values of the
//! `--color` flag, and the one-time resolution of the Auto color mode into a
//! concrete palette.

use vstd::prelude::*;
use crate::palette::{LogColors, default_colors};
use crate::strutil::str_eq;

verus! {

/// Enum representing the allowed values of the --color flag.
#[derive(Clone, Copy, Debug, PartialEq, Eq, Structural)]
pub enum ColorOutput {
    Never,
    Auto,
    Always,
}

/// What parsing a `--color` value yields: one of the three modes, or a
/// message naming the rejected value.
pub open spec fn spec_parse_color(s: Seq<char>) -> Result<ColorOutput, Seq<char>> {
    if s == "never"@ {
        Ok(ColorOutput::Never)
    } else if s == "auto"@ {
        Ok(ColorOutput::Auto)
    } else if s == "always"@ {
        Ok(ColorOutput::Always)
    } else {
        Err("Invalid color option: '"@ + s + "'"@)
    }
}

impl ColorOutput {
    /// Parses a `--color` value: exactly "never", "auto" or "always".
    pub fn from_str(color: &str) -> (r: Result<ColorOutput, String>)
        ensures
            match spec_parse_color(color@) {
                Ok(c) => r == Result::<ColorOutput, String>::Ok(c),
                Err(m) => r matches Err(e) && e@ == m,
            },
    {
        if str_eq(color, "never") {
            Ok(ColorOutput::Never)
        } else if str_eq(color, "auto") {
            Ok(ColorOutput::Auto)
        } else if str_eq(color, "always") {
            Ok(ColorOutput::Always)
        } else {
            let mut m = String::from_str("Invalid color option: '");
            m.append(color);
            m.append("'");
            proof {
                assert(m@ =~= "Invalid color option: '"@ + color@ + "'"@);
            }
            Err(m)
        }
    }
}

/// The command-line configuration the formatter runs under.
#[derive(Clone, Copy, Debug, PartialEq, Eq, Structural)]
pub struct Cli {
    /// Enable concise output.
    pub concise: bool,
    /// Configure color mode.
    pub color: ColorOutput,
}

/// The configuration every run starts from: full output, Auto color mode.
pub open spec fn default_cli() -> Cli {
    Cli { concise: false, color: ColorOutput::Auto }
}

/// What parsing the arguments from position `i` onward on top of `acc`
/// yields: `-c` or `--concise` enables concise output; `--color` takes the
/// following argument as its value, a later occurrence overriding an earlier
/// one; any other argument is rejected with a message naming it.
pub open spec fn spec_parse_args(args: Seq<Seq<char>>, i: int, acc: Cli) -> Result<
    Cli,
    Seq<char>,
>
    decreases args.len() - i,
{
    if i >= args.len() {
        Ok(acc)
    } else if args[i] == "-c"@ || args[i] == "--concise"@ {
        spec_parse_args(args, i + 1, Cli { concise: true, ..acc })
    } else if args[i] == "--color"@ {
        if i + 1 >= args.len() {
            Err("The argument '--color' requires a value"@)
        } else {
            match spec_parse_color(args[i + 1]) {
                Ok(c) => spec_parse_args(args, i + 2, Cli { color: c, ..acc }),
                Err(m) => Err(m),
            }
        }
    } else {
        Err("Unknown argument: '"@ + args[i] + "'"@)
    }
}

impl Cli {
    /// Parses an argument list whose first element is the binary's own name,
    /// which is ignored.
    pub fn from_iter_safe(args: &[&str]) -> (r: Result<Cli, String>)
        ensures
            match spec_parse_args(args@.map_values(|a: &str| a@), 1, default_cli()) {
                Ok(c) => r == Result::<Cli, String>::Ok(c),
                Err(m) => r matches Err(e) && e@ == m,
            },
    {
        let ghost sargs = args@.map_values(|a: &str| a@);
        let mut cli = Cli { concise: false, color: ColorOutput::Auto };
        let mut i: usize = 1;
        while i < args.len()
            invariant
                i >= 1,
                sargs == args@.map_values(|a: &str| a@),
                sargs.len() == args@.len(),
                spec_parse_args(sargs, 1, default_cli()) == spec_parse_args(
                    sargs,
                    i as int,
                    cli,
                ),
            decreases args@.len() - i,
        {
            let a: &str = args[i];
            proof {
                assert(sargs[i as int] == a@);
            }
            if str_eq(a, "-c") || str_eq(a, "--concise") {
                cli.concise = true;
                i = i + 1;
            } else if str_eq(a, "--color") {
                if i + 1 >= args.len() {
                    return Err(String::from_str("The argument '--color' requires a value"));
                }
                proof {
                    assert(sargs[i + 1] == args@[i + 1]@);
                }
                match ColorOutput::from_str(args[i + 1]) {
                    Ok(c) => {
                        cli.color = c;
                        i = i + 2;
                    },
                    Err(e) => {
                        return Err(e);
                    },
                }
            } else {
                let mut m = String::from_str("Unknown argument: '");
                m.append(a);
                m.append("'");
                proof {
                    assert(m@ =~= "Unknown argument: '"@ + sargs[i as int] + "'"@);
                }
                return Err(m);
            }
        }
        Ok(cli)
    }

    /// Decide how to color the output. The caller answers once, before any
    /// line is rendered, whether standard output is a terminal; an Auto mode
    /// is resolved to Always or Never accordingly, so a later call needs no
    /// further capability check. Only a resolved Always yields a palette.
    pub fn log_colors(&mut self, stdout_is_tty: bool) -> (r: Option<LogColors>)
        ensures
            final(self).concise == old(self).concise,
            final(self).color == (if old(self).color == ColorOutput::Auto {
                if stdout_is_tty {
                    ColorOutput::Always
                } else {
                    ColorOutput::Never
                }
            } else {
                old(self).color
            }),
            r is Some <==> final(self).color == ColorOutput::Always,
            r is Some ==> r->0@ == default_colors(),
    {
        if let ColorOutput::Auto = self.color {
            self.color = if stdout_is_tty {
                ColorOutput::Always
            } else {
                ColorOutput::Never
            };
        }
        match self.color {
            ColorOutput::Never => None,
            ColorOutput::Always => Some(LogColors::default()),
            ColorOutput::Auto => vstd::pervasive::unreached(),
        }
    }
}

} // verus!
