//! Tests of the command-line configuration: flag parsing and the one-time
//! resolution of the color mode into a palette.

use logzy::args::{Cli, ColorOutput};

#[test]
fn test_default_args() {
    let args = Cli::from_iter_safe(&["logzy"]).unwrap();
    assert_eq!(
        args,
        Cli {
            concise: false,
            color: ColorOutput::Auto,
        }
    );
}

#[test]
fn test_disable_color() {
    let mut args = Cli::from_iter_safe(&["logzy", "--color", "never"]).unwrap();
    assert!(args.log_colors(false).is_none());
}

#[test]
fn test_force_color() {
    let mut args = Cli::from_iter_safe(&["logzy", "--color", "always"]).unwrap();
    assert!(args.log_colors(false).is_some());
}

#[test]
fn concise_flag_both_spellings() {
    let short = Cli::from_iter_safe(&["logzy", "-c"]).unwrap();
    let long = Cli::from_iter_safe(&["logzy", "--concise"]).unwrap();
    assert!(short.concise);
    assert!(long.concise);
    assert_eq!(short, long);
}

#[test]
fn invalid_color_value_is_rejected() {
    let err = Cli::from_iter_safe(&["logzy", "--color", "sometimes"]).unwrap_err();
    assert_eq!(err, "Invalid color option: 'sometimes'");
}

#[test]
fn color_flag_requires_a_value() {
    let err = Cli::from_iter_safe(&["logzy", "--color"]).unwrap_err();
    assert_eq!(err, "The argument '--color' requires a value");
}

#[test]
fn unknown_argument_is_rejected() {
    let err = Cli::from_iter_safe(&["logzy", "--bogus"]).unwrap_err();
    assert_eq!(err, "Unknown argument: '--bogus'");
}

#[test]
fn auto_mode_resolves_once_from_the_tty_answer() {
    let mut on_tty = Cli::from_iter_safe(&["logzy"]).unwrap();
    assert!(on_tty.log_colors(true).is_some());
    // Auto has been resolved to Always; the TTY answer no longer matters.
    assert!(on_tty.log_colors(false).is_some());

    let mut piped = Cli::from_iter_safe(&["logzy"]).unwrap();
    assert!(piped.log_colors(false).is_none());
    assert!(piped.log_colors(true).is_none());
}

#[test]
fn forced_color_ignores_the_tty_answer() {
    let mut never = Cli::from_iter_safe(&["logzy", "--color", "never"]).unwrap();
    assert!(never.log_colors(true).is_none());

    let mut always = Cli::from_iter_safe(&["logzy", "--color", "always"]).unwrap();
    assert!(always.log_colors(false).is_some());
}

#[test]
fn palette_matches_termion_directives() {
    let mut args = Cli::from_iter_safe(&["logzy", "--color", "always"]).unwrap();
    let colors = args.log_colors(false).unwrap();
    assert_eq!(colors.critical, termion::color::LightRed.bg_str());
    assert_eq!(colors.error, termion::color::LightRed.fg_str());
    assert_eq!(colors.warning, termion::color::LightYellow.fg_str());
    assert_eq!(colors.info, termion::color::LightGreen.fg_str());
    assert_eq!(colors.key, termion::color::Cyan.fg_str());
}
