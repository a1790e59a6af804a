//! The failures a command reports before it loads the site: an unusable root
//! directory, a configuration file that cannot be found or resolved, an output
//! directory that is in the way.

use vstd::prelude::*;

use crate::diagnostics::{diags, CommandFailure, Diagnostic, DiagnosticV};
use crate::text::{decimal, decimal_exec, extend_str, string_of};

verus! {

/// A preflight error at `path`.
pub open spec fn preflight_error(
    code: Seq<char>,
    message: Seq<char>,
    path: Seq<char>,
    suggestion: Seq<char>,
) -> DiagnosticV {
    DiagnosticV::error(code, message).at_path(path).in_phase("preflight"@).suggesting(suggestion)
}

fn preflight_failure(code: &str, message: &[char], path: &str, suggestion: &str) -> (r:
    CommandFailure)
    ensures
        diags(r.diagnostics@) == seq![preflight_error(code@, message@, path@, suggestion@)],
{
    let m = string_of(message);
    CommandFailure::new(
        Diagnostic::error(code, m.as_str()).with_path(path).with_phase("preflight").with_suggestion(
            suggestion,
        ),
    )
}

/// The root directory given with `--root` does not resolve.
pub open spec fn root_dir_invalid_v(path: Seq<char>, error: Seq<char>) -> DiagnosticV {
    preflight_error(
        "root_dir_invalid"@,
        "Could not resolve root dir `"@ + path + "`: "@ + error,
        path,
        "Check that --root points to an existing directory"@,
    )
}

/// The failure of a root directory that does not resolve.
pub fn root_dir_invalid(path: &str, error: &str) -> (r: CommandFailure)
    ensures
        diags(r.diagnostics@) == seq![root_dir_invalid_v(path@, error@)],
{
    let mut m: Vec<char> = Vec::new();
    extend_str(&mut m, "Could not resolve root dir `");
    extend_str(&mut m, path);
    extend_str(&mut m, "`: ");
    extend_str(&mut m, error);
    preflight_failure(
        "root_dir_invalid",
        &m,
        path,
        "Check that --root points to an existing directory",
    )
}

/// A configuration path that does not resolve; `absolute` when it was given
/// as an absolute `--config`.
pub open spec fn config_path_invalid_v(path: Seq<char>, error: Seq<char>, absolute: bool) -> DiagnosticV {
    preflight_error(
        "config_path_invalid"@,
        "Could not resolve config path `"@ + path + "`: "@ + error,
        path,
        if absolute {
            "Check that --config points to an existing config.toml file"@
        } else {
            "Check that the config file exists and is readable"@
        },
    )
}

/// The failure of a configuration path that does not resolve.
pub fn config_path_invalid(path: &str, error: &str, absolute: bool) -> (r: CommandFailure)
    ensures
        diags(r.diagnostics@) == seq![config_path_invalid_v(path@, error@, absolute)],
{
    let mut m: Vec<char> = Vec::new();
    extend_str(&mut m, "Could not resolve config path `");
    extend_str(&mut m, path);
    extend_str(&mut m, "`: ");
    extend_str(&mut m, error);
    let suggestion = if absolute {
        "Check that --config points to an existing config.toml file"
    } else {
        "Check that the config file exists and is readable"
    };
    preflight_failure("config_path_invalid", &m, path, suggestion)
}

/// No configuration file in the directory or its ancestors: the one given
/// with `--config`, or `config.toml`.
pub open spec fn config_not_found_v(config: Option<Seq<char>>, dir: Seq<char>) -> DiagnosticV {
    match config {
        Some(c) => preflight_error(
            "config_not_found"@,
            "`"@ + c + "` not found in current directory or ancestors (current_dir="@ + dir + ")"@,
            c,
            "Run ansorum from the project root or pass an absolute --config path"@,
        ),
        None => preflight_error(
            "config_not_found"@,
            "config.toml not found in current directory or ancestors (current_dir="@ + dir + ")"@,
            dir,
            "Run ansorum from the project root or pass --config /path/to/config.toml"@,
        ),
    }
}

/// The failure of a configuration file that is not found.
pub fn config_not_found(config: Option<&str>, dir: &str) -> (r: CommandFailure)
    ensures
        diags(r.diagnostics@) == seq![
            config_not_found_v(
                match config {
                    Some(c) => Some(c@),
                    None => None,
                },
                dir@,
            ),
        ],
{
    let mut m: Vec<char> = Vec::new();
    match config {
        Some(c) => {
            extend_str(&mut m, "`");
            extend_str(&mut m, c);
            extend_str(&mut m, "` not found in current directory or ancestors (current_dir=");
            extend_str(&mut m, dir);
            extend_str(&mut m, ")");
            preflight_failure(
                "config_not_found",
                &m,
                c,
                "Run ansorum from the project root or pass an absolute --config path",
            )
        },
        None => {
            extend_str(&mut m, "config.toml not found in current directory or ancestors (current_dir=");
            extend_str(&mut m, dir);
            extend_str(&mut m, ")");
            preflight_failure(
                "config_not_found",
                &m,
                dir,
                "Run ansorum from the project root or pass --config /path/to/config.toml",
            )
        },
    }
}

/// `build` would write into a non-empty output directory without `--force`.
pub open spec fn output_dir_exists_v(output_dir: Seq<char>) -> DiagnosticV {
    preflight_error(
        "output_dir_exists"@,
        "Directory '"@ + output_dir + "' already exists."@,
        output_dir,
        "Re-run with --force or choose a different --output-dir"@,
    )
}

/// The failure of an output directory that is in the way.
pub fn output_dir_exists(output_dir: &str) -> (r: CommandFailure)
    ensures
        diags(r.diagnostics@) == seq![output_dir_exists_v(output_dir@)],
{
    let mut m: Vec<char> = Vec::new();
    extend_str(&mut m, "Directory '");
    extend_str(&mut m, output_dir);
    extend_str(&mut m, "' already exists.");
    preflight_failure(
        "output_dir_exists",
        &m,
        output_dir,
        "Re-run with --force or choose a different --output-dir",
    )
}

/// The output path could not be inspected (`listing` false) or its entries
/// could not be read (`listing` true).
pub open spec fn output_dir_unreadable_v(path: Seq<char>, error: Seq<char>, listing: bool) -> DiagnosticV {
    preflight_error(
        "output_dir_unreadable"@,
        if listing {
            "Could not read output directory '"@ + path + "': "@ + error
        } else {
            "Could not inspect output path '"@ + path + "': "@ + error
        },
        path,
        "Check that --output-dir is accessible and readable"@,
    )
}

/// The diagnostic of an output path that cannot be inspected or read.
pub fn output_dir_unreadable(path: &str, error: &str, listing: bool) -> (r: Diagnostic)
    ensures
        r@ == output_dir_unreadable_v(path@, error@, listing),
{
    let mut m: Vec<char> = Vec::new();
    if listing {
        extend_str(&mut m, "Could not read output directory '");
    } else {
        extend_str(&mut m, "Could not inspect output path '");
    }
    extend_str(&mut m, path);
    extend_str(&mut m, "': ");
    extend_str(&mut m, error);
    let t = string_of(&m);
    Diagnostic::error("output_dir_unreadable", t.as_str()).with_path(path).with_phase(
        "preflight",
    ).with_suggestion("Check that --output-dir is accessible and readable")
}

/// `serve` was asked for a port other than the default that is taken.
pub open spec fn serve_port_unavailable_v(port: u16, interface: Seq<char>) -> DiagnosticV {
    DiagnosticV::error(
        "serve_port_unavailable"@,
        "Requested port `"@ + decimal(port as nat) + "` is not available on interface `"@
            + interface + "`"@,
    ).in_phase("preflight"@).suggesting(
        "Choose a different --port or stop the process using that port"@,
    )
}

/// The failure of a requested port that is taken.
pub fn serve_port_unavailable(port: u16, interface: &str) -> (r: CommandFailure)
    ensures
        diags(r.diagnostics@) == seq![serve_port_unavailable_v(port, interface@)],
{
    let mut m: Vec<char> = Vec::new();
    extend_str(&mut m, "Requested port `");
    let digits = decimal_exec(port as usize);
    crate::text::extend(&mut m, &digits);
    extend_str(&mut m, "` is not available on interface `");
    extend_str(&mut m, interface);
    extend_str(&mut m, "`");
    let t = string_of(&m);
    CommandFailure::new(
        Diagnostic::error("serve_port_unavailable", t.as_str()).with_phase(
            "preflight",
        ).with_suggestion("Choose a different --port or stop the process using that port"),
    )
}

/// `serve` found no free port from the default one up.
pub open spec fn serve_no_port_available_v(interface: Seq<char>) -> DiagnosticV {
    DiagnosticV::error(
        "serve_no_port_available"@,
        "No available port found on interface `"@ + interface + "` starting from 1111"@,
    ).in_phase("preflight"@).suggesting("Free a local port or choose a different interface"@)
}

/// The failure of an interface with no free port.
pub fn serve_no_port_available(interface: &str) -> (r: CommandFailure)
    ensures
        diags(r.diagnostics@) == seq![serve_no_port_available_v(interface@)],
{
    let mut m: Vec<char> = Vec::new();
    extend_str(&mut m, "No available port found on interface `");
    extend_str(&mut m, interface);
    extend_str(&mut m, "` starting from 1111");
    let t = string_of(&m);
    CommandFailure::new(
        Diagnostic::error("serve_no_port_available", t.as_str()).with_phase(
            "preflight",
        ).with_suggestion("Free a local port or choose a different interface"),
    )
}

/// The line a failed command starts its human output with.
pub fn failure_prefix(command: &str) -> (r: &'static str)
    ensures
        r@ == (if command@ == "build"@ {
            "Failed to build the site"@
        } else if command@ == "check"@ {
            "Failed to check the site"@
        } else {
            "Command failed"@
        }),
{
    if crate::text::str_eq(command, "build") {
        "Failed to build the site"
    } else if crate::text::str_eq(command, "check") {
        "Failed to check the site"
    } else {
        "Command failed"
    }
}


/// What the answer to the site URL question of `init` gives: the default for
/// an empty answer, the answer itself when it reads as an absolute URL, and
/// nothing (ask again) otherwise.
pub open spec fn spec_url_answer(input: Seq<char>, default: Seq<char>) -> Option<Seq<char>> {
    if input.len() == 0 {
        Some(default)
    } else if crate::config::parsed_url_scheme(input) is Some {
        Some(input)
    } else {
        None
    }
}

/// Interprets an answer to the site URL question; `None` asks again.
pub fn url_answer(input: &str, default: &str) -> (r: Option<String>)
    ensures
        match r {
            Some(u) => spec_url_answer(input@, default@) == Some(u@),
            None => spec_url_answer(input@, default@) is None,
        },
{
    if crate::text::chars_of(input).len() == 0 {
        return Some(default.to_string());
    }
    match crate::config::url_scheme(input) {
        Some(_) => Some(input.to_string()),
        None => None,
    }
}

} // verus!
