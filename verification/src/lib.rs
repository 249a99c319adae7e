//! Convert Windows paths to WSL paths and vice versa.
//!
//! The conversion itself is performed by the `wslpath` utility, reached
//! through the WSL front-end executable. This crate builds the argument
//! vector for that invocation and interprets what the child process hands
//! back: its exit status and its standard output. Launching the process is
//! left to the caller, who feeds the outcome of the launch back in as a
//! [`SpawnOutcome`].

use vstd::prelude::*;

pub mod outcome;
pub mod text;

pub use outcome::interpret;
pub use outcome::ConvertError;
pub use outcome::SpawnOutcome;

verus! {

/// Type of conversion to perform
#[derive(Clone, Copy, Debug, PartialEq, Eq, Structural)]
pub enum Conversion {
    /// Convert Windows path to WSL path
    WindowsToWsl,
    /// Convert WSL path to Windows path
    WslToWindows,
    /// Convert WSL path to Windows path using Linux style path separators
    WslToWindowsLinuxStyle,
}

/// The single-character flag that selects `options` when handed to `wslpath`.
pub open spec fn mode_flag(options: Conversion) -> Seq<char> {
    match options {
        Conversion::WindowsToWsl => "-u"@,
        Conversion::WslToWindows => "-w"@,
        Conversion::WslToWindowsLinuxStyle => "-m"@,
    }
}

/// The argument vector handed to the front-end executable: the distribution
/// selector when one was given, then `-e wslpath`, the mode flag, the
/// absolute-path flag when requested, and finally the escaped path.
pub open spec fn args_spec(
    path: Seq<char>,
    distro: Option<Seq<char>>,
    options: Conversion,
    force_absolute_path: bool,
) -> Seq<Seq<char>> {
    (match distro {
        Some(d) => seq!["-d"@, d],
        None => Seq::<Seq<char>>::empty(),
    }) + seq!["-e"@, "wslpath"@, mode_flag(options)] + (if force_absolute_path {
        seq!["-a"@]
    } else {
        Seq::<Seq<char>>::empty()
    }) + seq![text::escaped(path)]
}

/// Assembles the arguments for one conversion request, in the order the
/// front-end expects, with the path's backslashes doubled.
pub fn build_args(
    path: &str,
    distro: Option<&str>,
    options: Conversion,
    force_absolute_path: bool,
) -> (args: Vec<String>)
    ensures
        args.deep_view() == args_spec(
            path@,
            match distro {
                Some(d) => Some(d@),
                None => None,
            },
            options,
            force_absolute_path,
        ),
{
    let mut args: Vec<String> = Vec::new();
    if let Some(d) = distro {
        args.push("-d".to_owned());
        args.push(d.to_owned());
    }
    args.push("-e".to_owned());
    args.push("wslpath".to_owned());
    args.push(
        match options {
            Conversion::WindowsToWsl => "-u".to_owned(),
            Conversion::WslToWindows => "-w".to_owned(),
            Conversion::WslToWindowsLinuxStyle => "-m".to_owned(),
        },
    );
    if force_absolute_path {
        args.push("-a".to_owned());
    }
    args.push(text::escape_backslashes(path));
    proof {
        assert(args.deep_view() =~~= args_spec(
            path@,
            match distro {
                Some(d) => Some(d@),
                None => None,
            },
            options,
            force_absolute_path,
        ));
    }
    args
}

/// The name of the front-end executable that performs the conversion.
pub fn command_name() -> (r: &'static str)
    ensures
        r@ == "wsl.exe"@,
{
    "wsl.exe"
}

} // verus!
