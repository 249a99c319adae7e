use wslpath2::build_args;
use wslpath2::command_name;
use wslpath2::text::escape_backslashes;
use wslpath2::Conversion;

#[test]
fn test_mode_flag_windows_to_wsl() {
    let args = build_args("C:/", None, Conversion::WindowsToWsl, false);
    assert_eq!(args, vec!["-e", "wslpath", "-u", "C:/"]);
}

#[test]
fn test_mode_flag_wsl_to_windows() {
    let args = build_args("/mnt/c", None, Conversion::WslToWindows, false);
    assert_eq!(args, vec!["-e", "wslpath", "-w", "/mnt/c"]);
}

#[test]
fn test_mode_flag_wsl_to_windows_linux_style() {
    let args = build_args("/mnt/c", None, Conversion::WslToWindowsLinuxStyle, false);
    assert_eq!(args, vec!["-e", "wslpath", "-m", "/mnt/c"]);
}

#[test]
fn test_distro_selector_comes_first() {
    let args = build_args("/mnt/c", Some("Ubuntu"), Conversion::WslToWindows, false);
    assert_eq!(args, vec!["-d", "Ubuntu", "-e", "wslpath", "-w", "/mnt/c"]);
}

#[test]
fn test_absolute_flag_before_path() {
    let args = build_args("docs", None, Conversion::WslToWindows, true);
    assert_eq!(args, vec!["-e", "wslpath", "-w", "-a", "docs"]);
}

#[test]
fn test_all_options_together() {
    let args = build_args("C:\\tmp", Some("Debian"), Conversion::WindowsToWsl, true);
    assert_eq!(
        args,
        vec!["-d", "Debian", "-e", "wslpath", "-u", "-a", "C:\\\\tmp"]
    );
}

#[test]
fn test_backslashes_doubled_in_path_argument() {
    let args = build_args("C:\\Users\\me", None, Conversion::WindowsToWsl, false);
    assert_eq!(args[args.len() - 1], "C:\\\\Users\\\\me");
}

#[test]
fn test_escape_backslashes() {
    assert_eq!(escape_backslashes(""), "");
    assert_eq!(escape_backslashes("/mnt/c"), "/mnt/c");
    assert_eq!(escape_backslashes("a\\b\\"), "a\\\\b\\\\");
    assert_eq!(escape_backslashes("\\\\"), "\\\\\\\\");
}

#[test]
fn test_command_name() {
    assert_eq!(command_name(), "wsl.exe");
}
