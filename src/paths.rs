//! Device-side locations and shell commands derived from a package name.
use vstd::prelude::*;
use vstd::string::*;

verus! {

/// Port on the device that the automation channel is forwarded to.
///
/// It is fixed, so two sessions on one device collide on it.
pub const TARGET_PORT: u16 = 2829;

/// Where the profile of `package` lives on the device.
pub open spec fn profile_path_spec(package: Seq<char>) -> Seq<char> {
    "/mnt/sdcard/"@ + package + "-automation-profile"@
}

/// Where the configuration document of `package` lives on the device.
pub open spec fn config_path_spec(package: Seq<char>) -> Seq<char> {
    "/data/local/tmp/"@ + package + "-automation-config.yaml"@
}

/// `prefix + middle + suffix` as a new string.
pub(crate) fn surround(prefix: &str, middle: &str, suffix: &str) -> (r: String)
    ensures
        r@ == prefix@ + middle@ + suffix@,
{
    let mut r = String::from_str(prefix);
    r.append(middle);
    r.append(suffix);
    r
}

/// The device directory that the profile of `package` is pushed to.
pub fn profile_path(package: &str) -> (r: String)
    ensures
        r@ == profile_path_spec(package@),
{
    proof {
        reveal_strlit("/mnt/sdcard/");
        reveal_strlit("-automation-profile");
    }
    surround("/mnt/sdcard/", package, "-automation-profile")
}

/// The device file that the configuration document of `package` is pushed to.
pub fn config_path(package: &str) -> (r: String)
    ensures
        r@ == config_path_spec(package@),
{
    proof {
        reveal_strlit("/data/local/tmp/");
        reveal_strlit("-automation-config.yaml");
    }
    surround("/data/local/tmp/", package, "-automation-config.yaml")
}

/// Asks the device for the default activity of `package`, last line only.
pub open spec fn activity_query_spec(package: Seq<char>) -> Seq<char> {
    "cmd package resolve-activity --brief "@ + package + " | tail -n 1"@
}

/// Grants `package` the storage permission `perm`.
pub open spec fn grant_spec(package: Seq<char>, perm: Seq<char>) -> Seq<char> {
    "pm grant "@ + package + " android.permission."@ + perm
}

/// Removes the directory or file at `path`.
pub open spec fn remove_spec(path: Seq<char>) -> Seq<char> {
    "rm -rf "@ + path
}

/// Makes the file at `path` readable and writable by everyone.
pub open spec fn chmod_spec(path: Seq<char>) -> Seq<char> {
    "chmod a+rw "@ + path
}

/// Marks `package` as persistently debuggable.
pub open spec fn set_debug_spec(package: Seq<char>) -> Seq<char> {
    "am set-debug-app --persistent "@ + package
}

/// Clears the debuggable mark.
pub open spec fn clear_debug_spec(package: Seq<char>) -> Seq<char> {
    "am clear-debug-app "@ + package
}

/// The shell command that asks for the default activity of `package`.
pub fn activity_query(package: &str) -> (r: String)
    ensures
        r@ == activity_query_spec(package@),
{
    surround("cmd package resolve-activity --brief ", package, " | tail -n 1")
}

/// The shell command that grants `package` the storage permission `perm`.
pub fn grant_command(package: &str, perm: &str) -> (r: String)
    ensures
        r@ == grant_spec(package@, perm@),
{
    surround("pm grant ", package, " android.permission.").concat(perm)
}

/// The shell command that removes `path`.
pub fn remove_command(path: &str) -> (r: String)
    ensures
        r@ == remove_spec(path@),
{
    String::from_str("rm -rf ").concat(path)
}

/// The shell command that opens up the permissions of the file at `path`.
pub fn chmod_command(path: &str) -> (r: String)
    ensures
        r@ == chmod_spec(path@),
{
    String::from_str("chmod a+rw ").concat(path)
}

/// The shell command that marks `package` as persistently debuggable.
pub fn set_debug_command(package: &str) -> (r: String)
    ensures
        r@ == set_debug_spec(package@),
{
    String::from_str("am set-debug-app --persistent ").concat(package)
}

/// The shell command that clears the debuggable mark.
pub fn clear_debug_command(package: &str) -> (r: String)
    ensures
        r@ == clear_debug_spec(package@),
{
    String::from_str("am clear-debug-app ").concat(package)
}

/// The character of decimal digit `d`.
pub open spec fn digit_char(d: nat) -> char {
    if d == 0 {
        '0'
    } else if d == 1 {
        '1'
    } else if d == 2 {
        '2'
    } else if d == 3 {
        '3'
    } else if d == 4 {
        '4'
    } else if d == 5 {
        '5'
    } else if d == 6 {
        '6'
    } else if d == 7 {
        '7'
    } else if d == 8 {
        '8'
    } else {
        '9'
    }
}

/// `n` in decimal, without leading zeros.
pub open spec fn decimal(n: nat) -> Seq<char>
    decreases n,
{
    if n < 10 {
        seq![digit_char(n)]
    } else {
        decimal(n / 10).push(digit_char(n % 10))
    }
}

fn digit_str(d: u16) -> (r: &'static str)
    requires
        d < 10,
    ensures
        r@ == seq![digit_char(d as nat)],
{
    proof {
        reveal_strlit("0");
        reveal_strlit("1");
        reveal_strlit("2");
        reveal_strlit("3");
        reveal_strlit("4");
        reveal_strlit("5");
        reveal_strlit("6");
        reveal_strlit("7");
        reveal_strlit("8");
        reveal_strlit("9");
    }
    if d == 0 {
        "0"
    } else if d == 1 {
        "1"
    } else if d == 2 {
        "2"
    } else if d == 3 {
        "3"
    } else if d == 4 {
        "4"
    } else if d == 5 {
        "5"
    } else if d == 6 {
        "6"
    } else if d == 7 {
        "7"
    } else if d == 8 {
        "8"
    } else {
        "9"
    }
}

/// `n` written in decimal.
pub fn decimal_string(n: u16) -> (r: String)
    ensures
        r@ == decimal(n as nat),
    decreases n,
{
    if n < 10 {
        String::from_str(digit_str(n))
    } else {
        let r = decimal_string(n / 10).concat(digit_str(n % 10));
        proof {
            assert(r@ =~= decimal(n as nat));
        }
        r
    }
}

} // verus!
