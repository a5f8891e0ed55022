//! The commands that the remote shell is asked to run.

use vstd::prelude::*;

use crate::pex::UnixPex;
use crate::text::join3;
use crate::text::numeral;
use crate::text::write_numeral;
use crate::time::fmt_time_utc;
use crate::time::in_calendar;
use crate::time::utc_text;
use crate::time::Instant;
use crate::time::Timestamp;
use crate::time::TOUCH_FORMAT;

verus! {

/// Prints the working directory.
pub const PWD_COMMAND: &'static str = "pwd";

/// Permissions as the octal number that `chmod` takes.
pub open spec fn octal_mode(pex: UnixPex) -> Seq<char> {
    numeral(pex.mode() as nat, 8)
}

/// An instant in the form that `touch -t` takes.
pub open spec fn touch_time(t: Instant) -> Seq<char> {
    utc_text(t.secs, t.nanos, TOUCH_FORMAT@)
}

/// `s` between double quotes.
pub open spec fn in_quotes(s: Seq<char>) -> Seq<char> {
    "\""@ + s + "\""@
}

/// Succeeds where there is something at `path`.
pub open spec fn exists_command(path: Seq<char>) -> Seq<char> {
    "test -e \""@ + path + "\""@
}

/// Succeeds where there is a directory at `path`.
pub open spec fn is_directory_command(path: Seq<char>) -> Seq<char> {
    "test -d \""@ + path + "\""@
}

/// Enters `dir`; prints the status of that, and the directory that was reached.
pub open spec fn change_dir_command(dir: Seq<char>) -> Seq<char> {
    "cd \""@ + dir + "\"; echo $?; pwd"@
}

/// Lists what is in `path`.
pub open spec fn list_command(path: Seq<char>) -> Seq<char> {
    "unset LANG; ls -la \""@ + path + "/\""@
}

/// Lists the directory `path` itself.
pub open spec fn stat_dir_command(path: Seq<char>) -> Seq<char> {
    "ls -ld \""@ + path + "\""@
}

/// Lists the file `path`.
pub open spec fn stat_file_command(path: Seq<char>) -> Seq<char> {
    "ls -l \""@ + path + "\""@
}

/// Sets the permissions of `path`.
pub open spec fn chmod_command(mode: UnixPex, path: Seq<char>) -> Seq<char> {
    "chmod "@ + octal_mode(mode) + " \""@ + path + "\""@
}

/// Sets the time of the last access of `path`.
pub open spec fn touch_access_command(t: Instant, path: Seq<char>) -> Seq<char> {
    "touch -a -t "@ + touch_time(t) + " \""@ + path + "\""@
}

/// Sets the time of the last change of `path`.
pub open spec fn touch_modified_command(t: Instant, path: Seq<char>) -> Seq<char> {
    "touch -m -t "@ + touch_time(t) + " \""@ + path + "\""@
}

/// Removes the file `path`.
pub open spec fn remove_file_command(path: Seq<char>) -> Seq<char> {
    "rm -f \""@ + path + "\""@
}

/// Removes the empty directory `path`.
pub open spec fn remove_dir_command(path: Seq<char>) -> Seq<char> {
    "rmdir \""@ + path + "\""@
}

/// Removes `path` and all that is in it.
pub open spec fn remove_dir_all_command(path: Seq<char>) -> Seq<char> {
    "rm -rf \""@ + path + "\""@
}

/// Makes the directory `path`.
pub open spec fn create_dir_command(mode: UnixPex, path: Seq<char>) -> Seq<char> {
    "mkdir -m "@ + octal_mode(mode) + " \""@ + path + "\""@
}

/// Makes a symbolic link to `target` at `path`.
pub open spec fn symlink_command(target: Seq<char>, path: Seq<char>) -> Seq<char> {
    "ln -s \""@ + target + "\" \""@ + path + "\""@
}

/// Copies `src` to `dest`.
pub open spec fn copy_command(src: Seq<char>, dest: Seq<char>) -> Seq<char> {
    "cp -rf \""@ + src + "\" \""@ + dest + "\""@
}

/// Moves `src` to `dest`.
pub open spec fn move_command(src: Seq<char>, dest: Seq<char>) -> Seq<char> {
    "mv -f \""@ + src + "\" \""@ + dest + "\""@
}

/// Runs `command` in `dir`.
pub open spec fn at_command(dir: Seq<char>, command: Seq<char>) -> Seq<char> {
    "cd \""@ + dir + "\"; "@ + command
}

/// Five texts one after the other.
fn join5(a: &str, b: &str, c: &str, d: &str, e: &str) -> (r: String)
    ensures
        r@ == a@ + b@ + c@ + d@ + e@,
{
    let mut out = join3(a, b, c);
    out.append(d);
    out.append(e);
    out
}

/// Permissions as the octal number that `chmod` takes.
fn write_mode(pex: UnixPex) -> (r: String)
    ensures
        r@ == octal_mode(pex),
{
    proof {
        crate::pex::law_mode_gives_back_permissions(pex);
    }
    write_numeral(u32::from(pex), 8)
}

/// `s` between double quotes.
pub fn quote(s: &str) -> (r: String)
    ensures
        r@ == in_quotes(s@),
{
    join3("\"", s, "\"")
}

/// Succeeds where there is something at `path`.
pub fn test_exists(path: &str) -> (r: String)
    ensures
        r@ == exists_command(path@),
{
    join3("test -e \"", path, "\"")
}

/// Succeeds where there is a directory at `path`.
pub fn test_directory(path: &str) -> (r: String)
    ensures
        r@ == is_directory_command(path@),
{
    join3("test -d \"", path, "\"")
}

/// Enters `dir`; prints the status of that, and the directory that was reached.
pub fn change_dir(dir: &str) -> (r: String)
    ensures
        r@ == change_dir_command(dir@),
{
    join3("cd \"", dir, "\"; echo $?; pwd")
}

/// Lists what is in `path`.
pub fn list(path: &str) -> (r: String)
    ensures
        r@ == list_command(path@),
{
    join3("unset LANG; ls -la \"", path, "/\"")
}

/// Lists the directory `path` itself.
pub fn stat_dir(path: &str) -> (r: String)
    ensures
        r@ == stat_dir_command(path@),
{
    join3("ls -ld \"", path, "\"")
}

/// Lists the file `path`.
pub fn stat_file(path: &str) -> (r: String)
    ensures
        r@ == stat_file_command(path@),
{
    join3("ls -l \"", path, "\"")
}

/// Sets the permissions of `path`.
pub fn chmod(mode: UnixPex, path: &str) -> (r: String)
    ensures
        r@ == chmod_command(mode, path@),
{
    let mode = write_mode(mode);
    join5("chmod ", mode.as_str(), " \"", path, "\"")
}

/// Sets the time of the last access of `path`.
pub fn touch_access(t: Timestamp, path: &str) -> (r: String)
    requires
        in_calendar(t@),
    ensures
        r@ == touch_access_command(t@, path@),
{
    let time = fmt_time_utc(t);
    join5("touch -a -t ", time.as_str(), " \"", path, "\"")
}

/// Sets the time of the last change of `path`.
pub fn touch_modified(t: Timestamp, path: &str) -> (r: String)
    requires
        in_calendar(t@),
    ensures
        r@ == touch_modified_command(t@, path@),
{
    let time = fmt_time_utc(t);
    join5("touch -m -t ", time.as_str(), " \"", path, "\"")
}

/// Removes the file `path`.
pub fn remove_file(path: &str) -> (r: String)
    ensures
        r@ == remove_file_command(path@),
{
    join3("rm -f \"", path, "\"")
}

/// Removes the empty directory `path`.
pub fn remove_dir(path: &str) -> (r: String)
    ensures
        r@ == remove_dir_command(path@),
{
    join3("rmdir \"", path, "\"")
}

/// Removes `path` and all that is in it.
pub fn remove_dir_all(path: &str) -> (r: String)
    ensures
        r@ == remove_dir_all_command(path@),
{
    join3("rm -rf \"", path, "\"")
}

/// Makes the directory `path`.
pub fn create_dir(mode: UnixPex, path: &str) -> (r: String)
    ensures
        r@ == create_dir_command(mode, path@),
{
    let mode = write_mode(mode);
    join5("mkdir -m ", mode.as_str(), " \"", path, "\"")
}

/// Makes a symbolic link to `target` at `path`.
pub fn symlink(target: &str, path: &str) -> (r: String)
    ensures
        r@ == symlink_command(target@, path@),
{
    join5("ln -s \"", target, "\" \"", path, "\"")
}

/// Copies `src` to `dest`.
pub fn copy(src: &str, dest: &str) -> (r: String)
    ensures
        r@ == copy_command(src@, dest@),
{
    join5("cp -rf \"", src, "\" \"", dest, "\"")
}

/// Moves `src` to `dest`.
pub fn mov(src: &str, dest: &str) -> (r: String)
    ensures
        r@ == move_command(src@, dest@),
{
    join5("mv -f \"", src, "\" \"", dest, "\"")
}

/// Runs `command` in `dir`.
pub fn at(dir: &str, command: &str) -> (r: String)
    ensures
        r@ == at_command(dir@, command@),
{
    let mut out = join3("cd \"", dir, "\"; ");
    out.append(command);
    out
}

} // verus!
