//! The library store: where the compiled artifact is found, which file backs
//! each generation of it, and how a generation is retired.
//!
//! Every generation of the reloadable unit is mapped from a copy of its own,
//! named after the compiled artifact with the generation number behind a
//! dot. A mapped file is therefore never the one the next generation is
//! written to.

use libloading::Library;
use vstd::prelude::*;
use vstd::string::*;

verus! {

/// The character of a single decimal digit.
pub open spec fn digit_char(d: nat) -> char
    recommends
        d < 10,
{
    if d == 0 {
        '0'
    } else if d == 1 {
        '1'
    } else if d == 2 {
        '2'
    } else if d == 3 {
        '3'
    } else if d == 4 {
        '4'
    } else if d == 5 {
        '5'
    } else if d == 6 {
        '6'
    } else if d == 7 {
        '7'
    } else if d == 8 {
        '8'
    } else {
        '9'
    }
}

/// The number that a digit character stands for.
pub open spec fn digit_value(c: char) -> nat {
    if c == '1' {
        1
    } else if c == '2' {
        2
    } else if c == '3' {
        3
    } else if c == '4' {
        4
    } else if c == '5' {
        5
    } else if c == '6' {
        6
    } else if c == '7' {
        7
    } else if c == '8' {
        8
    } else if c == '9' {
        9
    } else {
        0
    }
}

/// `n` in decimal, most significant digit first, without leading zeros.
pub open spec fn decimal(n: nat) -> Seq<char>
    decreases n,
{
    if n < 10 {
        seq![digit_char(n)]
    } else {
        decimal(n / 10).push(digit_char(n % 10))
    }
}

/// The number that a string of digits spells.
pub open spec fn decimal_value(s: Seq<char>) -> nat
    decreases s.len(),
{
    if s.len() == 0 {
        0
    } else {
        decimal_value(s.drop_last()) * 10 + digit_value(s.last())
    }
}

/// The backing file of generation `generation`: the artifact's path, a dot,
/// and the generation in decimal.
pub open spec fn lib_path(artifact: Seq<char>, generation: u64) -> Seq<char> {
    artifact + seq!['.'] + decimal(generation as nat)
}

/// Reading a number back from its decimal form gives the number.
pub proof fn lemma_decimal_value(n: nat)
    ensures
        decimal_value(decimal(n)) == n,
        decimal(n).len() > 0,
    decreases n,
{
    if n < 10 {
        assert(decimal_value(decimal(n).drop_last()) == 0);
    } else {
        lemma_decimal_value(n / 10);
        assert(decimal(n).drop_last() =~= decimal(n / 10));
    }
}

/// Two generations never share a backing file, and no generation is backed
/// by the compiled artifact itself.
pub proof fn lemma_lib_path_distinct(artifact: Seq<char>, a: u64, b: u64)
    ensures
        a != b ==> lib_path(artifact, a) != lib_path(artifact, b),
        lib_path(artifact, a) != artifact,
{
    let pa = lib_path(artifact, a);
    let pb = lib_path(artifact, b);
    lemma_decimal_value(a as nat);
    lemma_decimal_value(b as nat);
    if pa == pb {
        let skip = artifact.len() + 1;
        assert(pa.subrange(skip as int, pa.len() as int) =~= decimal(a as nat));
        assert(pb.subrange(skip as int, pb.len() as int) =~= decimal(b as nat));
    }
}

fn digit_text(d: u64) -> (text: &'static str)
    requires
        d < 10,
    ensures
        text@ == seq![digit_char(d as nat)],
{
    proof {
        reveal_strlit("0");
        reveal_strlit("1");
        reveal_strlit("2");
        reveal_strlit("3");
        reveal_strlit("4");
        reveal_strlit("5");
        reveal_strlit("6");
        reveal_strlit("7");
        reveal_strlit("8");
        reveal_strlit("9");
    }
    let text = if d == 0 {
        "0"
    } else if d == 1 {
        "1"
    } else if d == 2 {
        "2"
    } else if d == 3 {
        "3"
    } else if d == 4 {
        "4"
    } else if d == 5 {
        "5"
    } else if d == 6 {
        "6"
    } else if d == 7 {
        "7"
    } else if d == 8 {
        "8"
    } else {
        "9"
    };
    text
}

fn push_decimal(text: &mut String, n: u64)
    ensures
        final(text)@ == old(text)@ + decimal(n as nat),
    decreases n,
{
    if n >= 10 {
        push_decimal(text, n / 10);
    }
    text.append(digit_text(n % 10));
}

/// Names the backing file of generation `counter` of the artifact at
/// `artifact`.
pub fn get_lib_path(artifact: String, counter: u64) -> (path: String)
    ensures
        path@ == lib_path(artifact@, counter),
{
    let mut path = artifact;
    proof {
        reveal_strlit(".");
    }
    path.append(".");
    push_decimal(&mut path, counter);
    path
}

/// A mapped dynamic library. Nothing is known of its value.
#[verifier::external_type_specification]
#[verifier::external_body]
pub struct ExLibrary(Library);

/// Why the platform could not load or unload a library. Nothing is known of
/// its value.
#[verifier::external_type_specification]
#[verifier::external_body]
pub struct ExLoadingError(libloading::Error);

/// `Library::close` unmaps the library, and fails where the platform
/// reports that it could not.
pub assume_specification[ Library::close ](library: Library) -> (closed: Result<
    (),
    libloading::Error,
>);

/// A generation could not be unmapped.
#[derive(Clone, Copy, Debug, PartialEq, Eq, Structural)]
pub enum RetireError {
    CloseFailed,
}

/// What follows from an attempt to unmap generation `generation`: where it
/// succeeded, the backing file of that generation, which can now be
/// deleted.
pub fn after_close(closed: Result<(), libloading::Error>, artifact: String, generation: u64) -> (retired:
    Result<String, RetireError>)
    ensures
        match closed {
            Ok(_) => retired is Ok && retired->Ok_0@ == lib_path(artifact@, generation),
            Err(_) => retired == Err::<String, RetireError>(RetireError::CloseFailed),
        },
{
    match closed {
        Ok(_) => Ok(get_lib_path(artifact, generation)),
        Err(_) => Err(RetireError::CloseFailed),
    }
}

/// Unmaps the library of generation `generation` and names the backing file
/// that can now be deleted. Whether the unmapping succeeds is up to the
/// platform.
pub fn retire(library: Library, artifact: String, generation: u64) -> (retired: Result<
    String,
    RetireError,
>)
    ensures
        retired matches Ok(path) ==> path@ == lib_path(artifact@, generation),
{
    after_close(library.close(), artifact, generation)
}

/// `libloading::library_filename` puts the platform's prefix and suffix for
/// dynamic libraries around `name`. Which two they are depends on the
/// platform the crate was built for.
#[verifier::external_body]
fn library_filename(name: &str) -> (file: String)
    ensures
        exists|prefix: Seq<char>, suffix: Seq<char>| file@ == prefix + name@ + suffix,
{
    libloading::library_filename(name).to_string_lossy().into_owned()
}

/// The path of the file `file` in `directory`, with `separator` between
/// them.
pub fn file_in(directory: &str, separator: &str, file: &str) -> (path: String)
    ensures
        path@ == directory@ + separator@ + file@,
{
    let mut path = String::from_str(directory);
    path.append(separator);
    path.append(file);
    path
}

/// Where the compiled artifact of the module `module` is found: in
/// `directory`, under the platform's file name for a dynamic library of
/// that name.
pub fn artifact_path(directory: &str, separator: &str, module: &str) -> (path: String)
    ensures
        exists|prefix: Seq<char>, suffix: Seq<char>|
            path@ == directory@ + separator@ + (prefix + module@ + suffix),
{
    let file = library_filename(module);
    file_in(directory, separator, file.as_str())
}

} // verus!
