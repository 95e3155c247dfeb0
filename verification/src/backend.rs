//! Where the Python backend is looked for, and the search path it runs
//! with.

use vstd::prelude::*;
use vstd::string::*;
use crate::platform::{home_dir, joined_path, path_exists, path_join};
use crate::protocol::strings_view;
use crate::text::string_of;

verus! {

/// The parts joined by `sep`.
pub open spec fn joined(parts: Seq<Seq<char>>, sep: Seq<char>) -> Seq<char>
    decreases parts.len(),
{
    if parts.len() == 0 {
        Seq::empty()
    } else if parts.len() == 1 {
        parts[0]
    } else {
        joined(parts.drop_last(), sep) + sep + parts.last()
    }
}

/// The directories the backend is run with on its search path: the user's
/// local and cargo binaries, the usual system and Homebrew directories,
/// then the inherited search path.
pub open spec fn search_dirs(home: Seq<char>, inherited: Option<Seq<char>>) -> Seq<Seq<char>> {
    seq![
        joined_path(home, ".local/bin"@),
        joined_path(home, ".cargo/bin"@),
        "/usr/local/bin"@,
        "/opt/homebrew/bin"@,
        "/opt/homebrew/sbin"@,
    ] + match inherited {
        Some(p) => seq![p],
        None => Seq::empty(),
    }
}

/// The commands tried to start the backend, in order: the uv tool install
/// first when it is there, then the user's local binaries, then the bare
/// command names.
pub open spec fn backend_commands(home: Seq<char>, uv_installed: bool) -> Seq<Seq<char>> {
    (if uv_installed {
        seq![joined_path(home, ".local/share/uv/tools/pdf2zh-next/bin/pdf2zh_next"@)]
    } else {
        Seq::empty()
    }) + seq![
        joined_path(home, ".local/bin/pdf2zh_next"@),
        joined_path(home, ".local/bin/pdf2zh"@),
        "pdf2zh_next"@,
        "pdf2zh"@,
    ]
}

/// The Python interpreters tried, in order.
pub open spec fn python_commands(home: Seq<char>) -> Seq<Seq<char>> {
    seq![
        joined_path(home, ".local/bin/python3"@),
        "/opt/homebrew/bin/python3"@,
        "/usr/local/bin/python3"@,
        "python3"@,
        "python"@,
    ]
}

/// The message when no interpreter is found.
pub open spec fn no_python_message() -> Seq<char> {
    "Python 3 not found. Please install Python 3.10+ and ensure it's in your PATH."@
}

/// The first candidate found, else the no-interpreter message.
pub open spec fn first_found(candidates: Seq<Seq<char>>, found: Seq<bool>) -> Result<Seq<char>, Seq<char>>
    decreases candidates.len(),
{
    if candidates.len() == 0 || found.len() == 0 {
        Err(no_python_message())
    } else if found[0] {
        Ok(candidates[0])
    } else {
        first_found(candidates.drop_first(), found.drop_first())
    }
}

/// The parts joined by `sep`.
pub fn join_text(parts: &Vec<String>, sep: &str) -> (r: String)
    ensures
        r@ == joined(strings_view(parts@), sep@),
{
    let ghost pv = strings_view(parts@);
    if parts.len() == 0 {
        return String::new();
    }
    let mut s = parts[0].clone();
    let mut i: usize = 1;
    assert(pv.take(1).drop_last() =~= Seq::<Seq<char>>::empty());
    while i < parts.len()
        invariant
            pv == strings_view(parts@),
            pv.len() == parts@.len(),
            1 <= i <= parts@.len(),
            s@ == joined(pv.take(i as int), sep@),
        decreases parts@.len() - i,
    {
        s.append(sep);
        s.append(parts[i].as_str());
        proof {
            assert(pv.take(i + 1).drop_last() =~= pv.take(i as int));
            assert(pv.take(i + 1).last() == parts@[i as int]@);
        }
        i = i + 1;
    }
    assert(pv.take(parts@.len() as int) =~= pv);
    s
}

/// The search path the backend runs with.
pub fn search_path(home: &str, inherited: Option<String>) -> (r: String)
    ensures
        r@ == joined(
            search_dirs(
                home@,
                match inherited {
                    Some(p) => Some(p@),
                    None => None,
                },
            ),
            ":"@,
        ),
{
    let mut dirs: Vec<String> = Vec::new();
    dirs.push(path_join(home, ".local/bin"));
    dirs.push(path_join(home, ".cargo/bin"));
    dirs.push(string_of("/usr/local/bin"));
    dirs.push(string_of("/opt/homebrew/bin"));
    dirs.push(string_of("/opt/homebrew/sbin"));
    let ghost iv = match &inherited {
        Some(p) => Some(p@),
        None => None,
    };
    match inherited {
        Some(p) => dirs.push(p),
        None => {},
    }
    assert(strings_view(dirs@) =~= search_dirs(home@, iv));
    join_text(&dirs, ":")
}

/// The commands tried to start the backend.
pub fn backend_command_list(home: &str, uv_installed: bool) -> (r: Vec<String>)
    ensures
        strings_view(r@) == backend_commands(home@, uv_installed),
{
    let mut c: Vec<String> = Vec::new();
    if uv_installed {
        c.push(path_join(home, ".local/share/uv/tools/pdf2zh-next/bin/pdf2zh_next"));
    }
    c.push(path_join(home, ".local/bin/pdf2zh_next"));
    c.push(path_join(home, ".local/bin/pdf2zh"));
    c.push(string_of("pdf2zh_next"));
    c.push(string_of("pdf2zh"));
    assert(strings_view(c@) =~= backend_commands(home@, uv_installed));
    c
}

/// The Python interpreters tried.
pub fn python_command_list(home: &str) -> (r: Vec<String>)
    ensures
        strings_view(r@) == python_commands(home@),
{
    let mut c: Vec<String> = Vec::new();
    c.push(path_join(home, ".local/bin/python3"));
    c.push(string_of("/opt/homebrew/bin/python3"));
    c.push(string_of("/usr/local/bin/python3"));
    c.push(string_of("python3"));
    c.push(string_of("python"));
    assert(strings_view(c@) =~= python_commands(home@));
    c
}

/// The first candidate found, else the no-interpreter message.
pub fn pick_first_found(candidates: &Vec<String>, found: &Vec<bool>) -> (r: Result<String, String>)
    requires
        found@.len() == candidates@.len(),
    ensures
        match r {
            Ok(c) => first_found(strings_view(candidates@), found@) == Ok::<Seq<char>, Seq<char>>(c@),
            Err(m) => first_found(strings_view(candidates@), found@) == Err::<Seq<char>, Seq<char>>(m@),
        },
{
    let ghost cv = strings_view(candidates@);
    let mut i: usize = 0;
    assert(cv.skip(0) =~= cv);
    assert(found@.skip(0) =~= found@);
    while i < candidates.len()
        invariant
            cv == strings_view(candidates@),
            cv.len() == candidates@.len(),
            found@.len() == candidates@.len(),
            i <= candidates@.len(),
            first_found(cv, found@) == first_found(cv.skip(i as int), found@.skip(i as int)),
        decreases candidates@.len() - i,
    {
        proof {
            assert(cv.skip(i as int)[0] == candidates@[i as int]@);
            assert(found@.skip(i as int)[0] == found@[i as int]);
            assert(cv.skip(i as int).drop_first() =~= cv.skip(i + 1));
            assert(found@.skip(i as int).drop_first() =~= found@.skip(i + 1));
        }
        if found[i] {
            return Ok(candidates[i].clone());
        }
        i = i + 1;
    }
    Err(string_of("Python 3 not found. Please install Python 3.10+ and ensure it's in your PATH."))
}

/// `which::which` finds the command on the search path; what it finds
/// depends on the environment and the file system, so nothing is stated of
/// it.
#[verifier::external_body]
fn on_search_path(command: &str) -> (r: bool) {
    which::which(command).is_ok()
}

/// The user's home directory as text, empty when unknown.
fn home_text() -> (r: String) {
    match home_dir() {
        Some(h) => h,
        None => String::new(),
    }
}

/// The commands tried to start the backend, for this user: the list of
/// [`backend_command_list`] for the home directory and for whether the uv
/// tool install is there.
pub fn find_pdf2zh_candidates() -> (r: Vec<String>)
    ensures
        exists|home: Seq<char>, uv: bool| strings_view(r@) == backend_commands(home, uv),
{
    let home = home_text();
    let uv_bin = path_join(home.as_str(), ".local/share/uv/tools/pdf2zh-next/bin/pdf2zh_next");
    let uv = path_exists(uv_bin.as_str());
    backend_command_list(home.as_str(), uv)
}

/// A Python interpreter to run the backend with: the first of the
/// interpreters tried that is on the search path or names an existing
/// file. Which are found is up to the machine: the result is what
/// [`pick_first_found`] gives for some such answers.
pub fn find_python() -> (r: Result<String, String>)
    ensures
        exists|home: Seq<char>, found: Seq<bool>|
            #![trigger first_found(python_commands(home), found)]
            found.len() == python_commands(home).len() && match r {
                Ok(c) => first_found(python_commands(home), found) == Ok::<Seq<char>, Seq<char>>(c@),
                Err(m) => first_found(python_commands(home), found) == Err::<Seq<char>, Seq<char>>(m@),
            },
{
    let home = home_text();
    let candidates = python_command_list(home.as_str());
    let mut found: Vec<bool> = Vec::new();
    let mut i: usize = 0;
    while i < candidates.len()
        invariant
            i <= candidates@.len(),
            found@.len() == i,
        decreases candidates@.len() - i,
    {
        let c = candidates[i].as_str();
        let hit = on_search_path(c) || path_exists(c);
        found.push(hit);
        i = i + 1;
    }
    let r = pick_first_found(&candidates, &found);
    proof {
        assert(found@.len() == python_commands(home@).len());
        assert(strings_view(candidates@) == python_commands(home@));
        assert(match r {
            Ok(c) => first_found(python_commands(home@), found@) == Ok::<Seq<char>, Seq<char>>(c@),
            Err(m) => first_found(python_commands(home@), found@) == Err::<Seq<char>, Seq<char>>(m@),
        });
    }
    r
}

} // verus!
