//! Which build systems a list of files shows.
use vstd::prelude::*;
use crate::error::SlopChopError;
use crate::text::{eq_ignore_ascii_case, eq_ignore_case, eq_str, slice_of, split_char, split_on, to_chars, views};

verus! {

/// A build system.
#[derive(Debug, Clone, Copy, PartialEq, Eq, Hash, Structural)]
pub enum BuildSystemType {
    Rust,
    Node,
    Python,
    Go,
    CMake,
    Conan,
}

/// The name of a build system, as it is displayed.
pub open spec fn build_system_name(b: BuildSystemType) -> Seq<char> {
    match b {
        BuildSystemType::Rust => "Rust"@,
        BuildSystemType::Node => "Node"@,
        BuildSystemType::Python => "Python"@,
        BuildSystemType::Go => "Go"@,
        BuildSystemType::CMake => "CMake"@,
        BuildSystemType::Conan => "Conan"@,
    }
}

impl BuildSystemType {
    /// The name of the build system, as it is displayed.
    pub fn to_string(&self) -> (r: String)
        ensures
            r@ == build_system_name(*self),
    {
        match self {
            BuildSystemType::Rust => "Rust".to_owned(),
            BuildSystemType::Node => "Node".to_owned(),
            BuildSystemType::Python => "Python".to_owned(),
            BuildSystemType::Go => "Go".to_owned(),
            BuildSystemType::CMake => "CMake".to_owned(),
            BuildSystemType::Conan => "Conan".to_owned(),
        }
    }
}

/// The last piece of a path that is neither empty nor `.`.
pub open spec fn last_part(ps: Seq<Seq<char>>) -> Option<Seq<char>>
    decreases ps.len(),
{
    if ps.len() == 0 {
        None
    } else if ps.last().len() > 0 && ps.last() != "."@ {
        Some(ps.last())
    } else {
        last_part(ps.drop_last())
    }
}

/// `Path::file_name` of a `/`-separated path: its last component, unless
/// that is `..` or there is none.
pub open spec fn file_name(p: Seq<char>) -> Option<Seq<char>> {
    match last_part(split_char(p, '/')) {
        Some(x) => if x == ".."@ {
            None
        } else {
            Some(x)
        },
        None => None,
    }
}

/// Position of the last `.` before `j`.
pub open spec fn last_dot(s: Seq<char>, j: int) -> Option<int>
    decreases j,
{
    if j <= 0 || j > s.len() {
        None
    } else if s[j - 1] == '.' {
        Some(j - 1)
    } else {
        last_dot(s, j - 1)
    }
}

/// `Path::extension` of a file name: the text after its last `.`, when
/// that dot does not start the name.
pub open spec fn extension(name: Seq<char>) -> Option<Seq<char>> {
    if name == ".."@ {
        None
    } else {
        match last_dot(name, name.len() as int) {
            None => None,
            Some(i) => if i == 0 {
                None
            } else {
                Some(name.subrange(i + 1, name.len() as int))
            },
        }
    }
}

/// The build system a configuration file name shows.
pub open spec fn common_config(name: Seq<char>) -> Option<BuildSystemType> {
    if name == "Cargo.toml"@ {
        Some(BuildSystemType::Rust)
    } else if name == "package.json"@ {
        Some(BuildSystemType::Node)
    } else if name == "requirements.txt"@ || name == "pyproject.toml"@ || name == "Pipfile"@ {
        Some(BuildSystemType::Python)
    } else if name == "go.mod"@ {
        Some(BuildSystemType::Go)
    } else if name == "CMakeLists.txt"@ {
        Some(BuildSystemType::CMake)
    } else if name == "conanfile.txt"@ || name == "conanfile.py"@ {
        Some(BuildSystemType::Conan)
    } else {
        None
    }
}

/// The build system one file shows: CMake for a `.cmake` extension (in
/// any case), else the system of a known configuration file name.
pub open spec fn file_system(p: Seq<char>) -> Option<BuildSystemType> {
    match file_name(p) {
        None => None,
        Some(n) => match extension(n) {
            Some(e) => if eq_ignore_ascii_case(e, "cmake"@) {
                Some(BuildSystemType::CMake)
            } else {
                common_config(n)
            },
            None => common_config(n),
        },
    }
}

/// The build systems the files show, each once, in order of first sight.
pub open spec fn systems_of(ps: Seq<Seq<char>>) -> Seq<BuildSystemType>
    decreases ps.len(),
{
    if ps.len() == 0 {
        Seq::empty()
    } else {
        let s = systems_of(ps.drop_last());
        match file_system(ps.last()) {
            Some(b) => if s.contains(b) {
                s
            } else {
                s.push(b)
            },
            None => s,
        }
    }
}

/// `Path::file_name` of a path.
pub fn file_name_of(p: &str) -> (r: Option<Vec<char>>)
    ensures
        match file_name(p@) {
            Some(n) => r matches Some(x) && x@ == n,
            None => r is None,
        },
{
    let v = to_chars(p);
    let parts = split_on(&v, '/');
    let ghost pv = views(parts@);
    let mut j: usize = parts.len();
    assert(pv.take(j as int) =~= pv);
    while j > 0
        invariant
            j <= parts.len(),
            pv == views(parts@),
            pv == split_char(p@, '/'),
            last_part(pv) == last_part(pv.take(j as int)),
        decreases j,
    {
        assert(pv.take(j as int).drop_last() =~= pv.take(j - 1));
        assert(pv.take(j as int).last() == parts@[j - 1]@);
        let x = &parts[j - 1];
        if x.len() > 0 && !eq_str(x, ".") {
            if eq_str(x, "..") {
                return None;
            }
            return Some(crate::text::copy(x));
        }
        j -= 1;
    }
    assert(pv.take(0) =~= Seq::<Seq<char>>::empty());
    None
}

/// `Path::extension` of a file name.
pub fn extension_of(name: &Vec<char>) -> (r: Option<Vec<char>>)
    ensures
        match extension(name@) {
            Some(e) => r matches Some(x) && x@ == e,
            None => r is None,
        },
{
    if eq_str(name, "..") {
        return None;
    }
    let mut j: usize = name.len();
    while j > 0
        invariant
            j <= name.len(),
            name@ != ".."@,
            last_dot(name@, name.len() as int) == last_dot(name@, j as int),
        decreases j,
    {
        if name[j - 1] == '.' {
            if j - 1 == 0 {
                return None;
            }
            return Some(slice_of(name, j, name.len()));
        }
        j -= 1;
    }
    None
}

fn common_config_of(name: &Vec<char>) -> (r: Option<BuildSystemType>)
    ensures
        r == common_config(name@),
{
    if eq_str(name, "Cargo.toml") {
        Some(BuildSystemType::Rust)
    } else if eq_str(name, "package.json") {
        Some(BuildSystemType::Node)
    } else if eq_str(name, "requirements.txt") || eq_str(name, "pyproject.toml") || eq_str(
        name,
        "Pipfile",
    ) {
        Some(BuildSystemType::Python)
    } else if eq_str(name, "go.mod") {
        Some(BuildSystemType::Go)
    } else if eq_str(name, "CMakeLists.txt") {
        Some(BuildSystemType::CMake)
    } else if eq_str(name, "conanfile.txt") || eq_str(name, "conanfile.py") {
        Some(BuildSystemType::Conan)
    } else {
        None
    }
}

/// The build system one file shows.
fn check_file(path: &str) -> (r: Option<BuildSystemType>)
    ensures
        r == file_system(path@),
{
    let name = match file_name_of(path) {
        Some(n) => n,
        None => {
            return None;
        },
    };
    match extension_of(&name) {
        Some(e) => {
            if eq_ignore_case(&e, &to_chars("cmake")) {
                return Some(BuildSystemType::CMake);
            }
            common_config_of(&name)
        },
        None => common_config_of(&name),
    }
}

/// Finds build systems in a list of files.
#[derive(Debug, Clone, Copy)]
pub struct Detector;

impl Detector {
    /// A detector.
    pub fn new() -> (r: Detector)
        ensures
            r == Detector,
    {
        Detector
    }

    /// The build systems that the files show, each once, in order of first
    /// sight. It never fails.
    pub fn detect_build_systems(&self, files: &[String]) -> (r: Result<
        Vec<BuildSystemType>,
        SlopChopError,
    >)
        ensures
            r matches Ok(v) && v@ == systems_of(crate::apply::types::strings_view(files@)),
    {
        let ghost fv = crate::apply::types::strings_view(files@);
        let mut out: Vec<BuildSystemType> = Vec::new();
        let mut i: usize = 0;
        while i < files.len()
            invariant
                i <= files.len(),
                fv == crate::apply::types::strings_view(files@),
                out@ == systems_of(fv.take(i as int)),
            decreases files.len() - i,
        {
            proof {
                assert(fv.take(i + 1).drop_last() =~= fv.take(i as int));
                assert(fv.take(i + 1).last() == files@[i as int]@);
            }
            match check_file(files[i].as_str()) {
                Some(b) => {
                    let mut found = false;
                    let mut k: usize = 0;
                    while k < out.len()
                        invariant
                            k <= out.len(),
                            found == exists|w: int| 0 <= w < k && out@[w] == b,
                        decreases out.len() - k,
                    {
                        if out[k] == b {
                            found = true;
                        }
                        k += 1;
                    }
                    if !found {
                        out.push(b);
                    }
                },
                None => {},
            }
            i += 1;
        }
        assert(fv.take(files.len() as int) =~= fv);
        Ok(out)
    }
}

} // verus!
