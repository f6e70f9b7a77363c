use vstd::prelude::*;

verus! {

/// The path `<dir>/<entry>`, as joining a relative entry onto a directory
/// path produces it.
pub open spec fn joined(dir: Seq<char>, entry: Seq<char>) -> Seq<char> {
    dir + "/"@ + entry
}

/// The parsed command line: the component name, the destination directory,
/// and the artifact selection flags.
pub struct CLI {
    pub name: String,
    pub path: String,
    pub tests: bool,
    pub stories: bool,
    pub contain: bool,
}

impl CLI {
    /// Builds the configuration from the raw argument values the front end
    /// collected: the skip flags become inclusion flags, and in contained
    /// mode the destination is nested under a directory named after the
    /// component.
    pub fn parse(name: String, path: String, no_tests: bool, no_stories: bool, contain: bool) -> (r:
        CLI)
        ensures
            r.name@ == name@,
            r.tests == !no_tests,
            r.stories == !no_stories,
            r.contain == contain,
            contain ==> r.path@ == joined(path@, name@),
            !contain ==> r.path@ == path@,
    {
        let path = if contain {
            let mut p = path;
            p.append("/");
            p.append(name.as_str());
            p
        } else {
            path
        };
        CLI { name, path, tests: !no_tests, stories: !no_stories, contain }
    }
}

} // verus!
