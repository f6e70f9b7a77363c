use vstd::prelude::*;

verus! {

/// An earlier, smaller shape of the command line kept alongside `CLI`: only
/// the component name, the destination directory, and the test skip flag.
pub struct Component {
    pub name: String,
    pub path: String,
    pub skip_tests: bool,
}

impl Component {
    /// Builds the configuration from the raw argument values the front end
    /// collected.
    pub fn get(name: String, path: String, skip_tests: bool) -> (r: Component)
        ensures
            r.name@ == name@,
            r.path@ == path@,
            r.skip_tests == skip_tests,
    {
        Component { name, path, skip_tests }
    }
}

} // verus!
