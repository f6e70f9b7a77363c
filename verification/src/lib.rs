use vstd::prelude::*;

pub mod cli;
pub mod component;
pub mod template;

verus! {

use crate::cli::CLI;
use crate::template::TemplateType;

/// The ways a generation request can fail before any file is written.
///
/// `ConfigError` reports an invalid component name; `RenderError` reports a
/// malformed template handed to the substitution engine. I/O failures are
/// reported by the unverified front end, not by this library.
#[derive(Clone, Copy, PartialEq, Eq, Structural, Debug)]
pub enum GenError {
    ConfigError,
    RenderError,
}

impl GenError {
    /// A short human-readable description of the error.
    pub fn message(&self) -> (r: String)
        ensures
            *self == GenError::ConfigError ==> r@ == "invalid component name"@,
            *self == GenError::RenderError ==> r@ == "malformed template"@,
    {
        match self {
            GenError::ConfigError => String::from_str("invalid component name"),
            GenError::RenderError => String::from_str("malformed template"),
        }
    }
}

/// The kinds to generate for a configuration: the component always first,
/// then its test if requested, then its story if requested.
pub open spec fn plan_spec(tests: bool, stories: bool) -> Seq<TemplateType> {
    seq![TemplateType::Component] + (if tests {
        seq![TemplateType::Test]
    } else {
        Seq::<TemplateType>::empty()
    }) + (if stories {
        seq![TemplateType::Storybook]
    } else {
        Seq::<TemplateType>::empty()
    })
}

/// Derives the ordered artifact kind list from the configuration.
pub fn get_templates(config: &CLI) -> (r: Vec<TemplateType>)
    ensures
        r@ == plan_spec(config.tests, config.stories),
{
    let mut templates: Vec<TemplateType> = Vec::new();
    templates.push(TemplateType::Component);
    if config.tests {
        templates.push(TemplateType::Test);
    }
    if config.stories {
        templates.push(TemplateType::Storybook);
    }
    proof {
        assert(templates@ =~= plan_spec(config.tests, config.stories));
    }
    templates
}

/// Law: the plan always begins with the component kind; the test kind is
/// present exactly when tests are requested and the story kind exactly when
/// stories are; the plan holds one to three entries and repeats no kind.
pub proof fn lemma_plan_properties(tests: bool, stories: bool)
    ensures
        plan_spec(tests, stories).len() >= 1,
        plan_spec(tests, stories).len() <= 3,
        plan_spec(tests, stories)[0] == TemplateType::Component,
        plan_spec(tests, stories).contains(TemplateType::Test) <==> tests,
        plan_spec(tests, stories).contains(TemplateType::Storybook) <==> stories,
        forall|i: int, j: int|
            0 <= i < j < plan_spec(tests, stories).len() ==> plan_spec(tests, stories)[i]
                != plan_spec(tests, stories)[j],
{
    let p = plan_spec(tests, stories);
    if tests && stories {
        assert(p =~= seq![TemplateType::Component, TemplateType::Test, TemplateType::Storybook]);
        assert(p[1] == TemplateType::Test && p[2] == TemplateType::Storybook);
    } else if tests {
        assert(p =~= seq![TemplateType::Component, TemplateType::Test]);
        assert(p[1] == TemplateType::Test);
    } else if stories {
        assert(p =~= seq![TemplateType::Component, TemplateType::Storybook]);
        assert(p[1] == TemplateType::Storybook);
    } else {
        assert(p =~= seq![TemplateType::Component]);
    }
}

} // verus!
