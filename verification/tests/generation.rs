use react_component::cli::CLI;
use react_component::component::Component;
use react_component::get_templates;
use react_component::template::{Template, TemplateType};
use react_component::GenError;

fn button_component_text() -> String {
    String::from(
        "import React from 'react';\n\nexport type ButtonProps = {};\n\nexport const Button: React.ComponentType<ButtonProps> = ({}) => {\n  return (<div>Button renders</div>);\n};\n",
    )
}

fn button_test_text() -> String {
    String::from(
        "import { screen, render } from '@testing-library/react';\n\nimport { Button } from './Button.component';\n\ndescribe('Button', () => {\n  it('renders', () => {\n    render(<Button />);\n      expect(screen.getByText(/Button renders/)).toBeDefined();\n  });\n});\n",
    )
}

#[test]
fn button_scenario_writes_component_and_test() {
    let cli = CLI::parse(
        String::from("Button"),
        String::from("out"),
        false,
        true,
        false,
    );
    assert!(cli.tests);
    assert!(!cli.stories);
    assert_eq!(cli.path, "out");
    let kinds = get_templates(&cli);
    let template = Template::new(&cli.name, kinds).unwrap();
    let files = template.create(&cli.path, cli.contain).unwrap();
    assert_eq!(files.len(), 2);
    assert_eq!(files[0].path, "out/Button.component.tsx");
    assert_eq!(files[0].content, button_component_text());
    assert_eq!(files[1].path, "out/Button.test.tsx");
    assert_eq!(files[1].content, button_test_text());
}

#[test]
fn contained_widget_nests_artifacts_and_emits_index() {
    let cli = CLI::parse(
        String::from("Widget"),
        String::from("out"),
        false,
        false,
        true,
    );
    assert_eq!(cli.path, "out/Widget");
    let kinds = get_templates(&cli);
    let template = Template::new(&cli.name, kinds).unwrap();
    let files = template.create(&cli.path, cli.contain).unwrap();
    assert_eq!(files.len(), 4);
    assert_eq!(files[0].path, "out/Widget/Widget.component.tsx");
    assert_eq!(files[1].path, "out/Widget/Widget.test.tsx");
    assert_eq!(files[2].path, "out/Widget/Widget.stories.tsx");
    assert_eq!(files[3].path, "out/Widget/index.ts");
    assert_eq!(files[3].content, "export * from './Widget.component';");
    assert!(files[0].content.contains("Widget"));
}

#[test]
fn name_with_extension_is_a_config_error() {
    let kinds = vec![TemplateType::Component];
    let err = Template::new("Widget.tsx", kinds).unwrap_err();
    assert_eq!(err, GenError::ConfigError);
    assert_eq!(err.message(), "invalid component name");
}

#[test]
fn empty_name_is_a_config_error() {
    let kinds = vec![TemplateType::Component];
    assert_eq!(Template::new("", kinds).unwrap_err(), GenError::ConfigError);
}

#[test]
fn plan_orders_kinds_and_obeys_flags() {
    let both = CLI::parse(String::from("A"), String::from("p"), false, false, false);
    assert_eq!(
        get_templates(&both),
        vec![
            TemplateType::Component,
            TemplateType::Test,
            TemplateType::Storybook
        ]
    );
    let no_stories = CLI::parse(String::from("A"), String::from("p"), false, true, false);
    assert_eq!(
        get_templates(&no_stories),
        vec![TemplateType::Component, TemplateType::Test]
    );
    let no_tests = CLI::parse(String::from("A"), String::from("p"), true, false, false);
    assert_eq!(
        get_templates(&no_tests),
        vec![TemplateType::Component, TemplateType::Storybook]
    );
    let neither = CLI::parse(String::from("A"), String::from("p"), true, true, false);
    assert_eq!(get_templates(&neither), vec![TemplateType::Component]);
}

#[test]
fn generation_twice_yields_identical_files() {
    let cli = CLI::parse(
        String::from("Card"),
        String::from("src/components"),
        false,
        false,
        true,
    );
    let template1 = Template::new(&cli.name, get_templates(&cli)).unwrap();
    let template2 = Template::new(&cli.name, get_templates(&cli)).unwrap();
    let first = template1.create(&cli.path, cli.contain).unwrap();
    let second = template2.create(&cli.path, cli.contain).unwrap();
    assert_eq!(first.len(), second.len());
    for (a, b) in first.iter().zip(second.iter()) {
        assert_eq!(a.path, b.path);
        assert_eq!(a.content, b.content);
    }
}

#[test]
fn labels_match_file_name_convention() {
    assert_eq!(TemplateType::Component.to_string(), "component");
    assert_eq!(TemplateType::Test.to_string(), "test");
    assert_eq!(TemplateType::Storybook.to_string(), "stories");
}

#[test]
fn legacy_component_config_copies_values() {
    let c = Component::get(String::from("Nav"), String::from("src"), true);
    assert_eq!(c.name, "Nav");
    assert_eq!(c.path, "src");
    assert!(c.skip_tests);
}

#[test]
fn parse_keeps_path_flat_without_contain() {
    let cli = CLI::parse(
        String::from("Nav"),
        String::from("src/components"),
        true,
        true,
        false,
    );
    assert_eq!(cli.path, "src/components");
    assert!(!cli.tests);
    assert!(!cli.stories);
    assert!(!cli.contain);
}
