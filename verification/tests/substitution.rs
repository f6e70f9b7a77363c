use react_component::template::{substitute, TemplateType};
use react_component::GenError;

#[test]
fn placeholder_is_replaced_everywhere() {
    let out = substitute("hello {name} and {name}!", "World").unwrap();
    assert_eq!(out, "hello World and World!");
}

#[test]
fn escaped_brace_becomes_literal_brace() {
    let out = substitute("a \\{ b", "X").unwrap();
    assert_eq!(out, "a { b");
}

#[test]
fn escape_suppresses_substitution() {
    let out = substitute("\\{name}", "X").unwrap();
    assert_eq!(out, "{name}");
}

#[test]
fn lone_backslash_is_literal() {
    let out = substitute("a \\ b", "X").unwrap();
    assert_eq!(out, "a \\ b");
}

#[test]
fn unknown_placeholder_is_a_render_error() {
    assert_eq!(substitute("{bad}", "X").unwrap_err(), GenError::RenderError);
    assert_eq!(
        substitute("{bad}", "X").unwrap_err().message(),
        "malformed template"
    );
}

#[test]
fn unterminated_placeholder_is_a_render_error() {
    assert_eq!(substitute("{name", "X").unwrap_err(), GenError::RenderError);
    assert_eq!(substitute("tail {", "X").unwrap_err(), GenError::RenderError);
}

#[test]
fn empty_template_renders_empty() {
    assert_eq!(substitute("", "X").unwrap(), "");
}

#[test]
fn component_render_substitutes_name() {
    let out = TemplateType::Component.render("App").unwrap();
    assert_eq!(
        out,
        "import React from 'react';\n\nexport type AppProps = {};\n\nexport const App: React.ComponentType<AppProps> = ({}) => {\n  return (<div>App renders</div>);\n};\n"
    );
}

#[test]
fn story_render_substitutes_name() {
    let out = TemplateType::Storybook.render("App").unwrap();
    assert_eq!(
        out,
        "import { ComponentMeta, Story } from '@storybook/react';\n\nimport { App, AppProps } from './App.component';\n\nconst story: ComponentMeta<typeof App> = {\n  title: 'App'\n};\n\nexport const AppStory: Story<AppProps> = (args) => {\n  return (<App {...args} />)\n};\n\nexport default story;\n"
    );
}

#[test]
fn test_render_substitutes_name() {
    let out = TemplateType::Test.render("App").unwrap();
    assert_eq!(
        out,
        "import { screen, render } from '@testing-library/react';\n\nimport { App } from './App.component';\n\ndescribe('App', () => {\n  it('renders', () => {\n    render(<App />);\n      expect(screen.getByText(/App renders/)).toBeDefined();\n  });\n});\n"
    );
}
