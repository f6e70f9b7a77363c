use vstd::prelude::*;

verus! {

use crate::GenError;

// ============================================================================
// The template grammar.
//
// A template is plain text in which `{name}` marks a placeholder for the
// component name and `\{` stands for a literal opening brace. Any other
// character, a backslash not followed by `{` included, stands for itself.
// An opening brace that starts neither `{name}` nor follows a backslash
// makes the template malformed.
// ============================================================================

/// The five characters that must follow an unescaped `{`.
pub open spec fn placeholder_tail() -> Seq<char> {
    seq!['n', 'a', 'm', 'e', '}']
}

/// The whole placeholder token `{name}`.
pub open spec fn placeholder() -> Seq<char> {
    seq!['{', 'n', 'a', 'm', 'e', '}']
}

/// The escape token `\{`.
pub open spec fn escape_token() -> Seq<char> {
    seq!['\\', '{']
}

/// What the escape token renders to: a single opening brace.
pub open spec fn lbrace() -> Seq<char> {
    seq!['{']
}

/// A template is well formed when every unescaped `{` opens a full `{name}`
/// placeholder.
pub open spec fn template_wf(t: Seq<char>) -> bool
    decreases t.len(),
{
    if t.len() == 0 {
        true
    } else if t[0] == '\\' && t.len() >= 2 && t[1] == '{' {
        template_wf(t.skip(2))
    } else if t[0] == '{' {
        t.len() >= 6 && t.subrange(1, 6) == placeholder_tail() && template_wf(t.skip(6))
    } else {
        template_wf(t.skip(1))
    }
}

/// The text a template renders to: each `{name}` replaced by `name`, each
/// `\{` by `{`, every other character copied. On a malformed template the
/// stray brace is copied; `substitute` rejects that case instead.
pub open spec fn substituted(t: Seq<char>, name: Seq<char>) -> Seq<char>
    decreases t.len(),
{
    if t.len() == 0 {
        Seq::empty()
    } else if t[0] == '\\' && t.len() >= 2 && t[1] == '{' {
        lbrace() + substituted(t.skip(2), name)
    } else if t[0] == '{' && t.len() >= 6 && t.subrange(1, 6) == placeholder_tail() {
        name + substituted(t.skip(6), name)
    } else {
        seq![t[0]] + substituted(t.skip(1), name)
    }
}

// ============================================================================
// The registry of shipped templates.
// ============================================================================

/// The kinds of artifact the generator can emit, in the order they are
/// written: the component itself always first, then its test, then its story.
#[derive(Clone, Copy, PartialEq, Eq, Structural, Debug)]
pub enum TemplateType {
    Component,
    Test,
    Storybook,
}

/// The label a kind contributes to its file name: `<name>.<label>.tsx`.
pub open spec fn label_view(kind: TemplateType) -> Seq<char> {
    match kind {
        TemplateType::Component => "component"@,
        TemplateType::Test => "test"@,
        TemplateType::Storybook => "stories"@,
    }
}

/// The shipped template for the component source file.
pub open spec fn component_template() -> Seq<char> {
    "import React from 'react';\n\nexport type "@ + placeholder() + "Props = "@ + escape_token()
        + "};\n\nexport const "@ + placeholder() + ": React.ComponentType<"@ + placeholder()
        + "Props> = ("@ + escape_token() + "}) => "@ + escape_token() + "\n  return (<div>"@
        + placeholder() + " renders</div>);\n};\n"@
}

/// The shipped template for the test file.
pub open spec fn test_template() -> Seq<char> {
    "import "@ + escape_token() + " screen, render } from '@testing-library/react';\n\nimport "@
        + escape_token() + " "@ + placeholder() + " } from './"@ + placeholder()
        + ".component';\n\ndescribe('"@ + placeholder() + "', () => "@ + escape_token()
        + "\n  it('renders', () => "@ + escape_token() + "\n    render(<"@ + placeholder()
        + " />);\n      expect(screen.getByText(/"@ + placeholder()
        + " renders/)).toBeDefined();\n  });\n});\n"@
}

/// The shipped template for the story file.
pub open spec fn story_template() -> Seq<char> {
    "import "@ + escape_token() + " ComponentMeta, Story } from '@storybook/react';\n\nimport "@
        + escape_token() + " "@ + placeholder() + ", "@ + placeholder() + "Props } from './"@
        + placeholder() + ".component';\n\nconst story: ComponentMeta<typeof "@ + placeholder()
        + "> = "@ + escape_token() + "\n  title: '"@ + placeholder() + "'\n};\n\nexport const "@
        + placeholder() + "Story: Story<"@ + placeholder() + "Props> = (args) => "@
        + escape_token() + "\n  return (<"@ + placeholder() + " "@ + escape_token()
        + "...args} />)\n};\n\nexport default story;\n"@
}

/// The template text a kind is rendered from.
pub open spec fn template_view(kind: TemplateType) -> Seq<char> {
    match kind {
        TemplateType::Component => component_template(),
        TemplateType::Test => test_template(),
        TemplateType::Storybook => story_template(),
    }
}

impl TemplateType {
    /// The label used in generated file names.
    pub fn to_string(&self) -> (r: String)
        ensures
            r@ == label_view(*self),
    {
        match self {
            TemplateType::Component => String::from_str("component"),
            TemplateType::Test => String::from_str("test"),
            TemplateType::Storybook => String::from_str("stories"),
        }
    }

    /// The shipped template text for this kind.
    pub fn template_text(&self) -> (r: String)
        ensures
            r@ == template_view(*self),
    {
        proof {
            reveal_strlit("{name}");
            reveal_strlit("\\{");
            assert("{name}"@ =~= placeholder());
            assert("\\{"@ =~= escape_token());
        }
        match self {
            TemplateType::Component => {
                let mut r = String::from_str("import React from 'react';\n\nexport type ");
                r.append("{name}");
                r.append("Props = ");
                r.append("\\{");
                r.append("};\n\nexport const ");
                r.append("{name}");
                r.append(": React.ComponentType<");
                r.append("{name}");
                r.append("Props> = (");
                r.append("\\{");
                r.append("}) => ");
                r.append("\\{");
                r.append("\n  return (<div>");
                r.append("{name}");
                r.append(" renders</div>);\n};\n");
                r
            },
            TemplateType::Test => {
                let mut r = String::from_str("import ");
                r.append("\\{");
                r.append(" screen, render } from '@testing-library/react';\n\nimport ");
                r.append("\\{");
                r.append(" ");
                r.append("{name}");
                r.append(" } from './");
                r.append("{name}");
                r.append(".component';\n\ndescribe('");
                r.append("{name}");
                r.append("', () => ");
                r.append("\\{");
                r.append("\n  it('renders', () => ");
                r.append("\\{");
                r.append("\n    render(<");
                r.append("{name}");
                r.append(" />);\n      expect(screen.getByText(/");
                r.append("{name}");
                r.append(" renders/)).toBeDefined();\n  });\n});\n");
                r
            },
            TemplateType::Storybook => {
                let mut r = String::from_str("import ");
                r.append("\\{");
                r.append(" ComponentMeta, Story } from '@storybook/react';\n\nimport ");
                r.append("\\{");
                r.append(" ");
                r.append("{name}");
                r.append(", ");
                r.append("{name}");
                r.append("Props } from './");
                r.append("{name}");
                r.append(".component';\n\nconst story: ComponentMeta<typeof ");
                r.append("{name}");
                r.append("> = ");
                r.append("\\{");
                r.append("\n  title: '");
                r.append("{name}");
                r.append("'\n};\n\nexport const ");
                r.append("{name}");
                r.append("Story: Story<");
                r.append("{name}");
                r.append("Props> = (args) => ");
                r.append("\\{");
                r.append("\n  return (<");
                r.append("{name}");
                r.append(" ");
                r.append("\\{");
                r.append("...args} />)\n};\n\nexport default story;\n");
                r
            },
        }
    }

    /// Renders this kind's shipped template against `name`.
    pub fn render(&self, name: &str) -> (r: Result<String, GenError>)
        ensures
            r is Ok <==> template_wf(template_view(*self)),
            r matches Ok(s) ==> s@ == substituted(template_view(*self), name@),
            r matches Err(e) ==> e == GenError::RenderError,
    {
        let text = self.template_text();
        substitute(text.as_str(), name)
    }
}

/// Renders `template` against `name`: replaces each `{name}` placeholder
/// with the name and each `\{` escape with `{`. Returns `RenderError` if and
/// only if the template is malformed, that is, some unescaped `{` does not
/// open a `{name}` placeholder.
pub fn substitute(template: &str, name: &str) -> (r: Result<String, GenError>)
    ensures
        r is Ok <==> template_wf(template@),
        r matches Ok(s) ==> s@ == substituted(template@, name@),
        r matches Err(e) ==> e == GenError::RenderError,
{
    let ghost t = template@;
    let n = template.unicode_len();
    let mut out = String::new();
    let mut i: usize = 0;
    proof {
        assert(t.skip(0) =~= t);
        assert(out@ + substituted(t, name@) =~= substituted(t, name@));
    }
    while i < n
        invariant
            0 <= i <= n,
            n == t.len(),
            t == template@,
            template_wf(t) == template_wf(t.skip(i as int)),
            substituted(t, name@) == out@ + substituted(t.skip(i as int), name@),
        decreases n - i,
    {
        let ghost s = t.skip(i as int);
        proof {
            assert(s.len() == n - i);
            assert(s[0] == t[i as int]);
        }
        let c = template.get_char(i);
        if c == '\\' && i + 1 < n && template.get_char(i + 1) == '{' {
            proof {
                assert(s[1] == t[i + 1]);
                assert(s.skip(2) =~= t.skip(i + 2));
                assert(substituted(s, name@) == lbrace() + substituted(s.skip(2), name@));
                reveal_strlit("{");
                assert("{"@ =~= lbrace());
                assert((out@ + lbrace()) + substituted(t.skip(i + 2), name@) =~= out@ + (
                lbrace() + substituted(t.skip(i + 2), name@)));
            }
            out.append("{");
            i = i + 2;
        } else if c == '{' {
            if n - i > 5 && template.get_char(i + 1) == 'n' && template.get_char(i + 2) == 'a'
                && template.get_char(i + 3) == 'm' && template.get_char(i + 4) == 'e'
                && template.get_char(i + 5) == '}' {
                proof {
                    assert(s.subrange(1, 6) =~= placeholder_tail()) by {
                        assert(forall|k: int|
                            0 <= k < 5 ==> s.subrange(1, 6)[k] == t[i + 1 + k]);
                    }
                    assert(s.skip(6) =~= t.skip(i + 6));
                    assert(substituted(s, name@) == name@ + substituted(s.skip(6), name@));
                    assert((out@ + name@) + substituted(t.skip(i + 6), name@) =~= out@ + (name@
                        + substituted(t.skip(i + 6), name@)));
                }
                out.append(name);
                i = i + 6;
            } else {
                proof {
                    if s.len() >= 6 && s.subrange(1, 6) == placeholder_tail() {
                        assert(s.subrange(1, 6)[0] == t[i + 1]);
                        assert(s.subrange(1, 6)[1] == t[i + 2]);
                        assert(s.subrange(1, 6)[2] == t[i + 3]);
                        assert(s.subrange(1, 6)[3] == t[i + 4]);
                        assert(s.subrange(1, 6)[4] == t[i + 5]);
                        assert(false);
                    }
                    assert(!template_wf(s));
                }
                return Err(GenError::RenderError);
            }
        } else {
            proof {
                if s.len() >= 2 {
                    assert(s[1] == t[i + 1]);
                }
                assert(s.skip(1) =~= t.skip(i + 1));
                assert(substituted(s, name@) == seq![s[0]] + substituted(s.skip(1), name@));
                assert(t.subrange(i as int, i + 1) =~= seq![t[i as int]]);
                assert((out@ + seq![s[0]]) + substituted(t.skip(i + 1), name@) =~= out@ + (seq![
                    s[0]] + substituted(t.skip(i + 1), name@)));
            }
            let piece = template.substring_char(i, i + 1);
            out.append(piece);
            i = i + 1;
        }
    }
    proof {
        assert(t.skip(n as int) =~= Seq::<char>::empty());
        assert(out@ + substituted(t.skip(n as int), name@) =~= out@);
    }
    Ok(out)
}

// ============================================================================
// General laws of the renderer.
// ============================================================================

/// Rendering distributes over concatenation: when a well-formed prefix `a`
/// does not end in a backslash that the start of `b` would turn into an
/// escape, `a + b` is well formed exactly when `b` is, and renders to the
/// renderings of the parts, joined.
pub proof fn lemma_substituted_concat(a: Seq<char>, b: Seq<char>, name: Seq<char>)
    requires
        template_wf(a),
        a.len() > 0 && b.len() > 0 ==> !(a.last() == '\\' && b[0] == '{'),
    ensures
        template_wf(a + b) == template_wf(b),
        substituted(a + b, name) == substituted(a, name) + substituted(b, name),
    decreases a.len(),
{
    if a.len() == 0 {
        assert(a + b =~= b);
        assert(substituted(a, name) + substituted(b, name) =~= substituted(b, name));
    } else {
        let t = a + b;
        assert(t[0] == a[0]);
        if a[0] == '\\' && a.len() >= 2 && a[1] == '{' {
            assert(t[1] == a[1]);
            assert(t.skip(2) =~= a.skip(2) + b);
            if a.len() > 2 {
                assert(a.skip(2).last() == a.last());
            }
            lemma_substituted_concat(a.skip(2), b, name);
            assert(substituted(t, name) == lbrace() + (substituted(a.skip(2), name)
                + substituted(b, name)));
            assert(lbrace() + (substituted(a.skip(2), name) + substituted(b, name)) =~= (lbrace()
                + substituted(a.skip(2), name)) + substituted(b, name));
        } else if a[0] == '{' {
            assert(a.len() >= 6 && a.subrange(1, 6) == placeholder_tail());
            assert(t.subrange(1, 6) =~= a.subrange(1, 6));
            assert(t.skip(6) =~= a.skip(6) + b);
            if a.len() > 6 {
                assert(a.skip(6).last() == a.last());
            }
            lemma_substituted_concat(a.skip(6), b, name);
            assert(substituted(t, name) == name + (substituted(a.skip(6), name) + substituted(
                b,
                name,
            )));
            assert(name + (substituted(a.skip(6), name) + substituted(b, name)) =~= (name
                + substituted(a.skip(6), name)) + substituted(b, name));
        } else {
            if t.len() >= 2 && t[0] == '\\' && t[1] == '{' {
                if a.len() >= 2 {
                    assert(a[1] == t[1]);
                    assert(false);
                } else {
                    assert(a.last() == '\\');
                    assert(b[0] == t[1]);
                    assert(false);
                }
            }
            assert(t.skip(1) =~= a.skip(1) + b);
            if a.len() > 1 {
                assert(a.skip(1).last() == a.last());
            }
            lemma_substituted_concat(a.skip(1), b, name);
            assert(substituted(t, name) == seq![a[0]] + (substituted(a.skip(1), name)
                + substituted(b, name)));
            assert(seq![a[0]] + (substituted(a.skip(1), name) + substituted(b, name)) =~= (seq![
                a[0]] + substituted(a.skip(1), name)) + substituted(b, name));
        }
    }
}

/// A piece of plain text, one with no brace and no backslash, is a
/// well-formed template that renders to itself.
pub proof fn lemma_literal_piece(t: Seq<char>, name: Seq<char>)
    requires
        forall|j: int| 0 <= j < t.len() ==> t[j] != '{' && t[j] != '\\',
    ensures
        template_wf(t),
        substituted(t, name) == t,
    decreases t.len(),
{
    if t.len() == 0 {
        assert(substituted(t, name) =~= t);
    } else {
        assert(forall|j: int| 0 <= j < t.skip(1).len() ==> t.skip(1)[j] == t[j + 1]);
        lemma_literal_piece(t.skip(1), name);
        assert(seq![t[0]] + t.skip(1) =~= t);
    }
}

/// The `{name}` token is a well-formed template that renders to the name.
pub proof fn lemma_placeholder_piece(name: Seq<char>)
    ensures
        template_wf(placeholder()),
        substituted(placeholder(), name) == name,
{
    let p = placeholder();
    assert(p.len() == 6 && p[0] == '{');
    assert(p.subrange(1, 6) =~= placeholder_tail());
    assert(p.skip(6) =~= Seq::<char>::empty());
    assert(template_wf(Seq::<char>::empty()));
    assert(substituted(Seq::<char>::empty(), name) == Seq::<char>::empty());
    assert(name + substituted(p.skip(6), name) =~= name);
}

/// The `\{` token is a well-formed template that renders to `{`.
pub proof fn lemma_escape_piece(name: Seq<char>)
    ensures
        template_wf(escape_token()),
        substituted(escape_token(), name) == lbrace(),
{
    let e = escape_token();
    assert(e.len() == 2 && e[0] == '\\' && e[1] == '{');
    assert(e.skip(2) =~= Seq::<char>::empty());
    assert(template_wf(Seq::<char>::empty()));
    assert(substituted(Seq::<char>::empty(), name) == Seq::<char>::empty());
    assert(lbrace() + substituted(e.skip(2), name) =~= lbrace());
}

/// The text the component template renders to for a given name.
pub open spec fn component_rendered(name: Seq<char>) -> Seq<char> {
    "import React from 'react';\n\nexport type "@ + name + "Props = "@ + lbrace()
        + "};\n\nexport const "@ + name + ": React.ComponentType<"@ + name + "Props> = ("@
        + lbrace() + "}) => "@ + lbrace() + "\n  return (<div>"@ + name
        + " renders</div>);\n};\n"@
}

/// Law: the shipped component template is well formed, so rendering it
/// succeeds for every name, and the rendered text carries the name exactly
/// where the template places its placeholders, with every `\{` escape
/// reduced to a brace.
pub proof fn lemma_component_template_rendered(name: Seq<char>)
    ensures
        template_wf(component_template()),
        substituted(component_template(), name) == component_rendered(name),
{
    let l1 = "import React from 'react';\n\nexport type "@;
    let l2 = "Props = "@;
    let l3 = "};\n\nexport const "@;
    let l4 = ": React.ComponentType<"@;
    let l5 = "Props> = ("@;
    let l6 = "}) => "@;
    let l7 = "\n  return (<div>"@;
    let l8 = " renders</div>);\n};\n"@;
    reveal_strlit("import React from 'react';\n\nexport type ");
    reveal_strlit("Props = ");
    reveal_strlit("};\n\nexport const ");
    reveal_strlit(": React.ComponentType<");
    reveal_strlit("Props> = (");
    reveal_strlit("}) => ");
    reveal_strlit("\n  return (<div>");
    reveal_strlit(" renders</div>);\n};\n");
    assert(forall|j: int| 0 <= j < l1.len() ==> l1[j] != '{' && l1[j] != '\\');
    assert(forall|j: int| 0 <= j < l2.len() ==> l2[j] != '{' && l2[j] != '\\');
    assert(forall|j: int| 0 <= j < l3.len() ==> l3[j] != '{' && l3[j] != '\\');
    assert(forall|j: int| 0 <= j < l4.len() ==> l4[j] != '{' && l4[j] != '\\');
    assert(forall|j: int| 0 <= j < l5.len() ==> l5[j] != '{' && l5[j] != '\\');
    assert(forall|j: int| 0 <= j < l6.len() ==> l6[j] != '{' && l6[j] != '\\');
    assert(forall|j: int| 0 <= j < l7.len() ==> l7[j] != '{' && l7[j] != '\\');
    assert(forall|j: int| 0 <= j < l8.len() ==> l8[j] != '{' && l8[j] != '\\');
    lemma_literal_piece(l1, name);
    lemma_literal_piece(l2, name);
    lemma_literal_piece(l3, name);
    lemma_literal_piece(l4, name);
    lemma_literal_piece(l5, name);
    lemma_literal_piece(l6, name);
    lemma_literal_piece(l7, name);
    lemma_literal_piece(l8, name);
    lemma_placeholder_piece(name);
    lemma_escape_piece(name);
    assert(placeholder().last() == '}');
    assert(escape_token().last() == '{');
    let a01 = l1;
    let a02 = a01 + placeholder();
    let a03 = a02 + l2;
    let a04 = a03 + escape_token();
    let a05 = a04 + l3;
    let a06 = a05 + placeholder();
    let a07 = a06 + l4;
    let a08 = a07 + placeholder();
    let a09 = a08 + l5;
    let a10 = a09 + escape_token();
    let a11 = a10 + l6;
    let a12 = a11 + escape_token();
    let a13 = a12 + l7;
    let a14 = a13 + placeholder();
    let a15 = a14 + l8;
    lemma_render_step(a01, placeholder(), name);
    lemma_render_step(a02, l2, name);
    lemma_render_step(a03, escape_token(), name);
    lemma_render_step(a04, l3, name);
    lemma_render_step(a05, placeholder(), name);
    lemma_render_step(a06, l4, name);
    lemma_render_step(a07, placeholder(), name);
    lemma_render_step(a08, l5, name);
    lemma_render_step(a09, escape_token(), name);
    lemma_render_step(a10, l6, name);
    lemma_render_step(a11, escape_token(), name);
    lemma_render_step(a12, l7, name);
    lemma_render_step(a13, placeholder(), name);
    lemma_render_step(a14, l8, name);
    assert(component_template() == a15);
    assert(substituted(a15, name) == component_rendered(name));
}

/// Law: the rendered component text contains the literal name, starting
/// right where the template's first placeholder stands.
pub proof fn lemma_component_rendered_contains_name(name: Seq<char>)
    ensures
        exists|i: int|
            0 <= i && i + name.len() <= component_rendered(name).len() && #[trigger] component_rendered(
                name,
            ).subrange(i, i + name.len()) == name,
{
    let r = component_rendered(name);
    let l1 = "import React from 'react';\n\nexport type "@;
    let i = l1.len() as int;
    assert(r.subrange(i, i + name.len()) =~= name);
    assert(0 <= i && i + name.len() <= r.len() && r.subrange(i, i + name.len()) == name);
}

/// Every opening brace of `s`, except one standing last, is followed by `}`
/// or by a line break. Placeholder syntax would put an `n` there instead.
spec fn braces_closed_mid(s: Seq<char>) -> bool {
    forall|j: int| #![trigger s[j]]
        0 <= j < s.len() - 1 && s[j] == '{' ==> s[j + 1] == '}' || s[j + 1] == '\n'
}

proof fn lemma_braces_closed_step(x: Seq<char>, y: Seq<char>)
    requires
        braces_closed_mid(x),
        braces_closed_mid(y),
        x.len() > 0 && x.last() == '{' ==> y.len() > 0 && (y[0] == '}' || y[0] == '\n'),
    ensures
        braces_closed_mid(x + y),
{
    assert forall|j: int| #![trigger (x + y)[j]]
        0 <= j < (x + y).len() - 1 && (x + y)[j] == '{' implies (x + y)[j + 1] == '}' || (x + y)[j
        + 1] == '\n' by {
        if j < x.len() - 1 {
            assert((x + y)[j] == x[j]);
            assert((x + y)[j + 1] == x[j + 1]);
        } else if j == x.len() - 1 {
            assert((x + y)[j] == x.last());
            assert((x + y)[j + 1] == y[0]);
        } else {
            assert((x + y)[j] == y[j - x.len()]);
            assert((x + y)[j + 1] == y[j + 1 - x.len()]);
        }
    }
}

/// Law: the rendered component text holds no leftover placeholder syntax:
/// for a name that carries no opening brace of its own, no position of the
/// rendered text starts the `{name}` token.
pub proof fn lemma_component_rendered_no_placeholder(name: Seq<char>)
    requires
        forall|i: int| 0 <= i < name.len() ==> name[i] != '{',
    ensures
        forall|i: int| #![trigger component_rendered(name).subrange(i, i + 6)]
            0 <= i && i + 6 <= component_rendered(name).len() ==> component_rendered(name).subrange(
                i,
                i + 6,
            ) != placeholder(),
{
    let r = component_rendered(name);
    let l1 = "import React from 'react';\n\nexport type "@;
    let l2 = "Props = "@;
    let l3 = "};\n\nexport const "@;
    let l4 = ": React.ComponentType<"@;
    let l5 = "Props> = ("@;
    let l6 = "}) => "@;
    let l7 = "\n  return (<div>"@;
    let l8 = " renders</div>);\n};\n"@;
    reveal_strlit("import React from 'react';\n\nexport type ");
    reveal_strlit("Props = ");
    reveal_strlit("};\n\nexport const ");
    reveal_strlit(": React.ComponentType<");
    reveal_strlit("Props> = (");
    reveal_strlit("}) => ");
    reveal_strlit("\n  return (<div>");
    reveal_strlit(" renders</div>);\n};\n");
    assert(forall|j: int| 0 <= j < l1.len() ==> l1[j] != '{');
    assert(forall|j: int| 0 <= j < l2.len() ==> l2[j] != '{');
    assert(forall|j: int| 0 <= j < l3.len() ==> l3[j] != '{');
    assert(forall|j: int| 0 <= j < l4.len() ==> l4[j] != '{');
    assert(forall|j: int| 0 <= j < l5.len() ==> l5[j] != '{');
    assert(forall|j: int| 0 <= j < l6.len() ==> l6[j] != '{');
    assert(forall|j: int| 0 <= j < l7.len() ==> l7[j] != '{');
    assert(forall|j: int| 0 <= j < l8.len() ==> l8[j] != '{');
    assert(l3[0] == '}' && l6[0] == '}' && l7[0] == '\n');
    assert(braces_closed_mid(lbrace()));
    let a01 = l1;
    let a02 = a01 + name;
    let a03 = a02 + l2;
    let a04 = a03 + lbrace();
    let a05 = a04 + l3;
    let a06 = a05 + name;
    let a07 = a06 + l4;
    let a08 = a07 + name;
    let a09 = a08 + l5;
    let a10 = a09 + lbrace();
    let a11 = a10 + l6;
    let a12 = a11 + lbrace();
    let a13 = a12 + l7;
    let a14 = a13 + name;
    let a15 = a14 + l8;
    assert(a01.last() != '{');
    lemma_braces_closed_step(a01, name);
    assert(a02.last() != '{') by {
        if name.len() > 0 {
            assert(a02.last() == name[name.len() - 1]);
        } else {
            assert(a02.last() == a01.last());
        }
    }
    lemma_braces_closed_step(a02, l2);
    assert(a03.last() == l2.last());
    lemma_braces_closed_step(a03, lbrace());
    assert(a04.last() == '{');
    lemma_braces_closed_step(a04, l3);
    assert(a05.last() == l3.last());
    lemma_braces_closed_step(a05, name);
    assert(a06.last() != '{') by {
        if name.len() > 0 {
            assert(a06.last() == name[name.len() - 1]);
        } else {
            assert(a06.last() == a05.last());
        }
    }
    lemma_braces_closed_step(a06, l4);
    assert(a07.last() == l4.last());
    lemma_braces_closed_step(a07, name);
    assert(a08.last() != '{') by {
        if name.len() > 0 {
            assert(a08.last() == name[name.len() - 1]);
        } else {
            assert(a08.last() == a07.last());
        }
    }
    lemma_braces_closed_step(a08, l5);
    assert(a09.last() == l5.last());
    lemma_braces_closed_step(a09, lbrace());
    assert(a10.last() == '{');
    lemma_braces_closed_step(a10, l6);
    assert(a11.last() == l6.last());
    lemma_braces_closed_step(a11, lbrace());
    assert(a12.last() == '{');
    lemma_braces_closed_step(a12, l7);
    assert(a13.last() == l7.last());
    lemma_braces_closed_step(a13, name);
    assert(a14.last() != '{') by {
        if name.len() > 0 {
            assert(a14.last() == name[name.len() - 1]);
        } else {
            assert(a14.last() == a13.last());
        }
    }
    lemma_braces_closed_step(a14, l8);
    assert(r == a15);
    assert(braces_closed_mid(r));
    assert forall|i: int|
        0 <= i && i + 6 <= r.len() implies #[trigger] r.subrange(i, i + 6) != placeholder() by {
        if r.subrange(i, i + 6) == placeholder() {
            assert(r.subrange(i, i + 6)[0] == '{');
            assert(r.subrange(i, i + 6)[1] == 'n');
            assert(r[i] == '{' && r[i + 1] == 'n');
            assert(r[i + 1] == '}' || r[i + 1] == '\n');
            assert(false);
        }
    }
}

/// The text the test template renders to for a given name.
pub open spec fn test_rendered(name: Seq<char>) -> Seq<char> {
    "import "@ + lbrace() + " screen, render } from '@testing-library/react';\n\nimport "@
        + lbrace() + " "@ + name + " } from './"@ + name + ".component';\n\ndescribe('"@ + name
        + "', () => "@ + lbrace() + "\n  it('renders', () => "@ + lbrace() + "\n    render(<"@
        + name + " />);\n      expect(screen.getByText(/"@ + name
        + " renders/)).toBeDefined();\n  });\n});\n"@
}

/// Law: the shipped test template is well formed and renders to its text
/// with the name substituted at each placeholder.
pub proof fn lemma_test_template_rendered(name: Seq<char>)
    ensures
        template_wf(test_template()),
        substituted(test_template(), name) == test_rendered(name),
{
    let l1 = "import "@;
    let l2 = " screen, render } from '@testing-library/react';\n\nimport "@;
    let l3 = " "@;
    let l4 = " } from './"@;
    let l5 = ".component';\n\ndescribe('"@;
    let l6 = "', () => "@;
    let l7 = "\n  it('renders', () => "@;
    let l8 = "\n    render(<"@;
    let l9 = " />);\n      expect(screen.getByText(/"@;
    let l10 = " renders/)).toBeDefined();\n  });\n});\n"@;
    reveal_strlit("import ");
    reveal_strlit(" screen, render } from '@testing-library/react';\n\nimport ");
    reveal_strlit(" ");
    reveal_strlit(" } from './");
    reveal_strlit(".component';\n\ndescribe('");
    reveal_strlit("', () => ");
    reveal_strlit("\n  it('renders', () => ");
    reveal_strlit("\n    render(<");
    reveal_strlit(" />);\n      expect(screen.getByText(/");
    reveal_strlit(" renders/)).toBeDefined();\n  });\n});\n");
    assert(forall|j: int| 0 <= j < l1.len() ==> l1[j] != '{' && l1[j] != '\\');
    assert(forall|j: int| 0 <= j < l2.len() ==> l2[j] != '{' && l2[j] != '\\');
    assert(forall|j: int| 0 <= j < l3.len() ==> l3[j] != '{' && l3[j] != '\\');
    assert(forall|j: int| 0 <= j < l4.len() ==> l4[j] != '{' && l4[j] != '\\');
    assert(forall|j: int| 0 <= j < l5.len() ==> l5[j] != '{' && l5[j] != '\\');
    assert(forall|j: int| 0 <= j < l6.len() ==> l6[j] != '{' && l6[j] != '\\');
    assert(forall|j: int| 0 <= j < l7.len() ==> l7[j] != '{' && l7[j] != '\\');
    assert(forall|j: int| 0 <= j < l8.len() ==> l8[j] != '{' && l8[j] != '\\');
    assert(forall|j: int| 0 <= j < l9.len() ==> l9[j] != '{' && l9[j] != '\\');
    assert(forall|j: int| 0 <= j < l10.len() ==> l10[j] != '{' && l10[j] != '\\');
    lemma_literal_piece(l1, name);
    lemma_literal_piece(l2, name);
    lemma_literal_piece(l3, name);
    lemma_literal_piece(l4, name);
    lemma_literal_piece(l5, name);
    lemma_literal_piece(l6, name);
    lemma_literal_piece(l7, name);
    lemma_literal_piece(l8, name);
    lemma_literal_piece(l9, name);
    lemma_literal_piece(l10, name);
    lemma_placeholder_piece(name);
    lemma_escape_piece(name);
    assert(placeholder().last() == '}');
    assert(escape_token().last() == '{');
    let a01 = l1;
    let a02 = a01 + escape_token();
    let a03 = a02 + l2;
    let a04 = a03 + escape_token();
    let a05 = a04 + l3;
    let a06 = a05 + placeholder();
    let a07 = a06 + l4;
    let a08 = a07 + placeholder();
    let a09 = a08 + l5;
    let a10 = a09 + placeholder();
    let a11 = a10 + l6;
    let a12 = a11 + escape_token();
    let a13 = a12 + l7;
    let a14 = a13 + escape_token();
    let a15 = a14 + l8;
    let a16 = a15 + placeholder();
    let a17 = a16 + l9;
    let a18 = a17 + placeholder();
    let a19 = a18 + l10;
    lemma_render_step(a01, escape_token(), name);
    lemma_render_step(a02, l2, name);
    lemma_render_step(a03, escape_token(), name);
    lemma_render_step(a04, l3, name);
    lemma_render_step(a05, placeholder(), name);
    lemma_render_step(a06, l4, name);
    lemma_render_step(a07, placeholder(), name);
    lemma_render_step(a08, l5, name);
    lemma_render_step(a09, placeholder(), name);
    lemma_render_step(a10, l6, name);
    lemma_render_step(a11, escape_token(), name);
    lemma_render_step(a12, l7, name);
    lemma_render_step(a13, escape_token(), name);
    lemma_render_step(a14, l8, name);
    lemma_render_step(a15, placeholder(), name);
    lemma_render_step(a16, l9, name);
    lemma_render_step(a17, placeholder(), name);
    lemma_render_step(a18, l10, name);
    assert(test_template() == a19);
    assert(substituted(a19, name) == test_rendered(name));
}

/// The text the story template renders to for a given name.
pub open spec fn story_rendered(name: Seq<char>) -> Seq<char> {
    "import "@ + lbrace() + " ComponentMeta, Story } from '@storybook/react';\n\nimport "@
        + lbrace() + " "@ + name + ", "@ + name + "Props } from './"@ + name
        + ".component';\n\nconst story: ComponentMeta<typeof "@ + name + "> = "@ + lbrace()
        + "\n  title: '"@ + name + "'\n};\n\nexport const "@ + name + "Story: Story<"@ + name
        + "Props> = (args) => "@ + lbrace() + "\n  return (<"@ + name + " "@ + lbrace()
        + "...args} />)\n};\n\nexport default story;\n"@
}

/// Law: the shipped story template is well formed and renders to its text
/// with the name substituted at each placeholder.
pub proof fn lemma_story_template_rendered(name: Seq<char>)
    ensures
        template_wf(story_template()),
        substituted(story_template(), name) == story_rendered(name),
{
    let l1 = "import "@;
    let l2 = " ComponentMeta, Story } from '@storybook/react';\n\nimport "@;
    let l3 = " "@;
    let l4 = ", "@;
    let l5 = "Props } from './"@;
    let l6 = ".component';\n\nconst story: ComponentMeta<typeof "@;
    let l7 = "> = "@;
    let l8 = "\n  title: '"@;
    let l9 = "'\n};\n\nexport const "@;
    let l10 = "Story: Story<"@;
    let l11 = "Props> = (args) => "@;
    let l12 = "\n  return (<"@;
    let l13 = "...args} />)\n};\n\nexport default story;\n"@;
    reveal_strlit("import ");
    reveal_strlit(" ComponentMeta, Story } from '@storybook/react';\n\nimport ");
    reveal_strlit(" ");
    reveal_strlit(", ");
    reveal_strlit("Props } from './");
    reveal_strlit(".component';\n\nconst story: ComponentMeta<typeof ");
    reveal_strlit("> = ");
    reveal_strlit("\n  title: '");
    reveal_strlit("'\n};\n\nexport const ");
    reveal_strlit("Story: Story<");
    reveal_strlit("Props> = (args) => ");
    reveal_strlit("\n  return (<");
    reveal_strlit("...args} />)\n};\n\nexport default story;\n");
    assert(forall|j: int| 0 <= j < l1.len() ==> l1[j] != '{' && l1[j] != '\\');
    assert(forall|j: int| 0 <= j < l2.len() ==> l2[j] != '{' && l2[j] != '\\');
    assert(forall|j: int| 0 <= j < l3.len() ==> l3[j] != '{' && l3[j] != '\\');
    assert(forall|j: int| 0 <= j < l4.len() ==> l4[j] != '{' && l4[j] != '\\');
    assert(forall|j: int| 0 <= j < l5.len() ==> l5[j] != '{' && l5[j] != '\\');
    assert(forall|j: int| 0 <= j < l6.len() ==> l6[j] != '{' && l6[j] != '\\');
    assert(forall|j: int| 0 <= j < l7.len() ==> l7[j] != '{' && l7[j] != '\\');
    assert(forall|j: int| 0 <= j < l8.len() ==> l8[j] != '{' && l8[j] != '\\');
    assert(forall|j: int| 0 <= j < l9.len() ==> l9[j] != '{' && l9[j] != '\\');
    assert(forall|j: int| 0 <= j < l10.len() ==> l10[j] != '{' && l10[j] != '\\');
    assert(forall|j: int| 0 <= j < l11.len() ==> l11[j] != '{' && l11[j] != '\\');
    assert(forall|j: int| 0 <= j < l12.len() ==> l12[j] != '{' && l12[j] != '\\');
    assert(forall|j: int| 0 <= j < l13.len() ==> l13[j] != '{' && l13[j] != '\\');
    lemma_literal_piece(l1, name);
    lemma_literal_piece(l2, name);
    lemma_literal_piece(l3, name);
    lemma_literal_piece(l4, name);
    lemma_literal_piece(l5, name);
    lemma_literal_piece(l6, name);
    lemma_literal_piece(l7, name);
    lemma_literal_piece(l8, name);
    lemma_literal_piece(l9, name);
    lemma_literal_piece(l10, name);
    lemma_literal_piece(l11, name);
    lemma_literal_piece(l12, name);
    lemma_literal_piece(l13, name);
    lemma_placeholder_piece(name);
    lemma_escape_piece(name);
    assert(placeholder().last() == '}');
    assert(escape_token().last() == '{');
    let a01 = l1;
    let a02 = a01 + escape_token();
    let a03 = a02 + l2;
    let a04 = a03 + escape_token();
    let a05 = a04 + l3;
    let a06 = a05 + placeholder();
    let a07 = a06 + l4;
    let a08 = a07 + placeholder();
    let a09 = a08 + l5;
    let a10 = a09 + placeholder();
    let a11 = a10 + l6;
    let a12 = a11 + placeholder();
    let a13 = a12 + l7;
    let a14 = a13 + escape_token();
    let a15 = a14 + l8;
    let a16 = a15 + placeholder();
    let a17 = a16 + l9;
    let a18 = a17 + placeholder();
    let a19 = a18 + l10;
    let a20 = a19 + placeholder();
    let a21 = a20 + l11;
    let a22 = a21 + escape_token();
    let a23 = a22 + l12;
    let a24 = a23 + placeholder();
    let a25 = a24 + l3;
    let a26 = a25 + escape_token();
    let a27 = a26 + l13;
    lemma_render_step(a01, escape_token(), name);
    lemma_render_step(a02, l2, name);
    lemma_render_step(a03, escape_token(), name);
    lemma_render_step(a04, l3, name);
    lemma_render_step(a05, placeholder(), name);
    lemma_render_step(a06, l4, name);
    lemma_render_step(a07, placeholder(), name);
    lemma_render_step(a08, l5, name);
    lemma_render_step(a09, placeholder(), name);
    lemma_render_step(a10, l6, name);
    lemma_render_step(a11, placeholder(), name);
    lemma_render_step(a12, l7, name);
    lemma_render_step(a13, escape_token(), name);
    lemma_render_step(a14, l8, name);
    lemma_render_step(a15, placeholder(), name);
    lemma_render_step(a16, l9, name);
    lemma_render_step(a17, placeholder(), name);
    lemma_render_step(a18, l10, name);
    lemma_render_step(a19, placeholder(), name);
    lemma_render_step(a20, l11, name);
    lemma_render_step(a21, escape_token(), name);
    lemma_render_step(a22, l12, name);
    lemma_render_step(a23, placeholder(), name);
    lemma_render_step(a24, l3, name);
    lemma_render_step(a25, escape_token(), name);
    lemma_render_step(a26, l13, name);
    assert(story_template() == a27);
    assert(substituted(a27, name) == story_rendered(name));
}

/// The text any kind renders to for a given name.
pub open spec fn kind_rendered(kind: TemplateType, name: Seq<char>) -> Seq<char> {
    match kind {
        TemplateType::Component => component_rendered(name),
        TemplateType::Test => test_rendered(name),
        TemplateType::Storybook => story_rendered(name),
    }
}

/// Law: every shipped template is well formed, so rendering never fails, and
/// each renders to its text with the name substituted at each placeholder.
pub proof fn lemma_shipped_templates_render(kind: TemplateType, name: Seq<char>)
    ensures
        template_wf(template_view(kind)),
        substituted(template_view(kind), name) == kind_rendered(kind, name),
{
    lemma_component_template_rendered(name);
    lemma_test_template_rendered(name);
    lemma_story_template_rendered(name);
}

/// One step of rendering a template assembled token by token.
pub proof fn lemma_render_step(acc: Seq<char>, tok: Seq<char>, name: Seq<char>)
    requires
        template_wf(acc),
        acc.len() == 0 || acc.last() != '\\',
        template_wf(tok),
        tok.len() > 0,
        tok.last() != '\\',
    ensures
        template_wf(acc + tok),
        substituted(acc + tok, name) == substituted(acc, name) + substituted(tok, name),
        (acc + tok).len() > 0,
        (acc + tok).last() != '\\',
{
    lemma_substituted_concat(acc, tok, name);
    assert((acc + tok).last() == tok.last());
}

// ============================================================================
// Configuration validation and the generation plan.
// ============================================================================

/// A valid component name: non-empty and free of dots, so that it does not
/// already carry a file-extension-like suffix.
pub open spec fn valid_name(name: Seq<char>) -> bool {
    name.len() > 0 && forall|i: int| 0 <= i < name.len() ==> name[i] != '.'
}

/// One generated file: its destination path and its full text. Created and
/// consumed within a single generation pass.
#[derive(Debug)]
pub struct RenderedArtifact {
    pub path: String,
    pub content: String,
}

/// The destination path of one artifact: `<dir>/<name>.<label>.tsx`.
pub open spec fn artifact_path(dir: Seq<char>, name: Seq<char>, kind: TemplateType) -> Seq<char> {
    dir + "/"@ + name + "."@ + label_view(kind) + ".tsx"@
}

/// The destination path of the barrel file written in contained mode.
pub open spec fn index_path(dir: Seq<char>) -> Seq<char> {
    dir + "/index.ts"@
}

/// The content of the barrel file: a single re-export of the component.
pub open spec fn index_content(name: Seq<char>) -> Seq<char> {
    "export * from './"@ + name + ".component';"@
}

/// What a successful generation plan holds: one artifact per requested kind,
/// in the planner's order, each rendered from its template and addressed
/// under `dir`, and in contained mode one final barrel file.
pub open spec fn create_post(
    name: Seq<char>,
    kinds: Seq<TemplateType>,
    dir: Seq<char>,
    contained: bool,
    v: Seq<RenderedArtifact>,
) -> bool {
    &&& v.len() == kinds.len() + (if contained {
        1int
    } else {
        0int
    })
    &&& forall|i: int| #![trigger v[i]]
        0 <= i < kinds.len() ==> v[i].path@ == artifact_path(dir, name, kinds[i])
            && v[i].content@ == substituted(template_view(kinds[i]), name)
    &&& contained ==> v[kinds.len() as int].path@ == index_path(dir)
        && v[kinds.len() as int].content@ == index_content(name)
}

/// A validated generation request: the component name and the artifact kinds
/// to emit.
#[derive(Debug)]
pub struct Template {
    pub name: String,
    pub templates: Vec<TemplateType>,
}

impl Template {
    /// Validates the component name and fixes the artifact kinds to
    /// generate. Returns `ConfigError` if and only if the name is empty or
    /// contains a dot; nothing has been rendered or written at that point.
    pub fn new(name: &str, templates: Vec<TemplateType>) -> (r: Result<Template, GenError>)
        ensures
            r is Ok <==> valid_name(name@),
            r matches Ok(t) ==> t.name@ == name@ && t.templates@ == templates@,
            r matches Err(e) ==> e == GenError::ConfigError,
    {
        let n = name.unicode_len();
        if n == 0 {
            return Err(GenError::ConfigError);
        }
        let mut i: usize = 0;
        while i < n
            invariant
                0 <= i <= n,
                n == name@.len(),
                forall|j: int| 0 <= j < i ==> name@[j] != '.',
            decreases n - i,
        {
            if name.get_char(i) == '.' {
                return Err(GenError::ConfigError);
            }
            i = i + 1;
        }
        Ok(Template { name: String::from_str(name), templates })
    }

    /// Computes the full generation plan: for each requested kind, in order,
    /// the rendered text and its destination path under `path`, and in
    /// contained mode one final barrel file re-exporting the component.
    /// Renders only; the unverified front end performs the writes, so a
    /// failure there leaves earlier files in place, exactly as a failed
    /// write would.
    pub fn create(&self, path: &str, contained: bool) -> (r: Result<
        Vec<RenderedArtifact>,
        GenError,
    >)
        ensures
            r is Ok <==> (forall|i: int|
                0 <= i < self.templates@.len() ==> template_wf(
                    template_view(#[trigger] self.templates@[i]),
                )),
            r matches Ok(v) ==> create_post(self.name@, self.templates@, path@, contained, v@),
            r matches Err(e) ==> e == GenError::RenderError,
    {
        let mut v: Vec<RenderedArtifact> = Vec::new();
        let n = self.templates.len();
        let mut idx: usize = 0;
        while idx < n
            invariant
                0 <= idx <= n,
                n == self.templates@.len(),
                v@.len() == idx,
                forall|j: int| #![trigger v@[j]]
                    0 <= j < idx ==> v@[j].path@ == artifact_path(
                        path@,
                        self.name@,
                        self.templates@[j],
                    ) && v@[j].content@ == substituted(
                        template_view(self.templates@[j]),
                        self.name@,
                    ),
                forall|j: int|
                    0 <= j < idx ==> template_wf(template_view(#[trigger] self.templates@[j])),
            decreases n - idx,
        {
            let kind = self.templates[idx];
            let content = match kind.render(self.name.as_str()) {
                Ok(c) => c,
                Err(e) => {
                    return Err(e);
                },
            };
            let label = kind.to_string();
            let mut p = String::from_str(path);
            p.append("/");
            p.append(self.name.as_str());
            p.append(".");
            p.append(label.as_str());
            p.append(".tsx");
            v.push(RenderedArtifact { path: p, content });
            idx = idx + 1;
        }
        if contained {
            let mut ip = String::from_str(path);
            ip.append("/index.ts");
            let mut ic = String::from_str("export * from './");
            ic.append(self.name.as_str());
            ic.append(".component';");
            v.push(RenderedArtifact { path: ip, content: ic });
        }
        Ok(v)
    }
}

/// Law: with the shipped templates, rendering never fails, so `create`
/// succeeds on every validated request.
pub proof fn lemma_create_succeeds(kinds: Seq<TemplateType>)
    ensures
        forall|i: int| 0 <= i < kinds.len() ==> template_wf(template_view(#[trigger] kinds[i])),
{
    assert forall|i: int| 0 <= i < kinds.len() implies template_wf(
        template_view(#[trigger] kinds[i]),
    ) by {
        lemma_shipped_templates_render(kinds[i], Seq::<char>::empty());
    }
}

/// Law: generation is deterministic. Two plans computed from identical
/// configurations describe the same files with byte-identical content, so
/// invoking generation twice overwrites exactly the files of the first run
/// and leaves no stale extras behind.
pub proof fn lemma_generation_deterministic(
    name: Seq<char>,
    kinds: Seq<TemplateType>,
    dir: Seq<char>,
    contained: bool,
    v1: Seq<RenderedArtifact>,
    v2: Seq<RenderedArtifact>,
)
    requires
        create_post(name, kinds, dir, contained, v1),
        create_post(name, kinds, dir, contained, v2),
    ensures
        v1.len() == v2.len(),
        forall|i: int| #![trigger v1[i], v2[i]]
            0 <= i < v1.len() ==> v1[i].path@ == v2[i].path@ && v1[i].content@ == v2[i].content@,
{
    assert forall|i: int| #![trigger v1[i], v2[i]]
        0 <= i < v1.len() implies v1[i].path@ == v2[i].path@ && v1[i].content@
        == v2[i].content@ by {
        if i < kinds.len() {
            assert(v1[i].path@ == artifact_path(dir, name, kinds[i]));
            assert(v2[i].path@ == artifact_path(dir, name, kinds[i]));
        } else {
            assert(contained && i == kinds.len());
        }
    }
}

} // verus!
