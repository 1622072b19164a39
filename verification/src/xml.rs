//! Component XML as `ibus-daemon` reads it when it discovers engines.
use vstd::prelude::*;

use quick_xml::events::Event::{Comment, Decl, Empty, End, Start, Text};
use quick_xml::events::{BytesDecl, BytesEnd, BytesStart, BytesText};
use quick_xml::Writer;

use crate::component::{Component, ComponentModel, EngineDesc, EngineDescModel};
use crate::strings::{decimal, join, join_strings, string_push, strings_model, u32_to_decimal};

verus! {

/// One step of writing an XML document, in document order.
pub enum XmlNode {
    /// The `<?xml ...?>` declaration with its version and encoding.
    Declaration(String, String),
    /// A comment.
    Comment(String),
    /// An opening tag.
    Start(String),
    /// Character data.
    Text(String),
    /// A closing tag.
    End(String),
    /// A tag without content, with its attributes (name, value) in order.
    Empty(String, Vec<(String, String)>),
}

/// The mathematical content of an [`XmlNode`].
pub enum XmlNodeView {
    Declaration(Seq<char>, Seq<char>),
    Comment(Seq<char>),
    Start(Seq<char>),
    Text(Seq<char>),
    End(Seq<char>),
    Empty(Seq<char>, Seq<(Seq<char>, Seq<char>)>),
}

/// The views of attribute pairs.
pub open spec fn attributes_view(a: Seq<(String, String)>) -> Seq<(Seq<char>, Seq<char>)> {
    a.map_values(|p: (String, String)| (p.0@, p.1@))
}

impl View for XmlNode {
    type V = XmlNodeView;

    open spec fn view(&self) -> XmlNodeView {
        match self {
            XmlNode::Declaration(v, e) => XmlNodeView::Declaration(v@, e@),
            XmlNode::Comment(t) => XmlNodeView::Comment(t@),
            XmlNode::Start(n) => XmlNodeView::Start(n@),
            XmlNode::Text(t) => XmlNodeView::Text(t@),
            XmlNode::End(n) => XmlNodeView::End(n@),
            XmlNode::Empty(n, a) => XmlNodeView::Empty(n@, attributes_view(a@)),
        }
    }
}

/// The views of a sequence of nodes.
pub open spec fn nodes_view(s: Seq<XmlNode>) -> Seq<XmlNodeView> {
    s.map_values(|n: XmlNode| n@)
}

/// The document that `quick_xml`'s indenting writer produces for the nodes,
/// indenting each nesting level by `indent_size` copies of `indent_char`.
pub uninterp spec fn xml_document(nodes: Seq<XmlNodeView>, indent_char: u8, indent_size: usize) -> Seq<char>;

/// Render nodes as an XML document.
///
/// Trusted: a `quick_xml::Writer` made by `Writer::new_with_indent(Vec::new(),
/// indent_char, indent_size)` is handed each node in order, as the matching
/// `quick_xml::events::Event`, through `Writer::write_event`; the bytes it wrote
/// are returned as a string. The writer escapes text, comments and attribute
/// values itself and breaks lines and indents by nesting depth, so the
/// document is a function of the nodes and the indentation, named
/// `xml_document`; nothing more of its content is stated. Writing into a
/// `Vec<u8>` does not fail and the output is UTF-8.
#[verifier::external_body]
fn render_xml(nodes: &Vec<XmlNode>, indent_char: u8, indent_size: usize) -> (doc: String)
    ensures
        doc@ == xml_document(nodes_view(nodes@), indent_char, indent_size),
{
    let mut w = Writer::new_with_indent(Vec::new(), indent_char, indent_size);
    for n in nodes {
        let _ = w.write_event(match n {
            XmlNode::Declaration(v, e) => Decl(BytesDecl::new(v, Some(&**e), None)),
            XmlNode::Comment(t) => Comment(BytesText::new(t)),
            XmlNode::Start(t) => Start(BytesStart::new(t)),
            XmlNode::Text(t) => Text(BytesText::new(t)),
            XmlNode::End(t) => End(BytesEnd::new(t)),
            XmlNode::Empty(t, a) => Empty(BytesStart::new(t).with_attributes(a.iter().map(|p| (&*p.0, &*p.1)))),
        });
    }
    String::from_utf8(w.into_inner()).unwrap_or_default()
}

/// The entity that stands for a character in XML, or the character itself.
pub open spec fn escape_char(c: char) -> Seq<char> {
    if c == '&' {
        seq!['&', 'a', 'm', 'p', ';']
    } else if c == '<' {
        seq!['&', 'l', 't', ';']
    } else if c == '>' {
        seq!['&', 'g', 't', ';']
    } else if c == '"' {
        seq!['&', 'q', 'u', 'o', 't', ';']
    } else if c == '\'' {
        seq!['&', 'a', 'p', 'o', 's', ';']
    } else {
        seq![c]
    }
}

/// A string with `&`, `<`, `>`, `"` and `'` replaced by their entities.
pub open spec fn escape_text(s: Seq<char>) -> Seq<char>
    decreases s.len(),
{
    if s.len() == 0 {
        Seq::empty()
    } else {
        escape_text(s.drop_last()) + escape_char(s.last())
    }
}

/// Replace `&`, `<`, `>`, `"` and `'` by their XML entities.
pub fn escape_xml(s: &str) -> (r: String)
    ensures
        r@ == escape_text(s@),
{
    let mut out = String::new();
    let n = s.unicode_len();
    let mut i: usize = 0;
    while i < n
        invariant
            i <= n,
            n == s@.len(),
            out@ == escape_text(s@.take(i as int)),
        decreases n - i,
    {
        let c = s.get_char(i);
        if c == '&' {
            out.append("&amp;");
        } else if c == '<' {
            out.append("&lt;");
        } else if c == '>' {
            out.append("&gt;");
        } else if c == '"' {
            out.append("&quot;");
        } else if c == '\'' {
            out.append("&apos;");
        } else {
            string_push(&mut out, c);
        }
        proof {
            reveal_strlit("&amp;");
            reveal_strlit("&lt;");
            reveal_strlit("&gt;");
            reveal_strlit("&quot;");
            reveal_strlit("&apos;");
            let t = s@.take(i as int + 1);
            assert(t.drop_last() =~= s@.take(i as int));
            assert(t.last() == c);
            if c != '&' && c != '<' && c != '>' && c != '"' && c != '\'' {
                assert(out@ =~= escape_text(s@.take(i as int)) + seq![c]);
            }
            assert(out@ =~= escape_text(t));
        }
        i = i + 1;
    }
    proof {
        assert(s@.take(n as int) =~= s@);
    }
    out
}

/// The nodes of an element holding escaped text, written after `acc`.
pub open spec fn with_element(acc: Seq<XmlNodeView>, tag: Seq<char>, value: Seq<char>) -> Seq<XmlNodeView> {
    acc + seq![XmlNodeView::Start(tag), XmlNodeView::Text(escape_text(value)), XmlNodeView::End(tag)]
}

/// [`with_element`] when the value is not empty; `acc` otherwise.
pub open spec fn with_optional_element(acc: Seq<XmlNodeView>, tag: Seq<char>, value: Seq<char>) -> Seq<XmlNodeView> {
    if value.len() == 0 {
        acc
    } else {
        with_element(acc, tag, value)
    }
}

/// Whether an engine's layout is written: it is neither empty nor the default `us`.
pub open spec fn layout_written(layout: Seq<char>) -> bool {
    layout.len() > 0 && layout != seq!['u', 's']
}

/// The nodes of an `<engine>` element, written after `acc`: name, longname,
/// description and language always; license, author and icon when set; the
/// layout unless it is empty or `us`; the hotkeys joined with commas when there
/// are any; the rank in decimal; symbol, setup, layout variants and layout
/// option when set; the version; the text domain when set.
pub open spec fn with_engine(acc: Seq<XmlNodeView>, e: EngineDescModel) -> Seq<XmlNodeView> {
    let a = acc.push(XmlNodeView::Start("engine"@));
    let a = with_element(a, "name"@, e.name);
    let a = with_element(a, "longname"@, e.longname);
    let a = with_element(a, "description"@, e.description);
    let a = with_element(a, "language"@, e.language);
    let a = with_optional_element(a, "license"@, e.license);
    let a = with_optional_element(a, "author"@, e.author);
    let a = with_optional_element(a, "icon"@, e.icon);
    let a = if layout_written(e.layout) { with_element(a, "layout"@, e.layout) } else { a };
    let a = if e.hotkeys.len() > 0 { with_element(a, "hotkeys"@, join(e.hotkeys, ","@)) } else { a };
    let a = with_element(a, "rank"@, decimal(e.rank as nat));
    let a = with_optional_element(a, "symbol"@, e.symbol);
    let a = with_optional_element(a, "setup"@, e.setup);
    let a = with_optional_element(a, "layout_variants"@, e.layout_variants);
    let a = with_optional_element(a, "layout_option"@, e.layout_option);
    let a = with_element(a, "version"@, e.version);
    let a = with_optional_element(a, "textdomain"@, e.text_domain);
    a.push(XmlNodeView::End("engine"@))
}

/// The `<engine>` elements of the engines in order, written after `acc`.
pub open spec fn with_engines(acc: Seq<XmlNodeView>, engines: Seq<EngineDescModel>) -> Seq<XmlNodeView>
    decreases engines.len(),
{
    if engines.len() == 0 {
        acc
    } else {
        with_engine(with_engines(acc, engines.drop_last()), engines.last())
    }
}

/// The `<watch>` elements of the paths in order (their text is not
/// pre-escaped), written after `acc`.
pub open spec fn with_watch_paths(acc: Seq<XmlNodeView>, paths: Seq<Seq<char>>) -> Seq<XmlNodeView>
    decreases paths.len(),
{
    if paths.len() == 0 {
        acc
    } else {
        with_watch_paths(acc, paths.drop_last()) + seq![
            XmlNodeView::Start("watch"@),
            XmlNodeView::Text(paths.last()),
            XmlNodeView::End("watch"@),
        ]
    }
}

/// The escaped executable arguments.
pub open spec fn escaped_args(args: Seq<Seq<char>>) -> Seq<Seq<char>> {
    args.map_values(|a: Seq<char>| escape_text(a))
}

/// The attributes of the `<exec/>` tag: the escaped path as `exec` when it is
/// not empty, then the escaped arguments joined with spaces as `args` when
/// there are any.
pub open spec fn exec_attributes(path: Seq<char>, args: Seq<Seq<char>>) -> Seq<(Seq<char>, Seq<char>)> {
    let a = if path.len() > 0 { seq![("exec"@, escape_text(path))] } else { Seq::empty() };
    if args.len() > 0 { a.push(("args"@, join(escaped_args(args), " "@))) } else { a }
}

/// The comment that names the component's file.
pub open spec fn filename_comment(name: Seq<char>) -> Seq<char> {
    " filename: "@ + name + ".xml "@
}

/// The nodes of a component's XML document: the declaration (version 1.0,
/// utf-8), a comment naming the file, and the `<component>` element with
/// name, description, version, license, author and homepage, the text domain
/// when set, the `<exec/>` tag, the watched paths and the engines.
pub open spec fn component_nodes(c: ComponentModel) -> Seq<XmlNodeView> {
    let a = seq![
        XmlNodeView::Declaration("1.0"@, "utf-8"@),
        XmlNodeView::Comment(filename_comment(c.name)),
        XmlNodeView::Start("component"@),
    ];
    let a = with_element(a, "name"@, c.name);
    let a = with_element(a, "description"@, c.description);
    let a = with_element(a, "version"@, c.version);
    let a = with_element(a, "license"@, c.license);
    let a = with_element(a, "author"@, c.author);
    let a = with_element(a, "homepage"@, c.homepage);
    let a = with_optional_element(a, "textdomain"@, c.text_domain);
    let a = a.push(XmlNodeView::Empty("exec"@, exec_attributes(c.exec_path, c.exec_args)));
    let a = with_watch_paths(a, c.watch_paths);
    let a = with_engines(a, c.engines);
    a.push(XmlNodeView::End("component"@))
}

/// Append a node.
fn push_node(nodes: &mut Vec<XmlNode>, node: XmlNode)
    ensures
        nodes_view(final(nodes)@) == nodes_view(old(nodes)@).push(node@),
{
    let ghost v = node@;
    nodes.push(node);
    assert(nodes_view(nodes@) =~= nodes_view(old(nodes)@).push(v));
}

/// Append an element holding the escaped value.
fn write_element(nodes: &mut Vec<XmlNode>, tag: &str, value: &str)
    ensures
        nodes_view(final(nodes)@) == with_element(nodes_view(old(nodes)@), tag@, value@),
{
    let escaped = escape_xml(value);
    push_node(nodes, XmlNode::Start(tag.to_owned()));
    push_node(nodes, XmlNode::Text(escaped));
    push_node(nodes, XmlNode::End(tag.to_owned()));
    assert(nodes_view(nodes@) =~= with_element(nodes_view(old(nodes)@), tag@, value@));
}

/// Append an element holding the escaped value, unless the value is empty.
fn write_optional_element(nodes: &mut Vec<XmlNode>, tag: &str, value: &str)
    ensures
        nodes_view(final(nodes)@) == with_optional_element(nodes_view(old(nodes)@), tag@, value@),
{
    if !value.is_empty() {
        write_element(nodes, tag, value);
    }
}

/// Append the `<engine>` element of an engine description.
fn write_engine(nodes: &mut Vec<XmlNode>, engine: &EngineDesc)
    ensures
        nodes_view(final(nodes)@) == with_engine(nodes_view(old(nodes)@), engine@),
{
    let e = engine;
    push_node(nodes, XmlNode::Start("engine".to_owned()));
    write_element(nodes, "name", e.name.as_str());
    write_element(nodes, "longname", e.longname.as_str());
    write_element(nodes, "description", e.description.as_str());
    write_element(nodes, "language", e.language.as_str());
    write_optional_element(nodes, "license", e.license.as_str());
    write_optional_element(nodes, "author", e.author.as_str());
    write_optional_element(nodes, "icon", e.icon.as_str());
    let us = "us".to_owned();
    proof {
        reveal_strlit("us");
        assert(us@ =~= seq!['u', 's']);
    }
    if !e.layout.as_str().is_empty() && e.layout != us {
        write_element(nodes, "layout", e.layout.as_str());
    }
    if e.hotkeys.len() > 0 {
        let hotkeys = join_strings(&e.hotkeys, ",");
        write_element(nodes, "hotkeys", hotkeys.as_str());
    }
    let rank = u32_to_decimal(e.rank);
    write_element(nodes, "rank", rank.as_str());
    write_optional_element(nodes, "symbol", e.symbol.as_str());
    write_optional_element(nodes, "setup", e.setup.as_str());
    write_optional_element(nodes, "layout_variants", e.layout_variants.as_str());
    write_optional_element(nodes, "layout_option", e.layout_option.as_str());
    write_element(nodes, "version", e.version.as_str());
    write_optional_element(nodes, "textdomain", e.text_domain.as_str());
    push_node(nodes, XmlNode::End("engine".to_owned()));
}

/// The escaped arguments joined with spaces.
fn escaped_args_joined(args: &Vec<String>) -> (r: String)
    ensures
        r@ == join(escaped_args(strings_model(args@)), " "@),
{
    let mut escaped: Vec<String> = Vec::new();
    let mut i: usize = 0;
    while i < args.len()
        invariant
            i <= args@.len(),
            strings_model(escaped@) =~= escaped_args(strings_model(args@.subrange(0, i as int))),
        decreases args@.len() - i,
    {
        let a = escape_xml(args[i].as_str());
        proof {
            assert(strings_model(escaped@.push(a)) =~= strings_model(escaped@).push(a@));
            assert(escaped_args(strings_model(args@.subrange(0, i as int + 1))) =~= escaped_args(
                strings_model(args@.subrange(0, i as int)),
            ).push(escape_text(args@[i as int]@)));
        }
        escaped.push(a);
        i = i + 1;
    }
    proof {
        assert(args@.subrange(0, args@.len() as int) =~= args@);
    }
    join_strings(&escaped, " ")
}

/// The `<exec/>` tag of a component.
fn exec_node(path: &String, args: &Vec<String>) -> (n: XmlNode)
    ensures
        n@ == XmlNodeView::Empty("exec"@, exec_attributes(path@, strings_model(args@))),
{
    let mut attrs: Vec<(String, String)> = Vec::new();
    if !path.as_str().is_empty() {
        let v = escape_xml(path.as_str());
        attrs.push(("exec".to_owned(), v));
    }
    if args.len() > 0 {
        let v = escaped_args_joined(args);
        attrs.push(("args".to_owned(), v));
    }
    assert(attributes_view(attrs@) =~= exec_attributes(path@, strings_model(args@)));
    XmlNode::Empty("exec".to_owned(), attrs)
}

/// The nodes of a component's XML document, in order.
pub fn component_xml_nodes(component: &Component) -> (nodes: Vec<XmlNode>)
    ensures
        nodes_view(nodes@) == component_nodes(component@),
{
    let c = component;
    let mut nodes: Vec<XmlNode> = Vec::new();
    let mut comment = String::new();
    comment.append(" filename: ");
    comment.append(c.name.as_str());
    comment.append(".xml ");
    push_node(&mut nodes, XmlNode::Declaration("1.0".to_owned(), "utf-8".to_owned()));
    push_node(&mut nodes, XmlNode::Comment(comment));
    push_node(&mut nodes, XmlNode::Start("component".to_owned()));
    assert(nodes_view(nodes@) =~= seq![
        XmlNodeView::Declaration("1.0"@, "utf-8"@),
        XmlNodeView::Comment(filename_comment(c.name@)),
        XmlNodeView::Start("component"@),
    ]);
    write_element(&mut nodes, "name", c.name.as_str());
    write_element(&mut nodes, "description", c.description.as_str());
    write_element(&mut nodes, "version", c.version.as_str());
    write_element(&mut nodes, "license", c.license.as_str());
    write_element(&mut nodes, "author", c.author.as_str());
    write_element(&mut nodes, "homepage", c.homepage.as_str());
    write_optional_element(&mut nodes, "textdomain", c.text_domain.as_str());
    push_node(&mut nodes, exec_node(&c.exec_path, &c.exec_args));
    let ghost before_watch = nodes_view(nodes@);
    let mut i: usize = 0;
    while i < c.watch_paths.len()
        invariant
            i <= c.watch_paths@.len(),
            nodes_view(nodes@) == with_watch_paths(
                before_watch,
                strings_model(c.watch_paths@.subrange(0, i as int)),
            ),
        decreases c.watch_paths@.len() - i,
    {
        let ghost prev = nodes_view(nodes@);
        push_node(&mut nodes, XmlNode::Start("watch".to_owned()));
        push_node(&mut nodes, XmlNode::Text(c.watch_paths[i].clone()));
        push_node(&mut nodes, XmlNode::End("watch".to_owned()));
        proof {
            let p = strings_model(c.watch_paths@.subrange(0, i as int + 1));
            assert(p.drop_last() =~= strings_model(c.watch_paths@.subrange(0, i as int)));
            assert(nodes_view(nodes@) =~= prev + seq![
                XmlNodeView::Start("watch"@),
                XmlNodeView::Text(p.last()),
                XmlNodeView::End("watch"@),
            ]);
        }
        i = i + 1;
    }
    proof {
        assert(c.watch_paths@.subrange(0, c.watch_paths@.len() as int) =~= c.watch_paths@);
    }
    let ghost before_engines = nodes_view(nodes@);
    let mut j: usize = 0;
    while j < c.engines.len()
        invariant
            j <= c.engines@.len(),
            nodes_view(nodes@) == with_engines(
                before_engines,
                crate::component::engines_model(c.engines@.subrange(0, j as int)),
            ),
        decreases c.engines@.len() - j,
    {
        write_engine(&mut nodes, &c.engines[j]);
        proof {
            let p = crate::component::engines_model(c.engines@.subrange(0, j as int + 1));
            assert(p.drop_last() =~= crate::component::engines_model(c.engines@.subrange(0, j as int)));
        }
        j = j + 1;
    }
    proof {
        assert(c.engines@.subrange(0, c.engines@.len() as int) =~= c.engines@);
    }
    push_node(&mut nodes, XmlNode::End("component".to_owned()));
    nodes
}

/// Serialize an IBus component definition to XML, in the component file
/// format that `ibus-daemon` reads to discover input method engines,
/// indented by two spaces per level.
pub fn component_to_xml(component: &Component) -> (xml: String)
    ensures
        xml@ == xml_document(component_nodes(component@), 32u8, 2usize),
{
    let nodes = component_xml_nodes(component);
    render_xml(&nodes, 32u8, 2usize)
}

/// Whether a string holds none of `<`, `>`, `"` and `'`.
pub open spec fn free_of_markup(s: Seq<char>) -> bool {
    forall|i: int| 0 <= i < s.len() ==> s[i] != '<' && s[i] != '>' && s[i] != '"' && s[i] != '\''
}

/// Whether a string holds none of the characters that escaping replaces.
pub open spec fn free_of_specials(s: Seq<char>) -> bool {
    free_of_markup(s) && forall|i: int| 0 <= i < s.len() ==> s[i] != '&'
}

/// Escaped text holds none of `<`, `>`, `"` and `'`.
pub proof fn law_escape_leaves_no_markup(s: Seq<char>)
    ensures
        free_of_markup(escape_text(s)),
    decreases s.len(),
{
    if s.len() > 0 {
        law_escape_leaves_no_markup(s.drop_last());
        let a = escape_text(s.drop_last());
        let b = escape_char(s.last());
        let e = escape_text(s);
        assert(e == a + b);
        assert forall|i: int| 0 <= i < e.len() implies e[i] != '<' && e[i] != '>' && e[i] != '"' && e[i] != '\'' by {
            if i >= a.len() {
                assert(e[i] == b[i - a.len()]);
            }
        }
    }
}

/// Escaping leaves text without special characters as it is.
pub proof fn law_escape_keeps_plain_text(s: Seq<char>)
    requires
        free_of_specials(s),
    ensures
        escape_text(s) == s,
    decreases s.len(),
{
    if s.len() > 0 {
        assert(free_of_specials(s.drop_last()));
        law_escape_keeps_plain_text(s.drop_last());
        assert(s.drop_last().push(s.last()) =~= s);
        assert(escape_char(s.last()) == seq![s.last()]);
        assert(s.drop_last() + seq![s.last()] =~= s);
    }
}

/// The elements left open after writing the nodes in order, innermost last;
/// `None` once an end tag does not close the innermost open element.
pub open spec fn open_elements(nodes: Seq<XmlNodeView>) -> Option<Seq<Seq<char>>>
    decreases nodes.len(),
{
    if nodes.len() == 0 {
        Some(Seq::empty())
    } else {
        match open_elements(nodes.drop_last()) {
            None => None,
            Some(open) => match nodes.last() {
                XmlNodeView::Start(t) => Some(open.push(t)),
                XmlNodeView::End(t) => if open.len() > 0 && open.last() == t {
                    Some(open.drop_last())
                } else {
                    None
                },
                _ => Some(open),
            },
        }
    }
}

proof fn lemma_open_push(a: Seq<XmlNodeView>, x: XmlNodeView)
    ensures
        open_elements(a.push(x)) == (match open_elements(a) {
            None => None,
            Some(open) => match x {
                XmlNodeView::Start(t) => Some(open.push(t)),
                XmlNodeView::End(t) => if open.len() > 0 && open.last() == t {
                    Some(open.drop_last())
                } else {
                    None
                },
                _ => Some(open),
            },
        }),
{
    assert(a.push(x).drop_last() =~= a);
}

/// An opening tag, one node that is no tag, and the matching closing tag
/// leave the open elements as they were.
proof fn lemma_open_balanced(acc: Seq<XmlNodeView>, tag: Seq<char>, inner: XmlNodeView)
    requires
        !(inner is Start) && !(inner is End),
    ensures
        open_elements(acc + seq![XmlNodeView::Start(tag), inner, XmlNodeView::End(tag)])
            == open_elements(acc),
{
    let a1 = acc.push(XmlNodeView::Start(tag));
    let a2 = a1.push(inner);
    let a3 = a2.push(XmlNodeView::End(tag));
    assert(a3 =~= acc + seq![XmlNodeView::Start(tag), inner, XmlNodeView::End(tag)]);
    lemma_open_push(acc, XmlNodeView::Start(tag));
    lemma_open_push(a1, inner);
    lemma_open_push(a2, XmlNodeView::End(tag));
    match open_elements(acc) {
        Some(open) => {
            assert(open.push(tag).drop_last() =~= open);
        },
        None => {},
    }
}

proof fn lemma_open_optional(acc: Seq<XmlNodeView>, tag: Seq<char>, value: Seq<char>)
    ensures
        open_elements(with_element(acc, tag, value)) == open_elements(acc),
        open_elements(with_optional_element(acc, tag, value)) == open_elements(acc),
{
    lemma_open_balanced(acc, tag, XmlNodeView::Text(escape_text(value)));
}

proof fn lemma_open_engine(acc: Seq<XmlNodeView>, e: EngineDescModel)
    ensures
        open_elements(with_engine(acc, e)) == open_elements(acc),
{
    let a = acc.push(XmlNodeView::Start("engine"@));
    lemma_open_push(acc, XmlNodeView::Start("engine"@));
    let a1 = with_element(a, "name"@, e.name);
    lemma_open_optional(a, "name"@, e.name);
    let a2 = with_element(a1, "longname"@, e.longname);
    lemma_open_optional(a1, "longname"@, e.longname);
    let a3 = with_element(a2, "description"@, e.description);
    lemma_open_optional(a2, "description"@, e.description);
    let a4 = with_element(a3, "language"@, e.language);
    lemma_open_optional(a3, "language"@, e.language);
    let a5 = with_optional_element(a4, "license"@, e.license);
    lemma_open_optional(a4, "license"@, e.license);
    let a6 = with_optional_element(a5, "author"@, e.author);
    lemma_open_optional(a5, "author"@, e.author);
    let a7 = with_optional_element(a6, "icon"@, e.icon);
    lemma_open_optional(a6, "icon"@, e.icon);
    let a8 = if layout_written(e.layout) { with_element(a7, "layout"@, e.layout) } else { a7 };
    lemma_open_optional(a7, "layout"@, e.layout);
    let a9 = if e.hotkeys.len() > 0 { with_element(a8, "hotkeys"@, join(e.hotkeys, ","@)) } else { a8 };
    lemma_open_optional(a8, "hotkeys"@, join(e.hotkeys, ","@));
    let a10 = with_element(a9, "rank"@, decimal(e.rank as nat));
    lemma_open_optional(a9, "rank"@, decimal(e.rank as nat));
    let a11 = with_optional_element(a10, "symbol"@, e.symbol);
    lemma_open_optional(a10, "symbol"@, e.symbol);
    let a12 = with_optional_element(a11, "setup"@, e.setup);
    lemma_open_optional(a11, "setup"@, e.setup);
    let a13 = with_optional_element(a12, "layout_variants"@, e.layout_variants);
    lemma_open_optional(a12, "layout_variants"@, e.layout_variants);
    let a14 = with_optional_element(a13, "layout_option"@, e.layout_option);
    lemma_open_optional(a13, "layout_option"@, e.layout_option);
    let a15 = with_element(a14, "version"@, e.version);
    lemma_open_optional(a14, "version"@, e.version);
    let a16 = with_optional_element(a15, "textdomain"@, e.text_domain);
    lemma_open_optional(a15, "textdomain"@, e.text_domain);
    lemma_open_push(a16, XmlNodeView::End("engine"@));
    assert(with_engine(acc, e) == a16.push(XmlNodeView::End("engine"@)));
    match open_elements(acc) {
        Some(open) => {
            assert(open.push("engine"@).drop_last() =~= open);
        },
        None => {},
    }
}

proof fn lemma_open_engines(acc: Seq<XmlNodeView>, engines: Seq<EngineDescModel>)
    ensures
        open_elements(with_engines(acc, engines)) == open_elements(acc),
    decreases engines.len(),
{
    if engines.len() > 0 {
        lemma_open_engines(acc, engines.drop_last());
        lemma_open_engine(with_engines(acc, engines.drop_last()), engines.last());
    }
}

proof fn lemma_open_watch_paths(acc: Seq<XmlNodeView>, paths: Seq<Seq<char>>)
    ensures
        open_elements(with_watch_paths(acc, paths)) == open_elements(acc),
    decreases paths.len(),
{
    if paths.len() > 0 {
        lemma_open_watch_paths(acc, paths.drop_last());
        lemma_open_balanced(with_watch_paths(acc, paths.drop_last()), "watch"@, XmlNodeView::Text(paths.last()));
    }
}

/// The component document is well nested: every element opened is closed,
/// innermost first, and none is left open.
pub proof fn law_component_document_well_nested(c: ComponentModel)
    ensures
        open_elements(component_nodes(c)) == Some(Seq::<Seq<char>>::empty()),
{
    let a0 = seq![
        XmlNodeView::Declaration("1.0"@, "utf-8"@),
        XmlNodeView::Comment(filename_comment(c.name)),
        XmlNodeView::Start("component"@),
    ];
    let d = seq![XmlNodeView::Declaration("1.0"@, "utf-8"@)];
    let d2 = d.push(XmlNodeView::Comment(filename_comment(c.name)));
    assert(d.drop_last() =~= Seq::<XmlNodeView>::empty());
    lemma_open_push(Seq::<XmlNodeView>::empty(), XmlNodeView::Declaration("1.0"@, "utf-8"@));
    assert(Seq::<XmlNodeView>::empty().push(XmlNodeView::Declaration("1.0"@, "utf-8"@)) =~= d);
    lemma_open_push(d, XmlNodeView::Comment(filename_comment(c.name)));
    lemma_open_push(d2, XmlNodeView::Start("component"@));
    assert(d2.push(XmlNodeView::Start("component"@)) =~= a0);
    let top = seq!["component"@];
    assert(Seq::<Seq<char>>::empty().push("component"@) =~= top);
    assert(open_elements(a0) == Some(top));
    let a1 = with_element(a0, "name"@, c.name);
    lemma_open_optional(a0, "name"@, c.name);
    let a2 = with_element(a1, "description"@, c.description);
    lemma_open_optional(a1, "description"@, c.description);
    let a3 = with_element(a2, "version"@, c.version);
    lemma_open_optional(a2, "version"@, c.version);
    let a4 = with_element(a3, "license"@, c.license);
    lemma_open_optional(a3, "license"@, c.license);
    let a5 = with_element(a4, "author"@, c.author);
    lemma_open_optional(a4, "author"@, c.author);
    let a6 = with_element(a5, "homepage"@, c.homepage);
    lemma_open_optional(a5, "homepage"@, c.homepage);
    let a7 = with_optional_element(a6, "textdomain"@, c.text_domain);
    lemma_open_optional(a6, "textdomain"@, c.text_domain);
    let x = XmlNodeView::Empty("exec"@, exec_attributes(c.exec_path, c.exec_args));
    let a8 = a7.push(x);
    lemma_open_push(a7, x);
    let a9 = with_watch_paths(a8, c.watch_paths);
    lemma_open_watch_paths(a8, c.watch_paths);
    let a10 = with_engines(a9, c.engines);
    lemma_open_engines(a9, c.engines);
    lemma_open_push(a10, XmlNodeView::End("component"@));
    assert(component_nodes(c) == a10.push(XmlNodeView::End("component"@)));
    assert(top.drop_last() =~= Seq::<Seq<char>>::empty());
}


/// Whether the nodes from position `from` on hold the element `tag` whose
/// text is the escaped `value`.
#[verifier::opaque]
pub open spec fn holds_element(s: Seq<XmlNodeView>, from: int, tag: Seq<char>, value: Seq<char>) -> bool {
    exists|i: int|
        0 <= from <= i && i + 3 <= s.len() && #[trigger] s[i] == XmlNodeView::Start(tag) && s[i + 1]
            == XmlNodeView::Text(escape_text(value)) && s[i + 2] == XmlNodeView::End(tag)
}

/// Whether the nodes from position `from` on hold every (tag, value) element of `reqs`.
#[verifier::opaque]
pub open spec fn holds_all(s: Seq<XmlNodeView>, from: int, reqs: Set<(Seq<char>, Seq<char>)>) -> bool {
    forall|p: (Seq<char>, Seq<char>)| #[trigger] reqs.contains(p) ==> holds_element(s, from, p.0, p.1)
}

/// Whether `s` begins with the nodes of `base`.
#[verifier::opaque]
pub open spec fn begins_with(s: Seq<XmlNodeView>, base: Seq<XmlNodeView>) -> bool {
    base.len() <= s.len() && forall|i: int| 0 <= i < base.len() ==> #[trigger] s[i] == base[i]
}

/// Every field of an engine that is written is held, from position `from`
/// on, as an element with the field's escaped text: name, longname,
/// description, language, rank and version always; the others when set
/// (the layout unless it is `us`, the hotkeys joined with commas).
pub open spec fn engine_fields_held(s: Seq<XmlNodeView>, from: int, e: EngineDescModel) -> bool {
    &&& holds_element(s, from, "name"@, e.name)
    &&& holds_element(s, from, "longname"@, e.longname)
    &&& holds_element(s, from, "description"@, e.description)
    &&& holds_element(s, from, "language"@, e.language)
    &&& holds_element(s, from, "rank"@, decimal(e.rank as nat))
    &&& holds_element(s, from, "version"@, e.version)
    &&& e.license.len() > 0 ==> holds_element(s, from, "license"@, e.license)
    &&& e.author.len() > 0 ==> holds_element(s, from, "author"@, e.author)
    &&& e.icon.len() > 0 ==> holds_element(s, from, "icon"@, e.icon)
    &&& layout_written(e.layout) ==> holds_element(s, from, "layout"@, e.layout)
    &&& e.hotkeys.len() > 0 ==> holds_element(s, from, "hotkeys"@, join(e.hotkeys, ","@))
    &&& e.symbol.len() > 0 ==> holds_element(s, from, "symbol"@, e.symbol)
    &&& e.setup.len() > 0 ==> holds_element(s, from, "setup"@, e.setup)
    &&& e.layout_variants.len() > 0 ==> holds_element(s, from, "layout_variants"@, e.layout_variants)
    &&& e.layout_option.len() > 0 ==> holds_element(s, from, "layout_option"@, e.layout_option)
    &&& e.text_domain.len() > 0 ==> holds_element(s, from, "textdomain"@, e.text_domain)
}

/// An element held in some nodes is still held once more nodes follow.
proof fn lemma_holds_grow(a: Seq<XmlNodeView>, b: Seq<XmlNodeView>, from: int, tag: Seq<char>, value: Seq<char>)
    requires
        begins_with(b, a),
        holds_element(a, from, tag, value),
    ensures
        holds_element(b, from, tag, value),
{
    reveal(begins_with);
    reveal(holds_element);
    let i = choose|i: int|
        0 <= from <= i && i + 3 <= a.len() && #[trigger] a[i] == XmlNodeView::Start(tag) && a[i + 1]
            == XmlNodeView::Text(escape_text(value)) && a[i + 2] == XmlNodeView::End(tag);
    assert(b[i] == a[i] && b[i + 1] == a[i + 1] && b[i + 2] == a[i + 2]);
}

/// Facts about what nodes begin with and hold.
proof fn lemma_begins_and_holds(s: Seq<XmlNodeView>, from: int)
    ensures
        begins_with(s, s),
        holds_all(s, from, Set::empty()),
{
    reveal(begins_with);
    reveal(holds_all);
}

/// Reading one held element, or one node of what the nodes begin with.
proof fn lemma_read_held(s: Seq<XmlNodeView>, base: Seq<XmlNodeView>, from: int, reqs: Set<(Seq<char>, Seq<char>)>)
    requires
        holds_all(s, from, reqs),
        begins_with(s, base),
    ensures
        forall|p: (Seq<char>, Seq<char>)| #[trigger] reqs.contains(p) ==> holds_element(s, from, p.0, p.1),
        base.len() <= s.len(),
        forall|i: int| 0 <= i < base.len() ==> #[trigger] s[i] == base[i],
{
    reveal(begins_with);
    reveal(holds_all);
}

/// Writing an element (when `written`) keeps what the nodes began with and
/// held, and adds that element.
proof fn lemma_write_step(
    a: Seq<XmlNodeView>,
    base: Seq<XmlNodeView>,
    from: int,
    reqs: Set<(Seq<char>, Seq<char>)>,
    tag: Seq<char>,
    value: Seq<char>,
    written: bool,
)
    requires
        begins_with(a, base),
        holds_all(a, from, reqs),
        0 <= from <= a.len(),
    ensures
        begins_with(if written { with_element(a, tag, value) } else { a }, base),
        holds_all(
            if written { with_element(a, tag, value) } else { a },
            from,
            if written { reqs.insert((tag, value)) } else { reqs },
        ),
        from <= (if written { with_element(a, tag, value) } else { a }).len(),
{
    reveal(begins_with);
    reveal(holds_all);
    reveal(holds_element);
    if written {
        let b = with_element(a, tag, value);
        assert forall|i: int| 0 <= i < base.len() implies #[trigger] b[i] == base[i] by {
            assert(b[i] == a[i]);
        }
        assert(begins_with(b, a));
        assert forall|p: (Seq<char>, Seq<char>)| #[trigger] reqs.insert((tag, value)).contains(p) implies holds_element(
            b,
            from,
            p.0,
            p.1,
        ) by {
            if p == (tag, value) {
                let i = a.len() as int;
                assert(b[i] == XmlNodeView::Start(tag));
                assert(b[i + 1] == XmlNodeView::Text(escape_text(value)));
                assert(b[i + 2] == XmlNodeView::End(tag));
            } else {
                lemma_holds_grow(a, b, from, p.0, p.1);
            }
        }
    }
}

/// Appending one node keeps what the nodes began with and held.
proof fn lemma_push_step(
    a: Seq<XmlNodeView>,
    base: Seq<XmlNodeView>,
    from: int,
    reqs: Set<(Seq<char>, Seq<char>)>,
    x: XmlNodeView,
)
    requires
        begins_with(a, base),
        holds_all(a, from, reqs),
        0 <= from <= a.len(),
    ensures
        begins_with(a.push(x), base),
        holds_all(a.push(x), from, reqs),
        from <= a.push(x).len(),
{
    reveal(begins_with);
    reveal(holds_all);
    let b = a.push(x);
    assert forall|i: int| 0 <= i < a.len() implies #[trigger] b[i] == a[i] by {}
    assert(begins_with(b, a));
    assert forall|p: (Seq<char>, Seq<char>)| #[trigger] reqs.contains(p) implies holds_element(b, from, p.0, p.1) by {
        lemma_holds_grow(a, b, from, p.0, p.1);
    }
}

/// The opening of an `<engine>` element: its tag, then its name, longname,
/// description and language elements.
proof fn lemma_engine_head(acc: Seq<XmlNodeView>, e: EngineDescModel) -> (a4: Seq<XmlNodeView>)
    ensures
        a4 == with_element(
            with_element(
                with_element(with_element(acc.push(XmlNodeView::Start("engine"@)), "name"@, e.name), "longname"@, e.longname),
                "description"@,
                e.description,
            ),
            "language"@,
            e.language,
        ),
        a4.len() == acc.len() + 13,
        a4.subrange(0, acc.len() as int) == acc,
        a4.subrange(acc.len() as int, acc.len() as int + 13) == engine_head(e),
        holds_all(a4, acc.len() as int, engine_head_fields(e)),
        begins_with(a4, a4),
{
    let from = acc.len() as int;
    let r0 = Set::<(Seq<char>, Seq<char>)>::empty();
    lemma_begins_and_holds(acc, from);
    let a = acc.push(XmlNodeView::Start("engine"@));
    lemma_push_step(acc, acc, from, r0, XmlNodeView::Start("engine"@));
    lemma_write_step(a, acc, from, r0, "name"@, e.name, true);
    let a1 = with_element(a, "name"@, e.name);
    let r1 = r0.insert(("name"@, e.name));
    lemma_write_step(a1, acc, from, r1, "longname"@, e.longname, true);
    let a2 = with_element(a1, "longname"@, e.longname);
    let r2 = r1.insert(("longname"@, e.longname));
    lemma_write_step(a2, acc, from, r2, "description"@, e.description, true);
    let a3 = with_element(a2, "description"@, e.description);
    let r3 = r2.insert(("description"@, e.description));
    lemma_write_step(a3, acc, from, r3, "language"@, e.language, true);
    let a4 = with_element(a3, "language"@, e.language);
    let r4 = r3.insert(("language"@, e.language));
    assert(r4 =~= engine_head_fields(e));
    assert(a4.subrange(0, from) =~= acc);
    assert(a4.subrange(from, from + 13) =~= engine_head(e));
    lemma_begins_and_holds(a4, from);
    a4
}

/// The first nodes of an `<engine>` element.
pub open spec fn engine_head(e: EngineDescModel) -> Seq<XmlNodeView> {
    seq![
        XmlNodeView::Start("engine"@),
        XmlNodeView::Start("name"@),
        XmlNodeView::Text(escape_text(e.name)),
        XmlNodeView::End("name"@),
        XmlNodeView::Start("longname"@),
        XmlNodeView::Text(escape_text(e.longname)),
        XmlNodeView::End("longname"@),
        XmlNodeView::Start("description"@),
        XmlNodeView::Text(escape_text(e.description)),
        XmlNodeView::End("description"@),
        XmlNodeView::Start("language"@),
        XmlNodeView::Text(escape_text(e.language)),
        XmlNodeView::End("language"@),
    ]
}

/// The (tag, value) pairs of the elements that open an engine.
pub open spec fn engine_head_fields(e: EngineDescModel) -> Set<(Seq<char>, Seq<char>)> {
    set![("name"@, e.name), ("longname"@, e.longname), ("description"@, e.description), ("language"@, e.language)]
}

/// The optional elements from the license to the hotkeys, written after `a`.
pub open spec fn engine_middle(a: Seq<XmlNodeView>, e: EngineDescModel) -> Seq<XmlNodeView> {
    let a5 = with_optional_element(a, "license"@, e.license);
    let a6 = with_optional_element(a5, "author"@, e.author);
    let a7 = with_optional_element(a6, "icon"@, e.icon);
    let a8 = if layout_written(e.layout) { with_element(a7, "layout"@, e.layout) } else { a7 };
    if e.hotkeys.len() > 0 { with_element(a8, "hotkeys"@, join(e.hotkeys, ","@)) } else { a8 }
}

/// The elements from the rank to the text domain, written after `a`.
pub open spec fn engine_last_fields(a: Seq<XmlNodeView>, e: EngineDescModel) -> Seq<XmlNodeView> {
    let a10 = with_element(a, "rank"@, decimal(e.rank as nat));
    let a11 = with_optional_element(a10, "symbol"@, e.symbol);
    let a12 = with_optional_element(a11, "setup"@, e.setup);
    let a13 = with_optional_element(a12, "layout_variants"@, e.layout_variants);
    let a14 = with_optional_element(a13, "layout_option"@, e.layout_option);
    let a15 = with_element(a14, "version"@, e.version);
    with_optional_element(a15, "textdomain"@, e.text_domain)
}

/// `r` with `p` added when `c` holds.
pub open spec fn add_if(r: Set<(Seq<char>, Seq<char>)>, c: bool, p: (Seq<char>, Seq<char>)) -> Set<(Seq<char>, Seq<char>)> {
    if c { r.insert(p) } else { r }
}

/// The elements that [`engine_middle`] writes.
pub open spec fn middle_fields(r: Set<(Seq<char>, Seq<char>)>, e: EngineDescModel) -> Set<(Seq<char>, Seq<char>)> {
    let r5 = add_if(r, e.license.len() > 0, ("license"@, e.license));
    let r6 = add_if(r5, e.author.len() > 0, ("author"@, e.author));
    let r7 = add_if(r6, e.icon.len() > 0, ("icon"@, e.icon));
    let r8 = add_if(r7, layout_written(e.layout), ("layout"@, e.layout));
    add_if(r8, e.hotkeys.len() > 0, ("hotkeys"@, join(e.hotkeys, ","@)))
}

/// The elements that [`engine_last_fields`] writes.
pub open spec fn last_fields(r: Set<(Seq<char>, Seq<char>)>, e: EngineDescModel) -> Set<(Seq<char>, Seq<char>)> {
    let r10 = r.insert(("rank"@, decimal(e.rank as nat)));
    let r11 = add_if(r10, e.symbol.len() > 0, ("symbol"@, e.symbol));
    let r12 = add_if(r11, e.setup.len() > 0, ("setup"@, e.setup));
    let r13 = add_if(r12, e.layout_variants.len() > 0, ("layout_variants"@, e.layout_variants));
    let r14 = add_if(r13, e.layout_option.len() > 0, ("layout_option"@, e.layout_option));
    let r15 = r14.insert(("version"@, e.version));
    add_if(r15, e.text_domain.len() > 0, ("textdomain"@, e.text_domain))
}

proof fn lemma_engine_middle(a: Seq<XmlNodeView>, base: Seq<XmlNodeView>, from: int, r: Set<(Seq<char>, Seq<char>)>, e: EngineDescModel)
    requires
        begins_with(a, base),
        holds_all(a, from, r),
        0 <= from <= a.len(),
    ensures
        begins_with(engine_middle(a, e), base),
        holds_all(engine_middle(a, e), from, middle_fields(r, e)),
        from <= engine_middle(a, e).len(),
{
    lemma_write_step(a, base, from, r, "license"@, e.license, e.license.len() > 0);
    let a5 = with_optional_element(a, "license"@, e.license);
    let r5 = add_if(r, e.license.len() > 0, ("license"@, e.license));
    lemma_write_step(a5, base, from, r5, "author"@, e.author, e.author.len() > 0);
    let a6 = with_optional_element(a5, "author"@, e.author);
    let r6 = add_if(r5, e.author.len() > 0, ("author"@, e.author));
    lemma_write_step(a6, base, from, r6, "icon"@, e.icon, e.icon.len() > 0);
    let a7 = with_optional_element(a6, "icon"@, e.icon);
    let r7 = add_if(r6, e.icon.len() > 0, ("icon"@, e.icon));
    lemma_write_step(a7, base, from, r7, "layout"@, e.layout, layout_written(e.layout));
    let a8 = if layout_written(e.layout) { with_element(a7, "layout"@, e.layout) } else { a7 };
    let r8 = add_if(r7, layout_written(e.layout), ("layout"@, e.layout));
    lemma_write_step(a8, base, from, r8, "hotkeys"@, join(e.hotkeys, ","@), e.hotkeys.len() > 0);
}

proof fn lemma_engine_last_fields(a: Seq<XmlNodeView>, base: Seq<XmlNodeView>, from: int, r: Set<(Seq<char>, Seq<char>)>, e: EngineDescModel)
    requires
        begins_with(a, base),
        holds_all(a, from, r),
        0 <= from <= a.len(),
    ensures
        begins_with(engine_last_fields(a, e), base),
        holds_all(engine_last_fields(a, e), from, last_fields(r, e)),
        from <= engine_last_fields(a, e).len(),
{
    let rk = decimal(e.rank as nat);
    lemma_write_step(a, base, from, r, "rank"@, rk, true);
    let a10 = with_element(a, "rank"@, rk);
    let r10 = r.insert(("rank"@, rk));
    lemma_write_step(a10, base, from, r10, "symbol"@, e.symbol, e.symbol.len() > 0);
    let a11 = with_optional_element(a10, "symbol"@, e.symbol);
    let r11 = add_if(r10, e.symbol.len() > 0, ("symbol"@, e.symbol));
    lemma_write_step(a11, base, from, r11, "setup"@, e.setup, e.setup.len() > 0);
    let a12 = with_optional_element(a11, "setup"@, e.setup);
    let r12 = add_if(r11, e.setup.len() > 0, ("setup"@, e.setup));
    lemma_write_step(a12, base, from, r12, "layout_variants"@, e.layout_variants, e.layout_variants.len() > 0);
    let a13 = with_optional_element(a12, "layout_variants"@, e.layout_variants);
    let r13 = add_if(r12, e.layout_variants.len() > 0, ("layout_variants"@, e.layout_variants));
    lemma_write_step(a13, base, from, r13, "layout_option"@, e.layout_option, e.layout_option.len() > 0);
    let a14 = with_optional_element(a13, "layout_option"@, e.layout_option);
    let r14 = add_if(r13, e.layout_option.len() > 0, ("layout_option"@, e.layout_option));
    lemma_write_step(a14, base, from, r14, "version"@, e.version, true);
    let a15 = with_element(a14, "version"@, e.version);
    let r15 = r14.insert(("version"@, e.version));
    lemma_write_step(a15, base, from, r15, "textdomain"@, e.text_domain, e.text_domain.len() > 0);
}

/// An `<engine>` element written after `acc` keeps `acc` in front, opens
/// with its tag and its name, longname, description and language elements
/// in that order, ends by closing the engine, and holds every field of the
/// engine that is written.
pub proof fn law_engine_element_contents(acc: Seq<XmlNodeView>, e: EngineDescModel)
    ensures
        with_engine(acc, e).len() >= acc.len() + 14,
        with_engine(acc, e).subrange(0, acc.len() as int) == acc,
        with_engine(acc, e).subrange(acc.len() as int, acc.len() as int + 13) == engine_head(e),
        with_engine(acc, e).last() == XmlNodeView::End("engine"@),
        engine_fields_held(with_engine(acc, e), acc.len() as int, e),
{
    let from = acc.len() as int;
    let a4 = lemma_engine_head(acc, e);
    let r4 = engine_head_fields(e);
    lemma_engine_middle(a4, a4, from, r4, e);
    let a9 = engine_middle(a4, e);
    let r9 = middle_fields(r4, e);
    lemma_engine_last_fields(a9, a4, from, r9, e);
    let a16 = engine_last_fields(a9, e);
    let r16 = last_fields(r9, e);
    lemma_push_step(a16, a4, from, r16, XmlNodeView::End("engine"@));
    let f = a16.push(XmlNodeView::End("engine"@));
    assert(with_engine(acc, e) == f);
    lemma_read_held(f, a4, from, r16);
    lemma_fields_listed(r4, e);
    assert(f.subrange(0, from) =~= a4.subrange(0, from));
    assert(f.subrange(from, from + 13) =~= a4.subrange(from, from + 13));
}

/// Every field that an engine element writes is among the listed ones.
proof fn lemma_fields_listed(r4: Set<(Seq<char>, Seq<char>)>, e: EngineDescModel)
    requires
        r4 == engine_head_fields(e),
    ensures
        ({
            let r = last_fields(middle_fields(r4, e), e);
            &&& r.contains(("name"@, e.name))
            &&& r.contains(("longname"@, e.longname))
            &&& r.contains(("description"@, e.description))
            &&& r.contains(("language"@, e.language))
            &&& r.contains(("rank"@, decimal(e.rank as nat)))
            &&& r.contains(("version"@, e.version))
            &&& e.license.len() > 0 ==> r.contains(("license"@, e.license))
            &&& e.author.len() > 0 ==> r.contains(("author"@, e.author))
            &&& e.icon.len() > 0 ==> r.contains(("icon"@, e.icon))
            &&& layout_written(e.layout) ==> r.contains(("layout"@, e.layout))
            &&& e.hotkeys.len() > 0 ==> r.contains(("hotkeys"@, join(e.hotkeys, ","@)))
            &&& e.symbol.len() > 0 ==> r.contains(("symbol"@, e.symbol))
            &&& e.setup.len() > 0 ==> r.contains(("setup"@, e.setup))
            &&& e.layout_variants.len() > 0 ==> r.contains(("layout_variants"@, e.layout_variants))
            &&& e.layout_option.len() > 0 ==> r.contains(("layout_option"@, e.layout_option))
            &&& e.text_domain.len() > 0 ==> r.contains(("textdomain"@, e.text_domain))
        }),
{
}

/// Whether an `<engine>` element of `e` opens at position `k` of `s`, with
/// every written field of `e` held from there on.
#[verifier::opaque]
pub open spec fn engine_at(s: Seq<XmlNodeView>, k: int, e: EngineDescModel) -> bool {
    &&& 0 <= k
    &&& k + 13 <= s.len()
    &&& s.subrange(k, k + 13) == engine_head(e)
    &&& engine_fields_held(s, k, e)
}

/// Nodes that begin with other nodes hold what those hold.
proof fn lemma_engine_at_grow(a: Seq<XmlNodeView>, b: Seq<XmlNodeView>, k: int, e: EngineDescModel)
    requires
        a.len() <= b.len(),
        b.subrange(0, a.len() as int) == a,
        engine_at(a, k, e),
    ensures
        engine_at(b, k, e),
{
    reveal(begins_with);
    reveal(engine_at);
    assert forall|i: int| 0 <= i < a.len() implies #[trigger] b[i] == a[i] by {
        assert(b.subrange(0, a.len() as int)[i] == b[i]);
    }
    assert(begins_with(b, a));
    assert(b.subrange(k, k + 13) =~= a.subrange(k, k + 13));
    lemma_holds_grow(a, b, k, "name"@, e.name);
    lemma_holds_grow(a, b, k, "longname"@, e.longname);
    lemma_holds_grow(a, b, k, "description"@, e.description);
    lemma_holds_grow(a, b, k, "language"@, e.language);
    lemma_holds_grow(a, b, k, "rank"@, decimal(e.rank as nat));
    lemma_holds_grow(a, b, k, "version"@, e.version);
    if e.license.len() > 0 {
        lemma_holds_grow(a, b, k, "license"@, e.license);
    }
    if e.author.len() > 0 {
        lemma_holds_grow(a, b, k, "author"@, e.author);
    }
    if e.icon.len() > 0 {
        lemma_holds_grow(a, b, k, "icon"@, e.icon);
    }
    if layout_written(e.layout) {
        lemma_holds_grow(a, b, k, "layout"@, e.layout);
    }
    if e.hotkeys.len() > 0 {
        lemma_holds_grow(a, b, k, "hotkeys"@, join(e.hotkeys, ","@));
    }
    if e.symbol.len() > 0 {
        lemma_holds_grow(a, b, k, "symbol"@, e.symbol);
    }
    if e.setup.len() > 0 {
        lemma_holds_grow(a, b, k, "setup"@, e.setup);
    }
    if e.layout_variants.len() > 0 {
        lemma_holds_grow(a, b, k, "layout_variants"@, e.layout_variants);
    }
    if e.layout_option.len() > 0 {
        lemma_holds_grow(a, b, k, "layout_option"@, e.layout_option);
    }
    if e.text_domain.len() > 0 {
        lemma_holds_grow(a, b, k, "textdomain"@, e.text_domain);
    }
}

/// Writing engines after `acc` keeps `acc` in front.
proof fn lemma_engines_keep_front(acc: Seq<XmlNodeView>, es: Seq<EngineDescModel>)
    ensures
        with_engines(acc, es).len() >= acc.len(),
        with_engines(acc, es).subrange(0, acc.len() as int) == acc,
    decreases es.len(),
{
    if es.len() == 0 {
        assert(acc.subrange(0, acc.len() as int) =~= acc);
    } else {
        let w = with_engines(acc, es.drop_last());
        lemma_engines_keep_front(acc, es.drop_last());
        law_engine_element_contents(w, es.last());
        let f = with_engine(w, es.last());
        assert forall|i: int| 0 <= i < acc.len() implies #[trigger] f[i] == acc[i] by {
            assert(f.subrange(0, w.len() as int)[i] == f[i]);
            assert(w.subrange(0, acc.len() as int)[i] == w[i]);
        }
        assert(f.subrange(0, acc.len() as int) =~= acc);
    }
}

/// The engine at index `j` of those written after `acc` has its
/// `<engine>` element at the returned position, after `acc`.
proof fn lemma_engine_at_index(acc: Seq<XmlNodeView>, es: Seq<EngineDescModel>, j: int) -> (k: int)
    requires
        0 <= j < es.len(),
    ensures
        acc.len() <= k,
        engine_at(with_engines(acc, es), k, es[j]),
    decreases es.len(),
{
    let w = with_engines(acc, es.drop_last());
    law_engine_element_contents(w, es.last());
    lemma_engines_keep_front(acc, es.drop_last());
    let f = with_engine(w, es.last());
    if j == es.len() - 1 {
        reveal(engine_at);
        w.len() as int
    } else {
        let k = lemma_engine_at_index(acc, es.drop_last(), j);
        assert(es[j] == es.drop_last()[j]);
        lemma_engine_at_grow(w, f, k, es[j]);
        k
    }
}

/// Every engine of a component has its `<engine>` element in the component
/// document, at the returned position: opening with its name, longname,
/// description and language elements, and holding every written field of
/// the engine.
pub proof fn law_component_engine_written(c: ComponentModel, j: int) -> (k: int)
    requires
        0 <= j < c.engines.len(),
    ensures
        engine_at(component_nodes(c), k, c.engines[j]),
{
    let a0 = seq![
        XmlNodeView::Declaration("1.0"@, "utf-8"@),
        XmlNodeView::Comment(filename_comment(c.name)),
        XmlNodeView::Start("component"@),
    ];
    let a1 = with_element(a0, "name"@, c.name);
    let a2 = with_element(a1, "description"@, c.description);
    let a3 = with_element(a2, "version"@, c.version);
    let a4 = with_element(a3, "license"@, c.license);
    let a5 = with_element(a4, "author"@, c.author);
    let a6 = with_element(a5, "homepage"@, c.homepage);
    let a7 = with_optional_element(a6, "textdomain"@, c.text_domain);
    let a8 = a7.push(XmlNodeView::Empty("exec"@, exec_attributes(c.exec_path, c.exec_args)));
    let a9 = with_watch_paths(a8, c.watch_paths);
    let w = with_engines(a9, c.engines);
    let f = w.push(XmlNodeView::End("component"@));
    assert(component_nodes(c) == f);
    assert(f.subrange(0, w.len() as int) =~= w);
    let k = lemma_engine_at_index(a9, c.engines, j);
    lemma_engine_at_grow(w, f, k, c.engines[j]);
    k
}

} // verus!
