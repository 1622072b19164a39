use vstd::prelude::*;

use crate::gvalue::{
    lemma_models_push, make_array, make_struct, make_variant, models_of, variant_of, wrap_model,
    wrap_serializable, GModel, GValue,
};
use crate::strings::{
    clone_strings, concat_all, join, join_strings, strings_model, strs_model, to_strings,
};

verus! {

/// Best engine rank.
pub const ENGINE_RANK_BEST: u32 = 0;
/// Good engine rank.
pub const ENGINE_RANK_GOOD: u32 = 1;
/// Normal engine rank.
pub const ENGINE_RANK_NORMAL: u32 = 2;
/// Bad engine rank.
pub const ENGINE_RANK_BAD: u32 = 3;
/// Worst engine rank.
pub const ENGINE_RANK_WORST: u32 = 4;

/// Description of a single input method engine within a component.
#[derive(Debug)]
pub struct EngineDesc {
    /// Unique engine name.
    pub name: String,
    /// Human-readable display name.
    pub longname: String,
    /// Descriptive text.
    pub description: String,
    /// Language code (e.g. `ja`, `zh_CN`).
    pub language: String,
    /// License identifier.
    pub license: String,
    /// Author name.
    pub author: String,
    /// Icon file name.
    pub icon: String,
    /// Default keyboard layout (e.g. `us`, `jp`).
    pub layout: String,
    /// Hotkeys to switch to this engine.
    pub hotkeys: Vec<String>,
    /// Display priority (see the `ENGINE_RANK_*` constants).
    pub rank: u32,
    /// Symbol displayed in the panel.
    pub symbol: String,
    /// Path to a setup tool executable.
    pub setup: String,
    /// Keyboard layout variant.
    pub layout_variants: String,
    /// Keyboard layout option.
    pub layout_option: String,
    /// Engine version string.
    pub version: String,
    /// Gettext text domain for translations.
    pub text_domain: String,
    /// Property key whose icon the panel shows for this engine.
    pub icon_prop_key: String,
}

/// The mathematical content of an [`EngineDesc`].
pub struct EngineDescModel {
    pub name: Seq<char>,
    pub longname: Seq<char>,
    pub description: Seq<char>,
    pub language: Seq<char>,
    pub license: Seq<char>,
    pub author: Seq<char>,
    pub icon: Seq<char>,
    pub layout: Seq<char>,
    pub hotkeys: Seq<Seq<char>>,
    pub rank: u32,
    pub symbol: Seq<char>,
    pub setup: Seq<char>,
    pub layout_variants: Seq<char>,
    pub layout_option: Seq<char>,
    pub version: Seq<char>,
    pub text_domain: Seq<char>,
    pub icon_prop_key: Seq<char>,
}

impl View for EngineDesc {
    type V = EngineDescModel;

    open spec fn view(&self) -> EngineDescModel {
        EngineDescModel {
            name: self.name@,
            longname: self.longname@,
            description: self.description@,
            language: self.language@,
            license: self.license@,
            author: self.author@,
            icon: self.icon@,
            layout: self.layout@,
            hotkeys: strings_model(self.hotkeys@),
            rank: self.rank,
            symbol: self.symbol@,
            setup: self.setup@,
            layout_variants: self.layout_variants@,
            layout_option: self.layout_option@,
            version: self.version@,
            text_domain: self.text_domain@,
            icon_prop_key: self.icon_prop_key@,
        }
    }
}

/// An engine description as `EngineDesc::new` builds it: layout `us`, rank
/// normal, version `0.1.0`, everything else empty.
pub open spec fn new_engine_desc(
    name: Seq<char>,
    longname: Seq<char>,
    description: Seq<char>,
    language: Seq<char>,
) -> EngineDescModel {
    EngineDescModel {
        name,
        longname,
        description,
        language,
        license: Seq::empty(),
        author: Seq::empty(),
        icon: Seq::empty(),
        layout: "us"@,
        hotkeys: Seq::empty(),
        rank: ENGINE_RANK_NORMAL,
        symbol: Seq::empty(),
        setup: Seq::empty(),
        layout_variants: Seq::empty(),
        layout_option: Seq::empty(),
        version: "0.1.0"@,
        text_domain: Seq::empty(),
        icon_prop_key: Seq::empty(),
    }
}

impl EngineDesc {
    /// Create a new engine description with the minimum required fields.
    pub fn new(name: &str, longname: &str, description: &str, language: &str) -> (e: EngineDesc)
        ensures
            e@ == new_engine_desc(name@, longname@, description@, language@),
    {
        let e = EngineDesc {
            name: name.to_owned(),
            longname: longname.to_owned(),
            description: description.to_owned(),
            language: language.to_owned(),
            license: String::new(),
            author: String::new(),
            icon: String::new(),
            layout: "us".to_owned(),
            hotkeys: Vec::new(),
            rank: ENGINE_RANK_NORMAL,
            symbol: String::new(),
            setup: String::new(),
            layout_variants: String::new(),
            layout_option: String::new(),
            version: "0.1.0".to_owned(),
            text_domain: String::new(),
            icon_prop_key: String::new(),
        };
        assert(e@.hotkeys =~= Seq::<Seq<char>>::empty());
        e
    }

    /// Set the engine license.
    pub fn set_license(&mut self, license: &str) -> (r: &mut Self)
        ensures
            r@ == (EngineDescModel { license: license@, ..old(self)@ }),
            *final(self) == *final(r),
    {
        self.license = license.to_owned();
        self
    }

    /// Set the engine author.
    pub fn set_author(&mut self, author: &str) -> (r: &mut Self)
        ensures
            r@ == (EngineDescModel { author: author@, ..old(self)@ }),
            *final(self) == *final(r),
    {
        self.author = author.to_owned();
        self
    }

    /// Set the engine icon name.
    pub fn set_icon(&mut self, icon: &str) -> (r: &mut Self)
        ensures
            r@ == (EngineDescModel { icon: icon@, ..old(self)@ }),
            *final(self) == *final(r),
    {
        self.icon = icon.to_owned();
        self
    }

    /// Set the default keyboard layout.
    pub fn set_layout(&mut self, layout: &str) -> (r: &mut Self)
        ensures
            r@ == (EngineDescModel { layout: layout@, ..old(self)@ }),
            *final(self) == *final(r),
    {
        self.layout = layout.to_owned();
        self
    }

    /// Set the panel symbol.
    pub fn set_symbol(&mut self, symbol: &str) -> (r: &mut Self)
        ensures
            r@ == (EngineDescModel { symbol: symbol@, ..old(self)@ }),
            *final(self) == *final(r),
    {
        self.symbol = symbol.to_owned();
        self
    }

    /// Set the setup tool path.
    pub fn set_setup(&mut self, setup: &str) -> (r: &mut Self)
        ensures
            r@ == (EngineDescModel { setup: setup@, ..old(self)@ }),
            *final(self) == *final(r),
    {
        self.setup = setup.to_owned();
        self
    }

    /// Set the engine version.
    pub fn set_version(&mut self, version: &str) -> (r: &mut Self)
        ensures
            r@ == (EngineDescModel { version: version@, ..old(self)@ }),
            *final(self) == *final(r),
    {
        self.version = version.to_owned();
        self
    }

    /// Set the display rank.
    pub fn set_rank(&mut self, rank: u32) -> (r: &mut Self)
        ensures
            r@ == (EngineDescModel { rank, ..old(self)@ }),
            *final(self) == *final(r),
    {
        self.rank = rank;
        self
    }

    /// Set the hotkeys that activate this engine.
    pub fn set_hotkeys(&mut self, hotkeys: Vec<&str>) -> (r: &mut Self)
        ensures
            r@ == (EngineDescModel { hotkeys: strs_model(hotkeys@), ..old(self)@ }),
            *final(self) == *final(r),
    {
        self.hotkeys = to_strings(&hotkeys);
        self
    }
}

/// An IBus component: one or more input method engines and how to start them.
#[derive(Debug)]
pub struct Component {
    /// Unique component name (e.g. `com.example.MyEngine`).
    pub name: String,
    /// Human-readable description.
    pub description: String,
    /// Component version.
    pub version: String,
    /// License identifier.
    pub license: String,
    /// Author name.
    pub author: String,
    /// Homepage URL.
    pub homepage: String,
    /// Gettext text domain.
    pub text_domain: String,
    /// Path to the engine executable.
    pub exec_path: String,
    /// Arguments passed to the executable.
    pub exec_args: Vec<String>,
    /// Engines provided by this component.
    pub engines: Vec<EngineDesc>,
    /// Paths to watch for changes.
    pub watch_paths: Vec<String>,
}

/// The mathematical content of a [`Component`].
pub struct ComponentModel {
    pub name: Seq<char>,
    pub description: Seq<char>,
    pub version: Seq<char>,
    pub license: Seq<char>,
    pub author: Seq<char>,
    pub homepage: Seq<char>,
    pub text_domain: Seq<char>,
    pub exec_path: Seq<char>,
    pub exec_args: Seq<Seq<char>>,
    pub engines: Seq<EngineDescModel>,
    pub watch_paths: Seq<Seq<char>>,
}

/// The models of a sequence of engine descriptions.
pub open spec fn engines_model(v: Seq<EngineDesc>) -> Seq<EngineDescModel> {
    v.map_values(|e: EngineDesc| e@)
}

impl View for Component {
    type V = ComponentModel;

    open spec fn view(&self) -> ComponentModel {
        ComponentModel {
            name: self.name@,
            description: self.description@,
            version: self.version@,
            license: self.license@,
            author: self.author@,
            homepage: self.homepage@,
            text_domain: self.text_domain@,
            exec_path: self.exec_path@,
            exec_args: strings_model(self.exec_args@),
            engines: engines_model(self.engines@),
            watch_paths: strings_model(self.watch_paths@),
        }
    }
}

impl Component {
    /// Create a new component with no engines, arguments, watched paths or text domain.
    pub fn new(
        name: &str,
        description: &str,
        version: &str,
        license: &str,
        author: &str,
        homepage: &str,
        exec_path: &str,
    ) -> (c: Component)
        ensures
            c@ == (ComponentModel {
                name: name@,
                description: description@,
                version: version@,
                license: license@,
                author: author@,
                homepage: homepage@,
                text_domain: Seq::empty(),
                exec_path: exec_path@,
                exec_args: Seq::empty(),
                engines: Seq::empty(),
                watch_paths: Seq::empty(),
            }),
    {
        let c = Component {
            name: name.to_owned(),
            description: description.to_owned(),
            version: version.to_owned(),
            license: license.to_owned(),
            author: author.to_owned(),
            homepage: homepage.to_owned(),
            text_domain: String::new(),
            exec_path: exec_path.to_owned(),
            exec_args: Vec::new(),
            engines: Vec::new(),
            watch_paths: Vec::new(),
        };
        assert(c@.exec_args =~= Seq::<Seq<char>>::empty());
        assert(c@.engines =~= Seq::<EngineDescModel>::empty());
        assert(c@.watch_paths =~= Seq::<Seq<char>>::empty());
        c
    }

    /// Add an engine to this component.
    pub fn add_engine(&mut self, engine: EngineDesc) -> (r: &mut Self)
        ensures
            r@ == (ComponentModel { engines: old(self)@.engines.push(engine@), ..old(self)@ }),
            *final(self) == *final(r),
    {
        let ghost em = engine@;
        self.engines.push(engine);
        assert(self@.engines =~= old(self)@.engines.push(em));
        self
    }

    /// Set the executable arguments.
    pub fn set_exec_args(&mut self, args: Vec<&str>) -> (r: &mut Self)
        ensures
            r@ == (ComponentModel { exec_args: strs_model(args@), ..old(self)@ }),
            *final(self) == *final(r),
    {
        self.exec_args = to_strings(&args);
        self
    }

    /// Set the gettext text domain.
    pub fn set_text_domain(&mut self, text_domain: &str) -> (r: &mut Self)
        ensures
            r@ == (ComponentModel { text_domain: text_domain@, ..old(self)@ }),
            *final(self) == *final(r),
    {
        self.text_domain = text_domain.to_owned();
        self
    }

    /// Add a path to watch.
    pub fn add_watch_path(&mut self, path: &str) -> (r: &mut Self)
        ensures
            r@ == (ComponentModel { watch_paths: old(self)@.watch_paths.push(path@), ..old(self)@ }),
            *final(self) == *final(r),
    {
        let p = path.to_owned();
        self.watch_paths.push(p);
        assert(self@.watch_paths =~= old(self)@.watch_paths.push(path@));
        self
    }
}

/// The wire encoding of an engine description:
/// `("IBusEngineDesc", {}, name, longname, description, language, license,
/// author, icon, layout, rank, hotkeys, symbol, setup, layout_variant,
/// layout_option, version, textdomain, icon_prop_key)`; the rank is a
/// signed 32-bit number and the hotkeys are joined with spaces.
pub open spec fn encode_engine_desc(e: EngineDescModel) -> GModel {
    wrap_model(
        "IBusEngineDesc"@,
        GModel::Struct(
            seq![
                GModel::Str(e.name),
                GModel::Str(e.longname),
                GModel::Str(e.description),
                GModel::Str(e.language),
                GModel::Str(e.license),
                GModel::Str(e.author),
                GModel::Str(e.icon),
                GModel::Str(e.layout),
                GModel::I32(e.rank as i32),
                GModel::Str(join(e.hotkeys, " "@)),
                GModel::Str(e.symbol),
                GModel::Str(e.setup),
                GModel::Str(e.layout_variants),
                GModel::Str(e.layout_option),
                GModel::Str(e.version),
                GModel::Str(e.text_domain),
                GModel::Str(e.icon_prop_key),
            ],
        ),
    )
}

/// The command line of a component: the executable path followed by the
/// arguments, separated by spaces.
pub open spec fn command_line(path: Seq<char>, args: Seq<Seq<char>>) -> Seq<char> {
    join(seq![path] + args, " "@)
}

/// The wire encoding of a watched path: `("IBusObservedPath", {}, path, mtime)`
/// with modification time 0.
pub open spec fn encode_observed_path(path: Seq<char>) -> GModel {
    wrap_model("IBusObservedPath"@, GModel::Struct(seq![GModel::Str(path), GModel::I64(0)]))
}

/// The wire encoding of a component:
/// `("IBusComponent", {}, name, description, version, license, author,
/// homepage, command line, textdomain, [<observed path>, ...], [<engine>, ...])`.
pub open spec fn encode_component(c: ComponentModel) -> GModel {
    wrap_model(
        "IBusComponent"@,
        GModel::Struct(
            seq![
                GModel::Str(c.name),
                GModel::Str(c.description),
                GModel::Str(c.version),
                GModel::Str(c.license),
                GModel::Str(c.author),
                GModel::Str(c.homepage),
                GModel::Str(command_line(c.exec_path, c.exec_args)),
                GModel::Str(c.text_domain),
                GModel::Array(c.watch_paths.map_values(|p: Seq<char>| variant_of(encode_observed_path(p)))),
                GModel::Array(c.engines.map_values(|e: EngineDescModel| variant_of(encode_engine_desc(e)))),
            ],
        ),
    )
}

/// The wire layout of an engine description: the class name, an empty
/// attachment dictionary, then name, longname, description, language,
/// license, author, icon, layout, rank, the hotkeys joined with spaces,
/// symbol, setup, layout variants, layout option, version, text domain and
/// icon property key, in that order.
pub proof fn law_engine_desc_wire_layout(e: EngineDescModel)
    ensures
        encode_engine_desc(e) == GModel::Struct(
            seq![
                GModel::Str("IBusEngineDesc"@),
                GModel::Dict(Seq::empty()),
                GModel::Str(e.name),
                GModel::Str(e.longname),
                GModel::Str(e.description),
                GModel::Str(e.language),
                GModel::Str(e.license),
                GModel::Str(e.author),
                GModel::Str(e.icon),
                GModel::Str(e.layout),
                GModel::I32(e.rank as i32),
                GModel::Str(join(e.hotkeys, " "@)),
                GModel::Str(e.symbol),
                GModel::Str(e.setup),
                GModel::Str(e.layout_variants),
                GModel::Str(e.layout_option),
                GModel::Str(e.version),
                GModel::Str(e.text_domain),
                GModel::Str(e.icon_prop_key),
            ],
        ),
{
    let head = seq![GModel::Str("IBusEngineDesc"@), GModel::Dict(Seq::empty())];
    let f = seq![
        GModel::Str(e.name),
        GModel::Str(e.longname),
        GModel::Str(e.description),
        GModel::Str(e.language),
        GModel::Str(e.license),
        GModel::Str(e.author),
        GModel::Str(e.icon),
        GModel::Str(e.layout),
        GModel::I32(e.rank as i32),
        GModel::Str(join(e.hotkeys, " "@)),
        GModel::Str(e.symbol),
        GModel::Str(e.setup),
        GModel::Str(e.layout_variants),
        GModel::Str(e.layout_option),
        GModel::Str(e.version),
        GModel::Str(e.text_domain),
        GModel::Str(e.icon_prop_key),
    ];
    assert(head + f =~= seq![
        GModel::Str("IBusEngineDesc"@),
        GModel::Dict(Seq::empty()),
        GModel::Str(e.name),
        GModel::Str(e.longname),
        GModel::Str(e.description),
        GModel::Str(e.language),
        GModel::Str(e.license),
        GModel::Str(e.author),
        GModel::Str(e.icon),
        GModel::Str(e.layout),
        GModel::I32(e.rank as i32),
        GModel::Str(join(e.hotkeys, " "@)),
        GModel::Str(e.symbol),
        GModel::Str(e.setup),
        GModel::Str(e.layout_variants),
        GModel::Str(e.layout_option),
        GModel::Str(e.version),
        GModel::Str(e.text_domain),
        GModel::Str(e.icon_prop_key),
    ]);
}

/// The wire layout of a component: the class name, an empty attachment
/// dictionary, then name, description, version, license, author, homepage,
/// the command line, the text domain, the watched paths and the engines, in
/// that order.
pub proof fn law_component_wire_layout(c: ComponentModel)
    ensures
        encode_component(c) == GModel::Struct(
            seq![
                GModel::Str("IBusComponent"@),
                GModel::Dict(Seq::empty()),
                GModel::Str(c.name),
                GModel::Str(c.description),
                GModel::Str(c.version),
                GModel::Str(c.license),
                GModel::Str(c.author),
                GModel::Str(c.homepage),
                GModel::Str(command_line(c.exec_path, c.exec_args)),
                GModel::Str(c.text_domain),
                GModel::Array(c.watch_paths.map_values(|p: Seq<char>| variant_of(encode_observed_path(p)))),
                GModel::Array(c.engines.map_values(|e: EngineDescModel| variant_of(encode_engine_desc(e)))),
            ],
        ),
{
    let head = seq![GModel::Str("IBusComponent"@), GModel::Dict(Seq::empty())];
    let f = seq![
        GModel::Str(c.name),
        GModel::Str(c.description),
        GModel::Str(c.version),
        GModel::Str(c.license),
        GModel::Str(c.author),
        GModel::Str(c.homepage),
        GModel::Str(command_line(c.exec_path, c.exec_args)),
        GModel::Str(c.text_domain),
        GModel::Array(c.watch_paths.map_values(|p: Seq<char>| variant_of(encode_observed_path(p)))),
        GModel::Array(c.engines.map_values(|e: EngineDescModel| variant_of(encode_engine_desc(e)))),
    ];
    assert(head + f =~= seq![
        GModel::Str("IBusComponent"@),
        GModel::Dict(Seq::empty()),
        GModel::Str(c.name),
        GModel::Str(c.description),
        GModel::Str(c.version),
        GModel::Str(c.license),
        GModel::Str(c.author),
        GModel::Str(c.homepage),
        GModel::Str(command_line(c.exec_path, c.exec_args)),
        GModel::Str(c.text_domain),
        GModel::Array(c.watch_paths.map_values(|p: Seq<char>| variant_of(encode_observed_path(p)))),
        GModel::Array(c.engines.map_values(|e: EngineDescModel| variant_of(encode_engine_desc(e)))),
    ]);
}

impl EngineDesc {
    /// Serialize into the IBusSerializable wire format.
    pub fn to_value(&self) -> (v: GValue)
        ensures
            v@ == encode_engine_desc(self@),
    {
        let mut f: Vec<GValue> = Vec::new();
        f.push(GValue::Str(self.name.clone()));
        f.push(GValue::Str(self.longname.clone()));
        f.push(GValue::Str(self.description.clone()));
        f.push(GValue::Str(self.language.clone()));
        f.push(GValue::Str(self.license.clone()));
        f.push(GValue::Str(self.author.clone()));
        f.push(GValue::Str(self.icon.clone()));
        f.push(GValue::Str(self.layout.clone()));
        f.push(GValue::I32(#[verifier::truncate] (self.rank as i32)));
        f.push(GValue::Str(join_strings(&self.hotkeys, " ")));
        f.push(GValue::Str(self.symbol.clone()));
        f.push(GValue::Str(self.setup.clone()));
        f.push(GValue::Str(self.layout_variants.clone()));
        f.push(GValue::Str(self.layout_option.clone()));
        f.push(GValue::Str(self.version.clone()));
        f.push(GValue::Str(self.text_domain.clone()));
        f.push(GValue::Str(self.icon_prop_key.clone()));
        let ghost e = self@;
        proof {
            assert(models_of(f@) =~= seq![
                GModel::Str(e.name),
                GModel::Str(e.longname),
                GModel::Str(e.description),
                GModel::Str(e.language),
                GModel::Str(e.license),
                GModel::Str(e.author),
                GModel::Str(e.icon),
                GModel::Str(e.layout),
                GModel::I32(e.rank as i32),
                GModel::Str(join(e.hotkeys, " "@)),
                GModel::Str(e.symbol),
                GModel::Str(e.setup),
                GModel::Str(e.layout_variants),
                GModel::Str(e.layout_option),
                GModel::Str(e.version),
                GModel::Str(e.text_domain),
                GModel::Str(e.icon_prop_key),
            ]);
        }
        let inner = make_struct(f);
        wrap_serializable("IBusEngineDesc", inner)
    }
}

/// Serialize a watched path.
fn observed_path_value(path: &String) -> (v: GValue)
    ensures
        v@ == encode_observed_path(path@),
{
    let mut f: Vec<GValue> = Vec::new();
    f.push(GValue::Str(path.clone()));
    f.push(GValue::I64(0));
    proof {
        assert(models_of(f@) =~= seq![GModel::Str(path@), GModel::I64(0)]);
    }
    let inner = make_struct(f);
    wrap_serializable("IBusObservedPath", inner)
}

impl Component {
    /// The command line: the executable path followed by the arguments, separated by spaces.
    pub fn command_line(&self) -> (s: String)
        ensures
            s@ == command_line(self@.exec_path, self@.exec_args),
    {
        let mut parts: Vec<String> = Vec::new();
        parts.push(self.exec_path.clone());
        let mut args = clone_strings(&self.exec_args);
        let ghost a = args@;
        parts.append(&mut args);
        proof {
            assert(strings_model(parts@) =~= seq![self@.exec_path] + strings_model(a));
        }
        join_strings(&parts, " ")
    }

    /// Serialize into the IBusSerializable wire format.
    pub fn to_value(&self) -> (v: GValue)
        ensures
            v@ == encode_component(self@),
    {
        let ghost c = self@;
        let mut paths: Vec<GValue> = Vec::new();
        let mut i: usize = 0;
        while i < self.watch_paths.len()
            invariant
                i <= self.watch_paths@.len(),
                c == self@,
                models_of(paths@) =~= c.watch_paths.subrange(0, i as int).map_values(
                    |p: Seq<char>| variant_of(encode_observed_path(p)),
                ),
            decreases self.watch_paths@.len() - i,
        {
            let e = make_variant(observed_path_value(&self.watch_paths[i]));
            proof {
                lemma_models_push(paths@, e);
            }
            paths.push(e);
            i = i + 1;
        }
        let mut engines: Vec<GValue> = Vec::new();
        let mut j: usize = 0;
        while j < self.engines.len()
            invariant
                j <= self.engines@.len(),
                c == self@,
                models_of(engines@) =~= c.engines.subrange(0, j as int).map_values(
                    |e: EngineDescModel| variant_of(encode_engine_desc(e)),
                ),
            decreases self.engines@.len() - j,
        {
            let e = make_variant(self.engines[j].to_value());
            proof {
                lemma_models_push(engines@, e);
            }
            engines.push(e);
            j = j + 1;
        }
        proof {
            assert(c.watch_paths.subrange(0, c.watch_paths.len() as int) =~= c.watch_paths);
            assert(c.engines.subrange(0, c.engines.len() as int) =~= c.engines);
        }
        let mut f: Vec<GValue> = Vec::new();
        f.push(GValue::Str(self.name.clone()));
        f.push(GValue::Str(self.description.clone()));
        f.push(GValue::Str(self.version.clone()));
        f.push(GValue::Str(self.license.clone()));
        f.push(GValue::Str(self.author.clone()));
        f.push(GValue::Str(self.homepage.clone()));
        f.push(GValue::Str(self.command_line()));
        f.push(GValue::Str(self.text_domain.clone()));
        f.push(make_array(paths));
        f.push(make_array(engines));
        proof {
            assert(models_of(f@) =~= seq![
                GModel::Str(c.name),
                GModel::Str(c.description),
                GModel::Str(c.version),
                GModel::Str(c.license),
                GModel::Str(c.author),
                GModel::Str(c.homepage),
                GModel::Str(command_line(c.exec_path, c.exec_args)),
                GModel::Str(c.text_domain),
                GModel::Array(c.watch_paths.map_values(|p: Seq<char>| variant_of(encode_observed_path(p)))),
                GModel::Array(c.engines.map_values(|e: EngineDescModel| variant_of(encode_engine_desc(e)))),
            ]);
        }
        let inner = make_struct(f);
        wrap_serializable("IBusComponent", inner)
    }
}

impl Clone for EngineDesc {
    fn clone(&self) -> (r: EngineDesc)
        ensures
            r@ == self@,
    {
        EngineDesc {
            name: self.name.clone(),
            longname: self.longname.clone(),
            description: self.description.clone(),
            language: self.language.clone(),
            license: self.license.clone(),
            author: self.author.clone(),
            icon: self.icon.clone(),
            layout: self.layout.clone(),
            hotkeys: clone_strings(&self.hotkeys),
            rank: self.rank,
            symbol: self.symbol.clone(),
            setup: self.setup.clone(),
            layout_variants: self.layout_variants.clone(),
            layout_option: self.layout_option.clone(),
            version: self.version.clone(),
            text_domain: self.text_domain.clone(),
            icon_prop_key: self.icon_prop_key.clone(),
        }
    }
}

/// Copies of engine descriptions.
fn clone_engines(v: &Vec<EngineDesc>) -> (r: Vec<EngineDesc>)
    ensures
        engines_model(r@) == engines_model(v@),
{
    let mut out: Vec<EngineDesc> = Vec::new();
    let mut i: usize = 0;
    while i < v.len()
        invariant
            i <= v@.len(),
            engines_model(out@) =~= engines_model(v@.subrange(0, i as int)),
        decreases v@.len() - i,
    {
        let e = v[i].clone();
        proof {
            assert(engines_model(out@.push(e)) =~= engines_model(out@).push(e@));
            assert(engines_model(v@.subrange(0, i as int + 1)) =~= engines_model(v@.subrange(0, i as int)).push(v@[i as int]@));
        }
        out.push(e);
        i = i + 1;
    }
    proof {
        assert(v@.subrange(0, v@.len() as int) =~= v@);
    }
    out
}

impl Clone for Component {
    fn clone(&self) -> (r: Component)
        ensures
            r@ == self@,
    {
        Component {
            name: self.name.clone(),
            description: self.description.clone(),
            version: self.version.clone(),
            license: self.license.clone(),
            author: self.author.clone(),
            homepage: self.homepage.clone(),
            text_domain: self.text_domain.clone(),
            exec_path: self.exec_path.clone(),
            exec_args: clone_strings(&self.exec_args),
            engines: clone_engines(&self.engines),
            watch_paths: clone_strings(&self.watch_paths),
        }
    }
}

} // verus!
