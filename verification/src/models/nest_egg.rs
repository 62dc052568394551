//! Eggs: the templates that servers are made from, their exported form, and
//! the conversions, checks and updates between them.

use vstd::prelude::*;
use crate::models::{append_columns, column_list, column_pairs, pair_views, prefix_text, prefixed_columns};
use crate::models::{pick, set_if, ModelError};
use crate::ordered_map::{OrderedMap, map_collect, keys_distinct, lemma_collect_distinct};
use crate::text_map::{TextMap, text_map_pairs, text_map_values};
use crate::text::{push_str, text_eq};
use crate::paths::{extension, extension_of};
use crate::validation::{texts, flag, chars_within, opt2_chars_within, opt_chars_within, bytes_within, note, text_within, opt_text_within, opt2_text_within, bytes_at_most};

verus! {

/// Always `true`; the default of flags that are on unless a file says
/// otherwise.
pub fn true_fn() -> (r: bool)
    ensures
        r,
{
    true
}

/// The format of a configuration file that the daemon rewrites.
#[derive(Clone, Copy, PartialEq, Eq, Debug)]
pub enum ServerConfigurationFileParser {
    File,
    Yaml,
    Properties,
    Ini,
    Json,
    Xml,
    Toml,
}

/// The name of a parser in exported eggs and on the wire.
pub open spec fn parser_name(p: ServerConfigurationFileParser) -> Seq<char> {
    match p {
        ServerConfigurationFileParser::File => "file"@,
        ServerConfigurationFileParser::Yaml => "yaml"@,
        ServerConfigurationFileParser::Properties => "properties"@,
        ServerConfigurationFileParser::Ini => "ini"@,
        ServerConfigurationFileParser::Json => "json"@,
        ServerConfigurationFileParser::Xml => "xml"@,
        ServerConfigurationFileParser::Toml => "toml"@,
    }
}

impl ServerConfigurationFileParser {
    /// The parser's name.
    pub fn as_str(&self) -> (s: &'static str)
        ensures
            s@ == parser_name(*self),
    {
        match self {
            ServerConfigurationFileParser::File => "file",
            ServerConfigurationFileParser::Yaml => "yaml",
            ServerConfigurationFileParser::Properties => "properties",
            ServerConfigurationFileParser::Ini => "ini",
            ServerConfigurationFileParser::Json => "json",
            ServerConfigurationFileParser::Xml => "xml",
            ServerConfigurationFileParser::Toml => "toml",
        }
    }
}

/// One replacement inside a configuration file; `replace_with` is JSON text.
pub struct ProcessConfigurationFileReplacement {
    pub match_key: String,
    pub insert_new: bool,
    pub update_existing: bool,
    pub if_value: Option<String>,
    pub replace_with: String,
}

/// A configuration file of a server and the replacements made in it.
pub struct ProcessConfigurationFile {
    pub file: String,
    pub create_new: bool,
    pub parser: ServerConfigurationFileParser,
    pub replace: Vec<ProcessConfigurationFileReplacement>,
}

/// How the daemon runs a server's process: how it tells that it started,
/// how it stops it, and the configuration files it rewrites.
pub struct ProcessConfiguration {
    pub startup: NestEggConfigStartup,
    pub stop: NestEggConfigStop,
    pub configs: Vec<ProcessConfigurationFile>,
}

/// How the daemon tells that a server has started.
pub struct NestEggConfigStartup {
    pub done: Vec<String>,
    pub strip_ansi: bool,
}

/// How the daemon stops a server.
pub struct NestEggConfigStop {
    pub kind: String,
    pub value: Option<String>,
}

/// The installation script of an egg.
pub struct NestEggConfigScript {
    pub container: String,
    pub entrypoint: String,
    pub content: String,
}

/// A configuration file as an exported egg lists it, under its path.
pub struct ExportedNestEggConfigsFilesFile {
    pub create_new: bool,
    pub parser: ServerConfigurationFileParser,
    pub replace: Vec<ProcessConfigurationFileReplacement>,
}

/// The configuration part of an exported egg.
pub struct ExportedNestEggConfigs {
    pub files: OrderedMap<ExportedNestEggConfigsFilesFile>,
    pub startup: NestEggConfigStartup,
    pub stop: NestEggConfigStop,
}

/// The scripts of an exported egg.
pub struct ExportedNestEggScripts {
    pub installation: NestEggConfigScript,
}

/// A variable of an exported egg.
pub struct ExportedNestEggVariable {
    pub name: String,
    pub description: Option<String>,
    pub description_translations: Vec<(String, String)>,
    pub order: i16,
    pub env_variable: String,
    pub default_value: Option<String>,
    pub user_viewable: bool,
    pub user_editable: bool,
    pub secret: bool,
    pub rules: Vec<String>,
}

/// An egg as it is exported and imported.
pub struct ExportedNestEgg {
    pub uuid: u128,
    pub name: String,
    pub description: Option<String>,
    pub author: String,
    pub config: ExportedNestEggConfigs,
    pub scripts: ExportedNestEggScripts,
    pub startup: String,
    pub force_outgoing_ip: bool,
    pub separate_port: bool,
    pub features: Vec<String>,
    pub docker_images: TextMap,
    pub file_denylist: Vec<String>,
    pub variables: Vec<ExportedNestEggVariable>,
}

/// An egg as the panel stores it.
pub struct NestEgg {
    pub uuid: u128,
    pub nest_uuid: u128,
    pub egg_repository_egg_uuid: Option<u128>,
    pub name: String,
    pub description: Option<String>,
    pub author: String,
    pub config_files: Vec<ProcessConfigurationFile>,
    pub config_startup: NestEggConfigStartup,
    pub config_stop: NestEggConfigStop,
    pub config_script: NestEggConfigScript,
    pub startup: String,
    pub force_outgoing_ip: bool,
    pub separate_port: bool,
    pub features: Vec<String>,
    pub docker_images: TextMap,
    pub file_denylist: Vec<String>,
    /// Microseconds since the Unix epoch.
    pub created: i64,
}

/// What creating an egg takes.
pub struct CreateNestEggOptions {
    pub nest_uuid: u128,
    pub egg_repository_egg_uuid: Option<u128>,
    pub author: String,
    pub name: String,
    pub description: Option<String>,
    pub config_files: Vec<ProcessConfigurationFile>,
    pub config_startup: NestEggConfigStartup,
    pub config_stop: NestEggConfigStop,
    pub config_script: NestEggConfigScript,
    pub startup: String,
    pub force_outgoing_ip: bool,
    pub separate_port: bool,
    pub features: Vec<String>,
    pub docker_images: TextMap,
    pub file_denylist: Vec<String>,
}

/// What updating an egg may change; `None` leaves a field as it is, and
/// `Some(None)` clears an optional field.
pub struct UpdateNestEggOptions {
    pub egg_repository_egg_uuid: Option<Option<u128>>,
    pub author: Option<String>,
    pub name: Option<String>,
    pub description: Option<Option<String>>,
    pub config_files: Option<Vec<ProcessConfigurationFile>>,
    pub config_startup: Option<NestEggConfigStartup>,
    pub config_stop: Option<NestEggConfigStop>,
    pub config_script: Option<NestEggConfigScript>,
    pub startup: Option<String>,
    pub force_outgoing_ip: Option<bool>,
    pub separate_port: Option<bool>,
    pub features: Option<Vec<String>>,
    pub docker_images: Option<TextMap>,
    pub file_denylist: Option<Vec<String>>,
}

/// What creating a variable of an egg takes.
pub struct CreateNestEggVariableOptions {
    pub egg_uuid: u128,
    pub name: String,
    pub description: Option<String>,
    pub description_translations: Vec<(String, String)>,
    pub order: i16,
    pub env_variable: String,
    pub default_value: Option<String>,
    pub user_viewable: bool,
    pub user_editable: bool,
    pub secret: bool,
    pub rules: Vec<String>,
}

/// An egg as users see it.
pub struct ApiNestEgg {
    pub uuid: u128,
    pub name: String,
    pub description: Option<String>,
    pub startup: String,
    pub separate_port: bool,
    pub features: Vec<String>,
    pub docker_images: TextMap,
    pub created: i64,
}

/// An egg as administrators see it; `R` is the repository egg it came from.
pub struct AdminApiNestEgg<R> {
    pub uuid: u128,
    pub egg_repository_egg: Option<R>,
    pub name: String,
    pub description: Option<String>,
    pub author: String,
    pub config_files: Vec<ProcessConfigurationFile>,
    pub config_startup: NestEggConfigStartup,
    pub config_stop: NestEggConfigStop,
    pub config_script: NestEggConfigScript,
    pub startup: String,
    pub force_outgoing_ip: bool,
    pub separate_port: bool,
    pub features: Vec<String>,
    pub docker_images: TextMap,
    pub file_denylist: Vec<String>,
    pub created: i64,
}

/// The image names of a docker image map, in order.
pub open spec fn image_values(m: TextMap) -> Seq<Seq<char>> {
    text_map_pairs(m).map_values(|e: (Seq<char>, Seq<char>)| e.1)
}

/// The first position whose image already came earlier.
pub open spec fn first_duplicate(v: Seq<Seq<char>>) -> Option<nat>
    decreases v.len(),
{
    if v.len() == 0 {
        None
    } else {
        match first_duplicate(v.drop_last()) {
            Some(j) => Some(j),
            None => if v.drop_last().contains(v.last()) {
                Some((v.len() - 1) as nat)
            } else {
                None
            },
        }
    }
}

/// The message for a docker image that is listed twice.
pub open spec fn duplicate_image_message(image: Seq<char>) -> Seq<char> {
    "duplicate docker image: "@ + image
}

/// No image is listed under two tags: the message names the first image
/// that repeats.
pub fn validate_docker_images(docker_images: &TextMap) -> (r: Result<(), String>)
    ensures
        match first_duplicate(image_values(*docker_images)) {
            None => r is Ok,
            Some(j) => r matches Err(msg) && msg@ == duplicate_image_message(
                image_values(*docker_images)[j as int],
            ),
        },
{
    let images = text_map_values(docker_images);
    let ghost v = image_values(*docker_images);
    assert(texts(images@) == v);
    let mut i: usize = 0;
    while i < images.len()
        invariant
            i <= images@.len(),
            v == image_values(*docker_images),
            texts(images@) == v,
            v.len() == images@.len(),
            first_duplicate(v.subrange(0, i as int)) is None,
        decreases images@.len() - i,
    {
        let mut k: usize = 0;
        let mut seen = false;
        while k < i
            invariant
                k <= i < images@.len(),
                texts(images@) == v,
                v.len() == images@.len(),
                seen == (exists|t: int| 0 <= t < k && v[t] == v[i as int]),
            decreases i - k,
        {
            let same = text_eq(images[k].as_str(), images[i].as_str());
            proof {
                assert(v[k as int] == images@[k as int]@);
                assert(v[i as int] == images@[i as int]@);
            }
            if same {
                seen = true;
            }
            k = k + 1;
        }
        let ghost pre = v.subrange(0, i as int);
        assert(v.subrange(0, i + 1).drop_last() =~= pre);
        assert(v.subrange(0, i + 1).last() == v[i as int]);
        if seen {
            proof {
                let t = choose|t: int| 0 <= t < i && v[t] == v[i as int];
                assert(pre[t] == v[i as int]);
                assert(pre.contains(v[i as int]));
                lemma_first_duplicate_prefix(v, (i + 1) as nat);
                assert(v[i as int] == images@[i as int]@);
            }
            let mut msg = "duplicate docker image: ".to_owned();
            push_str(&mut msg, images[i].as_str());
            return Err(msg);
        }
        proof {
            if pre.contains(v[i as int]) {
                let t = choose|t: int| 0 <= t < pre.len() && pre[t] == v[i as int];
                assert(v[t] == v[i as int]);
            }
        }
        i = i + 1;
    }
    assert(v.subrange(0, v.len() as int) =~= v);
    Ok(())
}

proof fn lemma_first_duplicate_prefix(v: Seq<Seq<char>>, n: nat)
    requires
        n <= v.len(),
        first_duplicate(v.subrange(0, n as int)) is Some,
    ensures
        first_duplicate(v) == first_duplicate(v.subrange(0, n as int)),
    decreases v.len() - n,
{
    if n < v.len() {
        assert(v.subrange(0, n + 1int).drop_last() =~= v.subrange(0, n as int));
        lemma_first_duplicate_prefix(v, n + 1);
    } else {
        assert(v.subrange(0, n as int) =~= v);
    }
}

/// A stored configuration file as an exported egg lists it.
pub open spec fn export_file(f: ProcessConfigurationFile) -> (String, ExportedNestEggConfigsFilesFile) {
    (f.file, ExportedNestEggConfigsFilesFile { create_new: f.create_new, parser: f.parser, replace: f.replace })
}

/// An exported configuration file as the panel stores it.
pub open spec fn import_file(e: (String, ExportedNestEggConfigsFilesFile)) -> ProcessConfigurationFile {
    ProcessConfigurationFile { file: e.0, create_new: e.1.create_new, parser: e.1.parser, replace: e.1.replace }
}

/// Converts exported configuration files to stored ones, in order.
pub fn import_config_files(files: OrderedMap<ExportedNestEggConfigsFilesFile>) -> (r: Vec<ProcessConfigurationFile>)
    ensures
        r@ == files.pairs().map_values(|e: (String, ExportedNestEggConfigsFilesFile)| import_file(e)),
{
    let ghost src = files.pairs();
    let mut rest = crate::ordered_map::reversed(files.entries);
    let mut out: Vec<ProcessConfigurationFile> = Vec::new();
    while rest.len() > 0
        invariant
            out@.len() + rest@.len() == src.len(),
            forall|j: int| 0 <= j < out@.len() ==> out@[j] == import_file(src[j]),
            forall|j: int| 0 <= j < rest@.len() ==> #[trigger] rest@[j] == src[src.len() - 1 - j],
        decreases rest@.len(),
    {
        let (file, f) = rest.pop().unwrap();
        out.push(ProcessConfigurationFile { file, create_new: f.create_new, parser: f.parser, replace: f.replace });
    }
    assert(out@ =~= src.map_values(|e: (String, ExportedNestEggConfigsFilesFile)| import_file(e)));
    out
}

/// Converts stored configuration files to the exported map, keyed by path:
/// a path that repeats keeps its first place and its last contents.
pub fn export_config_files(files: Vec<ProcessConfigurationFile>) -> (r: OrderedMap<ExportedNestEggConfigsFilesFile>)
    ensures
        r.pairs() == map_collect(files@.map_values(|f: ProcessConfigurationFile| export_file(f))),
{
    let ghost src = files@;
    let mut rest = crate::ordered_map::reversed(files);
    let mut pairs: Vec<(String, ExportedNestEggConfigsFilesFile)> = Vec::new();
    while rest.len() > 0
        invariant
            pairs@.len() + rest@.len() == src.len(),
            forall|j: int| 0 <= j < pairs@.len() ==> pairs@[j] == export_file(src[j]),
            forall|j: int| 0 <= j < rest@.len() ==> #[trigger] rest@[j] == src[src.len() - 1 - j],
        decreases rest@.len(),
    {
        let f = rest.pop().unwrap();
        pairs.push((f.file, ExportedNestEggConfigsFilesFile { create_new: f.create_new, parser: f.parser, replace: f.replace }));
    }
    assert(pairs@ =~= src.map_values(|f: ProcessConfigurationFile| export_file(f)));
    OrderedMap::collect(pairs)
}

/// Exporting stored configuration files whose paths are distinct and
/// importing them again gives the same files back, in order.
pub proof fn law_config_files_round_trip(files: Seq<ProcessConfigurationFile>)
    requires
        forall|i: int, j: int| 0 <= i < j < files.len() ==> files[i].file@ != files[j].file@,
    ensures
        map_collect(files.map_values(|f: ProcessConfigurationFile| export_file(f))).map_values(
            |e: (String, ExportedNestEggConfigsFilesFile)| import_file(e),
        ) == files,
{
    let pairs = files.map_values(|f: ProcessConfigurationFile| export_file(f));
    assert(keys_distinct(pairs)) by {
        assert forall|i: int, j: int| 0 <= i < j < pairs.len() implies pairs[i].0@ != pairs[j].0@ by {
            assert(pairs[i].0 == files[i].file);
            assert(pairs[j].0 == files[j].file);
        }
    }
    lemma_collect_distinct(pairs);
    assert(pairs.map_values(|e: (String, ExportedNestEggConfigsFilesFile)| import_file(e)) =~= files);
}

/// An empty description counts as none.
pub open spec fn normalized_description(d: Option<String>) -> Option<String> {
    match d {
        Some(s) => if s@.len() == 0 {
            None
        } else {
            Some(s)
        },
        None => None,
    }
}

/// Drops a description that is empty.
pub fn normalize_description(d: Option<String>) -> (r: Option<String>)
    ensures
        r == normalized_description(d),
{
    match d {
        Some(s) => if s.as_str().is_empty() {
            None
        } else {
            Some(s)
        },
        None => None,
    }
}

/// The options that import an exported variable into egg `egg_uuid`.
pub open spec fn spec_variable_options(egg_uuid: u128, v: ExportedNestEggVariable) -> CreateNestEggVariableOptions {
    CreateNestEggVariableOptions {
        egg_uuid,
        name: v.name,
        description: normalized_description(v.description),
        description_translations: v.description_translations,
        order: v.order,
        env_variable: v.env_variable,
        default_value: v.default_value,
        user_viewable: v.user_viewable,
        user_editable: v.user_editable,
        secret: v.secret,
        rules: v.rules,
    }
}

/// The variables that importing creates: those whose rules are valid
/// (`rules_valid[i]` tells it of `variables[i]`), in order, with an empty
/// description dropped.
pub open spec fn spec_import_variables(
    egg_uuid: u128,
    variables: Seq<ExportedNestEggVariable>,
    rules_valid: Seq<bool>,
) -> Seq<CreateNestEggVariableOptions>
    decreases variables.len(),
{
    if variables.len() == 0 {
        Seq::empty()
    } else {
        let init = spec_import_variables(egg_uuid, variables.drop_last(), rules_valid);
        if rules_valid[variables.len() - 1] {
            init.push(spec_variable_options(egg_uuid, variables.last()))
        } else {
            init
        }
    }
}

/// How many of the first `i` flags of `rv` are set.
pub open spec fn valid_before(rv: Seq<bool>, i: int) -> nat
    decreases i,
{
    if i <= 0 {
        0
    } else {
        valid_before(rv, i - 1) + if rv[i - 1] {
            1nat
        } else {
            0nat
        }
    }
}

proof fn lemma_valid_before_mono(rv: Seq<bool>, i: int, j: int)
    requires
        0 <= i <= j,
    ensures
        valid_before(rv, i) <= valid_before(rv, j),
    decreases j - i,
{
    if i < j {
        lemma_valid_before_mono(rv, i, j - 1);
    }
}

/// Importing keeps each variable whose rules are valid, in order, and
/// creates it with the exported variable's own name, environment variable,
/// order, default value, visibility, editability, secrecy, rules and
/// translations, in the egg being imported into; only an empty description
/// is dropped. Variables whose rules are invalid are left out.
pub proof fn law_import_variables_keep_fields(
    egg_uuid: u128,
    variables: Seq<ExportedNestEggVariable>,
    rules_valid: Seq<bool>,
)
    requires
        rules_valid.len() == variables.len(),
    ensures
        spec_import_variables(egg_uuid, variables, rules_valid).len() == valid_before(rules_valid, variables.len() as int),
        forall|i: int|
            0 <= i < variables.len() && rules_valid[i] ==> {
                let o = #[trigger] spec_import_variables(egg_uuid, variables, rules_valid)[valid_before(
                    rules_valid,
                    i,
                ) as int];
                let v = variables[i];
                &&& o.egg_uuid == egg_uuid
                &&& o.name == v.name
                &&& o.env_variable == v.env_variable
                &&& o.order == v.order
                &&& o.default_value == v.default_value
                &&& o.user_viewable == v.user_viewable
                &&& o.user_editable == v.user_editable
                &&& o.secret == v.secret
                &&& o.rules == v.rules
                &&& o.description_translations == v.description_translations
                &&& o.description == match v.description {
                    Some(d) => if d@.len() == 0 {
                        None
                    } else {
                        Some(d)
                    },
                    None => None,
                }
            },
    decreases variables.len(),
{
    let n = variables.len() as int;
    if n > 0 {
        let init = variables.drop_last();
        law_import_variables_keep_fields(egg_uuid, init, rules_valid.subrange(0, n - 1));
        lemma_import_prefix(egg_uuid, init, rules_valid);
        assert forall|i: int| 0 <= i < n - 1 implies valid_before(rules_valid.subrange(0, n - 1), i) == valid_before(
            rules_valid,
            i,
        ) by {
            lemma_valid_before_prefix(rules_valid, n - 1, i);
        }
        lemma_valid_before_prefix(rules_valid, n - 1, n - 1);
        let r = spec_import_variables(egg_uuid, variables, rules_valid);
        let pre = spec_import_variables(egg_uuid, init, rules_valid);
        assert forall|i: int| 0 <= i < n - 1 && rules_valid[i] implies #[trigger] r[valid_before(rules_valid, i) as int]
            == pre[valid_before(rules_valid, i) as int] by {
            lemma_valid_before_mono(rules_valid, i + 1, n - 1);
            assert(rules_valid.subrange(0, n - 1)[i] == rules_valid[i]);
            assert(init[i] == variables[i]);
        }
        assert forall|i: int| 0 <= i < n - 1 && rules_valid[i] implies variables[i] == init[i] && rules_valid.subrange(
            0,
            n - 1,
        )[i] == rules_valid[i] by {}
    }
}

/// What importing gives for a list depends only on the flags of its own
/// positions.
proof fn lemma_import_prefix(egg_uuid: u128, variables: Seq<ExportedNestEggVariable>, rules_valid: Seq<bool>)
    requires
        variables.len() <= rules_valid.len(),
    ensures
        spec_import_variables(egg_uuid, variables, rules_valid) == spec_import_variables(
            egg_uuid,
            variables,
            rules_valid.subrange(0, variables.len() as int),
        ),
    decreases variables.len(),
{
    if variables.len() > 0 {
        lemma_import_prefix(egg_uuid, variables.drop_last(), rules_valid);
        lemma_import_prefix(egg_uuid, variables.drop_last(), rules_valid.subrange(0, variables.len() as int));
        assert(rules_valid.subrange(0, variables.len() as int).subrange(0, variables.len() - 1) =~= rules_valid.subrange(
            0,
            variables.len() - 1,
        ));
    }
}

proof fn lemma_valid_before_prefix(rv: Seq<bool>, k: int, i: int)
    requires
        0 <= i <= k <= rv.len(),
    ensures
        valid_before(rv.subrange(0, k), i) == valid_before(rv, i),
    decreases i,
{
    if i > 0 {
        lemma_valid_before_prefix(rv, k, i - 1);
    }
}

/// The variable orders that an update by import writes: a variable with
/// order 0 takes its position plus one.
pub open spec fn spec_import_order(i: int, order: i16) -> i16 {
    if order == 0 {
        (i + 1) as i16
    } else {
        order
    }
}

/// An update by import keeps a variable's own order, and gives a variable
/// without one (order 0) its position counted from one.
pub proof fn law_import_order(i: int, order: i16)
    requires
        0 <= i < 32767,
    ensures
        order != 0 ==> spec_import_order(i, order) == order,
        order == 0 ==> spec_import_order(i, order) == i + 1,
{
}

/// The largest order among `variables`, or 0 when there is none.
pub open spec fn max_order(variables: Seq<ExportedNestEggVariable>) -> int
    decreases variables.len(),
{
    if variables.len() == 0 {
        0
    } else {
        let m = max_order(variables.drop_last());
        if variables.len() == 1 {
            variables.last().order as int
        } else if variables.last().order > m {
            variables.last().order as int
        } else {
            m
        }
    }
}

/// `o` creates, in nest `nest_uuid`, the egg that `x` exports: every field
/// as exported, the configuration files as a list in the exported order.
pub open spec fn spec_imported(o: CreateNestEggOptions, nest_uuid: u128, egg_repository_egg_uuid: Option<u128>, x: ExportedNestEgg) -> bool {
    &&& o.nest_uuid == nest_uuid
    &&& o.egg_repository_egg_uuid == egg_repository_egg_uuid
    &&& o.author == x.author
    &&& o.name == x.name
    &&& o.description == x.description
    &&& o.config_files@ == x.config.files.pairs().map_values(
        |e: (String, ExportedNestEggConfigsFilesFile)| import_file(e),
    )
    &&& o.config_startup == x.config.startup
    &&& o.config_stop == x.config.stop
    &&& o.config_script == x.scripts.installation
    &&& o.startup == x.startup
    &&& o.force_outgoing_ip == x.force_outgoing_ip
    &&& o.separate_port == x.separate_port
    &&& o.features == x.features
    &&& o.docker_images == x.docker_images
    &&& o.file_denylist == x.file_denylist
}

/// `x` is egg `e` exported with `variables`: the configuration files keyed
/// by path, every other field as stored.
pub open spec fn spec_exported(x: ExportedNestEgg, e: NestEgg, variables: Vec<ExportedNestEggVariable>) -> bool {
    &&& x.uuid == e.uuid
    &&& x.author == e.author
    &&& x.name == e.name
    &&& x.description == e.description
    &&& x.config.files.pairs() == map_collect(
        e.config_files@.map_values(|f: ProcessConfigurationFile| export_file(f)),
    )
    &&& x.config.startup == e.config_startup
    &&& x.config.stop == e.config_stop
    &&& x.scripts.installation == e.config_script
    &&& x.startup == e.startup
    &&& x.force_outgoing_ip == e.force_outgoing_ip
    &&& x.separate_port == e.separate_port
    &&& x.features == e.features
    &&& x.docker_images == e.docker_images
    &&& x.file_denylist == e.file_denylist
    &&& x.variables == variables
}

/// Exporting an egg whose configuration files have distinct paths and
/// importing the export creates an egg like it: every field the export
/// carries comes back as it was, the configuration files in order.
pub proof fn law_export_import_round_trip(
    e: NestEgg,
    variables: Vec<ExportedNestEggVariable>,
    x: ExportedNestEgg,
    o: CreateNestEggOptions,
    nest_uuid: u128,
    egg_repository_egg_uuid: Option<u128>,
)
    requires
        forall|i: int, j: int|
            0 <= i < j < e.config_files@.len() ==> e.config_files@[i].file@ != e.config_files@[j].file@,
        spec_exported(x, e, variables),
        spec_imported(o, nest_uuid, egg_repository_egg_uuid, x),
    ensures
        o.author == e.author && o.name == e.name && o.description == e.description,
        o.config_files@ == e.config_files@,
        o.config_startup == e.config_startup && o.config_stop == e.config_stop,
        o.config_script == e.config_script && o.startup == e.startup,
        o.force_outgoing_ip == e.force_outgoing_ip && o.separate_port == e.separate_port,
        o.features == e.features && o.docker_images == e.docker_images,
        o.file_denylist == e.file_denylist,
{
    law_config_files_round_trip(e.config_files@);
}

impl NestEgg {
    /// The options that importing `exported` into nest `nest_uuid` creates
    /// the egg with.
    pub fn import_options(nest_uuid: u128, egg_repository_egg_uuid: Option<u128>, exported: ExportedNestEgg) -> (r: (CreateNestEggOptions, Vec<ExportedNestEggVariable>))
        ensures
            spec_imported(r.0, nest_uuid, egg_repository_egg_uuid, exported),
            r.1 == exported.variables,
    {
        let config_files = import_config_files(exported.config.files);
        (CreateNestEggOptions {
            nest_uuid,
            egg_repository_egg_uuid,
            author: exported.author,
            name: exported.name,
            description: exported.description,
            config_files,
            config_startup: exported.config.startup,
            config_stop: exported.config.stop,
            config_script: exported.scripts.installation,
            startup: exported.startup,
            force_outgoing_ip: exported.force_outgoing_ip,
            separate_port: exported.separate_port,
            features: exported.features,
            docker_images: exported.docker_images,
            file_denylist: exported.file_denylist,
        }, exported.variables)
    }

    /// The variables that importing creates for egg `egg_uuid`.
    pub fn import_variables(egg_uuid: u128, variables: Vec<ExportedNestEggVariable>, rules_valid: &Vec<bool>) -> (r: Vec<CreateNestEggVariableOptions>)
        requires
            rules_valid@.len() == variables@.len(),
        ensures
            r@ == spec_import_variables(egg_uuid, variables@, rules_valid@),
    {
        let ghost src = variables@;
        let n = variables.len();
        let mut rest = crate::ordered_map::reversed(variables);
        let mut out: Vec<CreateNestEggVariableOptions> = Vec::new();
        let mut i: usize = 0;
        while i < n
            invariant
                i <= n,
                n == src.len(),
                rules_valid@.len() == n,
                i + rest@.len() == n,
                forall|j: int| 0 <= j < rest@.len() ==> #[trigger] rest@[j] == src[n - 1 - j],
                out@ == spec_import_variables(egg_uuid, src.subrange(0, i as int), rules_valid@),
            decreases n - i,
        {
            let v = rest.pop().unwrap();
            assert(src.subrange(0, i + 1).drop_last() =~= src.subrange(0, i as int));
            if rules_valid[i] {
                let description = normalize_description(v.description);
                out.push(CreateNestEggVariableOptions {
                    egg_uuid,
                    name: v.name,
                    description,
                    description_translations: v.description_translations,
                    order: v.order,
                    env_variable: v.env_variable,
                    default_value: v.default_value,
                    user_viewable: v.user_viewable,
                    user_editable: v.user_editable,
                    secret: v.secret,
                    rules: v.rules,
                });
            }
            i = i + 1;
        }
        assert(src.subrange(0, n as int) =~= src);
        out
    }

    /// The order that an update by import writes for the variable at
    /// position `i`.
    pub fn import_update_order(i: usize, order: i16) -> (r: i16)
        requires
            i < 32767,
        ensures
            r == spec_import_order(i as int, order),
    {
        if order == 0 {
            (i as i16) + 1
        } else {
            order
        }
    }

    /// Where the variables that an update by import no longer names are
    /// moved to: after all the imported ones (their count plus the largest
    /// order among them).
    pub fn unused_variables_order_base(variables: &Vec<ExportedNestEggVariable>) -> (r: i16)
        requires
            variables@.len() < 32768,
            i16::MIN <= variables@.len() + max_order(variables@) <= i16::MAX,
        ensures
            r as int == variables@.len() + max_order(variables@),
    {
        let mut m: i16 = 0;
        let mut i: usize = 0;
        while i < variables.len()
            invariant
                i <= variables@.len(),
                m as int == max_order(variables@.subrange(0, i as int)),
            decreases variables@.len() - i,
        {
            assert(variables@.subrange(0, i + 1).drop_last() =~= variables@.subrange(0, i as int));
            if i == 0 || variables[i].order > m {
                m = variables[i].order;
            }
            i = i + 1;
        }
        assert(variables@.subrange(0, variables@.len() as int) =~= variables@);
        (variables.len() as i16) + m
    }

    /// The environment variable names that an exported egg defines, in order.
    pub fn exported_env_variables(exported: &ExportedNestEgg) -> (r: Vec<String>)
        ensures
            texts(r@) == exported.variables@.map_values(|v: ExportedNestEggVariable| v.env_variable@),
    {
        let mut r: Vec<String> = Vec::new();
        let mut i: usize = 0;
        while i < exported.variables.len()
            invariant
                i <= exported.variables@.len(),
                r@.len() == i,
                forall|j: int| 0 <= j < i ==> #[trigger] r@[j]@ == exported.variables@[j].env_variable@,
            decreases exported.variables@.len() - i,
        {
            r.push(exported.variables[i].env_variable.clone());
            i = i + 1;
        }
        assert(texts(r@) =~= exported.variables@.map_values(|v: ExportedNestEggVariable| v.env_variable@));
        r
    }

    /// The egg in its exported form, with the variables given.
    pub fn into_exported(self, variables: Vec<ExportedNestEggVariable>) -> (r: ExportedNestEgg)
        ensures
            spec_exported(r, self, variables),
    {
        let files = export_config_files(self.config_files);
        ExportedNestEgg {
            uuid: self.uuid,
            author: self.author,
            name: self.name,
            description: self.description,
            config: ExportedNestEggConfigs {
                files,
                startup: self.config_startup,
                stop: self.config_stop,
            },
            scripts: ExportedNestEggScripts { installation: self.config_script },
            startup: self.startup,
            force_outgoing_ip: self.force_outgoing_ip,
            separate_port: self.separate_port,
            features: self.features,
            docker_images: self.docker_images,
            file_denylist: self.file_denylist,
            variables,
        }
    }

    /// The egg as users see it.
    pub fn into_api_object(self) -> (r: ApiNestEgg)
        ensures
            r.uuid == self.uuid,
            r.name == self.name,
            r.description == self.description,
            r.startup == self.startup,
            r.separate_port == self.separate_port,
            r.features == self.features,
            r.docker_images == self.docker_images,
            r.created == self.created,
    {
        ApiNestEgg {
            uuid: self.uuid,
            name: self.name,
            description: self.description,
            startup: self.startup,
            separate_port: self.separate_port,
            features: self.features,
            docker_images: self.docker_images,
            created: self.created,
        }
    }

    /// The egg as administrators see it, with the repository egg it came
    /// from.
    pub fn into_admin_api_object<R>(self, egg_repository_egg: Option<R>) -> (r: AdminApiNestEgg<R>)
        ensures
            r.uuid == self.uuid,
            r.egg_repository_egg == egg_repository_egg,
            r.name == self.name,
            r.description == self.description,
            r.author == self.author,
            r.config_files == self.config_files,
            r.config_startup == self.config_startup,
            r.config_stop == self.config_stop,
            r.config_script == self.config_script,
            r.startup == self.startup,
            r.force_outgoing_ip == self.force_outgoing_ip,
            r.separate_port == self.separate_port,
            r.features == self.features,
            r.docker_images == self.docker_images,
            r.file_denylist == self.file_denylist,
            r.created == self.created,
    {
        AdminApiNestEgg {
            uuid: self.uuid,
            egg_repository_egg,
            name: self.name,
            description: self.description,
            author: self.author,
            config_files: self.config_files,
            config_startup: self.config_startup,
            config_stop: self.config_stop,
            config_script: self.config_script,
            startup: self.startup,
            force_outgoing_ip: self.force_outgoing_ip,
            separate_port: self.separate_port,
            features: self.features,
            docker_images: self.docker_images,
            file_denylist: self.file_denylist,
            created: self.created,
        }
    }

    /// Applies an update: each field that the options set takes its new
    /// value, every other field keeps its own.
    pub fn apply_update(&mut self, options: UpdateNestEggOptions)
        ensures
            spec_updated(*final(self), *old(self), options),
    {
        set_if(&mut self.egg_repository_egg_uuid, options.egg_repository_egg_uuid);
        set_if(&mut self.author, options.author);
        set_if(&mut self.name, options.name);
        set_if(&mut self.description, options.description);
        set_if(&mut self.config_files, options.config_files);
        set_if(&mut self.config_startup, options.config_startup);
        set_if(&mut self.config_stop, options.config_stop);
        set_if(&mut self.config_script, options.config_script);
        set_if(&mut self.startup, options.startup);
        set_if(&mut self.force_outgoing_ip, options.force_outgoing_ip);
        set_if(&mut self.separate_port, options.separate_port);
        set_if(&mut self.features, options.features);
        set_if(&mut self.docker_images, options.docker_images);
        set_if(&mut self.file_denylist, options.file_denylist);
    }

    /// Updates the egg: options that break their limits are refused, then
    /// a repository egg that the options name and that does not exist
    /// (`repository_egg_exists` tells); a refused update changes nothing,
    /// a valid one is applied.
    pub fn update(&mut self, options: UpdateNestEggOptions, repository_egg_exists: bool) -> (r: Result<(), ModelError>)
        ensures
            spec_update_errors(options).len() > 0 ==> (r matches Err(ModelError::Validation(e)) && texts(e@)
                == spec_update_errors(options) && *final(self) == *old(self)),
            spec_update_errors(options).len() == 0 && names_missing_repository_egg(options, repository_egg_exists)
                ==> (r matches Err(ModelError::InvalidRelation(k)) && k@ == "egg_repository_egg"@ && *final(self)
                == *old(self)),
            spec_update_errors(options).len() == 0 && !names_missing_repository_egg(options, repository_egg_exists)
                ==> r is Ok && spec_updated(*final(self), *old(self), options),
    {
        let errors = options.validate();
        if errors.len() > 0 {
            return Err(ModelError::Validation(errors));
        }
        if let Some(Some(_)) = options.egg_repository_egg_uuid {
            if !repository_egg_exists {
                return Err(ModelError::InvalidRelation("egg_repository_egg".to_owned()));
            }
        }
        self.apply_update(options);
        Ok(())
    }
}

/// The update names a repository egg, and it does not exist.
pub open spec fn names_missing_repository_egg(o: UpdateNestEggOptions, repository_egg_exists: bool) -> bool {
    match o.egg_repository_egg_uuid {
        Some(Some(_)) => !repository_egg_exists,
        _ => false,
    }
}

/// `new` is `old` with the fields that `o` sets replaced.
pub open spec fn spec_updated(new: NestEgg, old: NestEgg, o: UpdateNestEggOptions) -> bool {
    &&& new.uuid == old.uuid
    &&& new.nest_uuid == old.nest_uuid
    &&& new.egg_repository_egg_uuid == pick(o.egg_repository_egg_uuid, old.egg_repository_egg_uuid)
    &&& new.author == pick(o.author, old.author)
    &&& new.name == pick(o.name, old.name)
    &&& new.description == pick(o.description, old.description)
    &&& new.config_files == pick(o.config_files, old.config_files)
    &&& new.config_startup == pick(o.config_startup, old.config_startup)
    &&& new.config_stop == pick(o.config_stop, old.config_stop)
    &&& new.config_script == pick(o.config_script, old.config_script)
    &&& new.startup == pick(o.startup, old.startup)
    &&& new.force_outgoing_ip == pick(o.force_outgoing_ip, old.force_outgoing_ip)
    &&& new.separate_port == pick(o.separate_port, old.separate_port)
    &&& new.features == pick(o.features, old.features)
    &&& new.docker_images == pick(o.docker_images, old.docker_images)
    &&& new.file_denylist == pick(o.file_denylist, old.file_denylist)
    &&& new.created == old.created
}

/// What an applied egg update leaves: every field the options set holds
/// the options' value, every field they leave out keeps its old value, and
/// the identity, nest and creation time never change.
pub proof fn law_egg_update_sets_fields(new: NestEgg, old: NestEgg, o: UpdateNestEggOptions)
    requires
        spec_updated(new, old, o),
    ensures
        o.egg_repository_egg_uuid matches Some(v) ==> new.egg_repository_egg_uuid == v,
        o.egg_repository_egg_uuid is None ==> new.egg_repository_egg_uuid == old.egg_repository_egg_uuid,
        o.author matches Some(v) ==> new.author == v,
        o.author is None ==> new.author == old.author,
        o.name matches Some(v) ==> new.name == v,
        o.name is None ==> new.name == old.name,
        o.description matches Some(v) ==> new.description == v,
        o.description is None ==> new.description == old.description,
        o.config_files matches Some(v) ==> new.config_files == v,
        o.config_files is None ==> new.config_files == old.config_files,
        o.config_startup matches Some(v) ==> new.config_startup == v,
        o.config_startup is None ==> new.config_startup == old.config_startup,
        o.config_stop matches Some(v) ==> new.config_stop == v,
        o.config_stop is None ==> new.config_stop == old.config_stop,
        o.config_script matches Some(v) ==> new.config_script == v,
        o.config_script is None ==> new.config_script == old.config_script,
        o.startup matches Some(v) ==> new.startup == v,
        o.startup is None ==> new.startup == old.startup,
        o.force_outgoing_ip matches Some(v) ==> new.force_outgoing_ip == v,
        o.force_outgoing_ip is None ==> new.force_outgoing_ip == old.force_outgoing_ip,
        o.separate_port matches Some(v) ==> new.separate_port == v,
        o.separate_port is None ==> new.separate_port == old.separate_port,
        o.features matches Some(v) ==> new.features == v,
        o.features is None ==> new.features == old.features,
        o.docker_images matches Some(v) ==> new.docker_images == v,
        o.docker_images is None ==> new.docker_images == old.docker_images,
        o.file_denylist matches Some(v) ==> new.file_denylist == v,
        o.file_denylist is None ==> new.file_denylist == old.file_denylist,
        new.uuid == old.uuid,
        new.nest_uuid == old.nest_uuid,
        new.created == old.created,
{
}

/// An update applied a second time changes nothing more.
pub proof fn law_update_idempotent(a: NestEgg, b: NestEgg, c: NestEgg, o: UpdateNestEggOptions)
    requires
        spec_updated(b, a, o),
        spec_updated(c, b, o),
    ensures
        c == b,
{
}

/// An update that sets nothing leaves the egg as it was.
pub proof fn law_empty_update_keeps(a: NestEgg, b: NestEgg, o: UpdateNestEggOptions)
    requires
        o.egg_repository_egg_uuid is None && o.author is None && o.name is None,
        o.description is None && o.config_files is None && o.config_startup is None,
        o.config_stop is None && o.config_script is None && o.startup is None,
        o.force_outgoing_ip is None && o.separate_port is None && o.features is None,
        o.docker_images is None && o.file_denylist is None,
        spec_updated(b, a, o),
    ensures
        b == a,
{
}

/// The fields of an egg update that break their limits, in field order.
pub open spec fn spec_update_errors(o: UpdateNestEggOptions) -> Seq<Seq<char>> {
    flag(!(match o.author {
        Some(s) => chars_within(s@, 2, 255),
        None => true,
    }), "author"@) + flag(!opt_chars_within(o.name, 3, 255), "name"@) + flag(
        !opt2_chars_within(o.description, 1, 1024),
        "description"@,
    ) + flag(!opt_chars_within(o.startup, 1, 4096), "startup"@) + flag(
        !(match o.docker_images {
            Some(m) => first_duplicate(image_values(m)) is None,
            None => true,
        }),
        "docker_images"@,
    )
}

/// The fields of egg creation options that break their limits.
pub open spec fn spec_create_errors(o: CreateNestEggOptions) -> Seq<Seq<char>> {
    flag(!chars_within(o.author@, 2, 255), "author"@) + flag(!chars_within(o.name@, 1, 255), "name"@)
        + flag(!opt_chars_within(o.description, 1, 1024), "description"@) + flag(
        !chars_within(o.startup@, 1, 4096),
        "startup"@,
    ) + flag(first_duplicate(image_values(o.docker_images)) is Some, "docker_images"@)
}

/// The fields of an exported egg that break their limits.
pub open spec fn spec_exported_errors(e: ExportedNestEgg) -> Seq<Seq<char>> {
    flag(!chars_within(e.name@, 1, 255), "name"@) + flag(
        !(match e.description {
            Some(d) => bytes_within(d@, 1024),
            None => true,
        }),
        "description"@,
    ) + flag(!chars_within(e.author@, 2, 255), "author"@) + flag(
        !chars_within(e.startup@, 1, 8192),
        "startup"@,
    ) + flag(first_duplicate(image_values(e.docker_images)) is Some, "docker_images"@)
}

impl UpdateNestEggOptions {
    /// The fields that break their limits; empty when the options are valid.
    pub fn validate(&self) -> (errors: Vec<String>)
        ensures
            texts(errors@) == spec_update_errors(*self),
    {
        let mut errors: Vec<String> = Vec::new();
        let author_ok = match &self.author {
            Some(s) => text_within(s.as_str(), 2, 255),
            None => true,
        };
        note(&mut errors, author_ok, "author");
        note(&mut errors, opt_text_within(&self.name, 3, 255), "name");
        note(&mut errors, opt2_text_within(&self.description, 1, 1024), "description");
        note(&mut errors, opt_text_within(&self.startup, 1, 4096), "startup");
        let images_ok = match &self.docker_images {
            Some(m) => validate_docker_images(m).is_ok(),
            None => true,
        };
        note(&mut errors, images_ok, "docker_images");
        assert(texts(errors@) =~= spec_update_errors(*self));
        errors
    }
}

impl CreateNestEggOptions {
    /// The fields that break their limits; empty when the options are valid.
    pub fn validate(&self) -> (errors: Vec<String>)
        ensures
            texts(errors@) == spec_create_errors(*self),
    {
        let mut errors: Vec<String> = Vec::new();
        note(&mut errors, text_within(self.author.as_str(), 2, 255), "author");
        note(&mut errors, text_within(self.name.as_str(), 1, 255), "name");
        note(&mut errors, opt_text_within(&self.description, 1, 1024), "description");
        note(&mut errors, text_within(self.startup.as_str(), 1, 4096), "startup");
        note(&mut errors, validate_docker_images(&self.docker_images).is_ok(), "docker_images");
        assert(texts(errors@) =~= spec_create_errors(*self));
        errors
    }
}

impl ExportedNestEgg {
    /// The fields that break their limits; empty when the egg is valid.
    pub fn validate(&self) -> (errors: Vec<String>)
        ensures
            texts(errors@) == spec_exported_errors(*self),
    {
        let mut errors: Vec<String> = Vec::new();
        note(&mut errors, text_within(self.name.as_str(), 1, 255), "name");
        let description_ok = match &self.description {
            Some(d) => bytes_at_most(d.as_str(), 1024),
            None => true,
        };
        note(&mut errors, description_ok, "description");
        note(&mut errors, text_within(self.author.as_str(), 2, 255), "author");
        note(&mut errors, text_within(self.startup.as_str(), 1, 8192), "startup");
        note(&mut errors, validate_docker_images(&self.docker_images).is_ok(), "docker_images");
        assert(texts(errors@) =~= spec_exported_errors(*self));
        errors
    }
}

/// How an egg file is read.
#[derive(Clone, Copy, PartialEq, Eq, Debug)]
pub enum EggFormat {
    Json,
    Yaml,
}

/// Files larger than this are never read as eggs.
pub const MAX_EGG_SIZE: u64 = 1048576;

/// A directory entry is an egg file where it is a file whose extension
/// is `json`, `yml` or `yaml`.
pub open spec fn spec_is_egg_file(is_dir: bool, path: Seq<char>) -> bool {
    !is_dir && (extension_of(path) == Some("json"@) || extension_of(path) == Some("yml"@)
        || extension_of(path) == Some("yaml"@))
}

/// Whether a directory entry is an egg file, worth reading at all.
pub fn is_egg_file(is_dir: bool, path: &str) -> (r: bool)
    ensures
        r == spec_is_egg_file(is_dir, path@),
{
    if is_dir {
        return false;
    }
    match extension(path) {
        Some(e) => text_eq(e.as_str(), "json") || text_eq(e.as_str(), "yml") || text_eq(
            e.as_str(),
            "yaml",
        ),
        None => false,
    }
}

/// Whether an egg file is read: a file of at most one mebibyte.
pub fn egg_file_size_ok(is_file: bool, len: u64) -> (r: bool)
    ensures
        r == (is_file && len <= MAX_EGG_SIZE),
{
    is_file && len <= MAX_EGG_SIZE
}

/// How an egg file is read: JSON where its extension is `json`, else
/// YAML.
pub fn egg_file_format(path: &str) -> (r: EggFormat)
    ensures
        (r == EggFormat::Json) == (extension_of(path@) == Some("json"@)),
{
    match extension(path) {
        Some(e) => if text_eq(e.as_str(), "json") {
            EggFormat::Json
        } else {
            EggFormat::Yaml
        },
        None => EggFormat::Yaml,
    }
}

/// The cache key of the merged configuration of the egg `egg`.
pub fn configuration_cache_key(egg: u128) -> (r: String)
    ensures
        r@ == "nest_egg::"@ + crate::ids::uuid_hyphenated(egg as nat) + "::configuration"@,
{
    let mut r = "nest_egg::".to_owned();
    let u = crate::ids::uuid_text(egg);
    push_str(&mut r, u.as_str());
    push_str(&mut r, "::configuration");
    r
}

/// The columns of `nest_eggs`, each with the name it is read back by.
pub open spec fn nest_egg_column_list() -> Seq<(Seq<char>, Seq<char>)> {
    seq![
        ("uuid"@, "uuid"@),
        ("nest_uuid"@, "nest_uuid"@),
        ("egg_repository_egg_uuid"@, "egg_repository_egg_uuid"@),
        ("name"@, "name"@),
        ("description"@, "description"@),
        ("author"@, "author"@),
        ("config_files"@, "config_files"@),
        ("config_startup"@, "config_startup"@),
        ("config_stop"@, "config_stop"@),
        ("config_script"@, "config_script"@),
        ("startup"@, "startup"@),
        ("force_outgoing_ip"@, "force_outgoing_ip"@),
        ("separate_port"@, "separate_port"@),
        ("features"@, "features"@),
        ("docker_images"@, "docker_images"@),
        ("file_denylist"@, "file_denylist"@),
        ("created"@, "created"@),
    ]
}

impl NestEgg {
    /// The columns a query selects for a egg, read back under `prefix`.
    pub fn columns(prefix: Option<&str>) -> (r: Vec<(String, String)>)
        ensures
            pair_views(r@) == column_pairs("nest_eggs"@, nest_egg_column_list(), prefix_text(prefix)),
    {
        let columns = vec![
            ("uuid", "uuid"),
            ("nest_uuid", "nest_uuid"),
            ("egg_repository_egg_uuid", "egg_repository_egg_uuid"),
            ("name", "name"),
            ("description", "description"),
            ("author", "author"),
            ("config_files", "config_files"),
            ("config_startup", "config_startup"),
            ("config_stop", "config_stop"),
            ("config_script", "config_script"),
            ("startup", "startup"),
            ("force_outgoing_ip", "force_outgoing_ip"),
            ("separate_port", "separate_port"),
            ("features", "features"),
            ("docker_images", "docker_images"),
            ("file_denylist", "file_denylist"),
            ("created", "created"),
        ];
        let r = prefixed_columns("nest_eggs", columns.as_slice(), prefix);
        assert(column_list(columns@) =~= nest_egg_column_list());
        r
    }
}

} // verus!
