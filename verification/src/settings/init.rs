//! Creating settings files: a project file, the global file, or the
//! scaffold of a registry. The files to write are planned here; the caller
//! creates the directories and writes the files in the planned order.
use vstd::prelude::*;

pub use crate::config::schema::ConfigSpec;
use crate::config::rules::RulesConfig;
use crate::config::schema::{
    preset_holds, project_document, standard_document, ProjectConfig, StandardConfig,
};
use crate::config::tree::{tview, TomlView};
use crate::error::{context_view, Error, ErrorCode};
use crate::paths::{join, join_spec, CONFIG_FILE_NAME, RULES_FILE_NAME};
use crate::settings::show::same_error;
use crate::text::{concat2, owned};

verus! {

/// Which settings file to create.
#[derive(Debug, Clone, Copy, PartialEq, Eq, Structural)]
pub enum ConfigOption {
    Project,
    Global,
    Registry,
}

/// How a registry scaffold is made.
#[derive(Debug, Clone)]
pub struct RegistryOptions {
    pub name: String,
    pub git_init: bool,
    pub sections: bool,
}

impl Default for RegistryOptions {
    /// A registry named `registry`, without Git and without sections.
    fn default() -> (r: Self)
        ensures
            r.name@ == "registry"@,
            !r.git_init,
            !r.sections,
    {
        RegistryOptions { name: owned("registry"), git_init: false, sections: false }
    }
}

/// Everything that creating a settings file depends on.
#[derive(Debug, Clone)]
pub struct ConfigContext {
    pub option: ConfigOption,
    pub spec: ConfigSpec,
    pub output_path: String,
    pub force: bool,
    pub auto_yes: bool,
    pub dry_run: bool,
    pub hidden: bool,
    pub with_rules: bool,
    pub registry_options: RegistryOptions,
}

/// Which file to create and whether with rules.
#[derive(Debug, Clone, Copy)]
pub struct ConfigPayload {
    pub config_type: ConfigOption,
    pub with_rules: bool,
}

/// What creating a settings file reports: the main file, and on a dry run
/// the text it would hold.
#[derive(Debug, Clone)]
pub struct InitOutput {
    pub path: String,
    pub dry_run_content: Option<String>,
}

/// A document to write.
#[derive(Debug)]
pub enum InitDocument {
    Project(ProjectConfig),
    Standard(StandardConfig),
    Rules(RulesConfig),
    Text(String),
}

/// One step of creating settings files.
#[derive(Debug)]
pub enum InitStep {
    /// Create a directory and its parents.
    CreateDir(String),
    /// Save a document at a path (refused where the file exists and
    /// overwriting is not forced; not written on a dry run).
    Save(String, InitDocument),
}

/// What to do: the steps in order, the main file, and on a dry run of a
/// project or global file, the document to show instead of writing it.
#[derive(Debug)]
pub struct InitPlan {
    pub path: String,
    pub steps: Vec<InitStep>,
    pub preview: Option<InitDocument>,
}

/// The shape of a planned document.
pub enum DocShape {
    Project(ConfigSpec, bool),
    Standard(ConfigSpec),
    Rules,
    Text(Seq<char>),
}

/// The shape of a planned step.
pub enum StepShape {
    Dir(Seq<char>),
    Save(Seq<char>, DocShape),
}

/// Whether a document has a shape: a preset without a version, rules that
/// are empty, or a given text.
pub open spec fn doc_holds(d: InitDocument, s: DocShape) -> bool {
    match s {
        DocShape::Project(spec, with_rules) => d matches InitDocument::Project(p)
            && p.version is None && preset_holds(spec, p.inner.config) && if with_rules {
            p.inner.rules matches Some(x) && tview(x.0) == TomlView::Table(Seq::empty())
        } else {
            p.inner.rules is None
        },
        DocShape::Standard(spec) => d matches InitDocument::Standard(c) && c.version is None
            && preset_holds(spec, c.inner),
        DocShape::Rules => d matches InitDocument::Rules(x) && tview(x.0) == TomlView::Table(
            Seq::empty(),
        ),
        DocShape::Text(t) => d matches InitDocument::Text(x) && x@ == t,
    }
}

/// Whether a step has a shape.
pub open spec fn step_holds(st: InitStep, s: StepShape) -> bool {
    match s {
        StepShape::Dir(p) => st matches InitStep::CreateDir(q) && q@ == p,
        StepShape::Save(p, d) => st matches InitStep::Save(q, doc) && q@ == p && doc_holds(doc, d),
    }
}

/// Whether steps have shapes, one for one.
pub open spec fn steps_hold(steps: Seq<InitStep>, shapes: Seq<StepShape>) -> bool {
    steps.len() == shapes.len() && forall|i: int|
        0 <= i < steps.len() ==> step_holds(#[trigger] steps[i], shapes[i])
}

/// The README of a registry scaffold.
pub const REGISTRY_README: &'static str = "# commit-wizard registry\n\nThis repository is a commit-wizard registry.\n\nA registry is a Git repository that provides shared `config.toml` and `rules.toml` files for commit-wizard consumers.\n\n## Supported layouts\n\n### Single-source registry\n\n```text\nconfig.toml\nrules.toml\n```\n\n### Sectioned registry\n\n```text\nstandard/config.toml\nstandard/rules.toml\n\nteam1/config.toml\nteam1/rules.toml\n```\n\n## Consumer configuration\n\n```toml\nversion = 1\n\n[registry]\nuse = \"my-org\"\n\n[registries.my-org]\nurl = \"https://github.com/org/registry.git\"\nref = \"main\"\nsection = \"standard\"\n```\n\n## Resolution rules\n\n- Registry selection precedence: CLI, then ENV, then config.\n- `ref` may be a branch, tag, or commit SHA.\n- If `section` is set, commit-wizard loads `<section>/config.toml` and `<section>/rules.toml`.\n- If `section` is not set, commit-wizard loads `config.toml` and `rules.toml` from the repository root.\n- Missing files are fatal.\n- Invalid TOML or schema violations are fatal.\n- No silent fallback is allowed.\n\n## Update workflow\n\n1. Edit the shared configuration files in this repository.\n2. Commit and push the changes.\n3. Update consuming projects to the desired `ref` when needed.\n4. Consumers will re-fetch and re-validate the registry on each run.\n\n## Notes\n\n- The local registry cache is disposable and may be deleted safely.\n- State is advisory only and not authoritative.\n- Registries are trusted input; commit-wizard reads files only and must not execute code from the registry.\n";

/// The closing note of the README of a scaffold with sections.
pub const SECTIONS_NOTE: &'static str = "\nThis scaffold includes example sections: `standard/` and `team1/`.\n";

/// The README text of a registry scaffold.
pub open spec fn readme_spec(sections: bool) -> Seq<char> {
    if sections {
        REGISTRY_README@ + SECTIONS_NOTE@
    } else {
        REGISTRY_README@
    }
}

/// The README of a registry scaffold, with the note on sections where it
/// has them.
pub fn registry_readme(context: &ConfigContext) -> (r: String)
    ensures
        r@ == readme_spec(context.registry_options.sections),
{
    if context.registry_options.sections {
        concat2(REGISTRY_README, SECTIONS_NOTE)
    } else {
        owned(REGISTRY_README)
    }
}

/// Fails where the file exists and overwriting is not forced.
pub fn ensure_can_write(path: &str, exists: bool, force: bool) -> (r: Result<(), Error>)
    ensures
        r is Err <==> exists && !force,
        r matches Err(e) ==> e.code == ErrorCode::ConfigInvalid && context_view(e) == seq![
            ("path"@, path@),
            ("reason"@, "file already exists; use --force to overwrite"@),
        ],
{
    if exists && !force {
        let e = ErrorCode::ConfigInvalid.error().with_context("path", path).with_context(
            "reason",
            "file already exists; use --force to overwrite",
        );
        assert(context_view(e) =~= seq![
            ("path"@, path@),
            ("reason"@, "file already exists; use --force to overwrite"@),
        ]);
        Err(e)
    } else {
        Ok(())
    }
}

/// The steps for one section of a scaffold.
pub open spec fn section_steps(root: Seq<char>, name: Seq<char>, dry_run: bool) -> Seq<StepShape> {
    let dir = join_spec(root, name);
    let saves = seq![
        StepShape::Save(join_spec(dir, CONFIG_FILE_NAME@), DocShape::Standard(ConfigSpec::Minimal)),
        StepShape::Save(join_spec(dir, RULES_FILE_NAME@), DocShape::Rules),
    ];
    if dry_run {
        saves
    } else {
        seq![StepShape::Dir(dir)] + saves
    }
}

/// The steps of a registry scaffold: its directory (not on a dry run), the
/// minimal settings, empty rules and the README, then each section's.
pub open spec fn registry_steps(root: Seq<char>, dry_run: bool, sections: bool) -> Seq<StepShape> {
    let saves = seq![
        StepShape::Save(join_spec(root, CONFIG_FILE_NAME@), DocShape::Standard(ConfigSpec::Minimal)),
        StepShape::Save(join_spec(root, RULES_FILE_NAME@), DocShape::Rules),
        StepShape::Save(join_spec(root, "README.md"@), DocShape::Text(readme_spec(sections))),
    ];
    let base = if dry_run {
        saves
    } else {
        seq![StepShape::Dir(root)] + saves
    };
    if sections {
        base + section_steps(root, "standard"@, dry_run) + section_steps(root, "team1"@, dry_run)
    } else {
        base
    }
}

/// What creating settings files plans: the main file, the steps, and the
/// document previewed on a dry run; or the error of a global settings
/// directory that could not be found.
pub open spec fn init_plan_spec(c: ConfigContext, config_dir: Result<String, Error>) -> Result<
    (Seq<char>, Seq<StepShape>, Option<DocShape>),
    Error,
> {
    match c.option {
        ConfigOption::Project => {
            let doc = DocShape::Project(c.spec, c.with_rules);
            if c.dry_run {
                Ok((c.output_path@, Seq::empty(), Some(doc)))
            } else {
                Ok((c.output_path@, seq![StepShape::Save(c.output_path@, doc)], None))
            }
        },
        ConfigOption::Global => match config_dir {
            Err(d) => Err(d),
            Ok(root) => {
                let path = join_spec(root@, CONFIG_FILE_NAME@);
                let doc = DocShape::Standard(c.spec);
                if c.dry_run {
                    Ok((path, Seq::empty(), Some(doc)))
                } else if c.with_rules {
                    Ok(
                        (
                            path,
                            seq![
                                StepShape::Save(path, doc),
                                StepShape::Save(join_spec(root@, RULES_FILE_NAME@), DocShape::Rules),
                            ],
                            None,
                        ),
                    )
                } else {
                    Ok((path, seq![StepShape::Save(path, doc)], None))
                }
            },
        },
        ConfigOption::Registry => Ok(
            (
                join_spec(c.output_path@, CONFIG_FILE_NAME@),
                registry_steps(c.output_path@, c.dry_run, c.registry_options.sections),
                None,
            ),
        ),
    }
}

/// Steps built one after another keep their shapes.
proof fn lemma_steps_push(
    steps: Seq<InitStep>,
    shapes: Seq<StepShape>,
    st: InitStep,
    sh: StepShape,
)
    requires
        steps_hold(steps, shapes),
        step_holds(st, sh),
    ensures
        steps_hold(steps.push(st), shapes.push(sh)),
{
    assert forall|i: int| 0 <= i < steps.len() + 1 implies step_holds(
        #[trigger] steps.push(st)[i],
        shapes.push(sh)[i],
    ) by {
        if i < steps.len() {
            assert(steps.push(st)[i] == steps[i]);
            assert(shapes.push(sh)[i] == shapes[i]);
        }
    }
}

/// Empty rules.
fn empty_rules() -> (r: RulesConfig)
    ensures
        tview(r.0) == TomlView::Table(Seq::empty()),
{
    RulesConfig::default()
}

/// The minimal settings document.
fn minimal_document() -> (r: InitDocument)
    ensures
        doc_holds(r, DocShape::Standard(ConfigSpec::Minimal)),
{
    InitDocument::Standard(standard_document(ConfigSpec::Minimal))
}

/// Adds the steps of a directory holding minimal settings and empty rules.
fn push_section(steps: &mut Vec<InitStep>, root: &str, name: &str, dry_run: bool)
    ensures
        forall|shapes: Seq<StepShape>|
            steps_hold(old(steps)@, shapes) ==> steps_hold(
                final(steps)@,
                shapes + section_steps(root@, name@, dry_run),
            ),
{
    let ghost before = steps@;
    let dir = join(root, name);
    let ghost pre: Seq<StepShape> = if dry_run {
        Seq::empty()
    } else {
        seq![StepShape::Dir(dir@)]
    };
    if !dry_run {
        steps.push(InitStep::CreateDir(dir.clone()));
    }
    let config = join(dir.as_str(), CONFIG_FILE_NAME);
    let rules = join(dir.as_str(), RULES_FILE_NAME);
    steps.push(InitStep::Save(config, minimal_document()));
    steps.push(InitStep::Save(rules, InitDocument::Rules(empty_rules())));
    proof {
        let s1 = StepShape::Save(
            join_spec(dir@, CONFIG_FILE_NAME@),
            DocShape::Standard(ConfigSpec::Minimal),
        );
        let s2 = StepShape::Save(join_spec(dir@, RULES_FILE_NAME@), DocShape::Rules);
        assert(section_steps(root@, name@, dry_run) =~= pre.push(s1).push(s2));
        assert forall|shapes: Seq<StepShape>| steps_hold(before, shapes) implies steps_hold(
            steps@,
            shapes + section_steps(root@, name@, dry_run),
        ) by {
            let k: int = before.len() as int;
            if dry_run {
                assert(steps@ =~= before.push(steps@[k]).push(steps@[k + 1]));
                lemma_steps_push(before, shapes, steps@[k], s1);
                lemma_steps_push(before.push(steps@[k]), shapes.push(s1), steps@[k + 1], s2);
                assert(shapes + section_steps(root@, name@, dry_run) =~= shapes.push(s1).push(s2));
            } else {
                let s0 = StepShape::Dir(dir@);
                assert(steps@ =~= before.push(steps@[k]).push(steps@[k + 1]).push(steps@[k + 2]));
                lemma_steps_push(before, shapes, steps@[k], s0);
                lemma_steps_push(before.push(steps@[k]), shapes.push(s0), steps@[k + 1], s1);
                lemma_steps_push(
                    before.push(steps@[k]).push(steps@[k + 1]),
                    shapes.push(s0).push(s1),
                    steps@[k + 2],
                    s2,
                );
                assert(shapes + section_steps(root@, name@, dry_run) =~= shapes.push(s0).push(
                    s1,
                ).push(s2));
            }
        }
    }
}

/// The steps of a registry scaffold.
fn registry_plan(context: &ConfigContext) -> (r: Vec<InitStep>)
    ensures
        steps_hold(
            r@,
            registry_steps(
                context.output_path@,
                context.dry_run,
                context.registry_options.sections,
            ),
        ),
{
    let root = context.output_path.as_str();
    let mut steps: Vec<InitStep> = Vec::new();
    let ghost mut shapes: Seq<StepShape> = Seq::empty();
    if !context.dry_run {
        steps.push(InitStep::CreateDir(owned(root)));
        proof {
            lemma_steps_push(Seq::empty(), shapes, steps@[0], StepShape::Dir(root@));
            shapes = shapes.push(StepShape::Dir(root@));
            assert(steps@ =~= Seq::<InitStep>::empty().push(steps@[0]));
        }
    }
    assert(steps_hold(steps@, shapes));
    let ghost s1 = StepShape::Save(
        join_spec(root@, CONFIG_FILE_NAME@),
        DocShape::Standard(ConfigSpec::Minimal),
    );
    let ghost s2 = StepShape::Save(join_spec(root@, RULES_FILE_NAME@), DocShape::Rules);
    let ghost s3 = StepShape::Save(
        join_spec(root@, "README.md"@),
        DocShape::Text(readme_spec(context.registry_options.sections)),
    );
    let ghost b0 = steps@;
    steps.push(InitStep::Save(join(root, CONFIG_FILE_NAME), minimal_document()));
    proof {
        lemma_steps_push(b0, shapes, steps@[b0.len() as int], s1);
        assert(steps@ =~= b0.push(steps@[b0.len() as int]));
        shapes = shapes.push(s1);
    }
    let ghost b1 = steps@;
    steps.push(InitStep::Save(join(root, RULES_FILE_NAME), InitDocument::Rules(empty_rules())));
    proof {
        lemma_steps_push(b1, shapes, steps@[b1.len() as int], s2);
        assert(steps@ =~= b1.push(steps@[b1.len() as int]));
        shapes = shapes.push(s2);
    }
    let ghost b2 = steps@;
    let readme = registry_readme(context);
    steps.push(InitStep::Save(join(root, "README.md"), InitDocument::Text(readme)));
    proof {
        lemma_steps_push(b2, shapes, steps@[b2.len() as int], s3);
        assert(steps@ =~= b2.push(steps@[b2.len() as int]));
        shapes = shapes.push(s3);
    }
    let ghost base = shapes;
    if context.registry_options.sections {
        push_section(&mut steps, root, "standard", context.dry_run);
        push_section(&mut steps, root, "team1", context.dry_run);
    }
    proof {
        let saves = seq![s1, s2, s3];
        if context.dry_run {
            assert(base =~= saves);
        } else {
            assert(base =~= seq![StepShape::Dir(root@)] + saves);
        }
    }
    steps
}

/// Plans creating settings files: a project file at the output path; the
/// global file (and, when asked, the global rules) in the global settings
/// directory; or a registry scaffold in the output directory. A dry run of
/// a project or global file writes nothing and previews the document; a dry
/// run of a scaffold still refuses files that exist.
pub fn init_config(context: &ConfigContext, config_dir: &Result<String, Error>) -> (r: Result<
    InitPlan,
    Error,
>)
    ensures
        match init_plan_spec(*context, *config_dir) {
            Err(d) => r matches Err(e) && same_error(e, d),
            Ok((path, shapes, preview)) => r matches Ok(plan) && plan.path@ == path && steps_hold(
                plan.steps@,
                shapes,
            ) && match preview {
                None => plan.preview is None,
                Some(s) => plan.preview matches Some(d) && doc_holds(d, s),
            },
        },
{
    match context.option {
        ConfigOption::Project => {
            let doc = InitDocument::Project(project_document(context.spec, context.with_rules));
            let path = context.output_path.clone();
            if context.dry_run {
                Ok(InitPlan { path, steps: Vec::new(), preview: Some(doc) })
            } else {
                let mut steps: Vec<InitStep> = Vec::new();
                steps.push(InitStep::Save(path.clone(), doc));
                Ok(InitPlan { path, steps, preview: None })
            }
        },
        ConfigOption::Global => {
            let root = match config_dir {
                Ok(d) => d,
                Err(d) => return Err(crate::paths::copy_error(d)),
            };
            let path = join(root.as_str(), CONFIG_FILE_NAME);
            let doc = InitDocument::Standard(standard_document(context.spec));
            if context.dry_run {
                Ok(InitPlan { path, steps: Vec::new(), preview: Some(doc) })
            } else {
                let mut steps: Vec<InitStep> = Vec::new();
                steps.push(InitStep::Save(path.clone(), doc));
                if context.with_rules {
                    steps.push(
                        InitStep::Save(
                            join(root.as_str(), RULES_FILE_NAME),
                            InitDocument::Rules(empty_rules()),
                        ),
                    );
                }
                Ok(InitPlan { path, steps, preview: None })
            }
        },
        ConfigOption::Registry => {
            let steps = registry_plan(context);
            let path = join(context.output_path.as_str(), CONFIG_FILE_NAME);
            Ok(InitPlan { path, steps, preview: None })
        },
    }
}

/// A dry run creates no directory: none of its planned steps creates one,
/// and for a project or global file nothing is saved either.
pub proof fn lemma_dry_run_creates_no_directory(c: ConfigContext, config_dir: Result<String, Error>)
    requires
        c.dry_run,
        init_plan_spec(c, config_dir) is Ok,
    ensures
        forall|i: int|
            0 <= i < init_plan_spec(c, config_dir)->Ok_0.1.len() ==> !(
            #[trigger] init_plan_spec(c, config_dir)->Ok_0.1[i] is Dir),
        c.option != ConfigOption::Registry ==> init_plan_spec(c, config_dir)->Ok_0.1.len() == 0,
{
    if c.option == ConfigOption::Registry {
        let root = c.output_path@;
        let steps = registry_steps(root, true, c.registry_options.sections);
        assert forall|i: int| 0 <= i < steps.len() implies !(#[trigger] steps[i] is Dir) by {
            if c.registry_options.sections {
                let a = section_steps(root, "standard"@, true);
                let b = section_steps(root, "team1"@, true);
                let base = seq![
                    StepShape::Save(join_spec(root, CONFIG_FILE_NAME@), DocShape::Standard(ConfigSpec::Minimal)),
                    StepShape::Save(join_spec(root, RULES_FILE_NAME@), DocShape::Rules),
                    StepShape::Save(join_spec(root, "README.md"@), DocShape::Text(readme_spec(true))),
                ];
                assert(steps == base + a + b);
                if i < 3 {
                    assert(steps[i] == base[i]);
                } else if i < 5 {
                    assert(steps[i] == a[i - 3]);
                } else {
                    assert(steps[i] == b[i - 5]);
                }
            }
        }
    }
}

} // verus!
