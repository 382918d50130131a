use crate::model::{render, ModelDefinition, ModelView};
use vstd::prelude::*;
use vstd::string::*;

verus! {

/// Where generated files go when no directory is given.
pub const DEFAULT_MODEL_DIR: &'static str = "src/models";

/// The extension of a generated source file, with its dot.
pub const SOURCE_EXTENSION: &'static str = ".rs";

/// Settings of one generation run.
#[derive(Debug)]
pub struct GenerationConfig {
    force: bool,
    dry_run: bool,
    model_dir: String,
}

/// The abstract value of a [`GenerationConfig`].
pub struct ConfigView {
    pub force: bool,
    pub dry_run: bool,
    pub model_dir: Seq<char>,
}

/// What the caller reports back to the generation policy.
#[derive(Debug, Clone, Copy, PartialEq, Eq, Structural)]
pub enum GenerationEvent {
    /// Generation is requested.
    Start,
    /// The target directory exists now; whether the target file exists.
    DirectoryReady { file_exists: bool },
}

/// What the generation policy asks the caller to do next.
#[derive(Debug, PartialEq, Eq)]
pub enum GenerationAction {
    /// Dry run: touch nothing and report success.
    Skip,
    /// Create this directory and its parents, then report `DirectoryReady`.
    CreateDirectory(String),
    /// The file at this path exists and may not be overwritten: fail.
    AlreadyExists(String),
    /// Write this text to the file at this path, replacing any content.
    Write { path: String, text: String },
}

/// The abstract value of a [`GenerationAction`].
pub enum Step {
    Skip,
    CreateDirectory(Seq<char>),
    AlreadyExists(Seq<char>),
    Write(Seq<char>, Seq<char>),
}

impl View for GenerationAction {
    type V = Step;

    open spec fn view(&self) -> Step {
        match self {
            GenerationAction::Skip => Step::Skip,
            GenerationAction::CreateDirectory(d) => Step::CreateDirectory(d@),
            GenerationAction::AlreadyExists(p) => Step::AlreadyExists(p@),
            GenerationAction::Write { path, text } => Step::Write(path@, text@),
        }
    }
}

/// `name` placed in directory `dir`; an empty directory is the current one.
pub open spec fn join_path(dir: Seq<char>, name: Seq<char>) -> Seq<char> {
    if dir.len() == 0 {
        name
    } else if dir.last() == '/' {
        dir + name
    } else {
        dir + "/"@ + name
    }
}

/// The file that a model is written to.
pub open spec fn target_path(m: ModelView, c: ConfigView) -> Seq<char> {
    join_path(c.model_dir, m.file_name) + SOURCE_EXTENSION@
}

/// The text written to a model's file.
pub open spec fn file_text(m: ModelView) -> Seq<char> {
    render(m) + "\n"@
}

/// The policy: a dry run touches nothing; otherwise the directory is made
/// first, then an existing file is kept unless overwriting is forced.
pub open spec fn next_step(m: ModelView, c: ConfigView, e: GenerationEvent) -> Step {
    if c.dry_run {
        Step::Skip
    } else {
        match e {
            GenerationEvent::Start => Step::CreateDirectory(c.model_dir),
            GenerationEvent::DirectoryReady { file_exists } => if file_exists && !c.force {
                Step::AlreadyExists(target_path(m, c))
            } else {
                Step::Write(target_path(m, c), file_text(m))
            },
        }
    }
}

impl View for GenerationConfig {
    type V = ConfigView;

    closed spec fn view(&self) -> ConfigView {
        ConfigView { force: self.force, dry_run: self.dry_run, model_dir: self.model_dir@ }
    }
}

impl GenerationConfig {
    /// A configuration; without a directory the default one is used.
    pub fn new(force: bool, dry_run: bool, directory: Option<&str>) -> (r: GenerationConfig)
        ensures
            r@.force == force,
            r@.dry_run == dry_run,
            r@.model_dir == match directory {
                Some(d) => d@,
                None => DEFAULT_MODEL_DIR@,
            },
    {
        let model_dir = match directory {
            Some(d) => d.to_owned(),
            None => DEFAULT_MODEL_DIR.to_owned(),
        };
        GenerationConfig { force, dry_run, model_dir }
    }

    pub fn is_force(&self) -> (r: bool)
        ensures
            r == self@.force,
    {
        self.force
    }

    pub fn model_dir(&self) -> (r: String)
        ensures
            r@ == self@.model_dir,
    {
        self.model_dir.clone()
    }

    pub fn dry_run(&self) -> (r: bool)
        ensures
            r == self@.dry_run,
    {
        self.dry_run
    }
}

impl ModelDefinition {
    /// The path of the file that this model is written to under `config`.
    pub fn target_path(&self, config: &GenerationConfig) -> (r: String)
        ensures
            r@ == target_path(self@, config@),
    {
        let mut out = config.model_dir();
        let n = out.as_str().unicode_len();
        if n > 0 && out.as_str().get_char(n - 1) != '/' {
            out.append("/");
        }
        out.append(self.model_data().file_name());
        out.append(SOURCE_EXTENSION);
        out
    }

    /// The next thing to do in generating this model, given what happened last.
    pub fn next_action(&self, config: &GenerationConfig, event: GenerationEvent) -> (r:
        GenerationAction)
        ensures
            r@ == next_step(self@, config@, event),
            config@.dry_run ==> r is Skip,
            !config@.dry_run && event == (GenerationEvent::DirectoryReady { file_exists: true })
                && !config@.force ==> r@ == Step::AlreadyExists(target_path(self@, config@)),
            !config@.dry_run && event is DirectoryReady && config@.force ==> r@ == Step::Write(
                target_path(self@, config@),
                file_text(self@),
            ),
    {
        if config.dry_run() {
            return GenerationAction::Skip;
        }
        match event {
            GenerationEvent::Start => GenerationAction::CreateDirectory(config.model_dir()),
            GenerationEvent::DirectoryReady { file_exists } => {
                let path = self.target_path(config);
                if file_exists && !config.is_force() {
                    GenerationAction::AlreadyExists(path)
                } else {
                    GenerationAction::Write { path, text: self.to_string() }
                }
            },
        }
    }
}

} // verus!
