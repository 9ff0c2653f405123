use vstd::prelude::*;
use crate::error::{NativeError, Status};

verus! {

/// Settings of a dictionary build, gathered before the build runs.
#[derive(Debug)]
pub struct DictionaryBuilder {
    pub config_path: Option<String>,
    pub resource_dir: Option<String>,
    pub lexicon_files: Vec<String>,
    pub matrix_file: Option<String>,
    pub system_dict_path: Option<String>,
    pub description: String,
}

/// One step of a dictionary build, in the order in which it is carried out.
#[derive(Debug, Clone, PartialEq, Eq)]
pub enum BuildAction {
    /// Resolve the configuration that locates the base system dictionary.
    LoadConfig { config_path: Option<String>, resource_dir: Option<String>, dictionary_path: String },
    /// Load the base system dictionary from that configuration.
    LoadBaseDictionary,
    /// Start the compiler, recording the dictionary's description.
    Begin { description: String },
    /// Parse the connection-cost matrix at this path.
    ReadMatrix(String),
    /// Parse the lexicon source at this path.
    ReadLexicon(String),
    /// Resolve the symbolic references of all lexicon entries.
    Resolve,
    /// Create (or truncate) the output file at this path.
    CreateOutput(String),
    /// Serialize the compiled dictionary into the output.
    Compile,
    /// Flush the buffered output.
    Flush,
}

/// The lexicon-reading steps, one per file in order.
pub open spec fn lexicon_steps(files: Seq<String>) -> Seq<BuildAction> {
    files.map_values(|f: String| BuildAction::ReadLexicon(f))
}

/// The steps that close every build.
pub open spec fn closing_steps(output: String) -> Seq<BuildAction> {
    seq![BuildAction::Resolve, BuildAction::CreateOutput(output), BuildAction::Compile, BuildAction::Flush]
}

/// The context that a failure of `action` is reported under.
pub open spec fn failure_context(action: BuildAction) -> Seq<char> {
    match action {
        BuildAction::LoadConfig { .. } => "Failed to create config"@,
        BuildAction::LoadBaseDictionary => "Failed to load system dictionary"@,
        BuildAction::Begin { .. } => "Failed to start dictionary build"@,
        BuildAction::ReadMatrix(_) => "Failed to read connection matrix"@,
        BuildAction::ReadLexicon(_) => "Failed to read lexicon file"@,
        BuildAction::Resolve => "Failed to resolve references"@,
        BuildAction::CreateOutput(_) => "Failed to create output file"@,
        BuildAction::Compile => "Failed to compile dictionary"@,
        BuildAction::Flush => "Failed to flush buffer"@,
    }
}

impl BuildAction {
    /// The error reported when this step fails with `detail`.
    pub fn failure(&self, detail: &str) -> (r: NativeError)
        ensures
            r.status == Status::GenericFailure,
            r.message@ == failure_context(*self) + ": "@ + detail@,
    {
        let context = match self {
            BuildAction::LoadConfig { .. } => "Failed to create config",
            BuildAction::LoadBaseDictionary => "Failed to load system dictionary",
            BuildAction::Begin { .. } => "Failed to start dictionary build",
            BuildAction::ReadMatrix(_) => "Failed to read connection matrix",
            BuildAction::ReadLexicon(_) => "Failed to read lexicon file",
            BuildAction::Resolve => "Failed to resolve references",
            BuildAction::CreateOutput(_) => "Failed to create output file",
            BuildAction::Compile => "Failed to compile dictionary",
            BuildAction::Flush => "Failed to flush buffer",
        };
        NativeError::with_context(context, detail)
    }
}

impl DictionaryBuilder {
    /// The steps of a system dictionary build writing to `output`.
    pub open spec fn system_plan(self, output: String) -> Seq<BuildAction> {
        seq![
            BuildAction::Begin { description: self.description },
            BuildAction::ReadMatrix(self.matrix_file->0),
        ] + lexicon_steps(self.lexicon_files@) + closing_steps(output)
    }

    /// The steps of a user dictionary build writing to `output`.
    pub open spec fn user_plan(self, output: String) -> Seq<BuildAction> {
        seq![
            BuildAction::LoadConfig {
                config_path: self.config_path,
                resource_dir: self.resource_dir,
                dictionary_path: self.system_dict_path->0,
            },
            BuildAction::LoadBaseDictionary,
            BuildAction::Begin { description: self.description },
        ] + lexicon_steps(self.lexicon_files@) + closing_steps(output)
    }

    /// A builder with no paths, no lexicon files and an empty description.
    pub fn new() -> (r: DictionaryBuilder)
        ensures
            r.config_path is None,
            r.resource_dir is None,
            r.lexicon_files@.len() == 0,
            r.matrix_file is None,
            r.system_dict_path is None,
            r.description@.len() == 0,
    {
        DictionaryBuilder {
            config_path: None,
            resource_dir: None,
            lexicon_files: Vec::new(),
            matrix_file: None,
            system_dict_path: None,
            description: String::new(),
        }
    }

    pub fn set_config_path(&mut self, path: String)
        ensures
            *final(self) == (DictionaryBuilder { config_path: Some(path), ..*old(self) }),
    {
        self.config_path = Some(path);
    }

    pub fn set_resource_dir(&mut self, path: String)
        ensures
            *final(self) == (DictionaryBuilder { resource_dir: Some(path), ..*old(self) }),
    {
        self.resource_dir = Some(path);
    }

    pub fn set_matrix_file(&mut self, path: String)
        ensures
            *final(self) == (DictionaryBuilder { matrix_file: Some(path), ..*old(self) }),
    {
        self.matrix_file = Some(path);
    }

    pub fn set_system_dict_path(&mut self, path: String)
        ensures
            *final(self) == (DictionaryBuilder { system_dict_path: Some(path), ..*old(self) }),
    {
        self.system_dict_path = Some(path);
    }

    pub fn set_description(&mut self, description: String)
        ensures
            *final(self) == (DictionaryBuilder { description, ..*old(self) }),
    {
        self.description = description;
    }

    /// Appends a lexicon source; sources are read in the order they were added.
    pub fn add_lexicon_file(&mut self, path: String)
        ensures
            final(self).lexicon_files@ == old(self).lexicon_files@.push(path),
            final(self).config_path == old(self).config_path,
            final(self).resource_dir == old(self).resource_dir,
            final(self).matrix_file == old(self).matrix_file,
            final(self).system_dict_path == old(self).system_dict_path,
            final(self).description == old(self).description,
    {
        self.lexicon_files.push(path);
    }

    /// Appends the lexicon-reading steps to `steps`.
    fn push_lexicon_steps(&self, steps: &mut Vec<BuildAction>)
        ensures
            final(steps)@ == old(steps)@ + lexicon_steps(self.lexicon_files@),
    {
        let ghost start = steps@;
        let mut i: usize = 0;
        while i < self.lexicon_files.len()
            invariant
                i <= self.lexicon_files.len(),
                steps@ == start + lexicon_steps(self.lexicon_files@.take(i as int)),
            decreases self.lexicon_files.len() - i,
        {
            steps.push(BuildAction::ReadLexicon(self.lexicon_files[i].clone()));
            assert(lexicon_steps(self.lexicon_files@.take(i + 1)) =~= lexicon_steps(
                self.lexicon_files@.take(i as int),
            ).push(BuildAction::ReadLexicon(self.lexicon_files@[i as int])));
            i = i + 1;
        }
        assert(self.lexicon_files@.take(i as int) =~= self.lexicon_files@);
    }

    /// Appends the closing steps to `steps`.
    fn push_closing_steps(steps: &mut Vec<BuildAction>, output: String)
        ensures
            final(steps)@ == old(steps)@ + closing_steps(output),
    {
        steps.push(BuildAction::Resolve);
        steps.push(BuildAction::CreateOutput(output));
        steps.push(BuildAction::Compile);
        steps.push(BuildAction::Flush);
        assert(final(steps)@ =~= old(steps)@ + closing_steps(output));
    }

    /// The steps of a system dictionary build; it needs a connection matrix.
    pub fn system_build_plan(&self, output_path: String) -> (r: Result<Vec<BuildAction>, NativeError>)
        ensures
            r is Ok <==> self.matrix_file is Some,
            r is Ok ==> r->Ok_0@ == self.system_plan(output_path),
            r is Err ==> r->Err_0.status == Status::InvalidArg && r->Err_0.message@
                == "Matrix file is required for system dictionary"@,
    {
        match &self.matrix_file {
            None => Err(
                NativeError::new(Status::InvalidArg, "Matrix file is required for system dictionary"),
            ),
            Some(matrix) => {
                let mut steps: Vec<BuildAction> = Vec::new();
                steps.push(BuildAction::Begin { description: self.description.clone() });
                steps.push(BuildAction::ReadMatrix(matrix.clone()));
                self.push_lexicon_steps(&mut steps);
                DictionaryBuilder::push_closing_steps(&mut steps, output_path);
                assert(steps@ =~= self.system_plan(output_path));
                Ok(steps)
            },
        }
    }

    /// The steps of a user dictionary build; it needs the base system dictionary.
    pub fn user_build_plan(&self, output_path: String) -> (r: Result<Vec<BuildAction>, NativeError>)
        ensures
            r is Ok <==> self.system_dict_path is Some,
            r is Ok ==> r->Ok_0@ == self.user_plan(output_path),
            r is Err ==> r->Err_0.status == Status::InvalidArg && r->Err_0.message@
                == "System dictionary path is required for user dictionary"@,
    {
        match &self.system_dict_path {
            None => Err(
                NativeError::new(
                    Status::InvalidArg,
                    "System dictionary path is required for user dictionary",
                ),
            ),
            Some(base) => {
                let mut steps: Vec<BuildAction> = Vec::new();
                steps.push(
                    BuildAction::LoadConfig {
                        config_path: self.config_path.clone(),
                        resource_dir: self.resource_dir.clone(),
                        dictionary_path: base.clone(),
                    },
                );
                steps.push(BuildAction::LoadBaseDictionary);
                steps.push(BuildAction::Begin { description: self.description.clone() });
                self.push_lexicon_steps(&mut steps);
                DictionaryBuilder::push_closing_steps(&mut steps, output_path);
                assert(steps@ =~= self.user_plan(output_path));
                Ok(steps)
            },
        }
    }
}

} // verus!
