//! Shader records: the source text of a shader and the compiled module that
//! a pipeline stage is made from. Stages are the raw bits of Vulkan's
//! shader stage flags; a module is the raw Vulkan handle.
use vstd::prelude::*;

verus! {

/// The entry point every shader stage starts at.
pub const SHADER_ENTRY_NAME: &'static str = "main";

/// The entry point's name as Vulkan reads it: the name and a closing NUL.
pub const SHADER_ENTRY_NAME_NUL: &'static str = "main\0";

/// The entry point's name as Vulkan reads it is the entry point's name
/// followed by a single NUL, and holds no other NUL.
pub proof fn lemma_entry_name_is_nul_terminated()
    ensures
        SHADER_ENTRY_NAME_NUL@ == SHADER_ENTRY_NAME@.push('\0'),
        !SHADER_ENTRY_NAME@.contains('\0'),
{
    reveal_strlit("main");
    reveal_strlit("main\0");
    assert(SHADER_ENTRY_NAME@ =~= seq!['m', 'a', 'i', 'n']);
    assert(SHADER_ENTRY_NAME_NUL@ =~= seq!['m', 'a', 'i', 'n', '\0']);
    assert(SHADER_ENTRY_NAME_NUL@ =~= SHADER_ENTRY_NAME@.push('\0'));
}

/// What a shader text record holds.
pub struct ShaderTextView {
    pub id: u64,
    pub raw: Seq<char>,
    pub source: Seq<u32>,
    pub stage: u32,
}

/// The source text of a shader and the stage it is for.
#[derive(Debug)]
pub struct ShaderTextD {
    id: u64,
    raw: String,
    source: Vec<u32>,
    stage: u32,
}

impl View for ShaderTextD {
    type V = ShaderTextView;

    closed spec fn view(&self) -> ShaderTextView {
        ShaderTextView { id: self.id, raw: self.raw@, source: self.source@, stage: self.stage }
    }
}

impl Default for ShaderTextD {
    fn default() -> (t: Self)
        ensures
            t@.id == 0,
            t@.raw == Seq::<char>::empty(),
            t@.source == Seq::<u32>::empty(),
            t@.stage == 0,
    {
        ShaderTextD { id: 0, raw: String::new(), source: Vec::new(), stage: 0 }
    }
}

impl ShaderTextD {
    /// A copy of the source text.
    pub fn get_source(&self) -> (s: String)
        ensures
            s@ == self@.raw,
    {
        self.raw.clone()
    }

    /// The stage the shader is for.
    pub fn get_stage(&self) -> (s: u32)
        ensures
            s == self@.stage,
    {
        self.stage
    }

    /// The record's id.
    pub fn get_id(&self) -> (i: u64)
        ensures
            i == self@.id,
    {
        self.id
    }

    /// The record with `sin` as its source text; an empty text is refused and
    /// leaves the record as it was.
    pub fn build_raw(self, sin: String) -> (t: Self)
        ensures
            sin@.len() == 0 ==> t@ == self@,
            sin@.len() > 0 ==> t@ == (ShaderTextView { raw: sin@, ..self@ }),
    {
        let mut t = self;
        if sin.as_str().is_empty() {
            t
        } else {
            t.raw = sin;
            t
        }
    }

    /// The record with id `name_in`.
    pub fn build_id(self, name_in: u64) -> (t: Self)
        ensures
            t@ == (ShaderTextView { id: name_in, ..self@ }),
    {
        let mut t = self;
        t.id = name_in;
        t
    }

    /// The record for stage `sin`.
    pub fn build_stage(self, sin: u32) -> (t: Self)
        ensures
            t@ == (ShaderTextView { stage: sin, ..self@ }),
    {
        let mut t = self;
        t.stage = sin;
        t
    }
}

/// The stage and module a pipeline shader stage is made of (its entry point
/// is `SHADER_ENTRY_NAME`, handed to Vulkan as `SHADER_ENTRY_NAME_NUL`).
#[derive(Clone, Copy, PartialEq, Eq, Structural, Debug)]
pub struct PipelineShaderStage {
    pub stage: u32,
    pub module: u64,
}

/// A compiled shader module: its code, the size of the code in bytes, its
/// stage and, once created, its module handle.
#[derive(Debug)]
pub struct ShaderModuleD {
    pub id: u32,
    pub source: Option<Vec<u32>>,
    pub entity: Option<u64>,
    pub code_size: usize,
    pub stage: u32,
}

impl Default for ShaderModuleD {
    fn default() -> (m: Self)
        ensures
            m.id == 0,
            m.source is None,
            m.entity is None,
            m.code_size == 0,
            m.stage == 0,
    {
        ShaderModuleD::build()
    }
}

impl ShaderModuleD {
    /// The pipeline stage made from the module: its stage and module handle;
    /// an error when the module has not been created.
    pub fn pipe_stage_info(&self) -> (r: Result<PipelineShaderStage, ()>)
        ensures
            self.entity is None ==> r is Err,
            self.entity matches Some(h) ==> r == Ok::<PipelineShaderStage, ()>(
                PipelineShaderStage { stage: self.stage, module: h },
            ),
    {
        match self.entity {
            Some(h) => Ok(PipelineShaderStage { stage: self.stage, module: h }),
            None => Err(()),
        }
    }

    /// A module with no code that has not been created.
    pub fn build() -> (m: Self)
        ensures
            m.id == 0,
            m.source is None,
            m.entity is None,
            m.code_size == 0,
            m.stage == 0,
    {
        ShaderModuleD { id: 0, entity: None, source: None, code_size: 0, stage: 0 }
    }

    /// The module with `source` as its code, for stage `stage`; the code size
    /// is counted in bytes.
    pub fn build_source(self, source: Vec<u32>, stage: u32) -> (m: Self)
        requires
            source@.len() * 4 <= usize::MAX,
        ensures
            m.id == self.id,
            m.entity == self.entity,
            m.source matches Some(s) && s@ == source@,
            m.stage == stage,
            m.code_size == source@.len() * 4,
    {
        broadcast use vstd::layout::layout_of_primitives;

        let mut m = self;
        let len = source.len();
        m.source = Some(source);
        m.stage = stage;
        m.code_size = len * std::mem::size_of::<u32>();
        m
    }
}

/// A compiler of shader texts into modules (no operations yet).
pub trait ShaderCompiler {
}

} // verus!
