use vstd::prelude::*;
use vstd::slice::slice_subrange;
use vstd::string::StringExecFns;

verus! {

/// Size of the buffer that a compile or link diagnostic is read into.
pub const LOG_CAPACITY: usize = 1024;

/// The pipeline stage a shader object is created for.
#[derive(Clone, Copy, Debug, PartialEq, Eq, Structural)]
pub enum ShaderType {
    VertexShader,
    FragmentShader,
    GeometryShader,
    TesselationControlShader,
    TesselationEvaluationShader,
    ComputeShader,
}

/// The graphics API's constant for each stage.
pub open spec fn stage_constant_of(kind: ShaderType) -> u32 {
    match kind {
        ShaderType::VertexShader => 0x8B31,
        ShaderType::FragmentShader => 0x8B30,
        ShaderType::GeometryShader => 0x8DD9,
        ShaderType::TesselationControlShader => 0x8E88,
        ShaderType::TesselationEvaluationShader => 0x8E87,
        ShaderType::ComputeShader => 0x91B9,
    }
}

impl ShaderType {
    /// The constant that the graphics API expects when a shader object of
    /// this stage is created.
    pub fn stage_constant(&self) -> (r: u32)
        ensures
            r == stage_constant_of(*self),
    {
        match self {
            ShaderType::VertexShader => 0x8B31,
            ShaderType::FragmentShader => 0x8B30,
            ShaderType::GeometryShader => 0x8DD9,
            ShaderType::TesselationControlShader => 0x8E88,
            ShaderType::TesselationEvaluationShader => 0x8E87,
            ShaderType::ComputeShader => 0x91B9,
        }
    }
}

/// One shader object of a program under construction: where its source
/// came from, its stage, and the object the context created for it.
#[derive(Clone, Debug, PartialEq, Eq)]
pub struct Shader {
    pub path: String,
    pub kind: ShaderType,
    pub id: u32,
}

impl Shader {
    pub fn new(path: &String, shader_type: ShaderType, id: u32) -> (r: Shader)
        ensures
            r.path == *path,
            r.kind == shader_type,
            r.id == id,
    {
        Shader { path: path.clone(), kind: shader_type, id }
    }
}

/// True when the bytes hold a NUL, which the source transport cannot carry.
pub fn contains_nul(bytes: &Vec<u8>) -> (r: bool)
    ensures
        r == exists|i: int| 0 <= i < bytes@.len() && bytes@[i] == 0,
{
    let mut i: usize = 0;
    while i < bytes.len()
        invariant
            i <= bytes@.len(),
            forall|j: int| 0 <= j < i ==> bytes@[j] != 0,
        decreases bytes@.len() - i,
    {
        if bytes[i] == 0 {
            return true;
        }
        i = i + 1;
    }
    false
}

/// The bytes with every leading and trailing NUL taken away.
pub open spec fn trimmed_nul(s: Seq<u8>) -> Seq<u8>
    decreases s.len(),
{
    if s.len() == 0 {
        s
    } else if s[0] == 0 {
        trimmed_nul(s.drop_first())
    } else if s.last() == 0 {
        trimmed_nul(s.drop_last())
    } else {
        s
    }
}

/// The text that lossy UTF-8 decoding makes of some bytes.
pub uninterp spec fn lossy_text(b: Seq<u8>) -> Seq<char>;

/// Each byte as the character of the same code.
pub open spec fn ascii_chars(b: Seq<u8>) -> Seq<char> {
    b.map_values(|c: u8| c as char)
}

/// Relies on `String::from_utf8_lossy`: the text depends on the bytes alone,
/// and bytes below 128 stand each for the character of the same code.
#[verifier::external_body]
fn utf8_lossy(b: &[u8]) -> (r: String)
    ensures
        r@ == lossy_text(b@),
        (forall|i: int| 0 <= i < b@.len() ==> b@[i] < 128) ==> r@ == ascii_chars(b@),
{
    String::from_utf8_lossy(b).into_owned()
}

/// Bounds of what is left of `buf` once leading and trailing NULs are gone.
fn trim_nul_bounds(buf: &Vec<u8>) -> (r: (usize, usize))
    ensures
        r.0 <= r.1 <= buf@.len(),
        buf@.subrange(r.0 as int, r.1 as int) == trimmed_nul(buf@),
{
    let mut start: usize = 0;
    let mut end: usize = buf.len();
    proof {
        assert(buf@.subrange(0, end as int) =~= buf@);
    }
    while start < end && (buf[start] == 0 || buf[end - 1] == 0)
        invariant
            start <= end <= buf@.len(),
            trimmed_nul(buf@.subrange(start as int, end as int)) == trimmed_nul(buf@),
        decreases end - start,
    {
        let ghost s = buf@.subrange(start as int, end as int);
        if buf[start] == 0 {
            assert(s.drop_first() =~= buf@.subrange(start + 1, end as int));
            start = start + 1;
        } else {
            assert(s.drop_last() =~= buf@.subrange(start as int, end - 1));
            end = end - 1;
        }
    }
    (start, end)
}

/// Turns a diagnostic buffer into text: the NUL padding around the log is
/// dropped and the rest is decoded as UTF-8, invalid sequences replaced.
pub fn decode_log(buf: &Vec<u8>) -> (r: String)
    ensures
        r@ == lossy_text(trimmed_nul(buf@)),
        (forall|i: int| 0 <= i < buf@.len() ==> buf@[i] < 128) ==> r@ == ascii_chars(
            trimmed_nul(buf@),
        ),
{
    let (start, end) = trim_nul_bounds(buf);
    let part = slice_subrange(buf.as_slice(), start, end);
    proof {
        assert(part@ == trimmed_nul(buf@));
        assert forall|i: int| 0 <= i < part@.len() && (forall|j: int| 0 <= j < buf@.len() ==> buf@[j] < 128)
            implies part@[i] < 128 by {
            assert(part@[i] == buf@[start + i]);
        }
    }
    utf8_lossy(part)
}

/// The diagnostic written when a shader does not compile.
pub open spec fn compile_report_text(path: Seq<char>, log: Seq<char>) -> Seq<char> {
    "Failed to compile shader "@ + path + ":\n\t"@ + log + "\n"@
}

/// The diagnostic written when a program does not link.
pub open spec fn link_report_text(log: Seq<char>) -> Seq<char> {
    "Failed to link the program:\n\t"@ + log + "\n"@
}

pub fn compile_report(path: &String, log: &String) -> (r: String)
    ensures
        r@ == compile_report_text(path@, log@),
{
    let mut text = String::from_str("Failed to compile shader ");
    text.append(path.as_str());
    text.append(":\n\t");
    text.append(log.as_str());
    text.append("\n");
    text
}

pub fn link_report(log: &String) -> (r: String)
    ensures
        r@ == link_report_text(log@),
{
    let mut text = String::from_str("Failed to link the program:\n\t");
    text.append(log.as_str());
    text.append("\n");
    text
}

/// A compile diagnostic names the file it is about: the path stands in the
/// message whole, right after the fixed opening words.
pub proof fn lemma_compile_report_names_path(path: Seq<char>, log: Seq<char>)
    ensures
        compile_report_text(path, log).subrange(25, 25 + path.len() as int) == path,
{
    reveal_strlit("Failed to compile shader ");
    let t = compile_report_text(path, log);
    assert(t.subrange(25, 25 + path.len() as int) =~= path);
}

} // verus!
