//! Names and paths in the storage area, and the encoder invocations that
//! read and write them.
//!
//! Uploads are kept under `uploads/` by the name they arrived with;
//! artifacts are kept under `output/` as `<identifier>.mp4`. Both
//! directories are relative to the working directory of the service.

use vstd::prelude::*;

verus! {

/// Where an upload named `filename` is stored.
pub open spec fn upload_path(filename: Seq<char>) -> Seq<char> {
    "uploads/"@ + filename
}

/// The artifact name made from a generated identifier.
pub open spec fn artifact_name(id: Seq<char>) -> Seq<char> {
    id + ".mp4"@
}

/// Where the artifact named `name` is stored.
pub open spec fn artifact_path(name: Seq<char>) -> Seq<char> {
    "output/"@ + name
}

/// The directories that must exist before a request is served.
pub open spec fn storage_directories() -> Seq<Seq<char>> {
    seq!["uploads"@, "output"@]
}

/// The name of the encoder program.
pub open spec fn encoder_program() -> Seq<char> {
    "ffmpeg"@
}

/// Arguments of the inspection run: read the input and produce nothing.
pub open spec fn probe_arguments(input: Seq<char>) -> Seq<Seq<char>> {
    seq!["-i"@, input]
}

/// Arguments of the transcoding run: H.264 video and AAC audio, lenient
/// standards compliance, MP4 container, overwriting what is at `output`.
pub open spec fn transcode_arguments(input: Seq<char>, output: Seq<char>) -> Seq<Seq<char>> {
    seq![
        "-i"@,
        input,
        "-vcodec"@,
        "h264"@,
        "-acodec"@,
        "aac"@,
        "-strict"@,
        "-2"@,
        "-f"@,
        "mp4"@,
        "-y"@,
        output,
    ]
}

/// Where an upload named `filename` is stored.
pub fn upload_path_for(filename: &str) -> (path: String)
    ensures
        path@ == upload_path(filename@),
{
    String::from_str("uploads/").concat(filename)
}

/// The artifact name made from a generated identifier.
pub fn artifact_name_for(id: &str) -> (name: String)
    ensures
        name@ == artifact_name(id@),
{
    String::from_str(id).concat(".mp4")
}

/// Where the artifact named `name` is stored.
pub fn artifact_path_for(name: &str) -> (path: String)
    ensures
        path@ == artifact_path(name@),
{
    String::from_str("output/").concat(name)
}

/// The directories that must exist before a request is served.
pub fn storage_directory_list() -> (dirs: Vec<String>)
    ensures
        dirs.deep_view() == storage_directories(),
{
    let mut dirs: Vec<String> = Vec::new();
    dirs.push(String::from_str("uploads"));
    dirs.push(String::from_str("output"));
    assert(dirs.deep_view() =~= storage_directories());
    dirs
}

/// The name of the encoder program.
pub fn encoder_program_name() -> (program: String)
    ensures
        program@ == encoder_program(),
{
    String::from_str("ffmpeg")
}

/// Arguments of the inspection run on `input`.
pub fn probe_argument_list(input: &str) -> (arguments: Vec<String>)
    ensures
        arguments.deep_view() == probe_arguments(input@),
{
    let mut arguments: Vec<String> = Vec::new();
    arguments.push(String::from_str("-i"));
    arguments.push(String::from_str(input));
    assert(arguments.deep_view() =~= probe_arguments(input@));
    arguments
}

/// Arguments of the transcoding run from `input` to `output`.
pub fn transcode_argument_list(input: &str, output: &str) -> (arguments: Vec<String>)
    ensures
        arguments.deep_view() == transcode_arguments(input@, output@),
{
    let mut arguments: Vec<String> = Vec::new();
    arguments.push(String::from_str("-i"));
    arguments.push(String::from_str(input));
    arguments.push(String::from_str("-vcodec"));
    arguments.push(String::from_str("h264"));
    arguments.push(String::from_str("-acodec"));
    arguments.push(String::from_str("aac"));
    arguments.push(String::from_str("-strict"));
    arguments.push(String::from_str("-2"));
    arguments.push(String::from_str("-f"));
    arguments.push(String::from_str("mp4"));
    arguments.push(String::from_str("-y"));
    arguments.push(String::from_str(output));
    assert(arguments.deep_view() =~= transcode_arguments(input@, output@));
    arguments
}

/// Distinct identifiers give distinct artifact names, and distinct names
/// give distinct paths: two requests that drew different identifiers never
/// write to the same file.
pub proof fn lemma_artifacts_do_not_collide(id_a: Seq<char>, id_b: Seq<char>)
    requires
        id_a != id_b,
    ensures
        artifact_name(id_a) != artifact_name(id_b),
        artifact_path(artifact_name(id_a)) != artifact_path(artifact_name(id_b)),
{
    let suffix = ".mp4"@;
    let prefix = "output/"@;
    let name_a = artifact_name(id_a);
    let name_b = artifact_name(id_b);
    if name_a == name_b {
        assert(name_a.subrange(0, id_a.len() as int) =~= id_a);
        assert(name_b.subrange(0, id_b.len() as int) =~= id_b);
        assert(name_a.len() == id_a.len() + suffix.len());
        assert(name_b.len() == id_b.len() + suffix.len());
        assert(false);
    }
    let path_a = artifact_path(name_a);
    let path_b = artifact_path(name_b);
    if path_a == path_b {
        assert(path_a.subrange(prefix.len() as int, path_a.len() as int) =~= name_a);
        assert(path_b.subrange(prefix.len() as int, path_b.len() as int) =~= name_b);
        assert(false);
    }
}

} // verus!
