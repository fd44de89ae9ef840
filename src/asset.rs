//! Where the viewed model is found, from the file name given at start.
use vstd::prelude::*;
use vstd::string::StringExecFns;

verus! {

/// Directory, relative to the working directory, that holds the assets.
pub const ASSET_ROOT: &'static str = "assets/";

/// Subdirectory of the asset root that holds glTF files.
pub const GLTF_DIR: &'static str = "gltf/";

/// Label that selects the first scene of a glTF file.
pub const SCENE_LABEL: &'static str = "#Scene0";

/// Name of the glTF file to show, relative to the glTF directory.
#[derive(Debug)]
pub struct Filename(pub String);

impl Filename {
    /// Path of the file, relative to the working directory, used to check
    /// that it exists: `assets/gltf/<name>`.
    pub fn asset_path(&self) -> (p: String)
        ensures
            p@ == ASSET_ROOT@ + GLTF_DIR@ + self.0@,
    {
        String::from_str(ASSET_ROOT).concat(GLTF_DIR).concat(self.0.as_str())
    }

    /// Label handed to the asset loader, relative to the asset root:
    /// `gltf/<name>#Scene0`.
    pub fn scene_path(&self) -> (p: String)
        ensures
            p@ == GLTF_DIR@ + self.0@ + SCENE_LABEL@,
    {
        String::from_str(GLTF_DIR).concat(self.0.as_str()).concat(SCENE_LABEL)
    }
}

/// Why the viewer cannot start.
#[derive(Clone, Copy, Debug, PartialEq, Eq, Structural)]
pub enum StartupError {
    /// No file name was given on the command line.
    MissingFilename,
    /// The named file is not under the glTF directory.
    FileNotFound,
}

impl StartupError {
    /// The message shown to the user before exiting.
    pub fn message(&self) -> (m: &'static str)
        ensures
            *self == StartupError::MissingFilename ==> m@ == "Please pass in a filename to input"@,
            *self == StartupError::FileNotFound ==> m@ == "File does not exist"@,
    {
        match self {
            StartupError::MissingFilename => "Please pass in a filename to input",
            StartupError::FileNotFound => "File does not exist",
        }
    }
}

/// Picks the file name from the command line arguments, the program name
/// first: the argument right after it.
pub fn filename_from_args(args: &Vec<String>) -> (r: Result<Filename, StartupError>)
    ensures
        args.len() < 2 <==> r == Err::<Filename, StartupError>(StartupError::MissingFilename),
        args.len() >= 2 ==> (r matches Ok(f) && f.0@ == args[1]@),
{
    if args.len() < 2 {
        Err(StartupError::MissingFilename)
    } else {
        Ok(Filename(args[1].clone()))
    }
}

/// Accepts the file name once the host has looked for its asset path.
pub fn require_existing(name: Filename, exists: bool) -> (r: Result<Filename, StartupError>)
    ensures
        exists ==> (r matches Ok(f) && f.0@ == name.0@),
        !exists ==> r == Err::<Filename, StartupError>(StartupError::FileNotFound),
{
    if exists {
        Ok(name)
    } else {
        Err(StartupError::FileNotFound)
    }
}

} // verus!
