//! The app bundle: files to upload with their names and MIME types, the
//! components that contribute them, and the bundle's size limit. Reading
//! the files, running the build tools and uploading are left to the caller.
use vstd::prelude::*;
use vstd::string::*;

use crate::config::{Config, Lib, MAX_APP_SIZE_MB};

verus! {

/// A file to be uploaded, held in memory.
#[derive(Clone, Debug, PartialEq, Eq)]
pub struct FileUpload {
    pub filename: String,
    pub mimetype: String,
    pub bytes: Vec<u8>,
}

impl FileUpload {
    pub fn new(filename: String, mimetype: String, bytes: Vec<u8>) -> (r: Self)
        ensures
            r.filename == filename,
            r.mimetype == mimetype,
            r.bytes == bytes,
    {
        FileUpload { filename, mimetype, bytes }
    }
}

/// Concatenation of three strings.
fn join3(a: &str, b: &str, c: &str) -> (r: String)
    ensures
        r@ == a@ + b@ + c@,
{
    let mut s = a.to_owned();
    s.append(b);
    s.append(c);
    s
}

/// Concatenation of four strings.
fn join4(a: &str, b: &str, c: &str, d: &str) -> (r: String)
    ensures
        r@ == a@ + b@ + c@ + d@,
{
    let mut s = join3(a, b, c);
    s.append(d);
    s
}

/// The JavaScript and WebAssembly files produced for an app.
pub struct WasmPackage {
    pub lib: Lib,
    pub js: String,
    pub wasm: String,
}

impl WasmPackage {
    pub fn new(lib: Lib, wasm_path: String, js_path: String) -> (r: Self)
        ensures
            r.lib == lib,
            r.wasm == wasm_path,
            r.js == js_path,
    {
        WasmPackage { lib, wasm: wasm_path, js: js_path }
    }
}

/// The component that adds the home-screen icons.
pub struct IconComponent<'a> {
    pub conf: &'a Config,
}

impl<'a> IconComponent<'a> {
    pub fn new(conf: &'a Config) -> (r: Self)
        ensures
            r.conf == conf,
    {
        IconComponent { conf }
    }

    /// The upload of the icon of size `size` under `file_prefix`.
    pub fn upload(file_prefix: &str, size: &str, bytes: Vec<u8>) -> (r: FileUpload)
        ensures
            r.filename@ == file_prefix@ + "/app/img/icons/homescreen_"@ + size@ + ".png"@,
            r.mimetype@ == "image/png"@,
            r.bytes == bytes,
    {
        FileUpload::new(
            join4(file_prefix, "/app/img/icons/homescreen_", size, ".png"),
            String::from_str("image/png"),
            bytes,
        )
    }
}

/// The component that adds the launch splashscreens.
pub struct SplashscreenComponent<'a> {
    pub conf: &'a Config,
}

impl<'a> SplashscreenComponent<'a> {
    pub fn new(conf: &'a Config) -> (r: Self)
        ensures
            r.conf == conf,
    {
        SplashscreenComponent { conf }
    }

    /// The upload of the splashscreen of `device` under `file_prefix`.
    pub fn upload(file_prefix: &str, device: &str, bytes: Vec<u8>) -> (r: FileUpload)
        ensures
            r.filename@ == file_prefix@ + "/img/splashscreens/"@ + device@ + ".png"@,
            r.mimetype@ == "image/png"@,
            r.bytes == bytes,
    {
        FileUpload::new(
            join4(file_prefix, "/img/splashscreens/", device, ".png"),
            String::from_str("image/png"),
            bytes,
        )
    }
}

/// The component that adds the app's JavaScript glue and WebAssembly.
pub struct WasmComponent<'a> {
    pub wasm_path: String,
    pub out_path: &'a String,
}

impl<'a> WasmComponent<'a> {
    pub fn new(wasm_path: String, out_path: &'a String) -> (r: Self)
        ensures
            r.wasm_path == wasm_path,
            r.out_path == out_path,
    {
        WasmComponent { wasm_path, out_path }
    }

    /// The shell command that generates the bindings into the output
    /// directory.
    pub fn bindgen_command(&self) -> (r: String)
        ensures
            r@ == "wasm-bindgen "@ + self.wasm_path@ + " --no-typescript --no-modules --out-dir "@
                + self.out_path@ + " --out-name app"@,
    {
        let mut s = join3("wasm-bindgen ", self.wasm_path.as_str(), " --no-typescript --no-modules --out-dir ");
        s.append(self.out_path.as_str());
        s.append(" --out-name app");
        s
    }

    /// The upload of the generated JavaScript under `file_prefix`.
    pub fn js_upload(file_prefix: &str, bytes: Vec<u8>) -> (r: FileUpload)
        ensures
            r.filename@ == file_prefix@ + "/app/app.js"@,
            r.mimetype@ == "application/javascript"@,
            r.bytes == bytes,
    {
        let mut name = file_prefix.to_owned();
        name.append("/app/app.js");
        FileUpload::new(name, String::from_str("application/javascript"), bytes)
    }

    /// The upload of the generated WebAssembly under `file_prefix`.
    pub fn wasm_upload(file_prefix: &str, bytes: Vec<u8>) -> (r: FileUpload)
        ensures
            r.filename@ == file_prefix@ + "/app/app.wasm"@,
            r.mimetype@ == "application/wasm"@,
            r.bytes == bytes,
    {
        let mut name = file_prefix.to_owned();
        name.append("/app/app.wasm");
        FileUpload::new(name, String::from_str("application/wasm"), bytes)
    }
}

/// Total number of bytes in a sequence of uploads.
pub open spec fn total_size(files: Seq<FileUpload>) -> nat
    decreases files.len(),
{
    if files.len() == 0 {
        0
    } else {
        total_size(files.drop_last()) + files.last().bytes@.len()
    }
}

/// The files of an app bundle, collected from its components.
pub struct AppBuilder {
    pub files: Vec<FileUpload>,
}

impl AppBuilder {
    pub fn new() -> (r: Self)
        ensures
            r.files@.len() == 0,
    {
        AppBuilder { files: Vec::new() }
    }

    /// Adds the files a component produced, after those already there.
    pub fn add_files(&mut self, files: Vec<FileUpload>)
        ensures
            final(self).files@ == old(self).files@ + files@,
    {
        let mut files = files;
        self.files.append(&mut files);
    }

    /// The size in bytes of the whole bundle, saturating at `usize::MAX`.
    pub fn size(&self) -> (r: usize)
        ensures
            r == if total_size(self.files@) <= usize::MAX {
                total_size(self.files@)
            } else {
                usize::MAX as nat
            },
    {
        let mut size: usize = 0;
        let mut i: usize = 0;
        while i < self.files.len()
            invariant
                i <= self.files@.len(),
                size == if total_size(self.files@.take(i as int)) <= usize::MAX {
                    total_size(self.files@.take(i as int))
                } else {
                    usize::MAX as nat
                },
            decreases self.files@.len() - i,
        {
            assert(self.files@.take(i + 1).drop_last() =~= self.files@.take(i as int));
            size = size.saturating_add(self.files[i].bytes.len());
            i = i + 1;
        }
        assert(self.files@.take(i as int) =~= self.files@);
        size
    }
}

/// Whether a bundle of `size` bytes is over the deploy limit, counted in
/// whole megabytes.
pub fn exceeds_size_limit(size: usize) -> (r: bool)
    ensures
        r == (size / 1_000_000 > MAX_APP_SIZE_MB),
{
    size / 1_000_000 > MAX_APP_SIZE_MB
}

/// The key prefix under which a deployed app's files are stored: the
/// identity id, then the project id.
pub fn deploy_prefix(identity_id: &str, project_id: &str) -> (r: String)
    ensures
        r@ == identity_id@ + "/"@ + project_id@,
{
    join3(identity_id, "/", project_id)
}

/// The MIME types of uploaded files.
#[derive(Clone, Copy, Debug, PartialEq, Eq, Structural)]
pub enum MimeType {
    HTML,
    CSS,
    PNG,
    JavaScript,
}

impl MimeType {
    /// The MIME type as written in a `Content-Type` header.
    pub fn to_string(&self) -> (r: String)
        ensures
            r@ == match self {
                MimeType::HTML => "text/html"@,
                MimeType::CSS => "text/css"@,
                MimeType::JavaScript => "application/javascript"@,
                MimeType::PNG => "image/png"@,
            },
    {
        let s = match self {
            MimeType::HTML => "text/html",
            MimeType::CSS => "text/css",
            MimeType::JavaScript => "application/javascript",
            MimeType::PNG => "image/png",
        };
        String::from_str(s)
    }
}

} // verus!
