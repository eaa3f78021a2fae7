//! The project configuration read from a project's `woz.toml`: the target
//! library, the build environment, the project id and the optional icon and
//! splashscreen paths. File paths are kept as strings.
use vstd::prelude::*;
use vstd::string::*;

use crate::text::same_text;

verus! {

/// Largest app bundle, in megabytes, that may be deployed.
pub const MAX_APP_SIZE_MB: usize = 20;

/// The library the app's WebAssembly is built with.
#[derive(Clone, Debug, PartialEq, Eq)]
pub enum Lib {
    WasmBindgen,
    StdWeb,
    Unknown(String),
}

impl Lib {
    /// The library a configuration value names: `wasm-bindgen`, `std-web`,
    /// or any other name kept as it is.
    pub fn from_name(s: &str) -> (r: Lib)
        ensures
            s@ == "wasm-bindgen"@ ==> r is WasmBindgen,
            s@ == "std-web"@ ==> r is StdWeb,
            s@ != "wasm-bindgen"@ && s@ != "std-web"@ ==> (r matches Lib::Unknown(u) && u@ == s@),
    {
        proof {
            reveal_strlit("wasm-bindgen");
            reveal_strlit("std-web");
            assert("wasm-bindgen"@.len() != "std-web"@.len());
        }
        if same_text(s, "wasm-bindgen") {
            Lib::WasmBindgen
        } else if same_text(s, "std-web") {
            Lib::StdWeb
        } else {
            Lib::Unknown(s.to_owned())
        }
    }
}

/// The environment an app is built for.
#[derive(Clone, Debug, PartialEq, Eq)]
pub enum Environment {
    Production,
    Development,
    Unknown(String),
}

impl Environment {
    /// The environment a configuration value names: `production`,
    /// `development`, or any other name kept as it is.
    pub fn from_name(s: &str) -> (r: Environment)
        ensures
            s@ == "production"@ ==> r is Production,
            s@ == "development"@ ==> r is Development,
            s@ != "production"@ && s@ != "development"@ ==> (r matches Environment::Unknown(u)
                && u@ == s@),
    {
        proof {
            reveal_strlit("production");
            reveal_strlit("development");
            assert("production"@[0] != "development"@[0]);
        }
        if same_text(s, "production") {
            Environment::Production
        } else if same_text(s, "development") {
            Environment::Development
        } else {
            Environment::Unknown(s.to_owned())
        }
    }
}

/// A character allowed in a project id: an ASCII letter or digit, `-` or
/// `_`.
pub open spec fn project_id_char(c: char) -> bool {
    ('a' <= c && c <= 'z') || ('A' <= c && c <= 'Z') || ('0' <= c && c <= '9') || c == '-' || c
        == '_'
}

/// A valid project id: one or more allowed characters.
pub open spec fn valid_project_id(s: Seq<char>) -> bool {
    s.len() > 0 && forall|i: int| 0 <= i < s.len() ==> project_id_char(#[trigger] s[i])
}

/// Why a configuration value was refused.
#[derive(Clone, Copy, Debug, PartialEq, Eq, Structural)]
pub enum ConfigError {
    /// A project id holds a character other than letters, digits, `-` and
    /// `_`, or is empty.
    InvalidProjectId,
}

/// The id under which a project is stored and served.
#[derive(Clone, Debug, PartialEq, Eq)]
pub struct ProjectId(pub String);

impl ProjectId {
    /// The id of a project that has not set one.
    pub fn default() -> (r: ProjectId)
        ensures
            r.0@ == "My App"@,
    {
        ProjectId(String::from_str("My App"))
    }

    /// Whether `id` is a valid project id.
    pub fn is_valid(id: &String) -> (r: bool)
        ensures
            r == valid_project_id(id@),
    {
        let s = id.as_str();
        let n = s.unicode_len();
        if n == 0 {
            return false;
        }
        let mut i: usize = 0;
        while i < n
            invariant
                n == s@.len(),
                s@ == id@,
                i <= n,
                forall|j: int| 0 <= j < i ==> project_id_char(#[trigger] s@[j]),
            decreases n - i,
        {
            let c = s.get_char(i);
            if !(('a' <= c && c <= 'z') || ('A' <= c && c <= 'Z') || ('0' <= c && c <= '9') || c
                == '-' || c == '_') {
                return false;
            }
            i = i + 1;
        }
        true
    }

    /// The project id a configuration value gives, refused unless valid.
    pub fn parse(s: String) -> (r: Result<ProjectId, ConfigError>)
        ensures
            match r {
                Ok(id) => valid_project_id(s@) && id.0@ == s@,
                Err(e) => !valid_project_id(s@) && e == ConfigError::InvalidProjectId,
            },
    {
        if ProjectId::is_valid(&s) {
            Ok(ProjectId(s))
        } else {
            Err(ConfigError::InvalidProjectId)
        }
    }
}

/// Paths of the home-screen icons, one per size.
#[derive(Clone, Debug, PartialEq, Eq)]
pub struct Icons {
    pub path_48x48: String,
    pub path_72x72: String,
    pub path_96x96: String,
    pub path_144x144: String,
    pub path_168x168: String,
    pub path_192x192: String,
    pub path_512x512: String,
}

impl Icons {
    /// Each icon size with its path, from the smallest to the largest.
    pub fn to_vec(&self) -> (r: Vec<(&'static str, &String)>)
        ensures
            r@.len() == 7,
            r@[0].0@ == "48x48"@ && r@[0].1 == &self.path_48x48,
            r@[1].0@ == "72x72"@ && r@[1].1 == &self.path_72x72,
            r@[2].0@ == "96x96"@ && r@[2].1 == &self.path_96x96,
            r@[3].0@ == "144x144"@ && r@[3].1 == &self.path_144x144,
            r@[4].0@ == "168x168"@ && r@[4].1 == &self.path_168x168,
            r@[5].0@ == "192x192"@ && r@[5].1 == &self.path_192x192,
            r@[6].0@ == "512x512"@ && r@[6].1 == &self.path_512x512,
    {
        vec![
            ("48x48", &self.path_48x48),
            ("72x72", &self.path_72x72),
            ("96x96", &self.path_96x96),
            ("144x144", &self.path_144x144),
            ("168x168", &self.path_168x168),
            ("192x192", &self.path_192x192),
            ("512x512", &self.path_512x512),
        ]
    }
}

/// Paths of the launch splashscreens, one per device.
#[derive(Clone, Debug, PartialEq, Eq)]
pub struct SplashScreens {
    pub iphone5: String,
    pub iphone6: String,
    pub iphoneplus: String,
    pub iphonex: String,
    pub iphonexr: String,
    pub iphonexsmax: String,
    pub ipad: String,
    pub ipadpro1: String,
    pub ipadpro3: String,
    pub ipadpro2: String,
}

impl SplashScreens {
    /// Each device with its splashscreen path.
    pub fn to_vec(&self) -> (r: Vec<(&'static str, &String)>)
        ensures
            r@.len() == 10,
            r@[0].0@ == "iphone5"@ && r@[0].1 == &self.iphone5,
            r@[1].0@ == "iphone6"@ && r@[1].1 == &self.iphone6,
            r@[2].0@ == "iphoneplus"@ && r@[2].1 == &self.iphoneplus,
            r@[3].0@ == "iphonex"@ && r@[3].1 == &self.iphonex,
            r@[4].0@ == "iphonexr"@ && r@[4].1 == &self.iphonexr,
            r@[5].0@ == "iphonexsmax"@ && r@[5].1 == &self.iphonexsmax,
            r@[6].0@ == "ipad"@ && r@[6].1 == &self.ipad,
            r@[7].0@ == "ipadpro1"@ && r@[7].1 == &self.ipadpro1,
            r@[8].0@ == "ipadpro3"@ && r@[8].1 == &self.ipadpro3,
            r@[9].0@ == "ipadpro2"@ && r@[9].1 == &self.ipadpro2,
    {
        vec![
            ("iphone5", &self.iphone5),
            ("iphone6", &self.iphone6),
            ("iphoneplus", &self.iphoneplus),
            ("iphonex", &self.iphonex),
            ("iphonexr", &self.iphonexr),
            ("iphonexsmax", &self.iphonexsmax),
            ("ipad", &self.ipad),
            ("ipadpro1", &self.ipadpro1),
            ("ipadpro3", &self.ipadpro3),
            ("ipadpro2", &self.ipadpro2),
        ]
    }
}

/// A project's configuration.
#[derive(Clone, Debug, PartialEq, Eq)]
pub struct Config {
    pub project_id: ProjectId,
    pub lib: Option<Lib>,
    pub name: String,
    pub short_name: Option<String>,
    pub project_url: Option<String>,
    pub author: Option<String>,
    pub description: Option<String>,
    pub env: Option<Environment>,
    pub wasm_path: String,
    pub icons: Option<Icons>,
    pub splashscreens: Option<SplashScreens>,
    pub bg_color: Option<String>,
}

impl Config {
    /// The values a configuration file falls back to for what it leaves out.
    pub fn default() -> (r: Config)
        ensures
            r.project_id.0@ == "default"@,
            r.lib == Some(Lib::WasmBindgen),
            r.name@ == "My App"@,
            r.short_name matches Some(s) && s@ == "App"@,
            r.project_url is None,
            r.author is None,
            r.description matches Some(d) && d@ == "App built with woz.sh"@,
            r.env == Some(Environment::Development),
            r.wasm_path@.len() == 0,
            r.icons is None,
            r.splashscreens is None,
            r.bg_color matches Some(c) && c@ == "#ffffff"@,
    {
        Config {
            project_id: ProjectId(String::from_str("default")),
            lib: Some(Lib::WasmBindgen),
            name: String::from_str("My App"),
            short_name: Some(String::from_str("App")),
            project_url: None,
            author: None,
            description: Some(String::from_str("App built with woz.sh")),
            env: Some(Environment::Development),
            wasm_path: String::new(),
            icons: None,
            splashscreens: None,
            bg_color: Some(String::from_str("#ffffff")),
        }
    }
}

} // verus!
