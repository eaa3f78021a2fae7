use woz::bundle::{
    deploy_prefix, exceeds_size_limit, AppBuilder, FileUpload, IconComponent, MimeType,
    SplashscreenComponent, WasmComponent, WasmPackage,
};
use woz::cli::{handler, random_version, Command, CustomEvent};
use woz::config::{Config, ConfigError, Environment, Icons, Lib, ProjectId, SplashScreens};

#[test]
fn project_id_test() {
    let valid1 = String::from("test_123");
    let valid2 = String::from("testing");
    let invalid1 = String::from("test*(#&$");
    let invalid2 = String::from("test ing");

    assert_eq!(ProjectId::is_valid(&valid1), true);
    assert_eq!(ProjectId::is_valid(&valid2), true);
    assert_eq!(ProjectId::is_valid(&invalid1), false);
    assert_eq!(ProjectId::is_valid(&invalid2), false);
}

#[test]
fn project_id_edge_cases() {
    assert!(!ProjectId::is_valid(&String::new()));
    assert!(ProjectId::is_valid(&String::from("a-B_9")));
    assert!(!ProjectId::is_valid(&String::from("é")));
    assert!(!ProjectId::is_valid(&String::from("abc\n")));
    assert_eq!(ProjectId::parse(String::from("seed")).unwrap(), ProjectId(String::from("seed")));
    assert_eq!(ProjectId::parse(String::from("My App")), Err(ConfigError::InvalidProjectId));
    assert_eq!(ProjectId::default().0, "My App");
}

#[test]
fn random_version_works() {
    assert_eq!(7, random_version().len());
}

#[test]
fn random_version_is_alphanumeric() {
    for _ in 0..50 {
        assert!(random_version().chars().all(|c| c.is_ascii_alphanumeric()));
    }
}

#[test]
fn to_string() {
    assert_eq!(String::from("text/html"), MimeType::HTML.to_string());
}

#[test]
fn mime_types() {
    assert_eq!(MimeType::CSS.to_string(), "text/css");
    assert_eq!(MimeType::PNG.to_string(), "image/png");
    assert_eq!(MimeType::JavaScript.to_string(), "application/javascript");
}

#[test]
fn lib_and_environment_names() {
    assert_eq!(Lib::from_name("wasm-bindgen"), Lib::WasmBindgen);
    assert_eq!(Lib::from_name("std-web"), Lib::StdWeb);
    assert_eq!(Lib::from_name("other"), Lib::Unknown(String::from("other")));
    assert_eq!(Environment::from_name("production"), Environment::Production);
    assert_eq!(Environment::from_name("development"), Environment::Development);
    assert_eq!(Environment::from_name("staging"), Environment::Unknown(String::from("staging")));
}

#[test]
fn config_defaults() {
    let c = Config::default();
    assert_eq!(c.project_id.0, "default");
    assert_eq!(c.lib, Some(Lib::WasmBindgen));
    assert_eq!(c.name, "My App");
    assert_eq!(c.short_name, Some(String::from("App")));
    assert_eq!(c.description, Some(String::from("App built with woz.sh")));
    assert_eq!(c.env, Some(Environment::Development));
    assert_eq!(c.bg_color, Some(String::from("#ffffff")));
    assert!(c.icons.is_none() && c.splashscreens.is_none() && c.wasm_path.is_empty());
}

#[test]
fn icons_and_splashscreens_in_order() {
    let icons = Icons {
        path_48x48: String::from("a"),
        path_72x72: String::from("b"),
        path_96x96: String::from("c"),
        path_144x144: String::from("d"),
        path_168x168: String::from("e"),
        path_192x192: String::from("f"),
        path_512x512: String::from("g"),
    };
    let v = icons.to_vec();
    assert_eq!(v.len(), 7);
    assert_eq!(v[0], ("48x48", &String::from("a")));
    assert_eq!(v[6], ("512x512", &String::from("g")));
    let s = SplashScreens {
        iphone5: String::from("1"),
        iphone6: String::from("2"),
        iphoneplus: String::from("3"),
        iphonex: String::from("4"),
        iphonexr: String::from("5"),
        iphonexsmax: String::from("6"),
        ipad: String::from("7"),
        ipadpro1: String::from("8"),
        ipadpro3: String::from("9"),
        ipadpro2: String::from("10"),
    };
    let v = s.to_vec();
    assert_eq!(v.len(), 10);
    assert_eq!(v[8], ("ipadpro3", &String::from("9")));
    assert_eq!(v[9], ("ipadpro2", &String::from("10")));
}

#[test]
fn component_upload_names() {
    let conf = Config::default();
    let icon = IconComponent::new(&conf);
    assert_eq!(icon.conf.name, "My App");
    let up = IconComponent::upload("pre", "48x48", vec![1, 2]);
    assert_eq!(up.filename, "pre/app/img/icons/homescreen_48x48.png");
    assert_eq!(up.mimetype, "image/png");
    assert_eq!(up.bytes, vec![1, 2]);
    let splash = SplashscreenComponent::new(&conf);
    assert!(splash.conf.splashscreens.is_none());
    let up = SplashscreenComponent::upload("pre", "ipad", vec![]);
    assert_eq!(up.filename, "pre/img/splashscreens/ipad.png");
    let out = String::from("/out");
    let wasm = WasmComponent::new(String::from("app.wasm"), &out);
    assert_eq!(
        wasm.bindgen_command(),
        "wasm-bindgen app.wasm --no-typescript --no-modules --out-dir /out --out-name app"
    );
    assert_eq!(WasmComponent::js_upload("p", vec![]).filename, "p/app/app.js");
    assert_eq!(WasmComponent::wasm_upload("p", vec![]).mimetype, "application/wasm");
    let pkg = WasmPackage::new(Lib::WasmBindgen, String::from("w"), String::from("j"));
    assert_eq!((pkg.wasm.as_str(), pkg.js.as_str()), ("w", "j"));
}

#[test]
fn bundle_size_and_limit() {
    let mut app = AppBuilder::new();
    assert_eq!(app.size(), 0);
    app.add_files(vec![
        FileUpload::new(String::from("a"), String::from("text/html"), vec![0; 10]),
        FileUpload::new(String::from("b"), String::from("text/css"), vec![0; 5]),
    ]);
    app.add_files(vec![FileUpload::new(String::from("c"), String::from("image/png"), vec![])]);
    assert_eq!(app.size(), 15);
    assert_eq!(app.files[2].filename, "c");
    assert!(!exceeds_size_limit(20_999_999));
    assert!(exceeds_size_limit(21_000_000));
    assert!(!exceeds_size_limit(0));
}

#[test]
fn deploy_prefix_joins_ids() {
    assert_eq!(deploy_prefix("id_123", "seed"), "id_123/seed");
}

#[test]
fn commands_by_name() {
    assert_eq!(Command::from("build"), Command::Build);
    assert_eq!(Command::from("deploy"), Command::Deploy);
    assert_eq!(Command::from("init"), Command::Init);
    assert_eq!(Command::from("new"), Command::NewProject);
    assert_eq!(Command::from("setup"), Command::Setup);
    assert_eq!(Command::from("signup"), Command::Signup);
    assert_eq!(Command::from("update"), Command::Update);
    assert_eq!(Command::from("Build"), Command::Unknown);
}

#[test]
fn greeting() {
    let out = handler(CustomEvent { first_name: String::from("Ada") });
    assert_eq!(out.message, "Hello, Ada!");
    assert_eq!(handler(CustomEvent { first_name: String::new() }).message, "Hello, !");
}
