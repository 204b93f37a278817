//! Path resolution, default names, and the plans' directory policy.

use abserde::Abserde;
use abserde::Format;
use abserde::Location;
use abserde::PrettyJsonIndent;
use abserde::Record;

fn os_root() -> String {
    dirs::config_dir()
        .unwrap()
        .into_os_string()
        .into_string()
        .unwrap()
}

#[test]
fn test_default_names() {
    assert_eq!(Format::Json.default_name(), "config.json");
    assert_eq!(
        Format::PrettyJson(PrettyJsonIndent::Tab).default_name(),
        "config.json"
    );
    assert_eq!(
        Format::PrettyJson(PrettyJsonIndent::Spaces(4)).default_name(),
        "config.json"
    );
    assert_eq!(Format::Yaml.default_name(), "config.yaml");
    assert_eq!(Format::Pickle.default_name(), "config.pickle");
    assert_eq!(Format::Ini.default_name(), "config.ini");
    assert_eq!(Format::Toml.default_name(), "config.toml");
}

#[test]
fn test_indent_string() {
    assert_eq!(PrettyJsonIndent::Tab.indent_string(), "\t");
    assert_eq!(PrettyJsonIndent::Spaces(0).indent_string(), "");
    assert_eq!(PrettyJsonIndent::Spaces(4).indent_string(), "    ");
}

#[test]
fn test_path_verbatim() {
    let abserde = Abserde {
        app: String::from("IgnoredApp"),
        location: Location::Path(String::from("/tmp/somewhere/else.bin")),
        format: Format::Yaml,
    };
    assert_eq!(abserde.config_path().unwrap(), "/tmp/somewhere/else.bin");
}

#[test]
fn test_explicit_dir_ignores_app() {
    let first = Abserde {
        app: String::from("MyApp"),
        location: Location::Dir(String::from("/tmp/t")),
        format: Format::Toml,
    };
    let second = Abserde {
        app: String::from("EntirelyOtherApp"),
        location: Location::Dir(String::from("/tmp/t")),
        format: Format::Toml,
    };
    assert_eq!(first.config_path().unwrap(), "/tmp/t/config.toml");
    assert_eq!(second.config_path().unwrap(), "/tmp/t/config.toml");
}

#[test]
fn test_auto_path_shape() {
    let abserde = Abserde {
        app: String::from("MyApp"),
        location: Location::Auto,
        format: Format::Json,
    };
    let expected = format!("{}/MyApp/config.json", os_root());
    assert_eq!(abserde.config_path().unwrap(), expected);
}

#[test]
fn test_file_path_shape() {
    let abserde = Abserde {
        app: String::from("abserde"),
        location: Location::File(String::from("custom_file.json")),
        format: Format::Json,
    };
    let expected = format!("{}/abserde/custom_file.json", os_root());
    assert_eq!(abserde.config_path().unwrap(), expected);
}

#[test]
fn test_resolve_is_deterministic() {
    let abserde = Abserde {
        app: String::from("MyApp"),
        location: Location::Auto,
        format: Format::Pickle,
    };
    assert_eq!(abserde.config_path().unwrap(), abserde.config_path().unwrap());
    assert_eq!(
        abserde.resolve_with_root("/base"),
        abserde.resolve_with_root("/base")
    );
    assert_eq!(
        abserde.resolve_with_root("/base"),
        "/base/MyApp/config.pickle"
    );
}

#[test]
fn test_default_store() {
    let abserde = Abserde::default();
    assert_eq!(abserde.app, "abserde");
    assert!(matches!(abserde.location, Location::Auto));
    assert!(matches!(abserde.format, Format::Json));
    let expected = format!("{}/abserde/config.json", os_root());
    assert_eq!(abserde.config_path().unwrap(), expected);
}

#[test]
fn test_parent_of() {
    assert_eq!(abserde::parent_of("a/b/c"), Some(String::from("a/b")));
    assert_eq!(abserde::parent_of("/tmp/t/config.toml"), Some(String::from("/tmp/t")));
    assert_eq!(abserde::parent_of("/x"), Some(String::from("")));
    assert_eq!(abserde::parent_of("plainfile"), None);
    assert_eq!(abserde::parent_of(""), None);
}

#[test]
fn test_save_plan_names_parent_dir() {
    let abserde = Abserde {
        app: String::from("MyApp"),
        location: Location::Auto,
        format: Format::Json,
    };
    let plan = abserde.save_plan(&Record::new()).unwrap();
    let root = os_root();
    assert_eq!(plan.path, format!("{}/MyApp/config.json", root));
    assert_eq!(plan.dir, Some(format!("{}/MyApp", root)));
}

#[test]
fn test_delete_plan_dir_untouched() {
    let abserde = Abserde {
        app: String::from("MyApp"),
        location: Location::Dir(String::from("/tmp/t")),
        format: Format::Json,
    };
    let plan = abserde.delete_plan().unwrap();
    assert_eq!(plan.path, "/tmp/t/config.json");
    assert_eq!(plan.parent_to_remove, None);
}

#[test]
fn test_delete_plan_cleanup_targets() {
    let root = os_root();

    let auto = Abserde {
        app: String::from("MyApp"),
        location: Location::Auto,
        format: Format::Json,
    };
    let plan = auto.delete_plan().unwrap();
    assert_eq!(plan.parent_to_remove, Some(format!("{}/MyApp", root)));

    let by_path = Abserde {
        app: String::from("MyApp"),
        location: Location::Path(String::from("/tmp/abc/file.json")),
        format: Format::Json,
    };
    let plan = by_path.delete_plan().unwrap();
    assert_eq!(plan.parent_to_remove, Some(String::from("/tmp/abc")));

    let by_file = Abserde {
        app: String::from("MyApp"),
        location: Location::File(String::from("custom.json")),
        format: Format::Json,
    };
    let plan = by_file.delete_plan().unwrap();
    assert_eq!(plan.parent_to_remove, Some(format!("{}/MyApp", root)));
}

#[test]
fn test_auto_example_scenario() {
    let abserde = Abserde {
        app: String::from("MyApp"),
        location: Location::Auto,
        format: Format::Json,
    };
    let root = os_root();

    let mut record = Record::new();
    record.set("x", 1);

    let save = abserde.save_plan(&record).unwrap();
    assert_eq!(save.path, format!("{}/MyApp/config.json", root));
    assert_eq!(save.dir, Some(format!("{}/MyApp", root)));
    assert_eq!(save.bytes, b"{\"x\":1}");

    let loaded = abserde.load_from_bytes(&save.bytes).unwrap();
    assert_eq!(loaded.get("x"), Some(1));
    assert_eq!(loaded, record);

    let delete = abserde.delete_plan().unwrap();
    assert_eq!(delete.path, save.path);
    assert_eq!(delete.parent_to_remove, Some(format!("{}/MyApp", root)));
}
