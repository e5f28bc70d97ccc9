use json_settings::{
    config_dir_filepath, exe_dir_filepath, default_filename, Env, JsonSettings, Platform,
    SettingsError,
};

fn env(
    xdg: Option<&str>,
    home: Option<&str>,
    appdata: Option<&str>,
    android: Option<&str>,
) -> Env {
    Env {
        xdg_config_home: xdg.map(|s| s.to_string()),
        home: home.map(|s| s.to_string()),
        appdata: appdata.map(|s| s.to_string()),
        android_internal_storage: android.map(|s| s.to_string()),
    }
}

fn s(v: &str) -> serde_json::Value {
    serde_json::Value::String(v.to_string())
}

fn obj(pairs: &[(&str, serde_json::Value)]) -> serde_json::Value {
    let mut m = serde_json::Map::new();
    for (k, v) in pairs {
        m.insert(k.to_string(), v.clone());
    }
    serde_json::Value::Object(m)
}

#[test]
fn print_exec_dir_filepath() {
    let filepath = exe_dir_filepath(&Platform::Linux, "/opt/app/bin/tool", "test.json");

    println!("{:?}", filepath);

    assert!(filepath.is_ok())
}

#[test]
fn print_config_dir_filepath() {
    let e = env(Some("/tmp/cfg"), None, None, None);
    let filepath = config_dir_filepath(&Platform::Linux, &e, "/opt/app/bin/tool", "test2.json");

    println!("{:?}", filepath);

    assert!(filepath.is_ok())
}

#[test]
fn read_on_missing_file_is_all_absent() {
    let js = JsonSettings::new(&"/tmp/settings.json".to_string());
    let kv = js.read_by_key(&None, "anything").unwrap();
    assert!(!kv.file_exists);
    assert!(!kv.key_exists);
    assert!(kv.value.is_none());
    assert!(kv.key.is_none());
}

#[test]
fn write_then_read_fresh_file() {
    let js = JsonSettings::new(&"/tmp/settings.json".to_string());
    let text = js.write_by_key(&None, "theme", &s("dark")).unwrap();

    let parsed: serde_json::Value = serde_json::from_str(&text).unwrap();
    assert_eq!(parsed, obj(&[("theme", s("dark"))]));

    let kv = js.read_by_key(&Some(text.clone()), "theme").unwrap();
    assert!(kv.file_exists);
    assert!(kv.key_exists);
    assert_eq!(kv.key, Some("theme".to_string()));
    assert_eq!(kv.value, Some(s("dark")));

    let kv2 = js.read_by_key(&Some(text), "missing").unwrap();
    assert!(kv2.file_exists);
    assert!(!kv2.key_exists);
    assert!(kv2.value.is_none());
    assert_eq!(kv2.key, Some("missing".to_string()));
}

#[test]
fn round_trip_every_json_kind() {
    let js = JsonSettings::new(&"/tmp/settings.json".to_string());
    let values = vec![
        serde_json::Value::Null,
        serde_json::Value::Bool(true),
        serde_json::Value::Number(serde_json::Number::from(42)),
        s("text"),
        serde_json::Value::Array(vec![s("a"), serde_json::Value::Bool(false)]),
        obj(&[("inner", s("x"))]),
    ];
    for v in values {
        let text = js.write_by_key(&None, "k", &v).unwrap();
        let kv = js.read_by_key(&Some(text), "k").unwrap();
        assert!(kv.file_exists);
        assert!(kv.key_exists);
        assert_eq!(kv.value, Some(v));
    }
}

#[test]
fn write_twice_is_idempotent() {
    let js = JsonSettings::new(&"/tmp/settings.json".to_string());
    let once = js.write_by_key(&None, "k", &s("v")).unwrap();
    let twice = js.write_by_key(&Some(once.clone()), "k", &s("v")).unwrap();
    let parsed_once: serde_json::Value = serde_json::from_str(&once).unwrap();
    let parsed_twice: serde_json::Value = serde_json::from_str(&twice).unwrap();
    assert_eq!(parsed_once, parsed_twice);
}

#[test]
fn writes_to_distinct_keys_do_not_interfere() {
    let js = JsonSettings::new(&"/tmp/settings.json".to_string());
    let t1 = js.write_by_key(&None, "k1", &s("v1")).unwrap();
    let t2 = js.write_by_key(&Some(t1), "k2", &s("v2")).unwrap();

    let kv1 = js.read_by_key(&Some(t2.clone()), "k1").unwrap();
    assert_eq!(kv1.value, Some(s("v1")));
    let kv2 = js.read_by_key(&Some(t2.clone()), "k2").unwrap();
    assert_eq!(kv2.value, Some(s("v2")));

    let t3 = js.write_by_key(&Some(t2), "k1", &s("other")).unwrap();
    let kv1b = js.read_by_key(&Some(t3.clone()), "k1").unwrap();
    assert_eq!(kv1b.value, Some(s("other")));
    let kv2b = js.read_by_key(&Some(t3), "k2").unwrap();
    assert_eq!(kv2b.value, Some(s("v2")));
}

#[test]
fn overwriting_a_key_keeps_the_last_value() {
    let js = JsonSettings::new(&"/tmp/settings.json".to_string());
    let t1 = js.write_by_key(&None, "k", &s("first")).unwrap();
    let t2 = js.write_by_key(&Some(t1), "k", &s("second")).unwrap();
    let parsed: serde_json::Value = serde_json::from_str(&t2).unwrap();
    assert_eq!(parsed, obj(&[("k", s("second"))]));
}

#[test]
fn corrupt_file_read_errors_write_recovers() {
    let js = JsonSettings::new(&"/tmp/settings.json".to_string());
    let corrupt = Some("this is not { json".to_string());

    let r = js.read_by_key(&corrupt, "x");
    assert!(matches!(r, Err(SettingsError::Load(_))));

    let one = serde_json::Value::Number(serde_json::Number::from(1));
    let text = js.write_by_key(&corrupt, "x", &one).unwrap();
    let parsed: serde_json::Value = serde_json::from_str(&text).unwrap();
    assert_eq!(parsed, obj(&[("x", one)]));
}

#[test]
fn non_object_file_reads_as_key_not_found_and_write_discards_it() {
    let js = JsonSettings::new(&"/tmp/settings.json".to_string());
    let array_doc = Some("[1, 2, 3]".to_string());

    let kv = js.read_by_key(&array_doc, "x").unwrap();
    assert!(kv.file_exists);
    assert!(!kv.key_exists);
    assert!(kv.value.is_none());

    let text = js.write_by_key(&array_doc, "x", &s("y")).unwrap();
    let parsed: serde_json::Value = serde_json::from_str(&text).unwrap();
    assert_eq!(parsed, obj(&[("x", s("y"))]));
}

#[test]
fn too_deep_document_is_refused_at_write() {
    let mut v = serde_json::Value::Null;
    for _ in 0..200 {
        v = serde_json::Value::Array(vec![v]);
    }
    let js = JsonSettings::new(&"/tmp/settings.json".to_string());
    let r = js.write_by_key(&None, "k", &v);
    assert!(matches!(r, Err(SettingsError::Serialize(_))));
}

#[test]
fn shallow_writes_always_succeed() {
    let js = JsonSettings::new(&"/tmp/settings.json".to_string());
    let mut v = serde_json::Value::Bool(true);
    for _ in 0..20 {
        v = serde_json::Value::Array(vec![v]);
    }
    let text = js.write_by_key(&None, "k", &v).unwrap();
    let kv = js.read_by_key(&Some(text), "k").unwrap();
    assert_eq!(kv.value, Some(v));
}

#[test]
fn output_is_pretty_printed() {
    let js = JsonSettings::new(&"/tmp/settings.json".to_string());
    let text = js.write_by_key(&None, "theme", &s("dark")).unwrap();
    assert!(text.contains('\n'));
}

#[test]
fn default_filename_is_settings_json() {
    assert_eq!(default_filename(), "settings.json");
}

#[test]
fn exe_dir_paths_resolve_beside_the_executable() {
    let js = JsonSettings::exe_dir(&Platform::Linux, "/usr/local/bin/myapp").unwrap();
    assert_eq!(js.filepath(), "/usr/local/bin/settings.json");

    let js2 = JsonSettings::exe_dir_with_filename(&Platform::Linux, "/usr/local/bin/myapp", "conf.json").unwrap();
    assert_eq!(js2.filepath(), "/usr/local/bin/conf.json");

    let r = JsonSettings::exe_dir(&Platform::Linux, "myapp");
    assert!(matches!(r, Err(SettingsError::Environment)));
}

#[test]
fn windows_paths_split_and_join_with_backslash() {
    let js = JsonSettings::exe_dir(&Platform::Windows, "C:\\Programs\\tool.exe").unwrap();
    assert_eq!(js.filepath(), "C:\\Programs\\settings.json");

    let mixed = JsonSettings::exe_dir(&Platform::Windows, "C:\\Programs/tool.exe").unwrap();
    assert_eq!(mixed.filepath(), "C:\\Programs\\settings.json");
}

#[test]
fn config_path_linux_uses_xdg_config_home() {
    let e = env(Some("/tmp/cfg"), Some("/home/u"), None, None);
    let p = config_dir_filepath(&Platform::Linux, &e, "/usr/bin/myapp", "a.json").unwrap();
    assert_eq!(p, "/tmp/cfg/myapp/a.json");
}

#[test]
fn config_path_linux_falls_back_to_home() {
    let e = env(None, Some("/home/u"), None, None);
    let p = config_dir_filepath(&Platform::Linux, &e, "/usr/bin/myapp", "a.json").unwrap();
    assert_eq!(p, "/home/u/.config/myapp/a.json");

    let bare = env(None, None, None, None);
    let r = config_dir_filepath(&Platform::Linux, &bare, "/usr/bin/myapp", "a.json");
    assert!(matches!(r, Err(SettingsError::Environment)));
}

#[test]
fn config_path_per_platform_roots() {
    let e = env(None, Some("/home/u"), Some("C:\\Users\\u\\AppData\\Roaming"), Some("/storage"));
    let exe = "/bin/app";

    let w = config_dir_filepath(&Platform::Windows, &e, "C:\\bin\\app.exe", "a.json").unwrap();
    assert_eq!(w, "C:\\Users\\u\\AppData\\Roaming\\app.exe\\a.json");

    let m = config_dir_filepath(&Platform::MacOs, &e, exe, "a.json").unwrap();
    assert_eq!(m, "/home/u/Library/Application Support/app/a.json");

    let a = config_dir_filepath(&Platform::Android, &e, exe, "a.json").unwrap();
    assert_eq!(a, "/storage/config/app/a.json");

    let i = config_dir_filepath(&Platform::Ios, &e, exe, "a.json").unwrap();
    assert_eq!(i, "/home/u/Documents/config/app/a.json");

    let bare = env(None, None, None, None);
    assert!(config_dir_filepath(&Platform::Windows, &bare, exe, "a.json").is_err());
    assert!(config_dir_filepath(&Platform::MacOs, &bare, exe, "a.json").is_err());
    assert!(config_dir_filepath(&Platform::Android, &bare, exe, "a.json").is_err());
    assert!(config_dir_filepath(&Platform::Ios, &bare, exe, "a.json").is_err());
}

#[test]
fn config_dir_constructors_match_the_path_rule() {
    let e = env(Some("/tmp/cfg"), None, None, None);
    let js = JsonSettings::config_dir(&Platform::Linux, &e, "/usr/bin/myapp").unwrap();
    assert_eq!(js.filepath(), "/tmp/cfg/myapp/settings.json");

    let js2 =
        JsonSettings::config_dir_with_filename(&Platform::Linux, &e, "/usr/bin/myapp", "b.json")
            .unwrap();
    assert_eq!(js2.filepath(), "/tmp/cfg/myapp/b.json");
}

#[test]
fn config_dir_is_root_plus_exe_name() {
    let e = env(Some("/tmp/cfg"), None, None, None);
    let dir = json_settings::config_dir(&Platform::Linux, &e, "/usr/bin/myapp").unwrap();
    assert_eq!(dir, "/tmp/cfg/myapp");
}

#[test]
fn join_path_uses_one_separator() {
    assert_eq!(json_settings::join_path(&Platform::Linux, "/a/b", "c.json"), "/a/b/c.json");
}

#[test]
fn new_keeps_the_given_path() {
    let js = JsonSettings::new(&"/somewhere/app.json".to_string());
    assert_eq!(js.filepath(), "/somewhere/app.json");
}
