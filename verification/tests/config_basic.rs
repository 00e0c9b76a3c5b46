//! Configuration loading.

use ifcgen::config::{load_config_str, ModulesConfig};

fn load_config(s: &str) -> ModulesConfig {
    match load_config_str(s) {
        Ok(c) => c,
        Err(e) => {
            panic!("Failed to load config: {:?}", e);
        }
    }
}

#[test]
fn basic() {
    load_config(
        r#"

global_stuff = "blah blah"

includes = [
    "$(BASEDIR)/onecoreuap/windows/core/ntgdi/inc",
    "$(OBJECT_ROOT)/onecoreuap/windows/core/ntgdi/w32inc/$(O)",
]


[[header]]
file = "windows.h"
description = "Giant public Windows SDK header"
deps = ["nt.h"]
defines = ["WIN32_LEAN_AND_MEAN"]
gen-rust-rlib = true


[[header]]
file = "nt.h"
description = "Windows NT definitions"


[rustlib.truetype]
gen-cxx-header-unit = true
gen-cxx-module = true


    "#,
    );
}

#[test]
fn loaded_fields_are_read_back() {
    let c = load_config(
        r#"
global_stuff = "g"
includes = ["a", "b"]

[[header]]
file = "x.h"
gen_rust_rlib = true

[rustlib.tt]
gen_cxx_module = true
"#,
    );
    assert_eq!(c.global_stuff.as_deref(), Some("g"));
    assert_eq!(c.includes.as_deref(), Some(&["a".to_string(), "b".to_string()][..]));
    assert_eq!(c.header.len(), 1);
    assert_eq!(c.header[0].file, "x.h");
    assert_eq!(c.header[0].gen_rust_rlib, Some(true));
    let libs = c.rustlib.unwrap();
    assert_eq!(libs.len(), 1);
    assert_eq!(libs[0].0, "tt");
    assert_eq!(libs[0].1.gen_cxx_module, Some(true));
}

#[test]
fn missing_header_list_is_rejected() {
    assert!(load_config_str("global_stuff = \"g\"").is_err());
}

#[test]
fn malformed_document_is_rejected() {
    assert!(load_config_str("not [ toml").is_err());
}
