//! Build configuration: which header units to process and which
//! target-language libraries to produce, loaded from a TOML document.
//!
//! The document's shape is checked while reading: a missing or mistyped
//! required entry fails the load; unknown entries are ignored.

use vstd::prelude::*;
use crate::error::Error;

verus! {

#[verifier::external_type_specification]
#[verifier::external_body]
pub struct ExTomlValue(toml::Value);

/// Relies on the `FromStr` parse of `toml::Value`: `Some` exactly when the
/// document is well-formed TOML.
#[verifier::external_body]
fn toml_parse(s: &str) -> (r: Option<toml::Value>)
{
    s.parse::<toml::Value>().ok()
}

/// Relies on `toml::Value::get`: the value under a key of a table.
#[verifier::external_body]
fn toml_get<'a>(v: &'a toml::Value, key: &str) -> (r: Option<&'a toml::Value>)
{
    v.get(key)
}

/// Relies on `toml::Value::as_str`: the text of a string value.
#[verifier::external_body]
fn toml_as_str(v: &toml::Value) -> (r: Option<String>)
{
    v.as_str().map(|s| s.to_owned())
}

/// Relies on `toml::Value::as_bool`: the truth of a boolean value.
#[verifier::external_body]
fn toml_as_bool(v: &toml::Value) -> (r: Option<bool>)
{
    v.as_bool()
}

/// Relies on `toml::Value::as_array`: the elements of an array value.
#[verifier::external_body]
fn toml_as_array<'a>(v: &'a toml::Value) -> (r: Option<Vec<&'a toml::Value>>)
{
    v.as_array().map(|a| a.iter().collect())
}

/// Relies on `toml::Value::as_table`: the key-value entries of a table
/// value, in table order.
#[verifier::external_body]
fn toml_table_entries<'a>(v: &'a toml::Value) -> (r: Option<Vec<(String, &'a toml::Value)>>)
{
    v.as_table().map(|t| t.iter().map(|(k, x)| (k.clone(), x)).collect())
}

/// One header unit to process: its file name and how to consume it.
pub struct Header {
    pub file: String,
    pub description: Option<String>,
    pub deps: Option<Vec<String>>,
    pub defines: Option<Vec<String>>,
    pub gen_rust_source: Option<bool>,
    pub gen_rust_rlib: Option<bool>,
}

/// One target-language library to produce from processed headers.
pub struct RustLib {
    pub file: Option<String>,
    pub gen_cxx_header_unit: Option<bool>,
    pub gen_cxx_module: Option<bool>,
}

/// The whole configuration document.
pub struct ModulesConfig {
    pub global_stuff: Option<String>,
    pub header: Vec<Header>,
    pub includes: Option<Vec<String>>,
    pub rustlib: Option<Vec<(String, RustLib)>>,
}

/// Reads an optional string entry; present but not a string is a fault.
fn read_opt_string(v: &toml::Value, key: &str) -> (r: Result<Option<String>, Error>)
{
    match toml_get(v, key) {
        Some(x) => match toml_as_str(x) {
            Some(s) => Ok(Some(s)),
            None => Err(Error::bad("configuration entry is not a string")),
        },
        None => Ok(None),
    }
}

/// Reads an optional boolean entry; present but not a boolean is a fault.
fn read_opt_bool(v: &toml::Value, key: &str) -> (r: Result<Option<bool>, Error>)
{
    match toml_get(v, key) {
        Some(x) => match toml_as_bool(x) {
            Some(b) => Ok(Some(b)),
            None => Err(Error::bad("configuration entry is not a boolean")),
        },
        None => Ok(None),
    }
}

/// Reads an optional list-of-strings entry.
fn read_opt_string_list(v: &toml::Value, key: &str) -> (r: Result<Option<Vec<String>>, Error>)
{
    match toml_get(v, key) {
        Some(x) => {
            let items = match toml_as_array(x) {
                Some(a) => a,
                None => {
                    return Err(Error::bad("configuration entry is not a list"));
                },
            };
            let mut out: Vec<String> = Vec::new();
            let mut i: usize = 0;
            while i < items.len()
                decreases items@.len() - i,
            {
                match toml_as_str(items[i]) {
                    Some(s) => {
                        out.push(s);
                    },
                    None => {
                        return Err(Error::bad("configuration list holds a non-string"));
                    },
                }
                i += 1;
            }
            Ok(Some(out))
        },
        None => Ok(None),
    }
}

/// Reads one header-unit entry.
fn read_header(v: &toml::Value) -> (r: Result<Header, Error>)
{
    let file = match read_opt_string(v, "file") {
        Ok(Some(s)) => s,
        Ok(None) => {
            return Err(Error::bad("a header entry has no file name"));
        },
        Err(e) => {
            return Err(e);
        },
    };
    let description = match read_opt_string(v, "description") {
        Ok(d) => d,
        Err(e) => {
            return Err(e);
        },
    };
    let deps = match read_opt_string_list(v, "deps") {
        Ok(d) => d,
        Err(e) => {
            return Err(e);
        },
    };
    let defines = match read_opt_string_list(v, "defines") {
        Ok(d) => d,
        Err(e) => {
            return Err(e);
        },
    };
    let gen_rust_source = match read_opt_bool(v, "gen_rust_source") {
        Ok(d) => d,
        Err(e) => {
            return Err(e);
        },
    };
    let gen_rust_rlib = match read_opt_bool(v, "gen_rust_rlib") {
        Ok(d) => d,
        Err(e) => {
            return Err(e);
        },
    };
    Ok(Header { file, description, deps, defines, gen_rust_source, gen_rust_rlib })
}

/// Loads a configuration document from TOML text.
pub fn load_config_str(config: &str) -> (r: Result<ModulesConfig, Error>)
{
    let root = match toml_parse(config) {
        Some(v) => v,
        None => {
            return Err(Error::bad("configuration is not well-formed TOML"));
        },
    };
    let global_stuff = match read_opt_string(&root, "global_stuff") {
        Ok(d) => d,
        Err(e) => {
            return Err(e);
        },
    };
    let includes = match read_opt_string_list(&root, "includes") {
        Ok(d) => d,
        Err(e) => {
            return Err(e);
        },
    };
    let mut header: Vec<Header> = Vec::new();
    match toml_get(&root, "header") {
        Some(hs) => {
            let items = match toml_as_array(hs) {
                Some(a) => a,
                None => {
                    return Err(Error::bad("the header entry is not a list"));
                },
            };
            let mut i: usize = 0;
            while i < items.len()
                decreases items@.len() - i,
            {
                match read_header(items[i]) {
                    Ok(h) => {
                        header.push(h);
                    },
                    Err(e) => {
                        return Err(e);
                    },
                }
                i += 1;
            }
        },
        None => {
            return Err(Error::bad("configuration has no header list"));
        },
    }
    let rustlib: Option<Vec<(String, RustLib)>> = match toml_get(&root, "rustlib") {
        Some(t) => {
            let entries = match toml_table_entries(t) {
                Some(es) => es,
                None => {
                    return Err(Error::bad("the rustlib entry is not a table"));
                },
            };
            let mut libs: Vec<(String, RustLib)> = Vec::new();
            let mut i: usize = 0;
            while i < entries.len()
                decreases entries@.len() - i,
            {
                let file = match read_opt_string(entries[i].1, "file") {
                    Ok(d) => d,
                    Err(e) => {
                        return Err(e);
                    },
                };
                let gen_cxx_header_unit = match read_opt_bool(entries[i].1,
                    "gen_cxx_header_unit") {
                    Ok(d) => d,
                    Err(e) => {
                        return Err(e);
                    },
                };
                let gen_cxx_module = match read_opt_bool(entries[i].1, "gen_cxx_module") {
                    Ok(d) => d,
                    Err(e) => {
                        return Err(e);
                    },
                };
                let name = entries[i].0.as_str().to_owned();
                libs.push((name, RustLib { file, gen_cxx_header_unit, gen_cxx_module }));
                i += 1;
            }
            Some(libs)
        },
        None => None,
    };
    Ok(ModulesConfig { global_stuff, header, includes, rustlib })
}

} // verus!
