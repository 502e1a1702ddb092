//! Fixed file contents written into a freshly scaffolded project, and the
//! one rule a new project's name must meet.
use vstd::prelude::*;
use vstd::string::StringExecFns;

verus! {

/// The text of the entry-point source file a minimal new project starts
/// with.
pub open spec fn entrypoint_text() -> Seq<char> {
    "#![no_main]\n#![no_std]\next"@
        + "ern crate alloc;\n\n#[global_allocator]\nstatic ALLOC: wee_alloc::WeeAlloc = wee_alloc::WeeAlloc::INIT;\n\nuse alloc::vec::Vec;\n\nuse stylus_sdk::stylus_proc::entrypoint;\n\n#[entrypoint]\nfn user_main(input: Vec<u8>) -> Result<Vec<u8>, Vec<u8>> {\n    Ok(input)\n}\n"@
}

/// The text of the cargo build-configuration file a minimal new project
/// starts with.
pub open spec fn cargo_config_text() -> Seq<char> {
    "[build]\ntarget = \"wasm32-unknown-unknown\"\n\n[target.wasm32-unknown-unknown]\nrustflags = [\n  \"-C\", \"link-arg=-zstack-size=32768\",\n]\n    "@
}

/// What stands before the project's name in a minimal manifest.
pub open spec fn cargo_toml_prefix() -> Seq<char> {
    "[package]\nname = \""@
}

/// What stands after the project's name in a minimal manifest.
pub open spec fn cargo_toml_suffix() -> Seq<char> {
    "\"\nversion = \"0.1.0\"\nedition = \"2021\"\n\n[dependencies]\nstylus-sdk = \"0.4.1\"\nwee_alloc = \"0.4.5\"\n\n[features]\nexport-abi = [\"stylus-sdk/export-abi\"]\n\n[profile.release]\ncodegen-units = 1\nstrip = true\nlto = true\npanic = \"abort\"\nopt-level = \"s\"\n\n[workspace]\n"@
}

/// The entry-point source file a minimal new project starts with.
pub fn basic_entrypoint() -> (r: String)
    ensures
        r@ == entrypoint_text(),
{
    let mut s = String::from_str("#![no_main]\n#![no_std]\next");
    s.append(
        "ern crate alloc;\n\n#[global_allocator]\nstatic ALLOC: wee_alloc::WeeAlloc = wee_alloc::WeeAlloc::INIT;\n\nuse alloc::vec::Vec;\n\nuse stylus_sdk::stylus_proc::entrypoint;\n\n#[entrypoint]\nfn user_main(input: Vec<u8>) -> Result<Vec<u8>, Vec<u8>> {\n    Ok(input)\n}\n",
    );
    s
}

/// The cargo build-configuration file a minimal new project starts with.
pub fn cargo_config() -> (r: &'static str)
    ensures
        r@ == cargo_config_text(),
{
    "[build]\ntarget = \"wasm32-unknown-unknown\"\n\n[target.wasm32-unknown-unknown]\nrustflags = [\n  \"-C\", \"link-arg=-zstack-size=32768\",\n]\n    "
}

/// The minimal manifest for a new project named `name`: the name is spliced
/// between the fixed prefix and suffix, exactly once.
pub fn minimal_cargo_toml(name: &str) -> (r: String)
    ensures
        r@ == cargo_toml_prefix() + name@ + cargo_toml_suffix(),
{
    let mut s = String::from_str("[package]\nname = \"");
    s.append(name);
    s.append(
        "\"\nversion = \"0.1.0\"\nedition = \"2021\"\n\n[dependencies]\nstylus-sdk = \"0.4.1\"\nwee_alloc = \"0.4.5\"\n\n[features]\nexport-abi = [\"stylus-sdk/export-abi\"]\n\n[profile.release]\ncodegen-units = 1\nstrip = true\nlto = true\npanic = \"abort\"\nopt-level = \"s\"\n\n[workspace]\n",
    );
    s
}

/// A new project's name must not be empty; every non-empty name is
/// accepted here.
pub fn validate_project_name(name: &str) -> (r: bool)
    ensures
        r == (name@.len() > 0),
{
    !name.is_empty()
}

} // verus!
