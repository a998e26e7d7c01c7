use quasar::options::{RustFramework, Template, TestLanguage, Toolchain, TypeScriptSdk};
use quasar::templates::{
    generate_cargo_toml, generate_lib_rs, generate_package_json, generate_test_ts,
    generate_tests_rs,
};
use quasar::text::snake_to_pascal;

fn expected_cargo_toml(name: &str, toolchain: Toolchain, test_language: TestLanguage, rust_framework: Option<RustFramework>) -> String {
    let mut out = format!(
        r#"[package]
name = "{name}"
version = "0.1.0"
edition = "2021"

[lints.rust.unexpected_cfgs]
level = "warn"
check-cfg = [
    'cfg(target_os, values("solana"))',
]

[lib]
crate-type = ["cdylib"]

[features]
alloc = []
client = []
debug = []

[dependencies]
quasar-lang = "0.0"
"#,
    );

    if matches!(toolchain, Toolchain::Solana) {
        out.push_str("solana-instruction = { version = \"3.2.0\" }\n");
    }

    // Dev dependencies based on testing framework
    let client_dep = format!("{name}-client = {{ path = \"target/client/rust/{name}-client\" }}\n");

    match (test_language, rust_framework) {
        (TestLanguage::NoTests, _) => {}
        (TestLanguage::Rust, Some(RustFramework::Mollusk)) => {
            out.push_str(&format!(
                r#"
[dev-dependencies]
{client_dep}mollusk-svm = "0.10.3"
solana-account = {{ version = "3.4.0" }}
solana-address = {{ version = "2.2.0", features = ["decode"] }}
solana-instruction = {{ version = "3.2.0", features = ["bincode"] }}
"#,
            ));
        }
        (TestLanguage::Rust, _) => {
            out.push_str(&format!(
                r#"
[dev-dependencies]
{client_dep}quasar-svm = {{ version = "0.1" }}
solana-account = {{ version = "3.4.0" }}
solana-address = {{ version = "2.2.0", features = ["decode"] }}
solana-instruction = {{ version = "3.2.0", features = ["bincode"] }}
solana-pubkey = {{ version = "4.1.0" }}
"#,
            ));
        }
        (TestLanguage::TypeScript, _) => {
            out.push_str(&format!(
                r#"
[dev-dependencies]
{client_dep}solana-account = {{ version = "3.4.0" }}
solana-address = {{ version = "2.2.0", features = ["decode"] }}
solana-instruction = {{ version = "3.2.0", features = ["bincode"] }}
"#,
            ));
        }
    }

    out
}

fn expected_lib_rs(
    module_name: &str,
    program_id: &str,
    template: Template,
    has_tests: bool,
) -> String {
    let test_mod = if has_tests {
        "\n#[cfg(test)]\nmod tests;\n"
    } else {
        ""
    };

    match template {
        Template::Minimal => {
            format!(
                r#"#![cfg_attr(not(test), no_std)]

use quasar_lang::prelude::*;

declare_id!("{program_id}");

#[derive(Accounts)]
pub struct Initialize<'info> {{
    pub payer: &'info mut Signer,
    pub system_program: &'info Program<System>,
}}

impl<'info> Initialize<'info> {{
    #[inline(always)]
    pub fn initialize(&self) -> Result<(), ProgramError> {{
        Ok(())
    }}
}}

#[program]
mod {module_name} {{
    use super::*;

    #[instruction(discriminator = 0)]
    pub fn initialize(ctx: Ctx<Initialize>) -> Result<(), ProgramError> {{
        ctx.accounts.initialize()
    }}
}}
{test_mod}"#
            )
        }
        Template::Full => {
            format!(
                r#"#![cfg_attr(not(test), no_std)]

use quasar_lang::prelude::*;

mod errors;
mod instructions;
mod state;
use instructions::*;

declare_id!("{program_id}");

#[program]
mod {module_name} {{
    use super::*;

    #[instruction(discriminator = 0)]
    pub fn initialize(ctx: Ctx<Initialize>) -> Result<(), ProgramError> {{
        ctx.accounts.initialize()
    }}
}}
{test_mod}"#
            )
        }
    }
}

fn expected_package_json(name: &str, ts_sdk: TypeScriptSdk) -> String {
    let solana_dep = if matches!(ts_sdk, TypeScriptSdk::Kit) {
        "\"@solana/kit\": \"^6.0.0\""
    } else {
        "\"@solana/web3.js\": \"github:blueshift-gg/solana-web3.js#v2\""
    };
    format!(
        r#"{{
  "name": "{name}",
  "version": "0.1.0",
  "private": true,
  "scripts": {{
    "test": "vitest run"
  }},
  "dependencies": {{
    "@blueshift-gg/quasar-svm": "^0.1",
    {solana_dep}
  }},
  "devDependencies": {{
    "@types/node": "^22.0.0",
    "typescript": "^5.9.3",
    "vitest": "^3.1.0"
  }}
}}
"#
    )
}

fn expected_test_ts(name: &str, ts_sdk: TypeScriptSdk, toolchain: Toolchain) -> String {
    let module_name = name.replace('-', "_");
    let class_name = snake_to_pascal(&module_name);
    let so_name = match toolchain {
        Toolchain::Upstream => format!("lib{module_name}"),
        Toolchain::Solana => module_name.clone(),
    };

    if matches!(ts_sdk, TypeScriptSdk::Kit) {
        format!(
            r#"import {{ generateKeyPairSigner }} from "@solana/kit";
import {{ {class_name}Client, PROGRAM_ADDRESS }} from "../target/client/typescript/{module_name}/kit";
import {{ describe, it, expect }} from "vitest";
import {{ QuasarSvm, createKeyedSystemAccount }} from "@blueshift-gg/quasar-svm/kit";
import {{ readFile }} from "node:fs/promises";

const {class_name}Program = new {class_name}Client();

describe.concurrent("{class_name} Program", async () => {{
  const vm = new QuasarSvm();
  vm.addProgram(PROGRAM_ADDRESS, await readFile("target/deploy/{so_name}.so"));

  it("initializes", async () => {{
    const payer = await generateKeyPairSigner();

    const initializeInstruction = {class_name}Program.createInitializeInstruction({{
      payer: payer.address,
    }});

    const result = vm.processInstruction(initializeInstruction, [
      createKeyedSystemAccount(payer.address),
    ]);

    expect(result.status.ok, `initialize failed:\n${{result.logs.join("\n")}}`).toBe(true);
  }});
}});
"#
        )
    } else {
        format!(
            r#"import {{ Keypair }} from "@solana/web3.js";
import {{ {class_name}Client }} from "../target/client/typescript/{module_name}/web3.js";
import {{ readFile }} from "node:fs/promises";
import {{ describe, it, expect }} from "vitest";
import {{ QuasarSvm, createKeyedSystemAccount }} from "@blueshift-gg/quasar-svm/web3.js";

const {class_name}Program = new {class_name}Client();

describe.concurrent("{class_name} Program", async () => {{
  const vm = new QuasarSvm();
  vm.addProgram({class_name}Client.programId, await readFile("target/deploy/{so_name}.so"));

  it("initializes", async () => {{
    const {{ publicKey: payer }} = await Keypair.generate();

    const initializeInstruction = {class_name}Program.createInitializeInstruction({{
      payer,
    }});

    const result = vm.processInstruction(initializeInstruction, [
      createKeyedSystemAccount(payer),
    ]);

    expect(result.status.ok, `initialize failed:\n${{result.logs.join("\n")}}`).toBe(true);
  }});
}});
"#
        )
    }
}

fn expected_tests_rs(
    module_name: &str,
    rust_framework: RustFramework,
    template: Template,
    toolchain: Toolchain,
) -> String {
    let mut libname = module_name.to_string();
    if matches!(toolchain, Toolchain::Upstream) {
        libname = format!("lib{libname}");
    };
    let client_crate = format!("{module_name}_client");

    match (rust_framework, template) {
        (RustFramework::Mollusk, Template::Minimal | Template::Full) => {
            format!(
                r#"use mollusk_svm::{{program::keyed_account_for_system_program, Mollusk}};
use solana_account::Account;
use solana_address::Address;
use solana_instruction::Instruction;

use {client_crate}::InitializeInstruction;

fn setup() -> Mollusk {{
    Mollusk::new(&crate::ID, "target/deploy/{libname}")
}}

#[test]
fn test_initialize() {{
    let mollusk = setup();
    let (system_program, system_program_account) = keyed_account_for_system_program();

    let payer = Address::new_unique();
    let payer_account = Account::new(10_000_000_000, 0, &system_program);

    let instruction: Instruction = InitializeInstruction {{
        payer,
        system_program,
    }}
    .into();

    let result = mollusk.process_instruction(
        &instruction,
        &[
            (payer, payer_account),
            (system_program, system_program_account),
        ],
    );

    assert!(
        result.program_result.is_ok(),
        "initialize failed: {{:?}}",
        result.program_result,
    );
}}
"#
            )
        }
        (RustFramework::QuasarSVM, Template::Minimal | Template::Full) => {
            format!(
                r#"use quasar_svm::{{Account, Instruction, Pubkey, QuasarSvm}};
use solana_address::Address;

use {client_crate}::InitializeInstruction;

fn setup() -> QuasarSvm {{
    let elf = include_bytes!("../target/deploy/{libname}.so");
    QuasarSvm::new()
        .with_program(&Pubkey::from(crate::ID), elf)
}}

#[test]
fn test_initialize() {{
    let mut svm = setup();

    let payer = Pubkey::new_unique();

    let instruction: Instruction = InitializeInstruction {{
        payer: Address::from(payer.to_bytes()),
        system_program: Address::from(quasar_svm::system_program::ID.to_bytes()),
    }}
    .into();

    let result = svm.process_instruction(
        &instruction,
        &[Account {{
            address: payer,
            lamports: 10_000_000_000,
            data: vec![],
            owner: quasar_svm::system_program::ID,
            executable: false,
        }}],
    );

    result.assert_success();
}}
"#
            )
        }
    }
}


const TOOLCHAINS: [Toolchain; 2] = [Toolchain::Solana, Toolchain::Upstream];
const TEMPLATES: [Template; 2] = [Template::Minimal, Template::Full];
const SDKS: [TypeScriptSdk; 2] = [TypeScriptSdk::Kit, TypeScriptSdk::Web3js];
const FRAMEWORKS: [RustFramework; 2] = [RustFramework::QuasarSVM, RustFramework::Mollusk];

#[test]
fn cargo_toml_for_every_setup() {
    for name in ["my-program", "counter"] {
        for tc in TOOLCHAINS {
            for (tl, fw) in [
                (TestLanguage::NoTests, None),
                (TestLanguage::Rust, Some(RustFramework::QuasarSVM)),
                (TestLanguage::Rust, Some(RustFramework::Mollusk)),
                (TestLanguage::TypeScript, None),
            ] {
                assert_eq!(generate_cargo_toml(name, tc, tl, fw), expected_cargo_toml(name, tc, tl, fw));
            }
        }
    }
}

#[test]
fn cargo_toml_solana_with_mollusk() {
    let out = generate_cargo_toml("demo", Toolchain::Solana, TestLanguage::Rust, Some(RustFramework::Mollusk));
    assert!(out.starts_with("[package]\nname = \"demo\"\n"));
    assert!(out.contains("solana-instruction = { version = \"3.2.0\" }\n"));
    assert!(out.contains("demo-client = { path = \"target/client/rust/demo-client\" }\nmollusk-svm = \"0.10.3\""));
    let upstream = generate_cargo_toml("demo", Toolchain::Upstream, TestLanguage::NoTests, None);
    assert!(!upstream.contains("solana-instruction"));
    assert!(!upstream.contains("[dev-dependencies]"));
}

#[test]
fn lib_rs_for_every_setup() {
    for tpl in TEMPLATES {
        for has_tests in [false, true] {
            assert_eq!(
                generate_lib_rs("my_program", "Prog1111", tpl, has_tests),
                expected_lib_rs("my_program", "Prog1111", tpl, has_tests)
            );
        }
    }
    let out = generate_lib_rs("x", "ID", Template::Minimal, true);
    assert!(out.ends_with("}\n\n#[cfg(test)]\nmod tests;\n"));
}

#[test]
fn package_json_for_every_sdk() {
    for sdk in SDKS {
        assert_eq!(generate_package_json("my-program", sdk), expected_package_json("my-program", sdk));
    }
    assert!(generate_package_json("p", TypeScriptSdk::Kit).contains("\"@solana/kit\": \"^6.0.0\""));
}

#[test]
fn test_ts_for_every_setup() {
    for sdk in SDKS {
        for tc in TOOLCHAINS {
            assert_eq!(generate_test_ts("my-program", sdk, tc), expected_test_ts("my-program", sdk, tc));
        }
    }
    let out = generate_test_ts("my-program", TypeScriptSdk::Kit, Toolchain::Upstream);
    assert!(out.contains("MyProgramClient"));
    assert!(out.contains("target/deploy/libmy_program.so"));
}

#[test]
fn tests_rs_for_every_setup() {
    for fw in FRAMEWORKS {
        for tpl in TEMPLATES {
            for tc in TOOLCHAINS {
                assert_eq!(generate_tests_rs("my_program", fw, tpl, tc), expected_tests_rs("my_program", fw, tpl, tc));
            }
        }
    }
    assert!(generate_tests_rs("a", RustFramework::Mollusk, Template::Full, Toolchain::Solana)
        .contains("Mollusk::new(&crate::ID, \"target/deploy/a\")"));
}
