//! The files `quasar init` writes into a new project, each stated as the
//! concatenation of its fixed pieces and the project's names.
use vstd::prelude::*;
use crate::options::{RustFramework, Template, TestLanguage, Toolchain, TypeScriptSdk};
use crate::text::{dashes_to_underscores, pascal_of, replace_dashes, snake_to_pascal};

verus! {

pub const GITIGNORE: &'static str = r#"# Build artifacts
/target

# Lock files
Cargo.lock
package-lock.json
pnpm-lock.yaml
yarn.lock
bun.lockb

# Dependencies
node_modules

# Environment
.env
.env.*

# OS
.DS_Store
"#;

pub const CARGO_CONFIG: &'static str = r#"[unstable]
build-std = ["core", "alloc"]

[target.bpfel-unknown-none]
rustflags = [
"--cfg", "target_os=\"solana\"",
"--cfg", "feature=\"mem_unaligned\"",
"-C", "linker=sbpf-linker",
"-C", "panic=abort",
"-C", "relocation-model=static",
"-C", "link-arg=--disable-memory-builtins",
"-C", "link-arg=--llvm-args=--bpf-stack-size=4096",
"-C", "link-arg=--disable-expand-memcpy-in-order",
"-C", "link-arg=--export=entrypoint",
"-C", "target-cpu=v2",
]
[alias]
build-bpf = "build --release --target bpfel-unknown-none"
"#;

pub const INSTRUCTIONS_MOD: &'static str = r#"mod initialize;
pub use initialize::*;
"#;

pub const INSTRUCTION_INITIALIZE: &'static str = r#"use quasar_lang::prelude::*;

#[derive(Accounts)]
pub struct Initialize<'info> {
    pub payer: &'info mut Signer,
    pub system_program: &'info Program<System>,
}

impl<'info> Initialize<'info> {
    #[inline(always)]
    pub fn initialize(&self) -> Result<(), ProgramError> {
        Ok(())
    }
}
"#;

pub const STATE_RS: &'static str = r#"use quasar_lang::prelude::*;

#[account(discriminator = 1)]
pub struct MyAccount {
    pub authority: Address,
    pub value: u64,
}
"#;

pub const ERRORS_RS: &'static str = r#"use quasar_lang::prelude::*;

#[error_code]
pub enum MyError {
    Unauthorized,
}
"#;

pub const TS_TEST_TSCONFIG: &'static str = r#"{
  "compilerOptions": {
    "target": "es2020",
    "module": "commonjs",
    "strict": true,
    "esModuleInterop": true,
    "skipLibCheck": true,
    "resolveJsonModule": true,
    "types": ["node"]
  },
  "include": ["tests/*.test.ts"]
}
"#;

pub const MANIFEST_HEAD_1: &'static str = r#"[package]
name = ""#;

pub const MANIFEST_HEAD_2: &'static str = r#""
version = "0.1.0"
edition = "2021"

[lints.rust.unexpected_cfgs]
level = "warn"
check-cfg = [
    'cfg(target_os, values("solana"))',
]

[lib]
crate-type = ["cdylib"]

[features]
alloc = []
client = []
debug = []

[dependencies]
quasar-lang = "0.0"
"#;

pub const DEV_MOLLUSK_1: &'static str = r#"
[dev-dependencies]
"#;

pub const DEV_MOLLUSK_2: &'static str = r#"mollusk-svm = "0.10.3"
solana-account = { version = "3.4.0" }
solana-address = { version = "2.2.0", features = ["decode"] }
solana-instruction = { version = "3.2.0", features = ["bincode"] }
"#;

pub const DEV_QUASAR_SVM_1: &'static str = r#"
[dev-dependencies]
"#;

pub const DEV_QUASAR_SVM_2: &'static str = r#"quasar-svm = { version = "0.1" }
solana-account = { version = "3.4.0" }
solana-address = { version = "2.2.0", features = ["decode"] }
solana-instruction = { version = "3.2.0", features = ["bincode"] }
solana-pubkey = { version = "4.1.0" }
"#;

pub const DEV_TYPESCRIPT_1: &'static str = r#"
[dev-dependencies]
"#;

pub const DEV_TYPESCRIPT_2: &'static str = r#"solana-account = { version = "3.4.0" }
solana-address = { version = "2.2.0", features = ["decode"] }
solana-instruction = { version = "3.2.0", features = ["bincode"] }
"#;

pub const LIB_MINIMAL_1: &'static str = r#"#![cfg_attr(not(test), no_std)]

use quasar_lang::prelude::*;

declare_id!(""#;

pub const LIB_MINIMAL_2: &'static str = r#"");

#[derive(Accounts)]
pub struct Initialize<'info> {
    pub payer: &'info mut Signer,
    pub system_program: &'info Program<System>,
}

impl<'info> Initialize<'info> {
    #[inline(always)]
    pub fn initialize(&self) -> Result<(), ProgramError> {
        Ok(())
    }
}

#[program]
mod "#;

pub const LIB_MINIMAL_3: &'static str = r#" {
    use super::*;

    #[instruction(discriminator = 0)]
    pub fn initialize(ctx: Ctx<Initialize>) -> Result<(), ProgramError> {
        ctx.accounts.initialize()
    }
}
"#;

pub const LIB_FULL_1: &'static str = r#"#![cfg_attr(not(test), no_std)]

use quasar_lang::prelude::*;

mod errors;
mod instructions;
mod state;
use instructions::*;

declare_id!(""#;

pub const LIB_FULL_2: &'static str = r#"");

#[program]
mod "#;

pub const LIB_FULL_3: &'static str = r#" {
    use super::*;

    #[instruction(discriminator = 0)]
    pub fn initialize(ctx: Ctx<Initialize>) -> Result<(), ProgramError> {
        ctx.accounts.initialize()
    }
}
"#;

pub const PACKAGE_JSON_1: &'static str = r#"{
  "name": ""#;

pub const PACKAGE_JSON_2: &'static str = r#"",
  "version": "0.1.0",
  "private": true,
  "scripts": {
    "test": "vitest run"
  },
  "dependencies": {
    "@blueshift-gg/quasar-svm": "^0.1",
    "#;

pub const PACKAGE_JSON_3: &'static str = r#"
  },
  "devDependencies": {
    "@types/node": "^22.0.0",
    "typescript": "^5.9.3",
    "vitest": "^3.1.0"
  }
}
"#;

pub const TEST_TS_KIT_1: &'static str = r#"import { generateKeyPairSigner } from "@solana/kit";
import { "#;

pub const TEST_TS_KIT_2: &'static str = r#"Client, PROGRAM_ADDRESS } from "../target/client/typescript/"#;

pub const TEST_TS_KIT_3: &'static str = r#"/kit";
import { describe, it, expect } from "vitest";
import { QuasarSvm, createKeyedSystemAccount } from "@blueshift-gg/quasar-svm/kit";
import { readFile } from "node:fs/promises";

const "#;

pub const TEST_TS_KIT_4: &'static str = r#"Program = new "#;

pub const TEST_TS_KIT_5: &'static str = r#"Client();

describe.concurrent(""#;

pub const TEST_TS_KIT_6: &'static str = r#" Program", async () => {
  const vm = new QuasarSvm();
  vm.addProgram(PROGRAM_ADDRESS, await readFile("target/deploy/"#;

pub const TEST_TS_KIT_7: &'static str = r#".so"));

  it("initializes", async () => {
    const payer = await generateKeyPairSigner();

    const initializeInstruction = "#;

pub const TEST_TS_KIT_8: &'static str = r#"Program.createInitializeInstruction({
      payer: payer.address,
    });

    const result = vm.processInstruction(initializeInstruction, [
      createKeyedSystemAccount(payer.address),
    ]);

    expect(result.status.ok, `initialize failed:\n${result.logs.join("\n")}`).toBe(true);
  });
});
"#;

pub const TEST_TS_WEB3_1: &'static str = r#"import { Keypair } from "@solana/web3.js";
import { "#;

pub const TEST_TS_WEB3_2: &'static str = r#"Client } from "../target/client/typescript/"#;

pub const TEST_TS_WEB3_3: &'static str = r#"/web3.js";
import { readFile } from "node:fs/promises";
import { describe, it, expect } from "vitest";
import { QuasarSvm, createKeyedSystemAccount } from "@blueshift-gg/quasar-svm/web3.js";

const "#;

pub const TEST_TS_WEB3_4: &'static str = r#"Program = new "#;

pub const TEST_TS_WEB3_5: &'static str = r#"Client();

describe.concurrent(""#;

pub const TEST_TS_WEB3_6: &'static str = r#" Program", async () => {
  const vm = new QuasarSvm();
  vm.addProgram("#;

pub const TEST_TS_WEB3_7: &'static str = r#"Client.programId, await readFile("target/deploy/"#;

pub const TEST_TS_WEB3_8: &'static str = r#".so"));

  it("initializes", async () => {
    const { publicKey: payer } = await Keypair.generate();

    const initializeInstruction = "#;

pub const TEST_TS_WEB3_9: &'static str = r#"Program.createInitializeInstruction({
      payer,
    });

    const result = vm.processInstruction(initializeInstruction, [
      createKeyedSystemAccount(payer),
    ]);

    expect(result.status.ok, `initialize failed:\n${result.logs.join("\n")}`).toBe(true);
  });
});
"#;

pub const TESTS_RS_MOLLUSK_1: &'static str = r#"use mollusk_svm::{program::keyed_account_for_system_program, Mollusk};
use solana_account::Account;
use solana_address::Address;
use solana_instruction::Instruction;

use "#;

pub const TESTS_RS_MOLLUSK_2: &'static str = r#"::InitializeInstruction;

fn setup() -> Mollusk {
    Mollusk::new(&crate::ID, "target/deploy/"#;

pub const TESTS_RS_MOLLUSK_3: &'static str = r#"")
}

#[test]
fn test_initialize() {
    let mollusk = setup();
    let (system_program, system_program_account) = keyed_account_for_system_program();

    let payer = Address::new_unique();
    let payer_account = Account::new(10_000_000_000, 0, &system_program);

    let instruction: Instruction = InitializeInstruction {
        payer,
        system_program,
    }
    .into();

    let result = mollusk.process_instruction(
        &instruction,
        &[
            (payer, payer_account),
            (system_program, system_program_account),
        ],
    );

    assert!(
        result.program_result.is_ok(),
        "initialize failed: {:?}",
        result.program_result,
    );
}
"#;

pub const TESTS_RS_QUASAR_SVM_1: &'static str = r#"use quasar_svm::{Account, Instruction, Pubkey, QuasarSvm};
use solana_address::Address;

use "#;

pub const TESTS_RS_QUASAR_SVM_2: &'static str = r#"::InitializeInstruction;

fn setup() -> QuasarSvm {
    let elf = include_bytes!("../target/deploy/"#;

pub const TESTS_RS_QUASAR_SVM_3: &'static str = r#".so");
    QuasarSvm::new()
        .with_program(&Pubkey::from(crate::ID), elf)
}

#[test]
fn test_initialize() {
    let mut svm = setup();

    let payer = Pubkey::new_unique();

    let instruction: Instruction = InitializeInstruction {
        payer: Address::from(payer.to_bytes()),
        system_program: Address::from(quasar_svm::system_program::ID.to_bytes()),
    }
    .into();

    let result = svm.process_instruction(
        &instruction,
        &[Account {
            address: payer,
            lamports: 10_000_000_000,
            data: vec![],
            owner: quasar_svm::system_program::ID,
            executable: false,
        }],
    );

    result.assert_success();
}
"#;

pub const SOLANA_INSTRUCTION_DEP: &'static str = "solana-instruction = { version = \"3.2.0\" }\n";

pub const CLIENT_DEP_1: &'static str = "-client = { path = \"target/client/rust/";

pub const CLIENT_DEP_2: &'static str = "-client\" }\n";

pub const TEST_MOD: &'static str = "\n#[cfg(test)]\nmod tests;\n";

pub const SOLANA_KIT_DEP: &'static str = "\"@solana/kit\": \"^6.0.0\"";

pub const SOLANA_WEB3_DEP: &'static str = "\"@solana/web3.js\": \"github:blueshift-gg/solana-web3.js#v2\"";

pub const LIB_PREFIX: &'static str = "lib";

pub const CLIENT_SUFFIX: &'static str = "_client";

/// The dev-dependency line on the generated Rust client:
/// `<name>-client = { path = "target/client/rust/<name>-client" }`.
pub open spec fn client_dep(name: Seq<char>) -> Seq<char> {
    name + CLIENT_DEP_1@ + name + CLIENT_DEP_2@
}

/// `[package]` to `[dependencies]` of the project's `Cargo.toml`.
pub open spec fn manifest_head(name: Seq<char>) -> Seq<char> {
    MANIFEST_HEAD_1@ + name + MANIFEST_HEAD_2@
}

/// The `[dev-dependencies]` section for the chosen tests (none without
/// tests; Mollusk's, QuasarSVM's, or the TypeScript one).
pub open spec fn dev_dependencies(
    name: Seq<char>,
    test_language: TestLanguage,
    rust_framework: Option<RustFramework>,
) -> Seq<char> {
    let client_dep = client_dep(name);
    match test_language {
        TestLanguage::NoTests => Seq::empty(),
        TestLanguage::Rust => if rust_framework == Some(RustFramework::Mollusk) {
            DEV_MOLLUSK_1@ + client_dep + DEV_MOLLUSK_2@
        } else {
            DEV_QUASAR_SVM_1@ + client_dep + DEV_QUASAR_SVM_2@
        },
        TestLanguage::TypeScript => DEV_TYPESCRIPT_1@ + client_dep + DEV_TYPESCRIPT_2@,
    }
}

/// The project's `Cargo.toml`: the head, the `solana-instruction`
/// dependency on the Solana toolchain, then the dev-dependencies.
pub open spec fn cargo_toml(
    name: Seq<char>,
    toolchain: Toolchain,
    test_language: TestLanguage,
    rust_framework: Option<RustFramework>,
) -> Seq<char> {
    manifest_head(name) + (if toolchain == Toolchain::Solana {
        SOLANA_INSTRUCTION_DEP@
    } else {
        Seq::empty()
    }) + dev_dependencies(name, test_language, rust_framework)
}

pub fn generate_cargo_toml(
    name: &str,
    toolchain: Toolchain,
    test_language: TestLanguage,
    rust_framework: Option<RustFramework>,
) -> (out: String)
    ensures
        out@ == cargo_toml(name@, toolchain, test_language, rust_framework),
{
    let mut out = String::new();
    out.append(MANIFEST_HEAD_1);
    out.append(name);
    out.append(MANIFEST_HEAD_2);
    let ghost head = out@;
    if toolchain == Toolchain::Solana {
        out.append(SOLANA_INSTRUCTION_DEP);
    }
    let ghost with_dep = out@;
    let mut client_dep = String::new();
    client_dep.append(name);
    client_dep.append(CLIENT_DEP_1);
    client_dep.append(name);
    client_dep.append(CLIENT_DEP_2);
    match test_language {
        TestLanguage::NoTests => {},
        TestLanguage::Rust => match rust_framework {
            Some(RustFramework::Mollusk) => {
            out.append(DEV_MOLLUSK_1);
            out.append(client_dep.as_str());
            out.append(DEV_MOLLUSK_2);
            },
            _ => {
            out.append(DEV_QUASAR_SVM_1);
            out.append(client_dep.as_str());
            out.append(DEV_QUASAR_SVM_2);
            },
        },
        TestLanguage::TypeScript => {
            out.append(DEV_TYPESCRIPT_1);
            out.append(client_dep.as_str());
            out.append(DEV_TYPESCRIPT_2);
        },
    }
    assert(out@ =~= with_dep + dev_dependencies(name@, test_language, rust_framework));
    assert(out@ =~= cargo_toml(name@, toolchain, test_language, rust_framework));
    out
}

/// The `src/lib.rs` of the new program: the whole program in the minimal
/// template, the entry point over `instructions`, `state` and `errors` in
/// the full one; the `tests` module is declared when there are Rust tests.
pub open spec fn lib_rs(
    module_name: Seq<char>,
    program_id: Seq<char>,
    template: Template,
    has_tests: bool,
) -> Seq<char> {
    let test_mod = if has_tests {
        TEST_MOD@
    } else {
        Seq::empty()
    };
    match template {
        Template::Minimal => LIB_MINIMAL_1@ + program_id + LIB_MINIMAL_2@ + module_name + LIB_MINIMAL_3@ + test_mod,
        Template::Full => LIB_FULL_1@ + program_id + LIB_FULL_2@ + module_name + LIB_FULL_3@ + test_mod,
    }
}

pub fn generate_lib_rs(module_name: &str, program_id: &str, template: Template, has_tests: bool) -> (out: String)
    ensures
        out@ == lib_rs(module_name@, program_id@, template, has_tests),
{
    let test_mod = if has_tests {
        TEST_MOD
    } else {
        ""
    };
    proof {
        reveal_strlit("");
    }
    let mut out = String::new();
    match template {
        Template::Minimal => {
            out.append(LIB_MINIMAL_1);
            out.append(program_id);
            out.append(LIB_MINIMAL_2);
            out.append(module_name);
            out.append(LIB_MINIMAL_3);
            out.append(test_mod);
        },
        Template::Full => {
            out.append(LIB_FULL_1);
            out.append(program_id);
            out.append(LIB_FULL_2);
            out.append(module_name);
            out.append(LIB_FULL_3);
            out.append(test_mod);
        },
    }
    assert(out@ =~= lib_rs(module_name@, program_id@, template, has_tests));
    out
}

/// The `package.json` of the TypeScript tests, depending on the chosen SDK.
pub open spec fn package_json(name: Seq<char>, ts_sdk: TypeScriptSdk) -> Seq<char> {
    let solana_dep = if ts_sdk == TypeScriptSdk::Kit {
        SOLANA_KIT_DEP@
    } else {
        SOLANA_WEB3_DEP@
    };
    PACKAGE_JSON_1@ + name + PACKAGE_JSON_2@ + solana_dep + PACKAGE_JSON_3@
}

pub fn generate_package_json(name: &str, ts_sdk: TypeScriptSdk) -> (out: String)
    ensures
        out@ == package_json(name@, ts_sdk),
{
    let solana_dep = if ts_sdk == TypeScriptSdk::Kit {
        SOLANA_KIT_DEP
    } else {
        SOLANA_WEB3_DEP
    };
    let mut out = String::new();
    out.append(PACKAGE_JSON_1);
    out.append(name);
    out.append(PACKAGE_JSON_2);
    out.append(solana_dep);
    out.append(PACKAGE_JSON_3);
    assert(out@ =~= package_json(name@, ts_sdk));
    out
}

/// The name of the built program file: `lib<module>` on the upstream
/// toolchain, the module name on the Solana one.
pub open spec fn so_name(module_name: Seq<char>, toolchain: Toolchain) -> Seq<char> {
    match toolchain {
        Toolchain::Upstream => LIB_PREFIX@ + module_name,
        Toolchain::Solana => module_name,
    }
}

fn make_so_name(module_name: &str, toolchain: Toolchain) -> (r: String)
    ensures
        r@ == so_name(module_name@, toolchain),
{
    let mut r = String::new();
    if toolchain == Toolchain::Upstream {
        r.append(LIB_PREFIX);
    }
    r.append(module_name);
    assert(r@ =~= so_name(module_name@, toolchain));
    r
}

/// The vitest file of the TypeScript tests, written for the chosen SDK.
pub open spec fn test_ts(name: Seq<char>, ts_sdk: TypeScriptSdk, toolchain: Toolchain) -> Seq<char> {
    let module_name = dashes_to_underscores(name);
    let class_name = pascal_of(module_name, true);
    let so_name = so_name(module_name, toolchain);
    if ts_sdk == TypeScriptSdk::Kit {
        TEST_TS_KIT_1@ + class_name + TEST_TS_KIT_2@ + module_name + TEST_TS_KIT_3@ + class_name + TEST_TS_KIT_4@ + class_name + TEST_TS_KIT_5@ + class_name + TEST_TS_KIT_6@ + so_name + TEST_TS_KIT_7@ + class_name + TEST_TS_KIT_8@
    } else {
        TEST_TS_WEB3_1@ + class_name + TEST_TS_WEB3_2@ + module_name + TEST_TS_WEB3_3@ + class_name + TEST_TS_WEB3_4@ + class_name + TEST_TS_WEB3_5@ + class_name + TEST_TS_WEB3_6@ + class_name + TEST_TS_WEB3_7@ + so_name + TEST_TS_WEB3_8@ + class_name + TEST_TS_WEB3_9@
    }
}

pub fn generate_test_ts(name: &str, ts_sdk: TypeScriptSdk, toolchain: Toolchain) -> (out: String)
    ensures
        out@ == test_ts(name@, ts_sdk, toolchain),
{
    let module_name = replace_dashes(name);
    let class_name = snake_to_pascal(module_name.as_str());
    let so_name = make_so_name(module_name.as_str(), toolchain);
    let mut out = String::new();
    if ts_sdk == TypeScriptSdk::Kit {
        out.append(TEST_TS_KIT_1);
        out.append(class_name.as_str());
        out.append(TEST_TS_KIT_2);
        out.append(module_name.as_str());
        out.append(TEST_TS_KIT_3);
        out.append(class_name.as_str());
        out.append(TEST_TS_KIT_4);
        out.append(class_name.as_str());
        out.append(TEST_TS_KIT_5);
        out.append(class_name.as_str());
        out.append(TEST_TS_KIT_6);
        out.append(so_name.as_str());
        out.append(TEST_TS_KIT_7);
        out.append(class_name.as_str());
        out.append(TEST_TS_KIT_8);
    } else {
        out.append(TEST_TS_WEB3_1);
        out.append(class_name.as_str());
        out.append(TEST_TS_WEB3_2);
        out.append(module_name.as_str());
        out.append(TEST_TS_WEB3_3);
        out.append(class_name.as_str());
        out.append(TEST_TS_WEB3_4);
        out.append(class_name.as_str());
        out.append(TEST_TS_WEB3_5);
        out.append(class_name.as_str());
        out.append(TEST_TS_WEB3_6);
        out.append(class_name.as_str());
        out.append(TEST_TS_WEB3_7);
        out.append(so_name.as_str());
        out.append(TEST_TS_WEB3_8);
        out.append(class_name.as_str());
        out.append(TEST_TS_WEB3_9);
    }
    assert(out@ =~= test_ts(name@, ts_sdk, toolchain));
    out
}

/// The Rust test module, written for the chosen framework (the template
/// does not change it).
pub open spec fn tests_rs(
    module_name: Seq<char>,
    rust_framework: RustFramework,
    template: Template,
    toolchain: Toolchain,
) -> Seq<char> {
    let libname = so_name(module_name, toolchain);
    let client_crate = module_name + CLIENT_SUFFIX@;
    match rust_framework {
        RustFramework::Mollusk => TESTS_RS_MOLLUSK_1@ + client_crate + TESTS_RS_MOLLUSK_2@ + libname + TESTS_RS_MOLLUSK_3@,
        RustFramework::QuasarSVM => TESTS_RS_QUASAR_SVM_1@ + client_crate + TESTS_RS_QUASAR_SVM_2@ + libname + TESTS_RS_QUASAR_SVM_3@,
    }
}

pub fn generate_tests_rs(
    module_name: &str,
    rust_framework: RustFramework,
    template: Template,
    toolchain: Toolchain,
) -> (out: String)
    ensures
        out@ == tests_rs(module_name@, rust_framework, template, toolchain),
{
    let libname = make_so_name(module_name, toolchain);
    let mut client_crate = String::new();
    client_crate.append(module_name);
    client_crate.append(CLIENT_SUFFIX);
    let mut out = String::new();
    match rust_framework {
        RustFramework::Mollusk => {
            out.append(TESTS_RS_MOLLUSK_1);
            out.append(client_crate.as_str());
            out.append(TESTS_RS_MOLLUSK_2);
            out.append(libname.as_str());
            out.append(TESTS_RS_MOLLUSK_3);
        },
        RustFramework::QuasarSVM => {
            out.append(TESTS_RS_QUASAR_SVM_1);
            out.append(client_crate.as_str());
            out.append(TESTS_RS_QUASAR_SVM_2);
            out.append(libname.as_str());
            out.append(TESTS_RS_QUASAR_SVM_3);
        },
    }
    assert(out@ =~= tests_rs(module_name@, rust_framework, template, toolchain));
    out
}

} // verus!
