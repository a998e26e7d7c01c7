use quasar::accounts::{
    directive_kind, fold_directives, plan_accounts, plan_field, AccountDirective, AccountsError, BumpField,
    BumpKind, DirectiveKind, FieldInfo, FieldKind, ItemShape, SeedElement,
};
use quasar::error_code::{error_codes, parse_u32, Discriminant, ErrorCodeError, VariantInfo};
use quasar::instruction::{plan_instruction, InstructionError, Param};

fn variant(name: &str, d: Option<Discriminant>) -> VariantInfo {
    VariantInfo { name: name.to_string(), discriminant: d }
}

fn lit(s: &str) -> Option<Discriminant> {
    Some(Discriminant::IntLiteral(s.to_string()))
}

#[test]
fn error_codes_count_from_zero() {
    let vs = vec![variant("A", None), variant("B", None), variant("C", None)];
    assert_eq!(error_codes(Some(&vs)), Ok(vec![0, 1, 2]));
}

#[test]
fn error_codes_continue_after_discriminant() {
    let vs = vec![variant("A", None), variant("B", lit("6000")), variant("C", None), variant("D", lit("7")), variant("E", None)];
    assert_eq!(error_codes(Some(&vs)), Ok(vec![0, 6000, 6001, 7, 8]));
}

#[test]
fn error_codes_of_an_error_enum_with_an_explicit_number() {
    let vs = vec![
        variant("Hello", None),
        variant("ExplicitNum", lit("100")),
        variant("RequireFailed", None),
        variant("RequireEqFailed", None),
    ];
    assert_eq!(error_codes(Some(&vs)), Ok(vec![0, 100, 101, 102]));
}

#[test]
fn error_codes_empty_enum() {
    let vs: Vec<VariantInfo> = vec![];
    assert_eq!(error_codes(Some(&vs)), Ok(vec![]));
}

#[test]
fn error_codes_not_an_enum() {
    assert_eq!(error_codes(None), Err(ErrorCodeError::NotAnEnum));
    assert_eq!(ErrorCodeError::NotAnEnum.message(), "#[error_code] can only be used on enums");
}

#[test]
fn error_codes_invalid_u32() {
    let vs = vec![variant("A", lit("4294967296"))];
    assert_eq!(error_codes(Some(&vs)), Err(ErrorCodeError::InvalidU32));
    assert_eq!(ErrorCodeError::InvalidU32.message(), "#[error_code] discriminant must be a valid u32");
}

#[test]
fn error_codes_not_integer_literal() {
    let vs = vec![variant("A", None), variant("B", Some(Discriminant::Other))];
    assert_eq!(error_codes(Some(&vs)), Err(ErrorCodeError::NotIntegerLiteral));
    assert_eq!(
        ErrorCodeError::NotIntegerLiteral.message(),
        "#[error_code] discriminant must be an integer literal"
    );
}

#[test]
fn error_codes_overflow_after_max() {
    let vs = vec![variant("A", lit("4294967295"))];
    assert_eq!(error_codes(Some(&vs)), Err(ErrorCodeError::Overflow));
}

#[test]
fn parse_u32_cases() {
    assert_eq!(parse_u32("0"), Some(0));
    assert_eq!(parse_u32("+42"), Some(42));
    assert_eq!(parse_u32("4294967295"), Some(u32::MAX));
    assert_eq!(parse_u32("4294967296"), None);
    assert_eq!(parse_u32(""), None);
    assert_eq!(parse_u32("+"), None);
    assert_eq!(parse_u32("-1"), None);
    assert_eq!(parse_u32("1a"), None);
}

fn typed(name: &str) -> Param {
    Param::Typed { ident: Some(name.to_string()) }
}

#[test]
fn instruction_plan_fields() {
    let ps = vec![typed("ctx"), typed("amount"), typed("bump")];
    let plan = plan_instruction(&ps, 1).unwrap();
    assert_eq!(plan.ctx_ident, "ctx");
    assert_eq!(plan.data_fields, vec![(1, "amount".to_string()), (2, "bump".to_string())]);
    assert_eq!(plan.disc_len, 1);
}

#[test]
fn instruction_plan_context_only() {
    let ps = vec![typed("context")];
    let plan = plan_instruction(&ps, 8).unwrap();
    assert_eq!(plan.ctx_ident, "context");
    assert!(plan.data_fields.is_empty());
    assert_eq!(plan.disc_len, 8);
}

#[test]
fn instruction_plan_skips_receivers() {
    let ps = vec![typed("ctx"), Param::Receiver, typed("x")];
    let plan = plan_instruction(&ps, 1).unwrap();
    assert_eq!(plan.data_fields, vec![(2, "x".to_string())]);
}

#[test]
fn instruction_errors() {
    let none: Vec<Param> = vec![];
    assert_eq!(plan_instruction(&none, 1).err(), Some(InstructionError::MissingContext));
    let recv = vec![Param::Receiver, typed("a")];
    assert_eq!(plan_instruction(&recv, 1).err(), Some(InstructionError::MissingContext));
    let pat_ctx = vec![Param::Typed { ident: None }];
    assert_eq!(plan_instruction(&pat_ctx, 1).err(), Some(InstructionError::ContextNotIdent));
    let pat_data = vec![typed("ctx"), typed("a"), Param::Typed { ident: None }];
    assert_eq!(plan_instruction(&pat_data, 1).err(), Some(InstructionError::ParamNotIdent));
    assert_eq!(
        InstructionError::MissingContext.message(),
        "#[instruction] requires ctx: Ctx<T> as first parameter"
    );
    assert_eq!(InstructionError::ContextNotIdent.message(), "#[instruction] ctx parameter must be an identifier");
    assert_eq!(InstructionError::ParamNotIdent.message(), "#[instruction] parameters must be simple identifiers");
}

#[test]
fn directive_kinds() {
    assert_eq!(directive_kind("has_one"), Ok(DirectiveKind::HasOne));
    assert_eq!(directive_kind("constraint"), Ok(DirectiveKind::Constraint));
    assert_eq!(directive_kind("seeds"), Ok(DirectiveKind::Seeds));
    assert_eq!(directive_kind("bump"), Ok(DirectiveKind::Bump));
    assert_eq!(directive_kind("init"), Err("unknown account attribute: `init`".to_string()));
}

#[test]
fn fold_directives_keeps_order_and_last() {
    let ds: Vec<AccountDirective<&str, u32>> = vec![
        AccountDirective::HasOne("authority"),
        AccountDirective::Constraint(1),
        AccountDirective::Seeds(vec![10]),
        AccountDirective::HasOne("mint"),
        AccountDirective::Bump(None),
        AccountDirective::Seeds(vec![20, 21]),
        AccountDirective::Constraint(2),
        AccountDirective::Bump(Some(5)),
    ];
    let a = fold_directives(ds);
    assert_eq!(a.has_ones, vec!["authority", "mint"]);
    assert_eq!(a.constraints, vec![1, 2]);
    assert_eq!(a.seeds, Some(vec![20, 21]));
    assert_eq!(a.bump, Some(Some(5)));
}

#[test]
fn fold_directives_empty() {
    let ds: Vec<AccountDirective<&str, u32>> = vec![];
    let a = fold_directives(ds);
    assert!(a.has_ones.is_empty());
    assert!(a.constraints.is_empty());
    assert_eq!(a.seeds, None);
    assert_eq!(a.bump, None);
}

fn field(name: &str, kind: FieldKind, is_signer: bool) -> FieldInfo {
    FieldInfo { name: name.to_string(), kind, is_signer, seeds: None, bump: None, has_checks: false }
}

#[test]
fn plan_field_with_seeds() {
    let mut vault = field("vault", FieldKind::MutRef, false);
    vault.seeds = Some(vec![None, Some("authority".to_string()), Some("other".to_string())]);
    vault.bump = Some(BumpKind::Find);
    let names = vec!["authority".to_string(), "vault".to_string()];
    let p = plan_field(&vault, &names).unwrap();
    assert!(p.mutable);
    let sp = p.seeds.unwrap();
    assert_eq!(sp.bump_var, "__bumps_vault");
    assert_eq!(sp.bump_arr_field, "__vault_bump");
    assert_eq!(sp.seed_idents, vec!["__seed_vault_0", "__seed_vault_1", "__seed_vault_2"]);
    assert_eq!(sp.method_name, "vault_seeds");
    assert_eq!(sp.seed_count, 4);
    assert!(matches!(sp.elements[0], SeedElement::Expr));
    assert!(matches!(&sp.elements[1], SeedElement::FieldAddress { addr_field } if addr_field == "__seed_vault_authority"));
    assert!(matches!(sp.elements[2], SeedElement::Expr));
    assert_eq!(p.captures.len(), 1);
    assert_eq!(p.captures[0].capture_var, "__seed_addr_vault_authority");
    assert_eq!(p.captures[0].ident, "authority");
    assert_eq!(p.bump_fields.len(), 3);
    assert!(matches!(&p.bump_fields[0], BumpField::Bump { name, var } if name == "vault" && var == "__bumps_vault"));
    assert!(
        matches!(&p.bump_fields[1], BumpField::BumpArray { name, var } if name == "__vault_bump" && var == "__bumps_vault")
    );
    assert!(matches!(&p.bump_fields[2], BumpField::SeedAddress { name, capture_var }
        if name == "__seed_vault_authority" && capture_var == "__seed_addr_vault_authority"));
}

#[test]
fn plan_field_without_seeds() {
    let f = field("payer", FieldKind::Ref, true);
    let p = plan_field(&f, &vec!["payer".to_string()]).unwrap();
    assert!(!p.mutable);
    assert!(p.seeds.is_none());
    assert!(p.bump_fields.is_empty());
    assert!(p.captures.is_empty());
}

#[test]
fn plan_field_seeds_without_bump() {
    let mut f = field("vault", FieldKind::MutRef, false);
    f.seeds = Some(vec![None]);
    assert!(plan_field(&f, &vec![]).is_none());
}

#[test]
fn plan_accounts_shapes() {
    let fields = vec![field("payer", FieldKind::MutRef, true)];
    assert_eq!(plan_accounts(ItemShape::NotStruct, "Init", &fields).err(), Some(AccountsError::NotStruct));
    assert_eq!(plan_accounts(ItemShape::OtherStruct, "Init", &fields).err(), Some(AccountsError::UnnamedFields));
    assert_eq!(AccountsError::NotStruct.message(), "Accounts can only be derived for structs");
    assert_eq!(AccountsError::UnnamedFields.message(), "Accounts can only be derived for structs with named fields");
}

#[test]
fn plan_accounts_missing_bump() {
    let mut vault = field("vault", FieldKind::MutRef, false);
    vault.seeds = Some(vec![None]);
    let fields = vec![field("payer", FieldKind::MutRef, true), vault];
    assert_eq!(plan_accounts(ItemShape::NamedStruct, "Init", &fields).err(), Some(AccountsError::MissingBump));
    assert_eq!(
        AccountsError::MissingBump.message(),
        "#[account(seeds = [...])] requires a `bump` or `bump = expr` directive"
    );
}

fn expected_client_macro(name_snake: &str, fields: &[(&str, bool, bool)]) -> String {
    let account_fields: String = fields
        .iter()
        .map(|(n, _, _)| format!("pub {}: solana_address::Address,", n))
        .collect::<Vec<_>>()
        .join("\n                ");
    let account_metas: String = fields
        .iter()
        .map(|(n, w, s)| {
            if *w {
                format!("quasar_core::client::AccountMeta::new(ix.{}, {}),", n, s)
            } else {
                format!("quasar_core::client::AccountMeta::new_readonly(ix.{}, {}),", n, s)
            }
        })
        .collect::<Vec<_>>()
        .join("\n                        ");
    format!(
        r#"
        #[cfg(not(any(target_arch = "bpf", target_os = "solana")))]
        #[doc(hidden)]
        #[macro_export]
        macro_rules! {macro_name} {{
            ($struct_name:ident, [$($disc:expr),*], {{$($arg_name:ident : $arg_ty:ty),*}}) => {{
                pub struct $struct_name {{
                    {account_fields}
                    $(pub $arg_name: $arg_ty,)*
                }}

                impl From<$struct_name> for quasar_core::client::Instruction {{
                    fn from(ix: $struct_name) -> quasar_core::client::Instruction {{
                        let accounts = vec![
                            {account_metas}
                        ];
                        let data = quasar_core::client::build_instruction_data(
                            &[$($disc),*],
                            |_data| {{ $(quasar_core::client::WriteBytes::write_bytes(&ix.$arg_name, _data);)* }}
                        );
                        quasar_core::client::Instruction {{
                            program_id: crate::ID,
                            accounts,
                            data,
                        }}
                    }}
                }}
            }};
        }}
        "#,
        macro_name = format!("__{}_instruction", name_snake),
        account_fields = account_fields,
        account_metas = account_metas,
    )
}

#[test]
fn plan_accounts_full() {
    let payer = field("payer", FieldKind::MutRef, true);
    let mut config = field("config", FieldKind::Ref, false);
    config.has_checks = true;
    let mut vault = field("vault", FieldKind::MutRef, false);
    vault.seeds = Some(vec![None, Some("payer".to_string())]);
    vault.bump = Some(BumpKind::Explicit);
    let program = field("system_program", FieldKind::Value, false);
    let fields = vec![payer, config, vault, program];
    let p = plan_accounts(ItemShape::NamedStruct, "InitializeVault", &fields).unwrap();
    assert_eq!(p.bumps_name, "InitializeVaultBumps");
    assert_eq!(p.fields.len(), 4);
    assert!(p.has_pda_fields);
    assert!(p.has_any_checks);
    assert!(p.fields[0].mutable && !p.fields[1].mutable && p.fields[2].mutable && !p.fields[3].mutable);
    assert_eq!(p.fields[2].seeds.as_ref().unwrap().bump, BumpKind::Explicit);
    let expected = expected_client_macro(
        "initialize_vault",
        &[("payer", true, true), ("config", false, false), ("vault", true, false), ("system_program", false, false)],
    );
    assert_eq!(p.client_macro, expected);
}

#[test]
fn plan_accounts_without_checks() {
    let fields = vec![field("signer", FieldKind::Ref, true)];
    let p = plan_accounts(ItemShape::NamedStruct, "Read", &fields).unwrap();
    assert!(!p.has_pda_fields);
    assert!(!p.has_any_checks);
    assert_eq!(p.client_macro, expected_client_macro("read", &[("signer", false, true)]));
}
