use quasar::idl_state::{
    extract_state_accounts, get_account_discriminator, parse_discriminator_value,
    parse_dynamic_seeds, parse_seed_prefix, parse_seeds_attr, to_camel_case, to_idl_account_def,
    to_idl_type_def, AttributeInfo, ItemInfo, RawStateAccount,
};

fn pair(a: &str, b: &str) -> (String, String) {
    (a.to_string(), b.to_string())
}

fn attr(ident: Option<&str>, tokens: Option<&str>) -> AttributeInfo {
    AttributeInfo { ident: ident.map(|s| s.to_string()), list_tokens: tokens.map(|s| s.to_string()) }
}

#[test]
fn seed_prefix_of_doc_example() {
    assert_eq!(parse_seed_prefix("b\"escrow\" , maker : Address"), Some(b"escrow".to_vec()));
}

#[test]
fn dynamic_seeds_of_doc_example() {
    assert_eq!(parse_dynamic_seeds("b\"escrow\" , maker : Address"), vec![pair("maker", "Address")]);
}

#[test]
fn seed_prefix_without_byte_string_is_none() {
    assert_eq!(parse_seed_prefix("\"escrow\", maker: Address"), None);
    assert_eq!(parse_seed_prefix(""), None);
    assert_eq!(parse_seed_prefix("b\"unterminated"), None);
}

#[test]
fn dynamic_seeds_without_prefix_are_empty() {
    assert_eq!(parse_dynamic_seeds("maker: Address"), Vec::<(String, String)>::new());
    assert_eq!(parse_dynamic_seeds("b\"open , a: B"), Vec::<(String, String)>::new());
}

#[test]
fn seed_prefix_around_whitespace_and_unicode() {
    assert_eq!(parse_seed_prefix("   b\"vault\"   "), Some(b"vault".to_vec()));
    assert_eq!(parse_seed_prefix("b\"\""), Some(Vec::new()));
    assert_eq!(parse_seed_prefix("b\"caf\u{e9}\""), Some("caf\u{e9}".as_bytes().to_vec()));
}

#[test]
fn dynamic_seeds_several_pairs_in_order() {
    assert_eq!(
        parse_dynamic_seeds("b\"pool\", mint_a: Address, mint_b : Address ,fee:u16"),
        vec![pair("mint_a", "Address"), pair("mint_b", "Address"), pair("fee", "u16")]
    );
}

#[test]
fn dynamic_seeds_skip_incomplete_pieces() {
    assert_eq!(
        parse_dynamic_seeds("b\"x\", , lonely, : Ty, name :, a: b: c"),
        vec![pair("a", "b: c")]
    );
}

#[test]
fn dynamic_seeds_trim_unicode_whitespace() {
    assert_eq!(
        parse_dynamic_seeds("b\"x\",\u{a0}owner\u{2003}:\tAddress\n"),
        vec![pair("owner", "Address")]
    );
}

#[test]
fn seeds_attr_takes_first_seeds_list() {
    let attrs = vec![
        attr(Some("account"), Some("discriminator = 1")),
        attr(Some("seeds"), None),
        attr(Some("seeds"), Some("b\"escrow\" , maker : Address")),
        attr(Some("seeds"), Some("b\"other\"")),
    ];
    let seeds = parse_seeds_attr(&attrs).unwrap();
    assert_eq!(seeds.prefix, b"escrow".to_vec());
    assert_eq!(seeds.dynamic_seeds, vec![pair("maker", "Address")]);
}

#[test]
fn seeds_attr_without_prefix_stops() {
    let attrs = vec![attr(Some("seeds"), Some("maker: Address")), attr(Some("seeds"), Some("b\"x\""))];
    assert!(parse_seeds_attr(&attrs).is_none());
    assert!(parse_seeds_attr(&Vec::new()).is_none());
}

#[test]
fn discriminator_values() {
    assert_eq!(parse_discriminator_value("discriminator = 1"), Some(vec![1]));
    assert_eq!(parse_discriminator_value("discriminator = [1, 2, 255]"), Some(vec![1, 2, 255]));
    assert_eq!(parse_discriminator_value("discriminator = 7 , other = 3"), Some(vec![7]));
    assert_eq!(parse_discriminator_value("discriminator = 256"), None);
    assert_eq!(parse_discriminator_value("discriminator = [1, x]"), None);
    assert_eq!(parse_discriminator_value("discriminator"), None);
    assert_eq!(parse_discriminator_value("discriminator = [1, 2"), None);
}

#[test]
fn account_discriminator_from_attributes() {
    let attrs = vec![
        attr(Some("derive"), Some("Clone")),
        attr(Some("account"), Some("mut")),
        attr(Some("account"), Some("discriminator = 3")),
    ];
    assert_eq!(get_account_discriminator(&attrs), Some(vec![3]));
    let none = vec![attr(Some("account"), None), attr(None, Some("discriminator = 1"))];
    assert_eq!(get_account_discriminator(&none), None);
}

#[test]
fn extract_accounts_from_items() {
    let items: Vec<ItemInfo<&str>> = vec![
        ItemInfo::Other,
        ItemInfo::Struct {
            name: "Escrow".to_string(),
            attrs: vec![
                attr(Some("account"), Some("discriminator = 1")),
                attr(Some("seeds"), Some("b\"escrow\", maker: Address")),
            ],
            named_fields: Some(vec![("maker".to_string(), "Address"), ("amount".to_string(), "u64")]),
        },
        ItemInfo::Struct { name: "Plain".to_string(), attrs: vec![], named_fields: Some(vec![]) },
        ItemInfo::Struct {
            name: "Tuple".to_string(),
            attrs: vec![attr(Some("account"), Some("discriminator = [2, 3]"))],
            named_fields: None,
        },
    ];
    let accounts = extract_state_accounts(items);
    assert_eq!(accounts.len(), 2);
    assert_eq!(accounts[0].name, "Escrow");
    assert_eq!(accounts[0].discriminator, vec![1]);
    assert_eq!(accounts[0].fields, vec![("maker".to_string(), "Address"), ("amount".to_string(), "u64")]);
    let seeds = accounts[0].seeds.as_ref().unwrap();
    assert_eq!(seeds.prefix, b"escrow".to_vec());
    assert_eq!(seeds.dynamic_seeds, vec![pair("maker", "Address")]);
    assert_eq!(accounts[1].name, "Tuple");
    assert_eq!(accounts[1].discriminator, vec![2, 3]);
    assert!(accounts[1].fields.is_empty());
    assert!(accounts[1].seeds.is_none());
}

#[test]
fn idl_defs_of_raw_account() {
    let raw = RawStateAccount {
        name: "Vault".to_string(),
        discriminator: vec![9],
        fields: vec![("owner_key".to_string(), "Address"), ("total_amount_x".to_string(), "u64")],
        seeds: None,
    };
    let def = to_idl_account_def(&raw);
    assert_eq!(def.name, "Vault");
    assert_eq!(def.discriminator, vec![9]);
    let ty = to_idl_type_def(&raw, |t: &&str| t.to_lowercase());
    assert_eq!(ty.name, "Vault");
    assert_eq!(ty.kind, "struct");
    assert_eq!(ty.fields.len(), 2);
    assert_eq!(ty.fields[0].name, "ownerKey");
    assert_eq!(ty.fields[0].ty, "address");
    assert_eq!(ty.fields[1].name, "totalAmountX");
    assert_eq!(ty.fields[1].ty, "u64");
}

#[test]
fn camel_case_conversion() {
    assert_eq!(to_camel_case("owner"), "owner");
    assert_eq!(to_camel_case("mint_a"), "mintA");
    assert_eq!(to_camel_case("a__b_"), "aB");
}
