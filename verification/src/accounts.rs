//! `#[derive(Accounts)]`: reading the `#[account(...)]` directives of each
//! field, and planning the generated parser: constructors, `has_one`,
//! constraint and PDA checks, the bumps struct, the seeds methods, and the
//! off-chain client instruction macro.
use vstd::prelude::*;
use crate::text::{decimal, decimal_usize, join, join_strings, pascal_to_snake, snake_of, str_eq};

verus! {

/// The key that starts an `#[account(...)]` directive.
#[derive(Debug, Clone, Copy, PartialEq, Eq, Structural)]
pub enum DirectiveKind {
    HasOne,
    Constraint,
    Seeds,
    Bump,
}

impl DirectiveKind {
    pub open spec fn key_view(self) -> Seq<char> {
        match self {
            DirectiveKind::HasOne => "has_one"@,
            DirectiveKind::Constraint => "constraint"@,
            DirectiveKind::Seeds => "seeds"@,
            DirectiveKind::Bump => "bump"@,
        }
    }
}

/// The directive a key starts, or the error for an unknown key.
pub fn directive_kind(key: &str) -> (r: Result<DirectiveKind, String>)
    ensures
        match r {
            Ok(k) => key@ == k.key_view(),
            Err(m) => key@ != "has_one"@ && key@ != "constraint"@ && key@ != "seeds"@ && key@
                != "bump"@ && m@ == "unknown account attribute: `"@ + key@ + "`"@,
        },
{
    if str_eq(key, "has_one") {
        Ok(DirectiveKind::HasOne)
    } else if str_eq(key, "constraint") {
        Ok(DirectiveKind::Constraint)
    } else if str_eq(key, "seeds") {
        Ok(DirectiveKind::Seeds)
    } else if str_eq(key, "bump") {
        Ok(DirectiveKind::Bump)
    } else {
        let mut m = String::from_str("unknown account attribute: `");
        m.append(key);
        m.append("`");
        Err(m)
    }
}

/// One directive, with its identifier (`I`) or expressions (`E`).
pub enum AccountDirective<I, E> {
    HasOne(I),
    Constraint(E),
    Seeds(Vec<E>),
    Bump(Option<E>),
}

/// The directives of a field, gathered.
pub struct AccountFieldAttrs<I, E> {
    pub has_ones: Vec<I>,
    pub constraints: Vec<E>,
    pub seeds: Option<Vec<E>>,
    pub bump: Option<Option<E>>,
}

/// The `has_one` targets, in order.
pub open spec fn has_ones_of<I, E>(ds: Seq<AccountDirective<I, E>>) -> Seq<I>
    decreases ds.len(),
{
    if ds.len() == 0 {
        seq![]
    } else {
        has_ones_of(ds.drop_last()) + match ds.last() {
            AccountDirective::HasOne(i) => seq![i],
            _ => seq![],
        }
    }
}

/// The constraints, in order.
pub open spec fn constraints_of<I, E>(ds: Seq<AccountDirective<I, E>>) -> Seq<E>
    decreases ds.len(),
{
    if ds.len() == 0 {
        seq![]
    } else {
        constraints_of(ds.drop_last()) + match ds.last() {
            AccountDirective::Constraint(e) => seq![e],
            _ => seq![],
        }
    }
}

/// The seeds of the last `seeds` directive.
pub open spec fn last_seeds<I, E>(ds: Seq<AccountDirective<I, E>>) -> Option<Vec<E>>
    decreases ds.len(),
{
    if ds.len() == 0 {
        None
    } else {
        match ds.last() {
            AccountDirective::Seeds(s) => Some(s),
            _ => last_seeds(ds.drop_last()),
        }
    }
}

/// The last `bump` directive.
pub open spec fn last_bump<I, E>(ds: Seq<AccountDirective<I, E>>) -> Option<Option<E>>
    decreases ds.len(),
{
    if ds.len() == 0 {
        None
    } else {
        match ds.last() {
            AccountDirective::Bump(b) => Some(b),
            _ => last_bump(ds.drop_last()),
        }
    }
}

/// Gathers the directives of a field: every `has_one` and constraint in
/// order; a later `seeds` or `bump` replaces an earlier one.
pub fn fold_directives<I, E>(ds: Vec<AccountDirective<I, E>>) -> (a: AccountFieldAttrs<I, E>)
    ensures
        a.has_ones@ == has_ones_of(ds@),
        a.constraints@ == constraints_of(ds@),
        a.seeds == last_seeds(ds@),
        a.bump == last_bump(ds@),
{
    let ghost all = ds@;
    let n = ds.len();
    let mut rest = ds;
    let mut has_ones: Vec<I> = Vec::new();
    let mut constraints: Vec<E> = Vec::new();
    let mut seeds: Option<Vec<E>> = None;
    let mut bump: Option<Option<E>> = None;
    let mut k: usize = 0;
    assert(all.take(0) =~= Seq::<AccountDirective<I, E>>::empty());
    assert(all.skip(0) =~= all);
    while rest.len() > 0
        invariant
            all.len() == n,
            k <= all.len(),
            rest@ == all.skip(k as int),
            has_ones@ == has_ones_of(all.take(k as int)),
            constraints@ == constraints_of(all.take(k as int)),
            seeds == last_seeds(all.take(k as int)),
            bump == last_bump(all.take(k as int)),
        decreases rest@.len(),
    {
        let d = rest.remove(0);
        assert(d == all[k as int]);
        assert(all.take(k + 1).drop_last() =~= all.take(k as int));
        assert(all.take(k + 1).last() == d);
        match d {
            AccountDirective::HasOne(i) => {
                has_ones.push(i);
            },
            AccountDirective::Constraint(e) => {
                constraints.push(e);
            },
            AccountDirective::Seeds(s) => {
                seeds = Some(s);
            },
            AccountDirective::Bump(b) => {
                bump = Some(b);
            },
        }
        k = k + 1;
        assert(has_ones@ =~= has_ones_of(all.take(k as int)));
        assert(constraints@ =~= constraints_of(all.take(k as int)));
        assert(rest@ =~= all.skip(k as int));
    }
    assert(all.take(k as int) =~= all);
    AccountFieldAttrs { has_ones, constraints, seeds, bump }
}

/// How a field of the accounts struct is declared.
#[derive(Debug, Clone, Copy, PartialEq, Eq, Structural)]
pub enum FieldKind {
    /// `&'info mut T`: writable, built with `from_account_view_mut`.
    MutRef,
    /// `&'info T`.
    Ref,
    /// Any other type.
    Value,
}

/// How the bump of a PDA field is obtained.
#[derive(Debug, Clone, Copy, PartialEq, Eq, Structural)]
pub enum BumpKind {
    /// `bump`: searched with `find_program_address`.
    Find,
    /// `bump = expr`: given, checked with `create_program_address`.
    Explicit,
}

/// What the planner reads of a field.
pub struct FieldInfo {
    pub name: String,
    pub kind: FieldKind,
    /// The field's type is a signer.
    pub is_signer: bool,
    /// For each expression of its `seeds` directive, the identifier the
    /// expression is when it is a single plain identifier.
    pub seeds: Option<Vec<Option<String>>>,
    pub bump: Option<BumpKind>,
    /// It has `has_one` or constraint directives.
    pub has_checks: bool,
}

/// One element of a seeds method's array.
pub enum SeedElement {
    /// The address of another field, captured in the bumps struct.
    FieldAddress { addr_field: String },
    /// The seed expression itself.
    Expr,
}

/// A field of the bumps struct.
pub enum BumpField {
    /// `pub <field>: u8`, set from `var`.
    Bump { name: String, var: String },
    /// `<name>: [u8; 1]`, set to `[var]`.
    BumpArray { name: String, var: String },
    /// `<name>: Address`, set from the captured `capture_var`.
    SeedAddress { name: String, capture_var: String },
}

/// `let <capture_var> = *<ident>.address();`, before the fields are built.
pub struct SeedCapture {
    pub capture_var: String,
    pub ident: String,
}

/// The PDA side of a field with seeds.
pub struct SeedsPlan {
    pub bump_var: String,
    pub bump_arr_field: String,
    /// The local that holds each seed slice.
    pub seed_idents: Vec<String>,
    pub bump: BumpKind,
    /// `<field>_seeds`.
    pub method_name: String,
    /// Seeds and bump.
    pub seed_count: usize,
    pub elements: Vec<SeedElement>,
}

pub struct FieldPlan {
    /// Built with `from_account_view_mut`, else with `from_account_view`.
    pub mutable: bool,
    pub seeds: Option<SeedsPlan>,
    pub bump_fields: Vec<BumpField>,
    pub captures: Vec<SeedCapture>,
}

pub struct AccountsPlan {
    /// `<Name>Bumps`.
    pub bumps_name: String,
    pub fields: Vec<FieldPlan>,
    /// The bumps struct has fields (some field has seeds).
    pub has_pda_fields: bool,
    /// Some field has a check to run after the fields are built.
    pub has_any_checks: bool,
    /// The source of the client instruction macro.
    pub client_macro: String,
}

/// The shape of the item the derive is on.
#[derive(Debug, Clone, Copy, PartialEq, Eq, Structural)]
pub enum ItemShape {
    NamedStruct,
    OtherStruct,
    NotStruct,
}

#[derive(Debug, Clone, Copy, PartialEq, Eq, Structural)]
pub enum AccountsError {
    NotStruct,
    UnnamedFields,
    /// A field has seeds but no bump directive.
    MissingBump,
}

impl AccountsError {
    pub open spec fn message_view(self) -> Seq<char> {
        match self {
            AccountsError::NotStruct => "Accounts can only be derived for structs"@,
            AccountsError::UnnamedFields => "Accounts can only be derived for structs with named fields"@,
            AccountsError::MissingBump => "#[account(seeds = [...])] requires a `bump` or `bump = expr` directive"@,
        }
    }

    pub fn message(self) -> (s: &'static str)
        ensures
            s@ == self.message_view(),
    {
        match self {
            AccountsError::NotStruct => "Accounts can only be derived for structs",
            AccountsError::UnnamedFields => "Accounts can only be derived for structs with named fields",
            AccountsError::MissingBump => "#[account(seeds = [...])] requires a `bump` or `bump = expr` directive",
        }
    }
}

pub open spec fn bump_var_name(f: Seq<char>) -> Seq<char> {
    "__bumps_"@ + f
}

pub open spec fn bump_arr_name(f: Seq<char>) -> Seq<char> {
    "__"@ + f + "_bump"@
}

pub open spec fn seed_ident_name(f: Seq<char>, i: nat) -> Seq<char> {
    "__seed_"@ + f + "_"@ + decimal(i)
}

pub open spec fn addr_field_name(f: Seq<char>, id: Seq<char>) -> Seq<char> {
    "__seed_"@ + f + "_"@ + id
}

pub open spec fn capture_var_name(f: Seq<char>, id: Seq<char>) -> Seq<char> {
    "__seed_addr_"@ + f + "_"@ + id
}

pub open spec fn method_name_of(f: Seq<char>) -> Seq<char> {
    f + "_seeds"@
}

pub open spec fn names_view(v: Seq<String>) -> Seq<Seq<char>> {
    v.map_values(|s: String| s@)
}

/// A seed is the address of another field when it is a single identifier
/// that names a field of the struct.
pub open spec fn refs_field(id: Option<String>, names: Seq<Seq<char>>) -> bool {
    id matches Some(s) && names.contains(s@)
}

pub open spec fn element_ok(f: Seq<char>, id: Option<String>, names: Seq<Seq<char>>, e: SeedElement) -> bool {
    if refs_field(id, names) {
        e matches SeedElement::FieldAddress { addr_field } && addr_field@ == addr_field_name(
            f,
            id->0@,
        )
    } else {
        e is Expr
    }
}

/// The captures of the field-address seeds among `seeds`, in order, as
/// (capture variable, field).
pub open spec fn captures_spec(f: Seq<char>, seeds: Seq<Option<String>>, names: Seq<Seq<char>>) -> Seq<(Seq<char>, Seq<char>)>
    decreases seeds.len(),
{
    if seeds.len() == 0 {
        seq![]
    } else {
        captures_spec(f, seeds.drop_last(), names) + if refs_field(seeds.last(), names) {
            seq![(capture_var_name(f, seeds.last()->0@), seeds.last()->0@)]
        } else {
            seq![]
        }
    }
}

pub open spec fn captures_view(v: Seq<SeedCapture>) -> Seq<(Seq<char>, Seq<char>)> {
    v.map_values(|c: SeedCapture| (c.capture_var@, c.ident@))
}

/// A bumps-struct field by its kind (0 bump, 1 bump array, 2 seed
/// address), name and source.
pub open spec fn bump_field_view(b: BumpField) -> (int, Seq<char>, Seq<char>) {
    match b {
        BumpField::Bump { name, var } => (0, name@, var@),
        BumpField::BumpArray { name, var } => (1, name@, var@),
        BumpField::SeedAddress { name, capture_var } => (2, name@, capture_var@),
    }
}

pub open spec fn bump_fields_view(v: Seq<BumpField>) -> Seq<(int, Seq<char>, Seq<char>)> {
    v.map_values(|b: BumpField| bump_field_view(b))
}

/// The bumps-struct fields of a PDA field: its bump, its bump as an array,
/// then the address of every field its seeds name.
pub open spec fn bump_fields_spec(f: Seq<char>, seeds: Seq<Option<String>>, names: Seq<Seq<char>>) -> Seq<(int, Seq<char>, Seq<char>)> {
    seq![(0, f, bump_var_name(f)), (1, bump_arr_name(f), bump_var_name(f))]
        + captures_spec(f, seeds, names).map_values(
        |c: (Seq<char>, Seq<char>)| (2, addr_field_name(f, c.1), c.0),
    )
}

pub open spec fn seeds_plan_ok(f: Seq<char>, seeds: Seq<Option<String>>, bump: BumpKind, names: Seq<Seq<char>>, p: SeedsPlan) -> bool {
    &&& p.bump_var@ == bump_var_name(f)
    &&& p.bump_arr_field@ == bump_arr_name(f)
    &&& p.seed_idents@.len() == seeds.len()
    &&& forall|i: int| 0 <= i < seeds.len() ==> #[trigger] p.seed_idents@[i]@ == seed_ident_name(f, i as nat)
    &&& p.bump == bump
    &&& p.method_name@ == method_name_of(f)
    &&& p.seed_count == seeds.len() + 1
    &&& p.elements@.len() == seeds.len()
    &&& forall|i: int| 0 <= i < seeds.len() ==> element_ok(f, seeds[i], names, #[trigger] p.elements@[i])
}

/// The plan of one field, when its directives are complete.
pub open spec fn field_plan_ok(fi: FieldInfo, names: Seq<Seq<char>>, p: FieldPlan) -> bool {
    &&& p.mutable == (fi.kind == FieldKind::MutRef)
    &&& match fi.seeds {
        None => p.seeds is None && p.bump_fields@.len() == 0 && p.captures@.len() == 0,
        Some(seeds) => p.seeds matches Some(sp) && seeds_plan_ok(
            fi.name@,
            seeds@,
            fi.bump->0,
            names,
            sp,
        ) && bump_fields_view(p.bump_fields@) == bump_fields_spec(fi.name@, seeds@, names)
            && captures_view(p.captures@) == captures_spec(fi.name@, seeds@, names),
    }
}

/// A field's seeds can be counted with the bump in a `usize`.
pub open spec fn seeds_fit(fi: FieldInfo) -> bool {
    fi.seeds matches Some(s) ==> s@.len() < usize::MAX
}

/// Seeds without a bump directive are refused.
pub open spec fn field_complete(fi: FieldInfo) -> bool {
    fi.seeds is Some ==> fi.bump is Some
}

fn contains_name(names: &Vec<String>, s: &str) -> (b: bool)
    ensures
        b == names_view(names@).contains(s@),
{
    let mut i: usize = 0;
    while i < names.len()
        invariant
            i <= names@.len(),
            forall|j: int| 0 <= j < i ==> names@[j]@ != s@,
        decreases names@.len() - i,
    {
        if str_eq(names[i].as_str(), s) {
            assert(names_view(names@)[i as int] == s@);
            return true;
        }
        i = i + 1;
    }
    assert forall|j: int| 0 <= j < names_view(names@).len() implies names_view(names@)[j] != s@ by {
        assert(names_view(names@)[j] == names@[j]@);
    }
    false
}

fn concat2(a: &str, b: &str) -> (r: String)
    ensures
        r@ == a@ + b@,
{
    let mut r = String::from_str(a);
    r.append(b);
    r
}

fn concat3(a: &str, b: &str, c: &str) -> (r: String)
    ensures
        r@ == a@ + b@ + c@,
{
    let mut r = String::from_str(a);
    r.append(b);
    r.append(c);
    r
}

fn concat4(a: &str, b: &str, c: &str, d: &str) -> (r: String)
    ensures
        r@ == a@ + b@ + c@ + d@,
{
    let mut r = String::from_str(a);
    r.append(b);
    r.append(c);
    r.append(d);
    r
}

fn plan_seeds(f: &str, seeds: &Vec<Option<String>>, bump: BumpKind, names: &Vec<String>) -> (r: (SeedsPlan, Vec<BumpField>, Vec<SeedCapture>))
    requires
        seeds@.len() < usize::MAX,
    ensures
        seeds_plan_ok(f@, seeds@, bump, names_view(names@), r.0),
        bump_fields_view(r.1@) == bump_fields_spec(f@, seeds@, names_view(names@)),
        captures_view(r.2@) == captures_spec(f@, seeds@, names_view(names@)),
{
    let ghost nv = names_view(names@);
    let bump_var = concat2("__bumps_", f);
    let bump_arr_field = concat3("__", f, "_bump");
    let mut seed_idents: Vec<String> = Vec::new();
    let mut elements: Vec<SeedElement> = Vec::new();
    let mut captures: Vec<SeedCapture> = Vec::new();
    let mut i: usize = 0;
    assert(seeds@.take(0) =~= Seq::<Option<String>>::empty());
    while i < seeds.len()
        invariant
            nv == names_view(names@),
            i <= seeds@.len(),
            seed_idents@.len() == i,
            forall|j: int| 0 <= j < i ==> #[trigger] seed_idents@[j]@ == seed_ident_name(f@, j as nat),
            elements@.len() == i,
            forall|j: int| 0 <= j < i ==> element_ok(f@, seeds@[j], nv, #[trigger] elements@[j]),
            captures_view(captures@) == captures_spec(f@, seeds@.take(i as int), nv),
        decreases seeds@.len() - i,
    {
        let idx = decimal_usize(i);
        seed_idents.push(concat4("__seed_", f, "_", idx.as_str()));
        assert(seeds@.take(i + 1).drop_last() =~= seeds@.take(i as int));
        assert(seeds@.take(i + 1).last() == seeds@[i as int]);
        let ghost before = captures@;
        match &seeds[i] {
            Some(id) => {
                if contains_name(names, id.as_str()) {
                    elements.push(
                        SeedElement::FieldAddress { addr_field: concat4("__seed_", f, "_", id.as_str()) },
                    );
                    captures.push(
                        SeedCapture {
                            capture_var: concat4("__seed_addr_", f, "_", id.as_str()),
                            ident: id.clone(),
                        },
                    );
                    assert(captures_view(captures@) =~= captures_view(before) + seq![
                        (capture_var_name(f@, id@), id@),
                    ]);
                } else {
                    elements.push(SeedElement::Expr);
                    assert(captures_view(captures@) =~= captures_view(before) + Seq::empty());
                }
            },
            None => {
                elements.push(SeedElement::Expr);
                assert(captures_view(captures@) =~= captures_view(before) + Seq::empty());
            },
        }
        i = i + 1;
    }
    assert(seeds@.take(seeds@.len() as int) =~= seeds@);
    let mut bump_fields: Vec<BumpField> = Vec::new();
    bump_fields.push(BumpField::Bump { name: String::from_str(f), var: bump_var.clone() });
    bump_fields.push(BumpField::BumpArray { name: bump_arr_field.clone(), var: bump_var.clone() });
    let mut k: usize = 0;
    while k < captures.len()
        invariant
            bump_fields@.len() == k + 2,
            bump_fields_view(bump_fields@) == seq![(0int, f@, bump_var_name(f@)), (1int, bump_arr_name(f@), bump_var_name(f@))]
                + captures_view(captures@).take(k as int).map_values(
                |c: (Seq<char>, Seq<char>)| (2int, addr_field_name(f@, c.1), c.0),
            ),
            k <= captures@.len(),
        decreases captures@.len() - k,
    {
        let ghost before = bump_fields@;
        let c = &captures[k];
        bump_fields.push(
            BumpField::SeedAddress {
                name: concat4("__seed_", f, "_", c.ident.as_str()),
                capture_var: c.capture_var.clone(),
            },
        );
        assert(captures_view(captures@).take(k + 1) =~= captures_view(captures@).take(k as int).push((c.capture_var@, c.ident@)));
        assert(bump_fields_view(bump_fields@) =~= bump_fields_view(before).push((2int, addr_field_name(f@, c.ident@), c.capture_var@)));
        k = k + 1;
    }
    assert(captures_view(captures@).take(captures@.len() as int) =~= captures_view(captures@));
    let plan = SeedsPlan {
        bump_var,
        bump_arr_field,
        seed_idents,
        bump,
        method_name: concat2(f, "_seeds"),
        seed_count: seeds.len() + 1,
        elements,
    };
    (plan, bump_fields, captures)
}

/// The plan of one field; `None` when it has seeds but no bump.
pub fn plan_field(fi: &FieldInfo, names: &Vec<String>) -> (r: Option<FieldPlan>)
    requires
        seeds_fit(*fi),
    ensures
        field_complete(*fi) <==> r is Some,
        r matches Some(p) ==> field_plan_ok(*fi, names_view(names@), p),
{
    let mutable = fi.kind == FieldKind::MutRef;
    match &fi.seeds {
        None => Some(
            FieldPlan { mutable, seeds: None, bump_fields: Vec::new(), captures: Vec::new() },
        ),
        Some(seeds) => match fi.bump {
            None => None,
            Some(bump) => {
                let (sp, bump_fields, captures) = plan_seeds(fi.name.as_str(), seeds, bump, names);
                Some(FieldPlan { mutable, seeds: Some(sp), bump_fields, captures })
            },
        },
    }
}

pub const CLIENT_MACRO_1: &'static str = r#"
        #[cfg(not(any(target_arch = "bpf", target_os = "solana")))]
        #[doc(hidden)]
        #[macro_export]
        macro_rules! "#;

pub const CLIENT_MACRO_2: &'static str = r#" {
            ($struct_name:ident, [$($disc:expr),*], {$($arg_name:ident : $arg_ty:ty),*}) => {
                pub struct $struct_name {
                    "#;

pub const CLIENT_MACRO_3: &'static str = r#"
                    $(pub $arg_name: $arg_ty,)*
                }

                impl From<$struct_name> for quasar_core::client::Instruction {
                    fn from(ix: $struct_name) -> quasar_core::client::Instruction {
                        let accounts = vec![
                            "#;

pub const CLIENT_MACRO_4: &'static str = r#"
                        ];
                        let data = quasar_core::client::build_instruction_data(
                            &[$($disc),*],
                            |_data| { $(quasar_core::client::WriteBytes::write_bytes(&ix.$arg_name, _data);)* }
                        );
                        quasar_core::client::Instruction {
                            program_id: crate::ID,
                            accounts,
                            data,
                        }
                    }
                }
            };
        }
        "#;

pub const FIELD_SEPARATOR: &'static str = "\n                ";

pub const META_SEPARATOR: &'static str = "\n                        ";

/// `pub <field>: solana_address::Address,`.
pub open spec fn account_field_line(f: Seq<char>) -> Seq<char> {
    "pub "@ + f + ": solana_address::Address,"@
}

pub open spec fn bool_text(b: bool) -> Seq<char> {
    if b {
        "true"@
    } else {
        "false"@
    }
}

/// The account meta of a field: writable for `&mut` fields, flagged signer
/// for signer types.
pub open spec fn account_meta_line(f: Seq<char>, writable: bool, signer: bool) -> Seq<char> {
    if writable {
        "quasar_core::client::AccountMeta::new(ix."@ + f + ", "@ + bool_text(signer) + "),"@
    } else {
        "quasar_core::client::AccountMeta::new_readonly(ix."@ + f + ", "@ + bool_text(signer)
            + "),"@
    }
}

/// `__<snake_name>_instruction`.
pub open spec fn client_macro_name(name: Seq<char>) -> Seq<char> {
    "__"@ + snake_of(name, true) + "_instruction"@
}

pub open spec fn client_macro_spec(name: Seq<char>, fields: Seq<FieldInfo>) -> Seq<char> {
    let macro_name = client_macro_name(name);
    let account_fields = join(fields.map_values(|fi: FieldInfo| account_field_line(fi.name@)), FIELD_SEPARATOR@);
    let account_metas = join(
        fields.map_values(|fi: FieldInfo| account_meta_line(fi.name@, fi.kind == FieldKind::MutRef, fi.is_signer)),
        META_SEPARATOR@,
    );
    CLIENT_MACRO_1@ + macro_name + CLIENT_MACRO_2@ + account_fields + CLIENT_MACRO_3@ + account_metas + CLIENT_MACRO_4@
}

fn client_macro(name: &str, fields: &Vec<FieldInfo>) -> (out: String)
    ensures
        out@ == client_macro_spec(name@, fields@),
{
    let snake = pascal_to_snake(name);
    let macro_name_s = concat3("__", snake.as_str(), "_instruction");
    let macro_name = macro_name_s.as_str();
    let mut lines: Vec<String> = Vec::new();
    let mut metas: Vec<String> = Vec::new();
    let mut i: usize = 0;
    while i < fields.len()
        invariant
            i <= fields@.len(),
            names_view(lines@) == fields@.take(i as int).map_values(|fi: FieldInfo| account_field_line(fi.name@)),
            names_view(metas@) == fields@.take(i as int).map_values(
                |fi: FieldInfo| account_meta_line(fi.name@, fi.kind == FieldKind::MutRef, fi.is_signer),
            ),
        decreases fields@.len() - i,
    {
        let fi = &fields[i];
        let ghost lb = lines@;
        let ghost mb = metas@;
        lines.push(concat3("pub ", fi.name.as_str(), ": solana_address::Address,"));
        let signer = if fi.is_signer {
            "true"
        } else {
            "false"
        };
        let meta = if fi.kind == FieldKind::MutRef {
            concat4("quasar_core::client::AccountMeta::new(ix.", fi.name.as_str(), ", ", signer)
        } else {
            concat4("quasar_core::client::AccountMeta::new_readonly(ix.", fi.name.as_str(), ", ", signer)
        };
        metas.push(concat2(meta.as_str(), "),"));
        assert(fields@.take(i + 1) =~= fields@.take(i as int).push(fields@[i as int]));
        assert(names_view(lines@) =~= names_view(lb).push(account_field_line(fi.name@)));
        assert(names_view(metas@) =~= names_view(mb).push(account_meta_line(fi.name@, fi.kind == FieldKind::MutRef, fi.is_signer)));
        i = i + 1;
    }
    assert(fields@.take(fields@.len() as int) =~= fields@);
    let account_fields_s = join_strings(&lines, FIELD_SEPARATOR);
    let account_metas_s = join_strings(&metas, META_SEPARATOR);
    let account_fields = account_fields_s.as_str();
    let account_metas = account_metas_s.as_str();
    let mut out = String::new();
    out.append(CLIENT_MACRO_1);
    out.append(macro_name);
    out.append(CLIENT_MACRO_2);
    out.append(account_fields);
    out.append(CLIENT_MACRO_3);
    out.append(account_metas);
    out.append(CLIENT_MACRO_4);
    assert(out@ =~= client_macro_spec(name@, fields@));
    out
}

/// The whole plan, or why the derive is refused: the item's shape first,
/// then the first field with seeds but no bump.
pub open spec fn plan_accounts_ok(name: Seq<char>, fields: Seq<FieldInfo>, p: AccountsPlan) -> bool {
    let names = fields.map_values(|fi: FieldInfo| fi.name@);
    &&& p.bumps_name@ == name + "Bumps"@
    &&& p.fields@.len() == fields.len()
    &&& forall|i: int| 0 <= i < fields.len() ==> field_plan_ok(fields[i], names, #[trigger] p.fields@[i])
    &&& p.has_pda_fields == exists|i: int| 0 <= i < fields.len() && (#[trigger] fields[i]).seeds is Some
    &&& p.has_any_checks == exists|i: int| 0 <= i < fields.len() && ((#[trigger] fields[i]).seeds is Some || fields[i].has_checks)
    &&& p.client_macro@ == client_macro_spec(name, fields)
}

pub fn plan_accounts(shape: ItemShape, name: &str, fields: &Vec<FieldInfo>) -> (r: Result<AccountsPlan, AccountsError>)
    requires
        forall|i: int| 0 <= i < fields@.len() ==> seeds_fit(#[trigger] fields@[i]),
    ensures
        shape == ItemShape::NotStruct ==> r == Err::<AccountsPlan, AccountsError>(AccountsError::NotStruct),
        shape == ItemShape::OtherStruct ==> r == Err::<AccountsPlan, AccountsError>(AccountsError::UnnamedFields),
        shape == ItemShape::NamedStruct ==> match r {
            Ok(p) => (forall|i: int| 0 <= i < fields@.len() ==> field_complete(#[trigger] fields@[i])) && plan_accounts_ok(name@, fields@, p)
                && ((exists|i: int| 0 <= i < fields@.len() && (#[trigger] fields@[i]).has_checks) ==> p.has_any_checks),
            Err(e) => e == AccountsError::MissingBump && exists|i: int| 0 <= i < fields@.len() && !field_complete(#[trigger] fields@[i]),
        },
{
    match shape {
        ItemShape::NotStruct => return Err(AccountsError::NotStruct),
        ItemShape::OtherStruct => return Err(AccountsError::UnnamedFields),
        ItemShape::NamedStruct => {},
    }
    let ghost nv = fields@.map_values(|fi: FieldInfo| fi.name@);
    let mut names: Vec<String> = Vec::new();
    let mut i: usize = 0;
    while i < fields.len()
        invariant
            i <= fields@.len(),
            nv == fields@.map_values(|fi: FieldInfo| fi.name@),
            names_view(names@) == nv.take(i as int),
        decreases fields@.len() - i,
    {
        let ghost before = names@;
        names.push(fields[i].name.clone());
        assert(names_view(names@) =~= names_view(before).push(fields@[i as int].name@));
        assert(nv.take(i + 1) =~= nv.take(i as int).push(nv[i as int]));
        i = i + 1;
    }
    assert(nv.take(fields@.len() as int) =~= nv);
    let mut plans: Vec<FieldPlan> = Vec::new();
    let mut has_pda_fields = false;
    let mut has_any_checks = false;
    let mut k: usize = 0;
    while k < fields.len()
        invariant
            forall|i: int| 0 <= i < fields@.len() ==> seeds_fit(#[trigger] fields@[i]),
            shape == ItemShape::NamedStruct,
            k <= fields@.len(),
            names_view(names@) == nv,
            nv == fields@.map_values(|fi: FieldInfo| fi.name@),
            plans@.len() == k,
            forall|i: int| 0 <= i < k ==> field_complete(#[trigger] fields@[i]),
            forall|i: int| 0 <= i < k ==> field_plan_ok(fields@[i], nv, #[trigger] plans@[i]),
            has_pda_fields == exists|i: int| 0 <= i < k && (#[trigger] fields@[i]).seeds is Some,
            has_any_checks == exists|i: int| 0 <= i < k && ((#[trigger] fields@[i]).seeds is Some || fields@[i].has_checks),
        decreases fields@.len() - k,
    {
        let fi = &fields[k];
        match plan_field(fi, &names) {
            None => {
                assert(!field_complete(fields@[k as int]));
                return Err(AccountsError::MissingBump);
            },
            Some(p) => {
                plans.push(p);
            },
        }
        if fi.seeds.is_some() {
            has_pda_fields = true;
        }
        if fi.seeds.is_some() || fi.has_checks {
            has_any_checks = true;
        }
        k = k + 1;
    }
    let mut bumps_name = String::from_str(name);
    bumps_name.append("Bumps");
    let plan = AccountsPlan { bumps_name, fields: plans, has_pda_fields, has_any_checks, client_macro: client_macro(name, fields) };
    proof {
        directive_checks_always_run(name@, fields@, plan);
    }
    Ok(plan)
}

/// A struct with PDA fields always runs checks after its fields are built.
pub proof fn pda_fields_are_checked(name: Seq<char>, fields: Seq<FieldInfo>, p: AccountsPlan)
    requires
        plan_accounts_ok(name, fields, p),
    ensures
        p.has_pda_fields ==> p.has_any_checks,
{
    if p.has_pda_fields {
        let i = choose|i: int| 0 <= i < fields.len() && (#[trigger] fields[i]).seeds is Some;
        assert(0 <= i < fields.len() && (fields[i].seeds is Some || fields[i].has_checks));
    }
}

/// `has_one` and constraint directives are always checked: a plan for a
/// struct with a field that carries one runs its checks, and a struct with
/// neither such directives nor seeds on any field runs none.
pub proof fn directive_checks_always_run(name: Seq<char>, fields: Seq<FieldInfo>, p: AccountsPlan)
    requires
        plan_accounts_ok(name, fields, p),
    ensures
        (exists|i: int| 0 <= i < fields.len() && (#[trigger] fields[i]).has_checks) ==> p.has_any_checks,
        (forall|i: int| 0 <= i < fields.len() ==> (#[trigger] fields[i]).seeds is None && !fields[i].has_checks)
            ==> !p.has_any_checks,
{
    if exists|i: int| 0 <= i < fields.len() && (#[trigger] fields[i]).has_checks {
        let i = choose|i: int| 0 <= i < fields.len() && (#[trigger] fields[i]).has_checks;
        assert(0 <= i < fields.len() && (fields[i].seeds is Some || fields[i].has_checks));
    }
}

/// A field with seeds is checked as a PDA: its plan has a seeds part, the
/// bumps struct has fields, and checks run.
pub proof fn seeded_fields_are_pdas(name: Seq<char>, fields: Seq<FieldInfo>, p: AccountsPlan, i: int)
    requires
        plan_accounts_ok(name, fields, p),
        0 <= i < fields.len(),
        fields[i].seeds is Some,
    ensures
        p.fields@[i].seeds is Some,
        p.has_pda_fields,
        p.has_any_checks,
{
    assert(field_plan_ok(fields[i], fields.map_values(|fi: FieldInfo| fi.name@), p.fields@[i]));
}

} // verus!
