//! Parsing of `#[account(discriminator = N)]` state structs and their
//! `#[seeds(b"prefix", name: Type, ...)]` attributes for IDL generation.
//!
//! The parsers read the token text of an attribute (the `Display` form of
//! its token stream) and work on it char by char.
use vstd::prelude::*;
use vstd::slice::slice_to_vec;
use vstd::utf8::encode_utf8;
use crate::error_code::{parse_u32, parse_u32_spec};
use crate::text::{
    is_first_of, is_ws, trim_end, trim_start,
    chars_of, contains_seq, contains_str, find_char, find_pair, index_of, index_of_pair, pascal_of,
    snake_to_pascal, str_eq, substring, trim, trim_bounds,
};

verus! {

/// Parsed `#[seeds(b"prefix", name: Type, ...)]` on a state type.
pub struct RawTypedSeeds {
    pub prefix: Vec<u8>,
    /// `(name, type_name)` pairs, in the order they were written.
    pub dynamic_seeds: Vec<(String, String)>,
}

/// The pairs of strings of `v`, each taken by its chars.
pub open spec fn pairs_view(v: Seq<(String, String)>) -> Seq<(Seq<char>, Seq<char>)> {
    v.map_values(|p: (String, String)| (p.0@, p.1@))
}

pub open spec fn entry_view(r: Option<(String, String)>) -> Option<(Seq<char>, Seq<char>)> {
    match r {
        Some(p) => Some((p.0@, p.1@)),
        None => None,
    }
}

pub open spec fn opt_seq<A>(o: Option<A>) -> Seq<A> {
    match o {
        Some(x) => seq![x],
        None => seq![],
    }
}

/// The chars between `b"` and the next `"` in the trimmed token text, and the
/// text after that closing quote.
pub open spec fn prefix_split(s: Seq<char>) -> Option<(Seq<char>, Seq<char>)> {
    let t = trim(s);
    match index_of_pair(t, 'b', '"') {
        None => None,
        Some(st) => {
            let after = t.skip(st + 2);
            match index_of(after, '"') {
                None => None,
                Some(e) => Some((after.take(e), after.skip(e + 1))),
            }
        },
    }
}

/// The bytes of the `b"..."` prefix of a seeds token text (its chars in
/// UTF-8).
pub open spec fn seed_prefix(s: Seq<char>) -> Option<Seq<u8>> {
    match prefix_split(s) {
        Some(p) => Some(encode_utf8(p.0)),
        None => None,
    }
}

/// One comma-separated piece read as `name : Type`: both sides trimmed, both
/// non-empty, split at the first colon.
pub open spec fn seed_entry(part: Seq<char>) -> Option<(Seq<char>, Seq<char>)> {
    let p = trim(part);
    if p.len() == 0 {
        None
    } else {
        match index_of(p, ':') {
            None => None,
            Some(k) => {
                let name = trim(p.take(k));
                let ty = trim(p.skip(k + 1));
                if name.len() > 0 && ty.len() > 0 {
                    Some((name, ty))
                } else {
                    None
                }
            },
        }
    }
}

/// `s` split at every comma, each piece read by `seed_entry`, the pieces that
/// are no `name : Type` pair left out.
pub open spec fn seed_entries(s: Seq<char>) -> Seq<(Seq<char>, Seq<char>)>
    decreases s.len(),
{
    match index_of(s, ',') {
        None => opt_seq(seed_entry(s)),
        Some(k) => if 0 <= k < s.len() {
            opt_seq(seed_entry(s.take(k))) + seed_entries(s.skip(k + 1))
        } else {
            seq![]
        },
    }
}

/// The `name : Type` pairs written after the `b"..."` prefix.
pub open spec fn dynamic_seeds(s: Seq<char>) -> Seq<(Seq<char>, Seq<char>)> {
    match prefix_split(s) {
        Some(p) => seed_entries(p.1),
        None => seq![],
    }
}

/// Extract the byte string prefix from a seeds attribute token string.
/// e.g. `b"escrow" , maker : Address` → b"escrow"
pub fn parse_seed_prefix(tokens_str: &str) -> (r: Option<Vec<u8>>)
    ensures
        match r {
            Some(bytes) => seed_prefix(tokens_str@) == Some(bytes@),
            None => seed_prefix(tokens_str@) is None,
        },
{
    let v = chars_of(tokens_str);
    let (a, b) = trim_bounds(&v, 0, v.len());
    let ghost t = v@.subrange(a as int, b as int);
    assert(v@.subrange(0, v@.len() as int) =~= v@);
    let st = match find_pair(&v, a, b, 'b', '"') {
        Some(st) => st,
        None => return None,
    };
    assert(t.skip(st - a + 2) =~= v@.subrange(st + 2, b as int));
    let e = match find_char(&v, st + 2, b, '"') {
        Some(e) => e,
        None => return None,
    };
    assert(t.skip(st - a + 2).take(e - (st + 2)) =~= v@.subrange(st + 2, e as int));
    let sub = tokens_str.substring_char(st + 2, e);
    Some(slice_to_vec(sub.as_bytes()))
}

/// `seed_entry` of the chars `from..to` of `s`.
fn seed_entry_at(s: &str, v: &Vec<char>, from: usize, to: usize) -> (r: Option<(String, String)>)
    requires
        v@ == s@,
        from <= to <= v@.len(),
    ensures
        entry_view(r) == seed_entry(v@.subrange(from as int, to as int)),
{
    let (p0, p1) = trim_bounds(v, from, to);
    if p0 == p1 {
        return None;
    }
    let ghost p = v@.subrange(p0 as int, p1 as int);
    match find_char(v, p0, p1, ':') {
        None => None,
        Some(c) => {
            assert(p.take(c - p0) =~= v@.subrange(p0 as int, c as int));
            assert(p.skip(c - p0 + 1) =~= v@.subrange(c + 1, p1 as int));
            let (n0, n1) = trim_bounds(v, p0, c);
            let (t0, t1) = trim_bounds(v, c + 1, p1);
            if n0 < n1 && t0 < t1 {
                Some((substring(s, n0, n1), substring(s, t0, t1)))
            } else {
                None
            }
        },
    }
}

/// `seed_entries` of the chars `from..to` of `s`.
fn seed_entries_at(s: &str, v: &Vec<char>, from: usize, to: usize) -> (r: Vec<(String, String)>)
    requires
        v@ == s@,
        from <= to <= v@.len(),
    ensures
        pairs_view(r@) == seed_entries(v@.subrange(from as int, to as int)),
{
    let mut result: Vec<(String, String)> = Vec::new();
    let mut pos = from;
    loop
        invariant_except_break
            seed_entries(v@.subrange(from as int, to as int)) == pairs_view(result@)
                + seed_entries(v@.subrange(pos as int, to as int)),
        invariant
            v@ == s@,
            from <= pos <= to <= v@.len(),
        ensures
            seed_entries(v@.subrange(from as int, to as int)) == pairs_view(result@),
        decreases to - pos,
    {
        let ghost w = v@.subrange(pos as int, to as int);
        let ghost before = result@;
        match find_char(v, pos, to, ',') {
            Some(k) => {
                assert(w.take(k - pos) =~= v@.subrange(pos as int, k as int));
                assert(w.skip(k - pos + 1) =~= v@.subrange(k + 1, to as int));
                let e = seed_entry_at(s, v, pos, k);
                if let Some(pair) = e {
                    result.push(pair);
                }
                assert(pairs_view(result@) =~= pairs_view(before) + opt_seq(
                    seed_entry(w.take(k - pos)),
                ));
                pos = k + 1;
            },
            None => {
                let e = seed_entry_at(s, v, pos, to);
                if let Some(pair) = e {
                    result.push(pair);
                }
                assert(pairs_view(result@) =~= pairs_view(before) + opt_seq(seed_entry(w)));
                break ;
            },
        }
    }
    result
}

/// Extract dynamic seed `name: Type` pairs from a seeds token string.
/// e.g. `b"escrow" , maker : Address` → [("maker", "Address")]
pub fn parse_dynamic_seeds(tokens_str: &str) -> (r: Vec<(String, String)>)
    ensures
        pairs_view(r@) == dynamic_seeds(tokens_str@),
{
    let v = chars_of(tokens_str);
    let (a, b) = trim_bounds(&v, 0, v.len());
    let ghost t = v@.subrange(a as int, b as int);
    assert(v@.subrange(0, v@.len() as int) =~= v@);
    let st = match find_pair(&v, a, b, 'b', '"') {
        Some(st) => st,
        None => return Vec::new(),
    };
    assert(t.skip(st - a + 2) =~= v@.subrange(st + 2, b as int));
    let e = match find_char(&v, st + 2, b, '"') {
        Some(e) => e,
        None => return Vec::new(),
    };
    assert(t.skip(st - a + 2).skip(e - (st + 2) + 1) =~= v@.subrange(e + 1, b as int));
    seed_entries_at(tokens_str, &v, e + 1, b)
}

/// What the parsers read of one attribute of an item.
pub struct AttributeInfo {
    /// The attribute's path when it is a single identifier (`seeds` for
    /// `#[seeds(...)]`).
    pub ident: Option<String>,
    /// The text of the tokens inside the brackets, when the attribute is a
    /// list (`#[name(...)]`).
    pub list_tokens: Option<String>,
}

pub open spec fn ostr(o: Option<String>) -> Option<Seq<char>> {
    match o {
        Some(s) => Some(s@),
        None => None,
    }
}

/// The attribute is `#[<name>(...)]`.
pub open spec fn is_list_named(a: AttributeInfo, name: Seq<char>) -> bool {
    ostr(a.ident) == Some(name) && a.list_tokens is Some
}

pub open spec fn typed_seeds_view(r: RawTypedSeeds) -> (Seq<u8>, Seq<(Seq<char>, Seq<char>)>) {
    (r.prefix@, pairs_view(r.dynamic_seeds@))
}

/// The first `#[seeds(...)]` list decides: its prefix and dynamic seeds, or
/// nothing when it has no `b"..."` prefix.
pub open spec fn seeds_attr(attrs: Seq<AttributeInfo>) -> Option<(Seq<u8>, Seq<(Seq<char>, Seq<char>)>)>
    decreases attrs.len(),
{
    if attrs.len() == 0 {
        None
    } else if is_list_named(attrs[0], "seeds"@) {
        let t = attrs[0].list_tokens->0@;
        match seed_prefix(t) {
            None => None,
            Some(p) => Some((p, dynamic_seeds(t))),
        }
    } else {
        seeds_attr(attrs.drop_first())
    }
}

fn is_named(a: &AttributeInfo, name: &str) -> (b: bool)
    ensures
        b == (ostr(a.ident) == Some(name@)),
{
    match &a.ident {
        Some(id) => str_eq(id.as_str(), name),
        None => false,
    }
}

/// Parse `#[seeds(b"prefix", name: Type, ...)]` from struct attributes.
pub fn parse_seeds_attr(attrs: &Vec<AttributeInfo>) -> (r: Option<RawTypedSeeds>)
    ensures
        match r {
            Some(seeds) => seeds_attr(attrs@) == Some(typed_seeds_view(seeds)),
            None => seeds_attr(attrs@) is None,
        },
{
    let mut i: usize = 0;
    assert(attrs@.skip(0) =~= attrs@);
    while i < attrs.len()
        invariant
            i <= attrs@.len(),
            seeds_attr(attrs@) == seeds_attr(attrs@.skip(i as int)),
        decreases attrs@.len() - i,
    {
        assert(attrs@.skip(i as int).drop_first() =~= attrs@.skip(i + 1));
        assert(attrs@.skip(i as int)[0] == attrs@[i as int]);
        let a = &attrs[i];
        if is_named(a, "seeds") {
            if let Some(tokens) = &a.list_tokens {
                let prefix = match parse_seed_prefix(tokens.as_str()) {
                    Some(p) => p,
                    None => return None,
                };
                let dynamic_seeds = parse_dynamic_seeds(tokens.as_str());
                return Some(RawTypedSeeds { prefix, dynamic_seeds });
            }
        }
        i = i + 1;
    }
    None
}

/// One byte, written in decimal between optional whitespace.
pub open spec fn byte_item(s: Seq<char>) -> Option<u8> {
    match parse_u32_spec(trim(s)) {
        Some(v) => if v <= 255 {
            Some(v as u8)
        } else {
            None
        },
        None => None,
    }
}

/// Comma-separated bytes; `None` when one of them is no byte.
pub open spec fn byte_items(s: Seq<char>) -> Option<Seq<u8>>
    decreases s.len(),
{
    match index_of(s, ',') {
        None => match byte_item(s) {
            Some(b) => Some(seq![b]),
            None => None,
        },
        Some(k) => if 0 <= k < s.len() {
            match (byte_item(s.take(k)), byte_items(s.skip(k + 1))) {
                (Some(b), Some(rest)) => Some(seq![b] + rest),
                _ => None,
            }
        } else {
            None
        },
    }
}

/// The value of `discriminator = ...` in an attribute's token text: after
/// the first `=`, either a bracketed list of bytes `[1, 2]`, or one byte
/// (up to the next comma).
pub open spec fn discriminator_value(t: Seq<char>) -> Option<Seq<u8>> {
    match index_of(t, '=') {
        None => None,
        Some(e) => {
            let rest = trim(t.skip(e + 1));
            if rest.len() > 0 && rest[0] == '[' {
                match index_of(rest, ']') {
                    None => None,
                    Some(c) => byte_items(rest.subrange(1, c)),
                }
            } else {
                let item = match index_of(rest, ',') {
                    Some(k) => rest.take(k),
                    None => rest,
                };
                match byte_item(item) {
                    Some(b) => Some(seq![b]),
                    None => None,
                }
            }
        },
    }
}

fn byte_item_at(s: &str, from: usize, to: usize) -> (r: Option<u8>)
    requires
        from <= to <= s@.len(),
    ensures
        r == byte_item(s@.subrange(from as int, to as int)),
{
    let v = chars_of(s);
    let (a, b) = trim_bounds(&v, from, to);
    let item = substring(s, a, b);
    match parse_u32(item.as_str()) {
        Some(x) => if x <= 255 {
            Some(x as u8)
        } else {
            None
        },
        None => None,
    }
}

fn byte_items_at(s: &str, from: usize, to: usize) -> (r: Option<Vec<u8>>)
    requires
        from <= to <= s@.len(),
    ensures
        match r {
            Some(bytes) => byte_items(s@.subrange(from as int, to as int)) == Some(bytes@),
            None => byte_items(s@.subrange(from as int, to as int)) is None,
        },
{
    let v = chars_of(s);
    let mut out: Vec<u8> = Vec::new();
    let mut pos = from;
    loop
        invariant_except_break
            byte_items(s@.subrange(from as int, to as int)) == match byte_items(
                s@.subrange(pos as int, to as int),
            ) {
                Some(rest) => Some(out@ + rest),
                None => None,
            },
        invariant
            v@ == s@,
            from <= pos <= to <= s@.len(),
        ensures
            byte_items(s@.subrange(from as int, to as int)) == Some(out@),
        decreases to - pos,
    {
        let ghost w = s@.subrange(pos as int, to as int);
        let ghost before = out@;
        match find_char(&v, pos, to, ',') {
            Some(k) => {
                assert(w.take(k - pos) =~= s@.subrange(pos as int, k as int));
                assert(w.skip(k - pos + 1) =~= s@.subrange(k + 1, to as int));
                match byte_item_at(s, pos, k) {
                    Some(b) => {
                        out.push(b);
                        proof {
                            match byte_items(s@.subrange(k + 1, to as int)) {
                                Some(rest) => {
                                    assert(before + (seq![b] + rest) =~= out@ + rest);
                                },
                                None => {},
                            }
                        }
                    },
                    None => return None,
                }
                pos = k + 1;
            },
            None => {
                match byte_item_at(s, pos, to) {
                    Some(b) => {
                        out.push(b);
                        assert(before + seq![b] =~= out@);
                    },
                    None => return None,
                }
                break ;
            },
        }
    }
    Some(out)
}

/// Reads the discriminator bytes of an `#[account(discriminator = ...)]`
/// token text.
pub fn parse_discriminator_value(tokens: &str) -> (r: Option<Vec<u8>>)
    ensures
        match r {
            Some(bytes) => discriminator_value(tokens@) == Some(bytes@),
            None => discriminator_value(tokens@) is None,
        },
{
    let v = chars_of(tokens);
    let n = v.len();
    assert(v@.subrange(0, n as int) =~= v@);
    let e = match find_char(&v, 0, n, '=') {
        Some(e) => e,
        None => return None,
    };
    assert(v@.skip(e + 1) =~= v@.subrange(e + 1, n as int));
    let (a, b) = trim_bounds(&v, e + 1, n);
    let ghost rest = v@.subrange(a as int, b as int);
    if a < b && v[a] == '[' {
        let c = match find_char(&v, a, b, ']') {
            Some(c) => c,
            None => return None,
        };
        assert(rest.subrange(1, c - a) =~= v@.subrange(a + 1, c as int));
        byte_items_at(tokens, a + 1, c)
    } else {
        let end = match find_char(&v, a, b, ',') {
            Some(k) => {
                assert(rest.take(k - a) =~= v@.subrange(a as int, k as int));
                k
            },
            None => b,
        };
        match byte_item_at(tokens, a, end) {
            Some(x) => {
                let mut out: Vec<u8> = Vec::new();
                out.push(x);
                assert(out@ =~= seq![x]);
                Some(out)
            },
            None => None,
        }
    }
}

/// The first `#[account(...)]` list whose text mentions `discriminator`
/// gives the discriminator (or nothing, when its value cannot be read).
pub open spec fn account_discriminator(attrs: Seq<AttributeInfo>) -> Option<Seq<u8>>
    decreases attrs.len(),
{
    if attrs.len() == 0 {
        None
    } else if is_list_named(attrs[0], "account"@) && contains_seq(
        attrs[0].list_tokens->0@,
        "discriminator"@,
    ) {
        discriminator_value(attrs[0].list_tokens->0@)
    } else {
        account_discriminator(attrs.drop_first())
    }
}

/// Check if a struct has `#[account(discriminator = N)]` and extract the
/// discriminator.
pub fn get_account_discriminator(attrs: &Vec<AttributeInfo>) -> (r: Option<Vec<u8>>)
    ensures
        match r {
            Some(d) => account_discriminator(attrs@) == Some(d@),
            None => account_discriminator(attrs@) is None,
        },
{
    let mut i: usize = 0;
    assert(attrs@.skip(0) =~= attrs@);
    while i < attrs.len()
        invariant
            i <= attrs@.len(),
            account_discriminator(attrs@) == account_discriminator(attrs@.skip(i as int)),
        decreases attrs@.len() - i,
    {
        assert(attrs@.skip(i as int).drop_first() =~= attrs@.skip(i + 1));
        assert(attrs@.skip(i as int)[0] == attrs@[i as int]);
        let a = &attrs[i];
        if is_named(a, "account") {
            if let Some(tokens) = &a.list_tokens {
                if contains_str(tokens.as_str(), "discriminator") {
                    return parse_discriminator_value(tokens.as_str());
                }
            }
        }
        i = i + 1;
    }
    None
}

/// An item of a parsed source file.
pub enum ItemInfo<T> {
    /// A struct: its name, attributes, and its named fields with their types
    /// (`None` for a tuple or unit struct).
    Struct { name: String, attrs: Vec<AttributeInfo>, named_fields: Option<Vec<(String, T)>> },
    /// Any other item.
    Other,
}

/// Raw parsed data for a `#[account(discriminator = N)]` struct.
pub struct RawStateAccount<T> {
    pub name: String,
    pub discriminator: Vec<u8>,
    pub fields: Vec<(String, T)>,
    pub seeds: Option<RawTypedSeeds>,
}

pub open spec fn fields_view<T>(f: Seq<(String, T)>) -> Seq<(Seq<char>, T)> {
    f.map_values(|p: (String, T)| (p.0@, p.1))
}

pub open spec fn seeds_view(s: Option<RawTypedSeeds>) -> Option<(Seq<u8>, Seq<(Seq<char>, Seq<char>)>)> {
    match s {
        Some(x) => Some(typed_seeds_view(x)),
        None => None,
    }
}

pub open spec fn account_view<T>(a: RawStateAccount<T>) -> (Seq<char>, Seq<u8>, Seq<(Seq<char>, T)>, Option<(Seq<u8>, Seq<(Seq<char>, Seq<char>)>)>) {
    (a.name@, a.discriminator@, fields_view(a.fields@), seeds_view(a.seeds))
}

pub open spec fn opt_fields_view<T>(f: Option<Vec<(String, T)>>) -> Seq<(Seq<char>, T)> {
    match f {
        Some(f) => fields_view(f@),
        None => seq![],
    }
}

/// The state account an item declares, if it is a struct with a readable
/// account discriminator: tuple and unit structs have no fields.
pub open spec fn state_account_of<T>(item: ItemInfo<T>) -> Option<(Seq<char>, Seq<u8>, Seq<(Seq<char>, T)>, Option<(Seq<u8>, Seq<(Seq<char>, Seq<char>)>)>)> {
    match item {
        ItemInfo::Struct { name, attrs, named_fields } => match account_discriminator(attrs@) {
            Some(d) => Some(
                (
                    name@,
                    d,
                    opt_fields_view(named_fields),
                    seeds_attr(attrs@),
                ),
            ),
            None => None,
        },
        ItemInfo::Other => None,
    }
}

/// The state accounts of the items, in order.
pub open spec fn state_accounts<T>(items: Seq<ItemInfo<T>>) -> Seq<(Seq<char>, Seq<u8>, Seq<(Seq<char>, T)>, Option<(Seq<u8>, Seq<(Seq<char>, Seq<char>)>)>)>
    decreases items.len(),
{
    if items.len() == 0 {
        seq![]
    } else {
        state_accounts(items.drop_last()) + match state_account_of(items.last()) {
            Some(a) => seq![a],
            None => seq![],
        }
    }
}

/// Extract all `#[account(discriminator = N)]` structs from a parsed file.
pub fn extract_state_accounts<T>(items: Vec<ItemInfo<T>>) -> (r: Vec<RawStateAccount<T>>)
    ensures
        r@.map_values(|a: RawStateAccount<T>| account_view(a)) == state_accounts(items@),
{
    let ghost all = items@;
    let n = items.len();
    let mut rest = items;
    let mut result: Vec<RawStateAccount<T>> = Vec::new();
    let mut k: usize = 0;
    assert(all.take(0) =~= Seq::<ItemInfo<T>>::empty());
    assert(all.skip(0) =~= all);
    while rest.len() > 0
        invariant
            all.len() == n,
            k <= all.len(),
            rest@ == all.skip(k as int),
            result@.map_values(|a: RawStateAccount<T>| account_view(a)) == state_accounts(
                all.take(k as int),
            ),
        decreases rest@.len(),
    {
        let item = rest.remove(0);
        assert(item == all[k as int]);
        assert(all.take(k + 1).drop_last() =~= all.take(k as int));
        assert(all.take(k + 1).last() == item);
        let ghost before = result@;
        let ghost expected = match state_account_of(all[k as int]) {
            Some(a) => seq![a],
            None => seq![],
        };
        match item {
            ItemInfo::Struct { name, attrs, named_fields } => {
                if let Some(disc) = get_account_discriminator(&attrs) {
                    let ghost fv = opt_fields_view(named_fields);
                    let fields = match named_fields {
                        Some(f) => f,
                        None => Vec::new(),
                    };
                    assert(fields_view(fields@) =~= fv);
                    let seeds = parse_seeds_attr(&attrs);
                    assert(seeds_view(seeds) == seeds_attr(attrs@));
                    let acct = RawStateAccount { name, discriminator: disc, fields, seeds };
                    assert(expected == seq![account_view(acct)]);
                    result.push(acct);
                } else {
                    assert(expected =~= Seq::empty());
                }
            },
            ItemInfo::Other => {
                assert(expected =~= Seq::empty());
            },
        }
        assert(result@.map_values(|a: RawStateAccount<T>| account_view(a)) =~= before.map_values(
            |a: RawStateAccount<T>| account_view(a),
        ) + expected);
        k = k + 1;
        assert(rest@ =~= all.skip(k as int));
    }
    assert(all.take(k as int) =~= all);
    result
}

/// An entry of the IDL's "accounts" array.
pub struct IdlAccountDef {
    pub name: String,
    pub discriminator: Vec<u8>,
}

/// Convert a `RawStateAccount` to an `IdlAccountDef` (for the "accounts"
/// array).
pub fn to_idl_account_def<T>(raw: &RawStateAccount<T>) -> (d: IdlAccountDef)
    ensures
        d.name@ == raw.name@,
        d.discriminator@ == raw.discriminator@,
{
    IdlAccountDef { name: raw.name.clone(), discriminator: raw.discriminator.clone() }
}

/// A field of an IDL type, its type mapped to `Ty`.
pub struct IdlField<Ty> {
    pub name: String,
    pub ty: Ty,
}

/// An entry of the IDL's "types" array: a struct and its fields.
pub struct IdlTypeDef<Ty> {
    pub name: String,
    /// Always `struct`.
    pub kind: String,
    pub fields: Vec<IdlField<Ty>>,
}

/// snake_case to camelCase: underscores dropped, the first char of every
/// word after the first (ASCII letters only) in upper case.
pub fn to_camel_case(s: &str) -> (r: String)
    ensures
        r@ == pascal_of(s@, false),
{
    crate::text::snake_to_camel(s)
}

/// Convert a `RawStateAccount` to an `IdlTypeDef` (for the "types" array):
/// every field name in camelCase, every type mapped by `map_type`.
pub fn to_idl_type_def<T, Ty, F: Fn(&T) -> Ty>(raw: &RawStateAccount<T>, map_type: F) -> (d: IdlTypeDef<Ty>)
    requires
        forall|i: int| 0 <= i < raw.fields@.len() ==> call_requires(map_type, (&raw.fields@[i].1,)),
    ensures
        d.name@ == raw.name@,
        d.kind@ == "struct"@,
        d.fields@.len() == raw.fields@.len(),
        forall|i: int|
            0 <= i < raw.fields@.len() ==> (#[trigger] d.fields@[i]).name@ == pascal_of(
                raw.fields@[i].0@,
                false,
            ) && call_ensures(map_type, (&raw.fields@[i].1,), d.fields@[i].ty),
{
    let mut fields: Vec<IdlField<Ty>> = Vec::new();
    let mut i: usize = 0;
    while i < raw.fields.len()
        invariant
            forall|i: int| 0 <= i < raw.fields@.len() ==> call_requires(map_type, (&raw.fields@[i].1,)),
            i <= raw.fields@.len(),
            fields@.len() == i,
            forall|j: int|
                0 <= j < i ==> (#[trigger] fields@[j]).name@ == pascal_of(raw.fields@[j].0@, false)
                    && call_ensures(map_type, (&raw.fields@[j].1,), fields@[j].ty),
        decreases raw.fields@.len() - i,
    {
        let (name, ty) = &raw.fields[i];
        let f = IdlField { name: to_camel_case(name.as_str()), ty: map_type(ty) };
        fields.push(f);
        i = i + 1;
    }
    IdlTypeDef { name: raw.name.clone(), kind: String::from_str("struct"), fields }
}

/// Without a `b"..."` prefix there are no dynamic seeds either.
pub proof fn no_prefix_no_dynamic_seeds(s: Seq<char>)
    requires
        seed_prefix(s) is None,
    ensures
        dynamic_seeds(s) == Seq::<(Seq<char>, Seq<char>)>::empty(),
{
}

/// A well-formed seed entry: name and type non-empty, without surrounding
/// whitespace or commas, the name without a colon.
pub open spec fn entry_wf(e: (Seq<char>, Seq<char>)) -> bool {
    &&& e.0.len() > 0 && e.1.len() > 0
    &&& !is_ws(e.0[0]) && !is_ws(e.0.last()) && !is_ws(e.1[0]) && !is_ws(e.1.last())
    &&& forall|i: int| 0 <= i < e.0.len() ==> #[trigger] e.0[i] != ',' && e.0[i] != ':'
    &&& forall|i: int| 0 <= i < e.1.len() ==> #[trigger] e.1[i] != ','
}

proof fn lemma_trim_bounds_spec(s: Seq<char>)
    ensures
        exists|a: int, b: int| 0 <= a <= b <= s.len() && trim(s) == s.subrange(a, b),
        trim(s).len() > 0 ==> !is_ws(trim(s)[0]) && !is_ws(trim(s).last()),
    decreases s.len(),
{
    lemma_trim_start_shape(s);
    let t = trim_start(s);
    lemma_trim_end_shape(t);
    let (a, b) = choose|a: int, b: int| 0 <= a <= b <= s.len() && t == s.subrange(a, b);
    let (c, d) = choose|c: int, d: int| 0 <= c <= d <= t.len() && trim_end(t) == t.subrange(c, d);
    assert(trim(s) =~= s.subrange(a + c, a + d));
}

proof fn lemma_trim_start_shape(s: Seq<char>)
    ensures
        exists|a: int, b: int| 0 <= a <= b <= s.len() && trim_start(s) == s.subrange(a, b),
        trim_start(s).len() > 0 ==> !is_ws(trim_start(s)[0]),
    decreases s.len(),
{
    if s.len() > 0 && is_ws(s[0]) {
        lemma_trim_start_shape(s.drop_first());
        let (a, b) = choose|a: int, b: int|
            0 <= a <= b <= s.drop_first().len() && trim_start(s.drop_first()) == s.drop_first().subrange(a, b);
        assert(trim_start(s) =~= s.subrange(a + 1, b + 1));
    } else {
        assert(s =~= s.subrange(0, s.len() as int));
    }
}

proof fn lemma_trim_end_shape(s: Seq<char>)
    ensures
        exists|a: int, b: int| 0 <= a <= b <= s.len() && trim_end(s) == s.subrange(a, b),
        trim_end(s).len() > 0 ==> !is_ws(trim_end(s).last()) && trim_end(s)[0] == s[0],
    decreases s.len(),
{
    if s.len() > 0 && is_ws(s.last()) {
        lemma_trim_end_shape(s.drop_last());
        let (a, b) = choose|a: int, b: int|
            0 <= a <= b <= s.drop_last().len() && trim_end(s.drop_last()) == s.drop_last().subrange(a, b);
        assert(trim_end(s) =~= s.subrange(a, b));
    } else {
        assert(s =~= s.subrange(0, s.len() as int));
    }
}

proof fn lemma_trim_keeps_absent(s: Seq<char>, c: char)
    requires
        forall|i: int| 0 <= i < s.len() ==> #[trigger] s[i] != c,
    ensures
        forall|i: int| 0 <= i < trim(s).len() ==> #[trigger] trim(s)[i] != c,
{
    lemma_trim_bounds_spec(s);
    let (a, b) = choose|a: int, b: int| 0 <= a <= b <= s.len() && trim(s) == s.subrange(a, b);
    assert forall|i: int| 0 <= i < trim(s).len() implies trim(s)[i] != c by {
        assert(trim(s)[i] == s[a + i]);
    }
}

proof fn lemma_seed_entry_wf(part: Seq<char>)
    requires
        forall|i: int| 0 <= i < part.len() ==> #[trigger] part[i] != ',',
    ensures
        seed_entry(part) matches Some(e) ==> entry_wf(e),
{
    let p = trim(part);
    lemma_trim_keeps_absent(part, ',');
    if p.len() > 0 {
        if let Some(k) = index_of(p, ':') {
            assert(is_first_of(p, ':', k));
            let head = p.take(k);
            let tail = p.skip(k + 1);
            lemma_trim_bounds_spec(head);
            lemma_trim_bounds_spec(tail);
            assert forall|i: int| 0 <= i < head.len() implies head[i] != ',' by {
                assert(head[i] == p[i]);
            }
            assert forall|i: int| 0 <= i < head.len() implies head[i] != ':' by {
                assert(head[i] == p[i]);
            }
            assert forall|i: int| 0 <= i < tail.len() implies tail[i] != ',' by {
                assert(tail[i] == p[i + k + 1]);
            }
            lemma_trim_keeps_absent(head, ',');
            lemma_trim_keeps_absent(head, ':');
            lemma_trim_keeps_absent(tail, ',');
        }
    }
}

/// Every dynamic seed read from a token text is a non-empty, trimmed name
/// without commas or colons, paired with a non-empty, trimmed type without
/// commas.
pub proof fn dynamic_seeds_are_well_formed(s: Seq<char>)
    ensures
        forall|i: int| 0 <= i < dynamic_seeds(s).len() ==> entry_wf(#[trigger] dynamic_seeds(s)[i]),
{
    if let Some(p) = prefix_split(s) {
        lemma_seed_entries_wf(p.1);
    }
}

proof fn lemma_seed_entries_wf(s: Seq<char>)
    ensures
        forall|i: int| 0 <= i < seed_entries(s).len() ==> entry_wf(#[trigger] seed_entries(s)[i]),
    decreases s.len(),
{
    match index_of(s, ',') {
        None => {
            if exists|i: int| 0 <= i < s.len() && s[i] == ',' {
                let i = choose|i: int| 0 <= i < s.len() && s[i] == ',';
                lemma_some_first(s, ',', i);
            }
            lemma_seed_entry_wf(s);
        },
        Some(k) => {
            assert(is_first_of(s, ',', k));
            lemma_seed_entry_wf(s.take(k));
            lemma_seed_entries_wf(s.skip(k + 1));
            let head = opt_seq(seed_entry(s.take(k)));
            let rest = seed_entries(s.skip(k + 1));
            assert forall|i: int| 0 <= i < seed_entries(s).len() implies entry_wf(#[trigger] seed_entries(s)[i]) by {
                if i < head.len() {
                    assert(seed_entries(s)[i] == head[i]);
                } else {
                    assert(seed_entries(s)[i] == rest[i - head.len()]);
                }
            }
        },
    }
}

/// When `c` occurs in `s`, it has a first occurrence.
proof fn lemma_some_first(s: Seq<char>, c: char, i: int)
    requires
        0 <= i < s.len(),
        s[i] == c,
    ensures
        index_of(s, c) is Some,
    decreases i,
{
    if exists|j: int| 0 <= j < i && s[j] == c {
        let j = choose|j: int| 0 <= j < i && s[j] == c;
        lemma_some_first(s, c, j);
    } else {
        assert(is_first_of(s, c, i));
    }
}

} // verus!
